//! The rules that a request is held to before it reaches the database.

use vstd::prelude::*;
use vstd::string::StringExecFns;
use crate::error::{AppError, AppResult};

verus! {

/// The rule that a field of a request broke.
#[derive(Debug, Clone, Copy, PartialEq, Eq, Structural)]
pub enum Rule {
    /// The number of characters is outside the allowed span.
    Length,
    /// The number is outside the allowed span.
    Range,
    /// The text is not a URL.
    Url,
    /// The text does not have the required form.
    Format,
}

/// One broken rule: the field and the rule.
#[derive(Debug)]
pub struct FieldError {
    pub field: &'static str,
    pub rule: Rule,
}

/// The mathematical value of a [`FieldError`].
pub struct FieldErrorView {
    pub field: Seq<char>,
    pub rule: Rule,
}

impl View for FieldError {
    type V = FieldErrorView;

    open spec fn view(&self) -> FieldErrorView {
        FieldErrorView { field: self.field@, rule: self.rule }
    }
}

/// The mathematical values of a list of broken rules.
pub open spec fn errors_of(list: Seq<FieldError>) -> Seq<FieldErrorView> {
    Seq::new(list.len(), |i: int| list[i]@)
}

/// The list of broken rules after one more rule has been looked at: longer by
/// the rule's entry where the rule is broken.
pub open spec fn noted(
    list: Seq<FieldErrorView>,
    kept: bool,
    field: Seq<char>,
    rule: Rule,
) -> Seq<FieldErrorView> {
    if kept {
        list
    } else {
        list.push(FieldErrorView { field, rule })
    }
}

/// Records the rule as broken unless it was kept.
pub fn note(errors: &mut Vec<FieldError>, kept: bool, field: &'static str, rule: Rule)
    ensures
        errors_of(final(errors)@) == noted(errors_of(old(errors)@), kept, field@, rule),
{
    if !kept {
        errors.push(FieldError { field, rule });
    }
    proof {
        assert(errors_of(errors@) =~= noted(errors_of(old(errors)@), kept, field@, rule));
    }
}

/// The outcome of a validation with the given broken rules: success exactly
/// when there is none.
pub fn outcome(errors: Vec<FieldError>) -> (r: Result<(), Vec<FieldError>>)
    ensures
        r is Ok <==> errors@.len() == 0,
        r matches Err(list) ==> list == errors,
{
    if errors.len() == 0 {
        Ok(())
    } else {
        Err(errors)
    }
}

/// Whether a text that may be absent is absent or has a length between `min`
/// and `max`.
pub open spec fn opt_length_between(text: Option<Seq<char>>, min: nat, max: nat) -> bool {
    match text {
        Some(t) => length_between(t, min, max),
        None => true,
    }
}

/// Tests whether a text that may be absent is absent or has a length between
/// `min` and `max`.
pub fn check_opt_length(text: &Option<String>, min: usize, max: usize) -> (r: bool)
    ensures
        r == opt_length_between(crate::text::opt_text(*text), min as nat, max as nat),
{
    match text {
        Some(t) => check_length(t.as_str(), min, max),
        None => true,
    }
}

/// Whether a number that may be absent is absent or lies between `min` and
/// `max`, both included.
pub open spec fn opt_in_range(value: Option<i32>, min: int, max: int) -> bool {
    match value {
        Some(n) => min <= n <= max,
        None => true,
    }
}

/// Tests whether a number that may be absent is absent or lies between `min`
/// and `max`.
pub fn check_opt_range(value: Option<i32>, min: i32, max: i32) -> (r: bool)
    ensures
        r == opt_in_range(value, min as int, max as int),
{
    match value {
        Some(n) => min <= n && n <= max,
        None => true,
    }
}

/// Whether a text that may be absent is absent or a URL.
pub open spec fn opt_url(text: Option<Seq<char>>) -> bool {
    match text {
        Some(t) => url_parses(t),
        None => true,
    }
}

/// Tests whether a text that may be absent is absent or a URL.
pub fn check_opt_url(text: &Option<String>) -> (r: bool)
    ensures
        r == opt_url(crate::text::opt_text(*text)),
{
    match text {
        Some(t) => is_url(t.as_str()),
        None => true,
    }
}

/// Whether a text that may be absent is absent or a colour in the form
/// `#RRGGBB`.
pub open spec fn opt_hex_color(text: Option<Seq<char>>) -> bool {
    match text {
        Some(t) => is_hex_color(t),
        None => true,
    }
}

/// Tests whether a text that may be absent is absent or a colour in the form
/// `#RRGGBB`.
pub fn check_opt_hex_color(text: &Option<String>) -> (r: bool)
    ensures
        r == opt_hex_color(crate::text::opt_text(*text)),
{
    match text {
        Some(t) => check_hex_color(t.as_str()),
        None => true,
    }
}

/// Whether a URL parser accepts the text.
pub uninterp spec fn url_parses(text: Seq<char>) -> bool;

/// Tests whether the text is a URL. Calls `validate_url` of
/// `validator::ValidateUrl` on the text, which is true exactly when
/// `url::Url::parse` accepts it. The result is a function of the text alone.
#[verifier::external_body]
pub(crate) fn is_url(text: &str) -> (r: bool)
    ensures
        r == url_parses(text@),
{
    validator::ValidateUrl::validate_url(text)
}

/// Whether the number of characters of `text` lies between `min` and `max`,
/// both included.
pub open spec fn length_between(text: Seq<char>, min: nat, max: nat) -> bool {
    min <= text.len() <= max
}

/// Tests whether the number of characters of `text` lies between `min` and
/// `max`, both included.
pub fn check_length(text: &str, min: usize, max: usize) -> (r: bool)
    ensures
        r == length_between(text@, min as nat, max as nat),
{
    let n: usize = text.unicode_len();
    min <= n && n <= max
}

/// Whether `c` is a hexadecimal digit, in either case.
pub open spec fn is_hex_digit(c: char) -> bool {
    ('0' <= c && c <= '9') || ('a' <= c && c <= 'f') || ('A' <= c && c <= 'F')
}

/// Whether `text` is a colour in the form `#RRGGBB`: a number sign and six
/// hexadecimal digits.
pub open spec fn is_hex_color(text: Seq<char>) -> bool {
    &&& text.len() == 7
    &&& text[0] == '#'
    &&& forall|i: int| 1 <= i < 7 ==> is_hex_digit(#[trigger] text[i])
}

/// Tests whether `text` is a colour in the form `#RRGGBB`.
pub fn check_hex_color(text: &str) -> (r: bool)
    ensures
        r == is_hex_color(text@),
{
    if text.unicode_len() != 7 {
        return false;
    }
    if text.get_char(0) != '#' {
        return false;
    }
    let mut i: usize = 1;
    while i < 7
        invariant
            1 <= i <= 7,
            text@.len() == 7,
            text@[0] == '#',
            forall|j: int| 1 <= j < i ==> is_hex_digit(#[trigger] text@[j]),
        decreases 7 - i,
    {
        let c = text.get_char(i);
        let ok = ('0' <= c && c <= '9') || ('a' <= c && c <= 'f') || ('A' <= c && c <= 'F');
        if !ok {
            return false;
        }
        i = i + 1;
    }
    true
}

/// The name under which a rule is reported.
pub open spec fn rule_name(rule: Rule) -> Seq<char> {
    match rule {
        Rule::Length => "length"@,
        Rule::Range => "range"@,
        Rule::Url => "url"@,
        Rule::Format => "regex"@,
    }
}

/// The report of the first `count` broken rules: one line for each, made of
/// the field, a colon and the rule's name.
pub open spec fn report(errors: Seq<FieldErrorView>, count: nat) -> Seq<char>
    decreases count,
{
    if count == 0 {
        Seq::empty()
    } else {
        let before = report(errors, (count - 1) as nat);
        let joined = if count == 1 { before } else { before + "\n"@ };
        joined + errors[count - 1].field + ": "@ + rule_name(errors[count - 1].rule)
    }
}

/// The outcome of a validation as the endpoints report it: success, or the
/// failure that reports the broken rules.
pub fn require_valid(checked: Result<(), Vec<FieldError>>) -> (r: AppResult<()>)
    ensures
        match checked {
            Ok(_) => r is Ok,
            Err(list) => r matches Err(AppError::ValidationError(m)) && m@ == report(
                errors_of(list@),
                list@.len(),
            ),
        },
{
    match checked {
        Ok(_) => Ok(()),
        Err(list) => Err(validation_error(&list)),
    }
}

/// The failure that reports the broken rules of a request.
pub fn validation_error(errors: &Vec<FieldError>) -> (e: AppError)
    ensures
        e matches AppError::ValidationError(m) && m@ == report(
            errors_of(errors@),
            errors@.len(),
        ),
{
    let mut m = String::new();
    let mut i: usize = 0;
    while i < errors.len()
        invariant
            i <= errors@.len(),
            m@ == report(errors_of(errors@), i as nat),
        decreases errors@.len() - i,
    {
        if i > 0 {
            m.append("\n");
        }
        m.append(errors[i].field);
        m.append(": ");
        match errors[i].rule {
            Rule::Length => m.append("length"),
            Rule::Range => m.append("range"),
            Rule::Url => m.append("url"),
            Rule::Format => m.append("regex"),
        }
        i = i + 1;
    }
    AppError::ValidationError(m)
}

} // verus!
