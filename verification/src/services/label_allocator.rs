//! Labels: four-character codes in base 36, handed out in sequence from one
//! counter that items and containers share.

use vstd::prelude::*;
use vstd::string::StringExecFns;
use vstd::arithmetic::div_mod::{
    lemma_fundamental_div_mod, lemma_fundamental_div_mod_converse, lemma_mod_bound,
};
use crate::error::{AppError, AppResult, ErrorKind};
use crate::text::{
    ascii_upper, lemma_text_less_at, lemma_text_order_irreflexive, push_char, text_less,
    to_ascii_upper,
};

verus! {

/// The largest value of the counter: the value of the label `ZZZZ`.
pub const MAX_LABEL_VALUE: u32 = 1679615;

/// The lower-case digit of base 36 for a value below 36.
pub open spec fn base36_digit(d: int) -> char {
    if d < 10 {
        (('0' as u8) + d) as char
    } else {
        (('a' as u8) + d - 10) as char
    }
}

/// The numeral of `n` in base 36, with lower-case letters for the digits
/// from ten on and without leading zeros.
pub open spec fn base36(n: nat) -> Seq<char>
    decreases n,
{
    if n < 36 {
        seq![base36_digit(n as int)]
    } else {
        base36(n / 36).push(base36_digit((n % 36) as int))
    }
}

/// Writes a number in base 36. Calls `radix_fmt::radix_36` and takes the text
/// that its `Display` gives: the digits of the number in base 36, most
/// significant first, `0` to `9` and then `a` to `z`, without padding.
#[verifier::external_body]
pub(crate) fn radix_36(n: u32) -> (s: String)
    ensures
        s@ == base36(n as nat),
{
    radix_fmt::radix_36(n).to_string()
}

/// The capital digit of base 36 for a value below 36.
pub open spec fn label_digit(d: int) -> char {
    if d < 10 {
        (('0' as u8) + d) as char
    } else {
        (('A' as u8) + d - 10) as char
    }
}

/// The label with the value `n`: its four digits in base 36, most
/// significant first, in capitals.
pub open spec fn label_text(n: int) -> Seq<char> {
    seq![
        label_digit((n / 46656) % 36),
        label_digit((n / 1296) % 36),
        label_digit((n / 36) % 36),
        label_digit(n % 36),
    ]
}

/// The value of a capital digit of base 36, or 36 for any other character.
pub open spec fn digit_value(c: char) -> int {
    if '0' <= c && c <= '9' {
        (c as u8) - ('0' as u8)
    } else if 'A' <= c && c <= 'Z' {
        (c as u8) - ('A' as u8) + 10
    } else {
        36
    }
}

/// Whether `code` is a label: four capital digits of base 36.
pub open spec fn is_label(code: Seq<char>) -> bool {
    &&& code.len() == 4
    &&& forall|i: int| 0 <= i < 4 ==> digit_value(#[trigger] code[i]) < 36
}

/// The value of a label.
pub open spec fn label_value(code: Seq<char>) -> int {
    digit_value(code[0]) * 46656 + digit_value(code[1]) * 1296 + digit_value(code[2]) * 36
        + digit_value(code[3])
}

/// A text padded on the left with zeros to four characters, its lower-case
/// ASCII letters turned into capitals.
pub open spec fn padded_capitals(s: Seq<char>) -> Seq<char> {
    Seq::new((4 - s.len()) as nat, |i: int| '0') + Seq::new(s.len(), |i: int| ascii_upper(s[i]))
}

/// The label of a value is its numeral in base 36, in capitals and padded
/// with zeros to four characters.
pub proof fn lemma_label_is_padded_numeral(n: nat)
    requires
        n <= MAX_LABEL_VALUE,
    ensures
        base36(n).len() <= 4,
        padded_capitals(base36(n)) == label_text(n as int),
{
    reveal_with_fuel(base36, 5);
    assert forall|d: int| 0 <= d < 36 implies ascii_upper(#[trigger] base36_digit(d))
        == label_digit(d) by {}
    assert(label_digit(0) == '0');
    if n < 36 {
        assert(padded_capitals(base36(n)) =~= label_text(n as int));
    } else if n < 1296 {
        assert(padded_capitals(base36(n)) =~= label_text(n as int));
    } else if n < 46656 {
        assert(padded_capitals(base36(n)) =~= label_text(n as int));
    } else {
        assert(padded_capitals(base36(n)) =~= label_text(n as int));
    }
}

/// The four digits of a value: each lies below 36, and together they make
/// up the value.
proof fn lemma_digits(n: int)
    requires
        0 <= n <= MAX_LABEL_VALUE,
    ensures
        0 <= (n / 46656) % 36 < 36,
        0 <= (n / 1296) % 36 < 36,
        0 <= (n / 36) % 36 < 36,
        0 <= n % 36 < 36,
        n == ((n / 46656) % 36) * 46656 + ((n / 1296) % 36) * 1296 + ((n / 36) % 36) * 36 + n % 36,
{
    let q1 = n / 36;
    let d3 = n % 36;
    assert(n == 36 * q1 + d3 && 0 <= d3 < 36) by {
        lemma_fundamental_div_mod(n, 36);
        lemma_mod_bound(n, 36);
    }
    assert(0 <= q1 < 46656);
    let q2 = q1 / 36;
    let d2 = q1 % 36;
    assert(q1 == 36 * q2 + d2 && 0 <= d2 < 36) by {
        lemma_fundamental_div_mod(q1, 36);
        lemma_mod_bound(q1, 36);
    }
    assert(0 <= q2 < 1296);
    let q3 = q2 / 36;
    let d1 = q2 % 36;
    assert(q2 == 36 * q3 + d1 && 0 <= d1 < 36) by {
        lemma_fundamental_div_mod(q2, 36);
        lemma_mod_bound(q2, 36);
    }
    assert(0 <= q3 < 36);
    lemma_fundamental_div_mod_converse(n, 1296, q2, d2 * 36 + d3);
    lemma_fundamental_div_mod_converse(n, 46656, q3, d1 * 1296 + d2 * 36 + d3);
    lemma_fundamental_div_mod_converse(q3, 36, 0, q3);
}

/// The value of a capital digit of base 36 is the value it was made from.
proof fn lemma_value_of_digit(d: int)
    requires
        0 <= d < 36,
    ensures
        digit_value(label_digit(d)) == d,
{
}

/// A label is a text of four capital digits, and its value is the number it
/// was made from: two values with the same label are the same value.
pub proof fn lemma_label_round_trip(n: int)
    requires
        0 <= n <= MAX_LABEL_VALUE,
    ensures
        label_text(n).len() == 4,
        is_label(label_text(n)),
        label_value(label_text(n)) == n,
{
    lemma_digits(n);
    let d0 = (n / 46656) % 36;
    let d1 = (n / 1296) % 36;
    let d2 = (n / 36) % 36;
    let d3 = n % 36;
    lemma_value_of_digit(d0);
    lemma_value_of_digit(d1);
    lemma_value_of_digit(d2);
    lemma_value_of_digit(d3);
    let t = label_text(n);
    assert(t[0] == label_digit(d0));
    assert(t[1] == label_digit(d1));
    assert(t[2] == label_digit(d2));
    assert(t[3] == label_digit(d3));
}

/// The capital digits of base 36 are ordered as their values are.
proof fn lemma_digit_order(d: int, e: int)
    requires
        0 <= d < e < 36,
    ensures
        label_digit(d) < label_digit(e),
{
}

/// Labels are ordered as their values are: the label of the smaller value
/// comes first in the order of a dictionary. So two values have the same
/// label only when they are the same value.
pub proof fn lemma_labels_increase(n: int, m: int)
    requires
        0 <= n < m <= MAX_LABEL_VALUE,
    ensures
        text_less(label_text(n), label_text(m)),
        label_text(n) != label_text(m),
{
    let a = label_text(n);
    let b = label_text(m);
    let a0 = (n / 46656) % 36;
    let b0 = (m / 46656) % 36;
    let a1 = (n / 1296) % 36;
    let b1 = (m / 1296) % 36;
    let a2 = (n / 36) % 36;
    let b2 = (m / 36) % 36;
    let a3 = n % 36;
    let b3 = m % 36;
    lemma_digits(n);
    lemma_digits(m);
    assert(a[0] == label_digit(a0) && a[1] == label_digit(a1) && a[2] == label_digit(a2) && a[3]
        == label_digit(a3));
    assert(b[0] == label_digit(b0) && b[1] == label_digit(b1) && b[2] == label_digit(b2) && b[3]
        == label_digit(b3));
    if a0 != b0 {
        lemma_digit_order(a0, b0);
        lemma_text_less_at(a, b, 0);
    } else if a1 != b1 {
        lemma_digit_order(a1, b1);
        lemma_text_less_at(a, b, 1);
    } else if a2 != b2 {
        lemma_digit_order(a2, b2);
        lemma_text_less_at(a, b, 2);
    } else {
        lemma_digit_order(a3, b3);
        lemma_text_less_at(a, b, 3);
    }
    lemma_text_order_irreflexive(a);
}

/// The label with the value `n`.
pub fn render_label(n: u32) -> (s: String)
    requires
        n <= MAX_LABEL_VALUE,
    ensures
        s@ == label_text(n as int),
{
    let raw = radix_36(n);
    let len: usize = raw.as_str().unicode_len();
    proof {
        lemma_label_is_padded_numeral(n as nat);
    }
    let mut s = String::new();
    let mut k: usize = len;
    while k < 4
        invariant
            len <= k <= 4,
            s@ == Seq::new((k - len) as nat, |i: int| '0'),
        decreases 4 - k,
    {
        push_char(&mut s, '0');
        k = k + 1;
        proof {
            assert(s@ =~= Seq::new((k - len) as nat, |i: int| '0'));
        }
    }
    let ghost zeros = s@;
    let mut i: usize = 0;
    while i < len
        invariant
            i <= len,
            len == raw@.len(),
            s@ == zeros + Seq::new(i as nat, |j: int| ascii_upper(raw@[j])),
        decreases len - i,
    {
        push_char(&mut s, to_ascii_upper(raw.as_str().get_char(i)));
        i = i + 1;
        proof {
            assert(s@ =~= zeros + Seq::new(i as nat, |j: int| ascii_upper(raw@[j])));
        }
    }
    s
}

/// A value is made up of its four digits in exactly one way.
proof fn lemma_digits_of_sum(d0: int, d1: int, d2: int, d3: int)
    requires
        0 <= d0 < 36,
        0 <= d1 < 36,
        0 <= d2 < 36,
        0 <= d3 < 36,
    ensures
        ({
            let n = d0 * 46656 + d1 * 1296 + d2 * 36 + d3;
            &&& 0 <= n <= MAX_LABEL_VALUE
            &&& (n / 46656) % 36 == d0
            &&& (n / 1296) % 36 == d1
            &&& (n / 36) % 36 == d2
            &&& n % 36 == d3
        }),
{
    let n = d0 * 46656 + d1 * 1296 + d2 * 36 + d3;
    let q2 = d0 * 1296 + d1 * 36 + d2;
    let q1 = d0 * 36 + d1;
    lemma_fundamental_div_mod_converse(n, 36, q2, d3);
    lemma_fundamental_div_mod_converse(q2, 36, q1, d2);
    lemma_fundamental_div_mod_converse(n, 1296, q1, d2 * 36 + d3);
    lemma_fundamental_div_mod_converse(q1, 36, d0, d1);
    lemma_fundamental_div_mod_converse(n, 46656, d0, d1 * 1296 + d2 * 36 + d3);
    lemma_fundamental_div_mod_converse(d0, 36, 0, d0);
}

/// A capital digit of base 36 is the digit of its value.
proof fn lemma_digit_of_value(c: char)
    requires
        digit_value(c) < 36,
    ensures
        0 <= digit_value(c),
        label_digit(digit_value(c)) == c,
{
}

/// The value of a capital digit of base 36, or `None` for another character.
fn parse_digit(c: char) -> (r: Option<u32>)
    ensures
        r is Some <==> digit_value(c) < 36,
        r matches Some(d) ==> d == digit_value(c),
{
    if '0' <= c && c <= '9' {
        Some(((c as u8) - ('0' as u8)) as u32)
    } else if 'A' <= c && c <= 'Z' {
        Some(((c as u8) - ('A' as u8) + 10) as u32)
    } else {
        None
    }
}

/// The value of a label, or `None` for a text that is no label.
pub fn parse_label(code: &str) -> (r: Option<u32>)
    ensures
        r is Some <==> is_label(code@),
        r matches Some(n) ==> n == label_value(code@) && n <= MAX_LABEL_VALUE && label_text(
            n as int,
        ) == code@,
{
    if code.unicode_len() != 4 {
        return None;
    }
    let d0: u32 = match parse_digit(code.get_char(0)) {
        Some(d) => d,
        None => { return None; },
    };
    let d1: u32 = match parse_digit(code.get_char(1)) {
        Some(d) => d,
        None => { return None; },
    };
    let d2: u32 = match parse_digit(code.get_char(2)) {
        Some(d) => d,
        None => { return None; },
    };
    let d3: u32 = match parse_digit(code.get_char(3)) {
        Some(d) => d,
        None => { return None; },
    };
    proof {
        lemma_digits_of_sum(d0 as int, d1 as int, d2 as int, d3 as int);
        lemma_digit_of_value(code@[0]);
        lemma_digit_of_value(code@[1]);
        lemma_digit_of_value(code@[2]);
        lemma_digit_of_value(code@[3]);
        assert(label_text(d0 * 46656 + d1 * 1296 + d2 * 36 + d3) =~= code@);
    }
    Some(d0 * 46656 + d1 * 1296 + d2 * 36 + d3)
}

/// The labels with the values `first` up to `first + count - 1`.
pub open spec fn labels_from(first: int, count: nat) -> Seq<Seq<char>> {
    Seq::new(count, |i: int| label_text(first + i))
}

/// The labels of one allocation are labels indeed, of four characters each;
/// they ascend in the order of a dictionary, and no two of them are equal.
pub proof fn lemma_allocated_labels(first: int, count: nat)
    requires
        0 <= first,
        first + count <= MAX_LABEL_VALUE + 1,
    ensures
        labels_from(first, count).len() == count,
        forall|i: int|
            0 <= i < count ==> (#[trigger] labels_from(first, count)[i]).len() == 4 && is_label(
                labels_from(first, count)[i],
            ),
        forall|i: int, j: int|
            0 <= i < j < count ==> text_less(
                #[trigger] labels_from(first, count)[i],
                #[trigger] labels_from(first, count)[j],
            ) && labels_from(first, count)[i] != labels_from(first, count)[j],
{
    let labels = labels_from(first, count);
    assert forall|i: int| 0 <= i < count implies (#[trigger] labels[i]).len() == 4 && is_label(
        labels[i],
    ) by {
        lemma_label_round_trip(first + i);
    }
    assert forall|i: int, j: int| 0 <= i < j < count implies text_less(
        #[trigger] labels[i],
        #[trigger] labels[j],
    ) && labels[i] != labels[j] by {
        lemma_labels_increase(first + i, first + j);
    }
}

/// What a run of allocations of one label each hands out, the counter
/// standing at `value` before the first of them: the labels in the order of
/// the allocations.
pub open spec fn single_allocations(value: int, calls: nat) -> Seq<Seq<char>>
    decreases calls,
{
    if calls == 0 {
        Seq::empty()
    } else {
        single_allocations(value, (calls - 1) as nat) + labels_from(value + calls, 1)
    }
}

/// Allocations of one label each, one after the other, hand out as many
/// labels as there were allocations: the labels of the values behind the
/// counter as it stood at first, up to the value at which it stands at last,
/// none left out and none handed out twice.
pub proof fn lemma_single_allocations(value: int, calls: nat)
    requires
        0 <= value,
        value + calls <= MAX_LABEL_VALUE,
    ensures
        single_allocations(value, calls) == labels_from(value + 1, calls),
        single_allocations(value, calls).len() == calls,
        forall|v: int|
            value < v <= value + calls ==> single_allocations(value, calls).contains(
                #[trigger] label_text(v),
            ),
        forall|i: int, j: int|
            0 <= i < j < calls ==> #[trigger] single_allocations(value, calls)[i]
                != #[trigger] single_allocations(value, calls)[j],
    decreases calls,
{
    if calls > 0 {
        lemma_single_allocations(value, (calls - 1) as nat);
        assert(single_allocations(value, calls) =~= labels_from(value + 1, calls));
    } else {
        assert(single_allocations(value, calls) =~= labels_from(value + 1, calls));
    }
    let labels = labels_from(value + 1, calls);
    assert forall|v: int| value < v <= value + calls implies labels.contains(
        #[trigger] label_text(v),
    ) by {
        assert(labels[v - value - 1] == label_text(v));
    }
    lemma_allocated_labels(value + 1, calls);
}

/// The singleton counter from which labels are drawn. It holds the value of
/// the label handed out last, so it never exceeds the value of `ZZZZ`, and an
/// allocation only ever raises it.
#[derive(Debug, Clone, Copy, PartialEq, Eq, Structural)]
pub struct LabelCounter {
    current_value: u32,
}

impl LabelCounter {
    /// The value of the label handed out last.
    pub closed spec fn value(&self) -> int {
        self.current_value as int
    }

    /// The counter lies in the range of the labels.
    #[verifier::type_invariant]
    spec fn wf(&self) -> bool {
        self.current_value <= MAX_LABEL_VALUE
    }

    /// The counter that stands at `current_value`, or `None` where that is
    /// no value of a label.
    pub fn new(current_value: i64) -> (r: Option<LabelCounter>)
        ensures
            r is Some <==> 0 <= current_value <= MAX_LABEL_VALUE,
            r matches Some(c) ==> c.value() == current_value,
    {
        if 0 <= current_value && current_value <= MAX_LABEL_VALUE as i64 {
            Some(LabelCounter { current_value: current_value as u32 })
        } else {
            None
        }
    }

    /// The value of the label handed out last.
    pub fn current_value(&self) -> (v: i64)
        ensures
            v == self.value(),
            0 <= v <= MAX_LABEL_VALUE,
    {
        proof {
            use_type_invariant(self);
        }
        self.current_value as i64
    }

    /// Hands out the next `quantity` labels and advances the counter past
    /// them. Where fewer than `quantity` labels are left the request is
    /// refused and the counter stays as it is.
    pub fn allocate(&mut self, quantity: u32) -> (r: AppResult<Vec<String>>)
        ensures
            0 <= final(self).value() <= MAX_LABEL_VALUE,
            old(self).value() + quantity <= MAX_LABEL_VALUE ==> {
                &&& r matches Ok(labels)
                &&& crate::text::texts(labels@) == labels_from(
                    old(self).value() + 1,
                    quantity as nat,
                )
                &&& final(self).value() == old(self).value() + quantity
            },
            old(self).value() + quantity > MAX_LABEL_VALUE ==> {
                &&& r matches Err(e)
                &&& e.is(ErrorKind::BadRequest, "Not enough label IDs available"@)
                &&& *final(self) == *old(self)
            },
    {
        proof {
            use_type_invariant(&*self);
        }
        if quantity > MAX_LABEL_VALUE - self.current_value {
            return Err(AppError::BadRequest(String::from_str("Not enough label IDs available")));
        }
        let first: u32 = self.current_value + 1;
        let mut labels: Vec<String> = Vec::new();
        let mut i: u32 = 0;
        while i < quantity
            invariant
                i <= quantity,
                first + quantity <= MAX_LABEL_VALUE + 1,
                labels@.len() == i,
                forall|j: int| 0 <= j < i ==> (#[trigger] labels@[j])@ == label_text(first + j),
            decreases quantity - i,
        {
            labels.push(render_label(first + i));
            i = i + 1;
        }
        proof {
            assert(crate::text::texts(labels@) =~= labels_from(first as int, quantity as nat));
        }
        self.current_value = self.current_value + quantity;
        Ok(labels)
    }
}

} // verus!
