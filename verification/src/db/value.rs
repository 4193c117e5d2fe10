//! The values that are bound to placeholders, and the truth values that
//! rows hold in more than one form.

use vstd::prelude::*;
use vstd::string::StringExecFns;
use crate::db::time::Timestamp;
use crate::db::Dialect;
use crate::text::{copy_texts, opt_text, str_eq, texts};

verus! {

/// The type of a bound value. A value that is absent is bound as the null
/// of the type of its column.
#[derive(Debug, Clone, Copy, PartialEq, Eq, Structural)]
pub enum SqlType {
    Bool,
    Int32,
    Int64,
    Real,
    Text,
    Timestamp,
}

/// A value bound to a placeholder.
#[derive(Debug, Clone)]
pub enum SqlValue {
    Null(SqlType),
    Bool(bool),
    Int32(i32),
    Int64(i64),
    /// A single-precision number, held as its IEEE 754 bit pattern.
    Real(u32),
    Text(String),
    Timestamp(Timestamp),
    TextList(Vec<String>),
}

/// The mathematical value of a [`SqlValue`].
pub enum SqlParam {
    Null(SqlType),
    Bool(bool),
    Int32(i32),
    Int64(i64),
    Real(u32),
    Text(Seq<char>),
    Timestamp(Timestamp),
    TextList(Seq<Seq<char>>),
}

impl View for SqlValue {
    type V = SqlParam;

    open spec fn view(&self) -> SqlParam {
        match self {
            SqlValue::Null(t) => SqlParam::Null(*t),
            SqlValue::Bool(b) => SqlParam::Bool(*b),
            SqlValue::Int32(n) => SqlParam::Int32(*n),
            SqlValue::Int64(n) => SqlParam::Int64(*n),
            SqlValue::Real(bits) => SqlParam::Real(*bits),
            SqlValue::Text(s) => SqlParam::Text(s@),
            SqlValue::Timestamp(t) => SqlParam::Timestamp(*t),
            SqlValue::TextList(l) => SqlParam::TextList(texts(l@)),
        }
    }
}

/// What is bound for a text that may be absent.
pub open spec fn text_param(value: Option<Seq<char>>) -> SqlParam {
    match value {
        Some(s) => SqlParam::Text(s),
        None => SqlParam::Null(SqlType::Text),
    }
}

/// What is bound for a 32-bit integer that may be absent.
pub open spec fn int32_param(value: Option<i32>) -> SqlParam {
    match value {
        Some(n) => SqlParam::Int32(n),
        None => SqlParam::Null(SqlType::Int32),
    }
}

/// What is bound for a single-precision number that may be absent.
pub open spec fn real_param(value: Option<u32>) -> SqlParam {
    match value {
        Some(bits) => SqlParam::Real(bits),
        None => SqlParam::Null(SqlType::Real),
    }
}

/// What is bound for a truth value that may be absent.
pub open spec fn flag_param(value: Option<bool>) -> SqlParam {
    match value {
        Some(b) => SqlParam::Bool(b),
        None => SqlParam::Null(SqlType::Bool),
    }
}

impl SqlValue {
    /// The value bound for a text.
    pub fn text(value: &str) -> (r: SqlValue)
        ensures
            r@ == SqlParam::Text(value@),
    {
        SqlValue::Text(String::from_str(value))
    }

    /// The value bound for a text that may be absent.
    pub fn opt_text(value: &Option<String>) -> (r: SqlValue)
        ensures
            r@ == text_param(opt_text(*value)),
    {
        match value {
            Some(s) => SqlValue::Text(s.clone()),
            None => SqlValue::Null(SqlType::Text),
        }
    }

    /// The value bound for a 32-bit integer that may be absent.
    pub fn opt_int32(value: Option<i32>) -> (r: SqlValue)
        ensures
            r@ == int32_param(value),
    {
        match value {
            Some(n) => SqlValue::Int32(n),
            None => SqlValue::Null(SqlType::Int32),
        }
    }

    /// The value bound for a single-precision number that may be absent.
    pub fn opt_real(value: Option<u32>) -> (r: SqlValue)
        ensures
            r@ == real_param(value),
    {
        match value {
            Some(bits) => SqlValue::Real(bits),
            None => SqlValue::Null(SqlType::Real),
        }
    }

    /// The value bound for a truth value that may be absent.
    pub fn opt_flag(value: Option<bool>) -> (r: SqlValue)
        ensures
            r@ == flag_param(value),
    {
        match value {
            Some(b) => SqlValue::Bool(b),
            None => SqlValue::Null(SqlType::Bool),
        }
    }

    /// The value bound for a truth value: itself for Postgres, one or zero
    /// for SQLite.
    pub fn flag(dialect: Dialect, value: bool) -> (r: SqlValue)
        ensures
            r@ == bool_param(dialect, value),
    {
        match dialect {
            Dialect::Postgres => SqlValue::Bool(value),
            Dialect::Sqlite => SqlValue::Int32(if value { 1i32 } else { 0i32 }),
        }
    }

    /// A second value equal to this one.
    pub fn duplicate(&self) -> (r: SqlValue)
        ensures
            r@ == self@,
    {
        match self {
            SqlValue::Null(t) => SqlValue::Null(*t),
            SqlValue::Bool(b) => SqlValue::Bool(*b),
            SqlValue::Int32(n) => SqlValue::Int32(*n),
            SqlValue::Int64(n) => SqlValue::Int64(*n),
            SqlValue::Real(bits) => SqlValue::Real(*bits),
            SqlValue::Text(s) => SqlValue::Text(s.clone()),
            SqlValue::Timestamp(t) => SqlValue::Timestamp(*t),
            SqlValue::TextList(l) => {
                let copy = copy_texts(l);
                SqlValue::TextList(copy)
            },
        }
    }
}

/// The mathematical values of a list of bound values.
pub open spec fn params_of(values: Seq<SqlValue>) -> Seq<SqlParam> {
    Seq::new(values.len(), |i: int| values[i]@)
}

/// How a truth value is bound to a placeholder: as itself for Postgres, as
/// the integer one or zero for SQLite.
pub open spec fn bool_param(dialect: Dialect, value: bool) -> SqlParam {
    match dialect {
        Dialect::Postgres => SqlParam::Bool(value),
        Dialect::Sqlite => SqlParam::Int32(if value { 1i32 } else { 0i32 }),
    }
}

/// Adds a value at the end of a list.
pub fn push_value(list: &mut Vec<SqlValue>, value: SqlValue)
    ensures
        params_of(final(list)@) == params_of(old(list)@).push(value@),
{
    list.push(value);
    proof {
        assert(params_of(list@) =~= params_of(old(list)@).push(value@));
    }
}

/// A truth value as a row holds it. Postgres hands over a native truth
/// value; SQLite may hold the column as an integer or as text.
#[derive(Debug)]
pub enum RawFlag {
    Bool(bool),
    Integer(Option<i32>),
    Text(Option<String>),
    /// The column is missing or holds something else.
    Unreadable,
}

/// The mathematical value of a [`RawFlag`].
pub enum RawFlagView {
    Bool(bool),
    Integer(Option<i32>),
    Text(Option<Seq<char>>),
    Unreadable,
}

impl View for RawFlag {
    type V = RawFlagView;

    open spec fn view(&self) -> RawFlagView {
        match self {
            RawFlag::Bool(b) => RawFlagView::Bool(*b),
            RawFlag::Integer(n) => RawFlagView::Integer(*n),
            RawFlag::Text(t) => RawFlagView::Text(opt_text(*t)),
            RawFlag::Unreadable => RawFlagView::Unreadable,
        }
    }
}

/// The truth value that a raw column stands for: a native value is itself,
/// an integer is true unless it is zero, a text is true when it reads `1`,
/// `true` or `TRUE`; a column that is empty or unreadable is false.
pub open spec fn flag_of(raw: RawFlagView) -> bool {
    match raw {
        RawFlagView::Bool(b) => b,
        RawFlagView::Integer(n) => n matches Some(v) && v != 0,
        RawFlagView::Text(t) => t matches Some(s) && (s == "1"@ || s == "true"@ || s == "TRUE"@),
        RawFlagView::Unreadable => false,
    }
}

impl RawFlag {
    /// The truth value that this raw column stands for.
    pub fn normalize(&self) -> (r: bool)
        ensures
            r == flag_of(self@),
    {
        match self {
            RawFlag::Bool(b) => *b,
            RawFlag::Integer(n) => match n {
                Some(v) => *v != 0,
                None => false,
            },
            RawFlag::Text(t) => match t {
                Some(s) => str_eq(s.as_str(), "1") || str_eq(s.as_str(), "true") || str_eq(
                    s.as_str(),
                    "TRUE",
                ),
                None => false,
            },
            RawFlag::Unreadable => false,
        }
    }
}

} // verus!
