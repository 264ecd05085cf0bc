//! The values a backend returns, and the one text that each of them has.
use crate::decimal::{
    decimal, decimal_chars, lemma_decimal_nonempty, padded, padded_chars, signed_decimal,
    signed_decimal_chars,
};
use crate::text::push_chars;
use vstd::prelude::*;
use vstd::string::StringExecFns;
use vstd::utf8::{decode_utf8, valid_utf8};

verus! {

/// What `String::from_utf8_lossy` makes of a run of bytes: the text they
/// encode, with U+FFFD in place of every part that is not valid UTF-8.
pub uninterp spec fn utf8_lossy(bytes: Seq<u8>) -> Seq<char>;

/// `String::from_utf8_lossy` of the standard library. The result depends on
/// the bytes alone; for valid UTF-8 it is the text that the bytes encode.
#[verifier::external_body]
fn decode_lossy(bytes: &Vec<u8>) -> (s: String)
    ensures
        s@ == utf8_lossy(bytes@),
        valid_utf8(bytes@) ==> s@ == decode_utf8(bytes@),
{
    String::from_utf8_lossy(bytes).into_owned()
}

/// One value of a result row.
///
/// The two real-number kinds hold the number already written out in its
/// default form: this library computes with no floating point.
#[derive(Debug)]
pub enum SqlValue {
    /// The SQL null.
    NULL,
    /// A raw byte or text payload.
    Bytes(Vec<u8>),
    /// A signed integer.
    Int(i64),
    /// An unsigned integer.
    UInt(u64),
    /// A single-precision number, written out.
    Float(String),
    /// A double-precision number, written out.
    Double(String),
    /// A date and time: year, month, day, hour, minute, second, microsecond.
    Date(u16, u8, u8, u8, u8, u8, u32),
    /// A signed interval: whether it is negative, then days, hours,
    /// minutes, seconds, microseconds.
    Time(bool, u32, u8, u8, u8, u32),
    /// A kind of value that this library does not know.
    Unknown,
}

/// A value, as plain data.
pub enum ValueView {
    NULL,
    Bytes(Seq<u8>),
    Int(int),
    UInt(nat),
    Float(Seq<char>),
    Double(Seq<char>),
    Date(nat, nat, nat, nat, nat, nat, nat),
    Time(bool, nat, nat, nat, nat, nat),
    Unknown,
}

impl View for SqlValue {
    type V = ValueView;

    open spec fn view(&self) -> ValueView {
        match self {
            SqlValue::NULL => ValueView::NULL,
            SqlValue::Bytes(b) => ValueView::Bytes(b@),
            SqlValue::Int(i) => ValueView::Int(*i as int),
            SqlValue::UInt(u) => ValueView::UInt(*u as nat),
            SqlValue::Float(t) => ValueView::Float(t@),
            SqlValue::Double(t) => ValueView::Double(t@),
            SqlValue::Date(y, mo, d, h, mi, s, us) => ValueView::Date(
                *y as nat,
                *mo as nat,
                *d as nat,
                *h as nat,
                *mi as nat,
                *s as nat,
                *us as nat,
            ),
            SqlValue::Time(neg, d, h, mi, s, us) => ValueView::Time(
                *neg,
                *d as nat,
                *h as nat,
                *mi as nat,
                *s as nat,
                *us as nat,
            ),
            SqlValue::Unknown => ValueView::Unknown,
        }
    }
}

/// The text of the SQL null.
pub open spec fn null_text() -> Seq<char> {
    "NULL"@
}

/// The text that stands for a value of unknown kind.
pub open spec fn unknown_text() -> Seq<char> {
    "[unsupported type]"@
}

/// A date and time as `YYYY-MM-DD HH:MM:SS.ffffff`, each field filled with
/// zeros up to its width.
pub open spec fn date_text(y: nat, mo: nat, d: nat, h: nat, mi: nat, s: nat, us: nat) -> Seq<
    char,
> {
    padded(y, 4) + "-"@ + padded(mo, 2) + "-"@ + padded(d, 2) + " "@ + padded(h, 2) + ":"@
        + padded(mi, 2) + ":"@ + padded(s, 2) + "."@ + padded(us, 6)
}

/// An interval as `HHH:MM:SS.ffffff` with a minus sign in front of a
/// negative one; the hours count the days in, 24 for each.
pub open spec fn time_text(neg: bool, d: nat, h: nat, mi: nat, s: nat, us: nat) -> Seq<char> {
    (if neg {
        "-"@
    } else {
        ""@
    }) + padded(d * 24 + h, 3) + ":"@ + padded(mi, 2) + ":"@ + padded(s, 2) + "."@ + padded(
        us,
        6,
    )
}

/// The text of a value. Every value has one. For bytes it is the text they
/// encode where they are valid UTF-8; otherwise the parts that are not
/// valid are replaced.
pub open spec fn value_text(v: ValueView) -> Seq<char> {
    match v {
        ValueView::NULL => null_text(),
        ValueView::Bytes(b) => utf8_lossy(b),
        ValueView::Int(i) => signed_decimal(i),
        ValueView::UInt(u) => decimal(u),
        ValueView::Float(t) => t,
        ValueView::Double(t) => t,
        ValueView::Date(y, mo, d, h, mi, s, us) => date_text(y, mo, d, h, mi, s, us),
        ValueView::Time(neg, d, h, mi, s, us) => time_text(neg, d, h, mi, s, us),
        ValueView::Unknown => unknown_text(),
    }
}

/// Two values that hold the same data have the same text: the text depends
/// on nothing but the value.
pub proof fn lemma_value_text_deterministic(a: SqlValue, b: SqlValue)
    requires
        a@ == b@,
    ensures
        value_text(a@) == value_text(b@),
{
}

/// The texts of the values that carry no free payload are never empty.
pub proof fn lemma_value_text_nonempty(v: ValueView)
    requires
        !(v is Bytes),
        !(v is Float),
        !(v is Double),
    ensures
        value_text(v).len() > 0,
{
    reveal_strlit("NULL");
    reveal_strlit("[unsupported type]");
    match v {
        ValueView::Int(i) => {
            if i < 0 {
                lemma_decimal_nonempty((-i) as nat);
            } else {
                lemma_decimal_nonempty(i as nat);
            }
        },
        ValueView::UInt(u) => {
            lemma_decimal_nonempty(u);
        },
        ValueView::Date(y, mo, d, h, mi, s, us) => {
            lemma_decimal_nonempty(us);
        },
        ValueView::Time(neg, d, h, mi, s, us) => {
            lemma_decimal_nonempty(us);
        },
        _ => {},
    }
}

/// Appends `n`, filled with zeros up to `width`, to `out`.
fn push_padded(out: &mut String, n: u64, width: usize)
    ensures
        final(out)@ == old(out)@ + padded(n as nat, width as nat),
{
    let digits = padded_chars(n, width);
    push_chars(out, &digits);
}

impl SqlValue {
    /// The text of this value.
    pub fn render(&self) -> (s: String)
        ensures
            s@ == value_text(self@),
            match self@ {
                ValueView::Bytes(b) => valid_utf8(b) ==> s@ == decode_utf8(b),
                _ => true,
            },
    {
        match self {
            SqlValue::NULL => String::from_str("NULL"),
            SqlValue::Bytes(bytes) => decode_lossy(bytes),
            SqlValue::Int(i) => {
                let digits = signed_decimal_chars(*i);
                let mut out = String::new();
                push_chars(&mut out, &digits);
                assert(Seq::<char>::empty() + digits@ == digits@);
                out
            },
            SqlValue::UInt(u) => {
                let digits = decimal_chars(*u);
                let mut out = String::new();
                push_chars(&mut out, &digits);
                assert(Seq::<char>::empty() + digits@ == digits@);
                out
            },
            SqlValue::Float(text) => text.clone(),
            SqlValue::Double(text) => text.clone(),
            SqlValue::Date(y, mo, d, h, mi, s, us) => {
                let mut out = String::new();
                push_padded(&mut out, *y as u64, 4);
                assert(out@ == padded(*y as nat, 4)) by {
                    assert(Seq::<char>::empty() + padded(*y as nat, 4) == padded(*y as nat, 4));
                }
                out.append("-");
                push_padded(&mut out, *mo as u64, 2);
                out.append("-");
                push_padded(&mut out, *d as u64, 2);
                out.append(" ");
                push_padded(&mut out, *h as u64, 2);
                out.append(":");
                push_padded(&mut out, *mi as u64, 2);
                out.append(":");
                push_padded(&mut out, *s as u64, 2);
                out.append(".");
                push_padded(&mut out, *us as u64, 6);
                out
            },
            SqlValue::Time(neg, d, h, mi, s, us) => {
                let mut out = if *neg {
                    String::from_str("-")
                } else {
                    String::from_str("")
                };
                let total_hours: u64 = (*d as u64) * 24 + (*h as u64);
                push_padded(&mut out, total_hours, 3);
                out.append(":");
                push_padded(&mut out, *mi as u64, 2);
                out.append(":");
                push_padded(&mut out, *s as u64, 2);
                out.append(".");
                push_padded(&mut out, *us as u64, 6);
                out
            },
            SqlValue::Unknown => String::from_str("[unsupported type]"),
        }
    }
}

} // verus!
