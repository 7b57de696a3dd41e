//! Display helpers shared by the command surfaces: value-or-dash rendering,
//! humanized byte counts, and humanized durations.

use crate::text;
use vstd::prelude::*;
use vstd::string::StringExecFns;

verus! {

/// What `byte_unit` renders for a non-negative byte count scaled to its
/// decimal unit.
pub uninterp spec fn byte_display_of(n: int) -> Seq<char>;

/// Relies on `byte_unit::Byte::from_i64`, which is `Some` exactly for
/// non-negative sizes, and on the display of `get_appropriate_unit` with
/// decimal units: the text depends on the byte count alone.
#[verifier::external_body]
pub(crate) fn byte_unit_display(n: i64) -> (r: Option<String>)
    ensures
        match r {
            Some(s) => n >= 0 && s@ == byte_display_of(n as int),
            None => n < 0,
        },
{
    byte_unit::Byte::from_i64(n).map(
        |b| b.get_appropriate_unit(byte_unit::UnitType::Decimal).to_string(),
    )
}

/// What `humantime` renders for a duration of whole milliseconds.
pub uninterp spec fn duration_display_of(ms: int) -> Seq<char>;

/// Relies on `humantime::format_duration`: the text depends on the duration
/// alone.
#[verifier::external_body]
pub(crate) fn humantime_display_ms(ms: u64) -> (r: String)
    ensures
        r@ == duration_display_of(ms as int),
{
    humantime::format_duration(core::time::Duration::from_millis(ms)).to_string()
}

/// A value with a display rendering.
pub trait DisplayValue {
    /// The text `to_display_value` returns.
    spec fn display_spec(&self) -> Seq<char>;

    /// Render the value for display.
    fn to_display_value(&self) -> (r: String)
        ensures
            r@ == self.display_spec(),
    ;
}

impl DisplayValue for String {
    open spec fn display_spec(&self) -> Seq<char> {
        self@
    }

    fn to_display_value(&self) -> (r: String) {
        self.clone()
    }
}

impl DisplayValue for i64 {
    open spec fn display_spec(&self) -> Seq<char> {
        text::int_text(*self as int)
    }

    fn to_display_value(&self) -> (r: String) {
        text::i64_to_string(*self)
    }
}

/// An optional value rendered as the value's display text, or a dash when
/// absent.
pub trait OptionDisplayValue<T> {
    /// The text `to_display_value_or_default` returns.
    spec fn display_or_default_spec(&self) -> Seq<char>;

    /// Render the value for display, with a dash for an absent value.
    fn to_display_value_or_default(&self) -> (r: String)
        ensures
            r@ == self.display_or_default_spec(),
    ;
}

impl<T: DisplayValue> OptionDisplayValue<T> for Option<T> {
    open spec fn display_or_default_spec(&self) -> Seq<char> {
        match self {
            Some(v) => v.display_spec(),
            None => "-"@,
        }
    }

    fn to_display_value_or_default(&self) -> (r: String) {
        match self {
            Some(v) => v.to_display_value(),
            None => "-".to_owned(),
        }
    }
}

/// A byte count humanized for display: the scaled text for a non-negative
/// count, a dash for a negative one.
pub open spec fn byte_text(n: int) -> Seq<char> {
    if n < 0 {
        "-"@
    } else {
        byte_display_of(n)
    }
}

/// A byte count with a humanized rendering.
pub trait ByteDisplay {
    /// The text `format_bytes` returns.
    spec fn byte_display_spec(&self) -> Seq<char>;

    /// Render the byte count scaled to an appropriate unit.
    fn format_bytes(&self) -> (r: String)
        ensures
            r@ == self.byte_display_spec(),
    ;
}

impl ByteDisplay for i64 {
    open spec fn byte_display_spec(&self) -> Seq<char> {
        byte_text(*self as int)
    }

    fn format_bytes(&self) -> (r: String) {
        match byte_unit_display(*self) {
            Some(s) => s,
            None => "-".to_owned(),
        }
    }
}

/// An optional byte count rendered humanized, or as a dash when absent.
pub trait OptionByteDisplay {
    /// The text `format_bytes_or_default` returns.
    spec fn byte_display_or_default_spec(&self) -> Seq<char>;

    /// Render the byte count, with a dash for an absent value.
    fn format_bytes_or_default(&self) -> (r: String)
        ensures
            r@ == self.byte_display_or_default_spec(),
    ;
}

impl OptionByteDisplay for Option<i64> {
    open spec fn byte_display_or_default_spec(&self) -> Seq<char> {
        match self {
            Some(n) => byte_text(*n as int),
            None => "-"@,
        }
    }

    fn format_bytes_or_default(&self) -> (r: String) {
        match self {
            Some(n) => n.format_bytes(),
            None => "-".to_owned(),
        }
    }
}

/// A duration of whole milliseconds humanized for display: the humanized
/// text for a non-negative count, a dash for a negative one.
pub open spec fn duration_text(ms: int) -> Seq<char> {
    if ms < 0 {
        "-"@
    } else {
        duration_display_of(ms)
    }
}

/// A millisecond count with a humanized duration rendering.
pub trait DurationFormat {
    /// The text `format_duration_ms` returns.
    spec fn duration_display_spec(&self) -> Seq<char>;

    /// Render the milliseconds as a humanized duration.
    fn format_duration_ms(&self) -> (r: String)
        ensures
            r@ == self.duration_display_spec(),
    ;
}

impl DurationFormat for i64 {
    open spec fn duration_display_spec(&self) -> Seq<char> {
        duration_text(*self as int)
    }

    fn format_duration_ms(&self) -> (r: String) {
        if *self < 0 {
            "-".to_owned()
        } else {
            humantime_display_ms(*self as u64)
        }
    }
}

/// An optional millisecond count rendered as a humanized duration, or as a
/// dash when absent.
pub trait OptionDurationFormat {
    /// The text `format_duration_ms_or_default` returns.
    spec fn duration_display_or_default_spec(&self) -> Seq<char>;

    /// Render the milliseconds, with a dash for an absent value.
    fn format_duration_ms_or_default(&self) -> (r: String)
        ensures
            r@ == self.duration_display_or_default_spec(),
    ;
}

impl OptionDurationFormat for Option<i64> {
    open spec fn duration_display_or_default_spec(&self) -> Seq<char> {
        match self {
            Some(n) => duration_text(*n as int),
            None => "-"@,
        }
    }

    fn format_duration_ms_or_default(&self) -> (r: String) {
        match self {
            Some(n) => n.format_duration_ms(),
            None => "-".to_owned(),
        }
    }
}

} // verus!
