//! Integer types that a numeric argument can hold, and the reading of their
//! decimal text, which std does.

use vstd::prelude::*;
use crate::text::int_text_value;

verus! {

/// The integer type of a numeric argument.
#[derive(Debug, Clone, Copy, PartialEq, Eq, Structural)]
pub enum IntKind {
    I8,
    I16,
    I32,
    I64,
    U8,
    U16,
    U32,
    U64,
}

impl IntKind {
    /// The least value of the type.
    pub open spec fn spec_min(self) -> int {
        match self {
            IntKind::I8 => i8::MIN as int,
            IntKind::I16 => i16::MIN as int,
            IntKind::I32 => i32::MIN as int,
            IntKind::I64 => i64::MIN as int,
            _ => 0,
        }
    }

    /// The greatest value of the type.
    pub open spec fn spec_max(self) -> int {
        match self {
            IntKind::I8 => i8::MAX as int,
            IntKind::I16 => i16::MAX as int,
            IntKind::I32 => i32::MAX as int,
            IntKind::I64 => i64::MAX as int,
            IntKind::U8 => u8::MAX as int,
            IntKind::U16 => u16::MAX as int,
            IntKind::U32 => u32::MAX as int,
            IntKind::U64 => u64::MAX as int,
        }
    }

    /// Whether the type has negative values.
    pub open spec fn is_signed(self) -> bool {
        match self {
            IntKind::I8 | IntKind::I16 | IntKind::I32 | IntKind::I64 => true,
            _ => false,
        }
    }

    /// The least value of the type.
    pub fn min_value(self) -> (r: i128)
        ensures
            r == self.spec_min(),
    {
        match self {
            IntKind::I8 => i8::MIN as i128,
            IntKind::I16 => i16::MIN as i128,
            IntKind::I32 => i32::MIN as i128,
            IntKind::I64 => i64::MIN as i128,
            _ => 0,
        }
    }

    /// The greatest value of the type.
    pub fn max_value(self) -> (r: i128)
        ensures
            r == self.spec_max(),
    {
        match self {
            IntKind::I8 => i8::MAX as i128,
            IntKind::I16 => i16::MAX as i128,
            IntKind::I32 => i32::MAX as i128,
            IntKind::I64 => i64::MAX as i128,
            IntKind::U8 => u8::MAX as i128,
            IntKind::U16 => u16::MAX as i128,
            IntKind::U32 => u32::MAX as i128,
            IntKind::U64 => u64::MAX as i128,
        }
    }
}

/// The value that `s` writes in the type `kind`, if it writes one that the
/// type holds.
pub open spec fn int_in_type(kind: IntKind, s: Seq<char>) -> Option<int> {
    match int_text_value(s, kind.is_signed()) {
        Some(v) => if kind.spec_min() <= v <= kind.spec_max() {
            Some(v)
        } else {
            None
        },
        None => None,
    }
}

/// The message of the error that `<i8 as FromStr>::from_str` gives on `s`.
pub uninterp spec fn i8_parse_error(s: Seq<char>) -> Seq<char>;

/// The message of the error that `<i16 as FromStr>::from_str` gives on `s`.
pub uninterp spec fn i16_parse_error(s: Seq<char>) -> Seq<char>;

/// The message of the error that `<i32 as FromStr>::from_str` gives on `s`.
pub uninterp spec fn i32_parse_error(s: Seq<char>) -> Seq<char>;

/// The message of the error that `<i64 as FromStr>::from_str` gives on `s`.
pub uninterp spec fn i64_parse_error(s: Seq<char>) -> Seq<char>;

/// The message of the error that `<u8 as FromStr>::from_str` gives on `s`.
pub uninterp spec fn u8_parse_error(s: Seq<char>) -> Seq<char>;

/// The message of the error that `<u16 as FromStr>::from_str` gives on `s`.
pub uninterp spec fn u16_parse_error(s: Seq<char>) -> Seq<char>;

/// The message of the error that `<u32 as FromStr>::from_str` gives on `s`.
pub uninterp spec fn u32_parse_error(s: Seq<char>) -> Seq<char>;

/// The message of the error that `<u64 as FromStr>::from_str` gives on `s`.
pub uninterp spec fn u64_parse_error(s: Seq<char>) -> Seq<char>;

/// The message of the error that reading `s` as a `kind` gives.
pub open spec fn parse_error_text(kind: IntKind, s: Seq<char>) -> Seq<char> {
    match kind {
        IntKind::I8 => i8_parse_error(s),
        IntKind::I16 => i16_parse_error(s),
        IntKind::I32 => i32_parse_error(s),
        IntKind::I64 => i64_parse_error(s),
        IntKind::U8 => u8_parse_error(s),
        IntKind::U16 => u16_parse_error(s),
        IntKind::U32 => u32_parse_error(s),
        IntKind::U64 => u64_parse_error(s),
    }
}

/// What reading `s` as a `kind` gives: its value, or the message of the error.
pub open spec fn int_reading(kind: IntKind, s: Seq<char>) -> Result<int, Seq<char>> {
    match int_in_type(kind, s) {
        Some(v) => Ok(v),
        None => Err(parse_error_text(kind, s)),
    }
}

/// Relies on `<i8 as FromStr>::from_str`: an optional `+` or `-` and decimal
/// digits, in range; any other text is an error.
#[verifier::external_body]
fn parse_i8(s: &str) -> (r: Result<i128, String>)
    ensures
        r matches Ok(v) ==> int_in_type(IntKind::I8, s@) == Some(v as int),
        r matches Err(m) ==> int_in_type(IntKind::I8, s@) is None && m@ == i8_parse_error(s@),
{
    match <i8 as std::str::FromStr>::from_str(s) {
        Ok(v) => Ok(v as i128),
        Err(e) => Err(e.to_string()),
    }
}

/// Relies on `<i16 as FromStr>::from_str`: an optional `+` or `-` and decimal
/// digits, in range; any other text is an error.
#[verifier::external_body]
fn parse_i16(s: &str) -> (r: Result<i128, String>)
    ensures
        r matches Ok(v) ==> int_in_type(IntKind::I16, s@) == Some(v as int),
        r matches Err(m) ==> int_in_type(IntKind::I16, s@) is None && m@ == i16_parse_error(s@),
{
    match <i16 as std::str::FromStr>::from_str(s) {
        Ok(v) => Ok(v as i128),
        Err(e) => Err(e.to_string()),
    }
}

/// Relies on `<i32 as FromStr>::from_str`: an optional `+` or `-` and decimal
/// digits, in range; any other text is an error.
#[verifier::external_body]
fn parse_i32(s: &str) -> (r: Result<i128, String>)
    ensures
        r matches Ok(v) ==> int_in_type(IntKind::I32, s@) == Some(v as int),
        r matches Err(m) ==> int_in_type(IntKind::I32, s@) is None && m@ == i32_parse_error(s@),
{
    match <i32 as std::str::FromStr>::from_str(s) {
        Ok(v) => Ok(v as i128),
        Err(e) => Err(e.to_string()),
    }
}

/// Relies on `<i64 as FromStr>::from_str`: an optional `+` or `-` and decimal
/// digits, in range; any other text is an error.
#[verifier::external_body]
fn parse_i64(s: &str) -> (r: Result<i128, String>)
    ensures
        r matches Ok(v) ==> int_in_type(IntKind::I64, s@) == Some(v as int),
        r matches Err(m) ==> int_in_type(IntKind::I64, s@) is None && m@ == i64_parse_error(s@),
{
    match <i64 as std::str::FromStr>::from_str(s) {
        Ok(v) => Ok(v as i128),
        Err(e) => Err(e.to_string()),
    }
}

/// Relies on `<u8 as FromStr>::from_str`: an optional `+` and decimal digits,
/// in range; any other text is an error.
#[verifier::external_body]
fn parse_u8(s: &str) -> (r: Result<i128, String>)
    ensures
        r matches Ok(v) ==> int_in_type(IntKind::U8, s@) == Some(v as int),
        r matches Err(m) ==> int_in_type(IntKind::U8, s@) is None && m@ == u8_parse_error(s@),
{
    match <u8 as std::str::FromStr>::from_str(s) {
        Ok(v) => Ok(v as i128),
        Err(e) => Err(e.to_string()),
    }
}

/// Relies on `<u16 as FromStr>::from_str`: an optional `+` and decimal digits,
/// in range; any other text is an error.
#[verifier::external_body]
fn parse_u16(s: &str) -> (r: Result<i128, String>)
    ensures
        r matches Ok(v) ==> int_in_type(IntKind::U16, s@) == Some(v as int),
        r matches Err(m) ==> int_in_type(IntKind::U16, s@) is None && m@ == u16_parse_error(s@),
{
    match <u16 as std::str::FromStr>::from_str(s) {
        Ok(v) => Ok(v as i128),
        Err(e) => Err(e.to_string()),
    }
}

/// Relies on `<u32 as FromStr>::from_str`: an optional `+` and decimal digits,
/// in range; any other text is an error.
#[verifier::external_body]
fn parse_u32(s: &str) -> (r: Result<i128, String>)
    ensures
        r matches Ok(v) ==> int_in_type(IntKind::U32, s@) == Some(v as int),
        r matches Err(m) ==> int_in_type(IntKind::U32, s@) is None && m@ == u32_parse_error(s@),
{
    match <u32 as std::str::FromStr>::from_str(s) {
        Ok(v) => Ok(v as i128),
        Err(e) => Err(e.to_string()),
    }
}

/// Relies on `<u64 as FromStr>::from_str`: an optional `+` and decimal digits,
/// in range; any other text is an error.
#[verifier::external_body]
fn parse_u64(s: &str) -> (r: Result<i128, String>)
    ensures
        r matches Ok(v) ==> int_in_type(IntKind::U64, s@) == Some(v as int),
        r matches Err(m) ==> int_in_type(IntKind::U64, s@) is None && m@ == u64_parse_error(s@),
{
    match <u64 as std::str::FromStr>::from_str(s) {
        Ok(v) => Ok(v as i128),
        Err(e) => Err(e.to_string()),
    }
}

/// Reads `s` as a value of the type `kind`.
pub fn read_int(kind: IntKind, s: &str) -> (r: Result<i128, String>)
    ensures
        match r {
            Ok(v) => int_reading(kind, s@) == Ok::<int, Seq<char>>(v as int),
            Err(m) => int_reading(kind, s@) == Err::<int, Seq<char>>(m@),
        },
{
    match kind {
        IntKind::I8 => parse_i8(s),
        IntKind::I16 => parse_i16(s),
        IntKind::I32 => parse_i32(s),
        IntKind::I64 => parse_i64(s),
        IntKind::U8 => parse_u8(s),
        IntKind::U16 => parse_u16(s),
        IntKind::U32 => parse_u32(s),
        IntKind::U64 => parse_u64(s),
    }
}

} // verus!
