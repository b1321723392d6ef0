//! Argument parsers: each reads one token at the start of the input.

use vstd::prelude::*;
use crate::error::{CmdErrorKind, CommandError, Fault, FaultKind, SyntaxKind};
use crate::number::{int_reading, read_int, IntKind};
use crate::text::{
    begins_with_no_case, char_is_digit, digits_end, is_digit, is_digit_or_underscore,
    starts_with_no_case,
};

verus! {

/// A value parsed from the input and handed to an action.
#[derive(Debug, Clone, Copy, PartialEq, Eq, Structural)]
pub enum ArgValue {
    Bool(bool),
    Int(i128),
}

/// What a parse gives, as the contracts speak of it: the input left after the
/// token and the value read, or the failure.
pub type Parsed<A> = Result<(Seq<char>, A), Fault>;

/// An executable parse result agrees with the one that the contracts state.
pub open spec fn agrees<'a, A>(r: Result<(&'a str, A), CommandError<'a>>, s: Parsed<A>) -> bool {
    match r {
        Ok((rest, v)) => s == Ok::<(Seq<char>, A), Fault>((rest@, v)),
        Err(e) => s == Err::<(Seq<char>, A), Fault>(e@),
    }
}

/// A parser for one token that yields a value of type `A`.
///
/// A parser reads from the start of its input and neither skips nor consumes
/// the separators around its token.
pub trait CommandArgument<A> {
    /// What parsing `input` gives.
    spec fn spec_parse(&self, input: Seq<char>) -> Parsed<A>;

    /// Reads this argument's token from the start of `input`.
    fn parse<'a>(&self, input: &'a str) -> (r: Result<(&'a str, A), CommandError<'a>>)
        ensures
            agrees(r, self.spec_parse(input@)),
    ;
}

/// A token that must match fixed text, up to case.
#[derive(Debug)]
pub struct LiteralArgument {
    pub literal: String,
}

/// A token that is `true` or `false`, up to case.
#[derive(Debug)]
pub struct BoolArgument {
    pub name: String,
}

/// A decimal integer of a given type, within inclusive bounds.
#[derive(Debug)]
pub struct NumberArgument {
    pub name: String,
    pub kind: IntKind,
    pub min: i128,
    pub max: i128,
}

/// Any of the argument parsers.
#[derive(Debug)]
pub enum Argument {
    Literal(LiteralArgument),
    Boolean(BoolArgument),
    Number(NumberArgument),
}

/// Creates a parser for the fixed text `text`.
pub fn literal(text: &str) -> (r: LiteralArgument)
    ensures
        r.literal@ == text@,
{
    LiteralArgument { literal: String::from_str(text) }
}

/// Creates a parser for a boolean argument called `name`.
pub fn boolean(name: &str) -> (r: BoolArgument)
    ensures
        r.name@ == name@,
{
    BoolArgument { name: String::from_str(name) }
}

/// Creates a parser for an integer argument of type `kind` called `name`,
/// bounded by the type's own range.
pub fn integer(name: &str, kind: IntKind) -> (r: NumberArgument)
    ensures
        r.name@ == name@,
        r.kind == kind,
        r.min == kind.spec_min(),
        r.max == kind.spec_max(),
{
    NumberArgument { name: String::from_str(name), kind, min: kind.min_value(), max: kind.max_value() }
}

/// Creates a parser for an `i8` argument called `name`.
pub fn integer_i8(name: &str) -> (r: NumberArgument)
    ensures
        r.name@ == name@,
        r.kind == IntKind::I8,
        r.min == i8::MIN,
        r.max == i8::MAX,
{
    integer(name, IntKind::I8)
}

/// Creates a parser for an `i16` argument called `name`.
pub fn integer_i16(name: &str) -> (r: NumberArgument)
    ensures
        r.name@ == name@,
        r.kind == IntKind::I16,
        r.min == i16::MIN,
        r.max == i16::MAX,
{
    integer(name, IntKind::I16)
}

/// Creates a parser for an `i32` argument called `name`.
pub fn integer_i32(name: &str) -> (r: NumberArgument)
    ensures
        r.name@ == name@,
        r.kind == IntKind::I32,
        r.min == i32::MIN,
        r.max == i32::MAX,
{
    integer(name, IntKind::I32)
}

/// Creates a parser for an `i64` argument called `name`.
pub fn integer_i64(name: &str) -> (r: NumberArgument)
    ensures
        r.name@ == name@,
        r.kind == IntKind::I64,
        r.min == i64::MIN,
        r.max == i64::MAX,
{
    integer(name, IntKind::I64)
}

/// Creates a parser for a `u8` argument called `name`.
pub fn integer_u8(name: &str) -> (r: NumberArgument)
    ensures
        r.name@ == name@,
        r.kind == IntKind::U8,
        r.min == 0,
        r.max == u8::MAX,
{
    integer(name, IntKind::U8)
}

/// Creates a parser for a `u16` argument called `name`.
pub fn integer_u16(name: &str) -> (r: NumberArgument)
    ensures
        r.name@ == name@,
        r.kind == IntKind::U16,
        r.min == 0,
        r.max == u16::MAX,
{
    integer(name, IntKind::U16)
}

/// Creates a parser for a `u32` argument called `name`.
pub fn integer_u32(name: &str) -> (r: NumberArgument)
    ensures
        r.name@ == name@,
        r.kind == IntKind::U32,
        r.min == 0,
        r.max == u32::MAX,
{
    integer(name, IntKind::U32)
}

/// Creates a parser for a `u64` argument called `name`.
pub fn integer_u64(name: &str) -> (r: NumberArgument)
    ensures
        r.name@ == name@,
        r.kind == IntKind::U64,
        r.min == 0,
        r.max == u64::MAX,
{
    integer(name, IntKind::U64)
}

impl NumberArgument {
    /// Sets the least value that this argument accepts (inclusive).
    pub fn min(self, min: i128) -> (r: NumberArgument)
        requires
            self.kind.spec_min() <= min <= self.max,
        ensures
            r.name == self.name,
            r.kind == self.kind,
            r.min == min,
            r.max == self.max,
    {
        NumberArgument { min, ..self }
    }

    /// Sets the greatest value that this argument accepts (inclusive).
    pub fn max(self, max: i128) -> (r: NumberArgument)
        requires
            self.min <= max <= self.kind.spec_max(),
        ensures
            r.name == self.name,
            r.kind == self.kind,
            r.min == self.min,
            r.max == max,
    {
        NumberArgument { max, ..self }
    }
}

/// Parsing fixed text `lit`.
pub open spec fn literal_parse(lit: Seq<char>, s: Seq<char>) -> Parsed<()> {
    if starts_with_no_case(s, lit) {
        Ok((s.skip(lit.len() as int), ()))
    } else {
        Err(Fault { kind: FaultKind::Syntax(SyntaxKind::Tag), rest: s })
    }
}

/// Parsing a boolean.
pub open spec fn bool_parse(s: Seq<char>) -> Parsed<bool> {
    if starts_with_no_case(s, "true"@) {
        Ok((s.skip(4), true))
    } else if starts_with_no_case(s, "false"@) {
        Ok((s.skip(5), false))
    } else {
        Err(Fault { kind: FaultKind::Syntax(SyntaxKind::Tag), rest: s })
    }
}

/// Where the digits of a number begin: after a leading `-`, if there is one.
pub open spec fn number_start(s: Seq<char>) -> int {
    if s.len() > 0 && s[0] == '-' {
        1
    } else {
        0
    }
}

/// Parsing an integer of type `kind` with bounds `min` and `max`: an optional
/// `-`, a digit, then any digits and underscores. The text is read as the
/// type; a value outside the bounds is a failure.
pub open spec fn number_parse(kind: IntKind, min: int, max: int, s: Seq<char>) -> Parsed<i128> {
    let start = number_start(s);
    if !(start < s.len() && is_digit(s[start])) {
        Err(Fault { kind: FaultKind::Syntax(SyntaxKind::Digit), rest: s.skip(start) })
    } else {
        let end = digits_end(s, start);
        let rest = s.skip(end);
        match int_reading(kind, s.take(end)) {
            Err(m) => Err(Fault { kind: FaultKind::External(m), rest }),
            Ok(v) => if v < min || v > max {
                Err(Fault { kind: FaultKind::OutOfBounds, rest })
            } else {
                Ok((rest, v as i128))
            },
        }
    }
}

impl CommandArgument<()> for LiteralArgument {
    open spec fn spec_parse(&self, input: Seq<char>) -> Parsed<()> {
        literal_parse(self.literal@, input)
    }

    fn parse<'a>(&self, input: &'a str) -> (r: Result<(&'a str, ()), CommandError<'a>>) {
        if begins_with_no_case(input, self.literal.as_str()) {
            let n = self.literal.as_str().unicode_len();
            let rest = input.substring_char(n, input.unicode_len());
            Ok((rest, ()))
        } else {
            Err(CommandError { input, kind: CmdErrorKind::Syntax(SyntaxKind::Tag) })
        }
    }
}

impl CommandArgument<bool> for BoolArgument {
    open spec fn spec_parse(&self, input: Seq<char>) -> Parsed<bool> {
        bool_parse(input)
    }

    fn parse<'a>(&self, input: &'a str) -> (r: Result<(&'a str, bool), CommandError<'a>>) {
        proof {
            reveal_strlit("true");
            reveal_strlit("false");
        }
        if begins_with_no_case(input, "true") {
            Ok((input.substring_char(4, input.unicode_len()), true))
        } else if begins_with_no_case(input, "false") {
            Ok((input.substring_char(5, input.unicode_len()), false))
        } else {
            Err(CommandError { input, kind: CmdErrorKind::Syntax(SyntaxKind::Tag) })
        }
    }
}

impl CommandArgument<i128> for NumberArgument {
    open spec fn spec_parse(&self, input: Seq<char>) -> Parsed<i128> {
        number_parse(self.kind, self.min as int, self.max as int, input)
    }

    fn parse<'a>(&self, input: &'a str) -> (r: Result<(&'a str, i128), CommandError<'a>>) {
        let len = input.unicode_len();
        let start: usize = if len > 0 && input.get_char(0) == '-' {
            1
        } else {
            0
        };
        if !(start < len && char_is_digit(input.get_char(start))) {
            return Err(
                CommandError {
                    input: input.substring_char(start, len),
                    kind: CmdErrorKind::Syntax(SyntaxKind::Digit),
                },
            );
        }
        let mut end: usize = start + 1;
        while end < len && (char_is_digit(input.get_char(end)) || input.get_char(end) == '_')
            invariant
                len == input@.len(),
                start < end <= len,
                digits_end(input@, start as int) == digits_end(input@, end as int),
            decreases len - end,
        {
            end = end + 1;
        }
        let rest = input.substring_char(end, len);
        match read_int(self.kind, input.substring_char(0, end)) {
            Err(m) => Err(CommandError { input: rest, kind: CmdErrorKind::External(m) }),
            Ok(v) => {
                if v < self.min || v > self.max {
                    Err(CommandError { input: rest, kind: CmdErrorKind::OutOfBounds })
                } else {
                    Ok((rest, v))
                }
            },
        }
    }
}

impl Argument {
    /// The value that a successful parse of this argument hands on: none for
    /// fixed text.
    pub open spec fn spec_parse(&self, input: Seq<char>) -> Parsed<Option<ArgValue>> {
        match self {
            Argument::Literal(a) => match a.spec_parse(input) {
                Ok((rest, _)) => Ok((rest, None)),
                Err(f) => Err(f),
            },
            Argument::Boolean(a) => match a.spec_parse(input) {
                Ok((rest, b)) => Ok((rest, Some(ArgValue::Bool(b)))),
                Err(f) => Err(f),
            },
            Argument::Number(a) => match a.spec_parse(input) {
                Ok((rest, v)) => Ok((rest, Some(ArgValue::Int(v)))),
                Err(f) => Err(f),
            },
        }
    }

    /// Reads this argument's token from the start of `input`.
    pub fn parse<'a>(&self, input: &'a str) -> (r: Result<(&'a str, Option<ArgValue>), CommandError<'a>>)
        ensures
            agrees(r, self.spec_parse(input@)),
    {
        match self {
            Argument::Literal(a) => match a.parse(input) {
                Ok((rest, _)) => Ok((rest, None)),
                Err(e) => Err(e),
            },
            Argument::Boolean(a) => match a.parse(input) {
                Ok((rest, b)) => Ok((rest, Some(ArgValue::Bool(b)))),
                Err(e) => Err(e),
            },
            Argument::Number(a) => match a.parse(input) {
                Ok((rest, v)) => Ok((rest, Some(ArgValue::Int(v)))),
                Err(e) => Err(e),
            },
        }
    }
}

} // verus!
