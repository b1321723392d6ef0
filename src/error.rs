//! Failures of a parse or a dispatch, and how they are shown to a user.

use vstd::prelude::*;

verus! {

/// The grammar rule that found no match.
#[derive(Debug, Clone, Copy, PartialEq, Eq, Structural)]
pub enum SyntaxKind {
    /// Literal text was expected.
    Tag,
    /// A decimal digit was expected.
    Digit,
}

/// What went wrong.
#[derive(Debug)]
pub enum CmdErrorKind {
    /// A given character was expected and another one was found.
    Char(char),
    /// A failure reported from outside the grammar: a number that its type
    /// cannot hold, or an action that failed.
    External(String),
    /// No grammar rule matched.
    Syntax(SyntaxKind),
    /// A number lies outside the bounds set for its argument.
    OutOfBounds,
    /// An action was reached with input left after it.
    NonEmpty,
}

/// What went wrong, as the contracts speak of it.
pub enum FaultKind {
    Char(char),
    External(Seq<char>),
    Syntax(SyntaxKind),
    OutOfBounds,
    NonEmpty,
}

/// A failure as the contracts speak of it: its kind and the input that was
/// left where it happened.
pub struct Fault {
    pub kind: FaultKind,
    pub rest: Seq<char>,
}

/// Error returned when parsing a command: the input that remained at the
/// point of failure, and what went wrong there.
#[derive(Debug)]
pub struct CommandError<'a> {
    pub input: &'a str,
    pub kind: CmdErrorKind,
}

/// Whether a failure of this kind ends the whole dispatch. The others let
/// the next alternative be tried.
pub open spec fn is_fatal(kind: FaultKind) -> bool {
    match kind {
        FaultKind::Char(_) => false,
        FaultKind::Syntax(_) => false,
        _ => true,
    }
}

/// The words that describe a failure of this kind.
pub open spec fn kind_text(kind: FaultKind) -> Seq<char> {
    match kind {
        FaultKind::Char(c) => "Expected "@ + seq![c],
        FaultKind::External(m) => m,
        FaultKind::Syntax(SyntaxKind::Tag) => "Parse error: Tag"@,
        FaultKind::Syntax(SyntaxKind::Digit) => "Parse error: Digit"@,
        FaultKind::OutOfBounds => "Number was out of bounds"@,
        FaultKind::NonEmpty => "Unknown input"@,
    }
}

/// A failure shown against the whole input: what went wrong, then at most
/// `context` characters of the input before the point of failure (after `...`
/// where more came before them), then a marker.
pub open spec fn rendered(kind: FaultKind, input: Seq<char>, rest_len: int, context: int) -> Seq<char> {
    let offset = input.len() - rest_len;
    let start = if offset > context { offset - context } else { 0 };
    kind_text(kind) + ": "@ + (if offset > context { "..."@ } else { Seq::empty() })
        + input.subrange(start, offset) + "<--[HERE]"@
}

/// Relies on `char::to_string`: the string that holds this one character.
#[verifier::external_body]
fn char_text(c: char) -> (r: String)
    ensures
        r@ == seq![c],
{
    c.to_string()
}

impl CmdErrorKind {
    /// This kind as the contracts speak of it.
    pub open spec fn view(&self) -> FaultKind {
        match self {
            CmdErrorKind::Char(c) => FaultKind::Char(*c),
            CmdErrorKind::External(m) => FaultKind::External(m@),
            CmdErrorKind::Syntax(k) => FaultKind::Syntax(*k),
            CmdErrorKind::OutOfBounds => FaultKind::OutOfBounds,
            CmdErrorKind::NonEmpty => FaultKind::NonEmpty,
        }
    }

    /// Whether this kind of failure ends the whole dispatch.
    pub fn is_fatal(&self) -> (r: bool)
        ensures
            r == is_fatal(self@),
    {
        match self {
            CmdErrorKind::Char(_) => false,
            CmdErrorKind::Syntax(_) => false,
            _ => true,
        }
    }

    /// The words that describe this failure.
    pub fn description(&self) -> (r: String)
        ensures
            r@ == kind_text(self@),
    {
        match self {
            CmdErrorKind::Char(c) => {
                let mut r = String::from_str("Expected ");
                let c = char_text(*c);
                r.append(c.as_str());
                r
            },
            CmdErrorKind::External(m) => m.clone(),
            CmdErrorKind::Syntax(SyntaxKind::Tag) => String::from_str("Parse error: Tag"),
            CmdErrorKind::Syntax(SyntaxKind::Digit) => String::from_str("Parse error: Digit"),
            CmdErrorKind::OutOfBounds => String::from_str("Number was out of bounds"),
            CmdErrorKind::NonEmpty => String::from_str("Unknown input"),
        }
    }
}

impl<'a> CommandError<'a> {
    /// The failure that this error stands for.
    pub open spec fn view(&self) -> Fault {
        Fault { kind: self.kind@, rest: self.input@ }
    }

    /// Whether this error ends the whole dispatch.
    pub fn is_fatal(&self) -> (r: bool)
        ensures
            r == is_fatal(self.kind@),
    {
        self.kind.is_fatal()
    }

    /// Shows this error against `input`, the whole input that was parsed, with
    /// at most `context_size` characters before the point of failure.
    pub fn convert(&self, input: &str, context_size: usize) -> (r: String)
        requires
            self.input@.len() <= input@.len(),
        ensures
            r@ == rendered(self.kind@, input@, self.input@.len() as int, context_size as int),
    {
        let input_len = input.unicode_len();
        let error_len = self.input.unicode_len();
        let offset = input_len - error_len;
        let start = if offset > context_size {
            offset - context_size
        } else {
            0
        };
        let window = input.substring_char(start, offset);
        let mut r = self.kind.description();
        r.append(": ");
        if offset > context_size {
            r.append("...");
        }
        r.append(window);
        r.append("<--[HERE]");
        proof {
            let ghost e: Seq<char> = Seq::empty();
            assert(offset <= context_size ==> r@ == kind_text(self.kind@) + ": "@ + e + input@.subrange(start as int, offset as int) + "<--[HERE]"@);
        }
        r
    }
}

} // verus!
