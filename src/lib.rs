//! Parsing of space-separated commands, in the style of Minecraft's command
//! syntax, into calls of typed handlers.
//!
//! A command is a tree: each node holds an argument parser, the branches that
//! may follow it and, optionally, an action that runs when the input stops
//! right after the node's own token. Dispatch walks the tree against an input
//! string, trying deeper branches before stopping, and hands the values parsed
//! along the way to the action that was reached. The same tree also lists every
//! complete usage string that it accepts.

pub mod error;
pub mod text;
pub mod number;
pub mod argument;
pub mod builder;
pub mod help;
pub mod laws;
pub mod node;
pub mod usage;

pub use error::{CmdErrorKind, CommandError, Fault, FaultKind, SyntaxKind};
pub use argument::{
    boolean, integer, integer_i16, integer_i32, integer_i64, integer_i8, integer_u16, integer_u32,
    integer_u64, integer_u8, literal, ArgValue, Argument, BoolArgument, CommandArgument,
    LiteralArgument, NumberArgument, Parsed,
};
pub use number::IntKind;
pub use node::{finish, Arguments, CommandThen, Decision};
pub use usage::{prefix, ChildUsage, IntoMultipleUsage, UsagePrint};
pub use builder::{BuildExecute, BuildPropagate, Then};
pub use help::{HelpArgument, HelpEntry, HelpExecutor, HelpUsage, ThenHelp};
