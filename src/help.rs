//! Help for a command: its name and description, and a `help` branch that
//! hands every usage of the command to an action.

use vstd::prelude::*;
use crate::argument::literal_parse;
use crate::error::{is_fatal, CmdErrorKind, CommandError, Fault, FaultKind, SyntaxKind};
use crate::node::{executed, finish, finished, Arguments, CommandThen};
use crate::text::begins_with_no_case;
use crate::usage::{token, usages, ChildUsage, IntoMultipleUsage, UsagePrint};

verus! {

/// A command with a description, and a `help` branch once it has an action.
#[derive(Debug)]
pub struct HelpArgument<H> {
    pub argument: CommandThen<H>,
    pub description: String,
}

/// A command whose `help` branch runs the action `task`.
#[derive(Debug)]
pub struct HelpExecutor<H> {
    pub help: HelpArgument<H>,
    pub task: H,
}

/// Name and description of a command, for an overview of commands.
#[derive(Debug, Clone)]
pub struct HelpEntry {
    pub name: String,
    pub description: String,
}

/// Attaching a description to a command.
pub trait ThenHelp<H>: Sized {
    /// The command that `self` stands for.
    spec fn spec_command(&self) -> CommandThen<H>;

    /// The command with the description `description`.
    fn help(self, description: &str) -> (r: HelpArgument<H>)
        ensures
            r.argument == self.spec_command(),
            r.description@ == description@,
    ;
}

/// Something with a name and a description.
pub trait HelpUsage {
    /// The name.
    spec fn spec_name(&self) -> Seq<char>;

    /// The description.
    spec fn spec_description(&self) -> Seq<char>;

    /// The name and the description.
    fn help(&self) -> (r: HelpEntry)
        ensures
            r.name@ == self.spec_name(),
            r.description@ == self.spec_description(),
    ;
}

/// Matching `s` against the `help` branch of node `n`: the node's token, one
/// space, then `help` up to case, with nothing after it.
pub open spec fn help_branch<H>(n: CommandThen<H>, s: Seq<char>) -> Result<(), Fault> {
    match n.argument.spec_parse(s) {
        Err(f) => Err(f),
        Ok((rest, _)) => if rest.len() > 0 && rest[0] == ' ' {
            match literal_parse("help"@, rest.drop_first()) {
                Err(f) => Err(f),
                Ok((after, _)) => if after.len() == 0 {
                    Ok(())
                } else {
                    Err(Fault { kind: FaultKind::NonEmpty, rest: after })
                },
            }
        } else {
            Err(Fault { kind: FaultKind::Char(' '), rest })
        },
    }
}

impl<H> ThenHelp<H> for CommandThen<H> {
    open spec fn spec_command(&self) -> CommandThen<H> {
        *self
    }

    fn help(self, description: &str) -> (r: HelpArgument<H>) {
        HelpArgument { argument: self, description: String::from_str(description) }
    }
}

impl<H> HelpArgument<H> {
    /// Makes `task` the action of the `help` branch.
    pub fn build_exec(self, task: H) -> (r: HelpExecutor<H>)
        ensures
            r.help == self,
            r.task == task,
    {
        HelpExecutor { help: self, task }
    }

    /// Executes `input` on the command; without an action there is no `help`
    /// branch yet.
    pub fn execute<'a, S: Copy, U, F: Fn(S, &H, Arguments) -> Result<U, String>>(
        &self,
        source: S,
        input: &'a str,
        run: &F,
    ) -> (r: Result<(&'a str, U), CommandError<'a>>)
        requires
            forall|s: S, h: &H, a: Arguments| run.requires((s, h, a)),
        ensures
            executed(*run, source, self.argument.spec_dispatch(input@), r),
    {
        self.argument.execute(source, input, run)
    }
}

impl<H> HelpExecutor<H> {
    /// Matches `input` against the `help` branch; on success nothing is left.
    fn match_help<'a>(&self, input: &'a str) -> (r: Result<(), CommandError<'a>>)
        ensures
            match r {
                Ok(()) => help_branch(self.help.argument, input@) == Ok::<(), Fault>(()),
                Err(e) => help_branch(self.help.argument, input@) == Err::<(), Fault>(e@),
            },
    {
        let rest = match self.help.argument.argument.parse(input) {
            Ok((rest, _)) => rest,
            Err(e) => return Err(e),
        };
        let len = rest.unicode_len();
        if !(len > 0 && rest.get_char(0) == ' ') {
            return Err(CommandError { input: rest, kind: CmdErrorKind::Char(' ') });
        }
        let next = rest.substring_char(1, len);
        proof {
            assert(next@ =~= rest@.drop_first());
            reveal_strlit("help");
        }
        if !begins_with_no_case(next, "help") {
            return Err(CommandError { input: next, kind: CmdErrorKind::Syntax(SyntaxKind::Tag) });
        }
        let after = next.substring_char(4, next.unicode_len());
        if after.unicode_len() == 0 {
            Ok(())
        } else {
            Err(CommandError { input: after, kind: CmdErrorKind::NonEmpty })
        }
    }

    /// Executes `input`. The `help` branch is tried first: on `<name> help`
    /// the task runs on every usage of the command. Otherwise the command
    /// itself executes `input`.
    pub fn execute<'a, S: Copy, U, F: Fn(S, &H, Arguments) -> Result<U, String>>(
        &self,
        source: S,
        input: &'a str,
        run: &F,
    ) -> (r: Result<(&'a str, U), CommandError<'a>>)
        requires
            forall|s: S, h: &H, a: Arguments| run.requires((s, h, a)),
        ensures
            match help_branch(self.help.argument, input@) {
                Ok(()) => exists|a: Arguments, out: Result<U, String>|
                    {
                        &&& a matches Arguments::Usages(u) && u@ == usages(self.help.argument)
                        &&& #[trigger] run.ensures((source, &self.task, a), out)
                        &&& finished(r, Seq::empty(), out)
                    },
                Err(f) => if is_fatal(f.kind) {
                    r matches Err(e) && e@ == f
                } else {
                    executed(*run, source, self.help.argument.spec_dispatch(input@), r)
                },
            },
    {
        match self.match_help(input) {
            Ok(()) => {
                let u = self.help.argument.usage_gen();
                let ghost a = Arguments::Usages(u);
                let out = run(source, &self.task, Arguments::Usages(u));
                let rest = input.substring_char(input.unicode_len(), input.unicode_len());
                let r = finish(rest, out);
                proof {
                    assert(rest@ =~= Seq::<char>::empty());
                    assert(run.ensures((source, &self.task, a), out));
                }
                r
            },
            Err(e) => {
                if e.is_fatal() {
                    Err(e)
                } else {
                    self.help.argument.execute(source, input, run)
                }
            },
        }
    }
}

impl<H> HelpUsage for HelpArgument<H> {
    open spec fn spec_name(&self) -> Seq<char> {
        token(self.argument.argument)
    }

    open spec fn spec_description(&self) -> Seq<char> {
        self.description@
    }

    fn help(&self) -> (r: HelpEntry) {
        HelpEntry { name: self.argument.usage_child(), description: self.description.clone() }
    }
}

impl<H> HelpUsage for HelpExecutor<H> {
    open spec fn spec_name(&self) -> Seq<char> {
        token(self.help.argument.argument)
    }

    open spec fn spec_description(&self) -> Seq<char> {
        self.help.description@
    }

    fn help(&self) -> (r: HelpEntry) {
        self.help.help()
    }
}

impl<H> IntoMultipleUsage for HelpArgument<H> {
    open spec fn spec_usages(&self) -> Seq<Seq<char>> {
        usages(self.argument)
    }

    fn usage_gen(&self) -> (r: UsagePrint) {
        self.argument.usage_gen()
    }
}

impl<H> IntoMultipleUsage for HelpExecutor<H> {
    open spec fn spec_usages(&self) -> Seq<Seq<char>> {
        usages(self.help.argument)
    }

    fn usage_gen(&self) -> (r: UsagePrint) {
        self.help.argument.usage_gen()
    }
}

} // verus!
