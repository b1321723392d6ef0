//! Command trees and their dispatch.

use vstd::prelude::*;
use crate::argument::{ArgValue, Argument};
use crate::error::{is_fatal, CmdErrorKind, CommandError, Fault, FaultKind};
use crate::usage::UsagePrint;

verus! {

/// A node of a command tree: an argument parser, the branches that may follow
/// its token, and the action that runs when the input ends right after it.
///
/// `H` is whatever the caller uses to name an action; the node only stores it
/// and hands it back when dispatch reaches it.
#[derive(Debug)]
pub struct CommandThen<H> {
    pub argument: Argument,
    pub branches: Vec<CommandThen<H>>,
    pub action: Option<H>,
}

/// What an action receives besides the caller's source value.
#[derive(Debug)]
pub enum Arguments {
    /// The values parsed on the way to the action, from the root on.
    Values(Vec<ArgValue>),
    /// The usages of the command whose help was asked for.
    Usages(UsagePrint),
}

/// Where dispatch leads, as the contracts speak of it: the action reached,
/// with the values parsed on the way, or the failure.
pub type Decision<H> = Result<(H, Seq<ArgValue>), Fault>;

/// `acc` with the value `v` appended, if there is one.
pub open spec fn with_value(acc: Seq<ArgValue>, v: Option<ArgValue>) -> Seq<ArgValue> {
    match v {
        Some(x) => acc.push(x),
        None => acc,
    }
}

/// Stopping at a node whose token has been read, with `rest` left: its action
/// runs only if nothing is left. A node with neither branches nor an action
/// has nowhere to go, and fails as one that expects a further token.
pub open spec fn stop<H>(action: Option<H>, rest: Seq<char>, acc: Seq<ArgValue>) -> Decision<H> {
    match action {
        Some(h) => if rest.len() == 0 {
            Ok((h, acc))
        } else {
            Err(Fault { kind: FaultKind::NonEmpty, rest })
        },
        None => Err(Fault { kind: FaultKind::Char(' '), rest }),
    }
}

/// A failure that lets the next alternative be tried.
pub open spec fn is_recoverable<H>(d: Decision<H>) -> bool {
    d matches Err(f) && !is_fatal(f.kind)
}

/// Dispatching `s` through node `n`, with `acc` parsed before it.
///
/// The node's token is read first. Then each branch is tried, after exactly
/// one space; the first that succeeds or fails fatally decides. Only if all
/// of them fail recoverably does the node stop at its own action.
pub open spec fn dispatch<H>(n: CommandThen<H>, s: Seq<char>, acc: Seq<ArgValue>) -> Decision<H>
    decreases n,
{
    match n.argument.spec_parse(s) {
        Err(f) => Err(f),
        Ok((rest, v)) => {
            let acc = with_value(acc, v);
            let deeper = if rest.len() > 0 && rest[0] == ' ' {
                dispatch_branches(n.branches@, 0, rest.drop_first(), acc)
            } else {
                Err(Fault { kind: FaultKind::Char(' '), rest })
            };
            if n.branches.len() == 0 {
                stop(n.action, rest, acc)
            } else if n.action is Some && is_recoverable(deeper) {
                stop(n.action, rest, acc)
            } else {
                deeper
            }
        },
    }
}

/// Dispatching `s` through the branches `bs` from the `i`-th on: the first
/// that does not fail recoverably decides, or else the last one's failure.
pub open spec fn dispatch_branches<H>(
    bs: Seq<CommandThen<H>>,
    i: int,
    s: Seq<char>,
    acc: Seq<ArgValue>,
) -> Decision<H>
    decreases bs, bs.len() - i,
{
    if 0 <= i < bs.len() {
        let d = dispatch(bs[i], s, acc);
        if i + 1 < bs.len() && is_recoverable(d) {
            dispatch_branches(bs, i + 1, s, acc)
        } else {
            d
        }
    } else {
        Err(Fault { kind: FaultKind::Char(' '), rest: s })
    }
}

/// An executable dispatch result agrees with the decision that the contracts
/// state.
pub open spec fn decided<'t, 'a, H>(
    r: Result<(&'t H, Vec<ArgValue>), CommandError<'a>>,
    d: Decision<H>,
) -> bool {
    match r {
        Ok((h, args)) => d == Ok::<(H, Seq<ArgValue>), Fault>((*h, args@)),
        Err(e) => d == Err::<(H, Seq<ArgValue>), Fault>(e@),
    }
}

/// The outcome `out` of an action, as the result of a dispatch that ended
/// with `rest` left.
pub open spec fn finished<'a, U>(
    r: Result<(&'a str, U), CommandError<'a>>,
    rest: Seq<char>,
    out: Result<U, String>,
) -> bool {
    match out {
        Ok(u) => r matches Ok((x, v)) && x@ == rest && v == u,
        Err(m) => r matches Err(e) && e@ == Fault { kind: FaultKind::External(m@), rest },
    }
}

/// The result of an execution whose dispatch decided `d`: the failure, or
/// whatever `run` gave on the action reached and its values.
pub open spec fn executed<'a, H, S, U, F: Fn(S, &H, Arguments) -> Result<U, String>>(
    run: F,
    source: S,
    d: Decision<H>,
    r: Result<(&'a str, U), CommandError<'a>>,
) -> bool {
    match d {
        Err(f) => r matches Err(e) && e@ == f,
        Ok((h, args)) => exists|a: Arguments, out: Result<U, String>|
            {
                &&& a matches Arguments::Values(v) && v@ == args
                &&& #[trigger] run.ensures((source, &h, a), out)
                &&& finished(r, Seq::empty(), out)
            },
    }
}

/// The result of an action that returned `out`, with `rest` left of the
/// input. A failure of the action ends the dispatch.
pub fn finish<'a, U>(rest: &'a str, out: Result<U, String>) -> (r: Result<(&'a str, U), CommandError<'a>>)
    ensures
        finished(r, rest@, out),
{
    match out {
        Ok(u) => Ok((rest, u)),
        Err(m) => Err(CommandError { input: rest, kind: CmdErrorKind::External(m) }),
    }
}

/// Whether `r` is a failure that lets the next alternative be tried.
fn fails_recoverably<'a, T>(r: &Result<T, CommandError<'a>>) -> (b: bool)
    ensures
        b == (r matches Err(e) && !is_fatal(e.kind@)),
{
    match r {
        Err(e) => !e.is_fatal(),
        Ok(_) => false,
    }
}

/// `acc` with the value `v` appended, if there is one.
fn extended(acc: &Vec<ArgValue>, v: Option<ArgValue>) -> (r: Vec<ArgValue>)
    ensures
        r@ == with_value(acc@, v),
{
    let mut r: Vec<ArgValue> = Vec::new();
    let mut i: usize = 0;
    while i < acc.len()
        invariant
            0 <= i <= acc@.len(),
            r@ == acc@.take(i as int),
        decreases acc@.len() - i,
    {
        r.push(acc[i]);
        i = i + 1;
        assert(r@ =~= acc@.take(i as int));
    }
    assert(r@ =~= acc@);
    match v {
        Some(x) => r.push(x),
        None => {},
    }
    r
}

impl<H> CommandThen<H> {
    /// Where dispatching `input` from this node leads.
    pub open spec fn spec_dispatch(&self, input: Seq<char>) -> Decision<H> {
        dispatch(*self, input, Seq::empty())
    }

    /// Dispatches `input` through this node, with `acc` parsed before it.
    fn dispatch_with<'t, 'a>(&'t self, input: &'a str, acc: &Vec<ArgValue>) -> (r: Result<
        (&'t H, Vec<ArgValue>),
        CommandError<'a>,
    >)
        ensures
            decided(r, dispatch(*self, input@, acc@)),
        decreases self,
    {
        let (rest, v) = match self.argument.parse(input) {
            Ok(x) => x,
            Err(e) => return Err(e),
        };
        let acc = extended(acc, v);
        let n = self.branches.len();
        if n > 0 {
            let len = rest.unicode_len();
            let deeper = if len > 0 && rest.get_char(0) == ' ' {
                let next = rest.substring_char(1, len);
                proof {
                    assert(next@ =~= rest@.drop_first());
                }
                let ghost bs = self.branches@;
                let mut i: usize = 0;
                let mut d = self.branches[0].dispatch_with(next, &acc);
                while i + 1 < n && fails_recoverably(&d)
                    invariant
                        n == bs.len(),
                        bs == self.branches@,
                        0 <= i < n,
                        decided(d, dispatch(bs[i as int], next@, acc@)),
                        dispatch_branches(bs, 0, next@, acc@) == dispatch_branches(
                            bs,
                            i as int,
                            next@,
                            acc@,
                        ),
                    decreases n - i,
                {
                    i = i + 1;
                    d = self.branches[i].dispatch_with(next, &acc);
                }
                d
            } else {
                Err(CommandError { input: rest, kind: CmdErrorKind::Char(' ') })
            };
            if !(self.action.is_some() && fails_recoverably(&deeper)) {
                return deeper;
            }
        }
        match &self.action {
            Some(h) => {
                if rest.unicode_len() == 0 {
                    Ok((h, acc))
                } else {
                    Err(CommandError { input: rest, kind: CmdErrorKind::NonEmpty })
                }
            },
            None => Err(CommandError { input: rest, kind: CmdErrorKind::Char(' ') }),
        }
    }

    /// Finds the action that `input` leads to, with the values parsed on the
    /// way there.
    pub fn dispatch<'t, 'a>(&'t self, input: &'a str) -> (r: Result<
        (&'t H, Vec<ArgValue>),
        CommandError<'a>,
    >)
        ensures
            decided(r, self.spec_dispatch(input@)),
    {
        let acc: Vec<ArgValue> = Vec::new();
        proof {
            assert(acc@ =~= Seq::<ArgValue>::empty());
        }
        self.dispatch_with(input, &acc)
    }

    /// Parses `input` and runs the action that it leads to through `run`,
    /// which receives `source`, the action and the values parsed on the way.
    pub fn execute<'a, S: Copy, U, F: Fn(S, &H, Arguments) -> Result<U, String>>(
        &self,
        source: S,
        input: &'a str,
        run: &F,
    ) -> (r: Result<(&'a str, U), CommandError<'a>>)
        requires
            forall|s: S, h: &H, a: Arguments| run.requires((s, h, a)),
        ensures
            executed(*run, source, self.spec_dispatch(input@), r),
    {
        match self.dispatch(input) {
            Err(e) => Err(e),
            Ok((h, args)) => {
                let ghost a = Arguments::Values(args);
                let out = run(source, h, Arguments::Values(args));
                let rest = input.substring_char(input.unicode_len(), input.unicode_len());
                let r = finish(rest, out);
                proof {
                    assert(rest@ =~= Seq::<char>::empty());
                    assert(run.ensures((source, h, a), out));
                }
                r
            },
        }
    }
}

} // verus!
