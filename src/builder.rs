//! Building command trees: chaining branches and attaching actions.

use vstd::prelude::*;
use crate::argument::{Argument, BoolArgument, LiteralArgument, NumberArgument};
use crate::node::CommandThen;

verus! {

/// Something that a branch can be chained after: an argument, which stands
/// for a node with no branches and no action, or a node.
pub trait Then<H>: Sized {
    /// The argument of the node that `self` stands for.
    spec fn spec_argument(&self) -> Argument;

    /// The branches of the node that `self` stands for.
    spec fn spec_branches(&self) -> Seq<CommandThen<H>>;

    /// The action of the node that `self` stands for.
    spec fn spec_action(&self) -> Option<H>;

    /// Adds `branch` as the last alternative after this node's token.
    fn then(self, branch: CommandThen<H>) -> (r: CommandThen<H>)
        ensures
            r.argument == self.spec_argument(),
            r.branches@ == self.spec_branches().push(branch),
            r.action == self.spec_action(),
    ;
}

/// Attaching the action that runs when the input ends at this node.
pub trait BuildExecute<H>: Then<H> {
    /// Makes `task` this node's action.
    fn build_exec(self, task: H) -> (r: CommandThen<H>)
        ensures
            r.argument == self.spec_argument(),
            r.branches@ == self.spec_branches(),
            r.action == Some(task),
    ;
}

/// Attaching an action that takes the values parsed before this node too.
///
/// Every action receives all values parsed on its path, so this builds the
/// same node as [`BuildExecute::build_exec`]; it names the intent where a
/// chain spells out that it hands values on.
pub trait BuildPropagate<H>: Then<H> {
    /// Makes `task` this node's action.
    fn build_propagate(self, task: H) -> (r: CommandThen<H>)
        ensures
            r.argument == self.spec_argument(),
            r.branches@ == self.spec_branches(),
            r.action == Some(task),
    ;
}

/// The node of argument `argument` with the single branch `branch`.
fn chained<H>(argument: Argument, branch: CommandThen<H>) -> (r: CommandThen<H>)
    ensures
        r.argument == argument,
        r.branches@ == seq![branch],
        r.action is None,
{
    let mut branches: Vec<CommandThen<H>> = Vec::new();
    branches.push(branch);
    proof {
        assert(branches@ =~= seq![branch]);
    }
    CommandThen { argument, branches, action: None }
}

/// The node of argument `argument` with no branch and the action `task`.
fn executing<H>(argument: Argument, task: H) -> (r: CommandThen<H>)
    ensures
        r.argument == argument,
        r.branches@ == Seq::<CommandThen<H>>::empty(),
        r.action == Some(task),
{
    let branches: Vec<CommandThen<H>> = Vec::new();
    CommandThen { argument, branches, action: Some(task) }
}

impl<H> Then<H> for LiteralArgument {
    open spec fn spec_argument(&self) -> Argument {
        Argument::Literal(*self)
    }

    open spec fn spec_branches(&self) -> Seq<CommandThen<H>> {
        Seq::empty()
    }

    open spec fn spec_action(&self) -> Option<H> {
        None
    }

    fn then(self, branch: CommandThen<H>) -> (r: CommandThen<H>) {
        proof {
            assert(seq![branch] =~= Seq::<CommandThen<H>>::empty().push(branch));
        }
        chained(Argument::Literal(self), branch)
    }
}

impl<H> BuildExecute<H> for LiteralArgument {
    fn build_exec(self, task: H) -> (r: CommandThen<H>) {
        executing(Argument::Literal(self), task)
    }
}

impl<H> BuildPropagate<H> for LiteralArgument {
    fn build_propagate(self, task: H) -> (r: CommandThen<H>) {
        executing(Argument::Literal(self), task)
    }
}

impl<H> Then<H> for BoolArgument {
    open spec fn spec_argument(&self) -> Argument {
        Argument::Boolean(*self)
    }

    open spec fn spec_branches(&self) -> Seq<CommandThen<H>> {
        Seq::empty()
    }

    open spec fn spec_action(&self) -> Option<H> {
        None
    }

    fn then(self, branch: CommandThen<H>) -> (r: CommandThen<H>) {
        proof {
            assert(seq![branch] =~= Seq::<CommandThen<H>>::empty().push(branch));
        }
        chained(Argument::Boolean(self), branch)
    }
}

impl<H> BuildExecute<H> for BoolArgument {
    fn build_exec(self, task: H) -> (r: CommandThen<H>) {
        executing(Argument::Boolean(self), task)
    }
}

impl<H> BuildPropagate<H> for BoolArgument {
    fn build_propagate(self, task: H) -> (r: CommandThen<H>) {
        executing(Argument::Boolean(self), task)
    }
}

impl<H> Then<H> for NumberArgument {
    open spec fn spec_argument(&self) -> Argument {
        Argument::Number(*self)
    }

    open spec fn spec_branches(&self) -> Seq<CommandThen<H>> {
        Seq::empty()
    }

    open spec fn spec_action(&self) -> Option<H> {
        None
    }

    fn then(self, branch: CommandThen<H>) -> (r: CommandThen<H>) {
        proof {
            assert(seq![branch] =~= Seq::<CommandThen<H>>::empty().push(branch));
        }
        chained(Argument::Number(self), branch)
    }
}

impl<H> BuildExecute<H> for NumberArgument {
    fn build_exec(self, task: H) -> (r: CommandThen<H>) {
        executing(Argument::Number(self), task)
    }
}

impl<H> BuildPropagate<H> for NumberArgument {
    fn build_propagate(self, task: H) -> (r: CommandThen<H>) {
        executing(Argument::Number(self), task)
    }
}

impl<H> Then<H> for CommandThen<H> {
    open spec fn spec_argument(&self) -> Argument {
        self.argument
    }

    open spec fn spec_branches(&self) -> Seq<CommandThen<H>> {
        self.branches@
    }

    open spec fn spec_action(&self) -> Option<H> {
        self.action
    }

    fn then(self, branch: CommandThen<H>) -> (r: CommandThen<H>) {
        let CommandThen { argument, mut branches, action } = self;
        branches.push(branch);
        CommandThen { argument, branches, action }
    }
}

impl<H> BuildExecute<H> for CommandThen<H> {
    fn build_exec(self, task: H) -> (r: CommandThen<H>) {
        CommandThen { argument: self.argument, branches: self.branches, action: Some(task) }
    }
}

impl<H> BuildPropagate<H> for CommandThen<H> {
    fn build_propagate(self, task: H) -> (r: CommandThen<H>) {
        CommandThen { argument: self.argument, branches: self.branches, action: Some(task) }
    }
}

} // verus!
