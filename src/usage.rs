//! Usage strings: the printable form of each argument, and the list of every
//! complete command that a tree accepts.

use vstd::prelude::*;
use crate::argument::{Argument, BoolArgument, LiteralArgument, NumberArgument};
use crate::node::CommandThen;

verus! {

/// The characters of each string.
pub open spec fn views(v: Seq<String>) -> Seq<Seq<char>> {
    v.map_values(|s: String| s@)
}

/// Each usage of `us` with `p` in front of it.
pub open spec fn prefixed(p: Seq<char>, us: Seq<Seq<char>>) -> Seq<Seq<char>> {
    us.map_values(|u: Seq<char>| p + u)
}

/// The placeholder that stands for a named value.
pub open spec fn placeholder(name: Seq<char>) -> Seq<char> {
    "<"@ + name + ">"@
}

/// The printable form of an argument's token: its text for fixed text, a
/// placeholder for a value.
pub open spec fn token(a: Argument) -> Seq<char> {
    match a {
        Argument::Literal(l) => l.literal@,
        Argument::Boolean(b) => placeholder(b.name@),
        Argument::Number(n) => placeholder(n.name@),
    }
}

/// Every complete usage that node `n` accepts: its own token where it has an
/// action, then, branch by branch, each usage of the branch after the token
/// and a space.
pub open spec fn usages<H>(n: CommandThen<H>) -> Seq<Seq<char>>
    decreases n,
{
    let own = if n.action is Some {
        seq![token(n.argument)]
    } else {
        Seq::empty()
    };
    own + branch_usages(n.branches@, 0, token(n.argument) + " "@)
}

/// The usages of the branches `bs` from the `i`-th on, each after `p`.
pub open spec fn branch_usages<H>(bs: Seq<CommandThen<H>>, i: int, p: Seq<char>) -> Seq<Seq<char>>
    decreases bs, bs.len() - i,
{
    if 0 <= i < bs.len() {
        prefixed(p, usages(bs[i])) + branch_usages(bs, i + 1, p)
    } else {
        Seq::empty()
    }
}

/// A cursor over a list of usages. Each call of `next` hands out the next one.
#[derive(Debug)]
pub struct UsagePrint {
    usages: Vec<String>,
    position: usize,
}

impl View for UsagePrint {
    type V = Seq<Seq<char>>;

    /// The usages that are still to come.
    closed spec fn view(&self) -> Seq<Seq<char>> {
        let n = self.usages@.len();
        let p = if self.position <= n {
            self.position as int
        } else {
            n as int
        };
        views(self.usages@).subrange(p, n as int)
    }
}

impl UsagePrint {
    /// A cursor at the start of `usages`.
    pub fn new(usages: Vec<String>) -> (r: UsagePrint)
        ensures
            r@ == views(usages@),
    {
        let r = UsagePrint { usages, position: 0 };
        proof {
            assert(r@ =~= views(usages@));
        }
        r
    }

    /// Whether a usage is still to come.
    pub fn is_next(&self) -> (r: bool)
        ensures
            r == (self@.len() > 0),
    {
        self.position < self.usages.len()
    }

    /// Hands out the next usage, if one is left.
    pub fn next(&mut self) -> (r: Option<String>)
        ensures
            match r {
                Some(s) => old(self)@.len() > 0 && s@ == old(self)@[0] && final(self)@
                    == old(self)@.drop_first(),
                None => old(self)@.len() == 0 && final(self)@ == old(self)@,
            },
    {
        if self.position < self.usages.len() {
            let s = self.usages[self.position].clone();
            self.position = self.position + 1;
            proof {
                assert(final(self)@ =~= old(self)@.drop_first());
            }
            Some(s)
        } else {
            None
        }
    }
}

/// Each usage of `usages` with `head` in front of it.
pub fn prefix(head: &str, usages: &Vec<String>) -> (r: Vec<String>)
    ensures
        views(r@) == prefixed(head@, views(usages@)),
{
    let mut r: Vec<String> = Vec::new();
    let mut i: usize = 0;
    while i < usages.len()
        invariant
            0 <= i <= usages@.len(),
            views(r@) == prefixed(head@, views(usages@.take(i as int))),
        decreases usages@.len() - i,
    {
        let mut s = String::from_str(head);
        s.append(usages[i].as_str());
        let ghost before = r@;
        r.push(s);
        proof {
            assert(usages@.take(i + 1) =~= usages@.take(i as int).push(usages@[i as int]));
            assert(views(r@) =~= views(before).push(head@ + usages@[i as int]@));
        }
        i = i + 1;
        assert(views(r@) =~= prefixed(head@, views(usages@.take(i as int))));
    }
    assert(usages@.take(i as int) =~= usages@);
    r
}

/// Something with a printable token of its own.
pub trait ChildUsage {
    /// The printable token.
    spec fn spec_usage_child(&self) -> Seq<char>;

    /// The printable token: fixed text, or a placeholder `<name>`.
    fn usage_child(&self) -> (r: String)
        ensures
            r@ == self.spec_usage_child(),
    ;
}

/// Something that lists complete usages.
pub trait IntoMultipleUsage {
    /// The usages, in order.
    spec fn spec_usages(&self) -> Seq<Seq<char>>;

    /// A fresh cursor over the usages; each call starts from the first.
    fn usage_gen(&self) -> (r: UsagePrint)
        ensures
            r@ == self.spec_usages(),
    ;
}

/// The placeholder `<name>`.
fn placeholder_text(name: &String) -> (r: String)
    ensures
        r@ == placeholder(name@),
{
    let mut r = String::from_str("<");
    r.append(name.as_str());
    r.append(">");
    r
}

impl ChildUsage for LiteralArgument {
    open spec fn spec_usage_child(&self) -> Seq<char> {
        self.literal@
    }

    fn usage_child(&self) -> (r: String) {
        self.literal.clone()
    }
}

impl ChildUsage for BoolArgument {
    open spec fn spec_usage_child(&self) -> Seq<char> {
        placeholder(self.name@)
    }

    fn usage_child(&self) -> (r: String) {
        placeholder_text(&self.name)
    }
}

impl ChildUsage for NumberArgument {
    open spec fn spec_usage_child(&self) -> Seq<char> {
        placeholder(self.name@)
    }

    fn usage_child(&self) -> (r: String) {
        placeholder_text(&self.name)
    }
}

impl ChildUsage for Argument {
    open spec fn spec_usage_child(&self) -> Seq<char> {
        token(*self)
    }

    fn usage_child(&self) -> (r: String) {
        match self {
            Argument::Literal(a) => a.usage_child(),
            Argument::Boolean(a) => a.usage_child(),
            Argument::Number(a) => a.usage_child(),
        }
    }
}

impl<H> ChildUsage for CommandThen<H> {
    open spec fn spec_usage_child(&self) -> Seq<char> {
        token(self.argument)
    }

    fn usage_child(&self) -> (r: String) {
        self.argument.usage_child()
    }
}

impl<H> CommandThen<H> {
    /// Every complete usage that this node accepts, in order.
    pub fn usage_list(&self) -> (r: Vec<String>)
        ensures
            views(r@) == usages(*self),
        decreases self,
    {
        let tok = self.argument.usage_child();
        let mut r: Vec<String> = Vec::new();
        if self.action.is_some() {
            r.push(tok.clone());
        }
        let ghost own = views(r@);
        let mut p = tok;
        p.append(" ");
        let ghost bs = self.branches@;
        assert(own + branch_usages(bs, 0, p@) =~= views(r@) + branch_usages(bs, 0, p@));
        let mut i: usize = 0;
        while i < self.branches.len()
            invariant
                bs == self.branches@,
                0 <= i <= bs.len(),
                own + branch_usages(bs, 0, p@) == views(r@) + branch_usages(bs, i as int, p@),
                p@ == token(self.argument) + " "@,
                own == (if self.action is Some {
                    seq![token(self.argument)]
                } else {
                    Seq::empty()
                }),
            decreases bs.len() - i,
        {
            let sub = self.branches[i].usage_list();
            let mut more = prefix(p.as_str(), &sub);
            let ghost before = views(r@);
            r.append(&mut more);
            assert(views(r@) =~= before + prefixed(p@, usages(bs[i as int])));
            assert(before + branch_usages(bs, i as int, p@) =~= views(r@) + branch_usages(
                bs,
                i + 1,
                p@,
            ));
            i = i + 1;
        }
        assert(views(r@) + branch_usages(bs, i as int, p@) =~= views(r@));
        r
    }
}

impl<H> IntoMultipleUsage for CommandThen<H> {
    open spec fn spec_usages(&self) -> Seq<Seq<char>> {
        usages(*self)
    }

    fn usage_gen(&self) -> (r: UsagePrint) {
        UsagePrint::new(self.usage_list())
    }
}

} // verus!
