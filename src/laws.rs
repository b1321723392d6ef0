//! Laws of parsing, dispatch and usage listing.

use vstd::prelude::*;
use crate::argument::{literal_parse, number_start, ArgValue, Argument};
use crate::error::{Fault, FaultKind};
use crate::node::{dispatch, dispatch_branches, is_recoverable, with_value, CommandThen};
use crate::text::{digits_end, same_ignoring_case, starts_with_no_case};
use crate::usage::{branch_usages, prefixed, token, usages};

verus! {

/// `u` spells `l` up to case: the same length, and each character with the
/// same lower-case form as the one of `l` at its place.
pub open spec fn spells_no_case(u: Seq<char>, l: Seq<char>) -> bool {
    &&& u.len() == l.len()
    &&& forall|i: int| 0 <= i < l.len() ==> same_ignoring_case(#[trigger] u[i], l[i])
}

/// Fixed text `l` matches any spelling `u` of itself up to case, its own and
/// its upper-case one among them wherever upper-casing keeps each character's
/// lower-case form: exactly `u` is consumed and whatever follows is left
/// untouched.
pub proof fn lemma_literal_matches_any_case(l: Seq<char>, u: Seq<char>, rest: Seq<char>)
    requires
        spells_no_case(u, l),
    ensures
        literal_parse(l, u + rest) == Ok::<(Seq<char>, ()), Fault>((rest, ())),
{
    let s = u + rest;
    assert forall|i: int| 0 <= i < l.len() implies same_ignoring_case(#[trigger] s[i], l[i]) by {
        assert(s[i] == u[i]);
    }
    assert(starts_with_no_case(s, l));
    assert(s.skip(l.len() as int) =~= rest);
}

/// Fixed text matches itself, leaving whatever follows.
pub proof fn lemma_literal_matches_itself(l: Seq<char>, rest: Seq<char>)
    ensures
        literal_parse(l, l + rest) == Ok::<(Seq<char>, ()), Fault>((rest, ())),
{
    lemma_literal_matches_any_case(l, l, rest);
}

/// A node with an action whose token ends the input runs that action, with
/// the value of its token appended to those parsed before.
pub proof fn lemma_stops_at_end<H>(n: CommandThen<H>, s: Seq<char>, acc: Seq<ArgValue>, v: Option<ArgValue>)
    requires
        n.action is Some,
        n.argument.spec_parse(s) == Ok::<(Seq<char>, Option<ArgValue>), Fault>((Seq::empty(), v)),
    ensures
        dispatch(n, s, acc) == Ok::<(H, Seq<ArgValue>), Fault>((n.action->0, with_value(acc, v))),
{
}

/// Going deeper comes first: once a node's token is followed by a space and
/// its branches lead to an action on what follows, that action is the one
/// reached, whether or not the node has an action of its own.
pub proof fn lemma_deeper_first<H>(
    n: CommandThen<H>,
    s: Seq<char>,
    acc: Seq<ArgValue>,
    v: Option<ArgValue>,
    t: Seq<char>,
)
    requires
        n.argument.spec_parse(s) == Ok::<(Seq<char>, Option<ArgValue>), Fault>((seq![' '] + t, v)),
        dispatch_branches(n.branches@, 0, t, with_value(acc, v)) is Ok,
    ensures
        dispatch(n, s, acc) == dispatch_branches(n.branches@, 0, t, with_value(acc, v)),
{
    let rest = seq![' '] + t;
    assert(rest.drop_first() =~= t);
    assert(n.branches@.len() > 0);
}

/// A node with no action whose only branch fails recoverably on what follows
/// its token and a space fails with that same failure, which is recoverable:
/// a node that holds it among its branches may still try the next one, and
/// with no next one the failure is that of the whole dispatch.
pub proof fn lemma_dead_end<H>(
    n: CommandThen<H>,
    b: CommandThen<H>,
    s: Seq<char>,
    acc: Seq<ArgValue>,
    v: Option<ArgValue>,
    t: Seq<char>,
)
    requires
        n.action is None,
        n.branches@ == seq![b],
        n.argument.spec_parse(s) == Ok::<(Seq<char>, Option<ArgValue>), Fault>((seq![' '] + t, v)),
        is_recoverable(dispatch(b, t, with_value(acc, v))),
    ensures
        dispatch(n, s, acc) == dispatch(b, t, with_value(acc, v)),
        is_recoverable(dispatch(n, s, acc)),
        dispatch_branches(seq![n], 0, s, acc) == dispatch(n, s, acc),
{
    let rest = seq![' '] + t;
    assert(rest.drop_first() =~= t);
    assert(n.branches@[0] == b);
}

/// A node whose token is not followed by a space, and that has no action,
/// fails recoverably, expecting the space.
pub proof fn lemma_needs_separator<H>(n: CommandThen<H>, s: Seq<char>, acc: Seq<ArgValue>, v: Option<ArgValue>, rest: Seq<char>)
    requires
        n.action is None,
        n.argument.spec_parse(s) == Ok::<(Seq<char>, Option<ArgValue>), Fault>((rest, v)),
        !(rest.len() > 0 && rest[0] == ' '),
    ensures
        dispatch(n, s, acc) == Err::<(H, Seq<ArgValue>), Fault>(Fault { kind: FaultKind::Char(' '), rest }),
        is_recoverable(dispatch(n, s, acc)),
{
}

/// The number of actions in the tree of node `n`.
pub open spec fn action_count<H>(n: CommandThen<H>) -> nat
    decreases n,
{
    (if n.action is Some {
        1nat
    } else {
        0nat
    }) + branch_action_count(n.branches@, 0)
}

/// The number of actions in the trees of the branches `bs` from the `i`-th on.
pub open spec fn branch_action_count<H>(bs: Seq<CommandThen<H>>, i: int) -> nat
    decreases bs, bs.len() - i,
{
    if 0 <= i < bs.len() {
        action_count(bs[i]) + branch_action_count(bs, i + 1)
    } else {
        0
    }
}

/// The usages of a tree are exactly as many as its actions: one for each.
pub proof fn lemma_one_usage_per_action<H>(n: CommandThen<H>)
    ensures
        usages(n).len() == action_count(n),
    decreases n,
{
    lemma_branch_usages_count(n.branches@, 0, token(n.argument) + " "@);
}

/// The usages of the branches `bs` from the `i`-th on are as many as their
/// actions.
pub proof fn lemma_branch_usages_count<H>(bs: Seq<CommandThen<H>>, i: int, p: Seq<char>)
    ensures
        branch_usages(bs, i, p).len() == branch_action_count(bs, i),
    decreases bs, bs.len() - i,
{
    if 0 <= i < bs.len() {
        lemma_one_usage_per_action(bs[i]);
        lemma_branch_usages_count(bs, i + 1, p);
        assert(prefixed(p, usages(bs[i])).len() == usages(bs[i]).len());
    }
}

/// `r` is what is left of `s` once a prefix of it is taken away.
pub open spec fn is_suffix(r: Seq<char>, s: Seq<char>) -> bool {
    r.len() <= s.len() && r == s.skip(s.len() - r.len())
}

proof fn lemma_suffix_trans(a: Seq<char>, b: Seq<char>, c: Seq<char>)
    requires
        is_suffix(a, b),
        is_suffix(b, c),
    ensures
        is_suffix(a, c),
{
    assert(a =~= c.skip(c.len() - a.len()));
}

proof fn lemma_skip_is_suffix(s: Seq<char>, k: int)
    requires
        0 <= k <= s.len(),
    ensures
        is_suffix(s.skip(k), s),
{
    assert(s.skip(k) =~= s.skip(s.len() - s.skip(k).len()));
}

proof fn lemma_digits_end_bounds(s: Seq<char>, i: int)
    requires
        0 <= i <= s.len(),
    ensures
        i <= digits_end(s, i) <= s.len(),
    decreases s.len() - i,
{
    if i < s.len() {
        lemma_digits_end_bounds(s, i + 1);
    }
}

/// An argument leaves a suffix of its input, whether it succeeds or fails.
pub proof fn lemma_parse_leaves_suffix(a: Argument, s: Seq<char>)
    ensures
        match a.spec_parse(s) {
            Ok((rest, _)) => is_suffix(rest, s),
            Err(f) => is_suffix(f.rest, s),
        },
{
    lemma_skip_is_suffix(s, 0);
    assert(s.skip(0) =~= s);
    match a {
        Argument::Literal(l) => {
            if starts_with_no_case(s, l.literal@) {
                lemma_skip_is_suffix(s, l.literal@.len() as int);
            }
        },
        Argument::Boolean(_) => {
            reveal_strlit("true");
            reveal_strlit("false");
            if s.len() >= 4 {
                lemma_skip_is_suffix(s, 4);
            }
            if s.len() >= 5 {
                lemma_skip_is_suffix(s, 5);
            }
        },
        Argument::Number(_) => {
            let start = number_start(s);
            lemma_skip_is_suffix(s, start);
            lemma_digits_end_bounds(s, start);
            lemma_skip_is_suffix(s, digits_end(s, start));
        },
    }
}

/// A failed dispatch stops at a point of its input: what is left there is a
/// suffix of the input, so the failure can be shown against the input.
pub proof fn lemma_failure_leaves_suffix<H>(n: CommandThen<H>, s: Seq<char>, acc: Seq<ArgValue>)
    ensures
        dispatch(n, s, acc) matches Err(f) ==> is_suffix(f.rest, s),
    decreases n,
{
    lemma_parse_leaves_suffix(n.argument, s);
    if let Ok((rest, v)) = n.argument.spec_parse(s) {
        let acc2 = with_value(acc, v);
        if rest.len() > 0 && rest[0] == ' ' {
            lemma_branches_failure_leaves_suffix(n.branches@, 0, rest.drop_first(), acc2);
            lemma_skip_is_suffix(rest, 1);
            assert(rest.drop_first() =~= rest.skip(1));
            let d = dispatch_branches(n.branches@, 0, rest.drop_first(), acc2);
            if d is Err {
                lemma_suffix_trans(d->Err_0.rest, rest.drop_first(), rest);
                lemma_suffix_trans(d->Err_0.rest, rest, s);
            }
        }
    }
}

/// A failed dispatch through branches leaves a suffix of its input.
pub proof fn lemma_branches_failure_leaves_suffix<H>(
    bs: Seq<CommandThen<H>>,
    i: int,
    s: Seq<char>,
    acc: Seq<ArgValue>,
)
    ensures
        dispatch_branches(bs, i, s, acc) matches Err(f) ==> is_suffix(f.rest, s),
    decreases bs, bs.len() - i,
{
    lemma_skip_is_suffix(s, 0);
    assert(s.skip(0) =~= s);
    if 0 <= i < bs.len() {
        lemma_failure_leaves_suffix(bs[i], s, acc);
        lemma_branches_failure_leaves_suffix(bs, i + 1, s, acc);
    }
}

} // verus!
