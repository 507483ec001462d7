use vstd::prelude::*;

use crate::error::{Error, Result};
use crate::registry::{apply, run, usable, wf, with_depth, Handle, Op, Registry, Node};
use crate::status::{notmuch_status_t, status_of, Status};

verus! {

/// Records a section opened on an object (an atomic section on a database,
/// a freeze on a message) once the native call reported its status.
pub fn enter_section(registry: &mut Registry, h: &Handle, status: notmuch_status_t) -> (r: Result<()>)
    requires
        wf(old(registry)@),
        usable(old(registry)@, h.id as int),
        old(registry)@[h.id as int].depth < u64::MAX,
    ensures
        wf(final(registry)@),
        status == notmuch_status_t::NOTMUCH_STATUS_SUCCESS ==> r is Ok && apply(old(registry)@, Op::Nest { id: h.id })
            == Some((final(registry)@, Seq::<usize>::empty())),
        status != notmuch_status_t::NOTMUCH_STATUS_SUCCESS ==> r == Err::<(), Error>(
            Error::NotmuchError(status_of(status)),
        ) && final(registry)@ == old(registry)@,
{
    match status.as_result() {
        Ok(()) => match registry.nest(h) {
            Ok(_) => Ok(()),
            Err(_) => Err(Error::UnspecifiedError),
        },
        Err(e) => Err(e),
    }
}

/// Records the end of the innermost section open on an object, once the
/// native call reported its status; gives whether that was the outermost
/// one. With no section open, the error is `unbalanced`, whatever the
/// native call reported.
pub fn leave_section(registry: &mut Registry, h: &Handle, status: notmuch_status_t, unbalanced: Status) -> (r: Result<bool>)
    requires
        wf(old(registry)@),
        usable(old(registry)@, h.id as int),
    ensures
        wf(final(registry)@),
        old(registry)@[h.id as int].depth == 0 ==> r == Err::<bool, Error>(Error::NotmuchError(unbalanced))
            && final(registry)@ == old(registry)@,
        old(registry)@[h.id as int].depth > 0 && status != notmuch_status_t::NOTMUCH_STATUS_SUCCESS ==> r
            == Err::<bool, Error>(Error::NotmuchError(status_of(status))) && final(registry)@ == old(registry)@,
        old(registry)@[h.id as int].depth > 0 && status == notmuch_status_t::NOTMUCH_STATUS_SUCCESS ==> r == Ok::<
            bool,
            Error,
        >(old(registry)@[h.id as int].depth == 1) && apply(old(registry)@, Op::Unnest { id: h.id }) == Some(
            (final(registry)@, Seq::<usize>::empty()),
        ),
{
    let depth = match registry.node(h) {
        Some(n) => n.depth,
        None => 0,
    };
    if depth == 0 {
        return Err(Error::NotmuchError(unbalanced));
    }
    match status.as_result() {
        Ok(()) => match registry.unnest(h) {
            Ok(d) => Ok(d == 0),
            Err(_) => Err(Error::UnspecifiedError),
        },
        Err(e) => Err(e),
    }
}

/// `n` copies of an operation.
pub open spec fn repeat(op: Op, n: nat) -> Seq<Op>
    decreases n,
{
    if n == 0 {
        Seq::empty()
    } else {
        seq![op] + repeat(op, (n - 1) as nat)
    }
}

proof fn lemma_run_append(s: Seq<Node>, a: Seq<Op>, b: Seq<Op>)
    ensures
        run(s, a + b).0 == run(run(s, a).0, b).0,
    decreases a.len(),
{
    if a.len() > 0 {
        assert((a + b).drop_first() =~= a.drop_first() + b);
        assert((a + b)[0] == a[0]);
        let t = match apply(s, a[0]) {
            Some(r) => r.0,
            None => s,
        };
        lemma_run_append(t, a.drop_first(), b);
    } else {
        assert(a + b =~= b);
    }
}

/// Nesting `n` sections on a usable object, starting from depth `d`, with
/// room to count them, takes it to depth `d + n`, changing nothing else.
proof fn lemma_nest_n(s: Seq<Node>, id: usize, n: nat)
    requires
        wf(s),
        usable(s, id as int),
        s[id as int].depth + n <= u64::MAX,
    ensures
        run(s, repeat(Op::Nest { id }, n)).0 == s.update(id as int, with_depth(s[id as int], s[id as int].depth + n)),
    decreases n,
{
    if n == 0 {
        assert(s.update(id as int, with_depth(s[id as int], s[id as int].depth + 0)) =~= s);
    } else {
        let t = s.update(id as int, with_depth(s[id as int], s[id as int].depth + 1));
        assert(apply(s, Op::Nest { id }) == Some((t, Seq::<usize>::empty())));
        assert(repeat(Op::Nest { id }, n).drop_first() == repeat(Op::Nest { id }, (n - 1) as nat));
        crate::registry::lemma_depth_keeps_wf(s, id, s[id as int].depth + 1);
        lemma_nest_n(t, id, (n - 1) as nat);
        assert(t.update(id as int, with_depth(t[id as int], t[id as int].depth + (n - 1))) =~= s.update(
            id as int,
            with_depth(s[id as int], s[id as int].depth + n),
        ));
    }
}

/// Closing `k` sections on a usable object at depth at least `k` takes it
/// to depth `d - k`, changing nothing else.
proof fn lemma_unnest_n(s: Seq<Node>, id: usize, k: nat)
    requires
        wf(s),
        usable(s, id as int),
        s[id as int].depth >= k,
    ensures
        run(s, repeat(Op::Unnest { id }, k)).0 == s.update(id as int, with_depth(s[id as int], s[id as int].depth - k)),
    decreases k,
{
    if k == 0 {
        assert(s.update(id as int, with_depth(s[id as int], s[id as int].depth - 0)) =~= s);
    } else {
        let t = s.update(id as int, with_depth(s[id as int], s[id as int].depth - 1));
        assert(apply(s, Op::Unnest { id }) == Some((t, Seq::<usize>::empty())));
        assert(repeat(Op::Unnest { id }, k).drop_first() == repeat(Op::Unnest { id }, (k - 1) as nat));
        crate::registry::lemma_depth_keeps_wf(s, id, s[id as int].depth - 1);
        lemma_unnest_n(t, id, (k - 1) as nat);
        assert(t.update(id as int, with_depth(t[id as int], t[id as int].depth - (k - 1))) =~= s.update(
            id as int,
            with_depth(s[id as int], s[id as int].depth - k),
        ));
    }
}

/// Freeze/thaw balance: on an object with no section open, after `n`
/// freezes and `n` thaws none is open and the last thaw was the outermost,
/// so the changes made inside are flushed; after `n` freezes and `n - 1`
/// thaws one is still open, so they are not yet.
pub proof fn lemma_section_balance(s: Seq<Node>, id: usize, n: nat)
    requires
        wf(s),
        usable(s, id as int),
        s[id as int].depth == 0,
        1 <= n <= u64::MAX,
    ensures
        run(s, repeat(Op::Nest { id }, n) + repeat(Op::Unnest { id }, n)).0[id as int].depth == 0,
        run(s, repeat(Op::Nest { id }, n) + repeat(Op::Unnest { id }, (n - 1) as nat)).0[id as int].depth == 1,
{
    lemma_nest_n(s, id, n);
    let t = run(s, repeat(Op::Nest { id }, n)).0;
    crate::registry::lemma_depth_keeps_wf(s, id, n as int);
    lemma_unnest_n(t, id, n);
    lemma_unnest_n(t, id, (n - 1) as nat);
    lemma_run_append(s, repeat(Op::Nest { id }, n), repeat(Op::Unnest { id }, n));
    lemma_run_append(s, repeat(Op::Nest { id }, n), repeat(Op::Unnest { id }, (n - 1) as nat));
}

/// Atomic nesting: two sections opened and one closed leave one open, so a
/// further close is accepted.
pub proof fn lemma_atomic_nesting(s: Seq<Node>, id: usize)
    requires
        wf(s),
        usable(s, id as int),
        s[id as int].depth == 0,
    ensures
        run(s, seq![Op::Nest { id }, Op::Nest { id }, Op::Unnest { id }]).0[id as int].depth == 1,
        apply(run(s, seq![Op::Nest { id }, Op::Nest { id }, Op::Unnest { id }]).0, Op::Unnest { id }) is Some,
{
    let ops = seq![Op::Nest { id }, Op::Nest { id }, Op::Unnest { id }];
    assert(ops =~= repeat(Op::Nest { id }, 2) + repeat(Op::Unnest { id }, 1)) by {
        assert(repeat(Op::Nest { id }, 2) =~= seq![Op::Nest { id }, Op::Nest { id }]) by {
            assert(repeat(Op::Nest { id }, 0) =~= Seq::<Op>::empty());
            assert(repeat(Op::Nest { id }, 1) =~= seq![Op::Nest { id }]);
        }
        assert(repeat(Op::Unnest { id }, 0) =~= Seq::<Op>::empty());
        assert(repeat(Op::Unnest { id }, 1) =~= seq![Op::Unnest { id }]);
    }
    lemma_nest_n(s, id, 2);
    let t = run(s, repeat(Op::Nest { id }, 2)).0;
    crate::registry::lemma_depth_keeps_wf(s, id, 2);
    lemma_unnest_n(t, id, 1);
    lemma_run_append(s, repeat(Op::Nest { id }, 2), repeat(Op::Unnest { id }, 1));
    let u = run(s, ops).0;
    assert(u == t.update(id as int, with_depth(t[id as int], 1)));
    assert(usable(u, id as int));
}

} // verus!
