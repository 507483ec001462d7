use vstd::prelude::*;

verus! {

/// One "produce next" step of a plural cursor: an exhausted cursor yields
/// nothing and stays exhausted; a live one yields what the native cursor
/// shows, and becomes exhausted when that is nothing.
pub open spec fn cursor_step<T>(exhausted: bool, current: Option<T>) -> (bool, Option<T>) {
    if exhausted {
        (true, None)
    } else {
        (current is None, current)
    }
}

/// What a cursor yields for the given sequence of native answers.
pub open spec fn cursor_outputs<T>(exhausted: bool, currents: Seq<Option<T>>) -> Seq<Option<T>>
    decreases currents.len(),
{
    if currents.len() == 0 {
        Seq::empty()
    } else {
        let (e, out) = cursor_step(exhausted, currents[0]);
        seq![out] + cursor_outputs(e, currents.drop_first())
    }
}

/// The position of a forward-only cursor over a native plural object: it
/// only records whether the end was reached. The caller reads the native
/// cursor's current element (nothing where it is no longer valid), hands it
/// to `next`, and advances the native cursor exactly when `next` yields it.
#[derive(Debug)]
pub struct Cursor {
    exhausted: bool,
}

impl Cursor {
    pub closed spec fn is_exhausted(&self) -> bool {
        self.exhausted
    }

    pub fn new() -> (r: Cursor)
        ensures
            !r.is_exhausted(),
    {
        Cursor { exhausted: false }
    }

    /// Produces the next element, or `None` at the end; after the first
    /// `None`, every later call yields `None` as well.
    pub fn next<T>(&mut self, current: Option<T>) -> (r: Option<T>)
        ensures
            (final(self).is_exhausted(), r) == cursor_step(old(self).is_exhausted(), current),
    {
        if self.exhausted {
            None
        } else {
            match current {
                Some(item) => Some(item),
                None => {
                    self.exhausted = true;
                    None
                },
            }
        }
    }

    /// Whether the end was reached.
    pub fn exhausted(&self) -> (r: bool)
        ensures
            r == self.is_exhausted(),
    {
        self.exhausted
    }

    /// Marks the cursor as used up, for operations that walk the native
    /// cursor to its end.
    pub fn exhaust(&mut self)
        ensures
            final(self).is_exhausted(),
    {
        self.exhausted = true;
    }
}

/// Exhaustion is idempotent: once a cursor has yielded nothing, it yields
/// nothing again, whatever the native cursor shows afterwards.
pub proof fn lemma_exhaustion_idempotent<T>(currents: Seq<Option<T>>)
    ensures
        cursor_outputs(true, currents).len() == currents.len(),
        forall|i: int| 0 <= i < currents.len() ==> cursor_outputs(true, currents)[i] is None,
    decreases currents.len(),
{
    if currents.len() > 0 {
        lemma_exhaustion_idempotent(currents.drop_first());
        let rest = cursor_outputs(true, currents.drop_first());
        assert forall|i: int| 0 <= i < currents.len() implies cursor_outputs(true, currents)[i] is None by {
            if i > 0 {
                assert(cursor_outputs(true, currents)[i] == rest[i - 1]);
            }
        }
    }
}

/// A cursor that has yielded nothing once is exhausted from then on.
pub proof fn lemma_end_is_final<T>(exhausted: bool, current: Option<T>, later: Seq<Option<T>>)
    requires
        cursor_step(exhausted, current).1 is None,
    ensures
        cursor_step(exhausted, current).0,
        forall|i: int| 0 <= i < later.len() ==> cursor_outputs(cursor_step(exhausted, current).0, later)[i] is None,
{
    lemma_exhaustion_idempotent(later);
}

} // verus!
