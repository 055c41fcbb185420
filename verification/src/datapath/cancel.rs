//! A request to stop, and who is waiting for it.
//!
//! The waiters hold slots that do not move while they are held: taking the wakers
//! out leaves the slots in place, and a slot that is given back is reused, so the
//! list does not grow for the life of a session.

use vstd::prelude::*;

verus! {

/// What a wait that was raced against a request to stop produced.
#[derive(Debug, PartialEq, Eq)]
pub enum Raced<T> {
    /// The work finished first.
    Completed(T),
    /// The request came first.
    Cancelled,
}

/// What one look at work that is raced against a request to stop gives.
pub open spec fn raced<T>(cancelled: bool, work: Option<T>, r: Option<Raced<T>>) -> bool {
    r == (if cancelled {
        Some(Raced::<T>::Cancelled)
    } else {
        match work {
            Some(output) => Some(Raced::Completed(output)),
            None => None,
        }
    })
}

/// One look at work that is raced against a request to stop: the request is looked at
/// first, so that it is reached however much work there is; then what the work produced,
/// if it is ready. `None` while both are pending.
#[must_use]
pub fn race<T>(cancelled: bool, work: Option<T>) -> (r: Option<Raced<T>>)
    ensures
        raced(cancelled, work, r),
{
    if cancelled {
        return Some(Raced::Cancelled);
    }
    match work {
        Some(output) => Some(Raced::Completed(output)),
        None => None,
    }
}

/// Whether a stop was requested, and the wakers to call when it is.
#[derive(Debug)]
pub struct CancelState<W> {
    /// Whether a stop was requested.
    pub tripped: bool,
    /// One slot for each wait that registered.
    pub waiters: Vec<Option<W>>,
}

/// The wakers that stand in a list of slots, in order.
pub open spec fn standing<W>(slots: Seq<Option<W>>) -> Seq<W>
    decreases slots.len(),
{
    if slots.len() == 0 {
        Seq::empty()
    } else {
        let front = standing(slots.drop_last());
        match slots.last() {
            Some(w) => front.push(w),
            None => front,
        }
    }
}

/// What a request to stop leaves, and whom it wakes.
pub open spec fn trips<W>(before: CancelState<W>, after: CancelState<W>, woken: Seq<W>) -> bool {
    &&& after.tripped
    &&& woken == standing(before.waiters@)
    &&& after.waiters@ == Seq::new(before.waiters@.len(), |i: int| Option::<W>::None)
}

/// What one look by a wait leaves, and the slot that it has.
pub open spec fn waits<W>(
    before: CancelState<W>,
    slot: Option<usize>,
    waker: W,
    after: CancelState<W>,
    registered: Option<usize>,
) -> bool {
    &&& after.tripped == before.tripped
    &&& match registered {
        None => before.tripped && after == before,
        Some(at) => {
            &&& !before.tripped
            &&& slot is Some ==> slot == Some(at)
            &&& slot is None ==> at <= before.waiters@.len() && (forall|j: int|
                0 <= j < at ==> (#[trigger] before.waiters@[j]) is Some) && (at
                < before.waiters@.len() ==> before.waiters@[at as int] is None)
            &&& after.waiters@ == (if at < before.waiters@.len() {
                before.waiters@.update(at as int, Some(waker))
            } else {
                before.waiters@.push(Some(waker))
            })
        },
    }
}

/// What giving a slot back leaves.
pub open spec fn gives_back<W>(before: CancelState<W>, slot: usize, after: CancelState<W>) -> bool {
    &&& after.tripped == before.tripped
    &&& after.waiters@ == (if slot < before.waiters@.len() {
        before.waiters@.update(slot as int, None)
    } else {
        before.waiters@
    })
}

impl<W> CancelState<W> {
    /// A request that was not made.
    #[must_use]
    pub fn new() -> (c: Self)
        ensures
            !c.tripped,
            c.waiters@ == Seq::<Option<W>>::empty(),
    {
        CancelState { tripped: false, waiters: Vec::new() }
    }

    /// Whether a stop was requested.
    #[must_use]
    pub fn is_cancelled(&self) -> (b: bool)
        ensures
            b == self.tripped,
    {
        self.tripped
    }

    /// Requests a stop and hands back every waker, to be called. The slots stay
    /// where they are. A second request finds nobody waiting.
    pub fn cancel(&mut self) -> (woken: Vec<W>)
        ensures
            trips(*old(self), *final(self), woken@),
    {
        self.tripped = true;
        let mut woken: Vec<W> = Vec::new();
        let ghost before = self.waiters@;
        let n: usize = self.waiters.len();
        let mut empty: Vec<Option<W>> = Vec::new();
        let mut i: usize = 0;
        while i < n
            invariant
                i <= n,
                empty@ == Seq::new(i as nat, |j: int| Option::<W>::None),
            decreases n - i,
        {
            empty.push(None);
            assert(empty@ =~= Seq::new((i + 1) as nat, |j: int| Option::<W>::None));
            i += 1;
        }
        let mut slots: Vec<Option<W>> = empty;
        core::mem::swap(&mut slots, &mut self.waiters);
        let mut rest: Vec<Option<W>> = slots;
        let ghost mut done: Seq<Option<W>> = Seq::empty();
        assert(rest@ =~= before);
        while rest.len() > 0
            invariant
                before =~= done + rest@,
                woken@ == standing(done),
            decreases rest@.len(),
        {
            let slot = rest.remove(0);
            proof {
                let next = done.push(slot);
                assert(next.drop_last() =~= done);
                done = next;
            }
            match slot {
                Some(w) => {
                    woken.push(w);
                },
                None => {},
            }
        }
        assert(done =~= before);
        woken
    }

    /// One look by a wait: `None` when a stop was requested, else the slot that now
    /// holds its waker. A wait keeps the slot it has; a new one takes the first that
    /// is free.
    pub fn poll(&mut self, slot: Option<usize>, waker: W) -> (registered: Option<usize>)
        requires
            slot matches Some(i) ==> i < old(self).waiters@.len(),
        ensures
            waits(*old(self), slot, waker, *final(self), registered),
    {
        if self.tripped {
            return None;
        }
        let at: usize = match slot {
            Some(i) => i,
            None => {
                let mut i: usize = 0;
                while i < self.waiters.len() && self.waiters[i].is_some()
                    invariant
                        i <= self.waiters@.len(),
                        forall|j: int| 0 <= j < i ==> (#[trigger] self.waiters@[j]) is Some,
                    decreases self.waiters@.len() - i,
                {
                    i += 1;
                }
                i
            },
        };
        if at < self.waiters.len() {
            self.waiters[at] = Some(waker);
        } else {
            self.waiters.push(Some(waker));
        }
        Some(at)
    }

    /// Gives a slot back.
    pub fn release(&mut self, slot: usize)
        ensures
            gives_back(*old(self), slot, *final(self)),
    {
        if slot < self.waiters.len() {
            self.waiters[slot] = None;
        }
    }
}

proof fn standing_has<W>(slots: Seq<Option<W>>, i: int)
    requires
        0 <= i < slots.len(),
        slots[i] is Some,
    ensures
        standing(slots).contains(slots[i]->0),
    decreases slots.len(),
{
    let all = standing(slots);
    if i == slots.len() - 1 {
        assert(all[all.len() - 1] == slots[i]->0);
    } else {
        let front = slots.drop_last();
        standing_has(front, i);
        let j = choose|j: int| 0 <= j < standing(front).len() && standing(front)[j] == slots[i]->0;
        assert(all[j] == slots[i]->0);
    }
}

/// No wait that registered is forgotten: a request to stop wakes every one whose
/// waker still stands.
pub proof fn every_waiter_is_woken<W>(slots: Seq<Option<W>>)
    ensures
        forall|i: int|
            0 <= i < slots.len() && (#[trigger] slots[i]) is Some ==> standing(slots).contains(
                slots[i]->0,
            ),
{
    assert forall|i: int| 0 <= i < slots.len() && (#[trigger] slots[i]) is Some implies standing(
        slots,
    ).contains(slots[i]->0) by {
        standing_has(slots, i);
    }
}

} // verus!
