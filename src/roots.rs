//! The rooted value set: host-side slots that keep engine values reachable
//! for the collector, acquired and released in strict stack order.
use vstd::prelude::*;

verus! {

/// A handle to one slot of a [`RootStack`]: the position it was given when acquired.
#[derive(Clone, Copy, Debug, PartialEq, Eq, Structural)]
pub struct RootHandle {
    pub index: usize,
}

/// Why a release was refused.
#[derive(Clone, Copy, Debug, PartialEq, Eq, Structural)]
pub enum RootError {
    /// The handle is live but was not the most recently acquired one.
    OutOfOrder,
    /// The handle does not name a live slot.
    NotLive,
}

/// The live roots of one thread of execution, oldest first. Each slot holds the
/// raw bits of the engine value it keeps reachable.
pub struct RootStack {
    slots: Vec<u64>,
}

/// A release of the handle at `index` is valid on a stack of `len` live roots
/// exactly when that handle is the most recent acquisition.
pub open spec fn release_valid(len: nat, index: nat) -> bool {
    index + 1 == len
}

/// Whether releasing the handles in `order`, one after the other, starting from
/// `len` live roots, is valid at every step.
pub open spec fn releases_valid(len: nat, order: Seq<nat>) -> bool
    decreases order.len(),
{
    if order.len() == 0 {
        true
    } else {
        &&& release_valid(len, order[0])
        &&& releases_valid((len - 1) as nat, order.drop_first())
    }
}

/// The handles acquired at positions `base .. base + n`, newest first.
pub open spec fn reverse_indices(base: nat, n: nat) -> Seq<nat>
    decreases n,
{
    if n == 0 {
        Seq::empty()
    } else {
        seq![(base + n - 1) as nat] + reverse_indices(base, (n - 1) as nat)
    }
}

/// For `n` roots acquired on top of `base` earlier ones, a sequence of `n`
/// releases is valid at every step exactly when it releases the handles in the
/// reverse order of their acquisition.
pub proof fn lemma_only_reverse_order_releases(base: nat, n: nat, order: Seq<nat>)
    requires
        order.len() == n,
    ensures
        releases_valid(base + n, order) <==> order == reverse_indices(base, n),
    decreases n,
{
    lemma_reverse_indices_len(base, n);
    if n == 0 {
        assert(order =~= reverse_indices(base, n));
    } else {
        let rest = order.drop_first();
        let rev = reverse_indices(base, n);
        lemma_only_reverse_order_releases(base, (n - 1) as nat, rest);
        assert(rev.drop_first() =~= reverse_indices(base, (n - 1) as nat));
        assert(((base + n) - 1) as nat == base + (n - 1) as nat);
        if order == rev {
            assert(rest == reverse_indices(base, (n - 1) as nat));
        }
        if releases_valid(base + n, order) {
            assert(order[0] == rev[0]);
            assert(order =~= rev);
        }
    }
}

/// `reverse_indices(base, n)` holds `n` handles.
pub proof fn lemma_reverse_indices_len(base: nat, n: nat)
    ensures
        reverse_indices(base, n).len() == n,
    decreases n,
{
    if n > 0 {
        lemma_reverse_indices_len(base, (n - 1) as nat);
    }
}

impl RootStack {
    /// The values of the live roots, oldest first.
    pub closed spec fn view(&self) -> Seq<u64> {
        self.slots@
    }

    /// Whether `h` names a live slot.
    pub open spec fn is_live(&self, h: RootHandle) -> bool {
        h.index < self@.len()
    }

    /// An empty set of roots.
    pub fn new() -> (r: Self)
        ensures
            r@ == Seq::<u64>::empty(),
    {
        RootStack { slots: Vec::new() }
    }

    /// The number of live roots.
    pub fn live_count(&self) -> (r: usize)
        ensures
            r == self@.len(),
    {
        self.slots.len()
    }

    /// Roots `value` in a new slot on top of the stack.
    pub fn root(&mut self, value: u64) -> (h: RootHandle)
        requires
            old(self)@.len() < usize::MAX,
        ensures
            final(self)@ == old(self)@.push(value),
            h.index == old(self)@.len(),
    {
        let h = RootHandle { index: self.slots.len() };
        self.slots.push(value);
        h
    }

    /// Reads the value held by a live root.
    pub fn get(&self, h: RootHandle) -> (r: u64)
        requires
            self.is_live(h),
        ensures
            r == self@[h.index as int],
    {
        self.slots[h.index]
    }

    /// Updates the value held by a live root in place.
    pub fn set(&mut self, h: RootHandle, value: u64)
        requires
            old(self).is_live(h),
        ensures
            final(self)@ == old(self)@.update(h.index as int, value),
    {
        self.slots.set(h.index, value);
    }

    /// Releases the root `h`, which must be the most recent live one. A release
    /// out of order, or of a handle that is not live, is refused and changes nothing.
    pub fn release(&mut self, h: RootHandle) -> (r: Result<u64, RootError>)
        ensures
            release_valid(old(self)@.len(), h.index as nat) ==> {
                &&& r == Ok::<u64, RootError>(old(self)@.last())
                &&& final(self)@ == old(self)@.drop_last()
            },
            !release_valid(old(self)@.len(), h.index as nat) ==> {
                &&& final(self)@ == old(self)@
                &&& r == Err::<u64, RootError>(
                    if old(self).is_live(h) { RootError::OutOfOrder } else { RootError::NotLive },
                )
            },
    {
        let len = self.slots.len();
        if h.index >= len {
            Err(RootError::NotLive)
        } else if h.index + 1 != len {
            Err(RootError::OutOfOrder)
        } else {
            match self.slots.pop() {
                Some(v) => Ok(v),
                None => Err(RootError::NotLive),
            }
        }
    }
}

} // verus!
