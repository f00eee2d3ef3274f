//! Realm entry and exit: which realm of a context is active, kept as a stack so
//! that nested entries restore the outer realm when they end.
use vstd::prelude::*;

verus! {

/// What `enter` hands back: the realm entered and the depth it was entered at.
/// Exiting with it restores the realm that was active before.
#[derive(Clone, Copy, Debug, PartialEq, Eq, Structural)]
pub struct RealmGuard {
    pub realm: u64,
    pub depth: usize,
}

/// Why an exit was refused.
#[derive(Clone, Copy, Debug, PartialEq, Eq, Structural)]
pub enum RealmError {
    /// The guard does not belong to the innermost entered realm.
    NotInnermost,
}

/// The realms entered on one context, outermost first; the last one is active.
pub struct RealmStack {
    entered: Vec<u64>,
}

/// The active realm of a stack of entered realms, if any.
pub open spec fn active_of(s: Seq<u64>) -> Option<u64> {
    if s.len() == 0 {
        None
    } else {
        Some(s.last())
    }
}

/// Whether `g` belongs to the innermost entry of `s`.
pub open spec fn guard_matches(s: Seq<u64>, g: RealmGuard) -> bool {
    &&& g.depth + 1 == s.len()
    &&& s.last() == g.realm
}

/// Entering realm `r` and then exiting with the guard of that entry restores the
/// realm that was active before (or none) and the whole stack of entered realms,
/// whatever nested entries and exits were made in between, as long as they were
/// properly nested; after that exit the same guard is refused, so the previous
/// realm is restored exactly once.
pub proof fn lemma_enter_exit_restores(s: Seq<u64>, r: u64, inner: Seq<Seq<u64>>)
    requires
        s.len() < usize::MAX,
        forall|i: int| 0 <= i < inner.len() ==> (#[trigger] inner[i]).len() > s.len() + 1
            && inner[i].subrange(0, s.len() as int + 1) == s.push(r),
    ensures
        ({
            let g = RealmGuard { realm: r, depth: s.len() as usize };
            &&& guard_matches(s.push(r), g)
            &&& active_of(s.push(r)) == Some(r)
            &&& s.push(r).drop_last() == s
            &&& !guard_matches(s, g)
            &&& forall|i: int| 0 <= i < inner.len() ==> !guard_matches(#[trigger] inner[i], g)
        }),
{
    assert(s.push(r).drop_last() =~= s);
}

impl RealmStack {
    /// The entered realms, outermost first.
    pub closed spec fn view(&self) -> Seq<u64> {
        self.entered@
    }

    /// A context with no realm entered.
    pub fn new() -> (r: Self)
        ensures
            r@ == Seq::<u64>::empty(),
    {
        RealmStack { entered: Vec::new() }
    }

    /// The active realm, if one is entered.
    pub fn active(&self) -> (r: Option<u64>)
        ensures
            r == active_of(self@),
    {
        let n = self.entered.len();
        if n == 0 {
            None
        } else {
            Some(self.entered[n - 1])
        }
    }

    /// The number of realms entered and not yet exited.
    pub fn depth(&self) -> (r: usize)
        ensures
            r == self@.len(),
    {
        self.entered.len()
    }

    /// Makes `realm` the active realm, nesting it inside the current one.
    pub fn enter(&mut self, realm: u64) -> (g: RealmGuard)
        requires
            old(self)@.len() < usize::MAX,
        ensures
            final(self)@ == old(self)@.push(realm),
            g == (RealmGuard { realm, depth: old(self)@.len() as usize }),
            guard_matches(final(self)@, g),
    {
        let g = RealmGuard { realm, depth: self.entered.len() };
        self.entered.push(realm);
        g
    }

    /// Ends the entry that `g` stands for and restores the realm active before it.
    /// Only the innermost entry can end; any other guard is refused and changes nothing.
    pub fn exit(&mut self, g: RealmGuard) -> (r: Result<(), RealmError>)
        ensures
            guard_matches(old(self)@, g) ==> {
                &&& r is Ok
                &&& final(self)@ == old(self)@.drop_last()
            },
            !guard_matches(old(self)@, g) ==> {
                &&& r == Err::<(), RealmError>(RealmError::NotInnermost)
                &&& final(self)@ == old(self)@
            },
    {
        let n = self.entered.len();
        if n == 0 || g.depth != n - 1 || self.entered[n - 1] != g.realm {
            Err(RealmError::NotInnermost)
        } else {
            self.entered.pop();
            Ok(())
        }
    }
}

} // verus!
