//! Identifiers of registered side effects, and the counter that issues them.
use core::cmp::Ordering;
use vstd::prelude::*;

verus! {

/// The key of one registered side effect, or of one store.
///
/// An identifier is issued by an [`IdSource`] and never changes. Its view is
/// the number it was issued under.
#[derive(Debug, Clone, Copy, PartialEq, Eq, Ord, Hash, Structural)]
pub struct Id(u64);

impl View for Id {
    type V = u64;

    closed spec fn view(&self) -> u64 {
        self.0
    }
}

impl vstd::std_specs::cmp::PartialOrdSpecImpl for Id {
    open spec fn obeys_partial_cmp_spec() -> bool {
        true
    }

    open spec fn partial_cmp_spec(&self, other: &Id) -> Option<Ordering> {
        if self@ < other@ {
            Some(Ordering::Less)
        } else if self@ > other@ {
            Some(Ordering::Greater)
        } else {
            Some(Ordering::Equal)
        }
    }
}

impl PartialOrd for Id {
    /// Identifiers are ordered by their numbers, that is, by their issue.
    fn partial_cmp(&self, other: &Id) -> (order: Option<Ordering>) {
        if self.0 < other.0 {
            Some(Ordering::Less)
        } else if self.0 > other.0 {
            Some(Ordering::Greater)
        } else {
            Some(Ordering::Equal)
        }
    }
}

/// The counter that identifiers are drawn from.
///
/// Its view is the number that the next identifier will carry. A process
/// that wants process-wide unique identifiers keeps exactly one source.
#[derive(Debug)]
pub struct IdSource {
    next: u64,
}

impl View for IdSource {
    type V = u64;

    closed spec fn view(&self) -> u64 {
        self.next
    }
}

impl IdSource {
    /// A source whose first identifier carries the number 0.
    pub fn new() -> (source: Self)
        ensures
            source@ == 0,
    {
        IdSource { next: 0 }
    }

    /// The number that follows `n` in the order of issue: the counter wraps
    /// around once every `u64` has been handed out.
    pub open spec fn following(n: u64) -> u64 {
        if n == u64::MAX {
            0
        } else {
            (n + 1) as u64
        }
    }

    /// The number of the identifier drawn after `k` others from a source
    /// that stands at `n`.
    pub open spec fn nth(n: u64, k: nat) -> u64
        decreases k,
    {
        if k == 0 {
            n
        } else {
            Self::following(Self::nth(n, (k - 1) as nat))
        }
    }

    /// Until the counter wraps around, a source counts up by one: so every
    /// identifier is greater than all that were drawn before it, and no two
    /// are the same.
    pub proof fn lemma_ids_rise(n: u64, j: nat, k: nat)
        requires
            j < k,
            n + k <= u64::MAX,
        ensures
            Self::nth(n, j) < Self::nth(n, k),
    {
        Self::lemma_nth(n, j);
        Self::lemma_nth(n, k);
    }

    /// Without a wrap, the identifier drawn after `k` others carries `n + k`.
    pub proof fn lemma_nth(n: u64, k: nat)
        requires
            n + k <= u64::MAX,
        ensures
            Self::nth(n, k) == n + k,
        decreases k,
    {
        if k > 0 {
            Self::lemma_nth(n, (k - 1) as nat);
        }
    }
}

impl Id {
    /// Draws the next identifier from `source`.
    ///
    /// The identifier carries the number the source stood at, and the source
    /// moves on by one. Until the counter wraps around, every identifier is
    /// therefore greater than all that the source issued before it.
    pub fn new(source: &mut IdSource) -> (id: Self)
        ensures
            id@ == old(source)@,
            final(source)@ == IdSource::following(old(source)@),
    {
        let n: u64 = source.next;
        source.next = if n == u64::MAX { 0 } else { n + 1 };
        Id(n)
    }

    /// The number this identifier was issued under.
    pub fn value(&self) -> (n: u64)
        ensures
            n == self@,
    {
        self.0
    }

    /// Two identifiers with the same number are the same identifier.
    pub proof fn lemma_view_injective(a: Id, b: Id)
        ensures
            a@ == b@ <==> a == b,
    {
    }
}

} // verus!
