//! The ceiling on the number of embeddings that are made at one time.
//!
//! The permits are counted here and waited for nowhere: a caller that is
//! refused a permit decides for itself whether to fail or to try again, and
//! holds the counter behind whatever lock it shares its state with.

use vstd::prelude::*;

verus! {

/// A counter of permits: at most `limit` of them are out at any time.
pub struct EmbeddingPermits {
    limit: usize,
    in_use: usize,
}

impl EmbeddingPermits {
    /// No more permits are out than the limit.
    #[verifier::type_invariant]
    spec fn within_limit(self) -> bool {
        self.in_use <= self.limit
    }

    /// The greatest number of permits that may be out.
    pub closed spec fn limit(&self) -> nat {
        self.limit as nat
    }

    /// The number of permits that are out.
    pub closed spec fn in_use(&self) -> nat {
        self.in_use as nat
    }

    /// A counter that allows `limit` permits and has none out.
    pub fn new(limit: usize) -> (out: Self)
        ensures
            out.limit() == limit,
            out.in_use() == 0,
    {
        EmbeddingPermits { limit, in_use: 0 }
    }

    /// The number of permits that can still be taken.
    pub fn available(&self) -> (out: usize)
        ensures
            out == self.limit() - self.in_use(),
    {
        proof {
            use_type_invariant(self);
        }
        self.limit - self.in_use
    }

    /// Takes a permit if one is left, and says whether it did. It never
    /// waits.
    pub fn try_acquire(&mut self) -> (out: bool)
        ensures
            out == (old(self).in_use() < old(self).limit()),
            final(self).limit() == old(self).limit(),
            final(self).in_use() == if out {
                old(self).in_use() + 1
            } else {
                old(self).in_use()
            },
            final(self).in_use() <= final(self).limit(),
    {
        proof {
            use_type_invariant(&*self);
        }
        if self.in_use < self.limit {
            self.in_use = self.in_use + 1;
            true
        } else {
            false
        }
    }

    /// Gives a permit back. Where none is out, nothing changes.
    pub fn release(&mut self)
        ensures
            final(self).limit() == old(self).limit(),
            final(self).in_use() == if old(self).in_use() > 0 {
                old(self).in_use() - 1
            } else {
                0
            },
    {
        proof {
            use_type_invariant(&*self);
        }
        if self.in_use > 0 {
            self.in_use = self.in_use - 1;
        }
    }
}

} // verus!
