//! Which assets are being mutated. Mutations of one asset must not
//! interleave; mutations of different assets may run side by side.
//!
//! The table records the identifiers whose mutation is under way. A caller
//! that shares the table between tasks guards it as a whole and waits
//! while `try_acquire` refuses.

use crate::id::AssetId;
use vstd::prelude::*;

verus! {

/// The identifiers that are locked for mutation.
pub struct MutationLocks {
    held: Vec<u128>,
}

impl MutationLocks {
    /// Whether `id` is locked.
    pub closed spec fn holds(&self, id: AssetId) -> bool {
        self.held@.contains(id.bits)
    }

    /// A table in which nothing is locked.
    pub fn new() -> (r: MutationLocks)
        ensures
            forall|id: AssetId| !r.holds(id),
    {
        MutationLocks { held: Vec::new() }
    }

    /// Tells whether `id` is locked.
    pub fn is_held(&self, id: AssetId) -> (r: bool)
        ensures
            r == self.holds(id),
    {
        let mut i: usize = 0;
        while i < self.held.len()
            invariant
                i <= self.held.len(),
                forall|k: int| 0 <= k < i ==> self.held@[k] != id.bits,
            decreases self.held.len() - i,
        {
            if self.held[i] == id.bits {
                return true;
            }
            i += 1;
        }
        false
    }

    /// Locks `id` unless it is locked already. It returns whether the
    /// caller got the lock; afterwards `id` is locked either way, and no
    /// other identifier is touched.
    pub fn try_acquire(&mut self, id: AssetId) -> (r: bool)
        ensures
            r == !old(self).holds(id),
            forall|other: AssetId|
                final(self).holds(other) == (old(self).holds(other) || other == id),
    {
        if self.is_held(id) {
            return false;
        }
        let ghost before = self.held@;
        self.held.push(id.bits);
        proof {
            assert forall|other: AssetId| self.holds(other) == (before.contains(other.bits)
                || other == id) by {
                if before.contains(other.bits) {
                    let k = choose|k: int| 0 <= k < before.len() && before[k] == other.bits;
                    assert(self.held@[k] == other.bits);
                }
                if other == id {
                    assert(self.held@[before.len() as int] == id.bits);
                }
            }
        }
        true
    }

    /// Unlocks `id`. No other identifier is touched.
    pub fn release(&mut self, id: AssetId)
        ensures
            forall|other: AssetId|
                final(self).holds(other) == (old(self).holds(other) && other != id),
    {
        let mut kept: Vec<u128> = Vec::new();
        let mut i: usize = 0;
        while i < self.held.len()
            invariant
                i <= self.held.len(),
                forall|k: int| 0 <= k < kept@.len() ==> kept@[k] != id.bits && exists|j: int|
                    0 <= j < i && self.held@[j] == #[trigger] kept@[k],
                forall|j: int|
                    0 <= j < i && self.held@[j] != id.bits ==> kept@.contains(
                        #[trigger] self.held@[j],
                    ),
            decreases self.held.len() - i,
        {
            let ghost earlier = kept@;
            let x: u128 = self.held[i];
            if x != id.bits {
                kept.push(x);
                proof {
                    assert forall|k: int| 0 <= k < kept@.len() implies kept@[k] != id.bits
                        && exists|j: int|
                        0 <= j < i + 1 && self.held@[j] == #[trigger] kept@[k] by {
                        if k < earlier.len() {
                            let j = choose|j: int| 0 <= j < i && self.held@[j] == earlier[k];
                            assert(0 <= j < i + 1 && self.held@[j] == kept@[k]);
                        } else {
                            assert(self.held@[i as int] == kept@[k]);
                        }
                    }
                }
            }
            proof {
                assert forall|j: int|
                    0 <= j < i + 1 && self.held@[j] != id.bits implies kept@.contains(
                    #[trigger] self.held@[j],
                ) by {
                    if j < i {
                        let k = choose|k: int|
                            0 <= k < earlier.len() && earlier[k] == self.held@[j];
                        assert(kept@[k] == self.held@[j]);
                    } else {
                        assert(kept@[kept@.len() - 1] == self.held@[j]);
                    }
                }
            }
            i += 1;
        }
        proof {
            let before = self.held@;
            assert forall|other: AssetId| kept@.contains(other.bits) == (before.contains(other.bits)
                && other != id) by {
                if kept@.contains(other.bits) {
                    let k = choose|k: int| 0 <= k < kept@.len() && kept@[k] == other.bits;
                    let j = choose|j: int| 0 <= j < before.len() && before[j] == kept@[k];
                    assert(before[j] == other.bits);
                }
                if before.contains(other.bits) && other != id {
                    let j = choose|j: int| 0 <= j < before.len() && before[j] == other.bits;
                    assert(kept@.contains(before[j]));
                }
            }
        }
        self.held = kept;
    }
}

} // verus!
