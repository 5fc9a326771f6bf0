//! Bookkeeping for the search boundary: whether the search side is open,
//! and which result buffers are out with the caller, so that a buffer is
//! given back exactly once and nothing is searched before opening.
use vstd::prelude::*;

verus! {

/// A caller error at the boundary.
#[derive(Clone, Copy, Debug, PartialEq, Eq)]
pub enum BoundaryError {
    /// A search came before a successful initialisation.
    NotInitialized,
    /// A buffer was given back that is not out: never handed out, or
    /// already given back.
    UnknownBuffer,
}

/// The buffers handed out and not yet given back, by address.
pub struct BufferLedger {
    outstanding: Vec<u64>,
}

impl View for BufferLedger {
    type V = Set<u64>;

    closed spec fn view(&self) -> Set<u64> {
        Set::new(|id: u64| self.outstanding@.contains(id))
    }
}

impl BufferLedger {
    /// No address is recorded twice.
    pub closed spec fn wf(&self) -> bool {
        self.outstanding@.no_duplicates()
    }

    /// A ledger with no buffer out.
    pub fn new() -> (r: BufferLedger)
        ensures
            r.wf(),
            r@ == Set::<u64>::empty(),
    {
        let r = BufferLedger { outstanding: Vec::new() };
        assert(r@ =~= Set::<u64>::empty());
        r
    }

    /// Position of `id` among the outstanding buffers.
    fn position(&self, id: u64) -> (r: Option<usize>)
        ensures
            match r {
                Some(i) => i < self.outstanding@.len() && self.outstanding@[i as int] == id,
                None => !self.outstanding@.contains(id),
            },
    {
        let mut i: usize = 0;
        while i < self.outstanding.len()
            invariant
                i <= self.outstanding@.len(),
                forall|j: int| 0 <= j < i ==> self.outstanding@[j] != id,
            decreases self.outstanding@.len() - i,
        {
            if self.outstanding[i] == id {
                return Some(i);
            }
            i = i + 1;
        }
        None
    }

    /// Whether the buffer at `id` is out with the caller.
    pub fn is_outstanding(&self, id: u64) -> (r: bool)
        ensures
            r == self@.contains(id),
    {
        self.position(id).is_some()
    }

    /// Records that the buffer at `id` was handed out. Returns false, and
    /// changes nothing, when that address is already out.
    pub fn hand_out(&mut self, id: u64) -> (r: bool)
        requires
            old(self).wf(),
        ensures
            final(self).wf(),
            r == !old(self)@.contains(id),
            final(self)@ == old(self)@.insert(id),
    {
        if self.is_outstanding(id) {
            assert(self@.insert(id) =~= self@);
            return false;
        }
        let ghost before = self.outstanding@;
        self.outstanding.push(id);
        assert(self@ =~= Set::new(|x: u64| before.contains(x)).insert(id)) by {
            assert forall|x: u64| self.outstanding@.contains(x) <==> (before.contains(x) || x == id) by {
                if before.contains(x) {
                    let k = choose|k: int| 0 <= k < before.len() && before[k] == x;
                    assert(self.outstanding@[k] == x);
                }
                if x == id {
                    assert(self.outstanding@[before.len() as int] == id);
                }
                if self.outstanding@.contains(x) && x != id {
                    let k = choose|k: int| 0 <= k < self.outstanding@.len() && self.outstanding@[k] == x;
                    assert(k < before.len());
                    assert(before[k] == x);
                }
            }
        }
        true
    }

    /// Takes back the buffer at `id`. Succeeds exactly when it is out, and
    /// it is out no longer afterwards; a second give-back of the same buffer
    /// is refused.
    pub fn give_back(&mut self, id: u64) -> (r: Result<(), BoundaryError>)
        requires
            old(self).wf(),
        ensures
            final(self).wf(),
            r is Ok <==> old(self)@.contains(id),
            r is Err ==> r == Err::<(), BoundaryError>(BoundaryError::UnknownBuffer),
            final(self)@ == old(self)@.remove(id),
    {
        match self.position(id) {
            None => {
                assert(self@.remove(id) =~= self@);
                Err(BoundaryError::UnknownBuffer)
            },
            Some(i) => {
                let ghost before = self.outstanding@;
                self.outstanding.remove(i);
                assert(self.outstanding@ == before.remove(i as int));
                assert(self@ =~= Set::new(|x: u64| before.contains(x)).remove(id)) by {
                    assert forall|x: u64| self.outstanding@.contains(x) <==> (before.contains(x) && x != id) by {
                        if self.outstanding@.contains(x) {
                            let k = choose|k: int| 0 <= k < self.outstanding@.len() && self.outstanding@[k] == x;
                            if k < i {
                                assert(before[k] == x);
                                assert(k != i);
                            } else {
                                assert(before[k + 1] == x);
                                assert(k + 1 != i);
                            }
                        }
                        if before.contains(x) && x != id {
                            let k = choose|k: int| 0 <= k < before.len() && before[k] == x;
                            assert(k != i);
                            if k < i {
                                assert(self.outstanding@[k] == x);
                            } else {
                                assert(self.outstanding@[k - 1] == x);
                            }
                        }
                    }
                }
                Ok(())
            },
        }
    }
}

/// Whether the search side may serve a query.
pub fn check_ready(initialized: bool) -> (r: Result<(), BoundaryError>)
    ensures
        r is Ok <==> initialized,
        r is Err ==> r == Err::<(), BoundaryError>(BoundaryError::NotInitialized),
{
    if initialized {
        Ok(())
    } else {
        Err(BoundaryError::NotInitialized)
    }
}

} // verus!
