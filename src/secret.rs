//! The hardware secret store: fragments sealed at persistent handles.
use vstd::prelude::*;
use crate::text::copy_bytes;

verus! {

/// How the hardware store can fail.
#[derive(Clone, Copy, Debug, PartialEq, Eq, Structural)]
pub enum HardwareError {
    /// The module cannot be reached.
    HardwareUnavailable,
    /// No secret is sealed at the handle.
    HandleNotFound,
    /// No storage slot remains for a new handle.
    HardwareCapacityExceeded,
}

/// A hardware module's persistent storage: the handles in use, the secret
/// sealed at each, and how many handles it can hold.
pub struct SecretStore {
    handles: Vec<u32>,
    secrets: Vec<Vec<u8>>,
    capacity: usize,
    reachable: bool,
}

/// What a store holds: the secret at each handle, its capacity, and whether it
/// can be reached.
pub struct StoreView {
    pub sealed: Map<u32, Seq<u8>>,
    pub capacity: nat,
    pub reachable: bool,
}

/// The store and result after sealing `bytes` at `handle`: an occupied handle
/// is overwritten, a new one needs a free slot.
pub open spec fn seal_step(s: StoreView, handle: u32, bytes: Seq<u8>) -> (StoreView, Result<u32, HardwareError>) {
    if !s.reachable {
        (s, Err(HardwareError::HardwareUnavailable))
    } else if !s.sealed.contains_key(handle) && s.sealed.len() >= s.capacity {
        (s, Err(HardwareError::HardwareCapacityExceeded))
    } else {
        (StoreView { sealed: s.sealed.insert(handle, bytes), ..s }, Ok(handle))
    }
}

/// What unsealing `handle` returns.
pub open spec fn unseal_result(s: StoreView, handle: u32) -> Result<Seq<u8>, HardwareError> {
    if !s.reachable {
        Err(HardwareError::HardwareUnavailable)
    } else if !s.sealed.contains_key(handle) {
        Err(HardwareError::HandleNotFound)
    } else {
        Ok(s.sealed[handle])
    }
}

/// In a sequence without repeats, an element's index is where it stands.
proof fn lemma_index_of_distinct(s: Seq<u32>, i: int)
    requires
        s.no_duplicates(),
        0 <= i < s.len(),
    ensures
        s.index_of(s[i]) == i,
{
    assert(s.contains(s[i]));
}

impl SecretStore {
    /// The store's contents.
    pub closed spec fn view(&self) -> StoreView {
        StoreView {
            sealed: Map::new(
                |h: u32| self.handles@.contains(h),
                |h: u32| self.secrets@[self.handles@.index_of(h)]@,
            ),
            capacity: self.capacity as nat,
            reachable: self.reachable,
        }
    }

    /// Handles are distinct, each has its secret, and the capacity is kept.
    pub closed spec fn wf(&self) -> bool {
        &&& self.handles@.len() == self.secrets@.len()
        &&& self.handles@.no_duplicates()
        &&& self.handles@.len() <= self.capacity
    }

    proof fn lemma_view_len(&self)
        requires
            self.wf(),
        ensures
            self.view().sealed.len() == self.handles@.len(),
            self.view().sealed.dom() == self.handles@.to_set(),
    {
        assert(self.view().sealed.dom() =~= self.handles@.to_set());
        self.handles@.unique_seq_to_set();
    }

    /// An empty store with room for `capacity` handles.
    pub fn new(capacity: usize, reachable: bool) -> (r: SecretStore)
        ensures
            r.wf(),
            r.view().sealed == Map::<u32, Seq<u8>>::empty(),
            r.view().capacity == capacity,
            r.view().reachable == reachable,
    {
        let r = SecretStore { handles: Vec::new(), secrets: Vec::new(), capacity, reachable };
        assert(r.view().sealed =~= Map::<u32, Seq<u8>>::empty());
        r
    }

    fn find(&self, handle: u32) -> (r: Option<usize>)
        requires
            self.wf(),
        ensures
            match r {
                Some(i) => i < self.handles@.len() && self.handles@[i as int] == handle
                    && self.handles@.index_of(handle) == i,
                None => !self.handles@.contains(handle),
            },
    {
        let mut i: usize = 0;
        while i < self.handles.len()
            invariant
                self.wf(),
                0 <= i <= self.handles@.len(),
                forall|j: int| 0 <= j < i ==> self.handles@[j] != handle,
            decreases self.handles@.len() - i,
        {
            if self.handles[i] == handle {
                proof {
                    lemma_index_of_distinct(self.handles@, i as int);
                }
                return Some(i);
            }
            i = i + 1;
        }
        None
    }

    /// Seals `bytes` at `handle` and returns the handle to record.
    pub fn seal(&mut self, handle: u32, bytes: Vec<u8>) -> (r: Result<u32, HardwareError>)
        requires
            old(self).wf(),
        ensures
            final(self).wf(),
            (final(self).view(), r) == seal_step(old(self).view(), handle, bytes@),
    {
        proof {
            self.lemma_view_len();
        }
        if !self.reachable {
            return Err(HardwareError::HardwareUnavailable);
        }
        match self.find(handle) {
            Some(i) => {
                let ghost before = self.view();
                self.secrets.set(i, bytes);
                proof {
                    assert(self.view().sealed =~= before.sealed.insert(handle, bytes@));
                }
                Ok(handle)
            },
            None => {
                if self.handles.len() >= self.capacity {
                    return Err(HardwareError::HardwareCapacityExceeded);
                }
                let ghost before = self.view();
                let ghost old_handles = self.handles@;
                let ghost old_secrets = self.secrets@;
                self.handles.push(handle);
                self.secrets.push(bytes);
                proof {
                    assert(self.handles@.no_duplicates());
                    assert forall|h: u32| old_handles.contains(h) implies self.handles@.index_of(h)
                        == old_handles.index_of(h) by {
                        let j = old_handles.index_of(h);
                        lemma_index_of_distinct(old_handles, j);
                        assert(self.handles@[j] == h);
                        lemma_index_of_distinct(self.handles@, j);
                    }
                    assert(self.handles@.index_of(handle) == old_handles.len()) by {
                        assert(self.handles@[old_handles.len() as int] == handle);
                        lemma_index_of_distinct(self.handles@, old_handles.len() as int);
                    }
                    assert forall|h: u32| #[trigger] self.handles@.contains(h) implies self.view().sealed[h]
                        == before.sealed.insert(handle, bytes@)[h] by {
                        if h != handle {
                            assert(old_handles.contains(h)) by {
                                let j = self.handles@.index_of(h);
                                assert(old_handles[j] == h);
                            }
                            let j = old_handles.index_of(h);
                            assert(self.secrets@[j] == old_secrets[j]);
                        }
                    }
                    assert forall|h: u32| #[trigger] self.handles@.contains(h) == (old_handles.contains(h)
                        || h == handle) by {
                        if old_handles.contains(h) {
                            let j = old_handles.index_of(h);
                            assert(self.handles@[j] == h);
                        }
                        if self.handles@.contains(h) && h != handle {
                            let j = self.handles@.index_of(h);
                            assert(old_handles[j] == h);
                        }
                    }
                    assert(self.view().sealed.dom() =~= before.sealed.insert(handle, bytes@).dom());
                    assert(self.view().sealed =~= before.sealed.insert(handle, bytes@));
                }
                Ok(handle)
            },
        }
    }

    /// Returns the secret sealed at `handle`.
    pub fn unseal(&self, handle: u32) -> (r: Result<Vec<u8>, HardwareError>)
        requires
            self.wf(),
        ensures
            match (r, unseal_result(self.view(), handle)) {
                (Ok(b), Ok(s)) => b@ == s,
                (Err(e), Err(f)) => e == f,
                _ => false,
            },
    {
        if !self.reachable {
            return Err(HardwareError::HardwareUnavailable);
        }
        match self.find(handle) {
            Some(i) => Ok(copy_bytes(self.secrets[i].as_slice())),
            None => Err(HardwareError::HandleNotFound),
        }
    }
}

} // verus!
