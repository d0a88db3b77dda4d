//! An encrypted volume's key slots, and the table of mapper names bound to
//! opened partitions.
use vstd::prelude::*;
use crate::text::{bytes_equal, find_string};

verus! {

/// How volume operations can fail.
#[derive(Clone, Copy, Debug, PartialEq, Eq, Structural)]
pub enum VolumeError {
    /// The partition does not exist or is not an encrypted volume.
    DeviceNotFound,
    /// The passphrase unlocks no key slot.
    InvalidPassphrase,
    /// No free key slot remains.
    KeySlotsExhausted,
    /// The mapper name is bound to another partition.
    MapperNameConflict,
}

/// What `open` did, when it succeeded.
#[derive(Clone, Copy, Debug, PartialEq, Eq, Structural)]
pub enum OpenOutcome {
    /// The partition was unlocked under the mapper name.
    Opened,
    /// The mapper name was already bound to this partition; nothing was done.
    AlreadyOpen,
}

/// An encrypted partition: its path, the passphrases in its key slots, and how
/// many slots it has.
pub struct Volume {
    path: String,
    slots: Vec<Vec<u8>>,
    capacity: usize,
}

/// What a volume holds.
pub struct VolumeView {
    pub path: Seq<char>,
    pub slots: Seq<Seq<u8>>,
    pub capacity: nat,
}

/// Whether a passphrase unlocks a key slot of the volume.
pub open spec fn accepts(v: VolumeView, passphrase: Seq<u8>) -> bool {
    v.slots.contains(passphrase)
}

/// The volume and result after adding `passphrase`: one that already unlocks
/// a slot is left as it is, another takes a free slot.
pub open spec fn add_key_step(v: VolumeView, passphrase: Seq<u8>) -> (VolumeView, Result<(), VolumeError>) {
    if accepts(v, passphrase) {
        (v, Ok(()))
    } else if v.slots.len() >= v.capacity {
        (v, Err(VolumeError::KeySlotsExhausted))
    } else {
        (VolumeView { slots: v.slots.push(passphrase), ..v }, Ok(()))
    }
}

impl Volume {
    /// The volume's path and slots.
    pub closed spec fn view(&self) -> VolumeView {
        VolumeView {
            path: self.path@,
            slots: self.slots@.map_values(|s: Vec<u8>| s@),
            capacity: self.capacity as nat,
        }
    }

    /// No more slots are used than the volume has.
    pub closed spec fn wf(&self) -> bool {
        self.slots@.len() <= self.capacity
    }

    /// A volume at `path` with `capacity` empty key slots.
    pub fn new(path: String, capacity: usize) -> (r: Volume)
        ensures
            r.wf(),
            r.view().path == path@,
            r.view().slots == Seq::<Seq<u8>>::empty(),
            r.view().capacity == capacity,
    {
        let r = Volume { path, slots: Vec::new(), capacity };
        assert(r.view().slots =~= Seq::<Seq<u8>>::empty());
        r
    }

    /// The partition's path.
    pub fn path(&self) -> (r: &String)
        ensures
            r@ == self.view().path,
    {
        &self.path
    }

    /// Whether `passphrase` unlocks a key slot; the volume is not changed.
    pub fn has_valid_key(&self, passphrase: &[u8]) -> (r: bool)
        ensures
            r == accepts(self.view(), passphrase@),
    {
        let ghost slots = self.slots@.map_values(|s: Vec<u8>| s@);
        let mut i: usize = 0;
        while i < self.slots.len()
            invariant
                0 <= i <= self.slots@.len(),
                slots == self.slots@.map_values(|s: Vec<u8>| s@),
                forall|j: int| 0 <= j < i ==> slots[j] != passphrase@,
            decreases self.slots@.len() - i,
        {
            if bytes_equal(self.slots[i].as_slice(), passphrase) {
                assert(slots[i as int] == passphrase@);
                return true;
            }
            i = i + 1;
        }
        false
    }

    /// Adds `passphrase` to a free key slot, unless it already unlocks one.
    pub fn add_key(&mut self, passphrase: Vec<u8>) -> (r: Result<(), VolumeError>)
        requires
            old(self).wf(),
        ensures
            final(self).wf(),
            (final(self).view(), r) == add_key_step(old(self).view(), passphrase@),
    {
        if self.has_valid_key(passphrase.as_slice()) {
            return Ok(());
        }
        if self.slots.len() >= self.capacity {
            return Err(VolumeError::KeySlotsExhausted);
        }
        let ghost before = self.view();
        self.slots.push(passphrase);
        assert(self.view().slots =~= before.slots.push(passphrase@));
        Ok(())
    }
}

/// What the mapper table holds: pairs of a mapper name and the partition it
/// exposes.
pub type Bindings = Seq<(Seq<char>, Seq<char>)>;

/// The partition bound to `name`, if any.
pub open spec fn binding(t: Bindings, name: Seq<char>) -> Option<Seq<char>> {
    if exists|i: int| 0 <= i < t.len() && t[i].0 == name {
        Some(t[choose|i: int| 0 <= i < t.len() && t[i].0 == name].1)
    } else {
        None
    }
}

/// No mapper name is bound twice.
pub open spec fn names_distinct(t: Bindings) -> bool {
    forall|i: int, j: int| 0 <= i < t.len() && 0 <= j < t.len() && i != j ==> t[i].0 != t[j].0
}

/// What opening `partition` under `name` decides, from the partition that the
/// name is bound to now: the same partition is already open, another is a
/// conflict, and an unbound name is opened.
pub open spec fn open_decision(bound: Option<Seq<char>>, partition: Seq<char>) -> Result<OpenOutcome, VolumeError> {
    match bound {
        Some(p) => if p == partition {
            Ok(OpenOutcome::AlreadyOpen)
        } else {
            Err(VolumeError::MapperNameConflict)
        },
        None => Ok(OpenOutcome::Opened),
    }
}

/// Decides whether to open `partition` under a mapper name that is bound to
/// `bound` now; `Ok(Opened)` means the unlock is still to be done.
pub fn decide_open(bound: Option<&String>, partition: &String) -> (r: Result<OpenOutcome, VolumeError>)
    ensures
        r == open_decision(
            match bound {
                Some(b) => Some(b@),
                None => None,
            },
            partition@,
        ),
{
    match bound {
        Some(b) => if *b == *partition {
            Ok(OpenOutcome::AlreadyOpen)
        } else {
            Err(VolumeError::MapperNameConflict)
        },
        None => Ok(OpenOutcome::Opened),
    }
}

/// The table and result after opening volume `v` with `passphrase` under `name`.
pub open spec fn open_step(t: Bindings, v: VolumeView, passphrase: Seq<u8>, name: Seq<char>) -> (Bindings, Result<OpenOutcome, VolumeError>) {
    match open_decision(binding(t, name), v.path) {
        Ok(OpenOutcome::Opened) => if accepts(v, passphrase) {
            (t.push((name, v.path)), Ok(OpenOutcome::Opened))
        } else {
            (t, Err(VolumeError::InvalidPassphrase))
        },
        other => (t, other),
    }
}

/// The mapper names in use and the partition each exposes.
pub struct MapperTable {
    names: Vec<String>,
    partitions: Vec<String>,
}

impl MapperTable {
    /// The bindings, in the order they were made.
    pub closed spec fn view(&self) -> Bindings {
        Seq::new(self.names@.len(), |i: int| (self.names@[i]@, self.partitions@[i]@))
    }

    /// Each name has its partition and no name is bound twice.
    pub closed spec fn wf(&self) -> bool {
        &&& self.names@.len() == self.partitions@.len()
        &&& names_distinct(self.view())
    }

    /// A table with no names bound.
    pub fn new() -> (r: MapperTable)
        ensures
            r.wf(),
            r.view() == Seq::<(Seq<char>, Seq<char>)>::empty(),
    {
        let r = MapperTable { names: Vec::new(), partitions: Vec::new() };
        assert(r.view() =~= Seq::<(Seq<char>, Seq<char>)>::empty());
        r
    }

    fn lookup(&self, name: &String) -> (r: Option<&String>)
        requires
            self.wf(),
        ensures
            match r {
                Some(p) => binding(self.view(), name@) == Some(p@),
                None => binding(self.view(), name@) is None,
            },
    {
        match find_string(&self.names, name) {
            Some(i) => {
                proof {
                    let t = self.view();
                    assert(t[i as int].0 == name@);
                    let j = choose|j: int| 0 <= j < t.len() && t[j].0 == name@;
                    assert(j == i);
                }
                Some(&self.partitions[i])
            },
            None => {
                assert(!exists|i: int| 0 <= i < self.view().len() && self.view()[i].0 == name@);
                None
            },
        }
    }

    /// Whether `name` is bound to a partition.
    pub fn is_open(&self, name: &String) -> (r: bool)
        requires
            self.wf(),
        ensures
            r == binding(self.view(), name@) is Some,
    {
        self.lookup(name).is_some()
    }

    /// Unlocks `volume` with `passphrase` and binds it to `name`. A name that is
    /// already bound to this partition is success with nothing done; one bound
    /// to another partition is a conflict, with nothing done.
    pub fn open(&mut self, volume: &Volume, passphrase: &[u8], name: &String) -> (r: Result<OpenOutcome, VolumeError>)
        requires
            old(self).wf(),
        ensures
            final(self).wf(),
            (final(self).view(), r) == open_step(old(self).view(), volume.view(), passphrase@, name@),
    {
        let decision = decide_open(self.lookup(name), volume.path());
        match decision {
            Ok(OpenOutcome::Opened) => {},
            other => return other,
        }
        if !volume.has_valid_key(passphrase) {
            return Err(VolumeError::InvalidPassphrase);
        }
        let ghost before = self.view();
        self.names.push(name.clone());
        self.partitions.push(volume.path().clone());
        proof {
            assert(self.view() =~= before.push((name@, volume.view().path)));
            assert(!exists|i: int| 0 <= i < before.len() && before[i].0 == name@);
        }
        Ok(OpenOutcome::Opened)
    }
}

} // verus!
