//! Mount points: the directories that exist and what is mounted where.
use vstd::prelude::*;
use crate::text::{contains_string, find_string};
use crate::volume::{Bindings, binding, names_distinct};

verus! {

/// How mounting can fail.
#[derive(Clone, Debug)]
pub enum MountError {
    /// Another device is mounted at the path.
    MountPathConflict,
    /// The mount itself failed, for the reason given.
    MountFailed(String),
}

/// What `ensure_mounted` did, when it succeeded.
#[derive(Clone, Copy, Debug, PartialEq, Eq, Structural)]
pub enum MountOutcome {
    /// The device was mounted at the path.
    Mounted,
    /// The device was already mounted there; nothing was done.
    AlreadyMounted,
}

/// What mounting `device` decides, from the device mounted at the path now.
pub open spec fn mount_decision(current: Option<Seq<char>>, device: Seq<char>) -> Result<MountOutcome, MountError> {
    match current {
        Some(d) => if d == device {
            Ok(MountOutcome::AlreadyMounted)
        } else {
            Err(MountError::MountPathConflict)
        },
        None => Ok(MountOutcome::Mounted),
    }
}

/// Decides whether to mount `device` at a path where `current` is mounted now;
/// `Ok(Mounted)` means the mount is still to be done.
pub fn decide_mount(current: Option<&String>, device: &String) -> (r: Result<MountOutcome, MountError>)
    ensures
        r == mount_decision(
            match current {
                Some(c) => Some(c@),
                None => None,
            },
            device@,
        ),
{
    match current {
        Some(c) => if *c == *device {
            Ok(MountOutcome::AlreadyMounted)
        } else {
            Err(MountError::MountPathConflict)
        },
        None => Ok(MountOutcome::Mounted),
    }
}

/// The directories that exist and the mounts, each a path and its device.
pub struct MountView {
    pub dirs: Seq<Seq<char>>,
    pub mounts: Bindings,
}

/// The directories after making sure `path` exists.
pub open spec fn with_dir(dirs: Seq<Seq<char>>, path: Seq<char>) -> Seq<Seq<char>> {
    if dirs.contains(path) {
        dirs
    } else {
        dirs.push(path)
    }
}

/// The state and result after making sure `device` is mounted at `path`.
pub open spec fn mount_step(m: MountView, device: Seq<char>, path: Seq<char>) -> (MountView, Result<MountOutcome, MountError>) {
    let dirs = with_dir(m.dirs, path);
    match mount_decision(binding(m.mounts, path), device) {
        Ok(MountOutcome::Mounted) => (
            MountView { dirs, mounts: m.mounts.push((path, device)) },
            Ok(MountOutcome::Mounted),
        ),
        other => (MountView { dirs, mounts: m.mounts }, other),
    }
}

/// The directories that exist and what is mounted where.
pub struct MountTable {
    dirs: Vec<String>,
    targets: Vec<String>,
    sources: Vec<String>,
}

impl MountTable {
    /// The directories and mounts.
    pub closed spec fn view(&self) -> MountView {
        MountView {
            dirs: self.dirs@.map_values(|d: String| d@),
            mounts: Seq::new(self.targets@.len(), |i: int| (self.targets@[i]@, self.sources@[i]@)),
        }
    }

    /// Each mount has its device and no path holds two mounts.
    pub closed spec fn wf(&self) -> bool {
        &&& self.targets@.len() == self.sources@.len()
        &&& names_distinct(self.view().mounts)
    }

    /// No directories and no mounts.
    pub fn new() -> (r: MountTable)
        ensures
            r.wf(),
            r.view().dirs == Seq::<Seq<char>>::empty(),
            r.view().mounts == Seq::<(Seq<char>, Seq<char>)>::empty(),
    {
        let r = MountTable { dirs: Vec::new(), targets: Vec::new(), sources: Vec::new() };
        assert(r.view().dirs =~= Seq::<Seq<char>>::empty());
        assert(r.view().mounts =~= Seq::<(Seq<char>, Seq<char>)>::empty());
        r
    }

    fn mounted_at(&self, path: &String) -> (r: Option<&String>)
        requires
            self.wf(),
        ensures
            match r {
                Some(d) => binding(self.view().mounts, path@) == Some(d@),
                None => binding(self.view().mounts, path@) is None,
            },
    {
        match find_string(&self.targets, path) {
            Some(i) => {
                proof {
                    let t = self.view().mounts;
                    assert(t[i as int].0 == path@);
                    let j = choose|j: int| 0 <= j < t.len() && t[j].0 == path@;
                    assert(j == i);
                }
                Some(&self.sources[i])
            },
            None => {
                assert(!exists|i: int|
                    0 <= i < self.view().mounts.len() && self.view().mounts[i].0 == path@);
                None
            },
        }
    }

    /// Makes sure the directory `path` exists and `device` is mounted there: an
    /// existing mount of `device` is success with nothing mounted, a mount of
    /// another device is a conflict.
    pub fn ensure_mounted(&mut self, device: &String, path: &String) -> (r: Result<MountOutcome, MountError>)
        requires
            old(self).wf(),
        ensures
            final(self).wf(),
            (final(self).view(), r) == mount_step(old(self).view(), device@, path@),
    {
        let ghost before = self.view();
        if !contains_string(&self.dirs, path) {
            self.dirs.push(path.clone());
            assert(self.view().dirs =~= before.dirs.push(path@));
        }
        assert(self.view().mounts == before.mounts);
        let decision = decide_mount(self.mounted_at(path), device);
        match decision {
            Ok(MountOutcome::Mounted) => {},
            other => return other,
        }
        let ghost mid = self.view();
        self.targets.push(path.clone());
        self.sources.push(device.clone());
        proof {
            assert(self.view().mounts =~= before.mounts.push((path@, device@)));
            assert(self.view().dirs == mid.dirs);
            assert(!exists|i: int| 0 <= i < before.mounts.len() && before.mounts[i].0 == path@);
        }
        Ok(MountOutcome::Mounted)
    }
}

} // verus!
