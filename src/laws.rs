//! Properties that relate several operations, proved over their models.
use vstd::prelude::*;
use crate::compose::{ComposeError, passphrase_for, no_source, sources_of};
use crate::mount::{MountOutcome, MountView, mount_step, with_dir};
use crate::options::Options;
use crate::secret::{StoreView, seal_step, unseal_result};
use crate::workflow::mount_workflow;
use crate::volume::{
    Bindings, OpenOutcome, VolumeError, VolumeView, accepts, add_key_step, binding,
    names_distinct, open_step,
};

verus! {

/// Binding a name that was unbound makes it bound to the new partition and
/// keeps the names distinct.
proof fn lemma_bind_fresh(t: Bindings, name: Seq<char>, p: Seq<char>)
    requires
        names_distinct(t),
        binding(t, name) is None,
    ensures
        binding(t.push((name, p)), name) == Some(p),
        names_distinct(t.push((name, p))),
{
    let u = t.push((name, p));
    assert(u[t.len() as int].0 == name);
    let j = choose|j: int| 0 <= j < u.len() && u[j].0 == name;
    if j < t.len() {
        assert(t[j].0 == name);
    }
}

/// Composing twice from the same configuration, store contents, key file and
/// typed input gives the same passphrase, byte for byte, or the same error.
pub proof fn composition_is_deterministic(
    o: Options,
    store: StoreView,
    key_file: Option<Seq<u8>>,
    typed: Option<Seq<u8>>,
    first: Result<Seq<u8>, ComposeError>,
    second: Result<Seq<u8>, ComposeError>,
)
    requires
        first == passphrase_for(o, store, key_file, typed),
        second == passphrase_for(o, store, key_file, typed),
    ensures
        first == second,
{
}

/// A passphrase that was added to a volume then unlocks it.
pub proof fn add_key_then_valid(v: VolumeView, passphrase: Seq<u8>)
    requires
        add_key_step(v, passphrase).1 is Ok,
    ensures
        accepts(add_key_step(v, passphrase).0, passphrase),
{
    if !accepts(v, passphrase) {
        let slots = v.slots.push(passphrase);
        assert(slots[v.slots.len() as int] == passphrase);
    }
}

/// Opening a partition under a name that is already bound to it succeeds and
/// changes nothing; in particular, opening twice in a row does.
pub proof fn open_when_already_open(t: Bindings, v: VolumeView, passphrase: Seq<u8>, name: Seq<char>)
    requires
        names_distinct(t),
    ensures
        binding(t, name) == Some(v.path) ==> open_step(t, v, passphrase, name) == (
            t,
            Ok::<OpenOutcome, VolumeError>(OpenOutcome::AlreadyOpen),
        ),
        open_step(t, v, passphrase, name).1 is Ok ==> open_step(
            open_step(t, v, passphrase, name).0,
            v,
            passphrase,
            name,
        ) == (open_step(t, v, passphrase, name).0, Ok::<OpenOutcome, VolumeError>(
            OpenOutcome::AlreadyOpen,
        )),
{
    if binding(t, name) is None {
        lemma_bind_fresh(t, name, v.path);
    }
}

/// Opening under a name bound to another partition is a conflict and changes
/// nothing.
pub proof fn open_with_name_of_other_partition(
    t: Bindings,
    v: VolumeView,
    passphrase: Seq<u8>,
    name: Seq<char>,
    other: Seq<char>,
)
    requires
        binding(t, name) == Some(other),
        other != v.path,
    ensures
        open_step(t, v, passphrase, name) == (t, Err::<OpenOutcome, VolumeError>(
            VolumeError::MapperNameConflict,
        )),
{
}

/// Making sure of a mount twice in a row mounts at most once and succeeds
/// both times when the first succeeds; the second changes nothing.
pub proof fn ensure_mounted_twice(m: MountView, device: Seq<char>, path: Seq<char>)
    requires
        names_distinct(m.mounts),
        mount_step(m, device, path).1 is Ok,
    ensures
        ({
            let after = mount_step(m, device, path).0;
            &&& mount_step(after, device, path).0 == after
            &&& mount_step(after, device, path).1 == Ok::<MountOutcome, crate::mount::MountError>(
                MountOutcome::AlreadyMounted,
            )
            &&& after.mounts.len() <= m.mounts.len() + 1
        }),
{
    let dirs = with_dir(m.dirs, path);
    assert(dirs.contains(path)) by {
        if !m.dirs.contains(path) {
            assert(dirs[m.dirs.len() as int] == path);
        }
    }
    if binding(m.mounts, path) is None {
        lemma_bind_fresh(m.mounts, path, device);
    }
}

/// With no source of a fragment configured, composing fails with
/// `NoSecretSource` whatever the store holds: the store is not consulted.
pub proof fn no_source_touches_nothing(
    o: Options,
    store: StoreView,
    other_store: StoreView,
    key_file: Option<Seq<u8>>,
    typed: Option<Seq<u8>>,
)
    requires
        no_source(sources_of(o)),
    ensures
        passphrase_for(o, store, key_file, typed) == Err::<Seq<u8>, ComposeError>(
            ComposeError::NoSecretSource,
        ),
        passphrase_for(o, other_store, key_file, typed) == passphrase_for(
            o,
            store,
            key_file,
            typed,
        ),
{
}

/// A secret that was sealed at a handle is what unsealing that handle returns.
pub proof fn seal_then_unseal(s: StoreView, handle: u32, bytes: Seq<u8>)
    requires
        seal_step(s, handle, bytes).1 is Ok,
    ensures
        unseal_result(seal_step(s, handle, bytes).0, handle) == Ok::<Seq<u8>, crate::secret::HardwareError>(bytes),
{
}

/// A passphrase that unlocks no key slot is refused by `open` under a free
/// name as an invalid passphrase, the same verdict that validation gives.
pub proof fn rejected_key_fails_open(t: Bindings, v: VolumeView, passphrase: Seq<u8>, name: Seq<char>)
    requires
        !accepts(v, passphrase),
        binding(t, name) is None,
    ensures
        open_step(t, v, passphrase, name) == (t, Err::<OpenOutcome, VolumeError>(
            VolumeError::InvalidPassphrase,
        )),
{
}

/// Running the mount workflow again on the state that a successful run left
/// succeeds and changes nothing.
pub proof fn mount_workflow_rerun(
    o: Options,
    store: StoreView,
    v: VolumeView,
    t: Bindings,
    m: MountView,
    key_file: Option<Seq<u8>>,
    typed: Option<Seq<u8>>,
)
    requires
        names_distinct(t),
        names_distinct(m.mounts),
        mount_workflow(o, store, v, t, m, key_file, typed).2 is Ok,
    ensures
        ({
            let (t2, m2, _) = mount_workflow(o, store, v, t, m, key_file, typed);
            mount_workflow(o, store, v, t2, m2, key_file, typed) == (t2, m2, Ok::<
                (),
                crate::workflow::WorkflowError,
            >(()))
        }),
{
    let p = passphrase_for(o, store, key_file, typed)->Ok_0;
    open_when_already_open(t, v, p, o.mapper_name@);
    let device = crate::options::join_path(crate::options::mapper_dir(), o.mapper_name@);
    ensure_mounted_twice(m, device, o.mount_path@);
}

} // verus!
