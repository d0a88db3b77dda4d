//! The subcommands' pipelines over the secret store, the volume, the mapper
//! table and the mount table.
use vstd::prelude::*;
use crate::compose::{ComposeError, bytes_of, compose_passphrase, passphrase_for};
use crate::mount::{MountError, MountTable, MountView, mount_step};
use crate::options::{Options, join_path, mapper_dir};
use crate::secret::{SecretStore, StoreView};
use crate::volume::{
    Bindings, MapperTable, Volume, VolumeError, VolumeView, accepts, add_key_step, open_step,
};

verus! {

/// How a workflow can fail, by the step that failed.
#[derive(Clone, Debug)]
pub enum WorkflowError {
    /// Composing the passphrase failed.
    Compose(ComposeError),
    /// The volume refused the operation.
    Volume(VolumeError),
    /// Mounting failed.
    Mount(MountError),
    /// A hardware handle is already configured and overwriting it was not
    /// confirmed.
    HandleAlreadySet,
}

/// Whether sealing a new hardware fragment may go ahead: not over a configured
/// handle unless the operator confirmed it.
pub fn check_set_tpm(existing: Option<u32>, overwrite_confirmed: bool) -> (r: Result<(), WorkflowError>)
    ensures
        r is Ok <==> (existing is None || overwrite_confirmed),
        r is Err ==> r == Err::<(), WorkflowError>(WorkflowError::HandleAlreadySet),
{
    if existing.is_some() && !overwrite_confirmed {
        Err(WorkflowError::HandleAlreadySet)
    } else {
        Ok(())
    }
}

/// What validation reports: whether the composed passphrase unlocks a slot.
pub open spec fn validate_result(
    o: Options,
    store: StoreView,
    v: VolumeView,
    key_file: Option<Seq<u8>>,
    typed: Option<Seq<u8>>,
) -> Result<bool, WorkflowError> {
    match passphrase_for(o, store, key_file, typed) {
        Ok(p) => Ok(accepts(v, p)),
        Err(e) => Err(WorkflowError::Compose(e)),
    }
}

/// Composes the passphrase and tells whether it unlocks a key slot of
/// `volume`; nothing is changed, and a passphrase that unlocks nothing is
/// `Ok(false)`, not an error.
pub fn validate_command(
    options: &Options,
    store: &SecretStore,
    volume: &Volume,
    key_file: Option<Vec<u8>>,
    typed: Option<Vec<u8>>,
) -> (r: Result<bool, WorkflowError>)
    requires
        store.wf(),
    ensures
        r == validate_result(*options, store.view(), volume.view(), bytes_of(key_file), bytes_of(typed)),
{
    match compose_passphrase(options, store, key_file, typed) {
        Ok(p) => Ok(volume.has_valid_key(p.as_slice())),
        Err(e) => Err(WorkflowError::Compose(e)),
    }
}

/// The volume and result after adding the composed passphrase to a key slot.
pub open spec fn set_luks_step(
    o: Options,
    store: StoreView,
    v: VolumeView,
    key_file: Option<Seq<u8>>,
    typed: Option<Seq<u8>>,
) -> (VolumeView, Result<(), WorkflowError>) {
    match passphrase_for(o, store, key_file, typed) {
        Ok(p) => match add_key_step(v, p) {
            (w, Ok(())) => (w, Ok(())),
            (w, Err(e)) => (w, Err(WorkflowError::Volume(e))),
        },
        Err(e) => (v, Err(WorkflowError::Compose(e))),
    }
}

/// Composes the passphrase and adds it to a key slot of `volume`.
pub fn set_luks_command(
    options: &Options,
    store: &SecretStore,
    volume: &mut Volume,
    key_file: Option<Vec<u8>>,
    typed: Option<Vec<u8>>,
) -> (r: Result<(), WorkflowError>)
    requires
        store.wf(),
        old(volume).wf(),
    ensures
        final(volume).wf(),
        (final(volume).view(), r) == set_luks_step(
            *options,
            store.view(),
            old(volume).view(),
            bytes_of(key_file),
            bytes_of(typed),
        ),
{
    let p = match compose_passphrase(options, store, key_file, typed) {
        Ok(p) => p,
        Err(e) => return Err(WorkflowError::Compose(e)),
    };
    match volume.add_key(p) {
        Ok(()) => Ok(()),
        Err(e) => Err(WorkflowError::Volume(e)),
    }
}

/// The mapper table, mounts and result after the mount workflow: compose,
/// open under the mapper name, then mount the mapper device.
pub open spec fn mount_workflow(
    o: Options,
    store: StoreView,
    v: VolumeView,
    t: Bindings,
    m: MountView,
    key_file: Option<Seq<u8>>,
    typed: Option<Seq<u8>>,
) -> (Bindings, MountView, Result<(), WorkflowError>) {
    match passphrase_for(o, store, key_file, typed) {
        Err(e) => (t, m, Err(WorkflowError::Compose(e))),
        Ok(p) => {
            let (t2, opened) = open_step(t, v, p, o.mapper_name@);
            match opened {
                Err(e) => (t2, m, Err(WorkflowError::Volume(e))),
                Ok(_) => {
                    let (m2, mounted) = mount_step(
                        m,
                        join_path(mapper_dir(), o.mapper_name@),
                        o.mount_path@,
                    );
                    match mounted {
                        Err(e) => (t2, m2, Err(WorkflowError::Mount(e))),
                        Ok(_) => (t2, m2, Ok(())),
                    }
                },
            }
        },
    }
}

/// Composes the passphrase, opens `volume` under the configured mapper name
/// and mounts the mapper device at the configured path; steps already done are
/// skipped.
pub fn mount_command(
    options: &Options,
    store: &SecretStore,
    volume: &Volume,
    mappers: &mut MapperTable,
    mounts: &mut MountTable,
    key_file: Option<Vec<u8>>,
    typed: Option<Vec<u8>>,
) -> (r: Result<(), WorkflowError>)
    requires
        store.wf(),
        old(mappers).wf(),
        old(mounts).wf(),
    ensures
        final(mappers).wf(),
        final(mounts).wf(),
        (final(mappers).view(), final(mounts).view(), r) == mount_workflow(
            *options,
            store.view(),
            volume.view(),
            old(mappers).view(),
            old(mounts).view(),
            bytes_of(key_file),
            bytes_of(typed),
        ),
{
    let p = match compose_passphrase(options, store, key_file, typed) {
        Ok(p) => p,
        Err(e) => return Err(WorkflowError::Compose(e)),
    };
    match mappers.open(volume, p.as_slice(), &options.mapper_name) {
        Ok(_) => {},
        Err(e) => return Err(WorkflowError::Volume(e)),
    }
    let device = options.get_mapper_path();
    match mounts.ensure_mounted(&device, &options.mount_path) {
        Ok(_) => Ok(()),
        Err(e) => Err(WorkflowError::Mount(e)),
    }
}

} // verus!
