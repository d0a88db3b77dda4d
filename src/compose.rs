//! Building the passphrase from its fragments, hardware first, then the key
//! file, then what the operator typed, with nothing between them.
use vstd::prelude::*;
use crate::options::Options;
use crate::secret::{HardwareError, SecretStore, StoreView, unseal_result};

verus! {

/// How composing the passphrase can fail.
#[derive(Clone, Copy, Debug, PartialEq, Eq, Structural)]
pub enum ComposeError {
    /// No source of a fragment is configured.
    NoSecretSource,
    /// The key file is configured but could not be read.
    KeyFileUnreadable,
    /// A typed fragment is required but none could be read.
    InteractiveReadFailed,
    /// The hardware fragment could not be unsealed.
    Hardware(HardwareError),
}

/// Which fragments the configuration asks for.
#[derive(Clone, Copy, Debug, PartialEq, Eq, Structural)]
pub struct SecretSources {
    pub hardware: Option<u32>,
    pub key_file: bool,
    pub interactive: bool,
}

/// The fragments that a configuration asks for.
pub open spec fn sources_of(o: Options) -> SecretSources {
    SecretSources {
        hardware: o.tpm_handle,
        key_file: o.key_path is Some,
        interactive: o.key_prompt == Some(true),
    }
}

/// Whether a set of sources names none.
pub open spec fn no_source(s: SecretSources) -> bool {
    s.hardware is None && !s.key_file && !s.interactive
}

/// The fragments to gather for a configuration, decided before any of them is
/// read: a configuration with no source fails here.
pub fn plan_fragments(options: &Options) -> (r: Result<SecretSources, ComposeError>)
    ensures
        no_source(sources_of(*options)) <==> r == Err::<SecretSources, ComposeError>(
            ComposeError::NoSecretSource,
        ),
        !no_source(sources_of(*options)) ==> r == Ok::<SecretSources, ComposeError>(
            sources_of(*options),
        ),
{
    let sources = SecretSources {
        hardware: options.tpm_handle,
        key_file: options.key_path.is_some(),
        interactive: options.key_prompt == Some(true),
    };
    if sources.hardware.is_none() && !sources.key_file && !sources.interactive {
        Err(ComposeError::NoSecretSource)
    } else {
        Ok(sources)
    }
}

/// The bytes a fragment adds: none when it is absent.
pub open spec fn fragment(f: Option<Seq<u8>>) -> Seq<u8> {
    match f {
        Some(b) => b,
        None => Seq::empty(),
    }
}

/// The passphrase from the fragments present, in their fixed order.
pub open spec fn composed(hardware: Option<Seq<u8>>, key_file: Option<Seq<u8>>, typed: Option<Seq<u8>>) -> Seq<u8> {
    fragment(hardware) + fragment(key_file) + fragment(typed)
}

/// The view of an optional buffer.
pub open spec fn bytes_of(f: Option<Vec<u8>>) -> Option<Seq<u8>> {
    match f {
        Some(b) => Some(b@),
        None => None,
    }
}

/// Concatenates the fragments present, hardware first, then key file, then
/// typed; with none present there is no passphrase.
pub fn compose(hardware: Option<Vec<u8>>, key_file: Option<Vec<u8>>, typed: Option<Vec<u8>>) -> (r: Result<Vec<u8>, ComposeError>)
    ensures
        (hardware is None && key_file is None && typed is None) <==> r == Err::<
            Vec<u8>,
            ComposeError,
        >(ComposeError::NoSecretSource),
        r is Ok ==> r->Ok_0@ == composed(bytes_of(hardware), bytes_of(key_file), bytes_of(typed)),
        r is Ok || r == Err::<Vec<u8>, ComposeError>(ComposeError::NoSecretSource),
{
    if hardware.is_none() && key_file.is_none() && typed.is_none() {
        return Err(ComposeError::NoSecretSource);
    }
    let mut passphrase: Vec<u8> = Vec::new();
    if let Some(mut b) = hardware {
        passphrase.append(&mut b);
    }
    if let Some(mut b) = key_file {
        passphrase.append(&mut b);
    }
    if let Some(mut b) = typed {
        passphrase.append(&mut b);
    }
    assert(passphrase@ =~= composed(bytes_of(hardware), bytes_of(key_file), bytes_of(typed)));
    Ok(passphrase)
}

/// The passphrase for a configuration, given the store that holds the hardware
/// fragment, the key file's contents as read (`None` when it could not be
/// read) and what the operator typed (`None` when nothing could be read).
pub open spec fn passphrase_for(
    o: Options,
    store: StoreView,
    key_file: Option<Seq<u8>>,
    typed: Option<Seq<u8>>,
) -> Result<Seq<u8>, ComposeError> {
    let s = sources_of(o);
    if no_source(s) {
        Err(ComposeError::NoSecretSource)
    } else {
        let hw: Result<Option<Seq<u8>>, ComposeError> = match s.hardware {
            Some(h) => match unseal_result(store, h) {
                Ok(b) => Ok(Some(b)),
                Err(e) => Err(ComposeError::Hardware(e)),
            },
            None => Ok(None),
        };
        match hw {
            Err(e) => Err(e),
            Ok(hw) => if s.key_file && key_file is None {
                Err(ComposeError::KeyFileUnreadable)
            } else if s.interactive && typed is None {
                Err(ComposeError::InteractiveReadFailed)
            } else {
                Ok(
                    composed(
                        hw,
                        if s.key_file { key_file } else { None },
                        if s.interactive { typed } else { None },
                    ),
                )
            },
        }
    }
}

/// Gathers the fragments that the configuration asks for, unsealing the
/// hardware one from `store`, and composes them. Fragments that are supplied
/// but not configured are ignored.
pub fn compose_passphrase(
    options: &Options,
    store: &SecretStore,
    key_file: Option<Vec<u8>>,
    typed: Option<Vec<u8>>,
) -> (r: Result<Vec<u8>, ComposeError>)
    requires
        store.wf(),
    ensures
        match (r, passphrase_for(*options, store.view(), bytes_of(key_file), bytes_of(typed))) {
            (Ok(p), Ok(q)) => p@ == q,
            (Err(e), Err(f)) => e == f,
            _ => false,
        },
{
    let sources = match plan_fragments(options) {
        Ok(s) => s,
        Err(e) => return Err(e),
    };
    let hardware = match sources.hardware {
        Some(h) => match store.unseal(h) {
            Ok(b) => Some(b),
            Err(e) => return Err(ComposeError::Hardware(e)),
        },
        None => None,
    };
    if sources.key_file && key_file.is_none() {
        return Err(ComposeError::KeyFileUnreadable);
    }
    if sources.interactive && typed.is_none() {
        return Err(ComposeError::InteractiveReadFailed);
    }
    let key_file = if sources.key_file { key_file } else { None };
    let typed = if sources.interactive { typed } else { None };
    compose(hardware, key_file, typed)
}

} // verus!
