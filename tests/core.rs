use mount_luks::compose::{compose, compose_passphrase, plan_fragments, ComposeError};
use mount_luks::mount::{decide_mount, MountError, MountOutcome, MountTable};
use mount_luks::options::Options;
use mount_luks::secret::{HardwareError, SecretStore};
use mount_luks::volume::{decide_open, MapperTable, OpenOutcome, Volume, VolumeError};
use mount_luks::workflow::{
    check_set_tpm, mount_command, set_luks_command, validate_command, WorkflowError,
};

fn config(key_path: Option<&str>, tpm_handle: Option<u32>, key_prompt: Option<bool>) -> Options {
    Options {
        partition_path: "/dev/sda2".to_string(),
        mapper_name: "e".to_string(),
        mount_path: "/mnt/e".to_string(),
        key_path: key_path.map(|p| p.to_string()),
        tpm_handle,
        key_prompt,
        no_header: None,
    }
}

#[test]
fn key_file_fragment_alone() {
    let store = SecretStore::new(4, true);
    let o = config(Some("/media/usb/e.key"), None, None);
    let p = compose_passphrase(&o, &store, Some(b"abc".to_vec()), None);
    assert_eq!(p, Ok(b"abc".to_vec()));
}

#[test]
fn hardware_fragment_comes_first() {
    let mut store = SecretStore::new(4, true);
    assert_eq!(store.seal(0x8100_0000, b"AB".to_vec()), Ok(0x8100_0000));
    let o = config(Some("/media/usb/e.key"), Some(0x8100_0000), None);
    let p = compose_passphrase(&o, &store, Some(b"cd".to_vec()), None);
    assert_eq!(p, Ok(b"ABcd".to_vec()));
}

#[test]
fn all_three_fragments_in_order() {
    assert_eq!(
        compose(Some(b"h".to_vec()), Some(b"f".to_vec()), Some(b"t".to_vec())),
        Ok(b"hft".to_vec())
    );
    assert_eq!(compose(None, None, Some(b"typed".to_vec())), Ok(b"typed".to_vec()));
}

#[test]
fn composing_twice_gives_same_bytes() {
    let mut store = SecretStore::new(4, true);
    store.seal(7, b"hw".to_vec()).unwrap();
    let o = config(Some("/k"), Some(7), Some(true));
    let a = compose_passphrase(&o, &store, Some(b"file".to_vec()), Some(b"typed".to_vec()));
    let b = compose_passphrase(&o, &store, Some(b"file".to_vec()), Some(b"typed".to_vec()));
    assert_eq!(a, b);
    assert_eq!(a, Ok(b"hwfiletyped".to_vec()));
}

#[test]
fn no_source_is_an_error() {
    let store = SecretStore::new(4, false);
    let o = config(None, None, Some(false));
    assert_eq!(plan_fragments(&o), Err(ComposeError::NoSecretSource));
    assert_eq!(
        compose_passphrase(&o, &store, Some(b"ignored".to_vec()), None),
        Err(ComposeError::NoSecretSource)
    );
    assert_eq!(compose(None, None, None), Err(ComposeError::NoSecretSource));
}

#[test]
fn missing_fragments_are_reported_by_source() {
    let store = SecretStore::new(4, true);
    assert_eq!(
        compose_passphrase(&config(Some("/k"), None, None), &store, None, None),
        Err(ComposeError::KeyFileUnreadable)
    );
    assert_eq!(
        compose_passphrase(&config(None, None, Some(true)), &store, None, None),
        Err(ComposeError::InteractiveReadFailed)
    );
    assert_eq!(
        compose_passphrase(&config(None, Some(9), None), &store, None, None),
        Err(ComposeError::Hardware(HardwareError::HandleNotFound))
    );
    let unreachable = SecretStore::new(4, false);
    assert_eq!(
        compose_passphrase(&config(None, Some(9), None), &unreachable, None, None),
        Err(ComposeError::Hardware(HardwareError::HardwareUnavailable))
    );
}

#[test]
fn seal_and_unseal() {
    let mut store = SecretStore::new(1, true);
    assert_eq!(store.unseal(1), Err(HardwareError::HandleNotFound));
    assert_eq!(store.seal(1, b"one".to_vec()), Ok(1));
    assert_eq!(store.unseal(1), Ok(b"one".to_vec()));
    assert_eq!(store.seal(2, b"two".to_vec()), Err(HardwareError::HardwareCapacityExceeded));
    assert_eq!(store.seal(1, b"uno".to_vec()), Ok(1));
    assert_eq!(store.unseal(1), Ok(b"uno".to_vec()));
    let mut off = SecretStore::new(1, false);
    assert_eq!(off.seal(1, b"x".to_vec()), Err(HardwareError::HardwareUnavailable));
    assert_eq!(off.unseal(1), Err(HardwareError::HardwareUnavailable));
}

#[test]
fn add_key_then_key_is_valid() {
    let mut v = Volume::new("/dev/sda2".to_string(), 2);
    assert!(!v.has_valid_key(b"pass"));
    assert_eq!(v.add_key(b"pass".to_vec()), Ok(()));
    assert!(v.has_valid_key(b"pass"));
    assert!(!v.has_valid_key(b"pas"));
}

#[test]
fn duplicate_add_takes_no_slot_and_full_volume_refuses() {
    let mut v = Volume::new("/dev/sda2".to_string(), 1);
    assert_eq!(v.add_key(b"a".to_vec()), Ok(()));
    assert_eq!(v.add_key(b"a".to_vec()), Ok(()));
    assert_eq!(v.add_key(b"b".to_vec()), Err(VolumeError::KeySlotsExhausted));
    assert!(!v.has_valid_key(b"b"));
}

#[test]
fn open_twice_is_already_open() {
    let mut v = Volume::new("/dev/sda2".to_string(), 2);
    v.add_key(b"pass".to_vec()).unwrap();
    let mut t = MapperTable::new();
    let name = "e".to_string();
    assert!(!t.is_open(&name));
    assert_eq!(t.open(&v, b"pass", &name), Ok(OpenOutcome::Opened));
    assert!(t.is_open(&name));
    assert_eq!(t.open(&v, b"pass", &name), Ok(OpenOutcome::AlreadyOpen));
}

#[test]
fn open_with_name_of_other_partition_conflicts() {
    let mut a = Volume::new("/dev/sda1".to_string(), 1);
    let mut b = Volume::new("/dev/sda2".to_string(), 1);
    a.add_key(b"p".to_vec()).unwrap();
    b.add_key(b"p".to_vec()).unwrap();
    let mut t = MapperTable::new();
    let name = "e".to_string();
    t.open(&a, b"p", &name).unwrap();
    assert_eq!(t.open(&b, b"p", &name), Err(VolumeError::MapperNameConflict));
    assert_eq!(t.open(&a, b"p", &name), Ok(OpenOutcome::AlreadyOpen));
    assert_eq!(decide_open(Some(&"/dev/sda1".to_string()), &"/dev/sda2".to_string()), Err(VolumeError::MapperNameConflict));
    assert_eq!(decide_open(None, &"/dev/sda2".to_string()), Ok(OpenOutcome::Opened));
}

#[test]
fn wrong_passphrase_is_refused_and_validate_is_false() {
    let mut v = Volume::new("/dev/sda2".to_string(), 1);
    v.add_key(b"right".to_vec()).unwrap();
    let store = SecretStore::new(1, true);
    let o = config(Some("/k"), None, None);
    let r = validate_command(&o, &store, &v, Some(b"wrong".to_vec()), None);
    assert!(matches!(r, Ok(false)));
    let r = validate_command(&o, &store, &v, Some(b"right".to_vec()), None);
    assert!(matches!(r, Ok(true)));
    let mut t = MapperTable::new();
    assert_eq!(t.open(&v, b"wrong", &"e".to_string()), Err(VolumeError::InvalidPassphrase));
    assert!(!t.is_open(&"e".to_string()));
}

#[test]
fn ensure_mounted_twice_mounts_once() {
    let mut m = MountTable::new();
    let dev = "/dev/mapper/e".to_string();
    let path = "/mnt/e".to_string();
    assert!(matches!(m.ensure_mounted(&dev, &path), Ok(MountOutcome::Mounted)));
    assert!(matches!(m.ensure_mounted(&dev, &path), Ok(MountOutcome::AlreadyMounted)));
    let other = "/dev/mapper/f".to_string();
    assert!(matches!(m.ensure_mounted(&other, &path), Err(MountError::MountPathConflict)));
    assert!(matches!(decide_mount(None, &dev), Ok(MountOutcome::Mounted)));
    assert!(matches!(decide_mount(Some(&other), &dev), Err(MountError::MountPathConflict)));
}

#[test]
fn set_tpm_guards_existing_handle() {
    assert!(check_set_tpm(None, false).is_ok());
    assert!(check_set_tpm(Some(1), true).is_ok());
    assert!(matches!(check_set_tpm(Some(1), false), Err(WorkflowError::HandleAlreadySet)));
}

#[test]
fn set_luks_then_mount_twice() {
    let mut store = SecretStore::new(2, true);
    store.seal(0x8100_0000, b"AB".to_vec()).unwrap();
    let o = config(Some("/k"), Some(0x8100_0000), None);
    let mut v = Volume::new("/dev/sda2".to_string(), 2);
    assert!(set_luks_command(&o, &store, &mut v, Some(b"cd".to_vec()), None).is_ok());
    assert!(v.has_valid_key(b"ABcd"));
    let mut t = MapperTable::new();
    let mut m = MountTable::new();
    assert!(mount_command(&o, &store, &v, &mut t, &mut m, Some(b"cd".to_vec()), None).is_ok());
    assert!(t.is_open(&"e".to_string()));
    assert!(mount_command(&o, &store, &v, &mut t, &mut m, Some(b"cd".to_vec()), None).is_ok());
    let r = mount_command(&o, &store, &v, &mut MapperTable::new(), &mut MountTable::new(), Some(b"xx".to_vec()), None);
    assert!(matches!(r, Err(WorkflowError::Volume(VolumeError::InvalidPassphrase))));
}
