//! Tests of the device scanner and the driver-presence check.

use zloopctl::error::ZloopError;
use zloopctl::scan::DirEntryInfo;
use zloopctl::scan::EntryVerdict;
use zloopctl::scan::FileKind;

fn entry(path: &str, kind: FileKind) -> DirEntryInfo {
    DirEntryInfo { path: String::from(path), kind }
}

#[test]
fn basename_strips_the_device_directory() {
    assert_eq!(zloopctl::basename("/dev/zloop0"), "zloop0");
    assert_eq!(zloopctl::basename("/dev/zloop-control"), "zloop-control");
}

#[test]
fn classify_rejects_foreign_names() {
    assert_eq!(
        zloopctl::classify_entry("nvme0n1", FileKind::BlockDevice),
        EntryVerdict::NotZloopName
    );
    assert_eq!(zloopctl::classify_entry("zlo", FileKind::BlockDevice), EntryVerdict::NotZloopName);
}

#[test]
fn classify_excludes_the_control_file() {
    assert_eq!(
        zloopctl::classify_entry("zloop-control", FileKind::CharDevice),
        EntryVerdict::ControlFile
    );
    assert_eq!(
        zloopctl::classify_entry("zloop-control", FileKind::BlockDevice),
        EntryVerdict::ControlFile
    );
}

#[test]
fn classify_rejects_non_block_entries() {
    assert_eq!(
        zloopctl::classify_entry("zloop1", FileKind::RegularFile),
        EntryVerdict::NotBlockDevice
    );
    assert_eq!(
        zloopctl::classify_entry("zloop1", FileKind::CharDevice),
        EntryVerdict::NotBlockDevice
    );
}

#[test]
fn classify_accepts_devices() {
    assert_eq!(zloopctl::classify_entry("zloop0", FileKind::BlockDevice), EntryVerdict::Device);
    assert_eq!(zloopctl::classify_entry("zloop12", FileKind::BlockDevice), EntryVerdict::Device);
}

#[test]
fn entry_is_zloop_matches_the_verdict() {
    assert!(zloopctl::entry_is_zloop(&entry("/dev/zloop0", FileKind::BlockDevice)));
    assert!(!zloopctl::entry_is_zloop(&entry("/dev/zloop0", FileKind::RegularFile)));
    assert!(!zloopctl::entry_is_zloop(&entry("/dev/zloop-control", FileKind::CharDevice)));
    assert!(!zloopctl::entry_is_zloop(&entry("/dev/other", FileKind::BlockDevice)));
}

#[test]
fn scanner_yields_exactly_the_devices() {
    let entries = vec![
        entry("/dev/zloop-control", FileKind::CharDevice),
        entry("/dev/zloop0", FileKind::BlockDevice),
        entry("/dev/zloop1", FileKind::RegularFile),
        entry("/dev/other", FileKind::BlockDevice),
    ];
    let devs = zloopctl::collect_devs(&entries);
    assert_eq!(devs, vec![String::from("zloop0")]);
}

#[test]
fn scanner_keeps_the_listing_order() {
    let entries = vec![
        entry("/dev/zloop2", FileKind::BlockDevice),
        entry("/dev/zloop0", FileKind::BlockDevice),
        entry("/dev/zloop1", FileKind::BlockDevice),
    ];
    let devs = zloopctl::collect_devs(&entries);
    assert_eq!(devs, vec![String::from("zloop2"), String::from("zloop0"), String::from("zloop1")]);
}

#[test]
fn scanner_of_empty_directory_is_empty() {
    let entries: Vec<DirEntryInfo> = Vec::new();
    let devs = zloopctl::collect_devs(&entries);
    assert!(devs.is_empty());
}

#[test]
fn scanner_is_deterministic_on_unchanged_contents() {
    let entries = vec![
        entry("/dev/zloop-control", FileKind::CharDevice),
        entry("/dev/zloop3", FileKind::BlockDevice),
        entry("/dev/zloop7", FileKind::BlockDevice),
    ];
    let first = zloopctl::collect_devs(&entries);
    let second = zloopctl::collect_devs(&entries);
    assert_eq!(first, second);
}

#[test]
fn driver_check_fails_when_control_path_is_absent() {
    match zloopctl::check_zloop_driver(None) {
        Err(ZloopError::DriverNotPresent) => {},
        _ => panic!("expected DriverNotPresent"),
    }
}

#[test]
fn driver_check_fails_on_wrong_file_type() {
    match zloopctl::check_zloop_driver(Some(FileKind::RegularFile)) {
        Err(ZloopError::DriverWrongType) => {},
        _ => panic!("expected DriverWrongType"),
    }
    match zloopctl::check_zloop_driver(Some(FileKind::BlockDevice)) {
        Err(ZloopError::DriverWrongType) => {},
        _ => panic!("expected DriverWrongType"),
    }
}

#[test]
fn driver_check_passes_on_a_character_device() {
    match zloopctl::check_zloop_driver(Some(FileKind::CharDevice)) {
        Ok(present) => assert!(present),
        Err(_) => panic!("expected success"),
    }
}

#[test]
fn driver_error_messages() {
    assert_eq!(ZloopError::DriverNotPresent.message(), "zloop driver not found");
    assert_eq!(
        ZloopError::DriverWrongType.message(),
        "/dev/zloop-control is not a character device"
    );
}

#[test]
fn control_path_is_fixed() {
    assert_eq!(zloopctl::control_path(), "/dev/zloop-control");
}
