//! The device scanner: filters the entries of the device directory down to
//! the zoned-loop block devices, excluding the control file and every
//! non-block entry, in the order the directory listing yields them.

use vstd::prelude::*;
use vstd::string::StrSliceExecFns;

use crate::error::ZloopError;
use crate::strutil::str_equal;
use crate::strutil::str_starts_with;

verus! {

/// What kind of filesystem object a directory entry is. Only the kinds the
/// scanner and the driver check distinguish are separated; everything else
/// is `Other`.
#[derive(PartialEq, Eq, Structural, Debug, Clone, Copy)]
pub enum FileKind {
    BlockDevice,
    CharDevice,
    RegularFile,
    Directory,
    Other,
}

/// One entry of the device directory, as plain values: its full path and
/// the kind of object it is.
#[derive(Debug)]
pub struct DirEntryInfo {
    pub path: String,
    pub kind: FileKind,
}

/// The directory the devices appear under.
pub open spec fn dev_prefix() -> Seq<char> {
    "/dev/"@
}

/// Holds when `path` lies directly under the device directory.
pub open spec fn dev_prefixed(path: Seq<char>) -> bool {
    path.len() >= 5 && path.subrange(0, 5) == dev_prefix()
}

/// The base name of a path under the device directory.
pub open spec fn basename_spec(path: Seq<char>) -> Seq<char>
    recommends
        dev_prefixed(path),
{
    path.subrange(5, path.len() as int)
}

/// The naming prefix of the devices.
pub open spec fn zloop_prefix() -> Seq<char> {
    "zloop"@
}

/// The name of the control file, which is never a device.
pub open spec fn control_name() -> Seq<char> {
    "zloop-control"@
}

/// Why an entry is, or is not, a device.
#[derive(PartialEq, Eq, Structural, Debug, Clone, Copy)]
pub enum EntryVerdict {
    /// A zoned-loop block device.
    Device,
    /// The name does not start with the device prefix.
    NotZloopName,
    /// The entry is the control file itself.
    ControlFile,
    /// The name fits but the entry is not a block device.
    NotBlockDevice,
}

/// The scanner's decision on one entry, by name and kind: first the name
/// prefix, then the control-file exclusion, then the object kind.
pub open spec fn verdict_spec(name: Seq<char>, kind: FileKind) -> EntryVerdict {
    if !(name.len() >= 5 && name.subrange(0, 5) == zloop_prefix()) {
        EntryVerdict::NotZloopName
    } else if name == control_name() {
        EntryVerdict::ControlFile
    } else if kind != FileKind::BlockDevice {
        EntryVerdict::NotBlockDevice
    } else {
        EntryVerdict::Device
    }
}

/// Holds exactly of the entries the scanner yields.
pub open spec fn is_zloop_device(name: Seq<char>, kind: FileKind) -> bool {
    verdict_spec(name, kind) == EntryVerdict::Device
}

/// The device names among `entries`, in order.
pub open spec fn devices_of(entries: Seq<DirEntryInfo>) -> Seq<Seq<char>>
    decreases entries.len(),
{
    if entries.len() == 0 {
        Seq::empty()
    } else {
        let rest = devices_of(entries.drop_last());
        let e = entries.last();
        if is_zloop_device(basename_spec(e.path@), e.kind) {
            rest.push(basename_spec(e.path@))
        } else {
            rest
        }
    }
}

/// The character sequences of a list of strings.
pub open spec fn views_of(names: Seq<String>) -> Seq<Seq<char>> {
    names.map_values(|s: String| s@)
}

/// The base name of a path under the device directory.
pub fn basename(path: &str) -> (r: String)
    requires
        dev_prefixed(path@),
    ensures
        r@ == basename_spec(path@),
{
    let n = path.unicode_len();
    let tail = path.substring_char(5, n);
    tail.to_owned()
}

/// Decides what one entry of the device directory is, by its base name and
/// its kind.
pub fn classify_entry(name: &str, kind: FileKind) -> (v: EntryVerdict)
    ensures
        v == verdict_spec(name@, kind),
{
    proof {
        reveal_strlit("zloop");
    }
    if !str_starts_with(name, "zloop") {
        EntryVerdict::NotZloopName
    } else if str_equal(name, "zloop-control") {
        EntryVerdict::ControlFile
    } else if kind != FileKind::BlockDevice {
        EntryVerdict::NotBlockDevice
    } else {
        EntryVerdict::Device
    }
}

/// Whether one entry of the device directory is a zoned-loop block device.
pub fn entry_is_zloop(entry: &DirEntryInfo) -> (r: bool)
    requires
        dev_prefixed(entry.path@),
    ensures
        r == is_zloop_device(basename_spec(entry.path@), entry.kind),
{
    let name = basename(entry.path.as_str());
    let v = classify_entry(name.as_str(), entry.kind);
    v == EntryVerdict::Device
}

/// Filters the entries of the device directory down to the device names,
/// in the order the listing yields them.
pub fn collect_devs(entries: &Vec<DirEntryInfo>) -> (devs: Vec<String>)
    requires
        forall|i: int| 0 <= i < entries@.len() ==> dev_prefixed(entries@[i].path@),
    ensures
        views_of(devs@) == devices_of(entries@),
{
    let mut devs: Vec<String> = Vec::new();
    let n = entries.len();
    let mut i: usize = 0;
    proof {
        assert(views_of(devs@) =~= devices_of(entries@.take(0)));
    }
    while i < n
        invariant
            n == entries@.len(),
            i <= n,
            forall|k: int| 0 <= k < entries@.len() ==> dev_prefixed(entries@[k].path@),
            views_of(devs@) == devices_of(entries@.take(i as int)),
        decreases n - i,
    {
        let e = &entries[i];
        if entry_is_zloop(e) {
            let name = basename(e.path.as_str());
            devs.push(name);
        }
        proof {
            assert(entries@.take(i as int + 1).drop_last() =~= entries@.take(i as int));
            assert(entries@.take(i as int + 1).last() == entries@[i as int]);
            assert(views_of(devs@) =~= devices_of(entries@.take(i as int + 1)));
        }
        i += 1;
    }
    proof {
        assert(entries@.take(n as int) =~= entries@);
    }
    devs
}

/// Decides the driver-presence check from what a probe of the control path
/// found: nothing, or an object of some kind. The driver is present only
/// when the control path is a character-special file; a missing path means
/// the driver is not loaded, any other kind means a collision or an API
/// change.
pub fn check_zloop_driver(control_kind: Option<FileKind>) -> (r: Result<bool, ZloopError>)
    ensures
        r is Ok <==> control_kind == Some(FileKind::CharDevice),
        r matches Ok(b) ==> b,
        control_kind is None ==> r matches Err(ZloopError::DriverNotPresent),
        (control_kind matches Some(k) && k != FileKind::CharDevice) ==> r matches Err(
            ZloopError::DriverWrongType,
        ),
{
    match control_kind {
        None => Err(ZloopError::DriverNotPresent),
        Some(FileKind::CharDevice) => Ok(true),
        Some(_) => Err(ZloopError::DriverWrongType),
    }
}

/// The path of the control file.
pub open spec fn control_path_spec() -> Seq<char> {
    "/dev/zloop-control"@
}

/// The path of the control file, for the callers that probe and write it.
pub fn control_path() -> (p: &'static str)
    ensures
        p@ == control_path_spec(),
{
    "/dev/zloop-control"
}

} // verus!
