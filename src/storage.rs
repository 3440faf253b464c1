//! Storage probe: block devices, their kind, capacity and connector.

use vstd::prelude::*;
use crate::components::{ComponentBus, ComponentDescription, ComponentInfo};
use crate::path::{components, file_name, parent_name, path_components, path_file_name, path_parent_name};
use crate::text::{chars_of, eq_chars, opt_view};
use crate::record::{field, string_from_variant, string_of_value, u64_from_variant, Record, RecordValue};
use crate::units::{capacity_kib, sectors_to_kib};

verus! {

/// A "kind" describing a storage device.
#[derive(Clone, Copy, Debug, PartialEq, Eq, Structural)]
pub enum StorageKind {
    /// Solid-state: no moving parts.
    Ssd,
    /// A hard drive with a rotational medium.
    Hdd,
}

/// A storage device's capacity and usage, in KiB.
#[derive(Clone, Copy, Debug, PartialEq, Eq, Structural)]
pub struct StorageUsage {
    /// The amount of storage used, in KiB.
    pub usage: Option<u64>,
    /// The total capacity, in KiB.
    pub total_capacity: Option<u64>,
}

/// A storage device's connector.
#[derive(Clone, Debug, PartialEq)]
pub enum StorageConnector {
    Ide,
    Sata,
    /// M.2 (NGFF).
    M2,
    Pcie,
    Scsi,
    Other(String),
}

/// A description of a storage device.
#[derive(Clone, Debug, PartialEq)]
pub struct StorageDescription {
    /// The kind of storage device this is.
    pub kind: Option<StorageKind>,
    /// The device's usage and capacity.
    pub usage: StorageUsage,
    /// The rotation speed, if any, in RPM.
    pub speed: Option<u32>,
    /// The connector used by the drive.
    pub connector: Option<StorageConnector>,
    /// Whether the drive is known to be removable.
    pub is_removable: Option<bool>,
}

/// The kind a rotational flag gives: `1` is a hard drive, `0` solid-state,
/// anything else unknown.
pub open spec fn kind_of(rotational: Option<u8>) -> Option<StorageKind> {
    match rotational {
        Some(1) => Some(StorageKind::Hdd),
        Some(0) => Some(StorageKind::Ssd),
        _ => None,
    }
}

/// Classifies a device by its `queue/rotational` flag.
pub fn kind(rotational: Option<u8>) -> (r: Option<StorageKind>)
    ensures
        r == kind_of(rotational),
{
    match rotational {
        Some(1) => Some(StorageKind::Hdd),
        Some(0) => Some(StorageKind::Ssd),
        _ => None,
    }
}

/// Reads a device's `removable` flag: `1` is removable, `0` is not,
/// anything else unknown.
pub fn removable(flag: Option<u8>) -> (r: Option<bool>)
    ensures
        r == match flag {
            Some(1) => Some(true),
            Some(0) => Some(false),
            _ => None::<bool>,
        },
{
    match flag {
        Some(1) => Some(true),
        Some(0) => Some(false),
        _ => None,
    }
}

/// The capacity in KiB from a sector count and a physical sector width:
/// `(width * count) / 1024`, where both are known and the result fits.
pub fn capacity(sector_count: Option<u64>, sector_width: Option<u64>) -> (r: Option<u64>)
    ensures
        match (sector_count, sector_width) {
            (Some(c), Some(w)) => if capacity_kib(c as int, w as int) <= u64::MAX {
                r == Some(capacity_kib(c as int, w as int) as u64)
            } else {
                r is None
            },
            _ => r is None,
        },
{
    match (sector_count, sector_width) {
        (Some(c), Some(w)) => sectors_to_kib(c, w),
        _ => None,
    }
}

/// A connector that a `class/<name>` pair in a device path stands for.
pub enum KnownConnector {
    Sata,
    Scsi,
}

/// The connector a subsystem name stands for, if known.
pub open spec fn connector_name(name: Seq<char>) -> Option<KnownConnector> {
    if name == seq!['a', 't', 'a', '_', 'p', 'o', 'r', 't'] {
        Some(KnownConnector::Sata)
    } else if name == seq!['s', 'c', 's', 'i', '_', 'd', 'i', 's', 'k'] {
        Some(KnownConnector::Scsi)
    } else {
        None
    }
}

/// Walks path components and gives the connector of the first `class`
/// component directly followed by a known subsystem name.
pub open spec fn connector_in(comps: Seq<Seq<char>>) -> Option<KnownConnector>
    decreases comps.len(),
{
    if comps.len() < 2 {
        None
    } else if comps[0] == seq!['c', 'l', 'a', 's', 's'] && connector_name(comps[1]) is Some {
        connector_name(comps[1])
    } else {
        connector_in(comps.drop_first())
    }
}

/// The connector a (canonical) device path shows.
pub open spec fn connector_of(path: Seq<char>) -> Option<StorageConnector> {
    match connector_in(components(path)) {
        Some(KnownConnector::Sata) => Some(StorageConnector::Sata),
        Some(KnownConnector::Scsi) => Some(StorageConnector::Scsi),
        None => None,
    }
}

/// Finds the connector of the device at the canonical path `path`: the
/// first `class/<subsystem>` pair of components whose subsystem is known,
/// `ata_port` meaning SATA and `scsi_disk` SCSI.
pub fn connector(path: &str) -> (r: Option<StorageConnector>)
    ensures
        r == connector_of(path@),
{
    let comps = path_components(path);
    let ghost cv = components(path@);
    let class_name: Vec<char> = vec!['c', 'l', 'a', 's', 's'];
    let ata: Vec<char> = vec!['a', 't', 'a', '_', 'p', 'o', 'r', 't'];
    let scsi: Vec<char> = vec!['s', 'c', 's', 'i', '_', 'd', 'i', 's', 'k'];
    assert(class_name@ =~= seq!['c', 'l', 'a', 's', 's']);
    assert(ata@ =~= seq!['a', 't', 'a', '_', 'p', 'o', 'r', 't']);
    assert(scsi@ =~= seq!['s', 'c', 's', 'i', '_', 'd', 'i', 's', 'k']);
    let n = comps.len();
    let mut k: usize = 0;
    assert(cv.subrange(0, n as int) =~= cv);
    while n - k >= 2
        invariant
            n == comps@.len() == cv.len(),
            cv == components(path@),
            k <= n,
            forall|i: int| 0 <= i < n ==> (#[trigger] comps@[i])@ == cv[i],
            connector_in(cv) == connector_in(cv.subrange(k as int, n as int)),
            class_name@ == seq!['c', 'l', 'a', 's', 's'],
            ata@ == seq!['a', 't', 'a', '_', 'p', 'o', 'r', 't'],
            scsi@ == seq!['s', 'c', 's', 'i', '_', 'd', 'i', 's', 'k'],
        decreases n - k,
    {
        let ghost rest = cv.subrange(k as int, n as int);
        assert(rest[0] == cv[k as int]);
        assert(rest[1] == cv[k + 1]);
        assert(comps@[k as int]@ == cv[k as int]);
        assert(comps@[k + 1]@ == cv[k + 1]);
        if eq_chars(&comps[k], &class_name) {
            if eq_chars(&comps[k + 1], &ata) {
                assert(connector_name(rest[1]) == Some(KnownConnector::Sata));
                assert(connector_in(rest) == Some(KnownConnector::Sata));
                return Some(StorageConnector::Sata);
            }
            if eq_chars(&comps[k + 1], &scsi) {
                assert(connector_name(rest[1]) == Some(KnownConnector::Scsi));
                assert(connector_in(rest) == Some(KnownConnector::Scsi));
                return Some(StorageConnector::Scsi);
            }
        }
        assert(rest.drop_first() =~= cv.subrange(k + 1, n as int));
        k += 1;
    }
    None
}

/// A block device entry: its path under the block class directory, and
/// its canonical path where that could be resolved.
pub struct BlockEntry {
    pub path: String,
    pub canonical: Option<String>,
}

/// The directory names that block entries carry.
pub open spec fn entry_names(entries: Seq<BlockEntry>) -> Seq<Seq<char>>
    decreases entries.len(),
{
    if entries.len() == 0 {
        seq![]
    } else {
        let rest = entry_names(entries.drop_last());
        match file_name(entries.last().path@) {
            Some(n) => rest.push(n),
            None => rest,
        }
    }
}

/// An entry is a partition of another device where the directory holding
/// its canonical path is named like some block entry (or where that
/// directory is unknown).
pub open spec fn is_partition(canonical: Seq<char>, names: Seq<Seq<char>>) -> bool {
    exists|i: int| 0 <= i < names.len() && #[trigger] parent_matches(parent_name(canonical), names[i])
}

/// A parent directory name matches `name`; an unknown one matches all.
pub open spec fn parent_matches(parent: Option<Seq<char>>, name: Seq<char>) -> bool {
    match parent {
        Some(p) => p == name,
        None => true,
    }
}

/// The whole devices among `entries`: those with a canonical path that is
/// no partition.
pub open spec fn whole_devices(entries: Seq<BlockEntry>, names: Seq<Seq<char>>) -> Seq<
    Seq<char>,
>
    decreases entries.len(),
{
    if entries.len() == 0 {
        seq![]
    } else {
        let rest = whole_devices(entries.drop_last(), names);
        match entries.last().canonical {
            Some(c) => if is_partition(c@, names) {
                rest
            } else {
                rest.push(entries.last().path@)
            },
            None => rest,
        }
    }
}

fn names_of(entries: &Vec<BlockEntry>) -> (r: Vec<Vec<char>>)
    ensures
        r@.len() == entry_names(entries@).len(),
        forall|i: int| 0 <= i < r@.len() ==> (#[trigger] r@[i])@ == entry_names(entries@)[i],
{
    let mut r: Vec<Vec<char>> = Vec::new();
    let mut i: usize = 0;
    while i < entries.len()
        invariant
            i <= entries@.len(),
            r@.len() == entry_names(entries@.subrange(0, i as int)).len(),
            forall|k: int| 0 <= k < r@.len() ==> (#[trigger] r@[k])@ == entry_names(
                entries@.subrange(0, i as int),
            )[k],
        decreases entries@.len() - i,
    {
        assert(entries@.subrange(0, i + 1).drop_last() =~= entries@.subrange(0, i as int));
        assert(entries@.subrange(0, i + 1).last() == entries@[i as int]);
        match path_file_name(entries[i].path.as_str()) {
            Some(n) => r.push(n),
            None => {},
        }
        i += 1;
    }
    assert(entries@.subrange(0, entries@.len() as int) =~= entries@);
    r
}

fn partition_exec(canonical: &String, names: &Vec<Vec<char>>, ghost_names: Ghost<Seq<Seq<char>>>) -> (r: bool)
    requires
        names@.len() == ghost_names@.len(),
        forall|i: int| 0 <= i < names@.len() ==> (#[trigger] names@[i])@ == ghost_names@[i],
    ensures
        r == is_partition(canonical@, ghost_names@),
{
    let parent = path_parent_name(canonical.as_str());
    let mut i: usize = 0;
    while i < names.len()
        invariant
            i <= names@.len() == ghost_names@.len(),
            forall|k: int| 0 <= k < names@.len() ==> (#[trigger] names@[k])@ == ghost_names@[k],
            match parent_name(canonical@) {
                Some(n) => parent is Some && parent->0@ == n,
                None => parent is None,
            },
            forall|k: int|
                0 <= k < i ==> !#[trigger] parent_matches(parent_name(canonical@), ghost_names@[k]),
        decreases names@.len() - i,
    {
        assert(names@[i as int]@ == ghost_names@[i as int]);
        match &parent {
            Some(p) => {
                if eq_chars(p, &names[i]) {
                    assert(parent_matches(parent_name(canonical@), ghost_names@[i as int]));
                    return true;
                }
            },
            None => {
                assert(parent_matches(parent_name(canonical@), ghost_names@[i as int]));
                return true;
            },
        }
        i += 1;
    }
    false
}

/// Keeps the paths of the whole block devices: entries whose canonical
/// path could be resolved and whose parent directory is not named like any
/// block entry (those are partitions of that device).
pub fn storage_device_entries(entries: Vec<BlockEntry>) -> (r: Vec<String>)
    ensures
        r@.len() == whole_devices(entries@, entry_names(entries@)).len(),
        forall|i: int| 0 <= i < r@.len() ==> (#[trigger] r@[i])@ == whole_devices(
            entries@,
            entry_names(entries@),
        )[i],
{
    let names = names_of(&entries);
    let ghost all_names = entry_names(entries@);
    let mut r: Vec<String> = Vec::new();
    let mut i: usize = 0;
    while i < entries.len()
        invariant
            i <= entries@.len(),
            all_names == entry_names(entries@),
            names@.len() == all_names.len(),
            forall|k: int| 0 <= k < names@.len() ==> (#[trigger] names@[k])@ == all_names[k],
            r@.len() == whole_devices(entries@.subrange(0, i as int), all_names).len(),
            forall|k: int| 0 <= k < r@.len() ==> (#[trigger] r@[k])@ == whole_devices(
                entries@.subrange(0, i as int),
                all_names,
            )[k],
        decreases entries@.len() - i,
    {
        assert(entries@.subrange(0, i + 1).drop_last() =~= entries@.subrange(0, i as int));
        assert(entries@.subrange(0, i + 1).last() == entries@[i as int]);
        match &entries[i].canonical {
            Some(c) => {
                if !partition_exec(c, &names, Ghost(all_names)) {
                    r.push(entries[i].path.clone());
                }
            },
            None => {},
        }
        i += 1;
    }
    assert(entries@.subrange(0, entries@.len() as int) =~= entries@);
    r
}

/// Raw readings of one block device's pseudo-files.
pub struct StorageReadings {
    /// `device/model`.
    pub model: Option<String>,
    /// `device/vendor`.
    pub vendor: Option<String>,
    /// `queue/rotational`.
    pub rotational: Option<u8>,
    /// `size`, in sectors.
    pub size: Option<u64>,
    /// `queue/physical_block_size`, in bytes.
    pub physical_block_size: Option<u64>,
    /// `queue/rotation_rate`, in RPM.
    pub rotation_rate: Option<u32>,
    /// `removable`.
    pub removable: Option<u8>,
    /// The device directory's canonical path.
    pub canonical_path: Option<String>,
}

/// The description that a device's readings give.
pub open spec fn storage_desc_spec(r: StorageReadings, d: StorageDescription) -> bool {
    &&& d.kind == kind_of(r.rotational)
    &&& d.usage.usage is None
    &&& match (r.size, r.physical_block_size) {
        (Some(c), Some(w)) => if capacity_kib(c as int, w as int) <= u64::MAX {
            d.usage.total_capacity == Some(capacity_kib(c as int, w as int) as u64)
        } else {
            d.usage.total_capacity is None
        },
        _ => d.usage.total_capacity is None,
    }
    &&& d.speed == r.rotation_rate
    &&& d.connector == match r.canonical_path {
        Some(p) => connector_of(p@),
        None => None,
    }
    &&& d.is_removable == match r.removable {
        Some(1) => Some(true),
        Some(0) => Some(false),
        _ => None::<bool>,
    }
}

/// Builds the storage description of one device from its readings.
pub fn storage_desc(r: &StorageReadings) -> (d: StorageDescription)
    ensures
        storage_desc_spec(*r, d),
{
    let connector = match &r.canonical_path {
        Some(p) => connector(p.as_str()),
        None => None,
    };
    StorageDescription {
        kind: kind(r.rotational),
        usage: StorageUsage { usage: None, total_capacity: capacity(r.size, r.physical_block_size) },
        speed: r.rotation_rate,
        connector,
        is_removable: removable(r.removable),
    }
}

/// Builds the component for one block device: its model as the name, its
/// vendor, and its storage description.
pub fn one(r: StorageReadings) -> (c: ComponentInfo)
    ensures
        c.bus == ComponentBus::Unknown,
        c.id == r.model,
        c.class is None,
        c.vendor_id == r.vendor,
        c.status is None,
        c.desc matches ComponentDescription::StorageDescription(d) && storage_desc_spec(r, d),
{
    let desc = storage_desc(&r);
    ComponentInfo::new(
        ComponentBus::Unknown,
        r.model,
        None,
        r.vendor,
        None,
        ComponentDescription::StorageDescription(desc),
    )
}

/// Builds a storage component from a disk-drive record: its `Model`,
/// `Manufacturer`, `Size` (bytes) as KiB, and whether its `MediaType` is
/// "Removable media".
pub fn disk_from_record(rec: &Record) -> (c: ComponentInfo)
    ensures
        c.bus == ComponentBus::Unknown,
        opt_view(c.id) == string_of_value(field(rec.fields@, "Model"@)),
        c.class is None,
        opt_view(c.vendor_id) == string_of_value(field(rec.fields@, "Manufacturer"@)),
        c.status is None,
        c.desc == ComponentDescription::StorageDescription(StorageDescription {
            kind: None,
            usage: StorageUsage {
                usage: None,
                total_capacity: match field(rec.fields@, "Size"@) {
                    Some(RecordValue::UI8(b)) => Some((b / 1024) as u64),
                    _ => None,
                },
            },
            speed: None,
            connector: None,
            is_removable: match string_of_value(field(rec.fields@, "MediaType"@)) {
                Some(m) => Some(m == "Removable media"@),
                None => None,
            },
        }),
{
    let size = match u64_from_variant(rec.get("Size")) {
        Some(b) => Some(b / 1024),
        None => None,
    };
    let is_removable = match string_from_variant(rec.get("MediaType")) {
        Some(m) => {
            let mc = chars_of(m.as_str());
            let word = chars_of("Removable media");
            Some(eq_chars(&mc, &word))
        },
        None => None,
    };
    ComponentInfo::new(
        ComponentBus::Unknown,
        string_from_variant(rec.get("Model")),
        None,
        string_from_variant(rec.get("Manufacturer")),
        None,
        ComponentDescription::StorageDescription(StorageDescription {
            kind: None,
            usage: StorageUsage { usage: None, total_capacity: size },
            speed: None,
            connector: None,
            is_removable,
        }),
    )
}

} // verus!
