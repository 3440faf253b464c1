use libghr::components::ComponentDescription;
use libghr::storage::{
    capacity, connector, kind, one, removable, storage_device_entries, BlockEntry,
    StorageConnector, StorageKind, StorageReadings,
};

fn ssd_readings() -> StorageReadings {
    StorageReadings {
        model: Some("Samsung SSD 860".to_string()),
        vendor: Some("ATA".to_string()),
        rotational: Some(0),
        size: Some(1953525168),
        physical_block_size: Some(512),
        rotation_rate: None,
        removable: Some(0),
        canonical_path: None,
    }
}

#[test]
fn linux_check_general_info() {
    let info = one(ssd_readings());
    assert_eq!(info.id.unwrap(), "Samsung SSD 860");
    assert_eq!(info.vendor_id.unwrap(), "ATA");
}

#[test]
fn check_specialized_info() {
    let info = one(ssd_readings());
    let ComponentDescription::StorageDescription(desc) = info.desc() else {
        panic!("wrong desc ty!");
    };
    assert_eq!(desc.is_removable, Some(false));
    assert_eq!(desc.kind.unwrap(), StorageKind::Ssd);
    assert!(desc.speed.is_none());
    assert_eq!(desc.usage.total_capacity.unwrap(), (512 * 1953525168) / 1024);
}

#[test]
fn check_connector() {
    let a = connector("/home/farts/sys/class/scsi_disk/15:0:0:0/").unwrap();
    let b = connector("/sys/class/ata_port/1:0:0:0/").unwrap();
    let c = connector("/sys/class/scsi_disk/any_name_will_do").unwrap();
    let d = connector("/home/sys/class/real_sysroot/sys/class/scsi_disk/15:0:0:0/").unwrap();
    assert_eq!(a, StorageConnector::Scsi);
    assert_eq!(b, StorageConnector::Sata);
    assert_eq!(c, StorageConnector::Scsi);
    assert_eq!(d, StorageConnector::Scsi);
}

#[test]
fn connector_finds_a_class_pair_at_any_position() {
    assert_eq!(connector("/class/ata_port"), Some(StorageConnector::Sata));
    assert_eq!(connector("/x/class/ata_port"), Some(StorageConnector::Sata));
    assert_eq!(connector("/a/b/class/scsi_disk/0:0"), Some(StorageConnector::Scsi));
    assert_eq!(connector("/sys/block/sda"), None);
    assert_eq!(connector("/sys/class/nvme/nvme0"), None);
    assert_eq!(connector("/sys/class"), None);
}

#[test]
fn check_capacity() {
    let cap = capacity(Some(1953525168), Some(512)).unwrap();
    assert_eq!(cap, (512 * 1953525168) / 1024);
    let cap_gib = cap as f64 / 1024_f64.powf(2.0);
    assert!((cap_gib - 931.51339).abs() < 1e-4);
}

#[test]
fn capacity_needs_both_readings() {
    assert_eq!(capacity(None, Some(512)), None);
    assert_eq!(capacity(Some(10), None), None);
}

#[test]
fn check_speed() {
    let mut r = ssd_readings();
    r.rotational = Some(1);
    r.rotation_rate = Some(7200);
    let ComponentDescription::StorageDescription(desc) = one(r).desc else {
        panic!("wrong desc ty!");
    };
    assert_eq!(desc.speed.unwrap(), 7200);
    assert_eq!(desc.kind, Some(StorageKind::Hdd));
}

#[test]
fn rotational_and_removable_flags() {
    assert_eq!(kind(Some(0)), Some(StorageKind::Ssd));
    assert_eq!(kind(Some(1)), Some(StorageKind::Hdd));
    assert_eq!(kind(Some(2)), None);
    assert_eq!(kind(None), None);
    assert_eq!(removable(Some(1)), Some(true));
    assert_eq!(removable(Some(0)), Some(false));
    assert_eq!(removable(Some(7)), None);
}

#[test]
fn ssd_scenario_from_pseudo_files() {
    let r = StorageReadings {
        model: None,
        vendor: None,
        rotational: libghr::source::sysfs_value_opt_u8(Some("0\n".to_string())),
        size: libghr::source::sysfs_value_opt_u64(Some("1953525168\n".to_string())),
        physical_block_size: libghr::source::sysfs_value_opt_u64(Some("512\n".to_string())),
        rotation_rate: None,
        removable: None,
        canonical_path: Some("/sys/devices/pci0000:00/0000:00:17.0/ata1/host0/target0:0:0/0:0:0:0/block/sda".to_string()),
    };
    let ComponentDescription::StorageDescription(desc) = one(r).desc else {
        panic!("wrong desc ty!");
    };
    assert_eq!(desc.kind, Some(StorageKind::Ssd));
    assert_eq!(desc.usage.total_capacity, Some(976762584));
    assert_eq!(desc.connector, None);
}

#[test]
fn partitions_are_left_out() {
    let entries = vec![
        BlockEntry {
            path: "/sys/class/block/sda".to_string(),
            canonical: Some("/sys/devices/pci0000:00/ata1/host0/block/sda".to_string()),
        },
        BlockEntry {
            path: "/sys/class/block/sda1".to_string(),
            canonical: Some("/sys/devices/pci0000:00/ata1/host0/block/sda/sda1".to_string()),
        },
        BlockEntry {
            path: "/sys/class/block/nvme0n1".to_string(),
            canonical: Some("/sys/devices/virtual/nvme/nvme0/nvme0n1".to_string()),
        },
        BlockEntry { path: "/sys/class/block/gone".to_string(), canonical: None },
    ];
    let kept = storage_device_entries(entries);
    assert_eq!(kept, vec!["/sys/class/block/sda".to_string(), "/sys/class/block/nvme0n1".to_string()]);
}
