use libghr::components::{ComponentBus, ComponentDescription};
use libghr::nic::{adapter_from_record, adapters_from_records, NicDescription};
use libghr::ram::{module_from_record, ram, RamDescription, Removability};
use libghr::record::{pnp_filter_did_prefix, u32_from_variant, Record, RecordValue};

fn rec(fields: Vec<(&str, RecordValue)>) -> Record {
    Record { fields: fields.into_iter().map(|(k, v)| (k.to_string(), v)).collect() }
}

fn s(v: &str) -> RecordValue {
    RecordValue::Str(v.to_string())
}

#[test]
fn check_windows_ax200_wireless() {
    let nics = adapters_from_records(&vec![rec(vec![
        ("Name", s("Intel(R) Wi-Fi 6 AX200 160MHz")),
        ("Manufacturer", s("Intel Corporation")),
        ("PhysicalAdapter", RecordValue::Bool(true)),
        ("MaxSpeed", RecordValue::Other),
    ])]);
    let cmp = nics.first().unwrap();
    assert_eq!(cmp.id().unwrap(), "Intel(R) Wi-Fi 6 AX200 160MHz");
    assert_eq!(cmp.vendor_id().unwrap(), "Intel Corporation");
    let ComponentDescription::NicDescription(desc) = cmp.desc() else {
        panic!("wrong one!");
    };
    assert!(desc.max_speed.is_none());
}

#[test]
fn virtual_adapters_are_excluded() {
    let virt = rec(vec![
        ("Name", s("WAN Miniport")),
        ("Manufacturer", s("Microsoft")),
        ("PhysicalAdapter", RecordValue::Bool(false)),
        ("MaxSpeed", RecordValue::UI8(1_000_000_000)),
    ]);
    assert!(adapter_from_record(&virt).is_none());
    let unflagged = rec(vec![("Name", s("x"))]);
    assert!(adapter_from_record(&unflagged).is_none());
    assert!(adapters_from_records(&vec![virt, unflagged]).is_empty());
}

#[test]
fn link_speed_becomes_mbps() {
    let nic = adapter_from_record(&rec(vec![
        ("PhysicalAdapter", RecordValue::Bool(true)),
        ("MaxSpeed", RecordValue::UI8(1_000_000_000)),
    ]))
    .unwrap();
    assert_eq!(nic.desc, ComponentDescription::NicDescription(NicDescription { max_speed: Some(1000), mtu: None }));
    assert_eq!(nic.bus, ComponentBus::Unknown);
}

#[test]
fn pnp_devices_filtered_by_prefix() {
    let recs = vec![
        rec(vec![("DeviceID", s(" usb\\VID_1")), ("Name", s("Hub")), ("PNPClass", s("USB")), ("Manufacturer", s("Gen"))]),
        rec(vec![("DeviceID", s("PCI\\VEN_8086")), ("Name", s("Bridge"))]),
        rec(vec![("Name", s("no id"))]),
    ];
    let usb = pnp_filter_did_prefix(&recs, "USB");
    assert_eq!(usb.len(), 1);
    assert_eq!(usb[0].bus, ComponentBus::Usb);
    assert_eq!(usb[0].id.clone().unwrap(), "Hub");
    assert_eq!(usb[0].class.clone().unwrap(), "USB");
    let pci = pnp_filter_did_prefix(&recs, "PCI");
    assert_eq!(pci.len(), 1);
    assert_eq!(pci[0].bus, ComponentBus::Pci);
    assert!(pci[0].vendor_id.is_none());
}

#[test]
fn record_number_conversions() {
    assert_eq!(u32_from_variant(Some(&RecordValue::UI2(7))), Some(7));
    assert_eq!(u32_from_variant(Some(&RecordValue::UI8(0x1_0000_0005))), Some(5));
    assert_eq!(u32_from_variant(Some(&s("7"))), None);
    assert_eq!(u32_from_variant(None), None);
}

#[test]
fn memory_components() {
    let r = ram(16 * 1024 * 1024 * 1024);
    assert_eq!(r.len(), 1);
    let m = module_from_record(&rec(vec![
        ("Capacity", RecordValue::UI8(8_589_934_592)),
        ("ConfiguredClockSpeed", RecordValue::UI4(3200)),
        ("Removable", RecordValue::Bool(false)),
        ("Name", s("Physical Memory")),
    ]));
    assert_eq!(
        m.desc,
        ComponentDescription::RamDescription(RamDescription {
            total_phsyical_memory: Some(8_589_934_592),
            configured_clock_speed: Some(3200),
            configured_voltage: None,
            removable: Some(Removability::NonRemovable),
        })
    );
}

#[test]
fn records_need_distinct_field_names() {
    let ok = Record::new(vec![("Name".to_string(), s("a")), ("Manufacturer".to_string(), s("b"))]);
    assert!(ok.is_some());
    let dup = Record::new(vec![("Name".to_string(), s("a")), ("Name".to_string(), s("b"))]);
    assert!(dup.is_none());
}
