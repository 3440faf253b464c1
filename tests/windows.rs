use libghr::components::{ComponentBus, ComponentDescription};
use libghr::gpu::{card_entries, find_driver, gpu_from_record};
use libghr::error::GhrError;
use libghr::ids::Civ;
use libghr::log::{join_path, latest_log_location_in};
use libghr::os::windows_os_info;
use libghr::record::{Record, RecordValue};
use libghr::sleep::{sleep_from_capabilities, PowerCapabilities, Sleep, SleepMode};
use libghr::storage::disk_from_record;

fn rec(fields: Vec<(&str, RecordValue)>) -> Record {
    Record { fields: fields.into_iter().map(|(k, v)| (k.to_string(), v)).collect() }
}

#[test]
fn windows_check_general_info() {
    let c = disk_from_record(&rec(vec![
        ("Model", RecordValue::Str("SAMSUNG MZ9LQ512HALU-00000".to_string())),
        ("Manufacturer", RecordValue::Str("(Standard disk drives)".to_string())),
        ("Size", RecordValue::UI8(512105932800)),
        ("MediaType", RecordValue::Str("Fixed hard disk media".to_string())),
    ]));
    assert_eq!(c.id().unwrap(), "SAMSUNG MZ9LQ512HALU-00000");
    assert_eq!(c.vendor_id().unwrap(), "(Standard disk drives)");
    let ComponentDescription::StorageDescription(d) = c.desc() else { panic!("wrong desc") };
    assert_eq!(d.usage.total_capacity, Some(500103450));
    assert_eq!(d.is_removable, Some(false));
}

#[test]
fn removable_media_disk() {
    let c = disk_from_record(&rec(vec![("MediaType", RecordValue::Str("Removable media".to_string()))]));
    let ComponentDescription::StorageDescription(d) = c.desc else { panic!() };
    assert_eq!(d.is_removable, Some(true));
    assert_eq!(d.usage.total_capacity, None);
}

#[test]
fn video_controller_record() {
    let c = gpu_from_record(&rec(vec![("Name", RecordValue::Str("Radeon".to_string())), ("AdapterRAM", RecordValue::UI4(4_293_918_720))]));
    assert_eq!(c.bus, ComponentBus::Pci);
    let ComponentDescription::GpuDescription(d) = c.desc else { panic!() };
    assert_eq!(d.video_memory, Some(4095));
}

#[test]
fn card_directories() {
    let names = vec!["card0".to_string(), "card1-DP-1".to_string(), "renderD128".to_string(), "card12".to_string(), "version".to_string()];
    assert_eq!(card_entries(&names).unwrap(), vec!["card0".to_string(), "card12".to_string()]);
}

#[test]
fn driver_from_link() {
    assert_eq!(find_driver(Some("../../../../bus/pci/drivers/amdgpu".to_string())).unwrap(), "amdgpu");
    assert!(matches!(find_driver(None), Err(GhrError::ComponentInfoInaccessible(_))));
    assert!(matches!(find_driver(Some("/".to_string())), Err(GhrError::ComponentInfoInaccessible(_))));
}

#[test]
fn sleep_capabilities() {
    let s = sleep_from_capabilities(Some(PowerCapabilities { s1: false, s2: false, s3: true, s4: true, aoac: true }));
    assert_eq!(s.s0, SleepMode::Unknown);
    assert_eq!(s.s0ix, SleepMode::Supported);
    assert_eq!(s.s1, SleepMode::Unsupported);
    assert_eq!(s.s3, SleepMode::Supported);
    assert_eq!(sleep_from_capabilities(None), Sleep::default());
}

#[test]
fn windows_version_string() {
    let os = windows_os_info(10, 0, 22631, Ok("AMD64".to_string())).unwrap();
    assert_eq!(os.name(), "Windows");
    assert_eq!(os.version(), "10.0.22631");
    assert_eq!(os.arch(), "AMD64");
    assert!(matches!(windows_os_info(10, 0, 1, Err("unset".to_string())), Err(GhrError::OsInfoInaccessible(_))));
}

#[test]
fn log_paths() {
    assert_eq!(latest_log_location_in("/home/u/.cache"), "/home/u/.cache/ghr/ghr.latest.log");
    assert_eq!(join_path("/tmp/", "x"), "/tmp/x");
    assert_eq!(join_path("", "x"), "x");
}

#[test]
fn civ_resolves_codes() {
    let civ = Civ::new(Some("0x030000".to_string()), Some("0x73df".to_string()), Some("0x1002".to_string()));
    assert_eq!("Display controller (VGA compatible controller)", civ.class.unwrap(), "device class");
    assert_eq!("Advanced Micro Devices, Inc. [AMD/ATI]", civ.vendor.unwrap(), "device vendor");
    assert_eq!("Navi 22 [Radeon RX 6700/6700 XT/6750 XT / 6800M/6850M XT]", civ.id.unwrap(), "device name");
}

#[test]
fn processor_records() {
    let recs = vec![rec(vec![
        ("Name", RecordValue::Str("AMD Ryzen 7 5800X 8-Core Processor ".to_string())),
        ("Manufacturer", RecordValue::Str("AuthenticAMD".to_string())),
        ("MaxClockSpeed", RecordValue::UI4(3801)),
        ("NumberOfCores", RecordValue::UI4(8)),
    ])];
    let cpus = libghr::cpu::from_wmi_query(&recs);
    assert_eq!(cpus.len(), 1);
    assert_eq!(cpus[0].id.clone().unwrap(), "AMD Ryzen 7 5800X 8-Core Processor");
    let ComponentDescription::CpuDescription(d) = &cpus[0].desc else { panic!("wrong desc") };
    assert_eq!(d.clock_speed.max, Some(3801));
    assert_eq!(d.core_ct, Some(8));
}

#[test]
fn battery_record() {
    let c = libghr::psu::battery_from_wmi_record(&rec(vec![
        ("Name", RecordValue::Str("SurfaceBattery".to_string())),
        ("FullChargeCapacity", RecordValue::UI4(49_500)),
        ("DesignCapacity", RecordValue::UI4(50_000)),
        ("Chemistry", RecordValue::UI2(6)),
    ]));
    let ComponentDescription::PowerSupplyDescription(libghr::psu::PowerSupplyDescription::Battery { technology, real_capacity_uwh, .. }) = c.desc else { panic!() };
    assert_eq!(technology.unwrap(), "Lithium-ion");
    assert_eq!(real_capacity_uwh, Some(49_500_000));
}
