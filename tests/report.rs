use libghr::bus::{pci_device, usb_device, InitialDevice, UsbReadings};
use libghr::components::{drop_blank, ComponentBus, ComponentDescription, ComponentInfo};
use libghr::error::GhrError;
use libghr::gpu::PciCodes;
use libghr::machine::{DmiReadings, MachineIdentifier, MachineInfo};
use libghr::os::{os_info, Uname};
use libghr::report::{get_components, Report};
use libghr::sleep::{Sleep, SystemConfInfo};

fn blank() -> ComponentInfo {
    ComponentInfo::new(ComponentBus::Unknown, None, None, None, None, ComponentDescription::NoDescription)
}

fn named(n: &str) -> ComponentInfo {
    ComponentInfo::new(ComponentBus::Sys, Some(n.to_string()), None, None, None, ComponentDescription::NoDescription)
}

fn machine() -> MachineInfo {
    MachineInfo::new(
        MachineIdentifier::Random(vec![0; 30]),
        DmiReadings { sys_vendor: None, product_name: None, chassis_type: None, chassis_vendor: None, chassis_version: None, bios_vendor: None, bios_version: None, bios_date: None },
    )
}

fn os() -> libghr::os::OperatingSystemInfo {
    os_info(
        Uname {
            sysname: "Linux".to_string(),
            release: "6.1".to_string(),
            machine: "x86_64".to_string(),
            version: "v".to_string(),
            domainname: "d".to_string(),
            nodename: "n".to_string(),
        },
        None,
    )
}

#[test]
fn blank_components_are_dropped_and_filtering_is_idempotent() {
    assert!(blank().is_blank());
    assert!(!named("x").is_blank());
    let once = drop_blank(vec![blank(), named("a"), blank(), named("b")]);
    assert_eq!(once.len(), 2);
    let twice = drop_blank(once.clone());
    assert_eq!(once, twice);
}

#[test]
fn failed_categories_contribute_nothing() {
    let all = get_components(vec![
        Ok(vec![named("cpu"), blank()]),
        Err(GhrError::ComponentInfoInaccessible("no wmi".to_string())),
        Ok(vec![named("disk")]),
    ]);
    assert_eq!(all.len(), 2);
    assert_eq!(all[1].id.clone().unwrap(), "disk");
}

#[test]
fn unreadable_os_info_fails_the_report() {
    let r = Report::new(
        Err(GhrError::OsInfoInaccessible("uname failed".to_string())),
        Ok(machine()),
        vec![Ok(vec![named("cpu")])],
        SystemConfInfo::new(Sleep::default()),
    );
    assert!(matches!(r, Err(GhrError::OsInfoInaccessible(_))));
}

#[test]
fn machine_identity_failure_fails_the_report() {
    let r = Report::new(Ok(os()), Err(GhrError::NoMacAddresses), vec![], SystemConfInfo::new(Sleep::default()));
    assert!(matches!(r, Err(GhrError::NoMacAddresses)));
}

#[test]
fn report_views_by_category() {
    let ram = libghr::ram::ram(1024);
    let r = Report::new(Ok(os()), Ok(machine()), vec![Ok(ram), Ok(vec![named("x"), blank()])], SystemConfInfo::new(Sleep::default())).unwrap();
    assert_eq!(r.components.len(), 2);
    assert_eq!(r.memory().len(), 1);
    assert!(r.cpus().is_empty());
    assert!(r.gpus().is_empty());
    assert!(r.psus().is_empty());
    assert!(r.storage().is_empty());
}

#[test]
fn bus_devices() {
    let p = pci_device(PciCodes { class: Some("0x060000".to_string()), device: Some("zz".to_string()), vendor: Some("0x8086".to_string()) });
    assert_eq!(p.bus, ComponentBus::Pci);
    assert_eq!(p.class.clone().unwrap(), "Bridge (Host bridge)");
    assert_eq!(p.id.clone().unwrap(), "zz");
    let u = usb_device(UsbReadings { manufacturer: None, product: None, id_vendor: Some("1d6b".to_string()), id_product: Some("0002".to_string()), class: Some("09".to_string()), subclass: Some("00".to_string()) });
    assert_eq!(u.vendor_id.clone().unwrap(), "Linux Foundation");
    assert_eq!(u.id.clone().unwrap(), "2.0 root hub");
    let d = InitialDevice::new("/sys/bus/usb/devices/usb1".to_string(), u);
    assert_eq!(d.path(), "/sys/bus/usb/devices/usb1");
    assert_eq!(d.into_info().bus, ComponentBus::Usb);
}
