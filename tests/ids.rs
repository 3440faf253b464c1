use libghr::ids::{apply_class, apply_names, convert_to_pci_class, convert_to_pci_names, usb_class, usb_vendor_and_id};

#[test]
fn known_pci_device_resolves_both_names() {
    let (id, vendor) = convert_to_pci_names(Some("0x73df".to_string()), Some("0x1002".to_string()));
    assert_eq!(vendor.unwrap(), "Advanced Micro Devices, Inc. [AMD/ATI]");
    assert_eq!(id.unwrap(), "Navi 22 [Radeon RX 6700/6700 XT/6750 XT / 6800M/6850M XT]");
}

#[test]
fn unparseable_codes_pass_through_unchanged() {
    let (id, vendor) = convert_to_pci_names(Some("zz".to_string()), Some("0x1002".to_string()));
    assert_eq!(id.unwrap(), "zz");
    assert_eq!(vendor.unwrap(), "0x1002");
    let (id, vendor) = convert_to_pci_names(None, Some("0x1002".to_string()));
    assert!(id.is_none());
    assert_eq!(vendor.unwrap(), "0x1002");
}

#[test]
fn unknown_pci_pair_passes_through_unchanged() {
    let (id, vendor) = convert_to_pci_names(Some("0xfffe".to_string()), Some("0xfffe".to_string()));
    assert_eq!(id.unwrap(), "0xfffe");
    assert_eq!(vendor.unwrap(), "0xfffe");
}

#[test]
fn apply_names_picks_found_pair() {
    let r = apply_names(Some("a".to_string()), Some("b".to_string()), Some(("dev".to_string(), "ven".to_string())));
    assert_eq!(r, (Some("dev".to_string()), Some("ven".to_string())));
    let r = apply_names(Some("a".to_string()), Some("b".to_string()), None);
    assert_eq!(r, (Some("a".to_string()), Some("b".to_string())));
}

#[test]
fn pci_class_resolves_to_class_and_subclass() {
    let c = convert_to_pci_class(Some("0x030000\n".to_string())).unwrap();
    assert_eq!(c, "Display controller (VGA compatible controller)");
}

#[test]
fn pci_class_falls_back_to_raw_codes() {
    assert_eq!(convert_to_pci_class(Some("0xfe0000".to_string())).unwrap(), "fe (00)");
    assert_eq!(convert_to_pci_class(Some("0x0".to_string())).unwrap(), "0x0");
    assert_eq!(convert_to_pci_class(Some("0xzz00".to_string())).unwrap(), "0xzz00");
    assert_eq!(convert_to_pci_class(Some("".to_string())).unwrap(), "");
    assert_eq!(convert_to_pci_class(None), None);
}

#[test]
fn apply_class_formats_names() {
    assert_eq!(apply_class("03".to_string(), "00".to_string(), Some(("A".to_string(), "B".to_string()))), "A (B)");
    assert_eq!(apply_class("03".to_string(), "00".to_string(), None), "03 (00)");
}

#[test]
fn usb_class_resolves_or_falls_back() {
    assert_eq!(usb_class(Some("09\n".to_string()), Some("00\n".to_string())).unwrap(), "Hub (Unused)");
    assert_eq!(usb_class(Some("zz".to_string()), Some("00".to_string())).unwrap(), "zz (00)");
    assert_eq!(usb_class(Some("09".to_string()), None), None);
}

#[test]
fn usb_names_prefer_device_strings() {
    let r = usb_vendor_and_id(Some("Maker".to_string()), Some("Thing".to_string()), Some("1d6b".to_string()), Some("0003".to_string()));
    assert_eq!(r, (Some("Maker".to_string()), Some("Thing".to_string())));
}

#[test]
fn usb_names_from_codes() {
    let (vendor, product) = usb_vendor_and_id(None, None, Some("1d6b\n".to_string()), Some("0003".to_string()));
    assert_eq!(vendor.unwrap(), "Linux Foundation");
    assert_eq!(product.unwrap(), "3.0 root hub");
    assert_eq!(
        usb_vendor_and_id(None, None, Some("xyz\n".to_string()), Some("0003".to_string())),
        (Some("xyz".to_string()), Some("0003".to_string()))
    );
    assert_eq!(
        usb_vendor_and_id(None, Some("Thing".to_string()), Some("fffe".to_string()), Some("fffe".to_string())),
        (Some("fffe".to_string()), Some("fffe".to_string()))
    );
    assert_eq!(usb_vendor_and_id(None, None, None, Some("0003".to_string())), (None, Some("0003".to_string())));
}
