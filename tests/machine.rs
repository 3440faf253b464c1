use libghr::error::GhrError;
use libghr::machine::{bios_date, hash_result, make_hash, salt_from_sources, system_sources, BiosDate, DmiReadings, MachineIdentifier, MachineInfo};

const STATIC: [u8; 16] = [0x6b, 0xf1, 0xad, 0x5f, 0x2d, 0x80, 0x8d, 0x6b, 0xb8, 0x93, 0xa9, 0xa3, 0x62, 0x1e, 0x67, 0x1a];

#[test]
fn true_identity_is_deterministic() {
    let mac = vec![0x02, 0xfc, 0, 0, 0, 1];
    let a = make_hash(Some(mac.clone())).unwrap();
    let b = make_hash(Some(mac.clone())).unwrap();
    assert_eq!(a, b);
    assert_ne!(a, mac);
    assert!(!a.is_empty());
    let c = make_hash(Some(vec![0x02, 0xfc, 0, 0, 0, 2])).unwrap();
    assert_ne!(a, c);
}

#[test]
fn no_mac_address_is_an_error() {
    assert_eq!(make_hash(None), Err(GhrError::NoMacAddresses));
}

#[test]
fn random_identities_differ() {
    let MachineIdentifier::Random(a) = MachineIdentifier::new_random() else { panic!() };
    let MachineIdentifier::Random(b) = MachineIdentifier::new_random() else { panic!() };
    assert_eq!(a.len(), 30);
    assert_eq!(b.len(), 30);
    assert_ne!(a, b);
}

#[test]
fn salt_is_the_embedded_bytes() {
    assert_eq!(system_sources(), STATIC.to_vec());
    let long = vec![vec![7u8; 40], vec![9u8; 40]];
    let s = salt_from_sources(&long);
    assert_eq!(s.len(), 64);
    assert_eq!(&s[..40], &[7u8; 40][..]);
    let short = vec![vec![1u8, 2u8]];
    let s = salt_from_sources(&short);
    assert_eq!(s.len(), 17);
    assert_eq!(&s[2..], &STATIC[..15]);
}

#[test]
fn hash_results() {
    assert_eq!(hash_result(Ok(Some(vec![1, 2]))), Ok(vec![1, 2]));
    assert!(matches!(hash_result(Ok(None)), Err(GhrError::HashFailed(_))));
    assert!(matches!(hash_result(Err("bad".to_string())), Err(GhrError::HashFailed(_))));
}

#[test]
fn firmware_date_and_machine_info() {
    assert_eq!(bios_date("03/14/2023"), Some(BiosDate { year: 2023, month: 3, day: 14 }));
    assert_eq!(bios_date("2023-03-14"), None);
    let info = MachineInfo::new(
        MachineIdentifier::Random(vec![1]),
        DmiReadings {
            sys_vendor: Some("Framework".to_string()),
            product_name: Some("Laptop".to_string()),
            chassis_type: Some("10".to_string()),
            chassis_vendor: None,
            chassis_version: None,
            bios_vendor: Some("INSYDE".to_string()),
            bios_version: Some("03.19".to_string()),
            bios_date: Some("12/01/2023".to_string()),
        },
    );
    assert_eq!(info.bios.date, Some(BiosDate { year: 2023, month: 12, day: 1 }));
    assert_eq!(info.vendor.unwrap(), "Framework");
}
