use libghr::units::{charge_to_energy_uwh, mwh_to_uwh, sectors_to_kib, unit_to_mibiunits};

#[test]
fn one_gib_to_mib() {
    let one_gibibyte = 1_048_576_u64 * 1024;
    assert_eq!(unit_to_mibiunits(one_gibibyte), 1024_u32);
}

#[test]
fn _1000_bytes_is_zero_mibs() {
    let megabyte = 1000_u64 * 1000;
    assert_eq!(unit_to_mibiunits(megabyte), 0_u32);
}

#[test]
fn _1024_bytes_is_one_mib() {
    let mibibyte = 1024_u64 * 1024;
    assert_eq!(unit_to_mibiunits(mibibyte), 1_u32);
}

#[test]
fn mib_conversion_floors() {
    assert_eq!(unit_to_mibiunits(1_048_575), 0);
    assert_eq!(unit_to_mibiunits(2 * 1_048_576 - 1), 1);
    assert_eq!(unit_to_mibiunits(0), 0);
}

#[test]
fn mib_conversion_keeps_low_32_bits_of_huge_counts() {
    assert_eq!(unit_to_mibiunits(u64::MAX), u32::MAX);
}

#[test]
fn sector_capacity_in_kib() {
    assert_eq!(sectors_to_kib(1953525168, 512), Some((512 * 1953525168) / 1024));
    assert_eq!(sectors_to_kib(u64::MAX, u64::MAX), None);
    assert_eq!(sectors_to_kib(0, 512), Some(0));
}

#[test]
fn charge_times_voltage_energy() {
    assert_eq!(charge_to_energy_uwh(3_500_000, 15_200_000), Some(53_200_000));
    assert_eq!(charge_to_energy_uwh(u64::MAX, u64::MAX), None);
}

#[test]
fn milliwatt_hours_to_microwatt_hours() {
    assert_eq!(mwh_to_uwh(49_500), 49_500_000);
}
