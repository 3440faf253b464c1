use libghr::components::{ComponentBus, ComponentDescription};
use libghr::psu::{battery_from_record, battery_info, calc_capacity, chemistry, normalize_technology, one, psu_info, BatteryReadings, PowerSupplyDescription};

fn readings() -> BatteryReadings {
    BatteryReadings {
        cycle_count: Some(37),
        technology: Some("Li-ion".to_string()),
        energy_full_design: None,
        energy_full: None,
        charge_full: Some(3_500_000),
        charge_full_design: Some(3_700_000),
        voltage_max: Some(15_200_000),
        voltage_max_design: Some(15_200_000),
    }
}

#[test]
fn psu_linux_info() {
    let psu = one(Some("SMP".to_string()), Some("1144021016".to_string()), Some("Battery".to_string()), readings());
    assert_eq!(psu.vendor_id.unwrap(), "SMP");
    assert_eq!(psu.id.unwrap(), "1144021016");
    assert!(psu.class.is_none());
    assert_eq!(psu.bus, ComponentBus::Sys);
}

#[test]
fn psu_linux_specs() {
    let r = BatteryReadings {
        cycle_count: libghr::source::sysfs_value_opt_i32(Some("37\n".to_string())),
        technology: Some("Li-ion".to_string()),
        energy_full_design: Some(56_310_000),
        energy_full: Some(52_220_000),
        charge_full: None,
        charge_full_design: None,
        voltage_max: None,
        voltage_max_design: None,
    };
    let psu = one(Some("SMP".to_string()), Some("1144021016".to_string()), Some("Battery".to_string()), r);
    let ComponentDescription::PowerSupplyDescription(psu_info) = psu.desc else {
        panic!("no psu info found D:");
    };
    let PowerSupplyDescription::Battery { technology, real_capacity_uwh, theoretical_capacity_uwh, cycle_count } = psu_info else {
        panic!("wasn't considered a battery");
    };
    assert_eq!(technology.unwrap(), "Li-ion");
    assert!((theoretical_capacity_uwh.unwrap() as f64 / 1e6 - 56.31).abs() < 1e-9);
    assert!((real_capacity_uwh.unwrap() as f64 / 1e6 - 52.22).abs() < 1e-9);
    assert_eq!(cycle_count.unwrap(), 37);
}

#[test]
fn battery_capacity_from_charge_and_voltage() {
    let PowerSupplyDescription::Battery { real_capacity_uwh, theoretical_capacity_uwh, technology, cycle_count } = battery_info(readings()) else {
        panic!("wasn't considered a battery");
    };
    let wh = real_capacity_uwh.unwrap() as f64 / 1_000_000.0;
    assert!((wh - 53.2).abs() < 1e-9);
    assert_eq!(theoretical_capacity_uwh, Some(56_240_000));
    assert_eq!(technology.unwrap(), "Li-ion");
    assert_eq!(cycle_count, Some(37));
}

#[test]
fn energy_reading_wins_over_charge() {
    assert_eq!(calc_capacity(Some(52_220_000), Some(1), Some(1)), Some(52_220_000));
    assert_eq!(calc_capacity(None, Some(3_500_000), None), None);
    assert_eq!(calc_capacity(None, None, None), None);
}

#[test]
fn unknown_technology_is_absent() {
    assert_eq!(normalize_technology(Some("Unknown".to_string())), None);
    assert_eq!(normalize_technology(Some("Li-poly".to_string())), Some("Li-poly".to_string()));
}

#[test]
fn only_batteries_are_described() {
    assert!(psu_info("Mains", readings()).is_none());
    let ac = one(None, Some("ADP1".to_string()), Some("Mains".to_string()), readings());
    assert_eq!(ac.desc, ComponentDescription::NoDescription);
}

#[test]
fn check_sls2_battery() {
    let cmp = battery_from_record(Some("SurfaceBattery".to_string()), Some(49_500), Some(50_000), Some(6));
    assert_eq!(cmp.id().unwrap(), "SurfaceBattery");
    assert!(cmp.vendor_id().is_none());
    let ComponentDescription::PowerSupplyDescription(PowerSupplyDescription::Battery {
        technology,
        real_capacity_uwh,
        theoretical_capacity_uwh,
        cycle_count,
    }) = cmp.desc()
    else {
        panic!("wrong one!");
    };
    assert_eq!(technology.clone().unwrap(), "Lithium-ion");
    assert!((real_capacity_uwh.unwrap() as f64 / 1e6 - 49.5).abs() < 1e-9);
    assert!((theoretical_capacity_uwh.unwrap() as f64 / 1e6 - 50.0).abs() < 1e-9);
    assert!(cycle_count.is_none());
}

#[test]
fn chemistry_codes() {
    assert_eq!(chemistry(Some(3)).unwrap(), "Lead Acid");
    assert_eq!(chemistry(Some(8)).unwrap(), "Lithium Polymer");
    assert_eq!(chemistry(Some(2)), None);
    assert_eq!(chemistry(Some(99)), None);
}
