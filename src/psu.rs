//! Power supply probe: batteries and AC adapters.

use vstd::prelude::*;
use crate::components::{ComponentBus, ComponentDescription, ComponentInfo};
use crate::text::{chars_of, eq_chars};
use crate::units::{charge_to_energy_uwh, energy_uwh, mwh_to_uwh};
use crate::record::{field, string_from_variant, u32_from_variant, u32_of_value, Record};
use crate::text::opt_view;

verus! {

/// A description of a power supply: a battery or an AC adapter.
///
/// Capacities are kept exactly, in microwatt-hours.
#[derive(Clone, Debug, PartialEq)]
pub enum PowerSupplyDescription {
    Battery {
        /// The battery's chemistry, such as "Li-ion".
        technology: Option<String>,
        /// The largest capacity the system has observed, in µWh.
        real_capacity_uwh: Option<u64>,
        /// The design capacity, in µWh.
        theoretical_capacity_uwh: Option<u64>,
        /// How often the battery has been charged; may be negative.
        cycle_count: Option<i32>,
    },
    Ac {},
}

/// The characters `Unknown`.
pub open spec fn unknown_word() -> Seq<char> {
    seq!['U', 'n', 'k', 'n', 'o', 'w', 'n']
}

/// The technology string to report: "Unknown" becomes absent.
pub open spec fn technology_of(t: Option<String>) -> Option<String> {
    match t {
        Some(s) => if s@ == unknown_word() {
            None
        } else {
            Some(s)
        },
        None => None,
    }
}

/// Normalises a battery's technology string: "Unknown" is absent.
pub fn normalize_technology(t: Option<String>) -> (r: Option<String>)
    ensures
        r == technology_of(t),
{
    match t {
        Some(s) => {
            let cs = chars_of(s.as_str());
            let word: Vec<char> = vec!['U', 'n', 'k', 'n', 'o', 'w', 'n'];
            assert(word@ =~= unknown_word());
            if eq_chars(&cs, &word) {
                None
            } else {
                Some(s)
            }
        },
        None => None,
    }
}

/// A battery's capacity in µWh: the energy figure where the platform gives
/// one, else charge (µAh) times voltage (µV), else nothing.
pub open spec fn capacity_of(energy_uwh_v: Option<u64>, charge_uah: Option<u64>, voltage_uv: Option<u64>) -> Option<u64> {
    match energy_uwh_v {
        Some(e) => Some(e),
        None => match (charge_uah, voltage_uv) {
            (Some(c), Some(v)) => if energy_uwh(c as int, v as int) <= u64::MAX {
                Some(energy_uwh(c as int, v as int) as u64)
            } else {
                None
            },
            _ => None,
        },
    }
}

/// Computes a battery capacity in µWh, preferring the energy figure and
/// deriving it from charge and voltage where it is absent.
pub fn calc_capacity(energy_uwh_v: Option<u64>, charge_uah: Option<u64>, voltage_uv: Option<u64>) -> (r: Option<u64>)
    ensures
        r == capacity_of(energy_uwh_v, charge_uah, voltage_uv),
{
    match energy_uwh_v {
        Some(e) => Some(e),
        None => match (charge_uah, voltage_uv) {
            (Some(c), Some(v)) => charge_to_energy_uwh(c, v),
            _ => None,
        },
    }
}

/// Raw readings of one battery's pseudo-files.
pub struct BatteryReadings {
    /// `cycle_count`.
    pub cycle_count: Option<i32>,
    /// `technology`.
    pub technology: Option<String>,
    /// `energy_full_design`, µWh.
    pub energy_full_design: Option<u64>,
    /// `energy_full`, µWh.
    pub energy_full: Option<u64>,
    /// `charge_full`, µAh.
    pub charge_full: Option<u64>,
    /// `charge_full_design`, µAh.
    pub charge_full_design: Option<u64>,
    /// `voltage_max`, µV.
    pub voltage_max: Option<u64>,
    /// `voltage_max_design`, µV.
    pub voltage_max_design: Option<u64>,
}

/// The battery description that readings give: the real capacity from the
/// current figures, the theoretical one from the design figures.
pub open spec fn battery_spec(r: BatteryReadings) -> PowerSupplyDescription {
    PowerSupplyDescription::Battery {
        technology: technology_of(r.technology),
        real_capacity_uwh: capacity_of(r.energy_full, r.charge_full, r.voltage_max),
        theoretical_capacity_uwh: capacity_of(
            r.energy_full_design,
            r.charge_full_design,
            r.voltage_max_design,
        ),
        cycle_count: r.cycle_count,
    }
}

/// Describes a battery from its readings.
pub fn battery_info(r: BatteryReadings) -> (d: PowerSupplyDescription)
    ensures
        d == battery_spec(r),
{
    let observed = calc_capacity(r.energy_full, r.charge_full, r.voltage_max);
    let theoretical = calc_capacity(r.energy_full_design, r.charge_full_design, r.voltage_max_design);
    PowerSupplyDescription::Battery {
        technology: normalize_technology(r.technology),
        real_capacity_uwh: observed,
        theoretical_capacity_uwh: theoretical,
        cycle_count: r.cycle_count,
    }
}

/// The characters `Battery`.
pub open spec fn battery_word() -> Seq<char> {
    seq!['B', 'a', 't', 't', 'e', 'r', 'y']
}

/// Picks the description for a supply of type `kind`: batteries are
/// described, other types are not.
pub fn psu_info(kind: &str, r: BatteryReadings) -> (d: Option<PowerSupplyDescription>)
    ensures
        kind@ == battery_word() ==> d == Some(battery_spec(r)),
        kind@ != battery_word() ==> d is None,
{
    let cs = chars_of(kind);
    let word: Vec<char> = vec!['B', 'a', 't', 't', 'e', 'r', 'y'];
    assert(word@ =~= battery_word());
    if eq_chars(&cs, &word) {
        Some(battery_info(r))
    } else {
        None
    }
}

/// Builds the component for one power supply from its manufacturer, model
/// and type files and its battery readings.
pub fn one(
    manufacturer: Option<String>,
    model_name: Option<String>,
    kind: Option<String>,
    r: BatteryReadings,
) -> (c: ComponentInfo)
    ensures
        c.bus == ComponentBus::Sys,
        c.id == model_name,
        c.class is None,
        c.vendor_id == manufacturer,
        c.status is None,
        match kind {
            Some(k) => if k@ == battery_word() {
                c.desc == ComponentDescription::PowerSupplyDescription(battery_spec(r))
            } else {
                c.desc is NoDescription
            },
            None => c.desc is NoDescription,
        },
{
    let desc = match kind {
        Some(k) => match psu_info(k.as_str(), r) {
            Some(d) => ComponentDescription::PowerSupplyDescription(d),
            None => ComponentDescription::NoDescription,
        },
        None => ComponentDescription::NoDescription,
    };
    ComponentInfo::new(ComponentBus::Sys, model_name, None, manufacturer, None, desc)
}

/// The chemistry name a management-instrumentation battery code stands
/// for; codes 1 and 2 ("other", "unknown") and unlisted codes give none.
pub open spec fn chemistry_name(code: u32) -> Option<Seq<char>> {
    if code == 3 {
        Some("Lead Acid"@)
    } else if code == 4 {
        Some("Nickel Cadmium"@)
    } else if code == 5 {
        Some("Nickel Metal Hydride"@)
    } else if code == 6 {
        Some("Lithium-ion"@)
    } else if code == 7 {
        Some("Zinc air"@)
    } else if code == 8 {
        Some("Lithium Polymer"@)
    } else {
        None
    }
}

/// Names a battery chemistry code.
pub fn chemistry(code: Option<u32>) -> (r: Option<String>)
    ensures
        match code {
            Some(c) => match chemistry_name(c) {
                Some(n) => r is Some && r->0@ == n,
                None => r is None,
            },
            None => r is None,
        },
{
    let c = match code {
        Some(c) => c,
        None => return None,
    };
    if c == 3 {
        Some(String::from_str("Lead Acid"))
    } else if c == 4 {
        Some(String::from_str("Nickel Cadmium"))
    } else if c == 5 {
        Some(String::from_str("Nickel Metal Hydride"))
    } else if c == 6 {
        Some(String::from_str("Lithium-ion"))
    } else if c == 7 {
        Some(String::from_str("Zinc air"))
    } else if c == 8 {
        Some(String::from_str("Lithium Polymer"))
    } else {
        None
    }
}

/// Builds a battery component from a management-instrumentation record:
/// its name, full-charge and design capacities in mWh, and chemistry code.
pub fn battery_from_record(
    name: Option<String>,
    full_charge_mwh: Option<u32>,
    design_mwh: Option<u32>,
    chemistry_code: Option<u32>,
) -> (c: ComponentInfo)
    ensures
        c.bus == ComponentBus::Unknown,
        c.id == name,
        c.class is None,
        c.vendor_id is None,
        c.status is None,
        c.desc matches ComponentDescription::PowerSupplyDescription(
            PowerSupplyDescription::Battery {
                technology,
                real_capacity_uwh,
                theoretical_capacity_uwh,
                cycle_count,
            },
        ) && real_capacity_uwh == (match full_charge_mwh {
            Some(m) => Some((m as int * 1000) as u64),
            None => None,
        }) && theoretical_capacity_uwh == (match design_mwh {
            Some(m) => Some((m as int * 1000) as u64),
            None => None,
        }) && cycle_count is None && match chemistry_code {
            Some(k) => match chemistry_name(k) {
                Some(n) => technology is Some && technology->0@ == n,
                None => technology is None,
            },
            None => technology is None,
        },
{
    let observed = match full_charge_mwh {
        Some(m) => Some(mwh_to_uwh(m)),
        None => None,
    };
    let theoretical = match design_mwh {
        Some(m) => Some(mwh_to_uwh(m)),
        None => None,
    };
    let desc = PowerSupplyDescription::Battery {
        technology: chemistry(chemistry_code),
        real_capacity_uwh: observed,
        theoretical_capacity_uwh: theoretical,
        cycle_count: None,
    };
    ComponentInfo::new(
        ComponentBus::Unknown,
        name,
        None,
        None,
        None,
        ComponentDescription::PowerSupplyDescription(desc),
    )
}

/// Builds a battery component from a battery record: its `Name`,
/// `FullChargeCapacity` and `DesignCapacity` (mWh) and `Chemistry` code.
pub fn battery_from_wmi_record(rec: &Record) -> (c: ComponentInfo)
    ensures
        opt_view(c.id) == crate::record::string_of_value(field(rec.fields@, "Name"@)),
        c.desc matches ComponentDescription::PowerSupplyDescription(
            PowerSupplyDescription::Battery { real_capacity_uwh, theoretical_capacity_uwh, .. },
        ) && real_capacity_uwh == (match u32_of_value(field(rec.fields@, "FullChargeCapacity"@)) {
            Some(m) => Some((m as int * 1000) as u64),
            None => None,
        }) && theoretical_capacity_uwh == (match u32_of_value(field(rec.fields@, "DesignCapacity"@)) {
            Some(m) => Some((m as int * 1000) as u64),
            None => None,
        }),
{
    battery_from_record(
        string_from_variant(rec.get("Name")),
        u32_from_variant(rec.get("FullChargeCapacity")),
        u32_from_variant(rec.get("DesignCapacity")),
        u32_from_variant(rec.get("Chemistry")),
    )
}

} // verus!
