//! Memory probe.

use vstd::prelude::*;
use crate::components::{ComponentBus, ComponentDescription, ComponentInfo};
use crate::record::{bool_from_variant, field, string_from_variant, string_of_value, u32_from_variant, u32_of_value, u64_from_variant, Record, RecordValue};
use crate::text::opt_view;

verus! {

/// Whether or not a component is removable.
#[derive(Clone, Copy, Debug, PartialEq, Eq, Structural)]
pub enum Removability {
    /// The component can be taken out without damaging the hardware.
    Removable,
    /// The component is not known to be removable.
    NonRemovable,
}

/// The system memory, or one memory module.
#[derive(Clone, Copy, Debug, PartialEq, Eq, Structural)]
pub struct RamDescription {
    /// The total amount of physical memory, in bytes.
    pub total_phsyical_memory: Option<u64>,
    /// The configured clock speed, in MHz.
    pub configured_clock_speed: Option<u32>,
    /// The configured voltage, in mV.
    pub configured_voltage: Option<u32>,
    /// Whether or not the module is removable.
    pub removable: Option<Removability>,
}

/// The system memory as one component, from the total physical memory in
/// bytes.
pub fn ram(total_memory: u64) -> (r: Vec<ComponentInfo>)
    ensures
        r@.len() == 1,
        r@[0].bus == ComponentBus::Sys,
        r@[0].id is None && r@[0].class is None && r@[0].vendor_id is None && r@[0].status is None,
        r@[0].desc == ComponentDescription::RamDescription(RamDescription {
            total_phsyical_memory: Some(total_memory),
            configured_clock_speed: None,
            configured_voltage: None,
            removable: None,
        }),
{
    let mut r: Vec<ComponentInfo> = Vec::new();
    r.push(ComponentInfo::new(
        ComponentBus::Sys,
        None,
        None,
        None,
        None,
        ComponentDescription::RamDescription(RamDescription {
            total_phsyical_memory: Some(total_memory),
            configured_clock_speed: None,
            configured_voltage: None,
            removable: None,
        }),
    ));
    r
}

/// The removability a record's flag gives.
pub open spec fn removability_of(v: Option<RecordValue>) -> Option<Removability> {
    match v {
        Some(RecordValue::Bool(true)) => Some(Removability::Removable),
        Some(RecordValue::Bool(false)) => Some(Removability::NonRemovable),
        _ => None,
    }
}

/// Builds the component for one memory module from its record.
pub fn module_from_record(rec: &Record) -> (c: ComponentInfo)
    ensures
        c.bus == ComponentBus::Sys,
        opt_view(c.id) == string_of_value(field(rec.fields@, "Name"@)),
        c.class is None,
        opt_view(c.vendor_id) == string_of_value(field(rec.fields@, "Manufacturer"@)),
        c.status is None,
        c.desc == ComponentDescription::RamDescription(RamDescription {
            total_phsyical_memory: match field(rec.fields@, "Capacity"@) {
                Some(RecordValue::UI8(u)) => Some(u),
                _ => None,
            },
            configured_clock_speed: u32_of_value(field(rec.fields@, "ConfiguredClockSpeed"@)),
            configured_voltage: u32_of_value(field(rec.fields@, "ConfiguredVoltage"@)),
            removable: removability_of(field(rec.fields@, "Removable"@)),
        }),
{
    let removable = match bool_from_variant(rec.get("Removable")) {
        Some(true) => Some(Removability::Removable),
        Some(false) => Some(Removability::NonRemovable),
        None => None,
    };
    ComponentInfo::new(
        ComponentBus::Sys,
        string_from_variant(rec.get("Name")),
        None,
        string_from_variant(rec.get("Manufacturer")),
        None,
        ComponentDescription::RamDescription(RamDescription {
            total_phsyical_memory: u64_from_variant(rec.get("Capacity")),
            configured_clock_speed: u32_from_variant(rec.get("ConfiguredClockSpeed")),
            configured_voltage: u32_from_variant(rec.get("ConfiguredVoltage")),
            removable,
        }),
    )
}

} // verus!
