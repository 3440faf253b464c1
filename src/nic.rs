//! Network interface probe.

use vstd::prelude::*;
use crate::components::{ComponentBus, ComponentDescription, ComponentInfo};
use crate::gpu::{resolved_identity, PciCodes};
use crate::ids::{convert_to_pci_class, convert_to_pci_names};
use crate::record::{bool_from_variant, string_from_variant, string_of_value, field, Record, RecordValue};
use crate::text::opt_view;

verus! {

/// A description for a network card or similar device.
#[derive(Clone, Copy, Debug, PartialEq, Eq, Structural)]
pub struct NicDescription {
    /// The known maximum speed of the card, in Mbps.
    pub max_speed: Option<u32>,
    /// The maximum transfer unit of the interface.
    pub mtu: Option<u32>,
}

/// Builds the component for a network interface from its device's PCI
/// codes and its `speed` (Mbps) and `mtu` readings.
pub fn one(codes: PciCodes, speed: Option<u32>, mtu: Option<u32>) -> (c: ComponentInfo)
    ensures
        c.bus == ComponentBus::Unknown,
        c.status is None,
        resolved_identity(codes, c),
        c.desc == ComponentDescription::NicDescription(NicDescription { max_speed: speed, mtu }),
{
    let class = convert_to_pci_class(codes.class);
    let (name, vendor) = convert_to_pci_names(codes.device, codes.vendor);
    ComponentInfo::new(
        ComponentBus::Unknown,
        name,
        class,
        vendor,
        None,
        ComponentDescription::NicDescription(NicDescription { max_speed: speed, mtu }),
    )
}

/// A link speed in Mbps from one in bits per second, where it fits in 32
/// bits.
pub open spec fn mbps_of(bits: Option<u64>) -> Option<u32> {
    match bits {
        Some(b) => if b / 1_000_000 <= u32::MAX {
            Some((b / 1_000_000) as u32)
        } else {
            None
        },
        None => None,
    }
}

/// The component a network adapter record gives: only adapters flagged
/// physical are reported; their `MaxSpeed` (bits/s) becomes Mbps.
pub open spec fn adapter_spec(rec: Record, r: Option<ComponentInfo>) -> bool {
    match field(rec.fields@, "PhysicalAdapter"@) {
        Some(RecordValue::Bool(true)) => r is Some && {
            let c = r->0;
            &&& c.bus == ComponentBus::Unknown
            &&& opt_view(c.id) == string_of_value(field(rec.fields@, "Name"@))
            &&& c.class is None
            &&& opt_view(c.vendor_id) == string_of_value(field(rec.fields@, "Manufacturer"@))
            &&& c.status is None
            &&& c.desc == ComponentDescription::NicDescription(NicDescription {
                max_speed: mbps_of(match field(rec.fields@, "MaxSpeed"@) {
                    Some(RecordValue::UI8(b)) => Some(b),
                    _ => None,
                }),
                mtu: None,
            })
        },
        _ => r is None,
    }
}

/// Reads one network adapter record. Adapters not flagged physical, or
/// without the flag, are left out entirely.
pub fn adapter_from_record(rec: &Record) -> (r: Option<ComponentInfo>)
    ensures
        adapter_spec(*rec, r),
        !(field(rec.fields@, "PhysicalAdapter"@) matches Some(RecordValue::Bool(true))) ==> r is None,
{
    let name = string_from_variant(rec.get("Name"));
    let vendor = string_from_variant(rec.get("Manufacturer"));
    let is_real = match bool_from_variant(rec.get("PhysicalAdapter")) {
        Some(b) => b,
        None => return None,
    };
    if !is_real {
        return None;
    }
    let max_speed = match crate::record::u64_from_variant(rec.get("MaxSpeed")) {
        Some(bits) => {
            let mbps = bits / 1_000_000;
            if mbps <= u32::MAX as u64 {
                Some(mbps as u32)
            } else {
                None
            }
        },
        None => None,
    };
    Some(ComponentInfo::new(
        ComponentBus::Unknown,
        name,
        None,
        vendor,
        None,
        ComponentDescription::NicDescription(NicDescription { max_speed, mtu: None }),
    ))
}

/// The adapters of `recs` that are reported, in order.
pub open spec fn reported(recs: Seq<Record>) -> Seq<Record>
    decreases recs.len(),
{
    if recs.len() == 0 {
        seq![]
    } else if field(recs.last().fields@, "PhysicalAdapter"@) matches Some(RecordValue::Bool(true)) {
        reported(recs.drop_last()).push(recs.last())
    } else {
        reported(recs.drop_last())
    }
}

/// Reads every network adapter record, keeping only physical adapters.
pub fn adapters_from_records(recs: &Vec<Record>) -> (r: Vec<ComponentInfo>)
    ensures
        r@.len() == reported(recs@).len(),
        forall|i: int| 0 <= i < r@.len() ==> adapter_spec(reported(recs@)[i], Some(#[trigger] r@[i])),
{
    let mut r: Vec<ComponentInfo> = Vec::new();
    let mut i: usize = 0;
    while i < recs.len()
        invariant
            i <= recs@.len(),
            r@.len() == reported(recs@.subrange(0, i as int)).len(),
            forall|k: int| 0 <= k < r@.len() ==> adapter_spec(reported(recs@.subrange(0, i as int))[k], Some(#[trigger] r@[k])),
        decreases recs@.len() - i,
    {
        let ghost pre = reported(recs@.subrange(0, i as int));
        assert(recs@.subrange(0, i + 1).drop_last() =~= recs@.subrange(0, i as int));
        assert(recs@.subrange(0, i + 1).last() == recs@[i as int]);
        match adapter_from_record(&recs[i]) {
            Some(c) => {
                r.push(c);
                let ghost now = reported(recs@.subrange(0, i + 1));
                assert(now == pre.push(recs@[i as int]));
                assert forall|k: int| 0 <= k < r@.len() implies adapter_spec(now[k], Some(#[trigger] r@[k])) by {
                    if k < r@.len() - 1 {
                        assert(now[k] == pre[k]);
                    }
                }
            },
            None => {},
        }
        i += 1;
    }
    assert(recs@.subrange(0, recs@.len() as int) =~= recs@);
    r
}

/// An adapter record not flagged physical (flag false, missing, or not a
/// boolean) is excluded entirely, whatever its other fields hold.
pub proof fn lemma_non_physical_excluded(rec: Record, r: Option<ComponentInfo>)
    requires
        adapter_spec(rec, r),
        !(field(rec.fields@, "PhysicalAdapter"@) matches Some(RecordValue::Bool(true))),
    ensures
        r is None,
{
}

/// Every adapter that is reported comes from a record flagged physical,
/// and every record flagged physical is reported.
pub proof fn lemma_reported_are_physical(recs: Seq<Record>)
    ensures
        forall|i: int| 0 <= i < reported(recs).len() ==> (field(
            (#[trigger] reported(recs)[i]).fields@,
            "PhysicalAdapter"@,
        ) matches Some(RecordValue::Bool(true))),
        forall|i: int| 0 <= i < recs.len() && (field((#[trigger] recs[i]).fields@, "PhysicalAdapter"@) matches Some(RecordValue::Bool(true))) ==> reported(recs).contains(recs[i]),
    decreases recs.len(),
{
    if recs.len() > 0 {
        let pre = recs.drop_last();
        lemma_reported_are_physical(pre);
        assert forall|i: int| 0 <= i < recs.len() && (field((#[trigger] recs[i]).fields@, "PhysicalAdapter"@) matches Some(RecordValue::Bool(true))) implies reported(recs).contains(recs[i]) by {
            if i < recs.len() - 1 {
                assert(recs[i] == pre[i]);
                let k = choose|k: int| 0 <= k < reported(pre).len() && reported(pre)[k] == pre[i];
                assert(reported(recs)[k] == reported(pre)[k]);
            } else {
                assert(reported(recs)[reported(recs).len() - 1] == recs[i]);
            }
        }
    }
}

} // verus!
