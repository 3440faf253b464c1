//! The component model shared by every probe, and the filter that keeps
//! blank entries out of a report.

use vstd::prelude::*;
use crate::cpu::CpuDescription;
use crate::gpu::GpuDescription;
use crate::nic::NicDescription;
use crate::psu::PowerSupplyDescription;
use crate::ram::RamDescription;
use crate::storage::StorageDescription;
use crate::text::{copy_opt, opt_view};

verus! {

/// The bus a component is on.
#[derive(Clone, Debug, PartialEq)]
pub enum ComponentBus {
    Pci,
    Pcie,
    Usb,
    Sys,
    Ps2,
    Serial,
    Eisa,
    Fpci,
    Agp,
    Nvme,
    Scsi,
    Ide,
    Other(String),
    Unknown,
}

/// Health information about a component; no field is collected yet.
#[derive(Clone, Copy, Debug, PartialEq, Eq, Structural)]
pub struct ComponentStatus {}

/// The category-specific description of a component.
#[derive(Clone, Debug, PartialEq)]
pub enum ComponentDescription {
    CpuDescription(CpuDescription),
    RamDescription(RamDescription),
    GpuDescription(GpuDescription),
    PowerSupplyDescription(PowerSupplyDescription),
    StorageDescription(StorageDescription),
    NicDescription(NicDescription),
    /// No description is available for this device.
    NoDescription,
}

/// A representation of any single component in the machine.
#[derive(Clone, Debug, PartialEq)]
pub struct ComponentInfo {
    /// The bus this component is on.
    pub bus: ComponentBus,
    /// A display name for the device.
    pub id: Option<String>,
    /// What kind of device this is.
    pub class: Option<String>,
    /// The device's vendor name.
    pub vendor_id: Option<String>,
    /// Status information about the component.
    pub status: Option<ComponentStatus>,
    /// The category-specific description.
    pub desc: ComponentDescription,
}

/// A component carries nothing: no name, class, vendor or status, and no
/// description.
pub open spec fn blank(c: ComponentInfo) -> bool {
    c.id is None && c.class is None && c.vendor_id is None && c.status is None && c.desc is NoDescription
}

impl ComponentInfo {
    /// Builds a component from its parts.
    pub fn new(
        bus: ComponentBus,
        id: Option<String>,
        class: Option<String>,
        vendor_id: Option<String>,
        status: Option<ComponentStatus>,
        desc: ComponentDescription,
    ) -> (r: ComponentInfo)
        ensures
            r.bus == bus,
            r.id == id,
            r.class == class,
            r.vendor_id == vendor_id,
            r.status == status,
            r.desc == desc,
    {
        ComponentInfo { bus, id, class, vendor_id, status, desc }
    }

    /// Whether the component is blank: it carries no name, class, vendor,
    /// status or description.
    pub fn is_blank(&self) -> (r: bool)
        ensures
            r == blank(*self),
    {
        self.id.is_none() && self.class.is_none() && self.vendor_id.is_none()
            && self.status.is_none() && matches!(self.desc, ComponentDescription::NoDescription)
    }

    /// The bus this component was attached to.
    pub fn bus(&self) -> (r: &ComponentBus)
        ensures
            *r == self.bus,
    {
        &self.bus
    }

    /// The component's name.
    pub fn id(&self) -> (r: Option<String>)
        ensures
            opt_view(r) == opt_view(self.id),
    {
        copy_opt(&self.id)
    }

    /// The component's class.
    pub fn class(&self) -> (r: Option<String>)
        ensures
            opt_view(r) == opt_view(self.class),
    {
        copy_opt(&self.class)
    }

    /// The component's vendor (manufacturer) name.
    pub fn vendor_id(&self) -> (r: Option<String>)
        ensures
            opt_view(r) == opt_view(self.vendor_id),
    {
        copy_opt(&self.vendor_id)
    }

    /// Status information about the component.
    pub fn status(&self) -> (r: Option<ComponentStatus>)
        ensures
            r == self.status,
    {
        self.status
    }

    /// The component's category-specific description.
    pub fn desc(&self) -> (r: &ComponentDescription)
        ensures
            *r == self.desc,
    {
        &self.desc
    }
}

/// The components of `s` that are not blank, in order.
pub open spec fn non_blank(s: Seq<ComponentInfo>) -> Seq<ComponentInfo>
    decreases s.len(),
{
    if s.len() == 0 {
        s
    } else if blank(s[0]) {
        non_blank(s.drop_first())
    } else {
        seq![s[0]].add(non_blank(s.drop_first()))
    }
}

/// Removes every blank component, keeping the others in order.
pub fn drop_blank(components: Vec<ComponentInfo>) -> (r: Vec<ComponentInfo>)
    ensures
        r@ == non_blank(components@),
{
    let mut rest = components;
    let mut out: Vec<ComponentInfo> = Vec::new();
    while rest.len() > 0
        invariant
            out@ + non_blank(rest@) == non_blank(components@),
        decreases rest@.len(),
    {
        let ghost before = rest@;
        let c = rest.remove(0);
        assert(rest@ =~= before.drop_first());
        if !c.is_blank() {
            out.push(c);
            assert(out@ + non_blank(rest@) =~= out@.drop_last() + non_blank(before));
        }
    }
    assert(out@ + non_blank(rest@) =~= out@);
    out
}

/// No component that survives the blank filter is blank.
pub proof fn lemma_non_blank_has_no_blank(s: Seq<ComponentInfo>)
    ensures
        forall|i: int| 0 <= i < non_blank(s).len() ==> !blank(#[trigger] non_blank(s)[i]),
    decreases s.len(),
{
    if s.len() > 0 {
        lemma_non_blank_has_no_blank(s.drop_first());
        let t = non_blank(s.drop_first());
        if !blank(s[0]) {
            assert forall|i: int| 0 <= i < non_blank(s).len() implies !blank(
                #[trigger] non_blank(s)[i],
            ) by {
                if i > 0 {
                    assert(non_blank(s)[i] == t[i - 1]);
                }
            }
        }
    }
}

/// A sequence without blank components passes the filter unchanged.
pub proof fn lemma_non_blank_keeps_clean(s: Seq<ComponentInfo>)
    requires
        forall|i: int| 0 <= i < s.len() ==> !blank(#[trigger] s[i]),
    ensures
        non_blank(s) == s,
    decreases s.len(),
{
    if s.len() > 0 {
        assert forall|i: int| 0 <= i < s.drop_first().len() implies !blank(
            #[trigger] s.drop_first()[i],
        ) by {
            assert(s.drop_first()[i] == s[i + 1]);
        }
        lemma_non_blank_keeps_clean(s.drop_first());
        assert(seq![s[0]].add(s.drop_first()) =~= s);
    }
}

/// Blank filtering is idempotent: filtering twice gives what filtering once
/// gives, and nothing blank is left after it.
pub proof fn lemma_blank_filter_idempotent(s: Seq<ComponentInfo>)
    ensures
        non_blank(non_blank(s)) == non_blank(s),
        forall|i: int| 0 <= i < non_blank(s).len() ==> !blank(#[trigger] non_blank(s)[i]),
{
    lemma_non_blank_has_no_blank(s);
    lemma_non_blank_keeps_clean(non_blank(s));
}

} // verus!
