//! The report orchestrator: collects every category's components, drops
//! blank ones, and assembles the snapshot.

use vstd::prelude::*;
use crate::components::{blank, drop_blank, non_blank, ComponentDescription, ComponentInfo};
use crate::error::{GhrError, GhrResult};
use crate::machine::MachineInfo;
use crate::os::OperatingSystemInfo;
use crate::sleep::SystemConfInfo;

verus! {

/// A snapshot of a computer's hardware and operating system.
#[derive(Clone, Debug, PartialEq)]
pub struct Report {
    pub os: OperatingSystemInfo,
    pub machine: MachineInfo,
    /// Every hardware component found; none of them blank.
    pub components: Vec<ComponentInfo>,
    /// System configuration facts.
    pub sys_conf: SystemConfInfo,
}

/// The components of the categories that enumerated, concatenated; a
/// category that failed contributes none.
pub open spec fn collected(cats: Seq<GhrResult<Vec<ComponentInfo>>>) -> Seq<ComponentInfo>
    decreases cats.len(),
{
    if cats.len() == 0 {
        seq![]
    } else {
        match cats[0] {
            Ok(v) => v@ + collected(cats.drop_first()),
            Err(_) => collected(cats.drop_first()),
        }
    }
}

/// Flattens the categories' results into one list of components: a failed
/// category contributes nothing, and blank components are dropped.
pub fn get_components(categories: Vec<GhrResult<Vec<ComponentInfo>>>) -> (r: Vec<ComponentInfo>)
    ensures
        r@ == non_blank(collected(categories@)),
{
    let mut rest = categories;
    let mut all: Vec<ComponentInfo> = Vec::new();
    while rest.len() > 0
        invariant
            all@ + collected(rest@) == collected(categories@),
        decreases rest@.len(),
    {
        let ghost before = rest@;
        let cat = rest.remove(0);
        assert(rest@ =~= before.drop_first());
        match cat {
            Ok(mut v) => {
                let ghost vv = v@;
                let ghost a = all@;
                all.append(&mut v);
                assert(all@ + collected(rest@) =~= a + (vv + collected(rest@)));
            },
            Err(_) => {},
        }
    }
    assert(all@ + collected(rest@) =~= all@);
    drop_blank(all)
}

/// What assembling a report gives: the operating-system failure if there
/// is one, else the machine-identity failure if there is one, else a
/// report of those facts and the non-blank components of the categories
/// that enumerated.
pub open spec fn assembled(
    os: GhrResult<OperatingSystemInfo>,
    machine: GhrResult<MachineInfo>,
    categories: Seq<GhrResult<Vec<ComponentInfo>>>,
    sys_conf: SystemConfInfo,
    r: GhrResult<Report>,
) -> bool {
    match os {
        Err(e) => r == Err::<Report, GhrError>(e),
        Ok(o) => match machine {
            Err(e) => r == Err::<Report, GhrError>(e),
            Ok(m) => r is Ok && r->Ok_0.os == o && r->Ok_0.machine == m && r->Ok_0.sys_conf
                == sys_conf && r->Ok_0.components@ == non_blank(collected(categories)),
        },
    }
}

impl Report {
    /// Assembles a report from the outcomes of the operating-system probe,
    /// the machine-identity derivation and every category probe. The first
    /// two are mandatory: their failure is the report's failure. A failed
    /// category contributes no components.
    pub fn new(
        os: GhrResult<OperatingSystemInfo>,
        machine: GhrResult<MachineInfo>,
        categories: Vec<GhrResult<Vec<ComponentInfo>>>,
        sys_conf: SystemConfInfo,
    ) -> (r: GhrResult<Report>)
        ensures
            assembled(os, machine, categories@, sys_conf, r),
    {
        let os = match os {
            Ok(o) => o,
            Err(e) => return Err(e),
        };
        let machine = match machine {
            Ok(m) => m,
            Err(e) => return Err(e),
        };
        let components = get_components(categories);
        Ok(Report { os, machine, components, sys_conf })
    }

    /// The components whose description is of the kind `kind` picks.
    fn of_kind(&self, kind: u8) -> (r: Vec<&ComponentInfo>)
        ensures
            r@.len() == of_kind_spec(self.components@, kind).len(),
            forall|i: int| 0 <= i < r@.len() ==> *(#[trigger] r@[i]) == of_kind_spec(self.components@, kind)[i],
    {
        let mut r: Vec<&ComponentInfo> = Vec::new();
        let mut i: usize = 0;
        while i < self.components.len()
            invariant
                i <= self.components@.len(),
                r@.len() == of_kind_spec(self.components@.subrange(0, i as int), kind).len(),
                forall|k: int| 0 <= k < r@.len() ==> *(#[trigger] r@[k]) == of_kind_spec(self.components@.subrange(0, i as int), kind)[k],
            decreases self.components@.len() - i,
        {
            let ghost pre = of_kind_spec(self.components@.subrange(0, i as int), kind);
            assert(self.components@.subrange(0, i + 1).drop_last() =~= self.components@.subrange(0, i as int));
            assert(self.components@.subrange(0, i + 1).last() == self.components@[i as int]);
            let c = &self.components[i];
            let hit = match &c.desc {
                ComponentDescription::CpuDescription(_) => kind == 0,
                ComponentDescription::RamDescription(_) => kind == 1,
                ComponentDescription::GpuDescription(_) => kind == 2,
                ComponentDescription::PowerSupplyDescription(_) => kind == 3,
                ComponentDescription::StorageDescription(_) => kind == 4,
                _ => false,
            };
            if hit {
                r.push(c);
                let ghost now = of_kind_spec(self.components@.subrange(0, i + 1), kind);
                assert forall|k: int| 0 <= k < r@.len() implies *(#[trigger] r@[k]) == now[k] by {
                    if k < r@.len() - 1 {
                        assert(now[k] == pre[k]);
                    }
                }
            }
            i += 1;
        }
        assert(self.components@.subrange(0, self.components@.len() as int) =~= self.components@);
        r
    }

    /// The processors of this report.
    pub fn cpus(&self) -> (r: Vec<&ComponentInfo>)
        ensures
            r@.len() == of_kind_spec(self.components@, 0).len(),
            forall|i: int| 0 <= i < r@.len() ==> *(#[trigger] r@[i]) == of_kind_spec(self.components@, 0)[i],
    {
        self.of_kind(0)
    }

    /// The memory of this report.
    pub fn memory(&self) -> (r: Vec<&ComponentInfo>)
        ensures
            r@.len() == of_kind_spec(self.components@, 1).len(),
            forall|i: int| 0 <= i < r@.len() ==> *(#[trigger] r@[i]) == of_kind_spec(self.components@, 1)[i],
    {
        self.of_kind(1)
    }

    /// The GPUs of this report.
    pub fn gpus(&self) -> (r: Vec<&ComponentInfo>)
        ensures
            r@.len() == of_kind_spec(self.components@, 2).len(),
            forall|i: int| 0 <= i < r@.len() ==> *(#[trigger] r@[i]) == of_kind_spec(self.components@, 2)[i],
    {
        self.of_kind(2)
    }

    /// The power supplies of this report.
    pub fn psus(&self) -> (r: Vec<&ComponentInfo>)
        ensures
            r@.len() == of_kind_spec(self.components@, 3).len(),
            forall|i: int| 0 <= i < r@.len() ==> *(#[trigger] r@[i]) == of_kind_spec(self.components@, 3)[i],
    {
        self.of_kind(3)
    }

    /// The storage devices of this report.
    pub fn storage(&self) -> (r: Vec<&ComponentInfo>)
        ensures
            r@.len() == of_kind_spec(self.components@, 4).len(),
            forall|i: int| 0 <= i < r@.len() ==> *(#[trigger] r@[i]) == of_kind_spec(self.components@, 4)[i],
    {
        self.of_kind(4)
    }
}

/// A component's description is of kind `kind`: 0 processor, 1 memory,
/// 2 GPU, 3 power supply, 4 storage.
pub open spec fn is_kind(c: ComponentInfo, kind: u8) -> bool {
    match c.desc {
        ComponentDescription::CpuDescription(_) => kind == 0,
        ComponentDescription::RamDescription(_) => kind == 1,
        ComponentDescription::GpuDescription(_) => kind == 2,
        ComponentDescription::PowerSupplyDescription(_) => kind == 3,
        ComponentDescription::StorageDescription(_) => kind == 4,
        _ => false,
    }
}

/// The components of `s` of kind `kind`, in order.
pub open spec fn of_kind_spec(s: Seq<ComponentInfo>, kind: u8) -> Seq<ComponentInfo>
    decreases s.len(),
{
    if s.len() == 0 {
        seq![]
    } else if is_kind(s.last(), kind) {
        of_kind_spec(s.drop_last(), kind).push(s.last())
    } else {
        of_kind_spec(s.drop_last(), kind)
    }
}

/// A report is never assembled without its mandatory facts: where the
/// operating-system probe fails, assembly fails with that very error and
/// no report comes back, whatever the other inputs.
pub proof fn lemma_os_failure_is_fatal(
    e: GhrError,
    machine: GhrResult<MachineInfo>,
    categories: Seq<GhrResult<Vec<ComponentInfo>>>,
    sys_conf: SystemConfInfo,
    r: GhrResult<Report>,
)
    requires
        assembled(Err(e), machine, categories, sys_conf, r),
    ensures
        r is Err,
        r->Err_0 == e,
{
}

/// No assembled report holds a blank component, and filtering its
/// components again changes nothing.
pub proof fn lemma_report_has_no_blank(
    os: GhrResult<OperatingSystemInfo>,
    machine: GhrResult<MachineInfo>,
    categories: Seq<GhrResult<Vec<ComponentInfo>>>,
    sys_conf: SystemConfInfo,
    r: GhrResult<Report>,
)
    requires
        assembled(os, machine, categories, sys_conf, r),
        r is Ok,
    ensures
        forall|i: int| 0 <= i < r->Ok_0.components@.len() ==> !blank(#[trigger] r->Ok_0.components@[i]),
        non_blank(r->Ok_0.components@) == r->Ok_0.components@,
{
    crate::components::lemma_blank_filter_idempotent(collected(categories));
}

} // verus!
