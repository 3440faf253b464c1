//! Records of the management-instrumentation service: each a list of
//! named fields with typed values. The service's own value type is turned
//! into `RecordValue` where the record is read.

use vstd::prelude::*;
use crate::components::{ComponentBus, ComponentDescription, ComponentInfo};
use crate::text::{chars_of, eq_chars, opt_view, trim};

verus! {

/// One field value of a record.
pub enum RecordValue {
    Str(String),
    UI2(u16),
    UI4(u32),
    UI8(u64),
    Bool(bool),
    /// Any other kind of value.
    Other,
}

/// One record: (field name, value) pairs. A record read from the service
/// comes from a map, so its field names are distinct (`wf`).
pub struct Record {
    pub fields: Vec<(String, RecordValue)>,
}

/// No two fields share a name.
pub open spec fn keys_unique(fields: Seq<(String, RecordValue)>) -> bool {
    forall|i: int, j: int| 0 <= i < j < fields.len() ==> (#[trigger] fields[i]).0@ != (#[trigger] fields[j]).0@
}

/// The value of the first field named `key`.
pub open spec fn field(fields: Seq<(String, RecordValue)>, key: Seq<char>) -> Option<RecordValue>
    decreases fields.len(),
{
    if fields.len() == 0 {
        None
    } else if fields[0].0@ == key {
        Some(fields[0].1)
    } else {
        field(fields.drop_first(), key)
    }
}

impl Record {
    /// The record's field names are distinct.
    pub open spec fn wf(&self) -> bool {
        keys_unique(self.fields@)
    }

    /// Builds a record from fields with distinct names; `None` where a name
    /// repeats.
    pub fn new(fields: Vec<(String, RecordValue)>) -> (r: Option<Record>)
        ensures
            match r {
                Some(rec) => rec.fields == fields && rec.wf(),
                None => !keys_unique(fields@),
            },
    {
        let n = fields.len();
        let mut j: usize = 0;
        while j < n
            invariant
                n == fields@.len(),
                j <= n,
                forall|a: int, b: int| 0 <= a < b < j ==> (#[trigger] fields@[a]).0@ != (#[trigger] fields@[b]).0@,
            decreases n - j,
        {
            let kj = chars_of(fields[j].0.as_str());
            let mut i: usize = 0;
            while i < j
                invariant
                    n == fields@.len(),
                    i <= j < n,
                    kj@ == fields@[j as int].0@,
                    forall|a: int, b: int| 0 <= a < b < j ==> (#[trigger] fields@[a]).0@ != (#[trigger] fields@[b]).0@,
                    forall|a: int| 0 <= a < i ==> (#[trigger] fields@[a]).0@ != fields@[j as int].0@,
                decreases j - i,
            {
                let ki = chars_of(fields[i].0.as_str());
                if eq_chars(&ki, &kj) {
                    assert(fields@[i as int].0@ == fields@[j as int].0@);
                    return None;
                }
                i += 1;
            }
            j += 1;
        }
        Some(Record { fields })
    }

    /// The value of the first field named `key`.
    pub fn get(&self, key: &str) -> (r: Option<&RecordValue>)
        ensures
            match field(self.fields@, key@) {
                Some(v) => r is Some && *r->0 == v,
                None => r is None,
            },
    {
        let k = chars_of(key);
        let mut i: usize = 0;
        assert(self.fields@.subrange(0, self.fields@.len() as int) =~= self.fields@);
        while i < self.fields.len()
            invariant
                i <= self.fields@.len(),
                k@ == key@,
                field(self.fields@, key@) == field(self.fields@.subrange(i as int, self.fields@.len() as int), key@),
            decreases self.fields@.len() - i,
        {
            let ghost rest = self.fields@.subrange(i as int, self.fields@.len() as int);
            assert(rest[0] == self.fields@[i as int]);
            let name = chars_of(self.fields[i].0.as_str());
            if eq_chars(&name, &k) {
                return Some(&self.fields[i].1);
            }
            assert(rest.drop_first() =~= self.fields@.subrange(i + 1, self.fields@.len() as int));
            i += 1;
        }
        None
    }
}

/// The string a value holds.
pub open spec fn string_of_value(v: Option<RecordValue>) -> Option<Seq<char>> {
    match v {
        Some(RecordValue::Str(s)) => Some(s@),
        _ => None,
    }
}

/// The string a value holds, if it is one.
pub fn string_from_variant(v: Option<&RecordValue>) -> (r: Option<String>)
    ensures
        opt_view(r) == string_of_value(match v { Some(x) => Some(*x), None => None }),
{
    match v {
        Some(RecordValue::Str(s)) => Some(s.clone()),
        _ => None,
    }
}

/// The 32-bit number a value holds: a 32-bit value as it is, a 64-bit
/// value kept to its low 32 bits, a 16-bit value widened.
pub open spec fn u32_of_value(v: Option<RecordValue>) -> Option<u32> {
    match v {
        Some(RecordValue::UI4(u)) => Some(u),
        Some(RecordValue::UI8(u)) => Some(u as u32),
        Some(RecordValue::UI2(u)) => Some(u as u32),
        _ => None,
    }
}

/// The 32-bit number a value holds, if it holds an unsigned number.
pub fn u32_from_variant(v: Option<&RecordValue>) -> (r: Option<u32>)
    ensures
        r == u32_of_value(match v { Some(x) => Some(*x), None => None }),
{
    match v {
        Some(RecordValue::UI4(u)) => Some(*u),
        Some(RecordValue::UI8(u)) => Some(*u as u32),
        Some(RecordValue::UI2(u)) => Some(*u as u32),
        _ => None,
    }
}

/// The 64-bit number a value holds.
pub fn u64_from_variant(v: Option<&RecordValue>) -> (r: Option<u64>)
    ensures
        r == match v {
            Some(RecordValue::UI8(u)) => Some(*u),
            _ => None,
        },
{
    match v {
        Some(RecordValue::UI8(u)) => Some(*u),
        _ => None,
    }
}

/// The boolean a value holds.
pub fn bool_from_variant(v: Option<&RecordValue>) -> (r: Option<bool>)
    ensures
        r == match v {
            Some(RecordValue::Bool(b)) => Some(*b),
            _ => None,
        },
{
    match v {
        Some(RecordValue::Bool(b)) => Some(*b),
        _ => None,
    }
}

// ----- plug-and-play listings -----

/// The upper-case form that `str::to_uppercase` gives of a text.
pub uninterp spec fn upper_of(s: Seq<char>) -> Seq<char>;

/// Relies on `str::to_uppercase`: the Unicode upper-case mapping, which
/// depends on the text alone.
#[verifier::external_body]
fn to_uppercase(s: &str) -> (r: String)
    ensures
        r@ == upper_of(s@),
{
    s.to_uppercase()
}

/// `s` begins with `p`.
pub open spec fn starts_with(s: Seq<char>, p: Seq<char>) -> bool {
    p.len() <= s.len() && s.subrange(0, p.len() as int) == p
}

fn starts_with_exec(s: &Vec<char>, p: &Vec<char>) -> (r: bool)
    ensures
        r == starts_with(s@, p@),
{
    if p.len() > s.len() {
        return false;
    }
    let mut i: usize = 0;
    while i < p.len()
        invariant
            p@.len() <= s@.len(),
            i <= p@.len(),
            forall|k: int| 0 <= k < i ==> s@[k] == p@[k],
        decreases p@.len() - i,
    {
        if s[i] != p[i] {
            assert(s@.subrange(0, p@.len() as int)[i as int] != p@[i as int]);
            return false;
        }
        i += 1;
    }
    assert(s@.subrange(0, p@.len() as int) =~= p@);
    true
}

/// A record is listed under a device-identifier prefix where its
/// `DeviceID`, trimmed and upper-cased, begins with the prefix.
pub open spec fn listed(rec: Record, prefix: Seq<char>) -> bool {
    match string_of_value(field(rec.fields@, "DeviceID"@)) {
        Some(did) => starts_with(upper_of(trim(did)), prefix),
        None => false,
    }
}

/// The bus a device-identifier prefix stands for.
pub open spec fn bus_of_prefix(prefix: Seq<char>) -> ComponentBus {
    if prefix == "USB"@ {
        ComponentBus::Usb
    } else if prefix == "PCI"@ {
        ComponentBus::Pci
    } else {
        ComponentBus::Sys
    }
}

/// The component a listed record gives: its `Name`, `PNPClass` and
/// `Manufacturer`, on the prefix's bus.
pub open spec fn pnp_component(rec: Record, prefix: Seq<char>, c: ComponentInfo) -> bool {
    &&& c.bus == bus_of_prefix(prefix)
    &&& opt_view(c.id) == string_of_value(field(rec.fields@, "Name"@))
    &&& opt_view(c.class) == string_of_value(field(rec.fields@, "PNPClass"@))
    &&& opt_view(c.vendor_id) == string_of_value(field(rec.fields@, "Manufacturer"@))
    &&& c.status is None
    &&& c.desc is NoDescription
}

/// The records of `recs` listed under `prefix`, in order.
pub open spec fn listed_records(recs: Seq<Record>, prefix: Seq<char>) -> Seq<Record>
    decreases recs.len(),
{
    if recs.len() == 0 {
        seq![]
    } else if listed(recs.last(), prefix) {
        listed_records(recs.drop_last(), prefix).push(recs.last())
    } else {
        listed_records(recs.drop_last(), prefix)
    }
}

fn listed_exec(rec: &Record, prefix: &Vec<char>) -> (r: bool)
    ensures
        r == listed(*rec, prefix@),
{
    match string_from_variant(rec.get("DeviceID")) {
        Some(did) => {
            let t = crate::text::trim_string(did.as_str());
            let u = to_uppercase(t.as_str());
            let uc = chars_of(u.as_str());
            starts_with_exec(&uc, prefix)
        },
        None => false,
    }
}

/// Keeps the plug-and-play records whose device identifier begins with
/// `prefix` (such as `USB` or `PCI`) and makes a component of each.
pub fn pnp_filter_did_prefix(recs: &Vec<Record>, prefix: &str) -> (r: Vec<ComponentInfo>)
    ensures
        r@.len() == listed_records(recs@, prefix@).len(),
        forall|i: int| 0 <= i < r@.len() ==> pnp_component(listed_records(recs@, prefix@)[i], prefix@, #[trigger] r@[i]),
{
    let p = chars_of(prefix);
    let bus_usb = chars_of("USB");
    let bus_pci = chars_of("PCI");
    let mut r: Vec<ComponentInfo> = Vec::new();
    let mut i: usize = 0;
    while i < recs.len()
        invariant
            i <= recs@.len(),
            p@ == prefix@,
            bus_usb@ == "USB"@,
            bus_pci@ == "PCI"@,
            r@.len() == listed_records(recs@.subrange(0, i as int), prefix@).len(),
            forall|k: int| 0 <= k < r@.len() ==> pnp_component(listed_records(recs@.subrange(0, i as int), prefix@)[k], prefix@, #[trigger] r@[k]),
        decreases recs@.len() - i,
    {
        let ghost pre = listed_records(recs@.subrange(0, i as int), prefix@);
        assert(recs@.subrange(0, i + 1).drop_last() =~= recs@.subrange(0, i as int));
        assert(recs@.subrange(0, i + 1).last() == recs@[i as int]);
        let rec = &recs[i];
        if listed_exec(rec, &p) {
            let bus = if eq_chars(&p, &bus_usb) {
                ComponentBus::Usb
            } else if eq_chars(&p, &bus_pci) {
                ComponentBus::Pci
            } else {
                ComponentBus::Sys
            };
            let c = ComponentInfo::new(
                bus,
                string_from_variant(rec.get("Name")),
                string_from_variant(rec.get("PNPClass")),
                string_from_variant(rec.get("Manufacturer")),
                None,
                ComponentDescription::NoDescription,
            );
            r.push(c);
            let ghost now = listed_records(recs@.subrange(0, i + 1), prefix@);
            assert(now == pre.push(recs@[i as int]));
            assert forall|k: int| 0 <= k < r@.len() implies pnp_component(now[k], prefix@, #[trigger] r@[k]) by {
                if k < r@.len() - 1 {
                    assert(now[k] == pre[k]);
                }
            }
        }
        i += 1;
    }
    assert(recs@.subrange(0, recs@.len() as int) =~= recs@);
    r
}

} // verus!
