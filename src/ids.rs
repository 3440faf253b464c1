//! Identifier resolution: numeric vendor, device and class codes become
//! human-readable names through the bundled PCI and USB ID databases, and
//! pass through unchanged when they cannot be resolved.

use vstd::prelude::*;
use crate::text::{
    chars_of, opt_view, parse_unsigned, parse_unsigned_chars, remove_all,
    remove_all_chars, string_of, string_of_range, trim, trimmed_chars,
};

verus! {

// ----- the outside databases -----

/// The (device name, vendor name) that the PCI ID database gives for a
/// vendor and device code.
pub uninterp spec fn pci_device_names(vid: u16, pid: u16) -> Option<(Seq<char>, Seq<char>)>;

/// The (class name, subclass name) that the PCI ID database gives for a
/// class and subclass code.
pub uninterp spec fn pci_subclass_names(cid: u8, sid: u8) -> Option<(Seq<char>, Seq<char>)>;

/// The (vendor name, device name) that the USB ID database gives for a
/// vendor and product code.
pub uninterp spec fn usb_device_names(vid: u16, pid: u16) -> Option<(Seq<char>, Seq<char>)>;

/// The (class name, subclass name) that the USB ID database gives for a
/// class and subclass code.
pub uninterp spec fn usb_subclass_names(cid: u8, sid: u8) -> Option<(Seq<char>, Seq<char>)>;

/// Relies on `pci_ids::Device::from_vid_pid`: looks a device up in the
/// bundled PCI database; the result depends on the codes alone.
#[verifier::external_body]
fn lookup_pci_device(vid: u16, pid: u16) -> (r: Option<(String, String)>)
    ensures
        match r {
            Some((d, v)) => pci_device_names(vid, pid) == Some((d@, v@)),
            None => pci_device_names(vid, pid) is None,
        },
{
    pci_ids::Device::from_vid_pid(vid, pid).map(
        |d| (d.name().to_string(), d.vendor().name().to_string()),
    )
}

/// Relies on `pci_ids::Subclass::from_cid_sid`: looks a class up in the
/// bundled PCI database; the result depends on the codes alone.
#[verifier::external_body]
fn lookup_pci_subclass(cid: u8, sid: u8) -> (r: Option<(String, String)>)
    ensures
        match r {
            Some((c, s)) => pci_subclass_names(cid, sid) == Some((c@, s@)),
            None => pci_subclass_names(cid, sid) is None,
        },
{
    pci_ids::Subclass::from_cid_sid(cid, sid).map(
        |s| (s.class().name().to_string(), s.name().to_string()),
    )
}

/// Relies on `usb_ids::Device::from_vid_pid`: looks a device up in the
/// bundled USB database; the result depends on the codes alone.
#[verifier::external_body]
fn lookup_usb_device(vid: u16, pid: u16) -> (r: Option<(String, String)>)
    ensures
        match r {
            Some((v, d)) => usb_device_names(vid, pid) == Some((v@, d@)),
            None => usb_device_names(vid, pid) is None,
        },
{
    usb_ids::Device::from_vid_pid(vid, pid).map(
        |d| (d.vendor().name().to_string(), d.name().to_string()),
    )
}

/// Relies on `usb_ids::SubClass::from_cid_scid`: looks a class up in the
/// bundled USB database; the result depends on the codes alone.
#[verifier::external_body]
fn lookup_usb_subclass(cid: u8, sid: u8) -> (r: Option<(String, String)>)
    ensures
        match r {
            Some((c, s)) => usb_subclass_names(cid, sid) == Some((c@, s@)),
            None => usb_subclass_names(cid, sid) is None,
        },
{
    usb_ids::SubClass::from_cid_scid(cid, sid).map(
        |s| (s.class().name().to_string(), s.name().to_string()),
    )
}

// ----- codes -----

/// The characters `0x`.
pub open spec fn hex_prefix() -> Seq<char> {
    seq!['0', 'x']
}

/// The 16-bit code that `s` writes in hexadecimal, after every `0x` is
/// removed.
pub open spec fn hex_u16(s: Seq<char>) -> Option<int> {
    parse_unsigned(remove_all(s, hex_prefix()), 16, 0xffff)
}

fn hex_u16_exec(s: &String) -> (r: Option<u16>)
    ensures
        match hex_u16(s@) {
            Some(v) => r == Some(v as u16),
            None => r is None,
        },
{
    let cs = chars_of(s.as_str());
    let pat: Vec<char> = vec!['0', 'x'];
    assert(pat@ =~= hex_prefix());
    let digits = remove_all_chars(&cs, &pat);
    match parse_unsigned_chars(&digits, 16, 0xffff) {
        Some(v) => Some(v as u16),
        None => None,
    }
}

/// `a (b)`.
pub open spec fn paren_join(a: Seq<char>, b: Seq<char>) -> Seq<char> {
    a + seq![' ', '('] + b + seq![')']
}

fn paren_join_exec(a: &String, b: &String) -> (r: String)
    ensures
        r@ == paren_join(a@, b@),
{
    let mut cs = chars_of(a.as_str());
    cs.push(' ');
    cs.push('(');
    let bs = chars_of(b.as_str());
    let mut i: usize = 0;
    let ghost start = cs@;
    while i < bs.len()
        invariant
            i <= bs@.len(),
            cs@ == start + bs@.subrange(0, i as int),
        decreases bs@.len() - i,
    {
        cs.push(bs[i]);
        i += 1;
        assert(cs@ =~= start + bs@.subrange(0, i as int));
    }
    cs.push(')');
    assert(cs@ =~= paren_join(a@, b@));
    string_of(&cs)
}

// ----- device names -----

/// What resolving a device gives: the database's (device name, vendor
/// name) where both codes parse and the database knows the pair, and the
/// given strings otherwise.
pub open spec fn resolved_pci_names(id: Option<Seq<char>>, vendor: Option<Seq<char>>) -> (
    Option<Seq<char>>,
    Option<Seq<char>>,
) {
    match (id, vendor) {
        (Some(i), Some(v)) => match (hex_u16(i), hex_u16(v)) {
            (Some(p), Some(q)) => match pci_device_names(q as u16, p as u16) {
                Some((dn, vn)) => (Some(dn), Some(vn)),
                None => (id, vendor),
            },
            _ => (id, vendor),
        },
        _ => (id, vendor),
    }
}

/// Chooses the names a device lookup found, or the given strings where it
/// found nothing.
pub fn apply_names(
    id: Option<String>,
    vendor_id: Option<String>,
    found: Option<(String, String)>,
) -> (r: (Option<String>, Option<String>))
    ensures
        match found {
            Some((d, v)) => opt_view(r.0) == Some(d@) && opt_view(r.1) == Some(v@),
            None => opt_view(r.0) == opt_view(id) && opt_view(r.1) == opt_view(vendor_id),
        },
{
    match found {
        Some((d, v)) => (Some(d), Some(v)),
        None => (id, vendor_id),
    }
}

/// Turns a PCI device code and vendor code (hexadecimal, `0x` allowed)
/// into the device's name and its vendor's name. Where either code is
/// missing or does not parse, or the database lacks the pair, both
/// strings come back unchanged: never a mix of the two.
pub fn convert_to_pci_names(id: Option<String>, vendor_id: Option<String>) -> (r: (
    Option<String>,
    Option<String>,
))
    ensures
        (opt_view(r.0), opt_view(r.1)) == resolved_pci_names(opt_view(id), opt_view(vendor_id)),
        (opt_view(r.0) == opt_view(id) && opt_view(r.1) == opt_view(vendor_id)) || (r.0 is Some
            && r.1 is Some && id is Some && vendor_id is Some),
{
    let codes = match (&id, &vendor_id) {
        (Some(i), Some(v)) => match (hex_u16_exec(i), hex_u16_exec(v)) {
            (Some(pid), Some(vid)) => Some((vid, pid)),
            _ => None,
        },
        _ => None,
    };
    match codes {
        Some((vid, pid)) => {
            let found = lookup_pci_device(vid, pid);
            apply_names(id, vendor_id, found)
        },
        None => (id, vendor_id),
    }
}

/// Device resolution is total and never mixes: it gives both database
/// names, or both given strings unchanged.
pub proof fn lemma_resolution_total(id: Option<Seq<char>>, vendor: Option<Seq<char>>)
    ensures
        resolved_pci_names(id, vendor) == (id, vendor) || (resolved_pci_names(id, vendor).0 is Some
            && resolved_pci_names(id, vendor).1 is Some && exists|v: u16, p: u16|
            #[trigger] pci_device_names(v, p) == Some(
                (resolved_pci_names(id, vendor).0->0, resolved_pci_names(id, vendor).1->0),
            )),
{
    match (id, vendor) {
        (Some(i), Some(v)) => match (hex_u16(i), hex_u16(v)) {
            (Some(p), Some(q)) => {
                let _ = pci_device_names(q as u16, p as u16);
            },
            _ => {},
        },
        _ => {},
    }
}

/// A device's class, vendor and name, resolved from its PCI codes.
pub struct Civ {
    pub class: Option<String>,
    pub vendor: Option<String>,
    pub id: Option<String>,
}

impl Civ {
    /// Resolves a device's class, device and vendor codes.
    pub fn new(class: Option<String>, device: Option<String>, vendor: Option<String>) -> (r: Civ)
        ensures
            opt_view(r.class) == resolved_pci_class(opt_view(class)),
            (opt_view(r.id), opt_view(r.vendor)) == resolved_pci_names(opt_view(device), opt_view(vendor)),
    {
        let class = convert_to_pci_class(class);
        let (id, vendor) = convert_to_pci_names(device, vendor);
        Civ { class, vendor, id }
    }
}

// ----- class names -----

/// The two-character class part and the (at most two-character) subclass
/// part of a PCI class string, after trimming and removing every `0x`.
pub open spec fn class_parts(c: Seq<char>) -> Option<(Seq<char>, Seq<char>)> {
    let s = remove_all(trim(c), hex_prefix());
    if s.len() < 2 {
        None
    } else {
        Some((s.subrange(0, 2), s.subrange(2, if s.len() < 4 { s.len() as int } else { 4 })))
    }
}

/// What resolving a PCI class gives: "Class (Subclass)" where the database
/// knows the pair, the raw pair as "class (subclass)" where it does not,
/// the given string unchanged where the class is too short or does not
/// parse, and nothing where there is no class.
pub open spec fn resolved_pci_class(class: Option<Seq<char>>) -> Option<Seq<char>> {
    match class {
        None => None,
        Some(c) => match class_parts(c) {
            None => Some(c),
            Some((cl, sub)) => match (
                parse_unsigned(cl, 16, 0xff),
                parse_unsigned(sub, 16, 0xff),
            ) {
                (Some(cid), Some(sid)) => match pci_subclass_names(cid as u8, sid as u8) {
                    Some((cn, sn)) => Some(paren_join(cn, sn)),
                    None => Some(paren_join(cl, sub)),
                },
                _ => Some(c),
            },
        },
    }
}

/// Formats the class names a lookup found, or the raw class and subclass
/// codes where it found nothing.
pub fn apply_class(raw_class: String, raw_subclass: String, found: Option<(String, String)>) -> (r: String)
    ensures
        match found {
            Some((c, s)) => r@ == paren_join(c@, s@),
            None => r@ == paren_join(raw_class@, raw_subclass@),
        },
{
    match found {
        Some((c, s)) => paren_join_exec(&c, &s),
        None => paren_join_exec(&raw_class, &raw_subclass),
    }
}

/// Turns a PCI class string such as `0x030000` into a name such as
/// "Display controller (VGA compatible controller)". Falls back to the raw
/// class and subclass codes when the database lacks the pair, and to the
/// given string unchanged when it is too short or does not parse.
pub fn convert_to_pci_class(class: Option<String>) -> (r: Option<String>)
    ensures
        opt_view(r) == resolved_pci_class(opt_view(class)),
{
    let c = match class {
        Some(c) => c,
        None => return None,
    };
    let t = trimmed_chars(c.as_str());
    let pat: Vec<char> = vec!['0', 'x'];
    assert(pat@ =~= hex_prefix());
    let s = remove_all_chars(&t, &pat);
    if s.len() < 2 {
        return Some(c);
    }
    let sub_end: usize = if s.len() < 4 {
        s.len()
    } else {
        4
    };
    let cl = string_of_range(&s, 0, 2);
    let sub = string_of_range(&s, 2, sub_end);
    let cl_chars = chars_of(cl.as_str());
    let sub_chars = chars_of(sub.as_str());
    let cid = parse_unsigned_chars(&cl_chars, 16, 0xff);
    let sid = parse_unsigned_chars(&sub_chars, 16, 0xff);
    match (cid, sid) {
        (Some(cid), Some(sid)) => {
            let found = lookup_pci_subclass(cid as u8, sid as u8);
            Some(apply_class(cl, sub, found))
        },
        _ => Some(c),
    }
}

/// What resolving a USB class gives from the class and subclass files:
/// "Class (Subclass)" where the database knows the pair, and the trimmed
/// raw codes as "class (subclass)" otherwise; nothing where either file is
/// missing.
pub open spec fn resolved_usb_class(class: Option<Seq<char>>, subclass: Option<Seq<char>>) -> Option<
    Seq<char>,
> {
    match (class, subclass) {
        (Some(c), Some(s)) => {
            let (c, s) = (trim(c), trim(s));
            match (parse_unsigned(c, 16, 0xff), parse_unsigned(s, 16, 0xff)) {
                (Some(cid), Some(sid)) => match usb_subclass_names(cid as u8, sid as u8) {
                    Some((cn, sn)) => Some(paren_join(cn, sn)),
                    None => Some(paren_join(c, s)),
                },
                _ => Some(paren_join(c, s)),
            }
        },
        _ => None,
    }
}

/// Turns a USB device's class and subclass codes (hexadecimal) into a
/// name, falling back to the raw codes.
pub fn usb_class(class: Option<String>, subclass: Option<String>) -> (r: Option<String>)
    ensures
        opt_view(r) == resolved_usb_class(opt_view(class), opt_view(subclass)),
{
    let (c, s) = match (class, subclass) {
        (Some(c), Some(s)) => (c, s),
        _ => return None,
    };
    let cs = trimmed_chars(c.as_str());
    let ss = trimmed_chars(s.as_str());
    let ct = string_of(&cs);
    let st = string_of(&ss);
    let cid = parse_unsigned_chars(&cs, 16, 0xff);
    let sid = parse_unsigned_chars(&ss, 16, 0xff);
    match (cid, sid) {
        (Some(cid), Some(sid)) => match lookup_usb_subclass(cid as u8, sid as u8) {
            Some((cn, sn)) => Some(paren_join_exec(&cn, &sn)),
            None => Some(paren_join_exec(&ct, &st)),
        },
        _ => Some(paren_join_exec(&ct, &st)),
    }
}

/// What a USB device's (vendor, product) names are: the device's own
/// strings where it offers both; else the database's names for its
/// trimmed hexadecimal codes; else the trimmed codes themselves, each
/// where it was read.
pub open spec fn resolved_usb_names(
    manufacturer: Option<Seq<char>>,
    product: Option<Seq<char>>,
    id_vendor: Option<Seq<char>>,
    id_product: Option<Seq<char>>,
) -> (Option<Seq<char>>, Option<Seq<char>>) {
    let raw = (
        match id_vendor { Some(v) => Some(trim(v)), None => None },
        match id_product { Some(p) => Some(trim(p)), None => None },
    );
    match (manufacturer, product) {
        (Some(m), Some(p)) => (Some(m), Some(p)),
        _ => match (id_vendor, id_product) {
            (Some(v), Some(p)) => match (
                parse_unsigned(trim(v), 16, 0xffff),
                parse_unsigned(trim(p), 16, 0xffff),
            ) {
                (Some(vid), Some(pid)) => match usb_device_names(vid as u16, pid as u16) {
                    Some((vn, dn)) => (Some(vn), Some(dn)),
                    None => raw,
                },
                _ => raw,
            },
            _ => raw,
        },
    }
}

fn trim_opt(o: &Option<String>) -> (r: Option<String>)
    ensures
        opt_view(r) == match o { Some(s) => Some(trim(s@)), None => None },
{
    match o {
        Some(s) => Some(crate::text::trim_string(s.as_str())),
        None => None,
    }
}

/// Finds a USB device's (vendor, product) names from its manufacturer and
/// product strings, or from its vendor and product codes, which come back
/// trimmed where they cannot be resolved.
pub fn usb_vendor_and_id(
    manufacturer: Option<String>,
    product: Option<String>,
    id_vendor: Option<String>,
    id_product: Option<String>,
) -> (r: (Option<String>, Option<String>))
    ensures
        (opt_view(r.0), opt_view(r.1)) == resolved_usb_names(
            opt_view(manufacturer),
            opt_view(product),
            opt_view(id_vendor),
            opt_view(id_product),
        ),
{
    if let (Some(m), Some(p)) = (&manufacturer, &product) {
        return (Some(m.clone()), Some(p.clone()));
    }
    let raw_v = trim_opt(&id_vendor);
    let raw_p = trim_opt(&id_product);
    let (v, p) = match (&raw_v, &raw_p) {
        (Some(v), Some(p)) => (v, p),
        _ => return (raw_v, raw_p),
    };
    let vs = chars_of(v.as_str());
    let ps = chars_of(p.as_str());
    match (parse_unsigned_chars(&vs, 16, 0xffff), parse_unsigned_chars(&ps, 16, 0xffff)) {
        (Some(vid), Some(pid)) => match lookup_usb_device(vid as u16, pid as u16) {
            Some((vn, dn)) => (Some(vn), Some(dn)),
            None => (raw_v, raw_p),
        },
        _ => (raw_v, raw_p),
    }
}

} // verus!
