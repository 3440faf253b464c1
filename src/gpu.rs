//! Graphics probe: driver dispatch and driver-specific readings.

use vstd::prelude::*;
use crate::components::{ComponentBus, ComponentDescription, ComponentInfo};
use crate::ids::{convert_to_pci_class, convert_to_pci_names, resolved_pci_class, resolved_pci_names};
use crate::text::{
    chars_of, opt_view, parse_unsigned, parse_unsigned_chars, remove_all,
    remove_all_chars, trim, trim_bounds,
};
use crate::units::{mib_of, unit_to_mibiunits};
use crate::error::{GhrError, GhrResult};
use crate::path::{file_name, path_file_name};
use crate::record::{field, string_from_variant, string_of_value, u32_from_variant, u32_of_value, Record};

verus! {

/// A description for the GPU component of a computer.
#[derive(Clone, Copy, Debug, PartialEq, Eq, Structural)]
pub struct GpuDescription {
    /// Clock speed, in MHz.
    pub clock_speed: Option<u32>,
    /// Available video memory, in MiB.
    pub video_memory: Option<u32>,
    /// Video memory clock speed, in MHz.
    pub video_memory_speed: Option<u32>,
}

// ----- clock files -----

/// The part of `t` after its last newline (all of `t` if it has none).
pub open spec fn after_last_newline(t: Seq<char>) -> Seq<char>
    decreases t.len(),
{
    if t.len() == 0 {
        t
    } else if t.last() == '\n' {
        seq![]
    } else {
        after_last_newline(t.drop_last()).push(t.last())
    }
}

/// The last line of `s` as `str::lines` gives it: lines end at `\n`, a
/// `\r` before that `\n` is dropped, and an empty text has no line.
pub open spec fn last_line(s: Seq<char>) -> Option<Seq<char>> {
    if s.len() == 0 {
        None
    } else if s.last() == '\n' {
        let l = after_last_newline(s.drop_last());
        Some(
            if l.len() > 0 && l.last() == '\r' {
                l.drop_last()
            } else {
                l
            },
        )
    } else {
        Some(after_last_newline(s))
    }
}

/// ASCII whitespace, which `split_ascii_whitespace` splits on.
pub open spec fn is_ascii_ws(c: char) -> bool {
    c == ' ' || c == '\t' || c == '\n' || c == '\x0C' || c == '\r'
}

/// Scans `s` left to right: the tokens finished so far and the one being
/// read.
pub open spec fn token_scan(s: Seq<char>) -> (Seq<Seq<char>>, Seq<char>)
    decreases s.len(),
{
    if s.len() == 0 {
        (seq![], seq![])
    } else {
        let (done, cur) = token_scan(s.drop_last());
        if is_ascii_ws(s.last()) {
            (if cur.len() > 0 {
                done.push(cur)
            } else {
                done
            }, seq![])
        } else {
            (done, cur.push(s.last()))
        }
    }
}

/// The runs of non-whitespace characters of `s`, in order.
pub open spec fn tokens(s: Seq<char>) -> Seq<Seq<char>> {
    let (done, cur) = token_scan(s);
    if cur.len() > 0 {
        done.push(cur)
    } else {
        done
    }
}

/// The characters `Mhz`.
pub open spec fn mhz_suffix() -> Seq<char> {
    seq!['M', 'h', 'z']
}

/// The clock speed (MHz) that a clock-list file holds: in the last line
/// of the trimmed text, the second whitespace-separated token, with every
/// `Mhz` removed and then trimmed, read as a `u32`.
pub open spec fn clock_of(text: Seq<char>) -> Option<u32> {
    match last_line(trim(text)) {
        None => None,
        Some(line) => {
            let toks = tokens(trim(line));
            if toks.len() < 2 {
                None
            } else {
                match parse_unsigned(trim(remove_all(toks[1], mhz_suffix())), 10, u32::MAX as int) {
                    Some(v) => Some(v as u32),
                    None => None,
                }
            }
        },
    }
}

/// The characters of `s` from `lo` to `hi`.
fn slice_chars(s: &Vec<char>, lo: usize, hi: usize) -> (r: Vec<char>)
    requires
        lo <= hi <= s@.len(),
    ensures
        r@ == s@.subrange(lo as int, hi as int),
{
    let mut r: Vec<char> = Vec::new();
    let mut i = lo;
    while i < hi
        invariant
            lo <= i <= hi <= s@.len(),
            r@ == s@.subrange(lo as int, i as int),
        decreases hi - i,
    {
        r.push(s[i]);
        i += 1;
        assert(r@ =~= s@.subrange(lo as int, i as int));
    }
    r
}

fn trim_vec(s: &Vec<char>) -> (r: Vec<char>)
    ensures
        r@ == trim(s@),
{
    let (lo, hi) = trim_bounds(s);
    slice_chars(s, lo, hi)
}

fn last_line_exec(s: &Vec<char>) -> (r: Option<Vec<char>>)
    ensures
        match last_line(s@) {
            Some(l) => r is Some && r->0@ == l,
            None => r is None,
        },
{
    let n = s.len();
    if n == 0 {
        return None;
    }
    let end: usize = if s[n - 1] == '\n' {
        n - 1
    } else {
        n
    };
    let mut j = end;
    assert(s@.subrange(0, end as int).subrange(end as int, end as int) =~= Seq::<char>::empty());
    assert(after_last_newline(s@.subrange(0, end as int)) =~= after_last_newline(
        s@.subrange(0, end as int),
    ) + s@.subrange(end as int, end as int));
    while j > 0 && s[j - 1] != '\n'
        invariant
            j <= end <= n == s@.len(),
            after_last_newline(s@.subrange(0, end as int)) == after_last_newline(
                s@.subrange(0, j as int),
            ) + s@.subrange(j as int, end as int),
        decreases j,
    {
        let ghost pre = s@.subrange(0, j as int);
        assert(pre.drop_last() =~= s@.subrange(0, j - 1));
        assert(after_last_newline(pre) == after_last_newline(s@.subrange(0, j - 1)).push(
            s@[j - 1],
        ));
        assert(after_last_newline(s@.subrange(0, j - 1)).push(s@[j - 1]) + s@.subrange(
            j as int,
            end as int,
        ) =~= after_last_newline(s@.subrange(0, j - 1)) + s@.subrange(j - 1, end as int));
        j -= 1;
    }
    assert(after_last_newline(s@.subrange(0, j as int)) =~= Seq::<char>::empty());
    assert(after_last_newline(s@.subrange(0, end as int)) =~= s@.subrange(j as int, end as int));
    if end < n {
        assert(s@.drop_last() =~= s@.subrange(0, end as int));
        if end > j && s[end - 1] == '\r' {
            assert(s@.subrange(j as int, end as int).drop_last() =~= s@.subrange(
                j as int,
                end - 1,
            ));
            Some(slice_chars(s, j, end - 1))
        } else {
            Some(slice_chars(s, j, end))
        }
    } else {
        assert(s@.subrange(0, end as int) =~= s@);
        Some(slice_chars(s, j, end))
    }
}

fn is_ascii_ws_exec(c: char) -> (r: bool)
    ensures
        r == is_ascii_ws(c),
{
    c == ' ' || c == '\t' || c == '\n' || c == '\x0C' || c == '\r'
}

fn tokens_exec(s: &Vec<char>) -> (r: Vec<Vec<char>>)
    ensures
        r@.len() == tokens(s@).len(),
        forall|i: int| 0 <= i < r@.len() ==> (#[trigger] r@[i])@ == tokens(s@)[i],
{
    let n = s.len();
    let mut done: Vec<Vec<char>> = Vec::new();
    let mut cur: Vec<char> = Vec::new();
    let ghost done_v: Seq<Seq<char>> = seq![];
    let mut i: usize = 0;
    assert(s@.subrange(0, 0) =~= Seq::<char>::empty());
    while i < n
        invariant
            i <= n == s@.len(),
            token_scan(s@.subrange(0, i as int)) == (done_v, cur@),
            done@.len() == done_v.len(),
            forall|k: int| 0 <= k < done@.len() ==> (#[trigger] done@[k])@ == done_v[k],
        decreases n - i,
    {
        let c = s[i];
        assert(s@.subrange(0, i + 1).drop_last() =~= s@.subrange(0, i as int));
        if is_ascii_ws_exec(c) {
            if cur.len() > 0 {
                let ghost cv = cur@;
                done.push(cur);
                proof {
                    done_v = done_v.push(cv);
                }
            }
            cur = Vec::new();
        } else {
            cur.push(c);
        }
        i += 1;
        assert(s@.subrange(0, i as int).last() == c);
    }
    assert(s@.subrange(0, n as int) =~= s@);
    if cur.len() > 0 {
        let ghost cv = cur@;
        done.push(cur);
        proof {
            done_v = done_v.push(cv);
        }
    }
    done
}

/// Reads a clock speed in MHz from the contents of a clock-list file such
/// as `pp_dpm_sclk`, whose lines look like `1: 2880Mhz *`: the last line's
/// second token, without its `Mhz` suffix.
pub fn clock(text: &str) -> (r: Option<u32>)
    ensures
        r == clock_of(text@),
{
    let cs = chars_of(text);
    let t = trim_vec(&cs);
    let line = match last_line_exec(&t) {
        Some(l) => l,
        None => return None,
    };
    let lt = trim_vec(&line);
    let toks = tokens_exec(&lt);
    if toks.len() < 2 {
        return None;
    }
    let pat: Vec<char> = vec!['M', 'h', 'z'];
    assert(pat@ =~= mhz_suffix());
    let stripped = remove_all_chars(&toks[1], &pat);
    let st = trim_vec(&stripped);
    match parse_unsigned_chars(&st, 10, u32::MAX as u64) {
        Some(v) => Some(v as u32),
        None => None,
    }
}

// ----- drivers -----

/// The driver families with their own reading of a GPU.
#[derive(Clone, Copy, Debug, PartialEq, Eq, Structural)]
pub enum GpuDriver {
    Amdgpu,
    I915,
    /// Covered by the vendor library path, so skipped here.
    Nvidia,
    Generic,
}

/// `c` matches the lower-case letter or other character `w`, ignoring
/// ASCII case.
pub open spec fn char_eq_ignore_case(c: char, w: char) -> bool {
    c == w || ('a' <= w && w <= 'z' && c as u32 + 32 == w as u32)
}

/// `s` spells the lower-case word `w`, ignoring ASCII case.
pub open spec fn eq_ignore_case(s: Seq<char>, w: Seq<char>) -> bool {
    s.len() == w.len() && forall|i: int| 0 <= i < s.len() ==> char_eq_ignore_case(#[trigger] s[i], w[i])
}

/// Whether `s` spells the lower-case word `w`, ignoring ASCII case.
pub fn eq_ignore_case_exec(s: &Vec<char>, w: &Vec<char>) -> (r: bool)
    ensures
        r == eq_ignore_case(s@, w@),
{
    if s.len() != w.len() {
        return false;
    }
    let mut i: usize = 0;
    while i < s.len()
        invariant
            s@.len() == w@.len(),
            i <= s@.len(),
            forall|k: int| 0 <= k < i ==> char_eq_ignore_case(#[trigger] s@[k], w@[k]),
        decreases s@.len() - i,
    {
        let c = s[i];
        let d = w[i];
        if !(c == d || ('a' <= d && d <= 'z' && (c as u32) as u64 + 32 == (d as u32) as u64)) {
            return false;
        }
        i += 1;
    }
    true
}

/// The family that a driver name (compared case-insensitively in ASCII)
/// belongs to.
pub open spec fn driver_of(name: Seq<char>) -> GpuDriver {
    if eq_ignore_case(name, seq!['a', 'm', 'd', 'g', 'p', 'u']) {
        GpuDriver::Amdgpu
    } else if eq_ignore_case(name, seq!['i', '9', '1', '5']) {
        GpuDriver::I915
    } else if eq_ignore_case(name, seq!['n', 'v', 'i', 'd', 'i', 'a']) {
        GpuDriver::Nvidia
    } else {
        GpuDriver::Generic
    }
}

/// Picks the reading path for a GPU from its driver's name.
pub fn driver_kind(driver: &str) -> (r: GpuDriver)
    ensures
        r == driver_of(driver@),
{
    let l = chars_of(driver);
    let amd: Vec<char> = vec!['a', 'm', 'd', 'g', 'p', 'u'];
    let intel: Vec<char> = vec!['i', '9', '1', '5'];
    let nv: Vec<char> = vec!['n', 'v', 'i', 'd', 'i', 'a'];
    assert(amd@ =~= seq!['a', 'm', 'd', 'g', 'p', 'u']);
    assert(intel@ =~= seq!['i', '9', '1', '5']);
    assert(nv@ =~= seq!['n', 'v', 'i', 'd', 'i', 'a']);
    if eq_ignore_case_exec(&l, &amd) {
        GpuDriver::Amdgpu
    } else if eq_ignore_case_exec(&l, &intel) {
        GpuDriver::I915
    } else if eq_ignore_case_exec(&l, &nv) {
        GpuDriver::Nvidia
    } else {
        GpuDriver::Generic
    }
}

/// Raw PCI identifier readings of a device: its `class`, `device` and
/// `vendor` files.
pub struct PciCodes {
    pub class: Option<String>,
    pub device: Option<String>,
    pub vendor: Option<String>,
}

/// The identity fields that resolving a device's codes gives.
pub open spec fn resolved_identity(codes: PciCodes, c: ComponentInfo) -> bool {
    &&& (opt_view(c.id), opt_view(c.vendor_id)) == resolved_pci_names(
        opt_view(codes.device),
        opt_view(codes.vendor),
    )
    &&& opt_view(c.class) == resolved_pci_class(opt_view(codes.class))
}

/// Builds the component for a GPU on the `amdgpu` driver from its PCI
/// codes, its total video memory in bytes, and the contents of its core
/// and memory clock-list files.
pub fn amdgpu(
    codes: PciCodes,
    vram_total: Option<u64>,
    sclk: Option<String>,
    mclk: Option<String>,
) -> (c: ComponentInfo)
    ensures
        c.bus == ComponentBus::Pci,
        c.status is None,
        resolved_identity(codes, c),
        c.desc == ComponentDescription::GpuDescription(amdgpu_desc(vram_total, sclk, mclk)),
{
    let class = convert_to_pci_class(codes.class);
    let (id, vendor_id) = convert_to_pci_names(codes.device, codes.vendor);
    let video_memory = match vram_total {
        Some(b) => Some(unit_to_mibiunits(b)),
        None => None,
    };
    let clock_speed = match &sclk {
        Some(t) => clock(t.as_str()),
        None => None,
    };
    let video_memory_speed = match &mclk {
        Some(t) => clock(t.as_str()),
        None => None,
    };
    ComponentInfo::new(
        ComponentBus::Pci,
        id,
        class,
        vendor_id,
        None,
        ComponentDescription::GpuDescription(
            GpuDescription { clock_speed, video_memory, video_memory_speed },
        ),
    )
}

/// The clock speed an `i915` frequency reading gives.
pub open spec fn i915_clock(max_freq_mhz: Option<u64>) -> Option<u32> {
    match max_freq_mhz {
        Some(f) => if f == 0 || f > u32::MAX {
            None
        } else {
            Some(f as u32)
        },
        None => None,
    }
}

/// The description an `amdgpu` GPU's readings give.
pub open spec fn amdgpu_desc(vram_total: Option<u64>, sclk: Option<String>, mclk: Option<String>) -> GpuDescription {
    GpuDescription {
        clock_speed: match sclk {
            Some(t) => clock_of(t@),
            None => None,
        },
        video_memory: match vram_total {
            Some(b) => Some(mib_of(b as int) as u32),
            None => None,
        },
        video_memory_speed: match mclk {
            Some(t) => clock_of(t@),
            None => None,
        },
    }
}

/// Builds the component for a GPU on the `i915` driver from its PCI codes
/// and its `gt_max_freq_mhz` reading; a zero frequency, or one too large
/// for 32 bits, is unknown.
pub fn i915(codes: PciCodes, max_freq_mhz: Option<u64>) -> (c: ComponentInfo)
    ensures
        c.bus == ComponentBus::Pci,
        c.status is None,
        resolved_identity(codes, c),
        c.desc == ComponentDescription::GpuDescription(
            GpuDescription {
                clock_speed: i915_clock(max_freq_mhz),
                video_memory: None,
                video_memory_speed: None,
            },
        ),
{
    let (id, vendor_id) = convert_to_pci_names(codes.device, codes.vendor);
    let class = convert_to_pci_class(codes.class);
    let clock_speed = match max_freq_mhz {
        Some(f) => if f == 0 || f > u32::MAX as u64 {
            None
        } else {
            Some(f as u32)
        },
        None => None,
    };
    ComponentInfo::new(
        ComponentBus::Pci,
        id,
        class,
        vendor_id,
        None,
        ComponentDescription::GpuDescription(
            GpuDescription { clock_speed, video_memory: None, video_memory_speed: None },
        ),
    )
}

/// Builds the component for a GPU whose driver has no reading of its own:
/// only its PCI identity.
pub fn generic(codes: PciCodes) -> (c: ComponentInfo)
    ensures
        c.bus == ComponentBus::Pci,
        c.status is None,
        resolved_identity(codes, c),
        c.desc == ComponentDescription::GpuDescription(
            GpuDescription { clock_speed: None, video_memory: None, video_memory_speed: None },
        ),
{
    let class = convert_to_pci_class(codes.class);
    let (id, vendor_id) = convert_to_pci_names(codes.device, codes.vendor);
    ComponentInfo::new(
        ComponentBus::Pci,
        id,
        class,
        vendor_id,
        None,
        ComponentDescription::GpuDescription(
            GpuDescription { clock_speed: None, video_memory: None, video_memory_speed: None },
        ),
    )
}

/// Builds a GPU component through the reading path of its driver; GPUs on
/// the vendor-library driver are left to that path and give nothing here.
pub fn gpu_for_driver(
    driver: &str,
    codes: PciCodes,
    vram_total: Option<u64>,
    sclk: Option<String>,
    mclk: Option<String>,
    max_freq_mhz: Option<u64>,
) -> (r: Option<ComponentInfo>)
    ensures
        (r is None) == (driver_of(driver@) == GpuDriver::Nvidia),
        r is Some ==> r->0.bus == ComponentBus::Pci && r->0.status is None && resolved_identity(codes, r->0),
        driver_of(driver@) == GpuDriver::Amdgpu ==> r->0.desc == ComponentDescription::GpuDescription(
            amdgpu_desc(vram_total, sclk, mclk),
        ),
        driver_of(driver@) == GpuDriver::I915 ==> r->0.desc == ComponentDescription::GpuDescription(
            GpuDescription { clock_speed: i915_clock(max_freq_mhz), video_memory: None, video_memory_speed: None },
        ),
        driver_of(driver@) == GpuDriver::Generic ==> r->0.desc == ComponentDescription::GpuDescription(
            GpuDescription { clock_speed: None, video_memory: None, video_memory_speed: None },
        ),
{
    match driver_kind(driver) {
        GpuDriver::Amdgpu => Some(amdgpu(codes, vram_total, sclk, mclk)),
        GpuDriver::I915 => Some(i915(codes, max_freq_mhz)),
        GpuDriver::Nvidia => None,
        GpuDriver::Generic => Some(generic(codes)),
    }
}

/// Bus kinds that the vendor driver library reports.
#[derive(Clone, Copy, Debug, PartialEq, Eq, Structural)]
pub enum VendorBus {
    Unknown,
    Pci,
    Pcie,
    Fpci,
    Agp,
}

/// The component bus for a vendor-library bus kind; unknown or unread
/// kinds count as PCI.
pub open spec fn vendor_bus_of(b: Option<VendorBus>) -> ComponentBus {
    match b {
        Some(VendorBus::Pcie) => ComponentBus::Pcie,
        Some(VendorBus::Fpci) => ComponentBus::Fpci,
        Some(VendorBus::Agp) => ComponentBus::Agp,
        _ => ComponentBus::Pci,
    }
}

/// Readings of one device from the vendor driver library.
pub struct VendorGpuReadings {
    /// Maximum graphics clock, MHz.
    pub graphics_clock: Option<u32>,
    /// Total video memory, bytes.
    pub memory_total: Option<u64>,
    /// Maximum memory clock, MHz.
    pub memory_clock: Option<u32>,
    pub bus: Option<VendorBus>,
    pub name: Option<String>,
    /// The name of the device's brand, such as `GeForce`.
    pub brand: Option<String>,
}

/// The vendor name of a device of brand `brand`: `NVIDIA (<brand>)`.
pub open spec fn vendor_name(brand: Seq<char>) -> Seq<char> {
    "NVIDIA ("@ + brand + seq![')']
}

fn vendor_name_exec(brand: &String) -> (r: String)
    ensures
        r@ == vendor_name(brand@),
{
    let mut cs = chars_of("NVIDIA (");
    let bs = chars_of(brand.as_str());
    let ghost start = cs@;
    let mut i: usize = 0;
    while i < bs.len()
        invariant
            i <= bs@.len(),
            cs@ == start + bs@.subrange(0, i as int),
        decreases bs@.len() - i,
    {
        cs.push(bs[i]);
        i += 1;
        assert(cs@ =~= start + bs@.subrange(0, i as int));
    }
    cs.push(')');
    assert(bs@.subrange(0, bs@.len() as int) =~= bs@);
    assert(cs@ =~= vendor_name(brand@));
    crate::text::string_of(&cs)
}

/// Builds the component for a GPU read through the vendor driver library.
pub fn vendor_gpu(r: VendorGpuReadings) -> (c: ComponentInfo)
    ensures
        c.bus == vendor_bus_of(r.bus),
        c.id == r.name,
        c.class is None,
        opt_view(c.vendor_id) == match r.brand {
            Some(b) => Some(vendor_name(b@)),
            None => None,
        },
        c.status is None,
        c.desc == ComponentDescription::GpuDescription(
            GpuDescription {
                clock_speed: r.graphics_clock,
                video_memory: match r.memory_total {
                    Some(b) => Some(mib_of(b as int) as u32),
                    None => None,
                },
                video_memory_speed: r.memory_clock,
            },
        ),
{
    let bus = match r.bus {
        Some(VendorBus::Pcie) => ComponentBus::Pcie,
        Some(VendorBus::Fpci) => ComponentBus::Fpci,
        Some(VendorBus::Agp) => ComponentBus::Agp,
        _ => ComponentBus::Pci,
    };
    let video_memory = match r.memory_total {
        Some(b) => Some(unit_to_mibiunits(b)),
        None => None,
    };
    let vendor_id = match &r.brand {
        Some(b) => Some(vendor_name_exec(b)),
        None => None,
    };
    ComponentInfo::new(
        bus,
        r.name,
        None,
        vendor_id,
        None,
        ComponentDescription::GpuDescription(
            GpuDescription {
                clock_speed: r.graphics_clock,
                video_memory,
                video_memory_speed: r.memory_clock,
            },
        ),
    )
}

// ----- device discovery -----

/// Whether the regular-expression library finds `pattern` in `text`;
/// `None` where the pattern does not compile.
pub uninterp spec fn regex_matches(pattern: Seq<char>, text: Seq<char>) -> Option<bool>;

/// Relies on `regex::Regex::new` and `regex::Regex::is_match`: compiles
/// `pattern` and tests `text` against it; the outcome depends on the two
/// alone.
#[verifier::external_body]
fn regex_match(pattern: &str, text: &str) -> (r: Result<bool, String>)
    ensures
        match r {
            Ok(b) => regex_matches(pattern@, text@) == Some(b),
            Err(_) => regex_matches(pattern@, text@) is None,
        },
{
    match regex::Regex::new(pattern) {
        Ok(re) => Ok(re.is_match(text)),
        Err(e) => Err(e.to_string()),
    }
}

/// The pattern of a main card directory: `card` and a number.
pub open spec fn card_pattern() -> Seq<char> {
    "^card\\d+$"@
}

/// The names of `names` that match the card pattern, in order; `None` if
/// the pattern does not compile.
pub open spec fn cards_of(names: Seq<String>) -> Option<Seq<Seq<char>>>
    decreases names.len(),
{
    if names.len() == 0 {
        Some(seq![])
    } else {
        match (cards_of(names.drop_last()), regex_matches(card_pattern(), names.last()@)) {
            (Some(done), Some(true)) => Some(done.push(names.last()@)),
            (Some(done), Some(false)) => Some(done),
            _ => None,
        }
    }
}

/// Keeps the entries of the graphics class directory that are main cards
/// (`card0`, `card1`, ...). Fails with `RegexCreationFailure` if the
/// pattern does not compile.
pub fn card_entries(names: &Vec<String>) -> (r: GhrResult<Vec<String>>)
    ensures
        match cards_of(names@) {
            Some(cards) => r is Ok && r->Ok_0@.len() == cards.len() && forall|i: int| 0 <= i < cards.len() ==> (#[trigger] r->Ok_0@[i])@ == cards[i],
            None => r is Err && r->Err_0 is RegexCreationFailure,
        },
{
    let pattern = String::from_str("^card\\d+$");
    proof {
        reveal_strlit("^card\\d+$");
    }
    let mut out: Vec<String> = Vec::new();
    let mut i: usize = 0;
    while i < names.len()
        invariant
            i <= names@.len(),
            pattern@ == card_pattern(),
            cards_of(names@.subrange(0, i as int)) is Some,
            out@.len() == cards_of(names@.subrange(0, i as int))->0.len(),
            forall|k: int| 0 <= k < out@.len() ==> (#[trigger] out@[k])@ == cards_of(names@.subrange(0, i as int))->0[k],
        decreases names@.len() - i,
    {
        let ghost pre = cards_of(names@.subrange(0, i as int))->0;
        assert(names@.subrange(0, i + 1).drop_last() =~= names@.subrange(0, i as int));
        assert(names@.subrange(0, i + 1).last() == names@[i as int]);
        match regex_match(pattern.as_str(), names[i].as_str()) {
            Ok(true) => {
                out.push(names[i].clone());
                let ghost now = cards_of(names@.subrange(0, i + 1))->0;
                assert(now == pre.push(names@[i as int]@));
                assert forall|k: int| 0 <= k < out@.len() implies (#[trigger] out@[k])@ == now[k] by {
                    if k < out@.len() - 1 {
                        assert(now[k] == pre[k]);
                    }
                }
            },
            Ok(false) => {},
            Err(e) => {
                proof {
                    lemma_cards_fail_forever(names@, i as int + 1);
                }
                return Err(GhrError::RegexCreationFailure(e));
            },
        }
        i += 1;
    }
    assert(names@.subrange(0, names@.len() as int) =~= names@);
    Ok(out)
}

proof fn lemma_cards_fail_forever(names: Seq<String>, k: int)
    requires
        0 < k <= names.len(),
        cards_of(names.subrange(0, k)) is None,
    ensures
        cards_of(names) is None,
    decreases names.len() - k,
{
    if k < names.len() {
        assert(names.subrange(0, k + 1).drop_last() =~= names.subrange(0, k));
        lemma_cards_fail_forever(names, k + 1);
    } else {
        assert(names.subrange(0, k) =~= names);
    }
}

/// The driver's name: the last component of the path the device's
/// `driver` link points to. Fails with `ComponentInfoInaccessible` where
/// the link could not be read or names no directory.
pub fn find_driver(link_target: Option<String>) -> (r: GhrResult<String>)
    ensures
        match link_target {
            Some(t) => match file_name(t@) {
                Some(n) => r is Ok && r->Ok_0@ == n,
                None => r is Err && r->Err_0 is ComponentInfoInaccessible,
            },
            None => r is Err && r->Err_0 is ComponentInfoInaccessible,
        },
{
    let t = match link_target {
        Some(t) => t,
        None => return Err(GhrError::ComponentInfoInaccessible(String::from_str("failed to follow the GPU driver link"))),
    };
    match path_file_name(t.as_str()) {
        Some(n) => Ok(crate::text::string_of(&n)),
        None => Err(GhrError::ComponentInfoInaccessible(String::from_str("the GPU driver link names no directory"))),
    }
}

/// Builds a GPU component from a video-controller record: its `Name`, and
/// its `AdapterRAM` (bytes) as MiB.
pub fn gpu_from_record(rec: &Record) -> (c: ComponentInfo)
    ensures
        c.bus == ComponentBus::Pci,
        opt_view(c.id) == string_of_value(field(rec.fields@, "Name"@)),
        c.class is None,
        c.vendor_id is None,
        c.status is None,
        c.desc == ComponentDescription::GpuDescription(GpuDescription {
            clock_speed: None,
            video_memory: match u32_of_value(field(rec.fields@, "AdapterRAM"@)) {
                Some(b) => Some(mib_of(b as int) as u32),
                None => None,
            },
            video_memory_speed: None,
        }),
{
    let vram = match u32_from_variant(rec.get("AdapterRAM")) {
        Some(b) => Some(unit_to_mibiunits(b as u64)),
        None => None,
    };
    ComponentInfo::new(
        ComponentBus::Pci,
        string_from_variant(rec.get("Name")),
        None,
        None,
        None,
        ComponentDescription::GpuDescription(GpuDescription { clock_speed: None, video_memory: vram, video_memory_speed: None }),
    )
}

} // verus!
