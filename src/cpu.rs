//! Processor probe: per-core readings grouped into one component per
//! physical package.

use vstd::prelude::*;
use crate::components::{ComponentBus, ComponentDescription, ComponentInfo};
use crate::error::{GhrError, GhrResult};
use crate::record::{field, string_from_variant, string_of_value, u32_from_variant, u32_of_value, Record};
use crate::text::{
    chars_of, contains, copy_opt, eq_chars, opt_view, parse_unsigned,
    parse_unsigned_chars, parse_u32, remove_all, remove_all_chars, trim, trimmed_chars,
};

verus! {

/// Core frequencies in MHz.
#[derive(Clone, Copy, Debug, PartialEq, Eq, Structural)]
pub struct Frequency {
    pub min: Option<u32>,
    pub max: Option<u32>,
}

/// One cache of a processor, sized in bytes, with an optional speed.
#[derive(Clone, Copy, Debug, PartialEq, Eq, Structural)]
pub enum Cache {
    L1 { size: u32, speed: Option<u32> },
    L2 { size: u32, speed: Option<u32> },
    L3 { size: u32, speed: Option<u32> },
}

/// One of many physical processor cores.
#[derive(Clone, Debug, PartialEq)]
pub struct Core {
    pub cache: Option<Vec<Cache>>,
    pub speeds: Frequency,
}

/// About the central processing unit (CPU).
#[derive(Clone, Debug, PartialEq)]
pub struct CpuDescription {
    /// The processor's clock speed range in MHz.
    pub clock_speed: Frequency,
    /// The processor's core count.
    pub core_ct: Option<u32>,
    /// Every cache of every core.
    pub cache: Option<Vec<Cache>>,
    /// Each core of the processor.
    pub cores: Option<Vec<Core>>,
}

// ----- per-core readings -----

/// What a cache holds.
#[derive(Clone, Copy, Debug, PartialEq, Eq, Structural)]
pub enum CacheKind {
    /// Instructions only.
    Instruction,
    /// Data only.
    Data,
    /// Both data and instructions.
    Unified,
}

/// One cache of a core, read from a `cache/indexN` directory.
#[derive(Clone, Copy, Debug, PartialEq, Eq, Structural)]
pub struct CoreCache {
    /// The cache level.
    pub level: u32,
    /// The size in bytes.
    pub size: u32,
    pub kind: CacheKind,
}

/// The readings of one core.
pub struct CoreReading {
    /// The physical package (socket) the core belongs to.
    pub processor_id: u32,
    /// The core's own index.
    pub core_num: u32,
    pub cache: Vec<CoreCache>,
    pub speeds: Frequency,
}

/// The files of one `cache/<entry>` directory of a core.
pub struct CacheFiles {
    /// The entry's path.
    pub path: String,
    /// Contents of `level`.
    pub level: Option<String>,
    /// Contents of `size`, such as `32K`.
    pub size: Option<String>,
    /// Contents of `type`.
    pub kind: Option<String>,
}

/// The characters `index`.
pub open spec fn index_word() -> Seq<char> {
    seq!['i', 'n', 'd', 'e', 'x']
}

/// The cache kind a trimmed `type` file names.
pub open spec fn cache_kind_of(t: Seq<char>) -> Option<CacheKind> {
    if t == "Instruction"@ {
        Some(CacheKind::Instruction)
    } else if t == "Data"@ {
        Some(CacheKind::Data)
    } else if t == "Unified"@ {
        Some(CacheKind::Unified)
    } else {
        None
    }
}

/// The size in bytes that a `size` file gives: every `K` removed, trimmed,
/// read as a `u32` count of KiB; absent where it does not fit in 32 bits.
pub open spec fn cache_size_of(t: Seq<char>) -> Option<u32> {
    match parse_unsigned(trim(remove_all(t, seq!['K'])), 10, u32::MAX as int) {
        Some(k) => if k * 1024 <= u32::MAX {
            Some((k * 1024) as u32)
        } else {
            None
        },
        None => None,
    }
}

/// The cache that one cache directory's files describe, if it is an
/// `index` entry and every file reads and parses.
pub open spec fn cache_entry_of(f: CacheFiles) -> Option<CoreCache> {
    if !contains(f.path@, index_word()) {
        None
    } else {
        match (f.level, f.size, f.kind) {
            (Some(l), Some(sz), Some(k)) => match (
                parse_unsigned(trim(l@), 10, u32::MAX as int),
                cache_size_of(sz@),
                cache_kind_of(trim(k@)),
            ) {
                (Some(level), Some(size), Some(kind)) => Some(
                    CoreCache { level: level as u32, size, kind },
                ),
                _ => None,
            },
            _ => None,
        }
    }
}

fn eq_word(cs: &Vec<char>, w: &str) -> (r: bool)
    ensures
        r == (cs@ == w@),
{
    let wc = chars_of(w);
    eq_chars(cs, &wc)
}

fn cache_kind(t: &str) -> (r: Option<CacheKind>)
    ensures
        r == cache_kind_of(trim(t@)),
{
    let cs = trimmed_chars(t);
    if eq_word(&cs, "Instruction") {
        Some(CacheKind::Instruction)
    } else if eq_word(&cs, "Data") {
        Some(CacheKind::Data)
    } else if eq_word(&cs, "Unified") {
        Some(CacheKind::Unified)
    } else {
        None
    }
}

fn cache_size(t: &str) -> (r: Option<u32>)
    ensures
        r == cache_size_of(t@),
{
    let cs = chars_of(t);
    let pat: Vec<char> = vec!['K'];
    assert(pat@ =~= seq!['K']);
    let stripped = remove_all_chars(&cs, &pat);
    let (lo, hi) = crate::text::trim_bounds(&stripped);
    let mut body: Vec<char> = Vec::new();
    let mut i = lo;
    while i < hi
        invariant
            lo <= i <= hi <= stripped@.len(),
            body@ == stripped@.subrange(lo as int, i as int),
        decreases hi - i,
    {
        body.push(stripped[i]);
        i += 1;
        assert(body@ =~= stripped@.subrange(lo as int, i as int));
    }
    match parse_unsigned_chars(&body, 10, u32::MAX as u64) {
        Some(k) => if k <= (u32::MAX as u64) / 1024 {
            Some((k * 1024) as u32)
        } else {
            None
        },
        None => None,
    }
}

/// Reads one cache directory of a core; entries that are not `index`
/// directories, or whose files are missing or malformed, give nothing.
pub fn core_cache_entry(f: &CacheFiles) -> (r: Option<CoreCache>)
    ensures
        r == cache_entry_of(*f),
{
    let word: Vec<char> = vec!['i', 'n', 'd', 'e', 'x'];
    assert(word@ =~= index_word());
    let path = chars_of(f.path.as_str());
    if !crate::text::contains_chars(&path, &word) {
        return None;
    }
    match (&f.level, &f.size, &f.kind) {
        (Some(l), Some(sz), Some(k)) => match (parse_u32(l.as_str()), cache_size(sz.as_str()), cache_kind(k.as_str())) {
            (Some(level), Some(size), Some(kind)) => Some(CoreCache { level, size, kind }),
            _ => None,
        },
        _ => None,
    }
}

/// The caches that a core's cache directories describe, in order.
pub open spec fn caches_of(fs: Seq<CacheFiles>) -> Seq<CoreCache>
    decreases fs.len(),
{
    if fs.len() == 0 {
        seq![]
    } else {
        match cache_entry_of(fs.last()) {
            Some(c) => caches_of(fs.drop_last()).push(c),
            None => caches_of(fs.drop_last()),
        }
    }
}

/// Reads every cache directory of a core, skipping the ones that do not
/// describe a cache.
pub fn core_cache(entries: &Vec<CacheFiles>) -> (r: Vec<CoreCache>)
    ensures
        r@ == caches_of(entries@),
{
    let mut r: Vec<CoreCache> = Vec::new();
    let mut i: usize = 0;
    while i < entries.len()
        invariant
            i <= entries@.len(),
            r@ == caches_of(entries@.subrange(0, i as int)),
        decreases entries@.len() - i,
    {
        assert(entries@.subrange(0, i + 1).drop_last() =~= entries@.subrange(0, i as int));
        assert(entries@.subrange(0, i + 1).last() == entries@[i as int]);
        match core_cache_entry(&entries[i]) {
            Some(c) => r.push(c),
            None => {},
        }
        i += 1;
    }
    assert(entries@.subrange(0, entries@.len() as int) =~= entries@);
    r
}

/// The processor id a `topology/physical_package_id` reading gives; `0`
/// where it is missing or malformed.
pub fn core_processor_id(text: Option<String>) -> (r: u32)
    ensures
        r == match text {
            Some(t) => match parse_unsigned(trim(t@), 10, u32::MAX as int) {
                Some(v) => v as u32,
                None => 0,
            },
            None => 0,
        },
{
    match text {
        Some(t) => match parse_u32(t.as_str()) {
            Some(v) => v,
            None => 0,
        },
        None => 0,
    }
}

/// A frequency in MHz from a reading in kHz.
pub open spec fn mhz_of(text: Option<String>) -> Option<u32> {
    match text {
        Some(t) => match parse_unsigned(trim(t@), 10, u32::MAX as int) {
            Some(v) => Some((v / 1000) as u32),
            None => None,
        },
        None => None,
    }
}

/// A core's frequency range in MHz from its `cpuinfo_min_freq` and
/// `cpuinfo_max_freq` readings (kHz).
pub fn core_freq(min_text: Option<String>, max_text: Option<String>) -> (r: Frequency)
    ensures
        r.min == mhz_of(min_text),
        r.max == mhz_of(max_text),
{
    let min = match &min_text {
        Some(t) => match parse_u32(t.as_str()) {
            Some(v) => Some(v / 1000),
            None => None,
        },
        None => None,
    };
    let max = match &max_text {
        Some(t) => match parse_u32(t.as_str()) {
            Some(v) => Some(v / 1000),
            None => None,
        },
        None => None,
    };
    Frequency { min, max }
}

/// The first and last index of the `present` file, such as `0-7`: the
/// trimmed text split at `-`, the first two pieces read as `u32`.
pub open spec fn present_range(t: Seq<char>) -> Option<(u32, u32)> {
    let s = trim(t);
    if exists|i: int| 0 <= i < s.len() && s[i] == '-' {
        let d = choose|i: int| 0 <= i < s.len() && s[i] == '-' && forall|j: int| 0 <= j < i ==> s[j] != '-';
        let rest = s.subrange(d + 1, s.len() as int);
        let second = if exists|i: int| 0 <= i < rest.len() && rest[i] == '-' {
            let e = choose|i: int| 0 <= i < rest.len() && rest[i] == '-' && forall|j: int| 0 <= j < i ==> rest[j] != '-';
            rest.subrange(0, e)
        } else {
            rest
        };
        match (parse_unsigned(s.subrange(0, d), 10, u32::MAX as int), parse_unsigned(second, 10, u32::MAX as int)) {
            (Some(a), Some(b)) => Some((a as u32, b as u32)),
            _ => None,
        }
    } else {
        None
    }
}

fn first_dash(s: &Vec<char>, from: usize) -> (r: usize)
    requires
        from <= s@.len(),
    ensures
        from <= r <= s@.len(),
        forall|j: int| from <= j < r ==> s@[j] != '-',
        r < s@.len() ==> s@[r as int] == '-',
{
    let mut i = from;
    while i < s.len() && s[i] != '-'
        invariant
            from <= i <= s@.len(),
            forall|j: int| from <= j < i ==> s@[j] != '-',
        decreases s@.len() - i,
    {
        i += 1;
    }
    i
}

fn sub_chars(s: &Vec<char>, lo: usize, hi: usize) -> (r: Vec<char>)
    requires
        lo <= hi <= s@.len(),
    ensures
        r@ == s@.subrange(lo as int, hi as int),
{
    let mut r: Vec<char> = Vec::new();
    let mut i = lo;
    while i < hi
        invariant
            lo <= i <= hi <= s@.len(),
            r@ == s@.subrange(lo as int, i as int),
        decreases hi - i,
    {
        r.push(s[i]);
        i += 1;
        assert(r@ =~= s@.subrange(lo as int, i as int));
    }
    r
}

/// Reads the range of present cores from the `present` file. Fails with
/// `ComponentInfoInaccessible` where the text has no `-` or either bound
/// does not parse.
pub fn core_range(text: &str) -> (r: GhrResult<(u32, u32)>)
    ensures
        match present_range(text@) {
            Some(p) => r == Ok::<(u32, u32), GhrError>(p),
            None => r is Err && r->Err_0 is ComponentInfoInaccessible,
        },
{
    let s = trimmed_chars(text);
    let d = first_dash(&s, 0);
    if d == s.len() {
        return Err(GhrError::ComponentInfoInaccessible(String::from_str("no core range in the present file")));
    }
    let e = first_dash(&s, d + 1);
    let ghost rest = s@.subrange(d + 1, s@.len() as int);
    proof {
        assert forall|j: int| 0 <= j < d implies s@[j] != '-' by {}
        let dd = choose|i: int| 0 <= i < s@.len() && s@[i] == '-' && forall|j: int| 0 <= j < i ==> s@[j] != '-';
        if dd < d {
        } else if dd > d {
            assert(s@[d as int] == '-');
        }
        assert(dd == d);
        if e < s.len() {
            assert(rest[e - d - 1] == '-');
            let ee = choose|i: int| 0 <= i < rest.len() && rest[i] == '-' && forall|j: int| 0 <= j < i ==> rest[j] != '-';
            if ee < e - d - 1 {
                assert(rest[ee] == s@[d + 1 + ee]);
            } else if ee > e - d - 1 {
            }
            assert(ee == e - d - 1);
            assert(rest.subrange(0, ee) =~= s@.subrange(d + 1, e as int));
        } else {
            assert forall|i: int| 0 <= i < rest.len() implies rest[i] != '-' by {
                assert(rest[i] == s@[d + 1 + i]);
            }
            assert(rest =~= s@.subrange(d + 1, e as int));
        }
    }
    let first = sub_chars(&s, 0, d);
    let second = sub_chars(&s, d + 1, e);
    match (parse_unsigned_chars(&first, 10, u32::MAX as u64), parse_unsigned_chars(&second, 10, u32::MAX as u64)) {
        (Some(a), Some(b)) => Ok((a as u32, b as u32)),
        _ => Err(GhrError::ComponentInfoInaccessible(String::from_str("malformed core range in the present file"))),
    }
}

// ----- from cores to processors -----

/// The processor cache a core cache becomes, by level; levels other than
/// 1, 2 and 3 have none.
pub open spec fn cache_of(c: CoreCache) -> Option<Cache> {
    if c.level == 1 {
        Some(Cache::L1 { size: c.size, speed: None })
    } else if c.level == 2 {
        Some(Cache::L2 { size: c.size, speed: None })
    } else if c.level == 3 {
        Some(Cache::L3 { size: c.size, speed: None })
    } else {
        None
    }
}

impl Cache {
    /// Converts a core cache by its level; levels other than 1, 2 and 3
    /// are `ComponentInfoWeirdInfo`.
    pub fn try_from(value: CoreCache) -> (r: GhrResult<Cache>)
        ensures
            match cache_of(value) {
                Some(c) => r == Ok::<Cache, GhrError>(c),
                None => r is Err && r->Err_0 is ComponentInfoWeirdInfo,
            },
    {
        match value.level {
            1 => Ok(Cache::L1 { size: value.size, speed: None }),
            2 => Ok(Cache::L2 { size: value.size, speed: None }),
            3 => Ok(Cache::L3 { size: value.size, speed: None }),
            _ => Err(GhrError::ComponentInfoWeirdInfo(String::from_str("unexpected cache level"))),
        }
    }
}

/// The processor caches of a list of core caches, unknown levels dropped.
pub open spec fn converted(cs: Seq<CoreCache>) -> Seq<Cache>
    decreases cs.len(),
{
    if cs.len() == 0 {
        seq![]
    } else {
        match cache_of(cs.last()) {
            Some(c) => converted(cs.drop_last()).push(c),
            None => converted(cs.drop_last()),
        }
    }
}

fn convert_caches(cs: &Vec<CoreCache>) -> (r: Vec<Cache>)
    ensures
        r@ == converted(cs@),
{
    let mut r: Vec<Cache> = Vec::new();
    let mut i: usize = 0;
    while i < cs.len()
        invariant
            i <= cs@.len(),
            r@ == converted(cs@.subrange(0, i as int)),
        decreases cs@.len() - i,
    {
        assert(cs@.subrange(0, i + 1).drop_last() =~= cs@.subrange(0, i as int));
        assert(cs@.subrange(0, i + 1).last() == cs@[i as int]);
        match Cache::try_from(cs[i]) {
            Ok(c) => r.push(c),
            Err(_) => {},
        }
        i += 1;
    }
    assert(cs@.subrange(0, cs@.len() as int) =~= cs@);
    r
}

/// A core of the report carries the converted caches and the speeds of
/// its reading.
pub open spec fn core_matches(c: Core, r: CoreReading) -> bool {
    c.cache is Some && c.cache->0@ == converted(r.cache@) && c.speeds == r.speeds
}

impl Core {
    /// The report's core for a core reading.
    pub fn from(value: &CoreReading) -> (r: Core)
        ensures
            core_matches(r, *value),
    {
        Core { cache: Some(convert_caches(&value.cache)), speeds: value.speeds }
    }
}

/// The cores of `cs` on processor `pid`, in order.
pub open spec fn group(cs: Seq<CoreReading>, pid: u32) -> Seq<CoreReading>
    decreases cs.len(),
{
    if cs.len() == 0 {
        seq![]
    } else if cs.last().processor_id == pid {
        group(cs.drop_last(), pid).push(cs.last())
    } else {
        group(cs.drop_last(), pid)
    }
}

/// The processor ids of `cs`, each once, in order of first appearance.
pub open spec fn processor_ids(cs: Seq<CoreReading>) -> Seq<u32>
    decreases cs.len(),
{
    if cs.len() == 0 {
        seq![]
    } else if processor_ids(cs.drop_last()).contains(cs.last().processor_id) {
        processor_ids(cs.drop_last())
    } else {
        processor_ids(cs.drop_last()).push(cs.last().processor_id)
    }
}

/// `a` is a strictly higher maximum than `b`; a known value beats an
/// unknown one.
pub open spec fn higher(a: Option<u32>, b: Option<u32>) -> bool {
    match (a, b) {
        (Some(x), Some(y)) => x > y,
        (Some(_), None) => true,
        (None, _) => false,
    }
}

/// The speeds of the first core with the highest maximum frequency.
pub open spec fn best_speeds(cs: Seq<CoreReading>) -> Frequency
    decreases cs.len(),
{
    if cs.len() == 0 {
        Frequency { min: None, max: None }
    } else {
        let b = best_speeds(cs.drop_last());
        if higher(cs.last().speeds.max, b.max) {
            cs.last().speeds
        } else {
            b
        }
    }
}

/// Every cache of every core of `cs`, concatenated in order.
pub open spec fn all_caches(cs: Seq<CoreReading>) -> Seq<Cache>
    decreases cs.len(),
{
    if cs.len() == 0 {
        seq![]
    } else {
        all_caches(cs.drop_last()) + converted(cs.last().cache@)
    }
}

/// The entry of an indexed table of names, if the index is in range.
pub open spec fn name_at(names: Seq<Option<String>>, i: int) -> Option<Seq<char>> {
    if 0 <= i < names.len() {
        opt_view(names[i])
    } else {
        None
    }
}

/// What the component for processor `pid` holds: the name and vendor at
/// index `pid` of the tables, and a description of its cores.
pub open spec fn processor_spec(
    c: ComponentInfo,
    pid: u32,
    cores: Seq<CoreReading>,
    models: Seq<Option<String>>,
    vendors: Seq<Option<String>>,
) -> bool {
    let g = group(cores, pid);
    &&& c.bus == ComponentBus::Sys
    &&& opt_view(c.id) == name_at(models, pid as int)
    &&& c.class is None
    &&& opt_view(c.vendor_id) == name_at(vendors, pid as int)
    &&& c.status is None
    &&& c.desc matches ComponentDescription::CpuDescription(d) && {
        &&& d.clock_speed == best_speeds(g)
        &&& d.core_ct == Some(g.len() as u32)
        &&& d.cache is Some && d.cache->0@ == all_caches(g)
        &&& d.cores is Some && d.cores->0@.len() == g.len()
        &&& forall|j: int| 0 <= j < g.len() ==> core_matches(#[trigger] d.cores->0@[j], g[j])
    }
}

fn name_at_exec(names: &Vec<Option<String>>, i: u32) -> (r: Option<String>)
    ensures
        opt_view(r) == name_at(names@, i as int),
{
    let k = i as usize;
    if k < names.len() {
        copy_opt(&names[k])
    } else {
        None
    }
}

fn processor(
    pid: u32,
    cores: &Vec<CoreReading>,
    models: &Vec<Option<String>>,
    vendors: &Vec<Option<String>>,
) -> (c: ComponentInfo)
    ensures
        processor_spec(c, pid, cores@, models@, vendors@),
{
    let mut best = Frequency { min: None, max: None };
    let mut caches: Vec<Cache> = Vec::new();
    let mut list: Vec<Core> = Vec::new();
    let mut count: usize = 0;
    let mut i: usize = 0;
    while i < cores.len()
        invariant
            i <= cores@.len(),
            best == best_speeds(group(cores@.subrange(0, i as int), pid)),
            caches@ == all_caches(group(cores@.subrange(0, i as int), pid)),
            count == group(cores@.subrange(0, i as int), pid).len(),
            list@.len() == count,
            forall|j: int| 0 <= j < count ==> core_matches(#[trigger] list@[j], group(cores@.subrange(0, i as int), pid)[j]),
            count <= i,
        decreases cores@.len() - i,
    {
        let ghost pre = group(cores@.subrange(0, i as int), pid);
        assert(cores@.subrange(0, i + 1).drop_last() =~= cores@.subrange(0, i as int));
        assert(cores@.subrange(0, i + 1).last() == cores@[i as int]);
        let core = &cores[i];
        if core.processor_id == pid {
            let higher_max = match (core.speeds.max, best.max) {
                (Some(x), Some(y)) => x > y,
                (Some(_), None) => true,
                (None, _) => false,
            };
            if higher_max {
                best = core.speeds;
            }
            let mut converted_caches = convert_caches(&core.cache);
            caches.append(&mut converted_caches);
            list.push(Core::from(core));
            count += 1;
            let ghost now = group(cores@.subrange(0, i + 1), pid);
            assert(now == pre.push(cores@[i as int]));
            assert(now.drop_last() =~= pre);
            assert(now.last() == cores@[i as int]);
            assert forall|j: int| 0 <= j < count implies core_matches(#[trigger] list@[j], now[j]) by {
                if j < count - 1 {
                    assert(now[j] == pre[j]);
                }
            }
        } else {
            assert(group(cores@.subrange(0, i + 1), pid) == pre);
        }
        i += 1;
    }
    assert(cores@.subrange(0, cores@.len() as int) =~= cores@);
    ComponentInfo::new(
        ComponentBus::Sys,
        name_at_exec(models, pid),
        None,
        name_at_exec(vendors, pid),
        None,
        ComponentDescription::CpuDescription(CpuDescription {
            clock_speed: best,
            core_ct: Some(count as u32),
            cache: Some(caches),
            cores: Some(list),
        }),
    )
}

fn ids_of(cores: &Vec<CoreReading>) -> (r: Vec<u32>)
    ensures
        r@ == processor_ids(cores@),
{
    broadcast use vstd::std_specs::hash::group_hash_axioms;
    let mut r: Vec<u32> = Vec::new();
    let mut seen: std::collections::HashSet<u32> = std::collections::HashSet::new();
    let mut i: usize = 0;
    while i < cores.len()
        invariant
            i <= cores@.len(),
            r@ == processor_ids(cores@.subrange(0, i as int)),
            forall|p: u32| #[trigger] seen@.contains(p) <==> r@.contains(p),
        decreases cores@.len() - i,
    {
        assert(cores@.subrange(0, i + 1).drop_last() =~= cores@.subrange(0, i as int));
        assert(cores@.subrange(0, i + 1).last() == cores@[i as int]);
        let pid = cores[i].processor_id;
        if !seen.contains(&pid) {
            let ghost before = r@;
            seen.insert(pid);
            r.push(pid);
            assert forall|p: u32| #[trigger] seen@.contains(p) <==> r@.contains(p) by {
                if p != pid && r@.contains(p) {
                    let k = choose|k: int| 0 <= k < r@.len() && r@[k] == p;
                    assert(before[k] == p);
                }
                if p == pid {
                    assert(r@[r@.len() - 1] == pid);
                }
                if p != pid && seen@.contains(p) {
                    assert(before.contains(p));
                    let k = choose|k: int| 0 <= k < before.len() && before[k] == p;
                    assert(r@[k] == p);
                }
            }
        }
        i += 1;
    }
    assert(cores@.subrange(0, cores@.len() as int) =~= cores@);
    r
}

/// Groups core readings by processor and builds one component per
/// processor, in order of first appearance. A processor's clock speed is
/// the speed range of its core with the highest maximum (the first such
/// core), its core count the number of its cores, its caches those of all
/// its cores concatenated. Its name and vendor come from the tables at the
/// processor's index.
pub fn cpu(cores: &Vec<CoreReading>, models: &Vec<Option<String>>, vendors: &Vec<Option<String>>) -> (r: Vec<ComponentInfo>)
    ensures
        r@.len() == processor_ids(cores@).len(),
        forall|i: int| 0 <= i < r@.len() ==> processor_spec(#[trigger] r@[i], processor_ids(cores@)[i], cores@, models@, vendors@),
{
    let ids = ids_of(cores);
    let mut r: Vec<ComponentInfo> = Vec::new();
    let mut k: usize = 0;
    while k < ids.len()
        invariant
            k <= ids@.len(),
            ids@ == processor_ids(cores@),
            r@.len() == k,
            forall|i: int| 0 <= i < k ==> processor_spec(#[trigger] r@[i], ids@[i], cores@, models@, vendors@),
        decreases ids@.len() - k,
    {
        r.push(processor(ids[k], cores, models, vendors));
        k += 1;
    }
    r
}

/// Builds a processor component from a management-instrumentation record:
/// its name (trimmed), manufacturer, maximum clock speed and core count.
pub fn cpu_from_record(
    name: Option<String>,
    manufacturer: Option<String>,
    max_clock_speed: Option<u32>,
    number_of_cores: Option<u32>,
) -> (c: ComponentInfo)
    ensures
        c.bus == ComponentBus::Sys,
        opt_view(c.id) == match name {
            Some(n) => Some(trim(n@)),
            None => None,
        },
        c.class is None,
        c.vendor_id == manufacturer,
        c.status is None,
        c.desc == ComponentDescription::CpuDescription(
            CpuDescription {
                clock_speed: Frequency { min: None, max: max_clock_speed },
                core_ct: number_of_cores,
                cache: None,
                cores: None,
            },
        ),
{
    let id = match name {
        Some(n) => Some(crate::text::trim_string(n.as_str())),
        None => None,
    };
    ComponentInfo::new(
        ComponentBus::Sys,
        id,
        None,
        manufacturer,
        None,
        ComponentDescription::CpuDescription(
            CpuDescription {
                clock_speed: Frequency { min: None, max: max_clock_speed },
                core_ct: number_of_cores,
                cache: None,
                cores: None,
            },
        ),
    )
}

/// The component a processor record gives.
pub open spec fn processor_record_spec(rec: Record, c: ComponentInfo) -> bool {
    &&& c.bus == ComponentBus::Sys
    &&& opt_view(c.id) == match string_of_value(field(rec.fields@, "Name"@)) {
        Some(n) => Some(trim(n)),
        None => None,
    }
    &&& c.class is None
    &&& opt_view(c.vendor_id) == string_of_value(field(rec.fields@, "Manufacturer"@))
    &&& c.status is None
    &&& c.desc == ComponentDescription::CpuDescription(CpuDescription {
        clock_speed: Frequency { min: None, max: u32_of_value(field(rec.fields@, "MaxClockSpeed"@)) },
        core_ct: u32_of_value(field(rec.fields@, "NumberOfCores"@)),
        cache: None,
        cores: None,
    })
}

/// Makes one processor component of each processor record, in order.
pub fn from_wmi_query(recs: &Vec<Record>) -> (r: Vec<ComponentInfo>)
    ensures
        r@.len() == recs@.len(),
        forall|i: int| 0 <= i < r@.len() ==> processor_record_spec(recs@[i], #[trigger] r@[i]),
{
    let mut r: Vec<ComponentInfo> = Vec::new();
    let mut i: usize = 0;
    while i < recs.len()
        invariant
            i <= recs@.len(),
            r@.len() == i,
            forall|k: int| 0 <= k < i ==> processor_record_spec(recs@[k], #[trigger] r@[k]),
        decreases recs@.len() - i,
    {
        let rec = &recs[i];
        let c = cpu_from_record(
            string_from_variant(rec.get("Name")),
            string_from_variant(rec.get("Manufacturer")),
            u32_from_variant(rec.get("MaxClockSpeed")),
            u32_from_variant(rec.get("NumberOfCores")),
        );
        r.push(c);
        i += 1;
    }
    r
}

} // verus!
