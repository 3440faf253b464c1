//! Operating system information.

use vstd::prelude::*;
use crate::error::{GhrError, GhrResult};
use crate::text::{chars_of, contains, contains_chars, opt_view, remove_all, remove_all_chars, string_of, trim, trim_bounds};

verus! {

/// Information describing the running operating system.
#[derive(Clone, Debug, PartialEq)]
pub struct OperatingSystemInfo {
    name: String,
    distro_name: Option<String>,
    version: String,
    architecture: String,
    /// Platform-specific extras as (key, value) pairs, in insertion order.
    other: Vec<(String, String)>,
}

impl OperatingSystemInfo {
    /// Builds the information from its parts.
    pub fn new(
        name: String,
        distro_name: Option<String>,
        version: String,
        arch: String,
        other: Vec<(String, String)>,
    ) -> (r: OperatingSystemInfo)
        ensures
            r.spec_name() == name@,
            opt_view(r.spec_distro_name()) == opt_view(distro_name),
            r.spec_version() == version@,
            r.spec_arch() == arch@,
            r.spec_other() == other@,
    {
        OperatingSystemInfo { name, distro_name, version, architecture: arch, other }
    }

    pub closed spec fn spec_name(&self) -> Seq<char> {
        self.name@
    }

    pub closed spec fn spec_distro_name(&self) -> Option<String> {
        self.distro_name
    }

    pub closed spec fn spec_version(&self) -> Seq<char> {
        self.version@
    }

    pub closed spec fn spec_arch(&self) -> Seq<char> {
        self.architecture@
    }

    pub closed spec fn spec_other(&self) -> Seq<(String, String)> {
        self.other@
    }

    /// The operating system's name, such as `Linux`.
    pub fn name(&self) -> (r: String)
        ensures
            r@ == self.spec_name(),
    {
        self.name.clone()
    }

    /// The human-readable distribution name, where one is known.
    pub fn distro_name(&self) -> (r: Option<String>)
        ensures
            opt_view(r) == opt_view(self.spec_distro_name()),
    {
        crate::text::copy_opt(&self.distro_name)
    }

    /// The operating system's version, such as `6.11.3-200.fc40.x86_64`.
    pub fn version(&self) -> (r: String)
        ensures
            r@ == self.spec_version(),
    {
        self.version.clone()
    }

    /// The architecture, such as `aarch64`.
    pub fn arch(&self) -> (r: String)
        ensures
            r@ == self.spec_arch(),
    {
        self.architecture.clone()
    }

    /// Platform-specific extras, as (key, value) pairs.
    pub fn other(&self) -> (r: &Vec<(String, String)>)
        ensures
            r@ == self.spec_other(),
    {
        &self.other
    }
}

/// The first line of `text` holding `key=`, if any.
pub open spec fn first_line_with(lines: Seq<Seq<char>>, pat: Seq<char>) -> Option<Seq<char>>
    decreases lines.len(),
{
    if lines.len() == 0 {
        None
    } else if contains(lines[0], pat) {
        Some(lines[0])
    } else {
        first_line_with(lines.drop_first(), pat)
    }
}

/// The part of `s` after its last `c` (all of `s` if it has none).
pub open spec fn after_last(s: Seq<char>, c: char) -> Seq<char>
    decreases s.len(),
{
    if s.len() == 0 {
        s
    } else if s.last() == c {
        seq![]
    } else {
        after_last(s.drop_last(), c).push(s.last())
    }
}

/// The lines of `s`: split at `\n`, a `\r` before it dropped, no empty
/// last line after a final `\n`.
pub open spec fn line_scan(s: Seq<char>) -> (Seq<Seq<char>>, Seq<char>)
    decreases s.len(),
{
    if s.len() == 0 {
        (seq![], seq![])
    } else {
        let (done, cur) = line_scan(s.drop_last());
        if s.last() == '\n' {
            (done.push(if cur.len() > 0 && cur.last() == '\r' {
                cur.drop_last()
            } else {
                cur
            }), seq![])
        } else {
            (done, cur.push(s.last()))
        }
    }
}

/// The lines of `s`, as `str::lines` gives them.
pub open spec fn lines(s: Seq<char>) -> Seq<Seq<char>> {
    let (done, cur) = line_scan(s);
    if cur.len() > 0 {
        done.push(cur)
    } else {
        done
    }
}

/// The distribution name in an `os-release` text: on the first line that
/// holds `PRETTY_NAME=`, the part after the last `=`, with every `"`
/// removed, trimmed.
pub open spec fn distro_name_of(os_release: Seq<char>) -> Option<Seq<char>> {
    match first_line_with(lines(os_release), "PRETTY_NAME="@) {
        Some(line) => Some(trim(remove_all(after_last(line, '='), seq!['"']))),
        None => None,
    }
}

fn lines_exec(s: &Vec<char>) -> (r: Vec<Vec<char>>)
    ensures
        r@.len() == lines(s@).len(),
        forall|i: int| 0 <= i < r@.len() ==> (#[trigger] r@[i])@ == lines(s@)[i],
{
    let n = s.len();
    let mut done: Vec<Vec<char>> = Vec::new();
    let mut cur: Vec<char> = Vec::new();
    let ghost done_v: Seq<Seq<char>> = seq![];
    let mut i: usize = 0;
    assert(s@.subrange(0, 0) =~= Seq::<char>::empty());
    while i < n
        invariant
            i <= n == s@.len(),
            line_scan(s@.subrange(0, i as int)) == (done_v, cur@),
            done@.len() == done_v.len(),
            forall|k: int| 0 <= k < done@.len() ==> (#[trigger] done@[k])@ == done_v[k],
        decreases n - i,
    {
        let c = s[i];
        assert(s@.subrange(0, i + 1).drop_last() =~= s@.subrange(0, i as int));
        if c == '\n' {
            if cur.len() > 0 && cur[cur.len() - 1] == '\r' {
                cur.pop();
            }
            let ghost cv = cur@;
            done.push(cur);
            proof {
                done_v = done_v.push(cv);
            }
            cur = Vec::new();
        } else {
            cur.push(c);
        }
        i += 1;
        assert(s@.subrange(0, i as int).last() == c);
    }
    assert(s@.subrange(0, n as int) =~= s@);
    if cur.len() > 0 {
        let ghost cv = cur@;
        done.push(cur);
        proof {
            done_v = done_v.push(cv);
        }
    }
    done
}

fn after_last_exec(s: &Vec<char>, c: char) -> (r: Vec<char>)
    ensures
        r@ == after_last(s@, c),
{
    let n = s.len();
    let mut j = n;
    assert(s@.subrange(0, n as int) =~= s@);
    assert(after_last(s@, c) =~= after_last(s@.subrange(0, n as int), c) + s@.subrange(n as int, n as int));
    while j > 0 && s[j - 1] != c
        invariant
            j <= n == s@.len(),
            after_last(s@, c) == after_last(s@.subrange(0, j as int), c) + s@.subrange(j as int, n as int),
        decreases j,
    {
        let ghost pre = s@.subrange(0, j as int);
        assert(pre.drop_last() =~= s@.subrange(0, j - 1));
        assert(after_last(s@.subrange(0, j - 1), c).push(s@[j - 1]) + s@.subrange(j as int, n as int)
            =~= after_last(s@.subrange(0, j - 1), c) + s@.subrange(j - 1, n as int));
        j -= 1;
    }
    assert(after_last(s@.subrange(0, j as int), c) =~= Seq::<char>::empty());
    let mut r: Vec<char> = Vec::new();
    let mut k = j;
    while k < n
        invariant
            j <= k <= n == s@.len(),
            r@ == s@.subrange(j as int, k as int),
        decreases n - k,
    {
        r.push(s[k]);
        k += 1;
        assert(r@ =~= s@.subrange(j as int, k as int));
    }
    assert(after_last(s@, c) =~= r@);
    r
}

/// Finds the distribution name, such as "Fedora Linux 40 (Forty)", in the
/// contents of an `os-release` file.
pub fn find_distro_name(os_release: &str) -> (r: Option<String>)
    ensures
        opt_view(r) == distro_name_of(os_release@),
{
    let cs = chars_of(os_release);
    let ls = lines_exec(&cs);
    let key = chars_of("PRETTY_NAME=");
    let ghost lv = lines(os_release@);
    let mut i: usize = 0;
    assert(lv.subrange(0, ls@.len() as int) =~= lv);
    while i < ls.len()
        invariant
            i <= ls@.len() == lv.len(),
            lv == lines(os_release@),
            cs@ == os_release@,
            key@ == "PRETTY_NAME="@,
            forall|k: int| 0 <= k < ls@.len() ==> (#[trigger] ls@[k])@ == lv[k],
            first_line_with(lv, "PRETTY_NAME="@) == first_line_with(lv.subrange(i as int, lv.len() as int), "PRETTY_NAME="@),
        decreases ls@.len() - i,
    {
        let ghost rest = lv.subrange(i as int, lv.len() as int);
        assert(rest[0] == lv[i as int]);
        assert(ls@[i as int]@ == lv[i as int]);
        if contains_chars(&ls[i], &key) {
            let tail = after_last_exec(&ls[i], '=');
            let quote: Vec<char> = vec!['"'];
            assert(quote@ =~= seq!['"']);
            let unq = remove_all_chars(&tail, &quote);
            let (lo, hi) = trim_bounds(&unq);
            let mut out: Vec<char> = Vec::new();
            let mut k = lo;
            while k < hi
                invariant
                    lo <= k <= hi <= unq@.len(),
                    out@ == unq@.subrange(lo as int, k as int),
                decreases hi - k,
            {
                out.push(unq[k]);
                k += 1;
                assert(out@ =~= unq@.subrange(lo as int, k as int));
            }
            return Some(string_of(&out));
        }
        assert(rest.drop_first() =~= lv.subrange(i + 1, lv.len() as int));
        i += 1;
    }
    None
}

/// The kernel identity that the uname call reports.
pub struct Uname {
    pub sysname: String,
    pub release: String,
    pub machine: String,
    pub version: String,
    pub domainname: String,
    pub nodename: String,
}

/// Assembles the operating system information from the kernel identity and
/// the `os-release` text, where it could be read. The extras hold the
/// kernel's version string, domain name and node name.
pub fn os_info(uname: Uname, os_release: Option<String>) -> (r: OperatingSystemInfo)
    ensures
        r.spec_name() == uname.sysname@,
        r.spec_version() == uname.release@,
        r.spec_arch() == uname.machine@,
        opt_view(r.spec_distro_name()) == match os_release {
            Some(t) => distro_name_of(t@),
            None => None,
        },
        r.spec_other().len() == 3,
        r.spec_other()[0].0@ == "version"@ && r.spec_other()[0].1@ == uname.version@,
        r.spec_other()[1].0@ == "domainname"@ && r.spec_other()[1].1@ == uname.domainname@,
        r.spec_other()[2].0@ == "nodename"@ && r.spec_other()[2].1@ == uname.nodename@,
{
    let distro_name = match &os_release {
        Some(t) => find_distro_name(t.as_str()),
        None => None,
    };
    let mut other: Vec<(String, String)> = Vec::new();
    other.push((String::from_str("version"), uname.version));
    other.push((String::from_str("domainname"), uname.domainname));
    other.push((String::from_str("nodename"), uname.nodename));
    OperatingSystemInfo::new(uname.sysname, distro_name, uname.release, uname.machine, other)
}

/// The decimal digit for `d` (0 to 9).
pub open spec fn digit_char(d: nat) -> char {
    if d == 0 { '0' } else if d == 1 { '1' } else if d == 2 { '2' } else if d == 3 { '3' } else if d == 4 { '4' }
    else if d == 5 { '5' } else if d == 6 { '6' } else if d == 7 { '7' } else if d == 8 { '8' } else { '9' }
}

/// `n` written in decimal, without leading zeros.
pub open spec fn decimal(n: nat) -> Seq<char>
    decreases n,
{
    if n < 10 {
        seq![digit_char(n)]
    } else {
        decimal(n / 10).push(digit_char(n % 10))
    }
}

fn digit_char_exec(d: u32) -> (r: char)
    requires
        d < 10,
    ensures
        r == digit_char(d as nat),
{
    if d == 0 { '0' } else if d == 1 { '1' } else if d == 2 { '2' } else if d == 3 { '3' } else if d == 4 { '4' }
    else if d == 5 { '5' } else if d == 6 { '6' } else if d == 7 { '7' } else if d == 8 { '8' } else { '9' }
}

fn push_decimal(out: &mut Vec<char>, n: u32)
    ensures
        final(out)@ == old(out)@ + decimal(n as nat),
    decreases n,
{
    if n >= 10 {
        push_decimal(out, n / 10);
    }
    out.push(digit_char_exec(n % 10));
    proof {
        if n < 10 {
            assert(n % 10 == n);
        }
    }
    assert(out@ =~= old(out)@ + decimal(n as nat));
}

/// A Windows version string `major.minor.build`.
pub open spec fn version_string(major: u32, minor: u32, build: u32) -> Seq<char> {
    decimal(major as nat) + seq!['.'] + decimal(minor as nat) + seq!['.'] + decimal(build as nat)
}

/// Assembles the operating system information on Windows from the
/// reported version numbers and the processor-architecture variable.
/// Fails with `OsInfoInaccessible` where the architecture is unknown.
pub fn windows_os_info(major: u32, minor: u32, build: u32, arch: Result<String, String>) -> (r: GhrResult<OperatingSystemInfo>)
    ensures
        match arch {
            Err(_) => r is Err && r->Err_0 is OsInfoInaccessible,
            Ok(a) => r is Ok && r->Ok_0.spec_name() == "Windows"@ && r->Ok_0.spec_distro_name() is None
                && r->Ok_0.spec_version() == version_string(major, minor, build)
                && r->Ok_0.spec_arch() == a@ && r->Ok_0.spec_other().len() == 0,
        },
{
    let arch = match arch {
        Ok(a) => a,
        Err(e) => return Err(GhrError::OsInfoInaccessible(e)),
    };
    let mut v: Vec<char> = Vec::new();
    push_decimal(&mut v, major);
    v.push('.');
    push_decimal(&mut v, minor);
    v.push('.');
    push_decimal(&mut v, build);
    assert(v@ =~= version_string(major, minor, build));
    Ok(OperatingSystemInfo::new(String::from_str("Windows"), None, string_of(&v), arch, Vec::new()))
}

} // verus!
