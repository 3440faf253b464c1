//! Decisions of the command-line front end: reading the answer to the
//! upload confirmation, and where a report is sent.

use vstd::prelude::*;
use crate::gpu::eq_ignore_case;
use crate::text::{chars_of, parse_unsigned, parse_unsigned_chars, string_of, trim, trimmed_chars};

verus! {

/// The answer a confirmation reply gives, compared trimmed and ignoring
/// ASCII case: yes for `yes`, `y`, `t`, `true`, `yuh` or an empty reply,
/// no for `no`, `n`, `f`, `false`, and no answer for anything else.
pub open spec fn answer_of(reply: Seq<char>) -> Option<bool> {
    let t = trim(reply);
    if eq_ignore_case(t, "yes"@) || eq_ignore_case(t, "y"@) || eq_ignore_case(t, "t"@)
        || eq_ignore_case(t, "true"@) || eq_ignore_case(t, "yuh"@) || t.len() == 0 {
        Some(true)
    } else if eq_ignore_case(t, "no"@) || eq_ignore_case(t, "n"@) || eq_ignore_case(t, "f"@)
        || eq_ignore_case(t, "false"@) {
        Some(false)
    } else {
        None
    }
}

fn is_word(t: &Vec<char>, w: &str) -> (r: bool)
    ensures
        r == eq_ignore_case(t@, w@),
{
    let wc = chars_of(w);
    crate::gpu::eq_ignore_case_exec(t, &wc)
}

/// Reads a reply to the upload confirmation; `None` means ask again.
pub fn confirm_answer(reply: &str) -> (r: Option<bool>)
    ensures
        r == answer_of(reply@),
{
    let t = trimmed_chars(reply);
    if is_word(&t, "yes") || is_word(&t, "y") || is_word(&t, "t") || is_word(&t, "true")
        || is_word(&t, "yuh") || t.len() == 0 {
        Some(true)
    } else if is_word(&t, "no") || is_word(&t, "n") || is_word(&t, "f") || is_word(&t, "false") {
        Some(false)
    } else {
        None
    }
}

/// Where a report is sent: a host, a port, and the request path.
pub struct UploadTarget {
    pub host: String,
    pub port: u16,
    pub path: String,
}

/// The characters `http://`.
pub open spec fn scheme() -> Seq<char> {
    "http://"@
}

/// The index of the first `c` in `s` at or after `from`, or `s.len()`.
pub open spec fn first_at(s: Seq<char>, from: int, c: char) -> int
    decreases s.len() - from,
{
    if from >= s.len() {
        s.len() as int
    } else if s[from] == c {
        from
    } else {
        first_at(s, from + 1, c)
    }
}

fn first_at_exec(s: &Vec<char>, from: usize, c: char) -> (r: usize)
    requires
        from <= s@.len(),
    ensures
        r == first_at(s@, from as int, c),
        from <= r <= s@.len(),
{
    let mut i = from;
    while i < s.len() && s[i] != c
        invariant
            from <= i <= s@.len(),
            first_at(s@, from as int, c) == first_at(s@, i as int, c),
        decreases s@.len() - i,
    {
        i += 1;
    }
    i
}

/// The target for a server URL `http://host[:port][/prefix]`: the port
/// defaults to 80, and the path is the prefix followed by `/add_report`.
/// Other URLs, an empty host, and a port that is not a `u16` give none.
pub open spec fn target_of(server: Seq<char>) -> Option<(Seq<char>, u16, Seq<char>)> {
    let n = scheme().len() as int;
    if server.len() < n || server.subrange(0, n) != scheme() {
        None
    } else {
        let rest = server.subrange(n, server.len() as int);
        let slash = first_at(rest, 0, '/');
        let authority = rest.subrange(0, slash);
        let prefix = rest.subrange(slash, rest.len() as int);
        let colon = first_at(authority, 0, ':');
        let host = authority.subrange(0, colon);
        let path = prefix + "/add_report"@;
        if host.len() == 0 {
            None
        } else if colon == authority.len() {
            Some((host, 80u16, path))
        } else {
            match parse_unsigned(authority.subrange(colon + 1, authority.len() as int), 10, 0xffff) {
                Some(p) => Some((host, p as u16, path)),
                None => None,
            }
        }
    }
}

fn range(s: &Vec<char>, lo: usize, hi: usize) -> (r: Vec<char>)
    requires
        lo <= hi <= s@.len(),
    ensures
        r@ == s@.subrange(lo as int, hi as int),
{
    let mut r: Vec<char> = Vec::new();
    let mut i = lo;
    while i < hi
        invariant
            lo <= i <= hi <= s@.len(),
            r@ == s@.subrange(lo as int, i as int),
        decreases hi - i,
    {
        r.push(s[i]);
        i += 1;
        assert(r@ =~= s@.subrange(lo as int, i as int));
    }
    r
}

/// Finds where to send a report for the server URL `server`.
pub fn upload_target(server: &str) -> (r: Option<UploadTarget>)
    ensures
        match target_of(server@) {
            Some((h, p, path)) => r is Some && r->0.host@ == h && r->0.port == p && r->0.path@ == path,
            None => r is None,
        },
{
    let s = chars_of(server);
    let sch = chars_of("http://");
    if s.len() < sch.len() {
        return None;
    }
    let head = range(&s, 0, sch.len());
    if !crate::text::eq_chars(&head, &sch) {
        return None;
    }
    let rest = range(&s, sch.len(), s.len());
    let slash = first_at_exec(&rest, 0, '/');
    let authority = range(&rest, 0, slash);
    let prefix = range(&rest, slash, rest.len());
    let colon = first_at_exec(&authority, 0, ':');
    let host = range(&authority, 0, colon);
    let mut path = prefix;
    let tail = chars_of("/add_report");
    let ghost start = path@;
    let mut i: usize = 0;
    while i < tail.len()
        invariant
            i <= tail@.len(),
            path@ == start + tail@.subrange(0, i as int),
        decreases tail@.len() - i,
    {
        path.push(tail[i]);
        i += 1;
        assert(path@ =~= start + tail@.subrange(0, i as int));
    }
    assert(tail@.subrange(0, tail@.len() as int) =~= tail@);
    if host.len() == 0 {
        return None;
    }
    let port: u16 = if colon == authority.len() {
        80
    } else {
        let digits = range(&authority, colon + 1, authority.len());
        match parse_unsigned_chars(&digits, 10, 0xffff) {
            Some(p) => p as u16,
            None => return None,
        }
    };
    Some(UploadTarget { host: string_of(&host), port, path: string_of(&path) })
}

} // verus!
