//! Where the command-line front end keeps its log files.

use vstd::prelude::*;
use crate::text::{chars_of, string_of};

verus! {

/// Relies on `dirs::cache_dir`: the user's cache directory, if the
/// platform has one; it depends on the environment.
#[verifier::external_body]
fn cache_dir() -> (r: Option<String>) {
    dirs::cache_dir().map(|p| p.display().to_string())
}

/// `base` joined with the relative name `name`: `name` alone for an empty
/// base, else separated by one `/` unless `base` already ends in one.
pub open spec fn join(base: Seq<char>, name: Seq<char>) -> Seq<char> {
    if base.len() == 0 {
        name
    } else if base.last() == '/' {
        base + name
    } else {
        base + seq!['/'] + name
    }
}

/// Joins a directory and a relative name.
pub fn join_path(base: &str, name: &str) -> (r: String)
    ensures
        r@ == join(base@, name@),
{
    let mut cs = chars_of(base);
    let ghost b = cs@;
    if cs.len() > 0 && cs[cs.len() - 1] != '/' {
        cs.push('/');
    }
    let ns = chars_of(name);
    let ghost start = cs@;
    let mut i: usize = 0;
    while i < ns.len()
        invariant
            i <= ns@.len(),
            cs@ == start + ns@.subrange(0, i as int),
        decreases ns@.len() - i,
    {
        cs.push(ns[i]);
        i += 1;
        assert(cs@ =~= start + ns@.subrange(0, i as int));
    }
    assert(ns@.subrange(0, ns@.len() as int) =~= ns@);
    assert(cs@ =~= join(base@, name@));
    string_of(&cs)
}

/// The log directory inside a cache directory.
pub fn log_location_in(cache: &str) -> (r: String)
    ensures
        r@ == join(cache@, "ghr"@),
{
    join_path(cache, "ghr")
}

/// The location of the latest log file inside a cache directory.
pub fn latest_log_location_in(cache: &str) -> (r: String)
    ensures
        r@ == join(join(cache@, "ghr"@), "ghr.latest.log"@),
{
    let dir = log_location_in(cache);
    join_path(dir.as_str(), "ghr.latest.log")
}

/// The location of the latest log file in the user's cache directory;
/// `None` where the platform has no cache directory.
pub fn latest_log_location() -> (r: Option<String>)
    ensures
        r is Some ==> exists|c: Seq<char>| r->0@ == join(join(c, "ghr"@), "ghr.latest.log"@),
{
    match cache_dir() {
        Some(c) => {
            let r = latest_log_location_in(c.as_str());
            Some(r)
        },
        None => None,
    }
}

} // verus!
