//! Text handling shared by the probes: trimming, number parsing, searching
//! and removing substrings, picking lines and tokens. Every operation is
//! stated over `Seq<char>`.

use vstd::prelude::*;

verus! {

// ----- conversion between strings and characters -----

/// Relies on `String::push`: appends one character.
#[verifier::external_body]
fn push_char(s: &mut String, c: char)
    ensures
        final(s)@ == old(s)@.push(c),
{
    s.push(c)
}

/// The characters of `s`, in order.
pub fn chars_of(s: &str) -> (r: Vec<char>)
    ensures
        r@ == s@,
{
    let n = s.unicode_len();
    let mut r: Vec<char> = Vec::new();
    let mut i: usize = 0;
    while i < n
        invariant
            n == s@.len(),
            i <= n,
            r@ == s@.subrange(0, i as int),
        decreases n - i,
    {
        r.push(s.get_char(i));
        i += 1;
    }
    assert(r@ =~= s@);
    r
}

/// A string holding the characters `cs@[from..to]`.
pub fn string_of_range(cs: &Vec<char>, from: usize, to: usize) -> (r: String)
    requires
        from <= to <= cs@.len(),
    ensures
        r@ == cs@.subrange(from as int, to as int),
{
    let mut r = String::new();
    let mut i = from;
    while i < to
        invariant
            from <= i <= to <= cs@.len(),
            r@ == cs@.subrange(from as int, i as int),
        decreases to - i,
    {
        push_char(&mut r, cs[i]);
        i += 1;
        assert(r@ =~= cs@.subrange(from as int, i as int));
    }
    r
}

/// A string holding the characters `cs@`.
pub fn string_of(cs: &Vec<char>) -> (r: String)
    ensures
        r@ == cs@,
{
    let r = string_of_range(cs, 0, cs.len());
    assert(cs@.subrange(0, cs@.len() as int) =~= cs@);
    r
}

/// A copy of an optional string.
pub fn copy_opt(o: &Option<String>) -> (r: Option<String>)
    ensures
        opt_view(r) == opt_view(*o),
{
    match o {
        Some(s) => Some(s.clone()),
        None => None,
    }
}

/// The characters of an optional string.
pub open spec fn opt_view(o: Option<String>) -> Option<Seq<char>> {
    match o {
        Some(s) => Some(s@),
        None => None,
    }
}

// ----- whitespace and trimming -----

/// Unicode `White_Space`, the set that `str::trim` removes.
pub open spec fn is_ws(c: char) -> bool {
    ('\t' <= c && c <= '\r') || c == ' ' || c == '\u{85}' || c == '\u{a0}' || c == '\u{1680}'
        || ('\u{2000}' <= c && c <= '\u{200a}') || c == '\u{2028}' || c == '\u{2029}' || c
        == '\u{202f}' || c == '\u{205f}' || c == '\u{3000}'
}

fn is_ws_exec(c: char) -> (r: bool)
    ensures
        r == is_ws(c),
{
    ('\t' <= c && c <= '\r') || c == ' ' || c == '\u{85}' || c == '\u{a0}' || c == '\u{1680}'
        || ('\u{2000}' <= c && c <= '\u{200a}') || c == '\u{2028}' || c == '\u{2029}' || c
        == '\u{202f}' || c == '\u{205f}' || c == '\u{3000}'
}

/// `s` without its leading whitespace.
pub open spec fn trim_start(s: Seq<char>) -> Seq<char>
    decreases s.len(),
{
    if s.len() > 0 && is_ws(s[0]) {
        trim_start(s.drop_first())
    } else {
        s
    }
}

/// `s` without its trailing whitespace.
pub open spec fn trim_end(s: Seq<char>) -> Seq<char>
    decreases s.len(),
{
    if s.len() > 0 && is_ws(s.last()) {
        trim_end(s.drop_last())
    } else {
        s
    }
}

/// `s` without leading and trailing whitespace.
pub open spec fn trim(s: Seq<char>) -> Seq<char> {
    trim_end(trim_start(s))
}

/// The bounds `[lo, hi)` of `trim(cs@)` within `cs@`.
pub fn trim_bounds(cs: &Vec<char>) -> (r: (usize, usize))
    ensures
        r.0 <= r.1 <= cs@.len(),
        cs@.subrange(r.0 as int, r.1 as int) == trim(cs@),
{
    let n = cs.len();
    let mut lo: usize = 0;
    assert(cs@.subrange(0, n as int) =~= cs@);
    while lo < n && is_ws_exec(cs[lo])
        invariant
            lo <= n == cs@.len(),
            trim_start(cs@) == trim_start(cs@.subrange(lo as int, n as int)),
        decreases n - lo,
    {
        assert(cs@.subrange(lo as int, n as int).drop_first() =~= cs@.subrange(
            lo as int + 1,
            n as int,
        ));
        lo += 1;
    }
    let ghost mid = cs@.subrange(lo as int, n as int);
    assert(trim_start(mid) == mid);
    let mut hi: usize = n;
    while hi > lo && is_ws_exec(cs[hi - 1])
        invariant
            lo <= hi <= n == cs@.len(),
            mid == cs@.subrange(lo as int, n as int),
            trim_end(mid) == trim_end(cs@.subrange(lo as int, hi as int)),
        decreases hi,
    {
        assert(cs@.subrange(lo as int, hi as int).drop_last() =~= cs@.subrange(
            lo as int,
            hi as int - 1,
        ));
        hi -= 1;
    }
    (lo, hi)
}

/// The characters of `s` with surrounding whitespace removed.
pub fn trimmed_chars(s: &str) -> (r: Vec<char>)
    ensures
        r@ == trim(s@),
{
    let cs = chars_of(s);
    let (lo, hi) = trim_bounds(&cs);
    let mut r: Vec<char> = Vec::new();
    let mut i = lo;
    while i < hi
        invariant
            lo <= i <= hi <= cs@.len(),
            r@ == cs@.subrange(lo as int, i as int),
        decreases hi - i,
    {
        r.push(cs[i]);
        i += 1;
        assert(r@ =~= cs@.subrange(lo as int, i as int));
    }
    r
}

/// `s` with surrounding whitespace removed.
pub fn trim_string(s: &str) -> (r: String)
    ensures
        r@ == trim(s@),
{
    let cs = chars_of(s);
    let (lo, hi) = trim_bounds(&cs);
    string_of_range(&cs, lo, hi)
}

// ----- numbers -----

/// The value of digit `c` in base `radix` (10 or 16), or -1.
pub open spec fn digit_value(c: char, radix: int) -> int {
    if '0' <= c && c <= '9' {
        c as int - '0' as int
    } else if radix == 16 && 'a' <= c && c <= 'f' {
        c as int - 'a' as int + 10
    } else if radix == 16 && 'A' <= c && c <= 'F' {
        c as int - 'A' as int + 10
    } else {
        -1
    }
}

fn digit_value_exec(c: char, radix: u32) -> (r: i64)
    ensures
        r == digit_value(c, radix as int),
{
    if '0' <= c && c <= '9' {
        (c as i64) - ('0' as i64)
    } else if radix == 16 && 'a' <= c && c <= 'f' {
        (c as i64) - ('a' as i64) + 10
    } else if radix == 16 && 'A' <= c && c <= 'F' {
        (c as i64) - ('A' as i64) + 10
    } else {
        -1
    }
}

/// Every character of `s` is a digit in base `radix`.
pub open spec fn all_digits(s: Seq<char>, radix: int) -> bool {
    forall|i: int| 0 <= i < s.len() ==> digit_value(#[trigger] s[i], radix) >= 0
}

/// The number that the digits `s` write in base `radix`.
pub open spec fn digits_value(s: Seq<char>, radix: int) -> int
    decreases s.len(),
{
    if s.len() == 0 {
        0
    } else {
        digits_value(s.drop_last(), radix) * radix + digit_value(s.last(), radix)
    }
}

/// `s` without one leading `+`.
pub open spec fn unsigned_body(s: Seq<char>) -> Seq<char> {
    if s.len() > 0 && s[0] == '+' {
        s.drop_first()
    } else {
        s
    }
}

/// What `from_str_radix` gives for an unsigned type whose largest value is
/// `max`: an optional `+`, then one or more digits whose value fits.
pub open spec fn parse_unsigned(s: Seq<char>, radix: int, max: int) -> Option<int> {
    let body = unsigned_body(s);
    if body.len() > 0 && all_digits(body, radix) && digits_value(body, radix) <= max {
        Some(digits_value(body, radix))
    } else {
        None
    }
}

proof fn lemma_digits_value_nonneg(s: Seq<char>, radix: int)
    requires
        all_digits(s, radix),
        radix == 10 || radix == 16,
    ensures
        digits_value(s, radix) >= 0,
    decreases s.len(),
{
    if s.len() > 0 {
        lemma_digits_value_nonneg(s.drop_last(), radix);
        assert(digit_value(s[s.len() - 1], radix) >= 0);
        assert(digits_value(s.drop_last(), radix) * radix >= 0) by (nonlinear_arith)
            requires
                digits_value(s.drop_last(), radix) >= 0,
                radix >= 0,
        ;
    }
}

/// A longer run of digits never writes a smaller number.
proof fn lemma_digits_value_prefix(s: Seq<char>, k: int, radix: int)
    requires
        all_digits(s, radix),
        0 <= k <= s.len(),
        radix == 10 || radix == 16,
    ensures
        digits_value(s.subrange(0, k), radix) <= digits_value(s, radix),
    decreases s.len() - k,
{
    if k < s.len() {
        let t = s.subrange(0, k + 1);
        assert(t.drop_last() =~= s.subrange(0, k));
        assert(all_digits(s.subrange(0, k), radix));
        lemma_digits_value_nonneg(s.subrange(0, k), radix);
        assert(digit_value(t[k], radix) >= 0);
        let v = digits_value(s.subrange(0, k), radix);
        assert(v <= v * radix) by (nonlinear_arith)
            requires
                v >= 0,
                radix >= 1,
        ;
        lemma_digits_value_prefix(s, k + 1, radix);
    } else {
        assert(s.subrange(0, k) =~= s);
    }
}

proof fn lemma_parse_none(s: Seq<char>, radix: int, max: int)
    requires
        !all_digits(unsigned_body(s), radix) || digits_value(unsigned_body(s), radix) > max,
    ensures
        parse_unsigned(s, radix, max) is None,
{
}

/// Parses `cs@[from..]` as an unsigned number in base `radix` whose
/// largest allowed value is `max`, as `from_str_radix` does.
pub fn parse_unsigned_chars(cs: &Vec<char>, radix: u32, max: u64) -> (r: Option<u64>)
    requires
        radix == 10 || radix == 16,
    ensures
        match parse_unsigned(cs@, radix as int, max as int) {
            Some(v) => r == Some(v as u64) && 0 <= v <= max,
            None => r is None,
        },
{
    proof {
        if all_digits(unsigned_body(cs@), radix as int) {
            lemma_digits_value_nonneg(unsigned_body(cs@), radix as int);
        }
    }
    let n = cs.len();
    let start: usize = if n > 0 && cs[0] == '+' {
        1
    } else {
        0
    };
    let ghost body = unsigned_body(cs@);
    assert(body =~= cs@.subrange(start as int, n as int));
    if start == n {
        return None;
    }
    let mut acc: u64 = 0;
    let mut i = start;
    while i < n
        invariant
            start <= i <= n == cs@.len(),
            body == cs@.subrange(start as int, n as int),
            body == unsigned_body(cs@),
            radix == 10 || radix == 16,
            all_digits(body.subrange(0, i - start), radix as int),
            acc as int == digits_value(body.subrange(0, i - start), radix as int),
            acc <= max,
        decreases n - i,
    {
        let d = digit_value_exec(cs[i], radix);
        let ghost pre = body.subrange(0, i - start);
        let ghost next = body.subrange(0, i - start + 1);
        assert(next.drop_last() =~= pre);
        assert(next.last() == cs@[i as int]);
        if d < 0 {
            assert(!all_digits(body, radix as int)) by {
                assert(body[i - start] == cs@[i as int]);
                assert(digit_value(body[i - start], radix as int) < 0);
            }
            proof {
                lemma_parse_none(cs@, radix as int, max as int);
            }
            return None;
        }
        let du = d as u64;
        if du > max || acc > (max - du) / (radix as u64) {
            proof {
                if du <= max {
                    assert(acc * radix + du > max) by (nonlinear_arith)
                        requires
                            acc > (max - du) / (radix as int),
                            radix >= 1,
                            du <= max,
                    ;
                } else {
                    assert(acc * radix >= 0) by (nonlinear_arith)
                        requires
                            acc >= 0,
                            radix >= 1,
                    ;
                }
                assert(digits_value(next, radix as int) > max);
                if all_digits(body, radix as int) {
                    lemma_digits_value_prefix(body, i - start + 1, radix as int);
                }
            }
            proof {
                lemma_parse_none(cs@, radix as int, max as int);
            }
            return None;
        }
        proof {
            assert(acc * radix + du <= max) by (nonlinear_arith)
                requires
                    acc <= (max - du) / (radix as int),
                    radix >= 1,
                    du <= max,
            ;
        }
        acc = acc * (radix as u64) + du;
        i += 1;
        assert(all_digits(next, radix as int)) by {
            assert forall|j: int| 0 <= j < next.len() implies digit_value(
                #[trigger] next[j],
                radix as int,
            ) >= 0 by {
                if j < pre.len() {
                    assert(next[j] == pre[j]);
                }
            }
        }
    }
    assert(body.subrange(0, n - start) =~= body);
    Some(acc)
}

/// Parses trimmed `s` as a decimal `u64`.
pub fn parse_u64(s: &str) -> (r: Option<u64>)
    ensures
        match parse_unsigned(trim(s@), 10, u64::MAX as int) {
            Some(v) => r == Some(v as u64) && 0 <= v <= u64::MAX,
            None => r is None,
        },
{
    let cs = trimmed_chars(s);
    parse_unsigned_chars(&cs, 10, u64::MAX)
}

/// Parses trimmed `s` as a decimal `u32`.
pub fn parse_u32(s: &str) -> (r: Option<u32>)
    ensures
        match parse_unsigned(trim(s@), 10, u32::MAX as int) {
            Some(v) => r == Some(v as u32) && 0 <= v <= u32::MAX,
            None => r is None,
        },
{
    let cs = trimmed_chars(s);
    match parse_unsigned_chars(&cs, 10, u32::MAX as u64) {
        Some(v) => Some(v as u32),
        None => None,
    }
}

/// Parses trimmed `s` as a decimal `u8`.
pub fn parse_u8(s: &str) -> (r: Option<u8>)
    ensures
        match parse_unsigned(trim(s@), 10, u8::MAX as int) {
            Some(v) => r == Some(v as u8) && 0 <= v <= u8::MAX,
            None => r is None,
        },
{
    let cs = trimmed_chars(s);
    match parse_unsigned_chars(&cs, 10, u8::MAX as u64) {
        Some(v) => Some(v as u8),
        None => None,
    }
}

/// What `i32::from_str` gives: an optional sign, then digits whose value
/// fits in 32 signed bits.
pub open spec fn parse_signed32(s: Seq<char>) -> Option<int> {
    if s.len() > 0 && s[0] == '-' {
        match parse_unsigned(s.drop_first(), 10, 0x8000_0000) {
            Some(v) => if s.drop_first().len() > 0 && s.drop_first()[0] == '+' {
                None
            } else {
                Some(-v)
            },
            None => None,
        }
    } else {
        parse_unsigned(s, 10, 0x7fff_ffff)
    }
}

/// Parses trimmed `s` as a decimal `i32`.
pub fn parse_i32(s: &str) -> (r: Option<i32>)
    ensures
        match parse_signed32(trim(s@)) {
            Some(v) => r == Some(v as i32),
            None => r is None,
        },
{
    let cs = trimmed_chars(s);
    let n = cs.len();
    if n > 0 && cs[0] == '-' {
        if n > 1 && cs[1] == '+' {
            return None;
        }
        let mut rest: Vec<char> = Vec::new();
        let mut i: usize = 1;
        while i < n
            invariant
                1 <= i <= n == cs@.len(),
                rest@ == cs@.subrange(1, i as int),
            decreases n - i,
        {
            rest.push(cs[i]);
            i += 1;
            assert(rest@ =~= cs@.subrange(1, i as int));
        }
        assert(rest@ =~= cs@.drop_first());
        match parse_unsigned_chars(&rest, 10, 0x8000_0000) {
            Some(v) => {
                let neg: i64 = 0 - (v as i64);
                Some(neg as i32)
            },
            None => None,
        }
    } else {
        match parse_unsigned_chars(&cs, 10, 0x7fff_ffff) {
            Some(v) => Some(v as i32),
            None => None,
        }
    }
}

// ----- searching and removing -----

/// `sub` occurs in `s` at position `i`.
pub open spec fn occurs_at(s: Seq<char>, sub: Seq<char>, i: int) -> bool {
    0 <= i && i + sub.len() <= s.len() && s.subrange(i, i + sub.len()) == sub
}

/// `sub` occurs somewhere in `s`.
pub open spec fn contains(s: Seq<char>, sub: Seq<char>) -> bool {
    exists|i: int| occurs_at(s, sub, i)
}

/// Whether `sub` occurs in `s` at position `i`.
fn occurs_at_exec(s: &Vec<char>, sub: &Vec<char>, i: usize) -> (r: bool)
    ensures
        r == occurs_at(s@, sub@, i as int),
{
    if i > s.len() || sub.len() > s.len() - i {
        return false;
    }
    let mut j: usize = 0;
    while j < sub.len()
        invariant
            i as int + sub@.len() <= s@.len(),
            s@.len() <= usize::MAX,
            j <= sub@.len(),
            forall|k: int| 0 <= k < j ==> s@[i + k] == sub@[k],
        decreases sub@.len() - j,
    {
        assert(i + j < s@.len());
        let idx: usize = i + j;
        if s[idx] != sub[j] {
            assert(s@.subrange(i as int, i + sub@.len())[j as int] != sub@[j as int]);
            return false;
        }
        j += 1;
    }
    assert(s@.subrange(i as int, i + sub@.len()) =~= sub@);
    true
}

/// Whether `sub` occurs in `s`.
pub fn contains_chars(s: &Vec<char>, sub: &Vec<char>) -> (r: bool)
    ensures
        r == contains(s@, sub@),
{
    if sub.len() > s.len() {
        return false;
    }
    let last = s.len() - sub.len();
    let mut i: usize = 0;
    while i <= last
        invariant
            last == s@.len() - sub@.len(),
            forall|k: int| 0 <= k < i ==> !occurs_at(s@, sub@, k),
        decreases last + 1 - i,
    {
        if occurs_at_exec(s, sub, i) {
            return true;
        }
        if i == last {
            assert forall|k: int| !occurs_at(s@, sub@, k) by {
                if 0 <= k <= i {
                } else {
                }
            }
            return false;
        }
        i += 1;
    }
    false
}

/// Whether the string `sub` occurs in the string `s`.
pub fn contains_str(s: &str, sub: &str) -> (r: bool)
    ensures
        r == contains(s@, sub@),
{
    let a = chars_of(s);
    let b = chars_of(sub);
    contains_chars(&a, &b)
}

/// `s` with every non-overlapping occurrence of `pat`, scanned from the
/// left, removed: what `replace(pat, "")` gives.
pub open spec fn remove_all(s: Seq<char>, pat: Seq<char>) -> Seq<char>
    decreases s.len(),
{
    if s.len() == 0 {
        s
    } else if pat.len() > 0 && occurs_at(s, pat, 0) {
        remove_all(s.subrange(pat.len() as int, s.len() as int), pat)
    } else {
        seq![s[0]].add(remove_all(s.drop_first(), pat))
    }
}

proof fn lemma_occurs_shift(s: Seq<char>, pat: Seq<char>, i: int)
    requires
        0 <= i <= s.len(),
    ensures
        occurs_at(s, pat, i) == occurs_at(s.subrange(i, s.len() as int), pat, 0),
{
    let t = s.subrange(i, s.len() as int);
    if i + pat.len() <= s.len() {
        assert(t.subrange(0, pat.len() as int) =~= s.subrange(i, i + pat.len()));
    }
}

/// The characters of `cs@` with every occurrence of `pat@` removed.
pub fn remove_all_chars(cs: &Vec<char>, pat: &Vec<char>) -> (r: Vec<char>)
    ensures
        r@ == remove_all(cs@, pat@),
{
    let n = cs.len();
    let mut out: Vec<char> = Vec::new();
    let mut i: usize = 0;
    assert(cs@.subrange(0, n as int) =~= cs@);
    while i < n
        invariant
            i <= n == cs@.len(),
            out@ + remove_all(cs@.subrange(i as int, n as int), pat@) == remove_all(cs@, pat@),
        decreases n - i,
    {
        let ghost rest = cs@.subrange(i as int, n as int);
        proof {
            lemma_occurs_shift(cs@, pat@, i as int);
        }
        if pat.len() > 0 && occurs_at_exec(cs, pat, i) {
            assert(rest.subrange(pat@.len() as int, rest.len() as int) =~= cs@.subrange(
                i + pat@.len(),
                n as int,
            ));
            i += pat.len();
        } else {
            assert(rest.drop_first() =~= cs@.subrange(i + 1, n as int));
            out.push(cs[i]);
            i += 1;
            assert(rest[0] == cs@[i - 1]);
            assert(out@ + remove_all(cs@.subrange(i as int, n as int), pat@) =~= out@.drop_last()
                + remove_all(rest, pat@));
        }
    }
    assert(cs@.subrange(n as int, n as int) =~= Seq::<char>::empty());
    assert(out@ + Seq::<char>::empty() =~= out@);
    out
}

} // verus!

verus! {

/// Whether two character sequences are equal.
pub fn eq_chars(a: &Vec<char>, b: &Vec<char>) -> (r: bool)
    ensures
        r == (a@ == b@),
{
    if a.len() != b.len() {
        return false;
    }
    let mut i: usize = 0;
    while i < a.len()
        invariant
            a@.len() == b@.len(),
            i <= a@.len(),
            forall|k: int| 0 <= k < i ==> a@[k] == b@[k],
        decreases a@.len() - i,
    {
        if a[i] != b[i] {
            return false;
        }
        i += 1;
    }
    assert(a@ =~= b@);
    true
}

} // verus!
