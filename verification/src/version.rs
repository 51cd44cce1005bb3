//! Semantic-version parsing and ordering.
//!
//! A version string is `major.minor.patch` where each component is a
//! non-empty run of decimal digits that fits in a `u64`, optionally followed
//! by pre-release or build metadata introduced by `-` or `+`.  Pre-release
//! and build metadata are ignored for ordering here: the comparison is used
//! only to decide which flag dialect an external tool expects, and that
//! changes on numbered releases.

use core::cmp::Ordering;
use vstd::prelude::*;

verus! {

/// A parsed three-component semantic version.
#[derive(Clone, Copy, PartialEq, Eq, Structural, Debug)]
pub struct Version {
    pub major: u64,
    pub minor: u64,
    pub patch: u64,
}

/// A version string did not have the expected shape, or a component
/// overflowed the machine range.
#[derive(Clone, Copy, PartialEq, Eq, Structural, Debug)]
pub struct ParseError;

/// `c` is a decimal digit.
pub open spec fn is_digit(c: char) -> bool {
    48 <= c as u32 <= 57
}

/// Numeric value of a digit character.
pub open spec fn digit_val(c: char) -> nat {
    (c as u32 - 48) as nat
}

/// Index just past the run of digits starting at `i`.
pub open spec fn digit_run_end(s: Seq<char>, i: int) -> int
    decreases s.len() - i,
{
    if 0 <= i < s.len() && is_digit(s[i]) {
        digit_run_end(s, i + 1)
    } else {
        i
    }
}

/// Value of a sequence of digit characters read in base ten.
pub open spec fn digits_val(s: Seq<char>) -> nat
    decreases s.len(),
{
    if s.len() == 0 {
        0
    } else {
        digits_val(s.drop_last()) * 10 + digit_val(s.last())
    }
}

/// If a version-number shape `digits '.' digits '.' digits` starts exactly at
/// `i`, the index just past it; `None` if no such shape starts at `i`.
pub open spec fn version_end_at(s: Seq<char>, i: int) -> Option<int> {
    let a = digit_run_end(s, i);
    if a == i {
        None
    } else if a < s.len() && s[a] == '.' {
        let b = digit_run_end(s, a + 1);
        if b == a + 1 {
            None
        } else if b < s.len() && s[b] == '.' {
            let c = digit_run_end(s, b + 1);
            if c == b + 1 {
                None
            } else {
                Some(c)
            }
        } else {
            None
        }
    } else {
        None
    }
}

/// The three digit runs of a version-number shape starting at `i`.
/// Meaningful only when `version_end_at(s, i)` is `Some`.
pub open spec fn version_parts_at(s: Seq<char>, i: int) -> (Seq<char>, Seq<char>, Seq<char>) {
    let a = digit_run_end(s, i);
    let b = digit_run_end(s, a + 1);
    let c = digit_run_end(s, b + 1);
    (s.subrange(i, a), s.subrange(a + 1, b), s.subrange(b + 1, c))
}

/// `s` is a whole semantic-version string: a version-number shape at the
/// start, components fitting `u64`, and nothing after it except pre-release
/// or build metadata introduced by `-` or `+`.
pub open spec fn is_semver(s: Seq<char>) -> bool {
    match version_end_at(s, 0) {
        Some(e) => {
            let (ma, mi, pa) = version_parts_at(s, 0);
            &&& (e == s.len() || s[e] == '-' || s[e] == '+')
            &&& digits_val(ma) <= u64::MAX
            &&& digits_val(mi) <= u64::MAX
            &&& digits_val(pa) <= u64::MAX
        },
        None => false,
    }
}

/// The version denoted by a valid semantic-version string.
pub open spec fn semver_of(s: Seq<char>) -> Version {
    let (ma, mi, pa) = version_parts_at(s, 0);
    Version {
        major: digits_val(ma) as u64,
        minor: digits_val(mi) as u64,
        patch: digits_val(pa) as u64,
    }
}

/// Three-component ordering: major first, then minor, then patch.
pub open spec fn version_cmp_spec(a: Version, b: Version) -> Ordering {
    if a.major < b.major {
        Ordering::Less
    } else if a.major > b.major {
        Ordering::Greater
    } else if a.minor < b.minor {
        Ordering::Less
    } else if a.minor > b.minor {
        Ordering::Greater
    } else if a.patch < b.patch {
        Ordering::Less
    } else if a.patch > b.patch {
        Ordering::Greater
    } else {
        Ordering::Equal
    }
}

/// A version with a strictly greater component (at the first position where
/// the two differ) compares as greater.
pub proof fn lemma_version_cmp_greater(a: Version, b: Version)
    requires
        a.major > b.major || (a.major == b.major && a.minor > b.minor) || (a.major == b.major
            && a.minor == b.minor && a.patch > b.patch),
    ensures
        version_cmp_spec(a, b) == Ordering::Greater,
{
}

/// A version compares as equal to itself.
pub proof fn lemma_version_cmp_reflexive(a: Version)
    ensures
        version_cmp_spec(a, a) == Ordering::Equal,
{
}

/// The ordering is total and strict: two versions compare as equal exactly
/// when their components coincide, and the order of a swapped pair is the
/// mirror image.
pub proof fn lemma_version_cmp_strict_total(a: Version, b: Version)
    ensures
        version_cmp_spec(a, b) == Ordering::Equal <==> a == b,
        version_cmp_spec(a, b) == Ordering::Greater <==> version_cmp_spec(b, a)
            == Ordering::Less,
{
}

/// The ordering is transitive.
pub proof fn lemma_version_cmp_transitive(a: Version, b: Version, c: Version)
    requires
        version_cmp_spec(a, b) == Ordering::Greater,
        version_cmp_spec(b, c) == Ordering::Greater,
    ensures
        version_cmp_spec(a, c) == Ordering::Greater,
{
}

/// At the level of version strings: a string denoting a version with a
/// strictly greater component (at the first position where the two denoted
/// versions differ) compares as greater, and every version string compares
/// as equal to itself.  Together with the contract of [`compare_semver`]
/// this makes the comparison a strict total order on the denoted versions.
pub proof fn lemma_compare_semver_strings(a: Seq<char>, b: Seq<char>)
    requires
        is_semver(a),
        is_semver(b),
        semver_of(a).major > semver_of(b).major || (semver_of(a).major == semver_of(b).major
            && semver_of(a).minor > semver_of(b).minor) || (semver_of(a).major == semver_of(
            b,
        ).major && semver_of(a).minor == semver_of(b).minor && semver_of(a).patch > semver_of(
            b,
        ).patch),
    ensures
        version_cmp_spec(semver_of(a), semver_of(b)) == Ordering::Greater,
        version_cmp_spec(semver_of(a), semver_of(a)) == Ordering::Equal,
{
    lemma_version_cmp_greater(semver_of(a), semver_of(b));
    lemma_version_cmp_reflexive(semver_of(a));
}

/// Every position in a digit run is a digit, the run stays inside the
/// string, and the run is maximal.
pub proof fn lemma_digit_run_end(s: Seq<char>, i: int)
    requires
        0 <= i <= s.len(),
    ensures
        i <= digit_run_end(s, i) <= s.len(),
        forall|k: int| i <= k < digit_run_end(s, i) ==> is_digit(s[k]),
        digit_run_end(s, i) < s.len() ==> !is_digit(s[digit_run_end(s, i)]),
    decreases s.len() - i,
{
    if i < s.len() && is_digit(s[i]) {
        lemma_digit_run_end(s, i + 1);
    }
}

/// `c` is a decimal digit.
fn is_digit_char(c: char) -> (b: bool)
    ensures
        b == is_digit(c),
{
    let u = c as u32;
    48 <= u && u <= 57
}

/// Scans the run of digits starting at `from` and reads its value.
/// Returns `None` when the run is empty or its value does not fit a `u64`.
fn scan_run(s: &str, from: usize, n: usize) -> (r: Option<(u64, usize)>)
    requires
        n == s@.len(),
        from <= n,
    ensures
        match r {
            Some((v, end)) => {
                &&& end == digit_run_end(s@, from as int)
                &&& from < end <= n
                &&& digits_val(s@.subrange(from as int, end as int)) == v
            },
            None => digit_run_end(s@, from as int) == from || digits_val(
                s@.subrange(from as int, digit_run_end(s@, from as int)),
            ) > u64::MAX,
        },
{
    let mut j = from;
    let mut val: u64 = 0;
    let mut overflow = false;
    proof {
        lemma_digit_run_end(s@, from as int);
        assert(s@.subrange(from as int, from as int) =~= Seq::<char>::empty());
    }
    while j < n && is_digit_char(s.get_char(j))
        invariant
            from <= j <= n,
            n == s@.len(),
            digit_run_end(s@, from as int) == digit_run_end(s@, j as int),
            forall|k: int| from <= k < j ==> is_digit(s@[k]),
            !overflow ==> digits_val(s@.subrange(from as int, j as int)) == val,
            overflow ==> digits_val(s@.subrange(from as int, j as int)) > u64::MAX,
        decreases n - j,
    {
        let c = s.get_char(j);
        let d = (c as u32 - 48) as u64;
        proof {
            assert(s@.subrange(from as int, j + 1).drop_last() =~= s@.subrange(
                from as int,
                j as int,
            ));
            assert(s@.subrange(from as int, j + 1).last() == s@[j as int]);
        }
        if !overflow {
            match val.checked_mul(10) {
                Some(m) => match m.checked_add(d) {
                    Some(x) => {
                        val = x;
                    },
                    None => {
                        overflow = true;
                    },
                },
                None => {
                    overflow = true;
                },
            }
        }
        j += 1;
    }
    proof {
        assert(digit_run_end(s@, j as int) == j as int);
    }
    if j == from || overflow {
        None
    } else {
        Some((val, j))
    }
}

/// Parses a whole semantic-version string.  Succeeds exactly on strings of
/// the shape `major.minor.patch`, each component a non-empty digit run whose
/// value fits a `u64`, optionally followed by `-`- or `+`-introduced
/// metadata; the metadata is dropped.
pub fn parse_version(s: &str) -> (r: Result<Version, ParseError>)
    ensures
        match r {
            Ok(v) => is_semver(s@) && v == semver_of(s@),
            Err(_) => !is_semver(s@),
        },
{
    let n = s.unicode_len();
    let major;
    let minor;
    let patch;
    let a;
    let b;
    let c;
    match scan_run(s, 0, n) {
        Some((v, end)) => {
            major = v;
            a = end;
        },
        None => {
            return Err(ParseError);
        },
    }
    if a >= n || s.get_char(a) != '.' {
        return Err(ParseError);
    }
    match scan_run(s, a + 1, n) {
        Some((v, end)) => {
            minor = v;
            b = end;
        },
        None => {
            return Err(ParseError);
        },
    }
    if b >= n || s.get_char(b) != '.' {
        return Err(ParseError);
    }
    match scan_run(s, b + 1, n) {
        Some((v, end)) => {
            patch = v;
            c = end;
        },
        None => {
            return Err(ParseError);
        },
    }
    if c < n {
        let t = s.get_char(c);
        if t != '-' && t != '+' {
            return Err(ParseError);
        }
    }
    Ok(Version { major, minor, patch })
}

/// Compares the versions denoted by two version strings, by major, then
/// minor, then patch; pre-release and build metadata are ignored.
pub fn compare_semver(current: &str, target: &str) -> (r: Result<Ordering, ParseError>)
    ensures
        match r {
            Ok(o) => is_semver(current@) && is_semver(target@) && o == version_cmp_spec(
                semver_of(current@),
                semver_of(target@),
            ),
            Err(_) => !is_semver(current@) || !is_semver(target@),
        },
{
    let cur = parse_version(current)?;
    let tgt = parse_version(target)?;
    Ok(version_cmp(&cur, &tgt))
}

/// The leftmost version-number shape in `s`, as a pair of start index and
/// end index, searching from position `i` on.
pub open spec fn first_version_match_from(s: Seq<char>, i: int) -> Option<(int, int)>
    decreases s.len() - i,
    when 0 <= i <= s.len()
{
    if i >= s.len() {
        None
    } else {
        match version_end_at(s, i) {
            Some(e) => Some((i, e)),
            None => first_version_match_from(s, i + 1),
        }
    }
}

/// Index just past the run of digits starting at `from`.
fn run_end(s: &str, from: usize, n: usize) -> (r: usize)
    requires
        n == s@.len(),
        from <= n,
    ensures
        r == digit_run_end(s@, from as int),
        from <= r <= n,
{
    let mut j = from;
    while j < n && is_digit_char(s.get_char(j))
        invariant
            from <= j <= n,
            n == s@.len(),
            digit_run_end(s@, from as int) == digit_run_end(s@, j as int),
        decreases n - j,
    {
        j += 1;
    }
    proof {
        assert(digit_run_end(s@, j as int) == j as int);
    }
    j
}

/// If a version-number shape starts exactly at `i`, the index just past it.
fn version_match_at(s: &str, i: usize, n: usize) -> (r: Option<usize>)
    requires
        n == s@.len(),
        i <= n,
    ensures
        match r {
            Some(e) => version_end_at(s@, i as int) == Some(e as int) && i < e <= n,
            None => version_end_at(s@, i as int) is None,
        },
{
    let a = run_end(s, i, n);
    if a == i || a >= n || s.get_char(a) != '.' {
        return None;
    }
    let b = run_end(s, a + 1, n);
    if b == a + 1 || b >= n || s.get_char(b) != '.' {
        return None;
    }
    let c = run_end(s, b + 1, n);
    if c == b + 1 {
        return None;
    }
    Some(c)
}

/// Finds the leftmost substring of `line` shaped like a dotted version
/// number (`digits.digits.digits`), as the external tool's version report is
/// scanned for one.
pub fn extract_version(line: &str) -> (r: Option<String>)
    ensures
        match (r, first_version_match_from(line@, 0)) {
            (Some(m), Some(p)) => m@ == line@.subrange(p.0, p.1),
            (None, None) => true,
            _ => false,
        },
{
    let n = line.unicode_len();
    let mut i: usize = 0;
    while i < n
        invariant
            i <= n,
            n == line@.len(),
            first_version_match_from(line@, 0) == first_version_match_from(line@, i as int),
        decreases n - i,
    {
        match version_match_at(line, i, n) {
            Some(e) => {
                let m = line.substring_char(i, e).to_owned();
                return Some(m);
            },
            None => {
                proof {
                    assert(first_version_match_from(line@, i as int) == first_version_match_from(
                        line@,
                        i + 1,
                    ));
                }
                i += 1;
            },
        }
    }
    None
}

/// Index of the first line feed in `s`, or the length if there is none.
pub open spec fn first_newline(s: Seq<char>, i: int) -> int
    decreases s.len() - i,
{
    if 0 <= i < s.len() {
        if s[i] == '\n' {
            i
        } else {
            first_newline(s, i + 1)
        }
    } else {
        i
    }
}

/// The first line of `s`: everything before the first line feed, with one
/// trailing carriage return stripped.
pub open spec fn first_line_of(s: Seq<char>) -> Seq<char> {
    let e = first_newline(s, 0);
    let e2 = if e > 0 && s[e - 1] == '\r' {
        e - 1
    } else {
        e
    };
    s.subrange(0, e2)
}

proof fn lemma_first_newline(s: Seq<char>, i: int)
    requires
        0 <= i <= s.len(),
    ensures
        i <= first_newline(s, i) <= s.len(),
    decreases s.len() - i,
{
    if i < s.len() && s[i] != '\n' {
        lemma_first_newline(s, i + 1);
    }
}

/// The first line of `s`.
pub fn first_line(s: &str) -> (r: String)
    ensures
        r@ == first_line_of(s@),
{
    let n = s.unicode_len();
    let mut e: usize = 0;
    proof {
        lemma_first_newline(s@, 0);
    }
    while e < n && s.get_char(e) != '\n'
        invariant
            e <= n,
            n == s@.len(),
            first_newline(s@, 0) == first_newline(s@, e as int),
        decreases n - e,
    {
        e += 1;
    }
    proof {
        assert(first_newline(s@, e as int) == e as int);
    }
    let e2 = if e > 0 && s.get_char(e - 1) == '\r' {
        e - 1
    } else {
        e
    };
    s.substring_char(0, e2).to_owned()
}

/// The version reported on the first line of the external build tool's
/// version output: the leftmost dotted version number on that line, if there
/// is one and its components fit the machine range.
pub open spec fn nix_version_spec(out: Seq<char>) -> Option<Version> {
    if out.len() == 0 {
        None
    } else {
        let line = first_line_of(out);
        match first_version_match_from(line, 0) {
            Some(p) => {
                let m = line.subrange(p.0, p.1);
                if is_semver(m) {
                    Some(semver_of(m))
                } else {
                    None
                }
            },
            None => None,
        }
    }
}

/// Reads the build tool's version from its raw version-report output.
pub fn nix_version_from_output(out: &str) -> (r: Option<Version>)
    ensures
        r == nix_version_spec(out@),
{
    if out.unicode_len() == 0 {
        return None;
    }
    let line = first_line(out);
    match extract_version(line.as_str()) {
        Some(m) => match parse_version(m.as_str()) {
            Ok(v) => Some(v),
            Err(_) => None,
        },
        None => None,
    }
}

/// Compares two parsed versions, by major, then minor, then patch.
pub fn version_cmp(a: &Version, b: &Version) -> (r: Ordering)
    ensures
        r == version_cmp_spec(*a, *b),
{
    if a.major < b.major {
        Ordering::Less
    } else if a.major > b.major {
        Ordering::Greater
    } else if a.minor < b.minor {
        Ordering::Less
    } else if a.minor > b.minor {
        Ordering::Greater
    } else if a.patch < b.patch {
        Ordering::Less
    } else if a.patch > b.patch {
        Ordering::Greater
    } else {
        Ordering::Equal
    }
}

} // verus!
