//! Dotted version strings: how they are read and how two of them are ordered.
//!
//! A version such as `2024.12.1` is read as the vector `[2024, 12, 1]`. Each
//! segment between dots gives the number formed by its leading ASCII digits;
//! a segment that starts with no digit, or whose number does not fit in 32
//! bits, gives nothing. Vectors are ordered by their first differing
//! component; where one is a strict prefix of the other the longer one is the
//! newer. Two versions with the same vector are told apart only by being
//! plain or not: a plain release (digits and dots alone) is newer than a
//! version with the same numbers that carries a suffix such as `b1` or
//! `.dev0`.

use vstd::prelude::*;
use crate::text::{
    char_is_digit, chars_of, decimal_text, decimal_value, digit_value, is_digit,
    lemma_decimal_round_trip, lemma_run_length, run_length,
};

verus! {

/// Whether `c` does not end a segment.
pub open spec fn not_dot(c: char) -> bool {
    c != '.'
}

/// Length of the first segment of `s`: everything before the first dot.
pub open spec fn segment_end(s: Seq<char>) -> nat {
    run_length(s, |c: char| not_dot(c))
}

/// Number of ASCII digits that `segment` starts with.
pub open spec fn leading_digits(segment: Seq<char>) -> nat {
    run_length(segment, |c: char| is_digit(c))
}

/// The component that one segment contributes, if any.
pub open spec fn component(segment: Seq<char>) -> Option<u32> {
    let digits = segment.take(leading_digits(segment) as int);
    if digits.len() > 0 && decimal_value(digits) <= u32::MAX {
        Some(decimal_value(digits) as u32)
    } else {
        None
    }
}

/// The components that `s` contributes, segment by segment.
pub open spec fn version_vector(s: Seq<char>) -> Seq<u32>
    decreases s.len(),
{
    let end = segment_end(s) as int;
    let head = match component(s.take(end)) {
        Some(n) => seq![n],
        None => Seq::<u32>::empty(),
    };
    if 0 <= end < s.len() {
        head + version_vector(s.skip(end + 1))
    } else {
        head
    }
}

/// Whether `a` and `b` are both at least `k` long and equal below `k`.
pub open spec fn agree_below(a: Seq<u32>, b: Seq<u32>, k: int) -> bool {
    &&& 0 <= k <= a.len()
    &&& k <= b.len()
    &&& forall|i: int| 0 <= i < k ==> a[i] == b[i]
}

/// Whether vector `a` comes after vector `b`: at the first place where they
/// part, `a` has the greater component, or `b` has ended and `a` goes on.
pub open spec fn vector_newer(a: Seq<u32>, b: Seq<u32>) -> bool {
    exists|k: int|
        #[trigger] agree_below(a, b, k) && k < a.len() && (k == b.len() || a[k] > b[k])
}

/// Whether `s` is made of ASCII digits and dots alone.
pub open spec fn is_plain(s: Seq<char>) -> bool {
    forall|i: int| 0 <= i < s.len() ==> is_digit(#[trigger] s[i]) || s[i] == '.'
}

/// Whether version `latest` is newer than version `installed`.
pub open spec fn newer(latest: Seq<char>, installed: Seq<char>) -> bool {
    let l = version_vector(latest);
    let i = version_vector(installed);
    vector_newer(l, i) || (l == i && is_plain(latest) && !is_plain(installed))
}

proof fn lemma_decimal_step(digits: Seq<char>, k: int)
    requires
        0 <= k < digits.len(),
    ensures
        decimal_value(digits.take(k + 1)) == decimal_value(digits.take(k)) * 10 + digit_value(
            digits[k],
        ),
{
    assert(digits.take(k + 1).drop_last() == digits.take(k));
}

/// Reads the component of the segment `v[from..to]`.
fn read_component(v: &Vec<char>, from: usize, to: usize) -> (r: Option<u32>)
    requires
        from <= to <= v.len(),
    ensures
        r == component(v@.subrange(from as int, to as int)),
{
    let ghost segment = v@.subrange(from as int, to as int);
    let mut i: usize = from;
    let mut value: u64 = 0;
    let mut fits: bool = true;
    while i < to && char_is_digit(v[i])
        invariant
            from <= i <= to <= v.len(),
            segment == v@.subrange(from as int, to as int),
            forall|j: int| 0 <= j < i - from ==> is_digit(#[trigger] segment[j]),
            fits ==> value == decimal_value(segment.take(i - from)) && value <= u32::MAX,
            !fits ==> decimal_value(segment.take(i - from)) > u32::MAX,
        decreases to - i,
    {
        let d: u64 = (v[i] as u32 - '0' as u32) as u64;
        proof {
            lemma_decimal_step(segment, i - from);
            assert(segment[i - from] == v@[i as int]);
        }
        if fits {
            value = value * 10 + d;
            if value > 0xffff_ffff {
                fits = false;
            }
        }
        i = i + 1;
    }
    proof {
        lemma_run_length(segment, |c: char| is_digit(c), (i - from) as nat);
    }
    if fits && i > from {
        Some(value as u32)
    } else {
        None
    }
}

/// Reads a version from its characters.
fn parse_chars(v: &Vec<char>) -> (out: Vec<u32>)
    ensures
        out@ == version_vector(v@),
{
    let mut out: Vec<u32> = Vec::new();
    let mut pos: usize = 0;
    assert(v@.skip(0) == v@);
    assert(out@ + version_vector(v@) == version_vector(v@));
    loop
        invariant_except_break
            pos <= v.len(),
            version_vector(v@) == out@ + version_vector(v@.skip(pos as int)),
        ensures
            out@ == version_vector(v@),
        decreases v.len() - pos,
    {
        let ghost rest = v@.skip(pos as int);
        let mut end: usize = pos;
        while end < v.len() && v[end] != '.'
            invariant
                pos <= end <= v.len(),
                rest == v@.skip(pos as int),
                forall|j: int| 0 <= j < end - pos ==> not_dot(#[trigger] rest[j]),
            decreases v.len() - end,
        {
            end = end + 1;
        }
        proof {
            lemma_run_length(rest, |c: char| not_dot(c), (end - pos) as nat);
            assert(rest.take(end - pos) == v@.subrange(pos as int, end as int));
            if end < v.len() {
                assert(rest.skip(end - pos + 1) == v@.skip(end + 1));
            }
        }
        let ghost before = out@;
        match read_component(v, pos, end) {
            Some(n) => {
                out.push(n);
            },
            None => {},
        }
        if end >= v.len() {
            assert(out@ == before + version_vector(rest));
            break ;
        }
        proof {
            let head = out@.skip(before.len() as int);
            assert(out@ == before + head);
            assert(version_vector(rest) == head + version_vector(v@.skip(end + 1)));
            assert(before + (head + version_vector(v@.skip(end + 1))) == (before + head)
                + version_vector(v@.skip(end + 1)));
        }
        pos = end + 1;
    }
    out
}

/// Reads the version vector of `version`.
pub fn parse_version(version: &str) -> (out: Vec<u32>)
    ensures
        out@ == version_vector(version@),
{
    let chars = chars_of(version);
    parse_chars(&chars)
}

/// Tells whether vector `a` comes after vector `b`.
pub fn vector_is_newer(a: &Vec<u32>, b: &Vec<u32>) -> (r: bool)
    ensures
        r == vector_newer(a@, b@),
{
    let mut k: usize = 0;
    while k < a.len() && k < b.len()
        invariant
            agree_below(a@, b@, k as int),
        decreases a.len() - k,
    {
        if a[k] != b[k] {
            proof {
                lemma_parting_decides(a@, b@, k as int);
            }
            return a[k] > b[k];
        }
        k = k + 1;
    }
    proof {
        lemma_parting_decides(a@, b@, k as int);
    }
    k < a.len()
}

/// Where two vectors agree below `k` and part at `k`, what stands at `k`
/// decides which of them is newer.
pub proof fn lemma_parting_decides(a: Seq<u32>, b: Seq<u32>, k: int)
    requires
        agree_below(a, b, k),
        k == a.len() || k == b.len() || a[k] != b[k],
    ensures
        vector_newer(a, b) == (k < a.len() && (k == b.len() || a[k] > b[k])),
{
    if vector_newer(a, b) {
        let j = choose|j: int|
            #[trigger] agree_below(a, b, j) && j < a.len() && (j == b.len() || a[j] > b[j]);
        if j < k {
            assert(a[j] == b[j]);
        }
        if k < j {
            assert(a[k] == b[k]);
        }
    }
}

/// Tells whether `s` is made of ASCII digits and dots alone.
fn chars_are_plain(v: &Vec<char>) -> (r: bool)
    ensures
        r == is_plain(v@),
{
    let mut i: usize = 0;
    while i < v.len()
        invariant
            i <= v.len(),
            forall|j: int| 0 <= j < i ==> is_digit(#[trigger] v@[j]) || v@[j] == '.',
        decreases v.len() - i,
    {
        if !(char_is_digit(v[i]) || v[i] == '.') {
            return false;
        }
        i = i + 1;
    }
    true
}

/// Tells whether version `latest` is newer than version `installed`. No
/// version is newer than itself.
pub fn is_newer_version(latest: &str, installed: &str) -> (r: bool)
    ensures
        r == newer(latest@, installed@),
        latest@ == installed@ ==> !r,
{
    proof {
        lemma_newer_irreflexive(latest@);
    }
    let latest_chars = chars_of(latest);
    let installed_chars = chars_of(installed);
    let l = parse_chars(&latest_chars);
    let i = parse_chars(&installed_chars);
    if vector_is_newer(&l, &i) {
        return true;
    }
    if vector_is_newer(&i, &l) {
        return false;
    }
    proof {
        lemma_neither_newer_means_equal(l@, i@);
    }
    chars_are_plain(&latest_chars) && !chars_are_plain(&installed_chars)
}

/// No vector is newer than itself.
pub proof fn lemma_vector_newer_irreflexive(a: Seq<u32>)
    ensures
        !vector_newer(a, a),
{
    if vector_newer(a, a) {
        let j = choose|j: int|
            #[trigger] agree_below(a, a, j) && j < a.len() && (j == a.len() || a[j] > a[j]);
        assert(false);
    }
}

/// Of two vectors at most one is newer than the other.
pub proof fn lemma_vector_newer_asymmetric(a: Seq<u32>, b: Seq<u32>)
    ensures
        !(vector_newer(a, b) && vector_newer(b, a)),
{
    if vector_newer(a, b) {
        let j = choose|j: int|
            #[trigger] agree_below(a, b, j) && j < a.len() && (j == b.len() || a[j] > b[j]);
        assert(agree_below(b, a, j));
        lemma_parting_decides(b, a, j);
    }
}

/// Two vectors of which neither is newer are the same vector.
pub proof fn lemma_neither_newer_means_equal(a: Seq<u32>, b: Seq<u32>)
    requires
        !vector_newer(a, b),
        !vector_newer(b, a),
    ensures
        a == b,
{
    lemma_common_prefix(a, b, 0);
}

proof fn lemma_common_prefix(a: Seq<u32>, b: Seq<u32>, k: int)
    requires
        agree_below(a, b, k),
        !vector_newer(a, b),
        !vector_newer(b, a),
    ensures
        a == b,
    decreases a.len() - k,
{
    if k == a.len() || k == b.len() || a[k] != b[k] {
        lemma_parting_decides(a, b, k);
        assert(agree_below(b, a, k));
        lemma_parting_decides(b, a, k);
        assert(a =~= b);
    } else {
        assert(agree_below(a, b, k + 1));
        lemma_common_prefix(a, b, k + 1);
    }
}

/// No version is newer than itself.
pub proof fn lemma_newer_irreflexive(v: Seq<char>)
    ensures
        !newer(v, v),
{
    lemma_vector_newer_irreflexive(version_vector(v));
}

/// Of two versions at most one is newer than the other.
pub proof fn lemma_newer_asymmetric(a: Seq<char>, b: Seq<char>)
    ensures
        !(newer(a, b) && newer(b, a)),
{
    lemma_vector_newer_asymmetric(version_vector(a), version_vector(b));
    lemma_vector_newer_irreflexive(version_vector(a));
}

/// What is newer than something newer is newer: vectors are ordered.
pub proof fn lemma_vector_newer_transitive(a: Seq<u32>, b: Seq<u32>, c: Seq<u32>)
    requires
        vector_newer(a, b),
        vector_newer(b, c),
    ensures
        vector_newer(a, c),
{
    let j = choose|j: int|
        #[trigger] agree_below(a, b, j) && j < a.len() && (j == b.len() || a[j] > b[j]);
    let k = choose|k: int|
        #[trigger] agree_below(b, c, k) && k < b.len() && (k == c.len() || b[k] > c[k]);
    let m = if j < k {
        j
    } else {
        k
    };
    assert(agree_below(a, c, m));
    if j < k {
        assert(b[j] == c[j]);
    } else if k < j {
        assert(a[k] == b[k]);
    }
}

/// What is newer than something newer is newer: versions are ordered.
pub proof fn lemma_newer_transitive(a: Seq<char>, b: Seq<char>, c: Seq<char>)
    requires
        newer(a, b),
        newer(b, c),
    ensures
        newer(a, c),
{
    let x = version_vector(a);
    let y = version_vector(b);
    let z = version_vector(c);
    if vector_newer(x, y) && vector_newer(y, z) {
        lemma_vector_newer_transitive(x, y, z);
    }
}

/// The plain version that names the components `ns`: their decimal texts
/// with dots between them.
pub open spec fn written(ns: Seq<u32>) -> Seq<char>
    decreases ns.len(),
{
    if ns.len() == 0 {
        Seq::<char>::empty()
    } else if ns.len() == 1 {
        decimal_text(ns[0] as nat)
    } else {
        decimal_text(ns[0] as nat) + seq!['.'] + written(ns.skip(1))
    }
}

/// A version that is written from its components is plain and is read back
/// as those components.
pub proof fn lemma_written_is_read_back(ns: Seq<u32>)
    ensures
        version_vector(written(ns)) == ns,
        is_plain(written(ns)),
    decreases ns.len(),
{
    let s = written(ns);
    if ns.len() == 0 {
        assert(s.take(0) =~= Seq::<char>::empty());
        assert(version_vector(s) =~= ns);
    } else {
        let t = decimal_text(ns[0] as nat);
        let n = t.len();
        lemma_decimal_round_trip(ns[0] as nat);
        if ns.len() > 1 {
            lemma_written_is_read_back(ns.skip(1));
        }
        assert forall|i: int| 0 <= i < n implies s[i] == t[i] by {}
        assert forall|i: int| 0 <= i < n implies (|c: char| not_dot(c))(#[trigger] s[i]) by {
            assert(is_digit(t[i]));
        }
        if ns.len() > 1 {
            assert(s[n as int] == '.');
        }
        lemma_run_length(s, |c: char| not_dot(c), n);
        lemma_run_length(t, |c: char| is_digit(c), n);
        assert(s.take(n as int) =~= t);
        assert(t.take(n as int) =~= t);
        assert(component(t) == Some(ns[0]));
        if ns.len() > 1 {
            let rest = written(ns.skip(1));
            assert(s.skip(n as int + 1) =~= rest);
            assert(version_vector(s) == seq![ns[0]] + ns.skip(1));
            assert(seq![ns[0]] + ns.skip(1) =~= ns);
            assert forall|i: int| 0 <= i < s.len() implies is_digit(#[trigger] s[i]) || s[i]
                == '.' by {
                if i < n {
                    assert(is_digit(t[i]));
                } else if i > n {
                    assert(s[i] == rest[i - n - 1]);
                }
            }
        } else {
            assert(version_vector(s) =~= ns);
            assert forall|i: int| 0 <= i < s.len() implies is_digit(#[trigger] s[i]) || s[i]
                == '.' by {
                assert(is_digit(t[i]));
            }
        }
    }
}

} // verus!
