//! Small executable helpers over strings and character vectors.

use vstd::prelude::*;
use vstd::string::StrSliceExecFns;

verus! {

/// Whether two string slices hold the same characters.
pub fn str_eq(a: &str, b: &str) -> (r: bool)
    ensures
        r == (a@ == b@),
{
    let an = a.unicode_len();
    let bn = b.unicode_len();
    if an != bn {
        proof {
            assert(a@ != b@) by {
                assert(a@.len() != b@.len());
            }
        }
        return false;
    }
    for i in 0..an
        invariant
            an == a@.len(),
            an == b@.len(),
            forall|k: int| 0 <= k < i ==> a@[k] == b@[k],
    {
        if a.get_char(i) != b.get_char(i) {
            return false;
        }
    }
    proof {
        assert(a@ =~= b@);
    }
    true
}

/// The characters of a string slice as a vector.
pub fn str_to_chars(s: &str) -> (r: Vec<char>)
    ensures
        r@ == s@,
{
    let n = s.unicode_len();
    let mut out: Vec<char> = Vec::new();
    for i in 0..n
        invariant
            n == s@.len(),
            out@ =~= s@.take(i as int),
    {
        let c = s.get_char(i);
        out.push(c);
        proof {
            assert(out@ =~= s@.take(i as int + 1));
        }
    }
    proof {
        assert(s@.take(n as int) =~= s@);
    }
    out
}

/// Relies on `String: FromIterator<char>`: collecting characters yields the
/// string whose characters are exactly the collected ones, in order.
#[verifier::external_body]
pub fn chars_to_string(v: &Vec<char>) -> (r: String)
    ensures
        r@ == v@,
{
    v.iter().collect()
}

/// Whether `s` starts with the characters of `p`.
pub fn str_starts_with(s: &str, p: &str) -> (r: bool)
    ensures
        r == (s@.len() >= p@.len() && s@.take(p@.len() as int) == p@),
{
    let sn = s.unicode_len();
    let pn = p.unicode_len();
    if sn < pn {
        return false;
    }
    for i in 0..pn
        invariant
            sn == s@.len(),
            pn == p@.len(),
            sn >= pn,
            forall|k: int| 0 <= k < i ==> s@[k] == p@[k],
    {
        if s.get_char(i) != p.get_char(i) {
            proof {
                assert(s@.take(pn as int)[i as int] != p@[i as int]);
            }
            return false;
        }
    }
    proof {
        assert(s@.take(pn as int) =~= p@);
    }
    true
}

/// ASCII lowercase of a character; other characters are unchanged.
pub open spec fn spec_lower_char(c: char) -> char {
    if 'A' <= c <= 'Z' {
        (((c as u32) + 32) as u8) as char
    } else {
        c
    }
}

/// ASCII lowercase of a character sequence.
pub open spec fn spec_lower(s: Seq<char>) -> Seq<char> {
    s.map_values(|c: char| spec_lower_char(c))
}

fn lower_char(c: char) -> (r: char)
    ensures
        r == spec_lower_char(c),
{
    if 'A' <= c && c <= 'Z' {
        (((c as u32) + 32) as u8) as char
    } else {
        c
    }
}

/// ASCII-lowercases a string.
pub fn ascii_lower(s: &str) -> (r: String)
    ensures
        r@ == spec_lower(s@),
{
    let n = s.unicode_len();
    let mut out: Vec<char> = Vec::new();
    for i in 0..n
        invariant
            n == s@.len(),
            out@ =~= spec_lower(s@.take(i as int)),
    {
        let c = lower_char(s.get_char(i));
        out.push(c);
        proof {
            assert(out@ =~= spec_lower(s@.take(i as int + 1)));
        }
    }
    proof {
        assert(s@.take(n as int) =~= s@);
    }
    chars_to_string(&out)
}

/// The blank characters recognized by the transports.
pub open spec fn spec_is_blank_char(c: char) -> bool {
    c == ' ' || c == '\t' || c == '\n' || c == '\r'
}

/// Whether every character of the sequence is blank.
pub open spec fn spec_all_blank(s: Seq<char>) -> bool {
    forall|k: int| 0 <= k < s.len() ==> spec_is_blank_char(#[trigger] s[k])
}

/// Whether a string consists of blank characters only.
pub fn is_blank(s: &str) -> (r: bool)
    ensures
        r == spec_all_blank(s@),
{
    let n = s.unicode_len();
    for i in 0..n
        invariant
            n == s@.len(),
            forall|k: int| 0 <= k < i ==> spec_is_blank_char(#[trigger] s@[k]),
    {
        let c = s.get_char(i);
        if !(c == ' ' || c == '\t' || c == '\n' || c == '\r') {
            return false;
        }
    }
    true
}

/// Concatenation of two string slices.
pub fn concat2(a: &str, b: &str) -> (r: String)
    ensures
        r@ == a@ + b@,
{
    let mut s = a.to_owned();
    s.append(b);
    s
}

/// Concatenation of three string slices.
pub fn concat3(a: &str, b: &str, c: &str) -> (r: String)
    ensures
        r@ == a@ + b@ + c@,
{
    let mut s = a.to_owned();
    s.append(b);
    s.append(c);
    s
}


/// Whether `p` occurs in `s` as a contiguous run.
pub open spec fn spec_contains(s: Seq<char>, p: Seq<char>) -> bool {
    exists|k: int|
        0 <= k && k + p.len() <= s.len() && (#[trigger] s.subrange(k, k + p.len() as int)) == p
}

/// Substring search.
#[verifier::loop_isolation(false)]
pub fn str_contains(s: &str, p: &str) -> (r: bool)
    ensures
        r == spec_contains(s@, p@),
{
    let sn = s.unicode_len();
    let pn = p.unicode_len();
    if pn > sn {
        return false;
    }
    if pn == 0 {
        proof {
            assert(s@.subrange(0, 0 + p@.len() as int) =~= p@);
        }
        return true;
    }
    let mut k: usize = 0;
    while k <= sn - pn
        invariant
            0 <= k <= sn - pn + 1,
            sn == s@.len(),
            pn == p@.len(),
            pn <= sn,
            forall|k2: int|
                0 <= k2 < k ==> (#[trigger] s@.subrange(k2, k2 + p@.len() as int)) != p@,
        decreases sn - pn - k + 1,
    {
        let mut ok = true;
        let ghost mut bad: int = 0;
        for j in 0..pn
            invariant
                ok ==> forall|j2: int| 0 <= j2 < j ==> s@[k + j2] == p@[j2],
                !ok ==> 0 <= bad < pn && s@[k + bad] != p@[bad],
                k + pn <= sn,
        {
            if s.get_char(k + j) != p.get_char(j) {
                proof {
                    bad = j as int;
                }
                ok = false;
                break;
            }
        }
        if ok {
            proof {
                assert(s@.subrange(k as int, k + pn as int) =~= p@);
            }
            return true;
        }
        proof {
            assert(s@.subrange(k as int, k + pn as int)[bad] != p@[bad]);
            assert(s@.subrange(k as int, k + pn as int) != p@);
        }
        k = k + 1;
    }
    proof {
        assert forall|k2: int| 0 <= k2 && k2 + p@.len() <= s@.len() implies (#[trigger] s@.subrange(
            k2,
            k2 + p@.len() as int,
        )) != p@ by {
            assert(k2 < k);
        }
    }
    false
}

} // verus!

