//! Text codec for structured values.
//!
//! `spec_enc_json` is the canonical text of a value; `spec_parse_value` is the
//! grammar, as a total function over character sequences. The executable
//! encoder and parser implement those functions exactly, and
//! `lemma_parse_enc` proves that parsing inverts encoding.

use vstd::prelude::*;
use vstd::string::StrSliceExecFns;

use crate::json::{
    j_view, j_view_list, j_view_members, lemma_j_view_list_index, lemma_j_view_members_index,
    wf_json, wf_json_list, wf_json_members, JsonSpec, JsonVal,
};

verus! {

broadcast use vstd::std_specs::vec::group_vec_axioms;

// ---------------------------------------------------------------------------
// Characters
// ---------------------------------------------------------------------------

/// Whitespace accepted between tokens.
pub open spec fn spec_is_ws(c: char) -> bool {
    c == ' ' || c == '\t' || c == '\n' || c == '\r'
}

/// Decimal digit.
pub open spec fn spec_is_digit(c: char) -> bool {
    '0' <= c && c <= '9'
}

/// Value of a decimal digit character.
pub open spec fn spec_digit_val(c: char) -> int {
    (c as int) - 48
}

/// Character of a decimal digit value.
pub open spec fn spec_digit_char(d: int) -> char {
    ((48 + d) as u8) as char
}

/// Character of a hexadecimal digit value, lower case.
pub open spec fn spec_hex_char(d: int) -> char {
    if d < 10 {
        ((48 + d) as u8) as char
    } else {
        ((87 + d) as u8) as char
    }
}

// ---------------------------------------------------------------------------
// Encoding, specification level
// ---------------------------------------------------------------------------

/// Decimal digits of a natural number, most significant first.
pub open spec fn spec_enc_nat(n: nat) -> Seq<char>
    decreases n,
{
    if n < 10 {
        seq![spec_digit_char(n as int)]
    } else {
        spec_enc_nat(n / 10) + seq![spec_digit_char((n % 10) as int)]
    }
}

/// Decimal text of an integer.
pub open spec fn spec_enc_int(i: int) -> Seq<char> {
    if i < 0 {
        seq!['-'] + spec_enc_nat((-i) as nat)
    } else {
        spec_enc_nat(i as nat)
    }
}

/// Escape of one string character.
pub open spec fn spec_esc_char(c: char) -> Seq<char> {
    if c == '"' {
        seq!['\\', '"']
    } else if c == '\\' {
        seq!['\\', '\\']
    } else if c == '\n' {
        seq!['\\', 'n']
    } else if c == '\r' {
        seq!['\\', 'r']
    } else if c == '\t' {
        seq!['\\', 't']
    } else if (c as u32) < 32 {
        seq!['\\', 'u', '0', '0', spec_hex_char(((c as u32) / 16) as int), spec_hex_char(
            ((c as u32) % 16) as int,
        )]
    } else {
        seq![c]
    }
}

/// Escaped body of a string literal.
pub open spec fn spec_enc_str_body(s: Seq<char>) -> Seq<char>
    decreases s.len(),
{
    if s.len() == 0 {
        Seq::empty()
    } else {
        spec_esc_char(s[0]) + spec_enc_str_body(s.drop_first())
    }
}

/// A quoted, escaped string literal.
pub open spec fn spec_enc_string(s: Seq<char>) -> Seq<char> {
    seq!['"'] + spec_enc_str_body(s) + seq!['"']
}

/// Canonical text of a value: no whitespace, members in order.
pub open spec fn spec_enc_json(v: JsonSpec) -> Seq<char>
    decreases v, 0int,
{
    match v {
        JsonSpec::Null => seq!['n', 'u', 'l', 'l'],
        JsonSpec::Bool(b) => if b {
            seq!['t', 'r', 'u', 'e']
        } else {
            seq!['f', 'a', 'l', 's', 'e']
        },
        JsonSpec::Int(i) => spec_enc_int(i),
        JsonSpec::Str(s) => spec_enc_string(s),
        JsonSpec::Arr(xs) => seq!['['] + spec_enc_elems(xs) + seq![']'],
        JsonSpec::Obj(ps) => seq!['{'] + spec_enc_members(ps) + seq!['}'],
    }
}

/// Comma-separated texts of array elements.
pub open spec fn spec_enc_elems(xs: Seq<JsonSpec>) -> Seq<char>
    decreases xs, 1int,
{
    if xs.len() == 0 {
        Seq::empty()
    } else if xs.len() == 1 {
        spec_enc_json(xs[0])
    } else {
        spec_enc_json(xs[0]) + seq![','] + spec_enc_elems(xs.drop_first())
    }
}

/// Comma-separated texts of object members.
pub open spec fn spec_enc_members(ps: Seq<(Seq<char>, JsonSpec)>) -> Seq<char>
    decreases ps, 1int,
{
    if ps.len() == 0 {
        Seq::empty()
    } else if ps.len() == 1 {
        spec_enc_string(ps[0].0) + seq![':'] + spec_enc_json(ps[0].1)
    } else {
        spec_enc_string(ps[0].0) + seq![':'] + spec_enc_json(ps[0].1) + seq![',']
            + spec_enc_members(ps.drop_first())
    }
}

// ---------------------------------------------------------------------------
// Encoding, executable
// ---------------------------------------------------------------------------

/// The escaped body distributes over concatenation.
pub proof fn lemma_enc_str_body_concat(a: Seq<char>, b: Seq<char>)
    ensures
        spec_enc_str_body(a + b) == spec_enc_str_body(a) + spec_enc_str_body(b),
    decreases a.len(),
{
    if a.len() == 0 {
        assert(a + b =~= b);
        assert(spec_enc_str_body(a) + spec_enc_str_body(b) =~= spec_enc_str_body(b));
    } else {
        lemma_enc_str_body_concat(a.drop_first(), b);
        assert((a + b).drop_first() =~= a.drop_first() + b);
        assert(spec_esc_char(a[0]) + (spec_enc_str_body(a.drop_first()) + spec_enc_str_body(b))
            =~= (spec_esc_char(a[0]) + spec_enc_str_body(a.drop_first())) + spec_enc_str_body(b));
    }
}

fn digit_char(d: u64) -> (r: char)
    requires
        d < 10,
    ensures
        r == spec_digit_char(d as int),
{
    ((48 + d as u8)) as char
}

#[verifier::loop_isolation(false)]
pub(crate) fn enc_nat_into(n: u64, out: &mut Vec<char>)
    ensures
        final(out)@ == old(out)@ + spec_enc_nat(n as nat),
    decreases n,
{
    if n < 10 {
        let c = digit_char(n);
        out.push(c);
        proof {
            assert(out@ =~= old(out)@ + spec_enc_nat(n as nat));
        }
    } else {
        enc_nat_into(n / 10, out);
        let c = digit_char(n % 10);
        out.push(c);
        proof {
            assert(out@ =~= old(out)@ + spec_enc_nat(n as nat));
        }
    }
}

#[verifier::loop_isolation(false)]
fn enc_i64_into(i: i64, out: &mut Vec<char>)
    ensures
        final(out)@ == old(out)@ + spec_enc_int(i as int),
{
    if i < 0 {
        out.push('-');
        let m: u64 = if i == i64::MIN {
            9223372036854775808u64
        } else {
            (-i) as u64
        };
        proof {
            assert(m as nat == (-(i as int)) as nat);
        }
        enc_nat_into(m, out);
        proof {
            assert(out@ =~= old(out)@ + spec_enc_int(i as int));
        }
    } else {
        enc_nat_into(i as u64, out);
    }
}

fn hex_char(d: u32) -> (r: char)
    requires
        d < 16,
    ensures
        r == spec_hex_char(d as int),
{
    if d < 10 {
        ((48 + d as u8)) as char
    } else {
        ((87 + d as u8)) as char
    }
}

fn esc_char_into(c: char, out: &mut Vec<char>)
    ensures
        final(out)@ == old(out)@ + spec_esc_char(c),
{
    if c == '"' {
        out.push('\\');
        out.push('"');
    } else if c == '\\' {
        out.push('\\');
        out.push('\\');
    } else if c == '\n' {
        out.push('\\');
        out.push('n');
    } else if c == '\r' {
        out.push('\\');
        out.push('r');
    } else if c == '\t' {
        out.push('\\');
        out.push('t');
    } else if (c as u32) < 32 {
        out.push('\\');
        out.push('u');
        out.push('0');
        out.push('0');
        let h1 = hex_char((c as u32) / 16);
        out.push(h1);
        let h2 = hex_char((c as u32) % 16);
        out.push(h2);
    } else {
        out.push(c);
    }
    proof {
        assert(out@ =~= old(out)@ + spec_esc_char(c));
    }
}

#[verifier::loop_isolation(false)]
fn enc_str_body_into(s: &str, out: &mut Vec<char>)
    ensures
        final(out)@ == old(out)@ + spec_enc_str_body(s@),
{
    let n = s.unicode_len();
    for i in 0..n
        invariant
            n == s@.len(),
            out@ == old(out)@ + spec_enc_str_body(s@.take(i as int)),
    {
        let c = s.get_char(i);
        esc_char_into(c, out);
        proof {
            assert(s@.take(i as int) + seq![s@[i as int]] =~= s@.take(i as int + 1));
            lemma_enc_str_body_concat(s@.take(i as int), seq![s@[i as int]]);
            let ghost c0 = s@[i as int];
            assert(seq![c0].len() == 1 && seq![c0][0] == c0);
            assert(seq![c0].drop_first() =~= Seq::<char>::empty());
            assert(spec_enc_str_body(seq![c0]) == spec_esc_char(c0) + spec_enc_str_body(
                Seq::<char>::empty(),
            ));
            assert(spec_esc_char(c0) + Seq::<char>::empty() =~= spec_esc_char(c0));
        }
    }
    proof {
        assert(s@.take(n as int) =~= s@);
    }
}

fn enc_string_into(s: &str, out: &mut Vec<char>)
    ensures
        final(out)@ == old(out)@ + spec_enc_string(s@),
{
    out.push('"');
    enc_str_body_into(s, out);
    out.push('"');
    proof {
        assert(out@ =~= old(out)@ + spec_enc_string(s@));
    }
}

fn enc_json_into(v: &JsonVal, out: &mut Vec<char>)
    ensures
        final(out)@ == old(out)@ + spec_enc_json(v@),
    decreases *v, 0int,
{
    match v {
        JsonVal::Null => {
            out.push('n');
            out.push('u');
            out.push('l');
            out.push('l');
            proof {
                assert(out@ =~= old(out)@ + spec_enc_json(v@));
            }
        },
        JsonVal::Bool(b) => {
            if *b {
                out.push('t');
                out.push('r');
                out.push('u');
                out.push('e');
            } else {
                out.push('f');
                out.push('a');
                out.push('l');
                out.push('s');
                out.push('e');
            }
            proof {
                assert(out@ =~= old(out)@ + spec_enc_json(v@));
            }
        },
        JsonVal::Int(i) => {
            enc_i64_into(*i, out);
        },
        JsonVal::Str(s) => {
            enc_string_into(s.as_str(), out);
        },
        JsonVal::Arr(xs) => {
            out.push('[');
            if xs.len() > 0 {
                enc_elems_into(xs, 0, out);
            }
            out.push(']');
            proof {
                broadcast use lemma_j_view_list_index;

                assert(j_view_list(xs@).skip(0) =~= j_view_list(xs@));
                assert(out@ =~= old(out)@ + spec_enc_json(v@));
            }
        },
        JsonVal::Obj(ps) => {
            out.push('{');
            if ps.len() > 0 {
                enc_members_into(ps, 0, out);
            }
            out.push('}');
            proof {
                broadcast use lemma_j_view_members_index;

                assert(j_view_members(ps@).skip(0) =~= j_view_members(ps@));
                assert(out@ =~= old(out)@ + spec_enc_json(v@));
            }
        },
    }
}

fn enc_elems_into(xs: &Vec<JsonVal>, k: usize, out: &mut Vec<char>)
    requires
        k < xs@.len(),
    ensures
        final(out)@ == old(out)@ + spec_enc_elems(j_view_list(xs@).skip(k as int)),
    decreases *xs, 1int, xs@.len() - k,
{
    proof {
        broadcast use lemma_j_view_list_index;

    }
    let ghost tail: Seq<JsonSpec> = j_view_list(xs@).skip(k as int);
    enc_json_into(&xs[k], out);
    proof {
        assert(tail[0] == j_view(xs@[k as int]));
    }
    if k < xs.len() - 1 {
        out.push(',');
        enc_elems_into(xs, k + 1, out);
        proof {
            assert(tail.drop_first() =~= j_view_list(xs@).skip(k as int + 1));
            assert(out@ =~= old(out)@ + spec_enc_elems(tail));
        }
    } else {
        proof {
            assert(tail.len() == 1);
        }
    }
}

fn enc_members_into(ps: &Vec<(String, JsonVal)>, k: usize, out: &mut Vec<char>)
    requires
        k < ps@.len(),
    ensures
        final(out)@ == old(out)@ + spec_enc_members(j_view_members(ps@).skip(k as int)),
    decreases *ps, 1int, ps@.len() - k,
{
    proof {
        broadcast use lemma_j_view_members_index;

    }
    let ghost tail: Seq<(Seq<char>, JsonSpec)> = j_view_members(ps@).skip(k as int);
    proof {
        assert(tail[0] == (ps@[k as int].0@, j_view(ps@[k as int].1)));
    }
    enc_string_into(ps[k].0.as_str(), out);
    out.push(':');
    enc_json_into(&ps[k].1, out);
    if k < ps.len() - 1 {
        out.push(',');
        enc_members_into(ps, k + 1, out);
        proof {
            assert(tail.drop_first() =~= j_view_members(ps@).skip(k as int + 1));
            assert(out@ =~= old(out)@ + spec_enc_members(tail));
        }
    } else {
        proof {
            assert(tail.len() == 1);
            assert(out@ =~= old(out)@ + spec_enc_members(tail));
        }
    }
}

/// Canonical text of a value.
pub fn encode_json(v: &JsonVal) -> (r: String)
    ensures
        r@ == spec_enc_json(v@),
{
    let mut out: Vec<char> = Vec::new();
    enc_json_into(v, &mut out);
    crate::text::chars_to_string(&out)
}


// ---------------------------------------------------------------------------
// Parsing, specification level
// ---------------------------------------------------------------------------

/// Value of a hexadecimal digit character; -1 when `c` is no such digit.
pub open spec fn spec_hex_digit_val(c: char) -> int {
    if '0' <= c && c <= '9' {
        (c as int) - 48
    } else if 'a' <= c && c <= 'f' {
        (c as int) - 87
    } else if 'A' <= c && c <= 'F' {
        (c as int) - 55
    } else {
        -1
    }
}

/// First position at or after `i` holding a non-whitespace character.
pub open spec fn spec_skip_ws(s: Seq<char>, i: int) -> int
    decreases s.len() - i,
{
    if 0 <= i < s.len() && spec_is_ws(s[i]) {
        spec_skip_ws(s, i + 1)
    } else {
        i
    }
}

/// First position at or after `i` holding a non-digit character.
pub open spec fn spec_digits_end(s: Seq<char>, i: int) -> int
    decreases s.len() - i,
{
    if 0 <= i < s.len() && spec_is_digit(s[i]) {
        spec_digits_end(s, i + 1)
    } else {
        i
    }
}

/// Value of the decimal digits in positions `i` up to `j`.
pub open spec fn spec_digits_val(s: Seq<char>, i: int, j: int) -> int
    decreases j - i,
{
    if j <= i {
        0
    } else {
        spec_digits_val(s, i, j - 1) * 10 + spec_digit_val(s[j - 1])
    }
}

/// Parse of an integer token at `i`: an optional minus sign and digits,
/// rejected when the value does not fit a 64-bit signed integer.
pub open spec fn spec_parse_int(s: Seq<char>, i: int) -> Option<(JsonSpec, int)> {
    if 0 <= i < s.len() && s[i] == '-' {
        let e = spec_digits_end(s, i + 1);
        if e == i + 1 {
            Option::None
        } else {
            let v = -spec_digits_val(s, i + 1, e);
            if v >= i64::MIN {
                Option::Some((JsonSpec::Int(v), e))
            } else {
                Option::None
            }
        }
    } else {
        let e = spec_digits_end(s, i);
        if e == i {
            Option::None
        } else {
            let v = spec_digits_val(s, i, e);
            if v <= i64::MAX {
                Option::Some((JsonSpec::Int(v), e))
            } else {
                Option::None
            }
        }
    }
}

/// Parse of a string body at `i` (the opening quote already consumed),
/// up to and including the closing quote. Escapes `\u` are accepted for
/// code points below 128; raw characters below 32 are rejected.
pub open spec fn spec_parse_str_body(s: Seq<char>, i: int) -> Option<(Seq<char>, int)>
    decreases s.len() - i,
{
    if !(0 <= i < s.len()) {
        Option::None
    } else if s[i] == '"' {
        Option::Some((Seq::empty(), i + 1))
    } else if s[i] == '\\' {
        if i + 1 < s.len() {
            let e = s[i + 1];
            if e == '"' || e == '\\' || e == '/' {
                match spec_parse_str_body(s, i + 2) {
                    Option::Some((t, j)) => Option::Some((seq![e] + t, j)),
                    Option::None => Option::None,
                }
            } else if e == 'n' {
                match spec_parse_str_body(s, i + 2) {
                    Option::Some((t, j)) => Option::Some((seq!['\n'] + t, j)),
                    Option::None => Option::None,
                }
            } else if e == 'r' {
                match spec_parse_str_body(s, i + 2) {
                    Option::Some((t, j)) => Option::Some((seq!['\r'] + t, j)),
                    Option::None => Option::None,
                }
            } else if e == 't' {
                match spec_parse_str_body(s, i + 2) {
                    Option::Some((t, j)) => Option::Some((seq!['\t'] + t, j)),
                    Option::None => Option::None,
                }
            } else if e == 'b' {
                match spec_parse_str_body(s, i + 2) {
                    Option::Some((t, j)) => Option::Some((seq![(8u8) as char] + t, j)),
                    Option::None => Option::None,
                }
            } else if e == 'f' {
                match spec_parse_str_body(s, i + 2) {
                    Option::Some((t, j)) => Option::Some((seq![(12u8) as char] + t, j)),
                    Option::None => Option::None,
                }
            } else if e == 'u' {
                if i + 6 <= s.len() {
                    let h1 = spec_hex_digit_val(s[i + 2]);
                    let h2 = spec_hex_digit_val(s[i + 3]);
                    let h3 = spec_hex_digit_val(s[i + 4]);
                    let h4 = spec_hex_digit_val(s[i + 5]);
                    if h1 >= 0 && h2 >= 0 && h3 >= 0 && h4 >= 0 {
                        let code = h1 * 4096 + h2 * 256 + h3 * 16 + h4;
                        if code < 128 {
                            match spec_parse_str_body(s, i + 6) {
                                Option::Some((t, j)) => Option::Some(
                                    (seq![(code as u8) as char] + t, j),
                                ),
                                Option::None => Option::None,
                            }
                        } else {
                            Option::None
                        }
                    } else {
                        Option::None
                    }
                } else {
                    Option::None
                }
            } else {
                Option::None
            }
        } else {
            Option::None
        }
    } else if (s[i] as u32) >= 32 {
        match spec_parse_str_body(s, i + 1) {
            Option::Some((t, j)) => Option::Some((seq![s[i]] + t, j)),
            Option::None => Option::None,
        }
    } else {
        Option::None
    }
}

/// Parse of one value at `i`.
pub open spec fn spec_parse_value(s: Seq<char>, i: int) -> Option<(JsonSpec, int)>
    decreases s.len() - i, 0int,
{
    if !(0 <= i < s.len()) {
        Option::None
    } else if s[i] == 'n' {
        if i + 4 <= s.len() && s[i + 1] == 'u' && s[i + 2] == 'l' && s[i + 3] == 'l' {
            Option::Some((JsonSpec::Null, i + 4))
        } else {
            Option::None
        }
    } else if s[i] == 't' {
        if i + 4 <= s.len() && s[i + 1] == 'r' && s[i + 2] == 'u' && s[i + 3] == 'e' {
            Option::Some((JsonSpec::Bool(true), i + 4))
        } else {
            Option::None
        }
    } else if s[i] == 'f' {
        if i + 5 <= s.len() && s[i + 1] == 'a' && s[i + 2] == 'l' && s[i + 3] == 's' && s[i + 4]
            == 'e' {
            Option::Some((JsonSpec::Bool(false), i + 5))
        } else {
            Option::None
        }
    } else if s[i] == '"' {
        match spec_parse_str_body(s, i + 1) {
            Option::Some((cs, j)) => Option::Some((JsonSpec::Str(cs), j)),
            Option::None => Option::None,
        }
    } else if s[i] == '-' || spec_is_digit(s[i]) {
        spec_parse_int(s, i)
    } else if s[i] == '[' {
        let j = spec_skip_ws(s, i + 1);
        if j < i + 1 || j > s.len() {
            Option::None
        } else if j < s.len() && s[j] == ']' {
            Option::Some((JsonSpec::Arr(Seq::empty()), j + 1))
        } else {
            match spec_parse_elems(s, j) {
                Option::Some((xs, k)) => Option::Some((JsonSpec::Arr(xs), k)),
                Option::None => Option::None,
            }
        }
    } else if s[i] == '{' {
        let j = spec_skip_ws(s, i + 1);
        if j < i + 1 || j > s.len() {
            Option::None
        } else if j < s.len() && s[j] == '}' {
            Option::Some((JsonSpec::Obj(Seq::empty()), j + 1))
        } else {
            match spec_parse_members(s, j) {
                Option::Some((ps, k)) => Option::Some((JsonSpec::Obj(ps), k)),
                Option::None => Option::None,
            }
        }
    } else {
        Option::None
    }
}

/// Parse of one or more comma-separated elements at `i`, up to and
/// including the closing bracket.
pub open spec fn spec_parse_elems(s: Seq<char>, i: int) -> Option<(Seq<JsonSpec>, int)>
    decreases s.len() - i, 1int,
{
    match spec_parse_value(s, i) {
        Option::None => Option::None,
        Option::Some((v, k)) => {
            let k2 = spec_skip_ws(s, k);
            if k2 < s.len() && s[k2] == ',' {
                let k3 = spec_skip_ws(s, k2 + 1);
                if k3 <= i || k3 > s.len() {
                    Option::None
                } else {
                    match spec_parse_elems(s, k3) {
                        Option::Some((xs, e)) => Option::Some((seq![v] + xs, e)),
                        Option::None => Option::None,
                    }
                }
            } else if k2 < s.len() && s[k2] == ']' {
                Option::Some((seq![v], k2 + 1))
            } else {
                Option::None
            }
        },
    }
}

/// Parse of one or more comma-separated members at `i`, up to and
/// including the closing brace.
pub open spec fn spec_parse_members(s: Seq<char>, i: int) -> Option<
    (Seq<(Seq<char>, JsonSpec)>, int),
>
    decreases s.len() - i, 1int,
{
    if 0 <= i < s.len() && s[i] == '"' {
        match spec_parse_str_body(s, i + 1) {
            Option::None => Option::None,
            Option::Some((key, k)) => {
                let k2 = spec_skip_ws(s, k);
                if k2 < s.len() && s[k2] == ':' {
                    let k3 = spec_skip_ws(s, k2 + 1);
                    if k3 < i || k3 > s.len() {
                        Option::None
                    } else {
                        match spec_parse_value(s, k3) {
                            Option::None => Option::None,
                            Option::Some((v, k4)) => {
                                let k5 = spec_skip_ws(s, k4);
                                if k5 < s.len() && s[k5] == ',' {
                                    let k6 = spec_skip_ws(s, k5 + 1);
                                    if k6 <= i || k6 > s.len() {
                                        Option::None
                                    } else {
                                        match spec_parse_members(s, k6) {
                                            Option::Some((ps, e)) => Option::Some(
                                                (seq![(key, v)] + ps, e),
                                            ),
                                            Option::None => Option::None,
                                        }
                                    }
                                } else if k5 < s.len() && s[k5] == '}' {
                                    Option::Some((seq![(key, v)], k5 + 1))
                                } else {
                                    Option::None
                                }
                            },
                        }
                    }
                } else {
                    Option::None
                }
            },
        }
    } else {
        Option::None
    }
}

/// Parse of a whole text: one value, possibly surrounded by whitespace.
pub open spec fn spec_parse_text(s: Seq<char>) -> Option<JsonSpec> {
    let i = spec_skip_ws(s, 0);
    match spec_parse_value(s, i) {
        Option::None => Option::None,
        Option::Some((v, j)) => if spec_skip_ws(s, j) == s.len() {
            Option::Some(v)
        } else {
            Option::None
        },
    }
}


// ---------------------------------------------------------------------------
// Parsing, executable
// ---------------------------------------------------------------------------


/// A successful string-body parse always advances and stays in range.
proof fn lemma_str_body_bounds(s: Seq<char>, i: int)
    ensures
        (match spec_parse_str_body(s, i) {
            Option::Some((_t, e)) => i < e <= s.len(),
            Option::None => true,
        }),
    decreases s.len() - i,
{
    if 0 <= i < s.len() {
        if s[i] == '"' {
        } else if s[i] == '\\' {
            if i + 1 < s.len() {
                if i + 2 <= s.len() {
                    lemma_str_body_bounds(s, i + 2);
                }
                if i + 6 <= s.len() {
                    lemma_str_body_bounds(s, i + 6);
                }
            }
        } else {
            lemma_str_body_bounds(s, i + 1);
        }
    }
}

#[verifier::loop_isolation(false)]
fn skip_ws(s: &Vec<char>, i: usize) -> (r: usize)
    requires
        i <= s@.len(),
    ensures
        r as int == spec_skip_ws(s@, i as int),
        i <= r <= s@.len(),
{
    let mut j = i;
    while j < s.len() && (s[j] == ' ' || s[j] == '\t' || s[j] == '\n' || s[j] == '\r')
        invariant
            i <= j <= s@.len(),
            spec_skip_ws(s@, i as int) == spec_skip_ws(s@, j as int),
        decreases s@.len() - j,
    {
        j = j + 1;
    }
    j
}

fn hex_digit_val(c: char) -> (r: i32)
    ensures
        r as int == spec_hex_digit_val(c),
{
    if '0' <= c && c <= '9' {
        ((c as u32) as i32) - 48
    } else if 'a' <= c && c <= 'f' {
        ((c as u32) as i32) - 87
    } else if 'A' <= c && c <= 'F' {
        ((c as u32) as i32) - 55
    } else {
        -1
    }
}

#[verifier::loop_isolation(false)]
fn parse_str_body_at(s: &Vec<char>, i: usize) -> (r: Option<(Vec<char>, usize)>)
    requires
        i <= s@.len(),
    ensures
        match r {
            Option::Some(p) => spec_parse_str_body(s@, i as int) == Option::Some(
                (p.0@, p.1 as int),
            ) && i < p.1 <= s@.len(),
            Option::None => spec_parse_str_body(s@, i as int) is None,
        },
{
    let mut out: Vec<char> = Vec::new();
    let mut cur = i;
    proof {
        if let Option::Some((t, _e)) = spec_parse_str_body(s@, i as int) {
            assert(Seq::<char>::empty() + t =~= t);
        }
    }
    loop
        invariant
            i <= cur <= s@.len(),
            (match spec_parse_str_body(s@, cur as int) {
                Option::Some((t, e)) => spec_parse_str_body(s@, i as int) == Option::Some(
                    (out@ + t, e),
                ),
                Option::None => spec_parse_str_body(s@, i as int) is None,
            }),
        decreases s@.len() - cur,
    {
        if cur >= s.len() {
            return None;
        }
        let c = s[cur];
        if c == '"' {
            proof {
                assert(out@ + Seq::<char>::empty() =~= out@);
            }
            return Some((out, cur + 1));
        } else if c == '\\' {
            if cur + 1 >= s.len() {
                return None;
            }
            let e = s[cur + 1];
            let ghost out0 = out@;
            let ghost cur0 = cur as int;
            if e == '"' || e == '\\' || e == '/' {
                out.push(e);
                cur = cur + 2;
                proof {
                    if let Option::Some((t, _e2)) = spec_parse_str_body(s@, cur as int) {
                        assert(out@ + t =~= out0 + (seq![e] + t));
                    }
                }
            } else if e == 'n' {
                out.push('\n');
                cur = cur + 2;
                proof {
                    if let Option::Some((t, _e2)) = spec_parse_str_body(s@, cur as int) {
                        assert(out@ + t =~= out0 + (seq!['\n'] + t));
                    }
                }
            } else if e == 'r' {
                out.push('\r');
                cur = cur + 2;
                proof {
                    if let Option::Some((t, _e2)) = spec_parse_str_body(s@, cur as int) {
                        assert(out@ + t =~= out0 + (seq!['\r'] + t));
                    }
                }
            } else if e == 't' {
                out.push('\t');
                cur = cur + 2;
                proof {
                    if let Option::Some((t, _e2)) = spec_parse_str_body(s@, cur as int) {
                        assert(out@ + t =~= out0 + (seq!['\t'] + t));
                    }
                }
            } else if e == 'b' {
                out.push((8u8) as char);
                cur = cur + 2;
                proof {
                    if let Option::Some((t, _e2)) = spec_parse_str_body(s@, cur as int) {
                        assert(out@ + t =~= out0 + (seq![(8u8) as char] + t));
                    }
                }
            } else if e == 'f' {
                out.push((12u8) as char);
                cur = cur + 2;
                proof {
                    if let Option::Some((t, _e2)) = spec_parse_str_body(s@, cur as int) {
                        assert(out@ + t =~= out0 + (seq![(12u8) as char] + t));
                    }
                }
            } else if e == 'u' {
                if s.len() - cur < 6 {
                    return None;
                }
                let h1 = hex_digit_val(s[cur + 2]);
                let h2 = hex_digit_val(s[cur + 3]);
                let h3 = hex_digit_val(s[cur + 4]);
                let h4 = hex_digit_val(s[cur + 5]);
                if h1 < 0 || h2 < 0 || h3 < 0 || h4 < 0 {
                    return None;
                }
                let code: i32 = h1 * 4096 + h2 * 256 + h3 * 16 + h4;
                if code >= 128 {
                    return None;
                }
                let d = (code as u8) as char;
                out.push(d);
                cur = cur + 6;
                proof {
                    let spn = spec_parse_str_body(s@, cur as int);
                    assert(spec_parse_str_body(s@, cur0) == (match spn {
                        Option::Some((t, j2)) => Option::Some((seq![d] + t, j2)),
                        Option::None => Option::None::<(Seq<char>, int)>,
                    }));
                    if let Option::Some((t, _e2)) = spn {
                        assert(out@ + t =~= out0 + (seq![d] + t));
                    }
                }
            } else {
                return None;
            }
        } else if (c as u32) >= 32 {
            let ghost out0 = out@;
            out.push(c);
            cur = cur + 1;
            proof {
                if let Option::Some((t, _e2)) = spec_parse_str_body(s@, cur as int) {
                    assert(out@ + t =~= out0 + (seq![c] + t));
                }
            }
        } else {
            return None;
        }
    }
}

#[verifier::loop_isolation(false)]
fn parse_int_at(s: &Vec<char>, i: usize) -> (r: Option<(JsonVal, usize)>)
    requires
        i < s@.len(),
        s@[i as int] == '-' || spec_is_digit(s@[i as int]),
    ensures
        match r {
            Option::Some(p) => spec_parse_int(s@, i as int) == Option::Some((p.0@, p.1 as int))
                && i < p.1 <= s@.len(),
            Option::None => spec_parse_int(s@, i as int) is None,
        },
{
    let n = s.len();
    let neg = s[i] == '-';
    let d0 = if neg {
        i + 1
    } else {
        i
    };
    let mut j = d0;
    let mut val: u64 = 0;
    let mut too_big = false;
    while j < s.len() && '0' <= s[j] && s[j] <= '9'
        invariant
            d0 <= j <= s@.len(),
            spec_digits_end(s@, d0 as int) == spec_digits_end(s@, j as int),
            !too_big ==> val as int == spec_digits_val(s@, d0 as int, j as int) && val
                <= 9223372036854775808u64,
            too_big ==> spec_digits_val(s@, d0 as int, j as int) > 9223372036854775808,
        decreases s@.len() - j,
    {
        let d: u64 = ((s[j] as u32) as u64) - 48;
        proof {
            assert(d as int == spec_digit_val(s@[j as int]));
            assert(d < 10);
        }
        let ghost dv0 = spec_digits_val(s@, d0 as int, j as int);
        if !too_big {
            if val > 922337203685477580u64 {
                too_big = true;
            } else {
                val = val * 10 + d;
                if val > 9223372036854775808u64 {
                    too_big = true;
                }
            }
        }
        j = j + 1;
        proof {
            assert(spec_digits_val(s@, d0 as int, j as int) == dv0 * 10 + spec_digit_val(
                s@[j as int - 1],
            ));
        }
    }
    if j == d0 {
        return None;
    }
    proof {
        assert(spec_digits_end(s@, j as int) == j as int);
    }
    if neg {
        if too_big {
            return None;
        }
        let x: i64 = if val == 9223372036854775808u64 {
            i64::MIN
        } else {
            -(val as i64)
        };
        Some((JsonVal::Int(x), j))
    } else {
        if too_big {
            return None;
        }
        if val > 9223372036854775807u64 {
            return None;
        }
        Some((JsonVal::Int(val as i64), j))
    }
}

fn parse_value_at(s: &Vec<char>, i: usize) -> (r: Option<(JsonVal, usize)>)
    requires
        i <= s@.len(),
    ensures
        match r {
            Option::Some(p) => spec_parse_value(s@, i as int) == Option::Some((p.0@, p.1 as int))
                && i < p.1 <= s@.len(),
            Option::None => spec_parse_value(s@, i as int) is None,
        },
    decreases s@.len() - i, 0int,
{
    if i >= s.len() {
        return None;
    }
    let c = s[i];
    if c == 'n' {
        if s.len() - i >= 4 && s[i + 1] == 'u' && s[i + 2] == 'l' && s[i + 3] == 'l' {
            Some((JsonVal::Null, i + 4))
        } else {
            None
        }
    } else if c == 't' {
        if s.len() - i >= 4 && s[i + 1] == 'r' && s[i + 2] == 'u' && s[i + 3] == 'e' {
            Some((JsonVal::Bool(true), i + 4))
        } else {
            None
        }
    } else if c == 'f' {
        if s.len() - i >= 5 && s[i + 1] == 'a' && s[i + 2] == 'l' && s[i + 3] == 's' && s[i + 4]
            == 'e' {
            Some((JsonVal::Bool(false), i + 5))
        } else {
            None
        }
    } else if c == '"' {
        match parse_str_body_at(s, i + 1) {
            Option::Some(p) => {
                let (cs, j) = p;
                let st = crate::text::chars_to_string(&cs);
                Some((JsonVal::Str(st), j))
            },
            Option::None => None,
        }
    } else if c == '-' || ('0' <= c && c <= '9') {
        parse_int_at(s, i)
    } else if c == '[' {
        let j = skip_ws(s, i + 1);
        if j < s.len() && s[j] == ']' {
            let e: Vec<JsonVal> = Vec::new();
            proof {
                assert(j_view_list(e@) =~= Seq::<JsonSpec>::empty());
            }
            Some((JsonVal::Arr(e), j + 1))
        } else {
            match parse_elems_at(s, j) {
                Option::Some(p) => Some((JsonVal::Arr(p.0), p.1)),
                Option::None => None,
            }
        }
    } else if c == '{' {
        let j = skip_ws(s, i + 1);
        if j < s.len() && s[j] == '}' {
            let e: Vec<(String, JsonVal)> = Vec::new();
            proof {
                assert(j_view_members(e@) =~= Seq::<(Seq<char>, JsonSpec)>::empty());
            }
            Some((JsonVal::Obj(e), j + 1))
        } else {
            match parse_members_at(s, j) {
                Option::Some(p) => Some((JsonVal::Obj(p.0), p.1)),
                Option::None => None,
            }
        }
    } else {
        None
    }
}

fn parse_elems_at(s: &Vec<char>, i: usize) -> (r: Option<(Vec<JsonVal>, usize)>)
    requires
        i <= s@.len(),
    ensures
        match r {
            Option::Some(p) => spec_parse_elems(s@, i as int) == Option::Some(
                (j_view_list(p.0@), p.1 as int),
            ) && i < p.1 <= s@.len(),
            Option::None => spec_parse_elems(s@, i as int) is None,
        },
    decreases s@.len() - i, 1int,
{
    match parse_value_at(s, i) {
        Option::None => None,
        Option::Some(p) => {
            let (v, k) = p;
            let k2 = skip_ws(s, k);
            if k2 < s.len() && s[k2] == ',' {
                let k3 = skip_ws(s, k2 + 1);
                match parse_elems_at(s, k3) {
                    Option::None => None,
                    Option::Some(q) => {
                        let (mut xs, e) = q;
                        let ghost xs0 = xs@;
                        xs.insert(0, v);
                        proof {
                            broadcast use lemma_j_view_list_index;

                            assert(xs@.drop_first() =~= xs0);
                            assert(j_view_list(xs@) =~= seq![j_view(v)] + j_view_list(xs0));
                        }
                        Some((xs, e))
                    },
                }
            } else if k2 < s.len() && s[k2] == ']' {
                let mut xs: Vec<JsonVal> = Vec::new();
                xs.push(v);
                proof {
                    broadcast use lemma_j_view_list_index;

                    assert(xs@ =~= seq![v]);
                    assert(j_view_list(xs@).len() == 1);
                    assert(j_view_list(xs@)[0] == j_view(v));
                    assert(j_view_list(xs@) =~= seq![j_view(v)]);
                }
                Some((xs, k2 + 1))
            } else {
                None
            }
        },
    }
}

fn parse_members_at(s: &Vec<char>, i: usize) -> (r: Option<(Vec<(String, JsonVal)>, usize)>)
    requires
        i <= s@.len(),
    ensures
        match r {
            Option::Some(p) => spec_parse_members(s@, i as int) == Option::Some(
                (j_view_members(p.0@), p.1 as int),
            ) && i < p.1 <= s@.len(),
            Option::None => spec_parse_members(s@, i as int) is None,
        },
    decreases s@.len() - i, 1int,
{
    if i < s.len() && s[i] == '"' {
        match parse_str_body_at(s, i + 1) {
            Option::None => None,
            Option::Some(p) => {
                let (kcs, k) = p;
                let key = crate::text::chars_to_string(&kcs);
                let k2 = skip_ws(s, k);
                if k2 < s.len() && s[k2] == ':' {
                    let k3 = skip_ws(s, k2 + 1);
                    match parse_value_at(s, k3) {
                        Option::None => None,
                        Option::Some(q) => {
                            let (v, k4) = q;
                            let k5 = skip_ws(s, k4);
                            if k5 < s.len() && s[k5] == ',' {
                                let k6 = skip_ws(s, k5 + 1);
                                match parse_members_at(s, k6) {
                                    Option::None => None,
                                    Option::Some(w) => {
                                        let (mut ps, e) = w;
                                        let ghost ps0 = ps@;
                                        ps.insert(0, (key, v));
                                        proof {
                                            broadcast use lemma_j_view_members_index;

                                            assert(ps@.drop_first() =~= ps0);
                                            assert(j_view_members(ps@) =~= seq![
                                                (ps@[0].0@, j_view(ps@[0].1)),
                                            ] + j_view_members(ps0));
                                        }
                                        Some((ps, e))
                                    },
                                }
                            } else if k5 < s.len() && s[k5] == '}' {
                                let mut ps: Vec<(String, JsonVal)> = Vec::new();
                                ps.push((key, v));
                                proof {
                                    broadcast use lemma_j_view_members_index;

                                    assert(ps@ =~= seq![(key, v)]);
                                    assert(j_view_members(ps@).len() == 1);
                                    assert(j_view_members(ps@)[0] == (key@, j_view(v)));
                                    assert(j_view_members(ps@) =~= seq![(key@, j_view(v))]);
                                }
                                Some((ps, k5 + 1))
                            } else {
                                None
                            }
                        },
                    }
                } else {
                    None
                }
            },
        }
    } else {
        None
    }
}

/// Parses a whole text into a value; `None` when the text is not well-formed.
pub fn decode_json(s: &str) -> (r: Option<JsonVal>)
    ensures
        match r {
            Option::Some(v) => spec_parse_text(s@) == Option::Some(v@),
            Option::None => spec_parse_text(s@) is None,
        },
{
    let cs = crate::text::str_to_chars(s);
    let i = skip_ws(&cs, 0);
    match parse_value_at(&cs, i) {
        Option::None => None,
        Option::Some(p) => {
            let (v, j) = p;
            let e = skip_ws(&cs, j);
            if e == cs.len() {
                Some(v)
            } else {
                None
            }
        },
    }
}


// ---------------------------------------------------------------------------
// Parsing inverts encoding
// ---------------------------------------------------------------------------

/// The text `w` occurs in `s` at position `i`.
pub open spec fn spec_window(s: Seq<char>, i: int, w: Seq<char>) -> bool {
    0 <= i && i + w.len() <= s.len() && forall|k: int| 0 <= k < w.len() ==> s[i + k] == #[trigger] w[k]
}

proof fn lemma_enc_nat_props(n: nat)
    ensures
        spec_enc_nat(n).len() >= 1,
        forall|k: int|
            0 <= k < spec_enc_nat(n).len() ==> spec_is_digit(#[trigger] spec_enc_nat(n)[k]),
    decreases n,
{
    if n < 10 {
        assert(spec_is_digit(spec_digit_char(n as int)));
    } else {
        lemma_enc_nat_props(n / 10);
        assert(spec_is_digit(spec_digit_char((n % 10) as int)));
    }
}

proof fn lemma_digits_end_range(s: Seq<char>, i: int, j: int)
    requires
        0 <= i <= j <= s.len(),
        forall|k: int| i <= k < j ==> spec_is_digit(#[trigger] s[k]),
        j == s.len() || !spec_is_digit(s[j]),
    ensures
        spec_digits_end(s, i) == j,
    decreases j - i,
{
    if i < j {
        lemma_digits_end_range(s, i + 1, j);
    }
}

proof fn lemma_digits_val_enc(n: nat, s: Seq<char>, i: int)
    requires
        spec_window(s, i, spec_enc_nat(n)),
    ensures
        spec_digits_val(s, i, i + spec_enc_nat(n).len()) == n,
    decreases n,
{
    let w = spec_enc_nat(n);
    if n < 10 {
        assert(s[i] == w[0]);
        assert(spec_digit_val(spec_digit_char(n as int)) == n);
        assert(spec_digits_val(s, i, i + 1) == spec_digits_val(s, i, i) * 10 + spec_digit_val(
            s[i],
        ));
    } else {
        let w1 = spec_enc_nat(n / 10);
        assert forall|k: int| 0 <= k < w1.len() implies s[i + k] == #[trigger] w1[k] by {
            assert(w[k] == w1[k]);
        }
        lemma_digits_val_enc(n / 10, s, i);
        assert(s[i + w.len() - 1] == w[w.len() - 1]);
        assert(w[w.len() - 1] == spec_digit_char((n % 10) as int));
        assert(spec_digit_val(spec_digit_char((n % 10) as int)) == n % 10);
        assert(spec_digits_val(s, i, i + w.len()) == spec_digits_val(s, i, i + w.len() - 1) * 10
            + spec_digit_val(s[i + w.len() - 1]));
        assert(n / 10 * 10 + n % 10 == n);
    }
}

proof fn lemma_parse_str_body_enc(cs: Seq<char>, s: Seq<char>, i: int)
    requires
        spec_window(s, i, spec_enc_str_body(cs)),
        i + spec_enc_str_body(cs).len() < s.len(),
        s[i + spec_enc_str_body(cs).len()] == '"',
    ensures
        spec_parse_str_body(s, i) == Option::Some(
            (cs, i + spec_enc_str_body(cs).len() + 1),
        ),
    decreases cs.len(),
{
    let w = spec_enc_str_body(cs);
    if cs.len() == 0 {
        assert(s[i] == '"');
    } else {
        let c = cs[0];
        let e = spec_esc_char(c);
        let rest = spec_enc_str_body(cs.drop_first());
        assert(w == e + rest);
        assert forall|k: int| 0 <= k < e.len() implies s[i + k] == #[trigger] e[k] by {
            assert(w[k] == e[k]);
        }
        assert forall|k: int| 0 <= k < rest.len() implies s[i + e.len() + k] == #[trigger] rest[k]
            by {
            assert(w[e.len() + k] == rest[k]);
        }
        lemma_parse_str_body_enc(cs.drop_first(), s, i + e.len());
        let tail_end = i + w.len() + 1;
        assert(i + e.len() + rest.len() == i + w.len());
        if c == '"' {
            assert(s[i] == '\\' && s[i + 1] == '"');
            assert(seq![c] + cs.drop_first() =~= cs);
        } else if c == '\\' {
            assert(s[i] == '\\' && s[i + 1] == '\\');
            assert(seq![c] + cs.drop_first() =~= cs);
        } else if c == '\n' {
            assert(s[i] == '\\' && s[i + 1] == 'n');
            assert(seq![c] + cs.drop_first() =~= cs);
        } else if c == '\r' {
            assert(s[i] == '\\' && s[i + 1] == 'r');
            assert(seq![c] + cs.drop_first() =~= cs);
        } else if c == '\t' {
            assert(s[i] == '\\' && s[i + 1] == 't');
            assert(seq![c] + cs.drop_first() =~= cs);
        } else if (c as u32) < 32 {
            assert(s[i] == '\\' && s[i + 1] == 'u' && s[i + 2] == '0' && s[i + 3] == '0');
            let hi = ((c as u32) / 16) as int;
            let lo = ((c as u32) % 16) as int;
            assert(s[i + 4] == spec_hex_char(hi) && s[i + 5] == spec_hex_char(lo));
            assert(spec_hex_digit_val('0') == 0);
            assert(0 <= hi < 2 && 0 <= lo < 16);
            assert(spec_hex_digit_val(spec_hex_char(hi)) == hi);
            assert(spec_hex_digit_val(spec_hex_char(lo)) == lo);
            let code = spec_hex_digit_val(s[i + 2]) * 4096 + spec_hex_digit_val(s[i + 3]) * 256
                + spec_hex_digit_val(s[i + 4]) * 16 + spec_hex_digit_val(s[i + 5]);
            assert(code == hi * 16 + lo);
            assert(code == c as u32);
            assert(code < 128);
            let r = ((code as u8) as char);
            assert(r as u32 == code);
            vstd::utf8::char_u32_cast(c, c as u32);
            vstd::utf8::char_u32_cast(r, r as u32);
            assert(r == c);
            assert(seq![c] + cs.drop_first() =~= cs);
        } else {
            assert(e[0] == c);
            assert(s[i] == c);
            assert(c != '"' && c != '\\' && (c as u32) >= 32);
            assert(seq![c] + cs.drop_first() =~= cs);
        }
    }
}

proof fn lemma_enc_json_first(v: JsonSpec)
    ensures
        spec_enc_json(v).len() >= 1,
        !spec_is_ws(spec_enc_json(v)[0]),
        spec_enc_json(v)[0] != ']',
        spec_enc_json(v)[0] != '}',
        spec_enc_json(v)[0] != ',',
        spec_enc_json(v)[0] != ':',
{
    match v {
        JsonSpec::Int(x) => {
            if x < 0 {
                lemma_enc_nat_props((-x) as nat);
            } else {
                lemma_enc_nat_props(x as nat);
                assert(spec_is_digit(spec_enc_nat(x as nat)[0]));
            }
        },
        _ => {},
    }
}

proof fn lemma_parse_enc_value(v: JsonSpec, s: Seq<char>, i: int)
    requires
        wf_json(v),
        spec_window(s, i, spec_enc_json(v)),
        i + spec_enc_json(v).len() == s.len() || !spec_is_digit(s[i + spec_enc_json(v).len()]),
    ensures
        spec_parse_value(s, i) == Option::Some((v, i + spec_enc_json(v).len())),
    decreases v, 0int,
{
    let w = spec_enc_json(v);
    lemma_enc_json_first(v);
    match v {
        JsonSpec::Null => {
            assert(s[i] == 'n' && s[i + 1] == 'u' && s[i + 2] == 'l' && s[i + 3] == 'l');
            assert(spec_parse_value(s, i) == Option::Some((v, i + w.len())));
        },
        JsonSpec::Bool(b) => {
            if b {
                assert(s[i] == 't' && s[i + 1] == 'r' && s[i + 2] == 'u' && s[i + 3] == 'e');
            } else {
                assert(s[i] == 'f' && s[i + 1] == 'a' && s[i + 2] == 'l' && s[i + 3] == 's' && s[i
                    + 4] == 'e');
            }
            assert(spec_parse_value(s, i) == Option::Some((v, i + w.len())));
        },
        JsonSpec::Int(x) => {
            if x < 0 {
                let m = (-x) as nat;
                let w1 = spec_enc_nat(m);
                lemma_enc_nat_props(m);
                assert(s[i] == '-');
                assert forall|k: int| 0 <= k < w1.len() implies s[i + 1 + k] == #[trigger] w1[k]
                    by {
                    assert(w[1 + k] == w1[k]);
                }
                assert forall|k: int| i + 1 <= k < i + 1 + w1.len() implies spec_is_digit(
                    #[trigger] s[k],
                ) by {
                    assert(s[k] == w1[k - i - 1]);
                }
                lemma_digits_end_range(s, i + 1, i + 1 + w1.len());
                lemma_digits_val_enc(m, s, i + 1);
                assert(spec_parse_int(s, i) == Option::Some((JsonSpec::Int(x), i + w.len())));
            } else {
                let m = x as nat;
                let w1 = spec_enc_nat(m);
                lemma_enc_nat_props(m);
                assert(s[i] == w1[0]);
                assert(spec_is_digit(s[i]));
                assert(s[i] != 'n' && s[i] != 't' && s[i] != 'f' && s[i] != '"' && s[i] != '-');
                assert forall|k: int| i <= k < i + w1.len() implies spec_is_digit(
                    #[trigger] s[k],
                ) by {
                    assert(s[k] == w1[k - i]);
                }
                lemma_digits_end_range(s, i, i + w1.len());
                lemma_digits_val_enc(m, s, i);
                assert(spec_parse_int(s, i) == Option::Some((JsonSpec::Int(x), i + w.len())));
            }
            assert(spec_parse_value(s, i) == Option::Some((v, i + w.len())));
        },
        JsonSpec::Str(cs) => {
            let body = spec_enc_str_body(cs);
            assert(s[i] == '"');
            assert forall|k: int| 0 <= k < body.len() implies s[i + 1 + k] == #[trigger] body[k]
                by {
                assert(w[1 + k] == body[k]);
            }
            assert(s[i + 1 + body.len()] == w[w.len() - 1]);
            assert(w[w.len() - 1] == '"');
            lemma_parse_str_body_enc(cs, s, i + 1);
            assert(spec_parse_value(s, i) == Option::Some((v, i + w.len())));
        },
        JsonSpec::Arr(xs) => {
            assert(s[i] == '[');
            let el = spec_enc_elems(xs);
            if xs.len() == 0 {
                assert(s[i + 1] == w[1]);
                assert(w[1] == ']');
                assert(spec_skip_ws(s, i + 1) == i + 1);
                assert(xs =~= Seq::<JsonSpec>::empty());
            } else {
                assert forall|k: int| 0 <= k < el.len() implies s[i + 1 + k] == #[trigger] el[k]
                    by {
                    assert(w[1 + k] == el[k]);
                }
                lemma_enc_json_first(xs[0]);
                assert(el[0] == spec_enc_json(xs[0])[0]);
                assert(!spec_is_ws(s[i + 1]) && s[i + 1] != ']');
                assert(spec_skip_ws(s, i + 1) == i + 1);
                assert(s[i + 1 + el.len()] == w[w.len() - 1]);
                assert(w[w.len() - 1] == ']');
                lemma_parse_enc_elems(xs, s, i + 1);
            }
            assert(spec_parse_value(s, i) == Option::Some((v, i + w.len())));
        },
        JsonSpec::Obj(ps) => {
            assert(s[i] == '{');
            let el = spec_enc_members(ps);
            if ps.len() == 0 {
                assert(s[i + 1] == w[1]);
                assert(w[1] == '}');
                assert(spec_skip_ws(s, i + 1) == i + 1);
                assert(ps =~= Seq::<(Seq<char>, JsonSpec)>::empty());
            } else {
                assert forall|k: int| 0 <= k < el.len() implies s[i + 1 + k] == #[trigger] el[k]
                    by {
                    assert(w[1 + k] == el[k]);
                }
                assert(el[0] == '"');
                assert(!spec_is_ws(s[i + 1]) && s[i + 1] != '}');
                assert(spec_skip_ws(s, i + 1) == i + 1);
                assert(s[i + 1 + el.len()] == w[w.len() - 1]);
                assert(w[w.len() - 1] == '}');
                lemma_parse_enc_members(ps, s, i + 1);
            }
            assert(spec_parse_value(s, i) == Option::Some((v, i + w.len())));
        },
    }
}

proof fn lemma_parse_enc_elems(xs: Seq<JsonSpec>, s: Seq<char>, i: int)
    requires
        xs.len() >= 1,
        wf_json_list(xs),
        spec_window(s, i, spec_enc_elems(xs)),
        i + spec_enc_elems(xs).len() < s.len(),
        s[i + spec_enc_elems(xs).len()] == ']',
    ensures
        spec_parse_elems(s, i) == Option::Some((xs, i + spec_enc_elems(xs).len() + 1)),
    decreases xs, 1int,
{
    let el = spec_enc_elems(xs);
    let w0 = spec_enc_json(xs[0]);
    assert forall|k: int| 0 <= k < w0.len() implies s[i + k] == #[trigger] w0[k] by {
        assert(el[k] == w0[k]);
    }
    let k1 = i + w0.len();
    if xs.len() == 1 {
        assert(s[k1] == ']');
        lemma_parse_enc_value(xs[0], s, i);
        assert(spec_skip_ws(s, k1) == k1);
        assert(seq![xs[0]] =~= xs);
    } else {
        let rest = spec_enc_elems(xs.drop_first());
        assert(el == w0 + seq![','] + rest);
        assert(s[k1] == el[w0.len() as int]);
        assert(el[w0.len() as int] == ',');
        lemma_parse_enc_value(xs[0], s, i);
        assert(spec_skip_ws(s, k1) == k1);
        assert forall|k: int| 0 <= k < rest.len() implies s[k1 + 1 + k] == #[trigger] rest[k] by {
            assert(el[w0.len() + 1 + k] == rest[k]);
        }
        lemma_enc_json_first(xs.drop_first()[0]);
        assert(rest[0] == spec_enc_json(xs.drop_first()[0])[0]);
        assert(!spec_is_ws(s[k1 + 1]));
        assert(spec_skip_ws(s, k1 + 1) == k1 + 1);
        assert(k1 + 1 + rest.len() == i + el.len());
        lemma_parse_enc_elems(xs.drop_first(), s, k1 + 1);
        assert(seq![xs[0]] + xs.drop_first() =~= xs);
    }
}

proof fn lemma_parse_enc_members(ps: Seq<(Seq<char>, JsonSpec)>, s: Seq<char>, i: int)
    requires
        ps.len() >= 1,
        wf_json_members(ps),
        spec_window(s, i, spec_enc_members(ps)),
        i + spec_enc_members(ps).len() < s.len(),
        s[i + spec_enc_members(ps).len()] == '}',
    ensures
        spec_parse_members(s, i) == Option::Some((ps, i + spec_enc_members(ps).len() + 1)),
    decreases ps, 1int,
{
    let el = spec_enc_members(ps);
    let key = ps[0].0;
    let v0 = ps[0].1;
    let ks = spec_enc_string(key);
    let body = spec_enc_str_body(key);
    let w0 = spec_enc_json(v0);
    assert(s[i] == el[0]);
    assert(el[0] == '"');
    assert forall|k: int| 0 <= k < body.len() implies s[i + 1 + k] == #[trigger] body[k] by {
        assert(el[1 + k] == body[k]);
    }
    assert(s[i + 1 + body.len()] == el[1 + body.len() as int]);
    assert(el[1 + body.len() as int] == '"');
    lemma_parse_str_body_enc(key, s, i + 1);
    let k1 = i + ks.len();
    assert(k1 == i + 1 + body.len() + 1);
    assert(s[k1] == el[ks.len() as int]);
    assert(el[ks.len() as int] == ':');
    assert(spec_skip_ws(s, k1) == k1);
    let k3 = k1 + 1;
    assert forall|k: int| 0 <= k < w0.len() implies s[k3 + k] == #[trigger] w0[k] by {
        assert(el[ks.len() + 1 + k] == w0[k]);
    }
    lemma_enc_json_first(v0);
    assert(s[k3] == w0[0]);
    assert(spec_skip_ws(s, k3) == k3);
    let k4 = k3 + w0.len();
    if ps.len() == 1 {
        assert(k4 == i + el.len());
        assert(s[k4] == '}');
        lemma_parse_enc_value(v0, s, k3);
        assert(spec_skip_ws(s, k4) == k4);
        assert(seq![(key, v0)] =~= ps);
    } else {
        let rest = spec_enc_members(ps.drop_first());
        assert(el == ks + seq![':'] + w0 + seq![','] + rest);
        assert(s[k4] == el[ks.len() + 1 + w0.len() as int]);
        assert(el[ks.len() + 1 + w0.len() as int] == ',');
        lemma_parse_enc_value(v0, s, k3);
        assert(spec_skip_ws(s, k4) == k4);
        assert forall|k: int| 0 <= k < rest.len() implies s[k4 + 1 + k] == #[trigger] rest[k] by {
            assert(el[ks.len() + 1 + w0.len() + 1 + k] == rest[k]);
        }
        assert(rest[0] == '"');
        assert(spec_skip_ws(s, k4 + 1) == k4 + 1);
        assert(k4 + 1 + rest.len() == i + el.len());
        lemma_parse_enc_members(ps.drop_first(), s, k4 + 1);
        assert(seq![(key, v0)] + ps.drop_first() =~= ps);
    }
}

/// Parsing the canonical text of a well-formed value yields that value.
pub proof fn lemma_parse_enc(v: JsonSpec)
    requires
        wf_json(v),
    ensures
        spec_parse_text(spec_enc_json(v)) == Option::Some(v),
{
    let s = spec_enc_json(v);
    lemma_enc_json_first(v);
    assert(spec_window(s, 0, s));
    assert(spec_skip_ws(s, 0) == 0);
    lemma_parse_enc_value(v, s, 0);
    assert(spec_skip_ws(s, s.len() as int) == s.len());
}

} // verus!



