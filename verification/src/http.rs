//! The minimal request framing of the connection transport: the request
//! line, the content-length header, and the four response shapes.

use vstd::prelude::*;
use vstd::string::{StrSliceExecFns, StringSliceAdditionalSpecFns};

use crate::codec::{spec_digits_val, spec_enc_nat};
use crate::mcp::{Step, StepSpec};
use crate::text::{ascii_lower, concat3, spec_is_blank_char, spec_lower, str_starts_with};

verus! {

/// Whether a request line targets the fixed MCP path.
pub open spec fn spec_targets_mcp(s: Seq<char>) -> bool {
    s.len() >= "POST /mcp"@.len() && s.take("POST /mcp"@.len() as int) == "POST /mcp"@
}

/// Whether a request line targets the fixed MCP path.
pub fn request_line_targets_mcp(line: &str) -> (r: bool)
    ensures
        r == spec_targets_mcp(line@),
{
    str_starts_with(line, "POST /mcp")
}

/// First position at or after `i` holding a colon, or the end.
pub open spec fn spec_find_colon(s: Seq<char>, i: int) -> int
    decreases s.len() - i,
{
    if 0 <= i < s.len() && s[i] != ':' {
        spec_find_colon(s, i + 1)
    } else {
        i
    }
}

/// First position in `i..end` holding a non-blank character, or `end`.
pub open spec fn spec_skip_blank(s: Seq<char>, i: int, end: int) -> int
    decreases end - i,
{
    if 0 <= i < end && i < s.len() && spec_is_blank_char(s[i]) {
        spec_skip_blank(s, i + 1, end)
    } else {
        i
    }
}

/// Whether a header line names the content length, matched without case.
pub open spec fn spec_is_cl_header(s: Seq<char>) -> bool {
    spec_lower(s).len() >= "content-length:"@.len() && spec_lower(s).take(
        "content-length:"@.len() as int,
    ) == "content-length:"@
}

/// The length value of a header line: the digits between the first colon
/// and the next one or the end, blanks around them; anything else is zero.
pub open spec fn spec_cl_value(s: Seq<char>) -> int {
    let c1 = spec_find_colon(s, 0);
    if c1 >= s.len() {
        0
    } else {
        let c2 = spec_find_colon(s, c1 + 1);
        let a = spec_skip_blank(s, c1 + 1, c2);
        let b = crate::codec::spec_digits_end(s, a);
        if a < b && b <= c2 && spec_skip_blank(s, b, c2) == c2 && spec_digits_val(s, a, b)
            <= usize::MAX {
            spec_digits_val(s, a, b)
        } else {
            0
        }
    }
}

#[verifier::loop_isolation(false)]
fn find_colon(s: &Vec<char>, i: usize) -> (r: usize)
    requires
        i <= s@.len(),
    ensures
        r as int == spec_find_colon(s@, i as int),
        i <= r <= s@.len(),
{
    let mut j = i;
    while j < s.len() && s[j] != ':'
        invariant
            i <= j <= s@.len(),
            spec_find_colon(s@, i as int) == spec_find_colon(s@, j as int),
        decreases s@.len() - j,
    {
        j = j + 1;
    }
    j
}

#[verifier::loop_isolation(false)]
fn skip_blank(s: &Vec<char>, i: usize, end: usize) -> (r: usize)
    requires
        i <= end <= s@.len(),
    ensures
        r as int == spec_skip_blank(s@, i as int, end as int),
        i <= r <= end,
{
    let mut j = i;
    while j < end && (s[j] == ' ' || s[j] == '\t' || s[j] == '\n' || s[j] == '\r')
        invariant
            i <= j <= end,
            spec_skip_blank(s@, i as int, end as int) == spec_skip_blank(s@, j as int, end as int),
        decreases end - j,
    {
        j = j + 1;
    }
    j
}

/// The content length a header line carries, when it is a content-length
/// header: the value after the colon, or zero when that is no plain
/// number.
#[verifier::loop_isolation(false)]
pub fn header_content_length(line: &str) -> (r: Option<usize>)
    ensures
        match r {
            Option::Some(v) => spec_is_cl_header(line@) && v as int == spec_cl_value(line@),
            Option::None => !spec_is_cl_header(line@),
        },
{
    let lower = ascii_lower(line);
    if !str_starts_with(lower.as_str(), "content-length:") {
        return None;
    }
    let cs = crate::text::str_to_chars(line);
    let c1 = find_colon(&cs, 0);
    if c1 >= cs.len() {
        return Some(0);
    }
    let c2 = find_colon(&cs, c1 + 1);
    let a = skip_blank(&cs, c1 + 1, c2);
    let mut j = a;
    let mut val: u64 = 0;
    let mut too_big = false;
    while j < cs.len() && '0' <= cs[j] && cs[j] <= '9'
        invariant
            a <= j <= cs@.len(),
            crate::codec::spec_digits_end(cs@, a as int) == crate::codec::spec_digits_end(
                cs@,
                j as int,
            ),
            !too_big ==> val as int == spec_digits_val(cs@, a as int, j as int) && val as int
                <= usize::MAX,
            too_big ==> spec_digits_val(cs@, a as int, j as int) > usize::MAX,
        decreases cs@.len() - j,
    {
        let d: u64 = ((cs[j] as u32) as u64) - 48;
        proof {
            assert(d as int == crate::codec::spec_digit_val(cs@[j as int]));
            assert(d < 10);
        }
        let ghost dv0 = spec_digits_val(cs@, a as int, j as int);
        if !too_big {
            if val > 1844674407370955161u64 {
                too_big = true;
            } else if val == 1844674407370955161u64 {
                if d <= 5 {
                    val = val * 10 + d;
                } else {
                    too_big = true;
                }
            } else {
                val = val * 10 + d;
                if val > usize::MAX as u64 {
                    too_big = true;
                }
            }
        }
        j = j + 1;
        proof {
            assert(spec_digits_val(cs@, a as int, j as int) == dv0 * 10
                + crate::codec::spec_digit_val(cs@[j as int - 1]));
        }
    }
    proof {
        assert(crate::codec::spec_digits_end(cs@, j as int) == j as int);
    }
    let b = j;
    if a < b && b <= c2 && skip_blank(&cs, b, c2) == c2 && !too_big {
        Some(val as usize)
    } else {
        Some(0)
    }
}

/// The byte length of a text, as the machine word the header carries.
pub open spec fn spec_byte_len(body: Seq<char>) -> nat {
    (vstd::utf8::encode_utf8(body).len() as usize) as nat
}

/// The bytes of a 200 response carrying a JSON body.
pub open spec fn spec_http_ok(body: Seq<char>) -> Seq<char> {
    "HTTP/1.1 200 OK\r\nContent-Type: application/json\r\nContent-Length: "@ + spec_enc_nat(
        spec_byte_len(body),
    ) + "\r\n\r\n"@ + body
}

/// The bytes of a 500 response carrying an encoded error body.
pub open spec fn spec_http_error(body: Seq<char>) -> Seq<char> {
    "HTTP/1.1 500 Internal Server Error\r\nContent-Type: application/json\r\nContent-Length: "@
        + spec_enc_nat(spec_byte_len(body)) + "\r\n\r\n"@ + body
}

/// The bytes of the bodiless 204 response of a notification.
pub open spec fn spec_http_no_content() -> Seq<char> {
    "HTTP/1.1 204 No Content\r\n\r\n"@
}

/// The bytes of the bodiless 404 response of a request off the MCP path.
pub open spec fn spec_http_not_found() -> Seq<char> {
    "HTTP/1.1 404 Not Found\r\nContent-Length: 0\r\n\r\n"@
}

fn usize_string(n: usize) -> (r: String)
    ensures
        r@ == spec_enc_nat(n as nat),
{
    let mut out: Vec<char> = Vec::new();
    crate::codec::enc_nat_into(n as u64, &mut out);
    proof {
        assert(out@ =~= spec_enc_nat(n as nat));
    }
    crate::text::chars_to_string(&out)
}

/// A 200 response around a JSON body.
pub fn http_ok_response(body: &str) -> (r: String)
    ensures
        r@ == spec_http_ok(body@),
{
    let n = usize_string(body.len());
    let head = concat3("HTTP/1.1 200 OK\r\nContent-Type: application/json\r\nContent-Length: ",
        n.as_str(), "\r\n\r\n");
    let r = crate::text::concat2(head.as_str(), body);
    proof {
        assert(body.spec_bytes() =~= vstd::utf8::encode_utf8(body@));
        assert(r@ =~= spec_http_ok(body@));
    }
    r
}

/// A 500 response around an encoded error body.
pub fn http_error_response(body: &str) -> (r: String)
    ensures
        r@ == spec_http_error(body@),
{
    let n = usize_string(body.len());
    let head = concat3(
        "HTTP/1.1 500 Internal Server Error\r\nContent-Type: application/json\r\nContent-Length: ",
        n.as_str(),
        "\r\n\r\n",
    );
    let r = crate::text::concat2(head.as_str(), body);
    proof {
        assert(body.spec_bytes() =~= vstd::utf8::encode_utf8(body@));
        assert(r@ =~= spec_http_error(body@));
    }
    r
}

/// The bodiless 204 response.
pub fn http_no_content() -> (r: &'static str)
    ensures
        r@ == spec_http_no_content(),
{
    "HTTP/1.1 204 No Content\r\n\r\n"
}

/// The bodiless 404 response.
pub fn http_not_found() -> (r: &'static str)
    ensures
        r@ == spec_http_not_found(),
{
    "HTTP/1.1 404 Not Found\r\nContent-Length: 0\r\n\r\n"
}

/// The connection transport's bytes for one step: replies travel as 200,
/// failures ahead of dispatch as 500, notifications as a bodiless 204. A
/// pending call has no bytes yet.
pub fn http_reply_for(step: &Step) -> (r: Option<String>)
    ensures
        match step@ {
            StepSpec::Reply(b) => r matches Option::Some(t) && t@ == spec_http_ok(b),
            StepSpec::ErrorReply(b) => r matches Option::Some(t) && t@ == spec_http_error(b),
            StepSpec::Silent => r matches Option::Some(t) && t@ == spec_http_no_content(),
            StepSpec::Call { .. } => r is None,
        },
{
    match step {
        Step::Reply(b) => Some(http_ok_response(b.as_str())),
        Step::ErrorReply(b) => Some(http_error_response(b.as_str())),
        Step::Silent => Some(http_no_content().to_owned()),
        Step::Call(_) => None,
    }
}

} // verus!
