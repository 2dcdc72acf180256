//! Identifiers and timestamps for OpenAI responses.
use vstd::prelude::*;

use crate::text::{concat, has_prefix, substring};

verus! {

#[verifier::external_type_specification]
#[verifier::external_body]
pub struct ExSystemTime(std::time::SystemTime);

#[verifier::external_type_specification]
#[verifier::external_body]
pub struct ExSystemTimeError(std::time::SystemTimeError);

/// The lowercase hexadecimal digit of a value below sixteen.
pub open spec fn hex_digit(n: u8) -> char {
    if n < 10 {
        (48 + n) as char
    } else {
        (87 + n) as char
    }
}

/// The 32 lowercase hex digits of sixteen bytes, two per byte, high nibble first.
pub open spec fn simple_hex(b: Seq<u8>) -> Seq<char> {
    Seq::new(
        32,
        |i: int|
            if i % 2 == 0 {
                hex_digit(b[i / 2] >> 4)
            } else {
                hex_digit(b[i / 2] & 15)
            },
    )
}

/// The positions of the hyphens in a hyphenated UUID.
pub open spec fn is_uuid_hyphen_index(i: int) -> bool {
    i == 8 || i == 13 || i == 18 || i == 23
}

/// The number of hyphens among the first `i` characters of a hyphenated UUID.
pub open spec fn hyphens_before(i: int) -> int {
    (if i > 8 { 1int } else { 0 }) + (if i > 13 { 1int } else { 0 }) + (if i > 18 { 1int } else { 0 }) + (
    if i > 23 { 1int } else { 0 })
}

/// The hyphenated lowercase form of sixteen bytes: their hex digits in groups of
/// 8-4-4-4-12, separated by hyphens.
pub open spec fn hyphenated_hex(b: Seq<u8>) -> Seq<char> {
    Seq::new(
        36,
        |i: int|
            if is_uuid_hyphen_index(i) {
                '-'
            } else {
                simple_hex(b)[i - hyphens_before(i)]
            },
    )
}

/// A lowercase hexadecimal digit.
pub open spec fn is_lower_hex(c: char) -> bool {
    (48 <= c as u32 <= 57) || (97 <= c as u32 <= 102)
}

/// The bytes of a random (version 4, RFC 9562 variant) UUID: the high nibble of
/// byte 6 is 4 and the two high bits of byte 8 are `10`.
pub open spec fn is_v4_uuid_bytes(b: Seq<u8>) -> bool {
    &&& b.len() == 16
    &&& b[6] >> 4 == 4
    &&& b[8] >> 6 == 2
}

/// Calls `uuid::Uuid::new_v4` and hands out the UUID's 16 bytes (`into_bytes`).
/// The bytes are random; what `new_v4` always does is mask in the version and the
/// variant bits (`& 0xFFFFFFFFFFFF4FFFBFFFFFFFFFFFFFFF | 0x40008000000000000000`,
/// stored big-endian), and that is all this states.
#[verifier::external_body]
fn uuid_new_v4_bytes() -> (r: [u8; 16])
    ensures
        is_v4_uuid_bytes(r@),
{
    uuid::Uuid::new_v4().into_bytes()
}

/// Calls `to_string` on `uuid::Uuid::from_bytes(b)`. Its `Display` writes the
/// hyphenated lowercase form (`format_hyphenated` with `upper == false`): each byte
/// as two hex digits, high nibble first, digits above 9 as `a`..`f`, and hyphens
/// after the 8th, 12th, 16th and 20th digit.
#[verifier::external_body]
fn uuid_to_string(b: [u8; 16]) -> (r: String)
    ensures
        r@ == hyphenated_hex(b@),
{
    uuid::Uuid::from_bytes(b).to_string()
}

/// Where, in a hyphenated UUID, the `j`th hex digit stands.
pub open spec fn digit_position(j: int) -> int {
    j + (if j >= 8 { 1int } else { 0 }) + (if j >= 12 { 1int } else { 0 }) + (if j >= 16 {
        1int
    } else {
        0
    }) + (if j >= 20 { 1int } else { 0 })
}

/// The 32 hex digits of a hyphenated UUID, hyphens left out.
fn strip_hyphens(s: &str) -> (r: String)
    requires
        s@.len() == 36,
        forall|i: int| 0 <= i < 36 ==> (#[trigger] s@[i] == '-') == is_uuid_hyphen_index(i),
    ensures
        r@ == s@.subrange(0, 8) + s@.subrange(9, 13) + s@.subrange(14, 18) + s@.subrange(19, 23)
            + s@.subrange(24, 36),
{
    let mut r = String::new();
    let mut i: usize = 0;
    while i < 36
        invariant
            s@.len() == 36,
            forall|k: int| 0 <= k < 36 ==> (#[trigger] s@[k] == '-') == is_uuid_hyphen_index(k),
            0 <= i <= 36,
            r@.len() + hyphens_before(i as int) == i,
            forall|j: int| 0 <= j < r@.len() ==> #[trigger] r@[j] == s@[digit_position(j)],
        decreases 36 - i,
    {
        let c = substring(s, i, i + 1);
        assert(c@.len() == 1 && c@[0] == s@[i as int]);
        if !is_hyphen(c.as_str()) {
            assert(digit_position(r@.len() as int) == i);
            r.append(c.as_str());
        }
        i = i + 1;
    }
    let ghost t = s@.subrange(0, 8) + s@.subrange(9, 13) + s@.subrange(14, 18) + s@.subrange(19, 23)
        + s@.subrange(24, 36);
    assert(r@ =~= t) by {
        assert forall|j: int| 0 <= j < 32 implies #[trigger] r@[j] == t[j] by {
            assert(r@[j] == s@[digit_position(j)]);
        }
    }
    r
}

/// Whether a one-character string is a hyphen.
fn is_hyphen(c: &str) -> (r: bool)
    requires
        c@.len() == 1,
    ensures
        r == (c@[0] == '-'),
{
    proof {
        reveal_strlit("-");
        if c@[0] == '-' {
            assert(c@ =~= "-"@);
        }
    }
    crate::text::str_eq(c, "-")
}

/// A random UUID v4 as 32 lowercase hex digits, without hyphens: the hex digits of
/// sixteen bytes that carry the version 4 and the RFC 9562 variant.
pub fn generate_uuid() -> (r: String)
    ensures
        exists|b: Seq<u8>| is_v4_uuid_bytes(b) && r@ == simple_hex(b),
        r@.len() == 32,
        forall|i: int| 0 <= i < 32 ==> is_lower_hex(#[trigger] r@[i]),
        r@[12] == '4',
        r@[16] == '8' || r@[16] == '9' || r@[16] == 'a' || r@[16] == 'b',
{
    let b = uuid_new_v4_bytes();
    let s = uuid_to_string(b);
    proof {
        assert forall|i: int| 0 <= i < 36 implies (#[trigger] s@[i] == '-') == is_uuid_hyphen_index(
            i,
        ) by {
            if !is_uuid_hyphen_index(i) {
                lemma_hex_digits_are_lower_hex(b@, i - hyphens_before(i));
            }
        }
    }
    let r = strip_hyphens(s.as_str());
    proof {
        assert(r@ =~= simple_hex(b@)) by {
            assert forall|j: int| 0 <= j < 32 implies #[trigger] r@[j] == simple_hex(b@)[j] by {
                if j < 8 {
                    assert(r@[j] == s@[j]);
                } else if j < 12 {
                    assert(r@[j] == s@[j + 1]);
                } else if j < 16 {
                    assert(r@[j] == s@[j + 2]);
                } else if j < 20 {
                    assert(r@[j] == s@[j + 3]);
                } else {
                    assert(r@[j] == s@[j + 4]);
                }
            }
        }
        assert forall|i: int| 0 <= i < 32 implies is_lower_hex(#[trigger] r@[i]) by {
            lemma_hex_digits_are_lower_hex(b@, i);
        }
        let x6 = b@[6];
        let x8 = b@[8];
        assert(x8 >> 6 == 2 ==> 8 <= (x8 >> 4) <= 11) by (bit_vector);
        assert(r@[12] == hex_digit(x6 >> 4));
        assert(r@[16] == hex_digit(x8 >> 4));
    }
    r
}

/// Each of the 32 hex digits of sixteen bytes is a lowercase hex digit.
proof fn lemma_hex_digits_are_lower_hex(b: Seq<u8>, j: int)
    requires
        b.len() == 16,
        0 <= j < 32,
    ensures
        is_lower_hex(simple_hex(b)[j]),
        simple_hex(b)[j] != '-',
{
    let x = b[j / 2];
    assert((x >> 4) < 16 && (x & 15) < 16) by (bit_vector);
}

/// A fresh OpenAI-style chat completion ID: `chatcmpl-` and the 32 lowercase hex
/// digits of a random UUID v4.
pub fn generate_chat_completion_id() -> (r: String)
    ensures
        exists|b: Seq<u8>| is_v4_uuid_bytes(b) && r@ == "chatcmpl-"@ + simple_hex(b),
        r@.len() == 41,
        has_prefix(r@, "chatcmpl-"@),
        forall|i: int| 9 <= i < 41 ==> is_lower_hex(#[trigger] r@[i]),
        r@[21] == '4',
        r@[25] == '8' || r@[25] == '9' || r@[25] == 'a' || r@[25] == 'b',
{
    let u = generate_uuid();
    let r = concat("chatcmpl-", u.as_str());
    proof {
        reveal_strlit("chatcmpl-");
        assert(r@.subrange(0, 9) =~= "chatcmpl-"@);
        assert forall|i: int| 9 <= i < 41 implies #[trigger] r@[i] == u@[i - 9] by {}
        assert(r@[21] == u@[12]);
        assert(r@[25] == u@[16]);
    }
    r
}

/// Calls `std::time::SystemTime::now`; nothing is stated of the time it reads.
#[verifier::external_body]
fn system_time_now() -> std::time::SystemTime {
    std::time::SystemTime::now()
}

/// Calls `SystemTime::duration_since(UNIX_EPOCH)`, which fails for a time before the
/// epoch; nothing is stated of the duration.
#[verifier::external_body]
fn duration_since_unix_epoch(t: &std::time::SystemTime) -> Result<
    std::time::Duration,
    std::time::SystemTimeError,
> {
    t.duration_since(std::time::UNIX_EPOCH)
}

/// Calls `Duration::as_secs`, the whole seconds of a duration; nothing is stated of
/// the value, as the duration is not modelled.
#[verifier::external_body]
fn duration_as_secs(d: &std::time::Duration) -> u64 {
    d.as_secs()
}

/// The Unix timestamp of a response from the whole seconds since the epoch, or
/// `None` for a clock before the epoch (read as zero seconds); the seconds are cast
/// to `i64`, wrapping above `i64::MAX`.
pub fn timestamp_from_secs(secs_since_epoch: Option<u64>) -> (r: i64)
    ensures
        r == match secs_since_epoch {
            Some(s) => s as i64,
            None => 0,
        },
{
    match secs_since_epoch {
        Some(s) => {
            #[verifier::truncate]
            (s as i64)
        },
        None => 0,
    }
}

/// The current Unix time in seconds. The clock's value is not stated; what is done
/// with it is `timestamp_from_secs`.
pub fn chrono_timestamp() -> i64 {
    let t = system_time_now();
    let secs = match duration_since_unix_epoch(&t) {
        Ok(d) => Some(duration_as_secs(&d)),
        Err(_) => None,
    };
    timestamp_from_secs(secs)
}

} // verus!
