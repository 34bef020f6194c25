//! Random identifiers (uuid).

use vstd::prelude::*;

use crate::text::digit_char;

verus! {

pub open spec fn is_lower_hex(c: char) -> bool {
    ('0' <= c && c <= '9') || ('a' <= c && c <= 'f')
}

/// The text form of a random (version 4) uuid: 36 characters, `-` at 8, 13, 18
/// and 23, lowercase hex digits elsewhere, a `4` at 14 and one of `89ab` at 19.
pub open spec fn is_uuid_v4_text(s: Seq<char>) -> bool {
    &&& s.len() == 36
    &&& forall|i: int|
        0 <= i < 36 ==> if i == 8 || i == 13 || i == 18 || i == 23 {
            #[trigger] s[i] == '-'
        } else {
            is_lower_hex(s[i])
        }
    &&& s[14] == '4'
    &&& (s[19] == '8' || s[19] == '9' || s[19] == 'a' || s[19] == 'b')
}

/// The hex digit of a nibble, lowercase.
pub open spec fn hex_char(n: nat) -> char {
    if n < 10 {
        digit_char(n)
    } else {
        ((('a' as u32) + (n - 10)) as char)
    }
}

/// Byte `i` of the version 4 uuid built from the random bytes `b`: the
/// version (4) in the high nibble of byte 6, the variant (`10`) in the top
/// bits of byte 8, the other bytes as they are.
pub open spec fn v4_byte(b: Seq<u8>, i: int) -> u8 {
    if i == 6 {
        (b[6] & 0x0f) | 0x40
    } else if i == 8 {
        (b[8] & 0x3f) | 0x80
    } else {
        b[i]
    }
}

/// The 32 lowercase hex digits of that uuid, high nibble first.
pub open spec fn v4_hex(b: Seq<u8>) -> Seq<char> {
    Seq::new(
        32,
        |k: int|
            hex_char(
                if k % 2 == 0 {
                    (v4_byte(b, k / 2) / 16) as nat
                } else {
                    (v4_byte(b, k / 2) % 16) as nat
                },
            ),
    )
}

/// The hyphenated form: groups of 8, 4, 4, 4 and 12 digits.
pub open spec fn hyphenated(h: Seq<char>) -> Seq<char> {
    h.subrange(0, 8) + "-"@ + h.subrange(8, 12) + "-"@ + h.subrange(12, 16) + "-"@ + h.subrange(16, 20)
        + "-"@ + h.subrange(20, 32)
}

/// `getrandom::fill` on sixteen bytes: bytes from the system's random source,
/// or `None` when that source fails. Nothing is claimed of which bytes.
#[verifier::external_body]
fn random_bytes() -> Option<[u8; 16]> {
    let mut bytes = [0u8; 16];
    match getrandom::fill(&mut bytes) {
        Ok(()) => Some(bytes),
        Err(_) => None,
    }
}

/// `uuid::Builder::from_random_bytes(bytes).into_uuid().to_string()`: the
/// bytes with the version and variant bits set (uuid's `with_variant` and
/// `with_version`), written as lowercase hex in the hyphenated form (uuid's
/// `Display`).
#[verifier::external_body]
fn uuid_text(bytes: [u8; 16]) -> (r: String)
    ensures
        r@ == hyphenated(v4_hex(bytes@)),
{
    uuid::Builder::from_random_bytes(bytes).into_uuid().to_string()
}

/// `uuid::Builder::from_random_bytes(bytes).into_uuid().simple().to_string()`:
/// the same uuid as 32 lowercase hex digits.
#[verifier::external_body]
fn uuid_simple_text(bytes: [u8; 16]) -> (r: String)
    ensures
        r@ == v4_hex(bytes@),
{
    uuid::Builder::from_random_bytes(bytes).into_uuid().simple().to_string()
}

proof fn lemma_hex_char(n: nat)
    requires
        n < 16,
    ensures
        is_lower_hex(hex_char(n)),
        n == 4 ==> hex_char(n) == '4',
        n == 8 ==> hex_char(n) == '8',
        n == 9 ==> hex_char(n) == '9',
        n == 10 ==> hex_char(n) == 'a',
        n == 11 ==> hex_char(n) == 'b',
{
}

proof fn lemma_v4_hex(b: Seq<u8>)
    requires
        b.len() == 16,
    ensures
        v4_hex(b).len() == 32,
        forall|k: int| 0 <= k < 32 ==> is_lower_hex(#[trigger] v4_hex(b)[k]),
        v4_hex(b)[12] == '4',
        v4_hex(b)[16] == '8' || v4_hex(b)[16] == '9' || v4_hex(b)[16] == 'a' || v4_hex(b)[16] == 'b',
{
    assert forall|k: int| 0 <= k < 32 implies is_lower_hex(#[trigger] v4_hex(b)[k]) by {
        let x = v4_byte(b, k / 2);
        assert(x / 16 < 16 && x % 16 < 16) by (bit_vector);
        lemma_hex_char((x / 16) as nat);
        lemma_hex_char((x % 16) as nat);
    }
    let x6 = b[6];
    let x8 = b[8];
    assert(((x6 & 0x0f) | 0x40) / 16 == 4) by (bit_vector);
    assert(8 <= ((x8 & 0x3f) | 0x80) / 16 <= 11) by (bit_vector);
    lemma_hex_char(4);
    let h = (((x8 & 0x3f) | 0x80) / 16) as nat;
    lemma_hex_char(h);
}

/// A fresh random uuid in its hyphenated lowercase form; `None` when the
/// system's random source fails.
pub fn new_uuid() -> (r: Option<String>)
    ensures
        r matches Some(s) ==> is_uuid_v4_text(s@),
{
    match random_bytes() {
        Some(bytes) => {
            let s = uuid_text(bytes);
            proof {
                let h = v4_hex(bytes@);
                lemma_v4_hex(bytes@);
                reveal_strlit("-");
                assert(s@.len() == 36);
                assert forall|i: int| 0 <= i < 36 implies if i == 8 || i == 13 || i == 18 || i == 23 {
                    #[trigger] s@[i] == '-'
                } else {
                    is_lower_hex(s@[i])
                } by {
                    if i < 8 {
                        assert(s@[i] == h[i]);
                    } else if i == 8 {
                    } else if i < 13 {
                        assert(s@[i] == h[i - 1]);
                    } else if i == 13 {
                    } else if i < 18 {
                        assert(s@[i] == h[i - 2]);
                    } else if i == 18 {
                    } else if i < 23 {
                        assert(s@[i] == h[i - 3]);
                    } else if i == 23 {
                    } else {
                        assert(s@[i] == h[i - 4]);
                    }
                }
                assert(s@[14] == h[12]);
                assert(s@[19] == h[16]);
            }
            Some(s)
        },
        None => None,
    }
}

/// 32 random lowercase hex digits (the simple form of a fresh uuid); `None`
/// when the system's random source fails.
pub fn new_token() -> (r: Option<String>)
    ensures
        r matches Some(s) ==> s@.len() == 32 && forall|i: int| 0 <= i < 32 ==> is_lower_hex(#[trigger] s@[i]),
{
    match random_bytes() {
        Some(bytes) => {
            let s = uuid_simple_text(bytes);
            proof {
                lemma_v4_hex(bytes@);
            }
            Some(s)
        },
        None => None,
    }
}

/// Eight random lowercase hex digits: the first eight of a fresh token;
/// `None` when the system's random source fails.
pub(crate) fn new_short_id() -> (r: Option<String>)
    ensures
        r matches Some(s) ==> s@.len() == 8 && forall|i: int| 0 <= i < 8 ==> is_lower_hex(#[trigger] s@[i]),
{
    let token = match new_token() {
        Some(t) => t,
        None => {
            return None;
        },
    };
    let cs = crate::text::chars_of(token.as_str());
    let mut out = String::new();
    let mut i: usize = 0;
    while i < 8
        invariant
            i <= 8,
            cs@ == token@,
            token@.len() == 32,
            forall|j: int| 0 <= j < 32 ==> is_lower_hex(#[trigger] token@[j]),
            out@ == token@.take(i as int),
        decreases 8 - i,
    {
        crate::text::push_char(&mut out, cs[i]);
        assert(token@.take(i as int + 1) =~= token@.take(i as int).push(token@[i as int]));
        i += 1;
    }
    Some(out)
}

} // verus!
