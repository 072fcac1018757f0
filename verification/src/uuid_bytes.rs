//! A UUID as its sixteen bytes: the fields that the library reads from them,
//! the three textual renderings, and the calls into the `uuid` crate that
//! make, parse and render one.

use vstd::prelude::*;
use crate::chars::{is_lower_hex, lower_hex_digit};

verus! {

/// The version field: the high four bits of byte 6.
pub open spec fn version_number(bytes: [u8; 16]) -> int {
    bytes[6] as int / 16
}

/// The variant field marks the RFC 4122 layout: the top two bits of byte 8
/// are `10`.
pub open spec fn is_rfc4122(bytes: [u8; 16]) -> bool {
    128 <= bytes[8] < 192
}

/// The node field: the last six bytes.
pub open spec fn node_of(bytes: [u8; 16]) -> Seq<u8> {
    bytes@.subrange(10, 16)
}

/// The `i`-th of the 32 four-bit digits, most significant first.
pub open spec fn nibble(bytes: [u8; 16], i: int) -> int {
    if i % 2 == 0 {
        bytes[i / 2] as int / 16
    } else {
        bytes[i / 2] as int % 16
    }
}

/// The simple rendering: the 32 digits in lower-case hexadecimal.
pub open spec fn simple_text(bytes: [u8; 16]) -> Seq<char> {
    Seq::new(32, |i: int| lower_hex_digit(nibble(bytes, i)))
}

/// The hyphenated rendering: the digits in groups of 8, 4, 4, 4 and 12.
pub open spec fn hyphenated_text(bytes: [u8; 16]) -> Seq<char> {
    let s = simple_text(bytes);
    s.subrange(0, 8) + seq!['-'] + s.subrange(8, 12) + seq!['-'] + s.subrange(12, 16) + seq!['-']
        + s.subrange(16, 20) + seq!['-'] + s.subrange(20, 32)
}

/// The prefix of the URN rendering.
pub open spec fn urn_prefix() -> Seq<char> {
    seq!['u', 'r', 'n', ':', 'u', 'u', 'i', 'd', ':']
}

/// The URN rendering: `urn:uuid:` and the hyphenated rendering.
pub open spec fn urn_text(bytes: [u8; 16]) -> Seq<char> {
    urn_prefix() + hyphenated_text(bytes)
}

/// Where the hyphenated rendering has its hyphens.
pub open spec fn is_hyphen_position(i: int) -> bool {
    i == 8 || i == 13 || i == 18 || i == 23
}

/// What `uuid::Uuid::parse_str` makes of a string: the bytes of the UUID
/// that it spells in simple, hyphenated, braced or URN form, or `None`.
pub uninterp spec fn uuid_parse_of(text: Seq<char>) -> Option<[u8; 16]>;

/// The version 3 UUID of a name in a namespace, as `uuid::Uuid::new_v3`
/// derives it with MD5.
pub uninterp spec fn uuid_v3_of(namespace: [u8; 16], name: Seq<char>) -> [u8; 16];

/// The version 5 UUID of a name in a namespace, as `uuid::Uuid::new_v5`
/// derives it with SHA-1.
pub uninterp spec fn uuid_v5_of(namespace: [u8; 16], name: Seq<char>) -> [u8; 16];

/// `uuid::Uuid::parse_str`. The result depends on the text alone.
#[verifier::external_body]
pub(crate) fn uuid_parse(text: &str) -> (r: Option<[u8; 16]>)
    ensures
        r == uuid_parse_of(text@),
{
    match uuid::Uuid::parse_str(text) {
        Ok(u) => Some(u.into_bytes()),
        Err(_) => None,
    }
}

/// `uuid::Uuid::now_v1`: a UUID from the clock and the given node. The crate
/// sets the version field to 1 and the variant to RFC 4122, and copies the
/// node into the last six bytes. It panics where the system clock stands
/// before 1970.
#[verifier::external_body]
pub(crate) fn uuid_now_v1(node: &[u8; 6]) -> (r: [u8; 16])
    ensures
        version_number(r) == 1,
        is_rfc4122(r),
        node_of(r) == node@,
{
    uuid::Uuid::now_v1(node).into_bytes()
}

/// `uuid::Uuid::new_v3`: the result depends on the namespace and the name
/// alone; the crate sets the version field to 3 and the variant to RFC 4122.
#[verifier::external_body]
pub(crate) fn uuid_new_v3(namespace: &[u8; 16], name: &str) -> (r: [u8; 16])
    ensures
        r == uuid_v3_of(*namespace, name@),
        version_number(r) == 3,
        is_rfc4122(r),
{
    uuid::Uuid::new_v3(&uuid::Uuid::from_bytes(*namespace), name.as_bytes()).into_bytes()
}

/// `uuid::Uuid::new_v4`: random bits, with the version field set to 4 and
/// the variant to RFC 4122.
#[verifier::external_body]
pub(crate) fn uuid_new_v4() -> (r: [u8; 16])
    ensures
        version_number(r) == 4,
        is_rfc4122(r),
{
    uuid::Uuid::new_v4().into_bytes()
}

/// `uuid::Uuid::new_v5`: the result depends on the namespace and the name
/// alone; the crate sets the version field to 5 and the variant to RFC 4122.
#[verifier::external_body]
pub(crate) fn uuid_new_v5(namespace: &[u8; 16], name: &str) -> (r: [u8; 16])
    ensures
        r == uuid_v5_of(*namespace, name@),
        version_number(r) == 5,
        is_rfc4122(r),
{
    uuid::Uuid::new_v5(&uuid::Uuid::from_bytes(*namespace), name.as_bytes()).into_bytes()
}

/// `uuid::Uuid::simple` and its `Display`: two lower-case hexadecimal digits
/// for each byte, in order. The crate's parser reads the text back as the
/// same bytes.
#[verifier::external_body]
pub(crate) fn uuid_simple(bytes: &[u8; 16]) -> (r: String)
    ensures
        r@ == simple_text(*bytes),
        uuid_parse_of(r@) == Some(*bytes),
{
    uuid::Uuid::from_bytes(*bytes).simple().to_string()
}

/// `uuid::Uuid::hyphenated` and its `Display`: the simple digits with a
/// hyphen after the 8th, 12th, 16th and 20th. The crate's parser reads the
/// text back as the same bytes.
#[verifier::external_body]
pub(crate) fn uuid_hyphenated(bytes: &[u8; 16]) -> (r: String)
    ensures
        r@ == hyphenated_text(*bytes),
        uuid_parse_of(r@) == Some(*bytes),
{
    uuid::Uuid::from_bytes(*bytes).hyphenated().to_string()
}

/// `uuid::Uuid::urn` and its `Display`: `urn:uuid:` before the hyphenated
/// rendering. The crate's parser reads the text back as the same bytes.
#[verifier::external_body]
pub(crate) fn uuid_urn(bytes: &[u8; 16]) -> (r: String)
    ensures
        r@ == urn_text(*bytes),
        uuid_parse_of(r@) == Some(*bytes),
{
    uuid::Uuid::from_bytes(*bytes).urn().to_string()
}

/// The digit for a number below 16 is a lower-case hexadecimal digit, and
/// different numbers have different digits.
pub proof fn lemma_lower_hex_digit(n: int)
    requires
        0 <= n < 16,
    ensures
        is_lower_hex(lower_hex_digit(n)),
        lower_hex_digit(n) != '-',
        forall|m: int| 0 <= m < 16 && m != n ==> lower_hex_digit(m) != lower_hex_digit(n),
{
}

/// The simple rendering has 32 characters, all of them lower-case
/// hexadecimal digits; so it holds no hyphen.
pub proof fn lemma_simple_shape(bytes: [u8; 16])
    ensures
        simple_text(bytes).len() == 32,
        forall|i: int| 0 <= i < 32 ==> is_lower_hex(#[trigger] simple_text(bytes)[i]),
        forall|i: int| 0 <= i < 32 ==> #[trigger] simple_text(bytes)[i] != '-',
{
    assert forall|i: int| 0 <= i < 32 implies is_lower_hex(#[trigger] simple_text(bytes)[i])
        && simple_text(bytes)[i] != '-' by {
        lemma_lower_hex_digit(nibble(bytes, i));
    }
}

/// The hyphenated rendering has 36 characters: a hyphen at each of the
/// positions 8, 13, 18 and 23, and a lower-case hexadecimal digit at every
/// other. So it holds exactly four hyphens.
pub proof fn lemma_hyphenated_shape(bytes: [u8; 16])
    ensures
        hyphenated_text(bytes).len() == 36,
        forall|i: int|
            0 <= i < 36 ==> (is_hyphen_position(i) <==> #[trigger] hyphenated_text(bytes)[i]
                == '-'),
        forall|i: int|
            0 <= i < 36 && !is_hyphen_position(i) ==> is_lower_hex(
                #[trigger] hyphenated_text(bytes)[i],
            ),
{
    lemma_simple_shape(bytes);
    let s = simple_text(bytes);
    let h = hyphenated_text(bytes);
    assert(h.len() == 36);
    assert forall|i: int| 0 <= i < 36 implies (is_hyphen_position(i) <==> #[trigger] h[i] == '-')
        && (!is_hyphen_position(i) ==> is_lower_hex(h[i])) by {
        if i < 8 {
            assert(h[i] == s[i]);
        } else if i == 8 {
        } else if i < 13 {
            assert(h[i] == s[i - 1]);
        } else if i == 13 {
        } else if i < 18 {
            assert(h[i] == s[i - 2]);
        } else if i == 18 {
        } else if i < 23 {
            assert(h[i] == s[i - 3]);
        } else if i == 23 {
        } else {
            assert(h[i] == s[i - 4]);
        }
    }
}

/// The URN rendering has 45 characters: `urn:uuid:` and then the hyphenated
/// rendering.
pub proof fn lemma_urn_shape(bytes: [u8; 16])
    ensures
        urn_text(bytes).len() == 45,
        urn_text(bytes).subrange(0, 9) == urn_prefix(),
        urn_text(bytes).subrange(9, 45) == hyphenated_text(bytes),
        urn_prefix() == "urn:uuid:"@,
{
    lemma_hyphenated_shape(bytes);
    reveal_strlit("urn:uuid:");
    assert(urn_text(bytes).subrange(0, 9) =~= urn_prefix());
    assert(urn_text(bytes).subrange(9, 45) =~= hyphenated_text(bytes));
    assert(urn_prefix() =~= "urn:uuid:"@);
}

} // verus!
