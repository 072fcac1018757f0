//! Classification of an arbitrary string as one of the identifier schemes.
//!
//! The recognizers run in a fixed order and the first that matches decides:
//! UUID, ULID, ObjectId, CUID version 1, CUID version 2, NanoID. The order
//! matters because the shapes overlap: 24 hexadecimal digits are also 24
//! lower-case letters and digits, and are taken for an ObjectId.
//!
//! Whether a string is a UUID or a ULID is asked of the `uuid` and `ulid`
//! crates, and timestamps are written by `chrono`; the shapes of the other
//! schemes are checked here, character by character.

use vstd::prelude::*;
use vstd::string::*;
use vstd::utf8::{encode_utf8, is_ascii_chars, is_ascii_chars_encode_utf8};
use chrono::TimeZone;
use crate::chars::{
    char_is_hex, char_is_lower_alnum, char_is_url_safe, hex_digit_value, hex_value, is_hex,
    is_lower_alnum, is_url_safe,
};
use crate::id::{is_generated, uuid_version_of, IDFormat, UuidVersion};
use crate::uuid_bytes::{uuid_parse, uuid_parse_of, version_number};

verus! {

/// What the inspector found out about a string.
#[derive(Debug)]
pub struct InspectionResult {
    pub valid: bool,
    pub id_type: String,
    pub version: Option<String>,
    pub timestamp: Option<String>,
    pub variant: Option<String>,
}

/// A time as whole seconds since 1970 and the nanoseconds within the second.
#[derive(Debug, Clone, Copy)]
pub struct UnixTime {
    pub secs: u64,
    pub nanos: u32,
}

/// An `InspectionResult` with its texts as sequences of characters.
pub struct InspectionView {
    pub valid: bool,
    pub id_type: Seq<char>,
    pub version: Option<Seq<char>>,
    pub timestamp: Option<Seq<char>>,
    pub variant: Option<Seq<char>>,
}

/// The view of an optional text.
pub open spec fn opt_text(s: Option<String>) -> Option<Seq<char>> {
    match s {
        Some(t) => Some(t@),
        None => None,
    }
}

impl View for InspectionResult {
    type V = InspectionView;

    open spec fn view(&self) -> InspectionView {
        InspectionView {
            valid: self.valid,
            id_type: self.id_type@,
            version: opt_text(self.version),
            timestamp: opt_text(self.timestamp),
            variant: opt_text(self.variant),
        }
    }
}

/// What `ulid::Ulid::from_string` makes of a string: the 128 bits that its
/// 26 Crockford Base32 characters spell, or `None`.
pub uninterp spec fn ulid_parse_of(text: Seq<char>) -> Option<u128>;

/// The RFC 3339 text that `chrono` writes for a time in UTC, given as whole
/// seconds since 1970 and nanoseconds within the second; `None` where
/// `chrono` cannot represent the time.
pub uninterp spec fn rfc3339_of(secs: int, nanos: int) -> Option<Seq<char>>;

/// A time from 1970 to the end of the year 262142, the last that `chrono`
/// holds, with nanoseconds that are part of a second.
pub open spec fn is_calendar_time(secs: int, nanos: int) -> bool {
    0 <= secs <= 8_210_266_876_799 && 0 <= nanos < 1_000_000_000
}

/// All sixteen bytes are zero.
pub open spec fn is_nil(bytes: [u8; 16]) -> bool {
    forall|i: int| 0 <= i < 16 ==> #[trigger] bytes[i] == 0
}

/// All sixteen bytes are 255.
pub open spec fn is_max(bytes: [u8; 16]) -> bool {
    forall|i: int| 0 <= i < 16 ==> #[trigger] bytes[i] == 255
}

/// The name of the version that a UUID's version field holds, where it holds
/// one that is known. The fields 0 and 15 count only on the nil and the max
/// UUID.
pub open spec fn version_name(bytes: [u8; 16]) -> Option<Seq<char>> {
    let n = version_number(bytes);
    if n == 0 && is_nil(bytes) {
        Some("Nil"@)
    } else if n == 1 {
        Some("Mac"@)
    } else if n == 2 {
        Some("Dce"@)
    } else if n == 3 {
        Some("Md5"@)
    } else if n == 4 {
        Some("Random"@)
    } else if n == 5 {
        Some("Sha1"@)
    } else if n == 6 {
        Some("SortMac"@)
    } else if n == 7 {
        Some("SortRand"@)
    } else if n == 8 {
        Some("Custom"@)
    } else if n == 15 && is_max(bytes) {
        Some("Max"@)
    } else {
        None
    }
}

/// The name of the layout that the leading bits of byte 8 select.
pub open spec fn variant_name(bytes: [u8; 16]) -> Seq<char> {
    if bytes[8] < 128 {
        "NCS"@
    } else if bytes[8] < 192 {
        "RFC4122"@
    } else if bytes[8] < 224 {
        "Microsoft"@
    } else {
        "Future"@
    }
}

/// The 60-bit clock value of a version 1 UUID: a count of 100-nanosecond
/// ticks since 15 October 1582.
pub open spec fn v1_ticks(bytes: [u8; 16]) -> int {
    (bytes[6] as int % 16) * 0x100_0000_0000_0000 + bytes[7] as int * 0x1_0000_0000_0000
        + bytes[4] as int * 0x100_0000_0000 + bytes[5] as int * 0x1_0000_0000 + bytes[0] as int
        * 0x100_0000 + bytes[1] as int * 0x1_0000 + bytes[2] as int * 0x100 + bytes[3] as int
}

/// The ticks between 15 October 1582 and 1 January 1970.
pub open spec fn ticks_between_epochs() -> int {
    0x01B2_1DD2_1381_4000
}

/// The clock value counted from 1970. A value before 1970 wraps around in 64
/// bits, as it does in the `uuid` crate.
pub open spec fn v1_unix_ticks(bytes: [u8; 16]) -> int {
    if v1_ticks(bytes) >= ticks_between_epochs() {
        v1_ticks(bytes) - ticks_between_epochs()
    } else {
        v1_ticks(bytes) - ticks_between_epochs() + 0x1_0000_0000_0000_0000
    }
}

/// The time of a version 1 UUID in whole seconds since 1970.
pub open spec fn v1_unix_secs(bytes: [u8; 16]) -> int {
    v1_unix_ticks(bytes) / 10_000_000
}

/// The nanoseconds within the second of a version 1 UUID's time.
pub open spec fn v1_unix_nanos(bytes: [u8; 16]) -> int {
    (v1_unix_ticks(bytes) % 10_000_000) * 100
}

/// The time that a UUID carries, as text: only a version 1 UUID has one.
pub open spec fn uuid_timestamp(bytes: [u8; 16]) -> Option<Seq<char>> {
    if version_number(bytes) == 1 {
        rfc3339_of(v1_unix_secs(bytes), v1_unix_nanos(bytes))
    } else {
        None
    }
}

/// The milliseconds since 1970 in the leading 48 bits of a ULID.
pub open spec fn ulid_millis(value: u128) -> int {
    value as int / 0x1_0000_0000_0000_0000_0000
}

/// The time that a ULID carries, as text.
pub open spec fn ulid_timestamp(value: u128) -> Option<Seq<char>> {
    rfc3339_of(ulid_millis(value) / 1000, (ulid_millis(value) % 1000) * 1_000_000)
}

/// Exactly 24 hexadecimal digits, in either case.
pub open spec fn is_object_id_shape(id: Seq<char>) -> bool {
    id.len() == 24 && forall|i: int| 0 <= i < id.len() ==> is_hex(#[trigger] id[i])
}

/// Begins with the letter `c` and takes at least 25 bytes in UTF-8.
pub open spec fn is_cuid1_shape(id: Seq<char>) -> bool {
    id.len() > 0 && id[0] == 'c' && encode_utf8(id).len() >= 25
}

/// Exactly 24 lower-case letters and digits.
pub open spec fn is_cuid2_shape(id: Seq<char>) -> bool {
    id.len() == 24 && forall|i: int| 0 <= i < id.len() ==> is_lower_alnum(#[trigger] id[i])
}

/// Exactly 21 characters of the URL-safe alphabet.
pub open spec fn is_nanoid_shape(id: Seq<char>) -> bool {
    id.len() == 21 && forall|i: int| 0 <= i < id.len() ==> is_url_safe(#[trigger] id[i])
}

/// The seconds since 1970 that the first eight hexadecimal digits of an
/// ObjectId spell, most significant digit first.
pub open spec fn object_id_seconds(id: Seq<char>) -> int {
    hex_value(id[0]) * 0x1000_0000 + hex_value(id[1]) * 0x100_0000 + hex_value(id[2]) * 0x10_0000
        + hex_value(id[3]) * 0x1_0000 + hex_value(id[4]) * 0x1000 + hex_value(id[5]) * 0x100
        + hex_value(id[6]) * 0x10 + hex_value(id[7])
}

/// The result for a string that is a UUID.
pub open spec fn uuid_view(
    version: Option<Seq<char>>,
    variant: Seq<char>,
    timestamp: Option<Seq<char>>,
) -> InspectionView {
    InspectionView { valid: true, id_type: "UUID"@, version, timestamp, variant: Some(variant) }
}

/// The result for a string that is a ULID.
pub open spec fn ulid_view(timestamp: Option<Seq<char>>) -> InspectionView {
    InspectionView { valid: true, id_type: "ULID"@, version: None, timestamp, variant: None }
}

/// The result for a string that has the shape of an ObjectId.
pub open spec fn object_id_view(timestamp: Option<Seq<char>>) -> InspectionView {
    InspectionView { valid: true, id_type: "ObjectId"@, version: None, timestamp, variant: None }
}

/// The result for a string that has the shape of a CUID.
pub open spec fn cuid_view(version: Seq<char>) -> InspectionView {
    InspectionView {
        valid: true,
        id_type: "CUID"@,
        version: Some(version),
        timestamp: None,
        variant: None,
    }
}

/// The result for a string that has the shape of a NanoID.
pub open spec fn nanoid_view() -> InspectionView {
    InspectionView {
        valid: true,
        id_type: "NanoID"@,
        version: None,
        timestamp: None,
        variant: None,
    }
}

/// The result for a string that no recognizer accepts.
pub open spec fn unknown_view() -> InspectionView {
    InspectionView {
        valid: false,
        id_type: "Unknown"@,
        version: None,
        timestamp: None,
        variant: None,
    }
}

/// What the inspector reports of a UUID.
pub open spec fn uuid_inspection(bytes: [u8; 16]) -> InspectionView {
    uuid_view(version_name(bytes), variant_name(bytes), uuid_timestamp(bytes))
}

/// What the inspector reports of a ULID.
pub open spec fn ulid_inspection(value: u128) -> InspectionView {
    ulid_view(ulid_timestamp(value))
}

/// What the inspector reports of a string that is neither a UUID nor a
/// ULID: the first shape that fits, in the order ObjectId, CUID version 1,
/// CUID version 2, NanoID; unknown where none fits.
pub open spec fn shape_inspection(id: Seq<char>) -> InspectionView {
    if is_object_id_shape(id) {
        object_id_view(rfc3339_of(object_id_seconds(id), 0))
    } else if is_cuid1_shape(id) {
        cuid_view("v1"@)
    } else if is_cuid2_shape(id) {
        cuid_view("v2"@)
    } else if is_nanoid_shape(id) {
        nanoid_view()
    } else {
        unknown_view()
    }
}

/// The string carries a time, given what the UUID parser and the ULID
/// parser made of it: it is a UUID of version 1, or else a ULID, or else
/// has the shape of an ObjectId.
pub open spec fn carries_time(id: Seq<char>, uuid: Option<[u8; 16]>, ulid: Option<u128>) -> bool {
    match uuid {
        Some(bytes) => version_number(bytes) == 1,
        None => ulid is Some || is_object_id_shape(id),
    }
}

/// What the inspector reports of a string, given what the UUID parser and
/// the ULID parser made of it: a UUID first, then a ULID, then the shapes.
pub open spec fn inspection_from(
    id: Seq<char>,
    uuid: Option<[u8; 16]>,
    ulid: Option<u128>,
) -> InspectionView {
    match uuid {
        Some(bytes) => uuid_inspection(bytes),
        None => match ulid {
            Some(value) => ulid_inspection(value),
            None => shape_inspection(id),
        },
    }
}

/// What the inspector reports of a string.
pub open spec fn inspection_of(id: Seq<char>) -> InspectionView {
    inspection_from(id, uuid_parse_of(id), ulid_parse_of(id))
}

/// `uuid::Uuid::get_version` and the `Debug` name of what it returns: the
/// name that belongs to the version field, or `None` for a field that the
/// crate does not know.
#[verifier::external_body]
fn uuid_version_name(bytes: &[u8; 16]) -> (r: Option<String>)
    ensures
        opt_text(r) == version_name(*bytes),
{
    match uuid::Uuid::from_bytes(*bytes).get_version() {
        Some(v) => Some(format!("{:?}", v)),
        None => None,
    }
}

/// `uuid::Uuid::get_variant` and the `Debug` name of what it returns: the
/// name of the layout that the leading bits of byte 8 select.
#[verifier::external_body]
fn uuid_variant_name(bytes: &[u8; 16]) -> (r: String)
    ensures
        r@ == variant_name(*bytes),
{
    format!("{:?}", uuid::Uuid::from_bytes(*bytes).get_variant())
}

/// `uuid::Uuid::get_timestamp` and `uuid::Timestamp::to_unix`, for a version
/// 1 UUID: the 60-bit clock value, less the ticks between 1582 and 1970 in
/// wrapping 64-bit arithmetic, split into seconds and nanoseconds.
#[verifier::external_body]
fn uuid_v1_unix_time(bytes: &[u8; 16]) -> (r: Option<UnixTime>)
    requires
        version_number(*bytes) == 1,
    ensures
        r is Some,
        r->0.secs == v1_unix_secs(*bytes),
        r->0.nanos == v1_unix_nanos(*bytes),
{
    match uuid::Uuid::from_bytes(*bytes).get_timestamp() {
        Some(ts) => Some(UnixTime { secs: ts.to_unix().0, nanos: ts.to_unix().1 }),
        None => None,
    }
}

/// `ulid::Ulid::from_string`. The result depends on the text alone.
#[verifier::external_body]
fn ulid_parse(text: &str) -> (r: Option<u128>)
    ensures
        r == ulid_parse_of(text@),
{
    match ulid::Ulid::from_string(text) {
        Ok(u) => Some(u.0),
        Err(_) => None,
    }
}

/// `ulid::Ulid::timestamp_ms`: the leading 48 of the 128 bits.
#[verifier::external_body]
fn ulid_timestamp_ms(value: u128) -> (r: u64)
    ensures
        r == ulid_millis(value),
{
    ulid::Ulid(value).timestamp_ms()
}

/// `chrono::Utc.timestamp_opt`, its `single` and `to_rfc3339`: the RFC 3339
/// text of a time in UTC, or `None` where the time is out of `chrono`'s
/// range or the nanoseconds are no part of a second. The result depends on
/// the two numbers alone, and every time from 1970 to the end of the year
/// 262142 has a text.
#[verifier::external_body]
fn rfc3339_from_unix(secs: i64, nanos: u32) -> (r: Option<String>)
    ensures
        opt_text(r) == rfc3339_of(secs as int, nanos as int),
        is_calendar_time(secs as int, nanos as int) ==> r is Some,
{
    match chrono::Utc.timestamp_opt(secs, nanos).single() {
        Some(t) => Some(t.to_rfc3339()),
        None => None,
    }
}

impl InspectionResult {
    /// The result for a UUID with the given version name, variant name and
    /// time.
    pub fn uuid(version: Option<String>, variant: String, timestamp: Option<String>) -> (r: Self)
        ensures
            r@ == uuid_view(opt_text(version), variant@, opt_text(timestamp)),
    {
        InspectionResult {
            valid: true,
            id_type: String::from_str("UUID"),
            version,
            timestamp,
            variant: Some(variant),
        }
    }

    /// The result for a ULID with the given time.
    pub fn ulid(timestamp: Option<String>) -> (r: Self)
        ensures
            r@ == ulid_view(opt_text(timestamp)),
    {
        InspectionResult {
            valid: true,
            id_type: String::from_str("ULID"),
            version: None,
            timestamp,
            variant: None,
        }
    }

    /// The result for an ObjectId with the given time.
    pub fn object_id(timestamp: Option<String>) -> (r: Self)
        ensures
            r@ == object_id_view(opt_text(timestamp)),
    {
        InspectionResult {
            valid: true,
            id_type: String::from_str("ObjectId"),
            version: None,
            timestamp,
            variant: None,
        }
    }

    /// The result for a CUID of the given version.
    pub fn cuid(version: &str) -> (r: Self)
        ensures
            r@ == cuid_view(version@),
    {
        InspectionResult {
            valid: true,
            id_type: String::from_str("CUID"),
            version: Some(String::from_str(version)),
            timestamp: None,
            variant: None,
        }
    }

    /// The result for a NanoID.
    pub fn nanoid() -> (r: Self)
        ensures
            r@ == nanoid_view(),
    {
        InspectionResult {
            valid: true,
            id_type: String::from_str("NanoID"),
            version: None,
            timestamp: None,
            variant: None,
        }
    }

    /// The result for a string that is no identifier of a known scheme.
    pub fn unknown() -> (r: Self)
        ensures
            r@ == unknown_view(),
    {
        InspectionResult {
            valid: false,
            id_type: String::from_str("Unknown"),
            version: None,
            timestamp: None,
            variant: None,
        }
    }
}

/// The alphabets that the shape recognizers test for.
#[derive(Debug, Clone, Copy)]
pub enum Alphabet {
    Hex,
    LowerAlnum,
    UrlSafe,
}

impl Alphabet {
    /// The character belongs to the alphabet.
    pub open spec fn holds(self, c: char) -> bool {
        match self {
            Alphabet::Hex => is_hex(c),
            Alphabet::LowerAlnum => is_lower_alnum(c),
            Alphabet::UrlSafe => is_url_safe(c),
        }
    }

    pub fn contains(self, c: char) -> (r: bool)
        ensures
            r == self.holds(c),
    {
        match self {
            Alphabet::Hex => char_is_hex(c),
            Alphabet::LowerAlnum => char_is_lower_alnum(c),
            Alphabet::UrlSafe => char_is_url_safe(c),
        }
    }
}

/// Whether `id` has exactly `len` characters, all of them of `alphabet`.
pub fn has_len_and_alphabet(id: &str, len: usize, alphabet: Alphabet) -> (r: bool)
    ensures
        r == (id@.len() == len && forall|i: int|
            0 <= i < id@.len() ==> alphabet.holds(#[trigger] id@[i])),
{
    if id.unicode_len() != len {
        return false;
    }
    let mut i: usize = 0;
    while i < len
        invariant
            id@.len() == len,
            i <= len,
            forall|j: int| 0 <= j < i ==> alphabet.holds(#[trigger] id@[j]),
        decreases len - i,
    {
        if !alphabet.contains(id.get_char(i)) {
            return false;
        }
        i += 1;
    }
    true
}

/// Whether `id` begins with `c` and is at least 25 bytes long.
pub fn looks_like_cuid1(id: &str) -> (r: bool)
    ensures
        r == is_cuid1_shape(id@),
{
    let bytes = id.as_bytes();
    bytes.len() >= 25 && id.unicode_len() > 0 && id.get_char(0) == 'c'
}

/// The number that the first eight characters of `id` spell in hexadecimal.
pub fn hex_prefix_seconds(id: &str) -> (r: u32)
    requires
        id@.len() >= 8,
        forall|i: int| 0 <= i < 8 ==> is_hex(#[trigger] id@[i]),
    ensures
        r == object_id_seconds(id@),
{
    let d0 = hex_digit_value(id.get_char(0));
    let d1 = hex_digit_value(id.get_char(1));
    let d2 = hex_digit_value(id.get_char(2));
    let d3 = hex_digit_value(id.get_char(3));
    let d4 = hex_digit_value(id.get_char(4));
    let d5 = hex_digit_value(id.get_char(5));
    let d6 = hex_digit_value(id.get_char(6));
    let d7 = hex_digit_value(id.get_char(7));
    d0 * 0x1000_0000 + d1 * 0x100_0000 + d2 * 0x10_0000 + d3 * 0x1_0000 + d4 * 0x1000 + d5 * 0x100
        + d6 * 0x10 + d7
}

/// Inspects a parsed UUID: the names of its version and variant, and for a
/// version 1 UUID its time, which is always there.
pub fn inspect_uuid(bytes: &[u8; 16]) -> (r: InspectionResult)
    ensures
        r@ == uuid_inspection(*bytes),
        r.timestamp is Some <==> version_number(*bytes) == 1,
{
    let version = uuid_version_name(bytes);
    let variant = uuid_variant_name(bytes);
    let timestamp = if bytes[6] / 16 == 1 {
        match uuid_v1_unix_time(bytes) {
            Some(t) => rfc3339_from_unix(t.secs as i64, t.nanos),
            None => None,
        }
    } else {
        None
    };
    InspectionResult::uuid(version, variant, timestamp)
}

/// Inspects a parsed ULID: the time in its leading 48 bits, which is always
/// there.
pub fn inspect_ulid(value: u128) -> (r: InspectionResult)
    ensures
        r@ == ulid_inspection(value),
        r.timestamp is Some,
{
    let millis = ulid_timestamp_ms(value);
    let secs = millis / 1000;
    let nanos = (millis % 1000) * 1_000_000;
    InspectionResult::ulid(rfc3339_from_unix(secs as i64, nanos as u32))
}

/// Inspects a string that is neither a UUID nor a ULID by its shape. An
/// ObjectId always has a time, the other shapes never.
pub fn inspect_shape(id: &str) -> (r: InspectionResult)
    ensures
        r@ == shape_inspection(id@),
        r.timestamp is Some <==> is_object_id_shape(id@),
{
    if has_len_and_alphabet(id, 24, Alphabet::Hex) {
        let seconds = hex_prefix_seconds(id);
        InspectionResult::object_id(rfc3339_from_unix(seconds as i64, 0))
    } else if looks_like_cuid1(id) {
        InspectionResult::cuid("v1")
    } else if has_len_and_alphabet(id, 24, Alphabet::LowerAlnum) {
        InspectionResult::cuid("v2")
    } else if has_len_and_alphabet(id, 21, Alphabet::UrlSafe) {
        InspectionResult::nanoid()
    } else {
        InspectionResult::unknown()
    }
}

/// Inspects a string, given what the UUID parser and the ULID parser made
/// of it. The result has a time exactly where the string carries one.
pub fn inspect_parsed(id: &str, uuid: Option<[u8; 16]>, ulid: Option<u128>) -> (r:
    InspectionResult)
    ensures
        r@ == inspection_from(id@, uuid, ulid),
        r.timestamp is Some <==> carries_time(id@, uuid, ulid),
{
    match uuid {
        Some(bytes) => inspect_uuid(&bytes),
        None => match ulid {
            Some(value) => inspect_ulid(value),
            None => inspect_shape(id),
        },
    }
}

/// Classifies a string and extracts what it carries. Every string has a
/// result; one that no recognizer accepts is reported as unknown and not
/// valid. A UUID of version 1, a ULID and an ObjectId are reported with
/// their time, everything else without one.
pub fn inspect_id(id: &str) -> (r: InspectionResult)
    ensures
        r@ == inspection_of(id@),
        r.timestamp is Some <==> carries_time(id@, uuid_parse_of(id@), ulid_parse_of(id@)),
{
    let uuid = uuid_parse(id);
    let ulid = match uuid {
        Some(_) => None,
        None => ulid_parse(id),
    };
    inspect_parsed(id, uuid, ulid)
}

/// The name that the inspector gives to the version of a generated UUID.
pub open spec fn generated_version_name(version: UuidVersion) -> Seq<char> {
    match version {
        UuidVersion::V1 => "Mac"@,
        UuidVersion::V3 => "Md5"@,
        UuidVersion::V4 => "Random"@,
        UuidVersion::V5 => "Sha1"@,
    }
}

/// Every UUID that the dispatcher generates, in any rendering, is
/// recognized as a UUID of its version in the RFC 4122 layout: a version 4
/// UUID is reported as `Random`. It carries a time exactly where its
/// version is 1.
pub proof fn lemma_generated_uuid_is_recognized(
    format: IDFormat,
    len: Option<usize>,
    namespace: Option<Seq<char>>,
    name: Option<Seq<char>>,
    id: Seq<char>,
)
    requires
        uuid_version_of(format) is Some,
        is_generated(format, len, namespace, name, id),
    ensures
        inspection_of(id).valid,
        inspection_of(id).id_type == "UUID"@,
        inspection_of(id).version == Some(generated_version_name(uuid_version_of(format)->0)),
        inspection_of(id).variant == Some("RFC4122"@),
        carries_time(id, uuid_parse_of(id), ulid_parse_of(id)) <==> uuid_version_of(format)
            == Some(UuidVersion::V1),
{
}

/// Every ULID that the dispatcher generates is recognized as a ULID
/// without version or variant. It carries a time, the one in its leading 48
/// bits, so that `inspect_id` reports it with a time.
pub proof fn lemma_generated_ulid_is_recognized(
    len: Option<usize>,
    namespace: Option<Seq<char>>,
    name: Option<Seq<char>>,
    id: Seq<char>,
)
    requires
        is_generated(IDFormat::Ulid, len, namespace, name, id),
    ensures
        inspection_of(id).valid,
        inspection_of(id).id_type == "ULID"@,
        inspection_of(id).version is None,
        inspection_of(id).variant is None,
        inspection_of(id).timestamp == ulid_timestamp(ulid_parse_of(id)->0),
        carries_time(id, uuid_parse_of(id), ulid_parse_of(id)),
{
}

/// A string of 24 hexadecimal digits that is neither a UUID nor a ULID is
/// taken for an ObjectId, also where its digits are all lower-case letters
/// and digits, which is the shape of a CUID of version 2.
pub proof fn lemma_object_id_before_cuid2(id: Seq<char>)
    requires
        uuid_parse_of(id) is None,
        ulid_parse_of(id) is None,
        is_object_id_shape(id),
    ensures
        inspection_of(id) == object_id_view(rfc3339_of(object_id_seconds(id), 0)),
        inspection_of(id).id_type == "ObjectId"@,
{
}

/// A string of 24 lower-case letters and digits that is neither a UUID nor
/// a ULID, and has a character that is no hexadecimal digit, is taken for a
/// CUID of version 2.
pub proof fn lemma_cuid2_when_not_hex(id: Seq<char>)
    requires
        uuid_parse_of(id) is None,
        ulid_parse_of(id) is None,
        is_cuid2_shape(id),
        !is_object_id_shape(id),
    ensures
        inspection_of(id) == cuid_view("v2"@),
        inspection_of(id).id_type == "CUID"@,
        inspection_of(id).version == Some("v2"@),
{
    assert(is_ascii_chars(id)) by {
        assert forall|i: int| 0 <= i < id.len() implies '\0' <= #[trigger] id[i] <= '\u{7f}' by {
            assert(is_lower_alnum(id[i]));
        }
    }
    is_ascii_chars_encode_utf8(id);
}

/// A result is valid exactly when its type is not `Unknown`; and a string
/// is reported as unknown exactly when it is neither a UUID nor a ULID and
/// has none of the four shapes.
pub proof fn lemma_valid_iff_known(id: Seq<char>)
    ensures
        inspection_of(id).valid <==> inspection_of(id).id_type != "Unknown"@,
        !inspection_of(id).valid <==> uuid_parse_of(id) is None && ulid_parse_of(id) is None
            && !is_object_id_shape(id) && !is_cuid1_shape(id) && !is_cuid2_shape(id)
            && !is_nanoid_shape(id),
        !inspection_of(id).valid ==> inspection_of(id) == unknown_view(),
{
    reveal_strlit("Unknown");
    reveal_strlit("UUID");
    reveal_strlit("ULID");
    reveal_strlit("ObjectId");
    reveal_strlit("CUID");
    reveal_strlit("NanoID");
    assert("Unknown"@.len() == 7);
    assert("UUID"@.len() == 4);
    assert("ULID"@.len() == 4);
    assert("ObjectId"@.len() == 8);
    assert("CUID"@.len() == 4);
    assert("NanoID"@.len() == 6);
}

/// A text has at most as many characters as its UTF-8 encoding has bytes.
pub proof fn lemma_chars_at_most_bytes(text: Seq<char>)
    ensures
        text.len() <= encode_utf8(text).len(),
    decreases text.len(),
{
    if text.len() > 0 {
        lemma_chars_at_most_bytes(text.drop_first());
    }
}

/// A string of fewer than 21 bytes that is neither a UUID nor a ULID is
/// unknown: the empty string, blanks, and short words among them.
pub proof fn lemma_short_is_unknown(id: Seq<char>)
    requires
        uuid_parse_of(id) is None,
        ulid_parse_of(id) is None,
        encode_utf8(id).len() < 21,
    ensures
        inspection_of(id) == unknown_view(),
{
    lemma_chars_at_most_bytes(id);
}

} // verus!
