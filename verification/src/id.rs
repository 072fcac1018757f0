//! The identifier formats and the dispatcher that generates them.
//!
//! A request is a format together with the optional length, namespace and
//! name. `new_id` validates what the format needs before any generator runs,
//! then hands the request to the generator of that family. The generators
//! themselves draw on the clock and on entropy and live in other crates; what
//! this module relies on from each of them is stated on the function that
//! makes the call.

use vstd::prelude::*;
use vstd::string::*;
use crate::chars::{is_crockford_upper, is_lower, is_lower_alnum, is_lower_hex, is_url_safe};
use crate::inspector::ulid_parse_of;
use crate::uuid_bytes::{
    hyphenated_text, is_hyphen_position, is_rfc4122, lemma_hyphenated_shape,
    lemma_lower_hex_digit, lemma_simple_shape, lemma_urn_shape, nibble, node_of, simple_text,
    urn_text, uuid_hyphenated, uuid_new_v3, uuid_new_v4, uuid_new_v5, uuid_now_v1,
    uuid_parse, uuid_parse_of, uuid_simple, uuid_urn, uuid_v3_of, uuid_v5_of, version_number,
};

verus! {

/// The failure of an entropy or clock source inside the CUID generator.
#[verifier::external_type_specification]
#[verifier::external_body]
pub struct ExCuidError(cuid::CuidError);

/// Why an identifier could not be generated.
///
/// All variants but `CuidError` report a request that lacks something it
/// needs; each carries the message for the user.
#[derive(Debug)]
pub enum IDError {
    MissingNamespace(String),
    MissingName(String),
    InvalidNamespace(String),
    MissingLength(String),
    CuidError(cuid::CuidError),
}

/// What to generate.
#[derive(Debug, Clone)]
pub enum IDFormat {
    Simple(UuidVersion),
    Hyphenated(UuidVersion),
    URN(UuidVersion),
    OID,
    NanoID,
    Ulid,
    Cuid(CuidVersion),
}

/// How the 128 bits of a UUID are made.
#[derive(Debug, Clone, Copy)]
pub enum UuidVersion {
    V1,
    V3,
    V4,
    V5,
}

#[derive(Debug, Clone, Copy)]
pub enum CuidVersion {
    V1,
    V2,
}

/// What a request can lack. A fault is found before any generator runs.
#[derive(Debug, Clone, Copy)]
pub enum UsageFault {
    MissingNamespace(UuidVersion),
    MissingName(UuidVersion),
    InvalidNamespace,
    MissingLength,
}

impl UsageFault {
    /// The message that the error for this fault carries.
    pub open spec fn message(self) -> Seq<char> {
        match self {
            UsageFault::MissingNamespace(UuidVersion::V5) =>
                "UUID v5 requires --namespace parameter. Example: --namespace 6ba7b810-9dad-11d1-80b4-00c04fd430c8"@,
            UsageFault::MissingNamespace(_) =>
                "UUID v3 requires --namespace parameter. Example: --namespace 6ba7b810-9dad-11d1-80b4-00c04fd430c8"@,
            UsageFault::MissingName(UuidVersion::V5) =>
                "UUID v5 requires --name parameter. Example: --name example.com"@,
            UsageFault::MissingName(_) =>
                "UUID v3 requires --name parameter. Example: --name example.com"@,
            UsageFault::InvalidNamespace =>
                "Invalid namespace UUID format. Must be a valid UUID like 6ba7b810-9dad-11d1-80b4-00c04fd430c8.\nCommon namespaces:\n  - DNS: 6ba7b810-9dad-11d1-80b4-00c04fd430c8\n  - URL: 6ba7b811-9dad-11d1-80b4-00c04fd430c8"@,
            UsageFault::MissingLength =>
                "NanoID requires --length parameter. Example: --length 21"@,
        }
    }

    /// The error that reports this fault.
    pub fn into_error(self) -> (e: IDError)
        ensures
            e.reports(self),
    {
        match self {
            UsageFault::MissingNamespace(UuidVersion::V5) => IDError::MissingNamespace(
                String::from_str(
                    "UUID v5 requires --namespace parameter. Example: --namespace 6ba7b810-9dad-11d1-80b4-00c04fd430c8",
                ),
            ),
            UsageFault::MissingNamespace(_) => IDError::MissingNamespace(
                String::from_str(
                    "UUID v3 requires --namespace parameter. Example: --namespace 6ba7b810-9dad-11d1-80b4-00c04fd430c8",
                ),
            ),
            UsageFault::MissingName(UuidVersion::V5) => IDError::MissingName(
                String::from_str("UUID v5 requires --name parameter. Example: --name example.com"),
            ),
            UsageFault::MissingName(_) => IDError::MissingName(
                String::from_str("UUID v3 requires --name parameter. Example: --name example.com"),
            ),
            UsageFault::InvalidNamespace => IDError::InvalidNamespace(
                String::from_str(
                    "Invalid namespace UUID format. Must be a valid UUID like 6ba7b810-9dad-11d1-80b4-00c04fd430c8.\nCommon namespaces:\n  - DNS: 6ba7b810-9dad-11d1-80b4-00c04fd430c8\n  - URL: 6ba7b811-9dad-11d1-80b4-00c04fd430c8",
                ),
            ),
            UsageFault::MissingLength => IDError::MissingLength(
                String::from_str("NanoID requires --length parameter. Example: --length 21"),
            ),
        }
    }
}

impl IDError {
    /// The request lacked something; the generators were not reached.
    pub open spec fn is_usage(self) -> bool {
        !(self is CuidError)
    }

    /// This error is the one for `fault`: the variant of that name, with the
    /// fault's message.
    pub open spec fn reports(self, fault: UsageFault) -> bool {
        match (self, fault) {
            (IDError::MissingNamespace(m), UsageFault::MissingNamespace(_)) => m@
                == fault.message(),
            (IDError::MissingName(m), UsageFault::MissingName(_)) => m@ == fault.message(),
            (IDError::InvalidNamespace(m), UsageFault::InvalidNamespace) => m@ == fault.message(),
            (IDError::MissingLength(m), UsageFault::MissingLength) => m@ == fault.message(),
            _ => false,
        }
    }

    /// Whether the caller's request was at fault, as opposed to the system.
    pub fn is_usage_error(&self) -> (r: bool)
        ensures
            r == self.is_usage(),
    {
        match self {
            IDError::CuidError(_) => false,
            _ => true,
        }
    }

    /// The text to show to the user. For a usage error it is the message that
    /// the error carries.
    pub fn message(&self) -> (r: String)
        ensures
            match *self {
                IDError::MissingNamespace(m) => r@ == m@,
                IDError::MissingName(m) => r@ == m@,
                IDError::InvalidNamespace(m) => r@ == m@,
                IDError::MissingLength(m) => r@ == m@,
                IDError::CuidError(_) => true,
            },
    {
        match self {
            IDError::MissingNamespace(m) => m.clone(),
            IDError::MissingName(m) => m.clone(),
            IDError::InvalidNamespace(m) => m.clone(),
            IDError::MissingLength(m) => m.clone(),
            IDError::CuidError(e) => cuid_error_text(e),
        }
    }
}

/// `cuid::CuidError`'s `Display`: the text of a generator failure. Nothing
/// is claimed of it.
#[verifier::external_body]
fn cuid_error_text(e: &cuid::CuidError) -> (r: String) {
    e.to_string()
}

/// The node that version 1 UUIDs are made with: a fixed placeholder, not a
/// hardware address.
pub open spec fn v1_node() -> Seq<u8> {
    seq![1u8, 2u8, 3u8, 4u8, 5u8, 6u8]
}

/// The view of an optional string.
pub open spec fn text_of(s: Option<&str>) -> Option<Seq<char>> {
    match s {
        Some(t) => Some(t@),
        None => None,
    }
}

/// What a request for a UUID lacks, if anything. Versions 1 and 4 need
/// nothing. Versions 3 and 5 need a namespace, then a name, then a namespace
/// that parses as a UUID: the first of these that fails is the fault.
pub open spec fn uuid_fault(
    version: UuidVersion,
    namespace: Option<Seq<char>>,
    name: Option<Seq<char>>,
) -> Option<UsageFault> {
    if version is V1 || version is V4 {
        None
    } else if namespace is None {
        Some(UsageFault::MissingNamespace(version))
    } else if name is None {
        Some(UsageFault::MissingName(version))
    } else if uuid_parse_of(namespace->0) is None {
        Some(UsageFault::InvalidNamespace)
    } else {
        None
    }
}

/// `bytes` is a UUID that a faultless request for `version` may yield. For
/// versions 3 and 5 the request determines it; for versions 1 and 4 only its
/// fixed fields are known.
pub open spec fn is_uuid_for(
    version: UuidVersion,
    namespace: Option<Seq<char>>,
    name: Option<Seq<char>>,
    bytes: [u8; 16],
) -> bool {
    &&& is_rfc4122(bytes)
    &&& match version {
        UuidVersion::V1 => version_number(bytes) == 1 && node_of(bytes) == v1_node(),
        UuidVersion::V3 => version_number(bytes) == 3 && bytes == uuid_v3_of(
            uuid_parse_of(namespace->0)->0,
            name->0,
        ),
        UuidVersion::V4 => version_number(bytes) == 4,
        UuidVersion::V5 => version_number(bytes) == 5 && bytes == uuid_v5_of(
            uuid_parse_of(namespace->0)->0,
            name->0,
        ),
    }
}

/// The version of the UUID that the format asks for, where it asks for one.
pub open spec fn uuid_version_of(format: IDFormat) -> Option<UuidVersion> {
    match format {
        IDFormat::Simple(v) => Some(v),
        IDFormat::Hyphenated(v) => Some(v),
        IDFormat::URN(v) => Some(v),
        _ => None,
    }
}

/// What a request lacks, if anything: for a UUID see `uuid_fault`; a NanoID
/// needs a length; the other formats need nothing.
pub open spec fn request_fault(
    format: IDFormat,
    len: Option<usize>,
    namespace: Option<Seq<char>>,
    name: Option<Seq<char>>,
) -> Option<UsageFault> {
    if uuid_version_of(format) is Some {
        uuid_fault(uuid_version_of(format)->0, namespace, name)
    } else if format is NanoID && len is None {
        Some(UsageFault::MissingLength)
    } else {
        None
    }
}

/// The format is a UUID of version 3 or 5: one derived from a namespace and
/// a name.
pub open spec fn is_name_based(format: IDFormat) -> bool {
    uuid_version_of(format) matches Some(v) && (v is V3 || v is V5)
}

/// The text of a UUID in the rendering that `format` names.
pub open spec fn uuid_text(format: IDFormat, bytes: [u8; 16]) -> Seq<char> {
    match format {
        IDFormat::Simple(_) => simple_text(bytes),
        IDFormat::URN(_) => urn_text(bytes),
        _ => hyphenated_text(bytes),
    }
}

/// `id` has the shape that identifiers of `format` have.
///
/// - Simple UUID: 32 lower-case hexadecimal digits.
/// - Hyphenated UUID: 36 characters, hyphens exactly at 8, 13, 18 and 23,
///   lower-case hexadecimal digits elsewhere.
/// - URN UUID: `urn:uuid:` and then a hyphenated UUID, 45 characters.
/// - ObjectId: 24 lower-case hexadecimal digits.
/// - NanoID: `len` characters of the URL-safe alphabet.
/// - ULID: 26 characters of Crockford's Base32 alphabet in upper case.
/// - CUID version 1: `c`, then lower-case letters and digits, at least 18
///   characters in all.
/// - CUID version 2: a lower-case letter, then lower-case letters and
///   digits, 24 characters in all.
pub open spec fn has_shape(format: IDFormat, len: Option<usize>, id: Seq<char>) -> bool {
    match format {
        IDFormat::Simple(_) => id.len() == 32 && forall|i: int|
            0 <= i < 32 ==> is_lower_hex(#[trigger] id[i]),
        IDFormat::Hyphenated(_) => is_hyphenated_shape(id),
        IDFormat::URN(_) => id.len() == 45 && id.subrange(0, 9) == "urn:uuid:"@
            && is_hyphenated_shape(id.subrange(9, 45)),
        IDFormat::OID => id.len() == 24 && forall|i: int|
            0 <= i < 24 ==> is_lower_hex(#[trigger] id[i]),
        IDFormat::NanoID => len is Some && id.len() == len->0 && forall|i: int|
            0 <= i < id.len() ==> is_url_safe(#[trigger] id[i]),
        IDFormat::Ulid => id.len() == 26 && forall|i: int|
            0 <= i < 26 ==> is_crockford_upper(#[trigger] id[i]),
        IDFormat::Cuid(CuidVersion::V1) => id.len() >= 18 && id[0] == 'c' && forall|i: int|
            0 <= i < id.len() ==> is_lower_alnum(#[trigger] id[i]),
        IDFormat::Cuid(CuidVersion::V2) => id.len() == 24 && is_lower(id[0]) && forall|i: int|
            0 <= i < id.len() ==> is_lower_alnum(#[trigger] id[i]),
    }
}

/// What the generator of CUIDs of version 2 hands out: a lower-case letter,
/// then lower-case letters and digits, at most 24 characters in all.
pub open spec fn is_cuid2_draft(id: Seq<char>) -> bool {
    1 <= id.len() <= 24 && is_lower(id[0]) && forall|i: int|
        0 <= i < id.len() ==> is_lower_alnum(#[trigger] id[i])
}

/// `n` times the digit `0`.
pub open spec fn zeros(n: int) -> Seq<char> {
    Seq::new(n as nat, |i: int| '0')
}

/// A CUID of version 2 at its full length. After its letter the identifier
/// is a number in base 36, written without leading zeros and cut to 23
/// digits. Where that leaves fewer than 23, the zeros stand after the
/// letter again. A text that is empty or has 24 characters or more stays as
/// it is.
pub open spec fn full_cuid2(id: Seq<char>) -> Seq<char> {
    if 1 <= id.len() < 24 {
        id.subrange(0, 1) + zeros(24 - id.len()) + id.subrange(1, id.len() as int)
    } else {
        id
    }
}

/// At its full length, what the generator hands out has the shape of a CUID
/// of version 2; and what has 24 characters already is not changed.
pub proof fn lemma_full_cuid2(id: Seq<char>)
    requires
        is_cuid2_draft(id),
    ensures
        has_shape(IDFormat::Cuid(CuidVersion::V2), None, full_cuid2(id)),
        id.len() == 24 ==> full_cuid2(id) == id,
{
    let full = full_cuid2(id);
    if id.len() < 24 {
        let gap = 24 - id.len();
        assert(full.len() == 24);
        assert(full[0] == id[0]);
        assert forall|i: int| 0 <= i < full.len() implies is_lower_alnum(#[trigger] full[i]) by {
            if i == 0 {
                assert(full[i] == id[0]);
                assert(is_lower_alnum(id[0]));
            } else if i < 1 + gap {
                assert(full[i] == '0');
            } else {
                assert(full[i] == id[i - gap]);
                assert(is_lower_alnum(id[i - gap]));
            }
        }
    }
}

/// 36 characters: hyphens exactly at 8, 13, 18 and 23, lower-case
/// hexadecimal digits elsewhere.
pub open spec fn is_hyphenated_shape(id: Seq<char>) -> bool {
    &&& id.len() == 36
    &&& forall|i: int| 0 <= i < 36 ==> (is_hyphen_position(i) <==> #[trigger] id[i] == '-')
    &&& forall|i: int| 0 <= i < 36 && !is_hyphen_position(i) ==> is_lower_hex(#[trigger] id[i])
}

/// `id` is an identifier that a faultless request may yield: it has the
/// shape of its format; where the format is a UUID it renders a UUID that
/// the request allows, and parses as that UUID; where the format is a ULID
/// it parses as a ULID and not as a UUID.
pub open spec fn is_generated(
    format: IDFormat,
    len: Option<usize>,
    namespace: Option<Seq<char>>,
    name: Option<Seq<char>>,
    id: Seq<char>,
) -> bool {
    &&& has_shape(format, len, id)
    &&& uuid_version_of(format) matches Some(version) ==> exists|bytes: [u8; 16]|
        #[trigger] is_uuid_for(version, namespace, name, bytes) && id == uuid_text(format, bytes)
            && uuid_parse_of(id) == Some(bytes)
    &&& format is Ulid ==> ulid_parse_of(id) is Some && uuid_parse_of(id) is None
}

/// The largest NanoID length that the generator can size its random draws
/// for.
pub open spec fn max_nanoid_len() -> int {
    usize::MAX as int / 8
}

/// The request is within what the generators can be asked for: a NanoID
/// no longer than `max_nanoid_len`; anything of the other formats.
pub open spec fn is_supported(format: IDFormat, len: Option<usize>) -> bool {
    format is NanoID && len is Some ==> len->0 <= max_nanoid_len()
}

/// Whether `new_id` can be called with this format and length.
pub fn can_generate(format: &IDFormat, len: Option<usize>) -> (r: bool)
    ensures
        r == is_supported(*format, len),
{
    match (format, len) {
        (IDFormat::NanoID, Some(n)) => n <= usize::MAX / 8,
        _ => true,
    }
}

/// The text of a UUID has the shape of its rendering.
pub proof fn lemma_uuid_text_shape(format: IDFormat, len: Option<usize>, bytes: [u8; 16])
    requires
        uuid_version_of(format) is Some,
    ensures
        has_shape(format, len, uuid_text(format, bytes)),
{
    lemma_simple_shape(bytes);
    lemma_hyphenated_shape(bytes);
    lemma_urn_shape(bytes);
}

/// A simple UUID holds no hyphen, and a hyphenated UUID holds exactly the
/// four at positions 8, 13, 18 and 23.
pub proof fn lemma_hyphens(format: IDFormat, len: Option<usize>, id: Seq<char>)
    requires
        format is Simple || format is Hyphenated,
        has_shape(format, len, id),
    ensures
        format is Simple ==> forall|i: int| 0 <= i < id.len() ==> #[trigger] id[i] != '-',
        format is Hyphenated ==> forall|i: int|
            0 <= i < id.len() ==> (#[trigger] id[i] == '-' <==> is_hyphen_position(i)),
{
    if format is Simple {
        assert forall|i: int| 0 <= i < id.len() implies #[trigger] id[i] != '-' by {
            assert(is_lower_hex(id[i]));
        }
    }
}

/// UUIDs of different versions differ in every rendering. In particular the
/// version 3 and the version 5 UUID of one namespace and name are rendered
/// differently.
pub proof fn lemma_versions_render_apart(a: [u8; 16], b: [u8; 16])
    requires
        version_number(a) != version_number(b),
    ensures
        simple_text(a) != simple_text(b),
        hyphenated_text(a) != hyphenated_text(b),
        urn_text(a) != urn_text(b),
{
    lemma_lower_hex_digit(nibble(a, 12));
    assert(nibble(a, 12) == version_number(a));
    assert(nibble(b, 12) == version_number(b));
    assert(simple_text(a)[12] != simple_text(b)[12]);
    assert(hyphenated_text(a)[14] == simple_text(a)[12]);
    assert(hyphenated_text(b)[14] == simple_text(b)[12]);
    assert(urn_text(a)[23] == hyphenated_text(a)[14]);
    assert(urn_text(b)[23] == hyphenated_text(b)[14]);
}

/// A request for a UUID of version 3 or 5 has at most one answer: whatever
/// is generated for it twice is the same text.
pub proof fn lemma_name_based_deterministic(
    format: IDFormat,
    len: Option<usize>,
    namespace: Option<Seq<char>>,
    name: Option<Seq<char>>,
    first: Seq<char>,
    second: Seq<char>,
)
    requires
        is_name_based(format),
        is_generated(format, len, namespace, name, first),
        is_generated(format, len, namespace, name, second),
    ensures
        first == second,
{
}

/// For one namespace and name, the UUID of version 3 and the UUID of
/// version 5 are different texts, whatever their renderings.
pub proof fn lemma_v3_and_v5_differ(
    format3: IDFormat,
    format5: IDFormat,
    len: Option<usize>,
    namespace: Option<Seq<char>>,
    name: Option<Seq<char>>,
    id3: Seq<char>,
    id5: Seq<char>,
)
    requires
        uuid_version_of(format3) == Some(UuidVersion::V3),
        uuid_version_of(format5) == Some(UuidVersion::V5),
        is_generated(format3, len, namespace, name, id3),
        is_generated(format5, len, namespace, name, id5),
    ensures
        id3 != id5,
{
    let a = choose|bytes: [u8; 16]|
        #[trigger] is_uuid_for(UuidVersion::V3, namespace, name, bytes) && id3 == uuid_text(
            format3,
            bytes,
        ) && uuid_parse_of(id3) == Some(bytes);
    let b = choose|bytes: [u8; 16]|
        #[trigger] is_uuid_for(UuidVersion::V5, namespace, name, bytes) && id5 == uuid_text(
            format5,
            bytes,
        ) && uuid_parse_of(id5) == Some(bytes);
    lemma_versions_render_apart(a, b);
    lemma_simple_shape(a);
    lemma_simple_shape(b);
    lemma_hyphenated_shape(a);
    lemma_hyphenated_shape(b);
    lemma_urn_shape(a);
    lemma_urn_shape(b);
}

/// The 128 bits of a UUID of the given version.
///
/// Versions 3 and 5 need a namespace that parses as a UUID and a name; what
/// is missing is reported in that order, before anything is generated.
pub fn generate_uuid(version: UuidVersion, namespace: Option<&str>, name: Option<&str>) -> (r:
    Result<[u8; 16], IDError>)
    ensures
        match uuid_fault(version, text_of(namespace), text_of(name)) {
            Some(fault) => r matches Err(e) && e.reports(fault),
            None => r matches Ok(bytes) && is_uuid_for(
                version,
                text_of(namespace),
                text_of(name),
                bytes,
            ),
        },
{
    match version {
        UuidVersion::V1 => {
            let node: [u8; 6] = [1, 2, 3, 4, 5, 6];
            let bytes = uuid_now_v1(&node);
            assert(node@ =~= v1_node());
            Ok(bytes)
        },
        UuidVersion::V4 => Ok(uuid_new_v4()),
        _ => {
            let Some(namespace) = namespace else {
                return Err(UsageFault::MissingNamespace(version).into_error());
            };
            let Some(name) = name else {
                return Err(UsageFault::MissingName(version).into_error());
            };
            let namespace = uuid_parse(namespace);
            match version {
                UuidVersion::V3 => uuid_v3_in(namespace, name),
                _ => uuid_v5_in(namespace, name),
            }
        },
    }
}

/// The version 3 UUID of a name in a namespace that was parsed; the error
/// for an invalid namespace where the parser found none.
pub fn uuid_v3_in(namespace: Option<[u8; 16]>, name: &str) -> (r: Result<[u8; 16], IDError>)
    ensures
        match namespace {
            Some(ns) => r matches Ok(bytes) && bytes == uuid_v3_of(ns, name@) && version_number(
                bytes,
            ) == 3 && is_rfc4122(bytes),
            None => r matches Err(e) && e.reports(UsageFault::InvalidNamespace),
        },
{
    match namespace {
        Some(ns) => Ok(uuid_new_v3(&ns, name)),
        None => Err(UsageFault::InvalidNamespace.into_error()),
    }
}

/// The version 5 UUID of a name in a namespace that was parsed; the error
/// for an invalid namespace where the parser found none.
pub fn uuid_v5_in(namespace: Option<[u8; 16]>, name: &str) -> (r: Result<[u8; 16], IDError>)
    ensures
        match namespace {
            Some(ns) => r matches Ok(bytes) && bytes == uuid_v5_of(ns, name@) && version_number(
                bytes,
            ) == 5 && is_rfc4122(bytes),
            None => r matches Err(e) && e.reports(UsageFault::InvalidNamespace),
        },
{
    match namespace {
        Some(ns) => Ok(uuid_new_v5(&ns, name)),
        None => Err(UsageFault::InvalidNamespace.into_error()),
    }
}

/// `cuid::cuid1`: an identifier from the clock, a counter, the host's
/// fingerprint and random blocks, or the error of the source that failed.
/// The crate puts `c` first, then the clock in base 36, which is one digit
/// at least, then four blocks of four digits each, all in lower case. It
/// panics where it cannot determine the host's fingerprint.
#[verifier::external_body]
fn cuid_v1() -> (r: Result<String, cuid::CuidError>)
    ensures
        r matches Ok(id) ==> id@.len() >= 18 && id@[0] == 'c' && forall|i: int|
            0 <= i < id@.len() ==> is_lower_alnum(#[trigger] id@[i]),
{
    cuid::cuid1()
}

/// `cuid::cuid2`: a random lower-case letter and then a hash in base 36,
/// which the crate writes in lower case without leading zeros and cuts to 23
/// digits. That makes 24 characters, but for a hash that has fewer than 23
/// digits. It panics where the system clock stands before 1970.
#[verifier::external_body]
fn cuid_v2() -> (r: String)
    ensures
        is_cuid2_draft(r@),
{
    cuid::cuid2()
}

/// `bson::oid::ObjectId::new` and its `Display`: twelve bytes from the
/// clock, a per-process random value and a counter, written as 24 lower-case
/// hexadecimal digits. It panics where the system clock stands before 1970
/// or after 2106.
#[verifier::external_body]
fn object_id_new() -> (r: String)
    ensures
        r@.len() == 24,
        forall|i: int| 0 <= i < 24 ==> is_lower_hex(#[trigger] r@[i]),
{
    bson::oid::ObjectId::new().to_string()
}

/// `nanoid::format` with the crate's default random source and its URL-safe
/// alphabet: exactly `size` characters of that alphabet. With size 0 the
/// crate's loop never ends, and it sizes its draws as `8 * size / 5`; both
/// are left out here.
#[verifier::external_body]
fn nanoid_format(size: usize) -> (r: String)
    requires
        0 < size <= max_nanoid_len(),
    ensures
        r@.len() == size,
        forall|i: int| 0 <= i < r@.len() ==> is_url_safe(#[trigger] r@[i]),
{
    nanoid::format(nanoid::rngs::default, &nanoid::alphabet::SAFE, size)
}

/// `ulid::Ulid::new` and `to_string`: 48 bits of the clock and 80 random
/// bits, written as 26 characters of Crockford's Base32 alphabet in upper
/// case. The `ulid` crate's parser reads such a text back; the `uuid`
/// crate's parser takes no text of 26 characters.
#[verifier::external_body]
fn ulid_new() -> (r: String)
    ensures
        r@.len() == 26,
        forall|i: int| 0 <= i < 26 ==> is_crockford_upper(#[trigger] r@[i]),
        ulid_parse_of(r@) is Some,
        uuid_parse_of(r@) is None,
{
    ulid::Ulid::new().to_string()
}

/// Brings a CUID of version 2 to its full length of 24 characters: the
/// zeros that the generator left out stand after the letter again.
pub fn fill_cuid2(id: String) -> (r: String)
    ensures
        r@ == full_cuid2(id@),
{
    let text = id.as_str();
    let len = text.unicode_len();
    if len == 0 || len >= 24 {
        return id;
    }
    let mut full = String::from_str(text.substring_char(0, 1));
    let mut at: usize = len;
    while at < 24
        invariant
            1 <= len <= at <= 24,
            len == id@.len(),
            full@ == id@.subrange(0, 1) + zeros(at - len),
        decreases 24 - at,
    {
        proof {
            reveal_strlit("0");
            assert("0"@ =~= seq!['0']);
            assert(zeros(at - len) + seq!['0'] =~= zeros(at + 1 - len));
            assert(id@.subrange(0, 1) + zeros(at - len) + seq!['0'] =~= id@.subrange(0, 1)
                + zeros(at + 1 - len));
        }
        full.append("0");
        at += 1;
    }
    full.append(text.substring_char(1, len));
    full
}

/// A CUID of the given version. Version 2 always succeeds and has 24
/// characters; version 1 fails only where its entropy or clock source does.
pub fn generate_cuid(version: CuidVersion) -> (r: Result<String, IDError>)
    ensures
        match r {
            Ok(id) => has_shape(IDFormat::Cuid(version), None, id@),
            Err(e) => version is V1 && e is CuidError,
        },
{
    match version {
        CuidVersion::V1 => match cuid_v1() {
            Ok(id) => Ok(id),
            Err(err) => Err(IDError::CuidError(err)),
        },
        CuidVersion::V2 => {
            let draft = cuid_v2();
            proof {
                lemma_full_cuid2(draft@);
            }
            Ok(fill_cuid2(draft))
        },
    }
}

/// A NanoID of exactly `size` characters of the URL-safe alphabet; the empty
/// string for size 0.
pub fn generate_nanoid(size: usize) -> (id: String)
    requires
        size <= max_nanoid_len(),
    ensures
        has_shape(IDFormat::NanoID, Some(size), id@),
{
    if size == 0 {
        String::new()
    } else {
        nanoid_format(size)
    }
}

/// The text of a UUID in the rendering of a UUID format: simple, URN, or
/// else hyphenated.
pub fn render_uuid(format: &IDFormat, len: Option<usize>, bytes: &[u8; 16]) -> (id: String)
    requires
        uuid_version_of(*format) is Some,
    ensures
        id@ == uuid_text(*format, *bytes),
        uuid_parse_of(id@) == Some(*bytes),
        has_shape(*format, len, id@),
{
    proof {
        lemma_uuid_text_shape(*format, len, *bytes);
    }
    match format {
        IDFormat::Simple(_) => uuid_simple(bytes),
        IDFormat::URN(_) => uuid_urn(bytes),
        _ => uuid_hyphenated(bytes),
    }
}

/// Generates one identifier.
///
/// A request that lacks what its format needs is refused with the error for
/// the first thing that is missing, and nothing is generated: a namespace, a
/// name and a namespace that parses, for UUID versions 3 and 5; a length for
/// a NanoID. Every other request succeeds, but for a CUID of version 1 whose
/// entropy or clock source fails. The namespace and the name are read only
/// for UUID versions 3 and 5, the length only for a NanoID.
pub fn new_id(
    id_format: &IDFormat,
    len: Option<usize>,
    namespace: Option<&str>,
    name: Option<&str>,
) -> (r: Result<String, IDError>)
    requires
        is_supported(*id_format, len),
    ensures
        match request_fault(*id_format, len, text_of(namespace), text_of(name)) {
            Some(fault) => r matches Err(e) && e.reports(fault),
            None => match r {
                Ok(id) => is_generated(*id_format, len, text_of(namespace), text_of(name), id@),
                Err(e) => *id_format matches IDFormat::Cuid(CuidVersion::V1) && e is CuidError,
            },
        },
{
    match id_format {
        IDFormat::Simple(version) | IDFormat::Hyphenated(version) | IDFormat::URN(version) => {
            match generate_uuid(*version, namespace, name) {
                Ok(bytes) => {
                    let id = render_uuid(id_format, len, &bytes);
                    assert(is_uuid_for(*version, text_of(namespace), text_of(name), bytes)
                        && id@ == uuid_text(*id_format, bytes) && uuid_parse_of(id@) == Some(
                        bytes,
                    ));
                    assert(is_generated(*id_format, len, text_of(namespace), text_of(name), id@));
                    Ok(id)
                },
                Err(e) => Err(e),
            }
        },
        IDFormat::OID => Ok(object_id_new()),
        IDFormat::NanoID => match len {
            Some(size) => Ok(generate_nanoid(size)),
            None => Err(UsageFault::MissingLength.into_error()),
        },
        IDFormat::Cuid(version) => generate_cuid(*version),
        IDFormat::Ulid => Ok(ulid_new()),
    }
}

} // verus!
