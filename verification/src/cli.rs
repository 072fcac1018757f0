//! The choices of the command line that decide what is generated: the kind
//! of identifier, the rendering of a UUID, and the namespace of a name-based
//! UUID, which may be given by a well-known alias.

use vstd::prelude::*;
use vstd::string::*;
use vstd::utf8::{encode_utf8, is_ascii_chars};
use crate::chars::same_text;
use crate::id::{text_of, CuidVersion, IDFormat, UuidVersion};
use crate::inspector::opt_text;

verus! {

/// The kind of identifier that the user asks for.
#[derive(Copy, Clone, Debug, PartialEq, Eq)]
pub enum IdType {
    Uuid1,
    Uuid3,
    Uuid4,
    Uuid5,
    NanoId,
    Cuid1,
    Cuid2,
    Ulid,
    ObjectId,
}

/// The rendering of a UUID that the user asks for.
#[derive(Copy, Clone, Debug, PartialEq, Eq)]
pub enum UuidFormat {
    Hyphenated,
    Simple,
    Urn,
}

/// The upper-case form of a text, as `str::to_uppercase` gives it by
/// Unicode's rules.
pub uninterp spec fn uppercase_of(text: Seq<char>) -> Seq<char>;

/// A letter from `a` to `z` as its capital; any other character as it is.
pub open spec fn ascii_upper_char(c: char) -> char {
    if 'a' <= c <= 'z' {
        (c as int - 32) as char
    } else {
        c
    }
}

/// A text with its letters from `a` to `z` as capitals.
pub open spec fn ascii_upper(text: Seq<char>) -> Seq<char> {
    Seq::new(text.len(), |i: int| ascii_upper_char(text[i]))
}

/// `str::to_uppercase`. The result depends on the text alone. In an ASCII
/// text the letters from `a` to `z` become capitals and nothing else
/// changes.
#[verifier::external_body]
fn to_uppercase(text: &str) -> (r: String)
    ensures
        r@ == uppercase_of(text@),
        is_ascii_chars(text@) ==> r@ == ascii_upper(text@),
{
    text.to_uppercase()
}

/// The views of a result whose two sides are texts.
pub open spec fn result_text(r: Result<String, String>) -> Result<Seq<char>, Seq<char>> {
    match r {
        Ok(s) => Ok(s@),
        Err(e) => Err(e@),
    }
}

/// The message for a namespace that is neither an alias nor of a UUID's
/// length.
pub open spec fn invalid_namespace_message(namespace: Seq<char>) -> Seq<char> {
    "Invalid namespace '"@ + namespace + "'. Use DNS, URL, OID, X500, or a valid UUID."@
}

/// The namespace that a user's word stands for, given the word in upper
/// case. `DNS`, `URL`, `OID` and `X500`, in any case, stand for the
/// well-known namespace UUIDs. Any other word stands for itself if it is 32
/// or 36 bytes long, and is refused otherwise.
pub open spec fn resolved_namespace(namespace: Seq<char>, upper: Seq<char>) -> Result<
    Seq<char>,
    Seq<char>,
> {
    if upper == "DNS"@ {
        Ok("6ba7b810-9dad-11d1-80b4-00c04fd430c8"@)
    } else if upper == "URL"@ {
        Ok("6ba7b811-9dad-11d1-80b4-00c04fd430c8"@)
    } else if upper == "OID"@ {
        Ok("6ba7b812-9dad-11d1-80b4-00c04fd430c8"@)
    } else if upper == "X500"@ {
        Ok("6ba7b814-9dad-11d1-80b4-00c04fd430c8"@)
    } else if encode_utf8(namespace).len() == 32 || encode_utf8(namespace).len() == 36 {
        Ok(namespace)
    } else {
        Err(invalid_namespace_message(namespace))
    }
}

/// Resolves a namespace word, given its upper-case form.
pub fn resolve_namespace_from(namespace: &str, upper: &str) -> (r: Result<String, String>)
    ensures
        result_text(r) == resolved_namespace(namespace@, upper@),
{
    if same_text(upper, "DNS") {
        Ok(String::from_str("6ba7b810-9dad-11d1-80b4-00c04fd430c8"))
    } else if same_text(upper, "URL") {
        Ok(String::from_str("6ba7b811-9dad-11d1-80b4-00c04fd430c8"))
    } else if same_text(upper, "OID") {
        Ok(String::from_str("6ba7b812-9dad-11d1-80b4-00c04fd430c8"))
    } else if same_text(upper, "X500") {
        Ok(String::from_str("6ba7b814-9dad-11d1-80b4-00c04fd430c8"))
    } else {
        let bytes = namespace.as_bytes();
        if bytes.len() == 32 || bytes.len() == 36 {
            Ok(String::from_str(namespace))
        } else {
            let mut message = String::from_str("Invalid namespace '");
            message.append(namespace);
            message.append("'. Use DNS, URL, OID, X500, or a valid UUID.");
            Err(message)
        }
    }
}

/// Resolves a namespace word: a well-known alias in any case, or a word of
/// a UUID's length, which is passed on as it is. For an ASCII word the
/// upper-case form is the word with its letters as capitals.
pub fn resolve_namespace(namespace: &str) -> (r: Result<String, String>)
    ensures
        result_text(r) == resolved_namespace(namespace@, uppercase_of(namespace@)),
        is_ascii_chars(namespace@) ==> result_text(r) == resolved_namespace(
            namespace@,
            ascii_upper(namespace@),
        ),
{
    let upper = to_uppercase(namespace);
    resolve_namespace_from(namespace, upper.as_str())
}

/// What the dispatcher is to be asked: the format, and the namespace and
/// name where the format is a name-based UUID.
pub struct RequestView {
    pub format: IDFormat,
    pub namespace: Option<Seq<char>>,
    pub name: Option<Seq<char>>,
}

/// The kind is a UUID of version 3 or 5.
pub open spec fn is_name_based_type(id_type: IdType) -> bool {
    id_type is Uuid3 || id_type is Uuid5
}

/// `v3` or `v5`, for the messages.
pub open spec fn version_label(id_type: IdType) -> Seq<char> {
    if id_type is Uuid3 {
        "v3"@
    } else {
        "v5"@
    }
}

/// The message for a name-based UUID without a namespace.
pub open spec fn namespace_required_message(id_type: IdType) -> Seq<char> {
    "UUID "@ + version_label(id_type)
        + " requires --namespace parameter. Use DNS, URL, OID, X500, or a custom UUID."@
}

/// The message for a name-based UUID without a name.
pub open spec fn name_required_message(id_type: IdType) -> Seq<char> {
    "UUID "@ + version_label(id_type) + " requires --name parameter."@
}

/// The format for a kind of identifier; the rendering counts for UUIDs only.
pub open spec fn format_for(id_type: IdType, format: UuidFormat) -> IDFormat {
    match id_type {
        IdType::Uuid1 => rendered(format, UuidVersion::V1),
        IdType::Uuid3 => rendered(format, UuidVersion::V3),
        IdType::Uuid4 => rendered(format, UuidVersion::V4),
        IdType::Uuid5 => rendered(format, UuidVersion::V5),
        IdType::NanoId => IDFormat::NanoID,
        IdType::Cuid1 => IDFormat::Cuid(CuidVersion::V1),
        IdType::Cuid2 => IDFormat::Cuid(CuidVersion::V2),
        IdType::Ulid => IDFormat::Ulid,
        IdType::ObjectId => IDFormat::OID,
    }
}

/// The UUID format with the given rendering and version.
pub open spec fn rendered(format: UuidFormat, version: UuidVersion) -> IDFormat {
    match format {
        UuidFormat::Simple => IDFormat::Simple(version),
        UuidFormat::Hyphenated => IDFormat::Hyphenated(version),
        UuidFormat::Urn => IDFormat::URN(version),
    }
}

/// The request that the user's choices amount to, or the message that
/// refuses them, given the upper-case form of the namespace. For a
/// name-based UUID the namespace is required and resolved first, then the
/// name is required; for every other kind both are dropped.
pub open spec fn planned_request_from(
    id_type: IdType,
    format: UuidFormat,
    namespace: Option<Seq<char>>,
    name: Option<Seq<char>>,
    upper: Seq<char>,
) -> Result<RequestView, Seq<char>> {
    if !is_name_based_type(id_type) {
        Ok(RequestView { format: format_for(id_type, format), namespace: None, name: None })
    } else if namespace is None {
        Err(namespace_required_message(id_type))
    } else {
        match resolved_namespace(namespace->0, upper) {
            Err(message) => Err(message),
            Ok(resolved) => if name is None {
                Err(name_required_message(id_type))
            } else {
                Ok(
                    RequestView {
                        format: format_for(id_type, format),
                        namespace: Some(resolved),
                        name,
                    },
                )
            },
        }
    }
}

/// The request that the user's choices amount to, or the message that
/// refuses them.
pub open spec fn planned_request(
    id_type: IdType,
    format: UuidFormat,
    namespace: Option<Seq<char>>,
    name: Option<Seq<char>>,
) -> Result<RequestView, Seq<char>> {
    planned_request_from(id_type, format, namespace, name, uppercase_of(namespace->0))
}

/// The result holds what was planned: the same request, or the same
/// message.
pub open spec fn is_planned(
    r: Result<(IDFormat, Option<String>, Option<String>), String>,
    plan: Result<RequestView, Seq<char>>,
) -> bool {
    match plan {
        Ok(p) => r is Ok && r->Ok_0.0 == p.format && opt_text(r->Ok_0.1) == p.namespace
            && opt_text(r->Ok_0.2) == p.name,
        Err(message) => r is Err && r->Err_0@ == message,
    }
}

/// The format for a kind of identifier and a rendering.
pub fn id_format_for(id_type: IdType, format: UuidFormat) -> (r: IDFormat)
    ensures
        r == format_for(id_type, format),
{
    let version = match id_type {
        IdType::Uuid1 => UuidVersion::V1,
        IdType::Uuid3 => UuidVersion::V3,
        IdType::Uuid4 => UuidVersion::V4,
        IdType::Uuid5 => UuidVersion::V5,
        IdType::NanoId => {
            return IDFormat::NanoID;
        },
        IdType::Cuid1 => {
            return IDFormat::Cuid(CuidVersion::V1);
        },
        IdType::Cuid2 => {
            return IDFormat::Cuid(CuidVersion::V2);
        },
        IdType::Ulid => {
            return IDFormat::Ulid;
        },
        IdType::ObjectId => {
            return IDFormat::OID;
        },
    };
    match format {
        UuidFormat::Simple => IDFormat::Simple(version),
        UuidFormat::Hyphenated => IDFormat::Hyphenated(version),
        UuidFormat::Urn => IDFormat::URN(version),
    }
}

/// `UUID `, the version's label and the rest of a message.
fn version_message(id_type: IdType, rest: &str) -> (r: String)
    ensures
        r@ == "UUID "@ + version_label(id_type) + rest@,
{
    let mut message = String::from_str("UUID ");
    match id_type {
        IdType::Uuid3 => message.append("v3"),
        _ => message.append("v5"),
    }
    message.append(rest);
    message
}

/// Turns the user's choices into the request for the dispatcher: the
/// format, and for a name-based UUID the resolved namespace and the name.
/// For an ASCII namespace the upper-case form is the word with its letters
/// as capitals.
pub fn build_id_format(
    id_type: IdType,
    format: UuidFormat,
    namespace: Option<&str>,
    name: Option<&str>,
) -> (r: Result<(IDFormat, Option<String>, Option<String>), String>)
    ensures
        is_planned(r, planned_request(id_type, format, text_of(namespace), text_of(name))),
        namespace is None || is_ascii_chars(namespace->0@) ==> is_planned(
            r,
            planned_request_from(
                id_type,
                format,
                text_of(namespace),
                text_of(name),
                ascii_upper(namespace->0@),
            ),
        ),
{
    let id_format = id_format_for(id_type, format);
    match id_type {
        IdType::Uuid3 | IdType::Uuid5 => {},
        _ => {
            return Ok((id_format, None, None));
        },
    }
    let Some(namespace) = namespace else {
        return Err(
            version_message(
                id_type,
                " requires --namespace parameter. Use DNS, URL, OID, X500, or a custom UUID.",
            ),
        );
    };
    let resolved = match resolve_namespace(namespace) {
        Ok(resolved) => resolved,
        Err(message) => {
            return Err(message);
        },
    };
    let Some(name) = name else {
        return Err(version_message(id_type, " requires --name parameter."));
    };
    Ok((id_format, Some(resolved), Some(String::from_str(name))))
}

} // verus!
