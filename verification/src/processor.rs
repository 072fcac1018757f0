//! What the command line front end computes between reading its arguments
//! and writing its output: the batch of identifiers with their decoration,
//! the lines that report an inspection, and the exit code.

use vstd::prelude::*;
use vstd::string::*;
use crate::exit_codes::{ERROR, SUCCESS, USAGE_ERROR};
use crate::id::{
    is_generated, is_supported, new_id, request_fault, text_of, CuidVersion, IDError, IDFormat,
    UsageFault,
};
use crate::inspector::{InspectionResult, InspectionView};

verus! {

/// The length of a NanoID where the user names none.
pub const DEFAULT_NANOID_LENGTH: usize = 21;

/// The length that a batch asks the dispatcher for: the user's, or the
/// default.
pub open spec fn effective_len(len: Option<usize>) -> Option<usize> {
    match len {
        Some(n) => Some(n),
        None => Some(DEFAULT_NANOID_LENGTH),
    }
}

/// The length to ask the dispatcher for: the user's, or the default. The
/// dispatcher itself refuses a NanoID without a length; a batch supplies
/// the default before it asks, so that the user never meets that refusal.
pub fn length_or_default(len: Option<usize>) -> (r: Option<usize>)
    ensures
        r == effective_len(len),
{
    match len {
        Some(n) => Some(n),
        None => Some(DEFAULT_NANOID_LENGTH),
    }
}

/// `text` is an identifier that the request may yield, between the prefix
/// and the suffix.
pub open spec fn is_decorated(
    format: IDFormat,
    len: Option<usize>,
    namespace: Option<Seq<char>>,
    name: Option<Seq<char>>,
    prefix: Seq<char>,
    suffix: Seq<char>,
    text: Seq<char>,
) -> bool {
    exists|id: Seq<char>| #[trigger]
        is_generated(format, len, namespace, name, id) && text == prefix + id + suffix
}

/// Puts an identifier between a prefix and a suffix.
pub fn decorate(prefix: &str, id: &str, suffix: &str) -> (r: String)
    ensures
        r@ == prefix@ + id@ + suffix@,
{
    let mut text = String::from_str(prefix);
    text.append(id);
    text.append(suffix);
    text
}

/// What a batch made: the identifiers in the order they were generated, and
/// the error that ended the batch early, if one did.
#[derive(Debug)]
pub struct Batch {
    pub ids: Vec<String>,
    pub error: Option<IDError>,
}

/// What a batch lacks, if anything. The default length is supplied first,
/// so a NanoID never lacks one.
pub open spec fn batch_fault(
    format: IDFormat,
    len: Option<usize>,
    namespace: Option<Seq<char>>,
    name: Option<Seq<char>>,
) -> Option<UsageFault> {
    request_fault(format, effective_len(len), namespace, name)
}

/// Every text is an identifier that the request may yield, with the default
/// length supplied, between the prefix and the suffix.
pub open spec fn all_decorated(
    format: IDFormat,
    len: Option<usize>,
    namespace: Option<Seq<char>>,
    name: Option<Seq<char>>,
    prefix: Seq<char>,
    suffix: Seq<char>,
    ids: Seq<String>,
) -> bool {
    forall|i: int|
        0 <= i < ids.len() ==> is_decorated(
            format,
            effective_len(len),
            namespace,
            name,
            prefix,
            suffix,
            #[trigger] ids[i]@,
        )
}

/// Generates up to `count` identifiers for one request, each between the
/// prefix and the suffix, and keeps what was made when one fails.
///
/// A NanoID without a length gets the default length. The dispatcher is
/// asked once for each identifier, and not again after its first error. A
/// request that lacks something therefore yields no identifier and its
/// error, as soon as one identifier is asked for. A request that lacks
/// nothing yields all `count` identifiers and no error, unless the source of
/// a CUID of version 1 fails: then the batch holds the identifiers made
/// before and that error.
pub fn generate_batch(
    id_format: &IDFormat,
    len: Option<usize>,
    count: u32,
    prefix: &str,
    suffix: &str,
    namespace: Option<&str>,
    name: Option<&str>,
) -> (r: Batch)
    requires
        is_supported(*id_format, effective_len(len)),
    ensures
        r.ids@.len() <= count,
        r.error is None <==> r.ids@.len() == count,
        all_decorated(
            *id_format,
            len,
            text_of(namespace),
            text_of(name),
            prefix@,
            suffix@,
            r.ids@,
        ),
        match batch_fault(*id_format, len, text_of(namespace), text_of(name)) {
            Some(fault) => count > 0 ==> r.ids@.len() == 0 && r.error is Some
                && r.error->0.reports(fault),
            None => r.error is Some ==> *id_format == IDFormat::Cuid(CuidVersion::V1)
                && r.error->0 is CuidError,
        },
{
    let asked = length_or_default(len);
    let mut ids: Vec<String> = Vec::new();
    let mut done: u32 = 0;
    while done < count
        invariant
            asked == effective_len(len),
            is_supported(*id_format, asked),
            done <= count,
            ids@.len() == done,
            done > 0 ==> request_fault(*id_format, asked, text_of(namespace), text_of(name))
                is None,
            forall|i: int|
                0 <= i < ids@.len() ==> is_decorated(
                    *id_format,
                    asked,
                    text_of(namespace),
                    text_of(name),
                    prefix@,
                    suffix@,
                    #[trigger] ids@[i]@,
                ),
        decreases count - done,
    {
        match new_id(id_format, asked, namespace, name) {
            Ok(id) => {
                let text = decorate(prefix, id.as_str(), suffix);
                assert(is_generated(*id_format, asked, text_of(namespace), text_of(name), id@)
                    && text@ == prefix@ + id@ + suffix@);
                ids.push(text);
            },
            Err(e) => {
                return Batch { ids, error: Some(e) };
            },
        }
        done += 1;
    }
    Batch { ids, error: None }
}

/// Generates `count` identifiers for one request, each between the prefix
/// and the suffix, or fails with the first error.
///
/// A NanoID without a length gets the default length. A request that lacks
/// something fails as soon as one identifier is asked for; a request that
/// lacks nothing yields all `count` identifiers, unless the source of a
/// CUID of version 1 fails.
pub fn generate_ids(
    id_format: &IDFormat,
    len: Option<usize>,
    count: u32,
    prefix: &str,
    suffix: &str,
    namespace: Option<&str>,
    name: Option<&str>,
) -> (r: Result<Vec<String>, IDError>)
    requires
        is_supported(*id_format, effective_len(len)),
    ensures
        match r {
            Ok(ids) => {
                &&& ids@.len() == count
                &&& count > 0 ==> batch_fault(*id_format, len, text_of(namespace), text_of(name))
                    is None
                &&& all_decorated(
                    *id_format,
                    len,
                    text_of(namespace),
                    text_of(name),
                    prefix@,
                    suffix@,
                    ids@,
                )
            },
            Err(e) => {
                &&& count > 0
                &&& match batch_fault(*id_format, len, text_of(namespace), text_of(name)) {
                    Some(fault) => e.reports(fault),
                    None => *id_format matches IDFormat::Cuid(CuidVersion::V1) && e is CuidError,
                }
            },
        },
{
    let batch = generate_batch(id_format, len, count, prefix, suffix, namespace, name);
    match batch.error {
        Some(e) => Err(e),
        None => Ok(batch.ids),
    }
}

/// `true` or `false`.
pub open spec fn bool_text(b: bool) -> Seq<char> {
    if b {
        "true"@
    } else {
        "false"@
    }
}

/// The lines that report an inspection as text: the string, whether it is
/// valid and its type, then the version, the variant and the time, each
/// only where the result has one.
pub open spec fn report_lines(id: Seq<char>, result: InspectionView) -> Seq<Seq<char>> {
    seq!["ID: "@ + id, "Valid: "@ + bool_text(result.valid), "Type: "@ + result.id_type]
        + labelled("Version: "@, result.version) + labelled("Variant: "@, result.variant)
        + labelled("Timestamp: "@, result.timestamp)
}

/// One line of a label and a value, or no line where there is no value.
pub open spec fn labelled(label: Seq<char>, value: Option<Seq<char>>) -> Seq<Seq<char>> {
    match value {
        Some(v) => seq![label + v],
        None => seq![],
    }
}

/// The texts of a list of lines.
pub open spec fn lines_text(lines: Vec<String>) -> Seq<Seq<char>> {
    Seq::new(lines@.len(), |i: int| lines@[i]@)
}

/// A label followed by a value.
fn labelled_line(label: &str, value: &str) -> (r: String)
    ensures
        r@ == label@ + value@,
{
    let mut line = String::from_str(label);
    line.append(value);
    line
}

/// The report of an inspection as lines of text.
pub fn inspection_report(id: &str, result: &InspectionResult) -> (lines: Vec<String>)
    ensures
        lines_text(lines) == report_lines(id@, result@),
{
    let mut lines: Vec<String> = Vec::new();
    lines.push(labelled_line("ID: ", id));
    if result.valid {
        lines.push(labelled_line("Valid: ", "true"));
    } else {
        lines.push(labelled_line("Valid: ", "false"));
    }
    lines.push(labelled_line("Type: ", result.id_type.as_str()));
    assert(lines_text(lines) =~= seq![
        "ID: "@ + id@,
        "Valid: "@ + bool_text(result.valid),
        "Type: "@ + result.id_type@,
    ]);
    let ghost head = lines_text(lines);
    if let Some(v) = &result.version {
        lines.push(labelled_line("Version: ", v.as_str()));
    }
    assert(lines_text(lines) =~= head + labelled("Version: "@, result@.version));
    let ghost head = lines_text(lines);
    if let Some(v) = &result.variant {
        lines.push(labelled_line("Variant: ", v.as_str()));
    }
    assert(lines_text(lines) =~= head + labelled("Variant: "@, result@.variant));
    let ghost head = lines_text(lines);
    if let Some(v) = &result.timestamp {
        lines.push(labelled_line("Timestamp: ", v.as_str()));
    }
    assert(lines_text(lines) =~= head + labelled("Timestamp: "@, result@.timestamp));
    lines
}

/// The exit code after a failed generation: a usage error for a request
/// that lacked something, a runtime error for a source that failed.
pub fn exit_code_for_error(error: &IDError) -> (code: i32)
    ensures
        code == if error.is_usage() {
            USAGE_ERROR
        } else {
            ERROR
        },
{
    if error.is_usage_error() {
        USAGE_ERROR
    } else {
        ERROR
    }
}

/// The exit code after an inspection: success for a recognized string, a
/// runtime error for an unknown one.
pub fn exit_code_for_inspection(result: &InspectionResult) -> (code: i32)
    ensures
        code == if result.valid {
            SUCCESS
        } else {
            ERROR
        },
{
    if result.valid {
        SUCCESS
    } else {
        ERROR
    }
}

} // verus!
