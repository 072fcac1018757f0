//! The flag-by-flag reading of an argument list.
//!
//! Every argument is looked at twice: as a flag of its own, and as the value
//! of the flag before it. Nothing is refused while reading; a number that
//! does not parse falls back to its default. What to do with the options is
//! decided afterwards, in a fixed order.

use vstd::prelude::*;
use vstd::string::*;
use crate::chars::same_text;
use crate::id::{CuidVersion, IDFormat, UuidVersion};
use crate::inspector::opt_text;

verus! {

/// What the arguments ask for.
#[derive(Debug, Clone)]
pub struct Options {
    pub version: UuidVersion,
    pub format: IDFormat,
    pub count: i32,
    pub help: bool,
    pub show_version: bool,
    pub len: Option<usize>,
    pub prefix: String,
    pub suffix: String,
    pub namespace: Option<String>,
    pub name: Option<String>,
    pub show_banner: bool,
    pub json_output: bool,
    pub inspect_target: Option<String>,
}

/// `Options` with its texts as sequences of characters.
pub struct OptionsView {
    pub version: UuidVersion,
    pub format: IDFormat,
    pub count: i32,
    pub help: bool,
    pub show_version: bool,
    pub len: Option<usize>,
    pub prefix: Seq<char>,
    pub suffix: Seq<char>,
    pub namespace: Option<Seq<char>>,
    pub name: Option<Seq<char>>,
    pub show_banner: bool,
    pub json_output: bool,
    pub inspect_target: Option<Seq<char>>,
}

impl View for Options {
    type V = OptionsView;

    open spec fn view(&self) -> OptionsView {
        OptionsView {
            version: self.version,
            format: self.format,
            count: self.count,
            help: self.help,
            show_version: self.show_version,
            len: self.len,
            prefix: self.prefix@,
            suffix: self.suffix@,
            namespace: opt_text(self.namespace),
            name: opt_text(self.name),
            show_banner: self.show_banner,
            json_output: self.json_output,
            inspect_target: opt_text(self.inspect_target),
        }
    }
}

/// What `str::parse::<i32>` makes of a text: the number that it spells in
/// decimal, or `None`.
pub uninterp spec fn parse_i32_of(text: Seq<char>) -> Option<i32>;

/// What `str::parse::<usize>` makes of a text: the number that it spells in
/// decimal, or `None`.
pub uninterp spec fn parse_usize_of(text: Seq<char>) -> Option<usize>;

/// `str::parse::<i32>`. The result depends on the text alone.
#[verifier::external_body]
fn parse_i32(text: &str) -> (r: Option<i32>)
    ensures
        r == parse_i32_of(text@),
{
    text.parse::<i32>().ok()
}

/// `str::parse::<usize>`. The result depends on the text alone.
#[verifier::external_body]
fn parse_usize(text: &str) -> (r: Option<usize>)
    ensures
        r == parse_usize_of(text@),
{
    text.parse::<usize>().ok()
}

/// The options before any argument is read: one hyphenated UUID of version
/// 4, undecorated, as plain text.
pub open spec fn initial_options() -> OptionsView {
    OptionsView {
        version: UuidVersion::V4,
        format: IDFormat::Hyphenated(UuidVersion::V4),
        count: 1,
        help: false,
        show_version: false,
        len: None,
        prefix: Seq::empty(),
        suffix: Seq::empty(),
        namespace: None,
        name: None,
        show_banner: false,
        json_output: false,
        inspect_target: None,
    }
}

/// The format with another UUID version: a UUID format keeps its rendering,
/// any other format stays as it is.
pub open spec fn with_version(format: IDFormat, version: UuidVersion) -> IDFormat {
    match format {
        IDFormat::Simple(_) => IDFormat::Simple(version),
        IDFormat::Hyphenated(_) => IDFormat::Hyphenated(version),
        IDFormat::URN(_) => IDFormat::URN(version),
        other => other,
    }
}

/// The options after an argument is read as a flag. The first flag in this
/// list that the argument spells counts; one that spells none changes
/// nothing.
pub open spec fn after_flag(o: OptionsView, arg: Seq<char>) -> OptionsView {
    if arg == "-h"@ || arg == "--help"@ {
        OptionsView { help: true, ..o }
    } else if arg == "-v"@ || arg == "--version"@ {
        OptionsView { show_version: true, ..o }
    } else if arg == "--json"@ {
        OptionsView { json_output: true, show_banner: false, ..o }
    } else if arg == "-s"@ || arg == "--simple"@ {
        OptionsView { format: IDFormat::Simple(o.version), ..o }
    } else if arg == "-u"@ || arg == "--urn"@ {
        OptionsView { format: IDFormat::URN(o.version), ..o }
    } else if arg == "-o"@ || arg == "--objectid"@ {
        OptionsView { format: IDFormat::OID, ..o }
    } else if arg == "-n"@ || arg == "--nano"@ {
        OptionsView { format: IDFormat::NanoID, ..o }
    } else if arg == "-c1"@ || arg == "--cuid1"@ {
        OptionsView { format: IDFormat::Cuid(CuidVersion::V1), ..o }
    } else if arg == "-c2"@ || arg == "--cuid2"@ {
        OptionsView { format: IDFormat::Cuid(CuidVersion::V2), ..o }
    } else if arg == "-l"@ || arg == "--ulid"@ {
        OptionsView { format: IDFormat::Ulid, ..o }
    } else if arg == "-b"@ || arg == "--banner"@ {
        OptionsView { show_banner: true, ..o }
    } else if arg == "-u1"@ || arg == "--uuid1"@ {
        OptionsView {
            version: UuidVersion::V1,
            format: with_version(o.format, UuidVersion::V1),
            ..o
        }
    } else if arg == "-u3"@ || arg == "--uuid3"@ {
        OptionsView {
            version: UuidVersion::V3,
            format: with_version(o.format, UuidVersion::V3),
            ..o
        }
    } else if arg == "-u4"@ || arg == "--uuid4"@ {
        OptionsView {
            version: UuidVersion::V4,
            format: with_version(o.format, UuidVersion::V4),
            ..o
        }
    } else if arg == "-u5"@ || arg == "--uuid5"@ {
        OptionsView {
            version: UuidVersion::V5,
            format: with_version(o.format, UuidVersion::V5),
            ..o
        }
    } else {
        o
    }
}

/// The count that was parsed, or 1.
pub open spec fn count_or_one(parsed: Option<i32>) -> i32 {
    match parsed {
        Some(n) => n,
        None => 1,
    }
}

/// The options after an argument is read as the value of the argument
/// before it. A count that is no number is 1; a length that is no number is
/// no length.
pub open spec fn after_value(o: OptionsView, last: Seq<char>, arg: Seq<char>) -> OptionsView {
    if last == "-c"@ || last == "--count"@ {
        OptionsView { count: count_or_one(parse_i32_of(arg)), ..o }
    } else if last == "-n"@ || last == "--nano"@ {
        OptionsView { len: parse_usize_of(arg), ..o }
    } else if last == "-p"@ || last == "--prefix"@ {
        OptionsView { prefix: arg, ..o }
    } else if last == "-f"@ || last == "--suffix"@ {
        OptionsView { suffix: arg, ..o }
    } else if last == "--namespace"@ {
        OptionsView { namespace: Some(arg), ..o }
    } else if last == "--name"@ {
        OptionsView { name: Some(arg), ..o }
    } else if last == "--inspect"@ {
        OptionsView { inspect_target: Some(arg), ..o }
    } else {
        o
    }
}

/// The options after one argument: read as a flag, then as the value of the
/// argument before it.
pub open spec fn after_argument(o: OptionsView, last: Seq<char>, arg: Seq<char>) -> OptionsView {
    after_value(after_flag(o, arg), last, arg)
}

/// The argument before the `i`-th; the empty text before the first.
pub open spec fn argument_before(args: Seq<Seq<char>>, i: int) -> Seq<char> {
    if i <= 0 {
        Seq::empty()
    } else {
        args[i - 1]
    }
}

/// The options after the first `n` arguments.
pub open spec fn options_after(args: Seq<Seq<char>>, n: int) -> OptionsView
    decreases n,
{
    if n <= 0 {
        initial_options()
    } else {
        after_argument(options_after(args, n - 1), argument_before(args, n - 1), args[n - 1])
    }
}

/// The texts of an argument list.
pub open spec fn arguments_text(args: Vec<String>) -> Seq<Seq<char>> {
    Seq::new(args@.len(), |i: int| args@[i]@)
}

impl Options {
    /// The options before any argument is read.
    pub fn new() -> (r: Self)
        ensures
            r@ == initial_options(),
    {
        Options {
            version: UuidVersion::V4,
            format: IDFormat::Hyphenated(UuidVersion::V4),
            count: 1,
            help: false,
            show_version: false,
            len: None,
            prefix: String::new(),
            suffix: String::new(),
            namespace: None,
            name: None,
            show_banner: false,
            json_output: false,
            inspect_target: None,
        }
    }

    /// Sets the UUID version, and carries it into a UUID format.
    fn set_version(self, version: UuidVersion) -> (r: Self)
        ensures
            r@ == (OptionsView { version, format: with_version(self.format, version), ..self@ }),
    {
        let format = match self.format {
            IDFormat::Simple(_) => IDFormat::Simple(version),
            IDFormat::Hyphenated(_) => IDFormat::Hyphenated(version),
            IDFormat::URN(_) => IDFormat::URN(version),
            other => other,
        };
        Options { version, format, ..self }
    }

    /// Sets the count to what was parsed, or to 1 where nothing was.
    pub fn with_count(self, parsed: Option<i32>) -> (r: Self)
        ensures
            r@ == (OptionsView { count: count_or_one(parsed), ..self@ }),
    {
        let count = match parsed {
            Some(n) => n,
            None => 1,
        };
        Options { count, ..self }
    }

    /// Sets the length to what was parsed, or to none where nothing was.
    pub fn with_len(self, parsed: Option<usize>) -> (r: Self)
        ensures
            r@ == (OptionsView { len: parsed, ..self@ }),
    {
        Options { len: parsed, ..self }
    }

    /// Reads one argument as a flag.
    pub fn read_flag(self, arg: &str) -> (r: Self)
        ensures
            r@ == after_flag(self@, arg@),
    {
        if same_text(arg, "-h") || same_text(arg, "--help") {
            Options { help: true, ..self }
        } else if same_text(arg, "-v") || same_text(arg, "--version") {
            Options { show_version: true, ..self }
        } else if same_text(arg, "--json") {
            Options { json_output: true, show_banner: false, ..self }
        } else if same_text(arg, "-s") || same_text(arg, "--simple") {
            Options { format: IDFormat::Simple(self.version), ..self }
        } else if same_text(arg, "-u") || same_text(arg, "--urn") {
            Options { format: IDFormat::URN(self.version), ..self }
        } else if same_text(arg, "-o") || same_text(arg, "--objectid") {
            Options { format: IDFormat::OID, ..self }
        } else if same_text(arg, "-n") || same_text(arg, "--nano") {
            Options { format: IDFormat::NanoID, ..self }
        } else if same_text(arg, "-c1") || same_text(arg, "--cuid1") {
            Options { format: IDFormat::Cuid(CuidVersion::V1), ..self }
        } else if same_text(arg, "-c2") || same_text(arg, "--cuid2") {
            Options { format: IDFormat::Cuid(CuidVersion::V2), ..self }
        } else if same_text(arg, "-l") || same_text(arg, "--ulid") {
            Options { format: IDFormat::Ulid, ..self }
        } else if same_text(arg, "-b") || same_text(arg, "--banner") {
            Options { show_banner: true, ..self }
        } else if same_text(arg, "-u1") || same_text(arg, "--uuid1") {
            self.set_version(UuidVersion::V1)
        } else if same_text(arg, "-u3") || same_text(arg, "--uuid3") {
            self.set_version(UuidVersion::V3)
        } else if same_text(arg, "-u4") || same_text(arg, "--uuid4") {
            self.set_version(UuidVersion::V4)
        } else if same_text(arg, "-u5") || same_text(arg, "--uuid5") {
            self.set_version(UuidVersion::V5)
        } else {
            self
        }
    }

    /// Reads one argument as the value of the argument before it.
    pub fn read_value(self, last: &str, arg: &str) -> (r: Self)
        ensures
            r@ == after_value(self@, last@, arg@),
    {
        if same_text(last, "-c") || same_text(last, "--count") {
            self.with_count(parse_i32(arg))
        } else if same_text(last, "-n") || same_text(last, "--nano") {
            self.with_len(parse_usize(arg))
        } else if same_text(last, "-p") || same_text(last, "--prefix") {
            Options { prefix: String::from_str(arg), ..self }
        } else if same_text(last, "-f") || same_text(last, "--suffix") {
            Options { suffix: String::from_str(arg), ..self }
        } else if same_text(last, "--namespace") {
            Options { namespace: Some(String::from_str(arg)), ..self }
        } else if same_text(last, "--name") {
            Options { name: Some(String::from_str(arg)), ..self }
        } else if same_text(last, "--inspect") {
            Options { inspect_target: Some(String::from_str(arg)), ..self }
        } else {
            self
        }
    }

    /// Reads an argument list from its first argument, the program's name,
    /// to its last.
    pub fn parse(args: &Vec<String>) -> (r: Self)
        ensures
            r@ == options_after(arguments_text(*args), args@.len() as int),
    {
        let ghost texts = arguments_text(*args);
        let mut options = Options::new();
        let mut i: usize = 0;
        while i < args.len()
            invariant
                i <= args@.len(),
                texts == arguments_text(*args),
                options@ == options_after(texts, i as int),
            decreases args@.len() - i,
        {
            let arg = args[i].as_str();
            let after = options.read_flag(arg);
            options = if i == 0 {
                after.read_value("", arg)
            } else {
                after.read_value(args[i - 1].as_str(), arg)
            };
            proof {
                reveal_strlit("");
                assert(""@ =~= Seq::<char>::empty());
            }
            i += 1;
        }
        options
    }
}

/// What the front end does with the options.
#[derive(Debug, Clone, Copy, PartialEq, Eq)]
pub enum Action {
    /// Inspect the target and report.
    Inspect,
    /// Show the help text.
    Help,
    /// Show the program's version.
    Version,
    /// Refuse a count below 1.
    RefuseCount,
    /// Generate the identifiers.
    Generate,
}

/// What the front end does with the options: an inspection comes before
/// everything else, then the help, then the version; a count below 1 is
/// refused; otherwise identifiers are generated.
pub open spec fn action_for(o: OptionsView) -> Action {
    if o.inspect_target is Some {
        Action::Inspect
    } else if o.help {
        Action::Help
    } else if o.show_version {
        Action::Version
    } else if o.count < 1 {
        Action::RefuseCount
    } else {
        Action::Generate
    }
}

impl Options {
    /// What the front end does with these options.
    pub fn action(&self) -> (r: Action)
        ensures
            r == action_for(self@),
    {
        if self.inspect_target.is_some() {
            Action::Inspect
        } else if self.help {
            Action::Help
        } else if self.show_version {
            Action::Version
        } else if self.count < 1 {
            Action::RefuseCount
        } else {
            Action::Generate
        }
    }

    /// Whether the banner is shown: never with an inspection, and else
    /// where the options ask for it.
    pub fn shows_banner(&self) -> (r: bool)
        ensures
            r == (self@.inspect_target is None && self.show_banner),
    {
        self.inspect_target.is_none() && self.show_banner
    }
}

} // verus!
