use idgen::args::{Action, Options};
use idgen::id::{CuidVersion, IDFormat, UuidVersion};

fn parse(args: &[&str]) -> Options {
    let mut full: Vec<String> = vec!["program".to_string()];
    full.extend(args.iter().map(|s| s.to_string()));
    Options::parse(&full)
}

#[test]
fn no_arguments_give_the_defaults() {
    for options in [parse(&[]), Options::parse(&Vec::new()), Options::new()] {
        assert!(matches!(options.format, IDFormat::Hyphenated(UuidVersion::V4)));
        assert!(matches!(options.version, UuidVersion::V4));
        assert_eq!(options.count, 1);
        assert!(!options.help);
        assert!(!options.show_version);
        assert_eq!(options.len, None);
        assert_eq!(options.prefix, "");
        assert_eq!(options.suffix, "");
        assert_eq!(options.namespace, None);
        assert_eq!(options.name, None);
        assert!(!options.show_banner);
        assert!(!options.json_output);
        assert_eq!(options.inspect_target, None);
        assert_eq!(options.action(), Action::Generate);
    }
}

#[test]
fn format_flags() {
    assert!(matches!(parse(&["-s"]).format, IDFormat::Simple(UuidVersion::V4)));
    assert!(matches!(parse(&["--simple"]).format, IDFormat::Simple(UuidVersion::V4)));
    assert!(matches!(parse(&["-u"]).format, IDFormat::URN(UuidVersion::V4)));
    assert!(matches!(parse(&["--urn"]).format, IDFormat::URN(UuidVersion::V4)));
    assert!(matches!(parse(&["-o"]).format, IDFormat::OID));
    assert!(matches!(parse(&["--objectid"]).format, IDFormat::OID));
    assert!(matches!(parse(&["-n"]).format, IDFormat::NanoID));
    assert!(matches!(parse(&["--nano"]).format, IDFormat::NanoID));
    assert!(matches!(parse(&["-c1"]).format, IDFormat::Cuid(CuidVersion::V1)));
    assert!(matches!(parse(&["--cuid1"]).format, IDFormat::Cuid(CuidVersion::V1)));
    assert!(matches!(parse(&["-c2"]).format, IDFormat::Cuid(CuidVersion::V2)));
    assert!(matches!(parse(&["--cuid2"]).format, IDFormat::Cuid(CuidVersion::V2)));
    assert!(matches!(parse(&["-l"]).format, IDFormat::Ulid));
    assert!(matches!(parse(&["--ulid"]).format, IDFormat::Ulid));
    // the last format flag counts
    assert!(matches!(parse(&["-o", "-l", "-s"]).format, IDFormat::Simple(_)));
}

#[test]
fn version_flags_keep_the_rendering() {
    assert!(matches!(parse(&["-u1"]).format, IDFormat::Hyphenated(UuidVersion::V1)));
    assert!(matches!(parse(&["--uuid3"]).format, IDFormat::Hyphenated(UuidVersion::V3)));
    assert!(matches!(parse(&["-s", "-u5"]).format, IDFormat::Simple(UuidVersion::V5)));
    assert!(matches!(parse(&["-u", "--uuid1"]).format, IDFormat::URN(UuidVersion::V1)));
    assert!(matches!(parse(&["-u3", "-u4"]).format, IDFormat::Hyphenated(UuidVersion::V4)));
    // a version before the rendering is carried into it
    assert!(matches!(parse(&["-u3", "-s"]).format, IDFormat::Simple(UuidVersion::V3)));
    // other formats are left alone, but the version is kept
    let options = parse(&["-o", "-u5"]);
    assert!(matches!(options.format, IDFormat::OID));
    assert!(matches!(options.version, UuidVersion::V5));
}

#[test]
fn count_values() {
    assert_eq!(parse(&["--count", "5"]).count, 5);
    assert_eq!(parse(&["-c", "12"]).count, 12);
    assert_eq!(parse(&["-c", "abc"]).count, 1);
    assert_eq!(parse(&["-c", "-5"]).count, -5);
    assert_eq!(parse(&["-c", "0"]).count, 0);
    assert_eq!(parse(&["-c", "1000000"]).count, 1_000_000);
    assert_eq!(parse(&["-c", "99999999999"]).count, 1);
    assert_eq!(parse(&["-c"]).count, 1);
}

#[test]
fn nanoid_lengths() {
    let options = parse(&["--nano", "10"]);
    assert!(matches!(options.format, IDFormat::NanoID));
    assert_eq!(options.len, Some(10));
    assert_eq!(parse(&["-n", "0"]).len, Some(0));
    assert_eq!(parse(&["-n", "abc"]).len, None);
    assert_eq!(parse(&["-n", "-3"]).len, None);
    assert_eq!(parse(&["-n"]).len, None);
    // the argument after the flag is read as a length and as a flag
    let both = parse(&["-n", "-s"]);
    assert_eq!(both.len, None);
    assert!(matches!(both.format, IDFormat::Simple(_)));
}

#[test]
fn decorations_and_names() {
    assert_eq!(parse(&["--prefix", "test-"]).prefix, "test-");
    assert_eq!(parse(&["-p", "with space"]).prefix, "with space");
    assert_eq!(parse(&["-p", ""]).prefix, "");
    assert_eq!(parse(&["--suffix", ".log"]).suffix, ".log");
    assert_eq!(parse(&["-f", "!@#"]).suffix, "!@#");
    let options = parse(&["--uuid3", "--namespace", "DNS", "--name", "example.com"]);
    assert!(matches!(options.format, IDFormat::Hyphenated(UuidVersion::V3)));
    assert_eq!(options.namespace, Some("DNS".to_string()));
    assert_eq!(options.name, Some("example.com".to_string()));
}

#[test]
fn a_value_that_spells_a_flag_is_both() {
    let options = parse(&["-p", "-h"]);
    assert_eq!(options.prefix, "-h");
    assert!(options.help);
}

#[test]
fn banner_and_json() {
    assert!(parse(&["-b"]).show_banner);
    assert!(parse(&["--banner"]).show_banner);
    let options = parse(&["-b", "--json"]);
    assert!(options.json_output);
    assert!(!options.show_banner);
    assert!(!options.shows_banner());
    let options = parse(&["--json", "-b"]);
    assert!(options.json_output);
    assert!(options.show_banner);
    assert!(options.shows_banner());
}

#[test]
fn actions_in_order() {
    assert_eq!(parse(&["-h"]).action(), Action::Help);
    assert_eq!(parse(&["--help", "-v"]).action(), Action::Help);
    assert_eq!(parse(&["-v"]).action(), Action::Version);
    assert_eq!(parse(&["--version", "-c", "0"]).action(), Action::Version);
    assert_eq!(parse(&["-c", "0"]).action(), Action::RefuseCount);
    assert_eq!(parse(&["-c", "-1"]).action(), Action::RefuseCount);
    assert_eq!(parse(&["-c", "1"]).action(), Action::Generate);
    let inspect = parse(&["-h", "-b", "--inspect", "550e8400-e29b-44d4-a716-446655440000"]);
    assert_eq!(inspect.action(), Action::Inspect);
    assert_eq!(
        inspect.inspect_target,
        Some("550e8400-e29b-44d4-a716-446655440000".to_string())
    );
    assert!(!inspect.shows_banner());
}

#[test]
fn single_steps() {
    let options = Options::new().read_flag("--uuid5").read_flag("-s");
    assert!(matches!(options.format, IDFormat::Simple(UuidVersion::V5)));
    let options = Options::new().read_value("--count", "7").read_value("-n", "3");
    assert_eq!(options.count, 7);
    assert_eq!(options.len, Some(3));
    let options = Options::new().read_value("--unknown", "7").read_flag("7");
    assert_eq!(options.count, 1);
}

#[test]
fn parsed_numbers_are_taken_or_defaulted() {
    assert_eq!(Options::new().with_count(Some(9)).count, 9);
    assert_eq!(Options::new().with_count(Some(-2)).count, -2);
    assert_eq!(Options::new().with_count(Some(9)).with_count(None).count, 1);
    assert_eq!(Options::new().with_len(Some(4)).len, Some(4));
    assert_eq!(Options::new().with_len(Some(4)).with_len(None).len, None);
}
