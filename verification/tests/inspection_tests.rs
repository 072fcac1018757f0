use idgen::id::{new_id, CuidVersion, IDFormat, UuidVersion};
use idgen::inspector::{
    has_len_and_alphabet, hex_prefix_seconds, inspect_id, inspect_parsed, inspect_shape,
    inspect_ulid, inspect_uuid, looks_like_cuid1, Alphabet, InspectionResult,
};

fn text(s: &str) -> Option<String> {
    Some(s.to_string())
}

#[test]
fn objectid_timestamp_is_decoded() {
    let result = inspect_id("507f1f77bcf86cd799439011");
    assert_eq!(result.id_type, "ObjectId");
    assert_eq!(result.timestamp, text("2012-10-17T21:13:27+00:00"));
    assert_eq!(result.version, None);
    assert_eq!(result.variant, None);
}

#[test]
fn objectid_timestamp_ignores_case() {
    let result = inspect_id("507F1F77BCF86CD799439011");
    assert_eq!(result.timestamp, text("2012-10-17T21:13:27+00:00"));
    let zero = inspect_id("00000000aaaaaaaaaaaaaaaa");
    assert_eq!(zero.timestamp, text("1970-01-01T00:00:00+00:00"));
    let last = inspect_id("ffffffffaaaaaaaaaaaaaaaa");
    assert_eq!(last.timestamp, text("2106-02-07T06:28:15+00:00"));
}

#[test]
fn hex_prefix_is_read_most_significant_first() {
    assert_eq!(hex_prefix_seconds("507f1f77bcf86cd799439011"), 0x507f1f77);
    assert_eq!(hex_prefix_seconds("0000000f"), 15);
    assert_eq!(hex_prefix_seconds("10000000"), 0x1000_0000);
    assert_eq!(hex_prefix_seconds("AbCdEf09"), 0xabcdef09);
    assert_eq!(hex_prefix_seconds("ffffffff"), u32::MAX);
}

#[test]
fn ulid_timestamp_is_decoded() {
    let result = inspect_id("01ARZ3NDEKTSV4RRFFQ69G5FAV");
    assert_eq!(result.id_type, "ULID");
    assert_eq!(result.timestamp, text("2016-07-30T23:54:10.259+00:00"));
    assert_eq!(result.version, None);
    assert_eq!(result.variant, None);
}

#[test]
fn inspect_ulid_reads_the_leading_48_bits() {
    let value: u128 = 0x0156_3e3a_b5d3_d676_4c61_efb9_9302_bd5b;
    assert_eq!(inspect_ulid(value).timestamp, text("2016-07-30T23:54:10.259+00:00"));
    assert_eq!(inspect_ulid(0).timestamp, text("1970-01-01T00:00:00+00:00"));
    assert_eq!(inspect_ulid(1u128 << 80).timestamp, text("1970-01-01T00:00:00.001+00:00"));
    assert_eq!(inspect_ulid(1000u128 << 80).timestamp, text("1970-01-01T00:00:01+00:00"));
    assert_eq!(inspect_ulid((1u128 << 80) - 1).timestamp, text("1970-01-01T00:00:00+00:00"));
}

#[test]
fn uuid_v1_timestamp_is_decoded() {
    let result = inspect_id("f47ac10b-58cc-11e4-8b58-0800200c9a66");
    assert_eq!(result.version, text("Mac"));
    assert_eq!(result.variant, text("RFC4122"));
    assert_eq!(result.timestamp, text("2014-10-21T02:50:02.621569100+00:00"));
    let other = inspect_id("20616934-4ba2-11e7-8000-010203040506");
    assert_eq!(other.timestamp, text("2017-06-07T16:55:35.812946+00:00"));
}

#[test]
fn only_version_1_uuids_have_a_timestamp() {
    assert_eq!(inspect_id("550e8400-e29b-44d4-a716-446655440000").timestamp, None);
    assert_eq!(inspect_id("04738bdf-b25a-3829-a801-b21a1d25095b").timestamp, None);
    assert_eq!(inspect_id("aad03681-8b63-5304-89e0-8ca8f49461b5").timestamp, None);
}

#[test]
fn uuid_version_names() {
    let cases = [
        ("00000000-0000-0000-0000-000000000000", Some("Nil")),
        ("00000000-0000-0000-0000-000000000001", None),
        ("f47ac10b-58cc-11e4-8b58-0800200c9a66", Some("Mac")),
        ("f47ac10b-58cc-21e4-8b58-0800200c9a66", Some("Dce")),
        ("04738bdf-b25a-3829-a801-b21a1d25095b", Some("Md5")),
        ("550e8400-e29b-44d4-a716-446655440000", Some("Random")),
        ("aad03681-8b63-5304-89e0-8ca8f49461b5", Some("Sha1")),
        ("1ec9414c-232a-6b00-b3c8-9e6bdeced846", Some("SortMac")),
        ("017f22e2-79b0-7cc3-98c4-dc0c0c07398f", Some("SortRand")),
        ("320c3d4d-cc00-875b-8ec9-32d5f69181c0", Some("Custom")),
        ("320c3d4d-cc00-975b-8ec9-32d5f69181c0", None),
        ("ffffffff-ffff-ffff-ffff-ffffffffffff", Some("Max")),
        ("ffffffff-ffff-ffff-ffff-fffffffffffe", None),
    ];
    for (id, version) in cases {
        let result = inspect_id(id);
        assert!(result.valid);
        assert_eq!(result.id_type, "UUID");
        assert_eq!(result.version, version.map(|v| v.to_string()), "{}", id);
    }
}

#[test]
fn uuid_variant_names() {
    let cases = [
        ("550e8400-e29b-44d4-0716-446655440000", "NCS"),
        ("550e8400-e29b-44d4-7f16-446655440000", "NCS"),
        ("550e8400-e29b-44d4-8016-446655440000", "RFC4122"),
        ("550e8400-e29b-44d4-bf16-446655440000", "RFC4122"),
        ("550e8400-e29b-44d4-c016-446655440000", "Microsoft"),
        ("550e8400-e29b-44d4-df16-446655440000", "Microsoft"),
        ("550e8400-e29b-44d4-e016-446655440000", "Future"),
        ("550e8400-e29b-44d4-ff16-446655440000", "Future"),
    ];
    for (id, variant) in cases {
        assert_eq!(inspect_id(id).variant, text(variant), "{}", id);
    }
}

#[test]
fn inspect_uuid_reads_the_bytes() {
    let mut bytes = [0u8; 16];
    bytes[6] = 0x40;
    bytes[8] = 0x80;
    let result = inspect_uuid(&bytes);
    assert!(result.valid);
    assert_eq!(result.id_type, "UUID");
    assert_eq!(result.version, text("Random"));
    assert_eq!(result.variant, text("RFC4122"));
    assert_eq!(result.timestamp, None);
    bytes[6] = 0x10;
    let timed = inspect_uuid(&bytes);
    assert_eq!(timed.version, text("Mac"));
    assert!(timed.timestamp.is_some());
}

#[test]
fn braced_uuid_is_a_uuid() {
    let result = inspect_id("{550e8400-e29b-44d4-a716-446655440000}");
    assert!(result.valid);
    assert_eq!(result.id_type, "UUID");
    assert_eq!(result.version, text("Random"));
}

#[test]
fn parsed_uuid_wins_over_everything() {
    let mut bytes = [0u8; 16];
    bytes[6] = 0x50;
    let result = inspect_parsed("507f1f77bcf86cd799439011", Some(bytes), Some(7));
    assert_eq!(result.id_type, "UUID");
    assert_eq!(result.version, text("Sha1"));
    assert_eq!(result.variant, text("NCS"));
}

#[test]
fn parsed_ulid_wins_over_shapes() {
    let result = inspect_parsed("507f1f77bcf86cd799439011", None, Some(0));
    assert_eq!(result.id_type, "ULID");
    let shape = inspect_parsed("507f1f77bcf86cd799439011", None, None);
    assert_eq!(shape.id_type, "ObjectId");
}

#[test]
fn hex_of_24_is_objectid_not_cuid2() {
    let result = inspect_id("abcdef0123456789abcdef01");
    assert_eq!(result.id_type, "ObjectId");
    assert_eq!(result.version, None);
    let shape = inspect_shape("abcdef0123456789abcdef01");
    assert_eq!(shape.id_type, "ObjectId");
}

#[test]
fn one_letter_beyond_hex_makes_a_cuid2() {
    let result = inspect_id("abcdef0123456789abcdef0g");
    assert_eq!(result.id_type, "CUID");
    assert_eq!(result.version, text("v2"));
    assert_eq!(result.timestamp, None);
    assert_eq!(result.variant, None);
}

#[test]
fn cuid_shapes_are_case_sensitive() {
    assert_eq!(inspect_id("ABCDEFGHIJ0123456789ABCG").id_type, "Unknown");
    assert_eq!(inspect_id("Clh3am2f10000qwer1234abcde!").id_type, "Unknown");
    assert_eq!(inspect_id("clh3am2f10000qwer1234abcde!").id_type, "CUID");
}

#[test]
fn cuid1_needs_25_bytes() {
    assert!(looks_like_cuid1("c234567890123456789012345"));
    assert!(!looks_like_cuid1("c23456789012345678901234"));
    assert!(!looks_like_cuid1("d234567890123456789012345"));
    assert!(!looks_like_cuid1(""));
    // 13 characters, 25 bytes
    assert!(looks_like_cuid1("c\u{e9}\u{e9}\u{e9}\u{e9}\u{e9}\u{e9}\u{e9}\u{e9}\u{e9}\u{e9}\u{e9}\u{e9}"));
    let result = inspect_shape("c!!!!!!!!!!!!!!!!!!!!!!!!!!!!!");
    assert_eq!(result.id_type, "CUID");
    assert_eq!(result.version, text("v1"));
}

#[test]
fn cuid1_shape_wins_over_cuid2_and_nanoid_lengths() {
    // 24 characters beginning with c: too short for version 1
    let v2 = inspect_shape("cbcdefghij0123456789abcz");
    assert_eq!(v2.version, text("v2"));
    // 21 characters beginning with c: a NanoID
    assert_eq!(inspect_shape("c23456789012345678901").id_type, "NanoID");
}

#[test]
fn nanoid_shape_is_21_url_safe_characters() {
    assert_eq!(inspect_id("ABCDEFGHIJKLMNOPQRSTU").id_type, "NanoID");
    assert_eq!(inspect_id("ABCDEFGHIJKLMNOPQRST").id_type, "Unknown");
    assert_eq!(inspect_id("ABCDEFGHIJKLMNOPQRSTUV").id_type, "Unknown");
    assert_eq!(inspect_id("ABCDEFGHIJKLMNOPQRST!").id_type, "Unknown");
    assert_eq!(inspect_id("ABCDEFGHIJKLMNOPQRST ").id_type, "Unknown");
    let result = inspect_id("V1StGXR8_Z5jdHi6B-myT");
    assert!(result.valid);
    assert_eq!(result.version, None);
    assert_eq!(result.timestamp, None);
    assert_eq!(result.variant, None);
}

#[test]
fn alphabets() {
    assert!(has_len_and_alphabet("0123456789abcdefABCDEF", 22, Alphabet::Hex));
    assert!(!has_len_and_alphabet("0123456789abcdefABCDEG", 22, Alphabet::Hex));
    assert!(!has_len_and_alphabet("0123456789abcdefABCDEF", 21, Alphabet::Hex));
    assert!(has_len_and_alphabet("az09", 4, Alphabet::LowerAlnum));
    assert!(!has_len_and_alphabet("aZ09", 4, Alphabet::LowerAlnum));
    assert!(has_len_and_alphabet("aZ09_-", 6, Alphabet::UrlSafe));
    assert!(!has_len_and_alphabet("aZ09_-.", 7, Alphabet::UrlSafe));
    assert!(has_len_and_alphabet("", 0, Alphabet::Hex));
    // counted in characters, not bytes
    assert!(!has_len_and_alphabet("\u{e9}\u{e9}", 4, Alphabet::UrlSafe));
    assert!(Alphabet::Hex.contains('F'));
    assert!(!Alphabet::LowerAlnum.contains('F'));
    assert!(Alphabet::UrlSafe.contains('_'));
}

#[test]
fn unknown_results_are_not_valid_and_bare() {
    for id in ["", "   ", "not-a-valid-id", "\u{e9}", "0123456789abcdef0123456", "urn:uuid:"] {
        let result = inspect_id(id);
        assert!(!result.valid, "{:?}", id);
        assert_eq!(result.id_type, "Unknown");
        assert_eq!(result.version, None);
        assert_eq!(result.timestamp, None);
        assert_eq!(result.variant, None);
    }
}

#[test]
fn validity_goes_with_a_known_type() {
    let ids = [
        "550e8400-e29b-44d4-a716-446655440000",
        "01ARZ3NDEKTSV4RRFFQ69G5FAV",
        "507f1f77bcf86cd799439011",
        "clh3am2f10000qwer1234abcde",
        "abcdefghij0123456789abcd",
        "V1StGXR8_Z5jdHi6B-myT",
        "nothing",
        "",
    ];
    for id in ids {
        let result = inspect_id(id);
        assert_eq!(result.valid, result.id_type != "Unknown", "{:?}", id);
    }
}

#[test]
fn result_builders() {
    let r = InspectionResult::uuid(text("Random"), "RFC4122".to_string(), None);
    assert!(r.valid);
    assert_eq!(r.id_type, "UUID");
    assert_eq!(r.version, text("Random"));
    assert_eq!(r.variant, text("RFC4122"));
    assert_eq!(r.timestamp, None);
    let r = InspectionResult::ulid(text("t"));
    assert_eq!((r.valid, r.id_type.as_str(), r.timestamp), (true, "ULID", text("t")));
    let r = InspectionResult::object_id(None);
    assert_eq!((r.valid, r.id_type.as_str(), r.timestamp), (true, "ObjectId", None));
    let r = InspectionResult::cuid("v1");
    assert_eq!((r.valid, r.id_type.as_str(), r.version), (true, "CUID", text("v1")));
    let r = InspectionResult::nanoid();
    assert_eq!((r.valid, r.id_type.as_str(), r.version), (true, "NanoID", None));
    let r = InspectionResult::unknown();
    assert_eq!((r.valid, r.id_type.as_str(), r.variant), (false, "Unknown", None));
}

#[test]
fn generated_uuids_are_recognized() {
    let cases = [
        (IDFormat::Hyphenated(UuidVersion::V4), "Random"),
        (IDFormat::Simple(UuidVersion::V4), "Random"),
        (IDFormat::URN(UuidVersion::V4), "Random"),
        (IDFormat::Hyphenated(UuidVersion::V1), "Mac"),
        (IDFormat::Simple(UuidVersion::V3), "Md5"),
        (IDFormat::URN(UuidVersion::V5), "Sha1"),
    ];
    for (format, version) in cases {
        let id = new_id(
            &format,
            None,
            Some("6ba7b810-9dad-11d1-80b4-00c04fd430c8"),
            Some("example.com"),
        )
        .unwrap();
        let result = inspect_id(&id);
        assert!(result.valid);
        assert_eq!(result.id_type, "UUID");
        assert_eq!(result.version, text(version));
        assert_eq!(result.variant, text("RFC4122"));
        assert_eq!(result.timestamp.is_some(), version == "Mac");
    }
}

#[test]
fn generated_ulid_is_recognized() {
    let id = new_id(&IDFormat::Ulid, None, None, None).unwrap();
    let result = inspect_id(&id);
    assert!(result.valid);
    assert_eq!(result.id_type, "ULID");
    let timestamp = result.timestamp.unwrap();
    assert!(timestamp.starts_with("20"));
    assert!(timestamp.ends_with("+00:00"));
}

#[test]
fn generated_objectid_is_recognized() {
    let id = new_id(&IDFormat::OID, None, None, None).unwrap();
    let result = inspect_id(&id);
    assert!(result.valid);
    assert_eq!(result.id_type, "ObjectId");
    assert!(result.timestamp.unwrap().ends_with("+00:00"));
}

#[test]
fn generated_cuids_are_recognized() {
    let v1 = new_id(&IDFormat::Cuid(CuidVersion::V1), None, None, None).unwrap();
    let result = inspect_id(&v1);
    assert_eq!(result.id_type, "CUID");
    assert_eq!(result.version, text("v1"));
    let v2 = new_id(&IDFormat::Cuid(CuidVersion::V2), None, None, None).unwrap();
    assert!(inspect_id(&v2).valid);
}

#[test]
fn times_are_present_where_an_identifier_carries_one() {
    // the last second that a version 1 UUID can hold, and the first
    let mut bytes = [0xffu8; 16];
    bytes[6] = 0x1f;
    assert!(inspect_uuid(&bytes).timestamp.is_some());
    let mut bytes = [0u8; 16];
    bytes[6] = 0x10;
    assert!(inspect_uuid(&bytes).timestamp.is_some());
    // the largest ULID
    assert_eq!(inspect_ulid(u128::MAX).timestamp, text("+10889-08-02T05:31:50.655+00:00"));
    assert!(inspect_shape("ffffffffffffffffffffffff").timestamp.is_some());
    assert!(inspect_shape("000000000000000000000000").timestamp.is_some());
    // and absent everywhere else
    assert!(inspect_shape("clh3am2f10000qwer1234abcde").timestamp.is_none());
    assert!(inspect_shape("abcdefghij0123456789abcd").timestamp.is_none());
    assert!(inspect_shape("V1StGXR8_Z5jdHi6B-myT").timestamp.is_none());
    assert!(inspect_shape("").timestamp.is_none());
    bytes[6] = 0x60;
    assert!(inspect_uuid(&bytes).timestamp.is_none());
}
