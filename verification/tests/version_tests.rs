use rseed::version::{bit_range_mask, Version};

#[test]
fn packs_fields_at_their_offsets() {
    let v = Version { major: 1, minor: 2, patch: 3 };
    assert_eq!(v.packed(), (1u32 << 22) | (2 << 12) | 3);
    assert_eq!(v.packed(), 4202499);
}

#[test]
fn packs_boundary_fields() {
    let v = Version { major: 1023, minor: 1023, patch: 4095 };
    assert_eq!(v.packed(), u32::MAX);
    let zero = Version { major: 0, minor: 0, patch: 0 };
    assert_eq!(zero.packed(), 0);
}

#[test]
fn packing_masks_oversized_fields() {
    let v = Version { major: 1029, minor: 0, patch: 0 };
    assert_eq!(v.packed(), 5u32 << 22);
    let w = Version { major: 0, minor: 0, patch: 4096 };
    assert_eq!(w.packed(), 0);
}

#[test]
fn reads_a_triple() {
    let v = Version::from((4u32, 5u32, 6u32));
    assert_eq!(v, Version { major: 4, minor: 5, patch: 6 });
}

#[test]
fn unpacks_what_was_packed() {
    let v = Version { major: 1, minor: 2, patch: 3 };
    let back = Version::from(v.packed());
    assert_eq!(back, v);
    let edge = Version { major: 1023, minor: 1023, patch: 4095 };
    assert_eq!(Version::from(edge.packed()), edge);
}

#[test]
fn bit_range_mask_builds_the_field_masks() {
    assert_eq!(bit_range_mask(22, 31), 0xffc0_0000);
    assert_eq!(bit_range_mask(12, 21), 0x003f_f000);
    assert_eq!(bit_range_mask(0, 11), 0x0000_0fff);
    assert_eq!(bit_range_mask(0, 0), 1);
    assert_eq!(bit_range_mask(0, 31), u32::MAX);
}

#[test]
fn renders_the_dotted_form() {
    let v = Version { major: 1, minor: 2, patch: 3 };
    assert_eq!(v.to_string(), "1.2.3");
    let zero = Version { major: 0, minor: 0, patch: 0 };
    assert_eq!(zero.to_string(), "0.0.0");
    let big = Version { major: 4294967295, minor: 10, patch: 200 };
    assert_eq!(big.to_string(), "4294967295.10.200");
}

#[test]
fn parses_the_dotted_form() {
    assert_eq!(
        Version::from_string("1.2.3"),
        Some(Version { major: 1, minor: 2, patch: 3 })
    );
    assert_eq!(
        Version::from_string("0.0.0"),
        Some(Version { major: 0, minor: 0, patch: 0 })
    );
}

#[test]
fn missing_segments_read_as_zero() {
    assert_eq!(
        Version::from_string("7"),
        Some(Version { major: 7, minor: 0, patch: 0 })
    );
    assert_eq!(
        Version::from_string("7.4"),
        Some(Version { major: 7, minor: 4, patch: 0 })
    );
}

#[test]
fn segments_beyond_the_third_are_ignored() {
    assert_eq!(
        Version::from_string("1.2.3.4"),
        Some(Version { major: 1, minor: 2, patch: 3 })
    );
}

#[test]
fn rejects_malformed_versions() {
    assert_eq!(Version::from_string(""), None);
    assert_eq!(Version::from_string("a.b.c"), None);
    assert_eq!(Version::from_string("1.2.x"), None);
    assert_eq!(Version::from_string("1..3"), None);
    assert_eq!(Version::from_string("4294967296"), None);
    assert_eq!(Version::from_string("-1.0.0"), None);
    assert_eq!(Version::from_string("1.2."), None);
}

#[test]
fn string_round_trip_is_identity() {
    let cases = [
        Version { major: 0, minor: 0, patch: 1 },
        Version { major: 600, minor: 600, patch: 0 },
        Version { major: 1023, minor: 1023, patch: 4095 },
        Version { major: 4294967295, minor: 4294967295, patch: 4294967295 },
    ];
    for v in cases {
        let s = v.to_string();
        let parsed = Version::from_string(&s).unwrap();
        assert_eq!(parsed, v);
        assert_eq!(parsed.to_string(), s);
    }
}

#[test]
fn packed_round_trip_is_identity_within_field_widths() {
    let cases = [
        (0u32, 0u32, 0u32),
        (1, 2, 3),
        (1023, 1023, 4095),
        (512, 0, 2048),
    ];
    for (major, minor, patch) in cases {
        let v = Version { major, minor, patch };
        assert_eq!(Version::from(v.packed()), v);
    }
}
