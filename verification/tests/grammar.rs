//! The URI-style path grammar: examples, rejections and round trips.
use plex_boot::guid::Guid;
use plex_boot::path::PartitionReference;
use plex_boot::path::PathRefParseError;
use plex_boot::path::PathReference;

#[test]
fn parses_boot_example() {
    let p = PathReference::parse("boot():/vmlinuz-linux").unwrap();
    let expected = PathReference {
        location: PartitionReference::Boot,
        path: String::from("/vmlinuz-linux"),
    };
    assert!(p == expected);
}

#[test]
fn parses_boot_nested_path() {
    let p = PathReference::parse("boot():/EFI/BOOT/BOOTX64.EFI").unwrap();
    assert!(p.location == PartitionReference::Boot);
    assert_eq!(p.path, "/EFI/BOOT/BOOTX64.EFI");
}

#[test]
fn parses_guid_location() {
    let p = PathReference::parse("guid(550e8400-e29b-41d4-a716-446655440000):/vmlinuz").unwrap();
    let g = Guid::parse("550e8400-e29b-41d4-a716-446655440000").unwrap();
    assert!(p.location == PartitionReference::Guid(g));
    assert_eq!(p.path, "/vmlinuz");
}

#[test]
fn guid_reference_without_colon_is_missing_delimiter() {
    // Without a `:` after the closing parenthesis there is no resource/path
    // split, so the grammar rejects the text.
    let e = PathReference::parse("guid(550e8400-e29b-41d4-a716-446655440000)/vmlinuz").unwrap_err();
    assert!(e == PathRefParseError::MissingDelimiter);
}

#[test]
fn rejects_text_without_delimiter() {
    let e = PathReference::parse("bad").unwrap_err();
    assert!(e == PathRefParseError::MissingDelimiter);
}

#[test]
fn rejects_scheme_without_parens() {
    let e = PathReference::parse("boot:/x").unwrap_err();
    assert!(e == PathRefParseError::InvalidSyntax);
}

#[test]
fn rejects_malformed_guid() {
    let e = PathReference::parse("guid(not-a-guid):/x").unwrap_err();
    assert!(e == PathRefParseError::InvalidGuid);
}

#[test]
fn rejects_unknown_scheme() {
    let e = PathReference::parse("ftp():/x").unwrap_err();
    assert!(e == PathRefParseError::UnknownResource(String::from("ftp")));
}

#[test]
fn boot_ignores_parenthesized_content() {
    let p = PartitionReference::parse("boot(junk)").unwrap();
    assert!(p == PartitionReference::Boot);
}

#[test]
fn to_uri_of_boot_reference() {
    let p = PathReference {
        location: PartitionReference::Boot,
        path: String::from("/vmlinuz"),
    };
    assert_eq!(p.to_uri(), "boot():/vmlinuz");
}

#[test]
fn round_trips_boot_reference() {
    let x = PathReference {
        location: PartitionReference::Boot,
        path: String::from("/vmlinuz-linux"),
    };
    let y = PathReference::parse(&x.to_uri()).unwrap();
    assert!(y == x);
}

#[test]
fn round_trips_guid_reference() {
    let g = Guid::parse("550e8400-e29b-41d4-a716-446655440000").unwrap();
    let x = PathReference {
        location: PartitionReference::Guid(g),
        path: String::from("/EFI/BOOT/BOOTX64.EFI"),
    };
    let y = PathReference::parse(&x.to_uri()).unwrap();
    assert!(y == x);
}

#[test]
fn round_trips_iso_reference_with_parens_in_argument() {
    let x = PathReference {
        location: PartitionReference::Iso(String::from("/images/u(w)u.iso")),
        path: String::from("/vmlinuz"),
    };
    let y = PathReference::parse(&x.to_uri()).unwrap();
    assert!(y == x);
}

#[test]
fn round_trips_uppercase_guid_text_to_lowercase() {
    let g = Guid::parse("550E8400-E29B-41D4-A716-446655440000").unwrap();
    assert_eq!(g.to_text(), "550e8400-e29b-41d4-a716-446655440000");
}

#[test]
fn guid_text_matches_firmware_guid_rendering() {
    // The grammar's identifier text must agree with the firmware library's
    // canonical rendering of the same identifier.
    let text = "550e8400-e29b-41d4-a716-446655440000";
    let mine = Guid::parse(text).unwrap();
    let theirs: uefi::Guid = text.parse().unwrap();
    assert_eq!(mine.to_text(), theirs.to_string().to_lowercase());
}

#[test]
fn guid_rejects_wrong_length_and_misplaced_hyphens() {
    assert!(Guid::parse("550e8400-e29b-41d4-a716-44665544000").is_none());
    assert!(Guid::parse("550e8400-e29b-41d4-a716-4466554400000").is_none());
    assert!(Guid::parse("550e8400e-29b-41d4-a716-446655440000").is_none());
    assert!(Guid::parse("550e8400-e29b-41d4-a716-44665544000g").is_none());
}

#[test]
fn image_path_with_colon_does_not_round_trip() {
    // The serialized form is split at its first `:`, so an image path that
    // itself contains `:` cannot survive the trip; parsing stops at the
    // truncated resource part.
    let x = PathReference {
        location: PartitionReference::Iso(String::from("a:b")),
        path: String::from("/k"),
    };
    assert_eq!(x.to_uri(), "iso(a:b):/k");
    let e = PathReference::parse(&x.to_uri()).unwrap_err();
    assert!(e == PathRefParseError::MissingDelimiter);
}
