//! Device-path byte construction, held against the firmware library's own
//! builder, and the wide-string encodings held against their standard
//! counterparts.
use plex_boot::devpath::DevicePathBuildError;
use plex_boot::devpath::IsoDevicePath;
use plex_boot::devpath::append_file_path;
use plex_boot::devpath::file_path_node;
use plex_boot::text::encode_ucs2;
use plex_boot::text::encode_wide;
use uefi::CString16;
use uefi::proto::device_path::build::DevicePathBuilder;
use uefi::proto::device_path::build::media::FilePath;

#[test]
fn file_path_node_matches_firmware_builder() {
    let path = "\\EFI\\BOOT\\BOOTX64.EFI";
    let mut node = file_path_node(path).unwrap();
    node.extend_from_slice(&[0x7F, 0xFF, 4, 0]);

    let mut v = Vec::new();
    let cstr = CString16::try_from(path).unwrap();
    let built = DevicePathBuilder::with_vec(&mut v)
        .push(&FilePath { path_name: &cstr })
        .unwrap()
        .finalize()
        .unwrap();
    assert_eq!(node.as_slice(), built.as_bytes());
}

#[test]
fn file_path_node_layout() {
    let node = file_path_node("/x").unwrap();
    // type 4, subtype 4, length 4 + 2*2 + 2 = 10, "/x" in 16-bit units, null.
    assert_eq!(node, vec![4u8, 4, 10, 0, b'/', 0, b'x', 0, 0, 0]);
}

#[test]
fn file_path_node_rejects_null_character() {
    assert_eq!(
        file_path_node("a\u{0}b").unwrap_err(),
        DevicePathBuildError::UnencodablePath
    );
}

#[test]
fn append_replaces_end_node() {
    let base = IsoDevicePath::new().bytes;
    let out = append_file_path(&base, "/k").unwrap();
    // The vendor node survives, the old end node is gone, the file node and
    // a fresh end node follow.
    assert_eq!(&out[..20], &base[..20]);
    assert_eq!(&out[20..30], &[4u8, 4, 10, 0, b'/', 0, b'k', 0, 0, 0]);
    assert_eq!(&out[30..], &[0x7F, 0xFF, 4, 0]);
}

#[test]
fn append_rejects_short_base() {
    let base = vec![1u8, 2, 3];
    assert_eq!(
        append_file_path(&base, "/k").unwrap_err(),
        DevicePathBuildError::MalformedBase
    );
}

#[test]
fn vendor_device_path_bytes() {
    let dp = IsoDevicePath::new();
    assert_eq!(
        dp.bytes,
        vec![
            0x01, 0x04, 20, 0, 0x12, 0x34, 0x56, 0x78, 0x9a, 0xbc, 0xde, 0xf0, 0x12, 0x34, 0x56,
            0x78, 0x9a, 0xbc, 0xde, 0xf0, 0x7F, 0xFF, 4, 0,
        ]
    );
}

#[test]
fn ucs2_encoding_matches_firmware_strings() {
    let s = "plex=quiet loglevel\\3";
    let mine = encode_ucs2(s).unwrap();
    let theirs = CString16::try_from(s).unwrap();
    let mut with_nul = mine.clone();
    with_nul.push(0);
    assert_eq!(with_nul.as_slice(), theirs.to_u16_slice_with_nul());
}

#[test]
fn ucs2_encoding_rejects_what_firmware_strings_reject() {
    assert!(encode_ucs2("a\u{0}b").is_none());
    assert!(CString16::try_from("a\u{0}b").is_err());
    assert!(encode_ucs2("beyond \u{1D11E}").is_none());
    assert!(CString16::try_from("beyond \u{1D11E}").is_err());
}

#[test]
fn wide_encoding_matches_standard_utf16() {
    for s in ["", "ascii", "müsic \u{1D11E} clef", "\u{FFFF}"] {
        let mine = encode_wide(s);
        let std16: Vec<u16> = s.encode_utf16().collect();
        assert_eq!(mine, std16);
    }
}
