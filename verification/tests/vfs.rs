//! The virtual filesystem over a hand-built ISO9660 image: handle state
//! machine, the two-phase info protocol, and the info record layouts held
//! against the firmware's own structure definitions.
use plex_boot::bootables::AppError;
use plex_boot::bootables::IsoBootTarget;
use plex_boot::vfs::EntryMeta;
use plex_boot::vfs::FsInfoClass;
use plex_boot::vfs::FsStatus;
use plex_boot::vfs::GetInfoResult;
use plex_boot::vfs::IsoVolume;
use plex_boot::vfs::LookupOutcome;
use plex_boot::vfs::fill_file_info;
use plex_boot::vfs::fill_filesystem_info;

const BLOCK: usize = 2048;
const CONTENT: &[u8] = b"Hello, Dave!";

fn open_err(r: Result<plex_boot::vfs::IsoFileHandle, FsStatus>) -> FsStatus {
    match r {
        Err(e) => e,
        Ok(_) => panic!("expected an error"),
    }
}

fn le16(v: u16) -> [u8; 2] {
    v.to_le_bytes()
}

fn be16(v: u16) -> [u8; 2] {
    v.to_be_bytes()
}

fn le32(v: u32) -> [u8; 4] {
    v.to_le_bytes()
}

fn be32(v: u32) -> [u8; 4] {
    v.to_be_bytes()
}

fn put(img: &mut [u8], off: usize, bytes: &[u8]) -> usize {
    img[off..off + bytes.len()].copy_from_slice(bytes);
    off + bytes.len()
}

/// A 33-byte directory record header plus identifier (and an even-length
/// padding byte when needed).
fn dir_record(extent: u32, length: u32, flags: u8, identifier: &[u8]) -> Vec<u8> {
    let mut rec_len = 33 + identifier.len();
    if rec_len % 2 == 1 {
        rec_len += 1;
    }
    let mut rec = Vec::new();
    rec.push(rec_len as u8);
    rec.push(0); // extended attribute record length
    rec.extend_from_slice(&le32(extent));
    rec.extend_from_slice(&be32(extent));
    rec.extend_from_slice(&le32(length));
    rec.extend_from_slice(&be32(length));
    rec.extend_from_slice(&[0; 7]); // recording time
    rec.push(flags);
    rec.push(0); // file unit size
    rec.push(0); // interleave gap
    rec.extend_from_slice(&le16(1));
    rec.extend_from_slice(&be16(1));
    rec.push(identifier.len() as u8);
    rec.extend_from_slice(identifier);
    while rec.len() < rec_len {
        rec.push(0);
    }
    rec
}

/// A minimal valid image: a primary volume descriptor at block 16, the set
/// terminator at 17, the root directory at 18 with one file and one
/// subdirectory, the file contents at 19 and the subdirectory at 20.
fn build_test_image() -> Vec<u8> {
    let mut img = vec![0u8; 21 * BLOCK];
    let pvd = 16 * BLOCK;
    img[pvd] = 1;
    put(&mut img, pvd + 1, b"CD001\x01");
    put(&mut img, pvd + 8, &[b' '; 32]); // system identifier
    put(&mut img, pvd + 40, &[b' '; 32]); // volume identifier
    put(&mut img, pvd + 80, &le32(21));
    put(&mut img, pvd + 84, &be32(21)); // volume space size
    put(&mut img, pvd + 120, &le16(1));
    put(&mut img, pvd + 122, &be16(1)); // volume set size
    put(&mut img, pvd + 124, &le16(1));
    put(&mut img, pvd + 126, &be16(1)); // volume sequence number
    put(&mut img, pvd + 128, &le16(2048));
    put(&mut img, pvd + 130, &be16(2048)); // logical block size
    let root = dir_record(18, BLOCK as u32, 0x02, &[0]);
    put(&mut img, pvd + 156, &root);
    put(&mut img, pvd + 190, &[b' '; 128]); // volume set identifier
    put(&mut img, pvd + 318, &[b' '; 128]); // publisher
    put(&mut img, pvd + 446, &[b' '; 128]); // data preparer
    put(&mut img, pvd + 574, &[b' '; 128]); // application
    put(&mut img, pvd + 702, &[b' '; 38]); // copyright file
    put(&mut img, pvd + 740, &[b' '; 36]); // abstract file
    put(&mut img, pvd + 776, &[b' '; 37]); // bibliographic file
    let mut off = pvd + 813;
    for _ in 0..4 {
        off = put(&mut img, off, b"0000000000000000");
        img[off] = 0;
        off += 1;
    }
    img[pvd + 881] = 1; // file structure version

    let term = 17 * BLOCK;
    img[term] = 255;
    put(&mut img, term + 1, b"CD001\x01");

    let mut dir = 18 * BLOCK;
    dir = put(&mut img, dir, &dir_record(18, BLOCK as u32, 0x02, &[0]));
    dir = put(&mut img, dir, &dir_record(18, BLOCK as u32, 0x02, &[1]));
    dir = put(
        &mut img,
        dir,
        &dir_record(19, CONTENT.len() as u32, 0x00, b"HELLO.TXT;1"),
    );
    put(&mut img, dir, &dir_record(20, BLOCK as u32, 0x02, b"SUBDIR"));

    put(&mut img, 19 * BLOCK, CONTENT);

    let mut sub = 20 * BLOCK;
    sub = put(&mut img, sub, &dir_record(20, BLOCK as u32, 0x02, &[0]));
    put(&mut img, sub, &dir_record(18, BLOCK as u32, 0x02, &[1]));

    img
}

#[test]
fn rejects_garbage_image() {
    assert!(IsoVolume::load(vec![0u8; 16 * BLOCK]).is_err());
}

#[test]
fn open_volume_yields_root_directory_handle() {
    let volume = IsoVolume::load(build_test_image()).unwrap();
    let root = volume.open_volume();
    assert!(root.entry.meta.is_dir);
    assert_eq!(root.position, 0);
}

#[test]
fn open_finds_file_with_decoded_name_and_size() {
    let volume = IsoVolume::load(build_test_image()).unwrap();
    let root = volume.open_volume();
    let file = root.open("HELLO.TXT").unwrap();
    assert!(!file.entry.meta.is_dir);
    // The decoder strips the version suffix from the identifier.
    assert_eq!(file.entry.meta.name, "HELLO.TXT");
    assert_eq!(file.entry.meta.size, CONTENT.len());
}

#[test]
fn open_matches_names_ascii_case_insensitively() {
    let volume = IsoVolume::load(build_test_image()).unwrap();
    let root = volume.open_volume();
    let file = root.open("hello.txt").unwrap();
    assert_eq!(file.entry.meta.name, "HELLO.TXT");
    assert_eq!(file.entry.meta.size, CONTENT.len());
}

#[test]
fn open_missing_name_is_not_found() {
    let volume = IsoVolume::load(build_test_image()).unwrap();
    let root = volume.open_volume();
    let e = open_err(root.open("MISSING.BIN"));
    assert_eq!(e, FsStatus::NotFound);
}

#[test]
fn open_on_file_handle_is_invalid_parameter_whatever_the_name() {
    let volume = IsoVolume::load(build_test_image()).unwrap();
    let root = volume.open_volume();
    let file = root.open("HELLO.TXT").unwrap();
    assert_eq!(open_err(file.open("HELLO.TXT")), FsStatus::InvalidParameter);
    assert_eq!(open_err(file.open("anything at all")), FsStatus::InvalidParameter);
    assert_eq!(open_err(file.open("")), FsStatus::InvalidParameter);
}

#[test]
fn read_advances_cursor_and_stops_at_end() {
    let volume = IsoVolume::load(build_test_image()).unwrap();
    let root = volume.open_volume();
    let mut file = root.open("HELLO.TXT").unwrap();
    assert_eq!(file.read(5).unwrap(), b"Hello");
    assert_eq!(file.position, 5);
    // Reading past end-of-file returns fewer bytes than requested, without
    // erroring.
    let rest = file.read(100).unwrap();
    assert_eq!(rest, b", Dave!");
    assert_eq!(file.position, CONTENT.len());
    // At end-of-file a read returns zero bytes.
    assert_eq!(file.read(10).unwrap(), b"");
    assert_eq!(file.position, CONTENT.len());
}

#[test]
fn read_on_directory_handle_is_unsupported() {
    let volume = IsoVolume::load(build_test_image()).unwrap();
    let mut root = volume.open_volume();
    assert_eq!(root.read(16).unwrap_err(), FsStatus::Unsupported);
}

#[test]
fn subdirectory_opens_as_directory_handle() {
    let volume = IsoVolume::load(build_test_image()).unwrap();
    let root = volume.open_volume();
    let sub = root.open("SUBDIR").unwrap();
    assert!(sub.entry.meta.is_dir);
    assert_eq!(sub.entry.meta.size, 0);
}

#[test]
fn unsupported_and_trivial_operations() {
    let volume = IsoVolume::load(build_test_image()).unwrap();
    let root = volume.open_volume();
    assert_eq!(root.write(), FsStatus::Unsupported);
    assert_eq!(root.delete(), FsStatus::Unsupported);
    assert_eq!(root.flush(), FsStatus::Unsupported);
    assert_eq!(root.set_info(), FsStatus::Unsupported);
    assert_eq!(root.get_position(), FsStatus::Unsupported);
    assert_eq!(root.set_position(), FsStatus::Unsupported);
    assert_eq!(root.close(), FsStatus::Success);
}

#[test]
fn get_info_two_phase_for_file_entry() {
    let volume = IsoVolume::load(build_test_image()).unwrap();
    let root = volume.open_volume();
    let file = root.open("HELLO.TXT").unwrap();
    // "HELLO.TXT" is nine characters: 80 header bytes plus ten 16-bit units.
    let required = 80 + 2 * 10;
    match file.get_info(FsInfoClass::FileInfo, 0) {
        GetInfoResult::TooSmall(sz) => assert_eq!(sz, required),
        _ => panic!("expected a too-small answer"),
    }
    let bytes = match file.get_info(FsInfoClass::FileInfo, required) {
        GetInfoResult::Filled(v) => v,
        _ => panic!("expected a filled answer"),
    };
    assert_eq!(bytes.len(), required);
    assert_eq!(&bytes[0..8], &(required as u64).to_le_bytes());
    assert_eq!(&bytes[8..16], &(CONTENT.len() as u64).to_le_bytes());
    assert_eq!(&bytes[16..24], &(CONTENT.len() as u64).to_le_bytes());
    assert_eq!(&bytes[24..72], &[0u8; 48]); // zeroed timestamps
    assert_eq!(&bytes[72..80], &1u64.to_le_bytes()); // read-only attribute
    let name16: Vec<u8> = "HELLO.TXT"
        .encode_utf16()
        .chain(std::iter::once(0))
        .flat_map(|u| u.to_le_bytes())
        .collect();
    assert_eq!(&bytes[80..], name16.as_slice());
}

#[test]
fn get_info_two_phase_for_directory_entry() {
    let volume = IsoVolume::load(build_test_image()).unwrap();
    let root = volume.open_volume();
    match root.get_info(FsInfoClass::FileInfo, 81) {
        GetInfoResult::TooSmall(sz) => assert_eq!(sz, 82),
        _ => panic!("expected a too-small answer"),
    }
    let bytes = match root.get_info(FsInfoClass::FileInfo, 82) {
        GetInfoResult::Filled(v) => v,
        _ => panic!("expected a filled answer"),
    };
    assert_eq!(bytes.len(), 82);
    assert_eq!(&bytes[0..8], &82u64.to_le_bytes());
    assert_eq!(&bytes[8..16], &[0u8; 8]); // no byte length
    assert_eq!(&bytes[72..80], &0x10u64.to_le_bytes()); // directory attribute
    assert_eq!(&bytes[80..82], &[0u8, 0]); // empty name
}

#[test]
fn get_info_of_unknown_class_is_unsupported() {
    let volume = IsoVolume::load(build_test_image()).unwrap();
    let root = volume.open_volume();
    assert!(matches!(
        root.get_info(FsInfoClass::Other, 1024),
        GetInfoResult::Unsupported
    ));
}

#[test]
fn filesystem_info_two_phase_and_layout() {
    match fill_filesystem_info(55) {
        GetInfoResult::TooSmall(sz) => assert_eq!(sz, 56),
        _ => panic!("expected a too-small answer"),
    }
    let bytes = match fill_filesystem_info(56) {
        GetInfoResult::Filled(v) => v,
        _ => panic!("expected a filled answer"),
    };
    assert_eq!(bytes.len(), 56);
    assert_eq!(&bytes[0..8], &56u64.to_le_bytes());
    assert_eq!(bytes[8], 1); // read-only
    assert_eq!(&bytes[16..24], &[0u8; 8]); // volume size
    assert_eq!(&bytes[24..32], &[0u8; 8]); // free space
    assert_eq!(&bytes[32..36], &2048u32.to_le_bytes());
    let label16: Vec<u8> = "ISO9660"
        .encode_utf16()
        .chain(std::iter::once(0))
        .flat_map(|u| u.to_le_bytes())
        .collect();
    assert_eq!(&bytes[36..52], label16.as_slice());
}

#[test]
fn info_record_sizes_match_firmware_structures() {
    // The fixed header sizes baked into the record builders are the sizes
    // of the firmware's own info structures.
    assert_eq!(core::mem::size_of::<uefi_raw::protocol::file_system::FileInfo>(), 80);
    assert_eq!(
        core::mem::size_of::<uefi_raw::protocol::file_system::FileSystemInfo>(),
        40
    );
    assert_eq!(core::mem::size_of::<uefi_raw::time::Time>(), 16);
}

#[test]
fn file_info_for_constructed_metadata() {
    let meta = EntryMeta {
        is_dir: false,
        size: 7,
        name: String::from("AB"),
    };
    let bytes = match fill_file_info(&meta, 1024) {
        GetInfoResult::Filled(v) => v,
        _ => panic!("expected a filled answer"),
    };
    assert_eq!(bytes.len(), 86);
    assert_eq!(&bytes[0..8], &86u64.to_le_bytes());
    assert_eq!(&bytes[8..16], &7u64.to_le_bytes());
    assert_eq!(&bytes[80..86], &[b'A', 0, b'B', 0, 0, 0]);
}

/// A decodable image whose root directory chains length-255 records up to
/// an offset where a record's identifier length byte runs past the block:
/// searching it would make the decoder fail without a typed error, so
/// loading must reject it.
fn build_overrun_image() -> Vec<u8> {
    let mut img = build_test_image();
    let dir = 18 * BLOCK;
    for i in 0..BLOCK {
        img[dir + i] = 0;
    }
    put(&mut img, dir, &dir_record(18, BLOCK as u32, 0x02, &[0]));
    let mut p = 34;
    while p < 1819 {
        img[dir + p] = 255; // record length: hop 255 bytes forward
        p += 255;
    }
    assert_eq!(p, 1819);
    img[dir + p] = 255;
    img[dir + p + 32] = 255; // identifier length: 1819 + 33 + 255 > 2048
    img
}

#[test]
fn rejects_image_with_overrunning_directory_record() {
    assert!(IsoVolume::load(build_overrun_image()).is_err());
}

/// A decodable image where the root's `.` record names the root's own
/// location but a three-block length, so the decoder would iterate two
/// blocks the descriptor's root never covers; the second block chains
/// length-255 records to an offset whose record overruns the block.
/// Loading must reject it: the longer alias of an already-seen location is
/// its own walk.
fn build_aliased_root_image() -> Vec<u8> {
    let mut img = build_test_image();
    let dir = 18 * BLOCK;
    for i in 0..BLOCK {
        img[dir + i] = 0;
    }
    put(&mut img, dir, &dir_record(18, 3 * BLOCK as u32, 0x02, &[0]));
    let next = 19 * BLOCK;
    for i in 0..BLOCK {
        img[next + i] = 0;
    }
    let mut p = 0;
    while p < 1785 {
        img[next + p] = 255; // record length: hop 255 bytes forward
        p += 255;
    }
    assert_eq!(p, 1785);
    img[next + p] = 255;
    img[next + p + 32] = 255; // identifier length: 1785 + 33 + 255 > 2048
    img
}

#[test]
fn rejects_image_with_longer_alias_of_visited_directory() {
    assert!(IsoVolume::load(build_aliased_root_image()).is_err());
}

#[test]
fn rejects_image_with_overflowing_directory_extent_length() {
    let mut img = build_test_image();
    // Root directory extent length near the 32-bit maximum: the decoder's
    // block-count rounding would overflow.
    let pvd = 16 * BLOCK;
    put(&mut img, pvd + 156 + 10, &le32(0xFFFF_FFFF));
    put(&mut img, pvd + 156 + 14, &be32(0xFFFF_FFFF));
    assert!(IsoVolume::load(img).is_err());
}

#[test]
fn iso_boot_target_missing_executable_entry() {
    let volume = IsoVolume::load(build_test_image()).unwrap();
    let target = IsoBootTarget {
        label: String::from("rescue"),
        iso_path: String::from("/rescue.iso"),
        executable: Some(String::from("/MISSING.BIN")),
        options: String::new(),
    };
    assert!(matches!(target.prepare(&volume), Err(AppError::Generic(_))));
}

#[test]
fn iso_boot_target_executable_is_a_directory() {
    let volume = IsoVolume::load(build_test_image()).unwrap();
    let target = IsoBootTarget {
        label: String::from("rescue"),
        iso_path: String::from("/rescue.iso"),
        executable: Some(String::from("/SUBDIR")),
        options: String::new(),
    };
    assert!(matches!(target.prepare(&volume), Err(AppError::Generic(_))));
}

#[test]
fn iso_boot_target_unencodable_options() {
    let volume = IsoVolume::load(build_test_image()).unwrap();
    let target = IsoBootTarget {
        label: String::from("rescue"),
        iso_path: String::from("/rescue.iso"),
        executable: Some(String::from("/HELLO.TXT")),
        options: String::from("a\u{0}b"),
    };
    assert!(matches!(target.prepare(&volume), Err(AppError::Encoding)));
}

#[test]
fn iso_boot_target_extracts_executable() {
    let target = IsoBootTarget {
        label: String::from("rescue"),
        iso_path: String::from("/rescue.iso"),
        executable: Some(String::from("/HELLO.TXT")),
        options: String::from("quiet"),
    };
    let volume = IsoVolume::load(build_test_image()).unwrap();
    let plan = target.prepare(&volume).unwrap();
    assert_eq!(plan.image, CONTENT);
    assert_eq!(plan.device_path.len(), 24);
    assert_eq!(&plan.device_path[20..], &[0x7F, 0xFF, 4, 0]);
    let expected: Vec<u16> = "quiet".encode_utf16().chain(std::iter::once(0)).collect();
    assert_eq!(plan.load_options, expected);
}

#[test]
fn iso_boot_target_without_executable_is_not_implemented() {
    let target = IsoBootTarget {
        label: String::from("rescue"),
        iso_path: String::from("/rescue.iso"),
        executable: None,
        options: String::new(),
    };
    let volume = IsoVolume::load(build_test_image()).unwrap();
    assert!(target.prepare(&volume).is_err());
    assert!(target.find_executable().is_err());
}

#[test]
fn volume_find_entry_resolves_paths() {
    let volume = IsoVolume::load(build_test_image()).unwrap();
    match volume.find_entry("/HELLO.TXT") {
        LookupOutcome::Found(e) => assert!(!e.meta.is_dir),
        _ => panic!("expected the file"),
    }
    match volume.find_entry("/SUBDIR") {
        LookupOutcome::Found(e) => assert!(e.meta.is_dir),
        _ => panic!("expected the directory"),
    }
    assert!(matches!(volume.find_entry("/NOPE"), LookupOutcome::NotFound));
}
