//! Catalog construction and path resolution: matching, resilience to bad
//! probes, and the shape of resolved device paths.
use plex_boot::catalog::DiskManager;
use plex_boot::catalog::GptPartitionEntry;
use plex_boot::catalog::PartitionInfoData;
use plex_boot::catalog::PartitionProbe;
use plex_boot::catalog::ResolveError;
use plex_boot::guid::Guid;
use plex_boot::path::PartitionReference;
use plex_boot::path::PathReference;

fn base_path(tag: u8) -> Vec<u8> {
    // A minimal well-formed device path: one vendor-ish node and an end node.
    vec![0x01, 0x04, 8, 0, tag, tag, tag, tag, 0x7F, 0xFF, 4, 0]
}

fn gpt_with(unique: Guid) -> GptPartitionEntry {
    GptPartitionEntry {
        partition_type_guid: Guid { q0: 0, q1: 0, q2: 0, q3: 0 },
        unique_partition_guid: unique,
        starting_lba: 2048,
        ending_lba: 4096,
        attributes: 0,
    }
}

fn probe(handle: u64, gpt: Option<GptPartitionEntry>, tag: u8) -> PartitionProbe {
    PartitionProbe {
        handle,
        info: Some(PartitionInfoData {
            gpt,
            mbr: None,
            is_system: false,
        }),
        device_path: base_path(tag),
    }
}

fn guid_a() -> Guid {
    Guid::parse("550e8400-e29b-41d4-a716-446655440000").unwrap()
}

fn guid_b() -> Guid {
    Guid::parse("00000000-0000-0000-0000-000000000001").unwrap()
}

#[test]
fn catalog_skips_failed_probe() {
    let probes = vec![
        probe(1, None, 0x11),
        PartitionProbe {
            handle: 2,
            info: None,
            device_path: base_path(0x22),
        },
        probe(3, Some(gpt_with(guid_a())), 0x33),
    ];
    let dm = DiskManager::new(probes, Some(1));
    assert_eq!(dm.partitions.len(), 2);
    assert_eq!(dm.partitions[0].handle, 1);
    assert_eq!(dm.partitions[1].handle, 3);
}

#[test]
fn catalog_flags_boot_partition() {
    let dm = DiskManager::new(vec![probe(7, None, 0x11), probe(9, None, 0x22)], Some(9));
    assert!(!dm.partitions[0].is_boot);
    assert!(dm.partitions[1].is_boot);
}

#[test]
fn guid_derives_from_gpt_entry_only() {
    let dm = DiskManager::new(
        vec![probe(1, None, 0x11), probe(2, Some(gpt_with(guid_a())), 0x22)],
        None,
    );
    assert!(dm.partitions[0].guid().is_none());
    assert!(dm.partitions[1].guid() == Some(guid_a()));
}

#[test]
fn resolve_selects_boot_partition() {
    let dm = DiskManager::new(
        vec![probe(1, Some(gpt_with(guid_a())), 0x11), probe(2, None, 0x22)],
        Some(2),
    );
    let r = PathReference {
        location: PartitionReference::Boot,
        path: String::from("/x"),
    };
    let bytes = dm.resolve_path(&r).unwrap();
    // The resolved path starts with the matched partition's own path,
    // its end node stripped.
    assert_eq!(&bytes[..8], &base_path(0x22)[..8]);
    // Then the file-path node: type 4, subtype 4, length 4 + 2*2 + 2 = 10,
    // then "/x" in 16-bit units and a 16-bit null.
    assert_eq!(
        &bytes[8..],
        &[4u8, 4, 10, 0, b'/', 0, b'x', 0, 0, 0, 0x7F, 0xFF, 4, 0]
    );
}

#[test]
fn resolve_selects_partition_by_guid() {
    let dm = DiskManager::new(
        vec![
            probe(1, Some(gpt_with(guid_b())), 0x11),
            probe(2, Some(gpt_with(guid_a())), 0x22),
        ],
        Some(1),
    );
    let r = PathReference {
        location: PartitionReference::Guid(guid_a()),
        path: String::from("/x"),
    };
    let bytes = dm.resolve_path(&r).unwrap();
    assert_eq!(&bytes[..8], &base_path(0x22)[..8]);
}

#[test]
fn resolve_fails_for_unknown_guid() {
    let dm = DiskManager::new(vec![probe(1, Some(gpt_with(guid_a())), 0x11)], Some(1));
    let r = PathReference {
        location: PartitionReference::Guid(guid_b()),
        path: String::from("/x"),
    };
    assert!(dm.resolve_path(&r) == Err(ResolveError::NotFound));
}

#[test]
fn resolve_picks_first_match() {
    // Two probes of the boot handle: both entries carry the boot flag, and
    // resolution picks the first.
    let dm = DiskManager::new(vec![probe(1, None, 0x11), probe(1, None, 0x22)], Some(1));
    assert!(dm.partitions[0].is_boot && dm.partitions[1].is_boot);
    let r = PathReference {
        location: PartitionReference::Boot,
        path: String::from("/x"),
    };
    let bytes = dm.resolve_path(&r).unwrap();
    assert_eq!(&bytes[..8], &base_path(0x11)[..8]);
}

#[test]
fn resolve_fails_on_unencodable_path() {
    let dm = DiskManager::new(vec![probe(1, None, 0x11)], Some(1));
    let r = PathReference {
        location: PartitionReference::Boot,
        path: String::from("/a\u{0}b"),
    };
    assert!(dm.resolve_path(&r) == Err(ResolveError::NotFound));
}

#[test]
fn resolve_fails_on_malformed_base_path() {
    let dm = DiskManager::new(
        vec![PartitionProbe {
            handle: 1,
            info: Some(PartitionInfoData {
                gpt: None,
                mbr: None,
                is_system: false,
            }),
            device_path: vec![1, 2],
        }],
        Some(1),
    );
    let r = PathReference {
        location: PartitionReference::Boot,
        path: String::from("/x"),
    };
    assert!(dm.resolve_path(&r) == Err(ResolveError::NotFound));
}

#[test]
fn resolve_matches_iso_partition_path() {
    let mut dm = DiskManager::new(vec![probe(1, None, 0x11)], None);
    dm.partitions[0].iso_path = Some(String::from("/a.iso"));
    let r = PathReference {
        location: PartitionReference::Iso(String::from("/a.iso")),
        path: String::from("/k"),
    };
    assert!(dm.resolve_path(&r).is_ok());
    let other = PathReference {
        location: PartitionReference::Iso(String::from("/b.iso")),
        path: String::from("/k"),
    };
    assert!(dm.resolve_path(&other) == Err(ResolveError::NotFound));
}
