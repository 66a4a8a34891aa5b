//! The partition catalog: one entry per storage partition that a probe of
//! the firmware's device enumeration yielded, and resolution of path
//! references to concrete device paths.
use vstd::prelude::*;

use crate::devpath::MAX_FILE_PATH_UNITS;
use crate::devpath::append_file_path;
use crate::devpath::spec_append_file_path;
use crate::guid::Guid;
use crate::path::PartitionRefModel;
use crate::path::PartitionReference;
use crate::path::PathReference;
use crate::text::is_ucs2;
use crate::text::str_eq;
use crate::text::wide_units;

verus! {

/// The fields of a GPT partition table entry that the catalog records.
#[derive(Debug, Clone, Copy, PartialEq, Eq, Structural)]
pub struct GptPartitionEntry {
    /// What kind of partition this is.
    pub partition_type_guid: Guid,
    /// The unique identifier of this partition.
    pub unique_partition_guid: Guid,
    /// First block of the partition.
    pub starting_lba: u64,
    /// Last block of the partition.
    pub ending_lba: u64,
    /// Attribute bits.
    pub attributes: u64,
}

/// The fields of a legacy partition table record that the catalog records.
/// Legacy records carry no unique identifier.
#[derive(Debug, Clone, Copy, PartialEq, Eq, Structural)]
pub struct MbrPartitionRecord {
    /// 0x80 marks the record active.
    pub boot_indicator: u8,
    /// Partition type code.
    pub os_type: u8,
    /// First block of the partition.
    pub starting_lba: u32,
    /// Number of blocks.
    pub size_in_lba: u32,
}

/// Metadata about one discovered partition. Created during catalog
/// construction and never mutated afterwards.
#[derive(Debug)]
pub struct Partition {
    /// Identifies the firmware device handle this entry was probed from.
    pub handle: u64,
    /// GPT partition table entry, if the partition has one.
    pub gpt_partition_info: Option<GptPartitionEntry>,
    /// Legacy partition table record, if the partition has one.
    pub mbr_partition_info: Option<MbrPartitionRecord>,
    /// Whether the firmware marks this as a system partition.
    pub is_system: bool,
    /// Whether this is the partition the boot manager was loaded from.
    pub is_boot: bool,
    /// The image path, for a synthetic optical-disc partition.
    pub iso_path: Option<String>,
    /// The partition's binary device path, as the firmware reported it.
    pub device_path: Vec<u8>,
}

/// The unique identifier of a partition derives from its GPT entry alone;
/// a partition without one has no identifier.
pub open spec fn spec_guid_of(p: &Partition) -> Option<Guid> {
    match p.gpt_partition_info {
        Some(e) => Some(e.unique_partition_guid),
        None => None,
    }
}

impl Partition {
    /// The partition's unique identifier, from its GPT entry alone.
    pub fn guid(&self) -> (r: Option<Guid>)
        ensures
            r == spec_guid_of(self),
    {
        match &self.gpt_partition_info {
            Some(e) => Some(e.unique_partition_guid),
            None => None,
        }
    }
}

/// Whether a location refers to a given partition: `Boot` matches the
/// flagged boot partition, `Guid` matches on the GPT unique identifier, and
/// `Iso` matches on the recorded image path.
pub open spec fn spec_matches(loc: PartitionRefModel, p: &Partition) -> bool {
    match loc {
        PartitionRefModel::Boot => p.is_boot,
        PartitionRefModel::Guid(g) => spec_guid_of(p) == Some(g),
        PartitionRefModel::Iso(s) => match p.iso_path {
            Some(t) => t@ == s,
            None => false,
        },
    }
}

impl PartitionReference {
    /// Whether this location refers to the given partition.
    pub fn matches_partition(&self, p: &Partition) -> (r: bool)
        ensures
            r == spec_matches(self@, p),
    {
        match self {
            PartitionReference::Boot => p.is_boot,
            PartitionReference::Guid(g) => match &p.gpt_partition_info {
                Some(e) => e.unique_partition_guid == *g,
                None => false,
            },
            PartitionReference::Iso(s) => match &p.iso_path {
                Some(t) => str_eq(t.as_str(), s.as_str()),
                None => false,
            },
        }
    }
}

/// What probing one firmware handle yielded.
#[derive(Debug)]
pub struct PartitionProbe {
    /// Identifies the probed firmware device handle.
    pub handle: u64,
    /// The partition metadata, or nothing when opening the partition
    /// information on this handle failed.
    pub info: Option<PartitionInfoData>,
    /// The handle's binary device path.
    pub device_path: Vec<u8>,
}

/// The partition metadata read from one handle.
#[derive(Debug, Clone, Copy, PartialEq, Eq, Structural)]
pub struct PartitionInfoData {
    /// GPT partition table entry, if any.
    pub gpt: Option<GptPartitionEntry>,
    /// Legacy partition table record, if any.
    pub mbr: Option<MbrPartitionRecord>,
    /// Whether the firmware marks this as a system partition.
    pub is_system: bool,
}

/// The catalog entry built from one successful probe.
pub open spec fn spec_partition_of(p: PartitionProbe, boot_device: Option<u64>) -> Partition
    recommends
        p.info is Some,
{
    Partition {
        handle: p.handle,
        gpt_partition_info: p.info->Some_0.gpt,
        mbr_partition_info: p.info->Some_0.mbr,
        is_system: p.info->Some_0.is_system,
        is_boot: boot_device == Some(p.handle),
        iso_path: None,
        device_path: p.device_path,
    }
}

/// The catalog built from a sequence of probes: one entry per probe whose
/// metadata could be read, in probe order; failed probes are skipped.
pub open spec fn spec_catalog(probes: Seq<PartitionProbe>, boot_device: Option<u64>) -> Seq<
    Partition,
>
    decreases probes.len(),
{
    if probes.len() == 0 {
        Seq::empty()
    } else {
        let rest = spec_catalog(probes.drop_last(), boot_device);
        if probes.last().info is Some {
            rest.push(spec_partition_of(probes.last(), boot_device))
        } else {
            rest
        }
    }
}

/// Index of the first catalog entry that a location refers to, at or after
/// position `i`; -1 when there is none.
pub open spec fn first_match_from(parts: Seq<Partition>, loc: PartitionRefModel, i: int) -> int
    decreases parts.len() - i,
    when 0 <= i <= parts.len()
{
    if i >= parts.len() {
        -1
    } else if spec_matches(loc, &parts[i]) {
        i
    } else {
        first_match_from(parts, loc, i + 1)
    }
}

/// Index of the first catalog entry that a location refers to; -1 when
/// there is none.
pub open spec fn spec_first_match(parts: Seq<Partition>, loc: PartitionRefModel) -> int {
    first_match_from(parts, loc, 0)
}

/// Why resolving a path reference failed.
#[derive(Debug, Clone, Copy, PartialEq, Eq, Structural)]
pub enum ResolveError {
    /// No cataloged partition matches the location, or the path cannot be
    /// encoded into a device-path node, or the matched partition's device
    /// path is malformed.
    NotFound,
}

/// The partition catalog: an ordered list of discovered partitions, built
/// once and read-only afterwards.
#[derive(Debug)]
pub struct DiskManager {
    /// All discovered partitions, in probe order. Public so that contracts
    /// can speak of the catalog directly; built once and, by convention,
    /// never mutated afterwards.
    pub partitions: Vec<Partition>,
}

impl DiskManager {
    /// Build the catalog from the probes of the firmware's device
    /// enumeration. A probe whose metadata could not be read is skipped;
    /// the other probes all become entries, so one bad partition cannot
    /// hide the rest.
    pub fn new(probes: Vec<PartitionProbe>, boot_device: Option<u64>) -> (r: DiskManager)
        ensures
            r.partitions@ == spec_catalog(probes@, boot_device),
    {
        let ghost orig: Seq<PartitionProbe> = probes@;
        let mut probes = probes;
        let mut partitions: Vec<Partition> = Vec::new();
        while probes.len() > 0
            invariant
                probes@.len() <= orig.len(),
                probes@ =~= orig.skip(orig.len() - probes@.len()),
                partitions@ == spec_catalog(orig.take(orig.len() - probes@.len()), boot_device),
            decreases probes@.len(),
        {
            let ghost j = orig.len() - probes@.len();
            let p = probes.remove(0);
            proof {
                assert(p == orig[j]);
                assert(probes@ =~= orig.skip(j + 1));
                assert(orig.take(j + 1).drop_last() =~= orig.take(j));
                assert(orig.take(j + 1).last() == orig[j]);
            }
            let is_boot = match boot_device {
                Some(b) => b == p.handle,
                None => false,
            };
            proof {
                assert(is_boot == (boot_device == Some(p.handle)));
            }
            match p.info {
                Some(info) => {
                    partitions.push(
                        Partition {
                            handle: p.handle,
                            gpt_partition_info: info.gpt,
                            mbr_partition_info: info.mbr,
                            is_system: info.is_system,
                            is_boot,
                            iso_path: None,
                            device_path: p.device_path,
                        },
                    );
                },
                None => {},
            }
        }
        proof {
            assert(orig.take(orig.len() as int) =~= orig);
        }
        DiskManager { partitions }
    }

    /// Resolve a path reference: scan the catalog for the first matching
    /// partition and extend its device path with a file-path node for the
    /// reference's path. Fails with `NotFound` when no partition matches,
    /// when the path cannot be encoded, or when the matched partition's
    /// recorded device path is too short to carry an end node — the last
    /// arises only when the probe could not read the handle's device path,
    /// where resolution would have failed with a firmware status anyway.
    pub fn resolve_path(&self, reference: &PathReference) -> (r: Result<Vec<u8>, ResolveError>)
        ensures
            ({
                let m = spec_first_match(self.partitions@, reference.location@);
                match r {
                    Ok(v) => {
                        &&& m >= 0
                        &&& is_ucs2(reference.path@)
                        &&& reference.path@.len() <= MAX_FILE_PATH_UNITS
                        &&& self.partitions@[m].device_path@.len() >= 4
                        &&& v@ == spec_append_file_path(
                            self.partitions@[m].device_path@,
                            wide_units(reference.path@),
                        )
                    },
                    Err(ResolveError::NotFound) => m < 0 || !is_ucs2(reference.path@)
                        || reference.path@.len() > MAX_FILE_PATH_UNITS
                        || self.partitions@[m].device_path@.len() < 4,
                }
            }),
    {
        let n = self.partitions.len();
        let mut i: usize = 0;
        while i < n
            invariant
                n == self.partitions@.len(),
                i <= n,
                spec_first_match(self.partitions@, reference.location@) == first_match_from(
                    self.partitions@,
                    reference.location@,
                    i as int,
                ),
            decreases n - i,
        {
            if reference.location.matches_partition(&self.partitions[i]) {
                let part = &self.partitions[i];
                return match append_file_path(&part.device_path, reference.path.as_str()) {
                    Ok(v) => Ok(v),
                    Err(_) => Err(ResolveError::NotFound),
                };
            }
            i = i + 1;
        }
        Err(ResolveError::NotFound)
    }
}

} // verus!
