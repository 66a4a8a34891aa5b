//! Binary device-path construction and extension: a device path is a byte
//! sequence of typed nodes that ends with a four-byte end-of-path node. The
//! library builds media file-path nodes (path text re-encoded into 16-bit
//! units) and the fixed vendor-defined hardware node that labels the
//! synthetic optical-disc device.
use vstd::prelude::*;

use crate::text::encode_ucs2;
use crate::text::is_ucs2;
use crate::text::lemma_wide_units_ucs2_len;
use crate::text::wide_units;

verus! {

/// Largest number of 16-bit units a file-path node can carry: the node
/// length field is 16 bits and covers the four header bytes, the units and
/// the two-byte terminator.
pub const MAX_FILE_PATH_UNITS: usize = 32764;

/// Why building or extending a device path failed.
#[derive(Debug, Clone, Copy, PartialEq, Eq, Structural)]
pub enum DevicePathBuildError {
    /// The path contains a null or a character above the 16-bit range.
    UnencodablePath,
    /// The encoded path does not fit a single node's 16-bit length field.
    PathTooLong,
    /// The base device path is shorter than its end-of-path node.
    MalformedBase,
}

/// Little-endian byte form of a sequence of 16-bit units.
pub open spec fn le_bytes_of_units(u: Seq<u16>) -> Seq<u8>
    decreases u.len(),
{
    if u.len() == 0 {
        Seq::empty()
    } else {
        le_bytes_of_units(u.drop_last()) + seq![
            (u.last() as int % 256) as u8,
            (u.last() as int / 256) as u8,
        ]
    }
}

/// A media file-path node: type 4, subtype 4, 16-bit length, the path in
/// 16-bit units, and a 16-bit null terminator.
pub open spec fn spec_file_path_node(units: Seq<u16>) -> Seq<u8> {
    let len = 4 + 2 * units.len() + 2;
    seq![4u8, 4u8, (len % 256) as u8, (len as int / 256) as u8] + le_bytes_of_units(units) + seq![
        0u8,
        0u8,
    ]
}

/// The end-of-path terminator node.
pub open spec fn spec_end_node() -> Seq<u8> {
    seq![0x7Fu8, 0xFFu8, 4u8, 0u8]
}

/// A base device path extended with a file-path node: the base's trailing
/// end node is replaced by the new node followed by a fresh end node.
pub open spec fn spec_append_file_path(base: Seq<u8>, units: Seq<u16>) -> Seq<u8> {
    base.take(base.len() - 4) + spec_file_path_node(units) + spec_end_node()
}

/// Append one 16-bit unit in little-endian byte order.
fn push_u16_le(out: &mut Vec<u8>, v: u16)
    ensures
        final(out)@ == old(out)@ + seq![(v as int % 256) as u8, (v as int / 256) as u8],
{
    out.push((v % 256) as u8);
    out.push((v / 256) as u8);
}

/// Build a media file-path node for a path string. Fails when a character
/// does not fit the 16-bit representation, or when the encoded path
/// overflows the node's 16-bit length field.
pub fn file_path_node(path: &str) -> (r: Result<Vec<u8>, DevicePathBuildError>)
    ensures
        match r {
            Ok(v) => is_ucs2(path@) && path@.len() <= MAX_FILE_PATH_UNITS && v@
                == spec_file_path_node(wide_units(path@)),
            Err(DevicePathBuildError::UnencodablePath) => !is_ucs2(path@),
            Err(DevicePathBuildError::PathTooLong) => is_ucs2(path@) && path@.len()
                > MAX_FILE_PATH_UNITS,
            Err(DevicePathBuildError::MalformedBase) => false,
        },
{
    let units = match encode_ucs2(path) {
        Some(u) => u,
        None => {
            return Err(DevicePathBuildError::UnencodablePath);
        },
    };
    proof {
        lemma_wide_units_ucs2_len(path@);
    }
    if units.len() > MAX_FILE_PATH_UNITS {
        return Err(DevicePathBuildError::PathTooLong);
    }
    let len: usize = 4 + 2 * units.len() + 2;
    let mut out: Vec<u8> = Vec::new();
    out.push(4u8);
    out.push(4u8);
    out.push((len % 256) as u8);
    out.push((len / 256) as u8);
    let header: Ghost<Seq<u8>> = Ghost(out@);
    let mut i: usize = 0;
    while i < units.len()
        invariant
            i <= units@.len(),
            out@ == header@ + le_bytes_of_units(units@.take(i as int)),
        decreases units@.len() - i,
    {
        push_u16_le(&mut out, units[i]);
        proof {
            let now = units@.take(i + 1);
            assert(now.drop_last() =~= units@.take(i as int));
            assert(now.last() == units@[i as int]);
        }
        i = i + 1;
    }
    out.push(0u8);
    out.push(0u8);
    proof {
        assert(units@.take(units@.len() as int) =~= units@);
        assert(out@ =~= spec_file_path_node(wide_units(path@)));
    }
    Ok(out)
}

/// Extend a base device path with a file-path node for `path`. The base must
/// be at least as long as its trailing end-of-path node; its last four bytes
/// are replaced by the new node and a fresh end node.
pub fn append_file_path(base: &Vec<u8>, path: &str) -> (r: Result<Vec<u8>, DevicePathBuildError>)
    ensures
        match r {
            Ok(v) => base@.len() >= 4 && is_ucs2(path@) && path@.len() <= MAX_FILE_PATH_UNITS && v@
                == spec_append_file_path(base@, wide_units(path@)),
            Err(DevicePathBuildError::MalformedBase) => base@.len() < 4,
            Err(DevicePathBuildError::UnencodablePath) => base@.len() >= 4 && !is_ucs2(path@),
            Err(DevicePathBuildError::PathTooLong) => base@.len() >= 4 && is_ucs2(path@)
                && path@.len() > MAX_FILE_PATH_UNITS,
        },
{
    if base.len() < 4 {
        return Err(DevicePathBuildError::MalformedBase);
    }
    let node = match file_path_node(path) {
        Ok(n) => n,
        Err(e) => {
            return Err(e);
        },
    };
    let keep = base.len() - 4;
    let mut out: Vec<u8> = Vec::new();
    let mut i: usize = 0;
    while i < keep
        invariant
            keep <= base@.len(),
            i <= keep,
            out@ == base@.take(keep as int).take(i as int),
        decreases keep - i,
    {
        out.push(base[i]);
        proof {
            assert(base@.take(keep as int).take(i + 1) =~= base@.take(keep as int).take(i as int)
                + seq![base@[i as int]]);
        }
        i = i + 1;
    }
    proof {
        assert(base@.take(keep as int).take(keep as int) =~= base@.take(keep as int));
    }
    let mut j: usize = 0;
    while j < node.len()
        invariant
            j <= node@.len(),
            out@ == base@.take(keep as int) + node@.take(j as int),
        decreases node@.len() - j,
    {
        out.push(node[j]);
        proof {
            assert(node@.take(j + 1) =~= node@.take(j as int) + seq![node@[j as int]]);
        }
        j = j + 1;
    }
    out.push(0x7Fu8);
    out.push(0xFFu8);
    out.push(4u8);
    out.push(0u8);
    proof {
        assert(node@.take(node@.len() as int) =~= node@);
        assert(out@ =~= spec_append_file_path(base@, wide_units(path@)));
    }
    Ok(out)
}

/// The fixed 24-byte device path that labels the synthetic optical-disc
/// device: a vendor-defined hardware node (type 1, subtype 4, length 20,
/// 16-byte vendor identifier) followed by the end-of-path node.
pub open spec fn spec_iso_device_path() -> Seq<u8> {
    seq![
        0x01u8,
        0x04u8,
        20u8,
        0u8,
        0x12u8,
        0x34u8,
        0x56u8,
        0x78u8,
        0x9au8,
        0xbcu8,
        0xdeu8,
        0xf0u8,
        0x12u8,
        0x34u8,
        0x56u8,
        0x78u8,
        0x9au8,
        0xbcu8,
        0xdeu8,
        0xf0u8,
        0x7Fu8,
        0xFFu8,
        4u8,
        0u8,
    ]
}

/// The synthetic device's device path: a vendor-defined hardware node with a
/// fixed vendor identifier, followed by an end-of-path node. It exists only
/// to give an installed protocol instance a distinguishable identity.
#[derive(Debug, Clone)]
pub struct IsoDevicePath {
    /// The binary form: vendor node then end node.
    pub bytes: Vec<u8>,
}

impl IsoDevicePath {
    /// Build the fixed vendor-node device path.
    pub fn new() -> (r: IsoDevicePath)
        ensures
            r.bytes@ == spec_iso_device_path(),
    {
        let mut bytes: Vec<u8> = Vec::new();
        bytes.push(0x01u8);
        bytes.push(0x04u8);
        bytes.push(20u8);
        bytes.push(0u8);
        bytes.push(0x12u8);
        bytes.push(0x34u8);
        bytes.push(0x56u8);
        bytes.push(0x78u8);
        bytes.push(0x9au8);
        bytes.push(0xbcu8);
        bytes.push(0xdeu8);
        bytes.push(0xf0u8);
        bytes.push(0x12u8);
        bytes.push(0x34u8);
        bytes.push(0x56u8);
        bytes.push(0x78u8);
        bytes.push(0x9au8);
        bytes.push(0xbcu8);
        bytes.push(0xdeu8);
        bytes.push(0xf0u8);
        bytes.push(0x7Fu8);
        bytes.push(0xFFu8);
        bytes.push(4u8);
        bytes.push(0u8);
        let r = IsoDevicePath { bytes };
        proof {
            assert(r.bytes@ =~= spec_iso_device_path());
        }
        r
    }
}

} // verus!
