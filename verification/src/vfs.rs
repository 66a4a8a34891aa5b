//! The read-only virtual filesystem over an in-memory optical-disc image:
//! the decision logic and record layouts behind the firmware's fixed
//! file-access callback table. Decoding the image is the iso9660 crate's
//! work; every call into it stands behind a trusted wrapper, and everything
//! that decides or builds bytes is verified.
//!
//! The decoder's name lookup splits directory records with a length-prefixed
//! identifier field and converts a record whose identifier length runs past
//! its 2048-byte block into a panic rather than a typed error, and it rounds
//! a directory's extent length up to blocks in 32-bit arithmetic. `load`
//! therefore accepts an image only after a verified framing check of every
//! directory reachable from the root (`spec_searchable`), so a lookup on a
//! loaded volume never reaches either failure.
use vstd::prelude::*;

use std::io::Cursor;
use std::io::Read;
use std::io::Seek;
use std::io::SeekFrom;

use crate::iso_guard::image_searchable;
use crate::iso_guard::spec_searchable;
use crate::text::ascii_case_eq;
use crate::text::wide_units;

verus! {

#[verifier::external_type_specification]
#[verifier::external_body]
pub struct ExIsoError(iso9660::ISOError);

/// Holds one of the decoder's directory entries. The decoder's entry type
/// carries a generic reader bound that the verifier refuses to declare, so
/// the entry lives opaquely in this trusted container, touched only by the
/// trusted wrappers below.
#[verifier::external_body]
pub struct RawEntry {
    entry: iso9660::DirectoryEntry<Cursor<Vec<u8>>>,
}

/// A decoded in-memory optical-disc image. The decoder's volume type
/// carries a generic reader bound that the verifier refuses to declare, so
/// the volume lives opaquely in this trusted container, touched only by the
/// trusted wrappers below. Values exist only for images that passed the
/// framing check in `load`.
#[verifier::external_body]
pub struct IsoVolume {
    fs: iso9660::ISO9660<Cursor<Vec<u8>>>,
}

/// Whether the decoder accepts this image's volume descriptors. Names the
/// outcome of iso9660's ISO9660::new, a function of the bytes alone.
pub uninterp spec fn decodes(data: Seq<u8>) -> bool;

/// Whether the raw entry is a directory. Names the decoder's entry kind, a
/// function of the entry alone.
pub uninterp spec fn raw_is_dir(e: RawEntry) -> bool;

/// Byte length the decoder records for the raw entry: a file's extent
/// length (a 32-bit field), zero for a directory.
pub uninterp spec fn raw_size(e: RawEntry) -> nat;

/// The bytes the decoder's reader yields for `count` bytes of this entry's
/// contents starting at byte `position`: a function of the entry and the two
/// numbers alone, since the image is in memory and each read uses a fresh
/// reader. For a file extent that lies inside the image these are the file's
/// bytes at that range.
pub uninterp spec fn raw_read(e: RawEntry, position: int, count: int) -> Seq<u8>;

/// Spec-level outcome of a name or path lookup in a decoded image.
pub enum LookupModel {
    /// An entry exists, with this kind, byte size, decoded name, and — for
    /// a file — the bytes a whole-entry read yields.
    Found { is_dir: bool, size: nat, name: Seq<char>, content: Seq<u8> },
    /// No such entry.
    NotFound,
    /// The decoder failed.
    Error,
}

/// What resolving a slash-separated path from the volume root yields. Names
/// the outcome of iso9660's ISO9660::open, a function of the volume's image
/// and the path alone.
pub uninterp spec fn volume_lookup(v: IsoVolume, path: Seq<char>) -> LookupModel;

/// What looking a name up among a directory entry's direct children yields.
/// Names the outcome of iso9660's ISODirectory::find, a function of the
/// entry and the name alone.
pub uninterp spec fn dir_child_lookup(e: RawEntry, name: Seq<char>) -> LookupModel;

/// Status of a virtual filesystem operation, mirroring the firmware's
/// file-protocol status codes.
#[derive(Debug, Clone, Copy, PartialEq, Eq, Structural)]
pub enum FsStatus {
    /// The operation completed.
    Success,
    /// The operation is not offered by this read-only filesystem.
    Unsupported,
    /// No entry of the requested name exists.
    NotFound,
    /// The image decoder failed.
    DeviceError,
    /// The operation does not apply to this kind of handle.
    InvalidParameter,
    /// The caller's buffer cannot hold the answer.
    BufferTooSmall,
}

/// What the virtual filesystem knows about one directory entry: its kind,
/// its byte size (zero for directories) and its name.
#[derive(Debug, Clone)]
pub struct EntryMeta {
    /// Whether the entry is a directory.
    pub is_dir: bool,
    /// Byte length of a file's contents; zero for a directory.
    pub size: usize,
    /// The entry's name, version suffix already stripped by the decoder.
    pub name: String,
}

impl EntryMeta {
    /// Entry names come from length-prefixed identifier fields of at most
    /// 255 bytes, and directories have no byte length.
    pub open spec fn wf(&self) -> bool {
        &&& self.name@.len() <= 255
        &&& (self.is_dir ==> self.size == 0)
    }
}

/// One resolved directory entry: the decoder's entry, kept opaquely for
/// later reads, beside the plain metadata the logic reads.
pub struct IsoEntry {
    /// The decoder's entry.
    pub raw: RawEntry,
    /// Kind, size and name of the entry.
    pub meta: EntryMeta,
}

impl IsoEntry {
    /// The recorded metadata agrees with the decoder's entry: same kind,
    /// same byte length. Established by the trusted conversions; nothing
    /// else constructs entries.
    pub open spec fn wf(&self) -> bool {
        &&& self.meta.wf()
        &&& self.meta.is_dir == raw_is_dir(self.raw)
        &&& self.meta.size == raw_size(self.raw)
    }
}

/// Outcome of looking an entry up by name or by path.
pub enum LookupOutcome {
    /// The entry exists.
    Found(IsoEntry),
    /// No entry of that name exists.
    NotFound,
    /// The image decoder failed.
    LookupError,
}

/// A decoder read failure.
#[derive(Debug, Clone, Copy, PartialEq, Eq, Structural)]
pub struct IoFault;

/// An image that was not accepted: its volume descriptors do not decode, or
/// its directory tree is not well-framed enough to search.
#[derive(Debug, Clone, Copy, PartialEq, Eq, Structural)]
pub struct IsoDecodeError;

/// Relies on iso9660's DirectoryEntry variants, ISOFile::size and the
/// `identifier` fields: records kind, byte size and name beside the raw
/// entry. Identifiers come from length-prefixed fields of at most 255
/// bytes, so the recorded name has at most 255 characters; a file's size is
/// its 32-bit extent length.
#[verifier::external_body]
fn entry_of_raw(raw: RawEntry) -> (r: IsoEntry)
    ensures
        r.wf(),
{
    let meta = match &raw.entry {
        iso9660::DirectoryEntry::Directory(d) =>
            EntryMeta { is_dir: true, size: 0, name: d.identifier.clone() },
        iso9660::DirectoryEntry::File(f) =>
            EntryMeta { is_dir: false, size: f.size() as usize, name: f.identifier.clone() },
    };
    IsoEntry { raw, meta }
}

/// Relies on iso9660's ISO9660::new: decodes the volume descriptors of an
/// in-memory image, a function of the bytes alone, failing on a malformed
/// image.
#[verifier::external_body]
fn volume_load_raw(data: Vec<u8>) -> (r: Result<IsoVolume, iso9660::ISOError>)
    ensures
        r is Ok <==> decodes(data@),
{
    match iso9660::ISO9660::new(Cursor::new(data)) {
        Ok(fs) => Ok(IsoVolume { fs }),
        Err(e) => Err(e),
    }
}

/// Relies on iso9660's ISO9660::root: the root of the decoded volume is a
/// directory entry.
#[verifier::external_body]
fn volume_root_raw(v: &IsoVolume) -> (r: IsoEntry)
    ensures
        r.wf(),
        r.meta.is_dir,
{
    entry_of_raw(RawEntry { entry: iso9660::DirectoryEntry::Directory(v.fs.root.clone()) })
}

/// Relies on iso9660's ISO9660::open: resolves a slash-separated path from
/// the volume root, yielding the entry, nothing, or a decoder error — the
/// outcome that `volume_lookup` names. Safe to call because `load` admits
/// only images whose directory records the decoder can always split.
#[verifier::external_body]
fn volume_find_raw(v: &IsoVolume, path: &str) -> (r: LookupOutcome)
    ensures
        match r {
            LookupOutcome::Found(e) => {
                &&& volume_lookup(*v, path@) matches LookupModel::Found {
                    is_dir,
                    size,
                    name,
                    content,
                } && e.meta.is_dir == is_dir && e.meta.size == size && e.meta.name@ == name
                    && content == raw_read(e.raw, 0, size as int)
                &&& e.wf()
            },
            LookupOutcome::NotFound => volume_lookup(*v, path@) is NotFound,
            LookupOutcome::LookupError => volume_lookup(*v, path@) is Error,
        },
{
    match v.fs.open(path) {
        Ok(Some(e)) => LookupOutcome::Found(entry_of_raw(RawEntry { entry: e })),
        Ok(None) => LookupOutcome::NotFound,
        Err(_) => LookupOutcome::LookupError,
    }
}

/// Relies on iso9660's ISODirectory::find: looks a direct child of a
/// directory up by name — ASCII-case-insensitively, so a found entry's name
/// case-folds to the argument — yielding the entry, nothing, or a decoder
/// error: the outcome that `dir_child_lookup` names. A file entry has no
/// children, so its lookup is pinned to the error outcome without a call.
/// Safe to call because `load` admits only images whose directory records
/// the decoder can always split.
#[verifier::external_body]
fn dir_find_raw(entry: &IsoEntry, name: &str) -> (r: LookupOutcome)
    ensures
        match r {
            LookupOutcome::Found(e) => {
                &&& dir_child_lookup(entry.raw, name@) matches LookupModel::Found {
                    is_dir,
                    size,
                    name: n,
                    content,
                } && e.meta.is_dir == is_dir && e.meta.size == size && e.meta.name@ == n && content
                    == raw_read(e.raw, 0, size as int)
                &&& e.wf()
                &&& ascii_case_eq(e.meta.name@, name@)
            },
            LookupOutcome::NotFound => dir_child_lookup(entry.raw, name@) is NotFound,
            LookupOutcome::LookupError => dir_child_lookup(entry.raw, name@) is Error,
        },
{
    match &entry.raw.entry {
        iso9660::DirectoryEntry::Directory(d) => match d.find(name) {
            Ok(Some(c)) => LookupOutcome::Found(entry_of_raw(RawEntry { entry: c })),
            Ok(None) => LookupOutcome::NotFound,
            Err(_) => LookupOutcome::LookupError,
        },
        iso9660::DirectoryEntry::File(_) => LookupOutcome::LookupError,
    }
}

/// Relies on iso9660's ISOFile::read, ISOFileReader::seek and
/// ISOFileReader::read: reads at most `count` bytes of a file's contents
/// starting at byte `position`. Over an in-memory image the reader cannot
/// fail: a seek to a non-negative offset always succeeds, and a read copies
/// exactly `min(count, size - position)` bytes (the reader loops until the
/// buffer is full or end-of-file), so a read at or below the file's size —
/// which is a 32-bit extent length — always succeeds with that exact count.
#[verifier::external_body]
fn file_read_raw(entry: &IsoEntry, position: usize, count: usize) -> (r: Result<Vec<u8>, IoFault>)
    ensures
        r is Ok || raw_is_dir(entry.raw) || position > raw_size(entry.raw),
        r matches Ok(v) ==> v@ == raw_read(entry.raw, position as int, count as int) && v@.len()
            <= count && (!raw_is_dir(entry.raw) && position <= raw_size(entry.raw) ==> v@.len()
            == vstd::math::min(count as int, raw_size(entry.raw) - position)),
{
    let f = match &entry.raw.entry {
        iso9660::DirectoryEntry::File(f) => f,
        iso9660::DirectoryEntry::Directory(_) => return Err(IoFault),
    };
    let mut reader = f.read();
    if reader.seek(SeekFrom::Start(position as u64)).is_err() {
        return Err(IoFault);
    }
    let mut buf = vec![0u8; count];
    let n = reader.read(&mut buf).map_err(|_| IoFault)?;
    buf.truncate(if n < count { n } else { count });
    Ok(buf)
}

impl IsoVolume {
    /// Decode an in-memory image. The image is accepted exactly when its
    /// volume descriptors decode and every directory reachable from the
    /// root is well-framed (`spec_searchable`), so that later lookups are
    /// total; anything else is a recoverable, typed error.
    pub fn load(data: Vec<u8>) -> (r: Result<IsoVolume, IsoDecodeError>)
        ensures
            r is Ok <==> decodes(data@) && spec_searchable(data@),
    {
        if !image_searchable(&data) {
            return Err(IsoDecodeError);
        }
        match volume_load_raw(data) {
            Ok(v) => Ok(v),
            Err(_) => Err(IsoDecodeError),
        }
    }

    /// A handle for the volume's root directory, with its cursor at zero.
    pub fn open_volume(&self) -> (h: IsoFileHandle)
        ensures
            h.wf(),
            h.entry.meta.is_dir,
            h.position == 0,
    {
        IsoFileHandle::new(volume_root_raw(self))
    }

    /// Resolve a slash-separated path from the volume root; the outcome is
    /// exactly what the decoder's path lookup yields.
    pub fn find_entry(&self, path: &str) -> (r: LookupOutcome)
        ensures
            match r {
                LookupOutcome::Found(e) => {
                    &&& volume_lookup(*self, path@) matches LookupModel::Found {
                        is_dir,
                        size,
                        name,
                        content,
                    } && e.meta.is_dir == is_dir && e.meta.size == size && e.meta.name@ == name
                        && content == raw_read(e.raw, 0, size as int)
                    &&& e.wf()
                },
                LookupOutcome::NotFound => volume_lookup(*self, path@) is NotFound,
                LookupOutcome::LookupError => volume_lookup(*self, path@) is Error,
            },
    {
        volume_find_raw(self, path)
    }
}

/// One open directory-or-file handle: the resolved entry and a read cursor.
/// Handles are created by `open_volume` and `open` only, and only `read`
/// moves the cursor.
pub struct IsoFileHandle {
    /// The entry this handle represents.
    pub entry: IsoEntry,
    /// Read cursor; meaningful for file handles only.
    pub position: usize,
}

impl IsoFileHandle {
    /// The entry's metadata agrees with the decoder's entry, and a file
    /// handle never reads past its entry's size.
    pub open spec fn wf(&self) -> bool {
        &&& self.entry.wf()
        &&& (self.entry.meta.is_dir || self.position <= self.entry.meta.size)
    }

    /// Wrap a resolved entry into a fresh handle with its cursor at zero.
    pub fn new(entry: IsoEntry) -> (r: IsoFileHandle)
        ensures
            r.entry == entry,
            r.position == 0,
            entry.wf() ==> r.wf(),
    {
        IsoFileHandle { entry, position: 0 }
    }

    /// Open a direct child of this handle's entry by name. Valid only on a
    /// directory handle: on a file handle the call fails with
    /// `InvalidParameter` whatever the name is. On a directory handle the
    /// outcome mirrors the decoder's child lookup: a fresh handle for a
    /// found child, `NotFound` for an absent one, `DeviceError` for a
    /// decoder failure.
    pub fn open(&self, name: &str) -> (r: Result<IsoFileHandle, FsStatus>)
        requires
            self.wf(),
        ensures
            !self.entry.meta.is_dir ==> r == Err::<IsoFileHandle, FsStatus>(
                FsStatus::InvalidParameter,
            ),
            self.entry.meta.is_dir ==> match r {
                Ok(h) => {
                    &&& dir_child_lookup(self.entry.raw, name@) matches LookupModel::Found {
                        is_dir,
                        size,
                        name: n,
                        content,
                    } && h.entry.meta.is_dir == is_dir && h.entry.meta.size == size
                        && h.entry.meta.name@ == n && content == raw_read(
                        h.entry.raw,
                        0,
                        size as int,
                    )
                    &&& h.wf()
                    &&& h.position == 0
                    &&& ascii_case_eq(h.entry.meta.name@, name@)
                },
                Err(FsStatus::NotFound) => dir_child_lookup(self.entry.raw, name@) is NotFound,
                Err(FsStatus::DeviceError) => dir_child_lookup(self.entry.raw, name@) is Error,
                Err(_) => false,
            },
    {
        if !self.entry.meta.is_dir {
            return Err(FsStatus::InvalidParameter);
        }
        match dir_find_raw(&self.entry, name) {
            LookupOutcome::Found(e) => Ok(IsoFileHandle::new(e)),
            LookupOutcome::NotFound => Err(FsStatus::NotFound),
            LookupOutcome::LookupError => Err(FsStatus::DeviceError),
        }
    }

    /// Read up to `requested` bytes at the cursor. Valid only on a file
    /// handle: a directory handle yields `Unsupported`. On a file handle
    /// the read always succeeds — the image is in memory — with exactly
    /// `min(requested, remaining)` bytes, which are the decoder's bytes for
    /// the entry at the cursor (`raw_read`), and the cursor advances by the
    /// bytes read: a read past end-of-file returns fewer bytes than
    /// requested, and a read at end-of-file returns none.
    pub fn read(&mut self, requested: usize) -> (r: Result<Vec<u8>, FsStatus>)
        requires
            old(self).wf(),
        ensures
            final(self).wf(),
            final(self).entry == old(self).entry,
            old(self).entry.meta.is_dir ==> r == Err::<Vec<u8>, FsStatus>(FsStatus::Unsupported)
                && *final(self) == *old(self),
            !old(self).entry.meta.is_dir ==> (r matches Ok(data) && {
                &&& data@ == raw_read(
                    old(self).entry.raw,
                    old(self).position as int,
                    vstd::math::min(
                        requested as int,
                        old(self).entry.meta.size - old(self).position,
                    ),
                )
                &&& data@.len() == vstd::math::min(
                    requested as int,
                    old(self).entry.meta.size - old(self).position,
                )
                &&& final(self).position == old(self).position + data@.len()
                &&& (old(self).position == old(self).entry.meta.size ==> data@.len() == 0)
                &&& (old(self).position + requested > old(self).entry.meta.size ==> data@.len()
                    < requested)
            }),
    {
        if self.entry.meta.is_dir {
            return Err(FsStatus::Unsupported);
        }
        let remaining = self.entry.meta.size - self.position;
        let count = if requested < remaining {
            requested
        } else {
            remaining
        };
        match file_read_raw(&self.entry, self.position, count) {
            Ok(data) => {
                self.position = self.position + data.len();
                Ok(data)
            },
            Err(_) => {
                proof {
                    assert(false);
                }
                Err(FsStatus::DeviceError)
            },
        }
    }

    /// Closing always succeeds; the handle itself is simply dropped.
    pub fn close(&self) -> (r: FsStatus)
        ensures
            r == FsStatus::Success,
    {
        FsStatus::Success
    }

    /// The filesystem is read-only: deletion is not offered.
    pub fn delete(&self) -> (r: FsStatus)
        ensures
            r == FsStatus::Unsupported,
    {
        FsStatus::Unsupported
    }

    /// The filesystem is read-only: writing is not offered.
    pub fn write(&self) -> (r: FsStatus)
        ensures
            r == FsStatus::Unsupported,
    {
        FsStatus::Unsupported
    }

    /// Absolute-position queries are not offered.
    pub fn get_position(&self) -> (r: FsStatus)
        ensures
            r == FsStatus::Unsupported,
    {
        FsStatus::Unsupported
    }

    /// Absolute-position updates are not offered.
    pub fn set_position(&self) -> (r: FsStatus)
        ensures
            r == FsStatus::Unsupported,
    {
        FsStatus::Unsupported
    }

    /// The filesystem is read-only: info updates are not offered.
    pub fn set_info(&self) -> (r: FsStatus)
        ensures
            r == FsStatus::Unsupported,
    {
        FsStatus::Unsupported
    }

    /// Nothing is buffered, so there is nothing to flush.
    pub fn flush(&self) -> (r: FsStatus)
        ensures
            r == FsStatus::Unsupported,
    {
        FsStatus::Unsupported
    }

    /// Answer an info query for this handle under the two-phase protocol:
    /// a too-small buffer gets the required size, a sufficient one gets the
    /// record; an info class this filesystem does not know is unsupported.
    pub fn get_info(&self, class: FsInfoClass, buffer_size: usize) -> (r: GetInfoResult)
        requires
            self.wf(),
        ensures
            class == FsInfoClass::FileInfo ==> match r {
                GetInfoResult::Filled(v) => buffer_size >= spec_file_info_required(self.entry.meta)
                    && v@ == spec_file_info_bytes(self.entry.meta),
                GetInfoResult::TooSmall(sz) => sz == spec_file_info_required(self.entry.meta)
                    && buffer_size < spec_file_info_required(self.entry.meta),
                GetInfoResult::Unsupported => false,
            },
            class == FsInfoClass::FileSystemInfo ==> match r {
                GetInfoResult::Filled(v) => buffer_size >= spec_fs_info_required() && v@
                    == spec_fs_info_bytes(),
                GetInfoResult::TooSmall(sz) => sz == spec_fs_info_required() && buffer_size
                    < spec_fs_info_required(),
                GetInfoResult::Unsupported => false,
            },
            class == FsInfoClass::Other ==> r == GetInfoResult::Unsupported,
    {
        match class {
            FsInfoClass::FileInfo => fill_file_info(&self.entry.meta, buffer_size),
            FsInfoClass::FileSystemInfo => fill_filesystem_info(buffer_size),
            FsInfoClass::Other => GetInfoResult::Unsupported,
        }
    }
}

/// Which info class an info query names.
#[derive(Debug, Clone, Copy, PartialEq, Eq, Structural)]
pub enum FsInfoClass {
    /// Per-entry information.
    FileInfo,
    /// Volume-level information.
    FileSystemInfo,
    /// Any other class identifier.
    Other,
}

/// Outcome of an info query under the two-phase size negotiation.
#[derive(Debug)]
pub enum GetInfoResult {
    /// The buffer suffices; these are the record's bytes.
    Filled(Vec<u8>),
    /// The buffer is too small; this is the required size.
    TooSmall(usize),
    /// The info class is not known.
    Unsupported,
}

/// Little-endian bytes of a 64-bit value.
pub open spec fn u64_le(v: u64) -> Seq<u8> {
    seq![
        (v as int % 256) as u8,
        (v as int / 0x100 % 256) as u8,
        (v as int / 0x1_0000 % 256) as u8,
        (v as int / 0x100_0000 % 256) as u8,
        (v as int / 0x1_0000_0000 % 256) as u8,
        (v as int / 0x100_0000_0000 % 256) as u8,
        (v as int / 0x1_0000_0000_0000 % 256) as u8,
        (v as int / 0x100_0000_0000_0000 % 256) as u8,
    ]
}

/// Little-endian bytes of a 32-bit value.
pub open spec fn u32_le(v: u32) -> Seq<u8> {
    seq![
        (v as int % 256) as u8,
        (v as int / 0x100 % 256) as u8,
        (v as int / 0x1_0000 % 256) as u8,
        (v as int / 0x100_0000 % 256) as u8,
    ]
}

/// A run of zero bytes.
pub open spec fn zero_bytes(n: int) -> Seq<u8> {
    Seq::new(n as nat, |i: int| 0u8)
}

/// Size in bytes of the answer to a per-entry info query: a fixed 80-byte
/// record followed by the name as a null-terminated wide string. A
/// directory's name is left out: only the terminator follows the record.
pub open spec fn spec_file_info_required(meta: EntryMeta) -> int {
    if meta.is_dir {
        82
    } else {
        80 + 2 * (wide_units(meta.name@).len() as int + 1)
    }
}

/// The bytes of the answer to a per-entry info query: total size, byte
/// length twice (logical and physical), three zeroed 16-byte timestamps,
/// the attribute word (read-only for a file, the directory flag for a
/// directory), and the null-terminated wide name.
pub open spec fn spec_file_info_bytes(meta: EntryMeta) -> Seq<u8> {
    if meta.is_dir {
        u64_le(82) + u64_le(0) + u64_le(0) + zero_bytes(48) + u64_le(0x10) + seq![0u8, 0u8]
    } else {
        let units = wide_units(meta.name@);
        u64_le((80 + 2 * (units.len() + 1)) as u64) + u64_le(meta.size as u64) + u64_le(
            meta.size as u64,
        ) + zero_bytes(48) + u64_le(1) + crate::devpath::le_bytes_of_units(units) + seq![0u8, 0u8]
    }
}

/// Size in bytes of the answer to a volume info query: a fixed 40-byte
/// record and the 8-unit null-terminated volume label.
pub open spec fn spec_fs_info_required() -> int {
    56
}

/// The bytes of the answer to a volume info query: total size, the
/// read-only flag, zero volume size and free space, the fixed 2048-byte
/// block size, and the null-terminated wide label naming the filesystem
/// type, with zero padding up to the reported size.
pub open spec fn spec_fs_info_bytes() -> Seq<u8> {
    u64_le(56) + seq![1u8] + zero_bytes(7) + u64_le(0) + u64_le(0) + u32_le(2048) + seq![
        73u8,
        0u8,
        83u8,
        0u8,
        79u8,
        0u8,
        57u8,
        0u8,
        54u8,
        0u8,
        54u8,
        0u8,
        48u8,
        0u8,
        0u8,
        0u8,
    ] + zero_bytes(4)
}

/// Append the little-endian bytes of a 64-bit value.
fn push_u64_le(out: &mut Vec<u8>, v: u64)
    ensures
        final(out)@ == old(out)@ + u64_le(v),
{
    out.push((v % 256) as u8);
    out.push((v / 0x100 % 256) as u8);
    out.push((v / 0x1_0000 % 256) as u8);
    out.push((v / 0x100_0000 % 256) as u8);
    out.push((v / 0x1_0000_0000 % 256) as u8);
    out.push((v / 0x100_0000_0000 % 256) as u8);
    out.push((v / 0x1_0000_0000_0000 % 256) as u8);
    out.push((v / 0x100_0000_0000_0000 % 256) as u8);
    proof {
        assert(out@ =~= old(out)@ + u64_le(v));
    }
}

/// Append `n` zero bytes.
fn push_zeros(out: &mut Vec<u8>, n: usize)
    ensures
        final(out)@ == old(out)@ + zero_bytes(n as int),
{
    let mut i: usize = 0;
    while i < n
        invariant
            i <= n,
            out@ == old(out)@ + zero_bytes(i as int),
        decreases n - i,
    {
        out.push(0u8);
        proof {
            assert(zero_bytes(i + 1) =~= zero_bytes(i as int).push(0u8));
        }
        i = i + 1;
    }
}

/// Append a wide string's units in little-endian byte order, followed by a
/// null terminator.
fn push_wide_with_nul(out: &mut Vec<u8>, units: &Vec<u16>)
    ensures
        final(out)@ == old(out)@ + crate::devpath::le_bytes_of_units(units@) + seq![0u8, 0u8],
{
    let mut i: usize = 0;
    while i < units.len()
        invariant
            i <= units@.len(),
            out@ == old(out)@ + crate::devpath::le_bytes_of_units(units@.take(i as int)),
        decreases units@.len() - i,
    {
        let v = units[i];
        out.push((v % 256) as u8);
        out.push((v / 256) as u8);
        proof {
            let now = units@.take(i + 1);
            assert(now.drop_last() =~= units@.take(i as int));
            assert(now.last() == units@[i as int]);
        }
        i = i + 1;
    }
    out.push(0u8);
    out.push(0u8);
    proof {
        assert(units@.take(units@.len() as int) =~= units@);
    }
}

/// Answer a per-entry info query under the two-phase size negotiation:
/// a buffer below the required size gets the required size and no data;
/// a sufficient buffer gets the record bytes.
pub fn fill_file_info(meta: &EntryMeta, buffer_size: usize) -> (r: GetInfoResult)
    requires
        meta.name@.len() <= 0xFFFF,
    ensures
        match r {
            GetInfoResult::Filled(v) => buffer_size >= spec_file_info_required(*meta) && v@
                == spec_file_info_bytes(*meta),
            GetInfoResult::TooSmall(sz) => sz == spec_file_info_required(*meta) && buffer_size
                < spec_file_info_required(*meta),
            GetInfoResult::Unsupported => false,
        },
{
    if meta.is_dir {
        if buffer_size < 82 {
            return GetInfoResult::TooSmall(82);
        }
        let mut out: Vec<u8> = Vec::new();
        push_u64_le(&mut out, 82);
        push_u64_le(&mut out, 0);
        push_u64_le(&mut out, 0);
        push_zeros(&mut out, 48);
        push_u64_le(&mut out, 0x10);
        out.push(0u8);
        out.push(0u8);
        proof {
            assert(out@ =~= spec_file_info_bytes(*meta));
        }
        GetInfoResult::Filled(out)
    } else {
        let units = crate::text::encode_wide(meta.name.as_str());
        proof {
            crate::text::lemma_wide_units_len_bound(meta.name@);
        }
        let required = 80 + 2 * (units.len() + 1);
        if buffer_size < required {
            return GetInfoResult::TooSmall(required);
        }
        let mut out: Vec<u8> = Vec::new();
        push_u64_le(&mut out, required as u64);
        push_u64_le(&mut out, meta.size as u64);
        push_u64_le(&mut out, meta.size as u64);
        push_zeros(&mut out, 48);
        push_u64_le(&mut out, 1);
        push_wide_with_nul(&mut out, &units);
        proof {
            assert(out@ =~= spec_file_info_bytes(*meta));
        }
        GetInfoResult::Filled(out)
    }
}

/// Answer a volume info query under the two-phase size negotiation. The
/// synthetic volume is read-only, reports no size and no free space, a
/// 2048-byte block size, and a label naming the filesystem type.
pub fn fill_filesystem_info(buffer_size: usize) -> (r: GetInfoResult)
    ensures
        match r {
            GetInfoResult::Filled(v) => buffer_size >= spec_fs_info_required() && v@
                == spec_fs_info_bytes(),
            GetInfoResult::TooSmall(sz) => sz == spec_fs_info_required() && buffer_size
                < spec_fs_info_required(),
            GetInfoResult::Unsupported => false,
        },
{
    if buffer_size < 56 {
        return GetInfoResult::TooSmall(56);
    }
    let mut out: Vec<u8> = Vec::new();
    push_u64_le(&mut out, 56);
    out.push(1u8);
    push_zeros(&mut out, 7);
    push_u64_le(&mut out, 0);
    push_u64_le(&mut out, 0);
    out.push(0u8);
    out.push(8u8);
    out.push(0u8);
    out.push(0u8);
    out.push(73u8);
    out.push(0u8);
    out.push(83u8);
    out.push(0u8);
    out.push(79u8);
    out.push(0u8);
    out.push(57u8);
    out.push(0u8);
    out.push(54u8);
    out.push(0u8);
    out.push(54u8);
    out.push(0u8);
    out.push(48u8);
    out.push(0u8);
    out.push(0u8);
    out.push(0u8);
    push_zeros(&mut out, 4);
    proof {
        assert(out@ =~= spec_fs_info_bytes());
    }
    GetInfoResult::Filled(out)
}

} // verus!
