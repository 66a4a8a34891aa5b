//! Boot targets and the decisions of the boot flow: resolving the target's
//! path reference, marshalling load options into the wide-string form the
//! firmware expects, and, for disc-image targets, extracting the embedded
//! executable. Handing the results to the firmware (loading and starting
//! the image) is the caller's work.
use vstd::prelude::*;

use crate::catalog::DiskManager;
use crate::catalog::ResolveError;
use crate::catalog::spec_first_match;
use crate::devpath::IsoDevicePath;
use crate::devpath::MAX_FILE_PATH_UNITS;
use crate::devpath::spec_append_file_path;
use crate::devpath::spec_iso_device_path;
use crate::path::PathRefParseError;
use crate::path::PathReference;
use crate::path::spec_parse;
use crate::text::encode_ucs2;
use crate::text::is_ucs2;
use crate::text::wide_units;
use crate::vfs::IsoDecodeError;
use crate::vfs::IsoFileHandle;
use crate::vfs::IsoVolume;
use crate::vfs::LookupModel;
use crate::vfs::LookupOutcome;
use crate::vfs::volume_lookup;

verus! {

/// What the menu renders for one boot entry.
pub struct DisplayOptions {
    /// The entry's label.
    pub label: String,
}

/// An entry that can be drawn in the boot menu.
pub trait DisplayEntry {
    /// What to render for this entry.
    fn display_options(&self) -> DisplayOptions;
}

/// The errors a boot attempt can surface. All of them are recoverable: the
/// menu layer reports them and returns to selection.
#[derive(Debug)]
pub enum AppError {
    /// The target's path reference does not parse.
    PathRef(PathRefParseError),
    /// The path reference matches no cataloged partition.
    Resolve(ResolveError),
    /// A string cannot be represented in the firmware's 16-bit form.
    Encoding,
    /// The disc image could not be decoded or searched.
    Iso(IsoDecodeError),
    /// Any other failure, described in words.
    Generic(String),
    /// A needed piece of configuration is missing, described in words.
    NotImplemented(String),
}

/// Everything the firmware needs to load and start a generic target: the
/// resolved device path and the null-terminated wide load options.
pub struct BootPlan {
    /// Device path of the executable, end node included.
    pub device_path: Vec<u8>,
    /// Command line in wide units, null terminator included.
    pub load_options: Vec<u16>,
}

/// Everything the firmware needs to load and start a disc-image target:
/// the executable image read out of the disc, the synthetic device path
/// that labels its origin, and the null-terminated wide load options.
pub struct IsoBootPlan {
    /// The embedded executable, all of its recorded size.
    pub image: Vec<u8>,
    /// The synthetic vendor device path.
    pub device_path: Vec<u8>,
    /// Command line in wide units, null terminator included.
    pub load_options: Vec<u16>,
}

/// Encode a command line for the firmware's load-options buffer: its wide
/// units followed by a null terminator.
fn encode_load_options(options: &str) -> (r: Result<Vec<u16>, AppError>)
    ensures
        match r {
            Ok(v) => is_ucs2(options@) && v@ == wide_units(options@).push(0u16),
            Err(e) => !is_ucs2(options@) && e is Encoding,
        },
{
    match encode_ucs2(options) {
        Some(mut units) => {
            units.push(0u16);
            Ok(units)
        },
        None => Err(AppError::Encoding),
    }
}

/// A generic firmware executable plus command line, chain-loadable
/// directly.
#[derive(Debug)]
pub struct GenericBootTarget {
    /// Display label for the boot menu.
    pub label: String,
    /// Path reference of the executable, in the grammar's text form.
    pub executable: String,
    /// Command line passed to the loaded image.
    pub options: String,
}

impl GenericBootTarget {
    /// Bundle a label, an executable path reference and a command line.
    pub fn new(label: &str, executable: &str, options: &str) -> (r: GenericBootTarget)
        ensures
            r.label@ == label@,
            r.executable@ == executable@,
            r.options@ == options@,
    {
        GenericBootTarget {
            label: String::from_str(label),
            executable: String::from_str(executable),
            options: String::from_str(options),
        }
    }

    /// What to render for this entry: its label.
    pub fn display_options(&self) -> (r: DisplayOptions)
        ensures
            r.label@ == self.label@,
    {
        DisplayOptions { label: self.label.clone() }
    }

    /// The decisions of a boot by device path: parse the executable's path
    /// reference, resolve it through the catalog, and marshal the command
    /// line. The plan is owed whenever the reference parses, a partition
    /// matches, and both strings fit the firmware's 16-bit form; every
    /// failure is a typed error. The caller loads and starts the image from
    /// the plan.
    pub fn prepare(&self, dm: &DiskManager) -> (r: Result<BootPlan, AppError>)
        ensures
            match r {
                Ok(plan) => {
                    &&& spec_parse(self.executable@) matches Ok(m) && spec_first_match(
                        dm.partitions@,
                        m.location,
                    ) >= 0 && plan.device_path@ == spec_append_file_path(
                        dm.partitions@[spec_first_match(dm.partitions@, m.location)].device_path@,
                        wide_units(m.path),
                    )
                    &&& is_ucs2(self.options@)
                    &&& plan.load_options@ == wide_units(self.options@).push(0u16)
                },
                Err(AppError::PathRef(pe)) => spec_parse(self.executable@) matches Err(e) && pe@
                    == e,
                Err(AppError::Resolve(ResolveError::NotFound)) => spec_parse(self.executable@)
                    matches Ok(m) && {
                    let idx = spec_first_match(dm.partitions@, m.location);
                    idx < 0 || !is_ucs2(m.path) || m.path.len() > MAX_FILE_PATH_UNITS
                        || dm.partitions@[idx].device_path@.len() < 4
                },
                Err(AppError::Encoding) => spec_parse(self.executable@) is Ok && !is_ucs2(
                    self.options@,
                ),
                Err(_) => false,
            },
            (spec_parse(self.executable@) matches Ok(m) && spec_first_match(
                dm.partitions@,
                m.location,
            ) >= 0 && is_ucs2(m.path) && m.path.len() <= MAX_FILE_PATH_UNITS && dm.partitions@[
                spec_first_match(dm.partitions@, m.location)
            ].device_path@.len() >= 4 && is_ucs2(self.options@)) ==> r is Ok,
    {
        let reference = match PathReference::parse(self.executable.as_str()) {
            Ok(p) => p,
            Err(e) => {
                return Err(AppError::PathRef(e));
            },
        };
        let device_path = match dm.resolve_path(&reference) {
            Ok(v) => v,
            Err(e) => {
                return Err(AppError::Resolve(e));
            },
        };
        let load_options = match encode_load_options(self.options.as_str()) {
            Ok(v) => v,
            Err(e) => {
                return Err(e);
            },
        };
        Ok(BootPlan { device_path, load_options })
    }
}

impl DisplayEntry for GenericBootTarget {
    fn display_options(&self) -> DisplayOptions {
        GenericBootTarget::display_options(self)
    }
}

/// A boot target embedded in an optical-disc image: the image lives on the
/// boot partition, and the executable lives inside the image's filesystem.
#[derive(Debug)]
pub struct IsoBootTarget {
    /// Display label for the boot menu.
    pub label: String,
    /// Path of the disc image on the boot partition.
    pub iso_path: String,
    /// Path of the executable within the image's filesystem; without one
    /// the target cannot boot yet.
    pub executable: Option<String>,
    /// Command line passed to the loaded image.
    pub options: String,
}

impl IsoBootTarget {
    /// What to render for this entry: its label, marked as a disc image.
    pub fn display_options(&self) -> (r: DisplayOptions)
        ensures
            r.label@ == "ISO loadable "@ + self.label@,
    {
        let mut label = String::from_str("ISO loadable ");
        label.append(self.label.as_str());
        DisplayOptions { label }
    }

    /// The configured executable path within the image, or a typed error
    /// when none is configured.
    pub fn find_executable(&self) -> (r: Result<&String, AppError>)
        ensures
            match r {
                Ok(s) => self.executable matches Some(e) && s@ == e@,
                Err(e) => self.executable is None && (e matches AppError::NotImplemented(s) && s@
                    == "Please configure executable path."@),
            },
    {
        match &self.executable {
            Some(s) => Ok(s),
            None => Err(
                AppError::NotImplemented(String::from_str("Please configure executable path.")),
            ),
        }
    }

    /// The decisions of a disc-image boot that need no firmware: look the
    /// configured executable up inside the decoded image, read it whole —
    /// the plan's buffer holds exactly the found entry's contents — and
    /// marshal the command line and the synthetic device path. The plan is
    /// owed whenever an executable is configured, the lookup finds a file,
    /// and the command line fits the firmware's 16-bit form; every failure
    /// is a typed error. The caller installs the synthetic device and loads
    /// the image from the buffer.
    pub fn prepare(&self, volume: &IsoVolume) -> (r: Result<IsoBootPlan, AppError>)
        ensures
            match r {
                Ok(plan) => {
                    &&& self.executable matches Some(p) && volume_lookup(*volume, p@)
                        matches LookupModel::Found { is_dir, size, content, .. } && !is_dir
                        && plan.image@ == content && plan.image@.len() == size
                    &&& plan.device_path@ == spec_iso_device_path()
                    &&& is_ucs2(self.options@)
                    &&& plan.load_options@ == wide_units(self.options@).push(0u16)
                },
                Err(AppError::NotImplemented(s)) => self.executable is None && s@
                    == "Please configure executable path."@,
                Err(AppError::Generic(s)) => self.executable matches Some(p) && ((volume_lookup(
                    *volume,
                    p@,
                ) matches LookupModel::Found { is_dir, .. } && is_dir && s@
                    == "Executable is a directory"@) || (volume_lookup(*volume, p@) is NotFound
                    && s@ == "Executable is a not found"@)),
                Err(AppError::Iso(_)) => self.executable matches Some(p) && volume_lookup(
                    *volume,
                    p@,
                ) is Error,
                Err(AppError::Encoding) => self.executable matches Some(p) && volume_lookup(
                    *volume,
                    p@,
                ) matches LookupModel::Found { is_dir, .. } && !is_dir && !is_ucs2(self.options@),
                Err(_) => false,
            },
            self.executable is None ==> (r matches Err(e) && e is NotImplemented),
            (self.executable matches Some(p) && volume_lookup(*volume, p@)
                matches LookupModel::Found { is_dir, .. } && !is_dir && is_ucs2(self.options@))
                ==> r is Ok,
    {
        let executable = match self.find_executable() {
            Ok(s) => s,
            Err(e) => {
                return Err(e);
            },
        };
        let entry = match volume.find_entry(executable.as_str()) {
            LookupOutcome::Found(e) => e,
            LookupOutcome::NotFound => {
                return Err(AppError::Generic(String::from_str("Executable is a not found")));
            },
            LookupOutcome::LookupError => {
                return Err(AppError::Iso(IsoDecodeError));
            },
        };
        if entry.meta.is_dir {
            return Err(AppError::Generic(String::from_str("Executable is a directory")));
        }
        let size = entry.meta.size;
        let mut handle = IsoFileHandle::new(entry);
        let image = match handle.read(size) {
            Ok(data) => data,
            Err(_) => {
                proof {
                    assert(false);
                }
                return Err(AppError::Iso(IsoDecodeError));
            },
        };
        let load_options = match encode_load_options(self.options.as_str()) {
            Ok(v) => v,
            Err(e) => {
                return Err(e);
            },
        };
        Ok(
            IsoBootPlan {
                image,
                device_path: IsoDevicePath::new().bytes,
                load_options,
            },
        )
    }
}

impl DisplayEntry for IsoBootTarget {
    fn display_options(&self) -> DisplayOptions {
        IsoBootTarget::display_options(self)
    }
}

/// A configured boot target of either kind.
#[derive(Debug)]
pub enum BootTarget {
    /// A directly chain-loadable executable.
    Generic(GenericBootTarget),
    /// An executable embedded in a disc image.
    Iso(IsoBootTarget),
}

impl DisplayEntry for BootTarget {
    fn display_options(&self) -> DisplayOptions {
        match self {
            BootTarget::Generic(t) => GenericBootTarget::display_options(t),
            BootTarget::Iso(t) => IsoBootTarget::display_options(t),
        }
    }
}

} // verus!
