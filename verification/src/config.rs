//! Configuration data: boot target descriptors, the chosen theme, and the
//! conversion of descriptors into boot targets. Reading and deserializing
//! the configuration file is the surrounding program's work; the plain
//! values land here.
use vstd::prelude::*;

use crate::bootables::BootTarget;
use crate::bootables::GenericBootTarget;
use crate::bootables::IsoBootTarget;

verus! {

/// The theme that determines how the boot menu and overlays are drawn.
#[derive(Debug, Clone, Copy, PartialEq, Eq, Structural)]
pub enum Theme {
    /// The plain built-in look.
    Default,
    /// A dark pastel look.
    Mocha,
    /// A console-styled look.
    Wii,
}

impl Default for Theme {
    /// The plain theme, when the configuration names none.
    fn default() -> (r: Theme)
        ensures
            r == Theme::Default,
    {
        Theme::Default
    }
}

/// One boot target descriptor of the configuration file.
#[derive(Debug)]
pub enum TargetConfig {
    /// A generic firmware executable boot target.
    Generic {
        /// Display label for the boot menu.
        label: String,
        /// Path reference of the executable.
        executable: String,
        /// Command line passed to the executable.
        options: String,
    },
    /// A boot target embedded in a disc image.
    Iso {
        /// Display label for the boot menu.
        label: String,
        /// Path of the disc image on the boot partition.
        iso_path: String,
        /// Path of the executable within the image, if configured.
        executable: Option<String>,
        /// Command line passed to the executable.
        options: String,
    },
}

/// The boot target a descriptor stands for.
pub open spec fn spec_boot_target_of(c: TargetConfig) -> BootTarget {
    match c {
        TargetConfig::Generic { label, executable, options } => BootTarget::Generic(
            GenericBootTarget { label, executable, options },
        ),
        TargetConfig::Iso { label, iso_path, executable, options } => BootTarget::Iso(
            IsoBootTarget { label, iso_path, executable, options },
        ),
    }
}

impl TargetConfig {
    /// Turn this descriptor into its boot target.
    pub fn into_boot_target(self) -> (r: BootTarget)
        ensures
            r == spec_boot_target_of(self),
    {
        match self {
            TargetConfig::Generic { label, executable, options } => BootTarget::Generic(
                GenericBootTarget { label, executable, options },
            ),
            TargetConfig::Iso { label, iso_path, executable, options } => BootTarget::Iso(
                IsoBootTarget { label, iso_path, executable, options },
            ),
        }
    }
}

/// The whole configuration: a theme and the configured boot targets.
#[derive(Debug)]
pub struct Config {
    /// The global theme.
    pub theme: Theme,
    /// The configured boot targets, in file order.
    pub boot_targets: Vec<TargetConfig>,
}

impl Config {
    /// Turn every descriptor into its boot target, in order.
    pub fn into_boot_targets(self) -> (r: Vec<BootTarget>)
        ensures
            r@.len() == self.boot_targets@.len(),
            forall|i: int|
                0 <= i < r@.len() ==> #[trigger] r@[i] == spec_boot_target_of(
                    self.boot_targets@[i],
                ),
    {
        let ghost orig: Seq<TargetConfig> = self.boot_targets@;
        let mut rest = self.boot_targets;
        let mut out: Vec<BootTarget> = Vec::new();
        while rest.len() > 0
            invariant
                rest@.len() <= orig.len(),
                rest@ =~= orig.skip(orig.len() - rest@.len()),
                out@.len() == orig.len() - rest@.len(),
                forall|i: int|
                    0 <= i < out@.len() ==> #[trigger] out@[i] == spec_boot_target_of(orig[i]),
            decreases rest@.len(),
        {
            let ghost j = orig.len() - rest@.len();
            let c = rest.remove(0);
            proof {
                assert(c == orig[j]);
                assert(rest@ =~= orig.skip(j + 1));
            }
            out.push(c.into_boot_target());
        }
        out
    }
}

/// Why loading or parsing the configuration failed.
#[derive(Debug, Clone, Copy, PartialEq, Eq, Structural)]
pub enum ConfigError {
    /// The configured path is not a valid firmware path.
    InvalidPath,
    /// The configuration file was not found.
    FileNotFound,
    /// Accessing the filesystem failed.
    FsError,
    /// The file contents are not valid text.
    EncodingError,
    /// The file contents do not parse.
    ParseError,
}

impl ConfigError {
    /// A short description of the failure.
    pub fn message(&self) -> (r: String)
        ensures
            self is InvalidPath ==> r@ == "Invalid file path"@,
            self is FileNotFound ==> r@ == "Config file not found"@,
            self is FsError ==> r@ == "Filesystem error"@,
            self is EncodingError ==> r@ == "File encoding error"@,
            self is ParseError ==> r@ == "TOML parse error"@,
    {
        match self {
            ConfigError::InvalidPath => String::from_str("Invalid file path"),
            ConfigError::FileNotFound => String::from_str("Config file not found"),
            ConfigError::FsError => String::from_str("Filesystem error"),
            ConfigError::EncodingError => String::from_str("File encoding error"),
            ConfigError::ParseError => String::from_str("TOML parse error"),
        }
    }
}

} // verus!
