//! Boot-target resolution and virtual-device layer of a firmware boot
//! manager: a URI-style grammar for addressing files across storage
//! partitions, a partition catalog, binary device-path construction, and a
//! read-only virtual filesystem over an in-memory optical-disc image.
pub mod bootables;
pub mod catalog;
pub mod config;
pub mod devpath;
pub mod guid;
pub mod iso_file;
pub mod iso_guard;
pub mod path;
pub mod text;
pub mod vfs;
