//! A verified control library for zoned loop block devices.
//!
//! The library builds the exact command lines that the driver's control
//! file accepts (`add id=<id>[,<key>=<value>]*[,buffered]` and
//! `remove id=<id>`), suppressing every parameter that equals its default,
//! and filters a directory listing down to the zoned-loop block devices.
//! All filesystem probes, reads and writes stay with the caller, which
//! hands the library plain values and takes plain values back.

pub mod command;
pub mod context;
pub mod decimal;
pub mod error;
pub mod laws;
pub mod scan;
pub mod strutil;

pub use command::build_add_command;
pub use command::build_del_command;
pub use command::check_zloop_path;
pub use command::format_add_command;
pub use command::staging_path;
pub use context::DEFAULT_CAPACITY;
pub use context::DEFAULT_NR_CONV;
pub use context::DEFAULT_NR_QUEUES;
pub use context::DEFAULT_QUEUE_DEPTH;
pub use context::DEFAULT_ZONE_SIZE;
pub use context::ZLoopCtlCommand;
pub use context::ZLoopCtrlContext;
pub use error::ZloopError;
pub use scan::DirEntryInfo;
pub use scan::EntryVerdict;
pub use scan::FileKind;
pub use scan::basename;
pub use scan::check_zloop_driver;
pub use scan::classify_entry;
pub use scan::collect_devs;
pub use scan::control_path;
pub use scan::entry_is_zloop;
