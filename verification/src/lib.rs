//! A marshalling layer for issuing SCSI commands to storage devices through
//! the host operating system's generic SCSI passthrough ioctl interface.
//!
//! The library builds the kernel request structure bit for bit, handles the
//! read, write, reset and query-max-transfer operation variants, and
//! translates kernel failure codes into a structured result. Issuing the
//! control request itself needs a raw pointer to the descriptor and an open
//! device handle, so the submission call stands outside this crate: callers
//! build a descriptor here, submit it, and map the kernel's completion back
//! through the result functions here.

pub mod cmd;
pub mod flags;
pub mod ops;

pub use cmd::Region;
pub use cmd::UScsiCmd;
pub use flags::Flags;
pub use ops::ScsiError;
