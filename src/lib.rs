//! Decoder for the btrfs send-stream wire format.
//!
//! A send-stream is a sequence of filesystem mutation commands framed with a
//! magic header, per-command checksums and type-length-value attributes.
//! [`Sendstream::parse_all`] turns a byte buffer into typed commands that
//! borrow their paths and payloads from that buffer. Its contract is stated
//! over the spec functions of [`wire`], [`attr`] and [`command`].
//! [`encode`] writes commands back into the same format, and [`laws`] proves
//! what follows, among it that decoding inverts encoding.

use vstd::prelude::*;

pub mod attr;
pub mod bytes;
pub mod command;
pub mod crc;
pub mod encode;
pub mod error;
pub mod laws;
pub mod types;
pub mod wire;

pub use crate::attr::{AttrKind, AttrType, AttrValue, Attrs};
pub use crate::command::{
    Chmod, Chown, Command, CommandType, Link, Mkdir, Mkfifo, Mkfile, Mknod, Mksock,
    Mkspecial, RemoveXattr, Rename, Rmdir, SetXattr, Snapshot, Subvol, Symlink, Truncate, Unlink,
    UpdateExtent, Utimes, Write,
};
pub use crate::error::Error;
pub use crate::types::{
    Atime, CloneLen, Ctime, Ctransid, Data, FileOffset, Gid, Ino, LinkTarget, Mode, Mtime, Rdev,
    TemporaryPath, Timespec, Uid, Uuid, XattrData, XattrName,
};
pub use crate::wire::Sendstream;

verus! {

/// The result of a decode.
pub type Result<R> = core::result::Result<R, Error>;

} // verus!
