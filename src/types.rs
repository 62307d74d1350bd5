//! The typed values that commands carry.
//!
//! Integers are wrapped so that values of different meaning cannot be mixed;
//! paths, names and payloads borrow their bytes from the decoded buffer.

use vstd::prelude::*;

verus! {

/// A transaction id of a subvolume.
#[derive(Debug, Clone, Copy, PartialEq, Eq, PartialOrd, Ord, Hash, Structural)]
pub struct Ctransid(pub u64);

/// An inode number.
#[derive(Debug, Clone, Copy, PartialEq, Eq, PartialOrd, Ord, Hash, Structural)]
pub struct Ino(pub u64);

/// An offset into a file, in bytes.
#[derive(Debug, Clone, Copy, PartialEq, Eq, PartialOrd, Ord, Hash, Structural)]
pub struct FileOffset(pub u64);

/// The number of bytes that a clone copies.
#[derive(Debug, Clone, Copy, PartialEq, Eq, PartialOrd, Ord, Hash, Structural)]
pub struct CloneLen(pub u64);

/// A device number, as `stat` reports it in `st_rdev`.
#[derive(Debug, Clone, Copy, PartialEq, Eq, PartialOrd, Ord, Hash, Structural)]
pub struct Rdev(pub u64);

/// Permission and file type bits, as `stat` reports them in `st_mode`.
#[derive(Debug, Clone, Copy, PartialEq, Eq, PartialOrd, Ord, Hash, Structural)]
pub struct Mode(pub u32);

/// A numeric user id.
#[derive(Debug, Clone, Copy, PartialEq, Eq, PartialOrd, Ord, Hash, Structural)]
pub struct Uid(pub u32);

/// A numeric group id.
#[derive(Debug, Clone, Copy, PartialEq, Eq, PartialOrd, Ord, Hash, Structural)]
pub struct Gid(pub u32);

/// The 16 bytes of a subvolume's UUID, in the order the wire carries them.
#[derive(Debug, Clone, Copy, PartialEq, Eq, PartialOrd, Ord, Hash)]
pub struct Uuid(pub [u8; 16]);

/// A point in time: seconds and nanoseconds since the Unix epoch.
#[derive(Debug, Clone, Copy, PartialEq, Eq, PartialOrd, Ord, Hash, Structural)]
pub struct Timespec {
    pub sec: u64,
    pub nsec: u32,
}

/// The access time of a file.
#[derive(Debug, Clone, Copy, PartialEq, Eq, PartialOrd, Ord, Hash, Structural)]
pub struct Atime(pub Timespec);

/// The modification time of a file.
#[derive(Debug, Clone, Copy, PartialEq, Eq, PartialOrd, Ord, Hash, Structural)]
pub struct Mtime(pub Timespec);

/// The status change time of a file.
#[derive(Debug, Clone, Copy, PartialEq, Eq, PartialOrd, Ord, Hash, Structural)]
pub struct Ctime(pub Timespec);

/// A path given to a newly created entry.
///
/// The stream is emitted in inode order, not in directory order, so the
/// directory that an entry belongs in may not exist yet when the entry is
/// created. The entry then gets a provisional name, which a later rename
/// command replaces with the final one.
#[derive(Debug, Clone, Copy, PartialEq, Eq, PartialOrd, Ord, Hash)]
pub struct TemporaryPath<'a>(pub &'a [u8]);

/// The target of a hard link or of a symbolic link.
#[derive(Debug, Clone, Copy, PartialEq, Eq, PartialOrd, Ord, Hash)]
pub struct LinkTarget<'a>(pub &'a [u8]);

/// The name of an extended attribute.
#[derive(Debug, Clone, Copy, PartialEq, Eq, PartialOrd, Ord, Hash)]
pub struct XattrName<'a>(pub &'a [u8]);

/// The value of an extended attribute.
#[derive(Debug, Clone, Copy, PartialEq, Eq, PartialOrd, Ord, Hash)]
pub struct XattrData<'a>(pub &'a [u8]);

/// The bytes that a write command puts into a file.
#[derive(Debug, Clone, Copy, PartialEq, Eq, PartialOrd, Ord, Hash)]
pub struct Data<'a>(pub &'a [u8]);

impl CloneLen {
    /// The length as a `usize`.
    pub fn as_usize(self) -> (r: usize)
        requires
            self.0 <= usize::MAX,
        ensures
            r as int == self.0,
    {
        self.0 as usize
    }
}

impl FileOffset {
    /// The offset as a `u64`.
    pub fn as_u64(self) -> (r: u64)
        ensures
            r == self.0,
    {
        self.0
    }
}

impl Rdev {
    /// The device number as a `u64`.
    pub fn as_u64(self) -> (r: u64)
        ensures
            r == self.0,
    {
        self.0
    }
}

impl<'a> TemporaryPath<'a> {
    /// The bytes of the path.
    pub fn path(&self) -> (r: &'a [u8])
        ensures
            r@ == self.0@,
    {
        self.0
    }
}

impl<'a> LinkTarget<'a> {
    /// The bytes of the path.
    pub fn path(&self) -> (r: &'a [u8])
        ensures
            r@ == self.0@,
    {
        self.0
    }
}

impl<'a> Data<'a> {
    /// The bytes of the payload.
    pub fn as_slice(&self) -> (r: &'a [u8])
        ensures
            r@ == self.0@,
    {
        self.0
    }
}

} // verus!
