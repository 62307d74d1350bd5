//! Command types, the typed command records, and how they are built from
//! decoded attributes.

use vstd::prelude::*;

use crate::attr::{attr_kind, lookup, AttrKind, AttrType, AttrVal, AttrValue, Attrs};
use crate::error::{DecodeError, Error};
use crate::types::{
    Atime, CloneLen, Ctime, Ctransid, Data, FileOffset, Gid, Ino, LinkTarget, Mode, Mtime, Rdev,
    TemporaryPath, Timespec, Uid, Uuid, XattrData, XattrName,
};

verus! {

/// The type tag of a command.
#[derive(Debug, Clone, Copy, PartialEq, Eq, Hash, Structural)]
pub enum CommandType {
    Subvol,
    Snapshot,
    Mkfile,
    Mkdir,
    Mknod,
    Mkfifo,
    Mksock,
    Symlink,
    Rename,
    Link,
    Unlink,
    Rmdir,
    SetXattr,
    RemoveXattr,
    Write,
    Clone,
    Truncate,
    Chmod,
    Chown,
    Utimes,
    End,
    UpdateExtent,
}

/// The wire tag of a command type.
pub open spec fn command_tag(c: CommandType) -> u16 {
    match c {
        CommandType::Subvol => 1,
        CommandType::Snapshot => 2,
        CommandType::Mkfile => 3,
        CommandType::Mkdir => 4,
        CommandType::Mknod => 5,
        CommandType::Mkfifo => 6,
        CommandType::Mksock => 7,
        CommandType::Symlink => 8,
        CommandType::Rename => 9,
        CommandType::Link => 10,
        CommandType::Unlink => 11,
        CommandType::Rmdir => 12,
        CommandType::SetXattr => 13,
        CommandType::RemoveXattr => 14,
        CommandType::Write => 15,
        CommandType::Clone => 16,
        CommandType::Truncate => 17,
        CommandType::Chmod => 18,
        CommandType::Chown => 19,
        CommandType::Utimes => 20,
        CommandType::End => 21,
        CommandType::UpdateExtent => 22,
    }
}

/// The command type that a wire tag denotes, if any.
pub open spec fn command_type_of(tag: u16) -> Option<CommandType> {
    match tag {
        1 => Some(CommandType::Subvol),
        2 => Some(CommandType::Snapshot),
        3 => Some(CommandType::Mkfile),
        4 => Some(CommandType::Mkdir),
        5 => Some(CommandType::Mknod),
        6 => Some(CommandType::Mkfifo),
        7 => Some(CommandType::Mksock),
        8 => Some(CommandType::Symlink),
        9 => Some(CommandType::Rename),
        10 => Some(CommandType::Link),
        11 => Some(CommandType::Unlink),
        12 => Some(CommandType::Rmdir),
        13 => Some(CommandType::SetXattr),
        14 => Some(CommandType::RemoveXattr),
        15 => Some(CommandType::Write),
        16 => Some(CommandType::Clone),
        17 => Some(CommandType::Truncate),
        18 => Some(CommandType::Chmod),
        19 => Some(CommandType::Chown),
        20 => Some(CommandType::Utimes),
        21 => Some(CommandType::End),
        22 => Some(CommandType::UpdateExtent),
        _ => None,
    }
}

impl CommandType {
    /// The wire tag of this command type.
    pub fn tag(self) -> (r: u16)
        ensures
            r == command_tag(self),
    {
        match self {
            CommandType::Subvol => 1,
            CommandType::Snapshot => 2,
            CommandType::Mkfile => 3,
            CommandType::Mkdir => 4,
            CommandType::Mknod => 5,
            CommandType::Mkfifo => 6,
            CommandType::Mksock => 7,
            CommandType::Symlink => 8,
            CommandType::Rename => 9,
            CommandType::Link => 10,
            CommandType::Unlink => 11,
            CommandType::Rmdir => 12,
            CommandType::SetXattr => 13,
            CommandType::RemoveXattr => 14,
            CommandType::Write => 15,
            CommandType::Clone => 16,
            CommandType::Truncate => 17,
            CommandType::Chmod => 18,
            CommandType::Chown => 19,
            CommandType::Utimes => 20,
            CommandType::End => 21,
            CommandType::UpdateExtent => 22,
        }
    }

    /// The command type that a wire tag denotes, if any.
    pub fn from_tag(tag: u16) -> (r: Option<CommandType>)
        ensures
            r == command_type_of(tag),
    {
        match tag {
            1 => Some(CommandType::Subvol),
            2 => Some(CommandType::Snapshot),
            3 => Some(CommandType::Mkfile),
            4 => Some(CommandType::Mkdir),
            5 => Some(CommandType::Mknod),
            6 => Some(CommandType::Mkfifo),
            7 => Some(CommandType::Mksock),
            8 => Some(CommandType::Symlink),
            9 => Some(CommandType::Rename),
            10 => Some(CommandType::Link),
            11 => Some(CommandType::Unlink),
            12 => Some(CommandType::Rmdir),
            13 => Some(CommandType::SetXattr),
            14 => Some(CommandType::RemoveXattr),
            15 => Some(CommandType::Write),
            16 => Some(CommandType::Clone),
            17 => Some(CommandType::Truncate),
            18 => Some(CommandType::Chmod),
            19 => Some(CommandType::Chown),
            20 => Some(CommandType::Utimes),
            21 => Some(CommandType::End),
            22 => Some(CommandType::UpdateExtent),
            _ => None,
        }
    }
}

/// Creates a subvolume.
#[derive(Debug, Clone, PartialEq, Eq)]
pub struct Subvol<'a> {
    pub path: &'a [u8],
    pub uuid: Uuid,
    pub ctransid: Ctransid,
}

/// Creates a snapshot of another subvolume.
#[derive(Debug, Clone, PartialEq, Eq)]
pub struct Snapshot<'a> {
    pub path: &'a [u8],
    pub uuid: Uuid,
    pub ctransid: Ctransid,
    pub clone_uuid: Uuid,
    pub clone_ctransid: Ctransid,
}

/// Creates a regular file.
#[derive(Debug, Clone, PartialEq, Eq)]
pub struct Mkfile<'a> {
    pub path: TemporaryPath<'a>,
    pub ino: Ino,
}

/// Creates a directory.
#[derive(Debug, Clone, PartialEq, Eq)]
pub struct Mkdir<'a> {
    pub path: TemporaryPath<'a>,
    pub ino: Ino,
}

/// What the commands that create a special file have in common.
#[derive(Debug, Clone, PartialEq, Eq)]
pub struct Mkspecial<'a> {
    pub path: TemporaryPath<'a>,
    pub ino: Ino,
    pub rdev: Rdev,
    pub mode: Mode,
}

/// Creates a device node.
#[derive(Debug, Clone, PartialEq, Eq)]
pub struct Mknod<'a>(pub Mkspecial<'a>);

/// Creates a named pipe.
#[derive(Debug, Clone, PartialEq, Eq)]
pub struct Mkfifo<'a>(pub Mkspecial<'a>);

/// Creates a unix socket.
#[derive(Debug, Clone, PartialEq, Eq)]
pub struct Mksock<'a>(pub Mkspecial<'a>);

/// Creates a symbolic link.
#[derive(Debug, Clone, PartialEq, Eq)]
pub struct Symlink<'a> {
    pub link_name: TemporaryPath<'a>,
    pub ino: Ino,
    pub target: LinkTarget<'a>,
}

/// Moves an entry.
#[derive(Debug, Clone, PartialEq, Eq)]
pub struct Rename<'a> {
    pub from: &'a [u8],
    pub to: &'a [u8],
}

/// Creates a hard link.
#[derive(Debug, Clone, PartialEq, Eq)]
pub struct Link<'a> {
    pub link_name: &'a [u8],
    pub target: LinkTarget<'a>,
}

/// Removes a file.
#[derive(Debug, Clone, PartialEq, Eq)]
pub struct Unlink<'a> {
    pub path: &'a [u8],
}

/// Removes a directory.
#[derive(Debug, Clone, PartialEq, Eq)]
pub struct Rmdir<'a> {
    pub path: &'a [u8],
}

/// Sets an extended attribute.
#[derive(Debug, Clone, PartialEq, Eq)]
pub struct SetXattr<'a> {
    pub path: &'a [u8],
    pub name: XattrName<'a>,
    pub data: XattrData<'a>,
}

/// Removes an extended attribute.
#[derive(Debug, Clone, PartialEq, Eq)]
pub struct RemoveXattr<'a> {
    pub path: &'a [u8],
    pub name: XattrName<'a>,
}

/// Writes bytes into a file.
#[derive(Debug, Clone, PartialEq, Eq)]
pub struct Write<'a> {
    pub path: &'a [u8],
    pub offset: FileOffset,
    pub data: Data<'a>,
}

/// Copies a range of another file, possibly of another subvolume, into a file.
#[derive(Debug, Clone, PartialEq, Eq)]
pub struct Clone<'a> {
    pub src_offset: FileOffset,
    pub len: CloneLen,
    pub src_path: &'a [u8],
    pub uuid: Uuid,
    pub ctransid: Ctransid,
    pub dst_path: &'a [u8],
    pub dst_offset: FileOffset,
}

/// Sets the size of a file.
#[derive(Debug, Clone, PartialEq, Eq)]
pub struct Truncate<'a> {
    pub path: &'a [u8],
    pub size: u64,
}

/// Sets the permission bits of an entry.
#[derive(Debug, Clone, PartialEq, Eq)]
pub struct Chmod<'a> {
    pub path: &'a [u8],
    pub mode: Mode,
}

/// Sets the owner of an entry.
#[derive(Debug, Clone, PartialEq, Eq)]
pub struct Chown<'a> {
    pub path: &'a [u8],
    pub uid: Uid,
    pub gid: Gid,
}

/// Sets the times of an entry.
#[derive(Debug, Clone, PartialEq, Eq)]
pub struct Utimes<'a> {
    pub path: &'a [u8],
    pub atime: Atime,
    pub mtime: Mtime,
    pub ctime: Ctime,
}

/// Marks a range of a file as changed without sending its contents.
#[derive(Debug, Clone, PartialEq, Eq)]
pub struct UpdateExtent<'a> {
    pub path: &'a [u8],
    pub offset: FileOffset,
    pub len: u64,
}

/// One decoded command.
#[derive(Debug, Clone, PartialEq, Eq)]
pub enum Command<'a> {
    Chmod(Chmod<'a>),
    Chown(Chown<'a>),
    Clone(Clone<'a>),
    End,
    Link(Link<'a>),
    Mkdir(Mkdir<'a>),
    Mkfifo(Mkfifo<'a>),
    Mkfile(Mkfile<'a>),
    Mknod(Mknod<'a>),
    Mksock(Mksock<'a>),
    RemoveXattr(RemoveXattr<'a>),
    Rename(Rename<'a>),
    Rmdir(Rmdir<'a>),
    SetXattr(SetXattr<'a>),
    Snapshot(Snapshot<'a>),
    Subvol(Subvol<'a>),
    Symlink(Symlink<'a>),
    Truncate(Truncate<'a>),
    Unlink(Unlink<'a>),
    UpdateExtent(UpdateExtent<'a>),
    Utimes(Utimes<'a>),
    Write(Write<'a>),
}

/// The mathematical value of a command: its type and the values of the
/// attributes its type requires, in the order [`schema`] lists them.
pub struct CommandModel {
    pub ty: CommandType,
    pub fields: Seq<AttrVal>,
}

/// The attributes that a command of type `c` requires, in a fixed order.
pub open spec fn schema(c: CommandType) -> Seq<AttrType> {
    match c {
        CommandType::Subvol => seq![AttrType::Path, AttrType::Uuid, AttrType::Ctransid],
        CommandType::Snapshot => seq![
            AttrType::Path,
            AttrType::Uuid,
            AttrType::Ctransid,
            AttrType::CloneUuid,
            AttrType::CloneCtransid,
        ],
        CommandType::Mkfile | CommandType::Mkdir => seq![AttrType::Path, AttrType::Ino],
        CommandType::Mknod | CommandType::Mkfifo | CommandType::Mksock => seq![
            AttrType::Path,
            AttrType::Ino,
            AttrType::Rdev,
            AttrType::Mode,
        ],
        CommandType::Symlink => seq![AttrType::Path, AttrType::Ino, AttrType::PathLink],
        CommandType::Rename => seq![AttrType::Path, AttrType::PathTo],
        CommandType::Link => seq![AttrType::Path, AttrType::PathLink],
        CommandType::Unlink | CommandType::Rmdir => seq![AttrType::Path],
        CommandType::SetXattr => seq![AttrType::Path, AttrType::XattrName, AttrType::XattrData],
        CommandType::RemoveXattr => seq![AttrType::Path, AttrType::XattrName],
        CommandType::Write => seq![AttrType::Path, AttrType::FileOffset, AttrType::Data],
        CommandType::Clone => seq![
            AttrType::Path,
            AttrType::FileOffset,
            AttrType::CloneLen,
            AttrType::CloneUuid,
            AttrType::CloneCtransid,
            AttrType::ClonePath,
            AttrType::CloneOffset,
        ],
        CommandType::Truncate => seq![AttrType::Path, AttrType::Size],
        CommandType::Chmod => seq![AttrType::Path, AttrType::Mode],
        CommandType::Chown => seq![AttrType::Path, AttrType::Uid, AttrType::Gid],
        CommandType::Utimes => seq![
            AttrType::Path,
            AttrType::Atime,
            AttrType::Mtime,
            AttrType::Ctime,
        ],
        CommandType::End => seq![],
        CommandType::UpdateExtent => seq![AttrType::Path, AttrType::FileOffset, AttrType::Size],
    }
}

/// No command type requires more than seven attributes.
pub proof fn lemma_schema_len(c: CommandType)
    ensures
        schema(c).len() <= 7,
{
}

/// Whether `v` has the shape that decode rule `k` produces.
pub open spec fn has_kind(v: AttrVal, k: AttrKind) -> bool {
    match k {
        AttrKind::U64 => v is Int,
        AttrKind::U32In64 => v matches AttrVal::Int(x) && x <= u32::MAX,
        AttrKind::Uuid => v matches AttrVal::Uuid(u) && u.len() == 16,
        AttrKind::Timespec => v is Time,
        AttrKind::Bytes => v is Bytes,
    }
}

/// The value that slot `t` of a command of type `c` takes from `attrs`.
pub open spec fn slot(c: CommandType, attrs: Seq<(AttrType, AttrVal)>, t: AttrType) -> Result<
    AttrVal,
    DecodeError,
> {
    match lookup(attrs, t) {
        None => Err(DecodeError::MissingRequiredAttribute { command: c, attribute: t }),
        Some(v) => if has_kind(v, attr_kind(t)) {
            Ok(v)
        } else {
            Err(DecodeError::MalformedAttribute(t))
        },
    }
}

/// The values of slots `s` of a command of type `c`, or the failure of the
/// first slot that has none.
pub open spec fn build_fields(
    c: CommandType,
    attrs: Seq<(AttrType, AttrVal)>,
    s: Seq<AttrType>,
) -> Result<Seq<AttrVal>, DecodeError>
    decreases s.len(),
{
    if s.len() == 0 {
        Ok(seq![])
    } else {
        match slot(c, attrs, s[0]) {
            Err(e) => Err(e),
            Ok(v) => match build_fields(c, attrs, s.drop_first()) {
                Err(e) => Err(e),
                Ok(rest) => Ok(seq![v] + rest),
            },
        }
    }
}

/// The command of type `c` that `attrs` describe.
pub open spec fn build_command(c: CommandType, attrs: Seq<(AttrType, AttrVal)>) -> Result<
    CommandModel,
    DecodeError,
> {
    match build_fields(c, attrs, schema(c)) {
        Err(e) => Err(e),
        Ok(fields) => Ok(CommandModel { ty: c, fields }),
    }
}

/// The model of a path, a name or a payload.
pub open spec fn bytes_val(b: &[u8]) -> AttrVal {
    AttrVal::Bytes(b@)
}

/// The model of a time.
pub open spec fn time_val(t: Timespec) -> AttrVal {
    AttrVal::Time(t.sec, t.nsec)
}

/// The model of the fields shared by the special file commands.
pub open spec fn special_fields(m: Mkspecial) -> Seq<AttrVal> {
    seq![
        bytes_val(m.path.0),
        AttrVal::Int(m.ino.0),
        AttrVal::Int(m.rdev.0),
        AttrVal::Int(m.mode.0 as u64),
    ]
}

impl<'a> View for Command<'a> {
    type V = CommandModel;

    open spec fn view(&self) -> CommandModel {
        match self {
            Command::Subvol(c) => CommandModel {
                ty: CommandType::Subvol,
                fields: seq![bytes_val(c.path), AttrVal::Uuid(c.uuid.0@), AttrVal::Int(c.ctransid.0)],
            },
            Command::Snapshot(c) => CommandModel {
                ty: CommandType::Snapshot,
                fields: seq![
                    bytes_val(c.path),
                    AttrVal::Uuid(c.uuid.0@),
                    AttrVal::Int(c.ctransid.0),
                    AttrVal::Uuid(c.clone_uuid.0@),
                    AttrVal::Int(c.clone_ctransid.0),
                ],
            },
            Command::Mkfile(c) => CommandModel {
                ty: CommandType::Mkfile,
                fields: seq![bytes_val(c.path.0), AttrVal::Int(c.ino.0)],
            },
            Command::Mkdir(c) => CommandModel {
                ty: CommandType::Mkdir,
                fields: seq![bytes_val(c.path.0), AttrVal::Int(c.ino.0)],
            },
            Command::Mknod(c) => CommandModel { ty: CommandType::Mknod, fields: special_fields(c.0) },
            Command::Mkfifo(c) => CommandModel {
                ty: CommandType::Mkfifo,
                fields: special_fields(c.0),
            },
            Command::Mksock(c) => CommandModel {
                ty: CommandType::Mksock,
                fields: special_fields(c.0),
            },
            Command::Symlink(c) => CommandModel {
                ty: CommandType::Symlink,
                fields: seq![bytes_val(c.link_name.0), AttrVal::Int(c.ino.0), bytes_val(c.target.0)],
            },
            Command::Rename(c) => CommandModel {
                ty: CommandType::Rename,
                fields: seq![bytes_val(c.from), bytes_val(c.to)],
            },
            Command::Link(c) => CommandModel {
                ty: CommandType::Link,
                fields: seq![bytes_val(c.link_name), bytes_val(c.target.0)],
            },
            Command::Unlink(c) => CommandModel {
                ty: CommandType::Unlink,
                fields: seq![bytes_val(c.path)],
            },
            Command::Rmdir(c) => CommandModel { ty: CommandType::Rmdir, fields: seq![bytes_val(c.path)] },
            Command::SetXattr(c) => CommandModel {
                ty: CommandType::SetXattr,
                fields: seq![bytes_val(c.path), bytes_val(c.name.0), bytes_val(c.data.0)],
            },
            Command::RemoveXattr(c) => CommandModel {
                ty: CommandType::RemoveXattr,
                fields: seq![bytes_val(c.path), bytes_val(c.name.0)],
            },
            Command::Write(c) => CommandModel {
                ty: CommandType::Write,
                fields: seq![bytes_val(c.path), AttrVal::Int(c.offset.0), bytes_val(c.data.0)],
            },
            Command::Clone(c) => CommandModel {
                ty: CommandType::Clone,
                fields: seq![
                    bytes_val(c.dst_path),
                    AttrVal::Int(c.dst_offset.0),
                    AttrVal::Int(c.len.0),
                    AttrVal::Uuid(c.uuid.0@),
                    AttrVal::Int(c.ctransid.0),
                    bytes_val(c.src_path),
                    AttrVal::Int(c.src_offset.0),
                ],
            },
            Command::Truncate(c) => CommandModel {
                ty: CommandType::Truncate,
                fields: seq![bytes_val(c.path), AttrVal::Int(c.size)],
            },
            Command::Chmod(c) => CommandModel {
                ty: CommandType::Chmod,
                fields: seq![bytes_val(c.path), AttrVal::Int(c.mode.0 as u64)],
            },
            Command::Chown(c) => CommandModel {
                ty: CommandType::Chown,
                fields: seq![
                    bytes_val(c.path),
                    AttrVal::Int(c.uid.0 as u64),
                    AttrVal::Int(c.gid.0 as u64),
                ],
            },
            Command::Utimes(c) => CommandModel {
                ty: CommandType::Utimes,
                fields: seq![
                    bytes_val(c.path),
                    time_val(c.atime.0),
                    time_val(c.mtime.0),
                    time_val(c.ctime.0),
                ],
            },
            Command::End => CommandModel { ty: CommandType::End, fields: seq![] },
            Command::UpdateExtent(c) => CommandModel {
                ty: CommandType::UpdateExtent,
                fields: seq![bytes_val(c.path), AttrVal::Int(c.offset.0), AttrVal::Int(c.len)],
            },
        }
    }
}

impl<'a> Attrs<'a> {
    /// The value of slot `t` of a command of type `c`: the last attribute of
    /// type `t`, if it has the shape that `t` requires.
    pub fn slot(&self, c: CommandType, t: AttrType) -> (r: Result<AttrValue<'a>, Error>)
        ensures
            match r {
                Ok(v) => slot(c, self@, t) == Ok::<_, DecodeError>(v@),
                Err(e) => slot(c, self@, t) == Err::<AttrVal, _>(e@),
            },
    {
        let mut i = self.entries.len();
        assert(self@.subrange(0, i as int) =~= self@);
        while i > 0
            invariant
                i <= self.entries@.len(),
                lookup(self@, t) == lookup(self@.subrange(0, i as int), t),
            decreases i,
        {
            let ghost pre = self@.subrange(0, i as int);
            assert(pre.drop_last() =~= self@.subrange(0, i - 1));
            assert(pre.last() == (self.entries@[i - 1].0, self.entries@[i - 1].1@));
            if self.entries[i - 1].0 == t {
                let v = self.entries[i - 1].1;
                let ok = match v {
                    AttrValue::Int(x) => match t.kind() {
                        AttrKind::U64 => true,
                        AttrKind::U32In64 => x <= 0xffff_ffff,
                        _ => false,
                    },
                    AttrValue::Uuid(_) => t.kind() == AttrKind::Uuid,
                    AttrValue::Time(_) => t.kind() == AttrKind::Timespec,
                    AttrValue::Bytes(_) => t.kind() == AttrKind::Bytes,
                };
                if ok {
                    return Ok(v);
                } else {
                    return Err(Error::MalformedAttribute(t));
                }
            }
            i = i - 1;
        }
        Err(Error::MissingRequiredAttribute { command: c, attribute: t })
    }

    fn int_slot(&self, c: CommandType, t: AttrType) -> (r: Result<u64, Error>)
        requires
            attr_kind(t) == AttrKind::U64,
        ensures
            match r {
                Ok(v) => slot(c, self@, t) == Ok::<_, DecodeError>(AttrVal::Int(v)),
                Err(e) => slot(c, self@, t) == Err::<AttrVal, _>(e@),
            },
    {
        match self.slot(c, t)? {
            AttrValue::Int(x) => Ok(x),
            _ => Err(Error::MalformedAttribute(t)),
        }
    }

    fn u32_slot(&self, c: CommandType, t: AttrType) -> (r: Result<u32, Error>)
        requires
            attr_kind(t) == AttrKind::U32In64,
        ensures
            match r {
                Ok(v) => slot(c, self@, t) == Ok::<_, DecodeError>(AttrVal::Int(v as u64)),
                Err(e) => slot(c, self@, t) == Err::<AttrVal, _>(e@),
            },
    {
        match self.slot(c, t)? {
            AttrValue::Int(x) => if x <= 0xffff_ffff {
                Ok(x as u32)
            } else {
                Err(Error::MalformedAttribute(t))
            },
            _ => Err(Error::MalformedAttribute(t)),
        }
    }

    fn uuid_slot(&self, c: CommandType, t: AttrType) -> (r: Result<Uuid, Error>)
        requires
            attr_kind(t) == AttrKind::Uuid,
        ensures
            match r {
                Ok(v) => slot(c, self@, t) == Ok::<_, DecodeError>(AttrVal::Uuid(v.0@)),
                Err(e) => slot(c, self@, t) == Err::<AttrVal, _>(e@),
            },
    {
        match self.slot(c, t)? {
            AttrValue::Uuid(u) => Ok(u),
            _ => Err(Error::MalformedAttribute(t)),
        }
    }

    fn time_slot(&self, c: CommandType, t: AttrType) -> (r: Result<Timespec, Error>)
        requires
            attr_kind(t) == AttrKind::Timespec,
        ensures
            match r {
                Ok(v) => slot(c, self@, t) == Ok::<_, DecodeError>(time_val(v)),
                Err(e) => slot(c, self@, t) == Err::<AttrVal, _>(e@),
            },
    {
        match self.slot(c, t)? {
            AttrValue::Time(x) => Ok(x),
            _ => Err(Error::MalformedAttribute(t)),
        }
    }

    fn bytes_slot(&self, c: CommandType, t: AttrType) -> (r: Result<&'a [u8], Error>)
        requires
            attr_kind(t) == AttrKind::Bytes,
        ensures
            match r {
                Ok(v) => slot(c, self@, t) == Ok::<_, DecodeError>(bytes_val(v)),
                Err(e) => slot(c, self@, t) == Err::<AttrVal, _>(e@),
            },
    {
        match self.slot(c, t)? {
            AttrValue::Bytes(x) => Ok(x),
            _ => Err(Error::MalformedAttribute(t)),
        }
    }
}

impl<'a> Command<'a> {
    /// The type of this command.
    pub fn command_type(&self) -> (r: CommandType)
        ensures
            r == self@.ty,
    {
        match self {
            Command::Chmod(_) => CommandType::Chmod,
            Command::Chown(_) => CommandType::Chown,
            Command::Clone(_) => CommandType::Clone,
            Command::End => CommandType::End,
            Command::Link(_) => CommandType::Link,
            Command::Mkdir(_) => CommandType::Mkdir,
            Command::Mkfifo(_) => CommandType::Mkfifo,
            Command::Mkfile(_) => CommandType::Mkfile,
            Command::Mknod(_) => CommandType::Mknod,
            Command::Mksock(_) => CommandType::Mksock,
            Command::RemoveXattr(_) => CommandType::RemoveXattr,
            Command::Rename(_) => CommandType::Rename,
            Command::Rmdir(_) => CommandType::Rmdir,
            Command::SetXattr(_) => CommandType::SetXattr,
            Command::Snapshot(_) => CommandType::Snapshot,
            Command::Subvol(_) => CommandType::Subvol,
            Command::Symlink(_) => CommandType::Symlink,
            Command::Truncate(_) => CommandType::Truncate,
            Command::Unlink(_) => CommandType::Unlink,
            Command::UpdateExtent(_) => CommandType::UpdateExtent,
            Command::Utimes(_) => CommandType::Utimes,
            Command::Write(_) => CommandType::Write,
        }
    }

    /// Builds the command of type `ty` from its decoded attributes.
    ///
    /// Fails on the first attribute of the type's schema that is missing or
    /// has the wrong shape; attributes outside the schema are ignored.
    pub fn build(ty: CommandType, attrs: &Attrs<'a>) -> (r: Result<Command<'a>, Error>)
        ensures
            match r {
                Ok(c) => build_command(ty, attrs@) == Ok::<_, DecodeError>(c@),
                Err(e) => build_command(ty, attrs@) == Err::<CommandModel, _>(e@),
            },
    {
        proof {
            reveal_with_fuel(build_fields, 8);
        }
        let r = Self::from_slots(ty, attrs);
        proof {
            if r is Ok {
                assert(build_fields(ty, attrs@, schema(ty))->Ok_0 =~= r->Ok_0@.fields);
            }
        }
        r
    }

    fn build_special(ty: CommandType, attrs: &Attrs<'a>) -> (r: Result<Mkspecial<'a>, Error>)
        requires
            schema(ty) == seq![AttrType::Path, AttrType::Ino, AttrType::Rdev, AttrType::Mode],
        ensures
            match r {
                Ok(m) => build_fields(ty, attrs@, schema(ty)) == Ok::<_, DecodeError>(
                    special_fields(m),
                ),
                Err(e) => build_fields(ty, attrs@, schema(ty)) == Err::<Seq<AttrVal>, _>(e@),
            },
    {
        proof {
            reveal_with_fuel(build_fields, 5);
        }
        let path = attrs.bytes_slot(ty, AttrType::Path)?;
        let ino = attrs.int_slot(ty, AttrType::Ino)?;
        let rdev = attrs.int_slot(ty, AttrType::Rdev)?;
        let mode = attrs.u32_slot(ty, AttrType::Mode)?;
        let m = Mkspecial { path: TemporaryPath(path), ino: Ino(ino), rdev: Rdev(rdev), mode: Mode(mode) };
        assert(build_fields(ty, attrs@, schema(ty))->Ok_0 =~= special_fields(m));
        Ok(m)
    }

    fn from_slots(ty: CommandType, attrs: &Attrs<'a>) -> (r: Result<Command<'a>, Error>)
        ensures
            match r {
                Ok(c) => c@.ty == ty && (build_fields(ty, attrs@, schema(ty)) matches Ok(f)
                    && f =~= c@.fields),
                Err(e) => build_fields(ty, attrs@, schema(ty)) == Err::<Seq<AttrVal>, _>(e@),
            },
    {
        proof {
            reveal_with_fuel(build_fields, 8);
        }
        let c = match ty {
            CommandType::Subvol => {
                let path = attrs.bytes_slot(ty, AttrType::Path)?;
                let uuid = attrs.uuid_slot(ty, AttrType::Uuid)?;
                let ctransid = attrs.int_slot(ty, AttrType::Ctransid)?;
                Command::Subvol(Subvol { path, uuid, ctransid: Ctransid(ctransid) })
            },
            CommandType::Snapshot => {
                let path = attrs.bytes_slot(ty, AttrType::Path)?;
                let uuid = attrs.uuid_slot(ty, AttrType::Uuid)?;
                let ctransid = attrs.int_slot(ty, AttrType::Ctransid)?;
                let clone_uuid = attrs.uuid_slot(ty, AttrType::CloneUuid)?;
                let clone_ctransid = attrs.int_slot(ty, AttrType::CloneCtransid)?;
                Command::Snapshot(
                    Snapshot {
                        path,
                        uuid,
                        ctransid: Ctransid(ctransid),
                        clone_uuid,
                        clone_ctransid: Ctransid(clone_ctransid),
                    },
                )
            },
            CommandType::Mkfile => {
                let path = attrs.bytes_slot(ty, AttrType::Path)?;
                let ino = attrs.int_slot(ty, AttrType::Ino)?;
                Command::Mkfile(Mkfile { path: TemporaryPath(path), ino: Ino(ino) })
            },
            CommandType::Mkdir => {
                let path = attrs.bytes_slot(ty, AttrType::Path)?;
                let ino = attrs.int_slot(ty, AttrType::Ino)?;
                Command::Mkdir(Mkdir { path: TemporaryPath(path), ino: Ino(ino) })
            },
            CommandType::Mknod => Command::Mknod(Mknod(Self::build_special(ty, attrs)?)),
            CommandType::Mkfifo => Command::Mkfifo(Mkfifo(Self::build_special(ty, attrs)?)),
            CommandType::Mksock => Command::Mksock(Mksock(Self::build_special(ty, attrs)?)),
            CommandType::Symlink => {
                let link_name = attrs.bytes_slot(ty, AttrType::Path)?;
                let ino = attrs.int_slot(ty, AttrType::Ino)?;
                let target = attrs.bytes_slot(ty, AttrType::PathLink)?;
                Command::Symlink(
                    Symlink {
                        link_name: TemporaryPath(link_name),
                        ino: Ino(ino),
                        target: LinkTarget(target),
                    },
                )
            },
            CommandType::Rename => {
                let from = attrs.bytes_slot(ty, AttrType::Path)?;
                let to = attrs.bytes_slot(ty, AttrType::PathTo)?;
                Command::Rename(Rename { from, to })
            },
            CommandType::Link => {
                let link_name = attrs.bytes_slot(ty, AttrType::Path)?;
                let target = attrs.bytes_slot(ty, AttrType::PathLink)?;
                Command::Link(Link { link_name, target: LinkTarget(target) })
            },
            CommandType::Unlink => {
                let path = attrs.bytes_slot(ty, AttrType::Path)?;
                Command::Unlink(Unlink { path })
            },
            CommandType::Rmdir => {
                let path = attrs.bytes_slot(ty, AttrType::Path)?;
                Command::Rmdir(Rmdir { path })
            },
            CommandType::SetXattr => {
                let path = attrs.bytes_slot(ty, AttrType::Path)?;
                let name = attrs.bytes_slot(ty, AttrType::XattrName)?;
                let data = attrs.bytes_slot(ty, AttrType::XattrData)?;
                Command::SetXattr(SetXattr { path, name: XattrName(name), data: XattrData(data) })
            },
            CommandType::RemoveXattr => {
                let path = attrs.bytes_slot(ty, AttrType::Path)?;
                let name = attrs.bytes_slot(ty, AttrType::XattrName)?;
                Command::RemoveXattr(RemoveXattr { path, name: XattrName(name) })
            },
            CommandType::Write => {
                let path = attrs.bytes_slot(ty, AttrType::Path)?;
                let offset = attrs.int_slot(ty, AttrType::FileOffset)?;
                let data = attrs.bytes_slot(ty, AttrType::Data)?;
                Command::Write(Write { path, offset: FileOffset(offset), data: Data(data) })
            },
            CommandType::Clone => {
                let dst_path = attrs.bytes_slot(ty, AttrType::Path)?;
                let dst_offset = attrs.int_slot(ty, AttrType::FileOffset)?;
                let len = attrs.int_slot(ty, AttrType::CloneLen)?;
                let uuid = attrs.uuid_slot(ty, AttrType::CloneUuid)?;
                let ctransid = attrs.int_slot(ty, AttrType::CloneCtransid)?;
                let src_path = attrs.bytes_slot(ty, AttrType::ClonePath)?;
                let src_offset = attrs.int_slot(ty, AttrType::CloneOffset)?;
                Command::Clone(
                    Clone {
                        src_offset: FileOffset(src_offset),
                        len: CloneLen(len),
                        src_path,
                        uuid,
                        ctransid: Ctransid(ctransid),
                        dst_path,
                        dst_offset: FileOffset(dst_offset),
                    },
                )
            },
            CommandType::Truncate => {
                let path = attrs.bytes_slot(ty, AttrType::Path)?;
                let size = attrs.int_slot(ty, AttrType::Size)?;
                Command::Truncate(Truncate { path, size })
            },
            CommandType::Chmod => {
                let path = attrs.bytes_slot(ty, AttrType::Path)?;
                let mode = attrs.u32_slot(ty, AttrType::Mode)?;
                Command::Chmod(Chmod { path, mode: Mode(mode) })
            },
            CommandType::Chown => {
                let path = attrs.bytes_slot(ty, AttrType::Path)?;
                let uid = attrs.u32_slot(ty, AttrType::Uid)?;
                let gid = attrs.u32_slot(ty, AttrType::Gid)?;
                Command::Chown(Chown { path, uid: Uid(uid), gid: Gid(gid) })
            },
            CommandType::Utimes => {
                let path = attrs.bytes_slot(ty, AttrType::Path)?;
                let atime = attrs.time_slot(ty, AttrType::Atime)?;
                let mtime = attrs.time_slot(ty, AttrType::Mtime)?;
                let ctime = attrs.time_slot(ty, AttrType::Ctime)?;
                Command::Utimes(
                    Utimes { path, atime: Atime(atime), mtime: Mtime(mtime), ctime: Ctime(ctime) },
                )
            },
            CommandType::End => Command::End,
            CommandType::UpdateExtent => {
                let path = attrs.bytes_slot(ty, AttrType::Path)?;
                let offset = attrs.int_slot(ty, AttrType::FileOffset)?;
                let len = attrs.int_slot(ty, AttrType::Size)?;
                Command::UpdateExtent(UpdateExtent { path, offset: FileOffset(offset), len })
            },
        };
        Ok(c)
    }
}

} // verus!
