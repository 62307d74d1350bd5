//! The attribute registry and the decoder of a command's attribute payload.
//!
//! A payload is a sequence of records, each a little-endian `u16` tag, a
//! little-endian `u16` length and that many bytes of value. The registry maps
//! each known tag to the width its value must have; records with unknown tags
//! are skipped.

use vstd::prelude::*;

use crate::bytes::{le16_at, le32_at, le64_at, read_le16, read_le32, read_le64};
use crate::error::{DecodeError, Error};
use crate::types::{Timespec, Uuid};

verus! {

/// A known attribute tag.
#[derive(Debug, Clone, Copy, PartialEq, Eq, Hash, Structural)]
pub enum AttrType {
    Uuid,
    Ctransid,
    Ino,
    Size,
    Mode,
    Uid,
    Gid,
    Rdev,
    Ctime,
    Mtime,
    Atime,
    Otime,
    XattrName,
    XattrData,
    Path,
    PathTo,
    PathLink,
    FileOffset,
    Data,
    CloneUuid,
    CloneCtransid,
    ClonePath,
    CloneOffset,
    CloneLen,
}

/// How the value of an attribute is decoded.
#[derive(Debug, Clone, Copy, PartialEq, Eq, Hash, Structural)]
pub enum AttrKind {
    /// Eight bytes, a little-endian `u64`.
    U64,
    /// Eight bytes, a little-endian `u64` of which the low 32 bits are kept.
    U32In64,
    /// Sixteen bytes, kept as they are.
    Uuid,
    /// Twelve bytes: little-endian `u64` seconds, then `u32` nanoseconds.
    Timespec,
    /// Any number of bytes, borrowed from the payload.
    Bytes,
}

/// The wire tag of an attribute type.
pub open spec fn attr_tag(a: AttrType) -> u16 {
    match a {
        AttrType::Uuid => 1,
        AttrType::Ctransid => 2,
        AttrType::Ino => 3,
        AttrType::Size => 4,
        AttrType::Mode => 5,
        AttrType::Uid => 6,
        AttrType::Gid => 7,
        AttrType::Rdev => 8,
        AttrType::Ctime => 9,
        AttrType::Mtime => 10,
        AttrType::Atime => 11,
        AttrType::Otime => 12,
        AttrType::XattrName => 13,
        AttrType::XattrData => 14,
        AttrType::Path => 15,
        AttrType::PathTo => 16,
        AttrType::PathLink => 17,
        AttrType::FileOffset => 18,
        AttrType::Data => 19,
        AttrType::CloneUuid => 20,
        AttrType::CloneCtransid => 21,
        AttrType::ClonePath => 22,
        AttrType::CloneOffset => 23,
        AttrType::CloneLen => 24,
    }
}

/// The attribute type that a wire tag denotes, if it is a known one.
pub open spec fn attr_type_of(tag: u16) -> Option<AttrType> {
    match tag {
        1 => Some(AttrType::Uuid),
        2 => Some(AttrType::Ctransid),
        3 => Some(AttrType::Ino),
        4 => Some(AttrType::Size),
        5 => Some(AttrType::Mode),
        6 => Some(AttrType::Uid),
        7 => Some(AttrType::Gid),
        8 => Some(AttrType::Rdev),
        9 => Some(AttrType::Ctime),
        10 => Some(AttrType::Mtime),
        11 => Some(AttrType::Atime),
        12 => Some(AttrType::Otime),
        13 => Some(AttrType::XattrName),
        14 => Some(AttrType::XattrData),
        15 => Some(AttrType::Path),
        16 => Some(AttrType::PathTo),
        17 => Some(AttrType::PathLink),
        18 => Some(AttrType::FileOffset),
        19 => Some(AttrType::Data),
        20 => Some(AttrType::CloneUuid),
        21 => Some(AttrType::CloneCtransid),
        22 => Some(AttrType::ClonePath),
        23 => Some(AttrType::CloneOffset),
        24 => Some(AttrType::CloneLen),
        _ => None,
    }
}

/// The registry: how each attribute type's value is decoded.
pub open spec fn attr_kind(a: AttrType) -> AttrKind {
    match a {
        AttrType::Uuid | AttrType::CloneUuid => AttrKind::Uuid,
        AttrType::Mode | AttrType::Uid | AttrType::Gid => AttrKind::U32In64,
        AttrType::Ctime | AttrType::Mtime | AttrType::Atime | AttrType::Otime => AttrKind::Timespec,
        AttrType::XattrName | AttrType::XattrData | AttrType::Path | AttrType::PathTo
        | AttrType::PathLink | AttrType::Data | AttrType::ClonePath => AttrKind::Bytes,
        _ => AttrKind::U64,
    }
}

impl AttrType {
    /// The attribute type that a wire tag denotes, if it is a known one.
    pub fn from_tag(tag: u16) -> (r: Option<AttrType>)
        ensures
            r == attr_type_of(tag),
    {
        match tag {
            1 => Some(AttrType::Uuid),
            2 => Some(AttrType::Ctransid),
            3 => Some(AttrType::Ino),
            4 => Some(AttrType::Size),
            5 => Some(AttrType::Mode),
            6 => Some(AttrType::Uid),
            7 => Some(AttrType::Gid),
            8 => Some(AttrType::Rdev),
            9 => Some(AttrType::Ctime),
            10 => Some(AttrType::Mtime),
            11 => Some(AttrType::Atime),
            12 => Some(AttrType::Otime),
            13 => Some(AttrType::XattrName),
            14 => Some(AttrType::XattrData),
            15 => Some(AttrType::Path),
            16 => Some(AttrType::PathTo),
            17 => Some(AttrType::PathLink),
            18 => Some(AttrType::FileOffset),
            19 => Some(AttrType::Data),
            20 => Some(AttrType::CloneUuid),
            21 => Some(AttrType::CloneCtransid),
            22 => Some(AttrType::ClonePath),
            23 => Some(AttrType::CloneOffset),
            24 => Some(AttrType::CloneLen),
            _ => None,
        }
    }

    /// The wire tag of this attribute type.
    pub fn tag(self) -> (r: u16)
        ensures
            r == attr_tag(self),
    {
        match self {
            AttrType::Uuid => 1,
            AttrType::Ctransid => 2,
            AttrType::Ino => 3,
            AttrType::Size => 4,
            AttrType::Mode => 5,
            AttrType::Uid => 6,
            AttrType::Gid => 7,
            AttrType::Rdev => 8,
            AttrType::Ctime => 9,
            AttrType::Mtime => 10,
            AttrType::Atime => 11,
            AttrType::Otime => 12,
            AttrType::XattrName => 13,
            AttrType::XattrData => 14,
            AttrType::Path => 15,
            AttrType::PathTo => 16,
            AttrType::PathLink => 17,
            AttrType::FileOffset => 18,
            AttrType::Data => 19,
            AttrType::CloneUuid => 20,
            AttrType::CloneCtransid => 21,
            AttrType::ClonePath => 22,
            AttrType::CloneOffset => 23,
            AttrType::CloneLen => 24,
        }
    }

    /// How this attribute's value is decoded.
    pub fn kind(self) -> (r: AttrKind)
        ensures
            r == attr_kind(self),
    {
        match self {
            AttrType::Uuid | AttrType::CloneUuid => AttrKind::Uuid,
            AttrType::Mode | AttrType::Uid | AttrType::Gid => AttrKind::U32In64,
            AttrType::Ctime | AttrType::Mtime | AttrType::Atime | AttrType::Otime => {
                AttrKind::Timespec
            },
            AttrType::XattrName | AttrType::XattrData | AttrType::Path | AttrType::PathTo
            | AttrType::PathLink | AttrType::Data | AttrType::ClonePath => AttrKind::Bytes,
            _ => AttrKind::U64,
        }
    }
}

/// A decoded attribute value.
#[derive(Debug, Clone, Copy, PartialEq, Eq)]
pub enum AttrValue<'a> {
    Int(u64),
    Uuid(Uuid),
    Time(Timespec),
    Bytes(&'a [u8]),
}

/// The mathematical value of an [`AttrValue`].
pub enum AttrVal {
    Int(u64),
    Uuid(Seq<u8>),
    Time(u64, u32),
    Bytes(Seq<u8>),
}

impl<'a> View for AttrValue<'a> {
    type V = AttrVal;

    open spec fn view(&self) -> AttrVal {
        match self {
            AttrValue::Int(v) => AttrVal::Int(*v),
            AttrValue::Uuid(u) => AttrVal::Uuid(u.0@),
            AttrValue::Time(t) => AttrVal::Time(t.sec, t.nsec),
            AttrValue::Bytes(b) => AttrVal::Bytes(b@),
        }
    }
}

/// The value that bytes `v` decode to under rule `k`, or `None` where their
/// number does not fit the rule.
pub open spec fn decode_value(k: AttrKind, v: Seq<u8>) -> Option<AttrVal> {
    match k {
        AttrKind::U64 => if v.len() == 8 {
            Some(AttrVal::Int(le64_at(v, 0) as u64))
        } else {
            None
        },
        AttrKind::U32In64 => if v.len() == 8 {
            Some(AttrVal::Int(le32_at(v, 0) as u64))
        } else {
            None
        },
        AttrKind::Uuid => if v.len() == 16 {
            Some(AttrVal::Uuid(v))
        } else {
            None
        },
        AttrKind::Timespec => if v.len() == 12 {
            Some(AttrVal::Time(le64_at(v, 0) as u64, le32_at(v, 8) as u32))
        } else {
            None
        },
        AttrKind::Bytes => Some(AttrVal::Bytes(v)),
    }
}

/// The attributes that payload `p` decodes to, in order, with records of
/// unknown tags left out.
pub open spec fn parse_attrs(p: Seq<u8>) -> Result<Seq<(AttrType, AttrVal)>, DecodeError>
    decreases p.len(),
{
    if p.len() == 0 {
        Ok(seq![])
    } else if p.len() < 4 {
        Err(DecodeError::Truncated)
    } else {
        let len = le16_at(p, 2);
        if p.len() - 4 < len {
            Err(DecodeError::Truncated)
        } else {
            let value = p.subrange(4, 4 + len);
            let rest = p.subrange(4 + len, p.len() as int);
            match attr_type_of(le16_at(p, 0) as u16) {
                None => parse_attrs(rest),
                Some(t) => match decode_value(attr_kind(t), value) {
                    None => Err(DecodeError::MalformedAttribute(t)),
                    Some(v) => match parse_attrs(rest) {
                        Ok(tail) => Ok(seq![(t, v)] + tail),
                        Err(e) => Err(e),
                    },
                },
            }
        }
    }
}

/// The value that the last record of type `t` in `attrs` carries.
pub open spec fn lookup(attrs: Seq<(AttrType, AttrVal)>, t: AttrType) -> Option<AttrVal>
    decreases attrs.len(),
{
    if attrs.len() == 0 {
        None
    } else if attrs.last().0 == t {
        Some(attrs.last().1)
    } else {
        lookup(attrs.drop_last(), t)
    }
}

/// The decoded attributes of one command, in payload order.
///
/// Where a type occurs more than once, the last occurrence counts.
pub struct Attrs<'a> {
    pub entries: Vec<(AttrType, AttrValue<'a>)>,
}

impl<'a> View for Attrs<'a> {
    type V = Seq<(AttrType, AttrVal)>;

    open spec fn view(&self) -> Seq<(AttrType, AttrVal)> {
        self.entries@.map_values(|e: (AttrType, AttrValue<'a>)| (e.0, e.1@))
    }
}

fn decode_value_exec<'a>(k: AttrKind, v: &'a [u8]) -> (r: Option<AttrValue<'a>>)
    ensures
        match r {
            Some(x) => decode_value(k, v@) == Some(x@),
            None => decode_value(k, v@) is None,
        },
{
    match k {
        AttrKind::U64 => if v.len() == 8 {
            Some(AttrValue::Int(read_le64(v, 0)))
        } else {
            None
        },
        AttrKind::U32In64 => if v.len() == 8 {
            Some(AttrValue::Int(read_le32(v, 0) as u64))
        } else {
            None
        },
        AttrKind::Uuid => if v.len() == 16 {
            let mut a = [0u8; 16];
            let mut i: usize = 0;
            while i < 16
                invariant
                    i <= 16,
                    v@.len() == 16,
                    forall|j: int| 0 <= j < i ==> a@[j] == v@[j],
                decreases 16 - i,
            {
                a[i] = v[i];
                i = i + 1;
            }
            assert(a@ =~= v@);
            Some(AttrValue::Uuid(Uuid(a)))
        } else {
            None
        },
        AttrKind::Timespec => if v.len() == 12 {
            Some(AttrValue::Time(Timespec { sec: read_le64(v, 0), nsec: read_le32(v, 8) }))
        } else {
            None
        },
        AttrKind::Bytes => Some(AttrValue::Bytes(v)),
    }
}

impl<'a> Attrs<'a> {
    /// Decodes a command's attribute payload.
    pub fn parse(payload: &'a [u8]) -> (r: Result<Attrs<'a>, Error>)
        ensures
            match r {
                Ok(a) => parse_attrs(payload@) == Ok::<_, DecodeError>(a@),
                Err(e) => parse_attrs(payload@) == Err::<Seq<(AttrType, AttrVal)>, _>(e@),
            },
    {
        let mut entries: Vec<(AttrType, AttrValue<'a>)> = Vec::new();
        let mut rest = payload;
        while rest.len() > 0
            invariant
                parse_attrs(payload@) == match parse_attrs(rest@) {
                    Ok(tail) => Ok(Attrs { entries }@ + tail),
                    Err(e) => Err(e),
                },
            decreases rest@.len(),
        {
            if rest.len() < 4 {
                return Err(Error::Truncated);
            }
            let tag = read_le16(rest, 0);
            let len = read_le16(rest, 2) as usize;
            if rest.len() - 4 < len {
                return Err(Error::Truncated);
            }
            let value = vstd::slice::slice_subrange(rest, 4, 4 + len);
            let next = vstd::slice::slice_subrange(rest, 4 + len, rest.len());
            let ghost old_entries = Attrs { entries }@;
            match AttrType::from_tag(tag) {
                None => {},
                Some(t) => match decode_value_exec(t.kind(), value) {
                    None => {
                        return Err(Error::MalformedAttribute(t));
                    },
                    Some(v) => {
                        entries.push((t, v));
                        proof {
                            assert(Attrs { entries }@ =~= old_entries + seq![(t, v@)]);
                            match parse_attrs(next@) {
                                Ok(tail) => {
                                    assert(old_entries + (seq![(t, v@)] + tail)
                                        =~= old_entries + seq![(t, v@)] + tail);
                                },
                                Err(_) => {},
                            }
                        }
                    },
                },
            }
            rest = next;
        }
        assert(Attrs { entries }@ + seq![] =~= Attrs { entries }@);
        Ok(Attrs { entries })
    }
}

} // verus!
