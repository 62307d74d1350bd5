//! Encoding of commands and streams into the wire format.
//!
//! Each command is written with the attributes of its schema, in schema
//! order, so that decoding the bytes gives the command back (see
//! [`crate::laws::lemma_round_trip`]).

use vstd::prelude::*;

use crate::attr::{attr_kind, attr_tag, AttrType, AttrVal, AttrValue};
use crate::bytes::{le16_bytes, le32_bytes, le64_bytes};
use crate::command::{
    command_tag, has_kind, lemma_schema_len, schema, Command, CommandModel, CommandType, Mkfifo,
    Mknod, Mksock,
};
use crate::crc::{crc32c_append, crc32c_of, lemma_crc_fold_concat};
use crate::wire::{magic, streams_view, Sendstream};

verus! {

/// The bytes that encode attribute value `v`.
pub open spec fn value_bytes(v: AttrVal) -> Seq<u8> {
    match v {
        AttrVal::Int(x) => le64_bytes(x as int),
        AttrVal::Uuid(u) => u,
        AttrVal::Time(sec, nsec) => le64_bytes(sec as int) + le32_bytes(nsec as int),
        AttrVal::Bytes(b) => b,
    }
}

/// The record that encodes attribute `t` with value `v`.
pub open spec fn encode_attr(t: AttrType, v: AttrVal) -> Seq<u8> {
    le16_bytes(attr_tag(t) as int) + le16_bytes(value_bytes(v).len() as int) + value_bytes(v)
}

/// The records that encode attributes `s` with values `f`, in order.
pub open spec fn encode_attrs(s: Seq<AttrType>, f: Seq<AttrVal>) -> Seq<u8>
    decreases s.len(),
{
    if s.len() == 0 || f.len() == 0 {
        seq![]
    } else {
        encode_attr(s[0], f[0]) + encode_attrs(s.drop_first(), f.drop_first())
    }
}

/// Whether value `v` can stand in slot `t` and be encoded.
pub open spec fn valid_value(t: AttrType, v: AttrVal) -> bool {
    has_kind(v, attr_kind(t)) && value_bytes(v).len() <= 0xffff
}

/// Whether values `f` fill slots `s` one for one.
pub open spec fn valid_values(s: Seq<AttrType>, f: Seq<AttrVal>) -> bool {
    s.len() == f.len() && forall|i: int| 0 <= i < s.len() ==> valid_value(#[trigger] s[i], f[i])
}

/// Whether command model `c` can be encoded: its values fill its schema.
pub open spec fn valid_command(c: CommandModel) -> bool {
    valid_values(schema(c.ty), c.fields)
}

/// The payload of command `c`.
pub open spec fn command_payload(c: CommandModel) -> Seq<u8> {
    encode_attrs(schema(c.ty), c.fields)
}

/// The first six bytes of the header of command `c`: length and type tag.
pub open spec fn command_head(c: CommandModel) -> Seq<u8> {
    le32_bytes(command_payload(c).len() as int) + le16_bytes(command_tag(c.ty) as int)
}

/// The bytes that encode command `c`, with its checksum.
#[verifier::opaque]
pub open spec fn encode_command(c: CommandModel) -> Seq<u8> {
    let head = command_head(c);
    let payload = command_payload(c);
    head + le32_bytes(crc32c_of(head + seq![0u8, 0u8, 0u8, 0u8] + payload) as int) + payload
}

/// The bytes that encode commands `cs`, back to back.
pub open spec fn encode_commands(cs: Seq<CommandModel>) -> Seq<u8>
    decreases cs.len(),
{
    if cs.len() == 0 {
        seq![]
    } else {
        encode_command(cs[0]) + encode_commands(cs.drop_first())
    }
}

/// Whether `cs` is the command sequence of a stream that can be encoded:
/// valid commands, of which the last and only the last is an End command.
pub open spec fn valid_stream(cs: Seq<CommandModel>) -> bool {
    &&& cs.len() >= 1
    &&& cs.last().ty == CommandType::End
    &&& forall|i: int| 0 <= i < cs.len() - 1 ==> (#[trigger] cs[i]).ty != CommandType::End
    &&& forall|i: int| 0 <= i < cs.len() ==> valid_command(#[trigger] cs[i])
}

/// The bytes that encode a stream of commands `cs`.
pub open spec fn encode_stream(cs: Seq<CommandModel>) -> Seq<u8> {
    magic() + le32_bytes(1) + encode_commands(cs)
}

/// The bytes that encode streams `ss`, back to back.
pub open spec fn encode_streams(ss: Seq<Seq<CommandModel>>) -> Seq<u8>
    decreases ss.len(),
{
    if ss.len() == 0 {
        seq![]
    } else {
        encode_stream(ss[0]) + encode_streams(ss.drop_first())
    }
}

/// Whether `ss` is a sequence of streams that can be encoded: one or more,
/// each valid.
pub open spec fn valid_streams(ss: Seq<Seq<CommandModel>>) -> bool {
    ss.len() >= 1 && forall|i: int| 0 <= i < ss.len() ==> valid_stream(#[trigger] ss[i])
}


fn push_le16(out: &mut Vec<u8>, v: u16)
    ensures
        final(out)@ == old(out)@ + le16_bytes(v as int),
{
    out.push((v % 256) as u8);
    out.push((v / 256 % 256) as u8);
    assert(final(out)@ =~= old(out)@ + le16_bytes(v as int));
}

fn push_le32(out: &mut Vec<u8>, v: u32)
    ensures
        final(out)@ == old(out)@ + le32_bytes(v as int),
{
    push_le16(out, (v % 65536) as u16);
    push_le16(out, (v / 65536) as u16);
    assert(final(out)@ =~= old(out)@ + le32_bytes(v as int));
}

fn push_le64(out: &mut Vec<u8>, v: u64)
    ensures
        final(out)@ == old(out)@ + le64_bytes(v as int),
{
    push_le32(out, (v % 4294967296) as u32);
    push_le32(out, (v / 4294967296) as u32);
    assert(final(out)@ =~= old(out)@ + le64_bytes(v as int));
}

fn push_bytes(out: &mut Vec<u8>, b: &[u8])
    ensures
        final(out)@ == old(out)@ + b@,
{
    let ghost start = out@;
    let mut i: usize = 0;
    while i < b.len()
        invariant
            i <= b@.len(),
            out@ == start + b@.subrange(0, i as int),
        decreases b@.len() - i,
    {
        out.push(b[i]);
        i = i + 1;
        assert(out@ =~= start + b@.subrange(0, i as int));
    }
    assert(b@.subrange(0, b@.len() as int) =~= b@);
}

fn value_len(v: &AttrValue) -> (r: usize)
    ensures
        r == value_bytes(v@).len(),
{
    match v {
        AttrValue::Int(_) => 8,
        AttrValue::Uuid(_) => 16,
        AttrValue::Time(_) => 12,
        AttrValue::Bytes(b) => b.len(),
    }
}

fn push_value(out: &mut Vec<u8>, v: &AttrValue)
    ensures
        final(out)@ == old(out)@ + value_bytes(v@),
{
    match v {
        AttrValue::Int(x) => push_le64(out, *x),
        AttrValue::Uuid(u) => push_bytes(out, vstd::array::array_as_slice(&u.0)),
        AttrValue::Time(t) => {
            push_le64(out, t.sec);
            push_le32(out, t.nsec);
            assert(final(out)@ =~= old(out)@ + value_bytes(v@));
        },
        AttrValue::Bytes(b) => push_bytes(out, b),
    }
}

proof fn lemma_encode_attrs_snoc(s: Seq<AttrType>, f: Seq<AttrVal>, n: int)
    requires
        0 <= n < s.len(),
        n < f.len(),
    ensures
        encode_attrs(s.take(n + 1), f.take(n + 1)) == encode_attrs(s.take(n), f.take(n))
            + encode_attr(s[n], f[n]),
    decreases n,
{
    if n == 0 {
        assert(s.take(1).drop_first() =~= seq![]);
        assert(encode_attrs(s.take(1).drop_first(), f.take(1).drop_first()) == Seq::<u8>::empty());
        assert(encode_attr(s[0], f[0]) + seq![] =~= encode_attr(s[0], f[0]));
    } else {
        lemma_encode_attrs_snoc(s.drop_first(), f.drop_first(), n - 1);
        assert(s.take(n + 1).drop_first() =~= s.drop_first().take(n));
        assert(f.take(n + 1).drop_first() =~= f.drop_first().take(n));
        assert(s.take(n).drop_first() =~= s.drop_first().take(n - 1));
        assert(f.take(n).drop_first() =~= f.drop_first().take(n - 1));
    }
}

impl<'a> Command<'a> {
    /// The attributes that this command is written with: those of its
    /// schema, in schema order.
    pub fn attributes(&self) -> (r: Vec<(AttrType, AttrValue<'a>)>)
        ensures
            r@.len() == schema(self@.ty).len(),
            self@.fields.len() == schema(self@.ty).len(),
            forall|i: int|
                0 <= i < r@.len() ==> (#[trigger] r@[i]).0 == schema(self@.ty)[i] && r@[i].1@
                    == self@.fields[i] && has_kind(r@[i].1@, attr_kind(r@[i].0)),
    {
        let r = match self {
            Command::Subvol(c) => vec![
                (AttrType::Path, AttrValue::Bytes(c.path)),
                (AttrType::Uuid, AttrValue::Uuid(c.uuid)),
                (AttrType::Ctransid, AttrValue::Int(c.ctransid.0)),
            ],
            Command::Snapshot(c) => vec![
                (AttrType::Path, AttrValue::Bytes(c.path)),
                (AttrType::Uuid, AttrValue::Uuid(c.uuid)),
                (AttrType::Ctransid, AttrValue::Int(c.ctransid.0)),
                (AttrType::CloneUuid, AttrValue::Uuid(c.clone_uuid)),
                (AttrType::CloneCtransid, AttrValue::Int(c.clone_ctransid.0)),
            ],
            Command::Mkfile(c) => vec![
                (AttrType::Path, AttrValue::Bytes(c.path.0)),
                (AttrType::Ino, AttrValue::Int(c.ino.0)),
            ],
            Command::Mkdir(c) => vec![
                (AttrType::Path, AttrValue::Bytes(c.path.0)),
                (AttrType::Ino, AttrValue::Int(c.ino.0)),
            ],
            Command::Mknod(Mknod(m)) | Command::Mkfifo(Mkfifo(m)) | Command::Mksock(Mksock(m)) => vec![
                (AttrType::Path, AttrValue::Bytes(m.path.0)),
                (AttrType::Ino, AttrValue::Int(m.ino.0)),
                (AttrType::Rdev, AttrValue::Int(m.rdev.0)),
                (AttrType::Mode, AttrValue::Int(m.mode.0 as u64)),
            ],
            Command::Symlink(c) => vec![
                (AttrType::Path, AttrValue::Bytes(c.link_name.0)),
                (AttrType::Ino, AttrValue::Int(c.ino.0)),
                (AttrType::PathLink, AttrValue::Bytes(c.target.0)),
            ],
            Command::Rename(c) => vec![
                (AttrType::Path, AttrValue::Bytes(c.from)),
                (AttrType::PathTo, AttrValue::Bytes(c.to)),
            ],
            Command::Link(c) => vec![
                (AttrType::Path, AttrValue::Bytes(c.link_name)),
                (AttrType::PathLink, AttrValue::Bytes(c.target.0)),
            ],
            Command::Unlink(c) => vec![(AttrType::Path, AttrValue::Bytes(c.path))],
            Command::Rmdir(c) => vec![(AttrType::Path, AttrValue::Bytes(c.path))],
            Command::SetXattr(c) => vec![
                (AttrType::Path, AttrValue::Bytes(c.path)),
                (AttrType::XattrName, AttrValue::Bytes(c.name.0)),
                (AttrType::XattrData, AttrValue::Bytes(c.data.0)),
            ],
            Command::RemoveXattr(c) => vec![
                (AttrType::Path, AttrValue::Bytes(c.path)),
                (AttrType::XattrName, AttrValue::Bytes(c.name.0)),
            ],
            Command::Write(c) => vec![
                (AttrType::Path, AttrValue::Bytes(c.path)),
                (AttrType::FileOffset, AttrValue::Int(c.offset.0)),
                (AttrType::Data, AttrValue::Bytes(c.data.0)),
            ],
            Command::Clone(c) => vec![
                (AttrType::Path, AttrValue::Bytes(c.dst_path)),
                (AttrType::FileOffset, AttrValue::Int(c.dst_offset.0)),
                (AttrType::CloneLen, AttrValue::Int(c.len.0)),
                (AttrType::CloneUuid, AttrValue::Uuid(c.uuid)),
                (AttrType::CloneCtransid, AttrValue::Int(c.ctransid.0)),
                (AttrType::ClonePath, AttrValue::Bytes(c.src_path)),
                (AttrType::CloneOffset, AttrValue::Int(c.src_offset.0)),
            ],
            Command::Truncate(c) => vec![
                (AttrType::Path, AttrValue::Bytes(c.path)),
                (AttrType::Size, AttrValue::Int(c.size)),
            ],
            Command::Chmod(c) => vec![
                (AttrType::Path, AttrValue::Bytes(c.path)),
                (AttrType::Mode, AttrValue::Int(c.mode.0 as u64)),
            ],
            Command::Chown(c) => vec![
                (AttrType::Path, AttrValue::Bytes(c.path)),
                (AttrType::Uid, AttrValue::Int(c.uid.0 as u64)),
                (AttrType::Gid, AttrValue::Int(c.gid.0 as u64)),
            ],
            Command::Utimes(c) => vec![
                (AttrType::Path, AttrValue::Bytes(c.path)),
                (AttrType::Atime, AttrValue::Time(c.atime.0)),
                (AttrType::Mtime, AttrValue::Time(c.mtime.0)),
                (AttrType::Ctime, AttrValue::Time(c.ctime.0)),
            ],
            Command::End => vec![],
            Command::UpdateExtent(c) => vec![
                (AttrType::Path, AttrValue::Bytes(c.path)),
                (AttrType::FileOffset, AttrValue::Int(c.offset.0)),
                (AttrType::Size, AttrValue::Int(c.len)),
            ],
        };
        r
    }
}

impl<'a> Command<'a> {
    /// Appends the encoding of this command to `out`.
    ///
    /// Fails, and leaves `out` as it was, where a value is longer than an
    /// attribute record can hold.
    pub fn encode_into(&self, out: &mut Vec<u8>) -> (r: bool)
        ensures
            r == valid_command(self@),
            r ==> final(out)@ == old(out)@ + encode_command(self@),
            !r ==> final(out)@ == old(out)@,
    {
        let entries = self.attributes();
        let ghost s = schema(self@.ty);
        let ghost f = self@.fields;
        proof {
            lemma_schema_len(self@.ty);
        }
        let mut payload: Vec<u8> = Vec::new();
        let mut i: usize = 0;
        while i < entries.len()
            invariant
                i <= entries@.len(),
                s == schema(self@.ty),
                f == self@.fields,
                entries@.len() == s.len(),
                f.len() == s.len(),
                s.len() <= 7,
                forall|j: int|
                    0 <= j < entries@.len() ==> (#[trigger] entries@[j]).0 == s[j] && entries@[j].1@
                        == f[j] && has_kind(entries@[j].1@, attr_kind(entries@[j].0)),
                payload@ == encode_attrs(s.take(i as int), f.take(i as int)),
                payload@.len() <= 65539 * i,
                forall|j: int| 0 <= j < i ==> valid_value(#[trigger] s[j], f[j]),
            decreases entries@.len() - i,
        {
            let t = entries[i].0;
            let v = entries[i].1;
            let len = value_len(&v);
            assert(entries@[i as int].1@ == f[i as int]);
            assert(v@ == f[i as int]);
            if len > 0xffff {
                proof {
                    assert(!valid_value(s[i as int], f[i as int]));
                }
                return false;
            }
            push_le16(&mut payload, t.tag());
            push_le16(&mut payload, len as u16);
            push_value(&mut payload, &v);
            proof {
                lemma_encode_attrs_snoc(s, f, i as int);
                assert(payload@ =~= encode_attrs(s.take(i as int), f.take(i as int)) + encode_attr(
                    s[i as int],
                    f[i as int],
                ));
            }
            i = i + 1;
        }
        proof {
            assert(s.take(s.len() as int) =~= s);
            assert(f.take(s.len() as int) =~= f);
        }
        let mut frame: Vec<u8> = Vec::new();
        push_le32(&mut frame, payload.len() as u32);
        push_le16(&mut frame, self.command_type().tag());
        let zeros: [u8; 4] = [0u8; 4];
        let zeros_slice = vstd::array::array_as_slice(&zeros);
        let crc = crc32c_append(0, frame.as_slice());
        let crc = crc32c_append(crc, zeros_slice);
        let crc = crc32c_append(crc, payload.as_slice());
        proof {
            assert(zeros_slice@ =~= seq![0u8, 0u8, 0u8, 0u8]);
            lemma_crc_fold_concat(0, frame@, zeros_slice@);
            lemma_crc_fold_concat(0, frame@ + zeros_slice@, payload@);
        }
        push_bytes(out, frame.as_slice());
        push_le32(out, crc);
        push_bytes(out, payload.as_slice());
        proof {
            reveal(encode_command);
            assert(final(out)@ =~= old(out)@ + encode_command(self@));
        }
        true
    }
}

/// Whether every command of `cs` can be encoded.
pub open spec fn encodable(cs: Seq<CommandModel>) -> bool {
    forall|i: int| 0 <= i < cs.len() ==> valid_command(#[trigger] cs[i])
}

proof fn lemma_encode_commands_snoc(cs: Seq<CommandModel>, n: int)
    requires
        0 <= n < cs.len(),
    ensures
        encode_commands(cs.take(n + 1)) == encode_commands(cs.take(n)) + encode_command(cs[n]),
    decreases n,
{
    if n == 0 {
        assert(cs.take(1).drop_first() =~= seq![]);
        assert(encode_commands(cs.take(1).drop_first()) == Seq::<u8>::empty());
        assert(encode_command(cs[0]) + seq![] =~= encode_command(cs[0]));
    } else {
        lemma_encode_commands_snoc(cs.drop_first(), n - 1);
        assert(cs.take(n + 1).drop_first() =~= cs.drop_first().take(n));
        assert(cs.take(n).drop_first() =~= cs.drop_first().take(n - 1));
    }
}

fn push_magic(out: &mut Vec<u8>)
    ensures
        final(out)@ == old(out)@ + magic(),
{
    out.push(0x62);
    out.push(0x74);
    out.push(0x72);
    out.push(0x66);
    out.push(0x73);
    out.push(0x2d);
    out.push(0x73);
    out.push(0x74);
    out.push(0x72);
    out.push(0x65);
    out.push(0x61);
    out.push(0x6d);
    out.push(0x00);
    assert(final(out)@ =~= old(out)@ + magic());
}

impl<'a> Sendstream<'a> {
    /// Appends the encoding of this stream to `out`.
    ///
    /// Fails, and leaves `out` as it was, where a command cannot be encoded.
    pub fn encode_into(&self, out: &mut Vec<u8>) -> (r: bool)
        ensures
            r == encodable(self@),
            r ==> final(out)@ == old(out)@ + encode_stream(self@),
            !r ==> final(out)@ == old(out)@,
    {
        let ghost cs = self@;
        let start = out.len();
        push_magic(out);
        push_le32(out, 1);
        let mut i: usize = 0;
        while i < self.commands.len()
            invariant
                i <= self.commands@.len(),
                cs == self@,
                cs.len() == self.commands@.len(),
                start == old(out)@.len(),
                out@ == old(out)@ + magic() + le32_bytes(1) + encode_commands(cs.take(i as int)),
                forall|j: int| 0 <= j < i ==> valid_command(#[trigger] cs[j]),
            decreases self.commands@.len() - i,
        {
            assert(cs[i as int] == self.commands@[i as int]@);
            if !self.commands[i].encode_into(out) {
                out.truncate(start);
                assert(out@ =~= old(out)@);
                return false;
            }
            proof {
                lemma_encode_commands_snoc(cs, i as int);
                assert(out@ =~= old(out)@ + magic() + le32_bytes(1) + encode_commands(
                    cs.take(i + 1),
                ));
            }
            i = i + 1;
        }
        proof {
            assert(cs.take(cs.len() as int) =~= cs);
            assert(out@ =~= old(out)@ + encode_stream(cs));
        }
        true
    }

    /// The encoding of `streams`, back to back, or `None` where a command
    /// cannot be encoded.
    pub fn encode_all(streams: &[Sendstream<'a>]) -> (r: Option<Vec<u8>>)
        ensures
            match r {
                Some(v) => (forall|i: int| 0 <= i < streams@.len() ==> encodable(#[trigger] streams@[i]@))
                    && v@ == encode_streams(streams_view(streams@)),
                None => exists|i: int| 0 <= i < streams@.len() && !encodable(#[trigger] streams@[i]@),
            },
    {
        let ghost ss = streams_view(streams@);
        let mut out: Vec<u8> = Vec::new();
        let mut i: usize = 0;
        while i < streams.len()
            invariant
                i <= streams@.len(),
                ss == streams_view(streams@),
                out@ == encode_streams(ss.take(i as int)),
                forall|j: int| 0 <= j < i ==> encodable(#[trigger] streams@[j]@),
            decreases streams@.len() - i,
        {
            let ghost before = out@;
            assert(ss[i as int] == streams@[i as int]@);
            if !streams[i].encode_into(&mut out) {
                return None;
            }
            proof {
                lemma_encode_streams_snoc(ss, i as int);
            }
            i = i + 1;
        }
        proof {
            assert(ss.take(ss.len() as int) =~= ss);
        }
        Some(out)
    }
}

proof fn lemma_encode_streams_snoc(ss: Seq<Seq<CommandModel>>, n: int)
    requires
        0 <= n < ss.len(),
    ensures
        encode_streams(ss.take(n + 1)) == encode_streams(ss.take(n)) + encode_stream(ss[n]),
    decreases n,
{
    if n == 0 {
        assert(ss.take(1).drop_first() =~= seq![]);
        assert(encode_streams(ss.take(1).drop_first()) == Seq::<u8>::empty());
        assert(encode_stream(ss[0]) + seq![] =~= encode_stream(ss[0]));
    } else {
        lemma_encode_streams_snoc(ss.drop_first(), n - 1);
        assert(ss.take(n + 1).drop_first() =~= ss.drop_first().take(n));
        assert(ss.take(n).drop_first() =~= ss.drop_first().take(n - 1));
    }
}

} // verus!
