//! Laws of the decoder: it inverts the encoder, it depends on the bytes
//! alone, and it fails as the format demands on short buffers, flipped
//! checksums, truncated payloads, and not on attributes a command does not
//! require.

use vstd::prelude::*;

use crate::attr::{
    attr_kind, attr_tag, attr_type_of, decode_value, lookup, parse_attrs, AttrType, AttrVal,
};
use crate::bytes::{
    le16_at, le16_bytes, le32_at, le32_bytes, le64_bytes, lemma_le16_round_trip,
    lemma_le32_round_trip, lemma_le64_round_trip,
};
use crate::command::{
    build_command, build_fields, command_tag, command_type_of, schema, slot, CommandModel,
    CommandType,
};
use crate::crc::crc32c_of;
use crate::encode::{
    command_head, command_payload, encode_attr, encode_attrs, encode_command, encode_commands,
    encode_stream, encode_streams, valid_command, valid_stream, valid_streams, valid_value,
    valid_values, value_bytes,
};
use crate::error::{DecodeError, Error};
use crate::wire::{
    checksummed, decode_command, decode_commands, decode_stream, decode_streams, magic,
    parse_all_view, starts_with_magic, Sendstream,
};

verus! {

/// Attributes `s` paired with values `f`.
pub open spec fn zip(s: Seq<AttrType>, f: Seq<AttrVal>) -> Seq<(AttrType, AttrVal)> {
    Seq::new(s.len(), |i: int| (s[i], f[i]))
}

proof fn lemma_decode_value(t: AttrType, v: AttrVal)
    requires
        valid_value(t, v),
    ensures
        decode_value(attr_kind(t), value_bytes(v)) == Some(v),
{
    match v {
        AttrVal::Int(x) => {
            lemma_le64_round_trip(x as int, seq![]);
            assert(le64_bytes(x as int) + seq![] =~= le64_bytes(x as int));
        },
        AttrVal::Time(sec, nsec) => {
            let b = le64_bytes(sec as int) + le32_bytes(nsec as int);
            lemma_le64_round_trip(sec as int, le32_bytes(nsec as int));
            lemma_le32_round_trip(nsec as int, seq![]);
            assert(le32_bytes(nsec as int) + seq![] =~= le32_bytes(nsec as int));
            let tail = b.subrange(8, 12);
            assert(tail =~= le32_bytes(nsec as int));
            assert(le32_at(b, 8) == le32_at(tail, 0));
        },
        _ => {},
    }
}

proof fn lemma_attr_tag(t: AttrType)
    ensures
        attr_type_of(attr_tag(t)) == Some(t),
        1 <= attr_tag(t) <= 24,
{
}

/// Decoding the record of `t` and `v` followed by `rest`.
proof fn lemma_parse_attr(t: AttrType, v: AttrVal, rest: Seq<u8>)
    requires
        valid_value(t, v),
    ensures
        parse_attrs(encode_attr(t, v) + rest) == match parse_attrs(rest) {
            Ok(tail) => Ok(seq![(t, v)] + tail),
            Err(e) => Err(e),
        },
{
    let vb = value_bytes(v);
    let p = encode_attr(t, v) + rest;
    lemma_attr_tag(t);
    lemma_le16_round_trip(attr_tag(t) as int, le16_bytes(vb.len() as int) + vb + rest);
    lemma_le16_round_trip(vb.len() as int, vb + rest);
    assert(p =~= le16_bytes(attr_tag(t) as int) + (le16_bytes(vb.len() as int) + vb + rest));
    let q = le16_bytes(vb.len() as int) + (vb + rest);
    assert(p.subrange(2, p.len() as int) =~= q);
    assert(le16_at(p, 2) == le16_at(q, 0));
    assert(p.subrange(4, 4 + vb.len() as int) =~= vb);
    assert(p.subrange(4 + vb.len() as int, p.len() as int) =~= rest);
    lemma_decode_value(t, v);
}

/// Decoding the records of `s` and `f` gives them back.
proof fn lemma_parse_encoded_attrs(s: Seq<AttrType>, f: Seq<AttrVal>)
    requires
        valid_values(s, f),
    ensures
        parse_attrs(encode_attrs(s, f)) == Ok::<_, DecodeError>(zip(s, f)),
    decreases s.len(),
{
    if s.len() == 0 {
        assert(zip(s, f) =~= seq![]);
    } else {
        assert(valid_value(s[0], f[0]));
        let s1 = s.drop_first();
        let f1 = f.drop_first();
        assert forall|i: int| 0 <= i < s1.len() implies valid_value(#[trigger] s1[i], f1[i]) by {
            assert(s1[i] == s[i + 1] && f1[i] == f[i + 1]);
        }
        lemma_parse_encoded_attrs(s1, f1);
        lemma_parse_attr(s[0], f[0], encode_attrs(s1, f1));
        assert(seq![(s[0], f[0])] + zip(s1, f1) =~= zip(s, f));
    }
}

/// Whether no attribute type occurs twice in `s`.
pub open spec fn distinct(s: Seq<AttrType>) -> bool {
    forall|i: int, j: int| 0 <= i < j < s.len() ==> s[i] != s[j]
}

proof fn lemma_schema_distinct(c: CommandType)
    ensures
        distinct(schema(c)),
        schema(c).len() <= 7,
{
    let s = schema(c);
    assert forall|i: int, j: int| 0 <= i < j < s.len() implies s[i] != s[j] by {
        match c {
            CommandType::Snapshot => {
                assert(s[0] == AttrType::Path && s[1] == AttrType::Uuid && s[2] == AttrType::Ctransid
                    && s[3] == AttrType::CloneUuid && s[4] == AttrType::CloneCtransid);
            },
            CommandType::Clone => {
                assert(s[0] == AttrType::Path && s[1] == AttrType::FileOffset && s[2]
                    == AttrType::CloneLen && s[3] == AttrType::CloneUuid && s[4]
                    == AttrType::CloneCtransid && s[5] == AttrType::ClonePath && s[6]
                    == AttrType::CloneOffset);
            },
            _ => {},
        }
    }
}

proof fn lemma_lookup_last(z: Seq<(AttrType, AttrVal)>, k: int, i: int, t: AttrType)
    requires
        0 <= i < k <= z.len(),
        z[i].0 == t,
        forall|j: int| i < j < k ==> (#[trigger] z[j]).0 != t,
    ensures
        lookup(z.subrange(0, k), t) == Some(z[i].1),
    decreases k,
{
    let p = z.subrange(0, k);
    if k - 1 != i {
        assert(p.drop_last() =~= z.subrange(0, k - 1));
        assert(p.last() == z[k - 1]);
        lemma_lookup_last(z, k - 1, i, t);
    }
}

proof fn lemma_build_zip(c: CommandType, s: Seq<AttrType>, f: Seq<AttrVal>, k: int)
    requires
        valid_values(s, f),
        distinct(s),
        0 <= k <= s.len(),
    ensures
        build_fields(c, zip(s, f), s.subrange(k, s.len() as int)) == Ok::<_, DecodeError>(
            f.subrange(k, s.len() as int),
        ),
    decreases s.len() - k,
{
    let n = s.len() as int;
    let z = zip(s, f);
    let sk = s.subrange(k, n);
    if k == n {
        assert(f.subrange(k, n) =~= seq![]);
    } else {
        assert(valid_value(s[k], f[k]));
        assert(z.subrange(0, n) =~= z);
        lemma_lookup_last(z, n, k, s[k]);
        assert(lookup(z, s[k]) == Some(f[k]));
        assert(sk[0] == s[k]);
        assert(slot(c, z, sk[0]) == Ok::<_, DecodeError>(f[k]));
        assert(sk.drop_first() =~= s.subrange(k + 1, n));
        lemma_build_zip(c, s, f, k + 1);
        assert(seq![f[k]] + f.subrange(k + 1, n) =~= f.subrange(k, n));
    }
}

proof fn lemma_encode_attrs_len(s: Seq<AttrType>, f: Seq<AttrVal>)
    requires
        valid_values(s, f),
    ensures
        encode_attrs(s, f).len() <= 65539 * s.len(),
    decreases s.len(),
{
    if s.len() > 0 {
        assert(valid_value(s[0], f[0]));
        let s1 = s.drop_first();
        let f1 = f.drop_first();
        assert forall|i: int| 0 <= i < s1.len() implies valid_value(#[trigger] s1[i], f1[i]) by {
            assert(s1[i] == s[i + 1] && f1[i] == f[i + 1]);
        }
        lemma_encode_attrs_len(s1, f1);
    }
}

proof fn lemma_le16_suffix(b: Seq<u8>, k: int)
    requires
        0 <= k,
        k + 2 <= b.len(),
    ensures
        le16_at(b, k) == le16_at(b.subrange(k, b.len() as int), 0),
{
    let t = b.subrange(k, b.len() as int);
    assert(t[0] == b[k] && t[1] == b[k + 1]);
}

proof fn lemma_le32_suffix(b: Seq<u8>, k: int)
    requires
        0 <= k,
        k + 4 <= b.len(),
    ensures
        le32_at(b, k) == le32_at(b.subrange(k, b.len() as int), 0),
{
    let t = b.subrange(k, b.len() as int);
    assert(t[0] == b[k] && t[1] == b[k + 1] && t[2] == b[k + 2] && t[3] == b[k + 3]);
}

proof fn lemma_command_header(len: int, tag: int, crc: int, payload: Seq<u8>, rest: Seq<u8>)
    requires
        0 <= len < 0x1_0000_0000,
        0 <= tag < 0x1_0000,
        0 <= crc < 0x1_0000_0000,
        payload.len() == len,
    ensures
        ({
            let b = le32_bytes(len) + le16_bytes(tag) + le32_bytes(crc) + payload + rest;
            &&& b.len() == 10 + len + rest.len()
            &&& le32_at(b, 0) == len
            &&& le16_at(b, 4) == tag
            &&& le32_at(b, 6) == crc
            &&& b.subrange(0, 6) == le32_bytes(len) + le16_bytes(tag)
            &&& b.subrange(10, 10 + len) == payload
            &&& b.subrange(10 + len, b.len() as int) == rest
        }),
{
    let crc_bytes = le32_bytes(crc);
    let b = le32_bytes(len) + le16_bytes(tag) + crc_bytes + payload + rest;
    lemma_le32_round_trip(len, le16_bytes(tag) + crc_bytes + payload + rest);
    assert(b =~= le32_bytes(len) + (le16_bytes(tag) + crc_bytes + payload + rest));
    lemma_le16_round_trip(tag, crc_bytes + payload + rest);
    lemma_le16_suffix(b, 4);
    assert(b.subrange(4, b.len() as int) =~= le16_bytes(tag) + (crc_bytes + payload + rest));
    lemma_le32_round_trip(crc, payload + rest);
    lemma_le32_suffix(b, 6);
    assert(b.subrange(6, b.len() as int) =~= crc_bytes + (payload + rest));
    assert(b.subrange(0, 6) =~= le32_bytes(len) + le16_bytes(tag));
    assert(b.subrange(10, 10 + len) =~= payload);
    assert(b.subrange(10 + len, b.len() as int) =~= rest);
}

proof fn lemma_payload_round_trip(c: CommandModel)
    requires
        valid_command(c),
    ensures
        parse_attrs(command_payload(c)) matches Ok(attrs) && build_command(c.ty, attrs) == Ok::<
            _,
            DecodeError,
        >(c),
        command_payload(c).len() <= 65539 * 7,
{
    let s = schema(c.ty);
    lemma_schema_distinct(c.ty);
    lemma_encode_attrs_len(s, c.fields);
    lemma_parse_encoded_attrs(s, c.fields);
    lemma_build_zip(c.ty, s, c.fields, 0);
    assert(s.subrange(0, s.len() as int) =~= s);
    assert(c.fields.subrange(0, s.len() as int) =~= c.fields);
}

/// Decoding an encoded command followed by `rest` gives the command back,
/// and `rest`.
pub proof fn lemma_command_round_trip(c: CommandModel, rest: Seq<u8>)
    requires
        valid_command(c),
    ensures
        decode_command(encode_command(c) + rest) == Ok::<_, DecodeError>((c, rest)),
        encode_command(c).len() >= 10,
{
    let head = command_head(c);
    let payload = command_payload(c);
    let len = payload.len() as int;
    let tag = command_tag(c.ty) as int;
    let crc = crc32c_of(head + seq![0u8, 0u8, 0u8, 0u8] + payload) as int;
    reveal(decode_command);
    reveal(encode_command);
    lemma_payload_round_trip(c);
    lemma_command_header(len, tag, crc, payload, rest);
    let b = encode_command(c) + rest;
    assert(b == le32_bytes(len) + le16_bytes(tag) + le32_bytes(crc) + payload + rest);
    assert(checksummed(b, len) == head + seq![0u8, 0u8, 0u8, 0u8] + payload);
    assert(command_type_of(tag as u16) == Some(c.ty));
}

proof fn lemma_commands_round_trip(cs: Seq<CommandModel>, rest: Seq<u8>)
    requires
        valid_stream(cs),
    ensures
        decode_commands(encode_commands(cs) + rest) == Ok::<_, DecodeError>((cs, rest)),
    decreases cs.len(),
{
    let c = cs[0];
    let tail = cs.drop_first();
    let after = encode_commands(tail) + rest;
    let b = encode_commands(cs) + rest;
    assert(valid_command(cs[0]));
    assert(b =~= encode_command(c) + after);
    lemma_command_round_trip(c, after);
    if cs.len() == 1 {
        assert(c.ty == CommandType::End);
        assert(after =~= rest);
        assert(seq![c] =~= cs);
    } else {
        assert(cs[0].ty != CommandType::End);
        assert(tail.last() == cs.last());
        assert forall|i: int| 0 <= i < tail.len() - 1 implies (#[trigger] tail[i]).ty
            != CommandType::End by {
            assert(tail[i] == cs[i + 1]);
        }
        assert forall|i: int| 0 <= i < tail.len() implies valid_command(#[trigger] tail[i]) by {
            assert(tail[i] == cs[i + 1]);
        }
        lemma_commands_round_trip(tail, rest);
        assert(seq![c] + tail =~= cs);
    }
}

proof fn lemma_stream_round_trip(cs: Seq<CommandModel>, rest: Seq<u8>)
    requires
        valid_stream(cs),
    ensures
        decode_stream(encode_stream(cs) + rest) == Ok::<_, DecodeError>((cs, rest)),
        encode_stream(cs).len() >= 17,
        starts_with_magic(encode_stream(cs) + rest),
{
    let b = encode_stream(cs) + rest;
    let body = encode_commands(cs) + rest;
    assert(b =~= magic() + (le32_bytes(1) + body));
    assert(b.subrange(0, 13) =~= magic());
    lemma_le32_round_trip(1, body);
    lemma_le32_suffix(b, 13);
    assert(b.subrange(13, b.len() as int) =~= le32_bytes(1) + body);
    assert(b.subrange(17, b.len() as int) =~= body);
    lemma_commands_round_trip(cs, rest);
}

/// Decoding the encoding of valid streams gives the same streams back.
pub proof fn lemma_round_trip(ss: Seq<Seq<CommandModel>>)
    requires
        valid_streams(ss),
    ensures
        decode_streams(encode_streams(ss)) == Ok::<_, DecodeError>(ss),
    decreases ss.len(),
{
    let tail = ss.drop_first();
    let rest = encode_streams(tail);
    assert(valid_stream(ss[0]));
    lemma_stream_round_trip(ss[0], rest);
    if ss.len() == 1 {
        assert(rest =~= seq![]);
        assert(seq![ss[0]] =~= ss);
    } else {
        assert forall|i: int| 0 <= i < tail.len() implies valid_stream(#[trigger] tail[i]) by {
            assert(tail[i] == ss[i + 1]);
        }
        assert(valid_stream(tail[0]));
        lemma_stream_round_trip(tail[0], encode_streams(tail.drop_first()));
        lemma_round_trip(tail);
        assert(seq![ss[0]] + tail =~= ss);
    }
}

/// Decoding depends on the bytes of the buffer alone: two decodes of buffers
/// with equal bytes, the same buffer among them, give equal results.
pub proof fn lemma_decode_deterministic<'a, 'b>(
    x: &'a [u8],
    y: &'b [u8],
    rx: Result<Vec<Sendstream<'a>>, Error>,
    ry: Result<Vec<Sendstream<'b>>, Error>,
)
    requires
        x@ == y@,
        parse_all_view(rx) == decode_streams(x@),
        parse_all_view(ry) == decode_streams(y@),
    ensures
        parse_all_view(rx) == parse_all_view(ry),
{
}

/// A buffer shorter than the magic bytes fails with a header mismatch.
pub proof fn lemma_short_buffer(b: Seq<u8>)
    requires
        b.len() < 13,
    ensures
        decode_streams(b) == Err::<Seq<Seq<CommandModel>>, _>(DecodeError::HeaderMismatch),
{
}

/// The bytes of `b` with bit `bit` of byte `i` flipped.
pub open spec fn flip_bit(b: Seq<u8>, i: int, bit: u8) -> Seq<u8> {
    b.update(i, b[i] ^ (1u8 << bit))
}

proof fn lemma_flip_changes(x: u8, bit: u8)
    requires
        bit < 8,
    ensures
        x ^ (1u8 << bit) != x,
{
    assert(x ^ (1u8 << bit) != x) by (bit_vector)
        requires
            bit < 8,
    ;
}

/// Flipping one bit of the stored checksum of a command that decodes makes
/// it fail with a checksum mismatch.
pub proof fn lemma_flipped_checksum(b: Seq<u8>, j: int, bit: u8)
    requires
        decode_command(b) is Ok,
        0 <= j < 4,
        bit < 8,
    ensures
        decode_command(flip_bit(b, 6 + j, bit)) == Err::<(CommandModel, Seq<u8>), _>(
            DecodeError::ChecksumMismatch,
        ),
{
    reveal(decode_command);
    let b2 = flip_bit(b, 6 + j, bit);
    lemma_flip_changes(b[6 + j], bit);
    let len = le32_at(b, 0);
    assert(le32_at(b2, 0) == len);
    assert(checksummed(b2, len) =~= checksummed(b, len));
    assert(le32_at(b2, 6) != le32_at(b, 6));
}

proof fn lemma_flip_after(a: Seq<u8>, b: Seq<u8>, i: int, bit: u8)
    requires
        0 <= i < b.len(),
    ensures
        flip_bit(a + b, a.len() + i, bit) == a + flip_bit(b, i, bit),
{
    assert(flip_bit(a + b, a.len() + i, bit) =~= a + flip_bit(b, i, bit));
}

proof fn lemma_flipped_checksum_in_commands(
    cs: Seq<CommandModel>,
    k: int,
    j: int,
    bit: u8,
    rest: Seq<u8>,
)
    requires
        valid_stream(cs),
        0 <= k < cs.len(),
        0 <= j < 4,
        bit < 8,
    ensures
        decode_commands(
            flip_bit(encode_commands(cs) + rest, encode_commands(cs.take(k)).len() + 6 + j, bit),
        ) == Err::<(Seq<CommandModel>, Seq<u8>), _>(DecodeError::ChecksumMismatch),
    decreases k,
{
    let c = cs[0];
    let tail = cs.drop_first();
    let after = encode_commands(tail) + rest;
    assert(valid_command(c));
    assert(encode_commands(cs) + rest =~= encode_command(c) + after);
    lemma_command_round_trip(c, after);
    if k == 0 {
        assert(cs.take(0) =~= seq![]);
        lemma_flipped_checksum(encode_command(c) + after, j, bit);
    } else {
        assert(c.ty != CommandType::End);
        assert(tail.last() == cs.last());
        assert forall|i: int| 0 <= i < tail.len() - 1 implies (#[trigger] tail[i]).ty
            != CommandType::End by {
            assert(tail[i] == cs[i + 1]);
        }
        assert forall|i: int| 0 <= i < tail.len() implies valid_command(#[trigger] tail[i]) by {
            assert(tail[i] == cs[i + 1]);
        }
        assert(cs.take(k).drop_first() =~= tail.take(k - 1));
        let off = encode_commands(tail.take(k - 1)).len() + 6 + j;
        lemma_flipped_checksum_in_commands(tail, k - 1, j, bit, rest);
        lemma_flip_len(tail, k - 1, rest);
        lemma_flip_after(encode_command(c), after, off, bit);
        lemma_command_round_trip(c, flip_bit(after, off, bit));
    }
}

proof fn lemma_flip_len(cs: Seq<CommandModel>, k: int, rest: Seq<u8>)
    requires
        valid_stream(cs),
        0 <= k < cs.len(),
    ensures
        encode_commands(cs.take(k)).len() + 10 <= (encode_commands(cs) + rest).len(),
    decreases k,
{
    let tail = cs.drop_first();
    assert(valid_command(cs[0]));
    lemma_command_round_trip(cs[0], seq![]);
    assert(encode_command(cs[0]) + seq![] =~= encode_command(cs[0]));
    if k == 0 {
        assert(cs.take(0) =~= seq![]);
    } else {
        assert(tail.last() == cs.last());
        assert forall|i: int| 0 <= i < tail.len() - 1 implies (#[trigger] tail[i]).ty
            != CommandType::End by {
            assert(tail[i] == cs[i + 1]);
        }
        assert forall|i: int| 0 <= i < tail.len() implies valid_command(#[trigger] tail[i]) by {
            assert(tail[i] == cs[i + 1]);
        }
        assert(cs.take(k).drop_first() =~= tail.take(k - 1));
        lemma_flip_len(tail, k - 1, rest);
    }
}

/// Flipping one bit of the stored checksum of any command of a stream makes
/// the decode of the stream, and of whatever follows it, fail with a checksum
/// mismatch.
pub proof fn lemma_flipped_checksum_in_stream(
    cs: Seq<CommandModel>,
    k: int,
    j: int,
    bit: u8,
    rest: Seq<u8>,
)
    requires
        valid_stream(cs),
        0 <= k < cs.len(),
        0 <= j < 4,
        bit < 8,
    ensures
        decode_streams(
            flip_bit(encode_stream(cs) + rest, 17 + encode_commands(cs.take(k)).len() + 6 + j, bit),
        ) == Err::<Seq<Seq<CommandModel>>, _>(DecodeError::ChecksumMismatch),
{
    let head = magic() + le32_bytes(1);
    let body = encode_commands(cs) + rest;
    let off = encode_commands(cs.take(k)).len() + 6 + j;
    lemma_flip_len(cs, k, rest);
    assert(encode_stream(cs) + rest =~= head + body);
    lemma_flip_after(head, body, off, bit);
    let b2 = head + flip_bit(body, off, bit);
    assert(b2.subrange(0, 13) =~= magic());
    lemma_le32_round_trip(1, flip_bit(body, off, bit));
    lemma_le32_suffix(b2, 13);
    assert(b2.subrange(13, b2.len() as int) =~= le32_bytes(1) + flip_bit(body, off, bit));
    assert(b2.subrange(17, b2.len() as int) =~= flip_bit(body, off, bit));
    lemma_flipped_checksum_in_commands(cs, k, j, bit, rest);
}

/// A command whose declared payload length reaches past the end of the
/// buffer fails as truncated.
pub proof fn lemma_truncated_payload(b: Seq<u8>)
    requires
        b.len() >= 10,
        le32_at(b, 0) > b.len() - 10,
    ensures
        decode_command(b) == Err::<(CommandModel, Seq<u8>), _>(DecodeError::Truncated),
{
    reveal(decode_command);
}

proof fn lemma_truncated_in_commands(cs: Seq<CommandModel>, b: Seq<u8>)
    requires
        forall|i: int| 0 <= i < cs.len() ==> valid_command(#[trigger] cs[i]),
        forall|i: int| 0 <= i < cs.len() ==> (#[trigger] cs[i]).ty != CommandType::End,
        b.len() >= 10,
        le32_at(b, 0) > b.len() - 10,
    ensures
        decode_commands(encode_commands(cs) + b) == Err::<(Seq<CommandModel>, Seq<u8>), _>(
            DecodeError::Truncated,
        ),
    decreases cs.len(),
{
    if cs.len() == 0 {
        assert(encode_commands(cs) + b =~= b);
        lemma_truncated_payload(b);
    } else {
        let tail = cs.drop_first();
        assert(valid_command(cs[0]) && cs[0].ty != CommandType::End);
        assert forall|i: int| 0 <= i < tail.len() implies valid_command(#[trigger] tail[i]) && tail[i].ty
            != CommandType::End by {
            assert(tail[i] == cs[i + 1]);
        }
        assert(encode_commands(cs) + b =~= encode_command(cs[0]) + (encode_commands(tail) + b));
        lemma_command_round_trip(cs[0], encode_commands(tail) + b);
        lemma_truncated_in_commands(tail, b);
    }
}

/// A command whose declared payload length reaches past the end of the
/// buffer, after the header of a stream and any number of commands that
/// decode, makes the whole decode fail as truncated.
pub proof fn lemma_truncated_payload_in_stream(cs: Seq<CommandModel>, b: Seq<u8>)
    requires
        forall|i: int| 0 <= i < cs.len() ==> valid_command(#[trigger] cs[i]),
        forall|i: int| 0 <= i < cs.len() ==> (#[trigger] cs[i]).ty != CommandType::End,
        b.len() >= 10,
        le32_at(b, 0) > b.len() - 10,
    ensures
        decode_streams(encode_stream(cs) + b) == Err::<Seq<Seq<CommandModel>>, _>(
            DecodeError::Truncated,
        ),
{
    let body = encode_commands(cs) + b;
    let buf = encode_stream(cs) + b;
    assert(buf =~= magic() + (le32_bytes(1) + body));
    assert(buf.subrange(0, 13) =~= magic());
    lemma_le32_round_trip(1, body);
    lemma_le32_suffix(buf, 13);
    assert(buf.subrange(13, buf.len() as int) =~= le32_bytes(1) + body);
    assert(buf.subrange(17, buf.len() as int) =~= body);
    lemma_truncated_in_commands(cs, b);
}

proof fn lemma_lookup_skips(
    x: Seq<(AttrType, AttrVal)>,
    e: Seq<(AttrType, AttrVal)>,
    y: Seq<(AttrType, AttrVal)>,
    t: AttrType,
)
    requires
        forall|i: int| 0 <= i < e.len() ==> (#[trigger] e[i]).0 != t,
    ensures
        lookup(x + e + y, t) == lookup(x + y, t),
    decreases e.len() + y.len(),
{
    if y.len() > 0 {
        assert((x + e + y).drop_last() =~= x + e + y.drop_last());
        assert((x + y).drop_last() =~= x + y.drop_last());
        lemma_lookup_skips(x, e, y.drop_last(), t);
    } else if e.len() > 0 {
        assert((x + e + y).drop_last() =~= x + e.drop_last() + y);
        assert(e.last() == e[e.len() - 1]);
        lemma_lookup_skips(x, e.drop_last(), y, t);
    } else {
        assert(x + e + y =~= x + y);
    }
}

proof fn lemma_build_fields_same(
    c: CommandType,
    a: Seq<(AttrType, AttrVal)>,
    b: Seq<(AttrType, AttrVal)>,
    s: Seq<AttrType>,
)
    requires
        forall|i: int| 0 <= i < s.len() ==> lookup(a, #[trigger] s[i]) == lookup(b, s[i]),
    ensures
        build_fields(c, a, s) == build_fields(c, b, s),
    decreases s.len(),
{
    if s.len() > 0 {
        assert(lookup(a, s[0]) == lookup(b, s[0]));
        let s1 = s.drop_first();
        assert forall|i: int| 0 <= i < s1.len() implies lookup(a, #[trigger] s1[i]) == lookup(b, s1[i]) by {
            assert(s1[i] == s[i + 1]);
        }
        lemma_build_fields_same(c, a, b, s1);
    }
}

/// Attributes outside a command type's schema change nothing: wherever they
/// stand among the attributes, the command built is the same, and it is
/// built whenever the required attributes are present.
pub proof fn lemma_extra_attributes(
    c: CommandType,
    a1: Seq<(AttrType, AttrVal)>,
    extra: Seq<(AttrType, AttrVal)>,
    a2: Seq<(AttrType, AttrVal)>,
)
    requires
        forall|i: int| 0 <= i < extra.len() ==> !schema(c).contains(#[trigger] extra[i].0),
    ensures
        build_command(c, a1 + extra + a2) == build_command(c, a1 + a2),
{
    let s = schema(c);
    assert forall|i: int| 0 <= i < s.len() implies lookup(a1 + extra + a2, #[trigger] s[i]) == lookup(
        a1 + a2,
        s[i],
    ) by {
        assert forall|k: int| 0 <= k < extra.len() implies (#[trigger] extra[k]).0 != s[i] by {
            if extra[k].0 == s[i] {
                assert(s.contains(extra[k].0));
            }
        }
        lemma_lookup_skips(a1, extra, a2, s[i]);
    }
    lemma_build_fields_same(c, a1 + extra + a2, a1 + a2, s);
}

} // verus!
