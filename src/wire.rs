//! Framing of streams and commands.
//!
//! A stream is the magic bytes `btrfs-stream\0`, a little-endian `u32`
//! version that must be 1, and commands up to and including an End command.
//! A command is a little-endian `u32` payload length, a `u16` type tag and a
//! `u32` checksum, followed by the payload. The checksum covers the header,
//! with its own four bytes taken as zero, and the payload.

use vstd::prelude::*;

use crate::attr::{parse_attrs, Attrs};
use crate::bytes::{le16_at, le32_at, read_le16, read_le32};
use crate::command::{build_command, command_type_of, Command, CommandModel, CommandType};
use crate::crc::{crc32c_append, crc32c_of, lemma_crc_fold_concat};
use crate::error::{DecodeError, Error};

verus! {

/// The length of the magic bytes.
pub const MAGIC_LEN: usize = 13;

/// The length of a stream header: the magic bytes and the version.
pub const STREAM_HEADER_LEN: usize = 17;

/// The length of a command header.
pub const COMMAND_HEADER_LEN: usize = 10;

/// The magic bytes `btrfs-stream\0` that open every stream.
pub open spec fn magic() -> Seq<u8> {
    seq![0x62, 0x74, 0x72, 0x66, 0x73, 0x2d, 0x73, 0x74, 0x72, 0x65, 0x61, 0x6d, 0x00]
}

/// Whether `b` starts with the magic bytes.
pub open spec fn starts_with_magic(b: Seq<u8>) -> bool {
    b.len() >= 13 && b.subrange(0, 13) == magic()
}

/// The bytes that the checksum of the command at the start of `b` covers,
/// where its payload is `len` bytes long.
pub open spec fn checksummed(b: Seq<u8>, len: int) -> Seq<u8> {
    b.subrange(0, 6) + seq![0u8, 0u8, 0u8, 0u8] + b.subrange(10, 10 + len)
}

/// The command at the start of `b`, and the bytes after it.
#[verifier::opaque]
pub open spec fn decode_command(b: Seq<u8>) -> Result<(CommandModel, Seq<u8>), DecodeError> {
    if b.len() < 10 {
        Err(DecodeError::Truncated)
    } else {
        let len = le32_at(b, 0);
        if b.len() - 10 < len {
            Err(DecodeError::Truncated)
        } else if crc32c_of(checksummed(b, len)) as int != le32_at(b, 6) {
            Err(DecodeError::ChecksumMismatch)
        } else {
            let tag = le16_at(b, 4) as u16;
            match command_type_of(tag) {
                None => Err(DecodeError::UnknownCommandType(tag)),
                Some(ty) => match parse_attrs(b.subrange(10, 10 + len)) {
                    Err(e) => Err(e),
                    Ok(attrs) => match build_command(ty, attrs) {
                        Err(e) => Err(e),
                        Ok(c) => Ok((c, b.subrange(10 + len, b.len() as int))),
                    },
                },
            }
        }
    }
}

/// A command decodes from at least one byte.
pub proof fn lemma_decode_command_consumes(b: Seq<u8>)
    ensures
        decode_command(b) matches Ok((_, rest)) ==> rest.len() < b.len(),
{
    reveal(decode_command);
}

/// The commands at the start of `b` up to and including the first End
/// command, and the bytes after it.
pub open spec fn decode_commands(b: Seq<u8>) -> Result<(Seq<CommandModel>, Seq<u8>), DecodeError>
    decreases b.len(),
{
    match decode_command(b) {
        Err(e) => Err(e),
        Ok((c, rest)) => if c.ty == CommandType::End {
            Ok((seq![c], rest))
        } else {
            proof {
                lemma_decode_command_consumes(b);
            }
            match decode_commands(rest) {
                Err(e) => Err(e),
                Ok((cs, after)) => Ok((seq![c] + cs, after)),
            }
        },
    }
}

/// A stream's commands decode from at least one byte.
pub proof fn lemma_decode_commands_consume(b: Seq<u8>)
    ensures
        decode_commands(b) matches Ok((_, rest)) ==> rest.len() < b.len(),
    decreases b.len(),
{
    lemma_decode_command_consumes(b);
    if let Ok((c, rest)) = decode_command(b) {
        if c.ty != CommandType::End {
            lemma_decode_commands_consume(rest);
        }
    }
}

/// The stream at the start of `b`, and the bytes after it.
pub open spec fn decode_stream(b: Seq<u8>) -> Result<(Seq<CommandModel>, Seq<u8>), DecodeError> {
    if !starts_with_magic(b) {
        Err(DecodeError::HeaderMismatch)
    } else if b.len() < 17 {
        Err(DecodeError::Truncated)
    } else if le32_at(b, 13) != 1 {
        Err(DecodeError::HeaderMismatch)
    } else {
        decode_commands(b.subrange(17, b.len() as int))
    }
}

/// A stream decodes from at least one byte.
pub proof fn lemma_decode_stream_consumes(b: Seq<u8>)
    ensures
        decode_stream(b) matches Ok((_, rest)) ==> rest.len() < b.len(),
{
    if starts_with_magic(b) && b.len() >= 17 && le32_at(b, 13) == 1 {
        lemma_decode_commands_consume(b.subrange(17, b.len() as int));
    }
}

/// The streams that `b` holds, back to back, from its start to its end.
pub open spec fn decode_streams(b: Seq<u8>) -> Result<Seq<Seq<CommandModel>>, DecodeError>
    decreases b.len(),
{
    match decode_stream(b) {
        Err(e) => Err(e),
        Ok((cmds, rest)) => if rest.len() == 0 {
            Ok(seq![cmds])
        } else if !starts_with_magic(rest) {
            Err(DecodeError::TrailingData(rest))
        } else {
            proof {
                lemma_decode_stream_consumes(b);
            }
            match decode_streams(rest) {
                Err(e) => Err(e),
                Ok(more) => Ok(seq![cmds] + more),
            }
        },
    }
}

/// What follows a stream whose remaining bytes are `rest`.
pub open spec fn decode_after_stream(rest: Seq<u8>) -> Result<Seq<Seq<CommandModel>>, DecodeError> {
    if rest.len() == 0 {
        Ok(seq![])
    } else if !starts_with_magic(rest) {
        Err(DecodeError::TrailingData(rest))
    } else {
        decode_streams(rest)
    }
}

/// The commands of one stream, in the order the buffer holds them.
#[derive(Debug, Clone, PartialEq, Eq)]
pub struct Sendstream<'a> {
    pub commands: Vec<Command<'a>>,
}

/// The models of a sequence of commands.
pub open spec fn commands_view<'a>(cs: Seq<Command<'a>>) -> Seq<CommandModel> {
    cs.map_values(|c: Command<'a>| c@)
}

/// The models of a sequence of streams.
pub open spec fn streams_view<'a>(ss: Seq<Sendstream<'a>>) -> Seq<Seq<CommandModel>> {
    ss.map_values(|s: Sendstream<'a>| s@)
}

/// The model of what [`Sendstream::parse_all`] returns.
pub open spec fn parse_all_view<'a>(r: Result<Vec<Sendstream<'a>>, Error>) -> Result<
    Seq<Seq<CommandModel>>,
    DecodeError,
> {
    match r {
        Ok(v) => Ok(streams_view(v@)),
        Err(e) => Err(e@),
    }
}

impl<'a> View for Sendstream<'a> {
    type V = Seq<CommandModel>;

    open spec fn view(&self) -> Seq<CommandModel> {
        commands_view(self.commands@)
    }
}

/// Whether `b` starts with the magic bytes.
fn has_magic(b: &[u8]) -> (r: bool)
    ensures
        r == starts_with_magic(b@),
{
    if b.len() < MAGIC_LEN {
        return false;
    }
    let r = b[0] == 0x62 && b[1] == 0x74 && b[2] == 0x72 && b[3] == 0x66 && b[4] == 0x73 && b[5]
        == 0x2d && b[6] == 0x73 && b[7] == 0x74 && b[8] == 0x72 && b[9] == 0x65 && b[10] == 0x61
        && b[11] == 0x6d && b[12] == 0x00;
    proof {
        let s = b@.subrange(0, 13);
        if r {
            assert(s =~= magic());
        } else if s == magic() {
            assert(s[0] == b@[0] && s[1] == b@[1] && s[2] == b@[2] && s[3] == b@[3]);
            assert(s[4] == b@[4] && s[5] == b@[5] && s[6] == b@[6] && s[7] == b@[7]);
            assert(s[8] == b@[8] && s[9] == b@[9] && s[10] == b@[10] && s[11] == b@[11]);
            assert(s[12] == b@[12]);
        }
    }
    r
}

impl<'a> Command<'a> {
    /// Decodes the command at the start of `input`, and returns it with the
    /// bytes after it.
    pub fn parse(input: &'a [u8]) -> (r: Result<(Command<'a>, &'a [u8]), Error>)
        ensures
            match r {
                Ok((c, rest)) => decode_command(input@) == Ok::<_, DecodeError>((c@, rest@))
                    && rest@.len() < input@.len(),
                Err(e) => decode_command(input@) == Err::<(CommandModel, Seq<u8>), _>(e@),
            },
    {
        reveal(decode_command);
        if input.len() < COMMAND_HEADER_LEN {
            return Err(Error::Truncated);
        }
        let len = read_le32(input, 0) as usize;
        let tag = read_le16(input, 4);
        let stored = read_le32(input, 6);
        if input.len() - COMMAND_HEADER_LEN < len {
            return Err(Error::Truncated);
        }
        let head = vstd::slice::slice_subrange(input, 0, 6);
        let payload = vstd::slice::slice_subrange(input, COMMAND_HEADER_LEN, COMMAND_HEADER_LEN + len);
        let zeros: [u8; 4] = [0u8; 4];
        let zeros_slice = vstd::array::array_as_slice(&zeros);
        let crc = crc32c_append(0, head);
        let crc = crc32c_append(crc, zeros_slice);
        let crc = crc32c_append(crc, payload);
        proof {
            assert(zeros_slice@ =~= seq![0u8, 0u8, 0u8, 0u8]);
            lemma_crc_fold_concat(0, head@, zeros_slice@);
            lemma_crc_fold_concat(0, head@ + zeros_slice@, payload@);
        }
        if crc != stored {
            return Err(Error::ChecksumMismatch);
        }
        let ty = match CommandType::from_tag(tag) {
            None => {
                return Err(Error::UnknownCommandType(tag));
            },
            Some(ty) => ty,
        };
        let attrs = Attrs::parse(payload)?;
        let c = Command::build(ty, &attrs)?;
        let rest = vstd::slice::slice_subrange(input, COMMAND_HEADER_LEN + len, input.len());
        Ok((c, rest))
    }
}

impl<'a> Sendstream<'a> {
    /// The commands of the stream, in order.
    pub fn commands(&self) -> (r: &[Command<'a>])
        ensures
            r@ == self.commands@,
    {
        self.commands.as_slice()
    }

    /// The commands of the stream, in order.
    pub fn into_commands(self) -> (r: Vec<Command<'a>>)
        ensures
            r@ == self.commands@,
    {
        self.commands
    }

    /// Decodes the stream at the start of `input`, and returns it with the
    /// bytes after it.
    pub fn parse(input: &'a [u8]) -> (r: Result<(Sendstream<'a>, &'a [u8]), Error>)
        ensures
            match r {
                Ok((s, rest)) => decode_stream(input@) == Ok::<_, DecodeError>((s@, rest@))
                    && rest@.len() < input@.len(),
                Err(e) => decode_stream(input@) == Err::<(Seq<CommandModel>, Seq<u8>), _>(e@),
            },
    {
        if !has_magic(input) {
            return Err(Error::HeaderMismatch);
        }
        if input.len() < STREAM_HEADER_LEN {
            return Err(Error::Truncated);
        }
        if read_le32(input, MAGIC_LEN) != 1 {
            return Err(Error::HeaderMismatch);
        }
        let mut commands: Vec<Command<'a>> = Vec::new();
        let mut rest = vstd::slice::slice_subrange(input, STREAM_HEADER_LEN, input.len());
        loop
            invariant
                rest@.len() < input@.len(),
                decode_stream(input@) == match decode_commands(rest@) {
                    Ok((cs, after)) => Ok((commands_view(commands@) + cs, after)),
                    Err(e) => Err(e),
                },
            decreases rest@.len(),
        {
            let (c, next) = Command::parse(rest)?;
            let ty = c.command_type();
            let ghost before = commands_view(commands@);
            commands.push(c);
            proof {
                assert(commands_view(commands@) =~= before + seq![c@]);
                if ty != CommandType::End {
                    match decode_commands(next@) {
                        Ok((cs, after)) => {
                            assert(before + (seq![c@] + cs) =~= before + seq![c@] + cs);
                        },
                        Err(_) => {},
                    }
                }
            }
            if ty == CommandType::End {
                return Ok((Sendstream { commands }, next));
            }
            rest = next;
        }
    }

    /// Decodes every stream in `input`.
    ///
    /// The buffer must hold one stream or more, back to back, and nothing
    /// after the last one; bytes after a stream that do not start with the
    /// magic bytes are reported as trailing data.
    pub fn parse_all(input: &'a [u8]) -> (r: Result<Vec<Sendstream<'a>>, Error>)
        ensures
            parse_all_view(r) == decode_streams(input@),
    {
        let mut streams: Vec<Sendstream<'a>> = Vec::new();
        let (first, mut rest) = Sendstream::parse(input)?;
        streams.push(first);
        proof {
            assert(streams_view(streams@) =~= seq![first@]);
            if rest@.len() == 0 {
                assert(seq![first@] + seq![] =~= seq![first@]);
            }
        }
        while rest.len() > 0
            invariant
                decode_streams(input@) == match decode_after_stream(rest@) {
                    Ok(more) => Ok(streams_view(streams@) + more),
                    Err(e) => Err(e),
                },
            decreases rest@.len(),
        {
            if !has_magic(rest) {
                return Err(Error::TrailingData(vstd::slice::slice_to_vec(rest)));
            }
            let (s, next) = Sendstream::parse(rest)?;
            let ghost before = streams_view(streams@);
            streams.push(s);
            proof {
                assert(streams_view(streams@) =~= before + seq![s@]);
                if next@.len() == 0 {
                    assert(before + seq![s@] + seq![] =~= before + seq![s@]);
                } else {
                    match decode_after_stream(next@) {
                        Ok(more) => {
                            assert(before + (seq![s@] + more) =~= before + seq![s@] + more);
                        },
                        Err(_) => {},
                    }
                }
            }
            rest = next;
        }
        proof {
            assert(streams_view(streams@) + seq![] =~= streams_view(streams@));
        }
        Ok(streams)
    }
}

} // verus!
