use sendstream_parser::crc::crc32c;
use sendstream_parser::{
    Atime, AttrType, Chmod, Chown, CloneLen, Command, CommandType, Ctime, Ctransid, Data, Error,
    FileOffset, Gid, Ino, Link, LinkTarget, Mkdir, Mkfifo, Mkfile, Mknod, Mksock, Mkspecial, Mode,
    Mtime, Rdev, RemoveXattr, Rename, Rmdir, Sendstream, SetXattr, Snapshot, Subvol, Symlink,
    TemporaryPath, Timespec, Truncate, Uid, Unlink, UpdateExtent, Utimes, Uuid, Write, XattrData,
    XattrName,
};

const MAGIC: &[u8] = b"btrfs-stream\0";

const A_UUID: u16 = 1;
const A_CTRANSID: u16 = 2;
const A_INO: u16 = 3;
const A_SIZE: u16 = 4;
const A_MODE: u16 = 5;
const A_UID: u16 = 6;
const A_GID: u16 = 7;
const A_RDEV: u16 = 8;
const A_CTIME: u16 = 9;
const A_MTIME: u16 = 10;
const A_ATIME: u16 = 11;
const A_XATTR_NAME: u16 = 13;
const A_XATTR_DATA: u16 = 14;
const A_PATH: u16 = 15;
const A_PATH_TO: u16 = 16;
const A_PATH_LINK: u16 = 17;
const A_FILE_OFFSET: u16 = 18;
const A_DATA: u16 = 19;
const A_CLONE_UUID: u16 = 20;
const A_CLONE_CTRANSID: u16 = 21;
const A_CLONE_PATH: u16 = 22;
const A_CLONE_OFFSET: u16 = 23;
const A_CLONE_LEN: u16 = 24;

fn attr(tag: u16, value: &[u8]) -> Vec<u8> {
    let mut v = tag.to_le_bytes().to_vec();
    v.extend_from_slice(&(value.len() as u16).to_le_bytes());
    v.extend_from_slice(value);
    v
}

fn attr_u64(tag: u16, value: u64) -> Vec<u8> {
    attr(tag, &value.to_le_bytes())
}

fn attr_time(tag: u16, sec: u64, nsec: u32) -> Vec<u8> {
    let mut v = sec.to_le_bytes().to_vec();
    v.extend_from_slice(&nsec.to_le_bytes());
    attr(tag, &v)
}

fn command(ty: u16, attrs: &[Vec<u8>]) -> Vec<u8> {
    let payload: Vec<u8> = attrs.concat();
    let mut v = (payload.len() as u32).to_le_bytes().to_vec();
    v.extend_from_slice(&ty.to_le_bytes());
    v.extend_from_slice(&[0, 0, 0, 0]);
    v.extend_from_slice(&payload);
    let crc = crc32c(&v);
    v[6..10].copy_from_slice(&crc.to_le_bytes());
    v
}

fn end() -> Vec<u8> {
    command(21, &[])
}

fn stream(cmds: &[Vec<u8>]) -> Vec<u8> {
    let mut v = MAGIC.to_vec();
    v.extend_from_slice(&1u32.to_le_bytes());
    for c in cmds {
        v.extend_from_slice(c);
    }
    v
}

fn mkfile(path: &[u8], ino: u64) -> Vec<u8> {
    command(3, &[attr(A_PATH, path), attr_u64(A_INO, ino)])
}

#[test]
fn crc32c_check_value() {
    assert_eq!(crc32c(b"123456789"), 0x58e3_fa20);
    assert_eq!(crc32c(b"a"), 0x93ad_1061);
    assert_eq!(crc32c(b""), 0);
    assert_eq!(crc32c(&[0, 0, 0, 0]), 0);
}

#[test]
fn end_only_stream() {
    let buf = stream(&[end()]);
    assert_eq!(buf.len(), 27);
    let streams = Sendstream::parse_all(&buf).unwrap();
    assert_eq!(streams.len(), 1);
    assert_eq!(streams[0].commands(), &[Command::End]);
}

#[test]
fn mkfile_without_inode() {
    let buf = stream(&[command(3, &[attr(A_PATH, b"o257-5-0")]), end()]);
    assert_eq!(
        Sendstream::parse_all(&buf),
        Err(Error::MissingRequiredAttribute {
            command: CommandType::Mkfile,
            attribute: AttrType::Ino
        })
    );
}

#[test]
fn two_streams_back_to_back() {
    let mut buf = stream(&[mkfile(b"a", 257), end()]);
    buf.extend_from_slice(&stream(&[command(11, &[attr(A_PATH, b"b")]), end()]));
    let streams = Sendstream::parse_all(&buf).unwrap();
    assert_eq!(streams.len(), 2);
    assert_eq!(
        streams[0].commands(),
        &[
            Command::Mkfile(Mkfile { path: TemporaryPath(b"a"), ino: Ino(257) }),
            Command::End
        ]
    );
    assert_eq!(
        streams[1].commands(),
        &[Command::Unlink(Unlink { path: b"b" }), Command::End]
    );
}

#[test]
fn trailing_bytes_reported() {
    let mut buf = stream(&[end()]);
    buf.extend_from_slice(&[1, 2, 3]);
    assert_eq!(Sendstream::parse_all(&buf), Err(Error::TrailingData(vec![1, 2, 3])));
}

#[test]
fn short_buffers_mismatch_header() {
    for n in 0..MAGIC.len() {
        assert_eq!(Sendstream::parse_all(&MAGIC[..n]), Err(Error::HeaderMismatch));
    }
    assert_eq!(Sendstream::parse_all(MAGIC), Err(Error::Truncated));
    assert_eq!(Sendstream::parse_all(&stream(&[])), Err(Error::Truncated));
}

#[test]
fn wrong_magic_or_version() {
    let mut buf = stream(&[end()]);
    buf[0] = b'B';
    assert_eq!(Sendstream::parse_all(&buf), Err(Error::HeaderMismatch));
    let mut buf = stream(&[end()]);
    buf[13] = 2;
    assert_eq!(Sendstream::parse_all(&buf), Err(Error::HeaderMismatch));
}

#[test]
fn flipped_checksum_bit() {
    let good = stream(&[mkfile(b"f", 300), end()]);
    assert!(Sendstream::parse_all(&good).is_ok());
    for byte in 0..4 {
        for bit in 0..8 {
            let mut buf = good.clone();
            buf[17 + 6 + byte] ^= 1 << bit;
            assert_eq!(Sendstream::parse_all(&buf), Err(Error::ChecksumMismatch));
        }
    }
    let mut buf = good.clone();
    let end_at = 17 + mkfile(b"f", 300).len();
    buf[end_at + 6] ^= 0x80;
    assert_eq!(Sendstream::parse_all(&buf), Err(Error::ChecksumMismatch));
}

#[test]
fn corrupted_payload_fails_checksum() {
    let mut buf = stream(&[mkfile(b"f", 300), end()]);
    buf[17 + 10 + 4] = b'g';
    assert_eq!(Sendstream::parse_all(&buf), Err(Error::ChecksumMismatch));
}

#[test]
fn declared_length_past_end() {
    let mut buf = stream(&[mkfile(b"f", 300)]);
    buf.truncate(buf.len() - 1);
    assert_eq!(Sendstream::parse_all(&buf), Err(Error::Truncated));
    let mut buf = stream(&[end()]);
    buf[17] = 1;
    assert_eq!(Sendstream::parse_all(&buf), Err(Error::Truncated));
    let mut buf = stream(&[mkfile(b"f", 300), mkfile(b"g", 301), end()]);
    let second = 17 + mkfile(b"f", 300).len();
    buf[second..second + 4].copy_from_slice(&1000u32.to_le_bytes());
    assert_eq!(Sendstream::parse_all(&buf), Err(Error::Truncated));
}

#[test]
fn stream_without_end() {
    let buf = stream(&[mkfile(b"f", 300)]);
    assert_eq!(Sendstream::parse_all(&buf), Err(Error::Truncated));
}

#[test]
fn unknown_command_type() {
    let buf = stream(&[command(99, &[]), end()]);
    assert_eq!(Sendstream::parse_all(&buf), Err(Error::UnknownCommandType(99)));
    let buf = stream(&[command(0, &[]), end()]);
    assert_eq!(Sendstream::parse_all(&buf), Err(Error::UnknownCommandType(0)));
}

#[test]
fn malformed_attribute_width() {
    let buf = stream(&[command(3, &[attr(A_PATH, b"f"), attr(A_INO, &[1, 0, 0, 0])]), end()]);
    assert_eq!(Sendstream::parse_all(&buf), Err(Error::MalformedAttribute(AttrType::Ino)));
    let buf = stream(&[command(1, &[attr(A_UUID, &[7; 15])]), end()]);
    assert_eq!(Sendstream::parse_all(&buf), Err(Error::MalformedAttribute(AttrType::Uuid)));
}

#[test]
fn partial_attribute_record() {
    let mut payload = attr(A_PATH, b"f");
    payload.extend_from_slice(&[3, 0, 8]);
    let buf = stream(&[command(11, &[payload]), end()]);
    assert_eq!(Sendstream::parse_all(&buf), Err(Error::Truncated));
    let buf = stream(&[command(11, &[vec![15, 0, 9, 0, b'a']]), end()]);
    assert_eq!(Sendstream::parse_all(&buf), Err(Error::Truncated));
}

#[test]
fn extra_attributes_tolerated() {
    let buf = stream(&[
        command(
            3,
            &[
                attr_u64(A_MODE, 0o644),
                attr(A_PATH, b"f"),
                attr(200, b"unknown"),
                attr_u64(A_INO, 42),
                attr(A_DATA, b"ignored"),
            ],
        ),
        end(),
    ]);
    let streams = Sendstream::parse_all(&buf).unwrap();
    assert_eq!(
        streams[0].commands(),
        &[Command::Mkfile(Mkfile { path: TemporaryPath(b"f"), ino: Ino(42) }), Command::End]
    );
}

#[test]
fn duplicate_attribute_last_wins() {
    let buf = stream(&[
        command(3, &[attr(A_PATH, b"first"), attr_u64(A_INO, 1), attr(A_PATH, b"second")]),
        end(),
    ]);
    let streams = Sendstream::parse_all(&buf).unwrap();
    assert_eq!(
        streams[0].commands()[0],
        Command::Mkfile(Mkfile { path: TemporaryPath(b"second"), ino: Ino(1) })
    );
}

#[test]
fn mode_keeps_low_32_bits() {
    let buf = stream(&[
        command(18, &[attr(A_PATH, b"f"), attr_u64(A_MODE, 0x1_0000_81a4)]),
        end(),
    ]);
    let streams = Sendstream::parse_all(&buf).unwrap();
    assert_eq!(
        streams[0].commands()[0],
        Command::Chmod(Chmod { path: b"f", mode: Mode(0o100644) })
    );
}

#[test]
fn decoding_twice_agrees() {
    let buf = stream(&[mkfile(b"x", 9), end()]);
    let copy = buf.clone();
    let a = Sendstream::parse_all(&buf);
    let b = Sendstream::parse_all(&buf);
    assert_eq!(a, b);
    assert_eq!(buf, copy);
    let bad = stream(&[command(3, &[attr(A_PATH, b"x")]), end()]);
    assert_eq!(Sendstream::parse_all(&bad), Sendstream::parse_all(&bad));
}

fn uuid_bytes(seed: u8) -> [u8; 16] {
    let mut u = [0u8; 16];
    for (i, b) in u.iter_mut().enumerate() {
        *b = seed.wrapping_add(i as u8);
    }
    u
}

fn every_command_bytes() -> Vec<Vec<u8>> {
    let u1 = uuid_bytes(0x10);
    let u2 = uuid_bytes(0xa0);
    vec![
        command(1, &[attr(A_PATH, b"vol"), attr(A_UUID, &u1), attr_u64(A_CTRANSID, 7)]),
        command(
            2,
            &[
                attr(A_PATH, b"snap"),
                attr(A_UUID, &u1),
                attr_u64(A_CTRANSID, 8),
                attr(A_CLONE_UUID, &u2),
                attr_u64(A_CLONE_CTRANSID, 9),
            ],
        ),
        mkfile(b"o257-5-0", 257),
        command(4, &[attr(A_PATH, b"o258-5-0"), attr_u64(A_INO, 258)]),
        command(
            5,
            &[
                attr(A_PATH, b"o259-5-0"),
                attr_u64(A_INO, 259),
                attr_u64(A_RDEV, 0x0801),
                attr_u64(A_MODE, 0o60600),
            ],
        ),
        command(
            6,
            &[
                attr(A_PATH, b"o260-5-0"),
                attr_u64(A_INO, 260),
                attr_u64(A_RDEV, 0),
                attr_u64(A_MODE, 0o10644),
            ],
        ),
        command(
            7,
            &[
                attr(A_PATH, b"o261-5-0"),
                attr_u64(A_INO, 261),
                attr_u64(A_RDEV, 0),
                attr_u64(A_MODE, 0o140755),
            ],
        ),
        command(8, &[attr(A_PATH, b"o262-5-0"), attr_u64(A_INO, 262), attr(A_PATH_LINK, b"target")]),
        command(9, &[attr(A_PATH, b"o257-5-0"), attr(A_PATH_TO, b"file")]),
        command(10, &[attr(A_PATH, b"hardlink"), attr(A_PATH_LINK, b"file")]),
        command(11, &[attr(A_PATH, b"gone")]),
        command(12, &[attr(A_PATH, b"dir-gone")]),
        command(
            13,
            &[attr(A_PATH, b"file"), attr(A_XATTR_NAME, b"user.k"), attr(A_XATTR_DATA, b"v")],
        ),
        command(14, &[attr(A_PATH, b"file"), attr(A_XATTR_NAME, b"user.k")]),
        command(
            15,
            &[attr(A_PATH, b"file"), attr_u64(A_FILE_OFFSET, 4096), attr(A_DATA, b"hello")],
        ),
        command(
            16,
            &[
                attr(A_PATH, b"dst"),
                attr_u64(A_FILE_OFFSET, 0),
                attr_u64(A_CLONE_LEN, 8192),
                attr(A_CLONE_UUID, &u2),
                attr_u64(A_CLONE_CTRANSID, 9),
                attr(A_CLONE_PATH, b"src"),
                attr_u64(A_CLONE_OFFSET, 4096),
            ],
        ),
        command(17, &[attr(A_PATH, b"file"), attr_u64(A_SIZE, 5000)]),
        command(18, &[attr(A_PATH, b"file"), attr_u64(A_MODE, 0o100600)]),
        command(19, &[attr(A_PATH, b"file"), attr_u64(A_UID, 1000), attr_u64(A_GID, 100)]),
        command(
            20,
            &[
                attr(A_PATH, b"file"),
                attr_time(A_ATIME, 1, 2),
                attr_time(A_MTIME, 3, 4),
                attr_time(A_CTIME, 5, 999_999_999),
            ],
        ),
        command(22, &[attr(A_PATH, b"file"), attr_u64(A_FILE_OFFSET, 64), attr_u64(A_SIZE, 128)]),
        end(),
    ]
}

#[test]
fn every_command_decodes() {
    let u1 = uuid_bytes(0x10);
    let u2 = uuid_bytes(0xa0);
    let buf = stream(&every_command_bytes());
    let streams = Sendstream::parse_all(&buf).unwrap();
    assert_eq!(streams.len(), 1);
    let special = |path: &'static [u8], ino: u64, rdev: u64, mode: u32| Mkspecial {
        path: TemporaryPath(path),
        ino: Ino(ino),
        rdev: Rdev(rdev),
        mode: Mode(mode),
    };
    let expected = vec![
        Command::Subvol(Subvol { path: b"vol", uuid: Uuid(u1), ctransid: Ctransid(7) }),
        Command::Snapshot(Snapshot {
            path: b"snap",
            uuid: Uuid(u1),
            ctransid: Ctransid(8),
            clone_uuid: Uuid(u2),
            clone_ctransid: Ctransid(9),
        }),
        Command::Mkfile(Mkfile { path: TemporaryPath(b"o257-5-0"), ino: Ino(257) }),
        Command::Mkdir(Mkdir { path: TemporaryPath(b"o258-5-0"), ino: Ino(258) }),
        Command::Mknod(Mknod(special(b"o259-5-0", 259, 0x0801, 0o60600))),
        Command::Mkfifo(Mkfifo(special(b"o260-5-0", 260, 0, 0o10644))),
        Command::Mksock(Mksock(special(b"o261-5-0", 261, 0, 0o140755))),
        Command::Symlink(Symlink {
            link_name: TemporaryPath(b"o262-5-0"),
            ino: Ino(262),
            target: LinkTarget(b"target"),
        }),
        Command::Rename(Rename { from: b"o257-5-0", to: b"file" }),
        Command::Link(Link { link_name: b"hardlink", target: LinkTarget(b"file") }),
        Command::Unlink(Unlink { path: b"gone" }),
        Command::Rmdir(Rmdir { path: b"dir-gone" }),
        Command::SetXattr(SetXattr {
            path: b"file",
            name: XattrName(b"user.k"),
            data: XattrData(b"v"),
        }),
        Command::RemoveXattr(RemoveXattr { path: b"file", name: XattrName(b"user.k") }),
        Command::Write(Write { path: b"file", offset: FileOffset(4096), data: Data(b"hello") }),
        Command::Clone(sendstream_parser::command::Clone {
            src_offset: FileOffset(4096),
            len: CloneLen(8192),
            src_path: b"src",
            uuid: Uuid(u2),
            ctransid: Ctransid(9),
            dst_path: b"dst",
            dst_offset: FileOffset(0),
        }),
        Command::Truncate(Truncate { path: b"file", size: 5000 }),
        Command::Chmod(Chmod { path: b"file", mode: Mode(0o100600) }),
        Command::Chown(Chown { path: b"file", uid: Uid(1000), gid: Gid(100) }),
        Command::Utimes(Utimes {
            path: b"file",
            atime: Atime(Timespec { sec: 1, nsec: 2 }),
            mtime: Mtime(Timespec { sec: 3, nsec: 4 }),
            ctime: Ctime(Timespec { sec: 5, nsec: 999_999_999 }),
        }),
        Command::UpdateExtent(UpdateExtent { path: b"file", offset: FileOffset(64), len: 128 }),
        Command::End,
    ];
    assert_eq!(streams[0].commands(), expected.as_slice());
    let types: Vec<CommandType> = streams[0].commands().iter().map(|c| c.command_type()).collect();
    assert_eq!(types.len(), 22);
    for (i, a) in types.iter().enumerate() {
        for b in &types[i + 1..] {
            assert_ne!(a, b);
        }
    }
}

#[test]
fn decoded_fields_borrow_the_buffer() {
    let buf = stream(&[
        command(15, &[attr(A_PATH, b"file"), attr_u64(A_FILE_OFFSET, 1), attr(A_DATA, b"xyz")]),
        end(),
    ]);
    let streams = Sendstream::parse_all(&buf).unwrap();
    match &streams[0].commands()[0] {
        Command::Write(w) => {
            let range = buf.as_ptr_range();
            assert!(range.contains(&w.data.as_slice().as_ptr()));
            assert_eq!(w.data.as_slice(), b"xyz");
            assert_eq!(w.offset.as_u64(), 1);
        }
        other => panic!("unexpected command {:?}", other),
    }
}

#[test]
fn getters_return_fields() {
    assert_eq!(TemporaryPath(b"p").path(), b"p");
    assert_eq!(LinkTarget(b"t").path(), b"t");
    assert_eq!(CloneLen(12).as_usize(), 12);
    assert_eq!(Rdev(0x0801).as_u64(), 0x0801);
    assert_eq!(FileOffset(99).as_u64(), 99);
    assert_eq!(Data(b"d").as_slice(), b"d");
    let buf = stream(&[end()]);
    let s = Sendstream::parse_all(&buf).unwrap().remove(0);
    assert_eq!(s.clone().into_commands(), vec![Command::End]);
}

#[test]
fn encoding_decoded_streams_gives_the_bytes_back() {
    let mut buf = stream(&every_command_bytes());
    buf.extend_from_slice(&stream(&[mkfile(b"again", 5), end()]));
    let streams = Sendstream::parse_all(&buf).unwrap();
    let encoded = Sendstream::encode_all(&streams).unwrap();
    assert_eq!(encoded, buf);
    assert_eq!(Sendstream::parse_all(&encoded).unwrap(), streams);
}

#[test]
fn encoding_a_command() {
    let c = Command::Mkfile(Mkfile { path: TemporaryPath(b"o257-5-0"), ino: Ino(257) });
    let mut out = vec![0xee];
    assert!(c.encode_into(&mut out));
    assert_eq!(&out[..1], &[0xee]);
    assert_eq!(&out[1..], mkfile(b"o257-5-0", 257).as_slice());
    let mut out = Vec::new();
    assert!(Command::End.encode_into(&mut out));
    assert_eq!(out, end());
}

#[test]
fn encoding_rejects_oversized_values() {
    let long = vec![b'a'; 0x1_0000];
    let c = Command::Unlink(Unlink { path: &long });
    let mut out = vec![1, 2];
    assert!(!c.encode_into(&mut out));
    assert_eq!(out, vec![1, 2]);
    let s = Sendstream { commands: vec![c, Command::End] };
    assert!(!s.encode_into(&mut out));
    assert_eq!(out, vec![1, 2]);
    assert_eq!(Sendstream::encode_all(&[s]), None);
    let fits = vec![b'a'; 0xffff];
    let c = Command::Unlink(Unlink { path: &fits });
    let mut out = Vec::new();
    assert!(c.encode_into(&mut out));
    assert_eq!(out.len(), 10 + 4 + 0xffff);
}
