use sendstream_parser::{AttrKind, AttrType, AttrValue, Attrs, Command, CommandType, Error, Ino, Mkfile, TemporaryPath};

fn record(tag: u16, value: &[u8]) -> Vec<u8> {
    let mut v = tag.to_le_bytes().to_vec();
    v.extend_from_slice(&(value.len() as u16).to_le_bytes());
    v.extend_from_slice(value);
    v
}

#[test]
fn attrs_skip_unknown_tags_and_keep_order() {
    let mut payload = record(15, b"p");
    payload.extend(record(0, b"zero"));
    payload.extend(record(77, b""));
    payload.extend(record(3, &9u64.to_le_bytes()));
    let attrs = Attrs::parse(&payload).unwrap();
    assert_eq!(
        attrs.entries,
        vec![(AttrType::Path, AttrValue::Bytes(b"p")), (AttrType::Ino, AttrValue::Int(9))]
    );
}

#[test]
fn attrs_of_empty_payload() {
    assert_eq!(Attrs::parse(&[]).unwrap().entries, vec![]);
}

#[test]
fn attrs_decode_each_kind() {
    let mut time = 1_700_000_000u64.to_le_bytes().to_vec();
    time.extend_from_slice(&500u32.to_le_bytes());
    let mut payload = record(9, &time);
    payload.extend(record(1, &[0xab; 16]));
    payload.extend(record(6, &0xffff_ffff_0000_03e8u64.to_le_bytes()));
    payload.extend(record(4, &0x0102_0304_0506_0708u64.to_le_bytes()));
    let attrs = Attrs::parse(&payload).unwrap();
    assert_eq!(attrs.entries.len(), 4);
    match attrs.entries[0].1 {
        AttrValue::Time(t) => {
            assert_eq!(t.sec, 1_700_000_000);
            assert_eq!(t.nsec, 500);
        }
        other => panic!("unexpected value {:?}", other),
    }
    match attrs.entries[1].1 {
        AttrValue::Uuid(u) => assert_eq!(u.0, [0xab; 16]),
        other => panic!("unexpected value {:?}", other),
    }
    assert_eq!(attrs.entries[2], (AttrType::Uid, AttrValue::Int(1000)));
    assert_eq!(attrs.entries[3], (AttrType::Size, AttrValue::Int(0x0102_0304_0506_0708)));
}

#[test]
fn attrs_reject_bad_widths() {
    assert_eq!(Attrs::parse(&record(9, &[0; 8])).map(|a| a.entries.len()), Err(Error::MalformedAttribute(AttrType::Ctime)));
    assert_eq!(Attrs::parse(&record(5, &[0; 9])).map(|a| a.entries.len()), Err(Error::MalformedAttribute(AttrType::Mode)));
    assert_eq!(Attrs::parse(&[15, 0]).map(|a| a.entries.len()), Err(Error::Truncated));
}

#[test]
fn build_reports_first_missing_slot() {
    let attrs = Attrs { entries: vec![(AttrType::Ino, AttrValue::Int(4))] };
    assert_eq!(
        Command::build(CommandType::Mkdir, &attrs),
        Err(Error::MissingRequiredAttribute { command: CommandType::Mkdir, attribute: AttrType::Path })
    );
    let attrs = Attrs { entries: vec![] };
    assert_eq!(Command::build(CommandType::End, &attrs), Ok(Command::End));
}

#[test]
fn build_rejects_wrong_shape() {
    let attrs = Attrs {
        entries: vec![(AttrType::Path, AttrValue::Int(1)), (AttrType::Ino, AttrValue::Int(4))],
    };
    assert_eq!(
        Command::build(CommandType::Mkfile, &attrs),
        Err(Error::MalformedAttribute(AttrType::Path))
    );
    let attrs = Attrs {
        entries: vec![(AttrType::Path, AttrValue::Bytes(b"x")), (AttrType::Mode, AttrValue::Int(1 << 40))],
    };
    assert_eq!(
        Command::build(CommandType::Chmod, &attrs),
        Err(Error::MalformedAttribute(AttrType::Mode))
    );
}

#[test]
fn build_uses_last_occurrence() {
    let attrs = Attrs {
        entries: vec![
            (AttrType::Ino, AttrValue::Int(1)),
            (AttrType::Path, AttrValue::Bytes(b"x")),
            (AttrType::Ino, AttrValue::Int(2)),
        ],
    };
    assert_eq!(
        Command::build(CommandType::Mkfile, &attrs),
        Ok(Command::Mkfile(Mkfile { path: TemporaryPath(b"x"), ino: Ino(2) }))
    );
    assert_eq!(attrs.slot(CommandType::Mkfile, AttrType::Ino), Ok(AttrValue::Int(2)));
    assert_eq!(
        attrs.slot(CommandType::Mkfile, AttrType::Rdev),
        Err(Error::MissingRequiredAttribute { command: CommandType::Mkfile, attribute: AttrType::Rdev })
    );
}

#[test]
fn tags_map_both_ways() {
    for tag in 0u16..40 {
        match CommandType::from_tag(tag) {
            Some(c) => {
                assert!((1..=22).contains(&tag));
                assert_eq!(c.tag(), tag);
            }
            None => assert!(tag == 0 || tag > 22),
        }
        match AttrType::from_tag(tag) {
            Some(a) => {
                assert!((1..=24).contains(&tag));
                assert_eq!(a.tag(), tag);
            }
            None => assert!(tag == 0 || tag > 24),
        }
    }
    assert_eq!(CommandType::from_tag(3), Some(CommandType::Mkfile));
    assert_eq!(CommandType::from_tag(21), Some(CommandType::End));
    assert_eq!(AttrType::from_tag(3), Some(AttrType::Ino));
    assert_eq!(AttrType::Path.kind(), AttrKind::Bytes);
    assert_eq!(AttrType::Mode.kind(), AttrKind::U32In64);
    assert_eq!(AttrType::Atime.kind(), AttrKind::Timespec);
    assert_eq!(AttrType::CloneUuid.kind(), AttrKind::Uuid);
    assert_eq!(AttrType::CloneLen.kind(), AttrKind::U64);
}
