use vedirect::{
    hex, idb, nibble, Command, Error, ErrorId, Flags, Frame, FrameDe, ItemId, Response, ResponseId,
    Value,
};

fn examples() -> Vec<(Command, &'static [u8], &'static [u8])> {
    vec![
        (Command::Ping, b":154\n", b":51641F9\n"),
        (Command::Version, b":352\n", b":11641FD\n"),
        (Command::Product, b":451\n", b":1000351\n"),
        (
            Command::Get {
                item: ItemId::BatteryMaximumCurrent,
                flags: Flags::empty(),
            },
            b":7F0ED0071\n",
            b":7F0ED009600DB\n",
        ),
        (
            Command::SetValue {
                item: ItemId::BatteryMaximumCurrent,
                flags: Flags::empty(),
                value: Value::U16(100),
            },
            b":8F0ED0064000C\n",
            b":8F0ED0064000C\n",
        ),
        (Command::Ping, b":253\n", b":3020050\n"),
        (Command::Restart, b":64F\n", b":A0102000543\n"),
    ]
}

fn wire(cmd: &Command) -> Vec<u8> {
    let f = cmd.as_frame();
    let mut ser = f.ser();
    let mut out = Vec::new();
    while let Some(b) = ser.next() {
        out.push(b);
    }
    out
}

#[test]
fn serde() {
    for (cmd, req, resp) in examples().iter() {
        let v = wire(cmd);
        println!("{cmd:?}: {:?}", String::from_utf8(v).unwrap());

        let f = Frame::try_from(req).unwrap();
        println!("{:?}", f);

        let f = Frame::try_from(resp).unwrap();
        let r = Response::try_from(&f).unwrap();
        println!("{f:?}: {r:?}");
    }
}

#[test]
fn de() {
    for (_, cmd, resp) in examples().iter() {
        let f = Frame::try_from(cmd).unwrap();
        println!("{:?}", f);
        assert!(f.valid());
        let f = Frame::try_from(resp).unwrap();
        println!("{:?}", f);
        assert!(f.valid());
        let r = Response::try_from(&f).unwrap();
        println!("{:?}", r);
    }
}

#[test]
fn ser() {
    for (cmd, _, _) in examples().iter() {
        let f = cmd.as_frame();
        println!("{:?}", f);
        assert!(f.valid());
        let v = f.encode();
        let s: String = v.iter().map(|c| *c as char).collect();
        println!("{:?}", s);
    }
}

#[test]
fn commands_encode_to_fixture_bytes() {
    for (cmd, req, _) in examples().iter() {
        if *req == b":253\n" {
            continue;
        }
        assert_eq!(cmd.as_frame().encode(), req.to_vec());
        assert_eq!(wire(cmd), req.to_vec());
    }
}

#[test]
fn encoded_commands_decode_to_same_frame() {
    for (cmd, _, _) in examples().iter() {
        let f = cmd.as_frame();
        let back = Frame::try_from(&f.encode()).unwrap();
        assert_eq!(back.as_bytes(), f.as_bytes());
        assert_eq!(back.encode(), f.encode());
    }
}

#[test]
fn command_frames_sum_to_0x55() {
    let cmds = vec![
        Command::Boot,
        Command::Ping,
        Command::Version,
        Command::Product,
        Command::Restart,
        Command::get(ItemId::PanelPower),
        Command::SetValue {
            item: ItemId::LoadCurrent,
            flags: Flags::from_bits(0x07).unwrap(),
            value: Value::I32(-123456),
        },
        Command::Async {
            item: ItemId::Serial,
            flags: Flags::empty(),
            value: Value::Ascii("HQ1234".to_string()),
        },
        Command::Async {
            item: ItemId::Model,
            flags: Flags::empty(),
            value: Value::Other(vec![0xFF, 0xFE, 0x00]),
        },
    ];
    for cmd in cmds.iter() {
        let f = cmd.as_frame();
        assert_eq!(f.checksum(), 0x55);
        let sum = f.as_bytes().iter().fold(0u8, |a, b| a.wrapping_add(*b));
        assert_eq!(sum, 0x55);
        assert!(f.valid());
    }
}

#[test]
fn set_command_frame_bytes() {
    let cmd = Command::SetValue {
        item: ItemId::BatteryMaximumCurrent,
        flags: Flags::empty(),
        value: Value::U16(100),
    };
    assert_eq!(cmd.as_frame().as_bytes(), &[0x08, 0xF0, 0xED, 0x00, 0x64, 0x00, 0x0C]);
}

#[test]
fn ping_response_fields() {
    let f = Frame::try_from(b":51641F9\n").unwrap();
    assert_eq!(f.as_bytes(), &[0x05, 0x16, 0x41, 0xF9]);
    let r = Response::try_from(&f).unwrap();
    assert_eq!(r, Response::Ping { flags: 4, major: 1, minor: 16 });
}

#[test]
fn version_and_product_responses() {
    let f = Frame::try_from(b":11641FD\n").unwrap();
    assert_eq!(Response::try_from(&f).unwrap(), Response::Done(Value::U16(0x4116)));
    let f = Frame::try_from(b":1000351\n").unwrap();
    assert_eq!(Response::try_from(&f).unwrap(), Response::Done(Value::U16(0x0300)));
}

#[test]
fn get_and_set_responses() {
    let f = Frame::try_from(b":7F0ED009600DB\n").unwrap();
    assert_eq!(
        Response::try_from(&f).unwrap(),
        Response::Update {
            typ: ResponseId::Get,
            item: ItemId::BatteryMaximumCurrent,
            flags: Flags::empty(),
            value: Value::U16(150),
        }
    );
    let f = Frame::try_from(b":8F0ED0064000C\n").unwrap();
    assert_eq!(
        Response::try_from(&f).unwrap(),
        Response::Update {
            typ: ResponseId::SetValue,
            item: ItemId::BatteryMaximumCurrent,
            flags: Flags::empty(),
            value: Value::U16(100),
        }
    );
}

#[test]
fn unknown_and_async_responses() {
    let f = Frame::try_from(b":3020050\n").unwrap();
    assert_eq!(Response::try_from(&f).unwrap(), Response::Unknown(Value::U16(2)));
    let f = Frame::try_from(b":A0102000543\n").unwrap();
    assert_eq!(
        Response::try_from(&f).unwrap(),
        Response::Update {
            typ: ResponseId::Async,
            item: ItemId::State,
            flags: Flags::empty(),
            value: Value::U8(5),
        }
    );
}

#[test]
fn error_response() {
    let f = Frame::try_from(b":4AAAAFD\n").unwrap();
    assert_eq!(Response::try_from(&f).unwrap(), Response::Error(ErrorId::Checksum));
}

#[test]
fn nibble_inverts_hex() {
    for v in 0u8..16 {
        let d = hex(v).unwrap();
        assert!(d.is_ascii_digit() || (b'A'..=b'F').contains(&d));
        assert_eq!(nibble(d).unwrap(), v);
    }
    assert_eq!(hex(10).unwrap(), b'A');
    assert_eq!(nibble(b'f').unwrap(), 15);
    assert_eq!(nibble(b'c').unwrap(), 12);
}

#[test]
fn nibble_refuses_non_digits() {
    for c in 0u8..=255 {
        let is_digit = c.is_ascii_hexdigit();
        match nibble(c) {
            Ok(_) => assert!(is_digit),
            Err(e) => {
                assert!(!is_digit);
                assert_eq!(e, Error::Hex(c));
            }
        }
    }
    assert_eq!(hex(16), Err(Error::Hex(16)));
}

#[test]
fn guess_by_width() {
    assert_eq!(Value::guess(&[]), Value::Empty);
    assert_eq!(Value::guess(&[0x96]), Value::U8(0x96));
    assert_eq!(Value::guess(&[0x34, 0x12]), Value::U16(0x1234));
    assert_eq!(Value::guess(&[1, 2, 3]), Value::Other(vec![1, 2, 3]));
    assert_eq!(Value::guess(&[0x78, 0x56, 0x34, 0x12]), Value::U32(0x12345678));
    assert_eq!(Value::guess(&[1, 2, 3, 4, 5]), Value::Other(vec![1, 2, 3, 4, 5]));
}

#[test]
fn value_bytes_guess_back() {
    let cases = vec![
        (Value::Empty, Value::Empty),
        (Value::U8(200), Value::U8(200)),
        (Value::I8(-1), Value::U8(0xFF)),
        (Value::U16(0xBEEF), Value::U16(0xBEEF)),
        (Value::I16(-2), Value::U16(0xFFFE)),
        (Value::U32(0xDEADBEEF), Value::U32(0xDEADBEEF)),
        (Value::I32(-2), Value::U32(0xFFFFFFFE)),
        (Value::Other(vec![9, 8, 7]), Value::Other(vec![9, 8, 7])),
        (Value::Ascii("abc".to_string()), Value::Other(b"abc".to_vec())),
        (Value::Ascii("ab".to_string()), Value::U16(0x6261)),
    ];
    for (v, back) in cases.iter() {
        let mut bytes = Vec::new();
        v.ser(&mut bytes);
        assert_eq!(&Value::guess(&bytes), back);
    }
    let mut bytes = vec![0xAA];
    Value::I32(-2).ser(&mut bytes);
    assert_eq!(bytes, vec![0xAA, 0xFE, 0xFF, 0xFF, 0xFF]);
}

#[test]
fn unknown_item_is_refused() {
    let f = Frame::try_from(b":734120008\n").unwrap();
    assert_eq!(Response::try_from(&f), Err(Error::Item(0x1234)));
}

#[test]
fn leading_byte_turns_frame_into_text() {
    assert_eq!(Frame::try_from(b"X:154\n"), Err(Error::Length));
    let mut d = FrameDe::new();
    for c in b"X:154\n".iter() {
        d.push(*c).unwrap();
    }
    assert!(!d.done());
    assert_eq!(d.frame().as_bytes(), b"X:154\n");
}

#[test]
fn frame_after_frame_decodes_alone() {
    let f = Frame::try_from(b":154\n:352\n").unwrap();
    assert_eq!(f.as_bytes(), &[0x03, 0x52]);
    let mut d = FrameDe::new();
    assert!(!d.done());
    for c in b":154\n".iter() {
        d.push(*c).unwrap();
    }
    assert!(d.done());
    assert_eq!(d.frame().as_bytes(), &[0x01, 0x54]);
    for c in b":352\n".iter() {
        d.push(*c).unwrap();
    }
    assert!(d.done());
    assert_eq!(d.into_frame().as_bytes(), &[0x03, 0x52]);
}

#[test]
fn text_block_ends_one_byte_after_label() {
    let mut d = FrameDe::new();
    for c in b"V\t12800\r\nChecksum\t".iter() {
        d.push(*c).unwrap();
        assert!(!d.done());
    }
    d.push(0x42).unwrap();
    assert!(d.done());
    assert_eq!(d.frame().as_bytes(), b"V\t12800\r\nChecksum\tB");
}

#[test]
fn lower_case_digits_decode() {
    let f = Frame::try_from(b":7f0ed009600db\n").unwrap();
    assert_eq!(f.as_bytes(), &[0x07, 0xF0, 0xED, 0x00, 0x96, 0x00, 0xDB]);
}

#[test]
fn bad_digit_leaves_decoder_unchanged() {
    let mut d = FrameDe::new();
    d.push(b':').unwrap();
    d.push(b'1').unwrap();
    assert_eq!(d.push(b'G'), Err(Error::Hex(b'G')));
    d.push(b'5').unwrap();
    d.push(b'4').unwrap();
    d.push(b'\n').unwrap();
    assert!(d.done());
    assert_eq!(d.frame().as_bytes(), &[0x01, 0x54]);
}

#[test]
fn each_error_kind() {
    assert_eq!(Frame::try_from(b":1G\n"), Err(Error::Hex(b'G')));
    assert_eq!(Frame::try_from(b":15"), Err(Error::Length));
    assert_eq!(Frame::try_from(b""), Err(Error::Length));
    assert_eq!(Frame::try_from(b":155\n"), Err(Error::Checksum));
    let one = Frame::try_from(b":0\n").unwrap();
    assert_eq!(Response::try_from(&one), Err(Error::Checksum));
    assert_eq!(Response::try_from(&Frame::default()), Err(Error::Checksum));
    let f = Frame::try_from(b":253\n").unwrap();
    assert_eq!(Response::try_from(&f), Err(Error::Response(2)));
    let f = Frame::try_from(b":411112F\n").unwrap();
    assert_eq!(Response::try_from(&f), Err(Error::Error(0x1111)));
    let f = Frame::try_from(b":50050\n").unwrap();
    assert_eq!(Response::try_from(&f), Err(Error::Slice));
    let f = Frame::try_from(b":7F0ED0869\n").unwrap();
    assert_eq!(Response::try_from(&f), Err(Error::Flags(8)));
}

#[test]
fn zero_sum_frames_are_valid() {
    let f = Frame::from_data(vec![0x01, 0xFF]);
    assert_eq!(f.checksum(), 0);
    assert!(f.valid());
    assert!(!Frame::from_data(vec![0x01, 0xFE]).valid());
    assert!(!Frame::default().valid());
}

#[test]
fn flags_bits() {
    assert!(Flags::from_bits(0x08).is_none());
    let f = Flags::from_bits(0x05).unwrap();
    assert_eq!(f.bits(), 5);
    assert!(!f.is_empty());
    assert!(f.contains(Flags::from_bits(vedirect::UNKNOWN_ID).unwrap()));
    assert!(!f.contains(Flags::from_bits(vedirect::NOT_SUPPORTED).unwrap()));
    assert!(Flags::empty().is_empty());
    match Command::get(ItemId::YieldToday) {
        Command::Get { item, flags } => {
            assert_eq!(item, ItemId::YieldToday);
            assert!(flags.is_empty());
        }
        _ => panic!("not a read"),
    }
}

#[test]
fn codes_round_trip() {
    assert_eq!(ItemId::from_code(0xEDF0), Some(ItemId::BatteryMaximumCurrent));
    assert_eq!(ItemId::BatteryMaximumCurrent.code(), 0xEDF0);
    assert_eq!(ItemId::from_code(0x1234), None);
    assert_eq!(ResponseId::from_code(0x0A), Some(ResponseId::Async));
    assert_eq!(ResponseId::from_code(2), None);
    assert_eq!(ErrorId::from_code(0xAAAA), Some(ErrorId::Checksum));
    assert_eq!(vedirect::CommandId::Restart.code(), 6);
    assert_eq!(vedirect::ProductId::from_code(0xA066), Some(vedirect::ProductId::SmartSolarMppt100v20a));
}

#[test]
fn report_line() {
    let entries = vec![
        (ItemId::BatteryMaximumCurrent, Value::U16(150)),
        (ItemId::PanelVoltage, Value::I16(-5)),
        (ItemId::Serial, Value::Ascii("HQ".to_string())),
        (ItemId::Model, Value::Empty),
    ];
    let line = String::from_utf8(idb(&entries, "home")).unwrap();
    assert_eq!(
        line,
        "vedirect,station=home BatteryMaximumCurrent=150,PanelVoltage=-5,Serial=\"0\",Model=Empty"
    );
    let line = String::from_utf8(idb(&Vec::new(), "home")).unwrap();
    assert_eq!(line, "vedirect,station=home");
    let line = String::from_utf8(idb(&vec![(ItemId::YieldToday, Value::I32(i32::MIN))], "s")).unwrap();
    assert_eq!(line, "vedirect,station=s YieldToday=-2147483648");
}
