use rsnvim::client::{Action, Client};
use rsnvim::convert::Arguments;
use rsnvim::error::Error;
use rsnvim::genapi::generate::{manifest_functions, read_manifest};
use rsnvim::genapi::types::Type;
use rsnvim::rpc::{decode, encode, RpcMessage};
use rsnvim::value::{Integer, Value};
use rsnvim::wire::{from_wire, read_frame, read_value};

fn to_wire(value: &Value) -> rmpv::Value {
    match value {
        Value::Nil => rmpv::Value::Nil,
        Value::Boolean(b) => rmpv::Value::Boolean(*b),
        Value::Integer(n) => match n.as_u64() {
            Some(n) => rmpv::Value::from(n),
            None => rmpv::Value::from(n.as_i64().unwrap()),
        },
        Value::F32(bits) => rmpv::Value::F32(f32::from_bits(*bits)),
        Value::F64(bits) => rmpv::Value::F64(f64::from_bits(*bits)),
        Value::String(s) => rmpv::Value::String(s.as_str().into()),
        Value::Binary(b) => rmpv::Value::Binary(b.clone()),
        Value::Array(items) => rmpv::Value::Array(items.iter().map(to_wire).collect()),
        Value::Dictionary(entries) => {
            rmpv::Value::Map(entries.iter().map(|(k, v)| (to_wire(k), to_wire(v))).collect())
        }
        Value::Ext(tag, data) => rmpv::Value::Ext(*tag, data.clone()),
    }
}

fn write(frame: RpcMessage, stream: &mut Vec<u8>) {
    rmpv::encode::write_value(stream, &to_wire(&encode(frame))).unwrap();
}

fn read(stream: &mut &[u8]) -> RpcMessage {
    decode(&from_wire(&rmpv::decode::read_value(stream).unwrap())).unwrap()
}

fn copy(frame: &RpcMessage) -> RpcMessage {
    match frame {
        RpcMessage::RpcRequest { msgid, method, params } => RpcMessage::RpcRequest {
            msgid: *msgid,
            method: method.clone(),
            params: params.clone(),
        },
        RpcMessage::RpcResponse { msgid, error, result } => RpcMessage::RpcResponse {
            msgid: *msgid,
            error: error.clone(),
            result: result.clone(),
        },
        RpcMessage::RpcNotification { method, params } => RpcMessage::RpcNotification {
            method: method.clone(),
            params: params.clone(),
        },
    }
}

#[test]
fn frames_come_back_from_the_wire_unchanged() {
    let frames = vec![
        RpcMessage::RpcRequest {
            msgid: 5,
            method: "nvim_buf_set_lines".to_string(),
            params: vec![
                Value::Ext(0, vec![1]),
                Value::Integer(Integer::from_i64(-1)),
                Value::Integer(Integer::from_u64(u64::MAX)),
                Value::Boolean(true),
                Value::Array(vec![Value::String("line".to_string())]),
                Value::F64(0.1f64.to_bits()),
                Value::F32(3.5f32.to_bits()),
                Value::Binary(vec![0, 1, 2]),
                Value::Dictionary(vec![(Value::String("key".to_string()), Value::Nil)]),
            ],
        },
        RpcMessage::RpcResponse { msgid: 70000, error: Value::Nil, result: Value::Array(vec![]) },
        RpcMessage::RpcResponse {
            msgid: 1 << 40,
            error: Value::Array(vec![Value::Integer(Integer::from_u64(1)), Value::String("E".to_string())]),
            result: Value::Nil,
        },
        RpcMessage::RpcNotification { method: "redraw".to_string(), params: vec![] },
    ];
    let mut stream = Vec::new();
    for frame in &frames {
        write(copy(frame), &mut stream);
    }
    let mut rest = &stream[..];
    for frame in &frames {
        assert_eq!(&read(&mut rest), frame);
    }
    assert!(rest.is_empty());
}

#[test]
fn a_request_is_written_as_the_protocol_wants_it() {
    let mut stream = Vec::new();
    write(
        RpcMessage::RpcRequest {
            msgid: 0,
            method: "ping".to_string(),
            params: vec![Value::Integer(Integer::from_u64(1))],
        },
        &mut stream,
    );
    assert_eq!(stream, vec![0x94, 0x00, 0x00, 0xa4, b'p', b'i', b'n', b'g', 0x91, 0x01]);
}

#[test]
fn a_small_number_comes_back_as_the_same_number() {
    let mut stream = Vec::new();
    rmpv::encode::write_value(&mut stream, &rmpv::Value::from(5u32)).unwrap();
    rmpv::encode::write_value(&mut stream, &rmpv::Value::from(5i8)).unwrap();
    let mut rest = &stream[..];
    let first = from_wire(&rmpv::decode::read_value(&mut rest).unwrap());
    let second = from_wire(&rmpv::decode::read_value(&mut rest).unwrap());
    assert_eq!(first, Value::Integer(Integer::from_u64(5)));
    assert_eq!(second, first);
    assert_eq!(first.as_u64(), Some(5));
}

#[test]
fn arguments_of_every_kind_pass_through_a_loopback() {
    let handle = Value::Ext(1, vec![7]);
    let params = Arguments::new()
        .with(&1u64)
        .with(&-2i64)
        .with(&true)
        .with(&"three".to_string())
        .with(&vec![Value::Nil, Value::F64(4.0f64.to_bits())])
        .with(&vec!["five".to_string(), "six".to_string()])
        .with(&vec![(Value::String("seven".to_string()), Value::Integer(Integer::from_u64(8)))])
        .with(&handle)
        .finish();
    let mut stream = Vec::new();
    write(
        RpcMessage::RpcRequest { msgid: 3, method: "m".to_string(), params: params.clone() },
        &mut stream,
    );
    let mut rest = &stream[..];
    assert_eq!(read(&mut rest), RpcMessage::RpcRequest { msgid: 3, method: "m".to_string(), params });
}

#[test]
fn an_echoing_peer_answers_every_caller_over_the_wire() {
    let mut client: Client<char> = Client::new();
    client.start_event_loop();
    let mut to_peer = Vec::new();
    write(client.begin_call("ping", vec![Value::Integer(Integer::from_u64(1))], 'a').unwrap(), &mut to_peer);
    write(client.begin_call("ping", vec![Value::String("two".to_string())], 'b').unwrap(), &mut to_peer);

    let mut seen = &to_peer[..];
    let mut answers = Vec::new();
    while !seen.is_empty() {
        match read(&mut seen) {
            RpcMessage::RpcRequest { msgid, params, .. } => {
                answers.push(RpcMessage::RpcResponse { msgid, error: Value::Nil, result: Value::Array(params) })
            }
            other => panic!("{:?}", other),
        }
    }
    answers.reverse();
    let mut to_client = Vec::new();
    for answer in answers {
        write(answer, &mut to_client);
    }

    let mut incoming = &to_client[..];
    assert_eq!(
        client.dispatch(read(&mut incoming)),
        Action::Deliver { waiter: 'b', outcome: Ok(Value::Array(vec![Value::String("two".to_string())])) }
    );
    assert_eq!(
        client.dispatch(read(&mut incoming)),
        Action::Deliver { waiter: 'a', outcome: Ok(Value::Array(vec![Value::Integer(Integer::from_u64(1))])) }
    );
    assert!(incoming.is_empty());
}

#[test]
fn bytes_that_hold_no_frame_are_refused() {
    let mut stream = Vec::new();
    rmpv::encode::write_value(&mut stream, &rmpv::Value::from("not a frame")).unwrap();
    let value = from_wire(&rmpv::decode::read_value(&mut &stream[..]).unwrap());
    assert!(decode(&value).is_err());
}

#[test]
fn a_manifest_is_read_from_its_bytes() {
    let function = rmpv::Value::Map(vec![
        (rmpv::Value::from("name"), rmpv::Value::from("nvim_get_mode")),
        (rmpv::Value::from("since"), rmpv::Value::from(2)),
        (rmpv::Value::from("parameters"), rmpv::Value::Array(vec![])),
        (rmpv::Value::from("return_type"), rmpv::Value::from("Dictionary")),
        (rmpv::Value::from("method"), rmpv::Value::from(false)),
    ]);
    let manifest = rmpv::Value::Map(vec![
        (rmpv::Value::from("version"), rmpv::Value::Map(vec![])),
        (rmpv::Value::from("functions"), rmpv::Value::Array(vec![function])),
    ]);
    let mut bytes = Vec::new();
    rmpv::encode::write_value(&mut bytes, &manifest).unwrap();
    let api = from_wire(&rmpv::decode::read_value(&mut &bytes[..]).unwrap());
    let functions = manifest_functions(&api).unwrap();
    assert_eq!(read_manifest(&bytes), Some(manifest_functions(&api).unwrap()));
    assert_eq!(functions.len(), 1);
    assert_eq!(functions[0].name, "nvim_get_mode");
    assert_eq!(functions[0].since, Some(2));
    assert_eq!(functions[0].return_type, Type::VEC(Box::new(Type::TUPLE(vec![Type::VALUE, Type::VALUE]))));
}

#[test]
fn every_kind_of_value_is_read_as_what_it_holds() {
    assert_eq!(from_wire(&rmpv::Value::Nil), Value::Nil);
    assert_eq!(from_wire(&rmpv::Value::Boolean(true)), Value::Boolean(true));
    assert_eq!(from_wire(&rmpv::Value::Boolean(false)), Value::Boolean(false));
    assert_eq!(from_wire(&rmpv::Value::from(0)), Value::Integer(Integer::from_u64(0)));
    assert_eq!(from_wire(&rmpv::Value::from(u64::MAX)), Value::Integer(Integer::from_u64(u64::MAX)));
    assert_eq!(from_wire(&rmpv::Value::from(-1)), Value::Integer(Integer::from_i64(-1)));
    assert_eq!(from_wire(&rmpv::Value::from(i64::MIN)), Value::Integer(Integer::from_i64(i64::MIN)));
    assert_eq!(from_wire(&rmpv::Value::F32(1.5)), Value::F32(1.5f32.to_bits()));
    assert_eq!(from_wire(&rmpv::Value::F64(-2.25)), Value::F64((-2.25f64).to_bits()));
    assert_eq!(from_wire(&rmpv::Value::F64(0.0)), Value::F64(0));
    assert_eq!(from_wire(&rmpv::Value::from("text")), Value::String("text".to_string()));
    assert_eq!(from_wire(&rmpv::Value::from("")), Value::String(String::new()));
    assert_eq!(from_wire(&rmpv::Value::Binary(vec![1, 2])), Value::Binary(vec![1, 2]));
    assert_eq!(from_wire(&rmpv::Value::Binary(vec![])), Value::Binary(vec![]));
    assert_eq!(from_wire(&rmpv::Value::Ext(-4, vec![7])), Value::Ext(-4, vec![7]));
    assert_eq!(from_wire(&rmpv::Value::Array(vec![])), Value::Array(vec![]));
    assert_eq!(from_wire(&rmpv::Value::Map(vec![])), Value::Dictionary(vec![]));
}

#[test]
fn values_within_values_are_read_too() {
    let wire = rmpv::Value::Array(vec![
        rmpv::Value::Map(vec![(
            rmpv::Value::from("key"),
            rmpv::Value::Array(vec![rmpv::Value::from(1), rmpv::Value::Nil]),
        )]),
        rmpv::Value::Array(vec![rmpv::Value::Array(vec![rmpv::Value::F64(1.0)])]),
    ]);
    assert_eq!(
        from_wire(&wire),
        Value::Array(vec![
            Value::Dictionary(vec![(
                Value::String("key".to_string()),
                Value::Array(vec![Value::Integer(Integer::from_u64(1)), Value::Nil]),
            )]),
            Value::Array(vec![Value::Array(vec![Value::F64(1.0f64.to_bits())])]),
        ])
    );
    assert_eq!(to_wire(&from_wire(&wire)), wire);
}

#[test]
fn a_string_that_is_no_utf8_is_read_as_binary() {
    let bytes = [0xa2u8, 0xff, 0xfe];
    let wire = rmpv::decode::read_value(&mut &bytes[..]).unwrap();
    assert!(wire.is_str() == false && wire.as_slice().is_some());
    assert_eq!(from_wire(&wire), Value::Binary(vec![0xff, 0xfe]));
    assert_eq!(read_value(&bytes), Ok(Value::Binary(vec![0xff, 0xfe])));
}

#[test]
fn the_first_value_of_the_bytes_is_read() {
    assert_eq!(read_value(&[0xc0]), Ok(Value::Nil));
    assert_eq!(read_value(&[0xc3]), Ok(Value::Boolean(true)));
    assert_eq!(read_value(&[0x05]), Ok(Value::Integer(Integer::from_u64(5))));
    assert_eq!(read_value(&[0xff]), Ok(Value::Integer(Integer::from_i64(-1))));
    assert_eq!(read_value(&[0xcc, 0x05]), Ok(Value::Integer(Integer::from_u64(5))));
    assert_eq!(read_value(&[0xd0, 0x05]), Ok(Value::Integer(Integer::from_u64(5))));
    assert_eq!(read_value(&[0xa2, b'h', b'i']), Ok(Value::String("hi".to_string())));
    assert_eq!(read_value(&[0xc4, 0x01, 0x09]), Ok(Value::Binary(vec![9])));
    assert_eq!(read_value(&[0xd4, 0x01, 0x2a]), Ok(Value::Ext(1, vec![42])));
    assert_eq!(
        read_value(&[0xcb, 0x3f, 0xf8, 0, 0, 0, 0, 0, 0]),
        Ok(Value::F64(1.5f64.to_bits()))
    );
    assert_eq!(read_value(&[0xca, 0x3f, 0xc0, 0, 0]), Ok(Value::F32(1.5f32.to_bits())));
    assert_eq!(
        read_value(&[0x92, 0x01, 0x81, 0xa1, b'k', 0xc0]),
        Ok(Value::Array(vec![
            Value::Integer(Integer::from_u64(1)),
            Value::Dictionary(vec![(Value::String("k".to_string()), Value::Nil)]),
        ]))
    );
    assert_eq!(read_value(&[0xc0, 0xc3]), Ok(Value::Nil));
}

#[test]
fn bytes_that_end_too_early_give_a_decoding_error() {
    for bytes in [&[][..], &[0x92, 0x01][..], &[0xa5, b'h'][..], &[0xcb, 0x3f][..]] {
        match read_value(bytes) {
            Err(Error::DecodingError(text)) => assert!(!text.is_empty()),
            other => panic!("{:?}", other),
        }
        assert!(matches!(read_frame(bytes), Err(Error::DecodingError(_))));
        assert_eq!(read_manifest(bytes), None);
    }
}

#[test]
fn a_frame_is_read_from_its_bytes() {
    let bytes = [0x94, 0x00, 0x07, 0xa4, b'p', b'i', b'n', b'g', 0x90];
    assert_eq!(
        read_frame(&bytes),
        Ok(RpcMessage::RpcRequest { msgid: 7, method: "ping".to_string(), params: vec![] })
    );
    assert_eq!(
        read_frame(&[0x93, 0x02, 0xa1, b'e', 0x91, 0xc2]),
        Ok(RpcMessage::RpcNotification { method: "e".to_string(), params: vec![Value::Boolean(false)] })
    );
    assert_eq!(read_frame(&[0xc0]), Err(Error::DecodingError("not a frame".to_string())));
    assert_eq!(read_frame(&[0x91, 0x00]), Err(Error::DecodingError("wrong field type".to_string())));
}

#[test]
fn a_manifest_that_cannot_be_read_lists_nothing() {
    assert_eq!(read_manifest(&[0x81, 0x01, 0x02]), None);
    assert_eq!(read_manifest(&[0x80]), Some(vec![]));
    assert_eq!(read_manifest(&[0xc0]), Some(vec![]));
}
