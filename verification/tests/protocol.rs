use backend::msg::{
    decode_message, decode_request, decode_response, payload_text, receive_text, send_message,
    send_request, send_response, send_serialized, Acknoledgement, DecodeError, HttpCode,
    MessageBasis, RequestMessage, ResponseMessage, SendError,
};
use backend::net::{
    length_prefix, prefix_value, receive_buffer, send_buffer, FrameError, FrameReader,
    FrameWriter, MemoryStream, NET_BUFF_SIZE,
};

/// An acknowledgement as a message: `{"code": <number>, "message": <text or null>}`.
#[derive(Clone, Debug, PartialEq)]
struct AckMessage(Acknoledgement);

impl MessageBasis for AckMessage {
    fn to_json(&self) -> Result<String, serde_json::Error> {
        let mut map = serde_json::Map::new();
        map.insert("code".to_string(), serde_json::Value::from(self.0.code().code()));
        let message = match self.0.message() {
            Some(text) => serde_json::Value::String(text.to_string()),
            None => serde_json::Value::Null,
        };
        map.insert("message".to_string(), message);
        serde_json::to_string(&serde_json::Value::Object(map))
    }

    fn from_json(text: &str) -> Result<Self, serde_json::Error> {
        let value: serde_json::Value = serde_json::from_str(text)?;
        let number = value.get("code").and_then(|code| code.as_u64());
        let code = number.and_then(|n| u16::try_from(n).ok()).and_then(HttpCode::from_code);
        let message = value.get("message").and_then(|m| m.as_str()).map(|m| m.to_string());
        match code {
            Some(code) => Ok(AckMessage(Acknoledgement::new(code, message))),
            None => Err(serde_json::from_str::<u16>("\"no such status code\"").unwrap_err()),
        }
    }
}

impl RequestMessage for AckMessage {}

impl ResponseMessage for AckMessage {}

fn read_all(stream: &mut MemoryStream) -> Vec<u8> {
    let mut all = Vec::new();
    loop {
        let chunk = stream.read(NET_BUFF_SIZE);
        if chunk.is_empty() {
            return all;
        }
        all.extend_from_slice(&chunk);
    }
}

#[test]
fn prefix_is_big_endian() {
    assert_eq!(length_prefix(0), [0, 0, 0, 0]);
    assert_eq!(length_prefix(2), [0, 0, 0, 2]);
    assert_eq!(length_prefix(258), [0, 0, 1, 2]);
    assert_eq!(length_prefix(0x0102_0304), [1, 2, 3, 4]);
    assert_eq!(length_prefix(u32::MAX as usize), [255, 255, 255, 255]);
    assert_eq!(prefix_value(&[0, 0, 0, 2]), 2);
    assert_eq!(prefix_value(&[1, 2, 3, 4]), 0x0102_0304);
    assert_eq!(prefix_value(&[255, 255, 255, 255]), u32::MAX);
}

#[test]
fn send_buffer_writes_prefix_then_payload() {
    let mut stream = MemoryStream::new();
    send_buffer(b"{}", &mut stream);
    assert_eq!(read_all(&mut stream), vec![0, 0, 0, 2, b'{', b'}']);
}

#[test]
fn send_buffer_of_nothing_is_a_bare_prefix() {
    let mut stream = MemoryStream::new();
    send_buffer(b"", &mut stream);
    assert_eq!(read_all(&mut stream), vec![0, 0, 0, 0]);
}

#[test]
fn frame_round_trip_for_every_chunk_size() {
    let payload: Vec<u8> = (0..10_000u32).map(|i| (i % 251) as u8).collect();
    for chunk in [1usize, 2, 3, 4, 5, 7, 4095, 4096, 4097, 100_000] {
        let mut stream = MemoryStream::from_bytes(Vec::new(), chunk);
        send_buffer(&payload, &mut stream);
        let mut dest = vec![9, 9, 9];
        assert_eq!(receive_buffer(&mut dest, &mut stream), Ok(()));
        assert_eq!(dest, payload);
        assert!(stream.read(1).is_empty());
    }
}

#[test]
fn acknowledgement_frame_has_the_length_of_its_json() {
    let ack = AckMessage(Acknoledgement::new(HttpCode::OK, None));
    let json = ack.to_json().unwrap();
    let mut stream = MemoryStream::new();
    assert!(send_message(ack.clone(), &mut stream).is_ok());
    let mut copy = MemoryStream::new();
    assert!(send_message(ack.clone(), &mut copy).is_ok());
    let wire = read_all(&mut copy);
    assert_eq!(&wire[..4], &(json.len() as u32).to_be_bytes());
    assert_eq!(&wire[4..], json.as_bytes());
    assert_eq!(wire.len(), 4 + json.len());
    let back: AckMessage = decode_message(&mut stream).unwrap();
    assert_eq!(back, ack);
    let mut replay = MemoryStream::from_bytes(wire, 1);
    let again: AckMessage = decode_message(&mut replay).unwrap();
    assert_eq!(again, ack);
}

#[test]
fn acknowledgements_compare_by_status_and_text() {
    let ok = Acknoledgement::new(HttpCode::OK, None);
    let bad = Acknoledgement::new(HttpCode::BadRequest, None);
    assert!(ok != bad);
    assert!(ok == Acknoledgement::new(HttpCode::OK, None));
    assert!(ok.is_ok());
    assert!(!bad.is_ok());
    assert_eq!(ok.code(), HttpCode::OK);
    assert_eq!(bad.code(), HttpCode::BadRequest);
    assert_eq!(ok.message(), None);
    let told = Acknoledgement::new(HttpCode::OK, Some("done".to_string()));
    assert_eq!(told.message(), Some("done"));
    assert!(told != ok);
    assert!(told != Acknoledgement::new(HttpCode::OK, Some("other".to_string())));
    assert!(told == Acknoledgement::new(HttpCode::OK, Some("done".to_string())));
}

#[test]
fn stream_that_ends_after_the_prefix_is_an_error() {
    let mut stream = MemoryStream::from_bytes(vec![0, 0, 0, 5], 4096);
    let mut dest = vec![1, 2, 3];
    assert_eq!(
        receive_buffer(&mut dest, &mut stream),
        Err(FrameError::CutPayload { declared: 5, received: 0 })
    );
    assert!(dest.is_empty());
    let mut stream = MemoryStream::from_bytes(vec![0, 0, 0, 5], 4096);
    match decode_message::<AckMessage>(&mut stream) {
        Err(DecodeError::Frame(FrameError::CutPayload { declared: 5, received: 0 })) => {}
        other => panic!("expected a framing error, got {:?}", other),
    }
}

#[test]
fn truncated_payload_is_an_error() {
    for k in 0..5usize {
        let mut bytes = vec![0, 0, 0, 5];
        bytes.extend_from_slice(&b"hello"[..k]);
        let mut stream = MemoryStream::from_bytes(bytes, 2);
        let mut dest = Vec::new();
        assert_eq!(
            receive_buffer(&mut dest, &mut stream),
            Err(FrameError::CutPayload { declared: 5, received: k })
        );
        assert!(dest.is_empty());
    }
}

#[test]
fn truncated_prefix_is_an_error() {
    for k in 0..4usize {
        let mut stream = MemoryStream::from_bytes(vec![0; k], 4096);
        let mut dest = Vec::new();
        assert_eq!(
            receive_buffer(&mut dest, &mut stream),
            Err(FrameError::CutPrefix { received: k })
        );
    }
}

#[test]
fn next_frame_is_left_alone() {
    let mut stream = MemoryStream::from_bytes(Vec::new(), 1_000_000);
    send_buffer(b"abc", &mut stream);
    send_buffer(b"defgh", &mut stream);
    send_buffer(b"", &mut stream);
    send_buffer(b"i", &mut stream);
    let mut dest = Vec::new();
    assert_eq!(receive_buffer(&mut dest, &mut stream), Ok(()));
    assert_eq!(dest, b"abc");
    assert_eq!(receive_buffer(&mut dest, &mut stream), Ok(()));
    assert_eq!(dest, b"defgh");
    assert_eq!(receive_buffer(&mut dest, &mut stream), Ok(()));
    assert_eq!(dest, b"");
    assert_eq!(receive_buffer(&mut dest, &mut stream), Ok(()));
    assert_eq!(dest, b"i");
    assert_eq!(
        receive_buffer(&mut dest, &mut stream),
        Err(FrameError::CutPrefix { received: 0 })
    );
}

#[test]
fn reader_never_asks_beyond_the_frame() {
    let mut reader = FrameReader::new();
    assert_eq!(reader.next_request(), 4);
    assert_eq!(reader.accept(&[0, 0]), Ok(()));
    assert_eq!(reader.next_request(), 2);
    assert_eq!(reader.accept(&[0x20, 0x03]), Ok(()));
    assert_eq!(reader.next_request(), 4096);
    assert_eq!(reader.accept(&vec![7u8; 4096]), Ok(()));
    assert_eq!(reader.next_request(), 4096);
    assert_eq!(reader.accept(&vec![8u8; 4000]), Ok(()));
    assert_eq!(reader.next_request(), 0x2003 - 8096);
    assert_eq!(reader.accept(&vec![9u8; 0x2003 - 8096]), Ok(()));
    assert_eq!(reader.next_request(), 0);
    let payload = reader.into_payload().unwrap();
    assert_eq!(payload.len(), 0x2003);
    assert_eq!(payload[0], 7);
    assert_eq!(payload[4096], 8);
    assert_eq!(payload[8096], 9);
}

#[test]
fn reader_reports_an_early_end() {
    let mut reader = FrameReader::new();
    assert_eq!(reader.accept(&[]), Err(FrameError::CutPrefix { received: 0 }));
    assert_eq!(reader.accept(&[0, 0, 1]), Ok(()));
    assert_eq!(reader.accept(&[]), Err(FrameError::CutPrefix { received: 3 }));
    assert_eq!(reader.accept(&[0]), Ok(()));
    assert_eq!(reader.accept(&[]), Err(FrameError::CutPayload { declared: 256, received: 0 }));
    assert_eq!(reader.accept(&[1; 100]), Ok(()));
    assert_eq!(reader.accept(&[]), Err(FrameError::CutPayload { declared: 256, received: 100 }));
    assert!(reader.into_payload().is_none());
}

#[test]
fn reader_of_an_empty_frame_is_done_after_the_prefix() {
    let mut reader = FrameReader::new();
    assert_eq!(reader.accept(&[0, 0, 0, 0]), Ok(()));
    assert_eq!(reader.next_request(), 0);
    assert_eq!(reader.accept(&[]), Ok(()));
    assert_eq!(reader.into_payload(), Some(Vec::new()));
}

#[test]
fn same_frame_whatever_the_writes() {
    let ack = AckMessage(Acknoledgement::new(HttpCode::NotFound, Some("no such book".into())));
    let mut whole = MemoryStream::new();
    assert!(send_response(ack.clone(), &mut whole).is_ok());
    let mut piecewise = MemoryStream::from_bytes(Vec::new(), 3);
    assert!(send_response(ack.clone(), &mut piecewise).is_ok());
    let wire = read_all(&mut whole);
    assert_eq!(wire, read_all(&mut piecewise));

    let json = ack.to_json().unwrap();
    let mut writer = FrameWriter::new(json.as_bytes());
    let mut by_hand = Vec::new();
    let mut step = 1;
    while !writer.is_done() {
        let pending = writer.pending();
        let n = step.min(pending.len());
        by_hand.extend_from_slice(&pending[..n]);
        writer.advance(n);
        step += 1;
    }
    assert!(writer.pending().is_empty());
    assert_eq!(by_hand, wire);
}

#[test]
fn writer_offers_prefix_then_payload() {
    let mut writer = FrameWriter::new(b"xyz");
    assert_eq!(writer.pending(), &[0, 0, 0, 3]);
    writer.advance(0);
    assert_eq!(writer.pending(), &[0, 0, 0, 3]);
    writer.advance(3);
    assert_eq!(writer.pending(), &[3]);
    writer.advance(1);
    assert_eq!(writer.pending(), b"xyz");
    assert!(!writer.is_done());
    writer.advance(2);
    assert_eq!(writer.pending(), b"z");
    writer.advance(1);
    assert!(writer.is_done());
}

#[test]
fn request_and_response_round_trip() {
    let mut stream = MemoryStream::from_bytes(Vec::new(), 5);
    let first = AckMessage(Acknoledgement::new(HttpCode::Created, Some("é ü 本".into())));
    let second = AckMessage(Acknoledgement::new(HttpCode::ImATeapot, None));
    assert!(send_request(first.clone(), &mut stream).is_ok());
    assert!(send_response(second.clone(), &mut stream).is_ok());
    assert_eq!(decode_request::<AckMessage>(&mut stream).unwrap(), first);
    assert_eq!(decode_response::<AckMessage>(&mut stream).unwrap(), second);
    assert!(matches!(
        decode_response::<AckMessage>(&mut stream),
        Err(DecodeError::Frame(FrameError::CutPrefix { received: 0 }))
    ));
}

#[test]
fn text_round_trip() {
    let mut stream = MemoryStream::from_bytes(Vec::new(), 2);
    let text = "{\"greeting\":\"grüß dich\"}".to_string();
    assert!(send_serialized(Ok(text.clone()), &mut stream).is_ok());
    assert_eq!(receive_text(&mut stream).unwrap(), text);
}

#[test]
fn serialization_error_writes_nothing() {
    let mut stream = MemoryStream::new();
    let error = serde_json::from_str::<u8>("x").unwrap_err();
    let shown = error.to_string();
    match send_serialized(Err(error), &mut stream) {
        Err(SendError::Serde(e)) => assert_eq!(e.to_string(), shown),
        other => panic!("expected a serialization error, got {:?}", other),
    }
    assert!(stream.read(1).is_empty());
}

#[test]
fn payload_that_is_not_utf8_is_an_encoding_error() {
    assert!(matches!(payload_text(vec![0xff, 0xfe]), Err(DecodeError::UTF(_))));
    assert!(matches!(payload_text(vec![0xc3]), Err(DecodeError::UTF(_))));
    assert_eq!(payload_text(vec![0xc3, 0xa9]).unwrap(), "é");
    assert_eq!(payload_text(Vec::new()).unwrap(), "");
    let mut stream = MemoryStream::new();
    send_buffer(&[0xff, 0xfe], &mut stream);
    send_buffer(b"{}", &mut stream);
    assert!(matches!(receive_text(&mut stream), Err(DecodeError::UTF(_))));
    assert_eq!(receive_text(&mut stream).unwrap(), "{}");
}

#[test]
fn text_that_is_not_the_message_is_a_schema_error() {
    let mut stream = MemoryStream::new();
    send_buffer(b"{\"code\":999,\"message\":null}", &mut stream);
    send_buffer(b"not json", &mut stream);
    send_buffer(b"{\"message\":\"no code\"}", &mut stream);
    for _ in 0..3 {
        assert!(matches!(decode_message::<AckMessage>(&mut stream), Err(DecodeError::Serde(_))));
    }
    assert!(matches!(decode_message::<AckMessage>(&mut stream), Err(DecodeError::Frame(_))));
}

#[test]
fn error_texts() {
    assert_eq!(
        FrameError::CutPrefix { received: 3 }.to_string(),
        "the stream ended after 3 of the 4 bytes of a length prefix"
    );
    assert_eq!(
        FrameError::CutPayload { declared: 4096, received: 17 }.to_string(),
        "the stream ended after 17 of 4096 payload bytes"
    );
    assert_eq!(
        DecodeError::Frame(FrameError::CutPayload { declared: 10, received: 0 }).to_string(),
        "the stream ended after 0 of 10 payload bytes"
    );
    let json = serde_json::from_str::<u8>("x").unwrap_err();
    let shown = json.to_string();
    assert_eq!(DecodeError::from(json).to_string(), shown);
    let io = std::io::Error::new(std::io::ErrorKind::BrokenPipe, "pipe closed");
    assert_eq!(SendError::from(io).to_string(), "pipe closed");
    let io = std::io::Error::new(std::io::ErrorKind::BrokenPipe, "pipe closed");
    assert_eq!(DecodeError::from(io).to_string(), "pipe closed");
    let utf = String::from_utf8(vec![0xff]).unwrap_err();
    let shown = utf.to_string();
    assert_eq!(DecodeError::from(utf).to_string(), shown);
}

#[test]
fn memory_stream_moves_at_most_a_chunk() {
    let mut stream = MemoryStream::from_bytes(vec![1, 2, 3, 4, 5], 2);
    assert_eq!(stream.read(10), vec![1, 2]);
    assert_eq!(stream.read(1), vec![3]);
    assert_eq!(stream.read(0), Vec::<u8>::new());
    assert_eq!(stream.write(&[6, 7, 8]), 2);
    assert_eq!(stream.read(2), vec![4, 5]);
    assert_eq!(stream.read(2), vec![6, 7]);
    assert_eq!(stream.read(2), Vec::<u8>::new());
    let mut slow = MemoryStream::from_bytes(vec![1, 2], 0);
    assert_eq!(slow.read(10), vec![1]);
}
