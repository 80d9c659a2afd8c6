use bytes::{Bytes, BytesMut};
use gopher_core::codec::ServerCodec;
use gopher_core::proto::{GopherServer, Incoming, OneShot, Phase};
use gopher_core::{DirEntity, GopherRequest, GopherResponse, GopherStr, ItemType};

fn entity(item_type: ItemType, name: &[u8], selector: &[u8], host: &[u8], port: u16) -> DirEntity {
    DirEntity {
        item_type,
        name: GopherStr::from_latin1(name),
        selector: GopherStr::from_latin1(selector),
        host: GopherStr::from_latin1(host),
        port,
    }
}

fn encoded(response: &GopherResponse) -> Vec<u8> {
    let mut buf = BytesMut::new();
    response.encode(&mut buf);
    buf.to_vec()
}

#[test]
fn item_type_round_trip_every_byte() {
    for b in 0..=255u8 {
        assert_eq!(ItemType::decode(b).encode(), b);
    }
}

#[test]
fn item_type_named_codes() {
    let table = [
        (b'0', ItemType::File),
        (b'1', ItemType::Dir),
        (b'2', ItemType::CsoServer),
        (b'3', ItemType::Error),
        (b'4', ItemType::BinHex),
        (b'5', ItemType::Dos),
        (b'6', ItemType::Uuencoded),
        (b'7', ItemType::IndexServer),
        (b'8', ItemType::Telnet),
        (b'9', ItemType::Binary),
        (b'+', ItemType::RedundantServer),
        (b'T', ItemType::Tn3270),
        (b'g', ItemType::Gif),
        (b'I', ItemType::Image),
    ];
    for (code, item_type) in table.iter() {
        assert_eq!(ItemType::decode(*code), *item_type);
        assert_eq!(item_type.encode(), *code);
    }
}

#[test]
fn item_type_unknown_byte_is_kept() {
    assert_eq!(ItemType::decode(b'h'), ItemType::Other(b'h'));
    assert_eq!(ItemType::decode(0xff), ItemType::Other(0xff));
    assert_eq!(ItemType::Other(b'i').encode(), b'i');
}

#[test]
fn request_decode_no_tab() {
    let req = GopherRequest::decode(Bytes::from(&b"/docs"[..]));
    assert_eq!(req.selector.as_slice(), b"/docs");
    assert!(req.query.is_none());
}

#[test]
fn request_decode_with_tab() {
    let req = GopherRequest::decode(Bytes::from(&b"/search\tfoo bar"[..]));
    assert_eq!(req.selector.as_slice(), b"/search");
    assert_eq!(req.query.unwrap().as_slice(), b"foo bar");
}

#[test]
fn request_decode_empty_query() {
    let req = GopherRequest::decode(Bytes::from(&b"/search\t"[..]));
    assert_eq!(req.selector.as_slice(), b"/search");
    let query = req.query.expect("an empty query is still a query");
    assert_eq!(query.as_slice(), b"");
}

#[test]
fn request_decode_empty_line() {
    let req = GopherRequest::decode(Bytes::new());
    assert_eq!(req.selector.as_slice(), b"");
    assert!(req.query.is_none());
}

#[test]
fn request_decode_splits_at_first_tab_only() {
    let req = GopherRequest::decode(Bytes::from(&b"a\tb\tc"[..]));
    assert_eq!(req.selector.as_slice(), b"a");
    assert_eq!(req.query.unwrap().as_slice(), b"b\tc");
}

#[test]
fn menu_encoding() {
    let menu = GopherResponse::Menu(vec![entity(
        ItemType::File,
        b"Read me",
        b"readme",
        b"gopher.example.org",
        70,
    )]);
    assert_eq!(
        encoded(&menu),
        b"0Read me\treadme\tgopher.example.org\t70\r\n.\r\n".to_vec()
    );
}

#[test]
fn menu_encoding_keeps_order() {
    let menu = GopherResponse::Menu(vec![
        entity(ItemType::Dir, b"Sub", b"/sub", b"h", 7),
        entity(ItemType::Other(b'h'), b"Web", b"URL:x", b"h", 65535),
    ]);
    assert_eq!(
        encoded(&menu),
        b"1Sub\t/sub\th\t7\r\nhWeb\tURL:x\th\t65535\r\n.\r\n".to_vec()
    );
}

#[test]
fn empty_menu_is_only_the_period_line() {
    assert_eq!(encoded(&GopherResponse::Menu(Vec::new())), b".\r\n".to_vec());
}

#[test]
fn entity_port_zero() {
    let mut buf = BytesMut::new();
    entity(ItemType::Image, b"n", b"s", b"h", 0).encode(&mut buf);
    assert_eq!(&buf[..], &b"In\ts\th\t0\r\n"[..]);
}

#[test]
fn text_file_termination() {
    let text = GopherResponse::TextFile(Bytes::from(&b"hi"[..]));
    assert_eq!(encoded(&text), b"hi\r\n.\r\n".to_vec());
}

#[test]
fn text_file_terminator_is_unconditional() {
    let text = GopherResponse::TextFile(Bytes::from(&b"hi\r\n"[..]));
    assert_eq!(encoded(&text), b"hi\r\n\r\n.\r\n".to_vec());
}

#[test]
fn binary_file_has_no_terminator() {
    let binary = GopherResponse::BinaryFile(Bytes::from(&b"\x00\x01"[..]));
    assert_eq!(encoded(&binary), b"\x00\x01".to_vec());
}

#[test]
fn gopher_plus_redirect_shape() {
    let redirect = GopherResponse::GopherPlusRedirect(entity(
        ItemType::Dir,
        b"Main menu",
        b"",
        b"0.0.0.0",
        12345,
    ));
    assert_eq!(
        encoded(&redirect),
        b"+-1\r\n+INFO: 1Main menu\t\t0.0.0.0\t12345\r\n".to_vec()
    );
}

#[test]
fn encode_appends_to_what_is_there() {
    let mut buf = BytesMut::from(&b"xy"[..]);
    GopherResponse::BinaryFile(Bytes::from(&b"z"[..])).encode(&mut buf);
    assert_eq!(&buf[..], &b"xyz"[..]);
}

#[test]
fn error_response() {
    let response = GopherResponse::error(GopherStr::from_latin1(b"File not found"));
    match &response {
        GopherResponse::Menu(entities) => {
            assert_eq!(entities.len(), 1);
            assert_eq!(entities[0].item_type, ItemType::Error);
            assert_eq!(entities[0].name.as_slice(), b"File not found");
            assert_eq!(entities[0].selector.as_slice(), b"error");
            assert_eq!(entities[0].host.as_slice(), b"error.host");
            assert_eq!(entities[0].port, 0);
        }
        _ => panic!("an error is a menu"),
    }
    assert_eq!(
        encoded(&response),
        b"3File not found\terror\terror.host\t0\r\n.\r\n".to_vec()
    );
}

#[test]
fn codec_incomplete_line() {
    let mut codec = ServerCodec;
    let mut buf = BytesMut::from(&b"/docs\r"[..]);
    assert!(codec.decode(&mut buf).is_none());
    assert_eq!(&buf[..], &b"/docs\r"[..]);
    let mut empty = BytesMut::new();
    assert!(codec.decode(&mut empty).is_none());
}

#[test]
fn codec_reads_first_line_and_strips_crlf() {
    let mut codec = ServerCodec;
    let mut buf = BytesMut::from(&b"/a\tq\r\n/b\r\n"[..]);
    let req = codec.decode(&mut buf).expect("a whole line is there");
    assert_eq!(req.selector.as_slice(), b"/a");
    assert_eq!(req.query.unwrap().as_slice(), b"q");
    assert_eq!(&buf[..], &b"/b\r\n"[..]);
}

#[test]
fn codec_lone_cr_stays_in_line() {
    let mut codec = ServerCodec;
    let mut buf = BytesMut::from(&b"a\r\r\n"[..]);
    let req = codec.decode(&mut buf).unwrap();
    assert_eq!(req.selector.as_slice(), b"a\r");
    assert!(buf.is_empty());
}

#[test]
fn codec_empty_line_request() {
    let mut codec = ServerCodec;
    let mut buf = BytesMut::from(&b"\r\n"[..]);
    let req = codec.decode(&mut buf).unwrap();
    assert_eq!(req.selector.as_slice(), b"");
    assert!(req.query.is_none());
}

#[test]
fn codec_encode_writes_response() {
    let mut codec = ServerCodec;
    let mut buf = BytesMut::new();
    codec.encode(GopherResponse::TextFile(Bytes::from(&b"x"[..])), &mut buf);
    assert_eq!(&buf[..], &b"x\r\n.\r\n"[..]);
}

#[test]
fn one_shot_lifecycle() {
    let mut conn = GopherServer.bind_transport();
    assert_eq!(conn.phase(), Phase::AwaitingRequest);
    let mut input = BytesMut::from(&b"/first\r\n/second\r\n"[..]);
    let req = match conn.poll(&mut input) {
        Incoming::Request(req) => req,
        other => panic!("expected a request, got {:?}", other),
    };
    assert_eq!(req.selector.as_slice(), b"/first");
    assert_eq!(conn.phase(), Phase::Responding);
    assert!(matches!(conn.poll(&mut input), Incoming::Finished));

    let mut output = BytesMut::new();
    assert!(conn.start_send(GopherResponse::Menu(Vec::new()), &mut output));
    assert_eq!(&output[..], &b".\r\n"[..]);
    assert!(conn.is_closed());

    assert!(matches!(conn.poll(&mut input), Incoming::Finished));
    assert_eq!(&input[..], &b"/second\r\n"[..]);
    assert!(!conn.start_send(GopherResponse::Menu(Vec::new()), &mut output));
    assert_eq!(&output[..], &b".\r\n"[..]);
}

#[test]
fn one_shot_needs_more_input() {
    let mut conn = OneShot::new();
    let mut input = BytesMut::from(&b"/partial"[..]);
    assert!(matches!(conn.poll(&mut input), Incoming::NeedMore));
    assert_eq!(conn.phase(), Phase::AwaitingRequest);
    assert_eq!(&input[..], &b"/partial"[..]);
    input.extend_from_slice(b"\r\n");
    assert!(matches!(conn.poll(&mut input), Incoming::Request(_)));
}

#[test]
fn one_shot_refuses_response_before_request() {
    let mut conn = OneShot::new();
    let mut output = BytesMut::new();
    assert!(!conn.start_send(GopherResponse::Menu(Vec::new()), &mut output));
    assert!(output.is_empty());
    assert!(!conn.is_closed());
}
