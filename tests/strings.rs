use bytes::Bytes;
use gopher_core::GopherStr;

#[test]
fn latin1_text_of_every_byte() {
    let all: Vec<u8> = (0..=255u8).collect();
    let text = GopherStr::from_latin1(&all).to_latin1_string();
    let chars: Vec<char> = text.chars().collect();
    assert_eq!(chars.len(), 256);
    for (i, c) in chars.iter().enumerate() {
        assert_eq!(*c as u32, i as u32);
    }
}

#[test]
fn latin1_text_of_accented_byte() {
    assert_eq!(GopherStr::from_latin1(b"caf\xe9").to_latin1_string(), "café");
}

#[test]
fn escaped_text() {
    let s = GopherStr::from_latin1(b"a\tb\"c\\\x00\xe9\x7f'");
    assert_eq!(s.to_escaped_string(), "\"a\\tb\\\"c\\\\\\u{0}\\u{e9}\\u{7f}\\'\"");
}

#[test]
fn escaped_text_matches_escape_default() {
    let all: Vec<u8> = (0..=255u8).collect();
    let mut expected = String::from("\"");
    for b in all.iter() {
        for c in (*b as char).escape_default() {
            expected.push(c);
        }
    }
    expected.push('"');
    assert_eq!(GopherStr::from_latin1(&all).to_escaped_string(), expected);
}

#[test]
fn new_and_into_buf_keep_the_bytes() {
    let s = GopherStr::new(Bytes::from(&b"sel"[..]));
    assert_eq!(s.as_slice(), b"sel");
    assert_eq!(&s.clone().into_buf()[..], &b"sel"[..]);
}
