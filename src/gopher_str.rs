use vstd::prelude::*;
use bytes::Bytes;
use crate::buf::{bytes_as_slice, bytes_from_slice, bytes_view};

verus! {

/// The Latin-1 character of a byte: the code point with the byte's value.
pub open spec fn latin1_char(b: u8) -> char {
    b as char
}

/// The Latin-1 text of a byte sequence, one character per byte.
pub open spec fn latin1(s: Seq<u8>) -> Seq<char> {
    s.map_values(|b: u8| latin1_char(b))
}

/// A lowercase hexadecimal digit.
pub open spec fn hex_digit(n: u8) -> char {
    if n < 10 {
        (48 + n) as char
    } else {
        (87 + n) as char
    }
}

/// How `char::escape_default` writes the Latin-1 character of a byte: TAB, CR
/// and LF as `\t`, `\r`, `\n`; a backslash and both quotes behind a
/// backslash; other printable ASCII as it is; anything else as `\u{..}` with
/// its value in lowercase hexadecimal, without leading zeros.
pub open spec fn escape_byte(b: u8) -> Seq<char> {
    if b == 9 {
        seq!['\\', 't']
    } else if b == 13 {
        seq!['\\', 'r']
    } else if b == 10 {
        seq!['\\', 'n']
    } else if b == 92 || b == 39 || b == 34 {
        seq!['\\', b as char]
    } else if 32 <= b <= 126 {
        seq![b as char]
    } else if b < 16 {
        seq!['\\', 'u', '{', hex_digit(b), '}']
    } else {
        seq!['\\', 'u', '{', hex_digit(b / 16), hex_digit(b % 16), '}']
    }
}

/// The escaped text of a byte sequence, byte after byte.
pub open spec fn escaped(s: Seq<u8>) -> Seq<char>
    decreases s.len(),
{
    if s.len() == 0 {
        Seq::empty()
    } else {
        escaped(s.drop_last()) + escape_byte(s.last())
    }
}

/// Appends the escaped form of one byte to `text`.
fn push_escaped(text: &mut String, b: u8)
    ensures
        final(text)@ == old(text)@ + escape_byte(b),
{
    if b == 9 {
        push_char(text, '\\');
        push_char(text, 't');
    } else if b == 13 {
        push_char(text, '\\');
        push_char(text, 'r');
    } else if b == 10 {
        push_char(text, '\\');
        push_char(text, 'n');
    } else if b == 92 || b == 39 || b == 34 {
        push_char(text, '\\');
        push_char(text, b as char);
    } else if 32 <= b && b <= 126 {
        push_char(text, b as char);
    } else {
        push_char(text, '\\');
        push_char(text, 'u');
        push_char(text, '{');
        if b >= 16 {
            push_char(text, hex_char(b / 16));
        }
        push_char(text, hex_char(b % 16));
        push_char(text, '}');
    }
    assert(final(text)@ =~= old(text)@ + escape_byte(b));
}

/// The lowercase hexadecimal digit of `n`.
fn hex_char(n: u8) -> (r: char)
    requires
        n < 16,
    ensures
        r == hex_digit(n),
{
    if n < 10 {
        (48 + n) as char
    } else {
        (87 + n) as char
    }
}

/// Relies on `String::push`: the character is appended to the string.
#[verifier::external_body]
fn push_char(s: &mut String, c: char)
    ensures
        final(s)@ == old(s)@.push(c),
{
    s.push(c)
}

/// A string of bytes as sent over the wire.
///
/// The contents are taken to be ISO-8859-1 (Latin-1) text: every byte is one
/// character, so every byte sequence is a valid string and nothing is checked.
#[derive(Clone, Debug)]
pub struct GopherStr {
    buf: Bytes,
}

impl View for GopherStr {
    type V = Seq<u8>;

    closed spec fn view(&self) -> Seq<u8> {
        bytes_view(self.buf)
    }
}

impl GopherStr {
    /// Wraps a `Bytes` without copying it.
    pub fn new(buf: Bytes) -> (r: GopherStr)
        ensures
            r@ == bytes_view(buf),
    {
        GopherStr { buf }
    }

    /// Copies a byte slice into a new string.
    pub fn from_latin1(bytes: &[u8]) -> (r: GopherStr)
        ensures
            r@ == bytes@,
    {
        GopherStr { buf: bytes_from_slice(bytes) }
    }

    /// Unwraps the inner `Bytes`.
    pub fn into_buf(self) -> (r: Bytes)
        ensures
            bytes_view(r) == self@,
    {
        self.buf
    }

    /// The string as text: each byte is the Latin-1 character of its value.
    pub fn to_latin1_string(&self) -> (r: String)
        ensures
            r@ == latin1(self@),
    {
        let bytes = self.as_slice();
        let mut text = String::new();
        let mut i: usize = 0;
        while i < bytes.len()
            invariant
                bytes@ == self@,
                i <= bytes@.len(),
                text@ == latin1(bytes@.take(i as int)),
            decreases bytes@.len() - i,
        {
            push_char(&mut text, bytes[i] as char);
            assert(latin1(bytes@.take(i + 1)) =~= latin1(bytes@.take(i as int)).push(latin1_char(bytes@[i as int])));
            i = i + 1;
        }
        assert(bytes@.take(i as int) =~= bytes@);
        text
    }

    /// The string as a quoted, escaped literal: each byte's Latin-1
    /// character escaped as `char::escape_default` does, between double quotes.
    pub fn to_escaped_string(&self) -> (r: String)
        ensures
            r@ == seq!['"'] + escaped(self@) + seq!['"'],
    {
        let bytes = self.as_slice();
        let mut text = String::new();
        push_char(&mut text, '"');
        let mut i: usize = 0;
        while i < bytes.len()
            invariant
                bytes@ == self@,
                i <= bytes@.len(),
                text@ == seq!['"'] + escaped(bytes@.take(i as int)),
            decreases bytes@.len() - i,
        {
            push_escaped(&mut text, bytes[i]);
            assert(bytes@.take(i + 1).drop_last() =~= bytes@.take(i as int));
            i = i + 1;
        }
        assert(bytes@.take(i as int) =~= bytes@);
        push_char(&mut text, '"');
        text
    }

    /// The bytes of the string.
    pub fn as_slice(&self) -> (r: &[u8])
        ensures
            r@ == self@,
    {
        bytes_as_slice(&self.buf)
    }
}

} // verus!
