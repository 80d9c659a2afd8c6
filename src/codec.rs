use vstd::prelude::*;
use bytes::BytesMut;
use crate::buf::{bytes_mut_as_slice, bytes_mut_freeze, bytes_mut_split_to, bytes_mut_view};
use crate::types::{tab_free, GopherRequest, GopherResponse, CR, LF};

verus! {

/// True when a CR LF pair starts at index `i` of `s`.
pub open spec fn crlf_at(s: Seq<u8>, i: int) -> bool {
    0 <= i && i + 1 < s.len() && s[i] == CR && s[i + 1] == LF
}

/// True when `s` holds a whole line: a CR LF pair somewhere in it.
pub open spec fn has_crlf(s: Seq<u8>) -> bool {
    exists|i: int| crlf_at(s, i)
}

/// True when `line` followed by CR LF starts `input` and no CR LF pair of
/// `input` starts before the end of `line`: `line` is the first line of `input`.
pub open spec fn is_first_line(input: Seq<u8>, line: Seq<u8>) -> bool {
    &&& line.len() + 2 <= input.len()
    &&& input.take(line.len() + 2int) == line + seq![CR, LF]
    &&& forall|j: int| 0 <= j < line.len() ==> !crlf_at(input, j)
}

/// A codec for building a Gopher server: it reads one request line from the
/// bytes a client sent, and writes a response.
pub struct ServerCodec;

impl ServerCodec {
    /// Reads one CR LF terminated request from the front of `buf`.
    ///
    /// Without a CR LF pair in `buf` more input is needed: nothing is taken
    /// and `None` comes back. Otherwise the first line and its CR LF leave
    /// `buf`, and the line is decoded as a request.
    pub fn decode(&mut self, buf: &mut BytesMut) -> (r: Option<GopherRequest>)
        ensures
            r is None <==> !has_crlf(bytes_mut_view(*old(buf))),
            r is None ==> bytes_mut_view(*final(buf)) == bytes_mut_view(*old(buf)),
            r matches Some(req) ==> {
                &&& tab_free(req.selector@)
                &&& is_first_line(bytes_mut_view(*old(buf)), req.line())
                &&& bytes_mut_view(*final(buf)) == bytes_mut_view(*old(buf)).skip(
                    req.line().len() + 2int,
                )
            },
    {
        let ghost input = bytes_mut_view(*buf);
        let bytes = bytes_mut_as_slice(buf);
        let len = bytes.len();
        let mut i: usize = 0;
        while i < len && !(i + 1 < len && bytes[i] == CR && bytes[i + 1] == LF)
            invariant
                bytes@ == input,
                len == input.len(),
                i <= len,
                forall|j: int| 0 <= j < i ==> !crlf_at(input, j),
            decreases len - i,
        {
            i = i + 1;
        }
        if i >= len {
            assert forall|j: int| !crlf_at(input, j) by {
                if 0 <= j < i {
                } else {
                }
            }
            return None;
        }
        assert(crlf_at(input, i as int));
        let line = bytes_mut_split_to(buf, i);
        // The CR LF belongs to no request.
        let _crlf = bytes_mut_split_to(buf, 2);
        let request = GopherRequest::decode(bytes_mut_freeze(line));
        assert(input.take(i + 2) =~= input.take(i as int) + seq![CR, LF]);
        assert(bytes_mut_view(*buf) =~= input.skip(i + 2));
        Some(request)
    }

    /// Appends the wire form of `message` to `buf`.
    pub fn encode(&mut self, message: GopherResponse, buf: &mut BytesMut)
        ensures
            bytes_mut_view(*final(buf)) == bytes_mut_view(*old(buf)) + message.wire(),
    {
        message.encode(buf)
    }
}

} // verus!
