use vstd::prelude::*;
use bytes::Bytes;
use bytes::BytesMut;
use crate::buf::{bytes_as_slice, bytes_mut_extend, bytes_mut_view, bytes_slice, bytes_view};
use crate::gopher_str::GopherStr;

verus! {

/// The byte that separates the fields of a request or a menu line.
pub const TAB: u8 = 9;

/// Carriage return.
pub const CR: u8 = 13;

/// Line feed.
pub const LF: u8 = 10;

/// The decimal digits, in ASCII, of a number: no sign and no leading zeros.
pub open spec fn decimal(n: nat) -> Seq<u8>
    decreases n,
{
    if n < 10 {
        seq![(48 + n) as u8]
    } else {
        decimal(n / 10) + seq![(48 + n % 10) as u8]
    }
}

/// Appends the decimal digits of `n` to `out`.
fn push_decimal(n: u16, out: &mut Vec<u8>)
    ensures
        final(out)@ == old(out)@ + decimal(n as nat),
    decreases n,
{
    if n >= 10 {
        push_decimal(n / 10, out);
    }
    out.push(48 + (n % 10) as u8);
}

/// True when `s` holds no TAB byte.
pub open spec fn tab_free(s: Seq<u8>) -> bool {
    forall|j: int| 0 <= j < s.len() ==> s[j] != TAB
}

/// The request line that a selector and an optional query make: the query,
/// when there is one, follows the selector after one TAB.
pub open spec fn request_line(selector: Seq<u8>, query: Option<Seq<u8>>) -> Seq<u8> {
    match query {
        Some(q) => selector + seq![TAB] + q,
        None => selector,
    }
}

/// A request line has one reading: a selector without a TAB, and the query
/// that follows the first TAB, if there is one.
pub proof fn lemma_request_line_unique(
    selector1: Seq<u8>,
    query1: Option<Seq<u8>>,
    selector2: Seq<u8>,
    query2: Option<Seq<u8>>,
)
    requires
        tab_free(selector1),
        tab_free(selector2),
        request_line(selector1, query1) == request_line(selector2, query2),
    ensures
        selector1 == selector2,
        query1 == query2,
{
    let line = request_line(selector1, query1);
    assert(line.take(selector1.len() as int) =~= selector1);
    assert(line.take(selector2.len() as int) =~= selector2);
    if selector1.len() < selector2.len() {
        assert(line[selector1.len() as int] == selector2[selector1.len() as int]);
    } else if selector2.len() < selector1.len() {
        assert(line[selector2.len() as int] == selector1[selector2.len() as int]);
    }
    assert(selector1 =~= selector2);
    match (query1, query2) {
        (Some(q1), Some(q2)) => {
            assert(line.skip(selector1.len() + 1int) =~= q1);
            assert(line.skip(selector2.len() + 1int) =~= q2);
        },
        _ => {},
    }
}

/// A client-to-server message.
#[derive(Clone, Debug)]
pub struct GopherRequest {
    /// Identifier of the resource to fetch. May be an empty string.
    pub selector: GopherStr,
    /// Search string for a full-text search transaction.
    pub query: Option<GopherStr>,
}

impl GopherRequest {
    /// The query as a byte sequence, when there is one.
    pub open spec fn query_view(&self) -> Option<Seq<u8>> {
        match self.query {
            Some(q) => Some(q@),
            None => None,
        }
    }

    /// The line, without its CR LF, that this request was read from.
    pub open spec fn line(&self) -> Seq<u8> {
        request_line(self.selector@, self.query_view())
    }

    /// Reads a request from a line *without* its trailing CR LF.
    ///
    /// The selector runs up to the first TAB, and the query is all that
    /// follows that TAB, possibly nothing. Without a TAB the whole line is the
    /// selector and there is no query. Never fails.
    pub fn decode(line: Bytes) -> (r: GopherRequest)
        ensures
            tab_free(r.selector@),
            r.line() == bytes_view(line),
            r.query is None <==> tab_free(bytes_view(line)),
    {
        let bytes = bytes_as_slice(&line);
        let len = bytes.len();
        let mut i: usize = 0;
        while i < len && bytes[i] != TAB
            invariant
                bytes@ == bytes_view(line),
                len == bytes@.len(),
                i <= len,
                tab_free(bytes@.take(i as int)),
            decreases len - i,
        {
            i = i + 1;
        }
        let selector = GopherStr::new(bytes_slice(&line, 0, i));
        if i < len {
            // The TAB itself belongs to neither field.
            let query = GopherStr::new(bytes_slice(&line, i + 1, len));
            assert(bytes@ =~= bytes@.take(i as int) + seq![TAB] + bytes@.subrange(i + 1, len as int));
            GopherRequest { selector, query: Some(query) }
        } else {
            assert(bytes@.take(len as int) =~= bytes@);
            GopherRequest { selector, query: None }
        }
    }
}

/// The type of a resource in a Gopher directory, as listed in RFC 1436.
#[derive(Debug, Clone, Copy, PartialEq, Eq, Hash, Structural)]
pub enum ItemType {
    /// Item is a file.
    File,
    /// Item is a directory.
    Dir,
    /// Item is a CSO phone-book server.
    CsoServer,
    /// Error.
    Error,
    /// Item is a BinHexed Macintosh file.
    BinHex,
    /// Item is a DOS binary archive of some sort.
    ///
    /// The client must read until the TCP connection closes.
    Dos,
    /// Item is a UNIX uuencoded file.
    Uuencoded,
    /// Item is an Index-Search server.
    IndexServer,
    /// Item points to a text-based telnet session.
    Telnet,
    /// Item is a binary file. The client must read until the TCP connection closes.
    Binary,
    /// Item is a redundant server.
    RedundantServer,
    /// Item points to a text-based tn3270 session.
    Tn3270,
    /// Item is a GIF format graphics file.
    Gif,
    /// Item is some kind of image file. The client decides how to display it.
    Image,
    /// Item is of a non-standard type, kept as its raw byte.
    Other(u8),
}

impl ItemType {
    /// The item type that a type byte stands for; a byte without a name of
    /// its own stands for `Other` of itself.
    pub open spec fn from_byte(b: u8) -> ItemType {
        if b == 48 /* '0' */ {
            ItemType::File
        } else if b == 49 /* '1' */ {
            ItemType::Dir
        } else if b == 50 /* '2' */ {
            ItemType::CsoServer
        } else if b == 51 /* '3' */ {
            ItemType::Error
        } else if b == 52 /* '4' */ {
            ItemType::BinHex
        } else if b == 53 /* '5' */ {
            ItemType::Dos
        } else if b == 54 /* '6' */ {
            ItemType::Uuencoded
        } else if b == 55 /* '7' */ {
            ItemType::IndexServer
        } else if b == 56 /* '8' */ {
            ItemType::Telnet
        } else if b == 57 /* '9' */ {
            ItemType::Binary
        } else if b == 43 /* '+' */ {
            ItemType::RedundantServer
        } else if b == 84 /* 'T' */ {
            ItemType::Tn3270
        } else if b == 103 /* 'g' */ {
            ItemType::Gif
        } else if b == 73 /* 'I' */ {
            ItemType::Image
        } else {
            ItemType::Other(b)
        }
    }

    /// The byte that stands for this item type on the wire.
    pub open spec fn code(self) -> u8 {
        match self {
            ItemType::File => 48 /* '0' */,
            ItemType::Dir => 49 /* '1' */,
            ItemType::CsoServer => 50 /* '2' */,
            ItemType::Error => 51 /* '3' */,
            ItemType::BinHex => 52 /* '4' */,
            ItemType::Dos => 53 /* '5' */,
            ItemType::Uuencoded => 54 /* '6' */,
            ItemType::IndexServer => 55 /* '7' */,
            ItemType::Telnet => 56 /* '8' */,
            ItemType::Binary => 57 /* '9' */,
            ItemType::RedundantServer => 43 /* '+' */,
            ItemType::Tn3270 => 84 /* 'T' */,
            ItemType::Gif => 103 /* 'g' */,
            ItemType::Image => 73 /* 'I' */,
            ItemType::Other(byte) => byte,
        }
    }

    /// Reads a type byte. Never fails: an unknown byte becomes `Other`.
    pub fn decode(b: u8) -> (r: ItemType)
        ensures
            r == ItemType::from_byte(b),
    {
        match b {
            48 /* '0' */ => ItemType::File,
            49 /* '1' */ => ItemType::Dir,
            50 /* '2' */ => ItemType::CsoServer,
            51 /* '3' */ => ItemType::Error,
            52 /* '4' */ => ItemType::BinHex,
            53 /* '5' */ => ItemType::Dos,
            54 /* '6' */ => ItemType::Uuencoded,
            55 /* '7' */ => ItemType::IndexServer,
            56 /* '8' */ => ItemType::Telnet,
            57 /* '9' */ => ItemType::Binary,
            43 /* '+' */ => ItemType::RedundantServer,
            84 /* 'T' */ => ItemType::Tn3270,
            103 /* 'g' */ => ItemType::Gif,
            73 /* 'I' */ => ItemType::Image,
            byte => ItemType::Other(byte),
        }
    }

    /// The type byte of this item type.
    pub fn encode(self) -> (r: u8)
        ensures
            r == self.code(),
    {
        match self {
            ItemType::File => 48 /* '0' */,
            ItemType::Dir => 49 /* '1' */,
            ItemType::CsoServer => 50 /* '2' */,
            ItemType::Error => 51 /* '3' */,
            ItemType::BinHex => 52 /* '4' */,
            ItemType::Dos => 53 /* '5' */,
            ItemType::Uuencoded => 54 /* '6' */,
            ItemType::IndexServer => 55 /* '7' */,
            ItemType::Telnet => 56 /* '8' */,
            ItemType::Binary => 57 /* '9' */,
            ItemType::RedundantServer => 43 /* '+' */,
            ItemType::Tn3270 => 84 /* 'T' */,
            ItemType::Gif => 103 /* 'g' */,
            ItemType::Image => 73 /* 'I' */,
            ItemType::Other(byte) => byte,
        }
    }
}

/// Decoding a type byte and encoding the result gives back the same byte,
/// for every byte.
pub proof fn lemma_item_type_round_trip(b: u8)
    ensures
        ItemType::from_byte(b).code() == b,
{
}

/// The line that ends a menu: a lone period, then CR LF.
pub open spec fn menu_end() -> Seq<u8> {
    seq![46 /* '.' */, CR, LF]
}

/// What follows the contents of a text file: CR LF, then a line with a lone period.
pub open spec fn text_end() -> Seq<u8> {
    seq![CR, LF, 46 /* '.' */, CR, LF]
}

/// What a Gopher+ redirect puts before its menu line: `+-1` CR LF `+INFO: `.
pub open spec fn plus_info_start() -> Seq<u8> {
    seq![43, 45, 49, CR, LF, 43, 73, 78, 70, 79, 58, 32]
}

/// The lines of the entities of a menu, one after the other, in order.
pub open spec fn menu_lines(entities: Seq<DirEntity>) -> Seq<u8>
    decreases entities.len(),
{
    if entities.len() == 0 {
        Seq::empty()
    } else {
        menu_lines(entities.drop_last()) + entities.last().line()
    }
}

/// A server-to-client message.
#[derive(Clone, Debug)]
pub enum GopherResponse {
    /// A list of resources.
    Menu(Vec<DirEntity>),
    /// A text document.
    TextFile(Bytes),
    /// A binary file download.
    BinaryFile(Bytes),
    /// A single menu item enclosed in a Gopher+ protocol response.
    ///
    /// Useful for redirecting Gopher+ clients to the standard Gopher protocol.
    GopherPlusRedirect(DirEntity),
}

impl GopherResponse {
    /// The bytes that this response puts on the wire.
    ///
    /// A text file is always followed by CR LF and a period line, whether or
    /// not its contents end in CR LF; lines of it that begin with a period are
    /// sent as they are. A binary file gets no terminator: the client reads
    /// until the connection closes.
    pub open spec fn wire(&self) -> Seq<u8> {
        match self {
            GopherResponse::Menu(entities) => menu_lines(entities@) + menu_end(),
            GopherResponse::TextFile(file) => bytes_view(*file) + text_end(),
            GopherResponse::BinaryFile(file) => bytes_view(*file),
            GopherResponse::GopherPlusRedirect(entity) => plus_info_start() + entity.line(),
        }
    }

    /// A menu with a single error line that shows `text`.
    pub fn error(text: GopherStr) -> (r: GopherResponse)
        ensures
            r matches GopherResponse::Menu(entities) && entities@.len() == 1 && is_error_line(
                entities@[0],
                text@,
            ),
    {
        let selector: Vec<u8> = vec![101, 114, 114, 111, 114];
        let host: Vec<u8> = vec![101, 114, 114, 111, 114, 46, 104, 111, 115, 116];
        let entity = DirEntity {
            item_type: ItemType::Error,
            name: text,
            selector: GopherStr::from_latin1(selector.as_slice()),
            host: GopherStr::from_latin1(host.as_slice()),
            port: 0,
        };
        GopherResponse::Menu(vec![entity])
    }

    /// Appends the wire form of the response to `buf`.
    pub fn encode(&self, buf: &mut BytesMut)
        ensures
            bytes_mut_view(*final(buf)) == bytes_mut_view(*old(buf)) + self.wire(),
    {
        match self {
            GopherResponse::BinaryFile(file) => {
                bytes_mut_extend(buf, bytes_as_slice(file));
            },
            GopherResponse::TextFile(file) => {
                bytes_mut_extend(buf, bytes_as_slice(file));
                let end: Vec<u8> = vec![CR, LF, 46, CR, LF];
                bytes_mut_extend(buf, end.as_slice());
            },
            GopherResponse::Menu(entities) => {
                let ghost start = bytes_mut_view(*buf);
                let mut i: usize = 0;
                while i < entities.len()
                    invariant
                        i <= entities@.len(),
                        bytes_mut_view(*buf) == start + menu_lines(entities@.take(i as int)),
                    decreases entities@.len() - i,
                {
                    entities[i].encode(buf);
                    proof {
                        let next = entities@.take(i + 1);
                        assert(next.drop_last() =~= entities@.take(i as int));
                    }
                    i = i + 1;
                }
                assert(entities@.take(i as int) =~= entities@);
                let end: Vec<u8> = vec![46, CR, LF];
                bytes_mut_extend(buf, end.as_slice());
            },
            GopherResponse::GopherPlusRedirect(entity) => {
                let start: Vec<u8> = vec![43, 45, 49, CR, LF, 43, 73, 78, 70, 79, 58, 32];
                bytes_mut_extend(buf, start.as_slice());
                entity.encode(buf);
            },
        }
        assert(bytes_mut_view(*buf) =~= bytes_mut_view(*old(buf)) + self.wire());
    }
}

/// True when `e` is the line of an error menu that shows `text`: of type
/// `Error`, with selector `error`, host `error.host` and port 0.
pub open spec fn is_error_line(e: DirEntity, text: Seq<u8>) -> bool {
    &&& e.item_type == ItemType::Error
    &&& e.name@ == text
    &&& e.selector@ == error_selector()
    &&& e.host@ == error_host()
    &&& e.port == 0
}

/// The selector of the line that `GopherResponse::error` builds: `error`.
pub open spec fn error_selector() -> Seq<u8> {
    seq![101, 114, 114, 111, 114]
}

/// The host of the line that `GopherResponse::error` builds: `error.host`.
pub open spec fn error_host() -> Seq<u8> {
    seq![101, 114, 114, 111, 114, 46, 104, 111, 115, 116]
}

/// A list of Gopher resources.
pub struct Menu {
    pub entities: Vec<DirEntity>,
}

/// A menu item in a directory of Gopher resources.
///
/// None of the four strings may hold a TAB, CR or LF: those bytes frame the
/// line. That is up to whoever builds the entity; nothing here checks it.
#[derive(Clone, Debug)]
pub struct DirEntity {
    /// The type of the resource.
    pub item_type: ItemType,
    /// String to display to the user.
    pub name: GopherStr,
    /// Path or identifier used for requesting this resource.
    pub selector: GopherStr,
    /// The hostname of the server hosting this resource.
    pub host: GopherStr,
    /// The TCP port of the server hosting this resource.
    pub port: u16,
}

impl DirEntity {
    /// The menu line of this entity: the type byte, the name, TAB, the
    /// selector, TAB, the host, TAB, the port in decimal, CR LF.
    pub open spec fn line(&self) -> Seq<u8> {
        seq![self.item_type.code()] + self.name@ + seq![TAB] + self.selector@ + seq![TAB]
            + self.host@ + seq![TAB] + decimal(self.port as nat) + seq![CR, LF]
    }

    /// Appends the menu line of this entity to `buf`.
    pub fn encode(&self, buf: &mut BytesMut)
        ensures
            bytes_mut_view(*final(buf)) == bytes_mut_view(*old(buf)) + self.line(),
    {
        let head: Vec<u8> = vec![self.item_type.encode()];
        bytes_mut_extend(buf, head.as_slice());
        bytes_mut_extend(buf, self.name.as_slice());
        let tab: Vec<u8> = vec![TAB];
        bytes_mut_extend(buf, tab.as_slice());
        bytes_mut_extend(buf, self.selector.as_slice());
        bytes_mut_extend(buf, tab.as_slice());
        bytes_mut_extend(buf, self.host.as_slice());
        let mut tail: Vec<u8> = vec![TAB];
        push_decimal(self.port, &mut tail);
        tail.push(CR);
        tail.push(LF);
        bytes_mut_extend(buf, tail.as_slice());
        assert(bytes_mut_view(*buf) =~= bytes_mut_view(*old(buf)) + self.line());
    }
}

} // verus!
