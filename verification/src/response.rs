//! Shaping the result of a one-shot relay from what came back: status,
//! header lines and body.

use crate::error::{ErrorModel, RelayError};
use crate::foreign::utf8_text;
use crate::headers::Headers;
use vstd::prelude::*;
use vstd::utf8::{decode_utf8, encode_utf8, is_ascii_chars, valid_utf8};

verus! {

/// A status in the success class: `200 <= status < 300`.
pub open spec fn is_success(status: u16) -> bool {
    200 <= status < 300
}

/// Tests [`is_success`].
pub fn status_is_success(status: u16) -> (r: bool)
    ensures
        r == is_success(status),
{
    200 <= status && status < 300
}

/// A byte that may stand in a header value read as text: a printable
/// ASCII character, the space or the tab.
pub open spec fn is_text_byte(b: u8) -> bool {
    (32 <= b < 127) || b == 9
}

/// Every byte of `value` is a text byte.
pub open spec fn is_text_value(value: Seq<u8>) -> bool {
    forall|i: int| 0 <= i < value.len() ==> is_text_byte(#[trigger] value[i])
}

/// The characters that the bytes of a text value stand for, one each.
pub open spec fn ascii_text(value: Seq<u8>) -> Seq<char> {
    Seq::new(value.len(), |i: int| value[i] as char)
}

/// A header value read as text; `None` where it holds any other byte.
pub open spec fn header_value_text(value: Seq<u8>) -> Option<Seq<char>> {
    if is_text_value(value) {
        Some(ascii_text(value))
    } else {
        None
    }
}

/// Bytes below 128 are well-formed UTF-8 and encode one character each.
pub proof fn lemma_ascii_is_utf8(value: Seq<u8>)
    requires
        forall|i: int| 0 <= i < value.len() ==> #[trigger] value[i] < 128,
    ensures
        valid_utf8(value),
        decode_utf8(value) == ascii_text(value),
{
    let chars = ascii_text(value);
    assert(is_ascii_chars(chars));
    vstd::utf8::is_ascii_chars_encode_utf8(chars);
    assert(encode_utf8(chars) =~= value);
    vstd::utf8::encode_utf8_valid_utf8(chars);
    vstd::utf8::encode_utf8_decode_utf8(chars);
}

/// Reads a header value as text.
pub fn header_text(value: &[u8]) -> (r: Option<String>)
    ensures
        match r {
            Some(text) => header_value_text(value@) == Some(text@),
            None => header_value_text(value@) is None,
        },
{
    let mut i: usize = 0;
    while i < value.len()
        invariant
            i <= value.len(),
            forall|j: int| 0 <= j < i ==> is_text_byte(#[trigger] value@[j]),
        decreases value.len() - i,
    {
        let b = value[i];
        if !((32 <= b && b < 127) || b == 9) {
            return None;
        }
        i += 1;
    }
    proof {
        lemma_ascii_is_utf8(value@);
    }
    utf8_text(value)
}

/// A header line as it came: the name and the bytes of the value.
#[derive(Clone, Debug, PartialEq, Eq)]
pub struct RawHeader {
    pub name: String,
    pub value: Vec<u8>,
}

/// The text of a list of header lines.
pub open spec fn lines_text(lines: Seq<RawHeader>) -> Seq<(Seq<char>, Seq<u8>)> {
    Seq::new(lines.len(), |i: int| (lines[i].name@, lines[i].value@))
}

/// The header map of a response: every line whose value is text, under
/// its name; a line whose value is not text is left out; of two lines
/// with one name the later wins.
pub open spec fn collected(lines: Seq<(Seq<char>, Seq<u8>)>) -> Map<Seq<char>, Seq<char>>
    decreases lines.len(),
{
    if lines.len() == 0 {
        Map::empty()
    } else {
        let before = collected(lines.drop_last());
        match header_value_text(lines.last().1) {
            Some(text) => before.insert(lines.last().0, text),
            None => before,
        }
    }
}

/// Collects the header lines of a response into a map.
pub fn collect_headers(lines: &Vec<RawHeader>) -> (r: Headers)
    ensures
        r@ == collected(lines_text(lines@)),
{
    let mut headers = Headers::new();
    let mut i: usize = 0;
    while i < lines.len()
        invariant
            i <= lines.len(),
            headers@ == collected(lines_text(lines@).take(i as int)),
        decreases lines.len() - i,
    {
        let ghost all = lines_text(lines@);
        assert(all.take(i + 1).drop_last() =~= all.take(i as int));
        if let Some(text) = header_text(lines[i].value.as_slice()) {
            headers.insert(lines[i].name.clone(), text);
        }
        i += 1;
    }
    assert(lines_text(lines@).take(i as int) =~= lines_text(lines@));
    headers
}

/// The result of a one-shot relay.
#[derive(Clone, Debug)]
pub struct HttpResponse {
    pub status: u16,
    pub headers: Headers,
    pub body: String,
    /// `200 <= status < 300`.
    pub success: bool,
    /// Never set on a relayed response, whatever its status: a failed
    /// relay is reported as a [`RelayError`] instead.
    pub error: Option<String>,
}

/// The mathematical value of an [`HttpResponse`].
pub struct ResponseModel {
    pub status: u16,
    pub headers: Map<Seq<char>, Seq<char>>,
    pub body: Seq<char>,
    pub success: bool,
    pub error: Option<Seq<char>>,
}

impl View for HttpResponse {
    type V = ResponseModel;

    open spec fn view(&self) -> ResponseModel {
        ResponseModel {
            status: self.status,
            headers: self.headers@,
            body: self.body@,
            success: self.success,
            error: match self.error {
                Some(e) => Some(e@),
                None => None,
            },
        }
    }
}

/// The relayed response for a status, header lines and a body.
pub open spec fn relayed(status: u16, lines: Seq<(Seq<char>, Seq<u8>)>, body: Seq<char>) -> ResponseModel {
    ResponseModel {
        status,
        headers: collected(lines),
        body,
        success: is_success(status),
        error: None,
    }
}

impl HttpResponse {
    /// The relayed response for a status, header lines and a body. Any
    /// status gives a response; whether it is a success is in `success`.
    pub fn relay(status: u16, lines: &Vec<RawHeader>, body: String) -> (r: HttpResponse)
        ensures
            r@ == relayed(status, lines_text(lines@), body@),
    {
        HttpResponse {
            status,
            headers: collect_headers(lines),
            body,
            success: status_is_success(status),
            error: None,
        }
    }
}

/// How an HTTP exchange ended.
#[derive(Clone, Debug, PartialEq, Eq)]
pub enum Exchange {
    /// No response was obtained; holds the cause.
    SendFailed(String),
    /// Status and headers arrived but the body could not be read; holds
    /// the cause.
    BodyFailed(String),
    /// The whole response arrived.
    Received { status: u16, headers: Vec<RawHeader>, body: String },
}

/// What the relay returns for an exchange: a transport failure where no
/// response came, a body failure where the body could not be read, else
/// the relayed response.
pub open spec fn conclusion(exchange: Exchange) -> Result<ResponseModel, ErrorModel> {
    match exchange {
        Exchange::SendFailed(cause) => Err(ErrorModel::Transport(cause@)),
        Exchange::BodyFailed(cause) => Err(ErrorModel::BodyRead(cause@)),
        Exchange::Received { status, headers, body } => Ok(
            relayed(status, lines_text(headers@), body@),
        ),
    }
}

/// A response that arrived whole is relayed whatever its status: a status
/// outside the success class is no failure of the relay. It shows in
/// `success` alone, and `error` stays empty.
pub proof fn lemma_any_status_is_relayed(status: u16, headers: Vec<RawHeader>, body: String)
    ensures
        conclusion(Exchange::Received { status, headers, body }) matches Ok(response)
            && response.status == status && response.success == is_success(status)
            && response.error is None && response.body == body@,
{
}

/// Turns the end of an exchange into the relay's result.
pub fn conclude(exchange: Exchange) -> (r: Result<HttpResponse, RelayError>)
    ensures
        match r {
            Ok(response) => conclusion(exchange) == Ok::<ResponseModel, ErrorModel>(response@),
            Err(e) => conclusion(exchange) == Err::<ResponseModel, ErrorModel>(e@),
        },
{
    match exchange {
        Exchange::SendFailed(cause) => Err(RelayError::Transport(cause)),
        Exchange::BodyFailed(cause) => Err(RelayError::BodyRead(cause)),
        Exchange::Received { status, headers, body } => Ok(
            HttpResponse::relay(status, &headers, body),
        ),
    }
}

} // verus!
