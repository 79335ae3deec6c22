//! The response model: a status code with typed content, and its byte-exact
//! serialization to the wire format.

use vstd::prelude::*;
use vstd::utf8::encode_utf8;

use crate::encoding::{dec_digits, push_str_bytes, u128_to_decimal};
use crate::request::RequestError;

verus! {

/// The content of a response.
#[derive(Debug, Clone, PartialEq, Eq)]
pub enum ResponseContent {
    /// No content at all.
    Empty,
    /// Plain text content.
    Text(String),
    /// Binary content holding a PNG image.
    Png(Vec<u8>),
}

impl ResponseContent {
    /// The content's bytes as they are written on the wire.
    pub open spec fn spec_bytes(&self) -> Seq<u8> {
        match self {
            ResponseContent::Empty => Seq::empty(),
            ResponseContent::Text(s) => encode_utf8(s@),
            ResponseContent::Png(b) => b@,
        }
    }

    /// The `Content-Type` header line for this content, with its line
    /// terminator; empty content has no such line at all.
    pub open spec fn spec_content_type_line(&self) -> Seq<u8> {
        match self {
            ResponseContent::Empty => Seq::empty(),
            ResponseContent::Text(_) => encode_utf8(
                "Content-Type: text/plain; charset=utf-8\r\n"@,
            ),
            ResponseContent::Png(_) => encode_utf8("Content-Type: image/png\r\n"@),
        }
    }

    /// The length of the content in bytes.
    pub fn len(&self) -> (r: usize)
        ensures
            r == self.spec_bytes().len(),
    {
        match self {
            ResponseContent::Empty => 0,
            ResponseContent::Text(s) => s.as_str().as_bytes().len(),
            ResponseContent::Png(b) => b.len(),
        }
    }
}

/// An HTTP response: a status code and typed content.
#[derive(Debug, Clone, PartialEq, Eq)]
pub struct Response {
    /// The HTTP status code of the response.
    pub status: u16,
    /// The content of the response.
    pub content: ResponseContent,
}

impl Response {
    /// Creates a response of just a status code, with no content.
    pub fn from_status(status: u16) -> (r: Response)
        ensures
            r.status == status,
            r.content is Empty,
    {
        Response { status, content: ResponseContent::Empty }
    }

    /// Creates a response with a status code and a text message.
    pub fn from_message(status: u16, msg: String) -> (r: Response)
        ensures
            r.status == status,
            r.content matches ResponseContent::Text(m) && m == msg,
    {
        Response { status, content: ResponseContent::Text(msg) }
    }

    /// Creates a successful response whose content is a PNG image.
    pub fn from_png(png: Vec<u8>) -> (r: Response)
        ensures
            r.status == 200,
            r.content matches ResponseContent::Png(b) && b@ == png@,
    {
        Response { status: 200, content: ResponseContent::Png(png) }
    }

    /// Synthesizes the error response for a refused request: status 401 for
    /// a wrong secret, 400 for everything else, with the rejection's message
    /// as text content.
    pub fn from_request_error(e: &RequestError) -> (r: Response)
        ensures
            r.status == if e is InvalidKey {
                401int
            } else {
                400int
            },
            r.content matches ResponseContent::Text(m) && m@ == e.spec_message(),
    {
        let status: u16 = match e {
            RequestError::InvalidKey => 401,
            _ => 400,
        };
        Response { status, content: ResponseContent::Text(e.message().to_owned()) }
    }

    /// The response's header block: the status line, the `Content-Type`
    /// line when there is content, and the `Content-Length` line, closed by
    /// the blank line.
    pub open spec fn spec_header_bytes(&self) -> Seq<u8> {
        encode_utf8("HTTP/1.1 "@) + dec_digits(self.status as nat) + encode_utf8("\r\n"@)
            + self.content.spec_content_type_line() + encode_utf8("Content-Length: "@)
            + dec_digits(self.content.spec_bytes().len()) + encode_utf8("\r\n\r\n"@)
    }

    /// The full wire form of the response: the header block followed by the
    /// content bytes.
    pub open spec fn spec_bytes(&self) -> Seq<u8> {
        self.spec_header_bytes() + self.content.spec_bytes()
    }

    /// Serializes the response's header block.
    pub fn header_bytes(&self) -> (r: Vec<u8>)
        ensures
            r@ == self.spec_header_bytes(),
    {
        let mut v: Vec<u8> = Vec::new();
        push_str_bytes(&mut v, "HTTP/1.1 ");
        let mut status_digits = u128_to_decimal(self.status as u128);
        v.append(&mut status_digits);
        push_str_bytes(&mut v, "\r\n");
        match &self.content {
            ResponseContent::Empty => {},
            ResponseContent::Text(_) => {
                push_str_bytes(&mut v, "Content-Type: text/plain; charset=utf-8\r\n");
            },
            ResponseContent::Png(_) => {
                push_str_bytes(&mut v, "Content-Type: image/png\r\n");
            },
        }
        push_str_bytes(&mut v, "Content-Length: ");
        let mut len_digits = u128_to_decimal(self.content.len() as u128);
        v.append(&mut len_digits);
        push_str_bytes(&mut v, "\r\n\r\n");
        assert(v@ =~= self.spec_header_bytes());
        v
    }

    /// Serializes the whole response to its wire form.
    pub fn to_bytes(&self) -> (r: Vec<u8>)
        ensures
            r@ == self.spec_bytes(),
    {
        let mut v = self.header_bytes();
        match &self.content {
            ResponseContent::Empty => {},
            ResponseContent::Text(s) => {
                v.extend_from_slice(s.as_str().as_bytes());
            },
            ResponseContent::Png(b) => {
                v.extend_from_slice(b.as_slice());
            },
        }
        assert(v@ =~= self.spec_bytes());
        v
    }
}

} // verus!
