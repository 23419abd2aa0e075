//! The requests that the store understands, and what its answers mean.
//!
//! Nothing here touches the network: a request is a value that the caller
//! sends, and a response is a value that the caller received.

use vstd::prelude::*;
use crate::address::ResourceAddress;
use crate::error::RemoteError;

verus! {

/// The request methods in use.
#[derive(Debug, Clone, Copy, PartialEq, Eq, Structural)]
pub enum Method {
    Get,
    Post,
    Delete,
    Head,
}

/// What a request carries.
#[derive(Debug)]
pub enum Body {
    /// Nothing.
    Empty,
    /// Text, sent whole.
    Text(String),
    /// A multipart form of one part, whose content the caller streams from
    /// the file.
    File { part: String, filename: String, media_type: String },
}

/// What a body is, to contracts.
pub enum BodyView {
    Empty,
    Text(Seq<char>),
    File { part: Seq<char>, filename: Seq<char>, media_type: Seq<char> },
}

impl View for Body {
    type V = BodyView;

    open spec fn view(&self) -> BodyView {
        match *self {
            Body::Empty => BodyView::Empty,
            Body::Text(text) => BodyView::Text(text@),
            Body::File { part, filename, media_type } => BodyView::File {
                part: part@,
                filename: filename@,
                media_type: media_type@,
            },
        }
    }
}

/// A request, ready to be sent.
#[derive(Debug)]
pub struct Request {
    pub method: Method,
    pub url: String,
    pub body: Body,
}

/// What a request is, to contracts.
pub struct RequestView {
    pub method: Method,
    pub url: Seq<char>,
    pub body: BodyView,
}

impl View for Request {
    type V = RequestView;

    open spec fn view(&self) -> RequestView {
        RequestView { method: self.method, url: self.url@, body: self.body@ }
    }
}

/// An answer of the store, as far as it was read: for a probe the body is
/// empty.
#[derive(Debug)]
pub struct Response {
    pub status: u16,
    pub body: String,
}

/// The identifier that the store gives a submitted object. Its format is
/// the store's own affair.
#[derive(Debug)]
pub struct Token {
    text: String,
}

impl View for Token {
    type V = Seq<char>;

    closed spec fn view(&self) -> Seq<char> {
        self.text@
    }
}

impl Token {
    /// The token that this text is.
    pub fn new(text: String) -> (token: Token)
        ensures
            token@ == text@,
    {
        Token { text }
    }

    /// The token as text.
    pub fn as_str(&self) -> (text: &str)
        ensures
            text@ == self@,
    {
        self.text.as_str()
    }
}

/// The name of the form part that carries an uploaded file.
pub open spec fn file_part() -> Seq<char> {
    "file"@
}

/// A request without a body.
pub open spec fn bare_request(method: Method, url: Seq<char>) -> RequestView {
    RequestView { method, url, body: BodyView::Empty }
}

/// The request that submits a text.
pub open spec fn text_submission(url: Seq<char>, text: Seq<char>) -> RequestView {
    RequestView { method: Method::Post, url, body: BodyView::Text(text) }
}

/// The request that deletes an object, with the confirmation that some
/// stores ask for.
pub open spec fn deletion(url: Seq<char>, confirmation: Option<Seq<char>>) -> RequestView {
    RequestView {
        method: Method::Delete,
        url,
        body: match confirmation {
            Some(text) => BodyView::Text(text),
            None => BodyView::Empty,
        },
    }
}

/// The request that uploads a file.
pub open spec fn file_submission(
    url: Seq<char>,
    filename: Seq<char>,
    media_type: Seq<char>,
) -> RequestView {
    RequestView {
        method: Method::Post,
        url,
        body: BodyView::File { part: file_part(), filename, media_type },
    }
}

/// Whether a status code reports success: the codes from 200 to 299.
pub open spec fn is_success(status: u16) -> bool {
    200 <= status <= 299
}

/// A request to `address` that carries nothing.
fn bare(method: Method, address: &ResourceAddress) -> (request: Request)
    ensures
        request@ == bare_request(method, address@.text),
{
    Request { method, url: String::from_str(address.as_str()), body: Body::Empty }
}

/// Submits `text`: the whole of it is posted to `address`.
pub fn submit_text(address: &ResourceAddress, text: String) -> (request: Request)
    ensures
        request@ == text_submission(address@.text, text@),
{
    Request {
        method: Method::Post,
        url: String::from_str(address.as_str()),
        body: Body::Text(text),
    }
}

/// Fetches the text stored at `address`.
pub fn fetch_text(address: &ResourceAddress) -> (request: Request)
    ensures
        request@ == bare_request(Method::Get, address@.text),
{
    bare(Method::Get, address)
}

/// Deletes the object at `address`, with a confirmation where one is given.
pub fn delete(address: &ResourceAddress, confirmation: Option<String>) -> (request: Request)
    ensures
        request@ == deletion(
            address@.text,
            match confirmation {
                Some(text) => Some(text@),
                None => None,
            },
        ),
{
    let body = match confirmation {
        Some(text) => Body::Text(text),
        None => Body::Empty,
    };
    Request { method: Method::Delete, url: String::from_str(address.as_str()), body }
}

/// Uploads a file to `address` as the one part of a multipart form, under
/// the given file name and media type. The caller streams the content.
pub fn submit_stream(address: &ResourceAddress, filename: &str, media_type: &str) -> (request:
    Request)
    ensures
        request@ == file_submission(address@.text, filename@, media_type@),
{
    Request {
        method: Method::Post,
        url: String::from_str(address.as_str()),
        body: Body::File {
            part: String::from_str("file"),
            filename: String::from_str(filename),
            media_type: String::from_str(media_type),
        },
    }
}

/// Asks for the headers of the object at `address`, to learn its size.
pub fn probe(address: &ResourceAddress) -> (request: Request)
    ensures
        request@ == bare_request(Method::Head, address@.text),
{
    bare(Method::Head, address)
}

/// Fetches the object at `address` as a stream of chunks.
pub fn fetch_stream(address: &ResourceAddress) -> (request: Request)
    ensures
        request@ == bare_request(Method::Get, address@.text),
{
    bare(Method::Get, address)
}

/// Whether the status code reports success.
pub fn status_is_success(status: u16) -> (success: bool)
    ensures
        success == is_success(status),
{
    200 <= status && status <= 299
}

/// Reads the answer to a submission: on success its body is the token; on
/// any other status the answer is handed back as the error.
pub fn accept_submission(response: Response) -> (outcome: Result<Token, RemoteError>)
    ensures
        match outcome {
            Ok(token) => is_success(response.status) && token@ == response.body@,
            Err(error) => {
                &&& !is_success(response.status)
                &&& error.status == response.status
                &&& error.body == response.body
            },
        },
{
    if status_is_success(response.status) {
        Ok(Token::new(response.body))
    } else {
        Err(RemoteError { status: response.status, body: response.body })
    }
}

/// Reads the answer to a retrieval or a deletion: its body, as it came,
/// whatever the status.
pub fn response_text(response: Response) -> (text: String)
    ensures
        text == response.body,
{
    response.body
}

} // verus!
