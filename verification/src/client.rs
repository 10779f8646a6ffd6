//! The client's side of one call: what goes to the API, and how what comes
//! back is read.
//!
//! The library sends nothing itself. A call is [`Anthropic::prepare`], the
//! transfer of what it returns by whoever holds a connection, and
//! [`parse_response_body`] on the status and the body that came back.

use crate::constants::{ANTHROPIC_URL, ANTHROPIC_VERSION, MESSAGES_PATH};
use crate::decode::read_as;
use crate::encode::encode_request;
use crate::error::{result_view, DeserializationError};
use crate::json::{Json, JsonValue};
use crate::models::{AnthropicRequest, AnthropicResponse, ErrorResponse, SuccessResponse};
use crate::shape;
use crate::wire::printed;
use vstd::prelude::*;
use vstd::string::StringExecFns;

verus! {

/// A character that may stand in a header value: a tab, or anything from the
/// space on but the delete character.
pub open spec fn header_char(c: char) -> bool {
    c == '\t' || (c as u32 >= 32 && c as u32 != 127)
}

/// A text that may stand as a header value.
pub open spec fn header_value(text: Seq<char>) -> bool {
    forall|i: int| 0 <= i < text.len() ==> header_char(#[trigger] text[i])
}

/// `reqwest::header::HeaderValue::from_str`, which is `http`'s: whether it
/// takes the text. It refuses a text with a byte below 32 other than the tab,
/// or with the byte 127; the bytes of a character beyond ASCII are all above
/// 127.
#[verifier::external_body]
fn accepts_header_value(text: &str) -> (r: bool)
    ensures
        r == header_value(text@),
{
    reqwest::header::HeaderValue::from_str(text).is_ok()
}

/// The API key cannot stand in a header.
#[derive(Debug, Clone, Copy, PartialEq, Eq)]
pub struct ClientConstructionError;

/// What a client knows: the key it signs with and where the API lives.
#[derive(Debug, Clone, PartialEq, Eq)]
pub struct Anthropic {
    api_key: String,
    base_url: String,
}

pub ghost struct AnthropicView {
    pub api_key: Seq<char>,
    pub base_url: Seq<char>,
}

impl View for Anthropic {
    type V = AnthropicView;

    closed spec fn view(&self) -> AnthropicView {
        AnthropicView { api_key: self.api_key@, base_url: self.base_url@ }
    }
}

/// What is to be sent, by `POST`.
#[derive(Debug, Clone, PartialEq, Eq)]
pub struct HttpRequest {
    pub url: String,
    /// The headers, each a name and a value.
    pub headers: Vec<(String, String)>,
    pub body: String,
}

impl AnthropicView {
    /// The address of the messages endpoint.
    pub open spec fn endpoint(self) -> Seq<char> {
        self.base_url + MESSAGES_PATH@
    }

    /// The three headers of every call.
    pub open spec fn headers(self) -> Seq<(Seq<char>, Seq<char>)> {
        seq![
            ("x-api-key"@, self.api_key),
            ("anthropic-version"@, ANTHROPIC_VERSION@),
            ("content-type"@, "application/json"@),
        ]
    }
}

impl Anthropic {
    /// A client for the API's own address that signs with `api_key`.
    ///
    /// It fails where the key cannot stand in a header, and only there.
    pub fn new(api_key: &str) -> (r: Result<Anthropic, ClientConstructionError>)
        ensures
            match r {
                Ok(client) => header_value(api_key@) && client@ == (AnthropicView {
                    api_key: api_key@,
                    base_url: ANTHROPIC_URL@,
                }),
                Err(_) => !header_value(api_key@),
            },
    {
        if accepts_header_value(api_key) {
            Ok(Anthropic { api_key: api_key.to_owned(), base_url: ANTHROPIC_URL.to_owned() })
        } else {
            Err(ClientConstructionError)
        }
    }

    /// The same client for the API at another address.
    pub fn base_url(self, base_url: &str) -> (r: Anthropic)
        ensures
            r@ == (AnthropicView { api_key: self@.api_key, base_url: base_url@ }),
    {
        Anthropic { api_key: self.api_key, base_url: base_url.to_owned() }
    }

    /// The address of the messages endpoint.
    pub fn endpoint(&self) -> (r: String)
        ensures
            r@ == self@.endpoint(),
    {
        self.base_url.clone().concat(MESSAGES_PATH)
    }

    /// The three headers of every call: the key, the API's version and the
    /// body's type.
    pub fn headers(&self) -> (r: Vec<(String, String)>)
        ensures
            r@.map_values(|header: (String, String)| (header.0@, header.1@)) == self@.headers(),
    {
        let mut headers: Vec<(String, String)> = Vec::new();
        headers.push(("x-api-key".to_owned(), self.api_key.clone()));
        headers.push(("anthropic-version".to_owned(), ANTHROPIC_VERSION.to_owned()));
        headers.push(("content-type".to_owned(), "application/json".to_owned()));
        proof {
            assert(headers@.map_values(|header: (String, String)| (header.0@, header.1@))
                =~= self@.headers());
        }
        headers
    }

    /// What is to be sent for a request: to the messages endpoint, under the
    /// three headers, the request as JSON text. `None` where the serializer
    /// reports an error.
    pub fn prepare(&self, params: &AnthropicRequest) -> (r: Option<HttpRequest>)
        ensures
            match r {
                Some(request) => {
                    &&& request.url@ == self@.endpoint()
                    &&& request.headers@.map_values(
                        |header: (String, String)| (header.0@, header.1@),
                    ) == self@.headers()
                    &&& printed(encode_request(params@)) == Some(request.body@)
                },
                None => printed(encode_request(params@)) is None,
            },
    {
        match params.to_text() {
            Some(body) => Some(HttpRequest { url: self.endpoint(), headers: self.headers(), body }),
            None => None,
        }
    }
}

/// Whether the API sends an answer with this status: 200 to 299.
pub fn is_success(status: u16) -> (r: bool)
    ensures
        r == shape::is_success(status),
{
    200 <= status && status < 300
}

/// Reads the document of a response's body as the status says: as an answer
/// under a success status, as a refusal under every other.
pub fn response_from_json(status: u16, doc: &Json) -> (r: Result<
    AnthropicResponse,
    DeserializationError,
>)
    ensures
        result_view(r) == shape::decode_body(status, doc@),
{
    if is_success(status) {
        match SuccessResponse::from_json(doc) {
            Ok(message) => Ok(AnthropicResponse::Success(message)),
            Err(error) => Err(error),
        }
    } else {
        match ErrorResponse::from_json(doc) {
            Ok(error) => Ok(AnthropicResponse::Error(error)),
            Err(error) => Err(error),
        }
    }
}

/// Reads the body of a response as the status says.
///
/// A refusal of the API is a result, not an error. The errors are a body
/// that is no JSON text, and a document that is not of the shape that the
/// status calls for.
pub fn parse_response_body(status: u16, body: &str) -> (r: Result<
    AnthropicResponse,
    DeserializationError,
>)
    ensures
        read_as(body@, r, |doc: JsonValue| shape::decode_body(status, doc)),
{
    let doc = Json::parse(body)?;
    response_from_json(status, &doc)
}

} // verus!
