//! HTTP requests and answers as plain values.
//!
//! The library decides what is sent and what an answer means; sending is
//! the driver's work.

use vstd::prelude::*;

verus! {

/// The two request methods the tool uses.
#[derive(Clone, Copy, Debug, PartialEq, Eq)]
pub enum HttpMethod {
    Get,
    Post,
}

/// One request: where it goes, its headers in order, and its body.
#[derive(Clone, Debug, PartialEq, Eq)]
pub struct HttpRequest {
    pub method: HttpMethod,
    pub url: String,
    pub headers: Vec<(String, String)>,
    pub body: Option<String>,
}

/// Model of an [`HttpRequest`].
pub struct RequestModel {
    pub method: HttpMethod,
    pub url: Seq<char>,
    pub headers: Seq<(Seq<char>, Seq<char>)>,
    pub body: Option<Seq<char>>,
}

impl View for HttpRequest {
    type V = RequestModel;

    open spec fn view(&self) -> RequestModel {
        RequestModel {
            method: self.method,
            url: self.url@,
            headers: self.headers.deep_view(),
            body: self.body.deep_view(),
        }
    }
}

/// What came back for a request: the status code and the body as text.
#[derive(Clone, Debug, PartialEq, Eq)]
pub struct HttpResponse {
    pub status: u16,
    pub body: String,
}

/// Model of an [`HttpResponse`].
pub struct ResponseModel {
    pub status: u16,
    pub body: Seq<char>,
}

impl View for HttpResponse {
    type V = ResponseModel;

    open spec fn view(&self) -> ResponseModel {
        ResponseModel { status: self.status, body: self.body@ }
    }
}

/// Model of what a request led to: an answer, or the cause for which the
/// transport gave none.
pub open spec fn answer_model(answer: Result<HttpResponse, String>) -> Result<
    ResponseModel,
    Seq<char>,
> {
    match answer {
        Ok(response) => Ok(response@),
        Err(cause) => Err(cause@),
    }
}

/// The base address of the service.
pub open spec fn service_root() -> Seq<char> {
    "https://api.notion.com"@
}

/// The value of the authorization header for `token`.
pub open spec fn bearer(token: Seq<char>) -> Seq<char> {
    "Bearer "@ + token
}

/// A status in the success range, 200 to 299.
pub open spec fn is_success(status: u16) -> bool {
    200 <= status < 300
}

/// Tells whether `status` is in the success range.
pub fn status_is_success(status: u16) -> (success: bool)
    ensures
        success == is_success(status),
{
    200 <= status && status < 300
}

/// The authorization header for `token`.
pub fn authorization(token: &str) -> (header: (String, String))
    ensures
        header.0@ == "Authorization"@,
        header.1@ == bearer(token@),
{
    let mut value = "Bearer ".to_owned();
    value.append(token);
    ("Authorization".to_owned(), value)
}

} // verus!
