//! What is to be sent: the one HTTP call of an invocation, as plain values
//! for whoever performs it.

use crate::json::compact_text;
use crate::request::request_wire;
use crate::request::GrokRequest;
use crate::request::GrokRequestView;
use vstd::prelude::*;

verus! {

/// Where requests are posted.
pub const API_ENDPOINT: &'static str = "https://api.x.ai/v1/responses";

/// The name of the header that carries the credential.
pub const AUTHORIZATION_HEADER: &'static str = "Authorization";

/// What stands before the API key in the credential.
pub const BEARER_HEAD: &'static str = "Bearer ";

/// The name of the header that names the kind of the body.
pub const CONTENT_TYPE_HEADER: &'static str = "Content-Type";

/// The kind of the body.
pub const JSON_CONTENT_TYPE: &'static str = "application/json";

/// An HTTP POST that is ready to be sent.
#[derive(Debug, Clone)]
pub struct HttpPost {
    pub url: String,
    pub headers: Vec<(String, String)>,
    pub body: String,
}

/// What an [`HttpPost`] holds.
pub ghost struct HttpPostView {
    pub url: Seq<char>,
    pub headers: Seq<(Seq<char>, Seq<char>)>,
    pub body: Seq<char>,
}

impl View for HttpPost {
    type V = HttpPostView;

    open spec fn view(&self) -> HttpPostView {
        HttpPostView { url: self.url@, headers: self.headers.deep_view(), body: self.body@ }
    }
}

/// The call that sends a request with the given API key: to the fixed
/// endpoint, with the key as bearer token, and the request's wire form as
/// JSON body.
pub open spec fn post_of(request: GrokRequestView, api_key: Seq<char>) -> HttpPostView {
    HttpPostView {
        url: API_ENDPOINT@,
        headers: seq![
            (AUTHORIZATION_HEADER@, BEARER_HEAD@ + api_key),
            (CONTENT_TYPE_HEADER@, JSON_CONTENT_TYPE@),
        ],
        body: compact_text(request_wire(request)),
    }
}

/// Prepares the call that sends `request` with the given API key.
pub fn prepare_post(request: &GrokRequest, api_key: &str) -> (post: HttpPost)
    ensures
        post@ == post_of(request@, api_key@),
{
    let mut credential = String::from_str(BEARER_HEAD);
    credential.append(api_key);
    let mut headers: Vec<(String, String)> = Vec::new();
    headers.push((String::from_str(AUTHORIZATION_HEADER), credential));
    headers.push((String::from_str(CONTENT_TYPE_HEADER), String::from_str(JSON_CONTENT_TYPE)));
    let post = HttpPost { url: String::from_str(API_ENDPOINT), headers, body: request.to_json_text() };
    proof {
        assert(post@.headers =~= post_of(request@, api_key@).headers);
    }
    post
}

} // verus!
