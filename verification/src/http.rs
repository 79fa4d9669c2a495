//! What every request to the registry carries, and how its answers are
//! judged.

use crate::decimal::{decimal_text, push_decimal};
use crate::env::{env_value, lookup, EnvVar};
use vstd::prelude::*;

verus! {

/// The user agent that every request names.
pub const USER_AGENT: &'static str = "llama-cpp";

/// The header of an answer that carries the validator of the file itself,
/// not of a copy that the answer redirects to.
pub const LINKED_ETAG: &'static str = "x-linked-etag";

/// The header of a request that names the bytes asked for.
pub const RANGE: &'static str = "Range";

/// The variable that holds the credential for the registry.
pub const HF_TOKEN: &'static str = "HF_TOKEN";

/// One header of a request.
#[derive(Clone, Debug, PartialEq, Eq)]
pub struct Header {
    pub name: String,
    pub value: String,
}

/// A `Header` with its texts as sequences of characters.
pub struct HeaderView {
    pub name: Seq<char>,
    pub value: Seq<char>,
}

impl View for Header {
    type V = HeaderView;

    open spec fn view(&self) -> HeaderView {
        HeaderView { name: self.name@, value: self.value@ }
    }
}

/// The views of a sequence of headers.
pub open spec fn header_views(headers: Seq<Header>) -> Seq<HeaderView> {
    Seq::new(headers.len(), |i: int| headers[i]@)
}

/// The headers of every request: the user agent, and behind it the
/// credential as a bearer token where the environment holds one that is not
/// empty.
pub open spec fn default_headers_spec(vars: Seq<EnvVar>) -> Seq<HeaderView> {
    let agent = HeaderView { name: "User-Agent"@, value: USER_AGENT@ };
    match env_value(vars, HF_TOKEN@) {
        Some(token) => if token.len() > 0 {
            seq![agent, HeaderView { name: "Authorization"@, value: "Bearer "@ + token }]
        } else {
            seq![agent]
        },
        None => seq![agent],
    }
}

/// The headers that every request to the registry carries in this
/// environment.
pub fn default_headers(vars: &Vec<EnvVar>) -> (headers: Vec<Header>)
    ensures
        header_views(headers@) == default_headers_spec(vars@),
{
    let mut headers: Vec<Header> = Vec::new();
    headers.push(
        Header { name: String::from_str("User-Agent"), value: String::from_str(USER_AGENT) },
    );
    match lookup(vars, HF_TOKEN) {
        Some(token) => {
            if !token.is_empty() {
                headers.push(
                    Header {
                        name: String::from_str("Authorization"),
                        value: String::from_str("Bearer ").concat(token),
                    },
                );
            }
        },
        None => {},
    }
    proof {
        assert(header_views(headers@) =~= default_headers_spec(vars@));
    }
    headers
}

/// Whether an answer with this status holds what was asked for.
pub open spec fn is_success(status: u16) -> bool {
    200 <= status <= 299
}

/// Whether an answer with this status holds what was asked for.
pub fn status_is_success(status: u16) -> (r: bool)
    ensures
        r == is_success(status),
{
    200 <= status && status <= 299
}

/// What is reported of an answer that holds no result: the address, then
/// the status.
pub open spec fn status_detail_spec(url: Seq<char>, status: u16) -> Seq<char> {
    url + ": HTTP status "@ + decimal_text(status as nat)
}

/// What is reported of an answer from `url` with a status outside 200 to 299.
pub fn status_detail(url: &str, status: u16) -> (r: String)
    ensures
        r@ == status_detail_spec(url@, status),
{
    let mut r = String::from_str(url);
    r.append(": HTTP status ");
    push_decimal(&mut r, status as u64);
    r
}

} // verus!
