//! Requests as the dispatcher reads them: the method, the request target,
//! and whatever else the transport carries along with them.

use vstd::prelude::*;
use vstd::string::*;

verus! {

/// An inbound request. The dispatcher reads the method and the target;
/// `payload` stands for all the rest (headers and body, or the message as
/// the transport holds it), which is handed on as it came.
#[derive(Debug, PartialEq, Eq)]
pub struct ProxyRequest<B> {
    pub method: String,
    pub target: String,
    pub payload: B,
}

/// The mathematical content of a [`ProxyRequest`].
pub struct ProxyRequestView<B> {
    pub method: Seq<char>,
    pub target: Seq<char>,
    pub payload: B,
}

impl<B> View for ProxyRequest<B> {
    type V = ProxyRequestView<B>;

    open spec fn view(&self) -> ProxyRequestView<B> {
        ProxyRequestView { method: self.method@, target: self.target@, payload: self.payload }
    }
}

/// The method that asks for a tunnel. Method names are case-sensitive.
pub open spec fn is_connect_method(method: Seq<char>) -> bool {
    method == "CONNECT"@
}

/// Whether a request asks for a tunnel.
pub fn is_connect(method: &String) -> (connect: bool)
    ensures
        connect == is_connect_method(method@),
{
    let wanted = String::from_str("CONNECT");
    *method == wanted
}

/// The authority component (`host:port`, with user information where the
/// target has any) that the `http` crate finds in a request target, or
/// `None` where the target is no URI or has no authority.
pub uninterp spec fn uri_authority(target: Seq<char>) -> Option<Seq<char>>;

/// Parses `target` with `http::Uri`'s `FromStr` and returns the text of
/// `Uri::authority`. The parser is not modelled: the contract only gives
/// its result the name [`uri_authority`].
#[verifier::external_body]
pub(crate) fn parse_authority(target: &str) -> (authority: Option<String>)
    ensures
        match authority {
            Some(text) => uri_authority(target@) == Some(text@),
            None => uri_authority(target@) is None,
        },
{
    match target.parse::<http::Uri>() {
        Ok(uri) => match uri.authority() {
            Some(found) => Some(found.to_string()),
            None => None,
        },
        Err(_) => None,
    }
}

} // verus!
