//! What the inspector reads of an inbound request.
//!
//! A request is a value of the web framework and is opaque here. Three spec
//! functions name what it holds, and one accessor for each hands that out as
//! plain text. The accessors are the only code in this crate that touches the
//! framework; their contracts are taken on trust.

use crate::text::{pair_texts, text_of};
use rocket::Request;
use vstd::multiset::Multiset;
use vstd::prelude::*;

verus! {

/// `rocket::Request`, the framework's inbound request. Nothing inside it is
/// visible here; it is only handed to the accessors below.
#[verifier::external_type_specification]
#[verifier::external_body]
pub struct ExRequest<'r>(Request<'r>);

/// The address that the connection of a request came from, in the usual
/// notation of IP addresses, or `None` where the request carries none. It
/// names what `peer_address` returns.
pub uninterp spec fn request_peer(req: Request<'_>) -> Option<Seq<char>>;

/// The header fields of a request: under each name, in ASCII lower case, the
/// values of that name in the order in which they arrived. `header_value`
/// reads it.
pub uninterp spec fn request_headers(req: Request<'_>) -> Map<Seq<char>, Seq<Seq<char>>>;

/// The cookies in the jar of a request, each as its name and its value. They
/// have no order. `cookie_pairs` hands them out.
pub uninterp spec fn request_cookies(req: Request<'_>) -> Multiset<(Seq<char>, Seq<char>)>;

/// The lower-case form of an ASCII capital letter; any other character as it is.
pub open spec fn lower_char(c: char) -> char {
    if 'A' <= c && c <= 'Z' {
        ((c as u8) + 32) as char
    } else {
        c
    }
}

/// A text with its ASCII capital letters in lower case.
pub open spec fn lower_text(s: Seq<char>) -> Seq<char> {
    Seq::new(s.len(), |i: int| lower_char(s[i]))
}

/// The first value that header fields hold under a name. Names are compared
/// without regard to the case of ASCII letters.
pub open spec fn first_value(fields: Map<Seq<char>, Seq<Seq<char>>>, name: Seq<char>) -> Option<
    Seq<char>,
> {
    let key = lower_text(name);
    if fields.contains_key(key) && fields[key].len() > 0 {
        Some(fields[key][0])
    } else {
        None
    }
}

/// The two header names that the inspector looks up, as the keys under which
/// their values stand.
pub proof fn lemma_header_keys()
    ensures
        lower_text("User-Agent"@) == "user-agent"@,
        lower_text("CF-Connecting-IP"@) == "cf-connecting-ip"@,
{
    reveal_strlit("User-Agent");
    reveal_strlit("user-agent");
    reveal_strlit("CF-Connecting-IP");
    reveal_strlit("cf-connecting-ip");
    assert(lower_text("User-Agent"@) =~= "user-agent"@);
    assert(lower_text("CF-Connecting-IP"@) =~= "cf-connecting-ip"@);
}

/// `Request::remote`, then `SocketAddr::ip` and the address's `to_string`: the
/// peer address of the connection in its usual notation, or `None` where the
/// request carries no peer address.
#[verifier::external_body]
pub(crate) fn peer_address(req: &Request<'_>) -> (addr: Option<String>)
    ensures
        text_of(addr) == request_peer(*req),
{
    req.remote().map(|peer| peer.ip().to_string())
}

/// `Request::headers`, then `HeaderMap::get_one`: the first value of the header
/// field `name`, which is looked up without regard to the case of ASCII
/// letters, or `None` where the request has no such field.
#[verifier::external_body]
pub(crate) fn header_value(req: &Request<'_>, name: &str) -> (value: Option<String>)
    ensures
        text_of(value) == first_value(request_headers(*req), name@),
{
    req.headers().get_one(name).map(|value| value.to_string())
}

/// `Request::cookies`, then `CookieJar::iter` with `Cookie::name` and
/// `Cookie::value` of each item: every cookie in the jar of the request, once.
/// The jar keeps its cookies in a hash set, so the order in which they come
/// out is not fixed; nothing is claimed of it.
#[verifier::external_body]
pub(crate) fn cookie_pairs(req: &Request<'_>) -> (pairs: Vec<(String, String)>)
    ensures
        pair_texts(pairs@).to_multiset() == request_cookies(*req),
{
    req.cookies().iter().map(|c| (c.name().to_string(), c.value().to_string())).collect()
}

} // verus!
