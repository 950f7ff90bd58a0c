//! The snapshot of one request.

use crate::request::{
    cookie_pairs, first_value, header_value, peer_address, request_cookies, request_headers,
    request_peer,
};
use crate::text::{pair_texts, text_of, texts};
use rocket::Request;
use vstd::prelude::*;

verus! {

/// What one request showed of its sender. A field is `None` where the request
/// did not carry it; nothing is validated or normalised.
#[derive(Debug, Clone)]
pub struct ClientInfo {
    /// The address that the connection came from.
    pub ip_address: Option<String>,
    /// The value of the `User-Agent` header.
    pub user_agent: Option<String>,
    /// The value of the `CF-Connecting-IP` header, which a proxy sets to the
    /// address of the client it forwards for.
    pub cloudflare_ip: Option<String>,
    /// One `name=value` text for each cookie.
    pub cookies: Vec<String>,
}

/// A snapshot as plain texts.
pub struct ClientInfoView {
    pub ip_address: Option<Seq<char>>,
    pub user_agent: Option<Seq<char>>,
    pub cloudflare_ip: Option<Seq<char>>,
    pub cookies: Seq<Seq<char>>,
}

impl View for ClientInfo {
    type V = ClientInfoView;

    open spec fn view(&self) -> ClientInfoView {
        ClientInfoView {
            ip_address: text_of(self.ip_address),
            user_agent: text_of(self.user_agent),
            cloudflare_ip: text_of(self.cloudflare_ip),
            cookies: texts(self.cookies@),
        }
    }
}

/// The text that stands for one cookie: its name, `=`, its value.
pub open spec fn cookie_entry(name: Seq<char>, value: Seq<char>) -> Seq<char> {
    name + "="@ + value
}

/// The texts that stand for a list of cookies, in the order of the list.
pub open spec fn cookie_entries(pairs: Seq<(Seq<char>, Seq<char>)>) -> Seq<Seq<char>> {
    Seq::new(pairs.len(), |i: int| cookie_entry(pairs[i].0, pairs[i].1))
}

/// Writes one cookie as `name=value`.
pub fn format_cookie(name: &str, value: &str) -> (entry: String)
    ensures
        entry@ == cookie_entry(name@, value@),
{
    let mut entry = String::from_str(name);
    entry.append("=");
    entry.append(value);
    entry
}

impl ClientInfo {
    /// The snapshot of a request that showed these parts. The cookies keep the
    /// order in which they are given.
    pub fn from_parts(
        ip_address: Option<String>,
        user_agent: Option<String>,
        cloudflare_ip: Option<String>,
        cookies: &Vec<(String, String)>,
    ) -> (info: ClientInfo)
        ensures
            info@.ip_address == text_of(ip_address),
            info@.user_agent == text_of(user_agent),
            info@.cloudflare_ip == text_of(cloudflare_ip),
            info@.cookies == cookie_entries(pair_texts(cookies@)),
    {
        let mut entries: Vec<String> = Vec::new();
        for i in 0..cookies.len()
            invariant
                entries@.len() == i,
                forall|j: int|
                    0 <= j < i ==> (#[trigger] entries@[j])@ == cookie_entry(
                        cookies@[j].0@,
                        cookies@[j].1@,
                    ),
        {
            let pair = &cookies[i];
            entries.push(format_cookie(pair.0.as_str(), pair.1.as_str()));
        }
        let info = ClientInfo { ip_address, user_agent, cloudflare_ip, cookies: entries };
        assert(info@.cookies =~= cookie_entries(pair_texts(cookies@)));
        info
    }

    /// Reads the snapshot of a request: its peer address, the first value of
    /// its `User-Agent` and of its `CF-Connecting-IP` header, and one entry
    /// for each of its cookies, in the order in which the request hands them
    /// out. A part that the request lacks is `None`; reading never fails.
    pub fn from_request(req: &Request<'_>) -> (info: ClientInfo)
        ensures
            info@.ip_address == request_peer(*req),
            info@.user_agent == first_value(request_headers(*req), "User-Agent"@),
            info@.cloudflare_ip == first_value(request_headers(*req), "CF-Connecting-IP"@),
            exists|pairs: Seq<(Seq<char>, Seq<char>)>|
                #[trigger] pairs.to_multiset() == request_cookies(*req) && info@.cookies
                    == cookie_entries(pairs),
    {
        let ip_address = peer_address(req);
        let user_agent = header_value(req, "User-Agent");
        let cloudflare_ip = header_value(req, "CF-Connecting-IP");
        let cookies = cookie_pairs(req);
        let info = ClientInfo::from_parts(ip_address, user_agent, cloudflare_ip, &cookies);
        assert(pair_texts(cookies@).to_multiset() == request_cookies(*req));
        info
    }
}

} // verus!
