//! What stands in the page of a snapshot.
//!
//! The statements here are about `page_text`, the document that `index`
//! returns: which rows it holds, what a row shows where the request lacked a
//! part, and that what the request carried is shown, in the order of the
//! snapshot.

use crate::escape::{escape_text, is_plain, lemma_escape_concat, lemma_escape_plain};
use crate::page::{
    agent_row, cookie_list, cookie_row, forwarded_row, ip_row, joined, page_text, paragraph,
    PAGE_HEAD, PAGE_TAIL, ROW_GAP, UNKNOWN_CLOUDFLARE_IP, UNKNOWN_IP_ADDRESS, UNKNOWN_USER_AGENT,
};
use crate::request::{first_value, lemma_header_keys};
use crate::snapshot::{cookie_entries, cookie_entry, ClientInfoView};
use crate::text::{
    lemma_occur_in_order_nested, lemma_occur_in_order_widen, lemma_occurs_at_middle,
    lemma_occurs_at_widen, lemma_occurs_in_nested, lemma_occurs_in_widen, occur_in_order,
    occurs_at, occurs_in,
};
use vstd::multiset::Multiset;
use vstd::prelude::*;

verus! {

broadcast use vstd::string::group_string_axioms;

/// The escaped value of a row stands in the row.
pub proof fn lemma_value_in_paragraph(label: Seq<char>, value: Seq<char>)
    ensures
        occurs_in(escape_text(value), paragraph(label, value)),
{
    lemma_occurs_at_middle("<p>"@ + label + ": "@, escape_text(value), "</p>"@);
}

/// The four rows stand in the page.
pub proof fn lemma_rows_in_page(info: ClientInfoView)
    ensures
        occurs_in(ip_row(info), page_text(info)),
        occurs_in(agent_row(info), page_text(info)),
        occurs_in(forwarded_row(info), page_text(info)),
        occurs_in(cookie_row(info), page_text(info)),
{
    let page = page_text(info);
    let gap = ROW_GAP@;
    let a = PAGE_HEAD@;
    let b = a + ip_row(info) + gap;
    let c = b + agent_row(info) + gap;
    let d = c + forwarded_row(info) + gap;
    lemma_occurs_at_middle(
        a,
        ip_row(info),
        gap + agent_row(info) + gap + forwarded_row(info) + gap + cookie_row(info) + PAGE_TAIL@,
    );
    assert(page =~= a + ip_row(info) + (gap + agent_row(info) + gap + forwarded_row(info) + gap
        + cookie_row(info) + PAGE_TAIL@));
    lemma_occurs_at_middle(
        b,
        agent_row(info),
        gap + forwarded_row(info) + gap + cookie_row(info) + PAGE_TAIL@,
    );
    assert(page =~= b + agent_row(info) + (gap + forwarded_row(info) + gap + cookie_row(info)
        + PAGE_TAIL@));
    lemma_occurs_at_middle(c, forwarded_row(info), gap + cookie_row(info) + PAGE_TAIL@);
    assert(page =~= c + forwarded_row(info) + (gap + cookie_row(info) + PAGE_TAIL@));
    lemma_occurs_at_middle(d, cookie_row(info), PAGE_TAIL@);
    assert(page =~= d + cookie_row(info) + PAGE_TAIL@);
}

/// The three placeholders hold no markup character.
pub proof fn lemma_placeholders_are_plain()
    ensures
        is_plain(UNKNOWN_IP_ADDRESS@),
        is_plain(UNKNOWN_USER_AGENT@),
        is_plain(UNKNOWN_CLOUDFLARE_IP@),
{
    reveal_strlit("Unknown IP Address");
    reveal_strlit("Unknown User Agent");
    reveal_strlit("Unknown Cloudflare IP");
}

/// The three pieces of every row, spelled out.
proof fn lemma_row_pieces()
    ensures
        "<p>"@ == seq!['<', 'p', '>'],
        ": "@ == seq![':', ' '],
        "</p>"@ == seq!['<', '/', 'p', '>'],
{
    reveal_strlit("<p>");
    reveal_strlit(": ");
    reveal_strlit("</p>");
    assert("<p>"@ =~= seq!['<', 'p', '>']);
    assert(": "@ =~= seq![':', ' ']);
    assert("</p>"@ =~= seq!['<', '/', 'p', '>']);
}

/// Where the peer address is not known, the page says so: its address row
/// holds the placeholder, not an empty value.
pub proof fn lemma_missing_ip_address_shows_placeholder(info: ClientInfoView)
    requires
        info.ip_address is None,
    ensures
        ip_row(info) == "<p>IP Address: Unknown IP Address</p>"@,
        occurs_in("<p>IP Address: Unknown IP Address</p>"@, page_text(info)),
        occurs_in("Unknown IP Address"@, page_text(info)),
{
    lemma_placeholders_are_plain();
    lemma_escape_plain(UNKNOWN_IP_ADDRESS@);
    lemma_row_pieces();
    reveal_strlit("IP Address");
    reveal_strlit("Unknown IP Address");
    reveal_strlit("<p>IP Address: Unknown IP Address</p>");
    assert(ip_row(info) =~= "<p>IP Address: Unknown IP Address</p>"@);
    lemma_value_in_paragraph("IP Address"@, UNKNOWN_IP_ADDRESS@);
    lemma_rows_in_page(info);
    lemma_occurs_in_nested(UNKNOWN_IP_ADDRESS@, ip_row(info), page_text(info));
}

/// Where the request had no `User-Agent` header, the page says so: its user
/// agent row holds the placeholder, not an empty value.
pub proof fn lemma_missing_user_agent_shows_placeholder(info: ClientInfoView)
    requires
        info.user_agent is None,
    ensures
        agent_row(info) == "<p>User Agent: Unknown User Agent</p>"@,
        occurs_in("<p>User Agent: Unknown User Agent</p>"@, page_text(info)),
        occurs_in("Unknown User Agent"@, page_text(info)),
{
    lemma_placeholders_are_plain();
    lemma_escape_plain(UNKNOWN_USER_AGENT@);
    lemma_row_pieces();
    reveal_strlit("User Agent");
    reveal_strlit("Unknown User Agent");
    reveal_strlit("<p>User Agent: Unknown User Agent</p>");
    assert(agent_row(info) =~= "<p>User Agent: Unknown User Agent</p>"@);
    lemma_value_in_paragraph("User Agent"@, UNKNOWN_USER_AGENT@);
    lemma_rows_in_page(info);
    lemma_occurs_in_nested(UNKNOWN_USER_AGENT@, agent_row(info), page_text(info));
}

/// Where the request had no `CF-Connecting-IP` header, the page says so: its
/// forwarded address row holds the placeholder, not an empty value.
pub proof fn lemma_missing_cloudflare_ip_shows_placeholder(info: ClientInfoView)
    requires
        info.cloudflare_ip is None,
    ensures
        forwarded_row(info) == "<p>Cloudflare IP: Unknown Cloudflare IP</p>"@,
        occurs_in("<p>Cloudflare IP: Unknown Cloudflare IP</p>"@, page_text(info)),
        occurs_in("Unknown Cloudflare IP"@, page_text(info)),
{
    lemma_placeholders_are_plain();
    lemma_escape_plain(UNKNOWN_CLOUDFLARE_IP@);
    lemma_row_pieces();
    reveal_strlit("Cloudflare IP");
    reveal_strlit("Unknown Cloudflare IP");
    reveal_strlit("<p>Cloudflare IP: Unknown Cloudflare IP</p>");
    assert(forwarded_row(info) =~= "<p>Cloudflare IP: Unknown Cloudflare IP</p>"@);
    lemma_value_in_paragraph("Cloudflare IP"@, UNKNOWN_CLOUDFLARE_IP@);
    lemma_rows_in_page(info);
    lemma_occurs_in_nested(UNKNOWN_CLOUDFLARE_IP@, forwarded_row(info), page_text(info));
}

/// A request without a `User-Agent` header field is answered with a page that
/// holds the placeholder for it. `fields` are the header fields of the request,
/// `info` is a snapshot that was read from them.
pub proof fn lemma_request_without_user_agent(
    fields: Map<Seq<char>, Seq<Seq<char>>>,
    info: ClientInfoView,
)
    requires
        !fields.contains_key("user-agent"@),
        info.user_agent == first_value(fields, "User-Agent"@),
    ensures
        occurs_in("<p>User Agent: Unknown User Agent</p>"@, page_text(info)),
        occurs_in("Unknown User Agent"@, page_text(info)),
{
    lemma_header_keys();
    lemma_missing_user_agent_shows_placeholder(info);
}

/// A request without a `CF-Connecting-IP` header field is answered with a page
/// that holds the placeholder for it. `fields` are the header fields of the
/// request, `info` is a snapshot that was read from them.
pub proof fn lemma_request_without_cloudflare_ip(
    fields: Map<Seq<char>, Seq<Seq<char>>>,
    info: ClientInfoView,
)
    requires
        !fields.contains_key("cf-connecting-ip"@),
        info.cloudflare_ip == first_value(fields, "CF-Connecting-IP"@),
    ensures
        occurs_in("<p>Cloudflare IP: Unknown Cloudflare IP</p>"@, page_text(info)),
        occurs_in("Unknown Cloudflare IP"@, page_text(info)),
{
    lemma_header_keys();
    lemma_missing_cloudflare_ip_shows_placeholder(info);
}

/// Every value that the request carried stands in the page in its escaped
/// form, and as it is where it holds no markup character: an address such as
/// `203.0.113.5` is shown letter for letter.
pub proof fn lemma_values_are_shown(info: ClientInfoView)
    ensures
        info.ip_address is Some ==> occurs_in(escape_text(info.ip_address->0), page_text(info)),
        info.user_agent is Some ==> occurs_in(escape_text(info.user_agent->0), page_text(info)),
        info.cloudflare_ip is Some ==> occurs_in(
            escape_text(info.cloudflare_ip->0),
            page_text(info),
        ),
        info.ip_address is Some && is_plain(info.ip_address->0) ==> occurs_in(
            info.ip_address->0,
            page_text(info),
        ),
        info.user_agent is Some && is_plain(info.user_agent->0) ==> occurs_in(
            info.user_agent->0,
            page_text(info),
        ),
        info.cloudflare_ip is Some && is_plain(info.cloudflare_ip->0) ==> occurs_in(
            info.cloudflare_ip->0,
            page_text(info),
        ),
{
    let page = page_text(info);
    lemma_rows_in_page(info);
    if let Some(value) = info.ip_address {
        lemma_value_in_paragraph("IP Address"@, value);
        lemma_occurs_in_nested(escape_text(value), ip_row(info), page);
        if is_plain(value) {
            lemma_escape_plain(value);
        }
    }
    if let Some(value) = info.user_agent {
        lemma_value_in_paragraph("User Agent"@, value);
        lemma_occurs_in_nested(escape_text(value), agent_row(info), page);
        if is_plain(value) {
            lemma_escape_plain(value);
        }
    }
    if let Some(value) = info.cloudflare_ip {
        lemma_value_in_paragraph("Cloudflare IP"@, value);
        lemma_occurs_in_nested(escape_text(value), forwarded_row(info), page);
        if is_plain(value) {
            lemma_escape_plain(value);
        }
    }
}

/// The escaped form of a joined list is the escaped front, the escaped
/// separator and the escaped last item.
proof fn lemma_escape_joined(items: Seq<Seq<char>>)
    requires
        items.len() >= 2,
    ensures
        escape_text(joined(items)) == escape_text(joined(items.drop_last())) + escape_text(", "@)
            + escape_text(items.last()),
{
    lemma_escape_concat(joined(items.drop_last()) + ", "@, items.last());
    lemma_escape_concat(joined(items.drop_last()), ", "@);
}

/// Each item of a list stands, escaped, in the escaped form of the joined list.
proof fn lemma_item_in_joined(items: Seq<Seq<char>>, i: int)
    requires
        0 <= i < items.len(),
    ensures
        occurs_in(escape_text(items[i]), escape_text(joined(items))),
    decreases items.len(),
{
    let none = Seq::<char>::empty();
    let whole = escape_text(joined(items));
    if items.len() == 1 {
        lemma_occurs_at_middle(none, whole, none);
        assert(none + whole + none =~= whole);
    } else {
        let front = items.drop_last();
        let head = escape_text(joined(front));
        let sep = escape_text(", "@);
        let last = escape_text(items.last());
        lemma_escape_joined(items);
        if i < items.len() - 1 {
            lemma_item_in_joined(front, i);
            lemma_occurs_in_widen(escape_text(front[i]), head, none, sep + last);
            assert(none + head + (sep + last) =~= whole);
        } else {
            lemma_occurs_at_middle(head + sep, last, none);
            assert(head + sep + last + none =~= whole);
        }
    }
}

/// Of two items of a list, the earlier stands before the later in the escaped
/// form of the joined list.
proof fn lemma_items_in_order_in_joined(items: Seq<Seq<char>>, i: int, j: int)
    requires
        0 <= i < j < items.len(),
    ensures
        occur_in_order(escape_text(items[i]), escape_text(items[j]), escape_text(joined(items))),
    decreases items.len(),
{
    let none = Seq::<char>::empty();
    let whole = escape_text(joined(items));
    let front = items.drop_last();
    let head = escape_text(joined(front));
    let sep = escape_text(", "@);
    let last = escape_text(items.last());
    lemma_escape_joined(items);
    if j < items.len() - 1 {
        lemma_items_in_order_in_joined(front, i, j);
        lemma_occur_in_order_widen(
            escape_text(front[i]),
            escape_text(front[j]),
            head,
            none,
            sep + last,
        );
        assert(none + head + (sep + last) =~= whole);
    } else {
        lemma_item_in_joined(front, i);
        let first = escape_text(front[i]);
        let at = choose|at: int| occurs_at(first, head, at);
        lemma_occurs_at_widen(first, head, at, none, sep + last);
        assert(none + head + (sep + last) =~= whole);
        lemma_occurs_at_middle(head + sep, last, none);
        assert(head + sep + last + none =~= whole);
        assert(occurs_at(first, whole, at));
        assert(occurs_at(last, whole, (head + sep).len() as int));
    }
}

/// The escaped form of the joined cookie entries stands in the page.
proof fn lemma_joined_in_page(info: ClientInfoView)
    ensures
        occurs_in(escape_text(joined(info.cookies)), page_text(info)),
{
    let list = escape_text(joined(info.cookies));
    lemma_escape_concat("["@ + joined(info.cookies), "]"@);
    lemma_escape_concat("["@, joined(info.cookies));
    lemma_occurs_at_middle(escape_text("["@), list, escape_text("]"@));
    lemma_value_in_paragraph("Cookies"@, cookie_list(info.cookies));
    lemma_occurs_in_nested(list, escape_text(cookie_list(info.cookies)), cookie_row(info));
    lemma_rows_in_page(info);
    lemma_occurs_in_nested(list, cookie_row(info), page_text(info));
}

/// Every cookie entry stands in the page in its escaped form, and as it is
/// where it holds no markup character.
pub proof fn lemma_cookie_is_shown(info: ClientInfoView, i: int)
    requires
        0 <= i < info.cookies.len(),
    ensures
        occurs_in(escape_text(info.cookies[i]), page_text(info)),
        is_plain(info.cookies[i]) ==> occurs_in(info.cookies[i], page_text(info)),
{
    lemma_item_in_joined(info.cookies, i);
    lemma_joined_in_page(info);
    lemma_occurs_in_nested(
        escape_text(info.cookies[i]),
        escape_text(joined(info.cookies)),
        page_text(info),
    );
    if is_plain(info.cookies[i]) {
        lemma_escape_plain(info.cookies[i]);
    }
}

/// The cookie entries stand in the page in the order of the snapshot: of two
/// entries, the earlier one is shown before the later one.
pub proof fn lemma_cookies_are_shown_in_order(info: ClientInfoView, i: int, j: int)
    requires
        0 <= i < j < info.cookies.len(),
    ensures
        occur_in_order(
            escape_text(info.cookies[i]),
            escape_text(info.cookies[j]),
            page_text(info),
        ),
{
    lemma_items_in_order_in_joined(info.cookies, i, j);
    lemma_joined_in_page(info);
    lemma_occur_in_order_nested(
        escape_text(info.cookies[i]),
        escape_text(info.cookies[j]),
        escape_text(joined(info.cookies)),
        page_text(info),
    );
}

/// Every cookie of a request stands in the page that answers it, as
/// `name=value` in escaped form. `cookies` are the cookies of the request,
/// `info` is a snapshot that was read from them in some order.
pub proof fn lemma_request_cookie_is_shown(
    cookies: Multiset<(Seq<char>, Seq<char>)>,
    info: ClientInfoView,
    name: Seq<char>,
    value: Seq<char>,
)
    requires
        exists|pairs: Seq<(Seq<char>, Seq<char>)>|
            #[trigger] pairs.to_multiset() == cookies && info.cookies == cookie_entries(pairs),
        cookies.count((name, value)) > 0,
    ensures
        occurs_in(escape_text(cookie_entry(name, value)), page_text(info)),
{
    let pairs = choose|pairs: Seq<(Seq<char>, Seq<char>)>|
        #[trigger] pairs.to_multiset() == cookies && info.cookies == cookie_entries(pairs);
    pairs.to_multiset_ensures();
    assert(pairs.contains((name, value)));
    let i = choose|i: int| 0 <= i < pairs.len() && pairs[i] == (name, value);
    assert(info.cookies[i] == cookie_entry(name, value));
    lemma_cookie_is_shown(info, i);
}

} // verus!
