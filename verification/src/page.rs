//! The page that shows a snapshot.
//!
//! The page is a fixed HTML document with four rows, one for each part of the
//! snapshot. A part that the request lacked is shown as a placeholder. Every
//! value is escaped before it is put into its row, so nothing that a request
//! carries can end the row or open a tag.

use crate::escape::{escape_html, escape_text};
use crate::snapshot::{ClientInfo, ClientInfoView};
use crate::text::{text_of, texts};
use vstd::prelude::*;

verus! {

broadcast use vstd::string::group_string_axioms;

/// The page up to its first row.
pub const PAGE_HEAD: &'static str =
    "<!DOCTYPE html>
        <html lang=\"en\">
        <head>
            <meta charset=\"UTF-8\">
            <meta name=\"viewport\" content=\"width=device-width, initial-scale=1.0\">
            <title>Client Info</title>
            <link rel=\"stylesheet\" href=\"https://unpkg.com/missing.css@1.1.1/dist/missing.min.css\">
        </head>
        <body>
            <header>
            </header>
            
            <main>
                <h1>Client Information</h1>
                ";

/// What stands between two rows.
pub const ROW_GAP: &'static str = "
                ";

/// The page behind its last row.
pub const PAGE_TAIL: &'static str = "
            </main>

            <footer>
            </footer>
        </body>
        </html>";

/// Shown where the peer address is not known.
pub const UNKNOWN_IP_ADDRESS: &'static str = "Unknown IP Address";

/// Shown where the request has no `User-Agent` header.
pub const UNKNOWN_USER_AGENT: &'static str = "Unknown User Agent";

/// Shown where the request has no `CF-Connecting-IP` header.
pub const UNKNOWN_CLOUDFLARE_IP: &'static str = "Unknown Cloudflare IP";

/// The media type of the page.
pub const MEDIA_TYPE_HTML: &'static str = "text/html; charset=utf-8";

/// An answer to a request for the page.
#[derive(Debug, Clone)]
pub struct Page {
    /// The HTTP status code.
    pub status: u16,
    /// The value of the `Content-Type` header.
    pub content_type: String,
    /// The HTML document.
    pub body: String,
}

/// A value, or the placeholder where there is none.
pub open spec fn shown(value: Option<Seq<char>>, placeholder: Seq<char>) -> Seq<char> {
    match value {
        Some(value) => value,
        None => placeholder,
    }
}

/// The items of a list, with `, ` between each two.
pub open spec fn joined(items: Seq<Seq<char>>) -> Seq<char>
    decreases items.len(),
{
    if items.len() == 0 {
        Seq::empty()
    } else if items.len() == 1 {
        items[0]
    } else {
        joined(items.drop_last()) + ", "@ + items.last()
    }
}

/// The cookie entries as one text: in square brackets, in their order, with
/// `, ` between each two.
pub open spec fn cookie_list(entries: Seq<Seq<char>>) -> Seq<char> {
    "["@ + joined(entries) + "]"@
}

/// One row: a paragraph with a label and an escaped value.
pub open spec fn paragraph(label: Seq<char>, value: Seq<char>) -> Seq<char> {
    "<p>"@ + label + ": "@ + escape_text(value) + "</p>"@
}

/// The row of the peer address.
pub open spec fn ip_row(info: ClientInfoView) -> Seq<char> {
    paragraph("IP Address"@, shown(info.ip_address, UNKNOWN_IP_ADDRESS@))
}

/// The row of the user agent.
pub open spec fn agent_row(info: ClientInfoView) -> Seq<char> {
    paragraph("User Agent"@, shown(info.user_agent, UNKNOWN_USER_AGENT@))
}

/// The row of the forwarded address.
pub open spec fn forwarded_row(info: ClientInfoView) -> Seq<char> {
    paragraph("Cloudflare IP"@, shown(info.cloudflare_ip, UNKNOWN_CLOUDFLARE_IP@))
}

/// The row of the cookies.
pub open spec fn cookie_row(info: ClientInfoView) -> Seq<char> {
    paragraph("Cookies"@, cookie_list(info.cookies))
}

/// The HTML document that shows a snapshot.
pub open spec fn page_text(info: ClientInfoView) -> Seq<char> {
    PAGE_HEAD@ + ip_row(info) + ROW_GAP@ + agent_row(info) + ROW_GAP@ + forwarded_row(info)
        + ROW_GAP@ + cookie_row(info) + PAGE_TAIL@
}

/// Writes the cookie entries as one text.
pub fn list_cookies(entries: &Vec<String>) -> (list: String)
    ensures
        list@ == cookie_list(texts(entries@)),
{
    let ghost items = texts(entries@);
    let mut list = String::from_str("[");
    for i in 0..entries.len()
        invariant
            items == texts(entries@),
            list@ == "["@ + joined(items.take(i as int)),
    {
        proof {
            assert(items.take(i + 1).drop_last() =~= items.take(i as int));
            assert(items.take(i + 1).last() == entries@[i as int]@);
        }
        if i > 0 {
            list.append(", ");
        }
        list.append(entries[i].as_str());
        proof {
            if i == 0 {
                assert(joined(items.take(0)) =~= Seq::<char>::empty());
                assert(list@ =~= "["@ + joined(items.take(1)));
            } else {
                assert(list@ =~= "["@ + joined(items.take(i + 1)));
            }
        }
    }
    proof {
        assert(items.take(entries@.len() as int) =~= items);
    }
    list.append("]");
    list
}

/// Adds one row to a document.
fn write_paragraph(out: &mut String, label: &str, value: &str)
    ensures
        final(out)@ == old(out)@ + paragraph(label@, value@),
{
    let escaped = escape_html(value);
    out.append("<p>");
    out.append(label);
    out.append(": ");
    out.append(escaped.as_str());
    out.append("</p>");
    assert(out@ =~= old(out)@ + paragraph(label@, value@));
}

/// Adds the row of an optional value to a document.
fn write_row(out: &mut String, label: &str, value: &Option<String>, placeholder: &str)
    ensures
        final(out)@ == old(out)@ + paragraph(
            label@,
            shown(text_of(*value), placeholder@),
        ),
{
    match value {
        Some(value) => write_paragraph(out, label, value.as_str()),
        None => write_paragraph(out, label, placeholder),
    }
}

/// Renders the page for a snapshot. Every snapshot has a page, whatever it
/// lacks: the answer always has status 200, and its body is the document that
/// `page_text` describes.
pub fn index(client_info: ClientInfo) -> (page: Page)
    ensures
        page.status == 200,
        page.content_type@ == MEDIA_TYPE_HTML@,
        page.body@ == page_text(client_info@),
{
    let mut body = String::from_str(PAGE_HEAD);
    write_row(&mut body, "IP Address", &client_info.ip_address, UNKNOWN_IP_ADDRESS);
    body.append(ROW_GAP);
    write_row(&mut body, "User Agent", &client_info.user_agent, UNKNOWN_USER_AGENT);
    body.append(ROW_GAP);
    write_row(&mut body, "Cloudflare IP", &client_info.cloudflare_ip, UNKNOWN_CLOUDFLARE_IP);
    body.append(ROW_GAP);
    let list = list_cookies(&client_info.cookies);
    write_paragraph(&mut body, "Cookies", list.as_str());
    body.append(PAGE_TAIL);
    Page { status: 200, content_type: String::from_str(MEDIA_TYPE_HTML), body }
}

} // verus!
