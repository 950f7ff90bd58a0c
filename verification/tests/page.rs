use client_info::page::list_cookies;
use client_info::{index, ClientInfo};

fn snapshot(
    ip_address: Option<&str>,
    user_agent: Option<&str>,
    cloudflare_ip: Option<&str>,
    cookies: &[&str],
) -> ClientInfo {
    ClientInfo {
        ip_address: ip_address.map(|s| s.to_string()),
        user_agent: user_agent.map(|s| s.to_string()),
        cloudflare_ip: cloudflare_ip.map(|s| s.to_string()),
        cookies: cookies.iter().map(|s| s.to_string()).collect(),
    }
}

fn expected_page(ip: &str, agent: &str, forwarded: &str, cookies: &str) -> String {
    let mut page = String::new();
    page.push_str("<!DOCTYPE html>\n");
    page.push_str("        <html lang=\"en\">\n");
    page.push_str("        <head>\n");
    page.push_str("            <meta charset=\"UTF-8\">\n");
    page.push_str("            <meta name=\"viewport\" content=\"width=device-width, initial-scale=1.0\">\n");
    page.push_str("            <title>Client Info</title>\n");
    page.push_str("            <link rel=\"stylesheet\" href=\"https://unpkg.com/missing.css@1.1.1/dist/missing.min.css\">\n");
    page.push_str("        </head>\n");
    page.push_str("        <body>\n");
    page.push_str("            <header>\n");
    page.push_str("            </header>\n");
    page.push_str("            \n");
    page.push_str("            <main>\n");
    page.push_str("                <h1>Client Information</h1>\n");
    page.push_str(&format!("                <p>IP Address: {}</p>\n", ip));
    page.push_str(&format!("                <p>User Agent: {}</p>\n", agent));
    page.push_str(&format!("                <p>Cloudflare IP: {}</p>\n", forwarded));
    page.push_str(&format!("                <p>Cookies: {}</p>\n", cookies));
    page.push_str("            </main>\n");
    page.push_str("\n");
    page.push_str("            <footer>\n");
    page.push_str("            </footer>\n");
    page.push_str("        </body>\n");
    page.push_str("        </html>");
    page
}

#[test]
fn index_renders_the_whole_page() {
    let page = index(snapshot(
        Some("203.0.113.5"),
        Some("curl/8.4.0"),
        Some("198.51.100.7"),
        &["a=1", "b=2"],
    ));
    assert_eq!(
        page.body,
        expected_page("203.0.113.5", "curl/8.4.0", "198.51.100.7", "[a=1, b=2]")
    );
}

#[test]
fn index_renders_the_page_of_an_empty_snapshot() {
    let page = index(snapshot(None, None, None, &[]));
    assert_eq!(
        page.body,
        expected_page("Unknown IP Address", "Unknown User Agent", "Unknown Cloudflare IP", "[]")
    );
}

#[test]
fn index_answers_200_whatever_is_missing() {
    let present = [Some("x"), None];
    for ip in present {
        for agent in present {
            for forwarded in present {
                for cookies in [&["a=1"][..], &[][..]] {
                    let page = index(snapshot(ip, agent, forwarded, cookies));
                    assert_eq!(page.status, 200);
                }
            }
        }
    }
}

#[test]
fn index_answers_with_html() {
    let page = index(snapshot(None, None, None, &[]));
    assert_eq!(page.content_type, "text/html; charset=utf-8");
    assert!(page.body.starts_with("<!DOCTYPE html>"));
    assert!(page.body.ends_with("</html>"));
}

#[test]
fn index_names_a_missing_user_agent() {
    let page = index(snapshot(Some("203.0.113.5"), None, Some("198.51.100.7"), &["a=1"]));
    assert!(page.body.contains("Unknown User Agent"));
    assert!(page.body.contains("<p>User Agent: Unknown User Agent</p>"));
    assert!(!page.body.contains("<p>User Agent: </p>"));
}

#[test]
fn index_names_a_missing_cloudflare_ip() {
    let page = index(snapshot(Some("203.0.113.5"), Some("curl/8.4.0"), None, &["a=1"]));
    assert!(page.body.contains("Unknown Cloudflare IP"));
    assert!(page.body.contains("<p>Cloudflare IP: Unknown Cloudflare IP</p>"));
}

#[test]
fn index_names_a_missing_ip_address() {
    let page = index(snapshot(None, Some("curl/8.4.0"), Some("198.51.100.7"), &[]));
    assert!(page.body.contains("<p>IP Address: Unknown IP Address</p>"));
}

#[test]
fn index_uses_no_placeholder_for_what_is_present() {
    let page = index(snapshot(
        Some("203.0.113.5"),
        Some("curl/8.4.0"),
        Some("198.51.100.7"),
        &[],
    ));
    assert!(!page.body.contains("Unknown"));
}

#[test]
fn index_shows_an_empty_value_as_empty() {
    let page = index(snapshot(None, Some(""), None, &[]));
    assert!(page.body.contains("<p>User Agent: </p>"));
    assert!(!page.body.contains("Unknown User Agent"));
}

#[test]
fn index_shows_the_peer_address() {
    let page = index(snapshot(Some("203.0.113.5"), None, None, &[]));
    assert!(page.body.contains("203.0.113.5"));
    assert!(page.body.contains("<p>IP Address: 203.0.113.5</p>"));
}

#[test]
fn index_shows_cookies_in_the_order_received() {
    let page = index(snapshot(None, None, None, &["a=1", "b=2"]));
    let first = page.body.find("a=1").expect("the first cookie is shown");
    let second = page.body.find("b=2").expect("the second cookie is shown");
    assert!(first < second);
    assert!(page.body.contains("<p>Cookies: [a=1, b=2]</p>"));

    let page = index(snapshot(None, None, None, &["b=2", "a=1"]));
    let first = page.body.find("b=2").expect("the first cookie is shown");
    let second = page.body.find("a=1").expect("the second cookie is shown");
    assert!(first < second);
    assert!(page.body.contains("<p>Cookies: [b=2, a=1]</p>"));
}

#[test]
fn index_shows_an_empty_cookie_list() {
    let page = index(snapshot(None, None, None, &[]));
    assert!(page.body.contains("<p>Cookies: []</p>"));
}

#[test]
fn index_escapes_every_value() {
    let page = index(snapshot(
        Some("<i>"),
        Some("<script>alert('x')</script>"),
        Some("\"quoted\" & more"),
        &["a=</p><p>", "b=2"],
    ));
    assert_eq!(
        page.body,
        expected_page(
            "&lt;i&gt;",
            "&lt;script&gt;alert(&#x27;x&#x27;)&lt;/script&gt;",
            "&quot;quoted&quot; &amp; more",
            "[a=&lt;/p&gt;&lt;p&gt;, b=2]",
        )
    );
    assert!(!page.body.contains("<script>"));
    assert_eq!(page.body.matches("<p>").count(), 4);
    assert_eq!(page.body.matches("</p>").count(), 4);
}

#[test]
fn list_cookies_of_nothing() {
    assert_eq!(list_cookies(&vec![]), "[]");
}

#[test]
fn list_cookies_of_one_entry() {
    assert_eq!(list_cookies(&vec!["a=1".to_string()]), "[a=1]");
}

#[test]
fn list_cookies_separates_entries() {
    let entries = vec!["a=1".to_string(), "b=2".to_string(), "c=3".to_string()];
    assert_eq!(list_cookies(&entries), "[a=1, b=2, c=3]");
}

#[test]
fn list_cookies_does_not_escape() {
    assert_eq!(list_cookies(&vec!["a=<1>".to_string()]), "[a=<1>]");
}
