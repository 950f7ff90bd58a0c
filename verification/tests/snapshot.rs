use client_info::snapshot::format_cookie;
use client_info::ClientInfo;

fn pair(name: &str, value: &str) -> (String, String) {
    (name.to_string(), value.to_string())
}

#[test]
fn format_cookie_joins_name_and_value() {
    assert_eq!(format_cookie("a", "1"), "a=1");
    assert_eq!(format_cookie("session", "abc=def"), "session=abc=def");
}

#[test]
fn format_cookie_keeps_empty_parts() {
    assert_eq!(format_cookie("flag", ""), "flag=");
    assert_eq!(format_cookie("", "value"), "=value");
    assert_eq!(format_cookie("", ""), "=");
}

#[test]
fn format_cookie_passes_values_through_verbatim() {
    assert_eq!(format_cookie("q", "<b> & \"c\""), "q=<b> & \"c\"");
}

#[test]
fn from_parts_keeps_values_verbatim() {
    let info = ClientInfo::from_parts(
        Some("203.0.113.5".to_string()),
        Some("curl/8.4.0 <test>".to_string()),
        Some("198.51.100.7".to_string()),
        &vec![pair("a", "1")],
    );
    assert_eq!(info.ip_address.as_deref(), Some("203.0.113.5"));
    assert_eq!(info.user_agent.as_deref(), Some("curl/8.4.0 <test>"));
    assert_eq!(info.cloudflare_ip.as_deref(), Some("198.51.100.7"));
    assert_eq!(info.cookies, vec!["a=1".to_string()]);
}

#[test]
fn from_parts_without_anything() {
    let info = ClientInfo::from_parts(None, None, None, &vec![]);
    assert_eq!(info.ip_address, None);
    assert_eq!(info.user_agent, None);
    assert_eq!(info.cloudflare_ip, None);
    assert!(info.cookies.is_empty());
}

#[test]
fn from_parts_keeps_an_empty_value_apart_from_a_missing_one() {
    let info = ClientInfo::from_parts(None, Some(String::new()), None, &vec![]);
    assert_eq!(info.user_agent.as_deref(), Some(""));
    assert_eq!(info.cloudflare_ip, None);
}

#[test]
fn from_parts_formats_cookies_in_order() {
    let info = ClientInfo::from_parts(None, None, None, &vec![pair("a", "1"), pair("b", "2")]);
    assert_eq!(info.cookies, vec!["a=1".to_string(), "b=2".to_string()]);
    let info = ClientInfo::from_parts(None, None, None, &vec![pair("b", "2"), pair("a", "1")]);
    assert_eq!(info.cookies, vec!["b=2".to_string(), "a=1".to_string()]);
}

#[test]
fn from_parts_keeps_repeated_cookies() {
    let info = ClientInfo::from_parts(
        None,
        None,
        None,
        &vec![pair("a", "1"), pair("a", "1"), pair("a", "2")],
    );
    assert_eq!(info.cookies, vec!["a=1".to_string(), "a=1".to_string(), "a=2".to_string()]);
}
