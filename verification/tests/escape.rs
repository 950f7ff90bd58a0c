use client_info::escape::escape_html;

#[test]
fn escape_leaves_plain_text_alone() {
    let text = "Mozilla/5.0 (X11; Linux x86_64; rv:109.0) Gecko/20100101 Firefox/115.0";
    assert_eq!(escape_html(text), text);
}

#[test]
fn escape_of_empty_text_is_empty() {
    assert_eq!(escape_html(""), "");
}

#[test]
fn escape_replaces_each_markup_character() {
    assert_eq!(escape_html("&"), "&amp;");
    assert_eq!(escape_html("<"), "&lt;");
    assert_eq!(escape_html(">"), "&gt;");
    assert_eq!(escape_html("\""), "&quot;");
    assert_eq!(escape_html("'"), "&#x27;");
    assert_eq!(escape_html("&<>\"'"), "&amp;&lt;&gt;&quot;&#x27;");
}

#[test]
fn escape_keeps_the_order_of_what_it_leaves() {
    assert_eq!(escape_html("a<b>c"), "a&lt;b&gt;c");
    assert_eq!(escape_html("1 < 2 && 3 > 2"), "1 &lt; 2 &amp;&amp; 3 &gt; 2");
}

#[test]
fn escape_keeps_characters_outside_ascii() {
    assert_eq!(escape_html("Gr\u{fc}\u{df}e <\u{4f60}\u{597d}>"), "Gr\u{fc}\u{df}e &lt;\u{4f60}\u{597d}&gt;");
}

#[test]
fn escape_does_not_read_references() {
    assert_eq!(escape_html("&amp;"), "&amp;amp;");
    assert_eq!(escape_html("&lt;"), "&amp;lt;");
}

#[test]
fn escape_of_a_tag_holds_no_delimiter() {
    let out = escape_html("<script src='x.js'>alert(\"hi\")</script>");
    assert_eq!(
        out,
        "&lt;script src=&#x27;x.js&#x27;&gt;alert(&quot;hi&quot;)&lt;/script&gt;"
    );
    assert!(!out.contains('<'));
    assert!(!out.contains('>'));
    assert!(!out.contains('"'));
    assert!(!out.contains('\''));
}

#[test]
fn escape_goes_through_concatenation() {
    let a = "say \"hi\" & ";
    let b = "<wave>";
    let whole = format!("{}{}", a, b);
    assert_eq!(escape_html(&whole), format!("{}{}", escape_html(a), escape_html(b)));
}
