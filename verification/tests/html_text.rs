use merchant::html_text::parse_html_to_raw_text;

#[test]
fn test_simple_span() {
    assert_eq!(parse_html_to_raw_text("<span>Hello</span>"), "Hello");
}

#[test]
fn test_nested_spans() {
    assert_eq!(
        parse_html_to_raw_text("<span>Hello <span>World</span></span>"),
        "Hello World"
    );
}

#[test]
fn test_br_tags() {
    assert_eq!(parse_html_to_raw_text("Hello<br />World"), "Hello\nWorld");
    assert_eq!(parse_html_to_raw_text("Hello<br/>World"), "Hello\nWorld");
    assert_eq!(parse_html_to_raw_text("Hello<br>World"), "Hello\nWorld");
    assert_eq!(parse_html_to_raw_text("Hello<BR />World"), "Hello\nWorld");
}

#[test]
fn test_html_entities() {
    assert_eq!(parse_html_to_raw_text("Hello&nbsp;World"), "Hello World");
    assert_eq!(parse_html_to_raw_text("&lt;script&gt;"), "<script>");
    assert_eq!(parse_html_to_raw_text("&amp;&amp;"), "&&");
    assert_eq!(parse_html_to_raw_text("&quot;quoted&quot;"), "\"quoted\"");
    assert_eq!(parse_html_to_raw_text("it&#39;s"), "it's");
    assert_eq!(parse_html_to_raw_text("it&apos;s"), "it's");
}

#[test]
fn test_mixed_content() {
    assert_eq!(
        parse_html_to_raw_text("<span class=\"bold\">Bold</span>&nbsp;text"),
        "Bold text"
    );
    assert_eq!(
        parse_html_to_raw_text("<span style=\"color: red\">Red</span><br /><span>Normal</span>"),
        "Red\nNormal"
    );
}

#[test]
fn test_no_html() {
    assert_eq!(parse_html_to_raw_text("Plain text"), "Plain text");
    assert_eq!(parse_html_to_raw_text(""), "");
}

#[test]
fn test_incomplete_tags() {
    assert_eq!(parse_html_to_raw_text("Hello < World"), "Hello < World");
    assert_eq!(parse_html_to_raw_text("Hello & World"), "Hello & World");
}

#[test]
fn test_complex_html() {
    let html = "<span class=\"bold underline\" style=\"color: red\">Styled</span>";
    assert_eq!(parse_html_to_raw_text(html), "Styled");

    let html2 = "Normal&nbsp;<span class=\"bold\">Bold</span>&nbsp;<span class=\"underline\">Underline</span>";
    assert_eq!(parse_html_to_raw_text(html2), "Normal Bold Underline");
}

#[test]
fn test_multiple_br_tags() {
    assert_eq!(
        parse_html_to_raw_text("<br /><br />&nbsp;&nbsp;&nbsp;&nbsp;&nbsp;X"),
        "\n\n     X"
    );
}

#[test]
fn test_html_renderer_output() {
    let html = "Hello,&nbsp;World!<br />";
    assert_eq!(parse_html_to_raw_text(html), "Hello, World!\n");

    let html2 = "<span style=\"color: red\">Red</span>&nbsp;<span style=\"color: #00f\">Blue</span>";
    assert_eq!(parse_html_to_raw_text(html2), "Red Blue");
}

#[test]
fn test_escaped_html_in_content() {
    let html = "&lt;script&gt;alert(&#39;xss&#39;)&lt;/script&gt;";
    assert_eq!(parse_html_to_raw_text(html), "<script>alert('xss')</script>");
}

#[test]
fn test_div_tags() {
    assert_eq!(parse_html_to_raw_text("<div>Content</div>"), "Content");
    assert_eq!(
        parse_html_to_raw_text("<div>Line1</div><div>Line2</div>"),
        "Line1Line2"
    );
}

#[test]
fn test_self_closing_tags() {
    assert_eq!(parse_html_to_raw_text("Before<br/>After"), "Before\nAfter");
    assert_eq!(parse_html_to_raw_text("Before<img />After"), "BeforeAfter");
}

#[test]
fn unknown_entity_stays_as_written() {
    assert_eq!(parse_html_to_raw_text("a&copy;b"), "a&copy;b");
}

#[test]
fn entity_name_too_long_is_not_decoded() {
    assert_eq!(parse_html_to_raw_text("&abcdefghij;"), "&abcdefghij;");
}
