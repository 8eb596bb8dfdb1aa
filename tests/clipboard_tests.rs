use alfrusco::clipboard::{clipboard_request, format_html_link, format_markdown_link, LinkFormat};

#[test]
fn test_format_markdown_link() {
    assert_eq!(
        format_markdown_link("Test Title", "https://example.com"),
        "[Test Title](https://example.com)"
    );
    assert_eq!(
        format_markdown_link(
            "Title [with] brackets",
            "https://example.com/path?q=test&p=1"
        ),
        "[Title [with] brackets](https://example.com/path?q=test&p=1)"
    );
    assert_eq!(format_markdown_link("", ""), "[]()");
}

#[test]
fn test_format_html_link() {
    assert_eq!(
        format_html_link("Test Title", "https://example.com"),
        "<a href=\"https://example.com\">Test Title</a>"
    );
    assert_eq!(
        format_html_link("Title <with> HTML", "https://example.com/path?q=test&p=1"),
        "<a href=\"https://example.com/path?q=test&p=1\">Title <with> HTML</a>"
    );
    assert_eq!(format_html_link("", ""), "<a href=\"\"></a>");
}

#[test]
fn clipboard_request_markdown() {
    let r = clipboard_request(Some("markdown"), Some("Rust"), Some("https://rust-lang.org")).unwrap();
    assert_eq!(r.format, LinkFormat::Markdown);
    assert_eq!(r.text, "[Rust](https://rust-lang.org)");
}

#[test]
fn clipboard_request_richtext() {
    let r = clipboard_request(Some("richtext"), Some("Rust"), Some("https://rust-lang.org")).unwrap();
    assert_eq!(r.format, LinkFormat::RichText);
    assert_eq!(r.text, "<a href=\"https://rust-lang.org\">Rust</a>");
}

#[test]
fn clipboard_request_missing_or_unknown() {
    assert!(clipboard_request(Some("markdown"), None, Some("u")).is_none());
    assert!(clipboard_request(Some("markdown"), Some("t"), None).is_none());
    assert!(clipboard_request(None, Some("t"), Some("u")).is_none());
    assert!(clipboard_request(Some("unknown"), Some("t"), Some("u")).is_none());
}
