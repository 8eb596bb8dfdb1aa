//! Links for the clipboard, and which one a request asks for.
use vstd::prelude::*;

use crate::chars::push_str;

verus! {

/// `[title](url)`.
pub open spec fn markdown_link(title: Seq<char>, url: Seq<char>) -> Seq<char> {
    "["@ + title + "]("@ + url + ")"@
}

/// `<a href="url">title</a>`.
pub open spec fn html_link(title: Seq<char>, url: Seq<char>) -> Seq<char> {
    "<a href=\""@ + url + "\">"@ + title + "</a>"@
}

/// A Markdown link to `url` labelled `title`.
pub fn format_markdown_link(title: &str, url: &str) -> (r: String)
    ensures
        r@ == markdown_link(title@, url@),
{
    let mut r = "[".to_owned();
    push_str(&mut r, title);
    push_str(&mut r, "](");
    push_str(&mut r, url);
    push_str(&mut r, ")");
    r
}

/// An HTML link to `url` labelled `title`.
pub fn format_html_link(title: &str, url: &str) -> (r: String)
    ensures
        r@ == html_link(title@, url@),
{
    let mut r = "<a href=\"".to_owned();
    push_str(&mut r, url);
    push_str(&mut r, "\">");
    push_str(&mut r, title);
    push_str(&mut r, "</a>");
    r
}

/// The form in which a link goes to the clipboard.
#[derive(Debug, Clone, Copy, PartialEq, Eq, Structural)]
pub enum LinkFormat {
    Markdown,
    RichText,
}

/// A link to put on the clipboard: its form and its text.
#[derive(Debug, Clone, PartialEq, Eq)]
pub struct ClipboardRequest {
    pub format: LinkFormat,
    pub text: String,
}

/// The link that the command `cmd` asks for, with `title` and `url`: none
/// unless the command is `markdown` or `richtext` and both values are set.
pub fn clipboard_request(cmd: Option<&str>, title: Option<&str>, url: Option<&str>) -> (r: Option<ClipboardRequest>)
    ensures
        r is Some <==> (cmd matches Some(c) && (c@ == "markdown"@ || c@ == "richtext"@) && title is Some && url is Some),
        r matches Some(q) ==> {
            if cmd->0@ == "markdown"@ {
                q.format == LinkFormat::Markdown && q.text@ == markdown_link(title->0@, url->0@)
            } else {
                q.format == LinkFormat::RichText && q.text@ == html_link(title->0@, url->0@)
            }
        },
{
    match (cmd, title, url) {
        (Some(c), Some(t), Some(u)) => {
            let c = c.to_owned();
            if c == "markdown".to_owned() {
                Some(ClipboardRequest { format: LinkFormat::Markdown, text: format_markdown_link(t, u) })
            } else if c == "richtext".to_owned() {
                Some(ClipboardRequest { format: LinkFormat::RichText, text: format_html_link(t, u) })
            } else {
                None
            }
        },
        _ => None,
    }
}

} // verus!
