//! The diagnostic page that a failed command is reported with.

use vstd::prelude::*;
use vstd::string::*;

verus! {

pub const PAGE_OPEN: &'static str =
    "<!DOCTYPE html><html lang=\"ja\"><head><meta charset=\"utf-8\"><meta name=\"viewport\" content=\"width=device-width, initial-scale=1\"><style>";

pub const PAGE_STYLE: &'static str =
    "\n                body {margin: auto; width: 1000px;}\n                pre {\n                    background-color: #eee;\n                    border-radius: 3px;\n                    border: 1px solid black;\n                    padding: 2px;\n                }\n                code {\n                    font-family: courier, monospace;\n                    padding: 0 3px;\n                }\n                ";

pub const PAGE_HEADING: &'static str = "</style></head><body><h3>";

pub const PAGE_LOG: &'static str = "</h3><p>error log</p><pre><code>";

pub const PAGE_CLOSE: &'static str = "</code></pre></body></html>";

/// What stands for one character in HTML text: the entity for `&`, `<`, `>`
/// and `"`, the character itself otherwise.
pub open spec fn escaped_char(c: char) -> Seq<char> {
    if c == '&' {
        "&amp;"@
    } else if c == '<' {
        "&lt;"@
    } else if c == '>' {
        "&gt;"@
    } else if c == '"' {
        "&quot;"@
    } else {
        seq![c]
    }
}

/// A text with each character escaped for HTML.
pub open spec fn escaped(text: Seq<char>) -> Seq<char>
    decreases text.len(),
{
    if text.len() == 0 {
        Seq::empty()
    } else {
        escaped(text.drop_last()) + escaped_char(text.last())
    }
}

/// The characters that open or close a tag or an attribute value.
pub open spec fn is_markup_char(c: char) -> bool {
    c == '<' || c == '>' || c == '"'
}

/// Escaped text is inert: whatever the text was, none of its characters
/// opens or closes a tag or an attribute value.
pub proof fn lemma_escaped_is_inert(text: Seq<char>)
    ensures
        forall|i: int| 0 <= i < escaped(text).len() ==> !is_markup_char(#[trigger] escaped(text)[i]),
    decreases text.len(),
{
    if text.len() > 0 {
        lemma_escaped_is_inert(text.drop_last());
        reveal_strlit("&amp;");
        reveal_strlit("&lt;");
        reveal_strlit("&gt;");
        reveal_strlit("&quot;");
        let head = escaped(text.drop_last());
        let tail = escaped_char(text.last());
        assert forall|i: int| 0 <= i < escaped(text).len() implies !is_markup_char(
            #[trigger] escaped(text)[i],
        ) by {
            if i >= head.len() {
                assert(escaped(text)[i] == tail[i - head.len()]);
            }
        }
    }
}

/// The page for a message and a log that is markup already: the message is
/// escaped and set as the heading, the log is set as it is in a code block.
pub open spec fn error_page_text(message: Seq<char>, log_markup: Seq<char>) -> Seq<char> {
    PAGE_OPEN@ + PAGE_STYLE@ + PAGE_HEADING@ + escaped(message) + PAGE_LOG@ + log_markup
        + PAGE_CLOSE@
}

/// What `ansi_to_html::convert` makes of a text: the markup, or nothing
/// where it reports an error. With `escaped` it escapes the characters that
/// HTML reads as markup before it converts; with `optimized` it takes out
/// tags that are of no use afterwards.
pub uninterp spec fn ansi_markup(text: Seq<char>, escaped: bool, optimized: bool) -> Option<Seq<char>>;

/// `ansi_to_html::Error`, as a value that is carried and never looked into.
#[verifier::external_type_specification]
#[verifier::external_body]
pub struct ExAnsiError(ansi_to_html::Error);

/// `ansi_to_html::convert`. Its result is a function of the text and the
/// two flags alone: the markup on success, an error for an escape sequence
/// that it does not accept.
#[verifier::external_body]
fn convert_ansi(
    text: &str,
    escaped: bool,
    optimized: bool,
) -> (converted: Result<String, ansi_to_html::Error>)
    ensures
        match converted {
            Ok(markup) => ansi_markup(text@, escaped, optimized) == Some(markup@),
            Err(_) => ansi_markup(text@, escaped, optimized) is None,
        },
{
    ansi_to_html::convert(text, escaped, optimized)
}

/// `maud::Render::render` on a string slice: `&`, `<`, `>` and `"` are
/// replaced by their entities, every other character is kept.
#[verifier::external_body]
fn escape(text: &str) -> (markup: String)
    ensures
        markup@ == escaped(text@),
{
    maud::Render::render(text).into_string()
}

/// The inert markup that stands for a log: what the converter makes of it
/// with escaping on and with every tag left in, or the escaped log where the
/// converter gave nothing.
pub open spec fn log_markup(log: Seq<char>) -> Seq<char> {
    match ansi_markup(log, true, false) {
        Some(markup) => markup,
        None => escaped(log),
    }
}

/// Chooses the markup for a log from what the converter gave for it.
pub fn markup_or_escaped(converted: Option<String>, log: &str) -> (markup: String)
    ensures
        markup@ == match converted {
            Some(m) => m@,
            None => escaped(log@),
        },
{
    match converted {
        Some(m) => m,
        None => escape(log),
    }
}

/// Renders a captured log as inert markup: terminal colour sequences become
/// styled spans, and characters that HTML reads as markup are escaped.
pub fn inert_markup(log: &str) -> (markup: String)
    ensures
        markup@ == log_markup(log@),
{
    let converted = match convert_ansi(log, true, false) {
        Ok(m) => Some(m),
        Err(_) => None,
    };
    markup_or_escaped(converted, log)
}

/// Builds the page from a message and a log that is markup already.
pub fn error_page(message: &str, log_markup: &str) -> (page: String)
    ensures
        page@ == error_page_text(message@, log_markup@),
{
    let mut page = String::from_str(PAGE_OPEN);
    page.append(PAGE_STYLE);
    page.append(PAGE_HEADING);
    let heading = escape(message);
    page.append(heading.as_str());
    page.append(PAGE_LOG);
    page.append(log_markup);
    page.append(PAGE_CLOSE);
    page
}

/// Builds the diagnostic page for a message and the raw log of a command.
pub fn create_error_page(message: &str, stderr: &str) -> (page: String)
    ensures
        page@ == error_page_text(message@, log_markup(stderr@)),
{
    let log = inert_markup(stderr);
    error_page(message, log.as_str())
}

} // verus!
