use diary_sync::page::{create_error_page, error_page, inert_markup, markup_or_escaped};

const HEAD: &str = "<!DOCTYPE html><html lang=\"ja\"><head><meta charset=\"utf-8\"><meta name=\"viewport\" content=\"width=device-width, initial-scale=1\"><style>\n                body {margin: auto; width: 1000px;}\n                pre {\n                    background-color: #eee;\n                    border-radius: 3px;\n                    border: 1px solid black;\n                    padding: 2px;\n                }\n                code {\n                    font-family: courier, monospace;\n                    padding: 0 3px;\n                }\n                </style></head><body><h3>";

fn page(heading: &str, log: &str) -> String {
    format!("{}{}</h3><p>error log</p><pre><code>{}</code></pre></body></html>", HEAD, heading, log)
}

#[test]
fn error_page_sets_message_and_log() {
    assert_eq!(error_page("it failed", "<b>log</b>"), page("it failed", "<b>log</b>"));
}

#[test]
fn error_page_of_empty_parts() {
    assert_eq!(error_page("", ""), page("", ""));
}

#[test]
fn error_page_escapes_the_message() {
    assert_eq!(
        error_page("a < b && \"c\" > 'd'", ""),
        page("a &lt; b &amp;&amp; &quot;c&quot; &gt; 'd'", "")
    );
}

#[test]
fn error_page_keeps_other_characters_of_the_message() {
    assert_eq!(error_page("\u{65e5}\u{8a18} \u{1f600}", ""), page("\u{65e5}\u{8a18} \u{1f600}", ""));
}

#[test]
fn plain_log_is_kept() {
    assert_eq!(inert_markup("fatal: not a git repository"), "fatal: not a git repository");
    assert_eq!(inert_markup(""), "");
}

#[test]
fn markup_in_the_log_is_escaped() {
    assert_eq!(
        inert_markup("<script>alert('x' & \"y\")</script>"),
        "&lt;script&gt;alert(&#39;x&#39; &amp; &quot;y&quot;)&lt;/script&gt;"
    );
}

#[test]
fn colour_sequences_become_spans() {
    assert_eq!(
        inert_markup("\u{1b}[31mfatal\u{1b}[0m: <bad>"),
        "<span style='color:#a00'>fatal</span>: &lt;bad&gt;"
    );
    assert_eq!(inert_markup("\u{1b}[1mX"), "<b>X</b>");
}

#[test]
fn sequences_without_a_style_are_dropped() {
    assert_eq!(inert_markup("a\u{1b}[2Kb"), "ab");
}

#[test]
fn log_that_the_converter_rejects_is_escaped() {
    assert_eq!(inert_markup("\u{1b}[999m<x> & y"), "\u{1b}[999m&lt;x&gt; &amp; y");
}

#[test]
fn markup_or_escaped_takes_the_markup() {
    assert_eq!(markup_or_escaped(Some("<i>m</i>".to_string()), "<raw>"), "<i>m</i>");
}

#[test]
fn markup_or_escaped_falls_back_to_escaping() {
    assert_eq!(markup_or_escaped(None, "<raw> & \"q\""), "&lt;raw&gt; &amp; &quot;q&quot;");
}

#[test]
fn create_error_page_from_message_and_log() {
    assert_eq!(
        create_error_page("failed to run command: git push origin HEAD", "\u{1b}[31merror\u{1b}[0m: <remote>"),
        page(
            "failed to run command: git push origin HEAD",
            "<span style='color:#a00'>error</span>: &lt;remote&gt;"
        )
    );
}

#[test]
fn create_error_page_is_inert() {
    let made = create_error_page("<h1>", "</code></pre><script>x</script>");
    assert_eq!(made, page("&lt;h1&gt;", "&lt;/code&gt;&lt;/pre&gt;&lt;script&gt;x&lt;/script&gt;"));
    assert!(!made.contains("<script>"));
}
