use clubsite::markdown::{markdown_filter, MarkdownFilterError};

#[test]
fn markdown_filter_renders_html() {
    let html = markdown_filter(Some("# Welcome\n\nPlay *disc golf*.")).ok().unwrap();
    assert_eq!(html, "<h1>Welcome</h1>\n<p>Play <em>disc golf</em>.</p>\n");
}

#[test]
fn markdown_filter_renders_tables() {
    let html = markdown_filter(Some("| a | b |\n|---|---|\n| 1 | 2 |\n")).ok().unwrap();
    assert!(html.contains("<table>"));
    assert!(html.contains("<td>1</td>"));
}

#[test]
fn markdown_filter_empty_text() {
    assert_eq!(markdown_filter(Some("")).ok().unwrap(), "");
}

#[test]
fn markdown_filter_refuses_non_strings() {
    assert!(matches!(markdown_filter(None), Err(MarkdownFilterError::NotAString)));
}
