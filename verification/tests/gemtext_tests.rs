use gemini_gateway::escape::escape_text;
use gemini_gateway::gemtext::parse_document_to_gems;
use gemini_gateway::link::decode_link_line;

fn render(doc: &str) -> String {
    parse_document_to_gems(&doc.to_string(), "example.org")
}

#[test]
fn escape_replaces_every_special_character() {
    assert_eq!(escape_text("a&b<c>d\"e'f"), "a&amp;b&lt;c&gt;d&quot;e&#39;f");
    assert_eq!(escape_text(""), "");
    assert_eq!(escape_text("plain"), "plain");
}

#[test]
fn heading_levels_render() {
    assert_eq!(render("# Hello"), "<h1>Hello</h1>");
    assert_eq!(render("## Two"), "<h2>Two</h2>");
    assert_eq!(render("### Hi"), "<h3>Hi</h3>");
    assert_eq!(render("###### Six"), "<h6>Six</h6>");
}

#[test]
fn heading_level_caps_at_six() {
    assert_eq!(render("####### x"), "<h6>x</h6>");
    assert_eq!(render("############ deep"), "<h6>deep</h6>");
}

#[test]
fn heading_without_a_space_emits_nothing() {
    assert_eq!(render("##"), "");
    assert_eq!(render("#abc"), "");
}

#[test]
fn heading_text_is_escaped() {
    assert_eq!(render("# a<b"), "<h1>a&lt;b</h1>");
}

#[test]
fn list_grouping_opens_once_and_closes_once() {
    assert_eq!(render("* a\n* b\nplain"), "<ul><li>a</li><li>b</li></ul><p>plain</p>");
}

#[test]
fn list_open_at_end_of_document_is_closed() {
    assert_eq!(render("* a\n* b"), "<ul><li>a</li><li>b</li></ul>");
}

#[test]
fn list_star_without_space_emits_nothing() {
    assert_eq!(render("*bare"), "");
}

#[test]
fn quote_lines_render_as_blockquotes() {
    assert_eq!(render("> wise words"), "<blockquote>wise words</blockquote>");
    assert_eq!(render(">bare"), "");
}

#[test]
fn web_links_are_left_direct() {
    assert_eq!(
        render("=> https://example.com Example"),
        "<a href=\"https://example.com\">Example</a><br>"
    );
}

#[test]
fn relative_links_are_routed_through_the_gateway() {
    assert_eq!(render("=> /foo.gmi Foo"), "<a href=\"?search=example.org/foo.gmi\">Foo</a><br>");
    assert_eq!(render("=> bar.gmi Bar"), "<a href=\"?search=example.org/bar.gmi\">Bar</a><br>");
}

#[test]
fn link_without_following_space_is_plain_text() {
    assert_eq!(render("=>x"), "<p>=&gt;x</p>");
    assert_eq!(render("=>"), "<p>=&gt;</p>");
}

#[test]
fn equals_without_arrow_emits_nothing() {
    assert_eq!(render("=x"), "");
}

#[test]
fn link_closes_an_open_list_first() {
    assert_eq!(
        render("* a\n=> /b B"),
        "<ul><li>a</li></ul><a href=\"?search=example.org/b\">B</a><br>"
    );
}

#[test]
fn preformatted_block_is_emitted_verbatim() {
    assert_eq!(
        render("```\n<script>x</script>\n```"),
        "<pre style=\"overflow: scroll;\"><script>x</script></pre>"
    );
}

#[test]
fn preformatted_block_left_open_at_end_stays_open() {
    assert_eq!(render("```\nraw <b>"), "<pre style=\"overflow: scroll;\">raw <b>");
}

#[test]
fn fence_closes_an_open_list() {
    assert_eq!(
        render("* a\n```\nx\n```"),
        "<ul><li>a</li></ul><pre style=\"overflow: scroll;\">x</pre>"
    );
}

#[test]
fn text_outside_preformat_is_always_escaped() {
    let html = render("<script>alert(1)</script>");
    assert!(!html.contains("<script>"));
    assert_eq!(html, "<p>&lt;script&gt;alert(1)&lt;/script&gt;</p>");
}

#[test]
fn plain_and_empty_lines_render_as_paragraphs() {
    assert_eq!(render("hello"), "<p>hello</p>");
    assert_eq!(render("a\n\nb"), "<p>a</p><p></p><p>b</p>");
}

#[test]
fn crlf_line_endings_are_handled() {
    assert_eq!(render("# A\r\n* b\r\n"), "<h1>A</h1><ul><li>b</li></ul>");
}

#[test]
fn link_line_splits_target_and_label() {
    assert_eq!(
        decode_link_line(" gemini://example.org/doc A nice page"),
        ("gemini://example.org/doc".to_string(), "A nice page".to_string())
    );
}

#[test]
fn link_line_single_token_has_empty_label() {
    assert_eq!(decode_link_line(" /only-target"), ("/only-target".to_string(), "".to_string()));
    assert_eq!(decode_link_line("/only-target"), ("/only-target".to_string(), "".to_string()));
}

#[test]
fn link_line_skips_extra_whitespace() {
    assert_eq!(decode_link_line("   /t   label here"), ("/t".to_string(), "label here".to_string()));
    assert_eq!(decode_link_line(""), ("".to_string(), "".to_string()));
    assert_eq!(decode_link_line("   "), ("".to_string(), "".to_string()));
}

#[test]
fn link_target_with_ampersand_is_escaped_in_href() {
    assert_eq!(
        render("=> https://example.com/a&b L"),
        "<a href=\"https://example.com/a&amp;b\">L</a><br>"
    );
}
