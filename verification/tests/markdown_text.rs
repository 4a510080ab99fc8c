use avid_rustacean::markdown::{markdown_to_html, split_markdown, Markdown, MdNode, ParsedCode};
use avid_rustacean::palette::GruvboxColor;
use avid_rustacean::rss::{feed_description, RssManager};

fn render(node: &MdNode) -> String {
    let mut html = String::new();
    markdown_to_html(node, &mut html);
    html
}

#[test]
fn renders_text_and_breaks() {
    assert_eq!(render(&MdNode::Text(String::from("hi"))), "hi");
    assert_eq!(render(&MdNode::ThematicBreak), "<br/>");
    assert_eq!(render(&MdNode::Break), "<br/>");
}

#[test]
fn renders_inline_markup() {
    assert_eq!(
        render(&MdNode::Emphasis(String::from("soft"))),
        "<em>soft<em>"
    );
    assert_eq!(
        render(&MdNode::Strong(String::from("hard"))),
        "<strong>hard</strong>"
    );
    assert_eq!(
        render(&MdNode::Heading(String::from("title"))),
        "<h2>title<h2>"
    );
    assert_eq!(
        render(&MdNode::InlineCode(String::from("x + y"))),
        "<code>x + y</code>"
    );
    assert_eq!(
        render(&MdNode::BlockQuote(String::from("said"))),
        "<blockquote>said</blockquote>"
    );
    assert_eq!(
        render(&MdNode::Link(String::from("here"), String::from("https://a.b"))),
        "<a href=\"https://a.b\">here</a>"
    );
}

#[test]
fn renders_nested_paragraph_and_list() {
    let node = MdNode::Paragraph(vec![
        MdNode::Text(String::from("a")),
        MdNode::Emphasis(String::from("b")),
    ]);
    assert_eq!(render(&node), "<p>a<em>b<em></p>");
    let list = MdNode::List(vec![MdNode::Text(String::from("x"))]);
    assert_eq!(render(&list), "<ul>x</ul>");
}

#[test]
fn renders_code_runs_with_colours() {
    let code = MdNode::Code(ParsedCode(vec![(
        String::from("fn"),
        (GruvboxColor::red(), GruvboxColor::dark_2()),
    )]));
    assert_eq!(
        render(&code),
        "<pre><span style=\"color: #fb4934; background-color: #3c3836\">fn</span></pre>"
    );
}

#[test]
fn split_markdown_basic() {
    let (meta, md) = split_markdown("+++\ntitle = \"x\"\n+++\n# Hello\nBody");
    assert_eq!(meta, "title = \"x\"");
    assert_eq!(md, "# Hello\nBody");
}

#[test]
fn split_markdown_multiline_metadata() {
    let (meta, md) = split_markdown("+++\na = 1\nb = 2\n+++\nbody");
    assert_eq!(meta, "a = 1\nb = 2");
    assert_eq!(md, "body");
}

#[test]
fn split_markdown_without_closing_marker() {
    let (meta, md) = split_markdown("+++\nonly = \"metadata\"\nleft = true");
    assert_eq!(meta, "only = \"metadata\"\nleft = true");
    assert_eq!(md, "");
}

#[test]
fn split_markdown_empty_metadata() {
    let (meta, md) = split_markdown("+++\n+++\njust body");
    assert_eq!(meta, "");
    assert_eq!(md, "just body");
}

#[test]
fn split_markdown_strips_carriage_returns() {
    let (meta, md) = split_markdown("+++\r\nkey = 3\r\n+++\r\nline one\r\nline two");
    assert_eq!(meta, "key = 3");
    assert_eq!(md, "line one\nline two");
}

#[test]
fn split_markdown_marker_only() {
    let (meta, md) = split_markdown("+++");
    assert_eq!(meta, "");
    assert_eq!(md, "");
}

#[test]
fn feed_description_stops_before_third_heading() {
    let body = Markdown(vec![
        MdNode::Heading(String::from("One")),
        MdNode::Text(String::from("alpha")),
        MdNode::Heading(String::from("Two")),
        MdNode::Text(String::from("beta")),
        MdNode::Heading(String::from("Three")),
        MdNode::Text(String::from("never")),
    ]);
    assert_eq!(
        feed_description(&body),
        "<h2>One<h2>alpha<h2>Two<h2>beta"
    );
}

#[test]
fn feed_description_of_short_body_renders_everything() {
    let body = Markdown(vec![MdNode::Text(String::from("all of it"))]);
    assert_eq!(feed_description(&body), "all of it");
}

#[test]
fn rss_manager_serves_stored_feed() {
    let feed = RssManager::new(String::from("<rss>doc</rss>"));
    assert_eq!(feed.get_feed(), "<rss>doc</rss>");
}
