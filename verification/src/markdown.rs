//! The parsed-markdown data model shared by the whole service, the
//! metadata/body splitter for content files, and the plain HTML rendering
//! used by the feed.
//!
//! Parsing raw markdown text into [`MdNode`]s (and highlighting code
//! blocks) is the job of outside collaborators and stays outside this
//! library; here the tree is plain data.

use vstd::prelude::*;

use crate::palette::GruvboxColor;
use crate::text::{chars_vec, copy_range, string_from_chars};

verus! {

/// The parsed representation of a markdown page.
#[derive(Debug, PartialEq, Eq)]
pub struct Markdown(pub Vec<MdNode>);

/// Error for markdown that cannot be represented.
#[derive(Debug, PartialEq, Eq, Clone, Copy, Structural)]
pub struct MdError;

/// The supported markdown nodes.
#[derive(Debug, PartialEq, Eq)]
pub enum MdNode {
    Paragraph(Vec<MdNode>),
    List(Vec<MdNode>),
    Code(ParsedCode),
    BlockQuote(String),
    InlineCode(String),
    Emphasis(String),
    Link(String, String),
    Strong(String),
    Heading(String),
    Text(String),
    ThematicBreak,
    Break,
}

/// Syntax-highlighted code: text runs with their foreground and
/// background colours.
#[derive(Debug, PartialEq, Eq)]
pub struct ParsedCode(pub Vec<(String, (GruvboxColor, GruvboxColor))>);

/// The HTML rendering of one highlighted code run.
pub open spec fn spec_html_span(run: (String, (GruvboxColor, GruvboxColor))) -> Seq<char> {
    "<span style=\"color: "@ + run.1.0.spec_hex_str() + "; background-color: "@
        + run.1.1.spec_hex_str() + "\">"@ + run.0@ + "</span>"@
}

/// The HTML rendering of a sequence of highlighted code runs.
pub open spec fn spec_html_code(runs: Seq<(String, (GruvboxColor, GruvboxColor))>) -> Seq<char>
    decreases runs.len(),
{
    if runs.len() == 0 {
        Seq::<char>::empty()
    } else {
        spec_html_span(runs[0]) + spec_html_code(runs.drop_first())
    }
}

/// The HTML rendering of one markdown node.
pub open spec fn spec_html(node: MdNode) -> Seq<char>
    decreases node,
{
    match node {
        MdNode::Paragraph(nodes) => "<p>"@ + spec_html_nodes(nodes@) + "</p>"@,
        MdNode::List(nodes) => "<ul>"@ + spec_html_nodes(nodes@) + "</ul>"@,
        MdNode::Emphasis(text) => "<em>"@ + text@ + "<em>"@,
        MdNode::Link(text, link) => "<a href=\""@ + link@ + "\">"@ + text@ + "</a>"@,
        MdNode::Strong(text) => "<strong>"@ + text@ + "</strong>"@,
        MdNode::Heading(text) => "<h2>"@ + text@ + "<h2>"@,
        MdNode::Text(text) => text@,
        MdNode::ThematicBreak => "<br/>"@,
        MdNode::Break => "<br/>"@,
        MdNode::Code(code) => "<pre>"@ + spec_html_code(code.0@) + "</pre>"@,
        MdNode::BlockQuote(text) => "<blockquote>"@ + text@ + "</blockquote>"@,
        MdNode::InlineCode(text) => "<code>"@ + text@ + "</code>"@,
    }
}

/// The HTML rendering of a sequence of markdown nodes.
pub open spec fn spec_html_nodes(nodes: Seq<MdNode>) -> Seq<char>
    decreases nodes,
{
    if nodes.len() == 0 {
        Seq::<char>::empty()
    } else {
        spec_html(nodes[0]) + spec_html_nodes(nodes.drop_first())
    }
}

/// Rendering a prefix of one more node extends the rendering of the
/// prefix by that node's rendering.
proof fn lemma_html_nodes_take(nodes: Seq<MdNode>, i: int)
    requires
        0 <= i < nodes.len(),
    ensures
        spec_html_nodes(nodes.take(i + 1)) == spec_html_nodes(nodes.take(i)) + spec_html(nodes[i]),
    decreases i,
{
    if i == 0 {
        assert(nodes.take(1).drop_first() =~= Seq::<MdNode>::empty());
        assert(spec_html_nodes(Seq::<MdNode>::empty()) == Seq::<char>::empty());
        assert(nodes.take(1)[0] == nodes[0]);
        assert(spec_html_nodes(nodes.take(1)) =~= spec_html(nodes[0]));
        assert(nodes.take(0) =~= Seq::<MdNode>::empty());
        assert(spec_html_nodes(nodes.take(0)) + spec_html(nodes[0]) =~= spec_html(nodes[0]));
    } else {
        lemma_html_nodes_take(nodes.drop_first(), i - 1);
        assert(nodes.take(i + 1).drop_first() =~= nodes.drop_first().take(i));
        assert(nodes.take(i).drop_first() =~= nodes.drop_first().take(i - 1));
        assert(nodes.drop_first()[i - 1] == nodes[i]);
        assert(spec_html_nodes(nodes.take(i + 1)) =~= spec_html_nodes(nodes.take(i)) + spec_html(
            nodes[i],
        ));
    }
}

/// Rendering a prefix of one more code run extends the rendering of the
/// prefix by that run's rendering.
proof fn lemma_html_code_take(runs: Seq<(String, (GruvboxColor, GruvboxColor))>, i: int)
    requires
        0 <= i < runs.len(),
    ensures
        spec_html_code(runs.take(i + 1)) == spec_html_code(runs.take(i)) + spec_html_span(runs[i]),
    decreases i,
{
    if i == 0 {
        assert(runs.take(1).drop_first() =~= Seq::<(String, (GruvboxColor, GruvboxColor))>::empty());
        assert(spec_html_code(Seq::<(String, (GruvboxColor, GruvboxColor))>::empty())
            == Seq::<char>::empty());
        assert(runs.take(1)[0] == runs[0]);
        assert(spec_html_code(runs.take(1)) =~= spec_html_span(runs[0]));
        assert(runs.take(0) =~= Seq::<(String, (GruvboxColor, GruvboxColor))>::empty());
        assert(spec_html_code(runs.take(0)) + spec_html_span(runs[0]) =~= spec_html_span(runs[0]));
    } else {
        lemma_html_code_take(runs.drop_first(), i - 1);
        assert(runs.take(i + 1).drop_first() =~= runs.drop_first().take(i));
        assert(runs.take(i).drop_first() =~= runs.drop_first().take(i - 1));
        assert(runs.drop_first()[i - 1] == runs[i]);
        assert(spec_html_code(runs.take(i + 1)) =~= spec_html_code(runs.take(i)) + spec_html_span(
            runs[i],
        ));
    }
}

/// Renders a sequence of child nodes, appended to `html`.
#[verifier::loop_isolation(false)]
fn html_nodes(nodes: &Vec<MdNode>, html: &mut String)
    ensures
        final(html)@ == old(html)@ + spec_html_nodes(nodes@),
    decreases *nodes,
{
    let mut i: usize = 0;
    while i < nodes.len()
        invariant
            0 <= i <= nodes.len(),
            html@ == old(html)@ + spec_html_nodes(nodes@.take(i as int)),
        decreases nodes.len() - i,
    {
        markdown_to_html(&nodes[i], html);
        proof {
            lemma_html_nodes_take(nodes@, i as int);
        }
        i += 1;
    }
    proof {
        assert(nodes@.take(nodes@.len() as int) =~= nodes@);
        assert(old(html)@ + spec_html_nodes(nodes@.take(0)) =~= old(html)@);
    }
}

/// Renders highlighted code runs, appended to `html`.
#[verifier::loop_isolation(false)]
#[verifier::rlimit(80)]
fn html_code_runs(runs: &Vec<(String, (GruvboxColor, GruvboxColor))>, html: &mut String)
    ensures
        final(html)@ == old(html)@ + spec_html_code(runs@),
{
    let mut i: usize = 0;
    while i < runs.len()
        invariant
            0 <= i <= runs.len(),
            html@ == old(html)@ + spec_html_code(runs@.take(i as int)),
        decreases runs.len() - i,
    {
        let (snip, colors) = &runs[i];
        let (fg, bg) = colors;
        html.append("<span style=\"color: ");
        html.append(fg.hex_str());
        html.append("; background-color: ");
        html.append(bg.hex_str());
        html.append("\">");
        html.append(snip.as_str());
        html.append("</span>");
        proof {
            lemma_html_code_take(runs@, i as int);
            assert(html@ =~= old(html)@ + spec_html_code(runs@.take(i + 1)));
        }
        i += 1;
    }
    proof {
        assert(runs@.take(runs@.len() as int) =~= runs@);
        assert(old(html)@ + spec_html_code(runs@.take(0)) =~= old(html)@);
    }
}

/// Renders one markdown node as plain HTML, appended to `html`.
///
/// The emphasis and heading tags are deliberately left unbalanced; this
/// is the exact markup the feed serves.
#[verifier::rlimit(50)]
pub fn markdown_to_html(node: &MdNode, html: &mut String)
    ensures
        final(html)@ == old(html)@ + spec_html(*node),
    decreases *node,
{
    match node {
        MdNode::Paragraph(nodes) => {
            html.append("<p>");
            html_nodes(nodes, html);
            html.append("</p>");
        },
        MdNode::List(nodes) => {
            html.append("<ul>");
            html_nodes(nodes, html);
            html.append("</ul>");
        },
        MdNode::Emphasis(text) => {
            html.append("<em>");
            html.append(text.as_str());
            html.append("<em>");
        },
        MdNode::Link(text, link) => {
            html.append("<a href=\"");
            html.append(link.as_str());
            html.append("\">");
            html.append(text.as_str());
            html.append("</a>");
        },
        MdNode::Strong(text) => {
            html.append("<strong>");
            html.append(text.as_str());
            html.append("</strong>");
        },
        MdNode::Heading(text) => {
            html.append("<h2>");
            html.append(text.as_str());
            html.append("<h2>");
        },
        MdNode::Text(text) => {
            html.append(text.as_str());
        },
        MdNode::ThematicBreak => {
            html.append("<br/>");
        },
        MdNode::Break => {
            html.append("<br/>");
        },
        MdNode::Code(code) => {
            html.append("<pre>");
            html_code_runs(&code.0, html);
            html.append("</pre>");
        },
        MdNode::BlockQuote(text) => {
            html.append("<blockquote>");
            html.append(text.as_str());
            html.append("</blockquote>");
        },
        MdNode::InlineCode(text) => {
            html.append("<code>");
            html.append(text.as_str());
            html.append("</code>");
        },
    }
    proof {
        assert(html@ =~= old(html)@ + spec_html(*node));
    }
}

/// Index of the first newline in `s`, or `s.len()` when there is none.
pub open spec fn first_nl(s: Seq<char>) -> int
    decreases s.len(),
{
    if s.len() == 0 {
        0
    } else if s[0] == '\n' {
        0
    } else {
        1 + first_nl(s.drop_first())
    }
}

/// The first newline index is in range, points at a newline, and nothing
/// before it is a newline.
proof fn lemma_first_nl(s: Seq<char>)
    ensures
        0 <= first_nl(s) <= s.len(),
        first_nl(s) < s.len() ==> s[first_nl(s)] == '\n',
        forall|j: int| 0 <= j < first_nl(s) ==> s[j] != '\n',
    decreases s.len(),
{
    if s.len() != 0 && s[0] != '\n' {
        lemma_first_nl(s.drop_first());
        assert forall|j: int| 0 <= j < first_nl(s) implies s[j] != '\n' by {
            if j > 0 {
                assert(s.drop_first()[j - 1] == s[j]);
            }
        }
        if first_nl(s) < s.len() {
            assert(s.drop_first()[first_nl(s) - 1] == s[first_nl(s)]);
        }
    }
}

/// A line as `str::lines` yields it: a trailing carriage return removed.
pub open spec fn strip_cr(l: Seq<char>) -> Seq<char> {
    if l.len() > 0 && l.last() == '\r' {
        l.drop_last()
    } else {
        l
    }
}

/// The lines of `s`: split on newlines, each line stripped of a trailing
/// carriage return, with no trailing empty line for a final newline.
pub open spec fn line_split(s: Seq<char>) -> Seq<Seq<char>>
    decreases s.len(),
    via line_split_decreases
{
    if s.len() == 0 {
        Seq::<Seq<char>>::empty()
    } else {
        let i = first_nl(s);
        if i == s.len() {
            seq![strip_cr(s)]
        } else {
            seq![strip_cr(s.take(i))] + line_split(s.skip(i + 1))
        }
    }
}

#[via_fn]
proof fn line_split_decreases(s: Seq<char>) {
    lemma_first_nl(s);
}

/// Lines joined with single newline separators.
pub open spec fn join_nl(ls: Seq<Seq<char>>) -> Seq<char>
    decreases ls.len(),
{
    if ls.len() == 0 {
        Seq::<char>::empty()
    } else if ls.len() == 1 {
        ls[0]
    } else {
        ls[0] + seq!['\n'] + join_nl(ls.drop_first())
    }
}

/// Index of the first marker line (`+++`), or `ls.len()` when none exists.
pub open spec fn first_delim(ls: Seq<Seq<char>>) -> int
    decreases ls.len(),
{
    if ls.len() == 0 {
        0
    } else if ls[0] == "+++"@ {
        0
    } else {
        1 + first_delim(ls.drop_first())
    }
}

/// The first marker index is within bounds.
proof fn lemma_first_delim(ls: Seq<Seq<char>>)
    ensures
        0 <= first_delim(ls) <= ls.len(),
    decreases ls.len(),
{
    if ls.len() != 0 && ls[0] != "+++"@ {
        lemma_first_delim(ls.drop_first());
    }
}

/// The metadata of a content file: the lines between the opening marker
/// line and the closing marker line, joined by newlines.
pub open spec fn spec_metadata(s: Seq<char>) -> Seq<char> {
    let rest = line_split(s).drop_first();
    join_nl(rest.take(first_delim(rest)))
}

/// The markdown body of a content file: the lines after the closing
/// marker line, joined by newlines; empty when there is no closing marker.
pub open spec fn spec_body(s: Seq<char>) -> Seq<char> {
    let rest = line_split(s).drop_first();
    let k = first_delim(rest);
    if k == rest.len() {
        Seq::<char>::empty()
    } else {
        join_nl(rest.skip(k + 1))
    }
}

/// Index of the first newline at or after `start`, or the length when the
/// rest of the text has none.
fn scan_line(v: &Vec<char>, start: usize) -> (e: usize)
    requires
        start <= v.len(),
    ensures
        start <= e <= v.len(),
        e - start == first_nl(v@.skip(start as int)),
        e < v.len() ==> v@[e as int] == '\n',
        forall|j: int| start <= j < e ==> v@[j] != '\n',
{
    let n = v.len();
    let mut e = start;
    while e < n
        invariant_except_break
            start <= e <= n,
            n == v.len(),
            forall|j: int| start <= j < e ==> v@[j] != '\n',
        ensures
            start <= e <= n,
            forall|j: int| start <= j < e ==> v@[j] != '\n',
            e < n ==> v@[e as int] == '\n',
        decreases n - e,
    {
        if v[e] == '\n' {
            break;
        }
        e += 1;
    }
    proof {
        let s = v@.skip(start as int);
        lemma_first_nl(s);
        let f = first_nl(s);
        if f < e - start {
            assert(v@[start + f] == s[f]);
            assert(false);
        }
        if e - start < f {
            assert(s[e - start] == v@[e as int]);
            assert(false);
        }
    }
    e
}

/// All lines from `start` on, joined by newlines.
fn join_lines(v: &Vec<char>, start: usize) -> (out: Vec<char>)
    requires
        start <= v.len(),
    ensures
        out@ == join_nl(line_split(v@.skip(start as int))),
    decreases v.len() - start,
{
    let n = v.len();
    let ghost s = v@.skip(start as int);
    if start == n {
        proof {
            assert(s =~= Seq::<char>::empty());
        }
        Vec::new()
    } else {
        let e = scan_line(v, start);
        let stop = if e > start && v[e - 1] == '\r' {
            e - 1
        } else {
            e
        };
        let mut line = copy_range(v, start, stop);
        proof {
            lemma_first_nl(s);
            if e == n {
                assert(s =~= v@.subrange(start as int, n as int));
                if stop < e {
                    assert(s.drop_last() =~= v@.subrange(start as int, stop as int));
                }
                assert(line@ == strip_cr(s));
            } else {
                assert(s.take(e - start) =~= v@.subrange(start as int, e as int));
                if stop < e {
                    assert(s.take(e - start).drop_last() =~= v@.subrange(
                        start as int,
                        stop as int,
                    ));
                }
                assert(line@ == strip_cr(s.take(e - start)));
            }
        }
        if e == n {
            proof {
                assert(join_nl(line_split(s)) == line@);
            }
            line
        } else {
            let mut rest = join_lines(v, e + 1);
            let ghost sub = v@.skip(e + 1);
            proof {
                assert(s.skip(e - start + 1) =~= sub);
                assert(line_split(s) =~= seq![line@] + line_split(sub));
            }
            if e + 1 == n {
                proof {
                    assert(sub =~= Seq::<char>::empty());
                    assert(line_split(s) =~= seq![line@]);
                    assert(join_nl(line_split(s)) == line@);
                }
                line
            } else {
                proof {
                    assert(line_split(sub).len() > 0);
                    assert((seq![line@] + line_split(sub)).drop_first() =~= line_split(sub));
                    assert(join_nl(line_split(s)) =~= line@ + seq!['\n'] + join_nl(
                        line_split(sub),
                    ));
                }
                line.push('\n');
                line.append(&mut rest);
                line
            }
        }
    }
}

/// Collects the lines before the first marker line from `start` on.
/// Returns the joined lines, whether any line came before the marker, and
/// the position after the marker line (or `None` when there is none).
#[verifier::rlimit(80)]
fn meta_scan(v: &Vec<char>, start: usize) -> (r: (Vec<char>, bool, Option<usize>))
    requires
        start <= v.len(),
    ensures
        ({
            let ls = line_split(v@.skip(start as int));
            let k = first_delim(ls);
            &&& r.0@ == join_nl(ls.take(k))
            &&& r.1 == (k > 0)
            &&& (match r.2 {
                Some(p) => k < ls.len() && p <= v.len() && line_split(v@.skip(p as int)) == ls.skip(
                    k + 1,
                ),
                None => k == ls.len(),
            })
        }),
    decreases v.len() - start,
{
    let n = v.len();
    let ghost s = v@.skip(start as int);
    if start == n {
        proof {
            assert(s =~= Seq::<char>::empty());
            assert(line_split(s).take(0) =~= Seq::<Seq<char>>::empty());
        }
        (Vec::new(), false, None)
    } else {
        let e = scan_line(v, start);
        let stop = if e > start && v[e - 1] == '\r' {
            e - 1
        } else {
            e
        };
        let mut line = copy_range(v, start, stop);
        proof {
            lemma_first_nl(s);
            if e == n {
                assert(s =~= v@.subrange(start as int, n as int));
                if stop < e {
                    assert(s.drop_last() =~= v@.subrange(start as int, stop as int));
                }
                assert(line@ == strip_cr(s));
            } else {
                assert(s.take(e - start) =~= v@.subrange(start as int, e as int));
                if stop < e {
                    assert(s.take(e - start).drop_last() =~= v@.subrange(
                        start as int,
                        stop as int,
                    ));
                }
                assert(line@ == strip_cr(s.take(e - start)));
            }
        }
        let is_delim = stop - start == 3 && v[start] == '+' && v[start + 1] == '+' && v[start + 2]
            == '+';
        proof {
            reveal_strlit("+++");
            if is_delim {
                assert(line@ =~= "+++"@);
            }
            if line@ == "+++"@ {
                assert(line@.len() == 3);
                assert(line@[0] == '+' && line@[1] == '+' && line@[2] == '+');
            }
            assert(is_delim == (line@ == "+++"@));
        }
        if is_delim {
            let p = if e == n {
                n
            } else {
                e + 1
            };
            proof {
                let ls = line_split(s);
                assert(first_delim(ls) == 0);
                assert(ls.take(0) =~= Seq::<Seq<char>>::empty());
                if e == n {
                    assert(ls =~= seq![line@]);
                    assert(v@.skip(n as int) =~= Seq::<char>::empty());
                    assert(line_split(v@.skip(p as int)) =~= ls.skip(1));
                } else {
                    assert(s.skip(e - start + 1) =~= v@.skip(e + 1));
                    assert(ls =~= seq![line@] + line_split(v@.skip(e + 1)));
                    assert(line_split(v@.skip(p as int)) =~= ls.skip(1));
                }
            }
            (Vec::new(), false, Some(p))
        } else {
            if e == n {
                proof {
                    let ls = line_split(s);
                    assert(ls =~= seq![line@]);
                    assert(ls.drop_first() =~= Seq::<Seq<char>>::empty());
                    assert(first_delim(Seq::<Seq<char>>::empty()) == 0);
                    assert(first_delim(ls) == 1);
                    assert(ls.take(1) =~= ls);
                }
                (line, true, None)
            } else {
                let rec = meta_scan(v, e + 1);
                let mut rest_meta = rec.0;
                let has = rec.1;
                let next = rec.2;
                let ghost sub = v@.skip(e + 1);
                let ghost ls = line_split(s);
                let ghost kp = first_delim(line_split(sub));
                proof {
                    lemma_first_delim(line_split(sub));
                    assert(s.skip(e - start + 1) =~= sub);
                    assert(ls =~= seq![line@] + line_split(sub));
                    assert(ls.drop_first() =~= line_split(sub));
                    assert(first_delim(ls) == 1 + kp);
                    assert(ls.take(1 + kp) =~= seq![line@] + line_split(sub).take(kp));
                }
                let meta = if has {
                    proof {
                        assert(ls.take(1 + kp).len() >= 2);
                        assert(ls.take(1 + kp).drop_first() =~= line_split(sub).take(kp));
                        assert(join_nl(ls.take(1 + kp)) =~= line@ + seq!['\n'] + join_nl(
                            line_split(sub).take(kp),
                        ));
                    }
                    line.push('\n');
                    line.append(&mut rest_meta);
                    line
                } else {
                    proof {
                        assert(line_split(sub).take(0) =~= Seq::<Seq<char>>::empty());
                        assert(ls.take(1 + kp) =~= seq![line@]);
                        assert(join_nl(ls.take(1 + kp)) == line@);
                    }
                    line
                };
                proof {
                    match next {
                        Some(p) => {
                            assert(ls.skip(1 + kp + 1) =~= line_split(sub).skip(kp + 1));
                        },
                        None => {},
                    }
                }
                (meta, true, next)
            }
        }
    }
}

/// Splits a content file into its metadata and markdown parts.
///
/// The first line must be the opening marker `+++`; the metadata is every
/// line up to the closing marker, and the markdown body is everything
/// after it. A file with no closing marker has all remaining lines as
/// metadata and an empty body.
pub fn split_markdown(file: &str) -> (r: (String, String))
    requires
        line_split(file@).len() > 0,
        line_split(file@)[0] == "+++"@,
    ensures
        r.0@ == spec_metadata(file@),
        r.1@ == spec_body(file@),
{
    let v = chars_vec(file);
    let n = v.len();
    let e = scan_line(&v, 0);
    let p1 = if e == n {
        n
    } else {
        e + 1
    };
    let ghost rest = line_split(file@).drop_first();
    proof {
        lemma_first_nl(file@);
        assert(v@.skip(0) =~= file@);
        assert(first_nl(file@) == e);
        if e == n {
            assert(line_split(file@) =~= seq![strip_cr(file@)]);
            assert(v@.skip(n as int) =~= Seq::<char>::empty());
            assert(line_split(v@.skip(p1 as int)) =~= rest);
        } else {
            assert(file@.skip(e + 1) =~= v@.skip(p1 as int));
            assert(line_split(file@) =~= seq![strip_cr(file@.take(e as int))] + line_split(
                v@.skip(p1 as int),
            ));
            assert(line_split(v@.skip(p1 as int)) =~= rest);
        }
    }
    let scanned = meta_scan(&v, p1);
    let meta = scanned.0;
    let md = match scanned.2 {
        Some(p) => join_lines(&v, p),
        None => Vec::new(),
    };
    proof {
        let k = first_delim(rest);
        assert(meta@ == join_nl(rest.take(k)));
        match scanned.2 {
            Some(p) => {
                assert(md@ == join_nl(rest.skip(k + 1)));
            },
            None => {
                assert(md@ =~= Seq::<char>::empty());
            },
        }
    }
    (string_from_chars(&meta), string_from_chars(&md))
}

} // verus!
