//! The site feed: the verified assembly of a post's feed description,
//! and the holder for the pre-rendered feed document.
//!
//! Building the surrounding channel XML is the job of an outside
//! collaborator; the text it produces is stored here and served verbatim.

use vstd::prelude::*;

use crate::markdown::{markdown_to_html, spec_html, Markdown, MdNode};

verus! {

/// The feed description of a post body: its sections rendered as plain
/// HTML, stopping just before the third heading.
pub open spec fn spec_description(nodes: Seq<MdNode>, headings: int) -> Seq<char>
    decreases nodes.len(),
{
    if nodes.len() == 0 {
        Seq::<char>::empty()
    } else {
        let h = headings + if nodes[0] is Heading {
            1int
        } else {
            0int
        };
        if h >= 3 {
            Seq::<char>::empty()
        } else {
            spec_html(nodes[0]) + spec_description(nodes.drop_first(), h)
        }
    }
}

/// Renders the feed description of a post body: every section before the
/// third heading, as plain HTML.
pub fn feed_description(body: &Markdown) -> (r: String)
    ensures
        r@ == spec_description(body.0@, 0),
{
    let mut html = String::new();
    let nodes = &body.0;
    let mut count: u8 = 0;
    proof {
        assert(nodes@.skip(0) =~= nodes@);
        assert(Seq::<char>::empty() + spec_description(nodes@, 0) =~= spec_description(nodes@, 0));
    }
    let mut i: usize = 0;
    while i < nodes.len()
        invariant_except_break
            0 <= i <= nodes.len(),
            0 <= count <= 2,
            spec_description(nodes@, 0) == html@ + spec_description(
                nodes@.skip(i as int),
                count as int,
            ),
        ensures
            0 <= i <= nodes.len(),
            spec_description(nodes@, 0) == html@ + spec_description(
                nodes@.skip(i as int),
                count as int,
            ),
            i == nodes@.len() || spec_description(nodes@.skip(i as int), count as int)
                == Seq::<char>::empty(),
        decreases nodes.len() - i,
    {
        let is_heading = matches!(&nodes[i], MdNode::Heading(_));
        proof {
            assert(nodes@.skip(i as int)[0] == nodes@[i as int]);
        }
        if is_heading && count == 2 {
            break;
        }
        if is_heading {
            count += 1;
        }
        markdown_to_html(&nodes[i], &mut html);
        proof {
            assert(nodes@.skip(i as int).drop_first() =~= nodes@.skip(i + 1));
        }
        i += 1;
    }
    proof {
        if i == nodes@.len() {
            assert(nodes@.skip(i as int) =~= Seq::<MdNode>::empty());
        }
    }
    html
}

/// Holds the feed document, rendered once at startup and served as is.
#[derive(Debug, Clone)]
pub struct RssManager {
    rss: String,
}

impl View for RssManager {
    type V = Seq<char>;

    closed spec fn view(&self) -> Seq<char> {
        self.rss@
    }
}

impl RssManager {
    /// Wraps a rendered feed document.
    pub fn new(rss: String) -> (r: Self)
        ensures
            r@ == rss@,
    {
        RssManager { rss }
    }

    /// The feed document, exactly as it was rendered.
    pub fn get_feed(&self) -> (r: &str)
        ensures
            r@ == self@,
    {
        self.rss.as_str()
    }
}

} // verus!
