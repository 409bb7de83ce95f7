//! Laws of the projection: statements that hold of every input, proved from
//! the definitions in [`crate::render_spec`].

use vstd::prelude::*;

use crate::components::MarkdownOptions;
use crate::events::{ElementKind, Event, HeadingLevel};
use crate::markup::NodeV;
use crate::render_spec::{
    always_class, element, emit_start, heading_tag, link_attrs, match_from, render_range_spec,
    render_spec, text_content,
};

verus! {

/// The nesting depth accumulated by the events in `[lo, i)`: starts minus
/// ends.
pub open spec fn depth_sum(s: Seq<Event>, lo: int, i: int) -> int
    decreases i - lo,
{
    if i <= lo {
        0
    } else {
        depth_sum(s, lo, i - 1) + s[i - 1].depth_change()
    }
}

/// A well-nested range: the depth returns to zero at its end and never goes
/// negative in between.
pub open spec fn well_nested(s: Seq<Event>, lo: int, hi: int) -> bool {
    &&& depth_sum(s, lo, hi) == 0
    &&& forall|j: int| lo <= j <= hi ==> depth_sum(s, lo, j) >= 0
}

/// Splitting a depth scan after its first event.
proof fn lemma_depth_sum_step_left(s: Seq<Event>, lo: int, i: int)
    requires
        lo < i,
    ensures
        depth_sum(s, lo, i) == s[lo].depth_change() + depth_sum(s, lo + 1, i),
    decreases i - lo,
{
    if i == lo + 1 {
        assert(depth_sum(s, lo, lo + 1) == depth_sum(s, lo, lo) + s[lo].depth_change());
    } else {
        lemma_depth_sum_step_left(s, lo, i - 1);
        assert(depth_sum(s, lo, i) == depth_sum(s, lo, i - 1) + s[i - 1].depth_change());
        assert(depth_sum(s, lo + 1, i) == depth_sum(s, lo + 1, i - 1) + s[i - 1].depth_change());
    }
}

/// What the forward scan of `match_from` returns, said over prefix depths: it
/// stays in range; before the returned position no end event brings the depth
/// counter to zero; if it returns before `hi`, it returns an end event that
/// does; and the counter never goes negative up to there.
proof fn lemma_match_from_props(s: Seq<Event>, i: int, hi: int, d: int)
    requires
        0 <= i <= hi <= s.len(),
        d >= 0,
    ensures
        i <= match_from(s, i, hi, d) <= hi,
        forall|j: int|
            i <= j < match_from(s, i, hi, d) ==> !(s[j] is EndElement && d + depth_sum(s, i, j)
                == 0),
        match_from(s, i, hi, d) < hi ==> s[match_from(s, i, hi, d)] is EndElement && d + depth_sum(
            s,
            i,
            match_from(s, i, hi, d),
        ) == 0,
        forall|j: int| i <= j <= match_from(s, i, hi, d) ==> d + depth_sum(s, i, j) >= 0,
    decreases hi - i,
{
    if i < hi {
        let m = match_from(s, i, hi, d);
        match s[i] {
            Event::StartElement(_) => {
                lemma_match_from_props(s, i + 1, hi, d + 1);
                assert forall|j: int| i <= j <= m implies d + depth_sum(s, i, j) >= 0 by {
                    if j > i {
                        lemma_depth_sum_step_left(s, i, j);
                    }
                }
                assert forall|j: int|
                    i <= j < m implies !(s[j] is EndElement && d + depth_sum(s, i, j) == 0) by {
                    if j > i {
                        lemma_depth_sum_step_left(s, i, j);
                    }
                }
                if m < hi {
                    lemma_depth_sum_step_left(s, i, m);
                }
            },
            Event::EndElement => {
                if d != 0 {
                    lemma_match_from_props(s, i + 1, hi, d - 1);
                    assert forall|j: int| i <= j <= m implies d + depth_sum(s, i, j) >= 0 by {
                        if j > i {
                            lemma_depth_sum_step_left(s, i, j);
                        }
                    }
                    assert forall|j: int|
                        i <= j < m implies !(s[j] is EndElement && d + depth_sum(s, i, j) == 0) by {
                        if j > i {
                            lemma_depth_sum_step_left(s, i, j);
                        }
                    }
                    if m < hi {
                        lemma_depth_sum_step_left(s, i, m);
                    }
                }
            },
            _ => {
                lemma_match_from_props(s, i + 1, hi, d);
                assert forall|j: int| i <= j <= m implies d + depth_sum(s, i, j) >= 0 by {
                    if j > i {
                        lemma_depth_sum_step_left(s, i, j);
                    }
                }
                assert forall|j: int|
                    i <= j < m implies !(s[j] is EndElement && d + depth_sum(s, i, j) == 0) by {
                    if j > i {
                        lemma_depth_sum_step_left(s, i, j);
                    }
                }
                if m < hi {
                    lemma_depth_sum_step_left(s, i, m);
                }
            },
        }
    }
}

/// In a well-nested range, every start event is matched: the bracket scan
/// finds a closing end event strictly inside the range, the events between
/// the two are well-nested in turn, and the depth counter never goes negative
/// on the way there.
pub proof fn lemma_start_matched(s: Seq<Event>, lo: int, hi: int)
    requires
        0 <= lo < hi <= s.len(),
        well_nested(s, lo, hi),
        s[lo] is StartElement,
    ensures
        lo + 1 <= match_from(s, lo + 1, hi, 0) < hi,
        s[match_from(s, lo + 1, hi, 0)] is EndElement,
        well_nested(s, lo + 1, match_from(s, lo + 1, hi, 0)),
{
    let m = match_from(s, lo + 1, hi, 0);
    lemma_match_from_props(s, lo + 1, hi, 0);
    lemma_depth_sum_step_left(s, lo, hi);
    assert(depth_sum(s, lo + 1, hi) == -1);
    if m == hi {
        assert(depth_sum(s, lo + 1, hi) >= 0);
    }
    assert forall|j: int| lo + 1 <= j <= m implies #[trigger] depth_sum(s, lo + 1, j) >= 0 by {}
}

/// An empty event sequence projects to an empty (but successful) tree.
pub proof fn lemma_render_empty(s: Seq<Event>, o: MarkdownOptions)
    requires
        s.len() == 0,
    ensures
        render_spec(s, o) == Seq::<NodeV>::empty(),
{
}

/// Distinct heading levels produce distinct tags. (Levels outside one through
/// six are not representable: the level enumeration is closed.)
pub proof fn lemma_heading_tags_distinct(a: HeadingLevel, b: HeadingLevel)
    requires
        a != b,
    ensures
        heading_tag(a) != heading_tag(b),
{
    reveal_strlit("h1");
    reveal_strlit("h2");
    reveal_strlit("h3");
    reveal_strlit("h4");
    reveal_strlit("h5");
    reveal_strlit("h6");
    assert(heading_tag(HeadingLevel::H1)[1] == '1');
    assert(heading_tag(HeadingLevel::H2)[1] == '2');
    assert(heading_tag(HeadingLevel::H3)[1] == '3');
    assert(heading_tag(HeadingLevel::H4)[1] == '4');
    assert(heading_tag(HeadingLevel::H5)[1] == '5');
    assert(heading_tag(HeadingLevel::H6)[1] == '6');
}

/// A link with an empty title carries no `title` attribute; one with a
/// non-empty title carries it. The new-tab pair `target`/`rel` appears exactly
/// when configured.
pub proof fn lemma_link_attributes(url: Seq<char>, title: Seq<char>, o: MarkdownOptions)
    ensures
        title.len() == 0 ==> forall|j: int|
            0 <= j < link_attrs(url, title, o).len() ==> (#[trigger] link_attrs(
                url,
                title,
                o,
            )[j]).name != "title"@,
        title.len() > 0 ==> link_attrs(url, title, o)[2].name == "title"@ && link_attrs(
            url,
            title,
            o,
        )[2].value == title,
        o.open_links_in_new_tab ==> exists|j: int|
            0 <= j < link_attrs(url, title, o).len() && (#[trigger] link_attrs(url, title, o)[j]).name
                == "target"@ && link_attrs(url, title, o)[j].value == "_blank"@,
        o.open_links_in_new_tab ==> exists|j: int|
            0 <= j < link_attrs(url, title, o).len() && (#[trigger] link_attrs(url, title, o)[j]).name
                == "rel"@ && link_attrs(url, title, o)[j].value == "noopener noreferrer"@,
        !o.open_links_in_new_tab ==> forall|j: int|
            0 <= j < link_attrs(url, title, o).len() ==> (#[trigger] link_attrs(
                url,
                title,
                o,
            )[j]).name != "target"@ && link_attrs(url, title, o)[j].name != "rel"@,
{
    reveal_strlit("class");
    reveal_strlit("href");
    reveal_strlit("title");
    reveal_strlit("target");
    reveal_strlit("rel");
    let r = link_attrs(url, title, o);
    let cls = crate::render_spec::attr_v(
        "class"@,
        if o.use_explicit_classes {
            crate::components::MarkdownClasses::LINK@
        } else {
            ""@
        },
    );
    let href = crate::render_spec::attr_v("href"@, url);
    let ttl = crate::render_spec::attr_v("title"@, title);
    let tgt = crate::render_spec::attr_v("target"@, "_blank"@);
    let rel = crate::render_spec::attr_v("rel"@, "noopener noreferrer"@);
    assert("class"@[0] == 'c' && "href"@[0] == 'h' && "title"@[0] == 't' && "target"@[0] == 't'
        && "rel"@[0] == 'r');
    assert("title"@[1] == 'i' && "target"@[1] == 'a');
    assert("class"@ != "title"@ && "href"@ != "title"@);
    assert("class"@ != "target"@ && "href"@ != "target"@ && "title"@ != "target"@);
    assert("class"@ != "rel"@ && "href"@ != "rel"@ && "title"@ != "rel"@);
    if title.len() == 0 {
        if o.open_links_in_new_tab {
            assert(r =~= seq![cls, href, tgt, rel]);
            assert(r[2].name == "target"@ && r[2].value == "_blank"@);
            assert(r[3].name == "rel"@ && r[3].value == "noopener noreferrer"@);
            assert forall|j: int| 0 <= j < r.len() implies (#[trigger] r[j]).name != "title"@ by {
                assert(r[j] == cls || r[j] == href || r[j] == tgt || r[j] == rel);
            }
        } else {
            assert(r =~= seq![cls, href]);
            assert forall|j: int| 0 <= j < r.len() implies (#[trigger] r[j]).name != "title"@
                && r[j].name != "target"@ && r[j].name != "rel"@ by {
                assert(r[j] == cls || r[j] == href);
            }
        }
    } else {
        if o.open_links_in_new_tab {
            assert(r =~= seq![cls, href, ttl, tgt, rel]);
            assert(r[3].name == "target"@ && r[3].value == "_blank"@);
            assert(r[4].name == "rel"@ && r[4].value == "noopener noreferrer"@);
        } else {
            assert(r =~= seq![cls, href, ttl]);
            assert forall|j: int| 0 <= j < r.len() implies (#[trigger] r[j]).name != "target"@
                && r[j].name != "rel"@ by {
                assert(r[j] == cls || r[j] == href || r[j] == ttl);
            }
        }
    }
}

/// An ordered list carries its start number in decimal; an unordered list
/// carries no `start` attribute.
pub proof fn lemma_list_start_attribute(
    n: u64,
    children: Seq<NodeV>,
    inner_text: Seq<char>,
    o: MarkdownOptions,
)
    ensures
        ({
            let nodes = emit_start(ElementKind::List(Some(n)), children, inner_text, o);
            &&& nodes.len() == 1
            &&& nodes[0]->Element_tag == "ol"@
            &&& nodes[0]->Element_attrs.last().name == "start"@
            &&& nodes[0]->Element_attrs.last().value == crate::numeral::dec_str(n as int)
        }),
        ({
            let nodes = emit_start(ElementKind::List(None), children, inner_text, o);
            &&& nodes.len() == 1
            &&& nodes[0]->Element_tag == "ul"@
            &&& forall|j: int|
                0 <= j < nodes[0]->Element_attrs.len() ==> (#[trigger] nodes[0]->Element_attrs[j]).name
                    != "start"@
        }),
{
    reveal_strlit("class");
    reveal_strlit("start");
    let ol_attrs = emit_start(
        ElementKind::List(Some(n)),
        children,
        inner_text,
        o,
    )[0]->Element_attrs;
    let st = crate::render_spec::attr_v("start"@, crate::numeral::dec_str(n as int));
    if o.use_explicit_classes {
        let cls = crate::render_spec::attr_v("class"@, crate::components::MarkdownClasses::OL@);
        assert(ol_attrs =~= seq![cls, st]);
    } else {
        assert(ol_attrs =~= seq![st]);
    }
    assert("class"@[0] == 'c' && "start"@[0] == 's');
    assert("class"@ != "start"@);
    let ul_attrs = emit_start(ElementKind::List(None), children, inner_text, o)[0]->Element_attrs;
    if o.use_explicit_classes {
        let cls = crate::render_spec::attr_v("class"@, crate::components::MarkdownClasses::UL@);
        assert(ul_attrs =~= seq![cls]);
        assert forall|j: int|
            0 <= j < ul_attrs.len() implies (#[trigger] ul_attrs[j]).name != "start"@ by {
            assert(ul_attrs[j] == cls);
        }
    } else {
        assert(ul_attrs =~= Seq::<crate::markup::AttrV>::empty());
    }
}

/// When raw HTML is disabled, an HTML block's literal source text comes back
/// as an escaped text leaf inside a preformatted wrapper — never as raw
/// markup. When it is enabled, the source is injected raw.
pub proof fn lemma_html_block_escaping(
    children: Seq<NodeV>,
    inner_text: Seq<char>,
    o: MarkdownOptions,
)
    ensures
        !o.allow_raw_html ==> emit_start(ElementKind::HtmlBlock, children, inner_text, o) == seq![
            element(
                "pre"@,
                always_class(
                    if o.use_explicit_classes {
                        crate::components::MarkdownClasses::RAW_HTML_BLOCK@
                    } else {
                        "raw-html-block"@
                    },
                ),
                seq![NodeV::Text(inner_text)],
            ),
        ],
        o.allow_raw_html ==> emit_start(ElementKind::HtmlBlock, children, inner_text, o) == seq![
            element("div"@, Seq::empty(), seq![NodeV::RawHtml(inner_text)]),
        ],
{
}

/// A start event whose end is missing consumes all remaining events as its
/// children: the projection of the range is that single container and nothing
/// after it. (Together with the renderer's contract — it always returns `Ok` —
/// this is the graceful-truncation guarantee for malformed streams.)
pub proof fn lemma_unmatched_start_consumes_all(s: Seq<Event>, lo: int, hi: int, o: MarkdownOptions)
    requires
        0 <= lo < hi <= s.len(),
        s[lo] is StartElement,
        match_from(s, lo + 1, hi, 0) == hi,
    ensures
        render_range_spec(s, lo, hi, o) == emit_start(
            s[lo]->StartElement_0,
            render_range_spec(s, lo + 1, hi, o),
            text_content(s, lo + 1, hi),
            o,
        ),
{
    let k = s[lo]->StartElement_0;
    assert(render_range_spec(s, hi, hi, o) == Seq::<NodeV>::empty());
    assert(render_range_spec(s, lo, hi, o) == emit_start(
        k,
        render_range_spec(s, lo + 1, hi, o),
        text_content(s, lo + 1, hi),
        o,
    ) + render_range_spec(s, hi, hi, o));
    assert(render_range_spec(s, lo, hi, o) =~= emit_start(
        k,
        render_range_spec(s, lo + 1, hi, o),
        text_content(s, lo + 1, hi),
        o,
    ));
}

/// A metadata block produces no output nodes, but the cursor still advances
/// past its whole subtree: the projection continues with the events after its
/// matching end, so later siblings still render.
pub proof fn lemma_metadata_block_invisible(s: Seq<Event>, lo: int, hi: int, o: MarkdownOptions)
    requires
        0 <= lo < hi <= s.len(),
        s[lo] is StartElement,
        s[lo]->StartElement_0 is MetadataBlock,
    ensures
        ({
            let m = match_from(s, lo + 1, hi, 0);
            let rest = if m + 1 < hi {
                m + 1
            } else {
                hi
            };
            render_range_spec(s, lo, hi, o) == render_range_spec(s, rest, hi, o)
        }),
{
    crate::render_spec::lemma_match_from_bounds(s, lo + 1, hi, 0);
    let m = match_from(s, lo + 1, hi, 0);
    let rest = if m + 1 < hi {
        m + 1
    } else {
        hi
    };
    assert(render_range_spec(s, lo, hi, o) =~= render_range_spec(s, rest, hi, o));
}

} // verus!
