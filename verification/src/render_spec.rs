//! The mathematical description of the event-to-markup projection: what tree
//! a given event sequence and configuration stand for. The executable
//! renderer is proved to return exactly these values.

use vstd::prelude::*;

use crate::components::{theme_class, MarkdownClasses, MarkdownOptions};
use crate::events::{CodeBlockKind, ElementKind, Event, HeadingLevel};
use crate::markup::{AttrV, NodeV};
use crate::numeral::dec_str;

verus! {

pub open spec fn attr_v(name: Seq<char>, value: Seq<char>) -> AttrV {
    AttrV { name, value }
}

pub open spec fn element(tag: Seq<char>, attrs: Seq<AttrV>, children: Seq<NodeV>) -> NodeV {
    NodeV::Element { tag, attrs, children }
}

/// A single `class` attribute carried only when explicit styling is on.
pub open spec fn opt_class(on: bool, c: Seq<char>) -> Seq<AttrV> {
    if on {
        seq![attr_v("class"@, c)]
    } else {
        Seq::empty()
    }
}

/// A single `class` attribute that is always present.
pub open spec fn always_class(c: Seq<char>) -> Seq<AttrV> {
    seq![attr_v("class"@, c)]
}

/// The tag each heading level produces.
pub open spec fn heading_tag(l: HeadingLevel) -> Seq<char> {
    match l {
        HeadingLevel::H1 => "h1"@,
        HeadingLevel::H2 => "h2"@,
        HeadingLevel::H3 => "h3"@,
        HeadingLevel::H4 => "h4"@,
        HeadingLevel::H5 => "h5"@,
        HeadingLevel::H6 => "h6"@,
    }
}

/// The explicit style token of each heading level.
pub open spec fn heading_class(l: HeadingLevel) -> Seq<char> {
    match l {
        HeadingLevel::H1 => MarkdownClasses::H1@,
        HeadingLevel::H2 => MarkdownClasses::H2@,
        HeadingLevel::H3 => MarkdownClasses::H3@,
        HeadingLevel::H4 => MarkdownClasses::H4@,
        HeadingLevel::H5 => MarkdownClasses::H5@,
        HeadingLevel::H6 => MarkdownClasses::H6@,
    }
}

/// The `language-...` token of a code block, when language classes are on.
/// An indented block and an empty info string fall back to the generic
/// `language-text` marker.
pub open spec fn language_class(k: CodeBlockKind, o: MarkdownOptions) -> Option<Seq<char>> {
    if o.syntax_highlighting_language_classes {
        match k {
            CodeBlockKind::Indented => Some("language-text"@),
            CodeBlockKind::Fenced(l) => if l@.len() == 0 {
                Some("language-text"@)
            } else {
                Some("language-"@ + l@)
            },
        }
    } else {
        None
    }
}

/// The theme token appended to a code block's wrapper, if a theme is set.
pub open spec fn theme_opt(o: MarkdownOptions) -> Option<Seq<char>> {
    match o.code_theme {
        Some(t) => Some(theme_class(t)),
        None => None,
    }
}

/// The combined class of a code block's `pre` wrapper.
pub open spec fn pre_class(k: CodeBlockKind, o: MarkdownOptions) -> Seq<char> {
    let base = if o.use_explicit_classes {
        MarkdownClasses::CODE_BLOCK@
    } else {
        "markdown-code-block"@
    };
    match (language_class(k, o), theme_opt(o)) {
        (Some(l), Some(t)) => base + " "@ + l + " "@ + t,
        (Some(l), None) => base + " "@ + l,
        (None, Some(t)) => base + " "@ + t,
        (None, None) => base,
    }
}

/// The class of a code block's inner `code` node.
pub open spec fn code_class(k: CodeBlockKind, o: MarkdownOptions) -> Seq<char> {
    if o.use_explicit_classes {
        match language_class(k, o) {
            Some(l) => MarkdownClasses::CODE_BLOCK_CODE@ + " "@ + l,
            None => MarkdownClasses::CODE_BLOCK_CODE@,
        }
    } else {
        match language_class(k, o) {
            Some(l) => l,
            None => ""@,
        }
    }
}

/// The attributes of a link: class and destination always; the title only when
/// non-empty; the new-tab pair only when configured.
pub open spec fn link_attrs(url: Seq<char>, title: Seq<char>, o: MarkdownOptions) -> Seq<AttrV> {
    let base = seq![
        attr_v("class"@, if o.use_explicit_classes { MarkdownClasses::LINK@ } else { ""@ }),
        attr_v("href"@, url),
    ];
    let titled = if title.len() > 0 {
        base.push(attr_v("title"@, title))
    } else {
        base
    };
    if o.open_links_in_new_tab {
        titled + seq![attr_v("target"@, "_blank"@), attr_v("rel"@, "noopener noreferrer"@)]
    } else {
        titled
    }
}

/// The attributes of an image: source and alternative text always; the title
/// only when non-empty; the class always.
pub open spec fn image_attrs(url: Seq<char>, title: Seq<char>, alt: Seq<char>, o: MarkdownOptions) -> Seq<AttrV> {
    let base = seq![attr_v("src"@, url), attr_v("alt"@, alt)];
    let titled = if title.len() > 0 {
        base.push(attr_v("title"@, title))
    } else {
        base
    };
    titled.push(
        attr_v("class"@, if o.use_explicit_classes { MarkdownClasses::IMAGE@ } else { "markdown-image"@ }),
    )
}

/// The nodes a single leaf event stands for. Start and end events produce
/// nothing here: the bracket-matching path handles them.
pub open spec fn emit_leaf(e: Event, o: MarkdownOptions) -> Seq<NodeV> {
    match e {
        Event::StartElement(_) => Seq::empty(),
        Event::EndElement => Seq::empty(),
        Event::Text(s) => seq![NodeV::Text(s@)],
        Event::InlineCode(s) => seq![
            element(
                "code"@,
                always_class(
                    if o.use_explicit_classes { MarkdownClasses::INLINE_CODE@ } else { "inline-code"@ },
                ),
                seq![NodeV::Text(s@)],
            ),
        ],
        Event::RawInlineHtml(s) => if o.allow_raw_html {
            seq![element("span"@, Seq::empty(), seq![NodeV::RawHtml(s@)])]
        } else {
            seq![NodeV::Text(s@)]
        },
        Event::SoftBreak => seq![element("span"@, Seq::empty(), seq![NodeV::Text(" "@)])],
        Event::HardBreak => seq![element("br"@, Seq::empty(), Seq::empty())],
        Event::ThematicBreak => seq![
            element(
                "hr"@,
                always_class(if o.use_explicit_classes { MarkdownClasses::HR@ } else { "markdown-hr"@ }),
                Seq::empty(),
            ),
        ],
        Event::FootnoteReference(l) => seq![
            element(
                "sup"@,
                always_class(
                    if o.use_explicit_classes { MarkdownClasses::FOOTNOTE_REF@ } else { "footnote-ref"@ },
                ),
                seq![element("a"@, seq![attr_v("href"@, "#"@ + l@)], seq![NodeV::Text(l@)])],
            ),
        ],
        Event::TaskMarker(c) => seq![
            element(
                "input"@,
                seq![
                    attr_v("type"@, "checkbox"@),
                    attr_v("class"@, if o.use_explicit_classes { MarkdownClasses::CHECKBOX@ } else { ""@ }),
                    attr_v("checked"@, if c { "true"@ } else { "false"@ }),
                    attr_v("disabled"@, ""@),
                ],
                Seq::empty(),
            ),
        ],
        Event::InlineMath(s) => seq![
            element(
                "span"@,
                always_class(
                    if o.use_explicit_classes { MarkdownClasses::MATH_INLINE@ } else { "math math-inline"@ },
                ),
                seq![NodeV::Text(s@)],
            ),
        ],
        Event::DisplayMath(s) => seq![
            element(
                "div"@,
                always_class(
                    if o.use_explicit_classes { MarkdownClasses::MATH_DISPLAY@ } else { "math math-display"@ },
                ),
                seq![NodeV::Text(s@)],
            ),
        ],
    }
}

/// The nodes one container stands for, given the already-projected values of
/// its children and the plain-text concatenation of its interior.
pub open spec fn emit_start(
    kind: ElementKind,
    children: Seq<NodeV>,
    inner_text: Seq<char>,
    o: MarkdownOptions,
) -> Seq<NodeV> {
    let expl = o.use_explicit_classes;
    match kind {
        ElementKind::Paragraph => seq![
            element("p"@, opt_class(expl, MarkdownClasses::PARAGRAPH@), children),
        ],
        ElementKind::Heading(l) => seq![
            element(heading_tag(l), opt_class(expl, heading_class(l)), children),
        ],
        ElementKind::BlockQuote => seq![
            element(
                "blockquote"@,
                always_class(if expl { MarkdownClasses::BLOCKQUOTE@ } else { "markdown-blockquote"@ }),
                children,
            ),
        ],
        ElementKind::CodeBlock(k) => seq![
            element(
                "pre"@,
                always_class(pre_class(k, o)),
                seq![element("code"@, always_class(code_class(k, o)), seq![NodeV::Text(inner_text)])],
            ),
        ],
        ElementKind::List(start) => match start {
            Some(n) => seq![
                element(
                    "ol"@,
                    opt_class(expl, MarkdownClasses::OL@) + seq![attr_v("start"@, dec_str(n as int))],
                    children,
                ),
            ],
            None => seq![element("ul"@, opt_class(expl, MarkdownClasses::UL@), children)],
        },
        ElementKind::ListItem => seq![
            element("li"@, opt_class(expl, MarkdownClasses::LI@), children),
        ],
        ElementKind::Emphasis => seq![
            element("em"@, opt_class(expl, MarkdownClasses::EM@), children),
        ],
        ElementKind::Strong => seq![
            element("strong"@, opt_class(expl, MarkdownClasses::STRONG@), children),
        ],
        ElementKind::Strikethrough => seq![
            element("del"@, opt_class(expl, MarkdownClasses::DEL@), children),
        ],
        ElementKind::Link { url, title } => seq![
            element("a"@, link_attrs(url@, title@, o), children),
        ],
        ElementKind::Image { url, title } => seq![
            element("img"@, image_attrs(url@, title@, inner_text, o), Seq::empty()),
        ],
        ElementKind::Table => seq![
            element(
                "table"@,
                always_class(if expl { MarkdownClasses::TABLE@ } else { "markdown-table"@ }),
                children,
            ),
        ],
        ElementKind::TableHead => seq![
            element("thead"@, opt_class(expl, MarkdownClasses::THEAD@), children),
        ],
        ElementKind::TableRow => seq![
            element("tr"@, opt_class(expl, MarkdownClasses::TR@), children),
        ],
        ElementKind::TableCell => seq![
            element("td"@, opt_class(expl, MarkdownClasses::TD@), children),
        ],
        ElementKind::FootnoteDefinition(l) => seq![
            element(
                "div"@,
                seq![
                    attr_v(
                        "class"@,
                        if expl { MarkdownClasses::FOOTNOTE_DEF@ } else { "footnote-definition"@ },
                    ),
                    attr_v("id"@, l@),
                ],
                children,
            ),
        ],
        ElementKind::HtmlBlock => if o.allow_raw_html {
            seq![element("div"@, Seq::empty(), seq![NodeV::RawHtml(inner_text)])]
        } else {
            seq![
                element(
                    "pre"@,
                    always_class(if expl { MarkdownClasses::RAW_HTML_BLOCK@ } else { "raw-html-block"@ }),
                    seq![NodeV::Text(inner_text)],
                ),
            ]
        },
        ElementKind::DefinitionList => seq![
            element("dl"@, opt_class(expl, MarkdownClasses::DL@), children),
        ],
        ElementKind::DefinitionTerm => seq![
            element("dt"@, opt_class(expl, MarkdownClasses::DT@), children),
        ],
        ElementKind::DefinitionDescription => seq![
            element("dd"@, opt_class(expl, MarkdownClasses::DD@), children),
        ],
        ElementKind::Superscript => seq![
            element("sup"@, opt_class(expl, MarkdownClasses::SUP@), children),
        ],
        ElementKind::Subscript => seq![
            element("sub"@, opt_class(expl, MarkdownClasses::SUB@), children),
        ],
        ElementKind::MetadataBlock => Seq::empty(),
    }
}

/// Position of the end event that closes the container a forward scan is
/// inside of: the first position at or after `i` (and before `hi`) where an
/// end event is met at relative depth zero, or `hi` when the stream runs out
/// first.
pub open spec fn match_from(s: Seq<Event>, i: int, hi: int, depth: int) -> int
    decreases hi - i,
{
    if i >= hi {
        hi
    } else {
        match s[i] {
            Event::StartElement(_) => match_from(s, i + 1, hi, depth + 1),
            Event::EndElement => if depth == 0 {
                i
            } else {
                match_from(s, i + 1, hi, depth - 1)
            },
            _ => match_from(s, i + 1, hi, depth),
        }
    }
}

/// The scan never leaves the range it was given.
pub proof fn lemma_match_from_bounds(s: Seq<Event>, i: int, hi: int, depth: int)
    requires
        i <= hi,
    ensures
        i <= match_from(s, i, hi, depth) <= hi,
    decreases hi - i,
{
    if i < hi {
        match s[i] {
            Event::StartElement(_) => lemma_match_from_bounds(s, i + 1, hi, depth + 1),
            Event::EndElement => if depth != 0 {
                lemma_match_from_bounds(s, i + 1, hi, depth - 1)
            },
            _ => lemma_match_from_bounds(s, i + 1, hi, depth),
        }
    }
}

/// The concatenation of all plain text and inline code between `lo` and `hi`,
/// in order, with no added separators.
pub open spec fn text_content(s: Seq<Event>, lo: int, hi: int) -> Seq<char>
    decreases hi - lo,
{
    if lo >= hi {
        Seq::empty()
    } else {
        (match s[lo] {
            Event::Text(t) => t@,
            Event::InlineCode(t) => t@,
            _ => Seq::<char>::empty(),
        }) + text_content(s, lo + 1, hi)
    }
}

/// The projection of the events in `[lo, hi)` of `s` to markup values. A
/// start event takes all events up to its matching end (or, in a malformed
/// stream, all remaining events) as its children; a bare end event is passed
/// over; every other event stands for its leaf nodes.
pub open spec fn render_range_spec(s: Seq<Event>, lo: int, hi: int, o: MarkdownOptions) -> Seq<NodeV>
    decreases hi - lo,
{
    if lo >= hi {
        Seq::empty()
    } else {
        match s[lo] {
            Event::StartElement(kind) => {
                let m0 = match_from(s, lo + 1, hi, 0);
                // the scan stays in [lo + 1, hi]; the clamp only keeps the
                // definition total without appeal to that fact
                let m = if m0 < lo + 1 {
                    lo + 1
                } else if m0 > hi {
                    hi
                } else {
                    m0
                };
                let rest = if m + 1 < hi {
                    m + 1
                } else {
                    hi
                };
                emit_start(kind, render_range_spec(s, lo + 1, m, o), text_content(s, lo + 1, m), o)
                    + render_range_spec(s, rest, hi, o)
            },
            Event::EndElement => render_range_spec(s, lo + 1, hi, o),
            _ => emit_leaf(s[lo], o) + render_range_spec(s, lo + 1, hi, o),
        }
    }
}

/// The whole projection: all top-level renders of the full stream, in order.
pub open spec fn render_spec(s: Seq<Event>, o: MarkdownOptions) -> Seq<NodeV> {
    render_range_spec(s, 0, s.len() as int, o)
}

} // verus!
