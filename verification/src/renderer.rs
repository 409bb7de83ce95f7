//! The executable event-to-markup projection, proved equal to the
//! mathematical description in [`crate::render_spec`].

use vstd::prelude::*;
use vstd::string::StringExecFns;

use crate::components::{get_code_theme_classes, MarkdownClasses, MarkdownOptions};
use crate::events::{CodeBlockKind, ElementKind, Event, HeadingLevel};
use crate::markup::{
    attrs_add, attrs_new, attrs_view, el, lemma_views_concat, lemma_views_pointwise,
    lemma_views_push, txt, MarkupNode, NodeV,
};
use crate::numeral::u64_to_string;
use crate::render_spec::{
    always_class, attr_v, code_class, element, emit_leaf, emit_start, heading_class, heading_tag,
    image_attrs, language_class, link_attrs, match_from, opt_class, pre_class, render_range_spec,
    render_spec, text_content,
};

verus! {

/// Failure surfaced to the caller. The projection itself is total: it reports
/// an error only for failures that originate outside the core and are wrapped
/// by the caller.
#[derive(Debug)]
pub struct RenderError {
    pub message: String,
}

/// Renders a flat event sequence into a markup tree under fixed options.
pub struct MarkdownRenderer {
    options: MarkdownOptions,
}

fn pick_class(on: bool, yes: &'static str, no: &'static str) -> (r: &'static str)
    ensures
        r@ == (if on {
            yes@
        } else {
            no@
        }),
{
    if on {
        yes
    } else {
        no
    }
}

fn heading_tag_exec(l: &HeadingLevel) -> (r: &'static str)
    ensures
        r@ == heading_tag(*l),
{
    match l {
        HeadingLevel::H1 => "h1",
        HeadingLevel::H2 => "h2",
        HeadingLevel::H3 => "h3",
        HeadingLevel::H4 => "h4",
        HeadingLevel::H5 => "h5",
        HeadingLevel::H6 => "h6",
    }
}

fn heading_class_exec(l: &HeadingLevel) -> (r: &'static str)
    ensures
        r@ == heading_class(*l),
{
    match l {
        HeadingLevel::H1 => MarkdownClasses::H1,
        HeadingLevel::H2 => MarkdownClasses::H2,
        HeadingLevel::H3 => MarkdownClasses::H3,
        HeadingLevel::H4 => MarkdownClasses::H4,
        HeadingLevel::H5 => MarkdownClasses::H5,
        HeadingLevel::H6 => MarkdownClasses::H6,
    }
}

/// A one-node sequence.
fn one(n: MarkupNode) -> (v: Vec<MarkupNode>)
    ensures
        MarkupNode::views(v@) == seq![n.view()],
{
    let ghost nv = n.view();
    let mut v: Vec<MarkupNode> = Vec::new();
    v.push(n);
    proof {
        lemma_views_pointwise(v@);
        assert(MarkupNode::views(v@) =~= seq![nv]);
    }
    v
}

/// An empty node sequence.
fn no_nodes() -> (v: Vec<MarkupNode>)
    ensures
        MarkupNode::views(v@) == Seq::<NodeV>::empty(),
{
    let v: Vec<MarkupNode> = Vec::new();
    proof {
        assert(MarkupNode::views(v@) =~= Seq::<NodeV>::empty());
    }
    v
}

impl MarkdownRenderer {
    /// The options this renderer was built with.
    pub closed spec fn options_spec(&self) -> MarkdownOptions {
        self.options
    }

    pub fn new(options: MarkdownOptions) -> (r: Self)
        ensures
            r.options_spec() == options,
    {
        MarkdownRenderer { options }
    }

    /// Projects the whole event sequence to its markup tree. Total over every
    /// input, including malformed nesting: an unmatched start consumes all
    /// remaining events as its children, and a bare end event is passed over.
    pub fn render(&self, events: &Vec<Event>) -> (r: Result<Vec<MarkupNode>, RenderError>)
        ensures
            r is Ok,
            MarkupNode::views(r->Ok_0@) == render_spec(events@, self.options_spec()),
    {
        Ok(self.render_events(events, 0, events.len()))
    }

    /// Renders the events in `[lo, hi)`, dispatching on each event in turn and
    /// jumping whole containers.
    fn render_events(&self, events: &Vec<Event>, lo: usize, hi: usize) -> (r: Vec<MarkupNode>)
        requires
            lo <= hi <= events@.len(),
        ensures
            MarkupNode::views(r@) == render_range_spec(
                events@,
                lo as int,
                hi as int,
                self.options_spec(),
            ),
        decreases hi - lo, 0int,
    {
        let ghost o = self.options_spec();
        let ghost s = events@;
        let mut out: Vec<MarkupNode> = Vec::new();
        let mut i = lo;
        proof {
            assert(MarkupNode::views(out@) =~= Seq::<NodeV>::empty());
        }
        while i < hi
            invariant
                lo <= i <= hi <= events@.len(),
                s == events@,
                o == self.options_spec(),
                MarkupNode::views(out@) + render_range_spec(s, i as int, hi as int, o)
                    == render_range_spec(s, lo as int, hi as int, o),
            decreases hi - i,
        {
            let ghost pre = i as int;
            let ghost out_pre = out@;
            match &events[i] {
                Event::StartElement(kind) => {
                    let m = self.find_matching_end(events, i + 1, hi);
                    let mut nodes = self.render_container(kind, events, i + 1, m);
                    let ghost nodes_v = nodes@;
                    out.append(&mut nodes);
                    i = if m < hi {
                        m + 1
                    } else {
                        hi
                    };
                    proof {
                        lemma_views_concat(out_pre, nodes_v);
                        assert(render_range_spec(s, pre, hi as int, o) == MarkupNode::views(nodes_v)
                            + render_range_spec(s, i as int, hi as int, o));
                        assert(MarkupNode::views(out@) + render_range_spec(s, i as int, hi as int, o)
                            =~= render_range_spec(s, lo as int, hi as int, o));
                    }
                },
                Event::EndElement => {
                    i = i + 1;
                    proof {
                        assert(render_range_spec(s, pre, hi as int, o) == render_range_spec(
                            s,
                            i as int,
                            hi as int,
                            o,
                        ));
                    }
                },
                _ => {
                    let n = self.render_leaf(&events[i]);
                    let ghost nv = n.view();
                    out.push(n);
                    i = i + 1;
                    proof {
                        lemma_views_push(out_pre, out@[out@.len() - 1]);
                        assert(render_range_spec(s, pre, hi as int, o) == seq![nv]
                            + render_range_spec(s, i as int, hi as int, o));
                        assert(MarkupNode::views(out@) + render_range_spec(s, i as int, hi as int, o)
                            =~= render_range_spec(s, lo as int, hi as int, o));
                    }
                },
            }
        }
        proof {
            assert(MarkupNode::views(out@) =~= MarkupNode::views(out@) + render_range_spec(
                s,
                hi as int,
                hi as int,
                o,
            ));
        }
        out
    }

    /// One leaf event's node.
    fn render_leaf(&self, e: &Event) -> (n: MarkupNode)
        requires
            !(e is StartElement),
            !(e is EndElement),
        ensures
            emit_leaf(*e, self.options_spec()) == seq![n.view()],
    {
        let expl = self.options.use_explicit_classes;
        match e {
            Event::Text(t) => txt(t.clone()),
            Event::InlineCode(t) => {
                let mut attrs = attrs_new();
                attrs_add(
                    &mut attrs,
                    "class",
                    pick_class(expl, MarkdownClasses::INLINE_CODE, "inline-code").to_owned(),
                );
                proof {
                    assert(attrs_view(attrs@) =~= always_class(
                        if expl {
                            MarkdownClasses::INLINE_CODE@
                        } else {
                            "inline-code"@
                        },
                    ));
                }
                el("code", attrs, one(txt(t.clone())))
            },
            Event::RawInlineHtml(t) => {
                if self.options.allow_raw_html {
                    el("span", attrs_new(), one(MarkupNode::RawHtml(t.clone())))
                } else {
                    txt(t.clone())
                }
            },
            Event::SoftBreak => el("span", attrs_new(), one(txt(" ".to_owned()))),
            Event::HardBreak => el("br", attrs_new(), no_nodes()),
            Event::ThematicBreak => {
                let mut attrs = attrs_new();
                attrs_add(
                    &mut attrs,
                    "class",
                    pick_class(expl, MarkdownClasses::HR, "markdown-hr").to_owned(),
                );
                proof {
                    assert(attrs_view(attrs@) =~= always_class(
                        if expl {
                            MarkdownClasses::HR@
                        } else {
                            "markdown-hr"@
                        },
                    ));
                }
                el("hr", attrs, no_nodes())
            },
            Event::FootnoteReference(l) => {
                let mut in_attrs = attrs_new();
                attrs_add(&mut in_attrs, "href", "#".to_owned().concat(l.as_str()));
                proof {
                    assert(attrs_view(in_attrs@) =~= seq![attr_v("href"@, "#"@ + l@)]);
                }
                let anchor = el("a", in_attrs, one(txt(l.clone())));
                let mut attrs = attrs_new();
                attrs_add(
                    &mut attrs,
                    "class",
                    pick_class(expl, MarkdownClasses::FOOTNOTE_REF, "footnote-ref").to_owned(),
                );
                proof {
                    assert(attrs_view(attrs@) =~= always_class(
                        if expl {
                            MarkdownClasses::FOOTNOTE_REF@
                        } else {
                            "footnote-ref"@
                        },
                    ));
                }
                el("sup", attrs, one(anchor))
            },
            Event::TaskMarker(c) => {
                let mut attrs = attrs_new();
                attrs_add(&mut attrs, "type", "checkbox".to_owned());
                attrs_add(&mut attrs, "class", pick_class(expl, MarkdownClasses::CHECKBOX, "").to_owned());
                attrs_add(&mut attrs, "checked", pick_class(*c, "true", "false").to_owned());
                attrs_add(&mut attrs, "disabled", "".to_owned());
                proof {
                    assert(attrs_view(attrs@) =~= seq![
                        attr_v("type"@, "checkbox"@),
                        attr_v(
                            "class"@,
                            if expl {
                                MarkdownClasses::CHECKBOX@
                            } else {
                                ""@
                            },
                        ),
                        attr_v(
                            "checked"@,
                            if *c {
                                "true"@
                            } else {
                                "false"@
                            },
                        ),
                        attr_v("disabled"@, ""@),
                    ]);
                }
                el("input", attrs, no_nodes())
            },
            Event::InlineMath(t) => {
                let mut attrs = attrs_new();
                attrs_add(
                    &mut attrs,
                    "class",
                    pick_class(expl, MarkdownClasses::MATH_INLINE, "math math-inline").to_owned(),
                );
                proof {
                    assert(attrs_view(attrs@) =~= always_class(
                        if expl {
                            MarkdownClasses::MATH_INLINE@
                        } else {
                            "math math-inline"@
                        },
                    ));
                }
                el("span", attrs, one(txt(t.clone())))
            },
            Event::DisplayMath(t) => {
                let mut attrs = attrs_new();
                attrs_add(
                    &mut attrs,
                    "class",
                    pick_class(expl, MarkdownClasses::MATH_DISPLAY, "math math-display").to_owned(),
                );
                proof {
                    assert(attrs_view(attrs@) =~= always_class(
                        if expl {
                            MarkdownClasses::MATH_DISPLAY@
                        } else {
                            "math math-display"@
                        },
                    ));
                }
                el("div", attrs, one(txt(t.clone())))
            },
            // excluded by the precondition; any value satisfies the contract here
            Event::StartElement(_) => txt("".to_owned()),
            Event::EndElement => txt("".to_owned()),
        }
    }

    /// Wraps already-rendered children in a container whose class attribute is
    /// carried only when explicit styling is on.
    fn wrap(&self, tag: &'static str, class: &'static str, children: Vec<MarkupNode>) -> (n:
        MarkupNode)
        ensures
            n.view() == element(
                tag@,
                opt_class(self.options_spec().use_explicit_classes, class@),
                MarkupNode::views(children@),
            ),
    {
        let mut attrs = attrs_new();
        if self.options.use_explicit_classes {
            attrs_add(&mut attrs, "class", class.to_owned());
        }
        proof {
            assert(attrs_view(attrs@) =~= opt_class(
                self.options_spec().use_explicit_classes,
                class@,
            ));
        }
        el(tag, attrs, children)
    }

    /// Wraps children in a container whose class attribute is always present:
    /// the explicit token or the given fallback.
    fn wrap_always(&self, tag: &'static str, class: &'static str, fallback: &'static str, children:
        Vec<MarkupNode>) -> (n: MarkupNode)
        ensures
            n.view() == element(
                tag@,
                always_class(
                    if self.options_spec().use_explicit_classes {
                        class@
                    } else {
                        fallback@
                    },
                ),
                MarkupNode::views(children@),
            ),
    {
        let mut attrs = attrs_new();
        attrs_add(
            &mut attrs,
            "class",
            pick_class(self.options.use_explicit_classes, class, fallback).to_owned(),
        );
        proof {
            assert(attrs_view(attrs@) =~= always_class(
                if self.options_spec().use_explicit_classes {
                    class@
                } else {
                    fallback@
                },
            ));
        }
        el(tag, attrs, children)
    }

    /// One container's nodes: its children are the events in `[lo, m)`.
    fn render_container(&self, kind: &ElementKind, events: &Vec<Event>, lo: usize, m: usize) -> (r:
        Vec<MarkupNode>)
        requires
            lo <= m <= events@.len(),
        ensures
            MarkupNode::views(r@) == emit_start(
                *kind,
                render_range_spec(events@, lo as int, m as int, self.options_spec()),
                text_content(events@, lo as int, m as int),
                self.options_spec(),
            ),
        decreases m - lo, 1int,
    {
        let ghost o = self.options_spec();
        let expl = self.options.use_explicit_classes;
        match kind {
            ElementKind::Paragraph => {
                let children = self.render_events(events, lo, m);
                one(self.wrap("p", MarkdownClasses::PARAGRAPH, children))
            },
            ElementKind::Heading(l) => {
                let children = self.render_events(events, lo, m);
                one(self.wrap(heading_tag_exec(l), heading_class_exec(l), children))
            },
            ElementKind::BlockQuote => {
                let children = self.render_events(events, lo, m);
                one(
                    self.wrap_always(
                        "blockquote",
                        MarkdownClasses::BLOCKQUOTE,
                        "markdown-blockquote",
                        children,
                    ),
                )
            },
            ElementKind::CodeBlock(k) => {
                let text = self.extract_text_content(events, lo, m);
                one(self.code_block_node(k, text))
            },
            ElementKind::List(start) => {
                let children = self.render_events(events, lo, m);
                match start {
                    Some(n) => {
                        let mut attrs = attrs_new();
                        if expl {
                            attrs_add(&mut attrs, "class", MarkdownClasses::OL.to_owned());
                        }
                        attrs_add(&mut attrs, "start", u64_to_string(*n));
                        proof {
                            assert(attrs_view(attrs@) =~= opt_class(expl, MarkdownClasses::OL@)
                                + seq![attr_v("start"@, crate::numeral::dec_str(*n as int))]);
                        }
                        one(el("ol", attrs, children))
                    },
                    None => one(self.wrap("ul", MarkdownClasses::UL, children)),
                }
            },
            ElementKind::ListItem => {
                let children = self.render_events(events, lo, m);
                one(self.wrap("li", MarkdownClasses::LI, children))
            },
            ElementKind::Emphasis => {
                let children = self.render_events(events, lo, m);
                one(self.wrap("em", MarkdownClasses::EM, children))
            },
            ElementKind::Strong => {
                let children = self.render_events(events, lo, m);
                one(self.wrap("strong", MarkdownClasses::STRONG, children))
            },
            ElementKind::Strikethrough => {
                let children = self.render_events(events, lo, m);
                one(self.wrap("del", MarkdownClasses::DEL, children))
            },
            ElementKind::Link { url, title } => {
                let children = self.render_events(events, lo, m);
                one(self.link_node(url, title, children))
            },
            ElementKind::Image { url, title } => {
                let alt = self.extract_text_content(events, lo, m);
                one(self.image_node(url, title, alt))
            },
            ElementKind::Table => {
                let children = self.render_events(events, lo, m);
                one(self.wrap_always("table", MarkdownClasses::TABLE, "markdown-table", children))
            },
            ElementKind::TableHead => {
                let children = self.render_events(events, lo, m);
                one(self.wrap("thead", MarkdownClasses::THEAD, children))
            },
            ElementKind::TableRow => {
                let children = self.render_events(events, lo, m);
                one(self.wrap("tr", MarkdownClasses::TR, children))
            },
            ElementKind::TableCell => {
                let children = self.render_events(events, lo, m);
                one(self.wrap("td", MarkdownClasses::TD, children))
            },
            ElementKind::FootnoteDefinition(l) => {
                let children = self.render_events(events, lo, m);
                let mut attrs = attrs_new();
                attrs_add(
                    &mut attrs,
                    "class",
                    pick_class(expl, MarkdownClasses::FOOTNOTE_DEF, "footnote-definition").to_owned(),
                );
                attrs_add(&mut attrs, "id", l.clone());
                proof {
                    assert(attrs_view(attrs@) =~= seq![
                        attr_v(
                            "class"@,
                            if expl {
                                MarkdownClasses::FOOTNOTE_DEF@
                            } else {
                                "footnote-definition"@
                            },
                        ),
                        attr_v("id"@, l@),
                    ]);
                }
                one(el("div", attrs, children))
            },
            ElementKind::HtmlBlock => {
                let text = self.extract_text_content(events, lo, m);
                if self.options.allow_raw_html {
                    one(el("div", attrs_new(), one(MarkupNode::RawHtml(text))))
                } else {
                    let mut attrs = attrs_new();
                    attrs_add(
                        &mut attrs,
                        "class",
                        pick_class(expl, MarkdownClasses::RAW_HTML_BLOCK, "raw-html-block").to_owned(),
                    );
                    proof {
                        assert(attrs_view(attrs@) =~= always_class(
                            if expl {
                                MarkdownClasses::RAW_HTML_BLOCK@
                            } else {
                                "raw-html-block"@
                            },
                        ));
                    }
                    one(el("pre", attrs, one(txt(text))))
                }
            },
            ElementKind::DefinitionList => {
                let children = self.render_events(events, lo, m);
                one(self.wrap("dl", MarkdownClasses::DL, children))
            },
            ElementKind::DefinitionTerm => {
                let children = self.render_events(events, lo, m);
                one(self.wrap("dt", MarkdownClasses::DT, children))
            },
            ElementKind::DefinitionDescription => {
                let children = self.render_events(events, lo, m);
                one(self.wrap("dd", MarkdownClasses::DD, children))
            },
            ElementKind::Superscript => {
                let children = self.render_events(events, lo, m);
                one(self.wrap("sup", MarkdownClasses::SUP, children))
            },
            ElementKind::Subscript => {
                let children = self.render_events(events, lo, m);
                one(self.wrap("sub", MarkdownClasses::SUB, children))
            },
            ElementKind::MetadataBlock => no_nodes(),
        }
    }

    /// The code block element: a `pre` wrapper around a `code` node holding
    /// the block's text.
    fn code_block_node(&self, k: &CodeBlockKind, text: String) -> (n: MarkupNode)
        ensures
            n.view() == element(
                "pre"@,
                always_class(pre_class(*k, self.options_spec())),
                seq![
                    element(
                        "code"@,
                        always_class(code_class(*k, self.options_spec())),
                        seq![NodeV::Text(text@)],
                    ),
                ],
            ),
    {
        let ghost o = self.options_spec();
        let expl = self.options.use_explicit_classes;
        let lang: Option<String> = if self.options.syntax_highlighting_language_classes {
            match k {
                CodeBlockKind::Indented => Some("language-text".to_owned()),
                CodeBlockKind::Fenced(l) => {
                    let ls: &str = l.as_str();
                    if ls.is_empty() {
                        Some("language-text".to_owned())
                    } else {
                        Some("language-".to_owned().concat(ls))
                    }
                },
            }
        } else {
            None
        };
        proof {
            match language_class(*k, o) {
                Some(lv) => {
                    assert(lang is Some && lang->0@ == lv);
                },
                None => {
                    assert(lang is None);
                },
            }
        }
        let theme: Option<&'static str> = match &self.options.code_theme {
            Some(t) => Some(get_code_theme_classes(t)),
            None => None,
        };
        let mut pre_c: String = pick_class(expl, MarkdownClasses::CODE_BLOCK, "markdown-code-block")
            .to_owned();
        if let Some(l) = &lang {
            pre_c.append(" ");
            pre_c.append(l.as_str());
        }
        if let Some(t) = &theme {
            pre_c.append(" ");
            pre_c.append(t);
        }
        proof {
            assert(pre_c@ =~= pre_class(*k, o));
        }
        let code_c: String = if expl {
            let mut c = MarkdownClasses::CODE_BLOCK_CODE.to_owned();
            if let Some(l) = &lang {
                c.append(" ");
                c.append(l.as_str());
            }
            c
        } else {
            match &lang {
                Some(l) => l.clone(),
                None => "".to_owned(),
            }
        };
        proof {
            assert(code_c@ =~= code_class(*k, o));
        }
        let mut code_attrs = attrs_new();
        attrs_add(&mut code_attrs, "class", code_c);
        proof {
            assert(attrs_view(code_attrs@) =~= always_class(code_class(*k, o)));
        }
        let code_node = el("code", code_attrs, one(txt(text)));
        let mut pre_attrs = attrs_new();
        attrs_add(&mut pre_attrs, "class", pre_c);
        proof {
            assert(attrs_view(pre_attrs@) =~= always_class(pre_class(*k, o)));
        }
        el("pre", pre_attrs, one(code_node))
    }

    /// The anchor element of a link.
    fn link_node(&self, url: &String, title: &String, children: Vec<MarkupNode>) -> (n: MarkupNode)
        ensures
            n.view() == element(
                "a"@,
                link_attrs(url@, title@, self.options_spec()),
                MarkupNode::views(children@),
            ),
    {
        let expl = self.options.use_explicit_classes;
        let mut attrs = attrs_new();
        attrs_add(&mut attrs, "class", pick_class(expl, MarkdownClasses::LINK, "").to_owned());
        attrs_add(&mut attrs, "href", url.clone());
        if !title.as_str().is_empty() {
            attrs_add(&mut attrs, "title", title.clone());
        }
        if self.options.open_links_in_new_tab {
            attrs_add(&mut attrs, "target", "_blank".to_owned());
            attrs_add(&mut attrs, "rel", "noopener noreferrer".to_owned());
        }
        proof {
            assert(attrs_view(attrs@) =~= link_attrs(url@, title@, self.options_spec()));
        }
        el("a", attrs, children)
    }

    /// The image element: leaf-like, its interior text becomes the `alt` text.
    fn image_node(&self, url: &String, title: &String, alt: String) -> (n: MarkupNode)
        ensures
            n.view() == element(
                "img"@,
                image_attrs(url@, title@, alt@, self.options_spec()),
                Seq::empty(),
            ),
    {
        let expl = self.options.use_explicit_classes;
        let mut attrs = attrs_new();
        attrs_add(&mut attrs, "src", url.clone());
        attrs_add(&mut attrs, "alt", alt);
        if !title.as_str().is_empty() {
            attrs_add(&mut attrs, "title", title.clone());
        }
        attrs_add(
            &mut attrs,
            "class",
            pick_class(expl, MarkdownClasses::IMAGE, "markdown-image").to_owned(),
        );
        proof {
            assert(attrs_view(attrs@) =~= image_attrs(url@, title@, alt@, self.options_spec()));
        }
        el("img", attrs, no_nodes())
    }

    /// Scans forward from `lo`, tracking nesting depth, for the end event that
    /// closes the container opened just before `lo`. Returns `hi` when the
    /// stream runs out first.
    fn find_matching_end(&self, events: &Vec<Event>, lo: usize, hi: usize) -> (m: usize)
        requires
            lo <= hi <= events@.len(),
        ensures
            m == match_from(events@, lo as int, hi as int, 0),
            lo <= m <= hi,
    {
        let ghost s = events@;
        let mut i = lo;
        let mut depth: usize = 0;
        while i < hi
            invariant
                lo <= i <= hi <= events@.len(),
                s == events@,
                depth <= i - lo,
                match_from(s, lo as int, hi as int, 0) == match_from(
                    s,
                    i as int,
                    hi as int,
                    depth as int,
                ),
            decreases hi - i,
        {
            match &events[i] {
                Event::StartElement(_) => {
                    depth = depth + 1;
                },
                Event::EndElement => {
                    if depth == 0 {
                        return i;
                    }
                    depth = depth - 1;
                },
                _ => {},
            }
            i = i + 1;
        }
        hi
    }

    /// The concatenation of all plain text and inline code in `[lo, hi)`, in
    /// order, with no added separators.
    fn extract_text_content(&self, events: &Vec<Event>, lo: usize, hi: usize) -> (r: String)
        requires
            lo <= hi <= events@.len(),
        ensures
            r@ == text_content(events@, lo as int, hi as int),
    {
        let ghost s = events@;
        let mut r = String::new();
        let mut i = lo;
        while i < hi
            invariant
                lo <= i <= hi <= events@.len(),
                s == events@,
                r@ + text_content(s, i as int, hi as int) == text_content(
                    s,
                    lo as int,
                    hi as int,
                ),
            decreases hi - i,
        {
            let ghost r_pre = r@;
            let ghost pre = i as int;
            match &events[i] {
                Event::Text(t) => r.append(t.as_str()),
                Event::InlineCode(t) => r.append(t.as_str()),
                _ => {},
            }
            i = i + 1;
            proof {
                assert(r@ + text_content(s, i as int, hi as int) =~= text_content(
                    s,
                    lo as int,
                    hi as int,
                ));
            }
        }
        proof {
            assert(r@ =~= r@ + text_content(s, hi as int, hi as int));
        }
        r
    }
}

} // verus!
