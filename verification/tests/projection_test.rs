use leptos_md::{
    get_code_theme_classes, get_enhanced_prose_classes, CodeBlockKind, CodeBlockTheme, ElementKind,
    Event, HeadingLevel, MarkdownOptions, MarkdownRenderer, MarkupNode,
};

fn render(events: Vec<Event>, options: MarkdownOptions) -> Vec<MarkupNode> {
    MarkdownRenderer::new(options)
        .render(&events)
        .expect("the projection is total")
}

fn tag_of(n: &MarkupNode) -> &str {
    match n {
        MarkupNode::Element { tag, .. } => tag,
        _ => panic!("expected an element"),
    }
}

fn attr_of(n: &MarkupNode, name: &str) -> Option<String> {
    match n {
        MarkupNode::Element { attrs, .. } => attrs
            .iter()
            .find(|a| a.name == name)
            .map(|a| a.value.clone()),
        _ => None,
    }
}

fn children_of(n: &MarkupNode) -> &Vec<MarkupNode> {
    match n {
        MarkupNode::Element { children, .. } => children,
        _ => panic!("expected an element"),
    }
}

#[test]
fn empty_event_sequence_renders_to_empty_tree() {
    let result = MarkdownRenderer::new(MarkdownOptions::new()).render(&Vec::new());
    assert!(result.is_ok());
    assert!(result.unwrap().is_empty());
}

#[test]
fn style_lookup_is_pure() {
    let first = get_code_theme_classes(&CodeBlockTheme::Monokai);
    let second = get_code_theme_classes(&CodeBlockTheme::Monokai);
    assert_eq!(first, second);
    assert_eq!(get_enhanced_prose_classes(), get_enhanced_prose_classes());
}

#[test]
fn theme_presets_are_pairwise_distinct() {
    let themes = [
        CodeBlockTheme::Default,
        CodeBlockTheme::Dark,
        CodeBlockTheme::Light,
        CodeBlockTheme::GitHub,
        CodeBlockTheme::Monokai,
    ];
    for a in 0..themes.len() {
        for b in 0..themes.len() {
            if a != b {
                assert_ne!(
                    get_code_theme_classes(&themes[a]),
                    get_code_theme_classes(&themes[b]),
                );
            }
        }
    }
}

#[test]
fn heading_levels_produce_distinct_tags() {
    let levels = [
        HeadingLevel::H1,
        HeadingLevel::H2,
        HeadingLevel::H3,
        HeadingLevel::H4,
        HeadingLevel::H5,
        HeadingLevel::H6,
    ];
    let mut tags: Vec<String> = Vec::new();
    for level in levels {
        let nodes = render(
            vec![
                Event::StartElement(ElementKind::Heading(level)),
                Event::Text("t".to_string()),
                Event::EndElement,
            ],
            MarkdownOptions::new(),
        );
        assert_eq!(nodes.len(), 1);
        tags.push(tag_of(&nodes[0]).to_string());
    }
    assert_eq!(tags, vec!["h1", "h2", "h3", "h4", "h5", "h6"]);
}

#[test]
fn fenced_code_block_carries_language_classes() {
    let events = vec![
        Event::StartElement(ElementKind::CodeBlock(CodeBlockKind::Fenced(
            "rust".to_string(),
        ))),
        Event::Text("fn main() {}".to_string()),
        Event::EndElement,
    ];
    let nodes = render(events, MarkdownOptions::new().with_language_classes(true));
    assert_eq!(nodes.len(), 1);
    assert_eq!(tag_of(&nodes[0]), "pre");
    let pre_class = attr_of(&nodes[0], "class").unwrap();
    assert!(pre_class.contains("language-rust"));
    let code = &children_of(&nodes[0])[0];
    assert_eq!(tag_of(code), "code");
    assert!(attr_of(code, "class").unwrap().contains("language-rust"));
    assert_eq!(
        children_of(code)[0],
        MarkupNode::Text("fn main() {}".to_string()),
    );
}

#[test]
fn empty_language_falls_back_to_generic_marker() {
    let events = vec![
        Event::StartElement(ElementKind::CodeBlock(CodeBlockKind::Fenced(String::new()))),
        Event::Text("plain".to_string()),
        Event::EndElement,
    ];
    let nodes = render(events, MarkdownOptions::new().with_language_classes(true));
    let pre_class = attr_of(&nodes[0], "class").unwrap();
    assert!(pre_class.contains("language-text"));
    let code = &children_of(&nodes[0])[0];
    assert!(attr_of(code, "class").unwrap().contains("language-text"));
}

#[test]
fn code_block_theme_token_is_appended_to_wrapper() {
    let events = vec![
        Event::StartElement(ElementKind::CodeBlock(CodeBlockKind::Indented)),
        Event::Text("x".to_string()),
        Event::EndElement,
    ];
    let themed = render(
        events.clone(),
        MarkdownOptions::new().with_code_theme(CodeBlockTheme::Monokai),
    );
    assert!(attr_of(&themed[0], "class").unwrap().contains("bg-[#272822]"));
    let plain = render(events, MarkdownOptions::new().without_code_theme());
    assert!(!attr_of(&plain[0], "class").unwrap().contains("bg-[#272822]"));
}

#[test]
fn code_block_text_is_the_ordered_concatenation() {
    let events = vec![
        Event::StartElement(ElementKind::CodeBlock(CodeBlockKind::Indented)),
        Event::Text("one".to_string()),
        Event::InlineCode("two".to_string()),
        Event::Text("three".to_string()),
        Event::EndElement,
    ];
    let nodes = render(events, MarkdownOptions::new());
    let code = &children_of(&nodes[0])[0];
    assert_eq!(
        children_of(code)[0],
        MarkupNode::Text("onetwothree".to_string()),
    );
}

#[test]
fn link_with_empty_title_omits_title_attribute() {
    let events = vec![
        Event::StartElement(ElementKind::Link {
            url: "https://example.com".to_string(),
            title: String::new(),
        }),
        Event::Text("go".to_string()),
        Event::EndElement,
    ];
    let nodes = render(events, MarkdownOptions::new());
    assert_eq!(tag_of(&nodes[0]), "a");
    assert_eq!(
        attr_of(&nodes[0], "href").unwrap(),
        "https://example.com".to_string(),
    );
    assert!(attr_of(&nodes[0], "title").is_none());
}

#[test]
fn link_title_attribute_is_kept_when_non_empty() {
    let events = vec![
        Event::StartElement(ElementKind::Link {
            url: "https://example.com".to_string(),
            title: "a title".to_string(),
        }),
        Event::Text("go".to_string()),
        Event::EndElement,
    ];
    let nodes = render(events, MarkdownOptions::new());
    assert_eq!(attr_of(&nodes[0], "title").unwrap(), "a title".to_string());
}

#[test]
fn new_tab_links_carry_target_and_rel() {
    let events = vec![
        Event::StartElement(ElementKind::Link {
            url: "u".to_string(),
            title: String::new(),
        }),
        Event::EndElement,
    ];
    let with = render(events.clone(), MarkdownOptions::new().with_new_tab_links(true));
    assert_eq!(attr_of(&with[0], "target").unwrap(), "_blank".to_string());
    assert_eq!(
        attr_of(&with[0], "rel").unwrap(),
        "noopener noreferrer".to_string(),
    );
    let without = render(events, MarkdownOptions::new().with_new_tab_links(false));
    assert!(attr_of(&without[0], "target").is_none());
    assert!(attr_of(&without[0], "rel").is_none());
}

#[test]
fn ordered_list_carries_its_start_number() {
    let events = vec![
        Event::StartElement(ElementKind::List(Some(3))),
        Event::StartElement(ElementKind::ListItem),
        Event::Text("third".to_string()),
        Event::EndElement,
        Event::EndElement,
    ];
    let nodes = render(events, MarkdownOptions::new());
    assert_eq!(tag_of(&nodes[0]), "ol");
    assert_eq!(attr_of(&nodes[0], "start").unwrap(), "3".to_string());
    assert_eq!(tag_of(&children_of(&nodes[0])[0]), "li");
}

#[test]
fn unordered_list_carries_no_start_attribute() {
    let events = vec![
        Event::StartElement(ElementKind::List(None)),
        Event::StartElement(ElementKind::ListItem),
        Event::Text("item".to_string()),
        Event::EndElement,
        Event::EndElement,
    ];
    let nodes = render(events, MarkdownOptions::new());
    assert_eq!(tag_of(&nodes[0]), "ul");
    assert!(attr_of(&nodes[0], "start").is_none());
}

#[test]
fn decimal_notation_is_exact() {
    assert_eq!(leptos_md::numeral::u64_to_string(0), "0".to_string());
    assert_eq!(leptos_md::numeral::u64_to_string(42), "42".to_string());
    assert_eq!(leptos_md::numeral::u64_to_string(305), "305".to_string());
    assert_eq!(
        leptos_md::numeral::u64_to_string(u64::MAX),
        "18446744073709551615".to_string(),
    );
}

#[test]
fn disabled_raw_html_escapes_block_source() {
    let events = vec![
        Event::StartElement(ElementKind::HtmlBlock),
        Event::Text("<b>bold</b>".to_string()),
        Event::EndElement,
    ];
    let escaped = render(events.clone(), MarkdownOptions::new().with_allow_raw_html(false));
    assert_eq!(tag_of(&escaped[0]), "pre");
    assert_eq!(
        children_of(&escaped[0])[0],
        MarkupNode::Text("<b>bold</b>".to_string()),
    );
    let raw = render(events, MarkdownOptions::new().with_allow_raw_html(true));
    assert_eq!(tag_of(&raw[0]), "div");
    assert_eq!(
        children_of(&raw[0])[0],
        MarkupNode::RawHtml("<b>bold</b>".to_string()),
    );
}

#[test]
fn disabled_raw_html_passes_inline_html_as_text() {
    let events = vec![Event::RawInlineHtml("<i>".to_string())];
    let escaped = render(events.clone(), MarkdownOptions::new().with_allow_raw_html(false));
    assert_eq!(escaped[0], MarkupNode::Text("<i>".to_string()));
    let raw = render(events, MarkdownOptions::new().with_allow_raw_html(true));
    assert_eq!(tag_of(&raw[0]), "span");
    assert_eq!(
        children_of(&raw[0])[0],
        MarkupNode::RawHtml("<i>".to_string()),
    );
}

#[test]
fn unmatched_start_consumes_all_remaining_events() {
    let events = vec![
        Event::StartElement(ElementKind::Paragraph),
        Event::Text("a".to_string()),
        Event::Text("b".to_string()),
    ];
    let nodes = render(events, MarkdownOptions::new());
    assert_eq!(nodes.len(), 1);
    assert_eq!(tag_of(&nodes[0]), "p");
    assert_eq!(children_of(&nodes[0]).len(), 2);
}

#[test]
fn bare_end_event_is_passed_over() {
    let events = vec![
        Event::EndElement,
        Event::Text("after".to_string()),
    ];
    let nodes = render(events, MarkdownOptions::new());
    assert_eq!(nodes, vec![MarkupNode::Text("after".to_string())]);
}

#[test]
fn metadata_block_is_discarded_but_siblings_render() {
    let events = vec![
        Event::StartElement(ElementKind::MetadataBlock),
        Event::Text("key: value".to_string()),
        Event::EndElement,
        Event::StartElement(ElementKind::Paragraph),
        Event::Text("after".to_string()),
        Event::EndElement,
    ];
    let nodes = render(events, MarkdownOptions::new());
    assert_eq!(nodes.len(), 1);
    assert_eq!(tag_of(&nodes[0]), "p");
    assert_eq!(
        children_of(&nodes[0])[0],
        MarkupNode::Text("after".to_string()),
    );
}

#[test]
fn task_marker_reflects_its_checked_state() {
    let nodes = render(vec![Event::TaskMarker(true)], MarkdownOptions::new());
    assert_eq!(tag_of(&nodes[0]), "input");
    assert_eq!(attr_of(&nodes[0], "type").unwrap(), "checkbox".to_string());
    assert_eq!(attr_of(&nodes[0], "checked").unwrap(), "true".to_string());
    let unchecked = render(vec![Event::TaskMarker(false)], MarkdownOptions::new());
    assert_eq!(attr_of(&unchecked[0], "checked").unwrap(), "false".to_string());
}

#[test]
fn footnote_reference_links_to_its_label() {
    let nodes = render(
        vec![Event::FootnoteReference("note".to_string())],
        MarkdownOptions::new(),
    );
    assert_eq!(tag_of(&nodes[0]), "sup");
    let anchor = &children_of(&nodes[0])[0];
    assert_eq!(tag_of(anchor), "a");
    assert_eq!(attr_of(anchor, "href").unwrap(), "#note".to_string());
    assert_eq!(
        children_of(anchor)[0],
        MarkupNode::Text("note".to_string()),
    );
}

#[test]
fn image_alt_text_is_its_interior_text() {
    let events = vec![
        Event::StartElement(ElementKind::Image {
            url: "img.png".to_string(),
            title: String::new(),
        }),
        Event::Text("alt ".to_string()),
        Event::Text("text".to_string()),
        Event::EndElement,
    ];
    let nodes = render(events, MarkdownOptions::new());
    assert_eq!(tag_of(&nodes[0]), "img");
    assert_eq!(attr_of(&nodes[0], "src").unwrap(), "img.png".to_string());
    assert_eq!(attr_of(&nodes[0], "alt").unwrap(), "alt text".to_string());
    assert!(attr_of(&nodes[0], "title").is_none());
    assert!(children_of(&nodes[0]).is_empty());
}

#[test]
fn explicit_classes_are_attached_per_element() {
    let events = vec![
        Event::StartElement(ElementKind::Paragraph),
        Event::Text("t".to_string()),
        Event::EndElement,
    ];
    let explicit = render(events.clone(), MarkdownOptions::new().with_explicit_classes(true));
    assert_eq!(
        attr_of(&explicit[0], "class").unwrap(),
        leptos_md::MarkdownClasses::PARAGRAPH.to_string(),
    );
    let bulk = render(events, MarkdownOptions::new().with_explicit_classes(false));
    assert!(attr_of(&bulk[0], "class").is_none());
}

#[test]
fn nested_containers_mirror_event_nesting() {
    let events = vec![
        Event::StartElement(ElementKind::BlockQuote),
        Event::StartElement(ElementKind::Paragraph),
        Event::StartElement(ElementKind::Strong),
        Event::Text("deep".to_string()),
        Event::EndElement,
        Event::EndElement,
        Event::EndElement,
    ];
    let nodes = render(events, MarkdownOptions::new());
    assert_eq!(nodes.len(), 1);
    assert_eq!(tag_of(&nodes[0]), "blockquote");
    let p = &children_of(&nodes[0])[0];
    assert_eq!(tag_of(p), "p");
    let strong = &children_of(p)[0];
    assert_eq!(tag_of(strong), "strong");
    assert_eq!(
        children_of(strong)[0],
        MarkupNode::Text("deep".to_string()),
    );
}

#[test]
fn breaks_render_as_their_elements() {
    let nodes = render(
        vec![Event::SoftBreak, Event::HardBreak, Event::ThematicBreak],
        MarkdownOptions::new(),
    );
    assert_eq!(tag_of(&nodes[0]), "span");
    assert_eq!(children_of(&nodes[0])[0], MarkupNode::Text(" ".to_string()));
    assert_eq!(tag_of(&nodes[1]), "br");
    assert_eq!(tag_of(&nodes[2]), "hr");
}
