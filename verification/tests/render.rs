use web_markdown::builder::{
    render_events, render_markdown, MarkdownProps, RenderError,
};
use web_markdown::events::{Alignment, Event, LinkType, Tag, TagKind};
use web_markdown::source_range::SourceRange;
use web_markdown::views::{
    render_link, render_tasklist_marker, render_text, ElementAttributes, HtmlElement,
    LinkDescription, MarkdownMouseEvent, ViewNode,
};

fn sr(start: usize, end: usize) -> SourceRange {
    SourceRange { start, end }
}

fn props() -> MarkdownProps {
    MarkdownProps {
        hard_line_breaks: false,
        wikilinks: false,
        components: Vec::new(),
        custom_links: false,
        theme: None,
    }
}

fn click(range: SourceRange) -> ElementAttributes {
    ElementAttributes {
        classes: Vec::new(),
        style: None,
        inner_html: None,
        on_click: Some(range),
    }
}

fn span(text: &str, range: SourceRange) -> ViewNode {
    ViewNode::Element {
        tag: HtmlElement::Span,
        attributes: click(range),
        children: vec![ViewNode::Text(text.to_string())],
    }
}

#[test]
fn heading_scenario() {
    // "# Title"
    let stream = vec![
        (Event::Start(Tag::Heading(1)), sr(0, 7)),
        (Event::Text("Title".to_string()), sr(2, 7)),
        (Event::End(TagKind::Heading), sr(0, 7)),
    ];
    let out = render_markdown(stream, &props()).unwrap();
    assert_eq!(out.frontmatter, None);
    assert_eq!(
        out.views,
        vec![ViewNode::Element {
            tag: HtmlElement::Heading(1),
            attributes: click(sr(0, 7)),
            children: vec![span("Title", sr(2, 7))],
        }]
    );
}

#[test]
fn tasklist_scenario() {
    // "- [ ] task"
    let stream = vec![
        (Event::Start(Tag::List(None)), sr(0, 10)),
        (Event::Start(Tag::Item), sr(0, 10)),
        (Event::TaskListMarker(false), sr(2, 5)),
        (Event::Text("task".to_string()), sr(6, 10)),
        (Event::End(TagKind::Item), sr(0, 10)),
        (Event::End(TagKind::List), sr(0, 10)),
    ];
    let out = render_events(stream, &props()).unwrap();
    assert_eq!(
        out.views,
        vec![ViewNode::Element {
            tag: HtmlElement::Ul,
            attributes: click(sr(0, 10)),
            children: vec![ViewNode::Element {
                tag: HtmlElement::Li,
                attributes: click(sr(0, 10)),
                children: vec![
                    ViewNode::Checkbox { checked: false, attributes: click(sr(2, 5)) },
                    span("task", sr(6, 10)),
                ],
            }],
        }]
    );
}

#[test]
fn link_scenario() {
    // "[link](http://x)" with no override
    let stream = vec![
        (Event::Start(Tag::Paragraph), sr(0, 16)),
        (
            Event::Start(Tag::Link {
                link_type: LinkType::Inline,
                url: "http://x".to_string(),
                title: String::new(),
            }),
            sr(0, 16),
        ),
        (Event::Text("link".to_string()), sr(1, 5)),
        (Event::End(TagKind::Link), sr(0, 16)),
        (Event::End(TagKind::Paragraph), sr(0, 16)),
    ];
    let out = render_events(stream, &props()).unwrap();
    assert_eq!(
        out.views,
        vec![ViewNode::Element {
            tag: HtmlElement::Paragraph,
            attributes: click(sr(0, 16)),
            children: vec![ViewNode::Anchor {
                href: "http://x".to_string(),
                children: vec![ViewNode::Fragment { children: vec![span("link", sr(1, 5))] }],
            }],
        }]
    );
}

#[test]
fn frontmatter_scenario() {
    // A document beginning with a metadata block, then "# Title".
    let stream = vec![
        (Event::Start(Tag::MetadataBlock), sr(0, 12)),
        (Event::Text("title: x".to_string()), sr(4, 12)),
        (Event::End(TagKind::MetadataBlock), sr(0, 12)),
        (Event::Start(Tag::Heading(1)), sr(13, 20)),
        (Event::Text("Title".to_string()), sr(15, 20)),
        (Event::End(TagKind::Heading), sr(13, 20)),
    ];
    let out = render_events(stream, &props()).unwrap();
    assert_eq!(out.frontmatter, Some("title: x".to_string()));
    // The metadata block itself yields no view.
    assert_eq!(out.views.len(), 1);
    assert_eq!(
        out.views[0],
        ViewNode::Element {
            tag: HtmlElement::Heading(1),
            attributes: click(sr(13, 20)),
            children: vec![span("Title", sr(15, 20))],
        }
    );
}

#[test]
fn frontmatter_idempotent() {
    let stream = || {
        vec![
            (Event::Start(Tag::MetadataBlock), sr(0, 12)),
            (Event::Text("title: x".to_string()), sr(4, 12)),
            (Event::End(TagKind::MetadataBlock), sr(0, 12)),
        ]
    };
    let first = render_events(stream(), &props()).unwrap();
    let second = render_events(stream(), &props()).unwrap();
    assert_eq!(first.frontmatter, Some("title: x".to_string()));
    assert_eq!(first.frontmatter, second.frontmatter);
}

#[test]
fn no_metadata_leaves_frontmatter_untouched() {
    let stream = vec![
        (Event::Start(Tag::Paragraph), sr(0, 5)),
        (Event::Text("hello".to_string()), sr(0, 5)),
        (Event::End(TagKind::Paragraph), sr(0, 5)),
    ];
    let out = render_events(stream, &props()).unwrap();
    assert_eq!(out.frontmatter, None);
}

#[test]
fn metadata_block_not_at_start_is_dropped() {
    let stream = vec![
        (Event::Start(Tag::Paragraph), sr(0, 5)),
        (Event::Text("hello".to_string()), sr(0, 5)),
        (Event::End(TagKind::Paragraph), sr(0, 5)),
        (Event::Start(Tag::MetadataBlock), sr(6, 18)),
        (Event::Text("title: x".to_string()), sr(10, 18)),
        (Event::End(TagKind::MetadataBlock), sr(6, 18)),
    ];
    let out = render_events(stream, &props()).unwrap();
    assert_eq!(out.frontmatter, None);
    assert_eq!(out.views.len(), 1);
}

#[test]
fn component_fallback_scenario() {
    // A reference to "Foo" with no registry entry degrades to a transparent
    // fragment of its children.
    let component = vec![
        (
            Event::Start(Tag::Component { name: "Foo".to_string(), attributes: Vec::new() }),
            sr(0, 20),
        ),
        (Event::Text("inner".to_string()), sr(5, 10)),
        (Event::End(TagKind::Component), sr(0, 20)),
    ];
    let out = render_events(component.clone(), &props()).unwrap();
    assert_eq!(
        out.views,
        vec![ViewNode::Fragment { children: vec![span("inner", sr(5, 10))] }]
    );

    // With "Foo" registered, the same stream yields a component node.
    let mut registered = props();
    registered.components = vec!["Foo".to_string()];
    let out = render_events(component, &registered).unwrap();
    assert_eq!(
        out.views,
        vec![ViewNode::Component {
            name: "Foo".to_string(),
            attributes: Vec::new(),
            children: vec![span("inner", sr(5, 10))],
        }]
    );
}

#[test]
fn unmatched_end_is_fatal() {
    let stream = vec![(Event::End(TagKind::Paragraph), sr(0, 5))];
    assert_eq!(render_events(stream, &props()), Err(RenderError::UnmatchedEnd));
}

#[test]
fn mismatched_end_is_fatal() {
    let stream = vec![
        (Event::Start(Tag::Paragraph), sr(0, 5)),
        (Event::End(TagKind::Emphasis), sr(0, 5)),
    ];
    assert_eq!(render_events(stream, &props()), Err(RenderError::MismatchedEnd));
}

#[test]
fn unclosed_start_is_fatal() {
    let stream = vec![(Event::Start(Tag::Paragraph), sr(0, 5))];
    assert_eq!(render_events(stream, &props()), Err(RenderError::UnclosedStart));
}

#[test]
fn empty_document_renders_nothing() {
    let out = render_events(Vec::new(), &props()).unwrap();
    assert_eq!(out.views, Vec::<ViewNode>::new());
    assert_eq!(out.frontmatter, None);
}

#[test]
fn hard_line_breaks_rewrite_soft_breaks() {
    let stream = || {
        vec![
            (Event::Start(Tag::Paragraph), sr(0, 9)),
            (Event::Text("a".to_string()), sr(0, 1)),
            (Event::SoftBreak, sr(1, 2)),
            (Event::Text("b".to_string()), sr(2, 3)),
            (Event::End(TagKind::Paragraph), sr(0, 9)),
        ]
    };
    let mut hard = props();
    hard.hard_line_breaks = true;
    let out = render_markdown(stream(), &hard).unwrap();
    match &out.views[0] {
        ViewNode::Element { children, .. } => {
            assert_eq!(children[1], ViewNode::Br);
        }
        other => panic!("expected an element, got {:?}", other),
    }

    let out = render_markdown(stream(), &props()).unwrap();
    match &out.views[0] {
        ViewNode::Element { children, .. } => {
            assert_eq!(children[1], ViewNode::Text(" ".to_string()));
        }
        other => panic!("expected an element, got {:?}", other),
    }
}

#[test]
fn code_block_concatenates_text() {
    let stream = vec![
        (Event::Start(Tag::CodeBlock(Some("rust".to_string()))), sr(0, 22)),
        (Event::Text("let x;".to_string()), sr(8, 14)),
        (Event::Text(" more".to_string()), sr(14, 19)),
        (Event::End(TagKind::CodeBlock), sr(0, 22)),
    ];
    let out = render_events(stream, &props()).unwrap();
    assert_eq!(
        out.views,
        vec![ViewNode::Element {
            tag: HtmlElement::Pre,
            attributes: click(sr(0, 22)),
            children: vec![ViewNode::Element {
                tag: HtmlElement::Code,
                attributes: ElementAttributes {
                    classes: vec!["rust".to_string()],
                    style: None,
                    inner_html: None,
                    on_click: None,
                },
                children: vec![ViewNode::Text("let x; more".to_string())],
            }],
        }]
    );
}

#[test]
fn table_cell_carries_column_alignment() {
    let stream = vec![
        (Event::Start(Tag::Table(vec![Alignment::Left, Alignment::Right])), sr(0, 30)),
        (Event::Start(Tag::TableRow), sr(0, 15)),
        (Event::Start(Tag::TableCell), sr(0, 7)),
        (Event::Text("a".to_string()), sr(1, 2)),
        (Event::End(TagKind::TableCell), sr(0, 7)),
        (Event::Start(Tag::TableCell), sr(8, 15)),
        (Event::Text("b".to_string()), sr(9, 10)),
        (Event::End(TagKind::TableCell), sr(8, 15)),
        (Event::End(TagKind::TableRow), sr(0, 15)),
        (Event::End(TagKind::Table), sr(0, 30)),
    ];
    let out = render_events(stream, &props()).unwrap();
    let row = match &out.views[0] {
        ViewNode::Element { tag: HtmlElement::Table, children, .. } => &children[0],
        other => panic!("expected a table, got {:?}", other),
    };
    match row {
        ViewNode::Element { tag: HtmlElement::Trow, children, .. } => {
            match (&children[0], &children[1]) {
                (
                    ViewNode::Element { attributes: a0, .. },
                    ViewNode::Element { attributes: a1, .. },
                ) => {
                    assert_eq!(a0.style, Some("text-align: left".to_string()));
                    assert_eq!(a1.style, Some("text-align: right".to_string()));
                }
                other => panic!("expected two cells, got {:?}", other),
            }
        }
        other => panic!("expected a row, got {:?}", other),
    }
}

#[test]
fn range_merge_extends_parent_ranges() {
    // A construct's range starts at its Start event's start and ends at the
    // furthest end among its End event and its descendants.
    let stream = vec![
        (Event::Start(Tag::Paragraph), sr(0, 4)),
        (Event::Text("abcdefgh".to_string()), sr(2, 10)),
        (Event::End(TagKind::Paragraph), sr(0, 4)),
    ];
    let out = render_events(stream, &props()).unwrap();
    match &out.views[0] {
        ViewNode::Element { attributes, .. } => {
            assert_eq!(attributes.on_click, Some(sr(0, 10)));
        }
        other => panic!("expected an element, got {:?}", other),
    }
}

#[test]
fn leaf_click_range_fidelity() {
    // Rendering the text "hello" at source bytes [10, 15) and inspecting its
    // handler range yields exactly [10, 15).
    let view = render_text("hello".to_string(), sr(10, 15));
    match view {
        ViewNode::Element { attributes, .. } => {
            assert_eq!(attributes.on_click, Some(sr(10, 15)));
        }
        other => panic!("expected an element, got {:?}", other),
    }

    let marker = render_tasklist_marker(true, sr(3, 8));
    match marker {
        ViewNode::Checkbox { checked, attributes } => {
            assert!(checked);
            assert_eq!(attributes.on_click, Some(sr(3, 8)));
        }
        other => panic!("expected a checkbox, got {:?}", other),
    }

    let event = MarkdownMouseEvent::new(77u32, sr(10, 15));
    assert_eq!(event.position, sr(10, 15));
    assert_eq!(event.mouse_event, 77u32);
}

#[test]
fn image_discards_content() {
    let link = LinkDescription {
        url: "pic.png".to_string(),
        content: ViewNode::Fragment { children: Vec::new() },
        title: "alt text".to_string(),
        link_type: LinkType::Inline,
        image: true,
    };
    assert_eq!(
        render_link(link, false),
        ViewNode::Image { src: "pic.png".to_string(), alt: "alt text".to_string() }
    );
}

#[test]
fn custom_link_override_receives_description() {
    let link = LinkDescription {
        url: "http://x".to_string(),
        content: ViewNode::Fragment { children: Vec::new() },
        title: String::new(),
        link_type: LinkType::Inline,
        image: false,
    };
    assert_eq!(
        render_link(link, true),
        ViewNode::CustomLink {
            url: "http://x".to_string(),
            title: String::new(),
            link_type: LinkType::Inline,
            image: false,
            children: vec![ViewNode::Fragment { children: Vec::new() }],
        }
    );
}

#[test]
fn footnote_reference_renders_inline_marker() {
    let stream = vec![
        (Event::Start(Tag::Paragraph), sr(0, 10)),
        (Event::FootnoteReference("1".to_string()), sr(4, 8)),
        (Event::End(TagKind::Paragraph), sr(0, 10)),
    ];
    let out = render_events(stream, &props()).unwrap();
    match &out.views[0] {
        ViewNode::Element { children, .. } => {
            assert_eq!(
                children[0],
                ViewNode::Element {
                    tag: HtmlElement::Span,
                    attributes: ElementAttributes {
                        classes: vec!["footnote-reference".to_string()],
                        style: None,
                        inner_html: None,
                        on_click: Some(sr(4, 8)),
                    },
                    children: vec![ViewNode::Text("1".to_string())],
                }
            );
        }
        other => panic!("expected a paragraph, got {:?}", other),
    }
}

#[test]
fn inline_html_is_carried_as_inner_html() {
    let stream = vec![
        (Event::Start(Tag::Paragraph), sr(0, 10)),
        (Event::Html("<em>x</em>".to_string()), sr(0, 10)),
        (Event::End(TagKind::Paragraph), sr(0, 10)),
    ];
    let out = render_events(stream, &props()).unwrap();
    match &out.views[0] {
        ViewNode::Element { children, .. } => {
            assert_eq!(
                children[0],
                ViewNode::Element {
                    tag: HtmlElement::Span,
                    attributes: ElementAttributes {
                        classes: Vec::new(),
                        style: None,
                        inner_html: Some("<em>x</em>".to_string()),
                        on_click: Some(sr(0, 10)),
                    },
                    children: Vec::new(),
                }
            );
        }
        other => panic!("expected a paragraph, got {:?}", other),
    }
}

#[test]
fn ordered_list_carries_start_index() {
    let stream = vec![
        (Event::Start(Tag::List(Some(3))), sr(0, 12)),
        (Event::Start(Tag::Item), sr(0, 6)),
        (Event::Text("one".to_string()), sr(3, 6)),
        (Event::End(TagKind::Item), sr(0, 6)),
        (Event::End(TagKind::List), sr(0, 12)),
    ];
    let out = render_events(stream, &props()).unwrap();
    match &out.views[0] {
        ViewNode::Element { tag, .. } => assert_eq!(*tag, HtmlElement::Ol(3)),
        other => panic!("expected an ordered list, got {:?}", other),
    }
}

#[test]
fn bare_rule_between_blocks_is_top_level() {
    let stream = vec![(Event::Rule, sr(0, 3))];
    let out = render_events(stream, &props()).unwrap();
    assert_eq!(out.views, vec![ViewNode::Hr { attributes: click(sr(0, 3)) }]);
}
