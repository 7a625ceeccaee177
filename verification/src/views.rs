//! The tree of view nodes the renderer produces, its mathematical model, and
//! the constructors for leaf constructs and policy steps.
//!
//! A [`ViewNode`] is plain data: a host binding walks the finished tree and
//! builds its own UI elements from it.  Every node that corresponds to a byte
//! range of the source carries that range in its attributes, so the host can
//! attach a click handler forwarding exactly that range.

use vstd::prelude::*;

use crate::events::LinkType;
use crate::source_range::SourceRange;

verus! {

broadcast use vstd::seq::group_seq_axioms;

/// The kind of HTML element a rendered construct maps to.
#[derive(Clone, Copy, Debug, PartialEq, Eq, Structural)]
pub enum HtmlElement {
    Div,
    Span,
    Paragraph,
    BlockQuote,
    Ul,
    /// An ordered list, numbered from the given start index.
    Ol(i32),
    Li,
    /// A heading of the given level, 1 to 6.
    Heading(u8),
    Table,
    Thead,
    Trow,
    Tcell,
    Italics,
    Bold,
    StrikeThrough,
    Pre,
    Code,
}

/// The attributes attached to a rendered element.  `on_click` holds the
/// source range a click on the element must report.
#[derive(Clone, Debug, PartialEq)]
pub struct ElementAttributes {
    pub classes: Vec<String>,
    pub style: Option<String>,
    pub inner_html: Option<String>,
    pub on_click: Option<SourceRange>,
}

/// The model of [`ElementAttributes`]: the same fields over sequences.
#[verifier::ext_equal]
pub struct AttrsSpec {
    pub classes: Seq<Seq<char>>,
    pub style: Option<Seq<char>>,
    pub inner_html: Option<Seq<char>>,
    pub on_click: Option<SourceRange>,
}

/// A constructed view node.  The renderer only composes these; a host walks
/// the finished tree and builds concrete UI elements from it.
#[derive(Debug, PartialEq)]
pub enum ViewNode {
    /// An element of the given kind wrapping its children.
    Element { tag: HtmlElement, attributes: ElementAttributes, children: Vec<ViewNode> },
    /// A bare text node.
    Text(String),
    /// A hard line break.
    Br,
    /// A thematic break.
    Hr { attributes: ElementAttributes },
    /// A default-rendered link: an anchor around the link's content.
    Anchor { href: String, children: Vec<ViewNode> },
    /// A default-rendered image; images have no child content slot.
    Image { src: String, alt: String },
    /// The interactive checkbox of a task-list item.
    Checkbox { checked: bool, attributes: ElementAttributes },
    /// A transparent grouping of children.
    Fragment { children: Vec<ViewNode> },
    /// A recognized custom component: the host invokes the callback
    /// registered under `name`, passing attributes and children.
    Component { name: String, attributes: Vec<(String, String)>, children: Vec<ViewNode> },
    /// A link handed to the caller's link-rendering override.
    CustomLink {
        url: String,
        title: String,
        link_type: LinkType,
        image: bool,
        children: Vec<ViewNode>,
    },
}

/// The model of a [`ViewNode`]: the same tree over sequences.
#[verifier::ext_equal]
pub enum ViewSpec {
    Element { tag: HtmlElement, attributes: AttrsSpec, children: Seq<ViewSpec> },
    Text { text: Seq<char> },
    Br,
    Hr { attributes: AttrsSpec },
    Anchor { href: Seq<char>, children: Seq<ViewSpec> },
    Image { src: Seq<char>, alt: Seq<char> },
    Checkbox { checked: bool, attributes: AttrsSpec },
    Fragment { children: Seq<ViewSpec> },
    Component { name: Seq<char>, attributes: Seq<(Seq<char>, Seq<char>)>, children: Seq<ViewSpec> },
    CustomLink {
        url: Seq<char>,
        title: Seq<char>,
        link_type: LinkType,
        image: bool,
        children: Seq<ViewSpec>,
    },
}

pub open spec fn attrs_spec(a: ElementAttributes) -> AttrsSpec {
    AttrsSpec {
        classes: a.classes.deep_view(),
        style: a.style.deep_view(),
        inner_html: a.inner_html.deep_view(),
        on_click: a.on_click,
    }
}

/// The model of one view node.
pub open spec fn node_spec(v: ViewNode) -> ViewSpec
    decreases v,
{
    match v {
        ViewNode::Element { tag, attributes, children } => ViewSpec::Element {
            tag,
            attributes: attrs_spec(attributes),
            children: nodes_spec(children@),
        },
        ViewNode::Text(text) => ViewSpec::Text { text: text@ },
        ViewNode::Br => ViewSpec::Br,
        ViewNode::Hr { attributes } => ViewSpec::Hr { attributes: attrs_spec(attributes) },
        ViewNode::Anchor { href, children } => ViewSpec::Anchor {
            href: href@,
            children: nodes_spec(children@),
        },
        ViewNode::Image { src, alt } => ViewSpec::Image { src: src@, alt: alt@ },
        ViewNode::Checkbox { checked, attributes } => ViewSpec::Checkbox {
            checked,
            attributes: attrs_spec(attributes),
        },
        ViewNode::Fragment { children } => ViewSpec::Fragment {
            children: nodes_spec(children@),
        },
        ViewNode::Component { name, attributes, children } => ViewSpec::Component {
            name: name@,
            attributes: attributes.deep_view(),
            children: nodes_spec(children@),
        },
        ViewNode::CustomLink { url, title, link_type, image, children } => ViewSpec::CustomLink {
            url: url@,
            title: title@,
            link_type,
            image,
            children: nodes_spec(children@),
        },
    }
}

/// The model of a sequence of view nodes, elementwise.
pub open spec fn nodes_spec(s: Seq<ViewNode>) -> Seq<ViewSpec>
    decreases s,
{
    if s.len() == 0 {
        Seq::empty()
    } else {
        seq![node_spec(s[0])] + nodes_spec(s.drop_first())
    }
}

pub proof fn lemma_nodes_spec_index(s: Seq<ViewNode>)
    ensures
        nodes_spec(s).len() == s.len(),
        forall|i: int| 0 <= i < s.len() ==> nodes_spec(s)[i] == node_spec(s[i]),
    decreases s.len(),
{
    if s.len() > 0 {
        lemma_nodes_spec_index(s.drop_first());
    }
}

pub proof fn lemma_nodes_spec_push(s: Seq<ViewNode>, v: ViewNode)
    ensures
        nodes_spec(s.push(v)) == nodes_spec(s).push(node_spec(v)),
{
    lemma_nodes_spec_index(s.push(v));
    lemma_nodes_spec_index(s);
    assert(nodes_spec(s.push(v)) =~= nodes_spec(s).push(node_spec(v)));
}

/// Attributes that carry nothing but the click range of `position`.
pub open spec fn click_attrs(position: SourceRange) -> AttrsSpec {
    AttrsSpec {
        classes: Seq::empty(),
        style: None,
        inner_html: None,
        on_click: Some(position),
    }
}

pub open spec fn empty_attrs() -> AttrsSpec {
    AttrsSpec { classes: Seq::empty(), style: None, inner_html: None, on_click: None }
}

impl Default for ElementAttributes {
    /// Attributes with no classes, no style, no raw HTML and no click range.
    fn default() -> (r: Self)
        ensures
            attrs_spec(r) == empty_attrs(),
    {
        let r = ElementAttributes { classes: Vec::new(), style: None, inner_html: None, on_click: None };
        proof {
            assert(attrs_spec(r) =~= empty_attrs());
        }
        r
    }
}

impl ElementAttributes {
    /// Attributes whose only content is the click range `position`.
    pub fn with_click(position: SourceRange) -> (r: Self)
        ensures
            attrs_spec(r) == click_attrs(position),
    {
        let r = ElementAttributes {
            classes: Vec::new(),
            style: None,
            inner_html: None,
            on_click: Some(position),
        };
        proof {
            assert(attrs_spec(r) =~= click_attrs(position));
        }
        r
    }
}

/// The source range a click on this view must report, if the view carries
/// one at its top level.
pub open spec fn click_range_of(v: ViewSpec) -> Option<SourceRange> {
    match v {
        ViewSpec::Element { attributes, .. } => attributes.on_click,
        ViewSpec::Hr { attributes } => attributes.on_click,
        ViewSpec::Checkbox { attributes, .. } => attributes.on_click,
        _ => None,
    }
}

/// A click on the rendered output, packaged for the caller: the host's
/// native pointer-event payload together with the source range of the
/// element that was clicked.
pub struct MarkdownMouseEvent<E> {
    /// The host's native pointer-event value, passed through untouched.
    pub mouse_event: E,
    /// The byte range of the markdown source that produced the clicked
    /// element.
    pub position: SourceRange,
}

impl<E> MarkdownMouseEvent<E> {
    /// Packages a native pointer event with the clicked element's source
    /// range, forwarding the range exactly as the element carried it.
    pub fn new(mouse_event: E, position: SourceRange) -> (r: Self)
        ensures
            r.mouse_event == mouse_event,
            r.position == position,
    {
        MarkdownMouseEvent { mouse_event, position }
    }
}

/// The description of a link or image construct, built when the construct
/// closes and passed either to the caller's override or to default
/// construction.
#[derive(Debug, PartialEq)]
pub struct LinkDescription {
    /// The destination of the link; an empty string if none was given.
    pub url: String,
    /// The already-rendered view of the content under the link.
    pub content: ViewNode,
    /// The title of the link; often empty.
    pub title: String,
    /// How the link was written in the source.
    pub link_type: LinkType,
    /// Whether the construct is an image.
    pub image: bool,
}

/// The model of a [`LinkDescription`].
#[verifier::ext_equal]
pub struct LinkSpec {
    pub url: Seq<char>,
    pub content: ViewSpec,
    pub title: Seq<char>,
    pub link_type: LinkType,
    pub image: bool,
}

pub open spec fn link_spec(l: LinkDescription) -> LinkSpec {
    LinkSpec {
        url: l.url@,
        content: node_spec(l.content),
        title: l.title@,
        link_type: l.link_type,
        image: l.image,
    }
}

/// What a recognized custom component's render callback receives: the
/// construct's attributes and its already-rendered children.
#[derive(Debug, PartialEq)]
pub struct MdComponentProps {
    pub attributes: Vec<(String, String)>,
    pub children: ViewNode,
}

/// A leaf text construct: a span wrapping the text, carrying the click range
/// of the originating event.
pub open spec fn spec_text_view(text: Seq<char>, position: SourceRange) -> ViewSpec {
    ViewSpec::Element {
        tag: HtmlElement::Span,
        attributes: click_attrs(position),
        children: seq![ViewSpec::Text { text }],
    }
}

pub fn render_text(text: String, position: SourceRange) -> (r: ViewNode)
    ensures
        node_spec(r) == spec_text_view(text@, position),
{
    let ghost t = text@;
    let mut children: Vec<ViewNode> = Vec::new();
    children.push(ViewNode::Text(text));
    let r = ViewNode::Element {
        tag: HtmlElement::Span,
        attributes: ElementAttributes::with_click(position),
        children,
    };
    proof {
        lemma_nodes_spec_index(children@);
        assert(nodes_spec(children@) =~= seq![ViewSpec::Text { text: t }]);
        assert(node_spec(r) =~= spec_text_view(t, position));
    }
    r
}

/// A leaf inline-code construct: a code element wrapping the text, carrying
/// the click range of the originating event.
pub open spec fn spec_code_view(text: Seq<char>, position: SourceRange) -> ViewSpec {
    ViewSpec::Element {
        tag: HtmlElement::Code,
        attributes: click_attrs(position),
        children: seq![ViewSpec::Text { text }],
    }
}

pub fn render_code(text: String, position: SourceRange) -> (r: ViewNode)
    ensures
        node_spec(r) == spec_code_view(text@, position),
{
    let ghost t = text@;
    let mut children: Vec<ViewNode> = Vec::new();
    children.push(ViewNode::Text(text));
    let r = ViewNode::Element {
        tag: HtmlElement::Code,
        attributes: ElementAttributes::with_click(position),
        children,
    };
    proof {
        lemma_nodes_spec_index(children@);
        assert(nodes_spec(children@) =~= seq![ViewSpec::Text { text: t }]);
        assert(node_spec(r) =~= spec_code_view(t, position));
    }
    r
}

/// A run of raw inline HTML: a span whose `inner_html` holds the text,
/// carrying the click range of the originating event.
pub open spec fn spec_html_view(html: Seq<char>, position: SourceRange) -> ViewSpec {
    ViewSpec::Element {
        tag: HtmlElement::Span,
        attributes: AttrsSpec {
            classes: Seq::empty(),
            style: None,
            inner_html: Some(html),
            on_click: Some(position),
        },
        children: Seq::empty(),
    }
}

pub fn render_html(html: String, position: SourceRange) -> (r: ViewNode)
    ensures
        node_spec(r) == spec_html_view(html@, position),
{
    let ghost t = html@;
    let r = ViewNode::Element {
        tag: HtmlElement::Span,
        attributes: ElementAttributes {
            classes: Vec::new(),
            style: None,
            inner_html: Some(html),
            on_click: Some(position),
        },
        children: Vec::new(),
    };
    proof {
        assert(node_spec(r) =~= spec_html_view(t, position));
    }
    r
}

/// A footnote reference: an inline marker span classed for styling, carrying
/// the click range of the originating event.
pub open spec fn spec_footnote_ref_view(label: Seq<char>, position: SourceRange) -> ViewSpec {
    ViewSpec::Element {
        tag: HtmlElement::Span,
        attributes: AttrsSpec {
            classes: seq!["footnote-reference"@],
            style: None,
            inner_html: None,
            on_click: Some(position),
        },
        children: seq![ViewSpec::Text { text: label }],
    }
}

pub fn render_footnote_reference(label: String, position: SourceRange) -> (r: ViewNode)
    ensures
        node_spec(r) == spec_footnote_ref_view(label@, position),
{
    let ghost t = label@;
    let mut classes: Vec<String> = Vec::new();
    classes.push("footnote-reference".to_owned());
    let mut children: Vec<ViewNode> = Vec::new();
    children.push(ViewNode::Text(label));
    let r = ViewNode::Element {
        tag: HtmlElement::Span,
        attributes: ElementAttributes {
            classes,
            style: None,
            inner_html: None,
            on_click: Some(position),
        },
        children,
    };
    proof {
        lemma_nodes_spec_index(children@);
        assert(nodes_spec(children@) =~= seq![ViewSpec::Text { text: t }]);
        assert(classes.deep_view() =~= seq!["footnote-reference"@]);
        assert(node_spec(r) =~= spec_footnote_ref_view(t, position));
    }
    r
}

/// A thematic break: a horizontal rule carrying the click range of the
/// originating event.
pub open spec fn spec_rule_view(position: SourceRange) -> ViewSpec {
    ViewSpec::Hr { attributes: click_attrs(position) }
}

pub fn render_rule(position: SourceRange) -> (r: ViewNode)
    ensures
        node_spec(r) == spec_rule_view(position),
{
    ViewNode::Hr { attributes: ElementAttributes::with_click(position) }
}

/// A task-list marker: an interactive checkbox carrying the exact source
/// range of the marker, so a click can be mapped back to the literal source
/// location to rewrite.
pub open spec fn spec_tasklist_view(checked: bool, position: SourceRange) -> ViewSpec {
    ViewSpec::Checkbox { checked, attributes: click_attrs(position) }
}

pub fn render_tasklist_marker(checked: bool, position: SourceRange) -> (r: ViewNode)
    ensures
        node_spec(r) == spec_tasklist_view(checked, position),
{
    ViewNode::Checkbox { checked, attributes: ElementAttributes::with_click(position) }
}

/// Link and image resolution: with a caller-registered override the whole
/// description is handed over; otherwise a non-image link becomes a default
/// anchor around its content, and an image becomes a default image element
/// whose alt text is the title, its content discarded.
pub open spec fn spec_render_link(l: LinkSpec, custom_links: bool) -> ViewSpec {
    if custom_links {
        ViewSpec::CustomLink {
            url: l.url,
            title: l.title,
            link_type: l.link_type,
            image: l.image,
            children: seq![l.content],
        }
    } else if l.image {
        ViewSpec::Image { src: l.url, alt: l.title }
    } else {
        ViewSpec::Anchor { href: l.url, children: seq![l.content] }
    }
}

pub fn render_link(link: LinkDescription, custom_links: bool) -> (r: ViewNode)
    ensures
        node_spec(r) == spec_render_link(link_spec(link), custom_links),
{
    let ghost l = link_spec(link);
    let LinkDescription { url, content, title, link_type, image } = link;
    if custom_links {
        let mut children: Vec<ViewNode> = Vec::new();
        children.push(content);
        let r = ViewNode::CustomLink { url, title, link_type, image, children };
        proof {
            lemma_nodes_spec_index(children@);
            assert(nodes_spec(children@) =~= seq![l.content]);
            assert(node_spec(r) =~= spec_render_link(l, custom_links));
        }
        r
    } else if image {
        ViewNode::Image { src: url, alt: title }
    } else {
        let mut children: Vec<ViewNode> = Vec::new();
        children.push(content);
        let r = ViewNode::Anchor { href: url, children };
        proof {
            lemma_nodes_spec_index(children@);
            assert(nodes_spec(children@) =~= seq![l.content]);
            assert(node_spec(r) =~= spec_render_link(l, custom_links));
        }
        r
    }
}

/// Whether `name` has an entry in the caller's component registry.
pub fn is_registered(registry: &Vec<String>, name: &String) -> (r: bool)
    ensures
        r == registry.deep_view().contains(name@),
{
    let n = registry.len();
    let mut i: usize = 0;
    while i < n
        invariant
            n == registry@.len(),
            i <= n,
            forall|j: int| 0 <= j < i ==> registry.deep_view()[j] != name@,
        decreases n - i,
    {
        if registry[i] == *name {
            proof {
                assert(registry.deep_view()[i as int] == name@);
            }
            return true;
        }
        i = i + 1;
    }
    proof {
        assert forall|j: int| 0 <= j < registry.deep_view().len() implies registry.deep_view()[j]
            != name@ by {}
    }
    false
}

/// Component expansion: a construct whose name has a registered render
/// callback becomes a component node for the host to expand; an unrecognized
/// name degrades to a transparent fragment of its children, with no error
/// raised.
pub open spec fn spec_expand_component(
    name: Seq<char>,
    attributes: Seq<(Seq<char>, Seq<char>)>,
    children: Seq<ViewSpec>,
    registry: Seq<Seq<char>>,
) -> ViewSpec {
    if registry.contains(name) {
        ViewSpec::Component { name, attributes, children }
    } else {
        ViewSpec::Fragment { children }
    }
}

pub fn expand_component(
    name: String,
    attributes: Vec<(String, String)>,
    children: Vec<ViewNode>,
    registry: &Vec<String>,
) -> (r: ViewNode)
    ensures
        node_spec(r) == spec_expand_component(
            name@,
            attributes.deep_view(),
            nodes_spec(children@),
            registry.deep_view(),
        ),
{
    let ghost n = name@;
    let ghost a = attributes.deep_view();
    let ghost c = nodes_spec(children@);
    if is_registered(registry, &name) {
        let r = ViewNode::Component { name, attributes, children };
        proof {
            assert(node_spec(r) =~= ViewSpec::Component { name: n, attributes: a, children: c });
        }
        r
    } else {
        let r = ViewNode::Fragment { children };
        proof {
            assert(node_spec(r) =~= ViewSpec::Fragment { children: c });
        }
        r
    }
}

/// Law: an unrecognized component name is not fatal.  With no entry for
/// `name` in the registry, expansion yields exactly the transparent fragment
/// of the construct's children.
pub proof fn lemma_component_fallback(
    name: Seq<char>,
    attributes: Seq<(Seq<char>, Seq<char>)>,
    children: Seq<ViewSpec>,
    registry: Seq<Seq<char>>,
)
    requires
        !registry.contains(name),
    ensures
        spec_expand_component(name, attributes, children, registry) == (ViewSpec::Fragment {
            children,
        }),
{
}

} // verus!
