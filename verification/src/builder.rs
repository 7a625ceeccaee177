//! The tree builder: a single-pass, stack-driven reducer that folds the flat
//! event stream into a sequence of top-level view nodes.
//!
//! The machine is specified first, as a step function over a mathematical
//! state, and the executable renderer is proved to follow it exactly: what
//! [`render_events`] returns is pinned, node for node, to what the step
//! function says.

use vstd::prelude::*;
use vstd::string::StringExecFns;

use crate::events::{Alignment, Event, Tag};
use crate::source_range::SourceRange;
use crate::views::{
    click_attrs, node_spec, nodes_spec, spec_code_view, spec_expand_component,
    spec_footnote_ref_view, spec_html_view, spec_render_link, spec_rule_view, spec_tasklist_view,
    spec_text_view, expand_component, lemma_nodes_spec_index, lemma_nodes_spec_push, render_link,
    AttrsSpec, ElementAttributes, HtmlElement, LinkDescription, LinkSpec, ViewNode, ViewSpec,
};

verus! {

broadcast use vstd::seq::group_seq_axioms;

/// The caller-supplied configuration of one render.
///
/// Callbacks themselves live with the host; the renderer only needs to know
/// which component names have a registered callback and whether a
/// link-rendering override is present.
pub struct MarkdownProps {
    /// Rewrite soft line breaks into hard breaks before rendering.
    pub hard_line_breaks: bool,
    /// Ask the tokenizer for the alternate wikilink syntax.  Consumed by the
    /// host when it configures the tokenizer; the tree builder is agnostic.
    pub wikilinks: bool,
    /// The names that have an entry in the caller's component registry.
    pub components: Vec<String>,
    /// Whether a caller-registered link-rendering override is present; when
    /// it is, every closing link or image construct is handed to it.
    pub custom_links: bool,
    /// An optional theme name, forwarded to the host untouched.
    pub theme: Option<String>,
}

/// The part of the configuration the step function depends on.
#[verifier::ext_equal]
pub struct PropsSpec {
    pub components: Seq<Seq<char>>,
    pub custom_links: bool,
}

pub open spec fn props_spec(p: MarkdownProps) -> PropsSpec {
    PropsSpec { components: p.components.deep_view(), custom_links: p.custom_links }
}

/// A stack entry for an open structural construct: its tag, the range
/// accumulated so far, the views of its closed children, and — for the two
/// constructs that collect raw text — the text gathered so far.
pub struct Frame {
    pub tag: Tag,
    pub range: SourceRange,
    pub children: Vec<ViewNode>,
    pub text: String,
}

/// The model of a [`Frame`].
#[verifier::ext_equal]
pub struct FrameSpec {
    pub tag: Tag,
    pub range: SourceRange,
    pub children: Seq<ViewSpec>,
    pub text: Seq<char>,
}

pub open spec fn frame_spec(f: Frame) -> FrameSpec {
    FrameSpec {
        tag: f.tag,
        range: f.range,
        children: nodes_spec(f.children@),
        text: f.text@,
    }
}

/// The model of the frame stack, elementwise.
pub open spec fn frames_spec(s: Seq<Frame>) -> Seq<FrameSpec>
    decreases s.len(),
{
    if s.len() == 0 {
        Seq::empty()
    } else {
        seq![frame_spec(s[0])] + frames_spec(s.drop_first())
    }
}

pub proof fn lemma_frames_spec_index(s: Seq<Frame>)
    ensures
        frames_spec(s).len() == s.len(),
        forall|i: int| 0 <= i < s.len() ==> frames_spec(s)[i] == frame_spec(s[i]),
    decreases s.len(),
{
    if s.len() > 0 {
        lemma_frames_spec_index(s.drop_first());
    }
}

pub proof fn lemma_frames_spec_push(s: Seq<Frame>, f: Frame)
    ensures
        frames_spec(s.push(f)) == frames_spec(s).push(frame_spec(f)),
{
    lemma_frames_spec_index(s.push(f));
    lemma_frames_spec_index(s);
    assert(frames_spec(s.push(f)) =~= frames_spec(s).push(frame_spec(f)));
}

pub proof fn lemma_frames_spec_drop_last(s: Seq<Frame>)
    requires
        s.len() > 0,
    ensures
        frames_spec(s.drop_last()) == frames_spec(s).drop_last(),
        frames_spec(s).last() == frame_spec(s.last()),
    decreases s.len(),
{
    lemma_frames_spec_index(s.drop_last());
    lemma_frames_spec_index(s);
    assert(frames_spec(s.drop_last()) =~= frames_spec(s).drop_last());
}

/// The whole state of one render: the open-frame stack, the finished
/// top-level views in document order, and the frontmatter value if one has
/// been extracted.
#[verifier::ext_equal]
pub struct StateSpec {
    pub stack: Seq<FrameSpec>,
    pub output: Seq<ViewSpec>,
    pub frontmatter: Option<Seq<char>>,
}

/// The state before the first event: an empty stack, no output, no
/// frontmatter.
pub open spec fn init_state() -> StateSpec {
    StateSpec { stack: Seq::empty(), output: Seq::empty(), frontmatter: None }
}

/// Why a render was aborted: the event stream broke the tokenizer's
/// balancing contract.
#[derive(Clone, Copy, Debug, PartialEq, Eq, Structural)]
pub enum RenderError {
    /// An End event arrived while no construct was open.
    UnmatchedEnd,
    /// An End event named a different kind than the innermost open construct.
    MismatchedEnd,
    /// The stream ended while a construct was still open.
    UnclosedStart,
}

/// Whether this construct collects its interior text leaves into one buffer
/// instead of rendering them individually.
pub open spec fn is_text_sink(t: Tag) -> bool {
    t is CodeBlock || t is MetadataBlock
}

/// The style hint a table cell inherits from its column's alignment.
pub open spec fn align_style_spec(a: Option<Alignment>) -> Option<Seq<char>> {
    match a {
        Some(Alignment::Left) => Some("text-align: left"@),
        Some(Alignment::Center) => Some("text-align: center"@),
        Some(Alignment::Right) => Some("text-align: right"@),
        _ => None,
    }
}

/// The alignment of the closing table cell's column, if the cell sits in a
/// row of a table that declared one: the column index is the number of cells
/// already closed in the row.
pub open spec fn cell_align_spec(stack: Seq<FrameSpec>, t: Tag) -> Option<Alignment> {
    if t is TableCell && stack.len() >= 2 {
        match stack[stack.len() - 2].tag {
            Tag::Table(aligns) => {
                let col = stack.last().children.len();
                if col < aligns@.len() {
                    Some(aligns@[col as int])
                } else {
                    None
                }
            },
            _ => None,
        }
    } else {
        None
    }
}

/// The composite view for a closing construct, built from its frame, its
/// merged range and — for table cells — its column's alignment.
pub open spec fn finish_frame_spec(
    props: PropsSpec,
    f: FrameSpec,
    merged: SourceRange,
    align: Option<Alignment>,
) -> ViewSpec {
    match f.tag {
        Tag::Paragraph => wrap_spec(HtmlElement::Paragraph, f.children, merged),
        Tag::Heading(level) => wrap_spec(HtmlElement::Heading(level), f.children, merged),
        Tag::BlockQuote => wrap_spec(HtmlElement::BlockQuote, f.children, merged),
        Tag::CodeBlock(language) => ViewSpec::Element {
            tag: HtmlElement::Pre,
            attributes: click_attrs(merged),
            children: seq![
                ViewSpec::Element {
                    tag: HtmlElement::Code,
                    attributes: AttrsSpec {
                        classes: match language {
                            Some(l) => seq![l@],
                            None => Seq::empty(),
                        },
                        style: None,
                        inner_html: None,
                        on_click: None,
                    },
                    children: seq![ViewSpec::Text { text: f.text }],
                },
            ],
        },
        Tag::List(start) => match start {
            Some(n) => wrap_spec(HtmlElement::Ol(n), f.children, merged),
            None => wrap_spec(HtmlElement::Ul, f.children, merged),
        },
        Tag::Item => wrap_spec(HtmlElement::Li, f.children, merged),
        Tag::HtmlBlock => ViewSpec::Fragment { children: f.children },
        Tag::FootnoteDefinition(_) => wrap_spec(HtmlElement::Div, f.children, merged),
        Tag::Table(_) => wrap_spec(HtmlElement::Table, f.children, merged),
        Tag::TableHead => wrap_spec(HtmlElement::Thead, f.children, merged),
        Tag::TableRow => wrap_spec(HtmlElement::Trow, f.children, merged),
        Tag::TableCell => ViewSpec::Element {
            tag: HtmlElement::Tcell,
            attributes: AttrsSpec {
                classes: Seq::empty(),
                style: align_style_spec(align),
                inner_html: None,
                on_click: Some(merged),
            },
            children: f.children,
        },
        Tag::Emphasis => wrap_spec(HtmlElement::Italics, f.children, merged),
        Tag::Strong => wrap_spec(HtmlElement::Bold, f.children, merged),
        Tag::Strikethrough => wrap_spec(HtmlElement::StrikeThrough, f.children, merged),
        Tag::Link { link_type, url, title } => spec_render_link(
            LinkSpec {
                url: url@,
                content: ViewSpec::Fragment { children: f.children },
                title: title@,
                link_type,
                image: false,
            },
            props.custom_links,
        ),
        Tag::Image { link_type, url, title } => spec_render_link(
            LinkSpec {
                url: url@,
                content: ViewSpec::Fragment { children: f.children },
                title: title@,
                link_type,
                image: true,
            },
            props.custom_links,
        ),
        Tag::Component { name, attributes } => spec_expand_component(
            name@,
            attributes.deep_view(),
            f.children,
            props.components,
        ),
        Tag::MetadataBlock => ViewSpec::Fragment { children: f.children },
    }
}

pub open spec fn wrap_spec(tag: HtmlElement, children: Seq<ViewSpec>, merged: SourceRange) -> ViewSpec {
    ViewSpec::Element { tag, attributes: click_attrs(merged), children }
}

/// Appending a finished view: it becomes a child of the innermost open frame,
/// whose accumulated range is extended by the view's range — or a top-level
/// view when no construct is open.
pub open spec fn append_view_spec(st: StateSpec, view: ViewSpec, vrange: SourceRange) -> StateSpec {
    if st.stack.len() == 0 {
        StateSpec { stack: st.stack, output: st.output.push(view), frontmatter: st.frontmatter }
    } else {
        let top = st.stack.last();
        let top2 = FrameSpec {
            tag: top.tag,
            range: top.range.spec_merge(vrange),
            children: top.children.push(view),
            text: top.text,
        };
        StateSpec {
            stack: st.stack.drop_last().push(top2),
            output: st.output,
            frontmatter: st.frontmatter,
        }
    }
}

/// Appending a raw text leaf inside a text-collecting construct: the text is
/// appended to the frame's buffer and the frame's range extended.
pub open spec fn append_text_spec(st: StateSpec, text: Seq<char>, r: SourceRange) -> StateSpec {
    let top = st.stack.last();
    let top2 = FrameSpec {
        tag: top.tag,
        range: top.range.spec_merge(r),
        children: top.children,
        text: top.text + text,
    };
    StateSpec {
        stack: st.stack.drop_last().push(top2),
        output: st.output,
        frontmatter: st.frontmatter,
    }
}

/// One step of the tree builder: how one `(event, range)` pair transforms
/// the state, or which invariant violation it reveals.
pub open spec fn step_spec(
    props: PropsSpec,
    st: StateSpec,
    e: Event,
    r: SourceRange,
) -> Result<StateSpec, RenderError> {
    match e {
        Event::Start(tag) => Ok(
            StateSpec {
                stack: st.stack.push(
                    FrameSpec { tag, range: r, children: Seq::empty(), text: Seq::empty() },
                ),
                output: st.output,
                frontmatter: st.frontmatter,
            },
        ),
        Event::End(kind) => {
            if st.stack.len() == 0 {
                Err(RenderError::UnmatchedEnd)
            } else {
                let f = st.stack.last();
                if f.tag.spec_kind() != kind {
                    Err(RenderError::MismatchedEnd)
                } else {
                    let merged = f.range.spec_merge(r);
                    let popped = StateSpec {
                        stack: st.stack.drop_last(),
                        output: st.output,
                        frontmatter: st.frontmatter,
                    };
                    if f.tag is MetadataBlock {
                        // The frontmatter side effect: fires at most once,
                        // only for a metadata block that opens the document.
                        if popped.stack.len() == 0 && popped.output.len() == 0
                            && popped.frontmatter is None {
                            Ok(
                                StateSpec {
                                    stack: popped.stack,
                                    output: popped.output,
                                    frontmatter: Some(f.text),
                                },
                            )
                        } else {
                            Ok(popped)
                        }
                    } else {
                        let align = cell_align_spec(popped.stack, f.tag);
                        let view = finish_frame_spec(props, f, merged, align);
                        Ok(append_view_spec(popped, view, merged))
                    }
                }
            }
        },
        Event::Text(s) => {
            if st.stack.len() > 0 && is_text_sink(st.stack.last().tag) {
                Ok(append_text_spec(st, s@, r))
            } else {
                Ok(append_view_spec(st, spec_text_view(s@, r), r))
            }
        },
        Event::Code(s) => Ok(append_view_spec(st, spec_code_view(s@, r), r)),
        Event::Html(s) => Ok(append_view_spec(st, spec_html_view(s@, r), r)),
        Event::FootnoteReference(s) => Ok(
            append_view_spec(st, spec_footnote_ref_view(s@, r), r),
        ),
        Event::SoftBreak => Ok(append_view_spec(st, ViewSpec::Text { text: " "@ }, r)),
        Event::HardBreak => Ok(append_view_spec(st, ViewSpec::Br, r)),
        Event::Rule => Ok(append_view_spec(st, spec_rule_view(r), r)),
        Event::TaskListMarker(checked) => Ok(
            append_view_spec(st, spec_tasklist_view(checked, r), r),
        ),
    }
}

/// Folds the step function over a whole event sequence.
pub open spec fn run_spec(
    props: PropsSpec,
    st: StateSpec,
    events: Seq<(Event, SourceRange)>,
) -> Result<StateSpec, RenderError>
    decreases events.len(),
{
    if events.len() == 0 {
        Ok(st)
    } else {
        match step_spec(props, st, events[0].0, events[0].1) {
            Ok(st2) => run_spec(props, st2, events.drop_first()),
            Err(e) => Err(e),
        }
    }
}

/// What a whole render returns: the top-level views in document order and
/// the extracted frontmatter — or the invariant violation that aborted it.
/// A stream that leaves constructs open at exhaustion is rejected.
pub open spec fn spec_render(
    props: PropsSpec,
    events: Seq<(Event, SourceRange)>,
) -> Result<(Seq<ViewSpec>, Option<Seq<char>>), RenderError> {
    match run_spec(props, init_state(), events) {
        Ok(st) => {
            if st.stack.len() == 0 {
                Ok((st.output, st.frontmatter))
            } else {
                Err(RenderError::UnclosedStart)
            }
        },
        Err(e) => Err(e),
    }
}

/// The live state of one render.
pub struct RenderState {
    pub stack: Vec<Frame>,
    pub output: Vec<ViewNode>,
    pub frontmatter: Option<String>,
}

pub open spec fn state_spec(st: RenderState) -> StateSpec {
    StateSpec {
        stack: frames_spec(st.stack@),
        output: nodes_spec(st.output@),
        frontmatter: st.frontmatter.deep_view(),
    }
}

fn append_view(st: &mut RenderState, view: ViewNode, vrange: SourceRange)
    ensures
        state_spec(*final(st)) == append_view_spec(state_spec(*old(st)), node_spec(view), vrange),
{
    let ghost pre = state_spec(*old(st));
    let ghost v = node_spec(view);
    match st.stack.pop() {
        None => {
            st.output.push(view);
            proof {
                lemma_nodes_spec_push(old(st).output@, view);
                assert(state_spec(*st) =~= append_view_spec(pre, v, vrange));
            }
        },
        Some(top) => {
            let mut top = top;
            let ghost top0 = top;
            top.range = top.range.merge(vrange);
            top.children.push(view);
            st.stack.push(top);
            proof {
                let s0 = old(st).stack@;
                lemma_frames_spec_drop_last(s0);
                lemma_frames_spec_push(s0.drop_last(), top);
                lemma_nodes_spec_push(top0.children@, view);
                assert(frame_spec(top) =~= (FrameSpec {
                    tag: pre.stack.last().tag,
                    range: pre.stack.last().range.spec_merge(vrange),
                    children: pre.stack.last().children.push(v),
                    text: pre.stack.last().text,
                }));
                assert(state_spec(*st) =~= append_view_spec(pre, v, vrange));
            }
        },
    }
}

fn append_text(st: &mut RenderState, text: String, r: SourceRange)
    requires
        state_spec(*old(st)).stack.len() > 0,
    ensures
        state_spec(*final(st)) == append_text_spec(state_spec(*old(st)), text@, r),
{
    let ghost pre = state_spec(*old(st));
    let ghost t = text@;
    proof {
        lemma_frames_spec_index(old(st).stack@);
    }
    let mut top = st.stack.pop().unwrap();
    let ghost top0 = top;
    top.range = top.range.merge(r);
    top.text.append(text.as_str());
    st.stack.push(top);
    proof {
        let s0 = old(st).stack@;
        lemma_frames_spec_drop_last(s0);
        lemma_frames_spec_push(s0.drop_last(), top);
        assert(frame_spec(top) =~= (FrameSpec {
            tag: pre.stack.last().tag,
            range: pre.stack.last().range.spec_merge(r),
            children: pre.stack.last().children,
            text: pre.stack.last().text + t,
        }));
        assert(state_spec(*st) =~= append_text_spec(pre, t, r));
    }
}

fn align_style(a: Option<Alignment>) -> (r: Option<String>)
    ensures
        r.deep_view() == align_style_spec(a),
{
    match a {
        Some(Alignment::Left) => Some("text-align: left".to_owned()),
        Some(Alignment::Center) => Some("text-align: center".to_owned()),
        Some(Alignment::Right) => Some("text-align: right".to_owned()),
        _ => None,
    }
}

fn cell_align(st: &RenderState, t: &Tag) -> (a: Option<Alignment>)
    ensures
        a == cell_align_spec(frames_spec(st.stack@), *t),
{
    proof {
        lemma_frames_spec_index(st.stack@);
    }
    let is_cell = matches!(t, Tag::TableCell);
    let n = st.stack.len();
    if is_cell && n >= 2 {
        proof {
            lemma_nodes_spec_index(st.stack@[n - 2 as int].children@);
            lemma_nodes_spec_index(st.stack@[n - 1 as int].children@);
        }
        match &st.stack[n - 2].tag {
            Tag::Table(aligns) => {
                let col = st.stack[n - 1].children.len();
                if col < aligns.len() {
                    Some(aligns[col])
                } else {
                    None
                }
            },
            _ => None,
        }
    } else {
        None
    }
}

/// Wraps already-built children in an element of the given kind, attaching
/// the construct's merged click range.
fn wrap(tag: HtmlElement, children: Vec<ViewNode>, merged: SourceRange) -> (v: ViewNode)
    ensures
        node_spec(v) == wrap_spec(tag, nodes_spec(children@), merged),
{
    let ghost c = nodes_spec(children@);
    let v = ViewNode::Element {
        tag,
        attributes: ElementAttributes::with_click(merged),
        children,
    };
    proof {
        assert(node_spec(v) =~= wrap_spec(tag, c, merged));
    }
    v
}

/// Builds the composite view for a closing construct, as
/// [`finish_frame_spec`] says.
fn finish_frame(
    f: Frame,
    merged: SourceRange,
    align: Option<Alignment>,
    props: &MarkdownProps,
) -> (v: ViewNode)
    ensures
        node_spec(v) == finish_frame_spec(props_spec(*props), frame_spec(f), merged, align),
{
    let ghost fm = frame_spec(f);
    let ghost ps = props_spec(*props);
    let Frame { tag, range: _, children, text } = f;
    match tag {
        Tag::Paragraph => wrap(HtmlElement::Paragraph, children, merged),
        Tag::Heading(level) => wrap(HtmlElement::Heading(level), children, merged),
        Tag::BlockQuote => wrap(HtmlElement::BlockQuote, children, merged),
        Tag::CodeBlock(language) => {
            let ghost lang = language;
            let classes: Vec<String> = match language {
                Some(l) => {
                    let mut c: Vec<String> = Vec::new();
                    c.push(l);
                    c
                },
                None => Vec::new(),
            };
            let mut inner_children: Vec<ViewNode> = Vec::new();
            inner_children.push(ViewNode::Text(text));
            let inner = ViewNode::Element {
                tag: HtmlElement::Code,
                attributes: ElementAttributes {
                    classes,
                    style: None,
                    inner_html: None,
                    on_click: None,
                },
                children: inner_children,
            };
            let mut outer_children: Vec<ViewNode> = Vec::new();
            outer_children.push(inner);
            let v = ViewNode::Element {
                tag: HtmlElement::Pre,
                attributes: ElementAttributes::with_click(merged),
                children: outer_children,
            };
            proof {
                lemma_nodes_spec_index(inner_children@);
                lemma_nodes_spec_index(outer_children@);
                assert(classes.deep_view() =~= (match lang {
                    Some(l) => seq![l@],
                    None => Seq::<Seq<char>>::empty(),
                }));
                assert(nodes_spec(inner_children@) =~= seq![ViewSpec::Text { text: fm.text }]);
                assert(nodes_spec(outer_children@) =~= seq![node_spec(inner)]);
                assert(node_spec(v) =~= finish_frame_spec(ps, fm, merged, align));
            }
            v
        },
        Tag::List(start) => match start {
            Some(n) => wrap(HtmlElement::Ol(n), children, merged),
            None => wrap(HtmlElement::Ul, children, merged),
        },
        Tag::Item => wrap(HtmlElement::Li, children, merged),
        Tag::HtmlBlock => {
            let v = ViewNode::Fragment { children };
            proof {
                assert(node_spec(v) =~= finish_frame_spec(ps, fm, merged, align));
            }
            v
        },
        Tag::FootnoteDefinition(_) => wrap(HtmlElement::Div, children, merged),
        Tag::Table(_) => wrap(HtmlElement::Table, children, merged),
        Tag::TableHead => wrap(HtmlElement::Thead, children, merged),
        Tag::TableRow => wrap(HtmlElement::Trow, children, merged),
        Tag::TableCell => {
            let v = ViewNode::Element {
                tag: HtmlElement::Tcell,
                attributes: ElementAttributes {
                    classes: Vec::new(),
                    style: align_style(align),
                    inner_html: None,
                    on_click: Some(merged),
                },
                children,
            };
            proof {
                assert(node_spec(v) =~= finish_frame_spec(ps, fm, merged, align));
            }
            v
        },
        Tag::Emphasis => wrap(HtmlElement::Italics, children, merged),
        Tag::Strong => wrap(HtmlElement::Bold, children, merged),
        Tag::Strikethrough => wrap(HtmlElement::StrikeThrough, children, merged),
        Tag::Link { link_type, url, title } => {
            let v = render_link(
                LinkDescription {
                    url,
                    content: ViewNode::Fragment { children },
                    title,
                    link_type,
                    image: false,
                },
                props.custom_links,
            );
            proof {
                assert(node_spec(v) =~= finish_frame_spec(ps, fm, merged, align));
            }
            v
        },
        Tag::Image { link_type, url, title } => {
            let v = render_link(
                LinkDescription {
                    url,
                    content: ViewNode::Fragment { children },
                    title,
                    link_type,
                    image: true,
                },
                props.custom_links,
            );
            proof {
                assert(node_spec(v) =~= finish_frame_spec(ps, fm, merged, align));
            }
            v
        },
        Tag::Component { name, attributes } => {
            let v = expand_component(name, attributes, children, &props.components);
            proof {
                assert(node_spec(v) =~= finish_frame_spec(ps, fm, merged, align));
            }
            v
        },
        Tag::MetadataBlock => {
            let v = ViewNode::Fragment { children };
            proof {
                assert(node_spec(v) =~= finish_frame_spec(ps, fm, merged, align));
            }
            v
        },
    }
}

/// Processes one `(event, range)` pair, as [`step_spec`] says.
fn step(st: &mut RenderState, e: Event, r: SourceRange, props: &MarkdownProps) -> (res: Result<
    (),
    RenderError,
>)
    ensures
        match step_spec(props_spec(*props), state_spec(*old(st)), e, r) {
            Ok(s2) => res is Ok && state_spec(*final(st)) == s2,
            Err(er) => res == Err::<(), RenderError>(er),
        },
{
    let ghost pre = state_spec(*old(st));
    let ghost ps = props_spec(*props);
    match e {
        Event::Start(tag) => {
            let ghost tg = tag;
            st.stack.push(Frame { tag, range: r, children: Vec::new(), text: String::new() });
            proof {
                lemma_frames_spec_push(old(st).stack@, st.stack@.last());
                assert(frame_spec(st.stack@.last()) =~= (FrameSpec {
                    tag: tg,
                    range: r,
                    children: Seq::empty(),
                    text: Seq::empty(),
                }));
                assert(state_spec(*st) =~= (match step_spec(ps, pre, e, r) {
                    Ok(s2) => s2,
                    Err(_) => pre,
                }));
            }
            Ok(())
        },
        Event::End(kind) => {
            proof {
                lemma_frames_spec_index(old(st).stack@);
            }
            match st.stack.pop() {
                None => Err(RenderError::UnmatchedEnd),
                Some(f) => {
                    proof {
                        lemma_frames_spec_drop_last(old(st).stack@);
                    }
                    if f.tag.kind() != kind {
                        return Err(RenderError::MismatchedEnd);
                    }
                    let merged = f.range.merge(r);
                    if matches!(f.tag, Tag::MetadataBlock) {
                        if st.stack.len() == 0 && st.output.len() == 0 && st.frontmatter.is_none()
                        {
                            st.frontmatter = Some(f.text);
                            proof {
                                assert(state_spec(*st) =~= (match step_spec(ps, pre, e, r) {
                                    Ok(s2) => s2,
                                    Err(_) => pre,
                                }));
                            }
                        } else {
                            proof {
                                lemma_nodes_spec_index(st.output@);
                                assert(state_spec(*st) =~= (match step_spec(ps, pre, e, r) {
                                    Ok(s2) => s2,
                                    Err(_) => pre,
                                }));
                            }
                        }
                        Ok(())
                    } else {
                        let align = cell_align(st, &f.tag);
                        let view = finish_frame(f, merged, align, props);
                        append_view(st, view, merged);
                        proof {
                            assert(state_spec(*st) =~= (match step_spec(ps, pre, e, r) {
                                Ok(s2) => s2,
                                Err(_) => pre,
                            }));
                        }
                        Ok(())
                    }
                },
            }
        },
        Event::Text(s) => {
            proof {
                lemma_frames_spec_index(st.stack@);
            }
            let n = st.stack.len();
            let sink = if n > 0 {
                match &st.stack[n - 1].tag {
                    Tag::CodeBlock(_) => true,
                    Tag::MetadataBlock => true,
                    _ => false,
                }
            } else {
                false
            };
            if sink {
                append_text(st, s, r);
            } else {
                let v = crate::views::render_text(s, r);
                append_view(st, v, r);
            }
            Ok(())
        },
        Event::Code(s) => {
            let v = crate::views::render_code(s, r);
            append_view(st, v, r);
            Ok(())
        },
        Event::Html(s) => {
            let v = crate::views::render_html(s, r);
            append_view(st, v, r);
            Ok(())
        },
        Event::FootnoteReference(s) => {
            let v = crate::views::render_footnote_reference(s, r);
            append_view(st, v, r);
            Ok(())
        },
        Event::SoftBreak => {
            let v = ViewNode::Text(" ".to_owned());
            append_view(st, v, r);
            Ok(())
        },
        Event::HardBreak => {
            append_view(st, ViewNode::Br, r);
            Ok(())
        },
        Event::Rule => {
            let v = crate::views::render_rule(r);
            append_view(st, v, r);
            Ok(())
        },
        Event::TaskListMarker(checked) => {
            let v = crate::views::render_tasklist_marker(checked, r);
            append_view(st, v, r);
            Ok(())
        },
    }
}

/// What a successful render hands back: one view per top-level block
/// construct, in document order, and the raw text of the document's opening
/// metadata block if it had one.
#[derive(Debug, PartialEq)]
pub struct RenderOutput {
    pub views: Vec<ViewNode>,
    pub frontmatter: Option<String>,
}

impl RenderOutput {
    /// The single view a whole render presents to the host: a fragment
    /// holding all top-level block views in document order.
    pub fn into_fragment(self) -> (v: ViewNode)
        ensures
            node_spec(v) == (ViewSpec::Fragment { children: nodes_spec(self.views@) }),
    {
        ViewNode::Fragment { children: self.views }
    }
}

/// Renders a whole event stream, as [`spec_render`] says: the views and
/// frontmatter of a balanced stream, or the invariant violation that aborted
/// the render.
pub fn render_events(stream: Vec<(Event, SourceRange)>, props: &MarkdownProps) -> (r: Result<
    RenderOutput,
    RenderError,
>)
    ensures
        match spec_render(props_spec(*props), stream@) {
            Ok(o) => r matches Ok(out) && nodes_spec(out.views@) == o.0
                && out.frontmatter.deep_view() == o.1,
            Err(e) => r == Err::<RenderOutput, RenderError>(e),
        },
{
    let ghost all = stream@;
    let ghost ps = props_spec(*props);
    let mut work = stream;
    let mut rev: Vec<(Event, SourceRange)> = Vec::new();
    #[verifier::loop_isolation(false)]
    while work.len() > 0
        invariant
            work@ + rev@.reverse() == all,
        decreases work@.len(),
    {
        let p = work.pop().unwrap();
        rev.push(p);
        proof {
            assert(work@ + rev@.reverse() =~= all);
        }
    }
    proof {
        assert(rev@.reverse() =~= all);
    }
    let mut state = RenderState { stack: Vec::new(), output: Vec::new(), frontmatter: None };
    proof {
        assert(state_spec(state) =~= init_state());
    }
    #[verifier::loop_isolation(false)]
    while rev.len() > 0
        invariant
            run_spec(ps, init_state(), all) == run_spec(ps, state_spec(state), rev@.reverse()),
        decreases rev@.len(),
    {
        let ghost remaining = rev@.reverse();
        let p = rev.pop().unwrap();
        let (e, r) = p;
        let ghost mid = state_spec(state);
        let res = step(&mut state, e, r, props);
        proof {
            assert(remaining.len() > 0);
            assert(remaining[0] == p);
            assert(e == p.0 && r == p.1);
            assert(remaining.drop_first() =~= rev@.reverse());
        }
        match res {
            Ok(_) => {
                proof {
                    assert(step_spec(ps, mid, e, r) is Ok);
                    assert(run_spec(ps, mid, remaining) == run_spec(
                        ps,
                        state_spec(state),
                        remaining.drop_first(),
                    ));
                }
            },
            Err(er) => {
                proof {
                    assert(step_spec(ps, mid, e, r) == Err::<StateSpec, RenderError>(er));
                    assert(run_spec(ps, mid, remaining) == Err::<StateSpec, RenderError>(er));
                    assert(spec_render(ps, all) == Err::<(Seq<ViewSpec>, Option<Seq<char>>), RenderError>(er));
                }
                return Err(er);
            },
        }
    }
    if state.stack.len() == 0 {
        proof {
            lemma_frames_spec_index(state.stack@);
        }
        let RenderState { stack: _, output, frontmatter } = state;
        Ok(RenderOutput { views: output, frontmatter })
    } else {
        proof {
            lemma_frames_spec_index(state.stack@);
        }
        Err(RenderError::UnclosedStart)
    }
}

/// What the preprocessor leaves of the stream: soft breaks rewritten into
/// hard breaks when the option asks for it, the stream untouched otherwise.
pub open spec fn spec_preprocess(
    events: Seq<(Event, SourceRange)>,
    hard_line_breaks: bool,
) -> Seq<(Event, SourceRange)> {
    if hard_line_breaks {
        events.map_values(|p: (Event, SourceRange)| crate::events::soft_to_hard(p))
    } else {
        events
    }
}

/// The renderer's entry point: preprocesses the event stream as the
/// configuration asks, then folds it into the top-level views and the
/// frontmatter value.
pub fn render_markdown(stream: Vec<(Event, SourceRange)>, props: &MarkdownProps) -> (r: Result<
    RenderOutput,
    RenderError,
>)
    ensures
        match spec_render(props_spec(*props), spec_preprocess(stream@, props.hard_line_breaks)) {
            Ok(o) => r matches Ok(out) && nodes_spec(out.views@) == o.0
                && out.frontmatter.deep_view() == o.1,
            Err(e) => r == Err::<RenderOutput, RenderError>(e),
        },
{
    let ghost all = stream@;
    let mut stream = stream;
    if props.hard_line_breaks {
        crate::events::apply_hard_breaks(&mut stream);
        proof {
            assert(stream@ =~= spec_preprocess(all, true));
        }
    }
    render_events(stream, props)
}

} // verus!
