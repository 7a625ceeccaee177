//! The global laws of the tree builder: stream balance, frontmatter
//! behaviour, and click-range fidelity of leaf constructs.

use vstd::prelude::*;

use crate::builder::{
    init_state, is_text_sink, run_spec, spec_render, step_spec, FrameSpec, PropsSpec, StateSpec,
};
use crate::events::{Event, Tag, TagKind};
use crate::source_range::SourceRange;
use crate::views::click_range_of;

verus! {

broadcast use vstd::seq::group_seq_axioms;

/// Runs the Start/End discipline alone over a stream: which kinds of
/// construct are open after the events, or `None` the moment an End event
/// arrives unmatched or mismatched.
pub open spec fn kinds_run(
    events: Seq<(Event, SourceRange)>,
    stack: Seq<TagKind>,
) -> Option<Seq<TagKind>>
    decreases events.len(),
{
    if events.len() == 0 {
        Some(stack)
    } else {
        match events[0].0 {
            Event::Start(tag) => kinds_run(events.drop_first(), stack.push(tag.spec_kind())),
            Event::End(kind) => {
                if stack.len() > 0 && stack.last() == kind {
                    kinds_run(events.drop_first(), stack.drop_last())
                } else {
                    None
                }
            },
            _ => kinds_run(events.drop_first(), stack),
        }
    }
}

/// A well-formed stream: every Start has a matching End, properly nested,
/// and no End arrives without its Start.
pub open spec fn balanced(events: Seq<(Event, SourceRange)>) -> bool {
    kinds_run(events, Seq::empty()) == Some(Seq::<TagKind>::empty())
}

/// The kinds of the constructs open on a frame stack, bottom first.
pub open spec fn stack_kinds(stack: Seq<FrameSpec>) -> Seq<TagKind> {
    Seq::new(stack.len(), |i: int| stack[i].tag.spec_kind())
}

/// One step of the builder moves the frame stack exactly as the Start/End
/// discipline says, and fails exactly when the discipline does.
proof fn lemma_run_kinds(props: PropsSpec, st: StateSpec, events: Seq<(Event, SourceRange)>)
    ensures
        match kinds_run(events, stack_kinds(st.stack)) {
            Some(ks) => run_spec(props, st, events) is Ok && stack_kinds(
                run_spec(props, st, events)->Ok_0.stack,
            ) == ks,
            None => run_spec(props, st, events) is Err,
        },
    decreases events.len(),
{
    if events.len() == 0 {
    } else {
        let e = events[0].0;
        let r = events[0].1;
        let rest = events.drop_first();
        match e {
            Event::Start(tag) => {
                let st2 = step_spec(props, st, e, r)->Ok_0;
                assert(stack_kinds(st2.stack) =~= stack_kinds(st.stack).push(tag.spec_kind()));
                lemma_run_kinds(props, st2, rest);
            },
            Event::End(kind) => {
                if st.stack.len() == 0 {
                } else {
                    let f = st.stack.last();
                    assert(stack_kinds(st.stack).last() == f.tag.spec_kind());
                    if f.tag.spec_kind() != kind {
                    } else {
                        let st2 = step_spec(props, st, e, r)->Ok_0;
                        assert(stack_kinds(st2.stack) =~= stack_kinds(st.stack).drop_last());
                        lemma_run_kinds(props, st2, rest);
                    }
                }
            },
            _ => {
                let st2 = step_spec(props, st, e, r)->Ok_0;
                assert(stack_kinds(st2.stack) =~= stack_kinds(st.stack));
                lemma_run_kinds(props, st2, rest);
            },
        }
    }
}

/// Law: the open-frame stack is empty before the first event, and for a
/// well-formed stream — every Start with a matching End, properly nested —
/// the whole render succeeds and the stack is empty again after the last
/// event.  Conversely, a render succeeds only on a well-formed stream.
pub proof fn lemma_balanced_iff_renders(props: PropsSpec, events: Seq<(Event, SourceRange)>)
    ensures
        init_state().stack.len() == 0,
        balanced(events) <==> spec_render(props, events) is Ok,
        balanced(events) ==> run_spec(props, init_state(), events) is Ok && run_spec(
            props,
            init_state(),
            events,
        )->Ok_0.stack.len() == 0,
{
    lemma_run_kinds(props, init_state(), events);
    assert(stack_kinds(init_state().stack) =~= Seq::<TagKind>::empty());
    match kinds_run(events, Seq::empty()) {
        Some(ks) => {
            let fin = run_spec(props, init_state(), events)->Ok_0;
            assert(stack_kinds(fin.stack).len() == fin.stack.len());
            if ks.len() == 0 {
                assert(ks =~= Seq::<TagKind>::empty());
            } else {
                assert(kinds_run(events, Seq::empty()) != Some(Seq::<TagKind>::empty()));
            }
        },
        None => {},
    }
}

/// No frame on the stack is a metadata block, and none of the remaining
/// events opens one.
spec fn no_metadata(st: StateSpec, events: Seq<(Event, SourceRange)>) -> bool {
    &&& st.frontmatter is None
    &&& forall|j: int| 0 <= j < st.stack.len() ==> !(#[trigger] st.stack[j].tag is MetadataBlock)
    &&& forall|i: int|
        0 <= i < events.len() ==> !(#[trigger] events[i].0 matches Event::Start(
            Tag::MetadataBlock,
        ))
}

proof fn lemma_no_metadata_run(props: PropsSpec, st: StateSpec, events: Seq<(Event, SourceRange)>)
    requires
        no_metadata(st, events),
    ensures
        run_spec(props, st, events) matches Ok(st2) ==> st2.frontmatter is None,
    decreases events.len(),
{
    if events.len() == 0 {
    } else {
        let e = events[0].0;
        let r = events[0].1;
        let rest = events.drop_first();
        assert(forall|i: int|
            0 <= i < rest.len() ==> rest[i] == events[i + 1]);
        match step_spec(props, st, e, r) {
            Ok(st2) => {
                assert(!(e matches Event::Start(Tag::MetadataBlock)));
                assert forall|j: int| 0 <= j < st2.stack.len() implies !(#[trigger] st2.stack[j].tag
                    is MetadataBlock) by {
                    match e {
                        Event::Start(tag) => {},
                        Event::End(kind) => {},
                        _ => {},
                    }
                }
                assert(st2.frontmatter is None);
                lemma_no_metadata_run(props, st2, rest);
            },
            Err(_) => {},
        }
    }
}

/// Law: rendering a document with no metadata block extracts no frontmatter.
pub proof fn lemma_no_metadata_no_frontmatter(props: PropsSpec, events: Seq<(Event, SourceRange)>)
    requires
        forall|i: int|
            0 <= i < events.len() ==> !(#[trigger] events[i].0 matches Event::Start(
                Tag::MetadataBlock,
            )),
    ensures
        spec_render(props, events) matches Ok(o) ==> o.1 is None,
{
    lemma_no_metadata_run(props, init_state(), events);
}

/// Law: rendering is a pure function of the stream and the configuration,
/// so rendering the same document twice — each time into a fresh write
/// destination — extracts the identical frontmatter text both times.
pub proof fn lemma_frontmatter_idempotent(props: PropsSpec, events: Seq<(Event, SourceRange)>)
    ensures
        match (spec_render(props, events), spec_render(props, events)) {
            (Ok(a), Ok(b)) => a.1 == b.1,
            (Err(e1), Err(e2)) => e1 == e2,
            _ => false,
        },
{
}

/// Law: once a construct is open, no later event moves the start of its
/// accumulated range, nor changes its tag: children and the closing event
/// only ever extend the range's end.  Together with
/// [`crate::source_range::lemma_merged_range_start`] and
/// [`crate::source_range::lemma_merged_range_end`], this pins a construct's
/// final range to its Start event's start and to the largest end among its
/// End event and its descendants.
pub proof fn lemma_step_preserves_open_frames(
    props: PropsSpec,
    st: StateSpec,
    e: Event,
    r: SourceRange,
)
    ensures
        step_spec(props, st, e, r) matches Ok(st2) ==> forall|j: int|
            0 <= j < st.stack.len() && j < st2.stack.len() ==> #[trigger] st2.stack[j].tag
                == st.stack[j].tag && st2.stack[j].range.start == st.stack[j].range.start
                && st2.stack[j].range.end >= st.stack[j].range.end,
{
    match step_spec(props, st, e, r) {
        Ok(st2) => {
            assert forall|j: int| 0 <= j < st.stack.len() && j < st2.stack.len() implies #[trigger] st2.stack[j].tag == st.stack[j].tag && st2.stack[j].range.start
                == st.stack[j].range.start && st2.stack[j].range.end >= st.stack[j].range.end by {
                match e {
                    Event::Start(_) => {},
                    Event::End(_) => {},
                    _ => {},
                }
            }
        },
        Err(_) => {},
    }
}

/// Law: a closing construct that becomes an element carries exactly its
/// merged range — the frame's accumulated range extended by the End event's
/// range — as its click range.
pub proof fn lemma_composite_click_range(
    props: PropsSpec,
    f: FrameSpec,
    merged: SourceRange,
    align: Option<crate::events::Alignment>,
)
    requires
        match f.tag {
            Tag::HtmlBlock => false,
            Tag::Link { .. } => false,
            Tag::Image { .. } => false,
            Tag::Component { .. } => false,
            Tag::MetadataBlock => false,
            _ => true,
        },
    ensures
        click_range_of(crate::builder::finish_frame_spec(props, f, merged, align)) == Some(
            merged,
        ),
{
}

/// A leaf event that is rendered with an attached click handler.
pub open spec fn is_click_leaf(e: Event) -> bool {
    match e {
        Event::Text(_) => true,
        Event::Code(_) => true,
        Event::Html(_) => true,
        Event::FootnoteReference(_) => true,
        Event::Rule => true,
        Event::TaskListMarker(_) => true,
        _ => false,
    }
}

/// Law: click-range fidelity.  Whatever the state of the render, a leaf
/// construct's view carries exactly the byte range of the event that
/// produced it, whether it lands in the open frame above it or becomes a
/// top-level view.
pub proof fn lemma_leaf_click_range(props: PropsSpec, st: StateSpec, e: Event, r: SourceRange)
    requires
        is_click_leaf(e),
        e is Text ==> !(st.stack.len() > 0 && is_text_sink(st.stack.last().tag)),
    ensures
        step_spec(props, st, e, r) is Ok,
        ({
            let st2 = step_spec(props, st, e, r)->Ok_0;
            if st.stack.len() == 0 {
                st2.output.len() == st.output.len() + 1 && click_range_of(st2.output.last())
                    == Some(r)
            } else {
                st2.stack.last().children.len() == st.stack.last().children.len() + 1
                    && click_range_of(st2.stack.last().children.last()) == Some(r)
            }
        }),
{
}

} // verus!
