//! The event vocabulary the renderer consumes, and the stream preprocessor.
//!
//! An external markdown tokenizer produces a flat sequence of events, each
//! paired with the byte range of the source text it came from.  The renderer
//! only consumes that stream; it never parses markdown syntax itself.

use vstd::prelude::*;

use crate::source_range::SourceRange;

verus! {

/// How the columns of a table are aligned.  The renderer forwards this as a
/// style hint and does not interpret it further.
#[derive(Clone, Copy, Debug, PartialEq, Eq, Structural)]
pub enum Alignment {
    Unspecified,
    Left,
    Center,
    Right,
}

/// The kind of link a link or image construct was written as.
#[derive(Clone, Copy, Debug, PartialEq, Eq, Structural)]
pub enum LinkType {
    Inline,
    Reference,
    ReferenceUnknown,
    Collapsed,
    CollapsedUnknown,
    Shortcut,
    ShortcutUnknown,
    Autolink,
    Email,
    WikiLink { has_pothole: bool },
}

/// Identifies the structural construct a Start/End event pair delimits.
#[derive(Clone, Debug, PartialEq)]
pub enum Tag {
    Paragraph,
    /// A heading with its level, 1 to 6.
    Heading(u8),
    BlockQuote,
    /// A code block, with the fence's language hint if one was given.
    CodeBlock(Option<String>),
    /// A list; `Some(n)` for an ordered list whose numbering starts at `n`.
    List(Option<i32>),
    Item,
    /// A block of raw HTML lines; its children pass through transparently.
    HtmlBlock,
    /// A footnote definition, with the label it can be referred to by.
    FootnoteDefinition(String),
    /// A table, with the alignment of each of its columns.
    Table(Vec<Alignment>),
    TableHead,
    TableRow,
    TableCell,
    Emphasis,
    Strong,
    Strikethrough,
    /// A link with its type, destination and title.
    Link { link_type: LinkType, url: String, title: String },
    /// An image with its type, destination and title.
    Image { link_type: LinkType, url: String, title: String },
    /// An embedded custom component reference: a name to look up in the
    /// caller's registry, and its ordered attribute list.
    Component { name: String, attributes: Vec<(String, String)> },
    /// The metadata block a document may begin with; its raw text becomes the
    /// frontmatter value.
    MetadataBlock,
}

/// The kind of a [`Tag`], without its payload.  An End event carries only the
/// kind, which must match the kind of the frame it closes.
#[derive(Clone, Copy, Debug, PartialEq, Eq, Structural)]
pub enum TagKind {
    Paragraph,
    Heading,
    BlockQuote,
    CodeBlock,
    List,
    Item,
    HtmlBlock,
    FootnoteDefinition,
    Table,
    TableHead,
    TableRow,
    TableCell,
    Emphasis,
    Strong,
    Strikethrough,
    Link,
    Image,
    Component,
    MetadataBlock,
}

/// A single signal from the markdown tokenizer: either a structural
/// `Start`/`End` delimiter or a leaf construct.
#[derive(Clone, Debug, PartialEq)]
pub enum Event {
    Start(Tag),
    End(TagKind),
    Text(String),
    /// An inline code span.
    Code(String),
    /// An inline run of raw HTML.
    Html(String),
    /// A reference to a footnote definition, rendered as an inline marker.
    FootnoteReference(String),
    SoftBreak,
    HardBreak,
    Rule,
    /// The checkbox of a task-list item, checked or not.
    TaskListMarker(bool),
}

impl Tag {
    /// The kind of this tag, used to match an End event against the frame it
    /// closes.
    pub open spec fn spec_kind(&self) -> TagKind {
        match self {
            Tag::Paragraph => TagKind::Paragraph,
            Tag::Heading(..) => TagKind::Heading,
            Tag::BlockQuote => TagKind::BlockQuote,
            Tag::CodeBlock(..) => TagKind::CodeBlock,
            Tag::List(..) => TagKind::List,
            Tag::Item => TagKind::Item,
            Tag::HtmlBlock => TagKind::HtmlBlock,
            Tag::FootnoteDefinition(..) => TagKind::FootnoteDefinition,
            Tag::Table(..) => TagKind::Table,
            Tag::TableHead => TagKind::TableHead,
            Tag::TableRow => TagKind::TableRow,
            Tag::TableCell => TagKind::TableCell,
            Tag::Emphasis => TagKind::Emphasis,
            Tag::Strong => TagKind::Strong,
            Tag::Strikethrough => TagKind::Strikethrough,
            Tag::Link { .. } => TagKind::Link,
            Tag::Image { .. } => TagKind::Image,
            Tag::Component { .. } => TagKind::Component,
            Tag::MetadataBlock => TagKind::MetadataBlock,
        }
    }

    pub fn kind(&self) -> (k: TagKind)
        ensures
            k == self.spec_kind(),
    {
        match self {
            Tag::Paragraph => TagKind::Paragraph,
            Tag::Heading(..) => TagKind::Heading,
            Tag::BlockQuote => TagKind::BlockQuote,
            Tag::CodeBlock(..) => TagKind::CodeBlock,
            Tag::List(..) => TagKind::List,
            Tag::Item => TagKind::Item,
            Tag::HtmlBlock => TagKind::HtmlBlock,
            Tag::FootnoteDefinition(..) => TagKind::FootnoteDefinition,
            Tag::Table(..) => TagKind::Table,
            Tag::TableHead => TagKind::TableHead,
            Tag::TableRow => TagKind::TableRow,
            Tag::TableCell => TagKind::TableCell,
            Tag::Emphasis => TagKind::Emphasis,
            Tag::Strong => TagKind::Strong,
            Tag::Strikethrough => TagKind::Strikethrough,
            Tag::Link { .. } => TagKind::Link,
            Tag::Image { .. } => TagKind::Image,
            Tag::Component { .. } => TagKind::Component,
            Tag::MetadataBlock => TagKind::MetadataBlock,
        }
    }
}

/// What the preprocessor turns one stream element into when hard line breaks
/// are requested: a soft break becomes a hard break at the same range, and
/// every other event passes through unchanged.
pub open spec fn soft_to_hard(p: (Event, SourceRange)) -> (Event, SourceRange) {
    match p.0 {
        Event::SoftBreak => (Event::HardBreak, p.1),
        _ => p,
    }
}

/// The stream preprocessor for the hard-line-breaks option: rewrites every
/// soft break in place into a hard break, keeping its source range and
/// leaving every other event untouched.
pub fn apply_hard_breaks(stream: &mut Vec<(Event, SourceRange)>)
    ensures
        final(stream)@.len() == old(stream)@.len(),
        forall|i: int|
            0 <= i < old(stream)@.len() ==> final(stream)@[i] == soft_to_hard(old(stream)@[i]),
{
    let n = stream.len();
    let mut i: usize = 0;
    while i < n
        invariant
            n == old(stream)@.len(),
            stream@.len() == n,
            i <= n,
            forall|j: int| 0 <= j < i ==> stream@[j] == soft_to_hard(old(stream)@[j]),
            forall|j: int| i <= j < n ==> stream@[j] == old(stream)@[j],
        decreases n - i,
    {
        let is_soft = matches!(stream[i].0, Event::SoftBreak);
        if is_soft {
            let range = stream[i].1;
            stream.set(i, (Event::HardBreak, range));
        }
        i = i + 1;
    }
}

} // verus!
