//! A verified core for rendering markdown event streams into a tree of view
//! nodes.
//!
//! The library consumes the flat `(Event, SourceRange)` stream that an
//! external markdown tokenizer produces and reconstructs the nested document
//! structure as a tree of [`views::ViewNode`] values, wiring every rendered
//! construct to the byte range of the source text that produced it.  A host
//! binding turns the resulting tree into concrete UI elements.

pub mod builder;
pub mod events;
pub mod laws;
pub mod source_range;
pub mod views;

pub use builder::{render_events, render_markdown, MarkdownProps, RenderError, RenderOutput};
pub use events::{Alignment, Event, LinkType, Tag, TagKind};
pub use source_range::SourceRange;
pub use views::{ElementAttributes, HtmlElement, LinkDescription, MarkdownMouseEvent,
    MdComponentProps, ViewNode};
