//! Markdown rendered into plain text with the ranges that need styling.
//!
//! The parsing is done by pulldown-cmark ([`parse`]); everything after it, turning the parser's
//! events into text, list markers, check boxes, line breaks and styled ranges, is this module's
//! own logic and is verified against the state machine in [`spec`].

pub mod laws;
pub mod parse;
pub mod render;
pub mod spec;

use std::ops::Range;
use vstd::prelude::*;

verus! {

/// The level of a heading, from the largest to the smallest.
#[derive(Debug, Clone, Copy, PartialEq, Eq, Structural)]
pub enum HeadingLevel {
    H1,
    H2,
    H3,
    H4,
    H5,
    H6,
}

/// The kind of styling that a range of the rendered text gets.
#[derive(Debug, Clone, Copy, PartialEq, Eq, Structural)]
pub enum SpanStyle {
    Heading(HeadingLevel),
    BlockQuote,
    CodeBlock,
    InlineCode,
    Emphasis,
    Strong,
    Strikethrough,
    Link,
}

/// A range of bytes of the rendered text together with its style.
#[derive(Debug, PartialEq, Eq)]
pub struct StyledSpan {
    pub range: Range<usize>,
    pub style: SpanStyle,
}

/// Plain text of a rendered markdown document together with the styled ranges inside it.
#[derive(Debug, Default, PartialEq, Eq)]
pub struct RenderedMarkdown {
    pub text: String,
    pub spans: Vec<StyledSpan>,
}

/// The start of an element, as the markdown parser reports it.
#[derive(Debug, Clone, Copy, PartialEq, Eq)]
pub enum MdTag {
    Paragraph,
    Heading(HeadingLevel),
    BlockQuote,
    CodeBlock,
    HtmlBlock,
    /// A list; an ordered list carries the number of its first item.
    List(Option<u64>),
    Item,
    Emphasis,
    Strong,
    Strikethrough,
    Link,
    Image,
    /// Any other element: tables, footnote definitions, definition lists, metadata.
    Other,
}

/// The end of an element, as the markdown parser reports it.
#[derive(Debug, Clone, Copy, PartialEq, Eq)]
pub enum MdTagEnd {
    Paragraph,
    Heading(HeadingLevel),
    BlockQuote,
    CodeBlock,
    HtmlBlock,
    /// The end of a list, `true` for an ordered list.
    List(bool),
    Item,
    Emphasis,
    Strong,
    Strikethrough,
    Link,
    Image,
    Other,
}

/// One event of the markdown parser, with its text as characters.
#[derive(Debug, Clone, PartialEq, Eq)]
pub enum MdEvent {
    Start(MdTag),
    End(MdTagEnd),
    Text(Vec<char>),
    Code(Vec<char>),
    Html(Vec<char>),
    InlineHtml(Vec<char>),
    SoftBreak,
    HardBreak,
    Rule,
    TaskListMarker(bool),
    /// Footnote references and math, which the rendering leaves out.
    Other,
}

/// A styled range of the rendered text counted in characters.
#[derive(Debug, Clone, Copy, PartialEq, Eq)]
pub struct CharSpan {
    pub start: usize,
    pub end: usize,
    pub style: SpanStyle,
}

/// The kind of a list that is being rendered; a numbered list knows the number of its next
/// item.
#[derive(Debug, Clone, Copy, PartialEq, Eq)]
pub enum ListKind {
    Bullet,
    Numbered(u64),
}

} // verus!
