//! The calls into pulldown-cmark, which parses the markdown, and the conversion of its events
//! into the library's own [`MdEvent`]s.

use pulldown_cmark::{Event, HeadingLevel as CmarkHeadingLevel, Options, Parser, Tag, TagEnd};
use vstd::prelude::*;

use super::{HeadingLevel, MdEvent, MdTag, MdTagEnd};

verus! {

#[verifier::external_type_specification]
#[verifier::external_body]
pub struct ExEvent<'a>(Event<'a>);

#[verifier::external_type_specification]
#[verifier::external_body]
pub struct ExTag<'a>(Tag<'a>);

#[verifier::external_type_specification]
#[verifier::external_body]
pub struct ExTagEnd(TagEnd);

#[verifier::external_type_specification]
#[verifier::external_body]
pub struct ExCmarkHeadingLevel(CmarkHeadingLevel);

/// The events that pulldown-cmark's parser yields for the markdown `source`, with strikethrough
/// and task lists enabled, each converted into an [`MdEvent`].
pub uninterp spec fn markdown_events(source: Seq<char>) -> Seq<MdEvent>;

/// Runs pulldown-cmark's `Parser::new_ext` over `source` with `ENABLE_STRIKETHROUGH` and
/// `ENABLE_TASKLISTS` and converts its events. The contract claims only that the result is
/// [`markdown_events`] of the source: the same source always gives the same events. What the
/// events are is pulldown-cmark's CommonMark parsing and is not stated here.
#[verifier::external_body]
pub(crate) fn parse_markdown(source: &str) -> (events: Vec<MdEvent>)
    ensures
        events@ == markdown_events(source@),
{
    Parser::new_ext(source, Options::ENABLE_STRIKETHROUGH | Options::ENABLE_TASKLISTS).map(
        convert_event,
    ).collect()
}

/// Converts one pulldown-cmark `Event` into an [`MdEvent`], variant for variant, with its text
/// as characters. Nothing is claimed of it beyond what [`parse_markdown`] claims.
#[verifier::external_body]
fn convert_event(event: Event<'_>) -> MdEvent {
    match event {
        Event::Start(tag) => MdEvent::Start(convert_tag(tag)),
        Event::End(tag_end) => MdEvent::End(convert_tag_end(tag_end)),
        Event::Text(text) => MdEvent::Text(text.chars().collect()),
        Event::Code(text) => MdEvent::Code(text.chars().collect()),
        Event::Html(text) => MdEvent::Html(text.chars().collect()),
        Event::InlineHtml(text) => MdEvent::InlineHtml(text.chars().collect()),
        Event::SoftBreak => MdEvent::SoftBreak,
        Event::HardBreak => MdEvent::HardBreak,
        Event::Rule => MdEvent::Rule,
        Event::TaskListMarker(is_checked) => MdEvent::TaskListMarker(is_checked),
        _ => MdEvent::Other,
    }
}

/// Converts a pulldown-cmark `Tag` into an [`MdTag`], variant for variant; the elements that the
/// rendering does not tell apart become [`MdTag::Other`].
#[verifier::external_body]
fn convert_tag(tag: Tag<'_>) -> MdTag {
    match tag {
        Tag::Paragraph => MdTag::Paragraph,
        Tag::Heading { level, .. } => MdTag::Heading(convert_heading_level(level)),
        Tag::BlockQuote(_) => MdTag::BlockQuote,
        Tag::CodeBlock(_) => MdTag::CodeBlock,
        Tag::HtmlBlock => MdTag::HtmlBlock,
        Tag::List(first_number) => MdTag::List(first_number),
        Tag::Item => MdTag::Item,
        Tag::Emphasis => MdTag::Emphasis,
        Tag::Strong => MdTag::Strong,
        Tag::Strikethrough => MdTag::Strikethrough,
        Tag::Link { .. } => MdTag::Link,
        Tag::Image { .. } => MdTag::Image,
        _ => MdTag::Other,
    }
}

/// Converts a pulldown-cmark `TagEnd` into an [`MdTagEnd`], variant for variant; the elements
/// that the rendering does not tell apart become [`MdTagEnd::Other`].
#[verifier::external_body]
fn convert_tag_end(tag_end: TagEnd) -> MdTagEnd {
    match tag_end {
        TagEnd::Paragraph => MdTagEnd::Paragraph,
        TagEnd::Heading(level) => MdTagEnd::Heading(convert_heading_level(level)),
        TagEnd::BlockQuote(_) => MdTagEnd::BlockQuote,
        TagEnd::CodeBlock => MdTagEnd::CodeBlock,
        TagEnd::HtmlBlock => MdTagEnd::HtmlBlock,
        TagEnd::List(is_ordered) => MdTagEnd::List(is_ordered),
        TagEnd::Item => MdTagEnd::Item,
        TagEnd::Emphasis => MdTagEnd::Emphasis,
        TagEnd::Strong => MdTagEnd::Strong,
        TagEnd::Strikethrough => MdTagEnd::Strikethrough,
        TagEnd::Link => MdTagEnd::Link,
        TagEnd::Image => MdTagEnd::Image,
        _ => MdTagEnd::Other,
    }
}

/// Converts a pulldown-cmark `HeadingLevel` into a [`HeadingLevel`], level for level.
#[verifier::external_body]
fn convert_heading_level(level: CmarkHeadingLevel) -> HeadingLevel {
    match level {
        CmarkHeadingLevel::H1 => HeadingLevel::H1,
        CmarkHeadingLevel::H2 => HeadingLevel::H2,
        CmarkHeadingLevel::H3 => HeadingLevel::H3,
        CmarkHeadingLevel::H4 => HeadingLevel::H4,
        CmarkHeadingLevel::H5 => HeadingLevel::H5,
        CmarkHeadingLevel::H6 => HeadingLevel::H6,
    }
}

} // verus!
