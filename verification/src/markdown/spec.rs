//! The rendering of markdown events as a state machine over mathematical sequences: what the
//! renderer holds after each event, and what it hands out at the end.

use vstd::prelude::*;

use super::{CharSpan, ListKind, MdEvent, MdTag, MdTagEnd, SpanStyle};
use crate::text::{byte_offset, decimal, is_white_space};

verus! {

/// What the renderer holds: the text so far, the finished styled ranges, the ranges that are
/// still open with the position where they started, and the lists that are open, innermost
/// last.
#[verifier::ext_equal]
pub struct RenderState {
    pub text: Seq<char>,
    pub spans: Seq<CharSpan>,
    pub open_spans: Seq<(usize, SpanStyle)>,
    pub lists: Seq<ListKind>,
}

/// The marker in front of an item of a bullet list.
pub open spec fn bullet_marker() -> Seq<char> {
    seq!['•', ' ']
}

/// The marker of a checked task.
pub open spec fn checked_marker() -> Seq<char> {
    seq!['☑', ' ']
}

/// The marker of an open task.
pub open spec fn unchecked_marker() -> Seq<char> {
    seq!['☐', ' ']
}

/// The number of box drawing characters that a horizontal rule becomes.
pub open spec fn rule_length() -> nat {
    20
}

/// The line that a horizontal rule becomes.
pub open spec fn rule_text() -> Seq<char> {
    Seq::new(rule_length(), |i: int| '─')
}

/// The indentation of an item of a list nested `depth` levels deep: two spaces per level.
pub open spec fn indent(depth: nat) -> Seq<char> {
    Seq::new(2 * depth, |i: int| ' ')
}

/// `count` line feeds.
pub open spec fn line_feeds(count: nat) -> Seq<char> {
    Seq::new(count, |i: int| '\n')
}

/// The number of line feeds at the end of `text`.
pub open spec fn trailing_line_feeds(text: Seq<char>) -> nat
    decreases text.len(),
{
    if text.len() == 0 || text.last() != '\n' {
        0
    } else {
        1 + trailing_line_feeds(text.drop_last())
    }
}

/// `text` with line feeds added until it ends with at least `wanted` of them; an empty text
/// stays empty.
pub open spec fn with_trailing_line_feeds(text: Seq<char>, wanted: nat) -> Seq<char> {
    if text.len() == 0 || wanted <= trailing_line_feeds(text) {
        text
    } else {
        text + line_feeds((wanted - trailing_line_feeds(text)) as nat)
    }
}

/// The style of the range that the element `tag` opens, if it opens one.
pub open spec fn span_style_of(tag: MdTag) -> Option<SpanStyle> {
    match tag {
        MdTag::Heading(level) => Some(SpanStyle::Heading(level)),
        MdTag::BlockQuote => Some(SpanStyle::BlockQuote),
        MdTag::CodeBlock => Some(SpanStyle::CodeBlock),
        MdTag::Emphasis => Some(SpanStyle::Emphasis),
        MdTag::Strong => Some(SpanStyle::Strong),
        MdTag::Strikethrough => Some(SpanStyle::Strikethrough),
        MdTag::Link => Some(SpanStyle::Link),
        MdTag::Image => Some(SpanStyle::Link),
        _ => None,
    }
}

/// Whether the end `tag_end` closes the range that was opened last.
pub open spec fn closes_span_of(tag_end: MdTagEnd) -> bool {
    match tag_end {
        MdTagEnd::Heading(_) => true,
        MdTagEnd::BlockQuote => true,
        MdTagEnd::CodeBlock => true,
        MdTagEnd::Emphasis => true,
        MdTagEnd::Strong => true,
        MdTagEnd::Strikethrough => true,
        MdTagEnd::Link => true,
        MdTagEnd::Image => true,
        _ => false,
    }
}

/// Whether the end `tag_end` ends a block that is separated from what follows it.
pub open spec fn ends_block(tag_end: MdTagEnd) -> bool {
    match tag_end {
        MdTagEnd::Paragraph => true,
        MdTagEnd::Heading(_) => true,
        MdTagEnd::BlockQuote => true,
        MdTagEnd::CodeBlock => true,
        MdTagEnd::HtmlBlock => true,
        _ => false,
    }
}

/// `n + 1`, or `n` when that is the largest `u64`.
pub open spec fn saturating_successor(n: u64) -> u64 {
    if n == u64::MAX {
        n
    } else {
        (n + 1) as u64
    }
}

/// The renderer before the first event.
pub open spec fn initial_state() -> RenderState {
    RenderState {
        text: Seq::empty(),
        spans: Seq::empty(),
        open_spans: Seq::empty(),
        lists: Seq::empty(),
    }
}

impl RenderState {
    /// The text ends with at least `wanted` line feeds, unless it is empty.
    pub open spec fn ensure_line_feeds(self, wanted: nat) -> RenderState {
        RenderState { text: with_trailing_line_feeds(self.text, wanted), ..self }
    }

    /// A block ends: a blank line after it outside of lists, a line break inside of one.
    pub open spec fn end_block(self) -> RenderState {
        self.ensure_line_feeds(if self.lists.len() == 0 { 2 } else { 1 })
    }

    /// `chars` are added to the text.
    pub open spec fn push_text(self, chars: Seq<char>) -> RenderState {
        RenderState { text: self.text + chars, ..self }
    }

    /// `chars` are added to the text as a range of their own with `style`.
    pub open spec fn push_styled(self, chars: Seq<char>, style: SpanStyle) -> RenderState {
        let text = self.text + chars;
        RenderState {
            text,
            spans: self.spans.push(
                CharSpan { start: self.text.len() as usize, end: text.len() as usize, style },
            ),
            ..self
        }
    }

    /// The range that was opened last is closed at the end of the text.
    pub open spec fn close_span(self) -> RenderState {
        if self.open_spans.len() == 0 {
            self
        } else {
            let (start, style) = self.open_spans.last();
            RenderState {
                spans: self.spans.push(
                    CharSpan { start, end: self.text.len() as usize, style },
                ),
                open_spans: self.open_spans.drop_last(),
                ..self
            }
        }
    }

    /// A list starts on a line of its own when it is nested in another one.
    pub open spec fn start_list(self, first_number: Option<u64>) -> RenderState {
        let state = if self.lists.len() == 0 {
            self
        } else {
            self.ensure_line_feeds(1)
        };
        let kind = match first_number {
            None => ListKind::Bullet,
            Some(n) => ListKind::Numbered(n),
        };
        RenderState { lists: state.lists.push(kind), ..state }
    }

    /// An item starts on a line of its own, indented by its depth, with a bullet or its number.
    pub open spec fn start_item(self) -> RenderState {
        let state = self.ensure_line_feeds(1);
        let depth: nat = if state.lists.len() == 0 {
            0
        } else {
            (state.lists.len() - 1) as nat
        };
        let last = state.lists.len() - 1;
        if state.lists.len() > 0 && state.lists[last] is Numbered {
            let n = state.lists[last]->Numbered_0;
            RenderState {
                text: state.text + indent(depth) + decimal(n as nat) + seq!['.', ' '],
                lists: state.lists.update(last, ListKind::Numbered(saturating_successor(n))),
                ..state
            }
        } else {
            RenderState { text: state.text + indent(depth) + bullet_marker(), ..state }
        }
    }

    /// A task marker replaces the bullet right before it with a check box.
    pub open spec fn mark_task(self, is_checked: bool) -> RenderState {
        let text = self.text;
        let without_bullet = if text.len() >= 2 && text.subrange(text.len() - 2, text.len() as int)
            == bullet_marker() {
            text.take(text.len() - 2)
        } else {
            text
        };
        RenderState {
            text: without_bullet + if is_checked {
                checked_marker()
            } else {
                unchecked_marker()
            },
            ..self
        }
    }

    /// An element starts.
    pub open spec fn start(self, tag: MdTag) -> RenderState {
        match tag {
            MdTag::List(first_number) => self.start_list(first_number),
            MdTag::Item => self.start_item(),
            _ => match span_style_of(tag) {
                Some(style) => RenderState {
                    open_spans: self.open_spans.push((self.text.len() as usize, style)),
                    ..self
                },
                None => self,
            },
        }
    }

    /// An element ends.
    pub open spec fn end(self, tag_end: MdTagEnd) -> RenderState {
        let state = if closes_span_of(tag_end) {
            self.close_span()
        } else {
            self
        };
        match tag_end {
            MdTagEnd::Item => state.ensure_line_feeds(1),
            MdTagEnd::List(_) => {
                let popped = RenderState {
                    lists: if state.lists.len() == 0 {
                        state.lists
                    } else {
                        state.lists.drop_last()
                    },
                    ..state
                };
                if popped.lists.len() == 0 {
                    popped.ensure_line_feeds(2)
                } else {
                    popped
                }
            },
            _ => if ends_block(tag_end) {
                state.end_block()
            } else {
                state
            },
        }
    }

    /// The renderer takes in one event.
    pub open spec fn accept(self, event: MdEvent) -> RenderState {
        match event {
            MdEvent::Start(tag) => self.start(tag),
            MdEvent::End(tag_end) => self.end(tag_end),
            MdEvent::Text(chars) => self.push_text(chars@),
            MdEvent::Html(chars) => self.push_text(chars@),
            MdEvent::InlineHtml(chars) => self.push_text(chars@),
            MdEvent::Code(chars) => self.push_styled(chars@, SpanStyle::InlineCode),
            MdEvent::SoftBreak => self.push_text(seq!['\n']),
            MdEvent::HardBreak => self.push_text(seq!['\n']),
            MdEvent::Rule => self.push_text(rule_text()).end_block(),
            MdEvent::TaskListMarker(is_checked) => self.mark_task(is_checked),
            MdEvent::Other => self,
        }
    }
}

/// The renderer after it took in `events`, one after the other.
pub open spec fn run(events: Seq<MdEvent>) -> RenderState
    decreases events.len(),
{
    if events.len() == 0 {
        initial_state()
    } else {
        run(events.drop_last()).accept(events.last())
    }
}

/// The number of white space characters at the end of `text`.
pub open spec fn trailing_white_space(text: Seq<char>) -> nat
    decreases text.len(),
{
    if text.len() == 0 || !is_white_space(text.last()) {
        0
    } else {
        1 + trailing_white_space(text.drop_last())
    }
}

/// The white space at the end of a text is part of it.
pub proof fn lemma_trailing_white_space_bound(text: Seq<char>)
    ensures
        trailing_white_space(text) <= text.len(),
    decreases text.len(),
{
    if text.len() > 0 {
        lemma_trailing_white_space_bound(text.drop_last());
    }
}

/// The length of `text` without the white space at its end.
pub open spec fn trimmed_len(text: Seq<char>) -> nat {
    (text.len() - trailing_white_space(text)) as nat
}

/// `span` cut off at the position `len`.
pub open spec fn clamp_span(span: CharSpan, len: nat) -> CharSpan {
    CharSpan {
        start: if span.start <= len {
            span.start
        } else {
            len as usize
        },
        end: if span.end <= len {
            span.end
        } else {
            len as usize
        },
        style: span.style,
    }
}

/// The ranges of `spans`, cut off at `len`, that still cover some text, in their order.
pub open spec fn kept_spans(spans: Seq<CharSpan>, len: nat) -> Seq<CharSpan>
    decreases spans.len(),
{
    if spans.len() == 0 {
        Seq::empty()
    } else {
        let span = clamp_span(spans.last(), len);
        let kept = kept_spans(spans.drop_last(), len);
        if span.start < span.end {
            kept.push(span)
        } else {
            kept
        }
    }
}

/// Whether `a` comes before `b`: it starts earlier, or at the same place and ends later, so
/// that the outer of two nested ranges comes first.
pub open spec fn span_precedes(a: CharSpan, b: CharSpan) -> bool {
    a.start < b.start || (a.start == b.start && a.end > b.end)
}

/// Where `span` goes into the ordered `sorted`: after every range that does not come after it.
pub open spec fn insertion_point(sorted: Seq<CharSpan>, span: CharSpan) -> nat
    decreases sorted.len(),
{
    if sorted.len() == 0 || !span_precedes(span, sorted.last()) {
        sorted.len()
    } else {
        insertion_point(sorted.drop_last(), span)
    }
}

/// `sorted` with `span` put into its place.
pub open spec fn insert_span(sorted: Seq<CharSpan>, span: CharSpan) -> Seq<CharSpan> {
    let point = insertion_point(sorted, span) as int;
    sorted.take(point).push(span) + sorted.skip(point)
}

/// `spans` in order, ranges that are equally placed keeping their order.
pub open spec fn sort_spans(spans: Seq<CharSpan>) -> Seq<CharSpan>
    decreases spans.len(),
{
    if spans.len() == 0 {
        Seq::empty()
    } else {
        insert_span(sort_spans(spans.drop_last()), spans.last())
    }
}

/// The text that `events` render to.
pub open spec fn rendered_text(events: Seq<MdEvent>) -> Seq<char> {
    let text = run(events).text;
    text.take(trimmed_len(text) as int)
}

/// The styled ranges that `events` render to, counted in characters.
pub open spec fn rendered_char_spans(events: Seq<MdEvent>) -> Seq<CharSpan> {
    let state = run(events);
    sort_spans(kept_spans(state.spans, trimmed_len(state.text)))
}

/// Whether `rendered` holds the text `text` and the ranges `spans`, each turned from character
/// positions into the byte positions of the UTF-8 encoding of the text.
pub open spec fn holds_rendering(
    rendered: super::RenderedMarkdown,
    text: Seq<char>,
    spans: Seq<CharSpan>,
) -> bool {
    &&& rendered.text@ == text
    &&& rendered.spans@.len() == spans.len()
    &&& forall|i: int|
        0 <= i < spans.len() ==> styled_as(#[trigger] rendered.spans@[i], text, spans[i])
}

/// Whether `styled` is the range `span` of `text` turned from character positions into the byte
/// positions of the UTF-8 encoding of the text.
pub open spec fn styled_as(styled: super::StyledSpan, text: Seq<char>, span: CharSpan) -> bool {
    &&& styled.range.start == byte_offset(text, span.start as int)
    &&& styled.range.end == byte_offset(text, span.end as int)
    &&& styled.style == span.style
}

/// Whether `rendered` is what `events` render to.
pub open spec fn renders(rendered: super::RenderedMarkdown, events: Seq<MdEvent>) -> bool {
    holds_rendering(rendered, rendered_text(events), rendered_char_spans(events))
}

/// Whether every range of `spans` covers some text and ends within the first `len`
/// characters.
pub open spec fn spans_within(spans: Seq<CharSpan>, len: nat) -> bool {
    forall|i: int| 0 <= i < spans.len() ==> span_within(#[trigger] spans[i], len)
}

/// Whether `span` covers some text and ends within the first `len` characters.
pub open spec fn span_within(span: CharSpan, len: nat) -> bool {
    span.start < span.end && span.end <= len
}

/// The ranges that are kept at the end cover some text, and lie within it.
pub proof fn lemma_kept_spans_within(spans: Seq<CharSpan>, len: nat)
    ensures
        spans_within(kept_spans(spans, len), len),
        kept_spans(spans, len).len() <= spans.len(),
    decreases spans.len(),
{
    if spans.len() > 0 {
        lemma_kept_spans_within(spans.drop_last(), len);
        let kept = kept_spans(spans.drop_last(), len);
        let span = clamp_span(spans.last(), len);
        if span.start < span.end {
            let result = kept.push(span);
            assert forall|i: int| 0 <= i < result.len() implies span_within(
                #[trigger] result[i],
                len,
            ) by {
                if i < kept.len() {
                    assert(result[i] == kept[i]);
                }
            }
        }
    }
}

/// A range goes somewhere into the ordered ranges.
pub proof fn lemma_insertion_point_bound(sorted: Seq<CharSpan>, span: CharSpan)
    ensures
        insertion_point(sorted, span) <= sorted.len(),
    decreases sorted.len(),
{
    if sorted.len() > 0 && span_precedes(span, sorted.last()) {
        lemma_insertion_point_bound(sorted.drop_last(), span);
    }
}

/// Putting the ranges in order keeps their number and where they lie.
pub proof fn lemma_sort_spans_within(spans: Seq<CharSpan>, len: nat)
    requires
        spans_within(spans, len),
    ensures
        spans_within(sort_spans(spans), len),
        sort_spans(spans).len() == spans.len(),
    decreases spans.len(),
{
    if spans.len() > 0 {
        let rest = spans.drop_last();
        assert(spans_within(rest, len)) by {
            assert forall|i: int| 0 <= i < rest.len() implies span_within(
                #[trigger] rest[i],
                len,
            ) by {
                assert(rest[i] == spans[i]);
            }
        }
        lemma_sort_spans_within(rest, len);
        let sorted = sort_spans(rest);
        let span = spans.last();
        lemma_insertion_point_bound(sorted, span);
        let point = insertion_point(sorted, span) as int;
        let result = insert_span(sorted, span);
        assert forall|i: int| 0 <= i < result.len() implies span_within(
            #[trigger] result[i],
            len,
        ) by {
            if i < point {
                assert(result[i] == sorted[i]);
            } else if i == point {
                assert(result[i] == span);
            } else {
                assert(result[i] == sorted[i - 1]);
            }
        }
    }
}

} // verus!
