//! The renderer that turns markdown events into plain text and styled ranges.

use std::ops::Range;
use vstd::prelude::*;

use super::parse::{markdown_events, parse_markdown};
use super::spec::{
    bullet_marker, checked_marker, closes_span_of, holds_rendering, indent, initial_state,
    insert_span, insertion_point, kept_spans, lemma_insertion_point_bound, lemma_kept_spans_within,
    lemma_sort_spans_within, line_feeds, renders, rule_text, run, sort_spans, span_precedes,
    span_style_of, span_within, spans_within, styled_as, trailing_line_feeds, trailing_white_space,
    trimmed_len, unchecked_marker, RenderState,
};
use super::{CharSpan, ListKind, MdEvent, MdTag, MdTagEnd, RenderedMarkdown, SpanStyle, StyledSpan};
use crate::text::{
    byte_offset, decimal, is_whitespace, lemma_byte_offset_monotonic, lemma_encode_utf8_push,
    push_decimal, string_from_chars, utf8_width,
};

verus! {

/// Collects the text and the styled ranges while the events of a document come in.
struct Renderer {
    text: Vec<char>,
    spans: Vec<CharSpan>,
    open_spans: Vec<(usize, SpanStyle)>,
    lists: Vec<ListKind>,
}

impl View for Renderer {
    type V = RenderState;

    closed spec fn view(&self) -> RenderState {
        RenderState {
            text: self.text@,
            spans: self.spans@,
            open_spans: self.open_spans@,
            lists: self.lists@,
        }
    }
}

/// Returns the style of the range that `tag` opens, if it opens one.
fn span_style(tag: MdTag) -> (style: Option<SpanStyle>)
    ensures
        style == span_style_of(tag),
{
    match tag {
        MdTag::Heading(level) => Some(SpanStyle::Heading(level)),
        MdTag::BlockQuote => Some(SpanStyle::BlockQuote),
        MdTag::CodeBlock => Some(SpanStyle::CodeBlock),
        MdTag::Emphasis => Some(SpanStyle::Emphasis),
        MdTag::Strong => Some(SpanStyle::Strong),
        MdTag::Strikethrough => Some(SpanStyle::Strikethrough),
        MdTag::Link | MdTag::Image => Some(SpanStyle::Link),
        _ => None,
    }
}

/// Tells whether `tag_end` closes the range that was opened last.
fn closes_span(tag_end: MdTagEnd) -> (closes: bool)
    ensures
        closes == closes_span_of(tag_end),
{
    match tag_end {
        MdTagEnd::Heading(_) | MdTagEnd::BlockQuote | MdTagEnd::CodeBlock | MdTagEnd::Emphasis
        | MdTagEnd::Strong | MdTagEnd::Strikethrough | MdTagEnd::Link | MdTagEnd::Image => true,
        _ => false,
    }
}

/// Tells whether `a` comes before `b` in the order of the rendered ranges.
fn precedes(a: CharSpan, b: CharSpan) -> (result: bool)
    ensures
        result == span_precedes(a, b),
{
    a.start < b.start || (a.start == b.start && a.end > b.end)
}

/// Returns `spans` in order, ranges that are equally placed keeping their order.
fn sorted_spans(spans: &Vec<CharSpan>) -> (sorted: Vec<CharSpan>)
    ensures
        sorted@ == sort_spans(spans@),
{
    let mut sorted: Vec<CharSpan> = Vec::new();
    let mut j: usize = 0;
    while j < spans.len()
        invariant
            j <= spans.len(),
            sorted@ == sort_spans(spans@.take(j as int)),
        decreases spans.len() - j,
    {
        let span = spans[j];
        let ghost before = sorted@;
        let mut point = sorted.len();
        assert(sorted@.take(point as int) =~= sorted@);
        while point > 0 && precedes(span, sorted[point - 1])
            invariant
                point <= sorted@.len(),
                sorted@ == before,
                insertion_point(before, span) == insertion_point(before.take(point as int), span),
            decreases point,
        {
            assert(before.take(point as int).drop_last() =~= before.take(point - 1));
            point = point - 1;
        }
        proof {
            if point == 0 {
                assert(before.take(0) =~= Seq::<CharSpan>::empty());
            }
            lemma_insertion_point_bound(before, span);
        }
        sorted.insert(point, span);
        assert(sorted@ =~= insert_span(before, span));
        assert(spans@.take(j + 1).drop_last() =~= spans@.take(j as int));
        j = j + 1;
    }
    assert(spans@.take(spans.len() as int) =~= spans@);
    sorted
}

impl Renderer {
    fn new() -> (renderer: Renderer)
        ensures
            renderer@ == initial_state(),
    {
        Renderer { text: Vec::new(), spans: Vec::new(), open_spans: Vec::new(), lists: Vec::new() }
    }

    /// Appends `chars` to the text.
    fn push_chars(&mut self, chars: &Vec<char>)
        ensures
            final(self)@ == old(self)@.push_text(chars@),
    {
        let mut i: usize = 0;
        while i < chars.len()
            invariant
                i <= chars.len(),
                self@ == old(self)@.push_text(chars@.take(i as int)),
            decreases chars.len() - i,
        {
            self.text.push(chars[i]);
            assert(chars@.take(i as int + 1) =~= chars@.take(i as int).push(chars@[i as int]));
            i = i + 1;
        }
        assert(chars@.take(chars.len() as int) =~= chars@);
    }

    /// Appends `count` copies of `c` to the text.
    fn push_repeated(&mut self, c: char, count: usize)
        ensures
            final(self)@ == old(self)@.push_text(Seq::new(count as nat, |i: int| c)),
    {
        let mut i: usize = 0;
        while i < count
            invariant
                i <= count,
                self@ == old(self)@.push_text(Seq::new(i as nat, |j: int| c)),
            decreases count - i,
        {
            self.text.push(c);
            assert(Seq::new((i + 1) as nat, |j: int| c) =~= Seq::new(i as nat, |j: int| c).push(
                c,
            ));
            i = i + 1;
        }
    }

    /// Makes the text end with at least `wanted` line feeds, unless it is empty.
    fn ensure_trailing_newlines(&mut self, wanted: usize)
        ensures
            final(self)@ == old(self)@.ensure_line_feeds(wanted as nat),
    {
        if self.text.len() == 0 {
            return;
        }
        let len = self.text.len();
        let mut existing: usize = 0;
        assert(self.text@.take(len as int) =~= self.text@);
        while existing < len && self.text[len - 1 - existing] == '\n'
            invariant
                len == self.text@.len(),
                self@ == old(self)@,
                existing <= len,
                trailing_line_feeds(self.text@) == existing + trailing_line_feeds(
                    self.text@.take(len - existing),
                ),
            decreases len - existing,
        {
            let ghost prefix = self.text@.take(len - existing);
            assert(prefix.drop_last() =~= self.text@.take(len - existing - 1));
            existing = existing + 1;
        }
        proof {
            if existing == len {
                assert(self.text@.take(0) =~= Seq::<char>::empty());
            }
        }
        if wanted > existing {
            self.push_repeated('\n', wanted - existing);
            assert(Seq::new((wanted - existing) as nat, |i: int| '\n') =~= line_feeds(
                (wanted - existing) as nat,
            ));
        }
    }

    /// Ends a block: a blank line after it outside of lists, a line break inside of one.
    fn end_block(&mut self)
        ensures
            final(self)@ == old(self)@.end_block(),
    {
        let separating_newlines: usize = if self.lists.len() == 0 {
            2
        } else {
            1
        };
        self.ensure_trailing_newlines(separating_newlines);
    }

    /// Appends `chars` as a range of their own with `style`.
    fn push_styled(&mut self, chars: &Vec<char>, style: SpanStyle)
        ensures
            final(self)@ == old(self)@.push_styled(chars@, style),
    {
        let start = self.text.len();
        self.push_chars(chars);
        self.spans.push(CharSpan { start, end: self.text.len(), style });
    }

    /// Closes the range that was opened last at the end of the text.
    fn close_span(&mut self)
        ensures
            final(self)@ == old(self)@.close_span(),
    {
        if let Some((start, style)) = self.open_spans.pop() {
            self.spans.push(CharSpan { start, end: self.text.len(), style });
        }
    }

    /// Starts a list, on a line of its own when it is nested in another one.
    fn start_list(&mut self, first_number: Option<u64>)
        ensures
            final(self)@ == old(self)@.start_list(first_number),
    {
        if self.lists.len() != 0 {
            self.ensure_trailing_newlines(1);
        }
        let kind = match first_number {
            None => ListKind::Bullet,
            Some(next_number) => ListKind::Numbered(next_number),
        };
        self.lists.push(kind);
    }

    /// Starts an item on a line of its own, indented by its depth, with a bullet or its number.
    fn start_item(&mut self)
        ensures
            final(self)@ == old(self)@.start_item(),
    {
        self.ensure_trailing_newlines(1);
        let ghost state = self@;
        let depth: usize = if self.lists.len() == 0 {
            0
        } else {
            self.lists.len() - 1
        };
        let mut level: usize = 0;
        while level < depth
            invariant
                level <= depth,
                self.lists@ == state.lists,
                self.spans@ == state.spans,
                self.open_spans@ == state.open_spans,
                self.text@ == state.text + indent(level as nat),
            decreases depth - level,
        {
            self.text.push(' ');
            self.text.push(' ');
            assert(indent((level + 1) as nat) =~= indent(level as nat).push(' ').push(' '));
            level = level + 1;
        }
        let count = self.lists.len();
        let numbered = if count > 0 {
            match self.lists[count - 1] {
                ListKind::Numbered(next_number) => Some(next_number),
                ListKind::Bullet => None,
            }
        } else {
            None
        };
        match numbered {
            Some(next_number) => {
                push_decimal(&mut self.text, next_number);
                self.text.push('.');
                self.text.push(' ');
                self.lists.set(count - 1, ListKind::Numbered(next_number.saturating_add(1)));
                assert(self.text@ =~= state.text + indent(depth as nat) + decimal(
                    next_number as nat,
                ) + seq!['.', ' ']);
            },
            None => {
                self.text.push('•');
                self.text.push(' ');
                assert(self.text@ =~= state.text + indent(depth as nat) + bullet_marker());
            },
        }
    }

    /// Replaces the bullet right before a task marker with a check box.
    fn mark_task(&mut self, is_checked: bool)
        ensures
            final(self)@ == old(self)@.mark_task(is_checked),
    {
        let ghost text = self.text@;
        let len = self.text.len();
        let ends_with_bullet = len >= 2 && self.text[len - 2] == '•' && self.text[len - 1] == ' ';
        proof {
            if len >= 2 {
                let tail = text.subrange(len - 2, len as int);
                assert(ends_with_bullet ==> tail =~= bullet_marker());
                assert(tail == bullet_marker() ==> tail[0] == '•' && tail[1] == ' ');
            }
        }
        if ends_with_bullet {
            self.text.truncate(len - 2);
        }
        if is_checked {
            self.text.push('☑');
            self.text.push(' ');
            assert(self.text@ =~= (if ends_with_bullet {
                text.take(len - 2)
            } else {
                text
            }) + checked_marker());
        } else {
            self.text.push('☐');
            self.text.push(' ');
            assert(self.text@ =~= (if ends_with_bullet {
                text.take(len - 2)
            } else {
                text
            }) + unchecked_marker());
        }
    }

    /// Takes in the start of an element.
    fn start(&mut self, tag: MdTag)
        ensures
            final(self)@ == old(self)@.start(tag),
    {
        match tag {
            MdTag::List(first_number) => self.start_list(first_number),
            MdTag::Item => self.start_item(),
            _ => {
                if let Some(style) = span_style(tag) {
                    self.open_spans.push((self.text.len(), style));
                }
            },
        }
    }

    /// Takes in the end of an element.
    fn end(&mut self, tag_end: MdTagEnd)
        ensures
            final(self)@ == old(self)@.end(tag_end),
    {
        if closes_span(tag_end) {
            self.close_span();
        }
        match tag_end {
            MdTagEnd::Item => self.ensure_trailing_newlines(1),
            MdTagEnd::List(_) => {
                self.lists.pop();
                if self.lists.len() == 0 {
                    self.ensure_trailing_newlines(2);
                }
            },
            MdTagEnd::Paragraph | MdTagEnd::Heading(_) | MdTagEnd::BlockQuote
            | MdTagEnd::CodeBlock | MdTagEnd::HtmlBlock => self.end_block(),
            _ => {},
        }
    }

    /// Takes in one event of the parser.
    fn accept(&mut self, event: &MdEvent)
        ensures
            final(self)@ == old(self)@.accept(*event),
    {
        match event {
            MdEvent::Start(tag) => self.start(*tag),
            MdEvent::End(tag_end) => self.end(*tag_end),
            MdEvent::Text(chars) | MdEvent::Html(chars) | MdEvent::InlineHtml(chars) => {
                self.push_chars(chars)
            },
            MdEvent::Code(chars) => self.push_styled(chars, SpanStyle::InlineCode),
            MdEvent::SoftBreak | MdEvent::HardBreak => {
                self.text.push('\n');
                assert(self.text@ =~= old(self)@.text + seq!['\n']);
            },
            MdEvent::Rule => {
                self.push_repeated('─', 20);
                assert(Seq::new(20, |i: int| '─') =~= rule_text());
                self.end_block();
            },
            MdEvent::TaskListMarker(is_checked) => self.mark_task(*is_checked),
            MdEvent::Other => {},
        }
    }
}

impl Renderer {
    /// Hands out the text without the white space at its end, and the ranges that still cover
    /// some of it, in order and counted in bytes.
    fn finish(self) -> (rendered: RenderedMarkdown)
        ensures
            holds_rendering(
                rendered,
                self@.text.take(trimmed_len(self@.text) as int),
                sort_spans(kept_spans(self@.spans, trimmed_len(self@.text))),
            ),
    {
        let ghost state = self@;
        let Renderer { text: mut chars, spans, .. } = self;
        let len = chars.len();
        let mut trailing: usize = 0;
        assert(chars@.take(len as int) =~= chars@);
        while trailing < len && is_whitespace(chars[len - 1 - trailing])
            invariant
                len == chars@.len(),
                chars@ == state.text,
                trailing <= len,
                trailing_white_space(chars@) == trailing + trailing_white_space(
                    chars@.take(len - trailing),
                ),
            decreases len - trailing,
        {
            assert(chars@.take(len - trailing).drop_last() =~= chars@.take(len - trailing - 1));
            trailing = trailing + 1;
        }
        proof {
            if trailing == len {
                assert(chars@.take(0) =~= Seq::<char>::empty());
            }
        }
        let text_len = len - trailing;
        chars.truncate(text_len);
        assert(chars@ =~= state.text.take(trimmed_len(state.text) as int));

        let mut kept: Vec<CharSpan> = Vec::new();
        let mut i: usize = 0;
        while i < spans.len()
            invariant
                i <= spans.len(),
                spans@ == state.spans,
                kept@ == kept_spans(spans@.take(i as int), text_len as nat),
            decreases spans.len() - i,
        {
            let span = spans[i];
            let start = if span.start <= text_len {
                span.start
            } else {
                text_len
            };
            let end = if span.end <= text_len {
                span.end
            } else {
                text_len
            };
            if start < end {
                kept.push(CharSpan { start, end, style: span.style });
            }
            assert(spans@.take(i + 1).drop_last() =~= spans@.take(i as int));
            i = i + 1;
        }
        assert(spans@.take(spans.len() as int) =~= spans@);
        let sorted = sorted_spans(&kept);
        proof {
            lemma_kept_spans_within(state.spans, text_len as nat);
            lemma_sort_spans_within(kept@, text_len as nat);
        }

        let text = string_from_chars(&chars);
        let mut offsets: Vec<usize> = Vec::new();
        offsets.push(0);
        assert(chars@.take(0) =~= Seq::<char>::empty());
        assert(vstd::utf8::encode_utf8(Seq::<char>::empty()) =~= Seq::<u8>::empty());
        assert(chars@.take(text_len as int) =~= chars@);
        let mut k: usize = 0;
        while k < text_len
            invariant
                k <= text_len,
                text_len == chars@.len(),
                byte_offset(chars@, text_len as int) <= isize::MAX,
                offsets@.len() == k + 1,
                forall|j: int| 0 <= j <= k ==> #[trigger] offsets@[j] == byte_offset(chars@, j),
            decreases text_len - k,
        {
            let width = utf8_width(chars[k]);
            proof {
                assert(chars@.take(k + 1) =~= chars@.take(k as int).push(chars@[k as int]));
                lemma_encode_utf8_push(chars@.take(k as int), chars@[k as int]);
                lemma_byte_offset_monotonic(chars@, k + 1, text_len as int);
            }
            offsets.push(offsets[k] + width);
            k = k + 1;
        }

        let mut styled: Vec<StyledSpan> = Vec::new();
        let mut m: usize = 0;
        while m < sorted.len()
            invariant
                m <= sorted.len(),
                spans_within(sorted@, text_len as nat),
                offsets@.len() == text_len + 1,
                forall|j: int| 0 <= j <= text_len ==> #[trigger] offsets@[j] == byte_offset(chars@, j),
                styled@.len() == m,
                forall|j: int|
                    0 <= j < m ==> styled_as(#[trigger] styled@[j], chars@, sorted@[j]),
            decreases sorted.len() - m,
        {
            let span = sorted[m];
            assert(span_within(sorted@[m as int], text_len as nat));
            let start = offsets[span.start];
            let end = offsets[span.end];
            let ghost before = styled@;
            styled.push(StyledSpan { range: Range { start, end }, style: span.style });
            assert forall|j: int| 0 <= j < m + 1 implies styled_as(
                #[trigger] styled@[j],
                chars@,
                sorted@[j],
            ) by {
                if j < m {
                    assert(styled@[j] == before[j]);
                }
            }
            m = m + 1;
        }
        RenderedMarkdown { text, spans: styled }
    }
}

/// Renders the events of a markdown document into plain text and the ranges that need styling.
pub fn render_events(events: &Vec<MdEvent>) -> (rendered: RenderedMarkdown)
    ensures
        renders(rendered, events@),
{
    let mut renderer = Renderer::new();
    let mut i: usize = 0;
    while i < events.len()
        invariant
            i <= events.len(),
            renderer@ == run(events@.take(i as int)),
        decreases events.len() - i,
    {
        renderer.accept(&events[i]);
        assert(events@.take(i + 1).drop_last() =~= events@.take(i as int));
        i = i + 1;
    }
    assert(events@.take(events.len() as int) =~= events@);
    renderer.finish()
}

/// Parses `source` as markdown into plain text plus the ranges that need styling.
pub fn render_markdown(source: &str) -> (rendered: RenderedMarkdown)
    ensures
        renders(rendered, markdown_events(source@)),
{
    let events = parse_markdown(source);
    render_events(&events)
}

} // verus!
