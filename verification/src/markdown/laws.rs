//! What holds of every rendering, whatever the parser hands in.

use vstd::prelude::*;

use super::spec::{
    insert_span, insertion_point, kept_spans, lemma_insertion_point_bound,
    lemma_kept_spans_within, lemma_sort_spans_within, lemma_trailing_white_space_bound,
    line_feeds, renders, rendered_char_spans, rendered_text, run, sort_spans, span_precedes,
    span_within, spans_within, styled_as, trailing_line_feeds, trimmed_len,
    with_trailing_line_feeds, RenderState, bullet_marker, indent, saturating_successor,
};
use super::{CharSpan, ListKind, MdEvent, RenderedMarkdown};
use crate::text::{decimal, is_white_space, lemma_byte_offset_monotonic};
use vstd::utf8::encode_utf8;

verus! {

/// Whether `a` lies before `b` or at the same place: it starts earlier, or at the same
/// position and ends no earlier.
pub open spec fn span_not_after(a: CharSpan, b: CharSpan) -> bool {
    !span_precedes(b, a)
}

/// Whether the ranges of `spans` are in order: each starts no later than the next, and of two
/// that start together the longer comes first.
pub open spec fn spans_in_order(spans: Seq<CharSpan>) -> bool {
    forall|i: int, j: int|
        0 <= i < j < spans.len() ==> span_not_after(#[trigger] spans[i], #[trigger] spans[j])
}

proof fn lemma_insertion_point_splits(sorted: Seq<CharSpan>, span: CharSpan)
    requires
        spans_in_order(sorted),
    ensures
        forall|i: int|
            0 <= i < insertion_point(sorted, span) ==> span_not_after(#[trigger] sorted[i], span),
        forall|i: int|
            insertion_point(sorted, span) <= i < sorted.len() ==> span_precedes(
                span,
                #[trigger] sorted[i],
            ),
    decreases sorted.len(),
{
    lemma_insertion_point_bound(sorted, span);
    if sorted.len() > 0 {
        let rest = sorted.drop_last();
        if span_precedes(span, sorted.last()) {
            assert(spans_in_order(rest)) by {
                assert forall|i: int, j: int| 0 <= i < j < rest.len() implies span_not_after(
                    #[trigger] rest[i],
                    #[trigger] rest[j],
                ) by {
                    assert(rest[i] == sorted[i] && rest[j] == sorted[j]);
                }
            }
            lemma_insertion_point_splits(rest, span);
            assert forall|i: int|
                0 <= i < insertion_point(sorted, span) implies span_not_after(
                #[trigger] sorted[i],
                span,
            ) by {
                assert(sorted[i] == rest[i]);
            }
            assert forall|i: int|
                insertion_point(sorted, span) <= i < sorted.len() implies span_precedes(
                span,
                #[trigger] sorted[i],
            ) by {
                if i < rest.len() {
                    assert(sorted[i] == rest[i]);
                }
            }
        } else {
            assert forall|i: int|
                0 <= i < insertion_point(sorted, span) implies span_not_after(
                #[trigger] sorted[i],
                span,
            ) by {
                if i < sorted.len() - 1 {
                    assert(span_not_after(sorted[i], sorted[sorted.len() - 1]));
                }
            }
        }
    }
}

/// Putting a range into its place keeps ordered ranges in order.
proof fn lemma_insert_span_in_order(sorted: Seq<CharSpan>, span: CharSpan)
    requires
        spans_in_order(sorted),
    ensures
        spans_in_order(insert_span(sorted, span)),
{
    lemma_insertion_point_splits(sorted, span);
    let point = insertion_point(sorted, span) as int;
    let result = insert_span(sorted, span);
    assert(result.len() == sorted.len() + 1);
    assert forall|i: int, j: int| 0 <= i < j < result.len() implies span_not_after(
        #[trigger] result[i],
        #[trigger] result[j],
    ) by {
        if j < point {
            assert(result[i] == sorted[i] && result[j] == sorted[j]);
        } else if j == point {
            assert(result[i] == sorted[i] && result[j] == span);
        } else if i < point {
            assert(result[i] == sorted[i] && result[j] == sorted[j - 1]);
            assert(span_not_after(sorted[i], sorted[j - 1]));
        } else if i == point {
            assert(result[i] == span && result[j] == sorted[j - 1]);
        } else {
            assert(result[i] == sorted[i - 1] && result[j] == sorted[j - 1]);
        }
    }
}

/// The ranges come out in order, whatever order they were closed in.
pub proof fn law_sort_spans_in_order(spans: Seq<CharSpan>)
    ensures
        spans_in_order(sort_spans(spans)),
    decreases spans.len(),
{
    if spans.len() > 0 {
        law_sort_spans_in_order(spans.drop_last());
        lemma_insert_span_in_order(sort_spans(spans.drop_last()), spans.last());
    }
}

/// The rendered ranges cover some text each, lie within the rendered text, and come in order:
/// each starts no later than the next, and of two that start at the same place the outer one,
/// which ends later, comes before the ones nested in it.
pub proof fn law_rendered_spans_in_text_and_in_order(events: Seq<MdEvent>)
    ensures
        spans_within(rendered_char_spans(events), rendered_text(events).len()),
        spans_in_order(rendered_char_spans(events)),
{
    let state = run(events);
    let len = trimmed_len(state.text);
    lemma_trailing_white_space_bound(state.text);
    lemma_kept_spans_within(state.spans, len);
    lemma_sort_spans_within(kept_spans(state.spans, len), len);
    law_sort_spans_in_order(kept_spans(state.spans, len));
}


/// Cutting the white space off the end of a text leaves a text that does not end in white
/// space.
proof fn lemma_trimmed_text_ends_in_text(text: Seq<char>)
    ensures
        text.take(trimmed_len(text) as int).len() == 0 || !is_white_space(
            text.take(trimmed_len(text) as int).last(),
        ),
    decreases text.len(),
{
    lemma_trailing_white_space_bound(text);
    if text.len() > 0 && is_white_space(text.last()) {
        let rest = text.drop_last();
        lemma_trimmed_text_ends_in_text(rest);
        lemma_trailing_white_space_bound(rest);
        assert(text.take(trimmed_len(text) as int) =~= rest.take(trimmed_len(rest) as int));
    }
}

/// The rendered text never ends in white space.
pub proof fn law_rendered_text_is_trimmed(events: Seq<MdEvent>)
    ensures
        rendered_text(events).len() == 0 || !is_white_space(rendered_text(events).last()),
{
    lemma_trimmed_text_ends_in_text(run(events).text);
}

/// What a rendering holds, counted in bytes: each styled range is a nonempty range of bytes of
/// the rendered text, and the ranges come ordered by their start, the outer of two that start
/// together first.
pub proof fn law_rendered_byte_ranges(rendered: RenderedMarkdown, events: Seq<MdEvent>)
    requires
        renders(rendered, events),
    ensures
        forall|i: int|
            #![trigger rendered.spans@[i]]
            0 <= i < rendered.spans@.len() ==> rendered.spans@[i].range.start
                < rendered.spans@[i].range.end <= encode_utf8(rendered.text@).len(),
        forall|i: int, j: int|
            #![trigger rendered.spans@[i], rendered.spans@[j]]
            0 <= i < j < rendered.spans@.len() ==> {
                let a = rendered.spans@[i].range;
                let b = rendered.spans@[j].range;
                a.start < b.start || (a.start == b.start && a.end >= b.end)
            },
{
    let text = rendered_text(events);
    let spans = rendered_char_spans(events);
    law_rendered_spans_in_text_and_in_order(events);
    assert(text.take(text.len() as int) =~= text);
    assert forall|i: int|
        #![trigger rendered.spans@[i]]
        0 <= i < rendered.spans@.len() implies rendered.spans@[i].range.start
            < rendered.spans@[i].range.end <= encode_utf8(rendered.text@).len() by {
        assert(styled_as(rendered.spans@[i], text, spans[i]));
        assert(span_within(spans[i], text.len()));
        lemma_byte_offset_monotonic(text, spans[i].start as int, spans[i].end as int);
        lemma_byte_offset_monotonic(text, spans[i].end as int, text.len() as int);
    }
    assert forall|i: int, j: int|
        #![trigger rendered.spans@[i], rendered.spans@[j]]
        0 <= i < j < rendered.spans@.len() implies {
            let a = rendered.spans@[i].range;
            let b = rendered.spans@[j].range;
            a.start < b.start || (a.start == b.start && a.end >= b.end)
        } by {
        assert(styled_as(rendered.spans@[i], text, spans[i]));
        assert(styled_as(rendered.spans@[j], text, spans[j]));
        assert(span_within(spans[i], text.len()));
        assert(span_within(spans[j], text.len()));
        assert(span_not_after(spans[i], spans[j]));
        if spans[i].start < spans[j].start {
            lemma_byte_offset_monotonic(text, spans[i].start as int, spans[j].start as int);
        } else if spans[j].end <= spans[i].end {
            lemma_byte_offset_monotonic(text, spans[j].end as int, spans[i].end as int);
        }
    }
}

/// `count` more line feeds at the end of a text that ends in line feeds.
proof fn lemma_trailing_line_feeds_append(text: Seq<char>, count: nat)
    ensures
        trailing_line_feeds(text + line_feeds(count)) == trailing_line_feeds(text) + count,
    decreases count,
{
    if count == 0 {
        assert(text + line_feeds(0) =~= text);
    } else {
        let shorter = (count - 1) as nat;
        lemma_trailing_line_feeds_append(text, shorter);
        assert((text + line_feeds(count)).drop_last() =~= text + line_feeds(shorter));
    }
}

/// Asking for line feeds at the end of a text keeps the text in front, leaves at least the
/// line feeds asked for unless the text is empty, and asking again changes nothing.
pub proof fn law_line_feeds_are_ensured(text: Seq<char>, wanted: nat)
    ensures
        with_trailing_line_feeds(text, wanted).take(text.len() as int) == text,
        text.len() > 0 ==> trailing_line_feeds(with_trailing_line_feeds(text, wanted)) >= wanted,
        text.len() == 0 ==> with_trailing_line_feeds(text, wanted) == text,
        with_trailing_line_feeds(with_trailing_line_feeds(text, wanted), wanted)
            == with_trailing_line_feeds(text, wanted),
{
    let result = with_trailing_line_feeds(text, wanted);
    if text.len() > 0 && wanted > trailing_line_feeds(text) {
        let missing = (wanted - trailing_line_feeds(text)) as nat;
        lemma_trailing_line_feeds_append(text, missing);
        assert(result.take(text.len() as int) =~= text);
    } else {
        assert(text.take(text.len() as int) =~= text);
    }
}

/// An item takes its marker from the innermost open list, and only that list counts on: an
/// item of a bullet list starts with the bullet and leaves every list as it was, even when the
/// bullet list is nested in a numbered one; an item of a numbered list starts with that list's
/// next number and advances it, and the lists around it keep their numbers.
pub proof fn law_item_marker_comes_from_innermost_list(state: RenderState)
    requires
        state.lists.len() > 0,
    ensures
        ({
            let after = state.start_item();
            let lead = with_trailing_line_feeds(state.text, 1) + indent(
                (state.lists.len() - 1) as nat,
            );
            &&& after.lists.len() == state.lists.len()
            &&& after.lists.drop_last() == state.lists.drop_last()
            &&& after.spans == state.spans
            &&& after.open_spans == state.open_spans
            &&& state.lists.last() is Bullet ==> after.text == lead + bullet_marker()
                && after.lists == state.lists
            &&& state.lists.last() matches ListKind::Numbered(n) ==> after.text == lead + decimal(
                n as nat,
            ) + seq!['.', ' '] && after.lists.last() == ListKind::Numbered(
                saturating_successor(n),
            )
        }),
{
    let after = state.start_item();
    assert(after.lists.drop_last() =~= state.lists.drop_last());
}

} // verus!
