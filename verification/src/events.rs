//! Narrowing and ordering a list of events.

use vstd::prelude::*;
use crate::market::{opt_text, Event, EventView, MarketView, TagView};
use crate::navigation::EventSortBy;
use crate::seq_facts::{lemma_filter_push, lemma_take_next};
use crate::sorting::SortOrder;
use crate::text::{
    any_contains, contains_in_any, lemma_lex_total, lemma_lex_transitive, lex_le, lowercase,
    text_le, to_lowercase,
};

verus! {

/// The texts of an event that a query is held against, in lower case:
/// its title, its identifier, the labels of its tags and the questions of
/// its markets.
pub open spec fn lowered_fields(e: EventView) -> Seq<Seq<char>> {
    seq![lowercase(e.title), lowercase(e.slug)] + e.tags.map_values(
        |t: TagView| lowercase(t.label),
    ) + e.markets.map_values(|m: MarketView| lowercase(m.question))
}

/// An event matches a query in lower case: the query occurs in the lower
/// case form of its title, of its identifier, of the label of one of its
/// tags or of the question of one of its markets.
pub open spec fn event_matches(e: EventView, query_lower: Seq<char>) -> bool {
    any_contains(lowered_fields(e), query_lower)
}

/// The events of a list that match a query in lower case, in their order.
pub open spec fn matching(events: Seq<Event>, query_lower: Seq<char>) -> Seq<Event> {
    events.filter(|e: Event| event_matches(e@, query_lower))
}

/// The events behind a row of references.
pub open spec fn referents(refs: Seq<&Event>) -> Seq<Event> {
    refs.map_values(|e: &Event| *e)
}

/// The texts of an event that a query is held against: see
/// `lowered_fields`.
pub fn lowered_fields_of(event: &Event) -> (r: Vec<String>)
    ensures
        r@.map_values(|f: String| f@) == lowered_fields(event@),
{
    let mut out: Vec<String> = Vec::new();
    out.push(to_lowercase(event.title.as_str()));
    out.push(to_lowercase(event.slug.as_str()));
    let ghost head = seq![lowercase(event@.title), lowercase(event@.slug)];
    assert(out@.map_values(|f: String| f@) =~= head);
    let mut i: usize = 0;
    while i < event.tags.len()
        invariant
            0 <= i <= event.tags.len(),
            head == seq![lowercase(event@.title), lowercase(event@.slug)],
            out@.map_values(|f: String| f@) == head + event@.tags.take(i as int).map_values(
                |t: TagView| lowercase(t.label),
            ),
        decreases event.tags.len() - i,
    {
        let ghost before = out@;
        assert(event@.tags[i as int] == event.tags@[i as int]@);
        out.push(to_lowercase(event.tags[i].label.as_str()));
        assert(out@.map_values(|f: String| f@) =~= head + event@.tags.take(i + 1).map_values(
            |t: TagView| lowercase(t.label),
        )) by {
            assert(out@.map_values(|f: String| f@) =~= before.map_values(|f: String| f@).push(
                lowercase(event@.tags[i as int].label),
            ));
        }
        i = i + 1;
    }
    assert(event@.tags.take(event.tags.len() as int) =~= event@.tags);
    let ghost with_tags = head + event@.tags.map_values(|t: TagView| lowercase(t.label));
    let mut k: usize = 0;
    while k < event.markets.len()
        invariant
            0 <= k <= event.markets.len(),
            with_tags == seq![lowercase(event@.title), lowercase(event@.slug)]
                + event@.tags.map_values(|t: TagView| lowercase(t.label)),
            out@.map_values(|f: String| f@) == with_tags + event@.markets.take(
                k as int,
            ).map_values(|m: MarketView| lowercase(m.question)),
        decreases event.markets.len() - k,
    {
        let ghost before = out@;
        assert(event@.markets[k as int] == event.markets@[k as int]@);
        out.push(to_lowercase(event.markets[k].question.as_str()));
        assert(out@.map_values(|f: String| f@) =~= with_tags + event@.markets.take(
            k + 1,
        ).map_values(|m: MarketView| lowercase(m.question))) by {
            assert(out@.map_values(|f: String| f@) =~= before.map_values(|f: String| f@).push(
                lowercase(event@.markets[k as int].question),
            ));
        }
        k = k + 1;
    }
    assert(event@.markets.take(event.markets.len() as int) =~= event@.markets);
    out
}

/// Whether an event matches a query in lower case.
pub fn matches_query(event: &Event, query_lower: &str) -> (r: bool)
    ensures
        r == event_matches(event@, query_lower@),
{
    let fields = lowered_fields_of(event);
    contains_in_any(&fields, query_lower)
}

/// References to the events of a list that match a query in lower case, in
/// their order.
pub fn filter_events<'a>(source: &'a Vec<Event>, query_lower: &str) -> (r: Vec<&'a Event>)
    ensures
        referents(r@) == matching(source@, query_lower@),
{
    let ghost pred = |e: Event| event_matches(e@, query_lower@);
    let mut out: Vec<&'a Event> = Vec::new();
    let mut i: usize = 0;
    assert(source@.take(0) =~= Seq::<Event>::empty());
    assert(referents(out@) =~= Seq::<Event>::empty());
    assert(Seq::<Event>::empty().filter(pred) =~= Seq::<Event>::empty()) by {
        reveal(Seq::filter);
    }
    while i < source.len()
        invariant
            0 <= i <= source.len(),
            pred == (|e: Event| event_matches(e@, query_lower@)),
            referents(out@) == source@.take(i as int).filter(pred),
        decreases source.len() - i,
    {
        let event = &source[i];
        let keep: bool = matches_query(event, query_lower);
        proof {
            lemma_take_next(source@, i as int);
            lemma_filter_push(source@.take(i as int), *event, pred);
        }
        if keep {
            let ghost before = out@;
            out.push(event);
            assert(referents(out@) =~= referents(before).push(*event));
        }
        i = i + 1;
    }
    assert(source@.take(source.len() as int) =~= source@);
    out
}

/// References to all events of a list, in their order.
pub fn all_events<'a>(source: &'a Vec<Event>) -> (r: Vec<&'a Event>)
    ensures
        referents(r@) == source@,
{
    let mut out: Vec<&'a Event> = Vec::new();
    let mut i: usize = 0;
    while i < source.len()
        invariant
            0 <= i <= source.len(),
            out@.len() == i,
            forall|j: int| 0 <= j < i ==> *(#[trigger] out@[j]) == source@[j],
        decreases source.len() - i,
    {
        out.push(&source[i]);
        i = i + 1;
    }
    assert(referents(out@) =~= source@);
    out
}

/// The order of optional amounts: an unknown amount is below every known
/// one.
pub open spec fn opt_le(x: Option<u64>, y: Option<u64>) -> bool {
    match (x, y) {
        (None, _) => true,
        (Some(_), None) => false,
        (Some(a), Some(b)) => a <= b,
    }
}

/// Decides `opt_le`.
pub fn is_opt_le(x: &Option<u64>, y: &Option<u64>) -> (r: bool)
    ensures
        r == opt_le(*x, *y),
{
    match (x, y) {
        (None, _) => true,
        (Some(_), None) => false,
        (Some(a), Some(b)) => *a <= *b,
    }
}

/// The order in which events end: an event whose end is known stands
/// before one whose end is not, and two known ends stand in the order of
/// their texts.
pub open spec fn ends_first(a: Option<Seq<char>>, b: Option<Seq<char>>) -> bool {
    match (a, b) {
        (Some(x), Some(y)) => lex_le(x, y),
        (Some(_), None) => true,
        (None, Some(_)) => false,
        (None, None) => true,
    }
}

/// The order in which events were created, newest first: an event whose
/// date is not known stands before one whose date is, and two known dates
/// stand in the reverse of the order of their texts.
pub open spec fn newest_first(a: Option<Seq<char>>, b: Option<Seq<char>>) -> bool {
    match (a, b) {
        (Some(x), Some(y)) => lex_le(y, x),
        (Some(_), None) => false,
        (None, Some(_)) => true,
        (None, None) => true,
    }
}

/// Decides `ends_first`.
pub fn is_ending_first(a: &Option<String>, b: &Option<String>) -> (r: bool)
    ensures
        r == ends_first(opt_text(*a), opt_text(*b)),
{
    match (a, b) {
        (Some(x), Some(y)) => text_le(x.as_str(), y.as_str()),
        (Some(_), None) => true,
        (None, Some(_)) => false,
        (None, None) => true,
    }
}

/// Decides `newest_first`.
pub fn is_newest_first(a: &Option<String>, b: &Option<String>) -> (r: bool)
    ensures
        r == newest_first(opt_text(*a), opt_text(*b)),
{
    match (a, b) {
        (Some(x), Some(y)) => text_le(y.as_str(), x.as_str()),
        (Some(_), None) => false,
        (None, Some(_)) => true,
        (None, None) => true,
    }
}

impl SortOrder<Event> for EventSortBy {
    /// By volume, liquidity and competitive score the larger amount stands
    /// first; by date see `newest_first` and `ends_first`.
    open spec fn le(&self, a: &Event, b: &Event) -> bool {
        match self {
            EventSortBy::Volume24hr => opt_le(b.volume_24hr, a.volume_24hr),
            EventSortBy::VolumeTotal => opt_le(b.volume, a.volume),
            EventSortBy::Liquidity => opt_le(b.liquidity, a.liquidity),
            EventSortBy::Newest => newest_first(opt_text(a.created_at), opt_text(b.created_at)),
            EventSortBy::EndingSoon => ends_first(opt_text(a.end_date), opt_text(b.end_date)),
            EventSortBy::Competitive => opt_le(b.competitive, a.competitive),
        }
    }

    fn in_order(&self, a: &Event, b: &Event) -> (r: bool) {
        match self {
            EventSortBy::Volume24hr => is_opt_le(&b.volume_24hr, &a.volume_24hr),
            EventSortBy::VolumeTotal => is_opt_le(&b.volume, &a.volume),
            EventSortBy::Liquidity => is_opt_le(&b.liquidity, &a.liquidity),
            EventSortBy::Newest => is_newest_first(&a.created_at, &b.created_at),
            EventSortBy::EndingSoon => is_ending_first(&a.end_date, &b.end_date),
            EventSortBy::Competitive => is_opt_le(&b.competitive, &a.competitive),
        }
    }

    proof fn lemma_total(&self, a: &Event, b: &Event) {
        match (a.created_at, b.created_at) {
            (Some(x), Some(y)) => lemma_lex_total(x@, y@),
            _ => {},
        }
        match (a.end_date, b.end_date) {
            (Some(x), Some(y)) => lemma_lex_total(x@, y@),
            _ => {},
        }
    }

    proof fn lemma_transitive(&self, a: &Event, b: &Event, c: &Event) {
        match (a.created_at, b.created_at, c.created_at) {
            (Some(x), Some(y), Some(z)) => {
                if lex_le(z@, y@) && lex_le(y@, x@) {
                    lemma_lex_transitive(z@, y@, x@);
                }
            },
            _ => {},
        }
        match (a.end_date, b.end_date, c.end_date) {
            (Some(x), Some(y), Some(z)) => {
                if lex_le(x@, y@) && lex_le(y@, z@) {
                    lemma_lex_transitive(x@, y@, z@);
                }
            },
            _ => {},
        }
    }
}

} // verus!
