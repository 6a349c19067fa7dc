//! The yield tab: the markets with a nearly certain outcome, how they are
//! found, ranked and filtered, and the search of the tab.

use vstd::prelude::*;
use crate::dates::{ends_no_later, instant_of, is_ending_no_later, read_date, UtcTime};
use crate::market::{
    best_yield, event_views, return_of, Event, EventView, Market, MarketView, YIELD_MIN_PROB,
};
use crate::navigation::{moved_down, moved_up, step_down, step_up};
use crate::seq_facts::{lemma_filter_all, lemma_filter_push, lemma_take_next};
use crate::sorting::{is_stable_sort_of, stable_sort, SortOrder};
use crate::text::{
    any_contains, contains_in_any, lowercase, string_clear, string_pop, string_push, to_lowercase,
};
use crate::units::PRICE_SCALE;

verus! {

/// One market with a nearly certain outcome. The title and the end date of
/// its event are kept with it, so that ranking and filtering need no look-up.
#[derive(Debug)]
pub struct YieldOpportunity {
    pub market_name: String,
    pub market_status: &'static str,
    pub outcome: String,
    /// Price of the outcome, in millionths.
    pub price: u64,
    /// Return of the outcome, in millionths of a percent.
    pub est_return: u64,
    /// Volume of the last 24 hours, in millionths.
    pub volume: u64,
    pub event_slug: String,
    pub event_title: String,
    pub end_date: Option<UtcTime>,
}

/// What an opportunity holds, with texts as sequences of characters.
pub struct YieldOpportunityView {
    pub market_name: Seq<char>,
    pub market_status: Seq<char>,
    pub outcome: Seq<char>,
    pub price: u64,
    pub est_return: u64,
    pub volume: u64,
    pub event_slug: Seq<char>,
    pub event_title: Seq<char>,
    pub end_date: Option<UtcTime>,
}

impl View for YieldOpportunity {
    type V = YieldOpportunityView;

    open spec fn view(&self) -> YieldOpportunityView {
        YieldOpportunityView {
            market_name: self.market_name@,
            market_status: self.market_status@,
            outcome: self.outcome@,
            price: self.price,
            est_return: self.est_return,
            volume: self.volume,
            event_slug: self.event_slug@,
            event_title: self.event_title@,
            end_date: self.end_date,
        }
    }
}

impl Clone for YieldOpportunity {
    fn clone(&self) -> (r: Self)
        ensures
            r@ == self@,
    {
        YieldOpportunity {
            market_name: self.market_name.clone(),
            market_status: self.market_status,
            outcome: self.outcome.clone(),
            price: self.price,
            est_return: self.est_return,
            volume: self.volume,
            event_slug: self.event_slug.clone(),
            event_title: self.event_title.clone(),
            end_date: self.end_date,
        }
    }
}

/// The views of a row of opportunities.
pub open spec fn opportunity_views(v: Seq<YieldOpportunity>) -> Seq<YieldOpportunityView> {
    v.map_values(|o: YieldOpportunity| o@)
}

/// An event that a search of the yield tab found, with the best of its
/// opportunities if it has one.
#[derive(Debug)]
pub struct YieldSearchResult {
    pub event_slug: String,
    pub best_yield: Option<YieldOpportunity>,
}

/// The keys by which the opportunities can be ranked.
#[derive(Debug, Clone, Copy, PartialEq, Eq, Structural)]
pub enum YieldSortBy {
    /// Highest return first.
    Return,
    /// Highest volume first.
    Volume,
    /// Earliest end first, opportunities without an end date last.
    EndDate,
}

impl YieldSortBy {
    /// The text shown for this key.
    pub open spec fn label_text(self) -> Seq<char> {
        match self {
            YieldSortBy::Return => "Return"@,
            YieldSortBy::Volume => "Volume"@,
            YieldSortBy::EndDate => "End Date"@,
        }
    }

    /// The key that follows this one; the last is followed by the first.
    pub open spec fn successor(self) -> YieldSortBy {
        match self {
            YieldSortBy::Return => YieldSortBy::Volume,
            YieldSortBy::Volume => YieldSortBy::EndDate,
            YieldSortBy::EndDate => YieldSortBy::Return,
        }
    }

    pub fn label(&self) -> (r: &'static str)
        ensures
            r@ == self.label_text(),
    {
        match self {
            YieldSortBy::Return => "Return",
            YieldSortBy::Volume => "Volume",
            YieldSortBy::EndDate => "End Date",
        }
    }

    pub fn next(&self) -> (r: Self)
        ensures
            r == self.successor(),
    {
        match self {
            YieldSortBy::Return => YieldSortBy::Volume,
            YieldSortBy::Volume => YieldSortBy::EndDate,
            YieldSortBy::EndDate => YieldSortBy::Return,
        }
    }

    /// Three steps go once round the keys.
    pub proof fn lemma_keys_cycle(key: YieldSortBy)
        ensures
            key.successor().successor().successor() == key,
            key.successor() != key,
    {
    }
}

impl SortOrder<YieldOpportunity> for YieldSortBy {
    open spec fn le(&self, a: &YieldOpportunity, b: &YieldOpportunity) -> bool {
        match self {
            YieldSortBy::Return => a.est_return >= b.est_return,
            YieldSortBy::Volume => a.volume >= b.volume,
            YieldSortBy::EndDate => ends_no_later(a.end_date, b.end_date),
        }
    }

    fn in_order(&self, a: &YieldOpportunity, b: &YieldOpportunity) -> (r: bool) {
        match self {
            YieldSortBy::Return => a.est_return >= b.est_return,
            YieldSortBy::Volume => a.volume >= b.volume,
            YieldSortBy::EndDate => is_ending_no_later(&a.end_date, &b.end_date),
        }
    }

    proof fn lemma_total(&self, a: &YieldOpportunity, b: &YieldOpportunity) {
    }

    proof fn lemma_transitive(
        &self,
        a: &YieldOpportunity,
        b: &YieldOpportunity,
        c: &YieldOpportunity,
    ) {
    }
}

/// An opportunity matches a query in lower case: the query occurs in the
/// lower case form of the title of its event, of the identifier of its event
/// or of the name of its market.
pub open spec fn opportunity_matches(o: YieldOpportunityView, query_lower: Seq<char>) -> bool {
    any_contains(
        seq![lowercase(o.event_title), lowercase(o.event_slug), lowercase(o.market_name)],
        query_lower,
    )
}

/// An opportunity is shown under a filter: the filter is empty, or the
/// opportunity matches it without regard to case.
pub open spec fn shown_under(o: YieldOpportunityView, filter_query: Seq<char>) -> bool {
    filter_query.len() == 0 || opportunity_matches(o, lowercase(filter_query))
}

/// The place of the outcome that a market with a yield shows.
pub open spec fn best_index(m: MarketView) -> int {
    choose|i: int| m.is_best_yield(i)
}

/// The opportunity that a market with a yield gives in its event.
pub open spec fn opportunity_of(event: EventView, m: MarketView) -> YieldOpportunityView {
    let i = best_index(m);
    let price = m.outcome_prices[i]->0;
    YieldOpportunityView {
        market_name: m.question,
        market_status: m.status_text(),
        outcome: if i < m.outcomes.len() {
            m.outcomes[i]
        } else {
            Seq::empty()
        },
        price,
        est_return: return_of(price) as u64,
        volume: match m.volume_24hr {
            Some(v) => v,
            None => 0,
        },
        event_slug: event.slug,
        event_title: event.title,
        end_date: instant_of(event.end_date),
    }
}

/// The opportunities of the first `n` markets of an event, in the order of
/// the markets: one for each market that offers a yield.
pub open spec fn market_opportunities(event: EventView, n: int) -> Seq<YieldOpportunityView>
    decreases n,
{
    if n <= 0 {
        Seq::empty()
    } else {
        let rest = market_opportunities(event, n - 1);
        let m = event.markets[n - 1];
        if m.has_yield() {
            rest.push(opportunity_of(event, m))
        } else {
            rest
        }
    }
}

/// The opportunities of the first `n` events, in the order of the events.
pub open spec fn event_opportunities(events: Seq<EventView>, n: int) -> Seq<YieldOpportunityView>
    decreases n,
{
    if n <= 0 {
        Seq::empty()
    } else {
        event_opportunities(events, n - 1) + market_opportunities(
            events[n - 1],
            events[n - 1].markets.len() as int,
        )
    }
}

/// Only one outcome of a market is the one to show.
pub proof fn lemma_best_yield_is_unique(m: MarketView, i: int, j: int)
    requires
        m.is_best_yield(i),
        m.is_best_yield(j),
    ensures
        i == j,
{
}

/// Finds the opportunities of a row of events: for each event, in order,
/// one for each of its open markets that has a nearly certain outcome.
pub fn scan_opportunities(events: &Vec<Event>) -> (r: Vec<YieldOpportunity>)
    ensures
        opportunity_views(r@) == event_opportunities(event_views(events@), events@.len() as int),
{
    let ghost views = event_views(events@);
    let mut out: Vec<YieldOpportunity> = Vec::new();
    let mut e: usize = 0;
    while e < events.len()
        invariant
            0 <= e <= events.len(),
            views == event_views(events@),
            opportunity_views(out@) == event_opportunities(views, e as int),
        decreases events.len() - e,
    {
        let event = &events[e];
        assert(views[e as int] == event@);
        let end_date = read_date(&event.end_date);
        let ghost start = opportunity_views(out@);
        let mut k: usize = 0;
        while k < event.markets.len()
            invariant
                0 <= k <= event.markets.len(),
                end_date == instant_of(event@.end_date),
                opportunity_views(out@) == start + market_opportunities(event@, k as int),
            decreases event.markets.len() - k,
        {
            let market = &event.markets[k];
            assert(event@.markets[k as int] == market@);
            let ghost before = out@;
            match best_yield(market) {
                Some(pick) => {
                    proof {
                        let b = best_index(market@);
                        lemma_best_yield_is_unique(market@, b, pick.outcome_index as int);
                    }
                    let outcome: String = if pick.outcome_index < market.outcomes.len() {
                        market.outcomes[pick.outcome_index].clone()
                    } else {
                        String::new()
                    };
                    let volume: u64 = match market.volume_24hr {
                        Some(v) => v,
                        None => 0,
                    };
                    let opp = YieldOpportunity {
                        market_name: market.question.clone(),
                        market_status: market.status(),
                        outcome,
                        price: pick.price,
                        est_return: pick.est_return,
                        volume,
                        event_slug: event.slug.clone(),
                        event_title: event.title.clone(),
                        end_date,
                    };
                    assert(opp@ == opportunity_of(event@, market@));
                    out.push(opp);
                    assert(opportunity_views(out@) =~= opportunity_views(before).push(opp@));
                    assert(opportunity_views(out@) =~= start + market_opportunities(
                        event@,
                        k + 1,
                    ));
                },
                None => {},
            }
            k = k + 1;
        }
        e = e + 1;
    }
    out
}

/// The state of the yield tab. Prices and volumes are in millionths.
#[derive(Debug)]
pub struct YieldState {
    pub opportunities: Vec<YieldOpportunity>,
    pub selected_index: usize,
    pub scroll: usize,
    pub is_loading: bool,
    pub min_prob: u64,
    pub max_prob: u64,
    pub min_volume: u64,
    pub sort_by: YieldSortBy,
    /// The filter that narrows the list of opportunities.
    pub filter_query: String,
    /// Whether the filter is being typed.
    pub is_filtering: bool,
    /// The query of the search.
    pub search_query: String,
    pub search_results: Vec<YieldSearchResult>,
    /// Whether the query is being typed.
    pub is_searching: bool,
    /// Whether a search is under way.
    pub is_search_loading: bool,
    /// The query that the results belong to.
    pub last_searched_query: String,
}

impl YieldState {
    /// The opportunities that the filter lets through, in their order.
    pub open spec fn shown(&self) -> Seq<YieldOpportunity> {
        self.opportunities@.filter(|o: YieldOpportunity| shown_under(o@, self.filter_query@))
    }

    pub fn new() -> (r: Self)
        ensures
            r.opportunities@ == Seq::<YieldOpportunity>::empty(),
            r.selected_index == 0,
            r.scroll == 0,
            !r.is_loading,
            r.min_prob == YIELD_MIN_PROB,
            r.max_prob == PRICE_SCALE,
            r.min_volume == 0,
            r.sort_by == YieldSortBy::Return,
            r.filter_query@ == Seq::<char>::empty(),
            !r.is_filtering,
            r.search_query@ == Seq::<char>::empty(),
            r.search_results@ == Seq::<YieldSearchResult>::empty(),
            !r.is_searching,
            !r.is_search_loading,
            r.last_searched_query@ == Seq::<char>::empty(),
    {
        YieldState {
            opportunities: Vec::new(),
            selected_index: 0,
            scroll: 0,
            is_loading: false,
            min_prob: YIELD_MIN_PROB,
            max_prob: PRICE_SCALE,
            min_volume: 0,
            sort_by: YieldSortBy::Return,
            filter_query: String::new(),
            is_filtering: false,
            search_query: String::new(),
            search_results: Vec::new(),
            is_searching: false,
            is_search_loading: false,
            last_searched_query: String::new(),
        }
    }

    /// Ranks the opportunities by the key of the tab. Opportunities that tie
    /// keep their order.
    pub fn sort_opportunities(&mut self)
        ensures
            is_stable_sort_of(final(self).opportunities@, old(self).opportunities@, old(self).sort_by),
            *final(self) == (YieldState {
                opportunities: final(self).opportunities,
                ..*old(self)
            }),
    {
        stable_sort(&mut self.opportunities, self.sort_by);
    }

    /// Takes the opportunities of a row of events in place of those the tab
    /// held, ranked by the key of the tab, and ends the loading.
    pub fn refresh(&mut self, events: &Vec<Event>)
        ensures
            exists|found: Seq<YieldOpportunity>|
                opportunity_views(found) == event_opportunities(
                    event_views(events@),
                    events@.len() as int,
                ) && #[trigger] is_stable_sort_of(final(self).opportunities@, found, old(self).sort_by),
            *final(self) == (YieldState {
                opportunities: final(self).opportunities,
                is_loading: false,
                ..*old(self)
            }),
    {
        let mut found = scan_opportunities(events);
        let ghost unsorted = found@;
        stable_sort(&mut found, self.sort_by);
        assert(is_stable_sort_of(found@, unsorted, self.sort_by));
        self.opportunities = found;
        self.is_loading = false;
    }

    /// The opportunities that the filter lets through, in their order. An
    /// empty filter lets all through.
    pub fn filtered_opportunities(&self) -> (r: Vec<&YieldOpportunity>)
        ensures
            r@.map_values(|o: &YieldOpportunity| *o) == self.shown(),
    {
        let ghost pred = |o: YieldOpportunity| shown_under(o@, self.filter_query@);
        let mut out: Vec<&YieldOpportunity> = Vec::new();
        let all: bool = self.filter_query.as_str().is_empty();
        let query_lower = to_lowercase(self.filter_query.as_str());
        let mut i: usize = 0;
        assert(self.opportunities@.take(0) =~= Seq::<YieldOpportunity>::empty());
        assert(out@.map_values(|o: &YieldOpportunity| *o) =~= Seq::<YieldOpportunity>::empty());
        proof {
            lemma_filter_all(Seq::<YieldOpportunity>::empty(), pred);
        }
        while i < self.opportunities.len()
            invariant
                0 <= i <= self.opportunities.len(),
                pred == (|o: YieldOpportunity| shown_under(o@, self.filter_query@)),
                all == (self.filter_query@.len() == 0),
                query_lower@ == lowercase(self.filter_query@),
                out@.map_values(|o: &YieldOpportunity| *o) == self.opportunities@.take(
                    i as int,
                ).filter(pred),
            decreases self.opportunities.len() - i,
        {
            let opp = &self.opportunities[i];
            let keep: bool = all || {
                let mut fields: Vec<String> = Vec::new();
                fields.push(to_lowercase(opp.event_title.as_str()));
                fields.push(to_lowercase(opp.event_slug.as_str()));
                fields.push(to_lowercase(opp.market_name.as_str()));
                assert(fields@.map_values(|f: String| f@) =~= seq![
                    lowercase(opp@.event_title),
                    lowercase(opp@.event_slug),
                    lowercase(opp@.market_name),
                ]);
                contains_in_any(&fields, query_lower.as_str())
            };
            proof {
                lemma_take_next(self.opportunities@, i as int);
                lemma_filter_push(self.opportunities@.take(i as int), *opp, pred);
                assert(keep == pred(*opp));
            }
            if keep {
                let ghost before = out@;
                out.push(opp);
                assert(out@.map_values(|o: &YieldOpportunity| *o) =~= before.map_values(
                    |o: &YieldOpportunity| *o,
                ).push(*opp));
            }
            i = i + 1;
        }
        assert(self.opportunities@.take(self.opportunities.len() as int) =~= self.opportunities@);
        out
    }

    /// Moves the selection one row up among the shown opportunities.
    pub fn move_up(&mut self)
        ensures
            (final(self).selected_index as nat, final(self).scroll as nat) == (if old(self).shown().len() == 0 {
                (old(self).selected_index as nat, old(self).scroll as nat)
            } else {
                moved_up(old(self).selected_index as nat, old(self).scroll as nat)
            }),
            *final(self) == (YieldState {
                selected_index: final(self).selected_index,
                scroll: final(self).scroll,
                ..*old(self)
            }),
    {
        let filtered_len: usize = self.filtered_opportunities().len();
        if filtered_len == 0 {
            return;
        }
        let (selected, scroll) = step_up(self.selected_index, self.scroll);
        self.selected_index = selected;
        self.scroll = scroll;
    }

    /// Moves the selection one row down among the shown opportunities, of
    /// which `visible_height` fit the panel.
    pub fn move_down(&mut self, visible_height: usize)
        ensures
            (final(self).selected_index as nat, final(self).scroll as nat) == moved_down(
                old(self).selected_index as nat,
                old(self).scroll as nat,
                old(self).shown().len(),
                visible_height as nat,
            ),
            *final(self) == (YieldState {
                selected_index: final(self).selected_index,
                scroll: final(self).scroll,
                ..*old(self)
            }),
    {
        let filtered_len: usize = self.filtered_opportunities().len();
        let (selected, scroll) = step_down(
            self.selected_index,
            self.scroll,
            filtered_len,
            visible_height,
        );
        self.selected_index = selected;
        self.scroll = scroll;
    }

    /// The selected one of the shown opportunities, if the selection lies
    /// among them.
    pub fn selected_opportunity(&self) -> (r: Option<&YieldOpportunity>)
        ensures
            r is Some <==> self.selected_index < self.shown().len(),
            r matches Some(o) ==> *o == self.shown()[self.selected_index as int],
    {
        let shown = self.filtered_opportunities();
        if self.selected_index < shown.len() {
            let o: &YieldOpportunity = shown[self.selected_index];
            assert(shown@.map_values(|o: &YieldOpportunity| *o)[self.selected_index as int] == *o);
            Some(o)
        } else {
            None
        }
    }

    /// Starts the typing of a filter, with an empty filter.
    pub fn enter_filter_mode(&mut self)
        ensures
            final(self).filter_query@ == Seq::<char>::empty(),
            *final(self) == (YieldState {
                is_filtering: true,
                filter_query: final(self).filter_query,
                ..*old(self)
            }),
    {
        self.is_filtering = true;
        string_clear(&mut self.filter_query);
    }

    /// Ends the typing of the filter. The filter stays in force.
    pub fn exit_filter_mode(&mut self)
        ensures
            *final(self) == (YieldState { is_filtering: false, ..*old(self) }),
    {
        self.is_filtering = false;
    }

    /// Empties the filter and selects the first row.
    pub fn clear_filter(&mut self)
        ensures
            final(self).filter_query@ == Seq::<char>::empty(),
            *final(self) == (YieldState {
                filter_query: final(self).filter_query,
                selected_index: 0,
                scroll: 0,
                ..*old(self)
            }),
    {
        string_clear(&mut self.filter_query);
        self.selected_index = 0;
        self.scroll = 0;
    }

    /// Appends a character to the filter and selects the first row.
    pub fn add_filter_char(&mut self, c: char)
        ensures
            final(self).filter_query@ == old(self).filter_query@.push(c),
            *final(self) == (YieldState {
                filter_query: final(self).filter_query,
                selected_index: 0,
                scroll: 0,
                ..*old(self)
            }),
    {
        string_push(&mut self.filter_query, c);
        self.selected_index = 0;
        self.scroll = 0;
    }

    /// Removes the last character of the filter, if it has one, and selects
    /// the first row.
    pub fn delete_filter_char(&mut self)
        ensures
            final(self).filter_query@ == (if old(self).filter_query@.len() > 0 {
                old(self).filter_query@.drop_last()
            } else {
                old(self).filter_query@
            }),
            *final(self) == (YieldState {
                filter_query: final(self).filter_query,
                selected_index: 0,
                scroll: 0,
                ..*old(self)
            }),
    {
        string_pop(&mut self.filter_query);
        self.selected_index = 0;
        self.scroll = 0;
    }

    /// Starts the typing of a search, with no query and no results.
    pub fn enter_search_mode(&mut self)
        ensures
            final(self).search_query@ == Seq::<char>::empty(),
            final(self).search_results@ == Seq::<YieldSearchResult>::empty(),
            final(self).last_searched_query@ == Seq::<char>::empty(),
            *final(self) == (YieldState {
                is_searching: true,
                search_query: final(self).search_query,
                search_results: final(self).search_results,
                last_searched_query: final(self).last_searched_query,
                ..*old(self)
            }),
    {
        self.is_searching = true;
        string_clear(&mut self.search_query);
        self.search_results.clear();
        string_clear(&mut self.last_searched_query);
    }

    /// Ends the search: no query, no results, the first row selected.
    pub fn exit_search_mode(&mut self)
        ensures
            final(self).search_query@ == Seq::<char>::empty(),
            final(self).search_results@ == Seq::<YieldSearchResult>::empty(),
            final(self).last_searched_query@ == Seq::<char>::empty(),
            *final(self) == (YieldState {
                is_searching: false,
                search_query: final(self).search_query,
                search_results: final(self).search_results,
                last_searched_query: final(self).last_searched_query,
                selected_index: 0,
                scroll: 0,
                ..*old(self)
            }),
    {
        self.is_searching = false;
        string_clear(&mut self.search_query);
        self.search_results.clear();
        string_clear(&mut self.last_searched_query);
        self.selected_index = 0;
        self.scroll = 0;
    }

    /// Ends the typing of the query. Query and results stay.
    pub fn hide_search_input(&mut self)
        ensures
            *final(self) == (YieldState { is_searching: false, ..*old(self) }),
    {
        self.is_searching = false;
    }

    /// Appends a character to the query and selects the first row.
    pub fn add_search_char(&mut self, c: char)
        ensures
            final(self).search_query@ == old(self).search_query@.push(c),
            *final(self) == (YieldState {
                search_query: final(self).search_query,
                selected_index: 0,
                scroll: 0,
                ..*old(self)
            }),
    {
        string_push(&mut self.search_query, c);
        self.selected_index = 0;
        self.scroll = 0;
    }

    /// Removes the last character of the query, if it has one, and selects
    /// the first row.
    pub fn delete_search_char(&mut self)
        ensures
            final(self).search_query@ == (if old(self).search_query@.len() > 0 {
                old(self).search_query@.drop_last()
            } else {
                old(self).search_query@
            }),
            *final(self) == (YieldState {
                search_query: final(self).search_query,
                selected_index: 0,
                scroll: 0,
                ..*old(self)
            }),
    {
        string_pop(&mut self.search_query);
        self.selected_index = 0;
        self.scroll = 0;
    }

    /// Takes the results of a search for `query`, ends the loading and
    /// selects the first row.
    pub fn set_search_results(&mut self, results: Vec<YieldSearchResult>, query: String)
        ensures
            *final(self) == (YieldState {
                search_results: results,
                last_searched_query: query,
                is_search_loading: false,
                selected_index: 0,
                scroll: 0,
                ..*old(self)
            }),
    {
        self.search_results = results;
        self.last_searched_query = query;
        self.is_search_loading = false;
        self.selected_index = 0;
        self.scroll = 0;
    }

    /// Whether a filter or a query is being typed.
    pub fn is_in_input_mode(&self) -> (r: bool)
        ensures
            r == (self.is_filtering || self.is_searching),
    {
        self.is_filtering || self.is_searching
    }

    /// The number of rows of the tab: the results while a query is being
    /// typed and there are any, else the shown opportunities.
    pub fn displayed_count(&self) -> (r: usize)
        ensures
            r == (if self.is_searching && self.search_results@.len() > 0 {
                self.search_results@.len()
            } else {
                self.shown().len()
            }),
    {
        if self.is_searching && !self.search_results.is_empty() {
            self.search_results.len()
        } else {
            self.filtered_opportunities().len()
        }
    }

    /// The selected result, while a query is being typed or there are
    /// results and the selection lies among them.
    pub fn selected_search_result(&self) -> (r: Option<&YieldSearchResult>)
        ensures
            r is Some <==> (self.is_searching || self.search_results@.len() > 0)
                && self.selected_index < self.search_results@.len(),
            r matches Some(res) ==> *res == self.search_results@[self.selected_index as int],
    {
        if (self.is_searching || !self.search_results.is_empty()) && self.selected_index
            < self.search_results.len() {
            Some(&self.search_results[self.selected_index])
        } else {
            None
        }
    }
}

} // verus!
