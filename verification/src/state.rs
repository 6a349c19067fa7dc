//! The state of the whole dashboard, and the operations that the key
//! strokes and the answers of the service are turned into.

use vstd::prelude::*;
use vstd::hash_map::StringHashMap;
use tokio::task::JoinHandle;
use crate::auth::{AuthState, LoginFormState};
use crate::events::{all_events, filter_events, matching, referents};
use crate::favorites::{FavoriteEvent, FavoritesState};
use crate::logs::{bottom_scroll, log_line, with_log_line, LogsState};
use crate::market::{clone_events, event_views, Event, EventView, YIELD_MIN_PROB};
use crate::navigation::{
    moved_down, moved_up, step_down, step_up, EventFilter, EventSortBy, FocusedPanel, MainTab,
    NavigationState, ScrollState,
};
use crate::orderbook::{OrderbookOutcome, OrderbookState, MIN_PANEL_HEIGHT};
use crate::pagination::PaginationState;
use crate::popup::PopupType;
use crate::search::{SearchMode, SearchState};
use crate::sorting::{is_stable_sort_of, stable_sort};
use crate::text::{lowercase, string_clear, string_pop, string_push, to_lowercase};
use crate::trade::{
    with_trade, EventTradesView, OutcomeInfo, Trade, TradeFormState, TradeMessage, TradeView,
    MAX_TRADES,
};
use crate::trades_ws::TradesState;
use crate::units::PRICE_SCALE;
use crate::yield_state::{YieldOpportunity, YieldSearchResult, YieldSortBy, YieldState};

verus! {

/// The number of rows of the events list that are taken to fit the panel.
pub const EVENTS_WINDOW: usize = 20;

/// More events are requested when the selection is this close to the end
/// of the list.
pub const FETCH_MARGIN: usize = 5;

/// The events that were last listed under each filter.
pub struct EventsCache {
    pub trending: Option<Vec<Event>>,
    pub breaking: Option<Vec<Event>>,
}

impl EventsCache {
    /// The events kept under a filter.
    pub open spec fn kept(&self, filter: EventFilter) -> Option<Vec<Event>> {
        match filter {
            EventFilter::Trending => self.trending,
            EventFilter::Breaking => self.breaking,
        }
    }

    pub fn new() -> (r: Self)
        ensures
            r.trending is None,
            r.breaking is None,
    {
        EventsCache { trending: None, breaking: None }
    }

    /// Keeps a list of events under a filter, in place of what was kept
    /// there.
    pub fn insert(&mut self, filter: EventFilter, events: Vec<Event>)
        ensures
            final(self).kept(filter) == Some(events),
            final(self).kept(filter.other()) == old(self).kept(filter.other()),
    {
        match filter {
            EventFilter::Trending => {
                self.trending = Some(events);
            },
            EventFilter::Breaking => {
                self.breaking = Some(events);
            },
        }
    }

    /// The events kept under a filter.
    pub fn get(&self, filter: EventFilter) -> (r: Option<&Vec<Event>>)
        ensures
            r is Some <==> self.kept(filter) is Some,
            r matches Some(v) ==> *v == self.kept(filter)->0,
    {
        match filter {
            EventFilter::Trending => self.trending.as_ref(),
            EventFilter::Breaking => self.breaking.as_ref(),
        }
    }
}

/// The filter under which a dashboard starts that requests its events
/// ordered by `order_by`.
pub open spec fn initial_filter(order_by: Seq<char>) -> EventFilter {
    if order_by == "startDate"@ || order_by == "startTime"@ || order_by == "oneDayPriceChange"@ {
        EventFilter::Breaking
    } else {
        EventFilter::Trending
    }
}

/// A cache after the first `n` of a row of events were put into it, each
/// under its identifier: of two events with one identifier the later stays.
pub open spec fn cached_with(
    base: Map<Seq<char>, EventView>,
    events: Seq<EventView>,
    n: int,
) -> Map<Seq<char>, EventView>
    decreases n,
{
    if n <= 0 {
        base
    } else {
        cached_with(base, events, n - 1).insert(events[n - 1].slug, events[n - 1])
    }
}

/// The views of the events of a cache.
pub open spec fn cache_views(cache: Map<Seq<char>, Event>) -> Map<Seq<char>, EventView> {
    cache.map_values(|e: Event| e@)
}

/// Whether a text is the same as another.
fn text_is(s: &str, other: &str) -> (r: bool)
    ensures
        r == (s@ == other@),
{
    s.to_owned() == other.to_owned()
}

/// Puts a row of events into a cache, each under its identifier.
fn put_events(cache: &mut StringHashMap<Event>, events: &[Event])
    ensures
        cache_views(final(cache)@) == cached_with(
            cache_views(old(cache)@),
            event_views(events@),
            events@.len() as int,
        ),
{
    let ghost base = cache_views(cache@);
    let ghost views = event_views(events@);
    let mut i: usize = 0;
    while i < events.len()
        invariant
            0 <= i <= events.len(),
            views == event_views(events@),
            cache_views(cache@) == cached_with(base, views, i as int),
        decreases events.len() - i,
    {
        let event = events[i].clone();
        let slug = events[i].slug.clone();
        let ghost before = cache@;
        assert(views[i as int] == events@[i as int]@);
        cache.insert(slug, event);
        assert(cache_views(cache@) =~= cache_views(before).insert(slug@, event@));
        i = i + 1;
    }
}

/// The state of the dashboard.
pub struct TrendingAppState {
    /// The events of the list, in the order in which they are shown.
    pub events: Vec<Event>,
    pub should_quit: bool,
    pub search: SearchState,
    pub scroll: ScrollState,
    pub pagination: PaginationState,
    pub logs: LogsState,
    pub navigation: NavigationState,
    pub trades: TradesState,
    pub event_filter: EventFilter,
    /// The price of each token, in millionths, as the service last told it.
    pub market_prices: StringHashMap<u64>,
    /// The number of trades of each event, as the service last told it.
    pub event_trade_counts: StringHashMap<usize>,
    pub has_clob_auth: bool,
    pub popup: Option<PopupType>,
    pub events_cache: EventsCache,
    /// Every event that was ever listed, under its identifier.
    pub event_cache: StringHashMap<Event>,
    pub show_logs: bool,
    pub main_tab: MainTab,
    pub yield_state: YieldState,
    pub favorites_state: FavoritesState,
    pub auth_state: AuthState,
    pub login_form: LoginFormState,
    pub trade_form: Option<TradeFormState>,
    pub event_sort_by: EventSortBy,
    /// What is known of the health of the two services.
    pub gamma_api_status: Option<bool>,
    pub data_api_status: Option<bool>,
    pub orderbook_state: OrderbookState,
}

impl TrendingAppState {
    /// The events that the list shows: the favorites on their tab; without
    /// a query the results of a search while one is on, else the events;
    /// under a filter the matching ones of the results, or of the events
    /// where there are no results; and under a search the results where they
    /// belong to the query, else the matching ones of the events.
    pub open spec fn listed(&self) -> Seq<Event> {
        if self.main_tab == MainTab::Favorites {
            self.favorites_state.events@
        } else if self.search.query@.len() == 0 {
            if self.search.results@.len() > 0 && self.search.mode == SearchMode::ApiSearch {
                self.search.results@
            } else {
                self.events@
            }
        } else if self.search.mode == SearchMode::LocalFilter {
            if self.search.results@.len() > 0 {
                matching(self.search.results@, lowercase(self.search.query@))
            } else {
                matching(self.events@, lowercase(self.search.query@))
            }
        } else if self.search.results@.len() > 0 && self.search.query@
            == self.search.last_searched_query@ {
            self.search.results@
        } else {
            matching(self.events@, lowercase(self.search.query@))
        }
    }

    /// The selected row of the tab that is shown.
    pub open spec fn selected(&self) -> usize {
        if self.main_tab == MainTab::Favorites {
            self.favorites_state.selected_index
        } else {
            self.navigation.selected_index
        }
    }

    /// A dashboard that starts with a list of events: the events are kept
    /// under the filter that their order stands for and under their
    /// identifiers, nothing is selected, searched, watched or open.
    pub fn new(events: Vec<Event>, order_by: String, ascending: bool, has_clob_auth: bool) -> (r:
        Self)
        ensures
            r.events == events,
            !r.should_quit,
            r.search.mode == SearchMode::Off,
            r.search.query@ == Seq::<char>::empty(),
            r.search.results@ == Seq::<Event>::empty(),
            !r.search.is_searching,
            r.search.last_searched_query@ == Seq::<char>::empty(),
            r.scroll.events_list == 0,
            r.scroll.markets == 0,
            r.scroll.trades == 0,
            r.scroll.event_details == 0,
            r.scroll.logs == 0,
            r.pagination.current_limit == events@.len(),
            r.pagination.order_by == order_by,
            r.pagination.ascending == ascending,
            !r.pagination.is_fetching_more,
            r.logs.lines() == Seq::<Seq<char>>::empty(),
            r.logs.scroll == 0,
            r.navigation.selected_index == 0,
            r.navigation.focused_panel == FocusedPanel::EventsList,
            r.trades.wf(),
            r.trades@.event_trades == Map::<Seq<char>, EventTradesView>::empty(),
            r.trades@.ws_handles == Map::<Seq<char>, JoinHandle<()>>::empty(),
            r.event_filter == initial_filter(order_by@),
            r.market_prices@ == Map::<Seq<char>, u64>::empty(),
            r.event_trade_counts@ == Map::<Seq<char>, usize>::empty(),
            r.has_clob_auth == has_clob_auth,
            r.popup is None,
            r.events_cache.kept(r.event_filter) is Some,
            event_views(r.events_cache.kept(r.event_filter)->0@) == event_views(events@),
            r.events_cache.kept(r.event_filter.other()) is None,
            cache_views(r.event_cache@) == cached_with(
                Map::empty(),
                event_views(events@),
                events@.len() as int,
            ),
            !r.show_logs,
            r.main_tab == MainTab::Trending,
            r.yield_state.opportunities@ == Seq::<YieldOpportunity>::empty(),
            r.yield_state.selected_index == 0,
            r.yield_state.scroll == 0,
            !r.yield_state.is_loading,
            r.yield_state.min_prob == YIELD_MIN_PROB,
            r.yield_state.max_prob == PRICE_SCALE,
            r.yield_state.min_volume == 0,
            r.yield_state.sort_by == YieldSortBy::Return,
            r.yield_state.filter_query@ == Seq::<char>::empty(),
            !r.yield_state.is_filtering,
            r.yield_state.search_query@ == Seq::<char>::empty(),
            r.yield_state.search_results@ == Seq::<YieldSearchResult>::empty(),
            !r.yield_state.is_searching,
            !r.yield_state.is_search_loading,
            r.yield_state.last_searched_query@ == Seq::<char>::empty(),
            r.favorites_state.events@ == Seq::<Event>::empty(),
            r.favorites_state.favorite_ids@ == Seq::<FavoriteEvent>::empty(),
            r.favorites_state.favorite_event_slugs@ == Seq::<String>::empty(),
            r.favorites_state.selected_index == 0,
            r.favorites_state.scroll == 0,
            !r.favorites_state.is_loading,
            r.favorites_state.error_message is None,
            !r.auth_state.is_authenticated,
            r.auth_state.username is None,
            r.auth_state.address is None,
            r.auth_state.balance is None,
            r.auth_state.portfolio_value is None,
            r.auth_state.positions_count is None,
            r.auth_state.unrealized_pnl is None,
            r.auth_state.realized_pnl is None,
            r.auth_state.profile is None,
            r.login_form.is_fresh(),
            r.trade_form is None,
            r.event_sort_by == EventSortBy::Volume24hr,
            r.gamma_api_status is None,
            r.data_api_status is None,
            r.orderbook_state.selected_market_index == 0,
            r.orderbook_state.selected_outcome == OrderbookOutcome::Yes,
            r.orderbook_state.orderbook is None,
            !r.orderbook_state.is_loading,
            r.orderbook_state.last_fetch is None,
            r.orderbook_state.token_id is None,
            r.orderbook_state.last_height == MIN_PANEL_HEIGHT,
    {
        let current_limit: usize = events.len();
        let event_filter = if text_is(order_by.as_str(), "startDate") || text_is(
            order_by.as_str(),
            "startTime",
        ) || text_is(order_by.as_str(), "oneDayPriceChange") {
            EventFilter::Breaking
        } else {
            EventFilter::Trending
        };
        let mut events_cache = EventsCache::new();
        events_cache.insert(event_filter, clone_events(&events));
        let mut event_cache: StringHashMap<Event> = StringHashMap::new();
        assert(cache_views(event_cache@) =~= Map::<Seq<char>, EventView>::empty());
        put_events(&mut event_cache, events.as_slice());
        TrendingAppState {
            events,
            should_quit: false,
            search: SearchState::new(),
            scroll: ScrollState::new(),
            pagination: PaginationState::new(order_by, ascending, current_limit),
            logs: LogsState::new(),
            navigation: NavigationState::new(),
            trades: TradesState::new(),
            event_filter,
            market_prices: StringHashMap::new(),
            event_trade_counts: StringHashMap::new(),
            has_clob_auth,
            popup: None,
            events_cache,
            event_cache,
            show_logs: false,
            main_tab: MainTab::Trending,
            yield_state: YieldState::new(),
            favorites_state: FavoritesState::new(),
            auth_state: AuthState::new(),
            login_form: LoginFormState::new(),
            trade_form: None,
            event_sort_by: EventSortBy::Volume24hr,
            gamma_api_status: None,
            data_api_status: None,
            orderbook_state: OrderbookState::new(),
        }
    }

    /// Puts a row of events into the cache, each under its identifier.
    pub fn cache_events(&mut self, events: &[Event])
        ensures
            cache_views(final(self).event_cache@) == cached_with(
                cache_views(old(self).event_cache@),
                event_views(events@),
                events@.len() as int,
            ),
            *final(self) == (TrendingAppState {
                event_cache: final(self).event_cache,
                ..*old(self)
            }),
    {
        put_events(&mut self.event_cache, events);
    }

    /// The event that the cache holds under an identifier.
    pub fn get_cached_event(&self, slug: &str) -> (r: Option<&Event>)
        ensures
            r is Some <==> self.event_cache@.contains_key(slug@),
            r matches Some(e) ==> *e == self.event_cache@[slug@],
    {
        self.event_cache.get(slug)
    }

    /// The price of a token, in millionths, as the service last told it.
    pub fn market_price(&self, asset_id: &str) -> (r: Option<u64>)
        ensures
            r == (if self.market_prices@.contains_key(asset_id@) {
                Some(self.market_prices@[asset_id@])
            } else {
                None
            }),
    {
        match self.market_prices.get(asset_id) {
            Some(p) => Some(*p),
            None => None,
        }
    }

    /// Notes the price of a token, in millionths.
    pub fn set_market_price(&mut self, asset_id: String, price: u64)
        ensures
            final(self).market_prices@ == old(self).market_prices@.insert(asset_id@, price),
            *final(self) == (TrendingAppState {
                market_prices: final(self).market_prices,
                ..*old(self)
            }),
    {
        self.market_prices.insert(asset_id, price);
    }

    /// The number of trades of an event, as the service last told it.
    pub fn event_trade_count(&self, event_slug: &str) -> (r: Option<usize>)
        ensures
            r == (if self.event_trade_counts@.contains_key(event_slug@) {
                Some(self.event_trade_counts@[event_slug@])
            } else {
                None
            }),
    {
        match self.event_trade_counts.get(event_slug) {
            Some(n) => Some(*n),
            None => None,
        }
    }

    /// Notes the number of trades of an event.
    pub fn set_event_trade_count(&mut self, event_slug: String, count: usize)
        ensures
            final(self).event_trade_counts@ == old(self).event_trade_counts@.insert(
                event_slug@,
                count,
            ),
            *final(self) == (TrendingAppState {
                event_trade_counts: final(self).event_trade_counts,
                ..*old(self)
            }),
    {
        self.event_trade_counts.insert(event_slug, count);
    }

    /// Orders the events by the sort key of the list. Events that tie keep
    /// their order.
    pub fn sort_events(&mut self)
        ensures
            is_stable_sort_of(final(self).events@, old(self).events@, old(self).event_sort_by),
            *final(self) == (TrendingAppState { events: final(self).events, ..*old(self) }),
    {
        stable_sort(&mut self.events, self.event_sort_by);
    }

    /// Opens a dialog.
    pub fn show_popup(&mut self, popup: PopupType)
        ensures
            *final(self) == (TrendingAppState { popup: Some(popup), ..*old(self) }),
    {
        self.popup = Some(popup);
    }

    /// Closes the dialog and drops the order form.
    pub fn close_popup(&mut self)
        ensures
            *final(self) == (TrendingAppState { popup: None, trade_form: None, ..*old(self) }),
    {
        self.popup = None;
        self.trade_form = None;
    }

    /// Opens the order form for one outcome of a market, at its price in
    /// millionths.
    pub fn open_trade_popup(
        &mut self,
        token_id: String,
        market_question: String,
        outcome: String,
        price: u64,
    )
        ensures
            final(self).popup == Some(PopupType::Trade),
            final(self).trade_form is Some,
            final(self).trade_form->0.market_question == market_question,
            final(self).trade_form->0.outcomes@ == seq![
                (OutcomeInfo { name: outcome, token_id, price }),
            ],
            final(self).trade_form->0.selected_outcome_idx == 0,
            final(self).trade_form->0.limit_price == price,
            *final(self) == (TrendingAppState {
                popup: final(self).popup,
                trade_form: final(self).trade_form,
                ..*old(self)
            }),
    {
        let mut outcomes: Vec<OutcomeInfo> = Vec::new();
        outcomes.push(OutcomeInfo { name: outcome, token_id, price });
        self.trade_form = Some(TradeFormState::new(market_question, outcomes, 0));
        self.popup = Some(PopupType::Trade);
    }

    /// Whether a dialog is open.
    pub fn has_popup(&self) -> (r: bool)
        ensures
            r == (self.popup is Some),
    {
        self.popup.is_some()
    }

    /// Whether more events are to be requested: no search or filter is on,
    /// no query is typed, no request is under way, the selection is within
    /// `FETCH_MARGIN` rows of the end of the list, and the list holds as many
    /// events as were requested.
    pub fn should_fetch_more(&self) -> (r: bool)
        ensures
            r == (self.search.mode == SearchMode::Off && self.search.query@.len() == 0
                && !self.pagination.is_fetching_more && self.navigation.selected_index + FETCH_MARGIN
                >= self.listed().len() && self.listed().len() >= self.pagination.current_limit),
    {
        if self.search.is_active() || !self.search.query.as_str().is_empty()
            || self.pagination.is_fetching_more {
            return false;
        }
        let filtered_len: usize = self.filtered_events().len();
        let near_end: usize = if filtered_len >= FETCH_MARGIN {
            filtered_len - FETCH_MARGIN
        } else {
            0
        };
        self.navigation.selected_index >= near_end && filtered_len >= self.pagination.current_limit
    }

    /// Logs a message under a level: see `LogsState::push`.
    pub fn add_log(&mut self, level: &str, message: String)
        ensures
            final(self).logs.lines() == with_log_line(
                old(self).logs.lines(),
                log_line(level@, message@),
            ),
            final(self).logs.scroll == bottom_scroll(final(self).logs.lines().len()),
            *final(self) == (TrendingAppState { logs: final(self).logs, ..*old(self) }),
    {
        self.logs.push(level, message.as_str());
    }

    /// The events that the list shows: see `listed`.
    pub fn filtered_events(&self) -> (r: Vec<&Event>)
        ensures
            referents(r@) == self.listed(),
    {
        if self.main_tab == MainTab::Favorites {
            return all_events(&self.favorites_state.events);
        }
        if self.search.query.as_str().is_empty() {
            if !self.search.results.is_empty() && self.search.mode == SearchMode::ApiSearch {
                return all_events(&self.search.results);
            }
            return all_events(&self.events);
        }
        let query_lower = to_lowercase(self.search.query.as_str());
        if self.search.mode == SearchMode::LocalFilter {
            if !self.search.results.is_empty() {
                return filter_events(&self.search.results, query_lower.as_str());
            } else {
                return filter_events(&self.events, query_lower.as_str());
            }
        }
        if !self.search.results.is_empty() && self.search.query == self.search.last_searched_query {
            return all_events(&self.search.results);
        }
        filter_events(&self.events, query_lower.as_str())
    }

    /// The selected one of the events that the list shows, if the selection
    /// lies among them.
    pub fn selected_event_filtered(&self) -> (r: Option<&Event>)
        ensures
            r is Some <==> self.selected() < self.listed().len(),
            r matches Some(e) ==> *e == self.listed()[self.selected() as int],
    {
        let filtered = self.filtered_events();
        let selected_idx: usize = self.current_selected_index();
        if selected_idx < filtered.len() {
            let e: &Event = filtered[selected_idx];
            assert(referents(filtered@)[selected_idx as int] == *e);
            Some(e)
        } else {
            None
        }
    }

    /// Starts a search that the service answers, with an empty query.
    pub fn enter_search_mode(&mut self)
        ensures
            final(self).search.query@ == Seq::<char>::empty(),
            final(self).search == (SearchState {
                mode: SearchMode::ApiSearch,
                query: final(self).search.query,
                ..old(self).search
            }),
            *final(self) == (TrendingAppState { search: final(self).search, ..*old(self) }),
    {
        self.search.mode = SearchMode::ApiSearch;
        string_clear(&mut self.search.query);
    }

    /// Starts a filter over the listed events, with an empty query.
    pub fn enter_local_filter_mode(&mut self)
        ensures
            final(self).search.query@ == Seq::<char>::empty(),
            final(self).search == (SearchState {
                mode: SearchMode::LocalFilter,
                query: final(self).search.query,
                ..old(self).search
            }),
            *final(self) == (TrendingAppState { search: final(self).search, ..*old(self) }),
    {
        self.search.mode = SearchMode::LocalFilter;
        string_clear(&mut self.search.query);
    }

    /// Ends the search or the filter: no query, no results, the first row
    /// selected.
    pub fn exit_search_mode(&mut self)
        ensures
            final(self).search.query@ == Seq::<char>::empty(),
            final(self).search.results@ == Seq::<Event>::empty(),
            final(self).search.last_searched_query@ == Seq::<char>::empty(),
            final(self).search.mode == SearchMode::Off,
            final(self).search.is_searching == old(self).search.is_searching,
            final(self).navigation == (NavigationState {
                selected_index: 0,
                ..old(self).navigation
            }),
            final(self).scroll == (ScrollState { events_list: 0, ..old(self).scroll }),
            *final(self) == (TrendingAppState {
                search: final(self).search,
                navigation: final(self).navigation,
                scroll: final(self).scroll,
                ..*old(self)
            }),
    {
        self.search.mode = SearchMode::Off;
        string_clear(&mut self.search.query);
        self.search.results.clear();
        string_clear(&mut self.search.last_searched_query);
        self.navigation.selected_index = 0;
        self.scroll.events_list = 0;
    }

    /// Whether a search or a filter is on.
    pub fn is_in_filter_mode(&self) -> (r: bool)
        ensures
            r == (self.search.mode != SearchMode::Off),
    {
        self.search.is_active()
    }

    /// Appends a character to the query and selects the first row.
    pub fn add_search_char(&mut self, c: char)
        ensures
            final(self).search.query@ == old(self).search.query@.push(c),
            final(self).search == (SearchState {
                query: final(self).search.query,
                ..old(self).search
            }),
            final(self).navigation == (NavigationState {
                selected_index: 0,
                ..old(self).navigation
            }),
            final(self).scroll == (ScrollState { events_list: 0, ..old(self).scroll }),
            *final(self) == (TrendingAppState {
                search: final(self).search,
                navigation: final(self).navigation,
                scroll: final(self).scroll,
                ..*old(self)
            }),
    {
        string_push(&mut self.search.query, c);
        self.navigation.selected_index = 0;
        self.scroll.events_list = 0;
    }

    /// Removes the last character of the query, if it has one, selects the
    /// first row, and drops the results unless they belong to the query as
    /// it now reads.
    pub fn delete_search_char(&mut self)
        ensures
            final(self).search.query@ == (if old(self).search.query@.len() > 0 {
                old(self).search.query@.drop_last()
            } else {
                old(self).search.query@
            }),
            final(self).search.results@ == (if final(self).search.query@ == old(self).search.last_searched_query@ {
                old(self).search.results@
            } else {
                Seq::<Event>::empty()
            }),
            final(self).search == (SearchState {
                query: final(self).search.query,
                results: final(self).search.results,
                ..old(self).search
            }),
            final(self).navigation == (NavigationState {
                selected_index: 0,
                ..old(self).navigation
            }),
            final(self).scroll == (ScrollState { events_list: 0, ..old(self).scroll }),
            *final(self) == (TrendingAppState {
                search: final(self).search,
                navigation: final(self).navigation,
                scroll: final(self).scroll,
                ..*old(self)
            }),
    {
        string_pop(&mut self.search.query);
        self.navigation.selected_index = 0;
        self.scroll.events_list = 0;
        if self.search.query != self.search.last_searched_query {
            self.search.results.clear();
        }
    }

    /// Takes the results of a search for `query`, ends the searching and
    /// selects the first row.
    pub fn set_search_results(&mut self, results: Vec<Event>, query: String)
        ensures
            final(self).search == (SearchState {
                results,
                last_searched_query: query,
                is_searching: false,
                ..old(self).search
            }),
            final(self).navigation == (NavigationState {
                selected_index: 0,
                ..old(self).navigation
            }),
            final(self).scroll == (ScrollState { events_list: 0, ..old(self).scroll }),
            *final(self) == (TrendingAppState {
                search: final(self).search,
                navigation: final(self).navigation,
                scroll: final(self).scroll,
                ..*old(self)
            }),
    {
        self.search.results = results;
        self.search.last_searched_query = query;
        self.search.is_searching = false;
        self.navigation.selected_index = 0;
        self.scroll.events_list = 0;
    }

    /// Notes whether a search is under way.
    pub fn set_searching(&mut self, searching: bool)
        ensures
            final(self).search == (SearchState { is_searching: searching, ..old(self).search }),
            *final(self) == (TrendingAppState { search: final(self).search, ..*old(self) }),
    {
        self.search.is_searching = searching;
    }

    /// The selected event: see `selected_event_filtered`.
    pub fn selected_event(&self) -> (r: Option<&Event>)
        ensures
            r is Some <==> self.selected() < self.listed().len(),
            r matches Some(e) ==> *e == self.listed()[self.selected() as int],
    {
        self.selected_event_filtered()
    }

    /// The identifier of the selected event.
    pub fn selected_event_slug(&self) -> (r: Option<String>)
        ensures
            r is Some <==> self.selected() < self.listed().len(),
            r matches Some(s) ==> s@ == self.listed()[self.selected() as int].slug@,
    {
        match self.selected_event() {
            Some(e) => Some(e.slug.clone()),
            None => None,
        }
    }

    /// The selected row of the tab that is shown.
    pub fn current_selected_index(&self) -> (r: usize)
        ensures
            r == self.selected(),
    {
        match self.main_tab {
            MainTab::Favorites => self.favorites_state.selected_index,
            _ => self.navigation.selected_index,
        }
    }

    /// The scroll offset of the list of the tab that is shown.
    pub fn current_events_scroll(&self) -> (r: usize)
        ensures
            r == (if self.main_tab == MainTab::Favorites {
                self.favorites_state.scroll
            } else {
                self.scroll.events_list
            }),
    {
        match self.main_tab {
            MainTab::Favorites => self.favorites_state.scroll,
            _ => self.scroll.events_list,
        }
    }

    /// The events of the tab that is shown, whatever the query.
    pub fn current_events(&self) -> (r: Vec<&Event>)
        ensures
            referents(r@) == (if self.main_tab == MainTab::Favorites {
                self.favorites_state.events@
            } else {
                self.events@
            }),
    {
        match self.main_tab {
            MainTab::Favorites => all_events(&self.favorites_state.events),
            _ => all_events(&self.events),
        }
    }

    /// Moves the selection of the events list one row up. Where it moves,
    /// the markets panel goes back to its top.
    pub fn move_up(&mut self)
        ensures
            (final(self).navigation.selected_index as nat, final(self).scroll.events_list as nat)
                == moved_up(
                old(self).navigation.selected_index as nat,
                old(self).scroll.events_list as nat,
            ),
            final(self).navigation == (NavigationState {
                selected_index: final(self).navigation.selected_index,
                ..old(self).navigation
            }),
            final(self).scroll == (ScrollState {
                events_list: final(self).scroll.events_list,
                markets: if old(self).navigation.selected_index > 0 {
                    0
                } else {
                    old(self).scroll.markets
                },
                ..old(self).scroll
            }),
            *final(self) == (TrendingAppState {
                navigation: final(self).navigation,
                scroll: final(self).scroll,
                ..*old(self)
            }),
    {
        if self.navigation.selected_index > 0 {
            let (selected, scroll) = step_up(self.navigation.selected_index, self.scroll.events_list);
            self.navigation.selected_index = selected;
            self.scroll.events_list = scroll;
            self.scroll.markets = 0;
        }
    }

    /// Moves the selection of the events list one row down among the events
    /// that are shown, of which `EVENTS_WINDOW` are taken to fit. Where it
    /// moves, the markets panel goes back to its top.
    pub fn move_down(&mut self)
        ensures
            (final(self).navigation.selected_index as nat, final(self).scroll.events_list as nat)
                == moved_down(
                old(self).navigation.selected_index as nat,
                old(self).scroll.events_list as nat,
                old(self).listed().len(),
                EVENTS_WINDOW as nat,
            ),
            final(self).navigation == (NavigationState {
                selected_index: final(self).navigation.selected_index,
                ..old(self).navigation
            }),
            final(self).scroll == (ScrollState {
                events_list: final(self).scroll.events_list,
                markets: if final(self).navigation.selected_index != old(self).navigation.selected_index {
                    0
                } else {
                    old(self).scroll.markets
                },
                ..old(self).scroll
            }),
            *final(self) == (TrendingAppState {
                navigation: final(self).navigation,
                scroll: final(self).scroll,
                ..*old(self)
            }),
    {
        let filtered_len: usize = self.filtered_events().len();
        if filtered_len > 0 && self.navigation.selected_index < filtered_len - 1 {
            let (selected, scroll) = step_down(
                self.navigation.selected_index,
                self.scroll.events_list,
                filtered_len,
                EVENTS_WINDOW,
            );
            self.navigation.selected_index = selected;
            self.scroll.events_list = scroll;
            self.scroll.markets = 0;
        }
    }

    /// Whether an event is being watched.
    pub fn is_watching(&self, event_slug: &str) -> (r: bool)
        requires
            self.trades.wf(),
        ensures
            r == self.trades.watching(event_slug@),
    {
        self.trades.is_watching(event_slug)
    }

    /// The trades of an event, newest arrival first; none for an event that
    /// was never watched.
    pub fn get_trades(&self, event_slug: &str) -> (r: &[Trade])
        requires
            self.trades.wf(),
        ensures
            r@.map_values(|t: Trade| t@) == self.trades.trades_of(event_slug@),
            r@.len() <= MAX_TRADES,
    {
        self.trades.get_trades(event_slug)
    }

    /// Starts to watch an event: see `TradesState::start_watching`.
    pub fn start_watching(&mut self, event_slug: String, ws_handle: JoinHandle<()>)
        requires
            old(self).trades.wf(),
        ensures
            final(self).trades.wf(),
            final(self).trades@.event_trades == old(self).trades@.event_trades.insert(
                event_slug@,
                EventTradesView {
                    trades: old(self).trades.trades_of(event_slug@),
                    is_watching: true,
                },
            ),
            final(self).trades@.ws_handles == old(self).trades@.ws_handles.insert(
                event_slug@,
                ws_handle,
            ),
            *final(self) == (TrendingAppState { trades: final(self).trades, ..*old(self) }),
    {
        self.trades.start_watching(event_slug, ws_handle);
    }

    /// Stops to watch an event: see `TradesState::stop_watching`. For an
    /// event that is not being watched nothing changes.
    pub fn stop_watching(&mut self, event_slug: &str)
        requires
            old(self).trades.wf(),
        ensures
            final(self).trades.wf(),
            final(self).trades@.ws_handles == old(self).trades@.ws_handles.remove(event_slug@),
            final(self).trades@.event_trades == (if old(self).trades@.event_trades.contains_key(
                event_slug@,
            ) {
                old(self).trades@.event_trades.insert(
                    event_slug@,
                    EventTradesView {
                        trades: old(self).trades.trades_of(event_slug@),
                        is_watching: false,
                    },
                )
            } else {
                old(self).trades@.event_trades
            }),
            !old(self).trades.watching(event_slug@) ==> final(self).trades@ == old(self).trades@,
            *final(self) == (TrendingAppState { trades: final(self).trades, ..*old(self) }),
    {
        self.trades.stop_watching(event_slug);
    }

    /// Records a message of the trade stream in the log of its event: see
    /// `TradesState::add_trade`.
    pub fn record_trade(&mut self, event_slug: &str, msg: &TradeMessage) -> (recorded: bool)
        requires
            old(self).trades.wf(),
        ensures
            final(self).trades.wf(),
            recorded == old(self).trades@.event_trades.contains_key(event_slug@),
            final(self).trades@.ws_handles == old(self).trades@.ws_handles,
            final(self).trades@.event_trades == (if recorded {
                old(self).trades@.event_trades.insert(
                    event_slug@,
                    EventTradesView {
                        trades: with_trade(old(self).trades.trades_of(event_slug@), msg.recorded()),
                        is_watching: old(self).trades@.event_trades[event_slug@].is_watching,
                    },
                )
            } else {
                old(self).trades@.event_trades
            }),
            *final(self) == (TrendingAppState { trades: final(self).trades, ..*old(self) }),
    {
        self.trades.add_trade(event_slug, msg)
    }

    /// Cancels every task before the dashboard ends: see
    /// `TradesState::cleanup`.
    pub fn cleanup(&mut self)
        requires
            old(self).trades.wf(),
        ensures
            final(self).trades.wf(),
            final(self).trades@.ws_handles == Map::<Seq<char>, JoinHandle<()>>::empty(),
            final(self).trades@.event_trades.dom() == old(self).trades@.event_trades.dom(),
            forall|k: Seq<char>| #[trigger]
                final(self).trades@.event_trades.contains_key(k) ==> final(self).trades@.event_trades[k] == (EventTradesView {
                    trades: old(self).trades@.event_trades[k].trades,
                    is_watching: false,
                }),
            *final(self) == (TrendingAppState { trades: final(self).trades, ..*old(self) }),
    {
        self.trades.cleanup();
    }
}

} // verus!
