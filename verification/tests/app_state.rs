use trending_tui::state::{EventsCache, TrendingAppState};
use trending_tui::events::{filter_events, is_ending_first, is_newest_first, is_opt_le, matches_query};
use trending_tui::favorites::{FavoriteEvent, FavoritesState};
use trending_tui::logs::LogsState;
use trending_tui::market::{Event, Market, Tag};
use trending_tui::navigation::{EventFilter, EventSortBy, MainTab};
use trending_tui::pagination::PaginationState;
use trending_tui::popup::PopupType;
use trending_tui::search::{SearchMode, SearchState};
use trending_tui::trade::TradeMessage;

fn market(question: &str) -> Market {
    Market {
        question: question.to_string(),
        group_item_title: None,
        clob_token_ids: Some(vec!["t1".to_string(), "t2".to_string()]),
        outcomes: vec!["Yes".to_string(), "No".to_string()],
        outcome_prices: vec![Some(500_000), Some(500_000)],
        volume_24hr: None,
        volume_total: None,
        active: true,
        closed: false,
        uma_resolution_statuses: None,
    }
}

fn event(slug: &str, title: &str) -> Event {
    Event {
        id: slug.to_string(),
        slug: slug.to_string(),
        title: title.to_string(),
        active: true,
        closed: false,
        tags: vec![],
        markets: vec![],
        end_date: None,
        created_at: None,
        volume_24hr: None,
        volume: None,
        liquidity: None,
        competitive: None,
    }
}

fn app(events: Vec<Event>) -> TrendingAppState {
    TrendingAppState::new(events, "volume24hr".to_string(), false, true)
}

fn slugs(events: &Vec<&Event>) -> Vec<String> {
    events.iter().map(|e| e.slug.clone()).collect()
}

fn own_slugs(events: &Vec<Event>) -> Vec<String> {
    events.iter().map(|e| e.slug.clone()).collect()
}

fn message(price: u64) -> TradeMessage {
    TradeMessage {
        timestamp: 1,
        side: "SELL".to_string(),
        outcome: "No".to_string(),
        price,
        size: 2_500_000,
        title: "t".to_string(),
        asset: "a".to_string(),
        name: String::new(),
        pseudonym: String::new(),
    }
}

#[test]
fn a_new_dashboard_keeps_its_events_in_both_caches() {
    let a = app(vec![event("e1", "One"), event("e2", "Two"), event("e1", "One again")]);
    assert_eq!(a.events.len(), 3);
    assert!(!a.should_quit);
    assert_eq!(a.event_filter, EventFilter::Trending);
    assert_eq!(a.pagination.current_limit, 3);
    assert_eq!(a.pagination.order_by, "volume24hr");
    assert!(!a.pagination.ascending);
    assert!(a.has_clob_auth);
    assert!(a.popup.is_none());
    assert!(!a.show_logs);
    assert_eq!(a.main_tab, MainTab::Trending);
    assert_eq!(a.event_sort_by, EventSortBy::Volume24hr);
    assert!(a.gamma_api_status.is_none() && a.data_api_status.is_none());
    assert!(a.trade_form.is_none());
    assert_eq!(own_slugs(a.events_cache.get(EventFilter::Trending).unwrap()), vec!["e1", "e2", "e1"]);
    assert!(a.events_cache.get(EventFilter::Breaking).is_none());
    assert_eq!(a.get_cached_event("e1").unwrap().title, "One again");
    assert_eq!(a.get_cached_event("e2").unwrap().title, "Two");
    assert!(a.get_cached_event("e3").is_none());
    assert!(!a.is_watching("e1"));
}

#[test]
fn the_order_of_the_request_decides_the_first_filter() {
    for order in ["startDate", "startTime", "oneDayPriceChange"] {
        let a = TrendingAppState::new(vec![event("e", "E")], order.to_string(), true, false);
        assert_eq!(a.event_filter, EventFilter::Breaking);
        assert!(a.events_cache.get(EventFilter::Breaking).is_some());
        assert!(a.events_cache.get(EventFilter::Trending).is_none());
        assert!(a.pagination.ascending);
        assert!(!a.has_clob_auth);
    }
    for order in ["volume24hr", "", "startdate", "liquidity"] {
        let a = TrendingAppState::new(vec![], order.to_string(), false, false);
        assert_eq!(a.event_filter, EventFilter::Trending);
    }
}

#[test]
fn the_events_cache_keeps_one_list_for_each_filter() {
    let mut c = EventsCache::new();
    assert!(c.get(EventFilter::Trending).is_none());
    c.insert(EventFilter::Breaking, vec![event("b", "B")]);
    c.insert(EventFilter::Trending, vec![event("t", "T"), event("u", "U")]);
    c.insert(EventFilter::Breaking, vec![]);
    assert_eq!(c.get(EventFilter::Trending).unwrap().len(), 2);
    assert_eq!(c.get(EventFilter::Breaking).unwrap().len(), 0);
}

#[test]
fn caching_events_overwrites_by_identifier() {
    let mut a = app(vec![event("e1", "One")]);
    a.cache_events(&[event("e2", "Two"), event("e1", "Uno"), event("e2", "Dos")]);
    assert_eq!(a.get_cached_event("e1").unwrap().title, "Uno");
    assert_eq!(a.get_cached_event("e2").unwrap().title, "Dos");
    assert_eq!(a.events.len(), 1);
    a.cache_events(&[]);
    assert_eq!(a.get_cached_event("e1").unwrap().title, "Uno");
}

#[test]
fn a_cached_event_is_a_full_copy() {
    let mut e = event("e1", "One");
    e.tags = vec![Tag { id: "7".to_string(), label: "Weather".to_string(), slug: "weather".to_string() }];
    let mut m = market("Will it rain?");
    m.group_item_title = Some("Rain".to_string());
    m.uma_resolution_statuses = Some("[]".to_string());
    m.volume_24hr = Some(5);
    e.markets = vec![m];
    e.end_date = Some("2025-01-01T00:00:00Z".to_string());
    e.volume = Some(9);
    let a = app(vec![e]);
    let c = a.get_cached_event("e1").unwrap();
    assert_eq!(c.tags.len(), 1);
    assert_eq!(c.tags[0].label, "Weather");
    assert_eq!(c.markets.len(), 1);
    assert_eq!(c.markets[0].question, "Will it rain?");
    assert_eq!(c.markets[0].group_item_title.as_deref(), Some("Rain"));
    assert_eq!(c.markets[0].clob_token_ids, Some(vec!["t1".to_string(), "t2".to_string()]));
    assert_eq!(c.markets[0].outcomes, vec!["Yes", "No"]);
    assert_eq!(c.markets[0].outcome_prices, vec![Some(500_000), Some(500_000)]);
    assert_eq!(c.markets[0].volume_24hr, Some(5));
    assert_eq!(c.end_date.as_deref(), Some("2025-01-01T00:00:00Z"));
    assert_eq!(c.volume, Some(9));
}

#[test]
fn events_sort_by_volume_largest_first_and_unknown_last() {
    let mut a = app(vec![event("a", "A"), event("b", "B"), event("c", "C"), event("d", "D"), event("e", "E")]);
    a.events[0].volume_24hr = Some(10);
    a.events[1].volume_24hr = None;
    a.events[2].volume_24hr = Some(30);
    a.events[3].volume_24hr = Some(10);
    a.events[4].volume_24hr = None;
    a.sort_events();
    assert_eq!(own_slugs(&a.events), vec!["c", "a", "d", "b", "e"]);
    a.event_sort_by = EventSortBy::VolumeTotal;
    a.events[2].volume = Some(1);
    a.sort_events();
    assert_eq!(own_slugs(&a.events), vec!["d", "c", "a", "b", "e"]);
    a.event_sort_by = EventSortBy::Liquidity;
    a.events[4].liquidity = Some(0);
    a.sort_events();
    assert_eq!(own_slugs(&a.events), vec!["e", "d", "c", "a", "b"]);
    a.event_sort_by = EventSortBy::Competitive;
    a.events[2].competitive = Some(900_000);
    a.events[3].competitive = Some(950_000);
    a.sort_events();
    assert_eq!(own_slugs(&a.events), vec!["a", "c", "e", "d", "b"]);
}

#[test]
fn events_sort_by_dates() {
    let mut a = app(vec![event("a", "A"), event("b", "B"), event("c", "C"), event("d", "D")]);
    a.events[0].created_at = Some("2024-03-01T00:00:00Z".to_string());
    a.events[1].created_at = None;
    a.events[2].created_at = Some("2024-05-01T00:00:00Z".to_string());
    a.events[3].created_at = Some("2024-03-01T00:00:00Z".to_string());
    a.events[0].end_date = Some("2025-03-01T00:00:00Z".to_string());
    a.events[1].end_date = None;
    a.events[2].end_date = Some("2025-01-01T00:00:00Z".to_string());
    a.events[3].end_date = None;
    a.event_sort_by = EventSortBy::Newest;
    a.sort_events();
    assert_eq!(own_slugs(&a.events), vec!["b", "c", "a", "d"]);
    a.event_sort_by = EventSortBy::EndingSoon;
    a.sort_events();
    assert_eq!(own_slugs(&a.events), vec!["c", "a", "b", "d"]);
}

#[test]
fn the_orders_of_optional_values() {
    assert!(is_opt_le(&None, &None));
    assert!(is_opt_le(&None, &Some(0)));
    assert!(!is_opt_le(&Some(0), &None));
    assert!(is_opt_le(&Some(1), &Some(1)));
    assert!(is_opt_le(&Some(1), &Some(2)));
    assert!(!is_opt_le(&Some(2), &Some(1)));
    let early = Some("2024-01-01".to_string());
    let late = Some("2024-02-01".to_string());
    assert!(is_ending_first(&early, &late));
    assert!(!is_ending_first(&late, &early));
    assert!(is_ending_first(&early, &None));
    assert!(!is_ending_first(&None, &early));
    assert!(is_ending_first(&None, &None));
    assert!(is_newest_first(&late, &early));
    assert!(!is_newest_first(&early, &late));
    assert!(is_newest_first(&None, &early));
    assert!(!is_newest_first(&early, &None));
    assert!(is_newest_first(&None, &None));
}

#[test]
fn popups_open_and_close() {
    let mut a = app(vec![]);
    assert!(!a.has_popup());
    a.show_popup(PopupType::EventInfo("e1".to_string()));
    assert!(a.has_popup());
    assert_eq!(a.popup, Some(PopupType::EventInfo("e1".to_string())));
    a.open_trade_popup("tok".to_string(), "Will it rain?".to_string(), "Yes".to_string(), 640_000);
    assert_eq!(a.popup, Some(PopupType::Trade));
    let form = a.trade_form.as_ref().unwrap();
    assert_eq!(form.market_question, "Will it rain?");
    assert_eq!(form.outcome_name(), "Yes");
    assert_eq!(form.token_id(), Some("tok"));
    assert_eq!(form.limit_price, 640_000);
    a.close_popup();
    assert!(!a.has_popup());
    assert!(a.trade_form.is_none());
}

#[test]
fn logs_are_bounded_and_scroll_to_the_end() {
    let mut a = app(vec![]);
    a.add_log("INFO", "started".to_string());
    assert_eq!(a.logs.messages, vec!["[INFO] started"]);
    assert_eq!(a.logs.scroll, 0);
    for k in 0..6 {
        a.add_log("DEBUG", format!("m{}", k));
    }
    assert_eq!(a.logs.messages.len(), 7);
    assert_eq!(a.logs.scroll, 1);
    for k in 0..1000 {
        a.add_log("WARN", format!("w{}", k));
    }
    assert_eq!(a.logs.messages.len(), 1000);
    assert_eq!(a.logs.messages[0], "[WARN] w0");
    assert_eq!(a.logs.messages[999], "[WARN] w999");
    assert_eq!(a.logs.scroll, 994);
    let mut l = LogsState::new();
    assert!(l.messages.is_empty());
    l.push("", "");
    assert_eq!(l.messages, vec!["[] "]);
}

#[test]
fn an_event_matches_by_title_identifier_tag_or_question() {
    let mut e = event("us-election", "Who wins?");
    e.tags = vec![Tag { id: "1".to_string(), label: "Politics".to_string(), slug: "pol".to_string() }];
    e.markets = vec![market("Will TURNOUT exceed 60%?")];
    assert!(matches_query(&e, "who"));
    assert!(matches_query(&e, "election"));
    assert!(matches_query(&e, "politics"));
    assert!(matches_query(&e, "turnout"));
    assert!(matches_query(&e, ""));
    assert!(!matches_query(&e, "WHO"));
    assert!(!matches_query(&e, "pol "));
    assert!(!matches_query(&e, "weather"));
    let all = vec![e, event("rain", "Rain")];
    assert_eq!(slugs(&filter_events(&all, "rain")), vec!["rain"]);
    assert_eq!(slugs(&filter_events(&all, "i")), vec!["us-election", "rain"]);
    assert!(filter_events(&all, "zzz").is_empty());
}

#[test]
fn the_list_follows_the_search_mode() {
    let mut a = app(vec![event("alpha", "Alpha"), event("beta", "Beta"), event("alphabet", "Letters")]);
    assert_eq!(slugs(&a.filtered_events()), vec!["alpha", "beta", "alphabet"]);
    assert_eq!(slugs(&a.current_events()), vec!["alpha", "beta", "alphabet"]);

    a.enter_local_filter_mode();
    assert!(a.is_in_filter_mode());
    assert_eq!(a.search.mode, SearchMode::LocalFilter);
    for c in "ALPHA".chars() {
        a.add_search_char(c);
    }
    assert_eq!(slugs(&a.filtered_events()), vec!["alpha", "alphabet"]);
    a.delete_search_char();
    assert_eq!(a.search.query, "ALPH");
    a.exit_search_mode();
    assert!(!a.is_in_filter_mode());
    assert_eq!(a.search.query, "");

    a.enter_search_mode();
    assert_eq!(a.search.mode, SearchMode::ApiSearch);
    a.add_search_char('b');
    assert_eq!(slugs(&a.filtered_events()), vec!["beta", "alphabet"]);
    a.set_searching(true);
    assert!(a.search.is_searching);
    a.set_search_results(vec![event("found", "Found by the service")], "b".to_string());
    assert!(!a.search.is_searching);
    assert_eq!(slugs(&a.filtered_events()), vec!["found"]);
    a.add_search_char('e');
    assert_eq!(slugs(&a.filtered_events()), vec!["beta", "alphabet"]);
    a.delete_search_char();
    assert_eq!(slugs(&a.filtered_events()), vec!["found"]);
    a.delete_search_char();
    assert_eq!(a.search.query, "");
    assert!(a.search.results.is_empty());
    assert_eq!(slugs(&a.filtered_events()), vec!["alpha", "beta", "alphabet"]);

    a.set_search_results(vec![event("found", "Found")], "x".to_string());
    assert_eq!(slugs(&a.filtered_events()), vec!["found"]);
    a.search.mode = SearchMode::LocalFilter;
    assert_eq!(slugs(&a.filtered_events()), vec!["alpha", "beta", "alphabet"]);
    a.add_search_char('f');
    assert_eq!(slugs(&a.filtered_events()), vec!["found"]);
    a.add_search_char('z');
    assert!(a.filtered_events().is_empty());
}

#[test]
fn the_favorites_tab_lists_the_favorites() {
    let mut a = app(vec![event("alpha", "Alpha")]);
    a.favorites_state.events = vec![event("fav1", "F1"), event("fav2", "F2")];
    a.favorites_state.selected_index = 1;
    a.favorites_state.scroll = 1;
    a.navigation.selected_index = 0;
    a.main_tab = MainTab::Favorites;
    a.search.query = "alpha".to_string();
    assert_eq!(slugs(&a.filtered_events()), vec!["fav1", "fav2"]);
    assert_eq!(slugs(&a.current_events()), vec!["fav1", "fav2"]);
    assert_eq!(a.current_selected_index(), 1);
    assert_eq!(a.current_events_scroll(), 1);
    assert_eq!(a.selected_event().unwrap().slug, "fav2");
    assert_eq!(a.selected_event_slug(), Some("fav2".to_string()));
    a.main_tab = MainTab::Yield;
    assert_eq!(a.current_selected_index(), 0);
    assert_eq!(a.current_events_scroll(), 0);
    assert_eq!(a.selected_event_filtered().unwrap().slug, "alpha");
    a.navigation.selected_index = 5;
    assert!(a.selected_event().is_none());
    assert_eq!(a.selected_event_slug(), None);
}

#[test]
fn the_selection_moves_and_resets_the_markets_scroll() {
    let events: Vec<Event> = (0..30).map(|k| event(&format!("e{}", k), "E")).collect();
    let mut a = app(events);
    a.scroll.markets = 4;
    a.move_up();
    assert_eq!(a.navigation.selected_index, 0);
    assert_eq!(a.scroll.markets, 4);
    a.move_down();
    assert_eq!(a.navigation.selected_index, 1);
    assert_eq!(a.scroll.markets, 0);
    for _ in 0..19 {
        a.move_down();
    }
    assert_eq!(a.navigation.selected_index, 20);
    assert_eq!(a.scroll.events_list, 1);
    for _ in 0..20 {
        a.move_down();
    }
    assert_eq!(a.navigation.selected_index, 29);
    assert_eq!(a.scroll.events_list, 10);
    a.scroll.markets = 3;
    a.move_down();
    assert_eq!(a.navigation.selected_index, 29);
    assert_eq!(a.scroll.markets, 3);
    for _ in 0..25 {
        a.move_up();
    }
    assert_eq!(a.navigation.selected_index, 4);
    assert_eq!(a.scroll.events_list, 4);
    assert_eq!(a.scroll.markets, 0);
}

#[test]
fn more_events_are_fetched_near_the_end_of_a_full_list() {
    let events: Vec<Event> = (0..10).map(|k| event(&format!("e{}", k), "E")).collect();
    let mut a = app(events);
    assert!(!a.should_fetch_more());
    a.navigation.selected_index = 4;
    assert!(!a.should_fetch_more());
    a.navigation.selected_index = 5;
    assert!(a.should_fetch_more());
    a.pagination.is_fetching_more = true;
    assert!(!a.should_fetch_more());
    a.pagination.is_fetching_more = false;
    a.pagination.current_limit = 11;
    assert!(!a.should_fetch_more());
    a.pagination.current_limit = 10;
    a.search.query = "e".to_string();
    assert!(!a.should_fetch_more());
    a.search.query = String::new();
    a.search.mode = SearchMode::ApiSearch;
    assert!(!a.should_fetch_more());
    let empty = app(vec![]);
    assert!(empty.should_fetch_more());
}

#[test]
fn the_dashboard_watches_through_its_registry() {
    let rt = tokio::runtime::Builder::new_current_thread().build().unwrap();
    let mut a = app(vec![]);
    a.start_watching("E1".to_string(), rt.spawn(std::future::pending::<()>()));
    assert!(a.is_watching("E1"));
    assert!(a.record_trade("E1", &message(400_000)));
    assert!(a.record_trade("E1", &message(450_000)));
    assert!(!a.record_trade("E2", &message(450_000)));
    assert_eq!(a.get_trades("E1").len(), 2);
    assert_eq!(a.get_trades("E1")[0].price, 450_000);
    assert_eq!(a.get_trades("E1")[0].shares, 250);
    assert_eq!(a.get_trades("E1")[0].total_value, 112_500_000);
    a.stop_watching("E2");
    assert!(a.is_watching("E1"));
    a.stop_watching("E1");
    assert!(!a.is_watching("E1"));
    assert_eq!(a.get_trades("E1").len(), 2);
    a.start_watching("E1".to_string(), rt.spawn(std::future::pending::<()>()));
    a.start_watching("E3".to_string(), rt.spawn(std::future::pending::<()>()));
    a.cleanup();
    assert!(!a.is_watching("E1"));
    assert!(!a.is_watching("E3"));
    assert_eq!(a.get_trades("E1").len(), 2);
    assert!(a.get_trades("E3").is_empty());
}

#[test]
fn the_favorites_state_selects_and_clears() {
    let mut f = FavoritesState::new();
    assert!(f.selected_event().is_none());
    assert!(!f.is_favorite("e1"));
    f.events = vec![event("e1", "One"), event("e2", "Two"), event("e3", "Three")];
    f.favorite_ids = vec![FavoriteEvent { id: "1".to_string(), event_id: "e1".to_string() }];
    f.favorite_event_slugs = vec!["e1".to_string(), "e3".to_string()];
    assert!(f.is_favorite("e1"));
    assert!(!f.is_favorite("e2"));
    assert!(f.is_favorite("e3"));
    assert!(!f.is_favorite("E1"));
    assert_eq!(f.selected_event().unwrap().slug, "e1");
    f.move_up();
    assert_eq!((f.selected_index, f.scroll), (0, 0));
    f.move_down(1);
    assert_eq!((f.selected_index, f.scroll), (1, 1));
    f.move_down(1);
    f.move_down(1);
    assert_eq!((f.selected_index, f.scroll), (2, 2));
    assert_eq!(f.selected_event().unwrap().slug, "e3");
    f.move_up();
    assert_eq!((f.selected_index, f.scroll), (1, 1));
    f.error_message = Some("bad".to_string());
    f.is_loading = true;
    f.clear();
    assert!(f.events.is_empty());
    assert!(f.favorite_ids.is_empty());
    assert_eq!((f.selected_index, f.scroll), (0, 0));
    assert!(f.error_message.is_none());
    assert!(f.is_loading);
    assert_eq!(f.favorite_event_slugs.len(), 2);
}

#[test]
fn search_and_pagination_start_empty() {
    let s = SearchState::new();
    assert_eq!(s.mode, SearchMode::Off);
    assert!(!s.is_active());
    assert!(s.query.is_empty() && s.results.is_empty() && s.last_searched_query.is_empty());
    assert!(!s.is_searching);
    let mut s = s;
    s.mode = SearchMode::LocalFilter;
    assert!(s.is_active());
    s.mode = SearchMode::ApiSearch;
    assert!(s.is_active());
    let p = PaginationState::new("volume".to_string(), true, 50);
    assert_eq!(p.current_limit, 50);
    assert_eq!(p.order_by, "volume");
    assert!(p.ascending);
    assert!(!p.is_fetching_more);
}

#[test]
fn a_saved_log_has_a_head_and_numbered_messages() {
    let mut l = LogsState::new();
    let head = l.file_lines("2025-01-02 03:04:05");
    assert_eq!(
        head,
        vec![
            "Polymarket TUI Logs".to_string(),
            "Saved at: 2025-01-02 03:04:05".to_string(),
            "Total entries: 0".to_string(),
            "=".repeat(80),
            String::new(),
        ]
    );
    for k in 0..12 {
        l.push("INFO", &format!("m{}", k));
    }
    let lines = l.file_lines("now");
    assert_eq!(lines.len(), 17);
    assert_eq!(lines[1], "Saved at: now");
    assert_eq!(lines[2], "Total entries: 12");
    assert_eq!(lines[5], "[1] [INFO] m0");
    assert_eq!(lines[14], "[10] [INFO] m9");
    assert_eq!(lines[16], "[12] [INFO] m11");
}
