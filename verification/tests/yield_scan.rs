use trending_tui::dates::{read_date, UtcTime};
use trending_tui::market::{
    best_yield, estimated_return, event_has_yield, market_has_yield, price_qualifies, Event,
    Market, Tag, YieldPick, YIELD_MIN_PROB,
};
use trending_tui::yield_state::{scan_opportunities, YieldOpportunity, YieldSortBy, YieldState};

fn market(question: &str, closed: bool, prices: Vec<Option<u64>>) -> Market {
    Market {
        question: question.to_string(),
        group_item_title: None,
        clob_token_ids: None,
        outcomes: vec!["Yes".to_string(), "No".to_string()],
        outcome_prices: prices,
        volume_24hr: Some(1_000_000),
        volume_total: Some(9_000_000),
        active: true,
        closed,
        uma_resolution_statuses: None,
    }
}

fn event(slug: &str, title: &str, end_date: Option<&str>, markets: Vec<Market>) -> Event {
    Event {
        id: slug.to_string(),
        slug: slug.to_string(),
        title: title.to_string(),
        active: true,
        closed: false,
        tags: vec![Tag { id: "1".to_string(), label: "Politics".to_string(), slug: "politics".to_string() }],
        markets,
        end_date: end_date.map(|s| s.to_string()),
        created_at: None,
        volume_24hr: None,
        volume: None,
        liquidity: None,
        competitive: None,
    }
}

fn opp(name: &str, est_return: u64, volume: u64, end: Option<i64>) -> YieldOpportunity {
    YieldOpportunity {
        market_name: name.to_string(),
        market_status: "open",
        outcome: "Yes".to_string(),
        price: 970_000,
        est_return,
        volume,
        event_slug: format!("slug-{}", name),
        event_title: format!("Title {}", name),
        end_date: end.map(|secs| UtcTime { secs, nanos: 0 }),
    }
}

fn names(state: &YieldState) -> Vec<String> {
    state.opportunities.iter().map(|o| o.market_name.clone()).collect()
}

#[test]
fn threshold_is_inclusive_below_and_exclusive_above() {
    assert_eq!(YIELD_MIN_PROB, 950_000);
    assert!(price_qualifies(950_000));
    assert!(!price_qualifies(949_999));
    assert!(price_qualifies(999_999));
    assert!(!price_qualifies(1_000_000));
    assert!(!price_qualifies(0));
    assert!(market_has_yield(&market("m", false, vec![Some(950_000), Some(50_000)])));
    assert!(!market_has_yield(&market("m", false, vec![Some(1_000_000), Some(0)])));
    assert!(!market_has_yield(&market("m", false, vec![Some(949_999), Some(50_001)])));
}

#[test]
fn a_closed_market_has_no_yield_whatever_its_price() {
    assert!(!market_has_yield(&market("m", true, vec![Some(950_000), Some(50_000)])));
    assert!(!market_has_yield(&market("m", true, vec![Some(990_000)])));
    assert_eq!(best_yield(&market("m", true, vec![Some(990_000)])), None);
}

#[test]
fn unknown_prices_are_passed_over() {
    assert!(!market_has_yield(&market("m", false, vec![None, None])));
    assert!(!market_has_yield(&market("m", false, vec![])));
    assert!(market_has_yield(&market("m", false, vec![None, Some(960_000)])));
    let pick = best_yield(&market("m", false, vec![None, Some(960_000)])).unwrap();
    assert_eq!(pick.outcome_index, 1);
}

#[test]
fn return_formula_has_exact_values() {
    assert_eq!(estimated_return(980_000), 2_040_816);
    assert_eq!(estimated_return(990_000), 1_010_101);
    assert_eq!(estimated_return(950_000), 5_263_157);
    assert_eq!(estimated_return(999_999), 100);
    assert_eq!(estimated_return(1_000_000), 0);
    assert_eq!(estimated_return(500_000), 100_000_000);
}

#[test]
fn the_lowest_return_is_surfaced() {
    let m = market("m", false, vec![Some(980_000), Some(990_000)]);
    assert_eq!(
        best_yield(&m),
        Some(YieldPick { outcome_index: 1, price: 990_000, est_return: 1_010_101 })
    );
    let m = market("m", false, vec![Some(990_000), Some(980_000)]);
    assert_eq!(
        best_yield(&m),
        Some(YieldPick { outcome_index: 0, price: 990_000, est_return: 1_010_101 })
    );
}

#[test]
fn of_equal_returns_the_first_is_surfaced() {
    let m = market("m", false, vec![Some(100), Some(970_000), Some(970_000)]);
    assert_eq!(best_yield(&m).unwrap().outcome_index, 1);
}

#[test]
fn an_event_has_yield_if_a_market_has() {
    let e = event(
        "e",
        "E",
        None,
        vec![market("a", false, vec![Some(500_000)]), market("b", false, vec![Some(960_000)])],
    );
    assert!(event_has_yield(&e));
    let e = event("e", "E", None, vec![market("a", false, vec![Some(500_000)])]);
    assert!(!event_has_yield(&e));
    let e = event("e", "E", None, vec![]);
    assert!(!event_has_yield(&e));
}

#[test]
fn market_status_in_one_word() {
    let mut m = market("m", false, vec![]);
    assert_eq!(m.status(), "open");
    m.active = false;
    assert_eq!(m.status(), "paused");
    m.uma_resolution_statuses = Some("[\"proposed\"]".to_string());
    assert!(m.is_in_review());
    assert_eq!(m.status(), "in-review");
    m.uma_resolution_statuses = Some("[\"disputed\"]".to_string());
    assert_eq!(m.status(), "in-review");
    m.uma_resolution_statuses = Some("[\"resolved\"]".to_string());
    assert!(!m.is_in_review());
    m.closed = true;
    assert_eq!(m.status(), "closed");
}

#[test]
fn shown_volume_and_name_fall_back() {
    let mut m = market("Will it rain?", false, vec![]);
    assert_eq!(m.shown_volume(), 1_000_000);
    m.volume_24hr = None;
    assert_eq!(m.shown_volume(), 9_000_000);
    m.volume_total = None;
    assert_eq!(m.shown_volume(), 0);
    assert_eq!(m.display_name(), "Will it rain?");
    m.group_item_title = Some(String::new());
    assert_eq!(m.display_name(), "Will it rain?");
    m.group_item_title = Some("400-419".to_string());
    assert_eq!(m.display_name(), "400-419");
}

#[test]
fn dates_are_read_as_points_in_time() {
    assert_eq!(
        read_date(&Some("2024-01-01T00:00:00Z".to_string())),
        Some(UtcTime { secs: 1_704_067_200, nanos: 0 })
    );
    assert_eq!(
        read_date(&Some("2024-01-01T02:00:00.5+02:00".to_string())),
        Some(UtcTime { secs: 1_704_067_200, nanos: 500_000_000 })
    );
    assert_eq!(read_date(&Some("tomorrow".to_string())), None);
    assert_eq!(read_date(&Some(String::new())), None);
    assert_eq!(read_date(&None), None);
}

#[test]
fn a_scan_lists_one_opportunity_for_each_market_with_yield() {
    let events = vec![
        event(
            "rain",
            "Rain in May",
            Some("2025-05-31T12:00:00Z"),
            vec![
                market("Rain on the 1st?", false, vec![Some(980_000), Some(990_000)]),
                market("Rain on the 2nd?", false, vec![Some(500_000), Some(500_000)]),
                market("Rain on the 3rd?", true, vec![Some(990_000), Some(10_000)]),
            ],
        ),
        event("dry", "Dry June", None, vec![market("No rain at all?", false, vec![Some(40_000), Some(960_000)])]),
        event("none", "Nothing", None, vec![]),
    ];
    let found = scan_opportunities(&events);
    assert_eq!(found.len(), 2);
    assert_eq!(found[0].market_name, "Rain on the 1st?");
    assert_eq!(found[0].market_status, "open");
    assert_eq!(found[0].outcome, "No");
    assert_eq!(found[0].price, 990_000);
    assert_eq!(found[0].est_return, 1_010_101);
    assert_eq!(found[0].volume, 1_000_000);
    assert_eq!(found[0].event_slug, "rain");
    assert_eq!(found[0].event_title, "Rain in May");
    assert_eq!(found[0].end_date, Some(UtcTime { secs: 1_748_692_800, nanos: 0 }));
    assert_eq!(found[1].market_name, "No rain at all?");
    assert_eq!(found[1].outcome, "No");
    assert_eq!(found[1].price, 960_000);
    assert_eq!(found[1].est_return, 4_166_666);
    assert_eq!(found[1].end_date, None);
}

#[test]
fn a_scan_names_no_outcome_that_the_market_lacks() {
    let mut m = market("m", false, vec![Some(1), Some(2), Some(970_000)]);
    m.volume_24hr = None;
    let found = scan_opportunities(&vec![event("e", "E", None, vec![m])]);
    assert_eq!(found.len(), 1);
    assert_eq!(found[0].outcome, "");
    assert_eq!(found[0].volume, 0);
}

#[test]
fn new_yield_state_has_the_default_bounds() {
    let s = YieldState::new();
    assert!(s.opportunities.is_empty());
    assert_eq!(s.min_prob, 950_000);
    assert_eq!(s.max_prob, 1_000_000);
    assert_eq!(s.min_volume, 0);
    assert_eq!(s.sort_by, YieldSortBy::Return);
    assert!(s.filter_query.is_empty());
    assert!(!s.is_filtering && !s.is_searching && !s.is_loading && !s.is_search_loading);
}

#[test]
fn sort_keys_cycle_and_have_labels() {
    assert_eq!(YieldSortBy::Return.next(), YieldSortBy::Volume);
    assert_eq!(YieldSortBy::Volume.next(), YieldSortBy::EndDate);
    assert_eq!(YieldSortBy::EndDate.next(), YieldSortBy::Return);
    assert_eq!(YieldSortBy::Return.label(), "Return");
    assert_eq!(YieldSortBy::Volume.label(), "Volume");
    assert_eq!(YieldSortBy::EndDate.label(), "End Date");
}

#[test]
fn ranking_by_return_puts_the_highest_first_and_is_stable() {
    let mut s = YieldState::new();
    s.opportunities = vec![opp("a", 2, 0, None), opp("b", 5, 0, None), opp("c", 2, 0, None), opp("d", 9, 0, None)];
    s.sort_opportunities();
    assert_eq!(names(&s), vec!["d", "b", "a", "c"]);
}

#[test]
fn ranking_by_volume_puts_the_highest_first() {
    let mut s = YieldState::new();
    s.sort_by = YieldSortBy::Volume;
    s.opportunities = vec![opp("a", 0, 10, None), opp("b", 0, 30, None), opp("c", 0, 20, None), opp("d", 0, 30, None)];
    s.sort_opportunities();
    assert_eq!(names(&s), vec!["b", "d", "c", "a"]);
}

#[test]
fn ranking_by_end_date_puts_the_soonest_first_and_the_undated_last() {
    let mut s = YieldState::new();
    s.sort_by = YieldSortBy::EndDate;
    s.opportunities = vec![
        opp("none1", 0, 0, None),
        opp("late", 0, 0, Some(300)),
        opp("none2", 0, 0, None),
        opp("early", 0, 0, Some(100)),
        opp("late2", 0, 0, Some(300)),
    ];
    s.opportunities[4].end_date = Some(UtcTime { secs: 300, nanos: 1 });
    s.sort_opportunities();
    assert_eq!(names(&s), vec!["early", "late", "late2", "none1", "none2"]);
}

#[test]
fn refresh_scans_and_ranks() {
    let events = vec![event(
        "e",
        "E",
        None,
        vec![
            market("low", false, vec![Some(990_000)]),
            market("high", false, vec![Some(950_000)]),
            market("mid", false, vec![Some(970_000)]),
        ],
    )];
    let mut s = YieldState::new();
    s.is_loading = true;
    s.refresh(&events);
    assert!(!s.is_loading);
    assert_eq!(names(&s), vec!["high", "mid", "low"]);
    s.sort_by = YieldSortBy::Return;
    s.refresh(&vec![]);
    assert!(s.opportunities.is_empty());
}

#[test]
fn the_filter_matches_without_regard_to_case() {
    let mut s = YieldState::new();
    s.opportunities = vec![opp("Alpha", 1, 0, None), opp("beta", 2, 0, None), opp("GAMMA", 3, 0, None)];
    s.opportunities[1].event_title = "All about ALPHAbets".to_string();
    s.opportunities[2].event_slug = "x-alpha-y".to_string();
    assert_eq!(s.filtered_opportunities().len(), 3);
    s.filter_query = "aLpHa".to_string();
    let shown: Vec<&str> = s.filtered_opportunities().iter().map(|o| o.market_name.as_str()).collect();
    assert_eq!(shown, vec!["Alpha", "beta", "GAMMA"]);
    s.filter_query = "gamma".to_string();
    let shown: Vec<&str> = s.filtered_opportunities().iter().map(|o| o.market_name.as_str()).collect();
    assert_eq!(shown, vec!["GAMMA"]);
    s.filter_query = "zzz".to_string();
    assert!(s.filtered_opportunities().is_empty());
    assert_eq!(s.opportunities.len(), 3);
}

#[test]
fn selection_moves_within_the_shown_opportunities() {
    let mut s = YieldState::new();
    s.move_down(2);
    assert_eq!((s.selected_index, s.scroll), (0, 0));
    s.opportunities = vec![opp("a", 1, 0, None), opp("b", 2, 0, None), opp("c", 3, 0, None), opp("d", 4, 0, None)];
    s.move_up();
    assert_eq!((s.selected_index, s.scroll), (0, 0));
    s.move_down(2);
    assert_eq!((s.selected_index, s.scroll), (1, 0));
    s.move_down(2);
    assert_eq!((s.selected_index, s.scroll), (2, 1));
    s.move_down(2);
    assert_eq!((s.selected_index, s.scroll), (3, 2));
    s.move_down(2);
    assert_eq!((s.selected_index, s.scroll), (3, 2));
    assert_eq!(s.selected_opportunity().unwrap().market_name, "d");
    s.move_up();
    s.move_up();
    assert_eq!((s.selected_index, s.scroll), (1, 1));
    s.filter_query = "title a".to_string();
    assert!(s.selected_opportunity().is_none());
    s.selected_index = 0;
    assert_eq!(s.selected_opportunity().unwrap().market_name, "a");
}

#[test]
fn filter_and_search_editing() {
    let mut s = YieldState::new();
    s.selected_index = 3;
    s.scroll = 2;
    s.enter_filter_mode();
    assert!(s.is_filtering);
    assert!(s.is_in_input_mode());
    s.add_filter_char('a');
    s.add_filter_char('b');
    assert_eq!(s.filter_query, "ab");
    assert_eq!((s.selected_index, s.scroll), (0, 0));
    s.delete_filter_char();
    assert_eq!(s.filter_query, "a");
    s.exit_filter_mode();
    assert!(!s.is_filtering);
    assert_eq!(s.filter_query, "a");
    s.clear_filter();
    assert_eq!(s.filter_query, "");
    s.delete_filter_char();
    assert_eq!(s.filter_query, "");

    s.enter_search_mode();
    assert!(s.is_searching);
    s.add_search_char('x');
    s.add_search_char('y');
    s.delete_search_char();
    assert_eq!(s.search_query, "x");
    s.is_search_loading = true;
    s.selected_index = 4;
    s.set_search_results(
        vec![trending_tui::yield_state::YieldSearchResult { event_slug: "e1".to_string(), best_yield: None }],
        "x".to_string(),
    );
    assert!(!s.is_search_loading);
    assert_eq!(s.last_searched_query, "x");
    assert_eq!(s.selected_index, 0);
    assert_eq!(s.displayed_count(), 1);
    assert_eq!(s.selected_search_result().unwrap().event_slug, "e1");
    s.hide_search_input();
    assert!(!s.is_searching);
    assert_eq!(s.search_results.len(), 1);
    assert_eq!(s.displayed_count(), 0);
    assert!(s.selected_search_result().is_some());
    s.selected_index = 1;
    assert!(s.selected_search_result().is_none());
    s.exit_search_mode();
    assert!(s.search_results.is_empty());
    assert_eq!(s.search_query, "");
    assert_eq!(s.last_searched_query, "");
    assert!(s.selected_search_result().is_none());
    assert!(!s.is_in_input_mode());
}
