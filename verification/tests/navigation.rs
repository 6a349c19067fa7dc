use trending_tui::navigation::{
    step_down, step_up, EventFilter, EventSortBy, FocusedPanel, MainTab, NavigationState,
    ScrollState,
};

#[test]
fn main_tabs_cycle_both_ways() {
    assert_eq!(MainTab::Trending.next(), MainTab::Favorites);
    assert_eq!(MainTab::Favorites.next(), MainTab::Yield);
    assert_eq!(MainTab::Yield.next(), MainTab::Trending);
    assert_eq!(MainTab::Trending.prev(), MainTab::Yield);
    assert_eq!(MainTab::Favorites.prev(), MainTab::Trending);
    assert_eq!(MainTab::Yield.prev(), MainTab::Favorites);
    for tab in [MainTab::Trending, MainTab::Favorites, MainTab::Yield] {
        assert_eq!(tab.next().prev(), tab);
        assert_eq!(tab.prev().next(), tab);
    }
}

#[test]
fn main_tabs_have_labels() {
    assert_eq!(MainTab::Trending.label(), "Trending");
    assert_eq!(MainTab::Favorites.label(), "Favorites");
    assert_eq!(MainTab::Yield.label(), "Yield");
}

#[test]
fn event_filters_alternate() {
    assert_eq!(EventFilter::Trending.next(), EventFilter::Breaking);
    assert_eq!(EventFilter::Breaking.next(), EventFilter::Trending);
    assert_eq!(EventFilter::Trending.prev(), EventFilter::Breaking);
    assert_eq!(EventFilter::Breaking.prev(), EventFilter::Trending);
    assert_eq!(EventFilter::Trending.order_by(), "volume24hr");
    assert_eq!(EventFilter::Breaking.order_by(), "oneDayPriceChange");
    assert_eq!(EventFilter::Trending.label(), "Events");
    assert_eq!(EventFilter::Breaking.label(), "Breaking");
}

#[test]
fn event_sort_keys_cycle() {
    let order = [
        EventSortBy::Volume24hr,
        EventSortBy::VolumeTotal,
        EventSortBy::Liquidity,
        EventSortBy::Newest,
        EventSortBy::EndingSoon,
        EventSortBy::Competitive,
    ];
    for i in 0..order.len() {
        assert_eq!(order[i].next(), order[(i + 1) % order.len()]);
    }
    assert_eq!(EventSortBy::default(), EventSortBy::Volume24hr);
}

#[test]
fn event_sort_keys_have_labels_and_parameters() {
    assert_eq!(EventSortBy::Volume24hr.label(), "24h Vol");
    assert_eq!(EventSortBy::VolumeTotal.label(), "Total Vol");
    assert_eq!(EventSortBy::Liquidity.label(), "Liquidity");
    assert_eq!(EventSortBy::Newest.label(), "Newest");
    assert_eq!(EventSortBy::EndingSoon.label(), "Ending Soon");
    assert_eq!(EventSortBy::Competitive.label(), "Competitive");
    assert_eq!(EventSortBy::Volume24hr.api_order_param(), "volume24hr");
    assert_eq!(EventSortBy::VolumeTotal.api_order_param(), "volume");
    assert_eq!(EventSortBy::Liquidity.api_order_param(), "liquidity");
    assert_eq!(EventSortBy::Newest.api_order_param(), "createdAt");
    assert_eq!(EventSortBy::EndingSoon.api_order_param(), "endDate");
    assert_eq!(EventSortBy::Competitive.api_order_param(), "competitive");
}

#[test]
fn only_ending_soon_is_ascending() {
    assert!(EventSortBy::EndingSoon.is_ascending());
    assert!(!EventSortBy::Newest.is_ascending());
    assert!(!EventSortBy::Volume24hr.is_ascending());
    assert!(!EventSortBy::VolumeTotal.is_ascending());
    assert!(!EventSortBy::Liquidity.is_ascending());
    assert!(!EventSortBy::Competitive.is_ascending());
}

#[test]
fn scroll_and_navigation_start_at_the_top() {
    let s = ScrollState::new();
    assert_eq!((s.events_list, s.markets, s.trades, s.event_details, s.logs), (0, 0, 0, 0, 0));
    let n = NavigationState::new();
    assert_eq!(n.selected_index, 0);
    assert_eq!(n.focused_panel, FocusedPanel::EventsList);
}

#[test]
fn a_step_up_stops_at_the_top_and_pulls_the_window() {
    assert_eq!(step_up(0, 0), (0, 0));
    assert_eq!(step_up(0, 7), (0, 7));
    assert_eq!(step_up(5, 2), (4, 2));
    assert_eq!(step_up(5, 5), (4, 4));
    assert_eq!(step_up(5, 9), (4, 4));
    assert_eq!(step_up(usize::MAX, usize::MAX), (usize::MAX - 1, usize::MAX - 1));
}

#[test]
fn a_step_down_stops_at_the_end_and_pushes_the_window() {
    assert_eq!(step_down(0, 0, 0, 10), (0, 0));
    assert_eq!(step_down(0, 0, 1, 10), (0, 0));
    assert_eq!(step_down(0, 0, 2, 10), (1, 0));
    assert_eq!(step_down(8, 0, 20, 10), (9, 0));
    assert_eq!(step_down(9, 0, 20, 10), (10, 1));
    assert_eq!(step_down(19, 10, 20, 10), (19, 10));
    assert_eq!(step_down(25, 10, 20, 10), (25, 10));
    assert_eq!(step_down(3, 0, 20, 0), (4, 5));
    assert_eq!(step_down(3, usize::MAX, 20, 10), (4, usize::MAX));
}
