//! Selection, focus and scroll positions of the panels, and the small cyclic
//! choices (tab, filter, sort key) that the header offers.

use vstd::prelude::*;

verus! {

/// The panel that receives key strokes.
#[derive(Debug, Clone, Copy, PartialEq, Eq, Structural)]
pub enum FocusedPanel {
    Header,
    EventsList,
    EventDetails,
    Markets,
    Trades,
    Logs,
}

/// The tabs of the top level.
#[derive(Debug, Clone, Copy, PartialEq, Eq, Hash, Structural)]
pub enum MainTab {
    Trending,
    Favorites,
    Yield,
}

impl MainTab {
    /// The text shown for this tab.
    pub open spec fn label_text(self) -> Seq<char> {
        match self {
            MainTab::Trending => "Trending"@,
            MainTab::Favorites => "Favorites"@,
            MainTab::Yield => "Yield"@,
        }
    }

    /// The tab to the right, wrapping from Yield to Trending.
    pub open spec fn successor(self) -> MainTab {
        match self {
            MainTab::Trending => MainTab::Favorites,
            MainTab::Favorites => MainTab::Yield,
            MainTab::Yield => MainTab::Trending,
        }
    }

    /// The tab to the left, wrapping from Trending to Yield.
    pub open spec fn predecessor(self) -> MainTab {
        match self {
            MainTab::Trending => MainTab::Yield,
            MainTab::Favorites => MainTab::Trending,
            MainTab::Yield => MainTab::Favorites,
        }
    }

    pub fn label(&self) -> (r: &'static str)
        ensures
            r@ == self.label_text(),
    {
        match self {
            MainTab::Trending => "Trending",
            MainTab::Favorites => "Favorites",
            MainTab::Yield => "Yield",
        }
    }

    pub fn next(&self) -> (r: Self)
        ensures
            r == self.successor(),
    {
        match self {
            MainTab::Trending => MainTab::Favorites,
            MainTab::Favorites => MainTab::Yield,
            MainTab::Yield => MainTab::Trending,
        }
    }

    pub fn prev(&self) -> (r: Self)
        ensures
            r == self.predecessor(),
    {
        match self {
            MainTab::Trending => MainTab::Yield,
            MainTab::Favorites => MainTab::Trending,
            MainTab::Yield => MainTab::Favorites,
        }
    }

    /// Going right and then left, or left and then right, returns to the
    /// same tab, and three steps to the right go once round.
    pub proof fn lemma_tabs_cycle(tab: MainTab)
        ensures
            tab.successor().predecessor() == tab,
            tab.predecessor().successor() == tab,
            tab.successor().successor().successor() == tab,
    {
    }
}

/// Which list of events the events panel shows.
#[derive(Debug, Clone, Copy, PartialEq, Eq, Hash, Structural)]
pub enum EventFilter {
    /// Ordered by the volume of the last 24 hours.
    Trending,
    /// Ordered by the price change of the last day.
    Breaking,
}

impl EventFilter {
    /// The name of the field by which the events of this filter are ordered
    /// when they are requested.
    pub open spec fn order_by_text(self) -> Seq<char> {
        match self {
            EventFilter::Trending => "volume24hr"@,
            EventFilter::Breaking => "oneDayPriceChange"@,
        }
    }

    /// The text shown for this filter.
    pub open spec fn label_text(self) -> Seq<char> {
        match self {
            EventFilter::Trending => "Events"@,
            EventFilter::Breaking => "Breaking"@,
        }
    }

    /// The other filter: there are two.
    pub open spec fn other(self) -> EventFilter {
        match self {
            EventFilter::Trending => EventFilter::Breaking,
            EventFilter::Breaking => EventFilter::Trending,
        }
    }

    pub fn order_by(&self) -> (r: &'static str)
        ensures
            r@ == self.order_by_text(),
    {
        match self {
            EventFilter::Trending => "volume24hr",
            EventFilter::Breaking => "oneDayPriceChange",
        }
    }

    pub fn label(&self) -> (r: &'static str)
        ensures
            r@ == self.label_text(),
    {
        match self {
            EventFilter::Trending => "Events",
            EventFilter::Breaking => "Breaking",
        }
    }

    pub fn next(&self) -> (r: Self)
        ensures
            r == self.other(),
    {
        match self {
            EventFilter::Trending => EventFilter::Breaking,
            EventFilter::Breaking => EventFilter::Trending,
        }
    }

    pub fn prev(&self) -> (r: Self)
        ensures
            r == self.other(),
    {
        match self {
            EventFilter::Trending => EventFilter::Breaking,
            EventFilter::Breaking => EventFilter::Trending,
        }
    }

    /// Switching twice returns to the same filter.
    pub proof fn lemma_other_is_involution(filter: EventFilter)
        ensures
            filter.other().other() == filter,
            filter.other() != filter,
    {
    }
}

/// The keys by which the list of events can be ordered.
#[derive(Debug, Clone, Copy, PartialEq, Eq, Structural)]
pub enum EventSortBy {
    Volume24hr,
    VolumeTotal,
    Liquidity,
    Newest,
    EndingSoon,
    Competitive,
}

impl Default for EventSortBy {
    fn default() -> (r: Self)
        ensures
            r == EventSortBy::Volume24hr,
    {
        EventSortBy::Volume24hr
    }
}

impl EventSortBy {
    /// The text shown for this sort key.
    pub open spec fn label_text(self) -> Seq<char> {
        match self {
            EventSortBy::Volume24hr => "24h Vol"@,
            EventSortBy::VolumeTotal => "Total Vol"@,
            EventSortBy::Liquidity => "Liquidity"@,
            EventSortBy::Newest => "Newest"@,
            EventSortBy::EndingSoon => "Ending Soon"@,
            EventSortBy::Competitive => "Competitive"@,
        }
    }

    /// The sort key that follows this one; the last is followed by the first.
    pub open spec fn successor(self) -> EventSortBy {
        match self {
            EventSortBy::Volume24hr => EventSortBy::VolumeTotal,
            EventSortBy::VolumeTotal => EventSortBy::Liquidity,
            EventSortBy::Liquidity => EventSortBy::Newest,
            EventSortBy::Newest => EventSortBy::EndingSoon,
            EventSortBy::EndingSoon => EventSortBy::Competitive,
            EventSortBy::Competitive => EventSortBy::Volume24hr,
        }
    }

    /// The name of the field that a request for events ordered by this key
    /// carries.
    pub open spec fn api_order_text(self) -> Seq<char> {
        match self {
            EventSortBy::Volume24hr => "volume24hr"@,
            EventSortBy::VolumeTotal => "volume"@,
            EventSortBy::Liquidity => "liquidity"@,
            EventSortBy::Newest => "createdAt"@,
            EventSortBy::EndingSoon => "endDate"@,
            EventSortBy::Competitive => "competitive"@,
        }
    }

    pub fn label(&self) -> (r: &'static str)
        ensures
            r@ == self.label_text(),
    {
        match self {
            EventSortBy::Volume24hr => "24h Vol",
            EventSortBy::VolumeTotal => "Total Vol",
            EventSortBy::Liquidity => "Liquidity",
            EventSortBy::Newest => "Newest",
            EventSortBy::EndingSoon => "Ending Soon",
            EventSortBy::Competitive => "Competitive",
        }
    }

    pub fn next(&self) -> (r: Self)
        ensures
            r == self.successor(),
    {
        match self {
            EventSortBy::Volume24hr => EventSortBy::VolumeTotal,
            EventSortBy::VolumeTotal => EventSortBy::Liquidity,
            EventSortBy::Liquidity => EventSortBy::Newest,
            EventSortBy::Newest => EventSortBy::EndingSoon,
            EventSortBy::EndingSoon => EventSortBy::Competitive,
            EventSortBy::Competitive => EventSortBy::Volume24hr,
        }
    }

    pub fn api_order_param(&self) -> (r: &'static str)
        ensures
            r@ == self.api_order_text(),
    {
        match self {
            EventSortBy::Volume24hr => "volume24hr",
            EventSortBy::VolumeTotal => "volume",
            EventSortBy::Liquidity => "liquidity",
            EventSortBy::Newest => "createdAt",
            EventSortBy::EndingSoon => "endDate",
            EventSortBy::Competitive => "competitive",
        }
    }

    /// Only the events that end soonest are listed smallest first; every
    /// other key lists the largest value first.
    pub fn is_ascending(&self) -> (r: bool)
        ensures
            r == (*self == EventSortBy::EndingSoon),
    {
        match self {
            EventSortBy::EndingSoon => true,
            _ => false,
        }
    }

    /// Six steps go once round the sort keys.
    pub proof fn lemma_sort_keys_cycle(key: EventSortBy)
        ensures
            key.successor().successor().successor().successor().successor().successor() == key,
            key.successor() != key,
    {
    }
}

/// Scroll offsets of the panels, each counted in rows from the top.
#[derive(Debug)]
pub struct ScrollState {
    pub events_list: usize,
    pub markets: usize,
    pub trades: usize,
    pub event_details: usize,
    pub logs: usize,
}

impl ScrollState {
    pub fn new() -> (r: Self)
        ensures
            r.events_list == 0,
            r.markets == 0,
            r.trades == 0,
            r.event_details == 0,
            r.logs == 0,
    {
        ScrollState { events_list: 0, markets: 0, trades: 0, event_details: 0, logs: 0 }
    }
}

/// The selected row of the events list and the focused panel.
#[derive(Debug)]
pub struct NavigationState {
    pub selected_index: usize,
    pub focused_panel: FocusedPanel,
}

impl NavigationState {
    pub fn new() -> (r: Self)
        ensures
            r.selected_index == 0,
            r.focused_panel == FocusedPanel::EventsList,
    {
        NavigationState { selected_index: 0, focused_panel: FocusedPanel::EventsList }
    }
}

/// What moving the selection one row up does to a selected index and the
/// scroll offset of its list: the index drops by one unless it is 0, and the
/// offset follows it where the selection would leave the window at the top.
pub open spec fn moved_up(selected: nat, scroll: nat) -> (nat, nat) {
    if selected == 0 {
        (selected, scroll)
    } else {
        let s = (selected - 1) as nat;
        (s, if s < scroll { s } else { scroll })
    }
}

/// What moving the selection one row down does in a list of `len` rows of
/// which `visible` are shown: the index rises by one unless it is on the last
/// row, and the offset follows it where the selection would leave the window
/// at the bottom.
pub open spec fn moved_down(selected: nat, scroll: nat, len: nat, visible: nat) -> (nat, nat) {
    if len == 0 || selected >= len - 1 {
        (selected, scroll)
    } else {
        let s = selected + 1;
        (s, if s >= scroll + visible { (s + 1 - visible) as nat } else { scroll })
    }
}

/// Moves a selection one row up: see `moved_up`.
pub fn step_up(selected: usize, scroll: usize) -> (r: (usize, usize))
    ensures
        (r.0 as nat, r.1 as nat) == moved_up(selected as nat, scroll as nat),
{
    if selected > 0 {
        let s: usize = selected - 1;
        if s < scroll {
            (s, s)
        } else {
            (s, scroll)
        }
    } else {
        (selected, scroll)
    }
}

/// Moves a selection one row down: see `moved_down`. The sum of offset and
/// window height is taken without wrapping: where it does not fit the
/// machine word the window cannot be left at the bottom.
pub fn step_down(selected: usize, scroll: usize, len: usize, visible: usize) -> (r: (
    usize,
    usize,
))
    ensures
        (r.0 as nat, r.1 as nat) == moved_down(
            selected as nat,
            scroll as nat,
            len as nat,
            visible as nat,
        ),
{
    if len > 0 && selected < len - 1 {
        let s: usize = selected + 1;
        let past_window: bool = match scroll.checked_add(visible) {
            Some(end) => s >= end,
            None => false,
        };
        if past_window {
            (s, s + 1 - visible)
        } else {
            (s, scroll)
        }
    } else {
        (selected, scroll)
    }
}

} // verus!
