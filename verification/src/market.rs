//! Events and their markets as the dashboard knows them, and the rule that
//! finds markets with a nearly certain outcome.

use vstd::prelude::*;
use vstd::arithmetic::div_mod::{lemma_div_is_ordered, lemma_div_is_ordered_by_denominator};
use crate::text::{is_substring, str_contains};
use crate::units::PRICE_SCALE;

verus! {

/// The lowest price, in millionths, at which an outcome counts as nearly
/// certain: 0.95.
pub const YIELD_MIN_PROB: u64 = 950_000;

/// Millionths of a percent in one: returns are whole numbers of them.
pub const RETURN_SCALE: u64 = 1_000_000;

/// A label that an event carries.
#[derive(Debug)]
pub struct Tag {
    pub id: String,
    pub label: String,
    pub slug: String,
}

/// One tradable question of an event. Prices and volumes are in millionths;
/// an outcome whose price is not known has `None`.
#[derive(Debug)]
pub struct Market {
    pub question: String,
    /// The short name of a market that belongs to a group.
    pub group_item_title: Option<String>,
    /// The token of each outcome, in the order of the outcomes.
    pub clob_token_ids: Option<Vec<String>>,
    pub outcomes: Vec<String>,
    pub outcome_prices: Vec<Option<u64>>,
    pub volume_24hr: Option<u64>,
    pub volume_total: Option<u64>,
    pub active: bool,
    pub closed: bool,
    /// The states of the resolution, as the service lists them.
    pub uma_resolution_statuses: Option<String>,
}

/// A topic with its markets. Volumes, liquidity and the competitive score
/// are in millionths; dates are texts in the form of RFC 3339.
#[derive(Debug)]
pub struct Event {
    pub id: String,
    pub slug: String,
    pub title: String,
    pub active: bool,
    pub closed: bool,
    pub tags: Vec<Tag>,
    pub markets: Vec<Market>,
    pub end_date: Option<String>,
    pub created_at: Option<String>,
    pub volume_24hr: Option<u64>,
    pub volume: Option<u64>,
    pub liquidity: Option<u64>,
    pub competitive: Option<u64>,
}

pub struct TagView {
    pub id: Seq<char>,
    pub label: Seq<char>,
    pub slug: Seq<char>,
}

pub struct MarketView {
    pub question: Seq<char>,
    pub group_item_title: Option<Seq<char>>,
    pub clob_token_ids: Option<Seq<Seq<char>>>,
    pub outcomes: Seq<Seq<char>>,
    pub outcome_prices: Seq<Option<u64>>,
    pub volume_24hr: Option<u64>,
    pub volume_total: Option<u64>,
    pub active: bool,
    pub closed: bool,
    pub uma_resolution_statuses: Option<Seq<char>>,
}

pub struct EventView {
    pub id: Seq<char>,
    pub slug: Seq<char>,
    pub title: Seq<char>,
    pub active: bool,
    pub closed: bool,
    pub tags: Seq<TagView>,
    pub markets: Seq<MarketView>,
    pub end_date: Option<Seq<char>>,
    pub created_at: Option<Seq<char>>,
    pub volume_24hr: Option<u64>,
    pub volume: Option<u64>,
    pub liquidity: Option<u64>,
    pub competitive: Option<u64>,
}

/// The text of an optional string.
pub open spec fn opt_text(s: Option<String>) -> Option<Seq<char>> {
    match s {
        Some(t) => Some(t@),
        None => None,
    }
}

/// The texts of a row of strings.
pub open spec fn texts(v: Seq<String>) -> Seq<Seq<char>> {
    v.map_values(|s: String| s@)
}

impl View for Tag {
    type V = TagView;

    open spec fn view(&self) -> TagView {
        TagView { id: self.id@, label: self.label@, slug: self.slug@ }
    }
}

impl View for Market {
    type V = MarketView;

    open spec fn view(&self) -> MarketView {
        MarketView {
            question: self.question@,
            group_item_title: opt_text(self.group_item_title),
            clob_token_ids: match self.clob_token_ids {
                Some(ids) => Some(texts(ids@)),
                None => None,
            },
            outcomes: texts(self.outcomes@),
            outcome_prices: self.outcome_prices@,
            volume_24hr: self.volume_24hr,
            volume_total: self.volume_total,
            active: self.active,
            closed: self.closed,
            uma_resolution_statuses: opt_text(self.uma_resolution_statuses),
        }
    }
}

impl View for Event {
    type V = EventView;

    open spec fn view(&self) -> EventView {
        EventView {
            id: self.id@,
            slug: self.slug@,
            title: self.title@,
            active: self.active,
            closed: self.closed,
            tags: self.tags@.map_values(|t: Tag| t@),
            markets: self.markets@.map_values(|m: Market| m@),
            end_date: opt_text(self.end_date),
            created_at: opt_text(self.created_at),
            volume_24hr: self.volume_24hr,
            volume: self.volume,
            liquidity: self.liquidity,
            competitive: self.competitive,
        }
    }
}

/// The views of a row of events.
pub open spec fn event_views(events: Seq<Event>) -> Seq<EventView> {
    events.map_values(|e: Event| e@)
}

/// A copy of an optional string.
pub fn clone_opt_string(s: &Option<String>) -> (r: Option<String>)
    ensures
        r == *s,
{
    match s {
        Some(t) => Some(t.clone()),
        None => None,
    }
}

/// A copy of a row of strings.
pub fn clone_strings(v: &Vec<String>) -> (r: Vec<String>)
    ensures
        r@ == v@,
{
    let mut r: Vec<String> = Vec::new();
    let mut i: usize = 0;
    while i < v.len()
        invariant
            0 <= i <= v.len(),
            r@ == v@.take(i as int),
        decreases v.len() - i,
    {
        r.push(v[i].clone());
        assert(r@ =~= v@.take(i + 1));
        i = i + 1;
    }
    assert(v@.take(v.len() as int) =~= v@);
    r
}

impl Clone for Tag {
    fn clone(&self) -> (r: Self)
        ensures
            r@ == self@,
    {
        Tag { id: self.id.clone(), label: self.label.clone(), slug: self.slug.clone() }
    }
}

impl Clone for Market {
    fn clone(&self) -> (r: Self)
        ensures
            r@ == self@,
    {
        let clob_token_ids: Option<Vec<String>> = match &self.clob_token_ids {
            Some(ids) => Some(clone_strings(ids)),
            None => None,
        };
        let mut prices: Vec<Option<u64>> = Vec::new();
        let mut i: usize = 0;
        while i < self.outcome_prices.len()
            invariant
                0 <= i <= self.outcome_prices.len(),
                prices@ == self.outcome_prices@.take(i as int),
            decreases self.outcome_prices.len() - i,
        {
            prices.push(self.outcome_prices[i]);
            assert(prices@ =~= self.outcome_prices@.take(i + 1));
            i = i + 1;
        }
        assert(self.outcome_prices@.take(self.outcome_prices.len() as int)
            =~= self.outcome_prices@);
        Market {
            question: self.question.clone(),
            group_item_title: clone_opt_string(&self.group_item_title),
            clob_token_ids,
            outcomes: clone_strings(&self.outcomes),
            outcome_prices: prices,
            volume_24hr: self.volume_24hr,
            volume_total: self.volume_total,
            active: self.active,
            closed: self.closed,
            uma_resolution_statuses: clone_opt_string(&self.uma_resolution_statuses),
        }
    }
}

impl Clone for Event {
    fn clone(&self) -> (r: Self)
        ensures
            r@ == self@,
    {
        let mut tags: Vec<Tag> = Vec::new();
        let mut i: usize = 0;
        while i < self.tags.len()
            invariant
                0 <= i <= self.tags.len(),
                tags@.len() == i,
                tags@.map_values(|t: Tag| t@) == self.tags@.take(i as int).map_values(|t: Tag| t@),
            decreases self.tags.len() - i,
        {
            let ghost before = tags@;
            let tag = self.tags[i].clone();
            assert(tag@ == self.tags@[i as int]@);
            tags.push(tag);
            assert(tags@ == before.push(tag));
            assert(tags@.map_values(|t: Tag| t@) =~= self.tags@.take(i + 1).map_values(
                |t: Tag| t@,
            )) by {
                assert forall|k: int| 0 <= k < i implies tags@.map_values(|t: Tag| t@)[k]
                    == self.tags@[k]@ by {
                    assert(before.map_values(|t: Tag| t@)[k] == self.tags@.take(i as int).map_values(
                        |t: Tag| t@,
                    )[k]);
                }
            }
            i = i + 1;
        }
        assert(self.tags@.take(self.tags.len() as int) =~= self.tags@);
        let mut markets: Vec<Market> = Vec::new();
        let mut j: usize = 0;
        while j < self.markets.len()
            invariant
                0 <= j <= self.markets.len(),
                markets@.len() == j,
                markets@.map_values(|m: Market| m@) == self.markets@.take(j as int).map_values(
                    |m: Market| m@,
                ),
            decreases self.markets.len() - j,
        {
            let ghost before = markets@;
            let market = self.markets[j].clone();
            markets.push(market);
            assert(markets@ == before.push(market));
            assert(markets@.map_values(|m: Market| m@) =~= self.markets@.take(j + 1).map_values(
                |m: Market| m@,
            )) by {
                assert forall|k: int| 0 <= k < j implies markets@.map_values(|m: Market| m@)[k]
                    == self.markets@[k]@ by {
                    assert(before.map_values(|m: Market| m@)[k] == self.markets@.take(
                        j as int,
                    ).map_values(|m: Market| m@)[k]);
                }
            }
            j = j + 1;
        }
        assert(self.markets@.take(self.markets.len() as int) =~= self.markets@);
        Event {
            id: self.id.clone(),
            slug: self.slug.clone(),
            title: self.title.clone(),
            active: self.active,
            closed: self.closed,
            tags,
            markets,
            end_date: clone_opt_string(&self.end_date),
            created_at: clone_opt_string(&self.created_at),
            volume_24hr: self.volume_24hr,
            volume: self.volume,
            liquidity: self.liquidity,
            competitive: self.competitive,
        }
    }
}

/// A copy of a row of events.
pub fn clone_events(v: &Vec<Event>) -> (r: Vec<Event>)
    ensures
        event_views(r@) == event_views(v@),
{
    let mut r: Vec<Event> = Vec::new();
    let mut i: usize = 0;
    while i < v.len()
        invariant
            0 <= i <= v.len(),
            r@.len() == i,
            event_views(r@) == event_views(v@.take(i as int)),
        decreases v.len() - i,
    {
        let ghost before = r@;
        let event = v[i].clone();
        r.push(event);
        assert(r@ == before.push(event));
        assert(event_views(r@) =~= event_views(v@.take(i + 1))) by {
            assert forall|k: int| 0 <= k < i implies event_views(r@)[k] == v@[k]@ by {
                assert(event_views(before)[k] == event_views(v@.take(i as int))[k]);
            }
        }
        i = i + 1;
    }
    assert(v@.take(v.len() as int) =~= v@);
    r
}

/// A price is nearly certain: at least 0.95 and below 1.
pub open spec fn qualifies(price: u64) -> bool {
    YIELD_MIN_PROB <= price < PRICE_SCALE
}

/// The return, in millionths of a percent, of a share bought at `price`
/// that pays 1: `(1 / price - 1) * 100` percent, rounded down.
pub open spec fn return_of(price: u64) -> nat
    recommends
        0 < price <= PRICE_SCALE,
{
    ((PRICE_SCALE - price) * 100 * RETURN_SCALE / (price as int)) as nat
}

impl MarketView {
    /// The outcome at `i` has a known price that is nearly certain.
    pub open spec fn yields_at(self, i: int) -> bool {
        &&& 0 <= i < self.outcome_prices.len()
        &&& self.outcome_prices[i] is Some
        &&& qualifies(self.outcome_prices[i]->0)
    }

    /// The market is open and one of its outcomes is nearly certain.
    pub open spec fn has_yield(self) -> bool {
        !self.closed && exists|i: int| self.yields_at(i)
    }

    /// The outcome at `i` is the one to show for the market: nearly
    /// certain, of the lowest return among the outcomes that are, and the
    /// first of those with that return.
    pub open spec fn is_best_yield(self, i: int) -> bool {
        &&& self.yields_at(i)
        &&& forall|j: int| #[trigger]
            self.yields_at(j) ==> return_of(self.outcome_prices[i]->0) <= return_of(
                self.outcome_prices[j]->0,
            )
        &&& forall|j: int|
            0 <= j < i && #[trigger] self.yields_at(j) ==> return_of(self.outcome_prices[i]->0)
                < return_of(self.outcome_prices[j]->0)
    }

    /// The resolution of the market is proposed or disputed.
    pub open spec fn in_review(self) -> bool {
        match self.uma_resolution_statuses {
            Some(s) => is_substring("proposed"@, s) || is_substring("disputed"@, s),
            None => false,
        }
    }

    /// The state of the market in one word.
    pub open spec fn status_text(self) -> Seq<char> {
        if self.closed {
            "closed"@
        } else if self.in_review() {
            "in-review"@
        } else if self.active {
            "open"@
        } else {
            "paused"@
        }
    }

    /// The volume shown for the market: that of the last 24 hours, or the
    /// total where that is not known, or nothing.
    pub open spec fn shown_volume(self) -> u64 {
        match self.volume_24hr {
            Some(v) => v,
            None => match self.volume_total {
                Some(v) => v,
                None => 0,
            },
        }
    }

    /// The name shown for the market: the short name of a grouped market
    /// where it has one that is not empty, else the question.
    pub open spec fn display_name(self) -> Seq<char> {
        match self.group_item_title {
            Some(t) => if t.len() > 0 {
                t
            } else {
                self.question
            },
            None => self.question,
        }
    }
}

/// The outcome of a market that is shown as its yield.
#[derive(Debug, Clone, Copy, PartialEq, Eq, Structural)]
pub struct YieldPick {
    /// The place of the outcome among the outcomes of the market.
    pub outcome_index: usize,
    /// Its price, in millionths.
    pub price: u64,
    /// Its return, in millionths of a percent.
    pub est_return: u64,
}

/// Whether a price is nearly certain.
pub fn price_qualifies(price: u64) -> (r: bool)
    ensures
        r == qualifies(price),
{
    YIELD_MIN_PROB <= price && price < PRICE_SCALE
}

/// The return of a share bought at `price`: see `return_of`.
pub fn estimated_return(price: u64) -> (r: u64)
    requires
        0 < price <= PRICE_SCALE,
    ensures
        r == return_of(price),
{
    let gain: u64 = (PRICE_SCALE - price) * 100 * RETURN_SCALE;
    gain / price
}

/// A higher price gives no higher return.
pub proof fn lemma_return_falls_as_price_rises(p: u64, q: u64)
    requires
        0 < p <= q <= PRICE_SCALE,
    ensures
        return_of(q) <= return_of(p),
{
    let gain_p = (PRICE_SCALE - p) * 100 * RETURN_SCALE;
    let gain_q = (PRICE_SCALE - q) * 100 * RETURN_SCALE;
    assert(0 <= gain_q <= gain_p);
    lemma_div_is_ordered(gain_q, gain_p, q as int);
    lemma_div_is_ordered_by_denominator(gain_p, p as int, q as int);
}

/// The bounds of the rule: 0.95 is nearly certain and 1 is not, and the
/// return of a nearly certain price lies above nothing and at most at
/// 5.263157 percent.
pub proof fn lemma_yield_bounds(price: u64)
    ensures
        qualifies(950_000),
        !qualifies(949_999),
        !qualifies(1_000_000),
        qualifies(price) ==> 0 < return_of(price) <= 5_263_157,
        return_of(980_000) == 2_040_816,
        return_of(990_000) == 1_010_101,
{
    if qualifies(price) {
        lemma_return_falls_as_price_rises(950_000, price);
        lemma_return_falls_as_price_rises(price, 999_999);
        assert(return_of(999_999) == 100);
        assert(return_of(950_000) == 5_263_157);
    }
}

/// Whether a market offers a yield: it is open and one of its outcomes is
/// nearly certain.
pub fn market_has_yield(market: &Market) -> (r: bool)
    ensures
        r == market@.has_yield(),
{
    if market.closed {
        return false;
    }
    let mut i: usize = 0;
    while i < market.outcome_prices.len()
        invariant
            0 <= i <= market.outcome_prices.len(),
            !market.closed,
            forall|j: int| 0 <= j < i ==> !market@.yields_at(j),
        decreases market.outcome_prices.len() - i,
    {
        match market.outcome_prices[i] {
            Some(p) => {
                if price_qualifies(p) {
                    assert(market@.yields_at(i as int));
                    return true;
                }
            },
            None => {},
        }
        i = i + 1;
    }
    false
}

/// Whether one of the markets of an event offers a yield.
pub fn event_has_yield(event: &Event) -> (r: bool)
    ensures
        r == exists|i: int| 0 <= i < event@.markets.len() && (#[trigger] event@.markets[i]).has_yield(),
{
    let mut i: usize = 0;
    while i < event.markets.len()
        invariant
            0 <= i <= event.markets.len(),
            forall|j: int| 0 <= j < i ==> !(#[trigger] event@.markets[j]).has_yield(),
        decreases event.markets.len() - i,
    {
        if market_has_yield(&event.markets[i]) {
            assert(event@.markets[i as int].has_yield());
            return true;
        }
        i = i + 1;
    }
    false
}

/// The outcome to show as the yield of a market, if it offers one: the
/// nearly certain outcome of the lowest return, the first where several
/// have it.
pub fn best_yield(market: &Market) -> (r: Option<YieldPick>)
    ensures
        r is Some <==> market@.has_yield(),
        r matches Some(pick) ==> {
            &&& market@.is_best_yield(pick.outcome_index as int)
            &&& Some(pick.price) == market@.outcome_prices[pick.outcome_index as int]
            &&& pick.est_return == return_of(pick.price)
        },
{
    if market.closed {
        return None;
    }
    let mut best: Option<YieldPick> = None;
    let mut i: usize = 0;
    while i < market.outcome_prices.len()
        invariant
            0 <= i <= market.outcome_prices.len(),
            !market@.closed,
            best is None ==> forall|j: int| 0 <= j < i ==> !market@.yields_at(j),
            best matches Some(pick) ==> {
                &&& pick.outcome_index < i
                &&& market@.yields_at(pick.outcome_index as int)
                &&& Some(pick.price) == market@.outcome_prices[pick.outcome_index as int]
                &&& pick.est_return == return_of(pick.price)
                &&& forall|j: int|
                    0 <= j < i && #[trigger] market@.yields_at(j) ==> pick.est_return <= return_of(
                        market@.outcome_prices[j]->0,
                    )
                &&& forall|j: int|
                    0 <= j < pick.outcome_index && #[trigger] market@.yields_at(j)
                        ==> pick.est_return < return_of(market@.outcome_prices[j]->0)
            },
        decreases market.outcome_prices.len() - i,
    {
        match market.outcome_prices[i] {
            Some(p) => {
                if price_qualifies(p) {
                    let ret: u64 = estimated_return(p);
                    let better: bool = match best {
                        Some(pick) => ret < pick.est_return,
                        None => true,
                    };
                    if better {
                        best = Some(YieldPick { outcome_index: i, price: p, est_return: ret });
                    }
                }
            },
            None => {},
        }
        i = i + 1;
    }
    proof {
        if best is Some {
            assert(market@.yields_at(best->0.outcome_index as int));
        }
    }
    best
}

impl Market {
    /// Whether the resolution of the market is proposed or disputed.
    pub fn is_in_review(&self) -> (r: bool)
        ensures
            r == self@.in_review(),
    {
        match &self.uma_resolution_statuses {
            Some(s) => str_contains(s.as_str(), "proposed") || str_contains(s.as_str(), "disputed"),
            None => false,
        }
    }

    /// The state of the market in one word: see `status_text`.
    pub fn status(&self) -> (r: &'static str)
        ensures
            r@ == self@.status_text(),
    {
        if self.closed {
            "closed"
        } else if self.is_in_review() {
            "in-review"
        } else if self.active {
            "open"
        } else {
            "paused"
        }
    }

    /// The volume shown for the market: see `shown_volume`.
    pub fn shown_volume(&self) -> (r: u64)
        ensures
            r == self@.shown_volume(),
    {
        match self.volume_24hr {
            Some(v) => v,
            None => match self.volume_total {
                Some(v) => v,
                None => 0,
            },
        }
    }

    /// The name shown for the market: see `display_name`.
    pub fn display_name(&self) -> (r: &str)
        ensures
            r@ == self@.display_name(),
    {
        match &self.group_item_title {
            Some(t) => if !t.as_str().is_empty() {
                t.as_str()
            } else {
                self.question.as_str()
            },
            None => self.question.as_str(),
        }
    }
}

} // verus!
