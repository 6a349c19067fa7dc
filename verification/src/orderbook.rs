//! The order book of the selected market: the last snapshot that was
//! fetched, for which market, outcome and token, and when.

use vstd::prelude::*;
use std::time::{Duration, Instant};

verus! {

/// `std::time::Instant`: a moment of the monotonic clock. Nothing is known
/// of what it holds.
#[verifier::external_type_specification]
#[verifier::external_body]
pub struct ExInstant(std::time::Instant);

/// After this many seconds a snapshot is fetched again.
pub const REFRESH_SECS: u64 = 5;

/// The height, in rows, that the panel has before it was first drawn.
pub const MIN_PANEL_HEIGHT: u16 = 5;

/// `Instant::now`: the present moment of the monotonic clock. Nothing is
/// stated of it.
#[verifier::external_body]
fn instant_now() -> Instant {
    Instant::now()
}

/// `Instant::elapsed`: the time that has passed since a moment. Nothing is
/// stated of it.
#[verifier::external_body]
fn instant_elapsed(since: &Instant) -> Duration {
    since.elapsed()
}

/// `Duration::as_secs`: the whole seconds of a span of time. Nothing is
/// stated of it.
#[verifier::external_body]
fn duration_secs(d: &Duration) -> u64 {
    d.as_secs()
}

/// The side of a market whose book is shown.
#[derive(Debug, Clone, Copy, PartialEq, Eq, Structural)]
pub enum OrderbookOutcome {
    Yes,
    No,
}

impl Default for OrderbookOutcome {
    fn default() -> (r: Self)
        ensures
            r == OrderbookOutcome::Yes,
    {
        OrderbookOutcome::Yes
    }
}

impl OrderbookOutcome {
    /// The other side.
    pub open spec fn other(self) -> OrderbookOutcome {
        match self {
            OrderbookOutcome::Yes => OrderbookOutcome::No,
            OrderbookOutcome::No => OrderbookOutcome::Yes,
        }
    }

    /// The text shown for this side.
    pub open spec fn label_text(self) -> Seq<char> {
        match self {
            OrderbookOutcome::Yes => "Yes"@,
            OrderbookOutcome::No => "No"@,
        }
    }

    pub fn toggle(&self) -> (r: Self)
        ensures
            r == self.other(),
    {
        match self {
            OrderbookOutcome::Yes => OrderbookOutcome::No,
            OrderbookOutcome::No => OrderbookOutcome::Yes,
        }
    }

    pub fn label(&self) -> (r: &'static str)
        ensures
            r@ == self.label_text(),
    {
        match self {
            OrderbookOutcome::Yes => "Yes",
            OrderbookOutcome::No => "No",
        }
    }

    /// Switching twice returns to the same side.
    pub proof fn lemma_other_is_involution(side: OrderbookOutcome)
        ensures
            side.other().other() == side,
            side.other() != side,
    {
    }
}

/// One price level of a book, in millionths: the price, the size offered
/// at it, and the running total from the best price to this level.
#[derive(Debug, Clone, Copy, PartialEq, Eq, Structural)]
pub struct OrderbookLevel {
    pub price: u64,
    pub size: u64,
    pub total: u64,
}

/// One snapshot of a book. Each side lists its levels from the best price
/// on; whoever builds the snapshot orders them.
#[derive(Debug)]
pub struct OrderbookData {
    pub asks: Vec<OrderbookLevel>,
    pub bids: Vec<OrderbookLevel>,
    pub spread: Option<u64>,
    pub last_price: Option<u64>,
}

impl Default for OrderbookData {
    fn default() -> (r: Self)
        ensures
            r.asks@ == Seq::<OrderbookLevel>::empty(),
            r.bids@ == Seq::<OrderbookLevel>::empty(),
            r.spread is None,
            r.last_price is None,
    {
        OrderbookData { asks: Vec::new(), bids: Vec::new(), spread: None, last_price: None }
    }
}

/// Whether a snapshot that was fetched `elapsed_secs` whole seconds ago, or
/// never, is to be fetched again.
pub open spec fn stale_after(elapsed_secs: Option<u64>) -> bool {
    match elapsed_secs {
        Some(e) => e >= REFRESH_SECS,
        None => true,
    }
}

/// Decides `stale_after`.
pub fn is_stale(elapsed_secs: Option<u64>) -> (r: bool)
    ensures
        r == stale_after(elapsed_secs),
{
    match elapsed_secs {
        Some(e) => e >= REFRESH_SECS,
        None => true,
    }
}

/// Staleness: a snapshot that was never fetched is stale; one that was
/// fetched this very second is not; one is stale from the fifth second on
/// and stays so.
pub proof fn lemma_refresh_staleness(elapsed: u64, later: u64)
    ensures
        stale_after(None),
        !stale_after(Some(0)),
        stale_after(Some(elapsed)) <==> elapsed >= 5,
        stale_after(Some(elapsed)) && elapsed <= later ==> stale_after(Some(later)),
{
}

/// The state of the order book panel.
#[derive(Debug)]
pub struct OrderbookState {
    /// The place of the selected market among the markets of the event.
    pub selected_market_index: usize,
    pub selected_outcome: OrderbookOutcome,
    /// The last snapshot, if it still belongs to the selection.
    pub orderbook: Option<OrderbookData>,
    /// Whether a fetch is under way.
    pub is_loading: bool,
    /// When the last fetch ended.
    pub last_fetch: Option<Instant>,
    /// The token that the snapshot belongs to.
    pub token_id: Option<String>,
    /// The height at which the panel was last drawn.
    pub last_height: u16,
}

impl OrderbookState {
    pub fn new() -> (r: Self)
        ensures
            r.selected_market_index == 0,
            r.selected_outcome == OrderbookOutcome::Yes,
            r.orderbook is None,
            !r.is_loading,
            r.last_fetch is None,
            r.token_id is None,
            r.last_height == MIN_PANEL_HEIGHT,
    {
        OrderbookState {
            selected_market_index: 0,
            selected_outcome: OrderbookOutcome::Yes,
            orderbook: None,
            is_loading: false,
            last_fetch: None,
            token_id: None,
            last_height: MIN_PANEL_HEIGHT,
        }
    }

    /// Another event was selected: the first market is selected, and the
    /// snapshot and its token are dropped.
    pub fn reset(&mut self)
        ensures
            *final(self) == (OrderbookState {
                selected_market_index: 0,
                orderbook: None,
                is_loading: false,
                token_id: None,
                ..*old(self)
            }),
    {
        self.selected_market_index = 0;
        self.orderbook = None;
        self.is_loading = false;
        self.token_id = None;
    }

    /// The other side is selected, and the snapshot and its token are
    /// dropped at once, so that the book of one side is never shown under
    /// the other.
    pub fn toggle_outcome(&mut self)
        ensures
            *final(self) == (OrderbookState {
                selected_outcome: old(self).selected_outcome.other(),
                orderbook: None,
                token_id: None,
                ..*old(self)
            }),
    {
        self.selected_outcome = self.selected_outcome.toggle();
        self.orderbook = None;
        self.token_id = None;
    }

    /// Another market is selected, and the snapshot and its token are
    /// dropped at once.
    pub fn select_market(&mut self, index: usize)
        ensures
            *final(self) == (OrderbookState {
                selected_market_index: index,
                orderbook: None,
                token_id: None,
                ..*old(self)
            }),
    {
        self.selected_market_index = index;
        self.orderbook = None;
        self.token_id = None;
    }

    /// A fetch has begun.
    pub fn begin_fetch(&mut self)
        ensures
            *final(self) == (OrderbookState { is_loading: true, ..*old(self) }),
    {
        self.is_loading = true;
    }

    /// A fetch has ended well: the snapshot replaces the one that was held,
    /// whole, the token is noted, and the moment is stamped. The selection
    /// stays. Whether the answer still belongs to the selection is for the
    /// caller to test by the token.
    pub fn complete_fetch(&mut self, data: OrderbookData, token_id: String)
        ensures
            final(self).orderbook == Some(data),
            final(self).token_id == Some(token_id),
            !final(self).is_loading,
            final(self).last_fetch is Some,
            final(self).selected_market_index == old(self).selected_market_index,
            final(self).selected_outcome == old(self).selected_outcome,
            final(self).last_height == old(self).last_height,
    {
        self.orderbook = Some(data);
        self.token_id = Some(token_id);
        self.is_loading = false;
        self.last_fetch = Some(instant_now());
    }

    /// Whether the snapshot is to be fetched again: no fetch has ended yet,
    /// or the last one ended five seconds ago or earlier. Of a fetch that
    /// has ended the answer is `is_stale` of the whole seconds that the
    /// clock has counted since.
    pub fn needs_refresh(&self) -> (r: bool)
        ensures
            self.last_fetch is None ==> r,
    {
        match &self.last_fetch {
            Some(last) => {
                let elapsed = instant_elapsed(last);
                is_stale(Some(duration_secs(&elapsed)))
            },
            None => is_stale(None),
        }
    }
}

impl Default for OrderbookState {
    fn default() -> (r: Self)
        ensures
            r.selected_market_index == 0,
            r.selected_outcome == OrderbookOutcome::Yes,
            r.orderbook is None,
            !r.is_loading,
            r.last_fetch is None,
            r.token_id is None,
            r.last_height == MIN_PANEL_HEIGHT,
    {
        OrderbookState::new()
    }
}

} // verus!
