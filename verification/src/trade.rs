//! Executed trades, the bounded log of one event's trades, and the state of
//! the order form.

use vstd::prelude::*;
use crate::decimal::{decimal_value, parse_decimal};
use crate::text::{chars_of, string_clear, string_pop, string_push};
use crate::units::{hundredths_of, round_to_hundredths, trade_value, value_of, PRICE_SCALE};

verus! {

/// The number of trades that the log of one event keeps.
pub const MAX_TRADES: usize = 500;

/// One message of the trade stream, as it arrives.
#[derive(Debug)]
pub struct TradeMessage {
    /// Seconds since the epoch.
    pub timestamp: i64,
    pub side: String,
    pub outcome: String,
    /// Price in millionths.
    pub price: u64,
    /// Size in millionths of a share.
    pub size: u64,
    pub title: String,
    pub asset: String,
    pub name: String,
    pub pseudonym: String,
}

/// One executed trade. It is built once from a message and never changed.
#[derive(Debug)]
pub struct Trade {
    /// Seconds since the epoch.
    pub timestamp: i64,
    pub side: String,
    pub outcome: String,
    /// Price in millionths.
    pub price: u64,
    /// Shares in hundredths.
    pub shares: u64,
    /// Price times shares, in hundred-millionths.
    pub total_value: u128,
    pub title: String,
    pub asset_id: String,
    pub user: String,
    pub pseudonym: String,
}

/// What a trade holds, with texts as sequences of characters.
pub struct TradeView {
    pub timestamp: i64,
    pub side: Seq<char>,
    pub outcome: Seq<char>,
    pub price: u64,
    pub shares: u64,
    pub total_value: u128,
    pub title: Seq<char>,
    pub asset_id: Seq<char>,
    pub user: Seq<char>,
    pub pseudonym: Seq<char>,
}

impl View for Trade {
    type V = TradeView;

    open spec fn view(&self) -> TradeView {
        TradeView {
            timestamp: self.timestamp,
            side: self.side@,
            outcome: self.outcome@,
            price: self.price,
            shares: self.shares,
            total_value: self.total_value,
            title: self.title@,
            asset_id: self.asset_id@,
            user: self.user@,
            pseudonym: self.pseudonym@,
        }
    }
}

impl TradeMessage {
    /// The trade that this message is recorded as: the size rounded to
    /// hundredths of a share, the value as price times the rounded size, and
    /// every other field as it arrived.
    pub open spec fn recorded(&self) -> TradeView {
        TradeView {
            timestamp: self.timestamp,
            side: self.side@,
            outcome: self.outcome@,
            price: self.price,
            shares: hundredths_of(self.size as nat) as u64,
            total_value: value_of(self.price as nat, hundredths_of(self.size as nat)) as u128,
            title: self.title@,
            asset_id: self.asset@,
            user: self.name@,
            pseudonym: self.pseudonym@,
        }
    }
}

/// The text that stands for a trader of whom neither name is known.
pub open spec fn unknown_trader() -> Seq<char> {
    "-"@
}

impl Trade {
    /// Builds the trade that a message is recorded as.
    pub fn from_message(msg: &TradeMessage) -> (t: Trade)
        ensures
            t@ == msg.recorded(),
    {
        let shares: u64 = round_to_hundredths(msg.size);
        Trade {
            timestamp: msg.timestamp,
            side: msg.side.clone(),
            outcome: msg.outcome.clone(),
            price: msg.price,
            shares,
            total_value: trade_value(msg.price, shares),
            title: msg.title.clone(),
            asset_id: msg.asset.clone(),
            user: msg.name.clone(),
            pseudonym: msg.pseudonym.clone(),
        }
    }

    /// The name under which the trader is shown: the user name, or the
    /// pseudonym where the user name is empty, or a dash where both are.
    pub open spec fn trader_name_text(t: TradeView) -> Seq<char> {
        if t.user.len() > 0 {
            t.user
        } else if t.pseudonym.len() > 0 {
            t.pseudonym
        } else {
            unknown_trader()
        }
    }

    /// The name under which the trader is shown: see `trader_name_text`.
    pub fn trader_name(&self) -> (r: &str)
        ensures
            r@ == Trade::trader_name_text(self@),
    {
        if !self.user.as_str().is_empty() {
            self.user.as_str()
        } else if !self.pseudonym.as_str().is_empty() {
            self.pseudonym.as_str()
        } else {
            "-"
        }
    }
}

/// A log after one more trade has arrived: the trade stands in front, and of
/// what is then longer than `MAX_TRADES` only the first `MAX_TRADES` stay.
pub open spec fn with_trade(log: Seq<TradeView>, t: TradeView) -> Seq<TradeView> {
    let all = seq![t] + log;
    if all.len() > MAX_TRADES {
        all.take(MAX_TRADES as int)
    } else {
        all
    }
}

/// A log after the trades of `arrivals` have arrived one by one, the first
/// of the sequence first.
pub open spec fn with_trades(log: Seq<TradeView>, arrivals: Seq<TradeView>) -> Seq<TradeView>
    decreases arrivals.len(),
{
    if arrivals.len() == 0 {
        log
    } else {
        with_trade(with_trades(log, arrivals.drop_last()), arrivals.last())
    }
}

/// The trades of one event, newest arrival first, and whether the event is
/// being watched.
#[derive(Debug)]
pub struct EventTrades {
    pub trades: Vec<Trade>,
    pub is_watching: bool,
}

/// What a log holds: the views of its trades, and the flag.
pub struct EventTradesView {
    pub trades: Seq<TradeView>,
    pub is_watching: bool,
}

impl View for EventTrades {
    type V = EventTradesView;

    open spec fn view(&self) -> EventTradesView {
        EventTradesView {
            trades: self.trades@.map_values(|t: Trade| t@),
            is_watching: self.is_watching,
        }
    }
}

impl EventTrades {
    /// A log keeps no more than `MAX_TRADES` trades.
    pub open spec fn is_bounded(&self) -> bool {
        self.trades@.len() <= MAX_TRADES
    }

    pub fn new() -> (r: Self)
        ensures
            r@.trades == Seq::<TradeView>::empty(),
            !r@.is_watching,
            r.is_bounded(),
    {
        let r = EventTrades { trades: Vec::new(), is_watching: false };
        assert(r@.trades =~= Seq::<TradeView>::empty());
        r
    }

    /// Records a message at the front of the log and drops what is then
    /// beyond the bound. Nothing is compared with what the log holds: a
    /// message that arrives twice is recorded twice.
    pub fn add_trade(&mut self, msg: &TradeMessage)
        ensures
            final(self)@.trades == with_trade(old(self)@.trades, msg.recorded()),
            final(self)@.is_watching == old(self)@.is_watching,
            final(self).is_bounded(),
    {
        let trade = Trade::from_message(msg);
        let ghost before = self.trades@;
        self.trades.insert(0, trade);
        assert(self.trades@.map_values(|t: Trade| t@) =~= seq![msg.recorded()] + before.map_values(
            |t: Trade| t@,
        ));
        if self.trades.len() > MAX_TRADES {
            let ghost longer = self.trades@;
            self.trades.truncate(MAX_TRADES);
            assert(self.trades@.map_values(|t: Trade| t@) =~= longer.map_values(|t: Trade| t@).take(
                MAX_TRADES as int,
            ));
        }
    }
}

/// After any number of arrivals a log of at most `MAX_TRADES` trades holds
/// the arrivals, last arrival first, in front of what it held before, cut
/// to `MAX_TRADES`.
pub proof fn lemma_with_trades(log: Seq<TradeView>, arrivals: Seq<TradeView>)
    requires
        log.len() <= MAX_TRADES,
    ensures
        with_trades(log, arrivals).len() == if arrivals.len() + log.len() > MAX_TRADES {
            MAX_TRADES as int
        } else {
            (arrivals.len() + log.len()) as int
        },
        with_trades(log, arrivals) == (arrivals.reverse() + log).take(
            with_trades(log, arrivals).len() as int,
        ),
    decreases arrivals.len(),
{
    if arrivals.len() == 0 {
        assert(arrivals.reverse() + log =~= log);
        assert(log.take(log.len() as int) =~= log);
    } else {
        let earlier = arrivals.drop_last();
        lemma_with_trades(log, earlier);
        let inner = with_trades(log, earlier);
        let all = seq![arrivals.last()] + inner;
        let n = with_trades(log, arrivals).len() as int;
        assert(with_trades(log, arrivals) =~= (arrivals.reverse() + log).take(n)) by {
            assert forall|i: int| 0 <= i < n implies with_trades(log, arrivals)[i] == (
            arrivals.reverse() + log)[i] by {
                if i > 0 {
                    assert(with_trades(log, arrivals)[i] == inner[i - 1]);
                    assert(inner[i - 1] == (earlier.reverse() + log)[i - 1]);
                }
            }
        }
    }
}

/// Bounded history: after more than `MAX_TRADES` arrivals the log holds
/// exactly `MAX_TRADES` trades, and they are the most recent arrivals, the
/// last of them in front.
pub proof fn lemma_bounded_history(log: Seq<TradeView>, arrivals: Seq<TradeView>)
    requires
        log.len() <= MAX_TRADES,
        arrivals.len() > MAX_TRADES,
    ensures
        with_trades(log, arrivals).len() == MAX_TRADES,
        forall|i: int|
            0 <= i < MAX_TRADES ==> #[trigger] with_trades(log, arrivals)[i] == arrivals[arrivals.len()
                - 1 - i],
{
    lemma_with_trades(log, arrivals);
}

/// Arrival order: while the bound is not reached the log holds every
/// arrival, in the reverse of the order of arrival and whatever the time
/// stamps of the trades say, in front of what it held before.
pub proof fn lemma_arrival_order(log: Seq<TradeView>, arrivals: Seq<TradeView>)
    requires
        arrivals.len() + log.len() <= MAX_TRADES,
    ensures
        with_trades(log, arrivals) == arrivals.reverse() + log,
        forall|i: int|
            0 <= i < arrivals.len() ==> #[trigger] with_trades(log, arrivals)[i] == arrivals[arrivals.len()
                - 1 - i],
{
    lemma_with_trades(log, arrivals);
    assert((arrivals.reverse() + log).take((arrivals.len() + log.len()) as int) =~= arrivals.reverse()
        + log);
}


/// The side of an order.
#[derive(Debug, Clone, Copy, PartialEq, Eq, Structural)]
pub enum TradeSide {
    Buy,
    Sell,
}

impl TradeSide {
    /// The other side.
    pub open spec fn other(self) -> TradeSide {
        match self {
            TradeSide::Buy => TradeSide::Sell,
            TradeSide::Sell => TradeSide::Buy,
        }
    }

    /// The text shown for this side.
    pub open spec fn label_text(self) -> Seq<char> {
        match self {
            TradeSide::Buy => "BUY"@,
            TradeSide::Sell => "SELL"@,
        }
    }

    pub fn toggle(&self) -> (r: Self)
        ensures
            r == self.other(),
    {
        match self {
            TradeSide::Buy => TradeSide::Sell,
            TradeSide::Sell => TradeSide::Buy,
        }
    }

    pub fn label(&self) -> (r: &'static str)
        ensures
            r@ == self.label_text(),
    {
        match self {
            TradeSide::Buy => "BUY",
            TradeSide::Sell => "SELL",
        }
    }
}

/// The type of an order: at a price that the user names, or at the market.
#[derive(Debug, Clone, Copy, PartialEq, Eq, Structural)]
pub enum OrderType {
    Limit,
    Market,
}

impl Default for OrderType {
    fn default() -> (r: Self)
        ensures
            r == OrderType::Limit,
    {
        OrderType::Limit
    }
}

impl OrderType {
    /// The other type.
    pub open spec fn other(self) -> OrderType {
        match self {
            OrderType::Limit => OrderType::Market,
            OrderType::Market => OrderType::Limit,
        }
    }

    /// The text shown for this type.
    pub open spec fn label_text(self) -> Seq<char> {
        match self {
            OrderType::Limit => "LIMIT"@,
            OrderType::Market => "MARKET"@,
        }
    }

    /// The field in which the pointer stands after a switch to this type.
    pub open spec fn first_field(self) -> TradeField {
        match self {
            OrderType::Limit => TradeField::Shares,
            OrderType::Market => TradeField::Amount,
        }
    }

    pub fn toggle(&self) -> (r: Self)
        ensures
            r == self.other(),
    {
        match self {
            OrderType::Limit => OrderType::Market,
            OrderType::Market => OrderType::Limit,
        }
    }

    pub fn label(&self) -> (r: &'static str)
        ensures
            r@ == self.label_text(),
    {
        match self {
            OrderType::Limit => "LIMIT",
            OrderType::Market => "MARKET",
        }
    }

    /// Switching twice returns to the same side and to the same type.
    pub proof fn lemma_toggles_are_involutions(side: TradeSide, order_type: OrderType)
        ensures
            side.other().other() == side,
            order_type.other().other() == order_type,
    {
    }
}

/// The field of the order form that is being edited.
#[derive(Debug, Clone, Copy, PartialEq, Eq, Structural)]
pub enum TradeField {
    OrderType,
    LimitPrice,
    Shares,
    Amount,
}

impl TradeField {
    /// The field belongs to the form of an order of this type: a limit order
    /// has type, price and shares, a market order type and amount.
    pub open spec fn belongs_to(self, order_type: OrderType) -> bool {
        match order_type {
            OrderType::Limit => self != TradeField::Amount,
            OrderType::Market => self == TradeField::OrderType || self == TradeField::Amount,
        }
    }

    /// The field below this one in the form of an order of this type; the
    /// last is followed by the first, and so is a field of the other form.
    pub open spec fn successor(self, order_type: OrderType) -> TradeField {
        match order_type {
            OrderType::Limit => match self {
                TradeField::OrderType => TradeField::LimitPrice,
                TradeField::LimitPrice => TradeField::Shares,
                TradeField::Shares => TradeField::OrderType,
                TradeField::Amount => TradeField::OrderType,
            },
            OrderType::Market => match self {
                TradeField::OrderType => TradeField::Amount,
                TradeField::Amount => TradeField::OrderType,
                TradeField::LimitPrice => TradeField::OrderType,
                TradeField::Shares => TradeField::OrderType,
            },
        }
    }

    /// The field above this one in the form of an order of this type; the
    /// first is preceded by the last. From the amount, which a limit order
    /// has not, the way up leads to the shares; from the price or the shares,
    /// which a market order has not, to the type.
    pub open spec fn predecessor(self, order_type: OrderType) -> TradeField {
        match order_type {
            OrderType::Limit => match self {
                TradeField::OrderType => TradeField::Shares,
                TradeField::LimitPrice => TradeField::OrderType,
                TradeField::Shares => TradeField::LimitPrice,
                TradeField::Amount => TradeField::Shares,
            },
            OrderType::Market => match self {
                TradeField::OrderType => TradeField::Amount,
                TradeField::Amount => TradeField::OrderType,
                TradeField::LimitPrice => TradeField::OrderType,
                TradeField::Shares => TradeField::OrderType,
            },
        }
    }

    pub fn next(&self, order_type: OrderType) -> (r: Self)
        ensures
            r == self.successor(order_type),
    {
        match order_type {
            OrderType::Limit => match self {
                TradeField::OrderType => TradeField::LimitPrice,
                TradeField::LimitPrice => TradeField::Shares,
                TradeField::Shares => TradeField::OrderType,
                TradeField::Amount => TradeField::OrderType,
            },
            OrderType::Market => match self {
                TradeField::OrderType => TradeField::Amount,
                TradeField::Amount => TradeField::OrderType,
                TradeField::LimitPrice => TradeField::OrderType,
                TradeField::Shares => TradeField::OrderType,
            },
        }
    }

    pub fn prev(&self, order_type: OrderType) -> (r: Self)
        ensures
            r == self.predecessor(order_type),
    {
        match order_type {
            OrderType::Limit => match self {
                TradeField::OrderType => TradeField::Shares,
                TradeField::LimitPrice => TradeField::OrderType,
                TradeField::Shares => TradeField::LimitPrice,
                TradeField::Amount => TradeField::Shares,
            },
            OrderType::Market => match self {
                TradeField::OrderType => TradeField::Amount,
                TradeField::Amount => TradeField::OrderType,
                TradeField::LimitPrice => TradeField::OrderType,
                TradeField::Shares => TradeField::OrderType,
            },
        }
    }

    /// Within the form of one type of order the pointer stays in that form,
    /// and a step down and a step up undo each other.
    pub proof fn lemma_fields_cycle(field: TradeField, order_type: OrderType)
        ensures
            field.successor(order_type).belongs_to(order_type),
            field.predecessor(order_type).belongs_to(order_type),
            field.belongs_to(order_type) ==> field.successor(order_type).predecessor(order_type)
                == field,
            field.belongs_to(order_type) ==> field.predecessor(order_type).successor(order_type)
                == field,
    {
    }
}

/// One outcome of the market of the order form: its name, its token and its
/// price in millionths.
#[derive(Debug)]
pub struct OutcomeInfo {
    pub name: String,
    pub token_id: String,
    pub price: u64,
}

/// The price, in millionths, that the form proposes where the selected
/// outcome is not known: one half.
pub const DEFAULT_PRICE: u64 = 500_000;

/// One step of the limit price, in millionths: a thousandth.
pub const PRICE_STEP: u64 = 1_000;

/// A price rounded to the nearest thousandth, a price halfway between two
/// going up; the largest thousandth that the machine word holds where the
/// nearest does not fit.
pub open spec fn to_thousandths(price: u64) -> u64 {
    let steps = (price + 500) / 1_000;
    let most = u64::MAX / 1_000;
    (if steps <= most {
        steps * 1_000
    } else {
        most * 1_000
    }) as u64
}

/// The limit price after one step up: a thousandth more, at most 1.
pub open spec fn price_stepped_up(price: u64) -> u64 {
    to_thousandths(
        if price + PRICE_STEP >= PRICE_SCALE {
            PRICE_SCALE
        } else {
            (price + PRICE_STEP) as u64
        },
    )
}

/// The limit price after one step down: a thousandth less, at least a
/// thousandth.
pub open spec fn price_stepped_down(price: u64) -> u64 {
    to_thousandths(
        if price <= 2 * PRICE_STEP {
            PRICE_STEP
        } else {
            (price - PRICE_STEP) as u64
        },
    )
}

/// Rounds a price to thousandths: see `to_thousandths`.
pub fn round_to_thousandths(price: u64) -> (r: u64)
    ensures
        r == to_thousandths(price),
{
    let whole: u64 = price / PRICE_STEP;
    let steps: u64 = if price % PRICE_STEP >= PRICE_STEP / 2 && whole < u64::MAX / PRICE_STEP {
        whole + 1
    } else {
        whole
    };
    steps * PRICE_STEP
}

/// A character may be typed into a number that reads `text` so far: a
/// digit always, a point where the number has none yet.
pub open spec fn may_type(text: Seq<char>, c: char) -> bool {
    ('0' <= c && c <= '9') || (c == '.' && !text.contains('.'))
}

/// The millionths that a typed number stands for; nothing where the text is
/// no decimal number or does not fit the machine word.
pub open spec fn typed_amount(text: Seq<char>) -> u64 {
    match decimal_value(text) {
        Some(v) => v,
        None => 0,
    }
}

/// The cost, in millionths of a dollar and rounded down, of shares in
/// millionths at a price in millionths.
pub open spec fn limit_cost(shares: u64, price: u64) -> nat {
    (shares as nat * price as nat) / 1_000_000
}

/// The shares, in millionths and rounded down, that an amount in
/// millionths of a dollar buys at a price in millionths; none at no price.
pub open spec fn shares_for(amount: u64, price: u64) -> nat {
    if price > 0 {
        (amount as nat * 1_000_000) / (price as nat)
    } else {
        0
    }
}

/// What an order may gain, in millionths of a dollar. A purchase gains the
/// dollar that each share pays, less what is paid: for a limit order the
/// shares less their cost, for a market order the shares that the amount
/// buys less the amount. A sale gains its proceeds: the cost of the shares
/// of a limit order, the amount of a market order.
pub open spec fn profit_of(
    order_type: OrderType,
    side: TradeSide,
    shares: u64,
    amount: u64,
    limit_price: u64,
    ask: u64,
) -> int {
    match order_type {
        OrderType::Limit => match side {
            TradeSide::Buy => shares - limit_cost(shares, limit_price),
            TradeSide::Sell => limit_cost(shares, limit_price) as int,
        },
        OrderType::Market => match side {
            TradeSide::Buy => shares_for(amount, ask) - amount,
            TradeSide::Sell => amount as int,
        },
    }
}

/// The state of the order form.
#[derive(Debug)]
pub struct TradeFormState {
    pub market_question: String,
    pub outcomes: Vec<OutcomeInfo>,
    pub selected_outcome_idx: usize,
    pub side: TradeSide,
    pub order_type: OrderType,
    /// The limit price, in millionths.
    pub limit_price: u64,
    /// The number of shares of a limit order, as typed.
    pub shares: String,
    /// The amount in dollars of a market order, as typed.
    pub amount: String,
    pub active_field: TradeField,
    pub error_message: Option<String>,
    pub is_submitting: bool,
}

impl TradeFormState {
    /// The price of the selected outcome, or one half where the selection
    /// lies beyond the outcomes.
    pub open spec fn ask(&self) -> u64 {
        if self.selected_outcome_idx < self.outcomes@.len() {
            self.outcomes@[self.selected_outcome_idx as int].price
        } else {
            DEFAULT_PRICE
        }
    }

    pub fn new(market_question: String, outcomes: Vec<OutcomeInfo>, selected_idx: usize) -> (r:
        Self)
        ensures
            r.market_question == market_question,
            r.outcomes == outcomes,
            r.selected_outcome_idx == selected_idx,
            r.side == TradeSide::Buy,
            r.order_type == OrderType::Limit,
            r.limit_price == r.ask(),
            r.shares@ == Seq::<char>::empty(),
            r.amount@ == Seq::<char>::empty(),
            r.active_field == TradeField::Shares,
            r.error_message is None,
            !r.is_submitting,
    {
        let initial_price: u64 = if selected_idx < outcomes.len() {
            outcomes[selected_idx].price
        } else {
            DEFAULT_PRICE
        };
        TradeFormState {
            market_question,
            outcomes,
            selected_outcome_idx: selected_idx,
            side: TradeSide::Buy,
            order_type: OrderType::Limit,
            limit_price: initial_price,
            shares: String::new(),
            amount: String::new(),
            active_field: TradeField::Shares,
            error_message: None,
            is_submitting: false,
        }
    }

    /// The selected outcome, if the selection lies among the outcomes.
    pub fn selected_outcome(&self) -> (r: Option<&OutcomeInfo>)
        ensures
            r is Some <==> self.selected_outcome_idx < self.outcomes@.len(),
            r matches Some(o) ==> *o == self.outcomes@[self.selected_outcome_idx as int],
    {
        if self.selected_outcome_idx < self.outcomes.len() {
            Some(&self.outcomes[self.selected_outcome_idx])
        } else {
            None
        }
    }

    /// The token of the selected outcome.
    pub fn token_id(&self) -> (r: Option<&str>)
        ensures
            r is Some <==> self.selected_outcome_idx < self.outcomes@.len(),
            r matches Some(t) ==> t@ == self.outcomes@[self.selected_outcome_idx as int].token_id@,
    {
        match self.selected_outcome() {
            Some(o) => Some(o.token_id.as_str()),
            None => None,
        }
    }

    /// The name of the selected outcome, or "Unknown".
    pub fn outcome_name(&self) -> (r: &str)
        ensures
            r@ == (if self.selected_outcome_idx < self.outcomes@.len() {
                self.outcomes@[self.selected_outcome_idx as int].name@
            } else {
                "Unknown"@
            }),
    {
        match self.selected_outcome() {
            Some(o) => o.name.as_str(),
            None => "Unknown",
        }
    }

    /// The price of the selected outcome: see `ask`.
    pub fn best_ask(&self) -> (r: u64)
        ensures
            r == self.ask(),
    {
        match self.selected_outcome() {
            Some(o) => o.price,
            None => DEFAULT_PRICE,
        }
    }

    /// Selects another outcome: the limit price becomes its price and the
    /// error is cleared. An index beyond the outcomes, or that of the
    /// selected outcome, changes nothing.
    pub fn select_outcome(&mut self, idx: usize)
        ensures
            idx < old(self).outcomes@.len() && idx != old(self).selected_outcome_idx ==> *final(self) == (TradeFormState {
                selected_outcome_idx: idx,
                limit_price: old(self).outcomes@[idx as int].price,
                error_message: None,
                ..*old(self)
            }),
            !(idx < old(self).outcomes@.len() && idx != old(self).selected_outcome_idx) ==> *final(self) == *old(self),
    {
        if idx < self.outcomes.len() && idx != self.selected_outcome_idx {
            self.selected_outcome_idx = idx;
            self.limit_price = self.outcomes[idx].price;
            self.error_message = None;
        }
    }

    /// Types a character into the number that is being edited, the shares
    /// or the amount, if the number may take it, and clears the error.
    pub fn add_char(&mut self, c: char)
        ensures
            final(self).shares@ == (if old(self).active_field == TradeField::Shares && may_type(
                old(self).shares@,
                c,
            ) {
                old(self).shares@.push(c)
            } else {
                old(self).shares@
            }),
            final(self).amount@ == (if old(self).active_field == TradeField::Amount && may_type(
                old(self).amount@,
                c,
            ) {
                old(self).amount@.push(c)
            } else {
                old(self).amount@
            }),
            *final(self) == (TradeFormState {
                shares: final(self).shares,
                amount: final(self).amount,
                error_message: None,
                ..*old(self)
            }),
    {
        let is_digit: bool = '0' <= c && c <= '9';
        match self.active_field {
            TradeField::Shares => {
                if is_digit || (c == '.' && !has_point(self.shares.as_str())) {
                    string_push(&mut self.shares, c);
                }
            },
            TradeField::Amount => {
                if is_digit || (c == '.' && !has_point(self.amount.as_str())) {
                    string_push(&mut self.amount, c);
                }
            },
            _ => {},
        }
        self.error_message = None;
    }

    /// Removes the last character of the number that is being edited, if it
    /// has one, and clears the error.
    pub fn delete_char(&mut self)
        ensures
            final(self).shares@ == (if old(self).active_field == TradeField::Shares && old(self).shares@.len() > 0 {
                old(self).shares@.drop_last()
            } else {
                old(self).shares@
            }),
            final(self).amount@ == (if old(self).active_field == TradeField::Amount && old(self).amount@.len() > 0 {
                old(self).amount@.drop_last()
            } else {
                old(self).amount@
            }),
            *final(self) == (TradeFormState {
                shares: final(self).shares,
                amount: final(self).amount,
                error_message: None,
                ..*old(self)
            }),
    {
        match self.active_field {
            TradeField::Shares => {
                string_pop(&mut self.shares);
            },
            TradeField::Amount => {
                string_pop(&mut self.amount);
            },
            _ => {},
        }
        self.error_message = None;
    }

    /// Switches the side and clears the error.
    pub fn toggle_side(&mut self)
        ensures
            *final(self) == (TradeFormState {
                side: old(self).side.other(),
                error_message: None,
                ..*old(self)
            }),
    {
        self.side = self.side.toggle();
        self.error_message = None;
    }

    /// Switches the type of order, puts the pointer into the first number
    /// of its form and clears the error.
    pub fn toggle_order_type(&mut self)
        ensures
            *final(self) == (TradeFormState {
                order_type: old(self).order_type.other(),
                active_field: old(self).order_type.other().first_field(),
                error_message: None,
                ..*old(self)
            }),
    {
        self.order_type = self.order_type.toggle();
        self.active_field = match self.order_type {
            OrderType::Limit => TradeField::Shares,
            OrderType::Market => TradeField::Amount,
        };
        self.error_message = None;
    }

    /// Raises the limit price by a thousandth, at most to 1, and clears the
    /// error.
    pub fn increment_limit_price(&mut self)
        ensures
            *final(self) == (TradeFormState {
                limit_price: price_stepped_up(old(self).limit_price),
                error_message: None,
                ..*old(self)
            }),
    {
        let raised: u64 = if self.limit_price >= PRICE_SCALE - PRICE_STEP {
            PRICE_SCALE
        } else {
            self.limit_price + PRICE_STEP
        };
        self.limit_price = round_to_thousandths(raised);
        self.error_message = None;
    }

    /// Lowers the limit price by a thousandth, at least to a thousandth, and
    /// clears the error.
    pub fn decrement_limit_price(&mut self)
        ensures
            *final(self) == (TradeFormState {
                limit_price: price_stepped_down(old(self).limit_price),
                error_message: None,
                ..*old(self)
            }),
    {
        let lowered: u64 = if self.limit_price <= 2 * PRICE_STEP {
            PRICE_STEP
        } else {
            self.limit_price - PRICE_STEP
        };
        self.limit_price = round_to_thousandths(lowered);
        self.error_message = None;
    }

    /// Moves the pointer to the field below.
    pub fn next_field(&mut self)
        ensures
            *final(self) == (TradeFormState {
                active_field: old(self).active_field.successor(old(self).order_type),
                ..*old(self)
            }),
    {
        self.active_field = self.active_field.next(self.order_type);
    }

    /// Moves the pointer to the field above.
    pub fn prev_field(&mut self)
        ensures
            *final(self) == (TradeFormState {
                active_field: old(self).active_field.predecessor(old(self).order_type),
                ..*old(self)
            }),
    {
        self.active_field = self.active_field.prev(self.order_type);
    }

    /// The number of shares as typed, in millionths; nothing where the text
    /// is no decimal number or does not fit.
    pub fn shares_f64(&self) -> (r: u64)
        ensures
            r == typed_amount(self.shares@),
    {
        match parse_decimal(self.shares.as_str()) {
            Some(v) => v,
            None => 0,
        }
    }

    /// The amount as typed, in millionths of a dollar; nothing where the
    /// text is no decimal number or does not fit.
    pub fn amount_f64(&self) -> (r: u64)
        ensures
            r == typed_amount(self.amount@),
    {
        match parse_decimal(self.amount.as_str()) {
            Some(v) => v,
            None => 0,
        }
    }

    /// The cost of a limit order, in millionths of a dollar: see
    /// `limit_cost`.
    pub fn total_cost(&self) -> (r: u128)
        ensures
            r == limit_cost(typed_amount(self.shares@), self.limit_price),
    {
        let shares: u64 = self.shares_f64();
        assert(shares as nat * self.limit_price as nat <= u128::MAX) by (nonlinear_arith)
            requires
                shares <= u64::MAX,
                self.limit_price <= u64::MAX,
        ;
        (shares as u128) * (self.limit_price as u128) / (PRICE_SCALE as u128)
    }

    /// The shares that a market order is expected to buy, in millionths:
    /// see `shares_for`.
    pub fn estimated_shares(&self) -> (r: u128)
        ensures
            r == shares_for(typed_amount(self.amount@), self.ask()),
    {
        let amount: u64 = self.amount_f64();
        let best_ask: u64 = self.best_ask();
        if best_ask > 0 {
            assert(amount as nat * 1_000_000 <= u128::MAX);
            (amount as u128) * (PRICE_SCALE as u128) / (best_ask as u128)
        } else {
            0
        }
    }

    /// What the order may gain, in millionths of a dollar: see `profit_of`.
    pub fn potential_profit(&self) -> (r: i128)
        ensures
            r == profit_of(
                self.order_type,
                self.side,
                typed_amount(self.shares@),
                typed_amount(self.amount@),
                self.limit_price,
                self.ask(),
            ),
    {
        match self.order_type {
            OrderType::Limit => {
                let shares: u64 = self.shares_f64();
                let cost: u128 = self.total_cost();
                assert(cost <= shares as nat * self.limit_price as nat);
                assert(shares as nat * self.limit_price as nat <= 0x1_0000_0000_0000_0000
                    * 0x1_0000_0000_0000_0000) by (nonlinear_arith)
                    requires
                        shares <= u64::MAX,
                        self.limit_price <= u64::MAX,
                ;
                match self.side {
                    TradeSide::Buy => (shares as i128) - (cost as i128),
                    TradeSide::Sell => cost as i128,
                }
            },
            OrderType::Market => {
                let shares: u128 = self.estimated_shares();
                let amount: u64 = self.amount_f64();
                assert(shares <= amount as nat * 1_000_000);
                match self.side {
                    TradeSide::Buy => (shares as i128) - (amount as i128),
                    TradeSide::Sell => amount as i128,
                }
            },
        }
    }

    /// Puts the form back as it is first shown for the selected outcome.
    pub fn clear(&mut self)
        ensures
            final(self).shares@ == Seq::<char>::empty(),
            final(self).amount@ == Seq::<char>::empty(),
            *final(self) == (TradeFormState {
                shares: final(self).shares,
                amount: final(self).amount,
                limit_price: old(self).ask(),
                side: TradeSide::Buy,
                order_type: OrderType::Limit,
                active_field: TradeField::Shares,
                error_message: None,
                is_submitting: false,
                ..*old(self)
            }),
    {
        string_clear(&mut self.shares);
        string_clear(&mut self.amount);
        self.limit_price = self.best_ask();
        self.side = TradeSide::Buy;
        self.order_type = OrderType::Limit;
        self.active_field = TradeField::Shares;
        self.error_message = None;
        self.is_submitting = false;
    }
}

/// Whether a text holds a point.
pub fn has_point(s: &str) -> (r: bool)
    ensures
        r == s@.contains('.'),
{
    let chars = chars_of(s);
    let mut i: usize = 0;
    while i < chars.len()
        invariant
            0 <= i <= chars.len(),
            chars@ == s@,
            forall|j: int| 0 <= j < i ==> s@[j] != '.',
        decreases chars.len() - i,
    {
        if chars[i] == '.' {
            assert(s@[i as int] == '.');
            return true;
        }
        i = i + 1;
    }
    false
}

} // verus!
