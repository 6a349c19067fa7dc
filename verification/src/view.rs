//! What the panels show, decided from the state: which tab is marked, how
//! far a panel is scrolled, in which order markets are listed, which price
//! and which name stands for a market. The drawing itself is left to the
//! caller.

use vstd::prelude::*;
use crate::market::{Event, EventView, Market, MarketView};
use crate::navigation::{EventFilter, MainTab};
use crate::seq_facts::{lemma_filter_push, lemma_take_next};
use crate::text::{chars_of, string_push};

verus! {

/// The place of the marked tab in the header, which lists the events, the
/// favorites, the breaking events and the yields.
pub open spec fn tab_place(main_tab: MainTab, event_filter: EventFilter) -> usize {
    match main_tab {
        MainTab::Trending => match event_filter {
            EventFilter::Trending => 0,
            EventFilter::Breaking => 2,
        },
        MainTab::Favorites => 1,
        MainTab::Yield => 3,
    }
}

/// The place of the marked tab: see `tab_place`.
pub fn tab_index(main_tab: MainTab, event_filter: EventFilter) -> (r: usize)
    ensures
        r == tab_place(main_tab, event_filter),
{
    match main_tab {
        MainTab::Trending => match event_filter {
            EventFilter::Trending => 0,
            EventFilter::Breaking => 2,
        },
        MainTab::Favorites => 1,
        MainTab::Yield => 3,
    }
}

/// What is known of the two services together.
#[derive(Debug, Clone, Copy, PartialEq, Eq, Structural)]
pub enum ApiHealth {
    /// Both answer.
    Healthy,
    /// One of the two answers.
    Degraded,
    /// Neither answers.
    Down,
    /// Of one of them nothing is known.
    Unknown,
}

/// The health of the two services together.
pub fn api_health(gamma: Option<bool>, data: Option<bool>) -> (r: ApiHealth)
    ensures
        r == (match (gamma, data) {
            (Some(true), Some(true)) => ApiHealth::Healthy,
            (Some(false), Some(false)) => ApiHealth::Down,
            (Some(_), Some(_)) => ApiHealth::Degraded,
            _ => ApiHealth::Unknown,
        }),
{
    match (gamma, data) {
        (Some(true), Some(true)) => ApiHealth::Healthy,
        (Some(false), Some(false)) => ApiHealth::Down,
        (Some(_), Some(_)) => ApiHealth::Degraded,
        _ => ApiHealth::Unknown,
    }
}

/// Half a cent, in millionths of a dollar: a smaller gain or loss is shown
/// as none.
pub const PNL_ZERO_BAND: i64 = 5_000;

/// How a gain or loss is shown.
#[derive(Debug, Clone, Copy, PartialEq, Eq, Structural)]
pub enum PnlSign {
    Zero,
    Gain,
    Loss,
}

/// How an amount in millionths of a dollar is shown: as none within half a
/// cent of nothing, else as gain or loss.
pub fn pnl_sign(value: i128) -> (r: PnlSign)
    ensures
        r == (if -PNL_ZERO_BAND < value < PNL_ZERO_BAND {
            PnlSign::Zero
        } else if value > 0 {
            PnlSign::Gain
        } else {
            PnlSign::Loss
        }),
{
    if -(PNL_ZERO_BAND as i128) < value && value < PNL_ZERO_BAND as i128 {
        PnlSign::Zero
    } else if value > 0 {
        PnlSign::Gain
    } else {
        PnlSign::Loss
    }
}

/// The sum of two optional amounts, an unknown one counting as nothing, or
/// `None` where neither is known.
pub fn total_of(a: Option<u64>, b: Option<u64>) -> (r: Option<u128>)
    ensures
        r == (if a is None && b is None {
            None
        } else {
            Some(
                ((match a {
                    Some(x) => x,
                    None => 0,
                }) + (match b {
                    Some(y) => y,
                    None => 0,
                })) as u128,
            )
        }),
{
    if a.is_none() && b.is_none() {
        None
    } else {
        let x: u64 = match a {
            Some(x) => x,
            None => 0,
        };
        let y: u64 = match b {
            Some(y) => y,
            None => 0,
        };
        Some(x as u128 + y as u128)
    }
}

/// The sum of two optional gains or losses, an unknown one counting as
/// nothing, or `None` where neither is known.
pub fn pnl_total(unrealized: Option<i64>, realized: Option<i64>) -> (r: Option<i128>)
    ensures
        r == (if unrealized is None && realized is None {
            None
        } else {
            Some(
                ((match unrealized {
                    Some(x) => x,
                    None => 0,
                }) + (match realized {
                    Some(y) => y,
                    None => 0,
                })) as i128,
            )
        }),
{
    if unrealized.is_none() && realized.is_none() {
        None
    } else {
        let x: i64 = match unrealized {
            Some(x) => x,
            None => 0,
        };
        let y: i64 = match realized {
            Some(y) => y,
            None => 0,
        };
        Some(x as i128 + y as i128)
    }
}

/// The farthest that a list of `total` rows scrolls in a window of
/// `visible` rows: so far that the last row is the last of the window, a
/// window without rows counting as one of one row.
pub open spec fn max_scroll(total: nat, visible: nat) -> nat {
    let window = if visible >= 1 {
        visible
    } else {
        1
    };
    if total >= window {
        (total - window) as nat
    } else {
        0
    }
}

/// A scroll offset held within what the list allows.
pub open spec fn clamped(scroll: nat, total: nat, visible: nat) -> nat {
    if scroll <= max_scroll(total, visible) {
        scroll
    } else {
        max_scroll(total, visible)
    }
}

/// Holds a scroll offset within what the list allows: see `clamped`.
pub fn clamp_scroll(scroll: usize, total: usize, visible: usize) -> (r: usize)
    ensures
        r == clamped(scroll as nat, total as nat, visible as nat),
{
    let window: usize = if visible >= 1 {
        visible
    } else {
        1
    };
    let most: usize = if total >= window {
        total - window
    } else {
        0
    };
    if scroll <= most {
        scroll
    } else {
        most
    }
}

/// The scroll offset of the log panel when it is drawn with `visible` rows.
/// A panel that is not focused follows the newest message when it shows
/// the end of the log, and shows the log from its start while all of it
/// fits; a focused panel is held within what the log allows.
pub open spec fn settled_scroll(scroll: nat, count: nat, visible: nat, focused: bool) -> nat {
    if focused {
        clamped(scroll, count, visible)
    } else if count > visible {
        if scroll + visible + 1 >= count {
            (count - visible) as nat
        } else {
            scroll
        }
    } else {
        0
    }
}

/// The scroll offset of the log panel when it is drawn: see
/// `settled_scroll`.
pub fn settle_log_scroll(scroll: usize, count: usize, visible: usize, focused: bool) -> (r: usize)
    ensures
        r == settled_scroll(scroll as nat, count as nat, visible as nat, focused),
{
    if focused {
        clamp_scroll(scroll, count, visible)
    } else if count > visible {
        let at_end: bool = scroll >= count - visible - 1;
        if at_end {
            count - visible
        } else {
            scroll
        }
    } else {
        0
    }
}

/// The weight of a log message.
#[derive(Debug, Clone, Copy, PartialEq, Eq, Structural)]
pub enum LogLevel {
    Warn,
    Error,
    Other,
}

/// A text begins with another.
pub open spec fn has_prefix(s: Seq<char>, prefix: Seq<char>) -> bool {
    prefix.len() <= s.len() && s.take(prefix.len() as int) == prefix
}

/// Whether a text begins with another.
pub fn starts_with(s: &str, prefix: &str) -> (r: bool)
    ensures
        r == has_prefix(s@, prefix@),
{
    let x = chars_of(s);
    let p = chars_of(prefix);
    if p.len() > x.len() {
        return false;
    }
    let mut i: usize = 0;
    while i < p.len()
        invariant
            x@ == s@,
            p@ == prefix@,
            p.len() <= x.len(),
            0 <= i <= p.len(),
            forall|j: int| 0 <= j < i ==> s@[j] == prefix@[j],
        decreases p.len() - i,
    {
        if x[i] != p[i] {
            assert(s@.take(prefix@.len() as int)[i as int] != prefix@[i as int]);
            return false;
        }
        i = i + 1;
    }
    assert(s@.take(prefix@.len() as int) =~= prefix@);
    true
}

/// The weight of a log message, read from the level with which it begins.
pub fn log_level(line: &str) -> (r: LogLevel)
    ensures
        r == (if has_prefix(line@, "[WARN]"@) {
            LogLevel::Warn
        } else if has_prefix(line@, "[ERROR]"@) {
            LogLevel::Error
        } else {
            LogLevel::Other
        }),
{
    if starts_with(line, "[WARN]") {
        LogLevel::Warn
    } else if starts_with(line, "[ERROR]") {
        LogLevel::Error
    } else {
        LogLevel::Other
    }
}

/// A text cut into runs of `width` characters; the last run holds what is
/// left.
pub open spec fn runs_of(s: Seq<char>, width: nat) -> Seq<Seq<char>>
    decreases s.len(),
{
    if width == 0 || s.len() == 0 {
        Seq::empty()
    } else if s.len() <= width {
        seq![s]
    } else {
        seq![s.take(width as int)] + runs_of(s.skip(width as int), width)
    }
}

/// Cuts a text into runs of `width` characters: see `runs_of`.
pub fn cut_into_runs(s: &str, width: usize) -> (r: Vec<String>)
    ensures
        r@.map_values(|t: String| t@) == runs_of(s@, width as nat),
{
    let chars = chars_of(s);
    let mut out: Vec<String> = Vec::new();
    if width == 0 {
        assert(out@.map_values(|t: String| t@) =~= runs_of(s@, 0));
        return out;
    }
    let mut i: usize = 0;
    assert(s@.skip(0) =~= s@);
    assert(out@.map_values(|t: String| t@) + runs_of(s@, width as nat) =~= runs_of(
        s@,
        width as nat,
    ));
    while i < chars.len()
        invariant
            chars@ == s@,
            width > 0,
            0 <= i <= chars.len(),
            out@.map_values(|t: String| t@) + runs_of(s@.skip(i as int), width as nat) == runs_of(
                s@,
                width as nat,
            ),
        decreases chars.len() - i,
    {
        let rest: usize = chars.len() - i;
        let take: usize = if rest <= width {
            rest
        } else {
            width
        };
        let ghost tail = s@.skip(i as int);
        let mut run = String::new();
        let mut k: usize = 0;
        while k < take
            invariant
                chars@ == s@,
                0 <= i,
                i + take <= chars.len(),
                0 <= k <= take,
                tail == s@.skip(i as int),
                run@ == tail.take(k as int),
            decreases take - k,
        {
            string_push(&mut run, chars[i + k]);
            assert(run@ =~= tail.take(k + 1));
            k = k + 1;
        }
        let ghost before = out@;
        out.push(run);
        proof {
            assert(out@.map_values(|t: String| t@) =~= before.map_values(|t: String| t@).push(run@));
            assert(tail.skip(take as int) =~= s@.skip(i + take));
            if rest <= width {
                assert(tail.take(take as int) =~= tail);
                assert(runs_of(s@.skip(i + take), width as nat) =~= Seq::<Seq<char>>::empty());
                assert(runs_of(tail, width as nat) =~= seq![tail]);
            }
            assert(before.map_values(|t: String| t@).push(run@) + runs_of(
                s@.skip(i + take),
                width as nat,
            ) =~= before.map_values(|t: String| t@) + runs_of(tail, width as nat));
        }
        i = i + take;
    }
    assert(runs_of(s@.skip(chars.len() as int), width as nat) =~= Seq::<Seq<char>>::empty());
    assert(out@.map_values(|t: String| t@) + Seq::<Seq<char>>::empty() =~= out@.map_values(
        |t: String| t@,
    ));
    out
}

/// The places of the markets of an event in the order in which the markets
/// panel lists them: the open markets first, then the closed ones, each
/// group in the order of the event.
pub open spec fn listing_order(markets: Seq<MarketView>) -> Seq<int> {
    Seq::new(markets.len(), |i: int| i).filter(|i: int| !markets[i].closed) + Seq::new(
        markets.len(),
        |i: int| i,
    ).filter(|i: int| markets[i].closed)
}

/// The places of the markets of an event in the order of the markets
/// panel: see `listing_order`.
pub fn market_order(event: &Event) -> (r: Vec<usize>)
    ensures
        r@.map_values(|i: usize| i as int) == listing_order(event@.markets),
        r@.len() == event@.markets.len(),
        forall|k: int| 0 <= k < r@.len() ==> (#[trigger] r@[k]) < event@.markets.len(),
{
    let ghost markets = event@.markets;
    let ghost places = Seq::new(markets.len(), |i: int| i);
    let ghost open = |i: int| !markets[i].closed;
    let ghost closed = |i: int| markets[i].closed;
    let n: usize = event.markets.len();
    let mut first: Vec<usize> = Vec::new();
    let mut second: Vec<usize> = Vec::new();
    let mut i: usize = 0;
    assert(places.take(0) =~= Seq::<int>::empty());
    assert(Seq::<int>::empty().filter(open) =~= Seq::<int>::empty()) by {
        reveal(Seq::filter);
    }
    assert(Seq::<int>::empty().filter(closed) =~= Seq::<int>::empty()) by {
        reveal(Seq::filter);
    }
    assert(first@.map_values(|i: usize| i as int) =~= Seq::<int>::empty());
    assert(second@.map_values(|i: usize| i as int) =~= Seq::<int>::empty());
    while i < n
        invariant
            n == event.markets.len(),
            markets == event@.markets,
            places == Seq::new(markets.len(), |i: int| i),
            open == (|i: int| !markets[i].closed),
            closed == (|i: int| markets[i].closed),
            0 <= i <= n,
            first@.len() + second@.len() == i,
            forall|k: int| 0 <= k < first@.len() ==> (#[trigger] first@[k]) < n,
            forall|k: int| 0 <= k < second@.len() ==> (#[trigger] second@[k]) < n,
            first@.map_values(|i: usize| i as int) == places.take(i as int).filter(open),
            second@.map_values(|i: usize| i as int) == places.take(i as int).filter(closed),
        decreases n - i,
    {
        proof {
            lemma_take_next(places, i as int);
            lemma_filter_push(places.take(i as int), i as int, open);
            lemma_filter_push(places.take(i as int), i as int, closed);
            assert(markets[i as int] == event.markets@[i as int]@);
        }
        if event.markets[i].closed {
            let ghost before = second@;
            second.push(i);
            assert(second@.map_values(|i: usize| i as int) =~= before.map_values(
                |i: usize| i as int,
            ).push(i as int));
        } else {
            let ghost before = first@;
            first.push(i);
            assert(first@.map_values(|i: usize| i as int) =~= before.map_values(
                |i: usize| i as int,
            ).push(i as int));
        }
        i = i + 1;
    }
    assert(places.take(n as int) =~= places);
    let ghost head = first@;
    let ghost tail = second@;
    first.append(&mut second);
    assert(first@.map_values(|i: usize| i as int) =~= head.map_values(|i: usize| i as int)
        + tail.map_values(|i: usize| i as int));
    first
}

/// The outcome at `i` of a market has a name and a known price.
pub open spec fn has_result(m: MarketView, i: int) -> bool {
    0 <= i < m.outcomes.len() && i < m.outcome_prices.len() && m.outcome_prices[i] is Some
}

/// The outcome at `i` is the one named as the winner of a closed market:
/// it has a name and a known price, no such outcome has a higher price, and
/// it is the last of those with its price.
pub open spec fn is_winner(m: MarketView, i: int) -> bool {
    &&& has_result(m, i)
    &&& forall|j: int| #[trigger]
        has_result(m, j) ==> m.outcome_prices[j]->0 <= m.outcome_prices[i]->0
    &&& forall|j: int|
        i < j && #[trigger] has_result(m, j) ==> m.outcome_prices[j]->0 < m.outcome_prices[i]->0
}

/// The place of the outcome that is named as the winner of a market, if
/// one of its outcomes has a name and a known price: see `is_winner`.
pub fn winning_outcome(market: &Market) -> (r: Option<usize>)
    ensures
        r is None <==> forall|j: int| !has_result(market@, j),
        r matches Some(i) ==> is_winner(market@, i as int),
{
    let mut best: Option<usize> = None;
    let mut i: usize = 0;
    while i < market.outcomes.len() && i < market.outcome_prices.len()
        invariant
            0 <= i <= market.outcomes.len(),
            i <= market.outcome_prices.len(),
            best is None ==> forall|j: int| 0 <= j < i ==> !has_result(market@, j),
            best matches Some(b) ==> {
                &&& b < i
                &&& has_result(market@, b as int)
                &&& forall|j: int|
                    0 <= j < i && #[trigger] has_result(market@, j) ==> market@.outcome_prices[j]->0
                        <= market@.outcome_prices[b as int]->0
                &&& forall|j: int|
                    b < j < i && #[trigger] has_result(market@, j) ==> market@.outcome_prices[j]->0
                        < market@.outcome_prices[b as int]->0
            },
        decreases market.outcomes.len() - i,
    {
        match market.outcome_prices[i] {
            Some(p) => {
                let takes: bool = match best {
                    Some(b) => match market.outcome_prices[b] {
                        Some(q) => p >= q,
                        None => true,
                    },
                    None => true,
                };
                if takes {
                    best = Some(i);
                }
            },
            None => {},
        }
        i = i + 1;
    }
    best
}

/// The volume shown for an event: the sum of the volumes shown for its
/// first `n` markets.
pub open spec fn volume_of(event: EventView, n: int) -> nat
    decreases n,
{
    if n <= 0 {
        0
    } else {
        volume_of(event, n - 1) + event.markets[n - 1].shown_volume() as nat
    }
}

/// The volume shown for an event: the sum of the volumes shown for its
/// markets.
pub fn event_volume(event: &Event) -> (r: u128)
    ensures
        r == volume_of(event@, event@.markets.len() as int),
{
    let mut sum: u128 = 0;
    let mut i: usize = 0;
    while i < event.markets.len()
        invariant
            0 <= i <= event.markets.len(),
            sum == volume_of(event@, i as int),
            sum <= i * u64::MAX,
        decreases event.markets.len() - i,
    {
        assert(event@.markets[i as int] == event.markets@[i as int]@);
        let v: u64 = event.markets[i].shown_volume();
        assert((i + 1) * u64::MAX <= u128::MAX) by (nonlinear_arith)
            requires
                i < usize::MAX,
                usize::MAX <= u64::MAX,
        ;
        assert((i + 1) * u64::MAX == i * u64::MAX + u64::MAX) by (nonlinear_arith);
        sum = sum + v as u128;
        i = i + 1;
    }
    sum
}

/// A market trades the token: the token is among those of its outcomes.
pub open spec fn trades_token(m: MarketView, token: Seq<char>) -> bool {
    m.clob_token_ids is Some && m.clob_token_ids->0.contains(token)
}

/// The name under which the market of a trade is shown: the name of the
/// first market of the event that trades the token of the trade, or the
/// title that the trade carries where there is no such market.
pub open spec fn traded_market_name(event: EventView, token: Seq<char>, title: Seq<char>, n: int) -> Seq<
    char,
>
    decreases event.markets.len() - n,
{
    if n < 0 || n >= event.markets.len() {
        title
    } else if trades_token(event.markets[n], token) {
        event.markets[n].display_name()
    } else {
        traded_market_name(event, token, title, n + 1)
    }
}

/// Whether a market trades a token.
pub fn market_trades(market: &Market, token: &str) -> (r: bool)
    ensures
        r == trades_token(market@, token@),
{
    match &market.clob_token_ids {
        Some(ids) => {
            let key = token.to_owned();
            let mut i: usize = 0;
            while i < ids.len()
                invariant
                    0 <= i <= ids.len(),
                    key@ == token@,
                    market.clob_token_ids == Some(*ids),
                    forall|j: int| 0 <= j < i ==> (#[trigger] ids@[j])@ != token@,
                decreases ids.len() - i,
            {
                if ids[i] == key {
                    assert(market@.clob_token_ids->0[i as int] == token@);
                    return true;
                }
                i = i + 1;
            }
            assert forall|j: int| 0 <= j < market@.clob_token_ids->0.len() implies market@.clob_token_ids->0[j]
                != token@ by {
                assert(market@.clob_token_ids->0[j] == ids@[j]@);
            }
            false
        },
        None => false,
    }
}

/// The name under which the market of a trade is shown: see
/// `traded_market_name`.
pub fn market_name_for<'a>(event: Option<&'a Event>, token: &str, title: &'a str) -> (r: &'a str)
    ensures
        r@ == (match event {
            Some(e) => traded_market_name(e@, token@, title@, 0),
            None => title@,
        }),
{
    match event {
        Some(e) => {
            let mut i: usize = 0;
            while i < e.markets.len()
                invariant
                    0 <= i <= e.markets.len(),
                    event == Some(e),
                    traded_market_name(e@, token@, title@, 0) == traded_market_name(
                        e@,
                        token@,
                        title@,
                        i as int,
                    ),
                decreases e.markets.len() - i,
            {
                assert(e@.markets[i as int] == e.markets@[i as int]@);
                if market_trades(&e.markets[i], token) {
                    return e.markets[i].display_name();
                }
                i = i + 1;
            }
            title
        },
        None => title,
    }
}

} // verus!
