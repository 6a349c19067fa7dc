//! The registry of trade subscriptions: for each event that was ever
//! watched its log of trades, and for each event that is being watched the
//! handle of the task that feeds the log.

use vstd::prelude::*;
use tokio::task::JoinHandle;
use crate::trade::{with_trade, EventTrades, EventTradesView, Trade, TradeMessage, TradeView};

verus! {

/// `tokio::task::JoinHandle`: the handle of a spawned task. Nothing is known
/// of what it holds.
#[verifier::external_type_specification]
#[verifier::external_body]
#[verifier::reject_recursive_types(T)]
pub struct ExJoinHandle<T>(tokio::task::JoinHandle<T>);

/// `tokio::task::JoinError`: what awaiting a handle may give. It is named
/// only because the handle is a future of it.
#[verifier::external_type_specification]
#[verifier::external_body]
pub struct ExJoinError(tokio::task::JoinError);

/// `tokio::task::JoinHandle::abort`: asks the runtime to cancel the task.
/// The call returns at once and tells nothing of the task, so the contract
/// states nothing.
#[verifier::external_body]
fn abort_task(handle: &JoinHandle<()>) {
    handle.abort();
}

/// One event of the registry: its identifier, its log, and the handle of
/// its task while it is being watched.
pub struct WatchedEvent {
    slug: String,
    log: EventTrades,
    handle: Option<JoinHandle<()>>,
}

/// The logs and the task handles, each keyed by the identifier of an event.
pub struct TradesState {
    entries: Vec<WatchedEvent>,
}

/// The two mappings that the registry stands for.
pub struct TradesStateView {
    /// The log of each event that was ever watched.
    pub event_trades: Map<Seq<char>, EventTradesView>,
    /// The task handle of each event that is being watched.
    pub ws_handles: Map<Seq<char>, JoinHandle<()>>,
}

spec fn has_slug(entries: Seq<WatchedEvent>, k: Seq<char>) -> bool {
    exists|i: int| 0 <= i < entries.len() && (#[trigger] entries[i]).slug@ == k
}

spec fn slug_index(entries: Seq<WatchedEvent>, k: Seq<char>) -> int {
    choose|i: int| 0 <= i < entries.len() && (#[trigger] entries[i]).slug@ == k
}

spec fn distinct_slugs(entries: Seq<WatchedEvent>) -> bool {
    forall|i: int, j: int|
        0 <= i < entries.len() && 0 <= j < entries.len() && (#[trigger] entries[i]).slug@ == (
        #[trigger] entries[j]).slug@ ==> i == j
}

spec fn logs_of(entries: Seq<WatchedEvent>) -> Map<Seq<char>, EventTradesView> {
    Map::new(
        |k: Seq<char>| has_slug(entries, k),
        |k: Seq<char>| entries[slug_index(entries, k)].log@,
    )
}

spec fn handles_of(entries: Seq<WatchedEvent>) -> Map<Seq<char>, JoinHandle<()>> {
    Map::new(
        |k: Seq<char>| has_slug(entries, k) && entries[slug_index(entries, k)].handle is Some,
        |k: Seq<char>| entries[slug_index(entries, k)].handle->0,
    )
}

proof fn lemma_index_found(entries: Seq<WatchedEvent>, i: int)
    requires
        distinct_slugs(entries),
        0 <= i < entries.len(),
    ensures
        has_slug(entries, entries[i].slug@),
        slug_index(entries, entries[i].slug@) == i,
{
}

/// What replacing the log and the handle of the entry at `i` does to the
/// two mappings.
proof fn lemma_entry_replaced(old_e: Seq<WatchedEvent>, new_e: Seq<WatchedEvent>, i: int)
    requires
        distinct_slugs(old_e),
        0 <= i < old_e.len(),
        new_e.len() == old_e.len(),
        new_e[i].slug@ == old_e[i].slug@,
        forall|j: int| 0 <= j < old_e.len() && j != i ==> new_e[j] == old_e[j],
    ensures
        distinct_slugs(new_e),
        logs_of(new_e) == logs_of(old_e).insert(old_e[i].slug@, new_e[i].log@),
        new_e[i].handle is Some ==> handles_of(new_e) == handles_of(old_e).insert(
            old_e[i].slug@,
            new_e[i].handle->0,
        ),
        new_e[i].handle is None ==> handles_of(new_e) == handles_of(old_e).remove(old_e[i].slug@),
{
    assert forall|j: int| 0 <= j < old_e.len() implies (#[trigger] new_e[j]).slug@
        == old_e[j].slug@ by {}
    assert(distinct_slugs(new_e)) by {
        assert forall|a: int, b: int|
            0 <= a < new_e.len() && 0 <= b < new_e.len() && (#[trigger] new_e[a]).slug@ == (
            #[trigger] new_e[b]).slug@ implies a == b by {
            assert(old_e[a].slug@ == old_e[b].slug@);
        }
    }
    assert forall|k: Seq<char>| has_slug(new_e, k) == has_slug(old_e, k) by {
        if has_slug(new_e, k) {
            let j = slug_index(new_e, k);
            assert(old_e[j].slug@ == k);
        }
        if has_slug(old_e, k) {
            let j = slug_index(old_e, k);
            assert(new_e[j].slug@ == k);
        }
    }
    assert forall|k: Seq<char>| has_slug(old_e, k) implies slug_index(new_e, k) == slug_index(
        old_e,
        k,
    ) by {
        let j = slug_index(old_e, k);
        lemma_index_found(old_e, j);
        assert(new_e[j].slug@ == k);
        lemma_index_found(new_e, j);
    }
    lemma_index_found(old_e, i);
    lemma_index_found(new_e, i);
    assert(logs_of(new_e) =~= logs_of(old_e).insert(old_e[i].slug@, new_e[i].log@));
    if new_e[i].handle is Some {
        assert(handles_of(new_e) =~= handles_of(old_e).insert(
            old_e[i].slug@,
            new_e[i].handle->0,
        ));
    } else {
        assert(handles_of(new_e) =~= handles_of(old_e).remove(old_e[i].slug@));
    }
}

/// What a new entry under an identifier that the registry does not hold
/// does to the two mappings.
proof fn lemma_entry_added(old_e: Seq<WatchedEvent>, e: WatchedEvent)
    requires
        distinct_slugs(old_e),
        !has_slug(old_e, e.slug@),
    ensures
        distinct_slugs(old_e.push(e)),
        logs_of(old_e.push(e)) == logs_of(old_e).insert(e.slug@, e.log@),
        e.handle is Some ==> handles_of(old_e.push(e)) == handles_of(old_e).insert(
            e.slug@,
            e.handle->0,
        ),
        e.handle is None ==> handles_of(old_e.push(e)) == handles_of(old_e),
{
    let new_e = old_e.push(e);
    let n = old_e.len() as int;
    assert forall|j: int| 0 <= j < n implies (#[trigger] new_e[j]) == old_e[j] by {}
    assert(new_e[n] == e);
    assert(distinct_slugs(new_e)) by {
        assert forall|a: int, b: int|
            0 <= a < new_e.len() && 0 <= b < new_e.len() && (#[trigger] new_e[a]).slug@ == (
            #[trigger] new_e[b]).slug@ implies a == b by {
            if a < n && b < n {
                assert(old_e[a].slug@ == old_e[b].slug@);
            } else if a < n {
                assert(old_e[a].slug@ == e.slug@);
            } else if b < n {
                assert(old_e[b].slug@ == e.slug@);
            }
        }
    }
    assert forall|k: Seq<char>| has_slug(new_e, k) == (has_slug(old_e, k) || k == e.slug@) by {
        if has_slug(new_e, k) {
            let j = slug_index(new_e, k);
            if j < n {
                assert(old_e[j].slug@ == k);
            }
        }
        if has_slug(old_e, k) {
            let j = slug_index(old_e, k);
            assert(new_e[j].slug@ == k);
        }
        if k == e.slug@ {
            assert(new_e[n].slug@ == k);
        }
    }
    assert forall|k: Seq<char>| has_slug(old_e, k) implies slug_index(new_e, k) == slug_index(
        old_e,
        k,
    ) by {
        let j = slug_index(old_e, k);
        assert(new_e[j].slug@ == k);
        lemma_index_found(new_e, j);
    }
    lemma_index_found(new_e, n);
    assert(logs_of(new_e) =~= logs_of(old_e).insert(e.slug@, e.log@));
    if e.handle is Some {
        assert(handles_of(new_e) =~= handles_of(old_e).insert(e.slug@, e.handle->0));
    } else {
        assert(handles_of(new_e) =~= handles_of(old_e));
    }
}

impl View for TradesState {
    type V = TradesStateView;

    closed spec fn view(&self) -> TradesStateView {
        TradesStateView {
            event_trades: logs_of(self.entries@),
            ws_handles: handles_of(self.entries@),
        }
    }
}

impl TradesState {
    /// The registry is well formed: no identifier stands twice, an event
    /// has a task handle exactly while its log is flagged as watched, and no
    /// log is longer than its bound.
    pub closed spec fn wf(&self) -> bool {
        &&& distinct_slugs(self.entries@)
        &&& forall|i: int|
            0 <= i < self.entries@.len() ==> ((#[trigger] self.entries@[i]).handle is Some
                <==> self.entries@[i].log.is_watching)
        &&& forall|i: int|
            0 <= i < self.entries@.len() ==> (#[trigger] self.entries@[i]).log.is_bounded()
    }

    /// An event is being watched: it has a log, and the log is flagged.
    pub open spec fn watching(&self, slug: Seq<char>) -> bool {
        self@.event_trades.contains_key(slug) && self@.event_trades[slug].is_watching
    }

    /// The trades of an event, newest arrival first; none for an event
    /// without a log.
    pub open spec fn trades_of(&self, slug: Seq<char>) -> Seq<TradeView> {
        if self@.event_trades.contains_key(slug) {
            self@.event_trades[slug].trades
        } else {
            Seq::empty()
        }
    }

    /// In a well-formed registry an event has a task handle if and only if
    /// it has a log that is flagged as watched, and no log holds more than
    /// its bound.
    pub proof fn lemma_handle_iff_watching(&self, slug: Seq<char>)
        requires
            self.wf(),
        ensures
            self@.ws_handles.contains_key(slug) <==> self.watching(slug),
            self.trades_of(slug).len() <= crate::trade::MAX_TRADES,
    {
        if has_slug(self.entries@, slug) {
            let i = slug_index(self.entries@, slug);
            assert(self.entries@[i].log.is_bounded());
        }
    }

    pub fn new() -> (r: Self)
        ensures
            r.wf(),
            r@.event_trades == Map::<Seq<char>, EventTradesView>::empty(),
            r@.ws_handles == Map::<Seq<char>, JoinHandle<()>>::empty(),
    {
        let r = TradesState { entries: Vec::new() };
        assert(r@.event_trades =~= Map::<Seq<char>, EventTradesView>::empty());
        assert(r@.ws_handles =~= Map::<Seq<char>, JoinHandle<()>>::empty());
        r
    }

    fn find(&self, slug: &str) -> (r: Option<usize>)
        requires
            self.wf(),
        ensures
            match r {
                Some(i) => i < self.entries@.len() && self.entries@[i as int].slug@ == slug@
                    && slug_index(self.entries@, slug@) == i && has_slug(self.entries@, slug@),
                None => !has_slug(self.entries@, slug@),
            },
    {
        let key = slug.to_owned();
        let mut i: usize = 0;
        while i < self.entries.len()
            invariant
                self.wf(),
                0 <= i <= self.entries@.len(),
                key@ == slug@,
                forall|j: int| 0 <= j < i ==> (#[trigger] self.entries@[j]).slug@ != slug@,
            decreases self.entries@.len() - i,
        {
            if self.entries[i].slug == key {
                proof {
                    lemma_index_found(self.entries@, i as int);
                }
                return Some(i);
            }
            i = i + 1;
        }
        None
    }

    /// Whether an event is being watched.
    pub fn is_watching(&self, event_slug: &str) -> (r: bool)
        requires
            self.wf(),
        ensures
            r == self.watching(event_slug@),
    {
        match self.find(event_slug) {
            Some(i) => self.entries[i].log.is_watching,
            None => false,
        }
    }

    /// The trades of an event, newest arrival first. An event without a log
    /// has none.
    pub fn get_trades(&self, event_slug: &str) -> (r: &[Trade])
        requires
            self.wf(),
        ensures
            r@.map_values(|t: Trade| t@) == self.trades_of(event_slug@),
            r@.len() <= crate::trade::MAX_TRADES,
    {
        match self.find(event_slug) {
            Some(i) => {
                assert(self.entries@[i as int].log.is_bounded());
                self.entries[i].log.trades.as_slice()
            },
            None => {
                let r: &[Trade] = &[];
                assert(r@.map_values(|t: Trade| t@) =~= Seq::<TradeView>::empty());
                r
            },
        }
    }

    /// Starts to watch an event: its log is created empty where it has
    /// none and flagged as watched, and the handle is kept under the
    /// identifier. A handle that was kept there before is replaced and
    /// dropped, not cancelled: a caller asks `is_watching` first.
    pub fn start_watching(&mut self, event_slug: String, ws_handle: JoinHandle<()>)
        requires
            old(self).wf(),
        ensures
            final(self).wf(),
            final(self)@.event_trades == old(self)@.event_trades.insert(
                event_slug@,
                EventTradesView { trades: old(self).trades_of(event_slug@), is_watching: true },
            ),
            final(self)@.ws_handles == old(self)@.ws_handles.insert(event_slug@, ws_handle),
            final(self).watching(event_slug@),
            forall|k: Seq<char>| #[trigger] final(self).trades_of(k) == old(self).trades_of(k),
    {
        let ghost before = self.entries@;
        match self.find(event_slug.as_str()) {
            Some(i) => {
                self.entries[i].log.is_watching = true;
                self.entries[i].handle = Some(ws_handle);
                proof {
                    lemma_entry_replaced(before, self.entries@, i as int);
                }
            },
            None => {
                let mut log = EventTrades::new();
                log.is_watching = true;
                let entry = WatchedEvent { slug: event_slug, log, handle: Some(ws_handle) };
                self.entries.push(entry);
                proof {
                    lemma_entry_added(before, entry);
                }
            },
        }
    }

    /// Stops to watch an event: its task is cancelled and its handle
    /// forgotten, and its log is flagged as not watched. The trades stay.
    /// For an event that is not being watched nothing changes.
    pub fn stop_watching(&mut self, event_slug: &str)
        requires
            old(self).wf(),
        ensures
            final(self).wf(),
            final(self)@.ws_handles == old(self)@.ws_handles.remove(event_slug@),
            final(self)@.event_trades == (if old(self)@.event_trades.contains_key(event_slug@) {
                old(self)@.event_trades.insert(
                    event_slug@,
                    EventTradesView {
                        trades: old(self).trades_of(event_slug@),
                        is_watching: false,
                    },
                )
            } else {
                old(self)@.event_trades
            }),
            !old(self).watching(event_slug@) ==> final(self)@ == old(self)@,
            !final(self).watching(event_slug@),
            forall|k: Seq<char>| #[trigger] final(self).trades_of(k) == old(self).trades_of(k),
    {
        let ghost before = self.entries@;
        match self.find(event_slug) {
            Some(i) => {
                let handle = self.entries[i].handle.take();
                match handle {
                    Some(h) => {
                        abort_task(&h);
                    },
                    None => {},
                }
                self.entries[i].log.is_watching = false;
                proof {
                    lemma_entry_replaced(before, self.entries@, i as int);
                    if !old(self).watching(event_slug@) {
                        assert(self@.event_trades =~= old(self)@.event_trades);
                        assert(self@.ws_handles =~= old(self)@.ws_handles);
                    }
                }
            },
            None => {
                assert(self@.ws_handles =~= old(self)@.ws_handles.remove(event_slug@));
            },
        }
    }

    /// Records a message in the log of an event and tells whether the event
    /// has a log; the message of an event without one is dropped.
    pub fn add_trade(&mut self, event_slug: &str, msg: &TradeMessage) -> (recorded: bool)
        requires
            old(self).wf(),
        ensures
            final(self).wf(),
            recorded == old(self)@.event_trades.contains_key(event_slug@),
            final(self)@.ws_handles == old(self)@.ws_handles,
            final(self)@.event_trades == (if recorded {
                old(self)@.event_trades.insert(
                    event_slug@,
                    EventTradesView {
                        trades: with_trade(old(self).trades_of(event_slug@), msg.recorded()),
                        is_watching: old(self)@.event_trades[event_slug@].is_watching,
                    },
                )
            } else {
                old(self)@.event_trades
            }),
    {
        let ghost before = self.entries@;
        match self.find(event_slug) {
            Some(i) => {
                self.entries[i].log.add_trade(msg);
                proof {
                    lemma_entry_replaced(before, self.entries@, i as int);
                    assert(self@.ws_handles =~= old(self)@.ws_handles);
                }
                true
            },
            None => false,
        }
    }

    /// Cancels every task and forgets every handle, so that no event is
    /// being watched any more. The trades of every log stay.
    pub fn cleanup(&mut self)
        requires
            old(self).wf(),
        ensures
            final(self).wf(),
            final(self)@.ws_handles == Map::<Seq<char>, JoinHandle<()>>::empty(),
            final(self)@.event_trades.dom() == old(self)@.event_trades.dom(),
            forall|k: Seq<char>| #[trigger]
                final(self)@.event_trades.contains_key(k) ==> final(self)@.event_trades[k]
                    == (EventTradesView {
                    trades: old(self)@.event_trades[k].trades,
                    is_watching: false,
                }),
            forall|k: Seq<char>| !#[trigger] final(self).watching(k),
            forall|k: Seq<char>| #[trigger] final(self).trades_of(k) == old(self).trades_of(k),
    {
        let ghost before = self.entries@;
        let mut i: usize = 0;
        while i < self.entries.len()
            invariant
                0 <= i <= self.entries@.len(),
                self.entries@.len() == before.len(),
                distinct_slugs(before),
                forall|j: int|
                    0 <= j < before.len() ==> (#[trigger] self.entries@[j]).slug@
                        == before[j].slug@,
                forall|j: int|
                    0 <= j < before.len() ==> (#[trigger] self.entries@[j]).log.trades
                        == before[j].log.trades,
                forall|j: int|
                    0 <= j < i ==> (#[trigger] self.entries@[j]).handle is None
                        && !self.entries@[j].log.is_watching,
                forall|j: int|
                    i <= j < before.len() ==> ((#[trigger] self.entries@[j]).handle is Some
                        <==> self.entries@[j].log.is_watching),
            decreases self.entries@.len() - i,
        {
            let handle = self.entries[i].handle.take();
            match handle {
                Some(h) => {
                    abort_task(&h);
                },
                None => {},
            }
            self.entries[i].log.is_watching = false;
            i = i + 1;
        }
        proof {
            let after = self.entries@;
            assert(distinct_slugs(after)) by {
                assert forall|a: int, b: int|
                    0 <= a < after.len() && 0 <= b < after.len() && (#[trigger] after[a]).slug@
                        == (#[trigger] after[b]).slug@ implies a == b by {
                    assert(before[a].slug@ == before[b].slug@);
                }
            }
            assert forall|k: Seq<char>| has_slug(after, k) == has_slug(before, k) by {
                if has_slug(after, k) {
                    let j = slug_index(after, k);
                    assert(before[j].slug@ == k);
                }
                if has_slug(before, k) {
                    let j = slug_index(before, k);
                    assert(after[j].slug@ == k);
                }
            }
            assert forall|k: Seq<char>| has_slug(before, k) implies slug_index(after, k)
                == slug_index(before, k) by {
                let j = slug_index(before, k);
                lemma_index_found(before, j);
                assert(after[j].slug@ == k);
                lemma_index_found(after, j);
            }
            assert(self@.ws_handles =~= Map::<Seq<char>, JoinHandle<()>>::empty());
            assert(self@.event_trades.dom() =~= old(self)@.event_trades.dom());
            assert forall|j: int| 0 <= j < after.len() implies (#[trigger] after[j]).log.is_bounded() by {
                assert(before[j].log.is_bounded());
            }
        }
    }
}

} // verus!
