//! The cached collection of log events shown in the table view: identity-
//! based pagination merge, the cheap same-result-set check used for
//! staleness detection, and the clamping cursor.
use vstd::prelude::*;
use vstd::string::StringExecFns;
use crate::merge::{
    has_id, is_marker, lemma_merge_idempotent, lemma_merge_marker, lemma_new_boundary_is,
    marker_last_only, merge_page, no_marker, strip_marker,
};
use crate::selection::TableState;
use crate::strutil::{clone_opt_string, opt_str_view, opt_string_eq, rows_view};
use crate::timefmt::{format_event_time, time_row_label};
use crate::utils::StatefulTable;

verus! {

/// One log event: identity, optional timestamp (milliseconds since the
/// epoch; absent on the marker row), optional message text.
#[derive(Debug, PartialEq)]
pub struct LogEvent {
    pub event_id: Option<String>,
    pub timestamp: Option<i64>,
    pub message: Option<String>,
}

/// The mathematical reading of a log event.
pub struct LogEventV {
    pub event_id: Option<Seq<char>>,
    pub timestamp: Option<i64>,
    pub message: Option<Seq<char>>,
}

impl View for LogEvent {
    type V = LogEventV;

    open spec fn view(&self) -> LogEventV {
        LogEventV {
            event_id: opt_str_view(self.event_id),
            timestamp: self.timestamp,
            message: opt_str_view(self.message),
        }
    }
}

impl Clone for LogEvent {
    /// A clone reads the same.
    fn clone(&self) -> (r: Self)
        ensures
            r@ == self@,
    {
        LogEvent {
            event_id: clone_opt_string(&self.event_id),
            timestamp: self.timestamp,
            message: clone_opt_string(&self.message),
        }
    }
}

impl Default for LogEvent {
    /// A fresh event has no identity, no timestamp and no message.
    fn default() -> (r: Self)
        ensures
            r@.event_id.is_none(),
            r@.timestamp.is_none(),
            r@.message.is_none(),
    {
        LogEvent { event_id: None, timestamp: None, message: None }
    }
}

/// The identity an event is de-duplicated by.
pub open spec fn event_id_fn() -> spec_fn(LogEventV) -> Option<Seq<char>> {
    |e: LogEventV| e.event_id
}

/// The reserved identity of the trailing "more pages" marker row.
pub open spec fn event_reserved_id() -> Seq<char> {
    "999"@
}

/// The marker row itself: reserved identity, no timestamp, empty message.
pub open spec fn event_marker() -> LogEventV {
    LogEventV {
        event_id: Option::Some("999"@),
        timestamp: Option::None,
        message: Option::Some(Seq::empty()),
    }
}

/// The reading of a whole event vector.
pub open spec fn events_view(items: Seq<LogEvent>) -> Seq<LogEventV> {
    items.map_values(|e: LogEvent| e@)
}

/// The pagination merge, instantiated for log events.
pub open spec fn event_merge(cached: Seq<LogEventV>, fetched: Seq<LogEventV>, has_token: bool) -> Seq<
    LogEventV,
> {
    merge_page(cached, fetched, event_id_fn(), event_reserved_id(), event_marker(), has_token)
}

/// Builds the marker row that stands for "more pages available".
fn more_event() -> (r: LogEvent)
    ensures
        r@ == event_marker(),
{
    let r = LogEvent {
        event_id: Some(String::from_str("999")),
        timestamp: None,
        message: Some(String::new()),
    };
    r
}

/// The cheap same-result-set heuristic: equal length, equal identity at the
/// first element, and equal identity at element `length - 2` (the last real
/// item before any marker row). Deliberately not a full equality check.
pub open spec fn same_result_set(a: Seq<LogEventV>, b: Seq<LogEventV>) -> bool {
    let k = if a.len() >= 2 {
        a.len() - 2
    } else {
        0
    };
    &&& a.len() == b.len()
    &&& (a.len() > 0 ==> a[0].event_id == b[0].event_id)
    &&& (a.len() > 0 ==> a[k].event_id == b[k].event_id)
}

/// The reading of the whole collection: its events and its selection state.
pub struct LogEventListV {
    pub items: Seq<LogEventV>,
    pub state: Option<TableState>,
}

/// A selection state that selects `sel`.
pub open spec fn table_state_with(sel: Option<usize>) -> TableState {
    TableState { selected: sel }
}

/// Where the clamping cursor lands from `sel` in a collection of `n > 0`
/// rows: one step down, stopped at the last row.
pub open spec fn clamped_next(sel: Option<usize>, n: int) -> usize {
    match sel {
        Option::None => 0usize,
        Option::Some(i) => if i >= n - 1 {
            (n - 1) as usize
        } else {
            (i + 1) as usize
        },
    }
}

/// Where the clamping cursor lands from `sel` stepping `size` rows down.
pub open spec fn clamped_next_by(sel: Option<usize>, n: int, size: usize) -> usize {
    match sel {
        Option::None => 0usize,
        Option::Some(i) => if i >= n - 1 {
            (n - 1) as usize
        } else if i + size >= n - 1 {
            (n - 1) as usize
        } else {
            (i + size) as usize
        },
    }
}

/// Where the cursor lands from `sel` stepping `size` rows up, stopped at 0.
pub open spec fn clamped_previous_by(sel: Option<usize>, size: usize) -> usize {
    match sel {
        Option::None => 0usize,
        Option::Some(i) => if i >= size {
            (i - size) as usize
        } else {
            0usize
        },
    }
}

/// The "should fetch more" signal: the cursor was already on the last row
/// and that row is the marker.
pub open spec fn fetch_signal(sel: Option<usize>, items: Seq<LogEventV>) -> bool {
    &&& items.len() > 0
    &&& (sel matches Option::Some(i) && i >= items.len() - 1)
    &&& is_marker(event_id_fn(), event_reserved_id(), items.last())
}

/// The table's cell texts for one event: the rendered timestamp (or
/// "More..." on the marker row), then the message (or nothing).
pub open spec fn event_row(e: LogEventV) -> Seq<Seq<char>> {
    seq![
        (match e.timestamp {
            Option::Some(t) => time_row_label(t),
            Option::None => "More..."@,
        }),
        (match e.message {
            Option::Some(m) => m,
            Option::None => Seq::<char>::empty(),
        }),
    ]
}

/// The table's rows for a whole collection.
pub open spec fn event_rows(items: Seq<LogEventV>) -> Seq<Seq<Seq<char>>> {
    items.map_values(|e: LogEventV| event_row(e))
}

/// The "should fetch more" signal of a whole collection.
pub open spec fn table_fetch_signal(l: LogEventListV) -> bool {
    l.state matches Option::Some(st) && fetch_signal(st.selected, l.items)
}

/// The collection after one `next` step: the cursor clamps one row down,
/// or lands on the first row; nothing moves without rows or a state.
pub open spec fn table_after_next(l: LogEventListV) -> LogEventListV {
    match l.state {
        Option::None => l,
        Option::Some(st) => if l.items.len() == 0 {
            l
        } else {
            LogEventListV {
                state: Option::Some(
                    table_state_with(Option::Some(clamped_next(st.selected, l.items.len() as int))),
                ),
                ..l
            }
        },
    }
}

/// The collection after one `next_by(size)` step.
pub open spec fn table_after_next_by(l: LogEventListV, size: usize) -> LogEventListV {
    match l.state {
        Option::None => l,
        Option::Some(st) => if l.items.len() == 0 {
            l
        } else {
            LogEventListV {
                state: Option::Some(
                    table_state_with(
                        Option::Some(clamped_next_by(st.selected, l.items.len() as int, size)),
                    ),
                ),
                ..l
            }
        },
    }
}

/// The collection after one `previous_by(size)` step (`previous` is the
/// step of one).
pub open spec fn table_after_previous_by(l: LogEventListV, size: usize) -> LogEventListV {
    match l.state {
        Option::None => l,
        Option::Some(st) => if l.items.len() == 0 {
            l
        } else {
            LogEventListV {
                state: Option::Some(
                    table_state_with(Option::Some(clamped_previous_by(st.selected, size))),
                ),
                ..l
            }
        },
    }
}

/// The cached, selectable collection of log events.
#[derive(Debug)]
pub struct LogEventList {
    items: Vec<LogEvent>,
    state: Option<TableState>,
}

impl View for LogEventList {
    type V = LogEventListV;

    closed spec fn view(&self) -> LogEventListV {
        LogEventListV { items: events_view(self.items@), state: self.state }
    }
}

impl LogEventList {
    /// A fresh collection over the given events, with a selection state
    /// that selects nothing.
    pub fn new(items: Vec<LogEvent>) -> (r: Self)
        ensures
            r@.items == events_view(items@),
            r@.state == Option::Some(table_state_with(Option::None)),
    {
        Self { items, state: Some(TableState::default()) }
    }

    /// Replaces the events, keeping the selection state.
    pub fn set_items(&mut self, items: Vec<LogEvent>)
        ensures
            final(self)@.items == events_view(items@),
            final(self)@.state == old(self)@.state,
    {
        self.items = items;
    }

    /// How many events are cached, the marker row included.
    pub fn len(&self) -> (r: usize)
        ensures
            r == self@.items.len(),
    {
        self.items.len()
    }

    /// Reads one cached event, or nothing when the index is out of range.
    pub fn get_item(&self, idx: usize) -> (r: Option<&LogEvent>)
        ensures
            match r {
                Option::Some(e) => idx < self@.items.len() && e@ == self@.items[idx as int],
                Option::None => idx >= self@.items.len(),
            },
    {
        if idx < self.items.len() {
            Some(&self.items[idx])
        } else {
            None
        }
    }

    /// The message text of the event at `idx`, or nothing when the index is
    /// out of range or the event has no message.
    pub fn get_log_event_text(&self, idx: usize) -> (r: Option<String>)
        ensures
            opt_str_view(r) == (if (idx as int) < self@.items.len() {
                self@.items[idx as int].message
            } else {
                Option::<Seq<char>>::None
            }),
    {
        if idx < self.items.len() {
            clone_opt_string(&self.items[idx].message)
        } else {
            None
        }
    }

    /// Empties the collection and resets the selection.
    pub fn clear_items(&mut self)
        ensures
            final(self)@.items == Seq::<LogEventV>::empty(),
            final(self)@.state == Option::Some(table_state_with(Option::None)),
    {
        self.items = Vec::new();
        self.state = Some(TableState::default());
        proof {
            assert(events_view(self.items@) =~= Seq::<LogEventV>::empty());
        }
    }

    /// A copy of the same events under the given selection state.
    pub fn clone_with_state(&self, state: Option<TableState>) -> (r: Self)
        ensures
            r@.items == self@.items,
            r@.state == state,
    {
        let mut items: Vec<LogEvent> = Vec::new();
        let mut i: usize = 0;
        while i < self.items.len()
            invariant
                i <= self.items.len(),
                items@.len() == i,
                forall|j: int| 0 <= j < i ==> items@[j]@ == self.items@[j]@,
            decreases self.items.len() - i,
        {
            items.push(self.items[i].clone());
            i += 1;
        }
        proof {
            assert(events_view(items@) =~= events_view(self.items@));
        }
        Self { items, state }
    }

    /// The cheap same-result-set check used for staleness detection: equal
    /// length, equal identity first, equal identity at `length - 2`. An
    /// approximation, not a full comparison: differences in between go
    /// unseen on purpose.
    pub fn is_same(&self, other: &Self) -> (r: bool)
        ensures
            r == same_result_set(self@.items, other@.items),
    {
        if self.items.len() != other.items.len() {
            false
        } else if self.items.len() == 0 {
            true
        } else {
            let k = if self.items.len() >= 2 {
                self.items.len() - 2
            } else {
                0
            };
            if !opt_string_eq(&self.items[0].event_id, &other.items[0].event_id) {
                false
            } else {
                opt_string_eq(&self.items[k].event_id, &other.items[k].event_id)
            }
        }
    }

    /// Reads the selection state without borrowing the collection mutably,
    /// for read-only projections of the shared store.
    pub fn current_state(&self) -> (r: Option<TableState>)
        ensures
            r == self@.state,
    {
        self.state
    }

    /// Whether the last cached row is the "more pages" marker.
    pub fn is_last_more_item(&self) -> (r: bool)
        ensures
            r == (self@.items.len() > 0 && is_marker(
                event_id_fn(),
                event_reserved_id(),
                self@.items.last(),
            )),
    {
        if self.items.len() > 0 {
            let marker_id = Some(String::from_str("999"));
            opt_string_eq(&self.items[self.items.len() - 1].event_id, &marker_id)
        } else {
            false
        }
    }

    /// Some cached event already carries this identity.
    fn contains_id(&self, wanted: &Option<String>) -> (r: bool)
        ensures
            r == has_id(self@.items, event_id_fn(), opt_str_view(*wanted)),
    {
        let mut k: usize = 0;
        while k < self.items.len()
            invariant
                k <= self.items.len(),
                forall|j: int|
                    0 <= j < k ==> event_id_fn()(#[trigger] self@.items[j]) != opt_str_view(
                        *wanted,
                    ),
            decreases self.items.len() - k,
        {
            if opt_string_eq(&self.items[k].event_id, wanted) {
                proof {
                    assert(event_id_fn()(self@.items[k as int]) == opt_str_view(*wanted));
                }
                return true;
            }
            k += 1;
        }
        false
    }

    /// Merges one fetched page into the cache: drops a trailing marker row,
    /// appends the fetched items from the first genuinely new one onward
    /// (identity-based de-duplication), and appends a fresh marker row iff
    /// a next-page token came with the page. The selection is untouched.
    pub fn push_items(&mut self, items: &Vec<LogEvent>, next_token: Option<&String>)
        ensures
            final(self)@.items == event_merge(
                old(self)@.items,
                events_view(items@),
                next_token.is_some(),
            ),
            final(self)@.state == old(self)@.state,
    {
        let ghost cached = self@.items;
        if self.items.len() > 0 && self.is_last_more_item() {
            let l = self.items.len();
            self.items.remove(l - 1);
            proof {
                assert(events_view(self.items@) =~= strip_marker(
                    cached,
                    event_id_fn(),
                    event_reserved_id(),
                ));
            }
        }
        let ghost base = events_view(self.items@);
        proof {
            assert(base == strip_marker(cached, event_id_fn(), event_reserved_id()));
        }
        let fetched_len = items.len();
        let mut idx: usize = 0;
        let mut found_new = false;
        while idx < fetched_len && !found_new
            invariant
                fetched_len == items@.len(),
                idx <= fetched_len,
                base == events_view(self.items@),
                self@.state == old(self)@.state,
                forall|j: int|
                    0 <= j < idx ==> has_id(
                        base,
                        event_id_fn(),
                        event_id_fn()(#[trigger] events_view(items@)[j]),
                    ),
                found_new ==> idx < fetched_len && !has_id(
                    base,
                    event_id_fn(),
                    event_id_fn()(events_view(items@)[idx as int]),
                ),
            decreases fetched_len - idx + (if found_new { 0int } else { 1int }),
        {
            if !self.contains_id(&items[idx].event_id) {
                found_new = true;
            } else {
                idx += 1;
            }
        }
        proof {
            lemma_new_boundary_is(base, events_view(items@), event_id_fn(), idx as int);
        }
        let ghost base_len = self.items@.len() as int;
        let mut j: usize = idx;
        while j < fetched_len
            invariant
                fetched_len == items@.len(),
                idx <= j <= fetched_len,
                base_len == base.len(),
                self@.state == old(self)@.state,
                self.items@.len() == base_len + (j - idx),
                forall|t: int| 0 <= t < base_len ==> (#[trigger] self.items@[t])@ == base[t],
                forall|t: int|
                    base_len <= t < self.items@.len() ==> (#[trigger] self.items@[t])@
                        == events_view(items@)[idx + (t - base_len)],
            decreases fetched_len - j,
        {
            let e = items[j].clone();
            self.items.push(e);
            j += 1;
        }
        if next_token.is_some() {
            let m = more_event();
            self.items.push(m);
        }
        proof {
            let fv = events_view(items@);
            let merged = merge_page(
                cached,
                fv,
                event_id_fn(),
                event_reserved_id(),
                event_marker(),
                next_token.is_some(),
            );
            assert(self@.items =~= merged);
        }
    }
}

impl StatefulTable for LogEventList {
    /// Each cached event as a row: its timestamp rendered as a calendar
    /// label ("More..." on the marker row), then its message text.
    fn get_labels(&self) -> (r: Vec<Vec<String>>)
        ensures
            rows_view(r@) == event_rows(self@.items),
    {
        let mut labels: Vec<Vec<String>> = Vec::new();
        let mut i: usize = 0;
        while i < self.items.len()
            invariant
                i <= self.items.len(),
                labels@.len() == i,
                forall|t: int|
                    0 <= t < i ==> {
                        let row = (#[trigger] labels@[t])@;
                        &&& row.len() == 2
                        &&& row[0]@ == (match self@.items[t].timestamp {
                            Option::Some(ts) => time_row_label(ts),
                            Option::None => "More..."@,
                        })
                        &&& row[1]@ == (match self@.items[t].message {
                            Option::Some(m) => m,
                            Option::None => Seq::<char>::empty(),
                        })
                    },
            decreases self.items.len() - i,
        {
            let mut row: Vec<String> = Vec::new();
            match &self.items[i].timestamp {
                Some(ts) => row.push(format_event_time(*ts)),
                None => row.push(String::from_str("More...")),
            }
            match &self.items[i].message {
                Some(m) => row.push(m.clone()),
                None => row.push(String::new()),
            }
            labels.push(row);
            i += 1;
        }
        proof {
            assert(rows_view(labels@) =~~= event_rows(self@.items));
        }
        labels
    }

    /// Reads the selection state without touching the collection.
    fn get_state(&mut self) -> (r: Option<TableState>)
        ensures
            final(self)@ == old(self)@,
            r == old(self)@.state,
    {
        self.state
    }

    /// Replaces the selection state, keeping the events.
    fn set_state(&mut self, new_state: TableState)
        ensures
            final(self)@.items == old(self)@.items,
            final(self)@.state == Option::Some(new_state),
    {
        self.state = Some(new_state);
    }

    /// One row down, clamped at the last row. Reports "fetch more" exactly
    /// when the cursor already sat on the last row and that row is the
    /// marker. On an empty collection, or without a selection state,
    /// nothing moves.
    fn next(&mut self) -> (fetch: bool)
        ensures
            final(self)@ == table_after_next(old(self)@),
            fetch == table_fetch_signal(old(self)@),
    {
        let mut fetch_flg = false;
        let n = self.items.len();
        if let Some(state) = self.get_state() {
            if n > 0 {
                let mut st = state;
                let i = match st.selected() {
                    Some(i) => {
                        if i >= n - 1 {
                            if self.is_last_more_item() {
                                fetch_flg = true;
                            }
                            n - 1
                        } else {
                            i + 1
                        }
                    },
                    None => 0,
                };
                st.select(Some(i));
                self.set_state(st);
            }
        }
        fetch_flg
    }

    /// One row up, clamped at the first row.
    fn previous(&mut self)
        ensures
            final(self)@ == table_after_previous_by(old(self)@, 1),
    {
        let n = self.items.len();
        if let Some(state) = self.get_state() {
            if n > 0 {
                let mut st = state;
                let i = match st.selected() {
                    Some(i) => {
                        if i == 0 {
                            0
                        } else {
                            i - 1
                        }
                    },
                    None => 0,
                };
                st.select(Some(i));
                self.set_state(st);
            }
        }
    }

    /// `size` rows down, clamped at the last row rather than overshooting.
    /// The "fetch more" signal is as for `next`.
    fn next_by(&mut self, size: usize) -> (fetch: bool)
        ensures
            final(self)@ == table_after_next_by(old(self)@, size),
            fetch == table_fetch_signal(old(self)@),
    {
        let mut fetch_flag = false;
        let n = self.items.len();
        if let Some(state) = self.get_state() {
            if n > 0 {
                let mut st = state;
                let i = match st.selected() {
                    Some(i) => {
                        if i >= n - 1 {
                            if self.is_last_more_item() {
                                fetch_flag = true;
                            }
                            n - 1
                        } else if size >= n - 1 - i {
                            n - 1
                        } else {
                            i + size
                        }
                    },
                    None => 0,
                };
                st.select(Some(i));
                self.set_state(st);
            }
        }
        fetch_flag
    }

    /// `size` rows up, clamped at the first row.
    fn previous_by(&mut self, size: usize)
        ensures
            final(self)@ == table_after_previous_by(old(self)@, size),
    {
        let n = self.items.len();
        if let Some(state) = self.get_state() {
            if n > 0 {
                let mut st = state;
                let i = match st.selected() {
                    Some(i) => {
                        if i >= size {
                            i - size
                        } else {
                            0
                        }
                    },
                    None => 0,
                };
                st.select(Some(i));
                self.set_state(st);
            }
        }
    }
}

/// Merge idempotence for the event table: merging the very same page again,
/// with the same token presence, changes nothing. With a token this holds
/// of any cache; without one it needs the cache to keep its marker (if any)
/// last and the page to carry no reserved identity.
pub proof fn lemma_event_merge_idempotent(
    cached: Seq<LogEventV>,
    fetched: Seq<LogEventV>,
    has_token: bool,
)
    requires
        !has_token ==> marker_last_only(cached, event_id_fn(), event_reserved_id()) && no_marker(
            fetched,
            event_id_fn(),
            event_reserved_id(),
        ),
    ensures
        event_merge(event_merge(cached, fetched, has_token), fetched, has_token) == event_merge(
            cached,
            fetched,
            has_token,
        ),
{
    lemma_merge_idempotent(
        cached,
        fetched,
        event_id_fn(),
        event_reserved_id(),
        event_marker(),
        has_token,
    );
}

/// Marker uniqueness for the event table: if the cache keeps its marker (if
/// any) last and the page carries no reserved identity, a merge with a
/// token leaves exactly one marker row, in last place; a merge without one
/// leaves none. The shape is preserved, so this holds over any number of
/// merges.
pub proof fn lemma_event_merge_marker(
    cached: Seq<LogEventV>,
    fetched: Seq<LogEventV>,
    has_token: bool,
)
    requires
        marker_last_only(cached, event_id_fn(), event_reserved_id()),
        no_marker(fetched, event_id_fn(), event_reserved_id()),
    ensures
        marker_last_only(event_merge(cached, fetched, has_token), event_id_fn(), event_reserved_id()),
        has_token ==> {
            let r = event_merge(cached, fetched, has_token);
            r.len() > 0 && is_marker(event_id_fn(), event_reserved_id(), r.last())
        },
        !has_token ==> no_marker(event_merge(cached, fetched, has_token), event_id_fn(), event_reserved_id()),
{
    lemma_merge_marker(
        cached,
        fetched,
        event_id_fn(),
        event_reserved_id(),
        event_marker(),
        has_token,
    );
}

} // verus!
