//! The log pane: the filter box, the search-mode state machine, the cached
//! table projections of the paged and the tail store, and the command
//! handler that turns key presses into state changes and fetch commands.
//!
//! The pane never talks to the network or the store itself: its handler
//! reports in an [`EventOutcome`] whether the store's event results must be
//! reset and which fetch command, if any, to enqueue. The caller applies
//! the reset first, then sends the command.
use vstd::prelude::*;
use vstd::string::StringExecFns;
use crate::instruction::{opt_instr_view, Instruction, InstructionV};
use crate::keyevent::{KeyCode, KeyInput};
use crate::logevent_list::{
    event_rows, same_result_set, table_after_next, table_after_next_by, table_after_previous_by,
    table_fetch_signal, table_state_with, LogEventList, LogEventListV, LogEventV,
};
use crate::search::{resolved_range, search_range, SearchMode};
use crate::selection::TableState;
use crate::strutil::{clone_opt_string, opt_str_view, rows_view};
use crate::textinput::{text_transition, InputMode, TextInputComponent, TextInputV};
use crate::utils::{insert_new_line_at, with_newlines, StatefulTable};

verus! {

/// The mathematical reading of the log pane.
pub struct LogsV {
    pub search_area: TextInputV,
    pub title: Seq<char>,
    pub event_list: LogEventListV,
    pub tailed_event_list: LogEventListV,
    pub is_active: bool,
    pub is_search_active: bool,
    pub log_group_name: Option<Seq<char>>,
    pub cached_labels: Seq<Seq<Seq<char>>>,
    pub cached_tailed_labels: Seq<Seq<Seq<char>>>,
    pub search_mode: SearchMode,
}

/// What one handled key press asks the caller to do: whether the key was
/// consumed, whether the store's event results must be reset, and which
/// fetch command to enqueue. The reset comes before the send.
pub struct EventOutcome {
    pub handled: bool,
    pub reset_store: bool,
    pub fetch: Option<Instruction>,
}

/// The mathematical reading of an outcome.
pub struct EventOutcomeV {
    pub handled: bool,
    pub reset_store: bool,
    pub fetch: Option<InstructionV>,
}

impl View for EventOutcome {
    type V = EventOutcomeV;

    open spec fn view(&self) -> EventOutcomeV {
        EventOutcomeV {
            handled: self.handled,
            reset_store: self.reset_store,
            fetch: opt_instr_view(self.fetch),
        }
    }
}

/// An outcome that only reports whether the key was consumed.
pub open spec fn quiet_outcome(handled: bool) -> EventOutcomeV {
    EventOutcomeV { handled, reset_store: false, fetch: Option::None }
}

/// An empty event collection with a fresh selection state: what a cleared
/// table reads as.
pub open spec fn cleared_table_v() -> LogEventListV {
    LogEventListV {
        items: Seq::<LogEventV>::empty(),
        state: Option::Some(table_state_with(Option::None)),
    }
}

/// The fetch command the pane issues: nothing without a selected log
/// group; otherwise the group, the filter text, and the window the mode
/// resolves to now.
pub open spec fn fetch_cmd(
    name: Option<Seq<char>>,
    filter: Seq<char>,
    mode: SearchMode,
    now: i64,
) -> Option<InstructionV> {
    match name {
        Option::None => Option::None,
        Option::Some(g) => Option::Some(
            InstructionV::FetchLogEvents(
                g,
                filter,
                resolved_range(mode, now).0,
                resolved_range(mode, now).1,
            ),
        ),
    }
}

/// The characters that select a search mode while control is held.
pub open spec fn mode_key(c: char) -> bool {
    c == 'z' || c == 'x' || c == 'c' || c == 'v' || c == 'b' || c == 'n'
}

/// The mode a key press selects: its mode, or back to `All` when its mode
/// is the current one (a toggle).
pub open spec fn toggled_mode(cur: SearchMode, c: char) -> SearchMode {
    if c == 'z' {
        if cur is Tail {
            SearchMode::All
        } else {
            SearchMode::Tail
        }
    } else if c == 'x' {
        if cur is OneMinute {
            SearchMode::All
        } else {
            SearchMode::OneMinute
        }
    } else if c == 'c' {
        if cur is FifteenMinutes {
            SearchMode::All
        } else {
            SearchMode::FifteenMinutes
        }
    } else if c == 'v' {
        if cur is OneHour {
            SearchMode::All
        } else {
            SearchMode::OneHour
        }
    } else if c == 'b' {
        if cur is TwelveHours {
            SearchMode::All
        } else {
            SearchMode::TwelveHours
        }
    } else {
        if cur matches SearchMode::Range(_, _) {
            SearchMode::All
        } else {
            SearchMode::Range(0, 0)
        }
    }
}

/// A key press that selects a search mode: control held, the filter box
/// not in edit mode, and one of the mode characters.
pub open spec fn is_mode_command(pre: LogsV, key: KeyInput) -> bool {
    &&& pre.search_area.input_mode is NormalMode
    &&& key.ctrl
    &&& (key.code matches KeyCode::Char(c) && mode_key(c))
}

/// The filter box's title: the mode row, the active mode ticked.
pub open spec fn search_title(mode: SearchMode) -> Seq<char> {
    "Filter(f) - Mode: "@ + (if mode is Tail {
        "[x]tail"@
    } else {
        "[ ]tail"@
    }) + (if mode is OneMinute {
        "[x]1m"@
    } else {
        "[ ]1m"@
    }) + (if mode is FifteenMinutes {
        "[x]15m"@
    } else {
        "[ ]15m"@
    }) + (if mode is OneHour {
        "[x]1h"@
    } else {
        "[ ]1h"@
    }) + (if mode is TwelveHours {
        "[x]12h"@
    } else {
        "[ ]12h"@
    }) + (if mode matches SearchMode::Range(_, _) {
        "[x]range(2020-12-12-01:01:00~2020-12-15-01:00:30)"@
    } else {
        "[ ]range(2020-12-12-01:01:00~2020-12-15-01:00:30)"@
    })
}

/// The full text shown for the selected row: the selected event's message,
/// broken into lines of `wrap` characters; empty without a selection, past
/// the end, or without a message.
pub open spec fn selected_text(
    state: Option<TableState>,
    items: Seq<LogEventV>,
    wrap: int,
) -> Seq<char> {
    match state {
        Option::Some(st) => match st.selected {
            Option::Some(idx) => if (idx as int) < items.len() {
                match items[idx as int].message {
                    Option::Some(m) => with_newlines(m, wrap),
                    Option::None => Seq::empty(),
                }
            } else {
                Seq::empty()
            },
            Option::None => Seq::empty(),
        },
        Option::None => Seq::empty(),
    }
}

/// What one key press does to the pane, and what it asks of the caller.
///
/// A mode command (control plus a mode character, filter box at rest)
/// toggles the search mode, clears all results, asks for a store reset and
/// a fresh fetch; such a key is still reported unconsumed, so it can
/// reach the tab row.
/// While the filter box is focused, keys go to it; `Enter` out of its edit
/// mode submits the filter: clear, reset, fetch, focus back on the logs.
/// Otherwise the arrows move the table cursor (stilled in tail mode),
/// shift stepping by ten, and a cursor stopped at the marker row asks for
/// the next page; `f` focuses the filter box.
pub open spec fn logs_transition(pre: LogsV, key: KeyInput, now: i64) -> (LogsV, EventOutcomeV) {
    if is_mode_command(pre, key) {
        match key.code {
            KeyCode::Char(c) => {
                let m = toggled_mode(pre.search_mode, c);
                (
                    (LogsV {
                        search_mode: m,
                        event_list: cleared_table_v(),
                        tailed_event_list: cleared_table_v(),
                        cached_labels: Seq::<Seq<Seq<char>>>::empty(),
                        cached_tailed_labels: Seq::<Seq<Seq<char>>>::empty(),
                        ..pre
                    }),
                    EventOutcomeV {
                        handled: false,
                        reset_store: true,
                        fetch: fetch_cmd(pre.log_group_name, pre.search_area.msg, m, now),
                    },
                )
            },
            _ => (pre, quiet_outcome(false)),
        }
    } else if pre.is_search_active {
        let tt = text_transition(pre.search_area, key);
        if tt.1 {
            ((LogsV { search_area: tt.0, ..pre }), quiet_outcome(true))
        } else if key.code is Enter {
            (
                (LogsV {
                    search_area: (TextInputV {
                        is_active: false,
                        input_mode: InputMode::NormalMode,
                        ..pre.search_area
                    }),
                    is_search_active: false,
                    event_list: cleared_table_v(),
                    tailed_event_list: cleared_table_v(),
                    cached_labels: Seq::<Seq<Seq<char>>>::empty(),
                    cached_tailed_labels: Seq::<Seq<Seq<char>>>::empty(),
                    ..pre
                }),
                EventOutcomeV {
                    handled: true,
                    reset_store: true,
                    fetch: fetch_cmd(
                        pre.log_group_name,
                        pre.search_area.msg,
                        pre.search_mode,
                        now,
                    ),
                },
            )
        } else {
            (pre, quiet_outcome(false))
        }
    } else {
        match key.code {
            KeyCode::Down => if pre.search_mode is Tail {
                (pre, quiet_outcome(true))
            } else {
                let after = if key.shift {
                    table_after_next_by(pre.event_list, 10)
                } else {
                    table_after_next(pre.event_list)
                };
                let sig = table_fetch_signal(pre.event_list);
                (
                    (LogsV { event_list: after, ..pre }),
                    EventOutcomeV {
                        handled: true,
                        reset_store: false,
                        fetch: if sig {
                            fetch_cmd(
                                pre.log_group_name,
                                pre.search_area.msg,
                                pre.search_mode,
                                now,
                            )
                        } else {
                            Option::None
                        },
                    },
                )
            },
            KeyCode::Up => if pre.search_mode is Tail {
                (pre, quiet_outcome(true))
            } else {
                let after = if key.shift {
                    table_after_previous_by(pre.event_list, 10)
                } else {
                    table_after_previous_by(pre.event_list, 1)
                };
                ((LogsV { event_list: after, ..pre }), quiet_outcome(true))
            },
            KeyCode::Char(c) => if c == 'f' {
                (
                    (LogsV {
                        is_search_active: true,
                        search_area: (TextInputV { is_active: true, ..pre.search_area }),
                        ..pre
                    }),
                    quiet_outcome(true),
                )
            } else {
                (pre, quiet_outcome(false))
            },
            _ => (pre, quiet_outcome(false)),
        }
    }
}

/// What a freshly built pane reads as: empty filter box, empty
/// collections, mode `All`, no log group, inactive; the label caches start
/// with one empty row.
pub open spec fn fresh_logs(v: LogsV, title: Seq<char>) -> bool {
    &&& v.search_area.title == "Filter(f)"@
    &&& v.search_area.default_msg == Seq::<char>::empty()
    &&& v.search_area.msg == Seq::<char>::empty()
    &&& v.search_area.input_mode is NormalMode
    &&& v.search_area.is_active == false
    &&& v.search_area.cursor == 0
    &&& v.title == title
    &&& v.event_list == cleared_table_v()
    &&& v.tailed_event_list == cleared_table_v()
    &&& v.is_active == false
    &&& v.is_search_active == false
    &&& v.log_group_name is None
    &&& v.cached_labels == seq![Seq::<Seq<char>>::empty()]
    &&& v.cached_tailed_labels == seq![Seq::<Seq<char>>::empty()]
    &&& v.search_mode is All
}

/// The log pane.
pub struct Logs {
    search_area: TextInputComponent,
    title: String,
    event_list: LogEventList,
    tailed_event_list: LogEventList,
    is_active: bool,
    is_search_active: bool,
    log_group_name: Option<String>,
    cached_labels: Vec<Vec<String>>,
    cached_tailed_labels: Vec<Vec<String>>,
    search_mode: SearchMode,
}

impl View for Logs {
    type V = LogsV;

    closed spec fn view(&self) -> LogsV {
        LogsV {
            search_area: self.search_area@,
            title: self.title@,
            event_list: self.event_list@,
            tailed_event_list: self.tailed_event_list@,
            is_active: self.is_active,
            is_search_active: self.is_search_active,
            log_group_name: opt_str_view(self.log_group_name),
            cached_labels: rows_view(self.cached_labels@),
            cached_tailed_labels: rows_view(self.cached_tailed_labels@),
            search_mode: self.search_mode,
        }
    }
}

/// The pane's well-formedness: the filter box's cursor stays inside its
/// text.
pub open spec fn logs_wf(v: LogsV) -> bool {
    v.search_area.cursor <= v.search_area.msg.len()
}

impl Logs {
    /// The filter box's cursor stays inside its text.
    pub open spec fn wf(&self) -> bool {
        logs_wf(self@)
    }

    /// A fresh pane: empty filter box, empty collections, mode `All`, no
    /// log group, inactive. The label cache starts with one empty row.
    pub fn new(title: &str) -> (r: Self)
        ensures
            r.wf(),
            fresh_logs(r@, title@),
    {
        let empty_events: Vec<crate::logevent_list::LogEvent> = Vec::new();
        let empty_events_tail: Vec<crate::logevent_list::LogEvent> = Vec::new();
        let mut cl: Vec<Vec<String>> = Vec::new();
        cl.push(Vec::new());
        let mut ctl: Vec<Vec<String>> = Vec::new();
        ctl.push(Vec::new());
        proof {
            reveal_strlit("");
            assert(""@ =~= Seq::<char>::empty());
            assert(crate::logevent_list::events_view(empty_events@) =~= Seq::<LogEventV>::empty());
            assert(crate::logevent_list::events_view(empty_events_tail@) =~= Seq::<
                LogEventV,
            >::empty());
            assert(rows_view(cl@) =~~= seq![Seq::<Seq<char>>::empty()]);
            assert(rows_view(ctl@) =~~= seq![Seq::<Seq<char>>::empty()]);
        }
        Self {
            search_area: TextInputComponent::new("Filter(f)", ""),
            title: title.to_owned(),
            event_list: LogEventList::new(empty_events),
            tailed_event_list: LogEventList::new(empty_events_tail),
            is_active: false,
            is_search_active: false,
            log_group_name: None,
            cached_labels: cl,
            cached_tailed_labels: ctl,
            search_mode: SearchMode::All,
        }
    }

    /// Makes the pane active, with the logs area (not the filter box)
    /// focused.
    pub fn select(&mut self)
        ensures
            final(self)@ == (LogsV {
                is_active: true,
                is_search_active: false,
                search_area: (TextInputV {
                    is_active: false,
                    input_mode: InputMode::NormalMode,
                    ..old(self)@.search_area
                }),
                ..old(self)@
            }),
    {
        self.is_active = true;
        self.activate_logs_area();
    }

    /// Makes the pane inactive.
    pub fn deselect(&mut self)
        ensures
            final(self)@ == (LogsV { is_active: false, ..old(self)@ }),
    {
        self.is_active = false;
    }

    /// Focuses the filter box.
    pub fn activate_search_area(&mut self)
        ensures
            final(self)@ == (LogsV {
                is_search_active: true,
                search_area: (TextInputV { is_active: true, ..old(self)@.search_area }),
                ..old(self)@
            }),
    {
        self.is_search_active = true;
        self.search_area.select();
    }

    /// Focuses the logs area, leaving the filter box's edit mode.
    pub fn activate_logs_area(&mut self)
        ensures
            final(self)@ == (LogsV {
                is_search_active: false,
                search_area: (TextInputV {
                    is_active: false,
                    input_mode: InputMode::NormalMode,
                    ..old(self)@.search_area
                }),
                ..old(self)@
            }),
    {
        self.is_search_active = false;
        self.search_area.set_input_mode(InputMode::NormalMode);
        self.search_area.deselect();
    }

    /// Whether the pane is the active one.
    pub fn is_active(&self) -> (r: bool)
        ensures
            r == self@.is_active,
    {
        self.is_active
    }

    /// Selects the log group the pane fetches events for.
    pub fn set_log_group_name(&mut self, log_group_name: Option<String>)
        ensures
            final(self)@ == (LogsV {
                log_group_name: opt_str_view(log_group_name),
                ..old(self)@
            }),
    {
        self.log_group_name = log_group_name;
    }

    /// The selected log group, if any.
    pub fn get_log_group_name(&self) -> (r: Option<String>)
        ensures
            opt_str_view(r) == self@.log_group_name,
    {
        clone_opt_string(&self.log_group_name)
    }

    /// Drops the cached label projections.
    fn clear_cache(&mut self)
        ensures
            final(self)@ == (LogsV {
                cached_labels: Seq::<Seq<Seq<char>>>::empty(),
                cached_tailed_labels: Seq::<Seq<Seq<char>>>::empty(),
                ..old(self)@
            }),
    {
        self.cached_labels = Vec::new();
        self.cached_tailed_labels = Vec::new();
        proof {
            assert(rows_view(self.cached_labels@) =~~= Seq::<Seq<Seq<char>>>::empty());
            assert(rows_view(self.cached_tailed_labels@) =~~= Seq::<Seq<Seq<char>>>::empty());
        }
    }

    /// Clears the pane's own event collections and label caches. The
    /// shared store's results are reset by the caller, as the handler's
    /// outcome asks.
    pub fn clear_results(&mut self)
        ensures
            final(self)@ == (LogsV {
                event_list: cleared_table_v(),
                tailed_event_list: cleared_table_v(),
                cached_labels: Seq::<Seq<Seq<char>>>::empty(),
                cached_tailed_labels: Seq::<Seq<Seq<char>>>::empty(),
                ..old(self)@
            }),
    {
        self.event_list.clear_items();
        self.tailed_event_list.clear_items();
        self.clear_cache();
    }

    /// The fetch command for the current query: nothing without a selected
    /// log group; otherwise the group, the filter text, and the window the
    /// mode resolves to now.
    pub fn fetch_log_events(&self, now_millis: i64) -> (r: Option<Instruction>)
        requires
            now_millis >= 0,
        ensures
            opt_instr_view(r) == fetch_cmd(
                self@.log_group_name,
                self@.search_area.msg,
                self@.search_mode,
                now_millis,
            ),
    {
        if let Some(log_group_name) = &self.log_group_name {
            let range = search_range(self.search_mode, now_millis);
            let filter = self.search_area.get_text();
            Some(Instruction::FetchLogEvents(log_group_name.clone(), filter, range.0, range.1))
        } else {
            None
        }
    }

    /// The filter box's title for the current mode.
    pub fn get_search_area_title(&self) -> (r: String)
        ensures
            r@ == search_title(self@.search_mode),
    {
        let mut s = String::from_str("Filter(f) - Mode: ");
        if matches!(self.search_mode, SearchMode::Tail) {
            s.append("[x]tail");
        } else {
            s.append("[ ]tail");
        }
        if matches!(self.search_mode, SearchMode::OneMinute) {
            s.append("[x]1m");
        } else {
            s.append("[ ]1m");
        }
        if matches!(self.search_mode, SearchMode::FifteenMinutes) {
            s.append("[x]15m");
        } else {
            s.append("[ ]15m");
        }
        if matches!(self.search_mode, SearchMode::OneHour) {
            s.append("[x]1h");
        } else {
            s.append("[ ]1h");
        }
        if matches!(self.search_mode, SearchMode::TwelveHours) {
            s.append("[x]12h");
        } else {
            s.append("[ ]12h");
        }
        if matches!(self.search_mode, SearchMode::Range(_, _)) {
            s.append("[x]range(2020-12-12-01:01:00~2020-12-15-01:00:30)");
        } else {
            s.append("[ ]range(2020-12-12-01:01:00~2020-12-15-01:00:30)");
        }
        s
    }

    /// Writes the current mode's title onto the filter box.
    pub fn refresh_search_title(&mut self)
        ensures
            final(self)@ == (LogsV {
                search_area: (TextInputV {
                    title: search_title(old(self)@.search_mode),
                    ..old(self)@.search_area
                }),
                ..old(self)@
            }),
    {
        let t = self.get_search_area_title();
        self.search_area.set_title(t);
    }

    /// Leaves any special search mode, back to `All`.
    fn clear_search_mode(&mut self)
        ensures
            final(self)@ == (LogsV { search_mode: SearchMode::All, ..old(self)@ }),
    {
        self.search_mode = SearchMode::All;
    }

    /// Whether the pane is in live-tail mode.
    pub fn is_tail_mode(&self) -> (r: bool)
        ensures
            r == (self@.search_mode is Tail),
    {
        matches!(self.search_mode, SearchMode::Tail)
    }

    /// The query the tail store should follow: the selected log group and
    /// the filter text, or nothing while no group is selected.
    pub fn tail_query(&self) -> (r: Option<(String, String)>)
        ensures
            match r {
                Option::Some(q) => self@.log_group_name == Option::Some(q.0@) && q.1@
                    == self@.search_area.msg,
                Option::None => self@.log_group_name is None,
            },
    {
        if let Some(name) = &self.log_group_name {
            Some((name.clone(), self.search_area.get_text()))
        } else {
            None
        }
    }

    /// Adopts the store's event collection when its snapshot differs from
    /// the pane's (by the cheap same-result-set check), keeping the pane's
    /// selection and recomputing the label cache; a matching snapshot
    /// changes nothing.
    pub fn refresh_event_view(&mut self, store_events: &LogEventList)
        ensures
            same_result_set(old(self)@.event_list.items, store_events@.items) ==> final(self)@
                == old(self)@,
            !same_result_set(old(self)@.event_list.items, store_events@.items) ==> final(self)@
                == (LogsV {
                event_list: (LogEventListV {
                    items: store_events@.items,
                    state: old(self)@.event_list.state,
                }),
                cached_labels: event_rows(store_events@.items),
                ..old(self)@
            }),
    {
        if !self.event_list.is_same(store_events) {
            let st = self.event_list.get_state();
            self.event_list = store_events.clone_with_state(st);
            self.cached_labels = self.event_list.get_labels();
        }
    }

    /// As `refresh_event_view`, for the tail store; after adopting a new
    /// snapshot the selection lands on the last row, so newly arrived
    /// events are always visible.
    pub fn refresh_tail_view(&mut self, store_events: &LogEventList)
        ensures
            same_result_set(old(self)@.tailed_event_list.items, store_events@.items)
                ==> final(self)@ == old(self)@,
            !same_result_set(old(self)@.tailed_event_list.items, store_events@.items)
                ==> final(self)@ == (LogsV {
                tailed_event_list: (LogEventListV {
                    items: store_events@.items,
                    state: Option::Some(
                        table_state_with(
                            Option::Some(
                                (if store_events@.items.len() == 0 {
                                    0usize
                                } else {
                                    (store_events@.items.len() - 1) as usize
                                }),
                            ),
                        ),
                    ),
                }),
                cached_tailed_labels: event_rows(store_events@.items),
                ..old(self)@
            }),
    {
        if !self.tailed_event_list.is_same(store_events) {
            let st = self.tailed_event_list.get_state();
            self.tailed_event_list = store_events.clone_with_state(st);
            self.cached_tailed_labels = self.tailed_event_list.get_labels();
            let mut new_state = TableState::default();
            let n = self.cached_tailed_labels.len();
            proof {
                assert(rows_view(self.cached_tailed_labels@).len()
                    == self.cached_tailed_labels@.len());
                assert(event_rows(store_events@.items).len() == store_events@.items.len());
                assert(n == store_events@.items.len());
            }
            let sel = if n == 0 {
                0
            } else {
                n - 1
            };
            new_state.select(Some(sel));
            self.tailed_event_list.set_state(new_state);
        }
    }

    /// The full text for the selected row, wrapped to `wrap_at` characters
    /// per line; empty without a selection or a message. Never reads out
    /// of range.
    pub fn selected_event_text(&self, store_events: &LogEventList, wrap_at: usize) -> (r: String)
        requires
            wrap_at >= 1,
        ensures
            r@ == selected_text(self@.event_list.state, store_events@.items, wrap_at as int),
    {
        if let Some(st) = self.event_list.current_state() {
            if let Some(idx) = st.selected() {
                if let Some(msg) = store_events.get_log_event_text(idx) {
                    return insert_new_line_at(wrap_at, msg.as_str());
                }
            }
        }
        String::new()
    }

    /// The pane's title.
    pub fn get_title(&self) -> (r: String)
        ensures
            r@ == self@.title,
    {
        self.title.clone()
    }

    /// The filter box, for painting.
    pub fn search_area(&self) -> (r: &TextInputComponent)
        ensures
            r@ == self@.search_area,
    {
        &self.search_area
    }

    /// The paged event collection, for painting.
    pub fn event_list(&self) -> (r: &LogEventList)
        ensures
            r@ == self@.event_list,
    {
        &self.event_list
    }

    /// The tail event collection, for painting.
    pub fn tailed_event_list(&self) -> (r: &LogEventList)
        ensures
            r@ == self@.tailed_event_list,
    {
        &self.tailed_event_list
    }

    /// The cached rows of the paged table, for painting.
    pub fn cached_rows(&self) -> (r: &Vec<Vec<String>>)
        ensures
            rows_view(r@) == self@.cached_labels,
    {
        &self.cached_labels
    }

    /// The cached rows of the tail table, for painting.
    pub fn cached_tail_rows(&self) -> (r: &Vec<Vec<String>>)
        ensures
            rows_view(r@) == self@.cached_tailed_labels,
    {
        &self.cached_tailed_labels
    }

    /// One key press on the pane.
    ///
    /// With control held and the filter box at rest, a mode character
    /// toggles its search mode, clears all results and asks for a fresh
    /// fetch; such a key is still reported unconsumed.
    /// While the filter box is focused, keys go to it; `Enter` out of its
    /// edit mode submits the filter: clear, fetch, focus back on the logs.
    /// Otherwise the arrows move the table cursor (stilled in tail mode) —
    /// shift steps by ten — and a cursor stopped at the marker row asks
    /// for the next page; `f` focuses the filter box.
    pub fn handle_event(&mut self, key: KeyInput, now_millis: i64) -> (r: EventOutcome)
        requires
            old(self).wf(),
            now_millis >= 0,
        ensures
            final(self).wf(),
            (final(self)@, r@) == logs_transition(old(self)@, key, now_millis),
    {
        let mut solved = true;
        let mut reset_store = false;
        let mut fetch: Option<Instruction> = None;
        if self.search_area.is_normal_mode() && key.ctrl {
            if let KeyCode::Char(c) = key.code {
                if c == 'z' || c == 'x' || c == 'c' || c == 'v' || c == 'b' || c == 'n' {
                    let new_mode = if c == 'z' {
                        if matches!(self.search_mode, SearchMode::Tail) {
                            SearchMode::All
                        } else {
                            SearchMode::Tail
                        }
                    } else if c == 'x' {
                        if matches!(self.search_mode, SearchMode::OneMinute) {
                            SearchMode::All
                        } else {
                            SearchMode::OneMinute
                        }
                    } else if c == 'c' {
                        if matches!(self.search_mode, SearchMode::FifteenMinutes) {
                            SearchMode::All
                        } else {
                            SearchMode::FifteenMinutes
                        }
                    } else if c == 'v' {
                        if matches!(self.search_mode, SearchMode::OneHour) {
                            SearchMode::All
                        } else {
                            SearchMode::OneHour
                        }
                    } else if c == 'b' {
                        if matches!(self.search_mode, SearchMode::TwelveHours) {
                            SearchMode::All
                        } else {
                            SearchMode::TwelveHours
                        }
                    } else {
                        if matches!(self.search_mode, SearchMode::Range(_, _)) {
                            SearchMode::All
                        } else {
                            SearchMode::Range(0, 0)
                        }
                    };
                    self.search_mode = new_mode;
                    self.clear_results();
                    reset_store = true;
                    fetch = self.fetch_log_events(now_millis);
                }
            }
        }
        if self.is_search_active {
            if !self.search_area.handle_event(key) {
                match key.code {
                    KeyCode::Enter => {
                        self.clear_results();
                        reset_store = true;
                        fetch = self.fetch_log_events(now_millis);
                        self.activate_logs_area();
                    },
                    _ => {
                        solved = false;
                    },
                }
            }
        } else {
            match key.code {
                KeyCode::Down => {
                    if !self.is_tail_mode() {
                        let sig = if key.shift {
                            self.event_list.next_by(10)
                        } else {
                            self.event_list.next()
                        };
                        if sig {
                            fetch = self.fetch_log_events(now_millis);
                        }
                    }
                },
                KeyCode::Up => {
                    if !self.is_tail_mode() {
                        if key.shift {
                            self.event_list.previous_by(10);
                        } else {
                            self.event_list.previous();
                        }
                    }
                },
                KeyCode::Char(c) => {
                    if c == 'f' {
                        self.activate_search_area();
                    } else {
                        solved = false;
                    }
                },
                _ => {
                    solved = false;
                },
            }
        }
        EventOutcome { handled: solved, reset_store, fetch }
    }
}

} // verus!
