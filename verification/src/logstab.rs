//! The logs tab: the log-group menu on the left, the log pane on the
//! right, and the query line that narrows the menu.
use vstd::prelude::*;
use vstd::string::StringExecFns;
use crate::keyevent::{KeyCode, KeyInput};
use crate::loggroup_menulist::{
    filter_groups, group_labels, list_after_next, list_after_previous, LogGroupMenuList,
    LogGroupMenuListV,
};
use crate::logs::{
    fetch_cmd, fresh_logs, logs_transition, logs_wf, quiet_outcome, EventOutcome, EventOutcomeV,
    Logs, LogsV,
};
use crate::strutil::{string_drop_last, string_push_char, strings_view};
use crate::textinput::{InputMode, TextInputV};
use crate::utils::StatefulList;

verus! {

/// The mathematical reading of the tab.
pub struct LogsTabV {
    pub log_groups: LogGroupMenuListV,
    pub is_menu_active: bool,
    pub log_area: LogsV,
    pub query: Option<Seq<char>>,
}

/// The query line with one character typed onto it.
pub open spec fn pushed_query(q: Option<Seq<char>>, ch: char) -> Seq<char> {
    match q {
        Option::Some(s) => s.push(ch),
        Option::None => seq![ch],
    }
}

/// The query line with its last character taken off; an absent line stays
/// absent, an empty one empty.
pub open spec fn popped_query(q: Option<Seq<char>>) -> Option<Seq<char>> {
    match q {
        Option::Some(s) => Option::Some(
            if s.len() == 0 {
                s
            } else {
                s.drop_last()
            },
        ),
        Option::None => Option::None,
    }
}

/// The menu's title: the query line while one is typed, and a fetching
/// notice while the group listing is in flight.
pub open spec fn menu_title_spec(q: Option<Seq<char>>, fetching: bool) -> Seq<char> {
    if fetching {
        "Log Groups [Fetching ...]"@
    } else {
        match q {
            Option::Some(s) => "Log Groups ["@ + s + "]"@,
            Option::None => "Log Groups"@,
        }
    }
}

/// What one key press does to the tab. While the menu is focused, the
/// arrows move its wrapping cursor, characters and `Backspace` edit the
/// query line, and `Enter` hands the selected group to the log pane,
/// focuses it, and asks for its first fetch. Otherwise the key goes to the
/// log pane, and an unconsumed `Esc` focuses the menu again.
pub open spec fn tab_transition(pre: LogsTabV, key: KeyInput, now: i64) -> (LogsTabV, EventOutcomeV) {
    if pre.is_menu_active {
        match key.code {
            KeyCode::Down => (
                (LogsTabV { log_groups: list_after_next(pre.log_groups), ..pre }),
                quiet_outcome(true),
            ),
            KeyCode::Up => (
                (LogsTabV { log_groups: list_after_previous(pre.log_groups), ..pre }),
                quiet_outcome(true),
            ),
            KeyCode::Enter => {
                match pre.log_groups.state {
                    Option::Some(st) => match st.selected {
                        Option::Some(idx) => {
                            let name = if (idx as int) < pre.log_groups.items.len() {
                                pre.log_groups.items[idx as int].log_group_name
                            } else {
                                Option::None
                            };
                            (
                                (LogsTabV {
                                    is_menu_active: false,
                                    log_area: (LogsV {
                                        log_group_name: name,
                                        is_active: true,
                                        is_search_active: false,
                                        search_area: (TextInputV {
                                            is_active: false,
                                            input_mode: InputMode::NormalMode,
                                            ..pre.log_area.search_area
                                        }),
                                        ..pre.log_area
                                    }),
                                    ..pre
                                }),
                                EventOutcomeV {
                                    handled: true,
                                    reset_store: false,
                                    fetch: fetch_cmd(
                                        name,
                                        pre.log_area.search_area.msg,
                                        pre.log_area.search_mode,
                                        now,
                                    ),
                                },
                            )
                        },
                        Option::None => (pre, quiet_outcome(true)),
                    },
                    Option::None => (pre, quiet_outcome(true)),
                }
            },
            KeyCode::Char(ch) => (
                (LogsTabV { query: Option::Some(pushed_query(pre.query, ch)), ..pre }),
                quiet_outcome(true),
            ),
            KeyCode::Backspace => (
                (LogsTabV { query: popped_query(pre.query), ..pre }),
                quiet_outcome(true),
            ),
            _ => (pre, quiet_outcome(false)),
        }
    } else {
        let lt = logs_transition(pre.log_area, key, now);
        if lt.1.handled {
            ((LogsTabV { log_area: lt.0, ..pre }), lt.1)
        } else if key.code is Esc {
            (
                (LogsTabV {
                    is_menu_active: true,
                    log_area: (LogsV { is_active: false, ..lt.0 }),
                    ..pre
                }),
                EventOutcomeV { handled: true, ..lt.1 },
            )
        } else {
            ((LogsTabV { log_area: lt.0, ..pre }), lt.1)
        }
    }
}

/// The logs tab.
pub struct LogsTab {
    pub log_groups: LogGroupMenuList,
    pub is_menu_active: bool,
    pub log_area: Logs,
    query: Option<String>,
}

impl View for LogsTab {
    type V = LogsTabV;

    closed spec fn view(&self) -> LogsTabV {
        LogsTabV {
            log_groups: self.log_groups@,
            is_menu_active: self.is_menu_active,
            log_area: self.log_area@,
            query: crate::strutil::opt_str_view(self.query),
        }
    }
}

impl LogsTab {
    /// The log pane's filter box stays well formed.
    pub open spec fn wf(&self) -> bool {
        logs_wf(self@.log_area)
    }

    /// A fresh tab over the given menu, the menu focused, no query line.
    /// The caller enqueues the initial group-listing fetch command.
    pub fn new(log_groups: LogGroupMenuList) -> (r: LogsTab)
        ensures
            r.wf(),
            r@.log_groups == log_groups@,
            r@.is_menu_active == true,
            fresh_logs(r@.log_area, "Logs"@),
            r@.query is None,
    {
        LogsTab { log_groups, is_menu_active: true, log_area: Logs::new("Logs"), query: None }
    }

    /// Focuses the menu, leaving the log pane.
    fn activate_menu_area(&mut self)
        ensures
            final(self)@ == (LogsTabV {
                is_menu_active: true,
                log_area: (LogsV { is_active: false, ..old(self)@.log_area }),
                ..old(self)@
            }),
    {
        self.is_menu_active = true;
        self.log_area.deselect();
    }

    /// Focuses the log pane, leaving the menu.
    fn activate_log_area(&mut self)
        ensures
            final(self)@ == (LogsTabV {
                is_menu_active: false,
                log_area: (LogsV {
                    is_active: true,
                    is_search_active: false,
                    search_area: (TextInputV {
                        is_active: false,
                        input_mode: InputMode::NormalMode,
                        ..old(self)@.log_area.search_area
                    }),
                    ..old(self)@.log_area
                }),
                ..old(self)@
            }),
    {
        self.is_menu_active = false;
        self.log_area.select();
    }

    /// Types one character onto the query line, starting one if none is
    /// there.
    fn push_char_to_query(&mut self, ch: char)
        ensures
            final(self)@ == (LogsTabV {
                query: Option::Some(pushed_query(old(self)@.query, ch)),
                ..old(self)@
            }),
    {
        let new_q = match &self.query {
            Some(q) => {
                let mut q2 = q.clone();
                string_push_char(&mut q2, ch);
                q2
            },
            None => {
                let mut s = String::new();
                string_push_char(&mut s, ch);
                proof {
                    assert(s@ =~= seq![ch]);
                }
                s
            },
        };
        self.query = Some(new_q);
    }

    /// Takes the last character off the query line, if one is there.
    fn pop_char_from_query(&mut self)
        ensures
            final(self)@ == (LogsTabV { query: popped_query(old(self)@.query), ..old(self)@ }),
    {
        let new_q = match &self.query {
            Some(q) => Some(string_drop_last(q)),
            None => None,
        };
        self.query = new_q;
    }

    /// Adopts the store's group menu, keeping this tab's selection, and
    /// narrows it to the query line if one is typed; hands back the
    /// visible labels.
    pub fn refresh_groups(&mut self, store_groups: &LogGroupMenuList) -> (labels: Vec<String>)
        ensures
            final(self)@.log_groups.items == (match old(self)@.query {
                Option::Some(q) => filter_groups(store_groups@.items, q),
                Option::None => store_groups@.items,
            }),
            final(self)@.log_groups.state == old(self)@.log_groups.state,
            final(self)@.is_menu_active == old(self)@.is_menu_active,
            final(self)@.log_area == old(self)@.log_area,
            final(self)@.query == old(self)@.query,
            strings_view(labels@) == group_labels(final(self)@.log_groups.items),
    {
        let st = self.log_groups.get_state();
        self.log_groups = store_groups.clone_with_state(st);
        if let Some(query) = &self.query {
            let q = query.clone();
            self.log_groups.filter_items(q.as_str());
        }
        self.log_groups.get_labels()
    }

    /// The menu's title for the current query line and fetch flag.
    pub fn menu_title(&self, fetching: bool) -> (r: String)
        ensures
            r@ == menu_title_spec(self@.query, fetching),
    {
        if fetching {
            String::from_str("Log Groups [Fetching ...]")
        } else {
            match &self.query {
                Some(q) => {
                    let mut s = String::from_str("Log Groups [");
                    s.append(q.as_str());
                    s.append("]");
                    s
                },
                None => String::from_str("Log Groups"),
            }
        }
    }

    /// One key press on the tab.
    pub fn handle_event(&mut self, key: KeyInput, now_millis: i64) -> (r: EventOutcome)
        requires
            old(self).wf(),
            now_millis >= 0,
        ensures
            final(self).wf(),
            (final(self)@, r@) == tab_transition(old(self)@, key, now_millis),
    {
        let mut solved = true;
        let mut reset_store = false;
        let mut fetch = None;
        if self.is_menu_active {
            match key.code {
                KeyCode::Down => {
                    self.log_groups.next();
                },
                KeyCode::Up => {
                    self.log_groups.previous();
                },
                KeyCode::Enter => {
                    if let Some(state) = self.log_groups.get_state() {
                        if let Some(idx) = state.selected() {
                            let name = self.log_groups.get_log_group_name(idx);
                            self.log_area.set_log_group_name(name);
                            self.activate_log_area();
                            fetch = self.log_area.fetch_log_events(now_millis);
                        }
                    }
                },
                KeyCode::Char(ch) => {
                    self.push_char_to_query(ch);
                },
                KeyCode::Backspace => {
                    self.pop_char_from_query();
                },
                _ => {
                    solved = false;
                },
            }
        } else {
            let outcome = self.log_area.handle_event(key, now_millis);
            reset_store = outcome.reset_store;
            fetch = outcome.fetch;
            if !outcome.handled {
                match key.code {
                    KeyCode::Esc => self.activate_menu_area(),
                    _ => {
                        solved = false;
                    },
                }
            }
        }
        EventOutcome { handled: solved, reset_store, fetch }
    }
}

} // verus!
