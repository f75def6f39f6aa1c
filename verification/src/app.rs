//! The application root: the row of tabs and the dispatch of key presses
//! to the focused one.
use vstd::prelude::*;
use crate::keyevent::{KeyCode, KeyInput};
use crate::loggroup_menulist::{groups_view, LogGroup, LogGroupMenuList, LogGroupV};
use crate::logs::{fresh_logs, quiet_outcome, EventOutcome};
use crate::logstab::{tab_transition, LogsTab};
use crate::metricstab::MetricsTab;

verus! {

/// The application: the logs tab, the metrics tab, and which of the two
/// is focused.
pub struct App {
    pub current_tab_idx: usize,
    pub logs_tab: LogsTab,
    pub metrics_tab: MetricsTab,
}

impl App {
    /// The focused index points at one of the two tabs, and the logs tab
    /// is well formed.
    pub open spec fn wf(&self) -> bool {
        self.current_tab_idx < 2 && self.logs_tab.wf()
    }

    /// A fresh application: an empty logs tab focused, beside the metrics
    /// tab. The caller enqueues the initial group-listing fetch command.
    pub fn new() -> (r: App)
        ensures
            r.wf(),
            r.current_tab_idx == 0,
            r.logs_tab@.log_groups.items == Seq::<LogGroupV>::empty(),
            r.logs_tab@.is_menu_active == true,
            fresh_logs(r.logs_tab@.log_area, "Logs"@),
            r.logs_tab@.query is None,
    {
        let groups: Vec<LogGroup> = Vec::new();
        proof {
            assert(groups_view(groups@) =~= Seq::<LogGroupV>::empty());
        }
        App {
            current_tab_idx: 0,
            logs_tab: LogsTab::new(LogGroupMenuList::new(groups)),
            metrics_tab: MetricsTab::new(),
        }
    }

    /// The index of the tab after the focused one, wrapping past the last.
    pub fn get_next_tab_idx(&self) -> (r: usize)
        requires
            self.wf(),
        ensures
            r == (if self.current_tab_idx == 1 {
                0int
            } else {
                self.current_tab_idx + 1
            }),
    {
        if self.current_tab_idx == 1 {
            0
        } else {
            self.current_tab_idx + 1
        }
    }

    /// One key press: the focused tab takes it; an unconsumed `Tab` moves
    /// the focus to the next tab. The outcome is the focused tab's.
    pub fn handle_event(&mut self, key: KeyInput, now_millis: i64) -> (r: EventOutcome)
        requires
            old(self).wf(),
            now_millis >= 0,
        ensures
            final(self).wf(),
            final(self).metrics_tab == old(self).metrics_tab,
            old(self).current_tab_idx == 0 ==> {
                let t = tab_transition(old(self).logs_tab@, key, now_millis);
                &&& final(self).logs_tab@ == t.0
                &&& r@ == t.1
                &&& final(self).current_tab_idx == (if !t.1.handled && key.code is Tab {
                    1int
                } else {
                    0int
                })
            },
            old(self).current_tab_idx == 1 ==> {
                &&& final(self).logs_tab@ == old(self).logs_tab@
                &&& r@ == quiet_outcome(false)
                &&& final(self).current_tab_idx == (if key.code is Tab {
                    0int
                } else {
                    1int
                })
            },
    {
        let outcome = if self.current_tab_idx == 0 {
            self.logs_tab.handle_event(key, now_millis)
        } else {
            let handled = self.metrics_tab.handle_event(key);
            EventOutcome { handled, reset_store: false, fetch: None }
        };
        if !outcome.handled {
            match key.code {
                KeyCode::Tab => {
                    self.current_tab_idx = self.get_next_tab_idx();
                },
                _ => {},
            }
        }
        outcome
    }
}

} // verus!
