//! The shared state stores: the cache that background fetch workers fill
//! and the render loop reads. One store serves the interactively paged
//! queries; a second, independent one serves the live-tail query, so
//! switching into or out of tail mode never corrupts paged results.
use vstd::prelude::*;
use crate::logevent_list::{
    event_merge, events_view, table_state_with, LogEvent, LogEventList, LogEventV,
};
use crate::loggroup_menulist::{
    group_merge, groups_view, list_state_with, LogGroup, LogGroupMenuList, LogGroupV,
};
use crate::strutil::{clone_opt_string, opt_str_view};

verus! {

/// The paged-query store: the cached log groups and log events, their
/// pagination tokens, the per-collection in-flight flags, and the log group
/// the cached events belong to.
pub struct GlobalState {
    pub log_groups: LogGroupMenuList,
    pub log_groups_next_token: Option<String>,
    pub log_groups_fetching: bool,
    pub log_events: LogEventList,
    pub log_events_next_token: Option<String>,
    pub log_events_fetching: bool,
    pub log_events_selected_log_group_name: String,
}

impl GlobalState {
    /// A fresh store: both collections empty, no tokens, nothing in flight.
    pub fn new() -> (r: Self)
        ensures
            r.log_groups@.items == Seq::<LogGroupV>::empty(),
            r.log_groups@.state == Option::Some(list_state_with(Option::None)),
            r.log_groups_next_token is None,
            r.log_groups_fetching == false,
            r.log_events@.items == Seq::<LogEventV>::empty(),
            r.log_events@.state == Option::Some(table_state_with(Option::None)),
            r.log_events_next_token is None,
            r.log_events_fetching == false,
            r.log_events_selected_log_group_name@ == Seq::<char>::empty(),
    {
        let groups: Vec<LogGroup> = Vec::new();
        let events: Vec<LogEvent> = Vec::new();
        proof {
            assert(groups_view(groups@) =~= Seq::<LogGroupV>::empty());
            assert(events_view(events@) =~= Seq::<LogEventV>::empty());
        }
        Self {
            log_groups: LogGroupMenuList::new(groups),
            log_groups_next_token: None,
            log_groups_fetching: false,
            log_events: LogEventList::new(events),
            log_events_next_token: None,
            log_events_fetching: false,
            log_events_selected_log_group_name: String::new(),
        }
    }

    /// Clears the event collection and its pagination token, so no stale
    /// cross-query rows survive a change of query.
    pub fn reset_log_event_results(&mut self)
        ensures
            final(self).log_events@.items == Seq::<LogEventV>::empty(),
            final(self).log_events@.state == Option::Some(table_state_with(Option::None)),
            final(self).log_events_next_token is None,
            final(self).log_events_fetching == old(self).log_events_fetching,
            final(self).log_events_selected_log_group_name == old(
                self,
            ).log_events_selected_log_group_name,
            final(self).log_groups == old(self).log_groups,
            final(self).log_groups_next_token == old(self).log_groups_next_token,
            final(self).log_groups_fetching == old(self).log_groups_fetching,
    {
        self.log_events.clear_items();
        self.log_events_next_token = None;
    }

    /// What a worker does before it sends a log-event request: raises the
    /// in-flight flag, and clears the event collection and its token first
    /// if the request is for another log group than the cached rows belong
    /// to. Returns the pagination token the request should carry.
    pub fn prepare_log_events_fetch(&mut self, log_group_name: &String) -> (token: Option<String>)
        ensures
            old(self).log_events_selected_log_group_name@ != log_group_name@ ==> {
                &&& final(self).log_events@.items == Seq::<LogEventV>::empty()
                &&& final(self).log_events@.state == Option::Some(table_state_with(Option::None))
                &&& final(self).log_events_next_token is None
            },
            old(self).log_events_selected_log_group_name@ == log_group_name@ ==> {
                &&& final(self).log_events == old(self).log_events
                &&& final(self).log_events_next_token == old(self).log_events_next_token
            },
            final(self).log_events_fetching == true,
            opt_str_view(token) == opt_str_view(final(self).log_events_next_token),
            final(self).log_events_selected_log_group_name == old(
                self,
            ).log_events_selected_log_group_name,
            final(self).log_groups == old(self).log_groups,
            final(self).log_groups_next_token == old(self).log_groups_next_token,
            final(self).log_groups_fetching == old(self).log_groups_fetching,
    {
        self.log_events_fetching = true;
        if !(*log_group_name == self.log_events_selected_log_group_name) {
            self.reset_log_event_results();
        }
        clone_opt_string(&self.log_events_next_token)
    }

    /// What a worker does with a fetched page of events: records the log
    /// group the rows belong to and the new token, merges the page into the
    /// event collection, and lowers the in-flight flag.
    pub fn apply_log_events_page(
        &mut self,
        log_group_name: &String,
        events: &Vec<LogEvent>,
        next_token: Option<String>,
    )
        ensures
            final(self).log_events_selected_log_group_name@ == log_group_name@,
            final(self).log_events_next_token == next_token,
            final(self).log_events@.items == event_merge(
                old(self).log_events@.items,
                events_view(events@),
                next_token.is_some(),
            ),
            final(self).log_events@.state == old(self).log_events@.state,
            final(self).log_events_fetching == false,
            final(self).log_groups == old(self).log_groups,
            final(self).log_groups_next_token == old(self).log_groups_next_token,
            final(self).log_groups_fetching == old(self).log_groups_fetching,
    {
        self.log_events_selected_log_group_name = log_group_name.clone();
        self.log_events.push_items(events, next_token.as_ref());
        self.log_events_next_token = next_token;
        self.log_events_fetching = false;
    }

    /// What a worker does when a log-event request fails: only the
    /// in-flight flag is lowered; nothing else moves.
    pub fn fail_log_events_fetch(&mut self)
        ensures
            final(self).log_events_fetching == false,
            final(self).log_events == old(self).log_events,
            final(self).log_events_next_token == old(self).log_events_next_token,
            final(self).log_events_selected_log_group_name == old(
                self,
            ).log_events_selected_log_group_name,
            final(self).log_groups == old(self).log_groups,
            final(self).log_groups_next_token == old(self).log_groups_next_token,
            final(self).log_groups_fetching == old(self).log_groups_fetching,
    {
        self.log_events_fetching = false;
    }

    /// Raises the in-flight flag for the log-group listing.
    pub fn begin_log_groups_fetch(&mut self)
        ensures
            final(self).log_groups_fetching == true,
            final(self).log_groups == old(self).log_groups,
            final(self).log_groups_next_token == old(self).log_groups_next_token,
            final(self).log_events == old(self).log_events,
            final(self).log_events_next_token == old(self).log_events_next_token,
            final(self).log_events_fetching == old(self).log_events_fetching,
            final(self).log_events_selected_log_group_name == old(
                self,
            ).log_events_selected_log_group_name,
    {
        self.log_groups_fetching = true;
    }

    /// What a worker does with one fetched page of groups: records the new
    /// token and merges the page. Reports whether more pages remain, so the
    /// worker knows to go on paging.
    pub fn apply_log_groups_page(&mut self, groups: &Vec<LogGroup>, next_token: Option<String>) -> (more:
        bool)
        ensures
            final(self).log_groups_next_token == next_token,
            final(self).log_groups@.items == group_merge(
                old(self).log_groups@.items,
                groups_view(groups@),
                next_token.is_some(),
            ),
            final(self).log_groups@.state == old(self).log_groups@.state,
            more == next_token.is_some(),
            final(self).log_groups_fetching == old(self).log_groups_fetching,
            final(self).log_events == old(self).log_events,
            final(self).log_events_next_token == old(self).log_events_next_token,
            final(self).log_events_fetching == old(self).log_events_fetching,
            final(self).log_events_selected_log_group_name == old(
                self,
            ).log_events_selected_log_group_name,
    {
        let more = next_token.is_some();
        self.log_groups.push_items(groups, next_token.as_ref());
        self.log_groups_next_token = next_token;
        more
    }

    /// Lowers the in-flight flag for the log-group listing.
    pub fn finish_log_groups_fetch(&mut self)
        ensures
            final(self).log_groups_fetching == false,
            final(self).log_groups == old(self).log_groups,
            final(self).log_groups_next_token == old(self).log_groups_next_token,
            final(self).log_events == old(self).log_events,
            final(self).log_events_next_token == old(self).log_events_next_token,
            final(self).log_events_fetching == old(self).log_events_fetching,
            final(self).log_events_selected_log_group_name == old(
                self,
            ).log_events_selected_log_group_name,
    {
        self.log_groups_fetching = false;
    }
}

/// The tail-mode store: its own event collection and query, isolated from
/// the paged store.
pub struct GlobalStateTail {
    pub log_events: LogEventList,
    pub log_events_next_token: Option<String>,
    pub log_events_fetching: bool,
    pub log_events_selected_log_group_name: String,
    pub log_events_filter_pattern: Option<String>,
}

impl GlobalStateTail {
    /// A fresh tail store: nothing cached, no query yet.
    pub fn new() -> (r: Self)
        ensures
            r.log_events@.items == Seq::<LogEventV>::empty(),
            r.log_events@.state == Option::Some(table_state_with(Option::None)),
            r.log_events_next_token is None,
            r.log_events_fetching == false,
            r.log_events_selected_log_group_name@ == Seq::<char>::empty(),
            r.log_events_filter_pattern is None,
    {
        let events: Vec<LogEvent> = Vec::new();
        proof {
            assert(events_view(events@) =~= Seq::<LogEventV>::empty());
        }
        Self {
            log_events: LogEventList::new(events),
            log_events_next_token: None,
            log_events_fetching: false,
            log_events_selected_log_group_name: String::new(),
            log_events_filter_pattern: None,
        }
    }

    /// Keeps the tail query in step with the UI: the selected log group and
    /// the filter text the next tail fetch should use.
    pub fn sync_query(&mut self, log_group_name: &String, filter: &String)
        ensures
            final(self).log_events_selected_log_group_name@ == log_group_name@,
            (final(self).log_events_filter_pattern matches Option::Some(f) && f@ == filter@),
            final(self).log_events == old(self).log_events,
            final(self).log_events_next_token == old(self).log_events_next_token,
            final(self).log_events_fetching == old(self).log_events_fetching,
    {
        self.log_events_selected_log_group_name = log_group_name.clone();
        self.log_events_filter_pattern = Some(filter.clone());
    }

    /// Raises the in-flight flag and hands back the token the tail request
    /// should carry.
    pub fn begin_tail_fetch(&mut self) -> (token: Option<String>)
        ensures
            final(self).log_events_fetching == true,
            opt_str_view(token) == opt_str_view(old(self).log_events_next_token),
            final(self).log_events == old(self).log_events,
            final(self).log_events_next_token == old(self).log_events_next_token,
            final(self).log_events_selected_log_group_name == old(
                self,
            ).log_events_selected_log_group_name,
            final(self).log_events_filter_pattern == old(self).log_events_filter_pattern,
    {
        self.log_events_fetching = true;
        clone_opt_string(&self.log_events_next_token)
    }

    /// What the tail worker does with a fetched page: records the token,
    /// merges the page, lowers the in-flight flag.
    pub fn apply_tail_page(&mut self, events: &Vec<LogEvent>, next_token: Option<String>)
        ensures
            final(self).log_events_next_token == next_token,
            final(self).log_events@.items == event_merge(
                old(self).log_events@.items,
                events_view(events@),
                next_token.is_some(),
            ),
            final(self).log_events@.state == old(self).log_events@.state,
            final(self).log_events_fetching == false,
            final(self).log_events_selected_log_group_name == old(
                self,
            ).log_events_selected_log_group_name,
            final(self).log_events_filter_pattern == old(self).log_events_filter_pattern,
    {
        self.log_events.push_items(events, next_token.as_ref());
        self.log_events_next_token = next_token;
        self.log_events_fetching = false;
    }

    /// What the tail worker does when its request fails: only the in-flight
    /// flag is lowered.
    pub fn fail_tail_fetch(&mut self)
        ensures
            final(self).log_events_fetching == false,
            final(self).log_events == old(self).log_events,
            final(self).log_events_next_token == old(self).log_events_next_token,
            final(self).log_events_selected_log_group_name == old(
                self,
            ).log_events_selected_log_group_name,
            final(self).log_events_filter_pattern == old(self).log_events_filter_pattern,
    {
        self.log_events_fetching = false;
    }
}

} // verus!
