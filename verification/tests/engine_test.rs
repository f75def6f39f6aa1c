use megane::globalstate::{GlobalState, GlobalStateTail};
use megane::instruction::{optional_time, Instruction};
use megane::keyevent::{KeyCode, KeyInput};
use megane::logevent_list::{LogEvent, LogEventList};
use megane::logs::Logs;
use megane::search::{search_range, SearchMode};

fn key(code: KeyCode) -> KeyInput {
    KeyInput { code, shift: false, ctrl: false }
}

fn ctrl(c: char) -> KeyInput {
    KeyInput { code: KeyCode::Char(c), shift: false, ctrl: true }
}

fn make_event(event_id: &str) -> LogEvent {
    let mut event = LogEvent::default();
    event.event_id = Some(event_id.to_string());
    event
}

fn ids(list: &LogEventList) -> Vec<Option<String>> {
    let mut out = Vec::new();
    let mut i = 0;
    while let Some(e) = list.get_item(i) {
        out.push(e.event_id.clone());
        i += 1;
    }
    out
}

#[test]
fn merge_is_idempotent() {
    // merging the very same page again, with the same token, changes nothing
    let cached = vec![make_event("A"), make_event("B"), make_event("C")];
    let page = vec![make_event("B"), make_event("C"), make_event("D")];
    let token = String::from("t");
    let mut list = LogEventList::new(cached);
    list.push_items(&page, Some(&token));
    let once = ids(&list);
    assert_eq!(5, list.len()); // A B C D + marker
    list.push_items(&page, Some(&token));
    assert_eq!(5, list.len());
    assert_eq!(once, ids(&list));
}

#[test]
fn merge_deduplicates_overlapping_page() {
    // cached [A,B,C] + fetched [B,C,D,E] -> [A,B,C,D,E], boundary at D
    let cached = vec![make_event("A"), make_event("B"), make_event("C")];
    let page = vec![make_event("B"), make_event("C"), make_event("D"), make_event("E")];
    let mut list = LogEventList::new(cached);
    list.push_items(&page, None);
    assert_eq!(
        vec![
            Some(String::from("A")),
            Some(String::from("B")),
            Some(String::from("C")),
            Some(String::from("D")),
            Some(String::from("E")),
        ],
        ids(&list)
    );

    // with a token present the same merge carries a trailing marker
    let cached = vec![make_event("A"), make_event("B"), make_event("C")];
    let page = vec![make_event("B"), make_event("C"), make_event("D"), make_event("E")];
    let mut list = LogEventList::new(cached);
    list.push_items(&page, Some(&String::from("t")));
    assert_eq!(6, list.len());
    assert_eq!(Some(String::from("999")), list.get_item(5).unwrap().event_id);
}

#[test]
fn marker_stays_unique_and_last() {
    let mut list = LogEventList::new(vec![]);
    list.push_items(&vec![make_event("1"), make_event("2")], Some(&String::from("t1")));
    list.push_items(&vec![make_event("3")], Some(&String::from("t2")));
    list.push_items(&vec![make_event("3"), make_event("4")], Some(&String::from("t3")));
    let all = ids(&list);
    let marker_count = all
        .iter()
        .filter(|id| **id == Some(String::from("999")))
        .count();
    assert_eq!(1, marker_count);
    assert_eq!(Some(String::from("999")), all.last().unwrap().clone());
}

#[test]
fn is_same_overlooks_middle_changes() {
    // four rows: only the first and the second-to-last identity are compared,
    // so a change in between goes unseen -- a documented approximation
    let a = LogEventList::new(vec![
        make_event("x"),
        make_event("mid"),
        make_event("y"),
        make_event("z"),
    ]);
    let b = LogEventList::new(vec![
        make_event("x"),
        make_event("changed"),
        make_event("y"),
        make_event("z"),
    ]);
    assert!(a.is_same(&b));
    // a change at the compared position is seen
    let c = LogEventList::new(vec![
        make_event("x"),
        make_event("mid"),
        make_event("other"),
        make_event("z"),
    ]);
    assert!(!a.is_same(&c));
    // a length change is seen
    let d = LogEventList::new(vec![make_event("x"), make_event("mid"), make_event("y")]);
    assert!(!a.is_same(&d));
}

#[test]
fn query_change_resets_event_results() {
    let mut state = GlobalState::new();
    state.apply_log_events_page(
        &String::from("group-a"),
        &vec![make_event("1"), make_event("2")],
        Some(String::from("t1")),
    );
    assert_eq!(3, state.log_events.len());
    assert_eq!(Some(String::from("t1")), state.log_events_next_token);

    // the same group keeps the cached rows and the token
    let token = state.prepare_log_events_fetch(&String::from("group-a"));
    assert_eq!(Some(String::from("t1")), token);
    assert_eq!(3, state.log_events.len());
    assert!(state.log_events_fetching);

    // another group clears the rows and the token before the request
    let token = state.prepare_log_events_fetch(&String::from("group-b"));
    assert_eq!(None, token);
    assert_eq!(0, state.log_events.len());
    assert_eq!(None, state.log_events_next_token);
}

#[test]
fn end_to_end_paging() {
    // empty store; FetchLogEvents("g1", "", 0, 0)
    let mut state = GlobalState::new();
    let mut logs = Logs::new("Logs");
    logs.set_log_group_name(Some(String::from("g1")));
    let cmd = logs.fetch_log_events(0).unwrap();
    assert_eq!(
        Instruction::FetchLogEvents(String::from("g1"), String::from(""), 0, 0),
        cmd
    );

    // the worker returns [e1, e2] and token "t1"
    let token = state.prepare_log_events_fetch(&String::from("g1"));
    assert_eq!(None, token);
    state.apply_log_events_page(
        &String::from("g1"),
        &vec![make_event("e1"), make_event("e2")],
        Some(String::from("t1")),
    );
    assert_eq!(
        vec![
            Some(String::from("e1")),
            Some(String::from("e2")),
            Some(String::from("999")),
        ],
        ids(&state.log_events)
    );

    // the pane adopts the snapshot and the cursor walks onto the marker row
    logs.refresh_event_view(&state.log_events);
    let o = logs.handle_event(key(KeyCode::Down), 0);
    assert!(o.handled && o.fetch.is_none());
    let o = logs.handle_event(key(KeyCode::Down), 0);
    assert!(o.fetch.is_none());
    let o = logs.handle_event(key(KeyCode::Down), 0);
    assert!(o.fetch.is_none());
    assert_eq!(Some(2), logs.event_list().current_state().unwrap().selected());

    // confirming on the marker row asks for the next page
    let o = logs.handle_event(key(KeyCode::Down), 0);
    assert_eq!(
        Some(Instruction::FetchLogEvents(String::from("g1"), String::from(""), 0, 0)),
        o.fetch
    );

    // the worker returns [e2, e3] and no token: only e3 is appended and the
    // marker row goes away
    let token = state.prepare_log_events_fetch(&String::from("g1"));
    assert_eq!(Some(String::from("t1")), token);
    state.apply_log_events_page(
        &String::from("g1"),
        &vec![make_event("e2"), make_event("e3")],
        None,
    );
    assert_eq!(
        vec![
            Some(String::from("e1")),
            Some(String::from("e2")),
            Some(String::from("e3")),
        ],
        ids(&state.log_events)
    );
    assert!(!state.log_events_fetching);
}

#[test]
fn tail_merge_scrolls_to_last_row() {
    let mut tail = GlobalStateTail::new();
    tail.sync_query(&String::from("g1"), &String::from(""));
    let token = tail.begin_tail_fetch();
    assert_eq!(None, token);
    tail.apply_tail_page(&vec![make_event("e1"), make_event("e2")], Some(String::from("t")));

    let mut logs = Logs::new("Logs");
    logs.refresh_tail_view(&tail.log_events);
    // three rows (marker included): the selection lands on the last one
    assert_eq!(3, logs.tailed_event_list().len());
    assert_eq!(Some(2), logs.tailed_event_list().current_state().unwrap().selected());

    // the next tick brings one more event: the selection follows
    tail.begin_tail_fetch();
    tail.apply_tail_page(&vec![make_event("e3")], Some(String::from("t2")));
    logs.refresh_tail_view(&tail.log_events);
    assert_eq!(4, logs.tailed_event_list().len());
    assert_eq!(Some(3), logs.tailed_event_list().current_state().unwrap().selected());
}

#[test]
fn search_ranges_resolve_against_now() {
    let now: i64 = 100_000_000;
    assert_eq!((0, 0), search_range(SearchMode::All, now));
    assert_eq!((99_940_000, now), search_range(SearchMode::Tail, now));
    assert_eq!((99_940_000, now), search_range(SearchMode::OneMinute, now));
    assert_eq!((99_100_000, now), search_range(SearchMode::FifteenMinutes, now));
    assert_eq!((96_400_000, now), search_range(SearchMode::OneHour, now));
    assert_eq!((56_800_000, now), search_range(SearchMode::TwelveHours, now));
    assert_eq!((5, 7), search_range(SearchMode::Range(5, 7), now));
    // a window reaching before the epoch starts at 0
    assert_eq!((0, 10), search_range(SearchMode::OneHour, 10));
}

#[test]
fn mode_keys_toggle_and_refetch() {
    let mut logs = Logs::new("Logs");
    logs.set_log_group_name(Some(String::from("g1")));
    let now: i64 = 10_000_000;

    // ctrl-x selects the one-minute window, clears and refetches
    let o = logs.handle_event(ctrl('x'), now);
    assert!(!o.handled); // mode keys are reported unconsumed
    assert!(o.reset_store);
    assert_eq!(
        Some(Instruction::FetchLogEvents(
            String::from("g1"),
            String::from(""),
            now - 60_000,
            now,
        )),
        o.fetch
    );
    assert_eq!(
        "Filter(f) - Mode: [ ]tail[x]1m[ ]15m[ ]1h[ ]12h[ ]range(2020-12-12-01:01:00~2020-12-15-01:00:30)",
        logs.get_search_area_title()
    );

    // the same key again toggles back to the unbounded window
    let o = logs.handle_event(ctrl('x'), now);
    assert!(o.reset_store);
    assert_eq!(
        Some(Instruction::FetchLogEvents(String::from("g1"), String::from(""), 0, 0)),
        o.fetch
    );
    assert_eq!(
        "Filter(f) - Mode: [ ]tail[ ]1m[ ]15m[ ]1h[ ]12h[ ]range(2020-12-12-01:01:00~2020-12-15-01:00:30)",
        logs.get_search_area_title()
    );
}

#[test]
fn tail_mode_stills_the_cursor() {
    let mut logs = Logs::new("Logs");
    logs.set_log_group_name(Some(String::from("g1")));
    let o = logs.handle_event(ctrl('z'), 1_000);
    assert!(o.reset_store && o.fetch.is_some());
    assert!(logs.is_tail_mode());

    // rows arrive in the paged list too, but Down must not move it
    let mut store_events = LogEventList::new(vec![]);
    store_events.push_items(&vec![make_event("1"), make_event("2")], None);
    logs.refresh_event_view(&store_events);
    let o = logs.handle_event(key(KeyCode::Down), 1_000);
    assert!(o.handled);
    assert_eq!(None, logs.event_list().current_state().unwrap().selected());
}

#[test]
fn filter_submit_clears_and_refetches() {
    let mut logs = Logs::new("Logs");
    logs.set_log_group_name(Some(String::from("g1")));

    // f focuses the filter box; Enter starts editing; text is typed
    assert!(logs.handle_event(key(KeyCode::Char('f')), 0).handled);
    assert!(logs.handle_event(key(KeyCode::Enter), 0).handled);
    assert!(logs.handle_event(key(KeyCode::Char('E')), 0).handled);
    assert!(logs.handle_event(key(KeyCode::Char('R')), 0).handled);
    assert!(logs.handle_event(key(KeyCode::Char('R')), 0).handled);
    // Enter, which edit mode itself leaves alone, submits the filter
    let o = logs.handle_event(key(KeyCode::Enter), 0);
    assert!(o.handled && o.reset_store);
    assert_eq!(
        Some(Instruction::FetchLogEvents(String::from("g1"), String::from("ERR"), 0, 0)),
        o.fetch
    );
}

#[test]
fn failed_fetch_only_lowers_the_flag() {
    let mut state = GlobalState::new();
    state.apply_log_events_page(
        &String::from("g1"),
        &vec![make_event("1")],
        Some(String::from("t1")),
    );
    state.prepare_log_events_fetch(&String::from("g1"));
    assert!(state.log_events_fetching);
    state.fail_log_events_fetch();
    assert!(!state.log_events_fetching);
    assert_eq!(2, state.log_events.len());
    assert_eq!(Some(String::from("t1")), state.log_events_next_token);

    let mut tail = GlobalStateTail::new();
    tail.begin_tail_fetch();
    assert!(tail.log_events_fetching);
    tail.fail_tail_fetch();
    assert!(!tail.log_events_fetching);
    assert_eq!(0, tail.log_events.len());
}

#[test]
fn group_listing_pages_until_the_token_runs_out() {
    let mut state = GlobalState::new();
    state.begin_log_groups_fetch();
    assert!(state.log_groups_fetching);

    let mut g1 = megane::loggroup_menulist::LogGroup::default();
    g1.arn = Some(String::from("arn1"));
    g1.log_group_name = Some(String::from("one"));
    let mut g2 = megane::loggroup_menulist::LogGroup::default();
    g2.arn = Some(String::from("arn2"));
    g2.log_group_name = Some(String::from("two"));

    let more = state.apply_log_groups_page(&vec![g1], Some(String::from("t1")));
    assert!(more);
    assert_eq!(2, state.log_groups.len()); // one group + the marker row
    assert!(state.log_groups.has_more_items());

    let more = state.apply_log_groups_page(&vec![g2], None);
    assert!(!more);
    assert_eq!(2, state.log_groups.len()); // the marker row gave way
    assert!(!state.log_groups.has_more_items());
    assert_eq!(Some(String::from("two")), state.log_groups.get_log_group_name(1));

    state.finish_log_groups_fetch();
    assert!(!state.log_groups_fetching);
}

#[test]
fn optional_time_drops_the_zero_marker() {
    assert_eq!(None, optional_time(0));
    assert_eq!(Some(5), optional_time(5));
    assert_eq!(Some(-3), optional_time(-3));
}
