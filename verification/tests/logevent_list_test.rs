use megane::logevent_list::{LogEvent, LogEventList};
use megane::selection::TableState;
use megane::utils::StatefulTable;

fn get_default_events() -> Vec<LogEvent> {
    let mut event1 = LogEvent::default();
    let mut event2 = LogEvent::default();
    let mut event3 = LogEvent::default();
    event1.event_id = Some(String::from("1"));
    event1.message = Some(String::from("message_1"));
    event2.event_id = Some(String::from("2"));
    event2.message = None;
    event3.event_id = Some(String::from("3"));
    vec![event1, event2, event3]
}

fn get_changed_events() -> Vec<LogEvent> {
    let mut event1 = LogEvent::default();
    let mut event2 = LogEvent::default();
    let mut event3 = LogEvent::default();
    event1.event_id = Some(String::from("a"));
    event1.message = Some(String::from("message_a"));
    event2.event_id = Some(String::from("b"));
    event3.event_id = Some(String::from("c"));
    vec![event1, event2, event3]
}

fn get_random_events() -> Vec<LogEvent> {
    let mut event1 = LogEvent::default();
    let mut event2 = LogEvent::default();
    event1.event_id = Some(String::from("1"));
    event1.message = Some(String::from("message_1"));
    // 2020-01-01 00:00:00 UTC
    event1.timestamp = Some(1577836800000);
    event2.event_id = Some(String::from("2"));
    event2.message = None;
    event2.timestamp = None;
    vec![event1, event2]
}

fn get_some_events() -> Vec<LogEvent> {
    let mut event1 = LogEvent::default();
    let mut event2 = LogEvent::default();
    let mut event3 = LogEvent::default();
    event1.event_id = Some(String::from("1"));
    event1.message = Some(String::from("message_1"));
    event2.event_id = Some(String::from("2"));
    event2.message = None;
    event3.event_id = Some(String::from("999"));
    vec![event1, event2, event3]
}

fn make_event(event_id: &str) -> LogEvent {
    let mut event = LogEvent::default();
    event.event_id = Some(event_id.to_string());
    event
}

#[test]
fn it_can_set_items() {
    let events = get_default_events();
    let new_events = get_changed_events();
    let mut log_event_list = LogEventList::new(events);
    let expected_log_event_list = LogEventList::new(get_changed_events());
    log_event_list.set_items(new_events);
    assert_eq!(log_event_list.get_item(0), expected_log_event_list.get_item(0));
    assert_eq!(log_event_list.get_item(1), expected_log_event_list.get_item(1));
    assert_eq!(log_event_list.get_item(2), expected_log_event_list.get_item(2));
}

#[test]
fn it_can_return_message() {
    let events = get_default_events();
    let log_event_list = LogEventList::new(events);
    let actual_message1 = log_event_list.get_log_event_text(0);
    let actual_message2 = log_event_list.get_log_event_text(1);
    let actual_message3 = log_event_list.get_log_event_text(100);
    assert_eq!(Some(String::from("message_1")), actual_message1);
    assert_eq!(None, actual_message2);
    assert_eq!(None, actual_message3);
}

#[test]
fn it_can_clear_items() {
    let mut log_event_list = LogEventList::new(get_default_events());
    log_event_list.clear_items();
    assert_eq!(0, log_event_list.len());
}

#[test]
fn it_can_clone_with_state() {
    let log_event_list = LogEventList::new(get_default_events());
    let mut state = TableState::default();
    state.select(Some(999));
    let mut result = log_event_list.clone_with_state(Some(state));
    assert_eq!(Some(999), result.get_state().unwrap().selected());
}

#[test]
fn it_can_recognize_identity() {
    let mut log_event_list = LogEventList::new(get_default_events());
    let log_event_list2 = LogEventList::new(get_default_events());
    let log_event_list3 = LogEventList::new(get_changed_events());
    assert!(log_event_list.is_same(&log_event_list2));
    assert!(!log_event_list.is_same(&log_event_list3));

    let mut log_event_list4 = LogEventList::new(get_default_events());
    log_event_list4.push_items(&vec![], Some(&String::from("next_token")));
    log_event_list.push_items(&vec![LogEvent::default()], Some(&String::from("next_token")));
    assert!(!log_event_list.is_same(&log_event_list4));

    let mut log_event_list5 = LogEventList::new(get_default_events());
    let mut log_event_list6 = LogEventList::new(get_default_events());
    let mut log_event_1 = LogEvent::default();
    log_event_1.event_id = Some(String::from("123"));
    let mut log_event_2 = LogEvent::default();
    log_event_2.event_id = Some(String::from("124"));
    log_event_list5.push_items(&vec![log_event_1], Some(&String::from("next_token")));
    log_event_list6.push_items(&vec![log_event_2], Some(&String::from("next_token")));
    assert!(!log_event_list5.is_same(&log_event_list6));
}

#[test]
fn it_can_recognize_if_last_more_item() {
    let mut log_event_list = LogEventList::new(get_default_events());
    assert!(!log_event_list.is_last_more_item());
    log_event_list.push_items(&vec![], Some(&String::from("token")));
    assert!(log_event_list.is_last_more_item());
}

#[test]
fn it_can_recognize_if_last_more_item_from_empty() {
    let log_event_list = LogEventList::new(vec![]);
    assert!(!log_event_list.is_last_more_item());
}

#[test]
fn it_can_push_items() {
    let mut log_event_list = LogEventList::new(vec![]);
    let event = vec![make_event("1"), make_event("2")];
    log_event_list.push_items(&event, None);
    assert_eq!(log_event_list.len(), 2);
    let event = vec![make_event("3"), make_event("4")];
    log_event_list.push_items(&event, Some(&String::from("token")));
    assert_eq!(log_event_list.len(), 5);
    assert_eq!(
        log_event_list.get_item(4).unwrap().event_id,
        Some(String::from("999")),
    );
    let event = vec![make_event("5")];
    log_event_list.push_items(&event, Some(&String::from("token")));
    assert_eq!(log_event_list.len(), 6);
    assert_eq!(
        log_event_list.get_item(5).unwrap().event_id,
        Some(String::from("999")),
    );
    assert_ne!(
        log_event_list.get_item(4).unwrap().event_id,
        Some(String::from("999")),
    );
}

#[test]
fn it_can_push_only_not_duplicated_items() {
    let mut log_event_list = LogEventList::new(get_default_events());
    let event_list = vec![make_event("1"), make_event("4"), make_event("5")];
    log_event_list.push_items(&event_list, None);
    assert_eq!(5, log_event_list.len());
}

#[test]
fn it_can_get_labels() {
    let log_event_list = LogEventList::new(get_random_events());
    let expected_labels = vec![
        vec![String::from("2020-01-01 00:00:00 UTC"), String::from("message_1")],
        vec![String::from("More..."), String::from("")],
    ];
    let actual_labels = log_event_list.get_labels();
    assert_eq!(actual_labels, expected_labels);
}

#[test]
fn it_can_get_state() {
    let mut log_event_list = LogEventList::new(get_default_events());
    assert_eq!(log_event_list.get_state().is_some(), true);
    let mut log_event_list = log_event_list.clone_with_state(None);
    assert_eq!(log_event_list.get_state().is_none(), true);
}

#[test]
fn it_can_set_state() {
    let mut log_event_list = LogEventList::new(get_default_events());
    let mut state = TableState::default();
    state.select(Some(999));
    log_event_list.set_state(state);
    assert_eq!(log_event_list.get_state().unwrap().selected(), Some(999));
}

#[test]
fn it_can_next() {
    let mut log_event_list = LogEventList::new(get_some_events());

    let state = log_event_list.get_state().unwrap();
    assert_eq!(state.selected().is_none(), true);
    let fetch_flag = log_event_list.next();
    assert_eq!(fetch_flag, false);

    let state = log_event_list.get_state().unwrap();
    assert_eq!(state.selected(), Some(0));
    let fetch_flag = log_event_list.next();
    assert_eq!(fetch_flag, false);
    let state = log_event_list.get_state().unwrap();
    assert_eq!(state.selected(), Some(1));

    let fetch_flag = log_event_list.next();
    assert_eq!(fetch_flag, false);
    let state = log_event_list.get_state().unwrap();
    assert_eq!(state.selected(), Some(2));

    let fetch_flag = log_event_list.next();
    assert_eq!(fetch_flag, true);
    let state = log_event_list.get_state().unwrap();
    assert_eq!(state.selected(), Some(2));
}

#[test]
fn table_previous_clamps_at_the_first_row() {
    let mut list = LogEventList::new(get_some_events());
    list.next();
    list.next();
    list.next();
    assert_eq!(Some(2), list.get_state().unwrap().selected());
    list.previous();
    assert_eq!(Some(1), list.get_state().unwrap().selected());
    list.previous();
    list.previous();
    // no wrap on the table: the cursor stays on the first row
    assert_eq!(Some(0), list.get_state().unwrap().selected());
    list.previous_by(10);
    assert_eq!(Some(0), list.get_state().unwrap().selected());
    list.next_by(1);
    list.next_by(1);
    list.previous_by(2);
    assert_eq!(Some(0), list.get_state().unwrap().selected());
}

#[test]
fn it_can_next_by() {
    let mut log_event_list = LogEventList::new(get_some_events());

    let state = log_event_list.get_state().unwrap();
    assert_eq!(state.selected().is_none(), true);
    let fetch_flag = log_event_list.next_by(2);
    assert_eq!(fetch_flag, false);

    let state = log_event_list.get_state().unwrap();
    assert_eq!(state.selected(), Some(0));
    let fetch_flag = log_event_list.next_by(2);
    assert_eq!(fetch_flag, false);
    let state = log_event_list.get_state().unwrap();
    assert_eq!(state.selected(), Some(2));
    let fetch_flag = log_event_list.next_by(2);
    assert_eq!(fetch_flag, true);
    let state = log_event_list.get_state().unwrap();
    assert_eq!(state.selected(), Some(2));
}
