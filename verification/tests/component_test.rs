use megane::app::App;
use megane::instruction::Instruction;
use megane::keyevent::{KeyCode, KeyInput};
use megane::loggroup_menulist::{LogGroup, LogGroupMenuList};
use megane::logstab::LogsTab;
use megane::metricstab::MetricsTab;
use megane::textinput::{InputMode, TextInputComponent};

fn key(code: KeyCode) -> KeyInput {
    KeyInput { code, shift: false, ctrl: false }
}

fn make_group(arn: &str, name: &str) -> LogGroup {
    let mut g = LogGroup::default();
    g.arn = Some(arn.to_string());
    g.log_group_name = Some(name.to_string());
    g
}

#[test]
fn text_input_edits_at_the_cursor() {
    let mut input = TextInputComponent::new("Filter(f)", "type here");
    assert!(input.is_normal_mode());
    assert_eq!(String::from(""), input.get_text());
    // the placeholder shows while the text is empty
    assert_eq!(String::from("type here"), input.display_text());

    // only Enter is consumed at rest
    assert!(!input.handle_event(key(KeyCode::Char('a'))));
    assert!(input.handle_event(key(KeyCode::Enter)));
    assert!(!input.is_normal_mode());

    assert!(input.handle_event(key(KeyCode::Char('a'))));
    assert!(input.handle_event(key(KeyCode::Char('c'))));
    assert!(input.handle_event(key(KeyCode::Left)));
    assert!(input.handle_event(key(KeyCode::Char('b'))));
    assert_eq!(String::from("abc"), input.get_text());
    // the cursor bar shows in edit mode
    assert_eq!(String::from("ab|c"), input.display_text());

    assert!(input.handle_event(key(KeyCode::Backspace)));
    assert_eq!(String::from("ac"), input.get_text());
    assert!(input.handle_event(key(KeyCode::Right)));
    assert!(input.handle_event(key(KeyCode::Char('d'))));
    assert_eq!(String::from("acd"), input.get_text());

    assert!(input.handle_event(key(KeyCode::Esc)));
    assert!(input.is_normal_mode());
    assert_eq!(String::from("acd"), input.display_text());
}

#[test]
fn text_input_mode_and_title() {
    let mut input = TextInputComponent::new("a title", "");
    assert_eq!(String::from("a title"), input.get_title());
    input.set_title(String::from("another"));
    assert_eq!(String::from("another"), input.get_title());
    assert!(!input.is_active());
    input.select();
    assert!(input.is_active());
    input.toggle_active();
    assert!(!input.is_active());
    input.set_input_mode(InputMode::EditMode);
    assert!(!input.is_normal_mode());
    input.set_input_mode(InputMode::NormalMode);
    assert!(input.is_normal_mode());
}

#[test]
fn logstab_enter_selects_group_and_fetches() {
    let groups = LogGroupMenuList::new(vec![
        make_group("group1", "loggroup1"),
        make_group("group2", "loggroup2"),
        make_group("group3", "loggroup3"),
    ]);
    let mut tab = LogsTab::new(groups);
    assert!(tab.handle_event(key(KeyCode::Down), 0).handled);
    assert!(tab.handle_event(key(KeyCode::Down), 0).handled);
    let o = tab.handle_event(key(KeyCode::Enter), 0);
    assert!(o.handled);
    assert_eq!(
        Some(Instruction::FetchLogEvents(
            String::from("loggroup2"),
            String::from(""),
            0,
            0,
        )),
        o.fetch
    );
    assert!(!tab.is_menu_active);
    assert_eq!(Some(String::from("loggroup2")), tab.log_area.get_log_group_name());

    // Esc goes back to the menu
    let o = tab.handle_event(key(KeyCode::Esc), 0);
    assert!(o.handled);
    assert!(tab.is_menu_active);
}

#[test]
fn logstab_query_narrows_the_menu() {
    let groups = LogGroupMenuList::new(vec![]);
    let mut tab = LogsTab::new(groups);
    assert_eq!(String::from("Log Groups"), tab.menu_title(false));
    assert_eq!(String::from("Log Groups [Fetching ...]"), tab.menu_title(true));

    assert!(tab.handle_event(key(KeyCode::Char('2')), 0).handled);
    assert_eq!(String::from("Log Groups [2]"), tab.menu_title(false));

    let store = LogGroupMenuList::new(vec![
        make_group("group1", "loggroup1"),
        make_group("group2", "loggroup2"),
    ]);
    let labels = tab.refresh_groups(&store);
    assert_eq!(vec![String::from("loggroup2")], labels);

    assert!(tab.handle_event(key(KeyCode::Backspace), 0).handled);
    assert_eq!(String::from("Log Groups []"), tab.menu_title(false));
    let labels = tab.refresh_groups(&store);
    assert_eq!(vec![String::from("loggroup1"), String::from("loggroup2")], labels);
}

#[test]
fn app_cycles_tabs_on_unhandled_tab_key() {
    let mut app = App::new();
    assert_eq!(0, app.current_tab_idx);
    let o = app.handle_event(key(KeyCode::Tab), 0);
    assert!(!o.handled);
    assert_eq!(1, app.current_tab_idx);
    let o = app.handle_event(key(KeyCode::Tab), 0);
    assert!(!o.handled);
    assert_eq!(0, app.current_tab_idx);
}

#[test]
fn metrics_tab_consumes_nothing() {
    let mut tab = MetricsTab::new();
    assert!(!tab.handle_event(key(KeyCode::Down)));
    assert!(!tab.handle_event(key(KeyCode::Enter)));
}
