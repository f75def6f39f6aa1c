use megane::loggroup_menulist::{LogGroup, LogGroupMenuList};
use megane::utils::StatefulList;

fn get_default_log_groups() -> Vec<LogGroup> {
    let mut l1 = LogGroup::default();
    let mut l2 = LogGroup::default();
    let mut l3 = LogGroup::default();
    l1.arn = Some(String::from("arn1"));
    l1.log_group_name = Some(String::from("log_group_1"));
    l2.arn = Some(String::from("arn2"));
    l2.log_group_name = Some(String::from("log_group_2"));
    l3.arn = Some(String::from("arn3"));
    l3.log_group_name = Some(String::from("log_group_3"));
    vec![l1, l2, l3]
}

fn get_changed_log_groups() -> Vec<LogGroup> {
    let mut l1 = LogGroup::default();
    let mut l2 = LogGroup::default();
    let mut l3 = LogGroup::default();
    l1.arn = Some(String::from("arn98"));
    l1.log_group_name = Some(String::from("log_group_98"));
    l2.arn = Some(String::from("arn99"));
    l2.log_group_name = Some(String::from("log_group_99"));
    l3.arn = Some(String::from("arn100"));
    l3.log_group_name = Some(String::from("log_group_100"));
    vec![l1, l2, l3]
}

#[test]
fn can_set_items() {
    let mut log_group_list = LogGroupMenuList::new(get_default_log_groups());
    let expected = LogGroupMenuList::new(get_changed_log_groups());
    log_group_list.set_items(get_changed_log_groups());
    assert_eq!(expected.get_item(0), log_group_list.get_item(0));
    assert_eq!(expected.get_item(1), log_group_list.get_item(1));
    assert_eq!(expected.get_item(2), log_group_list.get_item(2));
}

#[test]
fn can_get_log_group_name() {
    let list = LogGroupMenuList::new(get_default_log_groups());
    assert_eq!(Some(String::from("log_group_2")), list.get_log_group_name(1));
    // out of range reads are defined, never a fault
    assert_eq!(None, list.get_log_group_name(100));
}

#[test]
fn can_push_groups_with_token() {
    let mut list = LogGroupMenuList::new(vec![]);
    list.push_items(&get_default_log_groups(), Some(&String::from("t1")));
    assert_eq!(4, list.len());
    assert!(list.has_more_items());
    assert_eq!(Some(String::from("More...")), list.get_log_group_name(3));
    // the next page supersedes the marker row and is de-duplicated
    let mut page = get_default_log_groups();
    page.truncate(1);
    page.append(&mut get_changed_log_groups());
    list.push_items(&page, None);
    assert_eq!(6, list.len());
    assert!(!list.has_more_items());
    assert_eq!(Some(String::from("log_group_100")), list.get_log_group_name(5));
}

#[test]
fn can_delete_item() {
    let mut list = LogGroupMenuList::new(get_default_log_groups());
    list.delete_item(1);
    assert_eq!(2, list.len());
    assert_eq!(Some(String::from("log_group_3")), list.get_log_group_name(1));
    list.delete_item(100);
    assert_eq!(2, list.len());
}

#[test]
fn can_filter_items() {
    let mut list = LogGroupMenuList::new(get_default_log_groups());
    list.filter_items("p_2");
    assert_eq!(1, list.len());
    assert_eq!(Some(String::from("log_group_2")), list.get_log_group_name(0));

    let mut list = LogGroupMenuList::new(get_default_log_groups());
    list.filter_items("");
    assert_eq!(3, list.len());

    let mut list = LogGroupMenuList::new(get_default_log_groups());
    list.filter_items("nothing like this");
    assert_eq!(0, list.len());
}

#[test]
fn labels_leave_out_unnamed_groups() {
    let mut unnamed = LogGroup::default();
    unnamed.arn = Some(String::from("arn-unnamed"));
    let mut empty_named = LogGroup::default();
    empty_named.arn = Some(String::from("arn-empty"));
    empty_named.log_group_name = Some(String::from(""));
    let mut groups = get_default_log_groups();
    groups.push(unnamed);
    groups.push(empty_named);
    let list = LogGroupMenuList::new(groups);
    let labels = list.get_labels();
    assert_eq!(
        vec![
            String::from("log_group_1"),
            String::from("log_group_2"),
            String::from("log_group_3"),
        ],
        labels
    );
}
