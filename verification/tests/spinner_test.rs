use megane::spinner::Spinner;

fn get_default_spinner() -> Spinner {
    Spinner::new("Now Loading", None)
}

fn get_custom_spinner() -> Spinner {
    // current_pos is from 0 to 4
    Spinner::new("Now Loading", Some(vec!['.', 'o', 'O', '@', '*']))
}

#[test]
fn it_can_increase_current_pos() {
    let mut spinner = get_custom_spinner();
    assert_eq!(spinner.current_pos, 0);
    spinner.next_pos(); // pos 0 to 1
    assert_eq!(spinner.current_pos, 1);
    spinner.next_pos(); // pos 1 to 2
    spinner.next_pos(); // pos 2 to 3
    spinner.next_pos(); // pos 3 to 4
    assert_eq!(spinner.current_pos, 4);
    spinner.next_pos(); // pos 4 to 0
    assert_eq!(spinner.current_pos, 0);
}

#[test]
fn it_can_get_spinner_char() {
    let mut spinner = get_custom_spinner();
    let actual = spinner.get_spinner_char();
    let expected = '.';
    assert_eq!(actual, expected);
    let actual = spinner.get_spinner_char();
    let expected = 'o';
    assert_eq!(actual, expected);
}

#[test]
fn it_can_get_message() {
    let mut default_spinner = get_default_spinner();
    let actual = default_spinner.get_message();
    let expected = String::from("Now Loading\u{28fe}");
    assert_eq!(actual, expected);
    let actual = default_spinner.get_message();
    let expected = String::from("Now Loading\u{28fd}");
    assert_eq!(actual, expected);
    let actual = default_spinner.get_message();
    let expected = String::from("Now Loading\u{28fb}");
    assert_eq!(actual, expected);
    let actual = default_spinner.get_message();
    let expected = String::from("Now Loading\u{28bf}");
    assert_eq!(actual, expected);
    let actual = default_spinner.get_message();
    let expected = String::from("Now Loading\u{287f}");
    assert_eq!(actual, expected);
    let actual = default_spinner.get_message();
    let expected = String::from("Now Loading\u{28df}");
    assert_eq!(actual, expected);
    let actual = default_spinner.get_message();
    let expected = String::from("Now Loading\u{28ef}");
    assert_eq!(actual, expected);
    let actual = default_spinner.get_message();
    let expected = String::from("Now Loading\u{28f7}");
    assert_eq!(actual, expected);

    let mut custom_spinner = get_custom_spinner();
    let actual = custom_spinner.get_message();
    let expected = String::from("Now Loading.");
    assert_eq!(actual, expected);
    let actual = custom_spinner.get_message();
    let expected = String::from("Now Loadingo");
    assert_eq!(actual, expected);
    let actual = custom_spinner.get_message();
    let expected = String::from("Now LoadingO");
    assert_eq!(actual, expected);

    custom_spinner.reset();
    let actual = custom_spinner.get_message();
    let expected = String::from("Now Loading.");
    assert_eq!(actual, expected);
    let actual = custom_spinner.get_message();
    let expected = String::from("Now Loadingo");
    assert_eq!(actual, expected);
    let actual = custom_spinner.get_message();
    let expected = String::from("Now LoadingO");
    assert_eq!(actual, expected);
    let actual = custom_spinner.get_message();
    let expected = String::from("Now Loading@");
    assert_eq!(actual, expected);
    let actual = custom_spinner.get_message();
    let expected = String::from("Now Loading*");
    assert_eq!(actual, expected);
    let actual = custom_spinner.get_message();
    let expected = String::from("Now Loading.");
    assert_eq!(actual, expected);
}
