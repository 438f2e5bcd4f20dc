use siri::menu::{MenuChoice, UserMenuChoice};

#[test]
fn main_menu_choices() {
    assert_eq!(MenuChoice::from_str("1"), MenuChoice::Register);
    assert_eq!(MenuChoice::from_str("2"), MenuChoice::Login);
    assert_eq!(MenuChoice::from_str("3"), MenuChoice::ListUsers);
    assert_eq!(MenuChoice::from_str("4"), MenuChoice::Exit);
}

#[test]
fn anything_else_is_invalid_in_the_main_menu() {
    assert_eq!(MenuChoice::from_str(""), MenuChoice::Invalid);
    assert_eq!(MenuChoice::from_str("0"), MenuChoice::Invalid);
    assert_eq!(MenuChoice::from_str("5"), MenuChoice::Invalid);
    assert_eq!(MenuChoice::from_str("12"), MenuChoice::Invalid);
    assert_eq!(MenuChoice::from_str(" 1"), MenuChoice::Invalid);
    assert_eq!(MenuChoice::from_str("1\n"), MenuChoice::Invalid);
    assert_eq!(MenuChoice::from_str("sair"), MenuChoice::Invalid);
    assert_eq!(MenuChoice::from_str("\u{0661}"), MenuChoice::Invalid);
}

#[test]
fn user_menu_choices() {
    assert_eq!(UserMenuChoice::from_str("1"), UserMenuChoice::ChangePassword);
    assert_eq!(UserMenuChoice::from_str("2"), UserMenuChoice::AccountInfo);
    assert_eq!(UserMenuChoice::from_str("3"), UserMenuChoice::Logout);
    assert_eq!(UserMenuChoice::from_str("4"), UserMenuChoice::Invalid);
    assert_eq!(UserMenuChoice::from_str(""), UserMenuChoice::Invalid);
    assert_eq!(UserMenuChoice::from_str("11"), UserMenuChoice::Invalid);
}
