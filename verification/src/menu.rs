//! The choices that the menus offer, read from what the user typed.

use vstd::prelude::*;
use vstd::string::StrSliceExecFns;

verus! {

/// A choice in the main menu.
#[derive(Debug, Clone, Copy, PartialEq, Eq, Structural)]
pub enum MenuChoice {
    Register,
    Login,
    ListUsers,
    Exit,
    Invalid,
}

/// A choice in the menu of a user who has logged in.
#[derive(Debug, Clone, Copy, PartialEq, Eq, Structural)]
pub enum UserMenuChoice {
    ChangePassword,
    AccountInfo,
    Logout,
    Invalid,
}

/// Whether `input` is the single character `key`.
pub open spec fn is_key(input: Seq<char>, key: char) -> bool {
    input.len() == 1 && input[0] == key
}

/// The choice that `input` stands for in the main menu: the digits `1` to
/// `4`, each alone, name the four entries; anything else is invalid.
pub open spec fn menu_choice(input: Seq<char>) -> MenuChoice {
    if is_key(input, '1') {
        MenuChoice::Register
    } else if is_key(input, '2') {
        MenuChoice::Login
    } else if is_key(input, '3') {
        MenuChoice::ListUsers
    } else if is_key(input, '4') {
        MenuChoice::Exit
    } else {
        MenuChoice::Invalid
    }
}

/// The choice that `input` stands for in the menu of a user: the digits `1`
/// to `3`, each alone, name the three entries; anything else is invalid.
pub open spec fn user_menu_choice(input: Seq<char>) -> UserMenuChoice {
    if is_key(input, '1') {
        UserMenuChoice::ChangePassword
    } else if is_key(input, '2') {
        UserMenuChoice::AccountInfo
    } else if is_key(input, '3') {
        UserMenuChoice::Logout
    } else {
        UserMenuChoice::Invalid
    }
}

/// The one character of `s`, if `s` has exactly one.
fn only_char(s: &str) -> (c: Option<char>)
    ensures
        match c {
            Some(c) => is_key(s@, c),
            None => s@.len() != 1,
        },
{
    if s.unicode_len() == 1 {
        Some(s.get_char(0))
    } else {
        None
    }
}

impl MenuChoice {
    /// Reads a choice of the main menu. The input is taken as given:
    /// surrounding blanks make it invalid.
    pub fn from_str(s: &str) -> (choice: MenuChoice)
        ensures
            choice == menu_choice(s@),
    {
        match only_char(s) {
            Some('1') => MenuChoice::Register,
            Some('2') => MenuChoice::Login,
            Some('3') => MenuChoice::ListUsers,
            Some('4') => MenuChoice::Exit,
            _ => MenuChoice::Invalid,
        }
    }
}

impl UserMenuChoice {
    /// Reads a choice of the menu of a user. The input is taken as given:
    /// surrounding blanks make it invalid.
    pub fn from_str(s: &str) -> (choice: UserMenuChoice)
        ensures
            choice == user_menu_choice(s@),
    {
        match only_char(s) {
            Some('1') => UserMenuChoice::ChangePassword,
            Some('2') => UserMenuChoice::AccountInfo,
            Some('3') => UserMenuChoice::Logout,
            _ => UserMenuChoice::Invalid,
        }
    }
}

} // verus!
