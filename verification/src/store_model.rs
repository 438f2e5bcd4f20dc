//! What the operations come to against a store that can be relied on: one
//! that holds one record per username, answers every question truthfully,
//! refuses a second record for a username, and is written to by nobody else
//! while an operation runs.
//!
//! The records of such a store are a map from usernames to password hashes.
//! The lemmas below take what each operation returns for given answers of
//! its collaborators and instantiate it with the answers of this store.

use crate::auth::{
    change_password_result, change_write, login_result, register_result, register_write,
    registration_check, ChangeAnswers, LoginAnswers, RegisterAnswers,
};
use crate::error::AuthErrorView;
use crate::hashing::{argon2_phc, verifies};
use crate::policy::{
    credentials_check, default_config, lemma_accepted_password_not_empty, strength_check,
};
use vstd::prelude::*;

verus! {

/// What such a store answers when asked for the hash of `username`.
pub open spec fn truthful_fetch(records: Map<Seq<char>, Seq<char>>, username: Seq<char>)
    -> LoginAnswers {
    LoginAnswers {
        fetched: Ok(
            if records.contains_key(username) {
                Some(records[username])
            } else {
                None
            },
        ),
    }
}

/// Whether `answers` are what such a store gives in a registration of
/// `username`: it says truly whether the username exists, and it takes the
/// record exactly if the username is free, refusing it otherwise as a
/// violation of a constraint.
pub open spec fn truthful_registration(
    records: Map<Seq<char>, Seq<char>>,
    username: Seq<char>,
    answers: RegisterAnswers,
) -> bool {
    &&& answers.lookup == Ok::<bool, Seq<char>>(records.contains_key(username))
    &&& answers.inserted is Ok <==> !records.contains_key(username)
    &&& answers.inserted matches Err(fault) ==> fault.constraint_violation
}

/// Whether `answers` are what such a store gives in a change of the password
/// of `username`: it hands out the stored hash, if any, and takes the update.
pub open spec fn truthful_change(
    records: Map<Seq<char>, Seq<char>>,
    username: Seq<char>,
    answers: ChangeAnswers,
) -> bool {
    &&& answers.login == truthful_fetch(records, username)
    &&& answers.updated is Ok
}

/// The records after a registration: the record that was handed over is
/// added if the username was free; otherwise nothing changes.
pub open spec fn records_after_register(
    records: Map<Seq<char>, Seq<char>>,
    username: Seq<char>,
    password: Seq<char>,
    answers: RegisterAnswers,
) -> Map<Seq<char>, Seq<char>> {
    match register_write(username, password, answers) {
        Some(hash) => if records.contains_key(username) {
            records
        } else {
            records.insert(username, hash)
        },
        None => records,
    }
}

/// The records after a change of password: the hash that was handed over
/// replaces the one of the username if there is such a user; otherwise
/// nothing changes.
pub open spec fn records_after_change(
    records: Map<Seq<char>, Seq<char>>,
    username: Seq<char>,
    old_password: Seq<char>,
    new_password: Seq<char>,
    answers: ChangeAnswers,
) -> Map<Seq<char>, Seq<char>> {
    match change_write(username, old_password, new_password, answers) {
        Some(hash) => if records.contains_key(username) {
            records.insert(username, hash)
        } else {
            records
        },
        None => records,
    }
}

/// Whether hashing `password` under `salt` succeeds with a hash that
/// verifies against `password`. The hashing engine promises the second of
/// every hash it returns.
pub open spec fn hashes_soundly(password: Seq<char>, salt: Seq<char>) -> bool {
    argon2_phc(password, salt) matches Ok(hash) && verifies(password, hash)
}

/// Registering and then logging in succeeds: where the credentials are
/// accepted, the username is free and the password can be hashed, the
/// registration returns `Ok`, the store then holds the new hash for the
/// username and no other record has changed, and a login with the same
/// credentials returns `Ok(true)`.
pub proof fn lemma_register_then_login(
    records: Map<Seq<char>, Seq<char>>,
    username: Seq<char>,
    password: Seq<char>,
    answers: RegisterAnswers,
)
    requires
        registration_check(username, password) is Ok,
        !records.contains_key(username),
        truthful_registration(records, username, answers),
        hashes_soundly(password, answers.salt),
    ensures
        register_result(username, password, answers) == Ok::<(), AuthErrorView>(()),
        records_after_register(records, username, password, answers) == records.insert(
            username,
            argon2_phc(password, answers.salt)->Ok_0,
        ),
        login_result(
            username,
            password,
            truthful_fetch(
                records_after_register(records, username, password, answers),
                username,
            ),
        ) == Ok::<bool, AuthErrorView>(true),
{
}

/// A login for an account that does not exist returns `Ok(false)`, whatever
/// the password, as long as neither credential is empty.
pub proof fn lemma_unknown_user_login_false(
    records: Map<Seq<char>, Seq<char>>,
    username: Seq<char>,
    password: Seq<char>,
)
    requires
        credentials_check(username, password) is Ok,
        !records.contains_key(username),
    ensures
        login_result(username, password, truthful_fetch(records, username)) == Ok::<
            bool,
            AuthErrorView,
        >(false),
{
}

/// A login for an account that exists returns `Ok(false)` for every password
/// that does not verify against the stored hash.
pub proof fn lemma_rejected_password_login_false(
    records: Map<Seq<char>, Seq<char>>,
    username: Seq<char>,
    password: Seq<char>,
)
    requires
        credentials_check(username, password) is Ok,
        records.contains_key(username),
        crate::hashing::password_verdict(password, records[username]) == Ok::<
            bool,
            AuthErrorView,
        >(false),
    ensures
        login_result(username, password, truthful_fetch(records, username)) == Ok::<
            bool,
            AuthErrorView,
        >(false),
{
}

/// Registering a username that is taken fails with a validation error,
/// whatever the password, and leaves every record as it was.
pub proof fn lemma_register_taken_fails(
    records: Map<Seq<char>, Seq<char>>,
    username: Seq<char>,
    password: Seq<char>,
    answers: RegisterAnswers,
)
    requires
        records.contains_key(username),
        truthful_registration(records, username, answers),
    ensures
        register_result(username, password, answers) matches Err(error) && error is Validation,
        records_after_register(records, username, password, answers) == records,
{
}

/// A registration that loses a race fails with a validation error too: where
/// the store said that the username was free and then refused the record as
/// a violation of a constraint, the result is the error that says that the
/// username is taken.
pub proof fn lemma_register_race_is_validation(
    username: Seq<char>,
    password: Seq<char>,
    answers: RegisterAnswers,
)
    requires
        registration_check(username, password) is Ok,
        answers.lookup == Ok::<bool, Seq<char>>(false),
        argon2_phc(password, answers.salt) is Ok,
        answers.inserted matches Err(fault) && fault.constraint_violation,
    ensures
        register_result(username, password, answers) == Err::<(), AuthErrorView>(
            AuthErrorView::Validation(crate::db::taken_text(username)),
        ),
{
}

/// A change of password whose login with the old password does not return
/// `Ok(true)` fails, hands nothing to the store and leaves every record as
/// it was: a login with any password gives afterwards what it gave before.
pub proof fn lemma_failed_change_keeps_records(
    records: Map<Seq<char>, Seq<char>>,
    username: Seq<char>,
    old_password: Seq<char>,
    new_password: Seq<char>,
    answers: ChangeAnswers,
)
    requires
        answers.login == truthful_fetch(records, username),
        login_result(username, old_password, answers.login) != Ok::<bool, AuthErrorView>(true),
    ensures
        change_password_result(username, old_password, new_password, answers) is Err,
        login_result(username, old_password, answers.login) == Ok::<bool, AuthErrorView>(false)
            ==> change_password_result(username, old_password, new_password, answers) == Err::<
            (),
            AuthErrorView,
        >(AuthErrorView::Validation(crate::auth::wrong_password_text())),
        change_write(username, old_password, new_password, answers) is None,
        records_after_change(records, username, old_password, new_password, answers) == records,
        forall|password: Seq<char>|
            login_result(
                username,
                password,
                truthful_fetch(
                    records_after_change(records, username, old_password, new_password, answers),
                    username,
                ),
            ) == login_result(username, password, truthful_fetch(records, username)),
{
}

/// After a change of password that succeeded, a login with the new password
/// returns `Ok(true)`, and no record of another user has changed.
pub proof fn lemma_change_then_login(
    records: Map<Seq<char>, Seq<char>>,
    username: Seq<char>,
    old_password: Seq<char>,
    new_password: Seq<char>,
    answers: ChangeAnswers,
)
    requires
        truthful_change(records, username, answers),
        login_result(username, old_password, answers.login) == Ok::<bool, AuthErrorView>(true),
        strength_check(new_password, default_config()) is Ok,
        hashes_soundly(new_password, answers.salt),
    ensures
        change_password_result(username, old_password, new_password, answers) == Ok::<
            (),
            AuthErrorView,
        >(()),
        records_after_change(records, username, old_password, new_password, answers)
            == records.insert(username, argon2_phc(new_password, answers.salt)->Ok_0),
        login_result(
            username,
            new_password,
            truthful_fetch(
                records_after_change(records, username, old_password, new_password, answers),
                username,
            ),
        ) == Ok::<bool, AuthErrorView>(true),
{
    lemma_accepted_password_not_empty(new_password, default_config());
}

} // verus!
