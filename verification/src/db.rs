//! The credential store: one table of users in an SQLite database, each row
//! a username, the hash of its password and the time it was created.

use crate::error::{AuthError, AuthErrorView, AuthResult};
use rusqlite::{Connection, OptionalExtension};
use vstd::prelude::*;
use vstd::string::StringExecFns;

verus! {

/// A connection to an SQLite database. Verus sees nothing inside it.
#[verifier::external_type_specification]
#[verifier::external_body]
pub struct ExConnection(rusqlite::Connection);

/// An error of the SQLite binding. Verus sees nothing inside it.
#[verifier::external_type_specification]
#[verifier::external_body]
pub struct ExStoreError(rusqlite::Error);

/// A fault that the store reported, as far as this crate reads it.
#[derive(Debug, Clone, PartialEq, Eq)]
pub struct StoreFault {
    /// Whether the store refused the statement because it would break a
    /// constraint of the table, such as the uniqueness of usernames.
    pub constraint_violation: bool,
    /// The store's own description of the fault.
    pub message: String,
}

/// A `StoreFault` with its message as a sequence of characters.
pub struct StoreFaultView {
    pub constraint_violation: bool,
    pub message: Seq<char>,
}

impl View for StoreFault {
    type V = StoreFaultView;

    open spec fn view(&self) -> StoreFaultView {
        StoreFaultView { constraint_violation: self.constraint_violation, message: self.message@ }
    }
}

/// Reads off a `rusqlite::Error` what this crate looks at: whether
/// `sqlite_error_code` gives `ConstraintViolation`, and the text that its
/// `Display` writes. Nothing is claimed of either.
#[verifier::external_body]
fn store_fault(error: rusqlite::Error) -> (fault: StoreFault) {
    StoreFault {
        constraint_violation: error.sqlite_error_code() == Some(
            rusqlite::ErrorCode::ConstraintViolation,
        ),
        message: error.to_string(),
    }
}

/// Calls `Connection::open` on `path`. Nothing is claimed of the outcome.
#[verifier::external_body]
fn open_connection(path: &str) -> (opened: Result<Connection, rusqlite::Error>) {
    Connection::open(path)
}

/// Calls `Connection::execute` with `sql` and the text parameters `params`,
/// bound in order. `Ok` holds the number of rows the statement changed.
/// Nothing is claimed of the outcome: it depends on what the database holds.
#[verifier::external_body]
fn execute_statement(conn: &Connection, sql: &str, params: &Vec<&str>) -> (changed: Result<
    usize,
    rusqlite::Error,
>) {
    conn.execute(sql, rusqlite::params_from_iter(params.iter()))
}

/// Calls `Connection::query_row` with `sql` and the text parameters `params`
/// and reads the first column of the first row as an integer. Nothing is
/// claimed of the outcome: it depends on what the database holds.
#[verifier::external_body]
fn query_integer(conn: &Connection, sql: &str, params: &Vec<&str>) -> (found: Result<
    i64,
    rusqlite::Error,
>) {
    conn.query_row(sql, rusqlite::params_from_iter(params.iter()), |row| row.get(0))
}

/// Calls `Connection::query_row` with `sql` and the text parameters `params`,
/// reads the first column of the first row as text, and passes the result
/// through `OptionalExtension::optional`, so that a query without rows gives
/// `Ok(None)`. Nothing is claimed of the outcome: it depends on what the
/// database holds.
#[verifier::external_body]
fn query_text(conn: &Connection, sql: &str, params: &Vec<&str>) -> (found: Result<
    Option<String>,
    rusqlite::Error,
>) {
    conn.query_row(sql, rusqlite::params_from_iter(params.iter()), |row| row.get(0)).optional()
}

/// Calls `Connection::prepare` with `sql` and `Statement::query_map` without
/// parameters, and collects the rows, each read as an integer and two texts.
/// Nothing is claimed of the outcome: it depends on what the database holds.
#[verifier::external_body]
fn query_user_rows(conn: &Connection, sql: &str) -> (rows: Result<
    Vec<(i32, String, String)>,
    rusqlite::Error,
>) {
    let mut statement = conn.prepare(sql)?;
    let rows = statement.query_map([], |row| Ok((row.get(0)?, row.get(1)?, row.get(2)?)))?;
    rows.collect()
}

/// An answer of the store with its error, if any, read as a `StoreFault`.
fn answer<T>(raw: Result<T, rusqlite::Error>) -> (read: Result<T, StoreFault>)
    ensures
        raw matches Ok(value) ==> read == Ok::<T, StoreFault>(value),
        raw is Err ==> read is Err,
{
    match raw {
        Ok(value) => Ok(value),
        Err(error) => Err(store_fault(error)),
    }
}

/// An answer of the store with its fault, if any, taken by its view.
pub open spec fn answer_view<T>(answer: Result<T, StoreFault>) -> Result<T, StoreFaultView> {
    match answer {
        Ok(value) => Ok(value),
        Err(fault) => Err(fault@),
    }
}

/// The message that tells a person that `username` is taken.
pub open spec fn taken_text(username: Seq<char>) -> Seq<char> {
    "Usuário '"@ + username + "' já existe"@
}

/// The error that reports a fault of the store: it carries the store's own
/// description.
pub open spec fn fault_error(fault: StoreFaultView) -> AuthErrorView {
    AuthErrorView::Database(fault.message)
}

/// What an answer of the store comes to where its value is handed on as it
/// is: the value, or the error that reports the fault.
pub open spec fn passed_result<T>(answer: Result<T, StoreFaultView>) -> Result<T, AuthErrorView> {
    match answer {
        Ok(value) => Ok(value),
        Err(fault) => Err(fault_error(fault)),
    }
}

/// Whether a user exists, from the number of rows that bear the username.
pub open spec fn existence_result(counted: Result<i64, StoreFaultView>) -> Result<
    bool,
    AuthErrorView,
> {
    match counted {
        Ok(count) => Ok(count > 0),
        Err(fault) => Err(fault_error(fault)),
    }
}

/// What an insertion comes to. A statement that went through is a success,
/// however many rows it reports. A constraint violation means that the
/// username is taken, by an earlier registration or by one that won a race,
/// and is for the caller to correct. Any other fault is the store's.
pub open spec fn insert_result(username: Seq<char>, inserted: Result<usize, StoreFaultView>)
    -> Result<(), AuthErrorView> {
    match inserted {
        Ok(_) => Ok(()),
        Err(fault) => if fault.constraint_violation {
            Err(AuthErrorView::Validation(taken_text(username)))
        } else {
            Err(fault_error(fault))
        },
    }
}

/// What a statement that changes rows comes to when only its success counts.
pub open spec fn update_result(updated: Result<usize, StoreFaultView>) -> Result<
    (),
    AuthErrorView,
> {
    match updated {
        Ok(_) => Ok(()),
        Err(fault) => Err(fault_error(fault)),
    }
}

/// Whether a deletion removed anything, from the number of rows it changed.
pub open spec fn removal_result(removed: Result<usize, StoreFaultView>) -> Result<
    bool,
    AuthErrorView,
> {
    match removed {
        Ok(rows) => Ok(rows > 0),
        Err(fault) => Err(fault_error(fault)),
    }
}

/// Figures about the store.
#[derive(Debug)]
pub struct DatabaseStats {
    pub total_users: usize,
    pub latest_user: Option<String>,
}

/// The validation error that says that `username` is taken.
pub fn taken_error(username: &str) -> (error: AuthError)
    ensures
        error@ == AuthErrorView::Validation(taken_text(username@)),
{
    AuthError::Validation(String::from_str("Usuário '").concat(username).concat("' já existe"))
}

/// Turns a fault of the store into the error that reports it.
pub fn database_error(fault: StoreFault) -> (error: AuthError)
    ensures
        error@ == fault_error(fault@),
{
    AuthError::Database(fault.message)
}

/// Hands on what the store answered: its value unchanged, or its fault as a
/// database error.
pub fn passed_outcome<T>(answer: Result<T, StoreFault>) -> (outcome: AuthResult<T>)
    ensures
        crate::error::result_view(outcome) == passed_result(answer_view(answer)),
{
    match answer {
        Ok(value) => Ok(value),
        Err(fault) => Err(database_error(fault)),
    }
}

/// Decides from a count of matching rows whether a user exists.
pub fn existence_outcome(counted: Result<i64, StoreFault>) -> (found: AuthResult<bool>)
    ensures
        crate::error::result_view(found) == existence_result(answer_view(counted)),
{
    match counted {
        Ok(count) => Ok(count > 0),
        Err(fault) => Err(database_error(fault)),
    }
}

/// Decides what the store's answer to an insertion of `username` means.
pub fn insert_outcome(username: &str, inserted: Result<usize, StoreFault>) -> (outcome: AuthResult<
    (),
>)
    ensures
        crate::error::result_view(outcome) == insert_result(username@, answer_view(inserted)),
{
    match inserted {
        Ok(_) => Ok(()),
        Err(fault) => {
            if fault.constraint_violation {
                Err(taken_error(username))
            } else {
                Err(database_error(fault))
            }
        },
    }
}

/// Decides what the store's answer to an update means.
pub fn update_outcome(updated: Result<usize, StoreFault>) -> (outcome: AuthResult<()>)
    ensures
        crate::error::result_view(outcome) == update_result(answer_view(updated)),
{
    match updated {
        Ok(_) => Ok(()),
        Err(fault) => Err(database_error(fault)),
    }
}

/// Decides from the number of rows a deletion changed whether it removed a
/// user.
pub fn removal_outcome(removed: Result<usize, StoreFault>) -> (outcome: AuthResult<bool>)
    ensures
        crate::error::result_view(outcome) == removal_result(answer_view(removed)),
{
    match removed {
        Ok(rows) => Ok(rows > 0),
        Err(fault) => Err(database_error(fault)),
    }
}

/// Puts the figures about the store together. The count is taken as the
/// machine converts it: a count that `usize` can hold is kept as it is.
pub fn stats_outcome(count: i64, latest_user: Option<String>) -> (stats: DatabaseStats)
    ensures
        stats.total_users == count as usize,
        stats.latest_user == latest_user,
{
    DatabaseStats { total_users: count as usize, latest_user }
}

/// The texts of the parameters of a statement, in the order in which they
/// are bound to its placeholders.
pub open spec fn param_texts(params: Seq<&str>) -> Seq<Seq<char>> {
    Seq::new(params.len(), |i: int| params[i]@)
}

/// The statement that counts the rows that bear `username`.
pub fn exists_request<'a>(username: &'a str) -> (request: (&'static str, Vec<&'a str>))
    ensures
        request.0@ == "SELECT COUNT(*) FROM users WHERE username = ?1"@,
        param_texts(request.1@) == seq![username@],
{
    let params: Vec<&str> = vec![username];
    ("SELECT COUNT(*) FROM users WHERE username = ?1", params)
}

/// The statement that reads the password hash of `username`.
pub fn hash_request<'a>(username: &'a str) -> (request: (&'static str, Vec<&'a str>))
    ensures
        request.0@ == "SELECT password_hash FROM users WHERE username = ?1"@,
        param_texts(request.1@) == seq![username@],
{
    let params: Vec<&str> = vec![username];
    ("SELECT password_hash FROM users WHERE username = ?1", params)
}

/// The statement that adds a record: the username first, then the hash.
pub fn insert_request<'a>(username: &'a str, password_hash: &'a str) -> (request: (
    &'static str,
    Vec<&'a str>,
))
    ensures
        request.0@ == "INSERT INTO users (username, password_hash) VALUES (?1, ?2)"@,
        param_texts(request.1@) == seq![username@, password_hash@],
{
    let params: Vec<&str> = vec![username, password_hash];
    ("INSERT INTO users (username, password_hash) VALUES (?1, ?2)", params)
}

/// The statement that replaces the password hash of `username`: the new hash
/// first, then the username. It writes no other column.
pub fn update_request<'a>(username: &'a str, new_hash: &'a str) -> (request: (
    &'static str,
    Vec<&'a str>,
))
    ensures
        request.0@ == "UPDATE users SET password_hash = ?1 WHERE username = ?2"@,
        param_texts(request.1@) == seq![new_hash@, username@],
{
    let params: Vec<&str> = vec![new_hash, username];
    ("UPDATE users SET password_hash = ?1 WHERE username = ?2", params)
}

/// The statement that removes the record of `username`.
pub fn delete_request<'a>(username: &'a str) -> (request: (&'static str, Vec<&'a str>))
    ensures
        request.0@ == "DELETE FROM users WHERE username = ?1"@,
        param_texts(request.1@) == seq![username@],
{
    let params: Vec<&str> = vec![username];
    ("DELETE FROM users WHERE username = ?1", params)
}

/// The statement that counts all records.
pub fn count_request() -> (request: (&'static str, Vec<&'static str>))
    ensures
        request.0@ == "SELECT COUNT(*) FROM users"@,
        request.1@.len() == 0,
{
    ("SELECT COUNT(*) FROM users", Vec::new())
}

/// The statement that reads the username of the record created last.
pub fn latest_user_request() -> (request: (&'static str, Vec<&'static str>))
    ensures
        request.0@ == "SELECT username FROM users ORDER BY created_at DESC LIMIT 1"@,
        request.1@.len() == 0,
{
    ("SELECT username FROM users ORDER BY created_at DESC LIMIT 1", Vec::new())
}

/// The statement that reads all records in the order of their usernames:
/// key, username, and the time of creation in local time.
pub fn list_request() -> (text: &'static str)
    ensures
        text@
            == "SELECT id, username, datetime(created_at, 'localtime') as created FROM users ORDER BY username"@,
{
    "SELECT id, username, datetime(created_at, 'localtime') as created FROM users ORDER BY username"
}

/// The statement that creates the table of users unless it is there already:
/// a key that the store assigns, the username, which is unique, the password
/// hash, and the time of creation, which the store sets.
pub fn create_table_request() -> (request: (&'static str, Vec<&'static str>))
    ensures
        request.0@
            == "CREATE TABLE IF NOT EXISTS users (id INTEGER PRIMARY KEY, username TEXT NOT NULL UNIQUE, password_hash TEXT NOT NULL, created_at DATETIME DEFAULT CURRENT_TIMESTAMP)"@,
        request.1@.len() == 0,
{
    (
        "CREATE TABLE IF NOT EXISTS users (id INTEGER PRIMARY KEY, username TEXT NOT NULL UNIQUE, password_hash TEXT NOT NULL, created_at DATETIME DEFAULT CURRENT_TIMESTAMP)",
        Vec::new(),
    )
}

/// Asks the store whether a user named `username` exists.
pub fn user_exists(conn: &Connection, username: &str) -> (found: AuthResult<bool>)
    ensures
        found matches Err(error) ==> error@ is Database,
{
    let request = exists_request(username);
    let counted = answer(query_integer(conn, request.0, &request.1));
    existence_outcome(counted)
}

/// Asks the store for the password hash of `username`: `None` where there is
/// no such user.
pub fn get_password_hash(conn: &Connection, username: &str) -> (found: AuthResult<Option<String>>)
    ensures
        found matches Err(error) ==> error@ is Database,
{
    let request = hash_request(username);
    let fetched = answer(query_text(conn, request.0, &request.1));
    passed_outcome(fetched)
}

/// Adds a user to the store. The store itself keeps usernames unique: where
/// it refuses the row for that, the error says that the username is taken.
pub fn insert_user(conn: &Connection, username: &str, password_hash: &str) -> (outcome: AuthResult<
    (),
>)
    ensures
        outcome matches Err(error) ==> error@ is Database || error@ == AuthErrorView::Validation(
            taken_text(username@),
        ),
{
    let request = insert_request(username, password_hash);
    let inserted = answer(execute_statement(conn, request.0, &request.1));
    insert_outcome(username, inserted)
}

/// Replaces the password hash of `username`; nothing else of the record is
/// written. Where no such user exists the statement changes nothing and
/// still succeeds.
pub fn update_password_hash(conn: &Connection, username: &str, new_hash: &str) -> (outcome:
    AuthResult<()>)
    ensures
        outcome matches Err(error) ==> error@ is Database,
{
    let request = update_request(username, new_hash);
    let updated = answer(execute_statement(conn, request.0, &request.1));
    update_outcome(updated)
}

/// The store behind one connection, with its table of users in place.
pub struct Database {
    conn: Connection,
}

impl Database {
    /// The connection that this store holds.
    pub closed spec fn handle(&self) -> Connection {
        self.conn
    }

    /// Opens the database file `users.db` in the working directory and makes
    /// sure that the table of users exists.
    pub fn new() -> (opened: AuthResult<Database>)
        ensures
            opened matches Err(error) ==> error@ is Database,
    {
        match passed_outcome(answer(open_connection("users.db"))) {
            Ok(conn) => Database::with_connection(conn),
            Err(error) => Err(error),
        }
    }

    /// Takes over an open connection and makes sure that the table of users
    /// exists in its database.
    pub fn with_connection(conn: Connection) -> (opened: AuthResult<Database>)
        ensures
            opened matches Ok(db) ==> db.handle() == conn,
            opened matches Err(error) ==> error@ is Database,
    {
        let db = Database { conn };
        match db.init_tables() {
            Ok(()) => Ok(db),
            Err(error) => Err(error),
        }
    }

    /// Creates the table of users unless it is there already.
    fn init_tables(&self) -> (outcome: AuthResult<()>)
        ensures
            outcome matches Err(error) ==> error@ is Database,
    {
        let request = create_table_request();
        let created = answer(execute_statement(&self.conn, request.0, &request.1));
        update_outcome(created)
    }

    /// The connection to the database.
    pub fn connection(&self) -> (conn: &Connection)
        ensures
            *conn == self.handle(),
    {
        &self.conn
    }

    /// Whether a user named `username` exists.
    pub fn user_exists(&self, username: &str) -> (found: AuthResult<bool>)
        ensures
            found matches Err(error) ==> error@ is Database,
    {
        user_exists(&self.conn, username)
    }

    /// The password hash of `username`: `None` where there is no such user.
    pub fn get_password_hash(&self, username: &str) -> (found: AuthResult<Option<String>>)
        ensures
            found matches Err(error) ==> error@ is Database,
    {
        get_password_hash(&self.conn, username)
    }

    /// Adds a user. A username that is taken is a validation error.
    pub fn insert_user(&self, username: &str, password_hash: &str) -> (outcome: AuthResult<()>)
        ensures
            outcome matches Err(error) ==> error@ is Database || error@
                == AuthErrorView::Validation(taken_text(username@)),
    {
        insert_user(&self.conn, username, password_hash)
    }

    /// Replaces the password hash of `username` and leaves the rest of the
    /// record alone.
    pub fn update_password_hash(&self, username: &str, new_hash: &str) -> (outcome: AuthResult<()>)
        ensures
            outcome matches Err(error) ==> error@ is Database,
    {
        update_password_hash(&self.conn, username, new_hash)
    }

    /// All users in the order of their names: key, username, and the time of
    /// creation in local time.
    pub fn list_users(&self) -> (users: AuthResult<Vec<(i32, String, String)>>)
        ensures
            users matches Err(error) ==> error@ is Database,
    {
        let rows = answer(query_user_rows(&self.conn, list_request()));
        passed_outcome(rows)
    }

    /// Removes the user named `username`, and tells whether there was one.
    pub fn delete_user(&self, username: &str) -> (removed: AuthResult<bool>)
        ensures
            removed matches Err(error) ==> error@ is Database,
    {
        let request = delete_request(username);
        let changed = answer(execute_statement(&self.conn, request.0, &request.1));
        removal_outcome(changed)
    }

    /// How many users there are, and who was created last.
    pub fn get_stats(&self) -> (stats: AuthResult<DatabaseStats>)
        ensures
            stats matches Err(error) ==> error@ is Database,
    {
        let count_request = count_request();
        let counted = answer(query_integer(&self.conn, count_request.0, &count_request.1));
        let count = match passed_outcome(counted) {
            Ok(count) => count,
            Err(error) => {
                return Err(error);
            },
        };
        let latest_request = latest_user_request();
        let fetched = answer(query_text(&self.conn, latest_request.0, &latest_request.1));
        let latest = match passed_outcome(fetched) {
            Ok(latest) => latest,
            Err(error) => {
                return Err(error);
            },
        };
        Ok(stats_outcome(count, latest))
    }
}

} // verus!
