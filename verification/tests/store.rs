use rusqlite::Connection;
use siri::db::{
    count_request, create_table_request, database_error, delete_request, existence_outcome,
    exists_request, get_password_hash, hash_request, insert_outcome, insert_request, insert_user,
    latest_user_request, list_request, passed_outcome, removal_outcome, stats_outcome,
    update_outcome, update_password_hash, update_request, user_exists, Database, StoreFault,
};
use siri::error::AuthError;

fn memory_store() -> Database {
    Database::with_connection(Connection::open_in_memory().unwrap()).unwrap()
}

fn fault(constraint_violation: bool, message: &str) -> StoreFault {
    StoreFault { constraint_violation, message: message.to_string() }
}

#[test]
fn new_store_is_empty() {
    let db = memory_store();
    assert_eq!(db.user_exists("alice"), Ok(false));
    assert_eq!(db.get_password_hash("alice"), Ok(None));
    assert_eq!(db.list_users(), Ok(vec![]));
    let stats = db.get_stats().unwrap();
    assert_eq!(stats.total_users, 0);
    assert_eq!(stats.latest_user, None);
}

#[test]
fn inserted_user_is_found() {
    let db = memory_store();
    assert_eq!(db.insert_user("alice", "hash-a"), Ok(()));
    assert_eq!(db.user_exists("alice"), Ok(true));
    assert_eq!(db.user_exists("bob"), Ok(false));
    assert_eq!(db.get_password_hash("alice"), Ok(Some("hash-a".to_string())));
    assert_eq!(db.get_password_hash("bob"), Ok(None));
}

#[test]
fn usernames_are_kept_apart_by_case() {
    let db = memory_store();
    assert_eq!(db.insert_user("alice", "hash-a"), Ok(()));
    assert_eq!(db.user_exists("Alice"), Ok(false));
    assert_eq!(db.insert_user("Alice", "hash-b"), Ok(()));
}

#[test]
fn second_insert_of_a_username_is_a_validation_error() {
    let db = memory_store();
    assert_eq!(db.insert_user("alice", "hash-a"), Ok(()));
    assert_eq!(
        db.insert_user("alice", "hash-b"),
        Err(AuthError::Validation("Usuário 'alice' já existe".to_string()))
    );
    assert_eq!(db.get_password_hash("alice"), Ok(Some("hash-a".to_string())));
    assert_eq!(db.get_stats().unwrap().total_users, 1);
}

#[test]
fn update_replaces_the_hash_only() {
    let db = memory_store();
    db.insert_user("alice", "hash-a").unwrap();
    db.insert_user("bob", "hash-b").unwrap();
    let before = db.list_users().unwrap();
    assert_eq!(update_password_hash(db.connection(), "alice", "hash-c"), Ok(()));
    assert_eq!(db.get_password_hash("alice"), Ok(Some("hash-c".to_string())));
    assert_eq!(db.update_password_hash("alice", "hash-d"), Ok(()));
    assert_eq!(db.get_password_hash("alice"), Ok(Some("hash-d".to_string())));
    assert_eq!(db.get_password_hash("bob"), Ok(Some("hash-b".to_string())));
    assert_eq!(db.list_users().unwrap(), before);
}

#[test]
fn update_of_an_unknown_user_changes_nothing() {
    let db = memory_store();
    db.insert_user("alice", "hash-a").unwrap();
    assert_eq!(update_password_hash(db.connection(), "bob", "hash-b"), Ok(()));
    assert_eq!(db.user_exists("bob"), Ok(false));
    assert_eq!(db.get_password_hash("alice"), Ok(Some("hash-a".to_string())));
}

#[test]
fn users_are_listed_by_name() {
    let db = memory_store();
    db.insert_user("carol", "h3").unwrap();
    db.insert_user("alice", "h1").unwrap();
    db.insert_user("bob", "h2").unwrap();
    let users = db.list_users().unwrap();
    let names: Vec<&str> = users.iter().map(|user| user.1.as_str()).collect();
    assert_eq!(names, vec!["alice", "bob", "carol"]);
    let ids: Vec<i32> = users.iter().map(|user| user.0).collect();
    assert_eq!(ids, vec![2, 3, 1]);
    for user in &users {
        assert_eq!(user.2.len(), "2024-01-01 00:00:00".len(), "{}", user.2);
    }
}

#[test]
fn delete_tells_whether_there_was_a_user() {
    let db = memory_store();
    db.insert_user("alice", "h1").unwrap();
    assert_eq!(db.delete_user("bob"), Ok(false));
    assert_eq!(db.delete_user("alice"), Ok(true));
    assert_eq!(db.delete_user("alice"), Ok(false));
    assert_eq!(db.user_exists("alice"), Ok(false));
}

#[test]
fn stats_count_the_users() {
    let db = memory_store();
    db.insert_user("alice", "h1").unwrap();
    let stats = db.get_stats().unwrap();
    assert_eq!(stats.total_users, 1);
    assert_eq!(stats.latest_user, Some("alice".to_string()));
    db.insert_user("bob", "h2").unwrap();
    assert_eq!(db.get_stats().unwrap().total_users, 2);
}

#[test]
fn functions_on_a_connection_see_the_same_store() {
    let db = memory_store();
    let conn = db.connection();
    assert_eq!(user_exists(conn, "alice"), Ok(false));
    assert_eq!(insert_user(conn, "alice", "h1"), Ok(()));
    assert_eq!(db.user_exists("alice"), Ok(true));
    assert_eq!(get_password_hash(conn, "alice"), Ok(Some("h1".to_string())));
}

#[test]
fn opening_twice_keeps_the_records() {
    let conn = Connection::open_in_memory().unwrap();
    let db = Database::with_connection(conn).unwrap();
    db.insert_user("alice", "h1").unwrap();
    let db = Database::with_connection(Connection::open_in_memory().unwrap()).unwrap();
    assert_eq!(db.user_exists("alice"), Ok(false));
}

#[test]
fn a_store_without_its_table_reports_a_database_error() {
    let conn = Connection::open_in_memory().unwrap();
    for result in [user_exists(&conn, "alice").map(|_| ()), insert_user(&conn, "alice", "h1")] {
        match result {
            Err(AuthError::Database(message)) => assert!(message.contains("users"), "{}", message),
            other => panic!("{:?}", other),
        }
    }
    match get_password_hash(&conn, "alice") {
        Err(AuthError::Database(_)) => {}
        other => panic!("{:?}", other),
    }
    match update_password_hash(&conn, "alice", "h1") {
        Err(AuthError::Database(_)) => {}
        other => panic!("{:?}", other),
    }
}

#[test]
fn a_count_decides_existence() {
    assert_eq!(existence_outcome(Ok(0)), Ok(false));
    assert_eq!(existence_outcome(Ok(1)), Ok(true));
    assert_eq!(existence_outcome(Ok(2)), Ok(true));
    assert_eq!(existence_outcome(Ok(-1)), Ok(false));
    assert_eq!(
        existence_outcome(Err(fault(false, "locked"))),
        Err(AuthError::Database("locked".to_string()))
    );
    assert_eq!(
        existence_outcome(Err(fault(true, "odd"))),
        Err(AuthError::Database("odd".to_string()))
    );
}

#[test]
fn an_insertion_is_read_by_its_fault() {
    assert_eq!(insert_outcome("alice", Ok(1)), Ok(()));
    assert_eq!(insert_outcome("alice", Ok(0)), Ok(()));
    assert_eq!(
        insert_outcome("alice", Err(fault(true, "UNIQUE constraint failed: users.username"))),
        Err(AuthError::Validation("Usuário 'alice' já existe".to_string()))
    );
    assert_eq!(
        insert_outcome("", Err(fault(true, "x"))),
        Err(AuthError::Validation("Usuário '' já existe".to_string()))
    );
    assert_eq!(
        insert_outcome("alice", Err(fault(false, "disk I/O error"))),
        Err(AuthError::Database("disk I/O error".to_string()))
    );
}

#[test]
fn an_update_is_read_by_its_fault() {
    assert_eq!(update_outcome(Ok(0)), Ok(()));
    assert_eq!(update_outcome(Ok(1)), Ok(()));
    assert_eq!(
        update_outcome(Err(fault(true, "constraint"))),
        Err(AuthError::Database("constraint".to_string()))
    );
}

#[test]
fn a_removal_is_read_by_its_rows() {
    assert_eq!(removal_outcome(Ok(0)), Ok(false));
    assert_eq!(removal_outcome(Ok(1)), Ok(true));
    assert_eq!(removal_outcome(Ok(3)), Ok(true));
    assert_eq!(
        removal_outcome(Err(fault(false, "locked"))),
        Err(AuthError::Database("locked".to_string()))
    );
}

#[test]
fn stats_are_put_together() {
    let stats = stats_outcome(3, Some("carol".to_string()));
    assert_eq!(stats.total_users, 3);
    assert_eq!(stats.latest_user, Some("carol".to_string()));
    let stats = stats_outcome(0, None);
    assert_eq!(stats.total_users, 0);
    assert_eq!(stats.latest_user, None);
}

#[test]
fn a_fault_becomes_a_database_error() {
    assert_eq!(
        database_error(fault(false, "no such table: users")),
        AuthError::Database("no such table: users".to_string())
    );
}

#[test]
fn an_answer_is_handed_on_as_it_is() {
    assert_eq!(passed_outcome(Ok(Some("hash-a".to_string()))), Ok(Some("hash-a".to_string())));
    assert_eq!(passed_outcome::<Option<String>>(Ok(None)), Ok(None));
    assert_eq!(passed_outcome(Ok(41i64)), Ok(41i64));
    let rows = vec![(1, "alice".to_string(), "2024-01-01 00:00:00".to_string())];
    assert_eq!(passed_outcome(Ok(rows.clone())), Ok(rows));
    assert_eq!(
        passed_outcome::<i64>(Err(fault(false, "no such table: users"))),
        Err(AuthError::Database("no such table: users".to_string()))
    );
    assert_eq!(
        passed_outcome::<i64>(Err(fault(true, "constraint"))),
        Err(AuthError::Database("constraint".to_string()))
    );
}

#[test]
fn stats_name_the_user_created_last() {
    let db = memory_store();
    db.connection()
        .execute(
            "INSERT INTO users (username, password_hash, created_at) VALUES (?1, ?2, ?3)",
            ["old", "h1", "2020-01-01 00:00:00"],
        )
        .unwrap();
    db.connection()
        .execute(
            "INSERT INTO users (username, password_hash, created_at) VALUES (?1, ?2, ?3)",
            ["new", "h2", "2021-01-01 00:00:00"],
        )
        .unwrap();
    let stats = db.get_stats().unwrap();
    assert_eq!(stats.total_users, 2);
    assert_eq!(stats.latest_user, Some("new".to_string()));
}

#[test]
fn each_statement_has_its_text_and_parameters() {
    assert_eq!(
        exists_request("alice"),
        ("SELECT COUNT(*) FROM users WHERE username = ?1", vec!["alice"])
    );
    assert_eq!(
        hash_request("alice"),
        ("SELECT password_hash FROM users WHERE username = ?1", vec!["alice"])
    );
    assert_eq!(
        insert_request("alice", "hash-a"),
        ("INSERT INTO users (username, password_hash) VALUES (?1, ?2)", vec!["alice", "hash-a"])
    );
    assert_eq!(
        update_request("alice", "hash-b"),
        ("UPDATE users SET password_hash = ?1 WHERE username = ?2", vec!["hash-b", "alice"])
    );
    assert_eq!(delete_request("alice"), ("DELETE FROM users WHERE username = ?1", vec!["alice"]));
    assert_eq!(count_request(), ("SELECT COUNT(*) FROM users", vec![]));
    assert_eq!(
        latest_user_request(),
        ("SELECT username FROM users ORDER BY created_at DESC LIMIT 1", vec![])
    );
    assert_eq!(
        list_request(),
        "SELECT id, username, datetime(created_at, 'localtime') as created FROM users ORDER BY username"
    );
    assert_eq!(
        create_table_request(),
        (
            "CREATE TABLE IF NOT EXISTS users (id INTEGER PRIMARY KEY, username TEXT NOT NULL UNIQUE, password_hash TEXT NOT NULL, created_at DATETIME DEFAULT CURRENT_TIMESTAMP)",
            vec![]
        )
    );
}

#[test]
fn the_statements_are_what_the_store_runs() {
    let conn = Connection::open_in_memory().unwrap();
    let create = create_table_request();
    conn.execute(create.0, rusqlite::params_from_iter(create.1.iter())).unwrap();
    let insert = insert_request("alice", "hash-a");
    assert_eq!(conn.execute(insert.0, rusqlite::params_from_iter(insert.1.iter())), Ok(1));
    let update = update_request("alice", "hash-b");
    assert_eq!(conn.execute(update.0, rusqlite::params_from_iter(update.1.iter())), Ok(1));
    assert_eq!(get_password_hash(&conn, "alice"), Ok(Some("hash-b".to_string())));
    assert_eq!(get_password_hash(&conn, "hash-b"), Ok(None));
    let update = update_request("bob", "hash-c");
    assert_eq!(conn.execute(update.0, rusqlite::params_from_iter(update.1.iter())), Ok(0));
    let delete = delete_request("alice");
    assert_eq!(conn.execute(delete.0, rusqlite::params_from_iter(delete.1.iter())), Ok(1));
    assert_eq!(user_exists(&conn, "alice"), Ok(false));
}

#[test]
fn the_table_keeps_usernames_unique_and_stamps_the_time() {
    let db = memory_store();
    db.insert_user("alice", "hash-a").unwrap();
    let created: String = db
        .connection()
        .query_row("SELECT created_at FROM users WHERE username = ?1", ["alice"], |row| row.get(0))
        .unwrap();
    assert_eq!(created.len(), "2024-01-01 00:00:00".len());
    let id: i64 = db
        .connection()
        .query_row("SELECT id FROM users WHERE username = ?1", ["alice"], |row| row.get(0))
        .unwrap();
    assert_eq!(id, 1);
    assert!(db.insert_user("alice", "hash-b").is_err());
}
