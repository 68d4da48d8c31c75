use note_store::commands::{create_database_with_id, create_user_if_null, create_user_with_id, get_user};
use note_store::database::Database;
use note_store::error::{DatabaseError, Fault, Table};
use note_store::provision::{Progress, Provisioning};
use note_store::record::User;
use note_store::row::{encode_user, Row};
use note_store::statement::Statement;

fn sample_user() -> User {
    User {
        id: "user-1".to_string(),
        current_workspace: Some("none".to_string()),
        current_note: None,
        created_at: "2024-01-01 08:00:00".to_string(),
        updated_at: "2024-01-01 08:00:00".to_string(),
    }
}

#[test]
fn provisioning_asks_for_the_users_first() {
    let (state, statement) = Provisioning::begin("candidate".to_string());
    assert_eq!(statement, Statement::SelectUsers);
    assert!(matches!(state, Provisioning::ReadingUsers { candidate } if candidate == "candidate"));
}

#[test]
fn provisioning_starts_with_a_random_candidate() {
    let (state, statement) = Provisioning::start();
    assert_eq!(statement, Statement::SelectUsers);
    match state {
        Provisioning::ReadingUsers { candidate } => {
            let parsed = uuid::Uuid::parse_str(&candidate).unwrap();
            assert_eq!(parsed.get_version_num(), 4);
            assert_eq!(candidate, parsed.hyphenated().to_string());
        }
        other => panic!("unexpected state {other:?}"),
    }
}

#[test]
fn provisioning_writes_a_user_into_an_empty_table() {
    let (state, _) = Provisioning::begin("candidate".to_string());
    let state = match state.advance(Ok(Vec::new())) {
        Progress::Run { next, statement } => {
            assert_eq!(statement, Statement::InsertUser { id: "candidate".to_string() });
            assert!(matches!(next, Provisioning::WritingUser));
            next
        }
        other => panic!("unexpected progress {other:?}"),
    };
    let state = match state.advance(Ok(Vec::new())) {
        Progress::Run { next, statement } => {
            assert_eq!(statement, Statement::SelectUsers);
            assert!(matches!(next, Provisioning::ReadingNewUser));
            next
        }
        other => panic!("unexpected progress {other:?}"),
    };
    match state.advance(Ok(vec![encode_user(&sample_user())])) {
        Progress::Done { users } => assert_eq!(users, vec![sample_user()]),
        other => panic!("unexpected progress {other:?}"),
    }
}

#[test]
fn provisioning_keeps_the_users_that_exist() {
    let (state, _) = Provisioning::begin("candidate".to_string());
    match state.advance(Ok(vec![encode_user(&sample_user())])) {
        Progress::Done { users } => assert_eq!(users, vec![sample_user()]),
        other => panic!("unexpected progress {other:?}"),
    }
}

#[test]
fn provisioning_stops_at_a_failure() {
    let failure = DatabaseError::Statement { message: "disk I/O error".to_string() };
    let (state, _) = Provisioning::begin("candidate".to_string());
    match state.advance(Err(failure.clone())) {
        Progress::Failed { error } => assert_eq!(error, failure),
        other => panic!("unexpected progress {other:?}"),
    }
    match Provisioning::WritingUser.advance(Err(failure.clone())) {
        Progress::Failed { error } => assert_eq!(error, failure),
        other => panic!("unexpected progress {other:?}"),
    }
    match Provisioning::ReadingNewUser.advance(Err(failure.clone())) {
        Progress::Failed { error } => assert_eq!(error, failure),
        other => panic!("unexpected progress {other:?}"),
    }
}

#[test]
fn provisioning_rejects_a_malformed_row() {
    let short: Row = vec![Some("user-1".to_string())];
    let (state, _) = Provisioning::begin("candidate".to_string());
    match state.advance(Ok(vec![short.clone()])) {
        Progress::Failed { error } => assert_eq!(error, DatabaseError::Malformed),
        other => panic!("unexpected progress {other:?}"),
    }
    match Provisioning::ReadingNewUser.advance(Ok(vec![short])) {
        Progress::Failed { error } => assert_eq!(error, DatabaseError::Malformed),
        other => panic!("unexpected progress {other:?}"),
    }
}

#[test]
fn reading_after_the_write_returns_what_is_read() {
    match Provisioning::ReadingNewUser.advance(Ok(Vec::new())) {
        Progress::Done { users } => assert_eq!(users, Vec::<User>::new()),
        other => panic!("unexpected progress {other:?}"),
    }
}

#[test]
fn user_is_created_once() {
    let mut db = Database::new();
    assert_eq!(db.execute(&Statement::CreateUserTable, ""), Ok(Vec::new()));
    let first = create_user_with_id(&mut db, "a".to_string(), "2024-01-01 08:00:00").unwrap();
    assert_eq!(first.len(), 1);
    assert_eq!(first[0].id, "a");
    let second = create_user_with_id(&mut db, "b".to_string(), "2024-01-02 08:00:00").unwrap();
    assert_eq!(second, first);
    let third = create_user_if_null(&mut db, "2024-01-03 08:00:00").unwrap();
    assert_eq!(third, first);
    assert_eq!(get_user(&db).unwrap(), first);
}

#[test]
fn user_needs_its_table() {
    let mut db = Database::new();
    let refused = create_user_if_null(&mut db, "2024-01-01 08:00:00");
    assert_eq!(
        refused,
        Err(DatabaseError::Statement { message: "no such table: user".to_string() })
    );
    assert_eq!(db.select(&Statement::SelectUsers), Err(Fault::MissingTable(Table::User)));
}

#[test]
fn preparing_creates_the_three_tables() {
    let mut db = Database::new();
    assert!(!db.has_table(Table::User));
    assert!(!db.has_table(Table::Workspace));
    assert!(!db.has_table(Table::Note));
    create_database_with_id(&mut db, "user-1".to_string(), "2024-01-01 08:00:00").unwrap();
    assert!(db.has_table(Table::User));
    assert!(db.has_table(Table::Workspace));
    assert!(db.has_table(Table::Note));
}
