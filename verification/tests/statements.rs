use note_store::database::Database;
use note_store::error::{Fault, Table};
use note_store::row::Row;
use note_store::statement::Statement;

fn text(value: &str) -> String {
    value.to_string()
}

fn every_statement() -> Vec<Statement> {
    vec![
        Statement::CreateUserTable,
        Statement::CreateWorkspaceTable,
        Statement::CreateNoteTable,
        Statement::SelectUsers,
        Statement::InsertUser { id: text("u") },
        Statement::SetCurrentWorkspace { title: text("t") },
        Statement::SetCurrentNote { title: text("t") },
        Statement::InsertWorkspace { id: text("w"), title: text("t") },
        Statement::SelectWorkspaces,
        Statement::SelectWorkspacesByTitle { title: text("t") },
        Statement::InsertNote { id: text("n"), title: text("t"), workspace_id: text("w") },
        Statement::SelectNotesByWorkspace { workspace_id: text("w") },
        Statement::SelectNotesByTitle { title: text("t") },
        Statement::SelectNoteById { id: text("n") },
        Statement::UpdateNoteData { id: text("n"), data: text("d") },
        Statement::UpdateNoteTitle { id: text("n"), title: text("t") },
        Statement::DeleteNote { id: text("n") },
    ]
}

#[test]
fn every_placeholder_has_a_value() {
    for statement in every_statement() {
        let placeholders = statement.sql().matches('?').count();
        assert_eq!(placeholders, statement.bindings().len(), "{statement:?}");
    }
}

#[test]
fn queries_return_rows_and_nothing_else_does() {
    for statement in every_statement() {
        assert_eq!(statement.returns_rows(), statement.sql().starts_with("SELECT"), "{statement:?}");
    }
}

#[test]
fn statements_name_their_table() {
    for statement in every_statement() {
        let name = match statement.table() {
            Table::User => " user",
            Table::Workspace => " workspace",
            Table::Note => " note",
        };
        assert!(statement.sql().contains(name), "{statement:?}");
    }
    assert_eq!(Statement::SelectUsers.table(), Table::User);
    assert_eq!(Statement::SelectWorkspaces.table(), Table::Workspace);
    assert_eq!(Statement::DeleteNote { id: text("n") }.table(), Table::Note);
}

#[test]
fn schema_statements_create_only_what_is_missing() {
    assert_eq!(
        Statement::CreateUserTable.sql(),
        "CREATE TABLE IF NOT EXISTS user (id TEXT PRIMARY KEY UNIQUE, currentWorkspace TEXT, currentNote TEXT, createdAt TEXT, updatedAt TEXT)"
    );
    assert_eq!(
        Statement::CreateWorkspaceTable.sql(),
        "CREATE TABLE IF NOT EXISTS workspace (id TEXT PRIMARY KEY UNIQUE, title TEXT, createdAt TEXT, updatedAt TEXT)"
    );
    assert_eq!(
        Statement::CreateNoteTable.sql(),
        "CREATE TABLE IF NOT EXISTS note (id TEXT PRIMARY KEY UNIQUE, title TEXT, workspaceId TEXT, saveData, createdAt TEXT, updatedAt TEXT, FOREIGN KEY (workspaceId) REFERENCES workspace(id))"
    );
}

#[test]
fn values_are_bound_in_the_order_of_the_placeholders() {
    assert_eq!(
        Statement::InsertUser { id: text("u") }.bindings(),
        vec![text("u"), text("none"), text("none")]
    );
    assert_eq!(
        Statement::InsertWorkspace { id: text("w"), title: text("Inbox") }.bindings(),
        vec![text("w"), text("Inbox")]
    );
    assert_eq!(
        Statement::InsertNote { id: text("n"), title: text("Todo"), workspace_id: text("w") }
            .bindings(),
        vec![text("n"), text("Todo"), text("w")]
    );
    let save = Statement::UpdateNoteData { id: text("n"), data: text("payload") };
    assert_eq!(save.sql(), "UPDATE note SET saveData = ?, updatedAt = datetime('now') WHERE id = ?");
    assert_eq!(save.bindings(), vec![text("payload"), text("n")]);
    let rename = Statement::UpdateNoteTitle { id: text("n"), title: text("New") };
    assert_eq!(rename.sql(), "UPDATE note SET title = ?, updatedAt = datetime('now') WHERE id = ?");
    assert_eq!(rename.bindings(), vec![text("New"), text("n")]);
    assert_eq!(Statement::DeleteNote { id: text("n") }.sql(), "DELETE FROM note WHERE id = ?");
    assert_eq!(Statement::DeleteNote { id: text("n") }.bindings(), vec![text("n")]);
    assert_eq!(Statement::SelectUsers.bindings(), Vec::<String>::new());
    assert_eq!(Statement::SetCurrentWorkspace { title: text("Inbox") }.bindings(), vec![text("Inbox")]);
    assert_eq!(Statement::SetCurrentNote { title: text("Todo") }.bindings(), vec![text("Todo")]);
}

#[test]
fn planned_rows_get_random_identifiers() {
    match Statement::new_workspace("Inbox") {
        Statement::InsertWorkspace { id, title } => {
            assert_eq!(title, "Inbox");
            let parsed = uuid::Uuid::parse_str(&id).unwrap();
            assert_eq!(parsed.get_version_num(), 4);
            assert_eq!(id, parsed.hyphenated().to_string());
        }
        other => panic!("unexpected statement {other:?}"),
    }
    match Statement::new_note("Todo", "ws-1") {
        Statement::InsertNote { id, title, workspace_id } => {
            assert_eq!(title, "Todo");
            assert_eq!(workspace_id, "ws-1");
            let parsed = uuid::Uuid::parse_str(&id).unwrap();
            assert_eq!(parsed.get_version_num(), 4);
            assert_eq!(id, parsed.hyphenated().to_string());
        }
        other => panic!("unexpected statement {other:?}"),
    }
}

#[test]
fn refused_statement_changes_nothing() {
    let mut db = Database::new();
    assert_eq!(db.execute(&Statement::CreateWorkspaceTable, ""), Ok(Vec::new()));
    let insert = Statement::InsertWorkspace { id: text("w"), title: text("Inbox") };
    assert_eq!(db.execute(&insert, "2024-01-01 09:00:00"), Ok(Vec::new()));
    let before = db.select(&Statement::SelectWorkspaces).unwrap();
    assert_eq!(db.execute(&insert, "2024-01-02 09:00:00"), Err(Fault::DuplicateId(Table::Workspace)));
    assert_eq!(db.select(&Statement::SelectWorkspaces).unwrap(), before);
    let note = Statement::InsertNote { id: text("n"), title: text("Todo"), workspace_id: text("w") };
    assert_eq!(db.execute(&note, "t"), Err(Fault::MissingTable(Table::Note)));
}

#[test]
fn note_needs_the_workspace_table() {
    let mut db = Database::new();
    assert_eq!(db.execute(&Statement::CreateNoteTable, ""), Ok(Vec::new()));
    let note = Statement::InsertNote { id: text("n"), title: text("Todo"), workspace_id: text("w") };
    assert_eq!(db.execute(&note, "t"), Err(Fault::MissingTable(Table::Workspace)));
    assert_eq!(db.execute(&Statement::CreateWorkspaceTable, ""), Ok(Vec::new()));
    assert_eq!(db.execute(&note, "t"), Err(Fault::UnknownWorkspace));
}

#[test]
fn user_identifiers_are_unique() {
    let mut db = Database::new();
    assert_eq!(db.execute(&Statement::CreateUserTable, ""), Ok(Vec::new()));
    let insert = Statement::InsertUser { id: text("u") };
    assert_eq!(db.execute(&insert, "t"), Ok(Vec::new()));
    assert_eq!(db.execute(&insert, "t"), Err(Fault::DuplicateId(Table::User)));
}

#[test]
fn creating_a_table_again_keeps_its_rows() {
    let mut db = Database::new();
    assert_eq!(db.execute(&Statement::CreateWorkspaceTable, ""), Ok(Vec::new()));
    let insert = Statement::InsertWorkspace { id: text("w"), title: text("Inbox") };
    assert_eq!(db.execute(&insert, "2024-01-01 09:00:00"), Ok(Vec::new()));
    assert_eq!(db.execute(&Statement::CreateWorkspaceTable, ""), Ok(Vec::new()));
    let rows: Vec<Row> = db.select(&Statement::SelectWorkspaces).unwrap();
    assert_eq!(
        rows,
        vec![vec![
            Some(text("w")),
            Some(text("Inbox")),
            Some(text("2024-01-01 09:00:00")),
            Some(text("2024-01-01 09:00:00")),
        ]]
    );
}

#[test]
fn select_changes_nothing_and_returns_no_rows_for_a_change() {
    let mut db = Database::new();
    assert_eq!(db.execute(&Statement::CreateWorkspaceTable, ""), Ok(Vec::new()));
    let insert = Statement::InsertWorkspace { id: text("w"), title: text("Inbox") };
    assert_eq!(db.select(&insert), Ok(Vec::new()));
    assert_eq!(db.select(&Statement::SelectWorkspaces), Ok(Vec::new()));
}

#[test]
fn queries_select_by_their_column() {
    let mut db = Database::new();
    for statement in [
        Statement::CreateWorkspaceTable,
        Statement::CreateNoteTable,
        Statement::InsertWorkspace { id: text("w1"), title: text("Inbox") },
        Statement::InsertWorkspace { id: text("w2"), title: text("Work") },
        Statement::InsertNote { id: text("n1"), title: text("Todo"), workspace_id: text("w1") },
        Statement::InsertNote { id: text("n2"), title: text("Plan"), workspace_id: text("w2") },
        Statement::InsertNote { id: text("n3"), title: text("Todo"), workspace_id: text("w2") },
    ] {
        assert_eq!(db.execute(&statement, "t"), Ok(Vec::new()));
    }
    let ids = |rows: Vec<Row>| -> Vec<String> {
        rows.into_iter().map(|row| row[0].clone().unwrap()).collect()
    };
    let by_workspace = db.select(&Statement::SelectNotesByWorkspace { workspace_id: text("w2") });
    assert_eq!(ids(by_workspace.unwrap()), vec![text("n2"), text("n3")]);
    let by_title = db.select(&Statement::SelectNotesByTitle { title: text("Todo") });
    assert_eq!(ids(by_title.unwrap()), vec![text("n1"), text("n3")]);
    let by_id = db.select(&Statement::SelectNoteById { id: text("n2") });
    assert_eq!(ids(by_id.unwrap()), vec![text("n2")]);
    let titled = db.select(&Statement::SelectWorkspacesByTitle { title: text("Work") });
    assert_eq!(ids(titled.unwrap()), vec![text("w2")]);
    assert_eq!(ids(db.select(&Statement::SelectWorkspaces).unwrap()), vec![text("w1"), text("w2")]);
}
