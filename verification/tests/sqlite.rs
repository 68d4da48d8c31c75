use note_store::database::Database;
use note_store::error::DatabaseError;
use note_store::provision::{Progress, Provisioning};
use note_store::record::User;
use note_store::row::Row;
use note_store::statement::Statement;
use note_store::surface::{Command, Reply};
use sqlx::sqlite::{SqlitePoolOptions, SqliteRow};
use sqlx::{Row as _, SqlitePool};
use tokio::runtime::{Builder, Runtime};

fn text(value: &str) -> String {
    value.to_string()
}

fn runtime() -> Runtime {
    Builder::new_current_thread().enable_all().build().unwrap()
}

async fn memory() -> SqlitePool {
    SqlitePoolOptions::new().max_connections(1).connect("sqlite::memory:").await.unwrap()
}

fn cells(row: &SqliteRow) -> Row {
    (0..row.len()).map(|column| row.try_get::<Option<String>, _>(column).unwrap()).collect()
}

async fn run(pool: &SqlitePool, statement: &Statement) -> Result<Vec<Row>, String> {
    let mut query = sqlx::query(statement.sql());
    for value in statement.bindings() {
        query = query.bind(value);
    }
    if statement.returns_rows() {
        let rows = query.fetch_all(pool).await.map_err(|error| error.to_string())?;
        Ok(rows.iter().map(cells).collect())
    } else {
        query.execute(pool).await.map_err(|error| error.to_string())?;
        Ok(Vec::new())
    }
}

fn is_timestamp(cell: &Option<String>) -> bool {
    match cell {
        Some(value) => {
            let bytes = value.as_bytes();
            bytes.len() == 19
                && bytes.iter().enumerate().all(|(at, byte)| match at {
                    4 | 7 => *byte == b'-',
                    10 => *byte == b' ',
                    13 | 16 => *byte == b':',
                    _ => byte.is_ascii_digit(),
                })
        }
        None => false,
    }
}

fn without_times(rows: &[Row]) -> Vec<Row> {
    rows.iter().map(|row| row[..row.len() - 2].to_vec()).collect()
}

fn agree(rt: &Runtime, pool: &SqlitePool, db: &mut Database, statement: &Statement) {
    let stored = rt.block_on(run(pool, statement));
    let modelled = db.execute(statement, "2024-01-01 00:00:00");
    match (stored, modelled) {
        (Ok(stored), Ok(modelled)) => {
            assert_eq!(without_times(&stored), without_times(&modelled), "{statement:?}");
            for row in &stored {
                assert!(is_timestamp(&row[row.len() - 1]), "{statement:?}");
                assert!(is_timestamp(&row[row.len() - 2]), "{statement:?}");
            }
        }
        (Err(stored), Err(fault)) => {
            assert!(stored.ends_with(fault.message()), "{statement:?}: {stored}");
        }
        (stored, modelled) => panic!("{statement:?}: {stored:?} against {modelled:?}"),
    }
}

fn selects() -> Vec<Statement> {
    vec![
        Statement::SelectUsers,
        Statement::SelectWorkspaces,
        Statement::SelectWorkspacesByTitle { title: text("Inbox") },
        Statement::SelectWorkspacesByTitle { title: text("Missing") },
        Statement::SelectNotesByWorkspace { workspace_id: text("w1") },
        Statement::SelectNotesByWorkspace { workspace_id: text("w2") },
        Statement::SelectNotesByTitle { title: text("Todo") },
        Statement::SelectNotesByTitle { title: text("Renamed") },
        Statement::SelectNoteById { id: text("n1") },
        Statement::SelectNoteById { id: text("n2") },
        Statement::SelectNoteById { id: text("n9") },
    ]
}

#[test]
fn sqlite_and_the_model_agree_on_every_statement() {
    let rt = runtime();
    let pool = rt.block_on(memory());
    let mut db = Database::new();
    let script = vec![
        Statement::InsertWorkspace { id: text("w0"), title: text("Early") },
        Statement::DeleteNote { id: text("n1") },
        Statement::SetCurrentNote { title: text("Todo") },
        Statement::CreateUserTable,
        Statement::CreateWorkspaceTable,
        Statement::CreateNoteTable,
        Statement::CreateWorkspaceTable,
        Statement::SetCurrentWorkspace { title: text("Nobody") },
        Statement::InsertUser { id: text("u1") },
        Statement::InsertUser { id: text("u1") },
        Statement::InsertWorkspace { id: text("w1"), title: text("Inbox") },
        Statement::InsertWorkspace { id: text("w2"), title: text("Inbox") },
        Statement::InsertWorkspace { id: text("w1"), title: text("Again") },
        Statement::InsertNote { id: text("n1"), title: text("Todo"), workspace_id: text("w1") },
        Statement::InsertNote { id: text("n2"), title: text("Todo"), workspace_id: text("w2") },
        Statement::InsertNote { id: text("n3"), title: text("Plan"), workspace_id: text("w1") },
        Statement::InsertNote { id: text("n1"), title: text("Twice"), workspace_id: text("w1") },
        Statement::InsertNote { id: text("n4"), title: text("Lost"), workspace_id: text("w9") },
        Statement::UpdateNoteData { id: text("n1"), data: text("buy milk") },
        Statement::UpdateNoteData { id: text("n9"), data: text("nobody") },
        Statement::UpdateNoteTitle { id: text("n2"), title: text("Renamed") },
        Statement::UpdateNoteTitle { id: text("n9"), title: text("Nobody") },
        Statement::SetCurrentWorkspace { title: text("Inbox") },
        Statement::SetCurrentNote { title: text("Todo") },
        Statement::DeleteNote { id: text("n1") },
        Statement::DeleteNote { id: text("n1") },
        Statement::CreateNoteTable,
        Statement::CreateUserTable,
    ];
    for statement in &script {
        agree(&rt, &pool, &mut db, statement);
        for select in selects() {
            agree(&rt, &pool, &mut db, &select);
        }
    }
}

#[test]
fn sqlite_keeps_the_order_of_insertion() {
    let rt = runtime();
    let pool = rt.block_on(memory());
    let mut db = Database::new();
    agree(&rt, &pool, &mut db, &Statement::CreateWorkspaceTable);
    agree(&rt, &pool, &mut db, &Statement::CreateNoteTable);
    agree(&rt, &pool, &mut db, &Statement::InsertWorkspace { id: text("w"), title: text("Inbox") });
    for id in ["n5", "n3", "n9", "n1", "n7"] {
        let insert =
            Statement::InsertNote { id: text(id), title: text("Todo"), workspace_id: text("w") };
        agree(&rt, &pool, &mut db, &insert);
    }
    agree(&rt, &pool, &mut db, &Statement::DeleteNote { id: text("n9") });
    agree(&rt, &pool, &mut db, &Statement::UpdateNoteData { id: text("n5"), data: text("x") });
    let listed = Statement::SelectNotesByWorkspace { workspace_id: text("w") };
    agree(&rt, &pool, &mut db, &listed);
    let ids: Vec<String> =
        db.select(&listed).unwrap().into_iter().map(|row| row[0].clone().unwrap()).collect();
    assert_eq!(ids, vec![text("n5"), text("n3"), text("n1"), text("n7")]);
}

fn ask(rt: &Runtime, pool: &SqlitePool, command: &Command) -> Result<Reply, DatabaseError> {
    let statement = command.statement();
    let rows = rt
        .block_on(run(pool, &statement))
        .map_err(|message| DatabaseError::Statement { message })?;
    command.reply(&rows)
}

fn provide(rt: &Runtime, pool: &SqlitePool) -> Result<Vec<User>, DatabaseError> {
    let (mut state, mut statement) = Provisioning::start();
    loop {
        let answer = rt
            .block_on(run(pool, &statement))
            .map_err(|message| DatabaseError::Statement { message });
        match state.advance(answer) {
            Progress::Run { next, statement: asked } => {
                state = next;
                statement = asked;
            }
            Progress::Done { users } => return Ok(users),
            Progress::Failed { error } => return Err(error),
        }
    }
}

fn prepare(rt: &Runtime, pool: &SqlitePool) -> Vec<User> {
    for statement in Statement::schema() {
        rt.block_on(run(pool, &statement)).unwrap();
    }
    provide(rt, pool).unwrap()
}

#[test]
fn sqlite_is_provisioned_once() {
    let rt = runtime();
    let pool = rt.block_on(memory());
    assert!(matches!(provide(&rt, &pool), Err(DatabaseError::Statement { .. })));
    let first = prepare(&rt, &pool);
    assert_eq!(first.len(), 1);
    assert_eq!(first[0].current_workspace, Some(text("none")));
    assert_eq!(first[0].current_note, Some(text("none")));
    assert_eq!(first[0].selected_workspace(), None);
    assert_eq!(first[0].created_at, first[0].updated_at);
    assert_eq!(uuid::Uuid::parse_str(&first[0].id).unwrap().get_version_num(), 4);
    let create = Command::CreateWorkspace { workspace_title: text("Inbox") };
    assert_eq!(ask(&rt, &pool, &create), Ok(Reply::Nothing));
    let workspaces = ask(&rt, &pool, &Command::GetWorkspaces);
    assert_eq!(prepare(&rt, &pool), first);
    assert_eq!(provide(&rt, &pool), Ok(first.clone()));
    assert_eq!(ask(&rt, &pool, &Command::GetUser), Ok(Reply::Users(first)));
    assert_eq!(ask(&rt, &pool, &Command::GetWorkspaces), workspaces);
}

#[test]
fn sqlite_walks_through_a_note() {
    let rt = runtime();
    let pool = rt.block_on(memory());
    prepare(&rt, &pool);
    let create = Command::CreateWorkspace { workspace_title: text("Inbox") };
    assert_eq!(ask(&rt, &pool, &create), Ok(Reply::Nothing));
    let find = Command::GetWorkspaceByTitle { current_workspace: text("Inbox") };
    let inbox = match ask(&rt, &pool, &find) {
        Ok(Reply::Workspace(workspace)) => workspace,
        other => panic!("unexpected reply {other:?}"),
    };
    let create = Command::CreateNote { title: text("Todo"), workspace_id: inbox.id.clone() };
    assert_eq!(ask(&rt, &pool, &create), Ok(Reply::Nothing));
    let list = Command::GetNotes { workspace_id: inbox.id.clone() };
    let id = match ask(&rt, &pool, &list) {
        Ok(Reply::Notes(notes)) => {
            assert_eq!(notes.len(), 1);
            assert_eq!(notes[0].title, "Todo");
            assert_eq!(notes[0].save_data, "");
            assert_eq!(notes[0].workspace_id, inbox.id);
            notes[0].id.clone()
        }
        other => panic!("unexpected reply {other:?}"),
    };
    let save = Command::SaveNotes { data: text("buy milk"), current_note_id: id.clone() };
    assert_eq!(ask(&rt, &pool, &save), Ok(Reply::Saved(text("buy milk"))));
    let before = match ask(&rt, &pool, &Command::GetNoteSaveData { id: id.clone() }) {
        Ok(Reply::Note(note)) => note,
        other => panic!("unexpected reply {other:?}"),
    };
    assert_eq!(before.save_data, "buy milk");
    let rename = Command::RenameNote { current_note_id: id.clone(), new_title: text("Groceries") };
    assert_eq!(ask(&rt, &pool, &rename), Ok(Reply::Nothing));
    match ask(&rt, &pool, &Command::GetNoteByTitle { current_note: text("Groceries") }) {
        Ok(Reply::Note(note)) => {
            assert_eq!(note.id, id);
            assert!(note.updated_at >= before.updated_at);
            assert_eq!(note.save_data, "buy milk");
        }
        other => panic!("unexpected reply {other:?}"),
    }
    let missing = Command::GetNoteByTitle { current_note: text("Todo") };
    assert_eq!(ask(&rt, &pool, &missing), Err(DatabaseError::NotFound));
    let select = Command::UpdateUserNote { title: text("Groceries") };
    assert_eq!(ask(&rt, &pool, &select), Ok(Reply::Nothing));
    match ask(&rt, &pool, &Command::GetUser) {
        Ok(Reply::Users(users)) => {
            assert_eq!(users.len(), 1);
            assert_eq!(users[0].selected_note(), Some(text("Groceries")));
            assert_eq!(users[0].selected_workspace(), None);
        }
        other => panic!("unexpected reply {other:?}"),
    }
    let delete = Command::DeleteNote { current_note_id: id.clone() };
    assert_eq!(ask(&rt, &pool, &delete), Ok(Reply::Nothing));
    assert_eq!(ask(&rt, &pool, &list), Ok(Reply::Notes(Vec::new())));
    assert_eq!(ask(&rt, &pool, &delete), Ok(Reply::Nothing));
    let gone = Command::GetNoteSaveData { id };
    assert_eq!(ask(&rt, &pool, &gone), Err(DatabaseError::NotFound));
}

#[test]
fn sqlite_note_without_payload_reads_as_empty() {
    let rt = runtime();
    let pool = rt.block_on(memory());
    prepare(&rt, &pool);
    let workspace = Statement::InsertWorkspace { id: text("w"), title: text("Inbox") };
    rt.block_on(run(&pool, &workspace)).unwrap();
    let bare = "INSERT INTO note (id, title, createdAt, updatedAt, workspaceId) \
                VALUES ('n', 'Todo', datetime('now'), datetime('now'), 'w')";
    rt.block_on(sqlx::query(bare).execute(&pool)).unwrap();
    match ask(&rt, &pool, &Command::GetNoteSaveData { id: text("n") }) {
        Ok(Reply::Note(note)) => {
            assert_eq!(note.save_data, "");
            assert_eq!(note.title, "Todo");
            assert_eq!(note.workspace_id, "w");
        }
        other => panic!("unexpected reply {other:?}"),
    }
}
