use note_store::commands::create_database_with_id;
use note_store::database::Database;
use note_store::error::DatabaseError;
use note_store::record::{Note, User, Workspace};
use note_store::row::{encode_note, encode_user, encode_workspace, Row};
use note_store::statement::Statement;
use note_store::surface::{perform, Command, Reply};

fn text(value: &str) -> String {
    value.to_string()
}

fn sample_note(id: &str) -> Note {
    Note {
        id: text(id),
        title: text("Todo"),
        save_data: text("buy milk"),
        created_at: text("2024-01-01 10:00:00"),
        updated_at: text("2024-01-01 10:05:00"),
        workspace_id: text("ws-1"),
    }
}

fn sample_workspace(id: &str) -> Workspace {
    Workspace {
        id: text(id),
        title: text("Inbox"),
        created_at: text("2024-01-01 09:00:00"),
        updated_at: text("2024-01-01 09:00:00"),
    }
}

#[test]
fn commands_plan_their_statements() {
    assert_eq!(Command::GetUser.statement(), Statement::SelectUsers);
    assert_eq!(Command::GetWorkspaces.statement(), Statement::SelectWorkspaces);
    assert_eq!(
        Command::GetWorkspaceByTitle { current_workspace: text("Inbox") }.statement(),
        Statement::SelectWorkspacesByTitle { title: text("Inbox") }
    );
    assert_eq!(
        Command::UpdateUserWorkspace { workspace_title: text("Inbox") }.statement(),
        Statement::SetCurrentWorkspace { title: text("Inbox") }
    );
    assert_eq!(
        Command::UpdateUserNote { title: text("Todo") }.statement(),
        Statement::SetCurrentNote { title: text("Todo") }
    );
    assert_eq!(
        Command::GetNotes { workspace_id: text("ws-1") }.statement(),
        Statement::SelectNotesByWorkspace { workspace_id: text("ws-1") }
    );
    assert_eq!(
        Command::GetNoteByTitle { current_note: text("Todo") }.statement(),
        Statement::SelectNotesByTitle { title: text("Todo") }
    );
    assert_eq!(
        Command::SaveNotes { data: text("d"), current_note_id: text("n-1") }.statement(),
        Statement::UpdateNoteData { id: text("n-1"), data: text("d") }
    );
    assert_eq!(
        Command::GetNoteSaveData { id: text("n-1") }.statement(),
        Statement::SelectNoteById { id: text("n-1") }
    );
    assert_eq!(
        Command::DeleteNote { current_note_id: text("n-1") }.statement(),
        Statement::DeleteNote { id: text("n-1") }
    );
    assert_eq!(
        Command::RenameNote { current_note_id: text("n-1"), new_title: text("New") }.statement(),
        Statement::UpdateNoteTitle { id: text("n-1"), title: text("New") }
    );
}

#[test]
fn creating_commands_plan_a_new_identifier_each_time() {
    let command = Command::CreateWorkspace { workspace_title: text("Inbox") };
    let (first, second) = (command.statement(), command.statement());
    match (&first, &second) {
        (
            Statement::InsertWorkspace { id: one, title: first_title },
            Statement::InsertWorkspace { id: other, title: second_title },
        ) => {
            assert_eq!(first_title, "Inbox");
            assert_eq!(second_title, "Inbox");
            assert_ne!(one, other);
            assert_eq!(uuid::Uuid::parse_str(one).unwrap().get_version_num(), 4);
        }
        other => panic!("unexpected statements {other:?}"),
    }
    let command = Command::CreateNote { title: text("Todo"), workspace_id: text("ws-1") };
    match command.statement() {
        Statement::InsertNote { id, title, workspace_id } => {
            assert_eq!(title, "Todo");
            assert_eq!(workspace_id, "ws-1");
            assert_eq!(uuid::Uuid::parse_str(&id).unwrap().get_version_num(), 4);
        }
        other => panic!("unexpected statement {other:?}"),
    }
}

#[test]
fn commands_read_their_replies() {
    let notes = vec![encode_note(&sample_note("n-1")), encode_note(&sample_note("n-2"))];
    let workspaces = vec![encode_workspace(&sample_workspace("ws-1"))];
    let none: Vec<Row> = Vec::new();
    assert_eq!(
        Command::GetNotes { workspace_id: text("ws-1") }.reply(&notes),
        Ok(Reply::Notes(vec![sample_note("n-1"), sample_note("n-2")]))
    );
    assert_eq!(
        Command::GetNoteByTitle { current_note: text("Todo") }.reply(&notes),
        Ok(Reply::Note(sample_note("n-1")))
    );
    assert_eq!(
        Command::GetNoteByTitle { current_note: text("Todo") }.reply(&none),
        Err(DatabaseError::NotFound)
    );
    assert_eq!(
        Command::GetNoteSaveData { id: text("n-1") }.reply(&notes),
        Err(DatabaseError::Ambiguous)
    );
    assert_eq!(
        Command::GetNoteSaveData { id: text("n-1") }.reply(&none),
        Err(DatabaseError::NotFound)
    );
    assert_eq!(
        Command::GetNoteSaveData { id: text("n-1") }.reply(&vec![encode_note(&sample_note("n-1"))]),
        Ok(Reply::Note(sample_note("n-1")))
    );
    assert_eq!(
        Command::GetWorkspaces.reply(&workspaces),
        Ok(Reply::Workspaces(vec![sample_workspace("ws-1")]))
    );
    assert_eq!(
        Command::GetWorkspaceByTitle { current_workspace: text("Inbox") }.reply(&workspaces),
        Ok(Reply::Workspace(sample_workspace("ws-1")))
    );
    assert_eq!(
        Command::GetWorkspaceByTitle { current_workspace: text("Inbox") }.reply(&none),
        Err(DatabaseError::NotFound)
    );
    assert_eq!(Command::GetWorkspaces.reply(&notes), Err(DatabaseError::Malformed));
    let user = User {
        id: text("u"),
        current_workspace: None,
        current_note: Some(text("Todo")),
        created_at: text("a"),
        updated_at: text("b"),
    };
    assert_eq!(
        Command::GetUser.reply(&vec![encode_user(&user)]),
        Ok(Reply::Users(vec![user.duplicate()]))
    );
    assert_eq!(
        Command::SaveNotes { data: text("payload"), current_note_id: text("n-1") }.reply(&none),
        Ok(Reply::Saved(text("payload")))
    );
    assert_eq!(Command::DeleteNote { current_note_id: text("n-1") }.reply(&none), Ok(Reply::Nothing));
    assert_eq!(
        Command::CreateWorkspace { workspace_title: text("Inbox") }.reply(&none),
        Ok(Reply::Nothing)
    );
}

#[test]
fn performed_commands_walk_through_a_note() {
    let mut db = Database::new();
    create_database_with_id(&mut db, text("user-1"), "2024-01-01 08:00:00").unwrap();
    let created = perform(
        &mut db,
        &Command::CreateWorkspace { workspace_title: text("Inbox") },
        "2024-01-01 09:00:00",
    );
    assert_eq!(created, Ok(Reply::Nothing));
    let inbox = match perform(
        &mut db,
        &Command::GetWorkspaceByTitle { current_workspace: text("Inbox") },
        "2024-01-01 09:00:01",
    ) {
        Ok(Reply::Workspace(workspace)) => workspace,
        other => panic!("unexpected reply {other:?}"),
    };
    let create = Command::CreateNote { title: text("Todo"), workspace_id: inbox.id.clone() };
    assert_eq!(perform(&mut db, &create, "2024-01-01 09:01:00"), Ok(Reply::Nothing));
    let list = Command::GetNotes { workspace_id: inbox.id.clone() };
    let id = match perform(&mut db, &list, "2024-01-01 09:01:01") {
        Ok(Reply::Notes(notes)) => {
            assert_eq!(notes.len(), 1);
            assert_eq!(notes[0].save_data, "");
            notes[0].id.clone()
        }
        other => panic!("unexpected reply {other:?}"),
    };
    let save = Command::SaveNotes { data: text("buy milk"), current_note_id: id.clone() };
    assert_eq!(perform(&mut db, &save, "2024-01-01 09:02:00"), Ok(Reply::Saved(text("buy milk"))));
    match perform(&mut db, &Command::GetNoteSaveData { id: id.clone() }, "2024-01-01 09:02:01") {
        Ok(Reply::Note(note)) => {
            assert_eq!(note.save_data, "buy milk");
            assert_eq!(note.updated_at, "2024-01-01 09:02:00");
        }
        other => panic!("unexpected reply {other:?}"),
    }
    let rename = Command::RenameNote { current_note_id: id.clone(), new_title: text("Groceries") };
    assert_eq!(perform(&mut db, &rename, "2024-01-01 09:03:00"), Ok(Reply::Nothing));
    match perform(
        &mut db,
        &Command::GetNoteByTitle { current_note: text("Groceries") },
        "2024-01-01 09:03:01",
    ) {
        Ok(Reply::Note(note)) => assert_eq!(note.id, id),
        other => panic!("unexpected reply {other:?}"),
    }
    let delete = Command::DeleteNote { current_note_id: id.clone() };
    assert_eq!(perform(&mut db, &delete, "2024-01-01 09:04:00"), Ok(Reply::Nothing));
    assert_eq!(perform(&mut db, &list, "2024-01-01 09:04:01"), Ok(Reply::Notes(Vec::new())));
    assert_eq!(perform(&mut db, &delete, "2024-01-01 09:05:00"), Ok(Reply::Nothing));
}

#[test]
fn performed_command_reports_a_refusal() {
    let mut db = Database::new();
    assert_eq!(
        perform(&mut db, &Command::GetUser, "t"),
        Err(DatabaseError::Statement { message: text("no such table: user") })
    );
    create_database_with_id(&mut db, text("user-1"), "2024-01-01 08:00:00").unwrap();
    let create = Command::CreateNote { title: text("Todo"), workspace_id: text("nowhere") };
    assert_eq!(
        perform(&mut db, &create, "t"),
        Err(DatabaseError::Statement { message: text("FOREIGN KEY constraint failed") })
    );
}

#[test]
fn schema_lists_the_three_tables_in_order() {
    assert_eq!(
        Statement::schema(),
        vec![
            Statement::CreateUserTable,
            Statement::CreateWorkspaceTable,
            Statement::CreateNoteTable
        ]
    );
}
