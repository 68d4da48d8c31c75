//! The fixed statements that the storage runs, each with its SQL text and the
//! values bound to its placeholders.

use crate::error::Table;
use crate::ident::{is_identifier, random_identifier};
use vstd::prelude::*;

verus! {

/// A statement for the storage. The variants are all the statements there are:
/// no other text ever reaches the backend.
#[derive(Debug, Clone, PartialEq, Eq)]
pub enum Statement {
    CreateUserTable,
    CreateWorkspaceTable,
    CreateNoteTable,
    SelectUsers,
    InsertUser { id: String },
    SetCurrentWorkspace { title: String },
    SetCurrentNote { title: String },
    InsertWorkspace { id: String, title: String },
    SelectWorkspaces,
    SelectWorkspacesByTitle { title: String },
    InsertNote { id: String, title: String, workspace_id: String },
    SelectNotesByWorkspace { workspace_id: String },
    SelectNotesByTitle { title: String },
    SelectNoteById { id: String },
    UpdateNoteData { id: String, data: String },
    UpdateNoteTitle { id: String, title: String },
    DeleteNote { id: String },
}

/// What a [`Statement`] is, with every text as a sequence of characters.
pub enum StatementView {
    CreateUserTable,
    CreateWorkspaceTable,
    CreateNoteTable,
    SelectUsers,
    InsertUser { id: Seq<char> },
    SetCurrentWorkspace { title: Seq<char> },
    SetCurrentNote { title: Seq<char> },
    InsertWorkspace { id: Seq<char>, title: Seq<char> },
    SelectWorkspaces,
    SelectWorkspacesByTitle { title: Seq<char> },
    InsertNote { id: Seq<char>, title: Seq<char>, workspace_id: Seq<char> },
    SelectNotesByWorkspace { workspace_id: Seq<char> },
    SelectNotesByTitle { title: Seq<char> },
    SelectNoteById { id: Seq<char> },
    UpdateNoteData { id: Seq<char>, data: Seq<char> },
    UpdateNoteTitle { id: Seq<char>, title: Seq<char> },
    DeleteNote { id: Seq<char> },
}

impl View for Statement {
    type V = StatementView;

    open spec fn view(&self) -> StatementView {
        match self {
            Statement::CreateUserTable => StatementView::CreateUserTable,
            Statement::CreateWorkspaceTable => StatementView::CreateWorkspaceTable,
            Statement::CreateNoteTable => StatementView::CreateNoteTable,
            Statement::SelectUsers => StatementView::SelectUsers,
            Statement::InsertUser { id } => StatementView::InsertUser { id: id@ },
            Statement::SetCurrentWorkspace { title } => StatementView::SetCurrentWorkspace {
                title: title@,
            },
            Statement::SetCurrentNote { title } => StatementView::SetCurrentNote { title: title@ },
            Statement::InsertWorkspace { id, title } => StatementView::InsertWorkspace {
                id: id@,
                title: title@,
            },
            Statement::SelectWorkspaces => StatementView::SelectWorkspaces,
            Statement::SelectWorkspacesByTitle { title } => StatementView::SelectWorkspacesByTitle {
                title: title@,
            },
            Statement::InsertNote { id, title, workspace_id } => StatementView::InsertNote {
                id: id@,
                title: title@,
                workspace_id: workspace_id@,
            },
            Statement::SelectNotesByWorkspace { workspace_id } => {
                StatementView::SelectNotesByWorkspace { workspace_id: workspace_id@ }
            },
            Statement::SelectNotesByTitle { title } => StatementView::SelectNotesByTitle {
                title: title@,
            },
            Statement::SelectNoteById { id } => StatementView::SelectNoteById { id: id@ },
            Statement::UpdateNoteData { id, data } => StatementView::UpdateNoteData {
                id: id@,
                data: data@,
            },
            Statement::UpdateNoteTitle { id, title } => StatementView::UpdateNoteTitle {
                id: id@,
                title: title@,
            },
            Statement::DeleteNote { id } => StatementView::DeleteNote { id: id@ },
        }
    }
}

impl DeepView for Statement {
    type V = StatementView;

    open spec fn deep_view(&self) -> StatementView {
        self@
    }
}

/// The SQL text of a statement. Timestamps are written by the clock of the
/// storage, never bound.
pub open spec fn sql_text(statement: StatementView) -> Seq<char> {
    match statement {
        StatementView::CreateUserTable =>
            "CREATE TABLE IF NOT EXISTS user (id TEXT PRIMARY KEY UNIQUE, currentWorkspace TEXT, currentNote TEXT, createdAt TEXT, updatedAt TEXT)"@,
        StatementView::CreateWorkspaceTable =>
            "CREATE TABLE IF NOT EXISTS workspace (id TEXT PRIMARY KEY UNIQUE, title TEXT, createdAt TEXT, updatedAt TEXT)"@,
        StatementView::CreateNoteTable =>
            "CREATE TABLE IF NOT EXISTS note (id TEXT PRIMARY KEY UNIQUE, title TEXT, workspaceId TEXT, saveData, createdAt TEXT, updatedAt TEXT, FOREIGN KEY (workspaceId) REFERENCES workspace(id))"@,
        StatementView::SelectUsers =>
            "SELECT id, currentWorkspace, currentNote, createdAt, updatedAt FROM user ORDER BY rowid"@,
        StatementView::InsertUser { .. } =>
            "INSERT INTO user (id, currentWorkspace, currentNote, createdAt, updatedAt) VALUES (?, ?, ?, datetime('now'), datetime('now'))"@,
        StatementView::SetCurrentWorkspace { .. } =>
            "UPDATE user SET currentWorkspace = ?, updatedAt = datetime('now')"@,
        StatementView::SetCurrentNote { .. } =>
            "UPDATE user SET currentNote = ?, updatedAt = datetime('now')"@,
        StatementView::InsertWorkspace { .. } =>
            "INSERT INTO workspace (id, title, createdAt, updatedAt) VALUES (?, ?, datetime('now'), datetime('now'))"@,
        StatementView::SelectWorkspaces =>
            "SELECT id, title, createdAt, updatedAt FROM workspace ORDER BY rowid"@,
        StatementView::SelectWorkspacesByTitle { .. } =>
            "SELECT id, title, createdAt, updatedAt FROM workspace WHERE title = ? ORDER BY rowid"@,
        StatementView::InsertNote { .. } =>
            "INSERT INTO note (id, title, workspaceId, saveData, createdAt, updatedAt) VALUES (?, ?, ?, '', datetime('now'), datetime('now'))"@,
        StatementView::SelectNotesByWorkspace { .. } =>
            "SELECT id, title, workspaceId, saveData, createdAt, updatedAt FROM note WHERE workspaceId = ? ORDER BY rowid"@,
        StatementView::SelectNotesByTitle { .. } =>
            "SELECT id, title, workspaceId, saveData, createdAt, updatedAt FROM note WHERE title = ? ORDER BY rowid"@,
        StatementView::SelectNoteById { .. } =>
            "SELECT id, title, workspaceId, saveData, createdAt, updatedAt FROM note WHERE id = ? ORDER BY rowid"@,
        StatementView::UpdateNoteData { .. } =>
            "UPDATE note SET saveData = ?, updatedAt = datetime('now') WHERE id = ?"@,
        StatementView::UpdateNoteTitle { .. } =>
            "UPDATE note SET title = ?, updatedAt = datetime('now') WHERE id = ?"@,
        StatementView::DeleteNote { .. } => "DELETE FROM note WHERE id = ?"@,
    }
}

/// The values bound to the placeholders of a statement, in the order of the
/// placeholders in its text.
pub open spec fn bound_values(statement: StatementView) -> Seq<Seq<char>> {
    match statement {
        StatementView::CreateUserTable => seq![],
        StatementView::CreateWorkspaceTable => seq![],
        StatementView::CreateNoteTable => seq![],
        StatementView::SelectUsers => seq![],
        StatementView::InsertUser { id } => seq![
            id,
            crate::record::unset_marker(),
            crate::record::unset_marker(),
        ],
        StatementView::SetCurrentWorkspace { title } => seq![title],
        StatementView::SetCurrentNote { title } => seq![title],
        StatementView::InsertWorkspace { id, title } => seq![id, title],
        StatementView::SelectWorkspaces => seq![],
        StatementView::SelectWorkspacesByTitle { title } => seq![title],
        StatementView::InsertNote { id, title, workspace_id } => seq![id, title, workspace_id],
        StatementView::SelectNotesByWorkspace { workspace_id } => seq![workspace_id],
        StatementView::SelectNotesByTitle { title } => seq![title],
        StatementView::SelectNoteById { id } => seq![id],
        StatementView::UpdateNoteData { id, data } => seq![data, id],
        StatementView::UpdateNoteTitle { id, title } => seq![title, id],
        StatementView::DeleteNote { id } => seq![id],
    }
}

/// The table that a statement creates, reads or changes.
pub open spec fn target(statement: StatementView) -> Table {
    match statement {
        StatementView::CreateUserTable => Table::User,
        StatementView::SelectUsers => Table::User,
        StatementView::InsertUser { .. } => Table::User,
        StatementView::SetCurrentWorkspace { .. } => Table::User,
        StatementView::SetCurrentNote { .. } => Table::User,
        StatementView::CreateWorkspaceTable => Table::Workspace,
        StatementView::InsertWorkspace { .. } => Table::Workspace,
        StatementView::SelectWorkspaces => Table::Workspace,
        StatementView::SelectWorkspacesByTitle { .. } => Table::Workspace,
        StatementView::CreateNoteTable => Table::Note,
        StatementView::InsertNote { .. } => Table::Note,
        StatementView::SelectNotesByWorkspace { .. } => Table::Note,
        StatementView::SelectNotesByTitle { .. } => Table::Note,
        StatementView::SelectNoteById { .. } => Table::Note,
        StatementView::UpdateNoteData { .. } => Table::Note,
        StatementView::UpdateNoteTitle { .. } => Table::Note,
        StatementView::DeleteNote { .. } => Table::Note,
    }
}

/// Whether a statement asks for rows.
pub open spec fn is_query(statement: StatementView) -> bool {
    statement is SelectUsers || statement is SelectWorkspaces
        || statement is SelectWorkspacesByTitle || statement is SelectNotesByWorkspace
        || statement is SelectNotesByTitle || statement is SelectNoteById
}

/// The statements that create the tables, in the order in which they run:
/// the workspaces before the notes that refer to them.
pub open spec fn schema_statements() -> Seq<StatementView> {
    seq![
        StatementView::CreateUserTable,
        StatementView::CreateWorkspaceTable,
        StatementView::CreateNoteTable,
    ]
}

impl Statement {
    /// The statements that create the tables, in the order in which they
    /// run. Each creates its table only where it does not exist.
    pub fn schema() -> (statements: Vec<Statement>)
        ensures
            statements.deep_view() == schema_statements(),
    {
        let mut statements: Vec<Statement> = Vec::new();
        statements.push(Statement::CreateUserTable);
        statements.push(Statement::CreateWorkspaceTable);
        statements.push(Statement::CreateNoteTable);
        assert(statements.deep_view() =~= schema_statements());
        statements
    }

    /// The statement that creates a workspace with the given title under a
    /// new random identifier.
    pub fn new_workspace(title: &str) -> (statement: Statement)
        ensures
            exists|id: Seq<char>| #[trigger]
                is_identifier(id) && statement@ == (StatementView::InsertWorkspace {
                    id: id,
                    title: title@,
                }),
    {
        let id = random_identifier();
        assert(is_identifier(id@));
        Statement::InsertWorkspace { id, title: title.to_owned() }
    }

    /// The statement that creates a note with the given title in a workspace
    /// under a new random identifier.
    pub fn new_note(title: &str, workspace_id: &str) -> (statement: Statement)
        ensures
            exists|id: Seq<char>| #[trigger]
                is_identifier(id) && statement@ == (StatementView::InsertNote {
                    id: id,
                    title: title@,
                    workspace_id: workspace_id@,
                }),
    {
        let id = random_identifier();
        assert(is_identifier(id@));
        Statement::InsertNote { id, title: title.to_owned(), workspace_id: workspace_id.to_owned() }
    }

    /// The SQL text of this statement.
    pub fn sql(&self) -> (text: &'static str)
        ensures
            text@ == sql_text(self@),
    {
        match self {
            Statement::CreateUserTable =>
                "CREATE TABLE IF NOT EXISTS user (id TEXT PRIMARY KEY UNIQUE, currentWorkspace TEXT, currentNote TEXT, createdAt TEXT, updatedAt TEXT)",
            Statement::CreateWorkspaceTable =>
                "CREATE TABLE IF NOT EXISTS workspace (id TEXT PRIMARY KEY UNIQUE, title TEXT, createdAt TEXT, updatedAt TEXT)",
            Statement::CreateNoteTable =>
                "CREATE TABLE IF NOT EXISTS note (id TEXT PRIMARY KEY UNIQUE, title TEXT, workspaceId TEXT, saveData, createdAt TEXT, updatedAt TEXT, FOREIGN KEY (workspaceId) REFERENCES workspace(id))",
            Statement::SelectUsers =>
                "SELECT id, currentWorkspace, currentNote, createdAt, updatedAt FROM user ORDER BY rowid",
            Statement::InsertUser { .. } =>
                "INSERT INTO user (id, currentWorkspace, currentNote, createdAt, updatedAt) VALUES (?, ?, ?, datetime('now'), datetime('now'))",
            Statement::SetCurrentWorkspace { .. } =>
                "UPDATE user SET currentWorkspace = ?, updatedAt = datetime('now')",
            Statement::SetCurrentNote { .. } =>
                "UPDATE user SET currentNote = ?, updatedAt = datetime('now')",
            Statement::InsertWorkspace { .. } =>
                "INSERT INTO workspace (id, title, createdAt, updatedAt) VALUES (?, ?, datetime('now'), datetime('now'))",
            Statement::SelectWorkspaces =>
                "SELECT id, title, createdAt, updatedAt FROM workspace ORDER BY rowid",
            Statement::SelectWorkspacesByTitle { .. } =>
                "SELECT id, title, createdAt, updatedAt FROM workspace WHERE title = ? ORDER BY rowid",
            Statement::InsertNote { .. } =>
                "INSERT INTO note (id, title, workspaceId, saveData, createdAt, updatedAt) VALUES (?, ?, ?, '', datetime('now'), datetime('now'))",
            Statement::SelectNotesByWorkspace { .. } =>
                "SELECT id, title, workspaceId, saveData, createdAt, updatedAt FROM note WHERE workspaceId = ? ORDER BY rowid",
            Statement::SelectNotesByTitle { .. } =>
                "SELECT id, title, workspaceId, saveData, createdAt, updatedAt FROM note WHERE title = ? ORDER BY rowid",
            Statement::SelectNoteById { .. } =>
                "SELECT id, title, workspaceId, saveData, createdAt, updatedAt FROM note WHERE id = ? ORDER BY rowid",
            Statement::UpdateNoteData { .. } =>
                "UPDATE note SET saveData = ?, updatedAt = datetime('now') WHERE id = ?",
            Statement::UpdateNoteTitle { .. } =>
                "UPDATE note SET title = ?, updatedAt = datetime('now') WHERE id = ?",
            Statement::DeleteNote { .. } => "DELETE FROM note WHERE id = ?",
        }
    }

    /// The values to bind to the placeholders of this statement, in order.
    pub fn bindings(&self) -> (values: Vec<String>)
        ensures
            values.deep_view() == bound_values(self@),
    {
        let mut values: Vec<String> = Vec::new();
        match self {
            Statement::CreateUserTable => {},
            Statement::CreateWorkspaceTable => {},
            Statement::CreateNoteTable => {},
            Statement::SelectUsers => {},
            Statement::InsertUser { id } => {
                values.push(id.clone());
                values.push("none".to_owned());
                values.push("none".to_owned());
            },
            Statement::SetCurrentWorkspace { title } => {
                values.push(title.clone());
            },
            Statement::SetCurrentNote { title } => {
                values.push(title.clone());
            },
            Statement::InsertWorkspace { id, title } => {
                values.push(id.clone());
                values.push(title.clone());
            },
            Statement::SelectWorkspaces => {},
            Statement::SelectWorkspacesByTitle { title } => {
                values.push(title.clone());
            },
            Statement::InsertNote { id, title, workspace_id } => {
                values.push(id.clone());
                values.push(title.clone());
                values.push(workspace_id.clone());
            },
            Statement::SelectNotesByWorkspace { workspace_id } => {
                values.push(workspace_id.clone());
            },
            Statement::SelectNotesByTitle { title } => {
                values.push(title.clone());
            },
            Statement::SelectNoteById { id } => {
                values.push(id.clone());
            },
            Statement::UpdateNoteData { id, data } => {
                values.push(data.clone());
                values.push(id.clone());
            },
            Statement::UpdateNoteTitle { id, title } => {
                values.push(title.clone());
                values.push(id.clone());
            },
            Statement::DeleteNote { id } => {
                values.push(id.clone());
            },
        }
        assert(values.deep_view() =~= bound_values(self@));
        values
    }

    /// The table that this statement creates, reads or changes.
    pub fn table(&self) -> (table: Table)
        ensures
            table == target(self@),
    {
        match self {
            Statement::CreateUserTable => Table::User,
            Statement::SelectUsers => Table::User,
            Statement::InsertUser { .. } => Table::User,
            Statement::SetCurrentWorkspace { .. } => Table::User,
            Statement::SetCurrentNote { .. } => Table::User,
            Statement::CreateWorkspaceTable => Table::Workspace,
            Statement::InsertWorkspace { .. } => Table::Workspace,
            Statement::SelectWorkspaces => Table::Workspace,
            Statement::SelectWorkspacesByTitle { .. } => Table::Workspace,
            _ => Table::Note,
        }
    }

    /// Whether this statement asks for rows: the backend fetches for a query
    /// and executes the others.
    pub fn returns_rows(&self) -> (reads: bool)
        ensures
            reads == is_query(self@),
    {
        match self {
            Statement::SelectUsers => true,
            Statement::SelectWorkspaces => true,
            Statement::SelectWorkspacesByTitle { .. } => true,
            Statement::SelectNotesByWorkspace { .. } => true,
            Statement::SelectNotesByTitle { .. } => true,
            Statement::SelectNoteById { .. } => true,
            _ => false,
        }
    }
}

} // verus!
