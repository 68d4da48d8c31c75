//! The command surface: every command as a value, the statement it runs and
//! the reply it reads from the rows that come back.
//!
//! A shell that keeps the storage elsewhere asks a command for its statement,
//! runs it, and hands the rows to the command for the reply.

use crate::database::Database;
use crate::error::{rejection, DatabaseError, DatabaseErrorView};
use crate::ident::is_identifier;
use crate::model::{answer, refusal, step};
use crate::record::{Note, NoteView, User, UserView, Workspace, WorkspaceView};
use crate::row::{
    decode_notes, decode_users, decode_workspaces, first_note, first_note_of, first_workspace,
    first_workspace_of, notes_of, only_note, only_note_of, users_of, workspaces_of, Row,
};
use crate::statement::{Statement, StatementView};
use vstd::prelude::*;

verus! {

/// A command of the application with its inputs.
#[derive(Debug, Clone, PartialEq, Eq)]
pub enum Command {
    GetUser,
    CreateWorkspace { workspace_title: String },
    GetWorkspaces,
    GetWorkspaceByTitle { current_workspace: String },
    UpdateUserWorkspace { workspace_title: String },
    UpdateUserNote { title: String },
    CreateNote { title: String, workspace_id: String },
    GetNotes { workspace_id: String },
    GetNoteByTitle { current_note: String },
    SaveNotes { data: String, current_note_id: String },
    GetNoteSaveData { id: String },
    DeleteNote { current_note_id: String },
    RenameNote { current_note_id: String, new_title: String },
}

/// What a [`Command`] is, with every text as a sequence of characters.
pub enum CommandView {
    GetUser,
    CreateWorkspace { workspace_title: Seq<char> },
    GetWorkspaces,
    GetWorkspaceByTitle { current_workspace: Seq<char> },
    UpdateUserWorkspace { workspace_title: Seq<char> },
    UpdateUserNote { title: Seq<char> },
    CreateNote { title: Seq<char>, workspace_id: Seq<char> },
    GetNotes { workspace_id: Seq<char> },
    GetNoteByTitle { current_note: Seq<char> },
    SaveNotes { data: Seq<char>, current_note_id: Seq<char> },
    GetNoteSaveData { id: Seq<char> },
    DeleteNote { current_note_id: Seq<char> },
    RenameNote { current_note_id: Seq<char>, new_title: Seq<char> },
}

impl View for Command {
    type V = CommandView;

    open spec fn view(&self) -> CommandView {
        match self {
            Command::GetUser => CommandView::GetUser,
            Command::CreateWorkspace { workspace_title } => CommandView::CreateWorkspace {
                workspace_title: workspace_title@,
            },
            Command::GetWorkspaces => CommandView::GetWorkspaces,
            Command::GetWorkspaceByTitle { current_workspace } => CommandView::GetWorkspaceByTitle {
                current_workspace: current_workspace@,
            },
            Command::UpdateUserWorkspace { workspace_title } => CommandView::UpdateUserWorkspace {
                workspace_title: workspace_title@,
            },
            Command::UpdateUserNote { title } => CommandView::UpdateUserNote { title: title@ },
            Command::CreateNote { title, workspace_id } => CommandView::CreateNote {
                title: title@,
                workspace_id: workspace_id@,
            },
            Command::GetNotes { workspace_id } => CommandView::GetNotes {
                workspace_id: workspace_id@,
            },
            Command::GetNoteByTitle { current_note } => CommandView::GetNoteByTitle {
                current_note: current_note@,
            },
            Command::SaveNotes { data, current_note_id } => CommandView::SaveNotes {
                data: data@,
                current_note_id: current_note_id@,
            },
            Command::GetNoteSaveData { id } => CommandView::GetNoteSaveData { id: id@ },
            Command::DeleteNote { current_note_id } => CommandView::DeleteNote {
                current_note_id: current_note_id@,
            },
            Command::RenameNote { current_note_id, new_title } => CommandView::RenameNote {
                current_note_id: current_note_id@,
                new_title: new_title@,
            },
        }
    }
}

/// What a command hands back.
#[derive(Debug, Clone, PartialEq, Eq)]
pub enum Reply {
    Nothing,
    Users(Vec<User>),
    Workspaces(Vec<Workspace>),
    Workspace(Workspace),
    Notes(Vec<Note>),
    Note(Note),
    Saved(String),
}

/// What a [`Reply`] is, over the views of its records.
pub enum ReplyView {
    Nothing,
    Users(Seq<UserView>),
    Workspaces(Seq<WorkspaceView>),
    Workspace(WorkspaceView),
    Notes(Seq<NoteView>),
    Note(NoteView),
    Saved(Seq<char>),
}

impl View for Reply {
    type V = ReplyView;

    open spec fn view(&self) -> ReplyView {
        match self {
            Reply::Nothing => ReplyView::Nothing,
            Reply::Users(users) => ReplyView::Users(users.deep_view()),
            Reply::Workspaces(workspaces) => ReplyView::Workspaces(workspaces.deep_view()),
            Reply::Workspace(workspace) => ReplyView::Workspace(workspace@),
            Reply::Notes(notes) => ReplyView::Notes(notes.deep_view()),
            Reply::Note(note) => ReplyView::Note(note@),
            Reply::Saved(data) => ReplyView::Saved(data@),
        }
    }
}

/// A reply or an error, over views.
pub open spec fn outcome_view(outcome: Result<Reply, DatabaseError>) -> Result<
    ReplyView,
    DatabaseErrorView,
> {
    match outcome {
        Ok(reply) => Ok(reply@),
        Err(error) => Err(error@),
    }
}

/// Whether a statement is the statement of a command. A command that
/// creates a row has a statement for each identifier; every other command
/// has one statement.
pub open spec fn planned(command: CommandView, statement: StatementView) -> bool {
    match command {
        CommandView::GetUser => statement == StatementView::SelectUsers,
        CommandView::CreateWorkspace { workspace_title } => exists|id: Seq<char>| #[trigger]
            is_identifier(id) && statement == (StatementView::InsertWorkspace {
                id: id,
                title: workspace_title,
            }),
        CommandView::GetWorkspaces => statement == StatementView::SelectWorkspaces,
        CommandView::GetWorkspaceByTitle { current_workspace } => statement == (
        StatementView::SelectWorkspacesByTitle { title: current_workspace }),
        CommandView::UpdateUserWorkspace { workspace_title } => statement == (
        StatementView::SetCurrentWorkspace { title: workspace_title }),
        CommandView::UpdateUserNote { title } => statement == (StatementView::SetCurrentNote {
            title: title,
        }),
        CommandView::CreateNote { title, workspace_id } => exists|id: Seq<char>| #[trigger]
            is_identifier(id) && statement == (StatementView::InsertNote {
                id: id,
                title: title,
                workspace_id: workspace_id,
            }),
        CommandView::GetNotes { workspace_id } => statement == (
        StatementView::SelectNotesByWorkspace { workspace_id: workspace_id }),
        CommandView::GetNoteByTitle { current_note } => statement == (
        StatementView::SelectNotesByTitle { title: current_note }),
        CommandView::SaveNotes { data, current_note_id } => statement == (
        StatementView::UpdateNoteData { id: current_note_id, data: data }),
        CommandView::GetNoteSaveData { id } => statement == (StatementView::SelectNoteById {
            id: id,
        }),
        CommandView::DeleteNote { current_note_id } => statement == (StatementView::DeleteNote {
            id: current_note_id,
        }),
        CommandView::RenameNote { current_note_id, new_title } => statement == (
        StatementView::UpdateNoteTitle { id: current_note_id, title: new_title }),
    }
}

/// The reply of a command to the rows that its statement returned: the
/// records read from the rows for a command that reads, the payload for the
/// command that saves it, and nothing for the others.
pub open spec fn reply_to(command: CommandView, rows: Seq<Seq<Option<Seq<char>>>>) -> Result<
    ReplyView,
    DatabaseErrorView,
> {
    match command {
        CommandView::GetUser => match users_of(rows) {
            Some(users) => Ok(ReplyView::Users(users)),
            None => Err(DatabaseErrorView::Malformed),
        },
        CommandView::GetWorkspaces => match workspaces_of(rows) {
            Some(workspaces) => Ok(ReplyView::Workspaces(workspaces)),
            None => Err(DatabaseErrorView::Malformed),
        },
        CommandView::GetWorkspaceByTitle { .. } => match first_workspace_of(rows) {
            Ok(workspace) => Ok(ReplyView::Workspace(workspace)),
            Err(error) => Err(error),
        },
        CommandView::GetNotes { .. } => match notes_of(rows) {
            Some(notes) => Ok(ReplyView::Notes(notes)),
            None => Err(DatabaseErrorView::Malformed),
        },
        CommandView::GetNoteByTitle { .. } => match first_note_of(rows) {
            Ok(note) => Ok(ReplyView::Note(note)),
            Err(error) => Err(error),
        },
        CommandView::GetNoteSaveData { .. } => match only_note_of(rows) {
            Ok(note) => Ok(ReplyView::Note(note)),
            Err(error) => Err(error),
        },
        CommandView::SaveNotes { data, .. } => Ok(ReplyView::Saved(data)),
        _ => Ok(ReplyView::Nothing),
    }
}

impl Command {
    /// The statement that this command runs. For a command that creates a
    /// row, the statement holds a new random identifier.
    pub fn statement(&self) -> (statement: Statement)
        ensures
            planned(self@, statement@),
    {
        match self {
            Command::GetUser => Statement::SelectUsers,
            Command::CreateWorkspace { workspace_title } => Statement::new_workspace(
                workspace_title.as_str(),
            ),
            Command::GetWorkspaces => Statement::SelectWorkspaces,
            Command::GetWorkspaceByTitle { current_workspace } => {
                Statement::SelectWorkspacesByTitle { title: current_workspace.clone() }
            },
            Command::UpdateUserWorkspace { workspace_title } => Statement::SetCurrentWorkspace {
                title: workspace_title.clone(),
            },
            Command::UpdateUserNote { title } => Statement::SetCurrentNote { title: title.clone() },
            Command::CreateNote { title, workspace_id } => Statement::new_note(
                title.as_str(),
                workspace_id.as_str(),
            ),
            Command::GetNotes { workspace_id } => Statement::SelectNotesByWorkspace {
                workspace_id: workspace_id.clone(),
            },
            Command::GetNoteByTitle { current_note } => Statement::SelectNotesByTitle {
                title: current_note.clone(),
            },
            Command::SaveNotes { data, current_note_id } => Statement::UpdateNoteData {
                id: current_note_id.clone(),
                data: data.clone(),
            },
            Command::GetNoteSaveData { id } => Statement::SelectNoteById { id: id.clone() },
            Command::DeleteNote { current_note_id } => Statement::DeleteNote {
                id: current_note_id.clone(),
            },
            Command::RenameNote { current_note_id, new_title } => Statement::UpdateNoteTitle {
                id: current_note_id.clone(),
                title: new_title.clone(),
            },
        }
    }

    /// The reply of this command to the rows that its statement returned.
    pub fn reply(&self, rows: &Vec<Row>) -> (reply: Result<Reply, DatabaseError>)
        ensures
            outcome_view(reply) == reply_to(self@, rows.deep_view()),
    {
        match self {
            Command::GetUser => match decode_users(rows) {
                Ok(users) => Ok(Reply::Users(users)),
                Err(error) => Err(error),
            },
            Command::GetWorkspaces => match decode_workspaces(rows) {
                Ok(workspaces) => Ok(Reply::Workspaces(workspaces)),
                Err(error) => Err(error),
            },
            Command::GetWorkspaceByTitle { .. } => match first_workspace(rows) {
                Ok(workspace) => Ok(Reply::Workspace(workspace)),
                Err(error) => Err(error),
            },
            Command::GetNotes { .. } => match decode_notes(rows) {
                Ok(notes) => Ok(Reply::Notes(notes)),
                Err(error) => Err(error),
            },
            Command::GetNoteByTitle { .. } => match first_note(rows) {
                Ok(note) => Ok(Reply::Note(note)),
                Err(error) => Err(error),
            },
            Command::GetNoteSaveData { .. } => match only_note(rows) {
                Ok(note) => Ok(Reply::Note(note)),
                Err(error) => Err(error),
            },
            Command::SaveNotes { data, .. } => Ok(Reply::Saved(data.clone())),
            _ => Ok(Reply::Nothing),
        }
    }
}

/// Runs a command on the database while the clock of the storage reads
/// `now`: the statement of the command is run, and the reply is read from
/// its rows. A refusal of the storage is the error of the command, and
/// nothing is changed then.
pub fn perform(db: &mut Database, command: &Command, now: &str) -> (reply: Result<
    Reply,
    DatabaseError,
>)
    requires
        old(db).wf(),
    ensures
        final(db).wf(),
        exists|statement: StatementView| #[trigger]
            planned(command@, statement) && final(db)@ == step(old(db)@, statement, now@)
                && outcome_view(reply) == match refusal(old(db)@, statement) {
                Some(fault) => Err(rejection(fault)),
                None => reply_to(command@, answer(old(db)@, statement)),
            },
{
    let statement = command.statement();
    let reply = match db.execute(&statement, now) {
        Ok(rows) => command.reply(&rows),
        Err(fault) => Err(DatabaseError::rejected(fault)),
    };
    assert(planned(command@, statement@));
    reply
}

} // verus!
