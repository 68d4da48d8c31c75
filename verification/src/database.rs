//! The storage held in memory: the three tables, and a verified run of every
//! statement on them.

use crate::error::{Fault, Table};
use crate::model::{
    answer, in_workspace, lemma_filter_next, lemma_step_keeps_invariant, new_note, new_user,
    new_workspace, note_named, note_not_named, note_renamed, note_rows, note_saved, note_titled,
    notes_hold, refusal, step, user_in_workspace, user_on_note, user_rows, users_hold,
    workspace_rows, workspace_titled, workspaces_hold, DatabaseView,
};
use crate::record::{copy_text, same_text, Note, NoteView, User, Workspace};
use crate::row::{encode_note, encode_user, encode_workspace, Row};
use crate::statement::Statement;
use vstd::prelude::*;

verus! {

/// The three tables of the application, held in memory.
pub struct Database {
    user_table: bool,
    workspace_table: bool,
    note_table: bool,
    users: Vec<User>,
    workspaces: Vec<Workspace>,
    notes: Vec<Note>,
}

impl View for Database {
    type V = DatabaseView;

    closed spec fn view(&self) -> DatabaseView {
        DatabaseView {
            user_table: self.user_table,
            workspace_table: self.workspace_table,
            note_table: self.note_table,
            users: self.users.deep_view(),
            workspaces: self.workspaces.deep_view(),
            notes: self.notes.deep_view(),
        }
    }
}

/// The column by which a query selects notes.
enum NoteKey {
    Id,
    Title,
    Workspace,
}

/// The notes that a query by a column selects.
spec fn note_with(key: NoteKey, value: Seq<char>) -> spec_fn(NoteView) -> bool {
    match key {
        NoteKey::Id => note_named(value),
        NoteKey::Title => note_titled(value),
        NoteKey::Workspace => in_workspace(value),
    }
}

/// Whether a user has the identifier.
fn holds_user(users: &Vec<User>, id: &str) -> (found: bool)
    ensures
        found == users_hold(users.deep_view(), id@),
{
    let mut i: usize = 0;
    while i < users.len()
        invariant
            i <= users.len(),
            forall|j: int| 0 <= j < i ==> (#[trigger] users.deep_view()[j]).id != id@,
        decreases users.len() - i,
    {
        if same_text(users[i].id.as_str(), id) {
            assert(users.deep_view()[i as int].id == id@);
            return true;
        }
        i += 1;
    }
    false
}

/// Whether a workspace has the identifier.
fn holds_workspace(workspaces: &Vec<Workspace>, id: &str) -> (found: bool)
    ensures
        found == workspaces_hold(workspaces.deep_view(), id@),
{
    let mut i: usize = 0;
    while i < workspaces.len()
        invariant
            i <= workspaces.len(),
            forall|j: int| 0 <= j < i ==> (#[trigger] workspaces.deep_view()[j]).id != id@,
        decreases workspaces.len() - i,
    {
        if same_text(workspaces[i].id.as_str(), id) {
            assert(workspaces.deep_view()[i as int].id == id@);
            return true;
        }
        i += 1;
    }
    false
}

/// Whether a note has the identifier.
fn holds_note(notes: &Vec<Note>, id: &str) -> (found: bool)
    ensures
        found == notes_hold(notes.deep_view(), id@),
{
    let mut i: usize = 0;
    while i < notes.len()
        invariant
            i <= notes.len(),
            forall|j: int| 0 <= j < i ==> (#[trigger] notes.deep_view()[j]).id != id@,
        decreases notes.len() - i,
    {
        if same_text(notes[i].id.as_str(), id) {
            assert(notes.deep_view()[i as int].id == id@);
            return true;
        }
        i += 1;
    }
    false
}

/// The rows of all users.
fn rows_of_users(users: &Vec<User>) -> (rows: Vec<Row>)
    ensures
        rows.deep_view() == user_rows(users.deep_view()),
{
    let mut rows: Vec<Row> = Vec::new();
    let mut i: usize = 0;
    while i < users.len()
        invariant
            i <= users.len(),
            rows.len() == i,
            forall|j: int|
                0 <= j < i ==> (#[trigger] rows[j]).deep_view() == crate::row::user_cells(
                    users[j]@,
                ),
        decreases users.len() - i,
    {
        rows.push(encode_user(&users[i]));
        i += 1;
    }
    assert(rows.deep_view() =~= user_rows(users.deep_view()));
    rows
}

/// The rows of all workspaces.
fn rows_of_workspaces(workspaces: &Vec<Workspace>) -> (rows: Vec<Row>)
    ensures
        rows.deep_view() == workspace_rows(workspaces.deep_view()),
{
    let mut rows: Vec<Row> = Vec::new();
    let mut i: usize = 0;
    while i < workspaces.len()
        invariant
            i <= workspaces.len(),
            rows.len() == i,
            forall|j: int|
                0 <= j < i ==> (#[trigger] rows[j]).deep_view() == crate::row::workspace_cells(
                    workspaces[j]@,
                ),
        decreases workspaces.len() - i,
    {
        rows.push(encode_workspace(&workspaces[i]));
        i += 1;
    }
    assert(rows.deep_view() =~= workspace_rows(workspaces.deep_view()));
    rows
}

/// The rows of the workspaces with a title.
fn rows_of_workspaces_titled(workspaces: &Vec<Workspace>, title: &str) -> (rows: Vec<Row>)
    ensures
        rows.deep_view() == workspace_rows(workspaces.deep_view().filter(workspace_titled(title@))),
{
    let ghost all = workspaces.deep_view();
    let ghost keep = workspace_titled(title@);
    let mut rows: Vec<Row> = Vec::new();
    let mut i: usize = 0;
    assert(all.take(0).filter(keep) =~= Seq::empty()) by {
        reveal(Seq::filter);
    }
    assert(rows.deep_view() =~= workspace_rows(all.take(0).filter(keep)));
    while i < workspaces.len()
        invariant
            i <= workspaces.len(),
            all == workspaces.deep_view(),
            keep == workspace_titled(title@),
            rows.deep_view() == workspace_rows(all.take(i as int).filter(keep)),
        decreases workspaces.len() - i,
    {
        proof {
            lemma_filter_next(all, keep, i as int);
        }
        let ghost before = rows.deep_view();
        if same_text(workspaces[i].title.as_str(), title) {
            let row = encode_workspace(&workspaces[i]);
            rows.push(row);
            assert(rows.deep_view() =~= before.push(row.deep_view()));
            assert(rows.deep_view() =~= workspace_rows(all.take(i + 1).filter(keep)));
        }
        i += 1;
    }
    assert(all.take(workspaces.len() as int) =~= all);
    rows
}

/// The rows of the notes that a query by a column selects.
fn rows_of_notes(notes: &Vec<Note>, key: NoteKey, value: &str) -> (rows: Vec<Row>)
    ensures
        rows.deep_view() == note_rows(notes.deep_view().filter(note_with(key, value@))),
{
    let ghost all = notes.deep_view();
    let ghost keep = note_with(key, value@);
    let mut rows: Vec<Row> = Vec::new();
    let mut i: usize = 0;
    assert(all.take(0).filter(keep) =~= Seq::empty()) by {
        reveal(Seq::filter);
    }
    assert(rows.deep_view() =~= note_rows(all.take(0).filter(keep)));
    while i < notes.len()
        invariant
            i <= notes.len(),
            all == notes.deep_view(),
            keep == note_with(key, value@),
            rows.deep_view() == note_rows(all.take(i as int).filter(keep)),
        decreases notes.len() - i,
    {
        proof {
            lemma_filter_next(all, keep, i as int);
        }
        let ghost before = rows.deep_view();
        let note = &notes[i];
        let selected = match key {
            NoteKey::Id => same_text(note.id.as_str(), value),
            NoteKey::Title => same_text(note.title.as_str(), value),
            NoteKey::Workspace => same_text(note.workspace_id.as_str(), value),
        };
        assert(selected == keep(all[i as int]));
        if selected {
            let row = encode_note(note);
            rows.push(row);
            assert(rows.deep_view() =~= before.push(row.deep_view()));
            assert(rows.deep_view() =~= note_rows(all.take(i + 1).filter(keep)));
        }
        i += 1;
    }
    assert(all.take(notes.len() as int) =~= all);
    rows
}

/// The users after a workspace was made current.
fn users_in_workspace(users: &Vec<User>, title: &str, now: &str) -> (changed: Vec<User>)
    ensures
        changed.deep_view() == users.deep_view().map_values(user_in_workspace(title@, now@)),
{
    let ghost change = user_in_workspace(title@, now@);
    let mut changed: Vec<User> = Vec::new();
    let mut i: usize = 0;
    while i < users.len()
        invariant
            i <= users.len(),
            changed.len() == i,
            change == user_in_workspace(title@, now@),
            forall|j: int| 0 <= j < i ==> (#[trigger] changed[j])@ == change(users[j]@),
        decreases users.len() - i,
    {
        let user = &users[i];
        changed.push(
            User {
                id: user.id.clone(),
                current_workspace: Some(title.to_owned()),
                current_note: copy_text(&user.current_note),
                created_at: user.created_at.clone(),
                updated_at: now.to_owned(),
            },
        );
        i += 1;
    }
    assert(changed.deep_view() =~= users.deep_view().map_values(change));
    changed
}

/// The users after a note was made current.
fn users_on_note(users: &Vec<User>, title: &str, now: &str) -> (changed: Vec<User>)
    ensures
        changed.deep_view() == users.deep_view().map_values(user_on_note(title@, now@)),
{
    let ghost change = user_on_note(title@, now@);
    let mut changed: Vec<User> = Vec::new();
    let mut i: usize = 0;
    while i < users.len()
        invariant
            i <= users.len(),
            changed.len() == i,
            change == user_on_note(title@, now@),
            forall|j: int| 0 <= j < i ==> (#[trigger] changed[j])@ == change(users[j]@),
        decreases users.len() - i,
    {
        let user = &users[i];
        changed.push(
            User {
                id: user.id.clone(),
                current_workspace: copy_text(&user.current_workspace),
                current_note: Some(title.to_owned()),
                created_at: user.created_at.clone(),
                updated_at: now.to_owned(),
            },
        );
        i += 1;
    }
    assert(changed.deep_view() =~= users.deep_view().map_values(change));
    changed
}

/// The notes after the payload of one was overwritten.
fn notes_saved(notes: &Vec<Note>, id: &str, data: &str, now: &str) -> (changed: Vec<Note>)
    ensures
        changed.deep_view() == notes.deep_view().map_values(note_saved(id@, data@, now@)),
{
    let ghost change = note_saved(id@, data@, now@);
    let mut changed: Vec<Note> = Vec::new();
    let mut i: usize = 0;
    while i < notes.len()
        invariant
            i <= notes.len(),
            changed.len() == i,
            change == note_saved(id@, data@, now@),
            forall|j: int| 0 <= j < i ==> (#[trigger] changed[j])@ == change(notes[j]@),
        decreases notes.len() - i,
    {
        let note = &notes[i];
        if same_text(note.id.as_str(), id) {
            changed.push(
                Note {
                    id: note.id.clone(),
                    title: note.title.clone(),
                    save_data: data.to_owned(),
                    created_at: note.created_at.clone(),
                    updated_at: now.to_owned(),
                    workspace_id: note.workspace_id.clone(),
                },
            );
        } else {
            changed.push(note.duplicate());
        }
        i += 1;
    }
    assert(changed.deep_view() =~= notes.deep_view().map_values(change));
    changed
}

/// The notes after one was renamed.
fn notes_renamed(notes: &Vec<Note>, id: &str, title: &str, now: &str) -> (changed: Vec<Note>)
    ensures
        changed.deep_view() == notes.deep_view().map_values(note_renamed(id@, title@, now@)),
{
    let ghost change = note_renamed(id@, title@, now@);
    let mut changed: Vec<Note> = Vec::new();
    let mut i: usize = 0;
    while i < notes.len()
        invariant
            i <= notes.len(),
            changed.len() == i,
            change == note_renamed(id@, title@, now@),
            forall|j: int| 0 <= j < i ==> (#[trigger] changed[j])@ == change(notes[j]@),
        decreases notes.len() - i,
    {
        let note = &notes[i];
        if same_text(note.id.as_str(), id) {
            changed.push(
                Note {
                    id: note.id.clone(),
                    title: title.to_owned(),
                    save_data: note.save_data.clone(),
                    created_at: note.created_at.clone(),
                    updated_at: now.to_owned(),
                    workspace_id: note.workspace_id.clone(),
                },
            );
        } else {
            changed.push(note.duplicate());
        }
        i += 1;
    }
    assert(changed.deep_view() =~= notes.deep_view().map_values(change));
    changed
}

/// The notes without the one that has the identifier.
fn notes_without(notes: &Vec<Note>, id: &str) -> (kept: Vec<Note>)
    ensures
        kept.deep_view() == notes.deep_view().filter(note_not_named(id@)),
{
    let ghost all = notes.deep_view();
    let ghost keep = note_not_named(id@);
    let mut kept: Vec<Note> = Vec::new();
    let mut i: usize = 0;
    assert(all.take(0).filter(keep) =~= Seq::empty()) by {
        reveal(Seq::filter);
    }
    assert(kept.deep_view() =~= all.take(0).filter(keep));
    while i < notes.len()
        invariant
            i <= notes.len(),
            all == notes.deep_view(),
            keep == note_not_named(id@),
            kept.deep_view() == all.take(i as int).filter(keep),
        decreases notes.len() - i,
    {
        proof {
            lemma_filter_next(all, keep, i as int);
        }
        let ghost before = kept.deep_view();
        if !same_text(notes[i].id.as_str(), id) {
            let copy = notes[i].duplicate();
            kept.push(copy);
            assert(kept.deep_view() =~= before.push(copy@));
        }
        i += 1;
    }
    assert(all.take(notes.len() as int) =~= all);
    kept
}

impl Database {
    /// The invariant of the storage holds of this database.
    pub open spec fn wf(&self) -> bool {
        self@.wf()
    }

    /// A storage in which nothing was created yet.
    pub fn new() -> (db: Database)
        ensures
            db@ == DatabaseView::empty(),
            db.wf(),
    {
        let db = Database {
            user_table: false,
            workspace_table: false,
            note_table: false,
            users: Vec::new(),
            workspaces: Vec::new(),
            notes: Vec::new(),
        };
        assert(db@.users =~= Seq::empty());
        assert(db@.workspaces =~= Seq::empty());
        assert(db@.notes =~= Seq::empty());
        db
    }

    /// Whether a table exists.
    pub fn has_table(&self, table: Table) -> (exists: bool)
        ensures
            exists == self@.has_table(table),
    {
        match table {
            Table::User => self.user_table,
            Table::Workspace => self.workspace_table,
            Table::Note => self.note_table,
        }
    }

    /// Why the storage refuses a statement, if it does.
    fn check(&self, statement: &Statement) -> (fault: Option<Fault>)
        ensures
            fault == refusal(self@, statement@),
    {
        match statement {
            Statement::CreateUserTable => None,
            Statement::CreateWorkspaceTable => None,
            Statement::CreateNoteTable => None,
            Statement::InsertUser { id } => {
                if !self.user_table {
                    Some(Fault::MissingTable(Table::User))
                } else if holds_user(&self.users, id.as_str()) {
                    Some(Fault::DuplicateId(Table::User))
                } else {
                    None
                }
            },
            Statement::InsertWorkspace { id, .. } => {
                if !self.workspace_table {
                    Some(Fault::MissingTable(Table::Workspace))
                } else if holds_workspace(&self.workspaces, id.as_str()) {
                    Some(Fault::DuplicateId(Table::Workspace))
                } else {
                    None
                }
            },
            Statement::InsertNote { id, workspace_id, .. } => {
                if !self.note_table {
                    Some(Fault::MissingTable(Table::Note))
                } else if !self.workspace_table {
                    Some(Fault::MissingTable(Table::Workspace))
                } else if holds_note(&self.notes, id.as_str()) {
                    Some(Fault::DuplicateId(Table::Note))
                } else if !holds_workspace(&self.workspaces, workspace_id.as_str()) {
                    Some(Fault::UnknownWorkspace)
                } else {
                    None
                }
            },
            _ => {
                let table = statement.table();
                if self.has_table(table) {
                    None
                } else {
                    Some(Fault::MissingTable(table))
                }
            },
        }
    }

    /// The rows that a statement selects, nothing being changed: those of a
    /// query, and none for a statement that is no query. A statement that
    /// the storage refuses reports why.
    pub fn select(&self, statement: &Statement) -> (result: Result<Vec<Row>, Fault>)
        ensures
            match refusal(self@, statement@) {
                Some(fault) => result == Err::<Vec<Row>, Fault>(fault),
                None => result is Ok && result.unwrap().deep_view() == answer(self@, statement@),
            },
    {
        if let Some(fault) = self.check(statement) {
            return Err(fault);
        }
        match statement {
            Statement::SelectUsers => Ok(rows_of_users(&self.users)),
            Statement::SelectWorkspaces => Ok(rows_of_workspaces(&self.workspaces)),
            Statement::SelectWorkspacesByTitle { title } => Ok(
                rows_of_workspaces_titled(&self.workspaces, title.as_str()),
            ),
            Statement::SelectNotesByWorkspace { workspace_id } => Ok(
                rows_of_notes(&self.notes, NoteKey::Workspace, workspace_id.as_str()),
            ),
            Statement::SelectNotesByTitle { title } => Ok(
                rows_of_notes(&self.notes, NoteKey::Title, title.as_str()),
            ),
            Statement::SelectNoteById { id } => Ok(
                rows_of_notes(&self.notes, NoteKey::Id, id.as_str()),
            ),
            _ => {
                let rows: Vec<Row> = Vec::new();
                assert(rows.deep_view() =~= Seq::empty());
                Ok(rows)
            },
        }
    }

    /// Runs a statement while the clock of the storage reads `now`.
    ///
    /// A refused statement changes nothing and reports why it was refused.
    /// Any other statement returns the rows that it selects and leaves the
    /// state that the model gives for it.
    pub fn execute(&mut self, statement: &Statement, now: &str) -> (result: Result<Vec<Row>, Fault>)
        requires
            old(self).wf(),
        ensures
            final(self).wf(),
            final(self)@ == step(old(self)@, statement@, now@),
            match refusal(old(self)@, statement@) {
                Some(fault) => result == Err::<Vec<Row>, Fault>(fault),
                None => result is Ok && result.unwrap().deep_view() == answer(
                    old(self)@,
                    statement@,
                ),
            },
    {
        proof {
            lemma_step_keeps_invariant(self@, statement@, now@);
        }
        let ghost before = self@;
        let rows = match self.select(statement) {
            Ok(rows) => rows,
            Err(fault) => {
                return Err(fault);
            },
        };
        match statement {
            Statement::CreateUserTable => {
                self.user_table = true;
            },
            Statement::CreateWorkspaceTable => {
                self.workspace_table = true;
            },
            Statement::CreateNoteTable => {
                self.note_table = true;
            },
            Statement::InsertUser { id } => {
                let user = User {
                    id: id.clone(),
                    current_workspace: Some("none".to_owned()),
                    current_note: Some("none".to_owned()),
                    created_at: now.to_owned(),
                    updated_at: now.to_owned(),
                };
                assert(user@ == new_user(id@, now@));
                self.users.push(user);
                assert(self@.users =~= before.users.push(new_user(id@, now@)));
            },
            Statement::SetCurrentWorkspace { title } => {
                self.users = users_in_workspace(&self.users, title.as_str(), now);
            },
            Statement::SetCurrentNote { title } => {
                self.users = users_on_note(&self.users, title.as_str(), now);
            },
            Statement::InsertWorkspace { id, title } => {
                let workspace = Workspace {
                    id: id.clone(),
                    title: title.clone(),
                    created_at: now.to_owned(),
                    updated_at: now.to_owned(),
                };
                assert(workspace@ == new_workspace(id@, title@, now@));
                self.workspaces.push(workspace);
                assert(self@.workspaces =~= before.workspaces.push(
                    new_workspace(id@, title@, now@),
                ));
            },
            Statement::InsertNote { id, title, workspace_id } => {
                let note = Note {
                    id: id.clone(),
                    title: title.clone(),
                    save_data: String::new(),
                    created_at: now.to_owned(),
                    updated_at: now.to_owned(),
                    workspace_id: workspace_id.clone(),
                };
                assert(note@ == new_note(id@, title@, workspace_id@, now@));
                self.notes.push(note);
                assert(self@.notes =~= before.notes.push(
                    new_note(id@, title@, workspace_id@, now@),
                ));
            },
            Statement::UpdateNoteData { id, data } => {
                self.notes = notes_saved(&self.notes, id.as_str(), data.as_str(), now);
            },
            Statement::UpdateNoteTitle { id, title } => {
                self.notes = notes_renamed(&self.notes, id.as_str(), title.as_str(), now);
            },
            Statement::DeleteNote { id } => {
                self.notes = notes_without(&self.notes, id.as_str());
            },
            _ => {},
        }
        Ok(rows)
    }
}

} // verus!
