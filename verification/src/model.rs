//! The mathematical model of the storage: three tables of records, and what
//! each statement means on them.

use crate::error::{Fault, Table};
use crate::record::{unset_marker, NoteView, UserView, WorkspaceView};
use crate::row::{note_cells, user_cells, workspace_cells};
use crate::statement::{target, StatementView};
use vstd::prelude::*;

verus! {

/// The state of the storage: which tables exist and the rows of each, in the
/// order in which they were inserted.
pub struct DatabaseView {
    pub user_table: bool,
    pub workspace_table: bool,
    pub note_table: bool,
    pub users: Seq<UserView>,
    pub workspaces: Seq<WorkspaceView>,
    pub notes: Seq<NoteView>,
}

/// The notes of one workspace.
pub open spec fn in_workspace(workspace_id: Seq<char>) -> spec_fn(NoteView) -> bool {
    |n: NoteView| n.workspace_id == workspace_id
}

/// The notes with a given title.
pub open spec fn note_titled(title: Seq<char>) -> spec_fn(NoteView) -> bool {
    |n: NoteView| n.title == title
}

/// The notes with a given identifier.
pub open spec fn note_named(id: Seq<char>) -> spec_fn(NoteView) -> bool {
    |n: NoteView| n.id == id
}

/// The notes with another identifier than the given one.
pub open spec fn note_not_named(id: Seq<char>) -> spec_fn(NoteView) -> bool {
    |n: NoteView| n.id != id
}

/// The workspaces with a given title.
pub open spec fn workspace_titled(title: Seq<char>) -> spec_fn(WorkspaceView) -> bool {
    |w: WorkspaceView| w.title == title
}

/// A user after a workspace was made current.
pub open spec fn user_in_workspace(title: Seq<char>, now: Seq<char>) -> spec_fn(UserView) -> UserView {
    |u: UserView| UserView { current_workspace: Some(title), updated_at: now, ..u }
}

/// A user after a note was made current.
pub open spec fn user_on_note(title: Seq<char>, now: Seq<char>) -> spec_fn(UserView) -> UserView {
    |u: UserView| UserView { current_note: Some(title), updated_at: now, ..u }
}

/// A note after the payload of the note with the given identifier was
/// overwritten: that note has the new payload and modification time, every
/// other note is as it was.
pub open spec fn note_saved(id: Seq<char>, data: Seq<char>, now: Seq<char>) -> spec_fn(
    NoteView,
) -> NoteView {
    |n: NoteView|
        if n.id == id {
            NoteView { save_data: data, updated_at: now, ..n }
        } else {
            n
        }
}

/// A note after the note with the given identifier was renamed.
pub open spec fn note_renamed(id: Seq<char>, title: Seq<char>, now: Seq<char>) -> spec_fn(
    NoteView,
) -> NoteView {
    |n: NoteView|
        if n.id == id {
            NoteView { title: title, updated_at: now, ..n }
        } else {
            n
        }
}

/// The user row that provisioning writes: nothing selected, both timestamps
/// at the time of writing.
pub open spec fn new_user(id: Seq<char>, now: Seq<char>) -> UserView {
    UserView {
        id: id,
        current_workspace: Some(unset_marker()),
        current_note: Some(unset_marker()),
        created_at: now,
        updated_at: now,
    }
}

/// A workspace as it is created.
pub open spec fn new_workspace(id: Seq<char>, title: Seq<char>, now: Seq<char>) -> WorkspaceView {
    WorkspaceView { id: id, title: title, created_at: now, updated_at: now }
}

/// A note as it is created: with the empty payload.
pub open spec fn new_note(
    id: Seq<char>,
    title: Seq<char>,
    workspace_id: Seq<char>,
    now: Seq<char>,
) -> NoteView {
    NoteView {
        id: id,
        title: title,
        save_data: Seq::empty(),
        created_at: now,
        updated_at: now,
        workspace_id: workspace_id,
    }
}

/// Whether one of the users has the identifier.
pub open spec fn users_hold(users: Seq<UserView>, id: Seq<char>) -> bool {
    exists|i: int| 0 <= i < users.len() && (#[trigger] users[i]).id == id
}

/// Whether one of the workspaces has the identifier.
pub open spec fn workspaces_hold(workspaces: Seq<WorkspaceView>, id: Seq<char>) -> bool {
    exists|i: int| 0 <= i < workspaces.len() && (#[trigger] workspaces[i]).id == id
}

/// Whether one of the notes has the identifier.
pub open spec fn notes_hold(notes: Seq<NoteView>, id: Seq<char>) -> bool {
    exists|i: int| 0 <= i < notes.len() && (#[trigger] notes[i]).id == id
}

impl DatabaseView {
    /// The storage before anything was created in it.
    pub open spec fn empty() -> DatabaseView {
        DatabaseView {
            user_table: false,
            workspace_table: false,
            note_table: false,
            users: Seq::empty(),
            workspaces: Seq::empty(),
            notes: Seq::empty(),
        }
    }

    /// Whether a table exists.
    pub open spec fn has_table(self, table: Table) -> bool {
        match table {
            Table::User => self.user_table,
            Table::Workspace => self.workspace_table,
            Table::Note => self.note_table,
        }
    }

    /// Whether a user has the identifier.
    pub open spec fn has_user(self, id: Seq<char>) -> bool {
        users_hold(self.users, id)
    }

    /// Whether a workspace has the identifier.
    pub open spec fn has_workspace(self, id: Seq<char>) -> bool {
        workspaces_hold(self.workspaces, id)
    }

    /// Whether a note has the identifier.
    pub open spec fn has_note(self, id: Seq<char>) -> bool {
        notes_hold(self.notes, id)
    }

    /// The invariant of the storage: a table that does not exist has no rows,
    /// no two rows of a table share an identifier, and every note is tied to
    /// a workspace that exists.
    pub open spec fn wf(self) -> bool {
        &&& !self.user_table ==> self.users.len() == 0
        &&& !self.workspace_table ==> self.workspaces.len() == 0
        &&& !self.note_table ==> self.notes.len() == 0
        &&& forall|i: int, j: int|
            0 <= i < j < self.users.len() ==> (#[trigger] self.users[i]).id != (
            #[trigger] self.users[j]).id
        &&& forall|i: int, j: int|
            0 <= i < j < self.workspaces.len() ==> (#[trigger] self.workspaces[i]).id != (
            #[trigger] self.workspaces[j]).id
        &&& forall|i: int, j: int|
            0 <= i < j < self.notes.len() ==> (#[trigger] self.notes[i]).id != (
            #[trigger] self.notes[j]).id
        &&& forall|k: int|
            0 <= k < self.notes.len() ==> self.has_workspace((#[trigger] self.notes[k]).workspace_id)
    }

    /// The first note with the identifier; under the invariant, the only one.
    pub open spec fn note(self, id: Seq<char>) -> NoteView {
        self.notes.filter(note_named(id)).first()
    }

    /// The storage is prepared: the three tables exist and there is exactly
    /// one user.
    pub open spec fn ready(self) -> bool {
        self.user_table && self.workspace_table && self.note_table && self.users.len() == 1
    }

    /// The state with a table created, rows untouched.
    pub open spec fn with_table(self, table: Table) -> DatabaseView {
        match table {
            Table::User => DatabaseView { user_table: true, ..self },
            Table::Workspace => DatabaseView { workspace_table: true, ..self },
            Table::Note => DatabaseView { note_table: true, ..self },
        }
    }

    /// The state with one more user, as provisioning writes it.
    pub open spec fn with_user(self, id: Seq<char>, now: Seq<char>) -> DatabaseView {
        DatabaseView { users: self.users.push(new_user(id, now)), ..self }
    }

    /// The state with a workspace made current for every user.
    pub open spec fn with_current_workspace(self, title: Seq<char>, now: Seq<char>) -> DatabaseView {
        DatabaseView { users: self.users.map_values(user_in_workspace(title, now)), ..self }
    }

    /// The state with a note made current for every user.
    pub open spec fn with_current_note(self, title: Seq<char>, now: Seq<char>) -> DatabaseView {
        DatabaseView { users: self.users.map_values(user_on_note(title, now)), ..self }
    }

    /// The state with one more workspace, after the others.
    pub open spec fn with_workspace(
        self,
        id: Seq<char>,
        title: Seq<char>,
        now: Seq<char>,
    ) -> DatabaseView {
        DatabaseView { workspaces: self.workspaces.push(new_workspace(id, title, now)), ..self }
    }

    /// The state with one more note, after the others.
    pub open spec fn with_note(
        self,
        id: Seq<char>,
        title: Seq<char>,
        workspace_id: Seq<char>,
        now: Seq<char>,
    ) -> DatabaseView {
        DatabaseView { notes: self.notes.push(new_note(id, title, workspace_id, now)), ..self }
    }

    /// The state with the payload of a note overwritten.
    pub open spec fn with_note_data(self, id: Seq<char>, data: Seq<char>, now: Seq<char>) -> DatabaseView {
        DatabaseView { notes: self.notes.map_values(note_saved(id, data, now)), ..self }
    }

    /// The state with a note renamed.
    pub open spec fn with_note_title(
        self,
        id: Seq<char>,
        title: Seq<char>,
        now: Seq<char>,
    ) -> DatabaseView {
        DatabaseView { notes: self.notes.map_values(note_renamed(id, title, now)), ..self }
    }

    /// The state without the note that has the identifier.
    pub open spec fn without_note(self, id: Seq<char>) -> DatabaseView {
        DatabaseView { notes: self.notes.filter(note_not_named(id)), ..self }
    }
}

/// Why the storage refuses a statement, if it does.
pub open spec fn refusal(db: DatabaseView, statement: StatementView) -> Option<Fault> {
    match statement {
        StatementView::CreateUserTable => None,
        StatementView::CreateWorkspaceTable => None,
        StatementView::CreateNoteTable => None,
        StatementView::InsertUser { id } => if !db.user_table {
            Some(Fault::MissingTable(Table::User))
        } else if db.has_user(id) {
            Some(Fault::DuplicateId(Table::User))
        } else {
            None
        },
        StatementView::InsertWorkspace { id, title } => if !db.workspace_table {
            Some(Fault::MissingTable(Table::Workspace))
        } else if db.has_workspace(id) {
            Some(Fault::DuplicateId(Table::Workspace))
        } else {
            None
        },
        StatementView::InsertNote { id, title, workspace_id } => if !db.note_table {
            Some(Fault::MissingTable(Table::Note))
        } else if !db.workspace_table {
            Some(Fault::MissingTable(Table::Workspace))
        } else if db.has_note(id) {
            Some(Fault::DuplicateId(Table::Note))
        } else if !db.has_workspace(workspace_id) {
            Some(Fault::UnknownWorkspace)
        } else {
            None
        },
        _ => if db.has_table(target(statement)) {
            None
        } else {
            Some(Fault::MissingTable(target(statement)))
        },
    }
}

/// The rows that hold the given users, in order.
pub open spec fn user_rows(users: Seq<UserView>) -> Seq<Seq<Option<Seq<char>>>> {
    users.map_values(|u: UserView| user_cells(u))
}

/// The rows that hold the given workspaces, in order.
pub open spec fn workspace_rows(workspaces: Seq<WorkspaceView>) -> Seq<Seq<Option<Seq<char>>>> {
    workspaces.map_values(|w: WorkspaceView| workspace_cells(w))
}

/// The rows that hold the given notes, in order.
pub open spec fn note_rows(notes: Seq<NoteView>) -> Seq<Seq<Option<Seq<char>>>> {
    notes.map_values(|n: NoteView| note_cells(n))
}

/// The rows that the storage returns for a statement that it does not refuse:
/// the rows that a query selects, in the order of insertion, and none for a
/// statement that is no query.
pub open spec fn answer(db: DatabaseView, statement: StatementView) -> Seq<Seq<Option<Seq<char>>>> {
    match statement {
        StatementView::SelectUsers => user_rows(db.users),
        StatementView::SelectWorkspaces => workspace_rows(db.workspaces),
        StatementView::SelectWorkspacesByTitle { title } => workspace_rows(
            db.workspaces.filter(workspace_titled(title)),
        ),
        StatementView::SelectNotesByWorkspace { workspace_id } => note_rows(
            db.notes.filter(in_workspace(workspace_id)),
        ),
        StatementView::SelectNotesByTitle { title } => note_rows(
            db.notes.filter(note_titled(title)),
        ),
        StatementView::SelectNoteById { id } => note_rows(db.notes.filter(note_named(id))),
        _ => Seq::empty(),
    }
}

/// The state of the storage after a statement that it does not refuse, run
/// when its clock reads `now`.
pub open spec fn outcome(db: DatabaseView, statement: StatementView, now: Seq<char>) -> DatabaseView {
    match statement {
        StatementView::CreateUserTable => db.with_table(Table::User),
        StatementView::CreateWorkspaceTable => db.with_table(Table::Workspace),
        StatementView::CreateNoteTable => db.with_table(Table::Note),
        StatementView::InsertUser { id } => db.with_user(id, now),
        StatementView::SetCurrentWorkspace { title } => db.with_current_workspace(title, now),
        StatementView::SetCurrentNote { title } => db.with_current_note(title, now),
        StatementView::InsertWorkspace { id, title } => db.with_workspace(id, title, now),
        StatementView::InsertNote { id, title, workspace_id } => db.with_note(
            id,
            title,
            workspace_id,
            now,
        ),
        StatementView::UpdateNoteData { id, data } => db.with_note_data(id, data, now),
        StatementView::UpdateNoteTitle { id, title } => db.with_note_title(id, title, now),
        StatementView::DeleteNote { id } => db.without_note(id),
        _ => db,
    }
}

/// The state after a statement, whether the storage refuses it or not: a
/// refused statement changes nothing.
pub open spec fn step(db: DatabaseView, statement: StatementView, now: Seq<char>) -> DatabaseView {
    if refusal(db, statement) is Some {
        db
    } else {
        outcome(db, statement, now)
    }
}

/// Records written to rows and read back are the same records.
pub proof fn lemma_rows_round_trip(
    users: Seq<UserView>,
    workspaces: Seq<WorkspaceView>,
    notes: Seq<NoteView>,
)
    ensures
        crate::row::users_of(user_rows(users)) == Some(users),
        crate::row::workspaces_of(workspace_rows(workspaces)) == Some(workspaces),
        crate::row::notes_of(note_rows(notes)) == Some(notes),
{
    let user_lines = user_rows(users);
    assert forall|i: int| 0 <= i < user_lines.len() implies (#[trigger] crate::row::user_of(
        user_lines[i],
    )) == Some(users[i]) by {}
    assert(crate::row::users_of(user_lines).unwrap() =~= users);
    let workspace_lines = workspace_rows(workspaces);
    assert forall|i: int| 0 <= i < workspace_lines.len() implies (
    #[trigger] crate::row::workspace_of(workspace_lines[i])) == Some(workspaces[i]) by {}
    assert(crate::row::workspaces_of(workspace_lines).unwrap() =~= workspaces);
    let note_lines = note_rows(notes);
    assert forall|i: int| 0 <= i < note_lines.len() implies (#[trigger] crate::row::note_of(
        note_lines[i],
    )) == Some(notes[i]) by {}
    assert(crate::row::notes_of(note_lines).unwrap() =~= notes);
}

/// One more element of a sequence taken into account by `filter`.
pub proof fn lemma_filter_next<A>(s: Seq<A>, keep: spec_fn(A) -> bool, i: int)
    requires
        0 <= i < s.len(),
    ensures
        s.take(i + 1).filter(keep) == if keep(s[i]) {
            s.take(i).filter(keep).push(s[i])
        } else {
            s.take(i).filter(keep)
        },
{
    reveal(Seq::filter);
    assert(s.take(i + 1).drop_last() =~= s.take(i));
}

/// Every element that `filter` keeps stands in the sequence it was taken
/// from, and two kept elements stand there in the same order.
pub proof fn lemma_filter_embeds<A>(s: Seq<A>, keep: spec_fn(A) -> bool)
    ensures
        forall|k: int|
            0 <= k < s.filter(keep).len() ==> exists|i: int|
                0 <= i < s.len() && s[i] == #[trigger] s.filter(keep)[k],
        forall|k: int, l: int|
            0 <= k < l < s.filter(keep).len() ==> exists|i: int, j: int|
                0 <= i < j < s.len() && s[i] == #[trigger] s.filter(keep)[k] && s[j]
                    == #[trigger] s.filter(keep)[l],
    decreases s.len(),
{
    reveal(Seq::filter);
    if s.len() > 0 {
        let front = s.drop_last();
        lemma_filter_embeds(front, keep);
        let kept = s.filter(keep);
        let before = front.filter(keep);
        assert forall|k: int| 0 <= k < kept.len() implies exists|i: int|
            0 <= i < s.len() && s[i] == #[trigger] kept[k] by {
            if k < before.len() {
                let i = choose|i: int| 0 <= i < front.len() && front[i] == before[k];
                assert(s[i] == kept[k]);
            } else {
                assert(s[s.len() - 1] == kept[k]);
            }
        }
        assert forall|k: int, l: int| 0 <= k < l < kept.len() implies exists|i: int, j: int|
            0 <= i < j < s.len() && s[i] == #[trigger] kept[k] && s[j] == #[trigger] kept[l] by {
            if l < before.len() {
                let (i, j) = choose|i: int, j: int|
                    0 <= i < j < front.len() && front[i] == before[k] && front[j] == before[l];
                assert(s[i] == kept[k] && s[j] == kept[l]);
            } else {
                let i = choose|i: int| 0 <= i < front.len() && front[i] == before[k];
                assert(s[i] == kept[k] && s[s.len() - 1] == kept[l]);
            }
        }
    }
}

/// Under the invariant an identifier selects at most one note: exactly one
/// when a note has it, none otherwise; and the note it selects is a note of
/// the table with that identifier.
pub proof fn lemma_note_by_id(db: DatabaseView, id: Seq<char>)
    requires
        db.wf(),
    ensures
        db.has_note(id) <==> db.notes.filter(note_named(id)).len() == 1,
        !db.has_note(id) <==> db.notes.filter(note_named(id)).len() == 0,
        db.has_note(id) ==> db.note(id).id == id && db.notes.contains(db.note(id)),
{
    let keep = note_named(id);
    let selected = db.notes.filter(keep);
    lemma_filter_embeds(db.notes, keep);
    if selected.len() >= 1 {
        db.notes.lemma_filter_pred(keep, 0);
        let i = choose|i: int| 0 <= i < db.notes.len() && db.notes[i] == selected[0];
        assert(db.notes[i].id == id);
        assert(db.notes.contains(selected[0]));
    }
    if selected.len() >= 2 {
        db.notes.lemma_filter_pred(keep, 0);
        db.notes.lemma_filter_pred(keep, 1);
        let (i, j) = choose|i: int, j: int|
            0 <= i < j < db.notes.len() && db.notes[i] == selected[0] && db.notes[j] == selected[1];
        assert(db.notes[i].id == db.notes[j].id);
    }
    if db.has_note(id) {
        let i = choose|i: int| 0 <= i < db.notes.len() && (#[trigger] db.notes[i]).id == id;
        db.notes.lemma_filter_contains(keep, i);
    }
}

/// A workspace that one state has, another state with the same workspaces
/// in front has too.
proof fn lemma_workspace_stays(db: DatabaseView, next: DatabaseView, id: Seq<char>)
    requires
        db.has_workspace(id),
        db.workspaces.len() <= next.workspaces.len(),
        forall|i: int| 0 <= i < db.workspaces.len() ==> next.workspaces[i] == db.workspaces[i],
    ensures
        next.has_workspace(id),
{
    let i = choose|i: int| 0 <= i < db.workspaces.len() && (#[trigger] db.workspaces[i]).id == id;
    assert(next.workspaces[i].id == id);
}

/// The invariant of the storage holds after every statement.
pub proof fn lemma_step_keeps_invariant(db: DatabaseView, statement: StatementView, now: Seq<char>)
    requires
        db.wf(),
    ensures
        step(db, statement, now).wf(),
{
    let next = step(db, statement, now);
    if refusal(db, statement) is Some {
    } else {
        match statement {
            StatementView::InsertWorkspace { id, title } => {
                assert forall|k: int| 0 <= k < next.notes.len() implies next.has_workspace(
                    (#[trigger] next.notes[k]).workspace_id,
                ) by {
                    lemma_workspace_stays(db, next, db.notes[k].workspace_id);
                }
            },
            StatementView::InsertNote { id, title, workspace_id } => {
                assert forall|k: int| 0 <= k < next.notes.len() implies next.has_workspace(
                    (#[trigger] next.notes[k]).workspace_id,
                ) by {
                    if k < db.notes.len() {
                        lemma_workspace_stays(db, next, db.notes[k].workspace_id);
                    } else {
                        lemma_workspace_stays(db, next, workspace_id);
                    }
                }
            },
            StatementView::UpdateNoteData { id, data } => {
                let change = note_saved(id, data, now);
                assert forall|k: int| 0 <= k < next.notes.len() implies next.has_workspace(
                    (#[trigger] next.notes[k]).workspace_id,
                ) by {
                    assert(next.notes[k] == change(db.notes[k]));
                    lemma_workspace_stays(db, next, db.notes[k].workspace_id);
                }
                assert forall|i: int, j: int| 0 <= i < j < next.notes.len() implies (
                #[trigger] next.notes[i]).id != (#[trigger] next.notes[j]).id by {
                    assert(next.notes[i] == change(db.notes[i]));
                    assert(next.notes[j] == change(db.notes[j]));
                }
            },
            StatementView::UpdateNoteTitle { id, title } => {
                let change = note_renamed(id, title, now);
                assert forall|k: int| 0 <= k < next.notes.len() implies next.has_workspace(
                    (#[trigger] next.notes[k]).workspace_id,
                ) by {
                    assert(next.notes[k] == change(db.notes[k]));
                    lemma_workspace_stays(db, next, db.notes[k].workspace_id);
                }
                assert forall|i: int, j: int| 0 <= i < j < next.notes.len() implies (
                #[trigger] next.notes[i]).id != (#[trigger] next.notes[j]).id by {
                    assert(next.notes[i] == change(db.notes[i]));
                    assert(next.notes[j] == change(db.notes[j]));
                }
            },
            StatementView::DeleteNote { id } => {
                let kept = db.notes.filter(note_not_named(id));
                lemma_filter_embeds(db.notes, note_not_named(id));
                assert forall|k: int| 0 <= k < next.notes.len() implies next.has_workspace(
                    (#[trigger] next.notes[k]).workspace_id,
                ) by {
                    let i = choose|i: int| 0 <= i < db.notes.len() && db.notes[i] == kept[k];
                    lemma_workspace_stays(db, next, db.notes[i].workspace_id);
                }
                assert forall|k: int, l: int| 0 <= k < l < next.notes.len() implies (
                #[trigger] next.notes[k]).id != (#[trigger] next.notes[l]).id by {
                    let (i, j) = choose|i: int, j: int|
                        0 <= i < j < db.notes.len() && db.notes[i] == kept[k] && db.notes[j]
                            == kept[l];
                    assert(db.notes[i].id != db.notes[j].id);
                }
            },
            StatementView::SetCurrentWorkspace { title } => {
                let change = user_in_workspace(title, now);
                assert forall|i: int, j: int| 0 <= i < j < next.users.len() implies (
                #[trigger] next.users[i]).id != (#[trigger] next.users[j]).id by {
                    assert(next.users[i] == change(db.users[i]));
                    assert(next.users[j] == change(db.users[j]));
                }
            },
            StatementView::SetCurrentNote { title } => {
                let change = user_on_note(title, now);
                assert forall|i: int, j: int| 0 <= i < j < next.users.len() implies (
                #[trigger] next.users[i]).id != (#[trigger] next.users[j]).id by {
                    assert(next.users[i] == change(db.users[i]));
                    assert(next.users[j] == change(db.users[j]));
                }
            },
            _ => {},
        }
    }
}

} // verus!
