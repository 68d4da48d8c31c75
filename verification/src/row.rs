//! Result rows as the backend hands them over, and the records that they hold.
//!
//! A row is a sequence of cells in the order of the columns of its table;
//! a cell holds a text or nothing.

use crate::error::DatabaseError;
use crate::record::{Note, NoteView, User, UserView, Workspace, WorkspaceView};
use vstd::prelude::*;

verus! {

/// A result row: one cell for each column, `None` for a cell without a value.
pub type Row = Vec<Option<String>>;

/// The cells of a workspace, in the order of the columns of its table.
pub open spec fn workspace_cells(w: WorkspaceView) -> Seq<Option<Seq<char>>> {
    seq![Some(w.id), Some(w.title), Some(w.created_at), Some(w.updated_at)]
}

/// The cells of a note, in the order of the columns of its table.
pub open spec fn note_cells(n: NoteView) -> Seq<Option<Seq<char>>> {
    seq![
        Some(n.id),
        Some(n.title),
        Some(n.workspace_id),
        Some(n.save_data),
        Some(n.created_at),
        Some(n.updated_at),
    ]
}

/// The cells of a user, in the order of the columns of its table.
pub open spec fn user_cells(u: UserView) -> Seq<Option<Seq<char>>> {
    seq![Some(u.id), u.current_workspace, u.current_note, Some(u.created_at), Some(u.updated_at)]
}

/// The workspace that a row holds: the row has four cells and each holds a text.
pub open spec fn workspace_of(cells: Seq<Option<Seq<char>>>) -> Option<WorkspaceView> {
    if cells.len() == 4 && cells[0] is Some && cells[1] is Some && cells[2] is Some
        && cells[3] is Some {
        Some(
            WorkspaceView {
                id: cells[0].unwrap(),
                title: cells[1].unwrap(),
                created_at: cells[2].unwrap(),
                updated_at: cells[3].unwrap(),
            },
        )
    } else {
        None
    }
}

/// The note that a row holds: the row has six cells and each but the payload
/// holds a text; a payload cell without a value is the empty payload.
pub open spec fn note_of(cells: Seq<Option<Seq<char>>>) -> Option<NoteView> {
    if cells.len() == 6 && cells[0] is Some && cells[1] is Some && cells[2] is Some
        && cells[4] is Some && cells[5] is Some {
        Some(
            NoteView {
                id: cells[0].unwrap(),
                title: cells[1].unwrap(),
                workspace_id: cells[2].unwrap(),
                save_data: match cells[3] {
                    Some(data) => data,
                    None => Seq::empty(),
                },
                created_at: cells[4].unwrap(),
                updated_at: cells[5].unwrap(),
            },
        )
    } else {
        None
    }
}

/// The user that a row holds: the row has five cells, and the identifier and
/// the two timestamps each hold a text.
pub open spec fn user_of(cells: Seq<Option<Seq<char>>>) -> Option<UserView> {
    if cells.len() == 5 && cells[0] is Some && cells[3] is Some && cells[4] is Some {
        Some(
            UserView {
                id: cells[0].unwrap(),
                current_workspace: cells[1],
                current_note: cells[2],
                created_at: cells[3].unwrap(),
                updated_at: cells[4].unwrap(),
            },
        )
    } else {
        None
    }
}

/// The workspaces that rows hold, if every row holds one.
pub open spec fn workspaces_of(rows: Seq<Seq<Option<Seq<char>>>>) -> Option<Seq<WorkspaceView>> {
    if forall|i: int| 0 <= i < rows.len() ==> (#[trigger] workspace_of(rows[i])) is Some {
        Some(Seq::new(rows.len(), |i: int| workspace_of(rows[i]).unwrap()))
    } else {
        None
    }
}

/// The notes that rows hold, if every row holds one.
pub open spec fn notes_of(rows: Seq<Seq<Option<Seq<char>>>>) -> Option<Seq<NoteView>> {
    if forall|i: int| 0 <= i < rows.len() ==> (#[trigger] note_of(rows[i])) is Some {
        Some(Seq::new(rows.len(), |i: int| note_of(rows[i]).unwrap()))
    } else {
        None
    }
}

/// The users that rows hold, if every row holds one.
pub open spec fn users_of(rows: Seq<Seq<Option<Seq<char>>>>) -> Option<Seq<UserView>> {
    if forall|i: int| 0 <= i < rows.len() ==> (#[trigger] user_of(rows[i])) is Some {
        Some(Seq::new(rows.len(), |i: int| user_of(rows[i]).unwrap()))
    } else {
        None
    }
}

/// A copy of the cell at a position.
fn cell_at(row: &Row, i: usize) -> (cell: Option<String>)
    requires
        i < row.len(),
    ensures
        cell.deep_view() == row.deep_view()[i as int],
{
    match &row[i] {
        Some(text) => Some(text.clone()),
        None => None,
    }
}

/// The row that holds a workspace.
pub fn encode_workspace(workspace: &Workspace) -> (row: Row)
    ensures
        row.deep_view() == workspace_cells(workspace@),
{
    let mut row: Row = Vec::new();
    row.push(Some(workspace.id.clone()));
    row.push(Some(workspace.title.clone()));
    row.push(Some(workspace.created_at.clone()));
    row.push(Some(workspace.updated_at.clone()));
    assert(row.deep_view() =~= workspace_cells(workspace@));
    row
}

/// The row that holds a note.
pub fn encode_note(note: &Note) -> (row: Row)
    ensures
        row.deep_view() == note_cells(note@),
{
    let mut row: Row = Vec::new();
    row.push(Some(note.id.clone()));
    row.push(Some(note.title.clone()));
    row.push(Some(note.workspace_id.clone()));
    row.push(Some(note.save_data.clone()));
    row.push(Some(note.created_at.clone()));
    row.push(Some(note.updated_at.clone()));
    assert(row.deep_view() =~= note_cells(note@));
    row
}

/// The row that holds a user.
pub fn encode_user(user: &User) -> (row: Row)
    ensures
        row.deep_view() == user_cells(user@),
{
    let mut row: Row = Vec::new();
    row.push(Some(user.id.clone()));
    row.push(
        match &user.current_workspace {
            Some(text) => Some(text.clone()),
            None => None,
        },
    );
    row.push(
        match &user.current_note {
            Some(text) => Some(text.clone()),
            None => None,
        },
    );
    row.push(Some(user.created_at.clone()));
    row.push(Some(user.updated_at.clone()));
    assert(row.deep_view() =~= user_cells(user@));
    row
}

/// Reads a workspace from a row. The row is malformed when it does not hold one.
pub fn decode_workspace(row: &Row) -> (decoded: Result<Workspace, DatabaseError>)
    ensures
        match decoded {
            Ok(workspace) => workspace_of(row.deep_view()) == Some(workspace@),
            Err(error) => workspace_of(row.deep_view()) is None && error@
                == crate::error::DatabaseErrorView::Malformed,
        },
{
    if row.len() != 4 {
        return Err(DatabaseError::Malformed);
    }
    let id = cell_at(row, 0);
    let title = cell_at(row, 1);
    let created_at = cell_at(row, 2);
    let updated_at = cell_at(row, 3);
    match (id, title, created_at, updated_at) {
        (Some(id), Some(title), Some(created_at), Some(updated_at)) => Ok(
            Workspace { id, title, created_at, updated_at },
        ),
        _ => Err(DatabaseError::Malformed),
    }
}

/// Reads a note from a row. The row is malformed when it does not hold one.
pub fn decode_note(row: &Row) -> (decoded: Result<Note, DatabaseError>)
    ensures
        match decoded {
            Ok(note) => note_of(row.deep_view()) == Some(note@),
            Err(error) => note_of(row.deep_view()) is None && error@
                == crate::error::DatabaseErrorView::Malformed,
        },
{
    if row.len() != 6 {
        return Err(DatabaseError::Malformed);
    }
    let id = cell_at(row, 0);
    let title = cell_at(row, 1);
    let workspace_id = cell_at(row, 2);
    let save_data = match cell_at(row, 3) {
        Some(data) => data,
        None => String::new(),
    };
    let created_at = cell_at(row, 4);
    let updated_at = cell_at(row, 5);
    match (id, title, workspace_id, created_at, updated_at) {
        (Some(id), Some(title), Some(workspace_id), Some(created_at), Some(updated_at)) => Ok(
            Note { id, title, save_data, created_at, updated_at, workspace_id },
        ),
        _ => Err(DatabaseError::Malformed),
    }
}

/// Reads a user from a row. The row is malformed when it does not hold one.
pub fn decode_user(row: &Row) -> (decoded: Result<User, DatabaseError>)
    ensures
        match decoded {
            Ok(user) => user_of(row.deep_view()) == Some(user@),
            Err(error) => user_of(row.deep_view()) is None && error@
                == crate::error::DatabaseErrorView::Malformed,
        },
{
    if row.len() != 5 {
        return Err(DatabaseError::Malformed);
    }
    let id = cell_at(row, 0);
    let current_workspace = cell_at(row, 1);
    let current_note = cell_at(row, 2);
    let created_at = cell_at(row, 3);
    let updated_at = cell_at(row, 4);
    match (id, created_at, updated_at) {
        (Some(id), Some(created_at), Some(updated_at)) => Ok(
            User { id, current_workspace, current_note, created_at, updated_at },
        ),
        _ => Err(DatabaseError::Malformed),
    }
}

/// Reads a workspace from every row, in order; malformed when a row holds none.
pub fn decode_workspaces(rows: &Vec<Row>) -> (decoded: Result<Vec<Workspace>, DatabaseError>)
    ensures
        match decoded {
            Ok(workspaces) => workspaces_of(rows.deep_view()) == Some(workspaces.deep_view()),
            Err(error) => workspaces_of(rows.deep_view()) is None && error@
                == crate::error::DatabaseErrorView::Malformed,
        },
{
    let mut workspaces: Vec<Workspace> = Vec::new();
    let mut i: usize = 0;
    while i < rows.len()
        invariant
            i <= rows.len(),
            workspaces.len() == i,
            forall|j: int|
                0 <= j < i ==> (#[trigger] workspace_of(rows.deep_view()[j])) == Some(
                    workspaces[j]@,
                ),
        decreases rows.len() - i,
    {
        match decode_workspace(&rows[i]) {
            Ok(workspace) => {
                workspaces.push(workspace);
            },
            Err(error) => {
                assert(workspace_of(rows.deep_view()[i as int]) is None);
                return Err(error);
            },
        }
        i += 1;
    }
    assert(workspaces.deep_view() =~= workspaces_of(rows.deep_view()).unwrap());
    Ok(workspaces)
}

/// Reads a note from every row, in order; malformed when a row holds none.
pub fn decode_notes(rows: &Vec<Row>) -> (decoded: Result<Vec<Note>, DatabaseError>)
    ensures
        match decoded {
            Ok(notes) => notes_of(rows.deep_view()) == Some(notes.deep_view()),
            Err(error) => notes_of(rows.deep_view()) is None && error@
                == crate::error::DatabaseErrorView::Malformed,
        },
{
    let mut notes: Vec<Note> = Vec::new();
    let mut i: usize = 0;
    while i < rows.len()
        invariant
            i <= rows.len(),
            notes.len() == i,
            forall|j: int|
                0 <= j < i ==> (#[trigger] note_of(rows.deep_view()[j])) == Some(notes[j]@),
        decreases rows.len() - i,
    {
        match decode_note(&rows[i]) {
            Ok(note) => {
                notes.push(note);
            },
            Err(error) => {
                assert(note_of(rows.deep_view()[i as int]) is None);
                return Err(error);
            },
        }
        i += 1;
    }
    assert(notes.deep_view() =~= notes_of(rows.deep_view()).unwrap());
    Ok(notes)
}

/// Reads a user from every row, in order; malformed when a row holds none.
pub fn decode_users(rows: &Vec<Row>) -> (decoded: Result<Vec<User>, DatabaseError>)
    ensures
        match decoded {
            Ok(users) => users_of(rows.deep_view()) == Some(users.deep_view()),
            Err(error) => users_of(rows.deep_view()) is None && error@
                == crate::error::DatabaseErrorView::Malformed,
        },
{
    let mut users: Vec<User> = Vec::new();
    let mut i: usize = 0;
    while i < rows.len()
        invariant
            i <= rows.len(),
            users.len() == i,
            forall|j: int|
                0 <= j < i ==> (#[trigger] user_of(rows.deep_view()[j])) == Some(users[j]@),
        decreases rows.len() - i,
    {
        match decode_user(&rows[i]) {
            Ok(user) => {
                users.push(user);
            },
            Err(error) => {
                assert(user_of(rows.deep_view()[i as int]) is None);
                return Err(error);
            },
        }
        i += 1;
    }
    assert(users.deep_view() =~= users_of(rows.deep_view()).unwrap());
    Ok(users)
}

/// The workspace that a command for one workspace reads from its rows: the
/// first of them; not found when there are no rows.
pub open spec fn first_workspace_of(rows: Seq<Seq<Option<Seq<char>>>>) -> Result<
    WorkspaceView,
    crate::error::DatabaseErrorView,
> {
    match workspaces_of(rows) {
        None => Err(crate::error::DatabaseErrorView::Malformed),
        Some(workspaces) => if workspaces.len() == 0 {
            Err(crate::error::DatabaseErrorView::NotFound)
        } else {
            Ok(workspaces[0])
        },
    }
}

/// The note that a command for one note by its title reads from its rows:
/// the first of them; not found when there are no rows.
pub open spec fn first_note_of(rows: Seq<Seq<Option<Seq<char>>>>) -> Result<
    NoteView,
    crate::error::DatabaseErrorView,
> {
    match notes_of(rows) {
        None => Err(crate::error::DatabaseErrorView::Malformed),
        Some(notes) => if notes.len() == 0 {
            Err(crate::error::DatabaseErrorView::NotFound)
        } else {
            Ok(notes[0])
        },
    }
}

/// The note that a command for one note by its identifier reads from its
/// rows: the only one; not found when there are no rows, ambiguous when
/// there are several.
pub open spec fn only_note_of(rows: Seq<Seq<Option<Seq<char>>>>) -> Result<
    NoteView,
    crate::error::DatabaseErrorView,
> {
    match notes_of(rows) {
        None => Err(crate::error::DatabaseErrorView::Malformed),
        Some(notes) => if notes.len() == 0 {
            Err(crate::error::DatabaseErrorView::NotFound)
        } else if notes.len() == 1 {
            Ok(notes[0])
        } else {
            Err(crate::error::DatabaseErrorView::Ambiguous)
        },
    }
}

/// Reads the first workspace of the rows of a query.
pub fn first_workspace(rows: &Vec<Row>) -> (found: Result<Workspace, DatabaseError>)
    ensures
        match found {
            Ok(workspace) => first_workspace_of(rows.deep_view()) == Ok::<
                WorkspaceView,
                crate::error::DatabaseErrorView,
            >(workspace@),
            Err(error) => first_workspace_of(rows.deep_view()) == Err::<
                WorkspaceView,
                crate::error::DatabaseErrorView,
            >(error@),
        },
{
    match decode_workspaces(rows) {
        Err(error) => Err(error),
        Ok(mut workspaces) => {
            if workspaces.len() == 0 {
                Err(DatabaseError::NotFound)
            } else {
                Ok(workspaces.remove(0))
            }
        },
    }
}

/// Reads the first note of the rows of a query.
pub fn first_note(rows: &Vec<Row>) -> (found: Result<Note, DatabaseError>)
    ensures
        match found {
            Ok(note) => first_note_of(rows.deep_view()) == Ok::<
                NoteView,
                crate::error::DatabaseErrorView,
            >(note@),
            Err(error) => first_note_of(rows.deep_view()) == Err::<
                NoteView,
                crate::error::DatabaseErrorView,
            >(error@),
        },
{
    match decode_notes(rows) {
        Err(error) => Err(error),
        Ok(mut notes) => {
            if notes.len() == 0 {
                Err(DatabaseError::NotFound)
            } else {
                Ok(notes.remove(0))
            }
        },
    }
}

/// Reads the only note of the rows of a query by identifier.
pub fn only_note(rows: &Vec<Row>) -> (found: Result<Note, DatabaseError>)
    ensures
        match found {
            Ok(note) => only_note_of(rows.deep_view()) == Ok::<
                NoteView,
                crate::error::DatabaseErrorView,
            >(note@),
            Err(error) => only_note_of(rows.deep_view()) == Err::<
                NoteView,
                crate::error::DatabaseErrorView,
            >(error@),
        },
{
    match decode_notes(rows) {
        Err(error) => Err(error),
        Ok(mut notes) => {
            if notes.len() == 0 {
                Err(DatabaseError::NotFound)
            } else if notes.len() == 1 {
                Ok(notes.remove(0))
            } else {
                Err(DatabaseError::Ambiguous)
            }
        },
    }
}

/// A record written to a row and read back is the same record.
pub proof fn lemma_cells_round_trip(w: WorkspaceView, n: NoteView, u: UserView)
    ensures
        workspace_of(workspace_cells(w)) == Some(w),
        note_of(note_cells(n)) == Some(n),
        user_of(user_cells(u)) == Some(u),
{
}

} // verus!
