//! The commands of the application.
//!
//! Every command runs its statements on a database that it holds for itself
//! while it runs, and reports a failure of the storage as an error. A command
//! that writes takes the reading of the storage's clock.

use crate::database::Database;
use crate::error::{rejection, DatabaseError, DatabaseErrorView, Fault, Table};
use crate::ident::is_identifier;
use crate::model::{
    answer, in_workspace, lemma_note_by_id, lemma_rows_round_trip, note_titled, refusal, step,
    workspace_titled, DatabaseView,
};
use crate::provision::{statements_left, Progress, Provisioning, ProvisioningView};
use crate::record::{Note, User, Workspace};
use crate::row::{
    decode_notes, decode_users, decode_workspaces, first_note, first_workspace, only_note, Row,
};
use crate::statement::{Statement, StatementView};
use vstd::prelude::*;

verus! {

/// The error of a result, if it is one.
pub open spec fn failure<T>(result: Result<T, DatabaseError>) -> Option<DatabaseErrorView> {
    match result {
        Ok(_) => None,
        Err(error) => Some(error@),
    }
}

/// What creating a workspace under a given identifier does: nothing but a
/// failure without the table or when the identifier is taken, and else one
/// more workspace.
pub open spec fn workspace_creation(
    before: DatabaseView,
    id: Seq<char>,
    title: Seq<char>,
    now: Seq<char>,
    after: DatabaseView,
    failed: Option<DatabaseErrorView>,
) -> bool {
    if !before.workspace_table {
        after == before && failed == Some(rejection(Fault::MissingTable(Table::Workspace)))
    } else if before.has_workspace(id) {
        after == before && failed == Some(rejection(Fault::DuplicateId(Table::Workspace)))
    } else {
        after == before.with_workspace(id, title, now) && failed is None
    }
}

/// What creating a note under a given identifier does: nothing but a failure
/// without one of the two tables, when the identifier is taken or when the
/// workspace does not exist, and else one more note.
pub open spec fn note_creation(
    before: DatabaseView,
    id: Seq<char>,
    title: Seq<char>,
    workspace_id: Seq<char>,
    now: Seq<char>,
    after: DatabaseView,
    failed: Option<DatabaseErrorView>,
) -> bool {
    if !before.note_table {
        after == before && failed == Some(rejection(Fault::MissingTable(Table::Note)))
    } else if !before.workspace_table {
        after == before && failed == Some(rejection(Fault::MissingTable(Table::Workspace)))
    } else if before.has_note(id) {
        after == before && failed == Some(rejection(Fault::DuplicateId(Table::Note)))
    } else if !before.has_workspace(workspace_id) {
        after == before && failed == Some(rejection(Fault::UnknownWorkspace))
    } else {
        after == before.with_note(id, title, workspace_id, now) && failed is None
    }
}

/// The state after provisioning with a given identifier: a user is written
/// when the table exists and is empty, and nothing is changed otherwise.
pub open spec fn provisioned(before: DatabaseView, candidate: Seq<char>, now: Seq<char>) -> DatabaseView {
    if before.user_table && before.users.len() == 0 {
        before.with_user(candidate, now)
    } else {
        before
    }
}

/// The state after the storage was prepared with a given identifier: the
/// three tables exist, with the rows they had, and the user is provisioned.
pub open spec fn prepared(before: DatabaseView, candidate: Seq<char>, now: Seq<char>) -> DatabaseView {
    provisioned(
        before.with_table(Table::User).with_table(Table::Workspace).with_table(Table::Note),
        candidate,
        now,
    )
}

/// Runs a statement and reports a refusal as an error.
fn run(db: &mut Database, statement: &Statement, now: &str) -> (result: Result<
    Vec<Row>,
    DatabaseError,
>)
    requires
        old(db).wf(),
    ensures
        final(db).wf(),
        final(db)@ == step(old(db)@, statement@, now@),
        match refusal(old(db)@, statement@) {
            Some(fault) => result matches Err(error) && error@ == rejection(fault),
            None => result matches Ok(rows) && rows.deep_view() == answer(old(db)@, statement@),
        },
{
    match db.execute(statement, now) {
        Ok(rows) => Ok(rows),
        Err(fault) => Err(DatabaseError::rejected(fault)),
    }
}

/// Runs a query and reports a refusal as an error.
fn read(db: &Database, statement: &Statement) -> (result: Result<Vec<Row>, DatabaseError>)
    ensures
        match refusal(db@, statement@) {
            Some(fault) => result matches Err(error) && error@ == rejection(fault),
            None => result matches Ok(rows) && rows.deep_view() == answer(db@, statement@),
        },
{
    match db.select(statement) {
        Ok(rows) => Ok(rows),
        Err(fault) => Err(DatabaseError::rejected(fault)),
    }
}

/// Creates a workspace with the given identifier and title.
pub fn create_workspace_with_id(
    db: &mut Database,
    id: String,
    workspace_title: &str,
    now: &str,
) -> (created: Result<(), DatabaseError>)
    requires
        old(db).wf(),
    ensures
        final(db).wf(),
        workspace_creation(
            old(db)@,
            id@,
            workspace_title@,
            now@,
            final(db)@,
            failure(created),
        ),
{
    let statement = Statement::InsertWorkspace { id, title: workspace_title.to_owned() };
    match run(db, &statement, now) {
        Ok(_) => Ok(()),
        Err(error) => Err(error),
    }
}

/// Creates a workspace with the given title under a new random identifier.
pub fn create_workspace(db: &mut Database, workspace_title: &str, now: &str) -> (created: Result<
    (),
    DatabaseError,
>)
    requires
        old(db).wf(),
    ensures
        final(db).wf(),
        exists|id: Seq<char>|
            #[trigger] is_identifier(id) && workspace_creation(
                old(db)@,
                id,
                workspace_title@,
                now@,
                final(db)@,
                failure(created),
            ),
{
    let statement = Statement::new_workspace(workspace_title);
    match run(db, &statement, now) {
        Ok(_) => Ok(()),
        Err(error) => Err(error),
    }
}

/// All workspaces, in the order in which they were created.
pub fn get_workspaces(db: &Database) -> (found: Result<Vec<Workspace>, DatabaseError>)
    ensures
        match found {
            Ok(workspaces) => db@.workspace_table && workspaces.deep_view() == db@.workspaces,
            Err(error) => !db@.workspace_table && error@ == rejection(
                Fault::MissingTable(Table::Workspace),
            ),
        },
{
    let rows = match read(db, &Statement::SelectWorkspaces) {
        Ok(rows) => rows,
        Err(error) => {
            return Err(error);
        },
    };
    proof {
        lemma_rows_round_trip(db@.users, db@.workspaces, db@.notes);
    }
    decode_workspaces(&rows)
}

/// Makes a workspace current for the user; the title is taken as it is,
/// whether a workspace has it or not.
pub fn update_user_workspace(db: &mut Database, workspace_title: &str, now: &str) -> (updated:
    Result<(), DatabaseError>)
    requires
        old(db).wf(),
    ensures
        final(db).wf(),
        match updated {
            Ok(_) => old(db)@.user_table && final(db)@ == old(db)@.with_current_workspace(
                workspace_title@,
                now@,
            ),
            Err(error) => !old(db)@.user_table && final(db)@ == old(db)@ && error@ == rejection(
                Fault::MissingTable(Table::User),
            ),
        },
{
    let statement = Statement::SetCurrentWorkspace { title: workspace_title.to_owned() };
    match run(db, &statement, now) {
        Ok(_) => Ok(()),
        Err(error) => Err(error),
    }
}

/// The first workspace with the given title; not found when there is none.
pub fn get_workspace_by_title(db: &Database, current_workspace: &str) -> (found: Result<
    Workspace,
    DatabaseError,
>)
    ensures
        !db@.workspace_table ==> failure(found) == Some(
            rejection(Fault::MissingTable(Table::Workspace)),
        ),
        db@.workspace_table ==> ({
            let titled = db@.workspaces.filter(workspace_titled(current_workspace@));
            if titled.len() == 0 {
                failure(found) == Some(DatabaseErrorView::NotFound)
            } else {
                found matches Ok(workspace) && workspace@ == titled[0]
            }
        }),
{
    let statement = Statement::SelectWorkspacesByTitle { title: current_workspace.to_owned() };
    let rows = match read(db, &statement) {
        Ok(rows) => rows,
        Err(error) => {
            return Err(error);
        },
    };
    proof {
        lemma_rows_round_trip(
            db@.users,
            db@.workspaces.filter(workspace_titled(current_workspace@)),
            db@.notes,
        );
    }
    first_workspace(&rows)
}

/// Creates a note with the given identifier and title in a workspace, with
/// the empty payload.
pub fn create_note_with_id(
    db: &mut Database,
    id: String,
    title: &str,
    workspace_id: &str,
    now: &str,
) -> (created: Result<(), DatabaseError>)
    requires
        old(db).wf(),
    ensures
        final(db).wf(),
        note_creation(
            old(db)@,
            id@,
            title@,
            workspace_id@,
            now@,
            final(db)@,
            failure(created),
        ),
{
    let statement = Statement::InsertNote {
        id,
        title: title.to_owned(),
        workspace_id: workspace_id.to_owned(),
    };
    match run(db, &statement, now) {
        Ok(_) => Ok(()),
        Err(error) => Err(error),
    }
}

/// Creates a note with the given title in a workspace under a new random
/// identifier, with the empty payload.
pub fn create_note(db: &mut Database, title: &str, workspace_id: &str, now: &str) -> (created:
    Result<(), DatabaseError>)
    requires
        old(db).wf(),
    ensures
        final(db).wf(),
        exists|id: Seq<char>|
            #[trigger] is_identifier(id) && note_creation(
                old(db)@,
                id,
                title@,
                workspace_id@,
                now@,
                final(db)@,
                failure(created),
            ),
{
    let statement = Statement::new_note(title, workspace_id);
    match run(db, &statement, now) {
        Ok(_) => Ok(()),
        Err(error) => Err(error),
    }
}

/// The notes of a workspace, in the order in which they were created; a
/// workspace without notes has the empty list.
pub fn get_notes(db: &Database, workspace_id: &str) -> (found: Result<Vec<Note>, DatabaseError>)
    ensures
        match found {
            Ok(notes) => db@.note_table && notes.deep_view() == db@.notes.filter(
                in_workspace(workspace_id@),
            ),
            Err(error) => !db@.note_table && error@ == rejection(Fault::MissingTable(Table::Note)),
        },
{
    let statement = Statement::SelectNotesByWorkspace { workspace_id: workspace_id.to_owned() };
    let rows = match read(db, &statement) {
        Ok(rows) => rows,
        Err(error) => {
            return Err(error);
        },
    };
    proof {
        lemma_rows_round_trip(
            db@.users,
            db@.workspaces,
            db@.notes.filter(in_workspace(workspace_id@)),
        );
    }
    decode_notes(&rows)
}

/// The first note with the given title, of whatever workspace; not found
/// when there is none.
pub fn get_note_by_title(db: &Database, current_note: &str) -> (found: Result<Note, DatabaseError>)
    ensures
        !db@.note_table ==> failure(found) == Some(rejection(Fault::MissingTable(Table::Note))),
        db@.note_table ==> ({
            let titled = db@.notes.filter(note_titled(current_note@));
            if titled.len() == 0 {
                failure(found) == Some(DatabaseErrorView::NotFound)
            } else {
                found matches Ok(note) && note@ == titled[0]
            }
        }),
{
    let statement = Statement::SelectNotesByTitle { title: current_note.to_owned() };
    let rows = match read(db, &statement) {
        Ok(rows) => rows,
        Err(error) => {
            return Err(error);
        },
    };
    proof {
        lemma_rows_round_trip(db@.users, db@.workspaces, db@.notes.filter(note_titled(current_note@)));
    }
    first_note(&rows)
}

/// Makes a note current for the user; the title is taken as it is, whether
/// a note has it or not.
pub fn update_user_note(db: &mut Database, title: &str, now: &str) -> (updated: Result<
    (),
    DatabaseError,
>)
    requires
        old(db).wf(),
    ensures
        final(db).wf(),
        match updated {
            Ok(_) => old(db)@.user_table && final(db)@ == old(db)@.with_current_note(title@, now@),
            Err(error) => !old(db)@.user_table && final(db)@ == old(db)@ && error@ == rejection(
                Fault::MissingTable(Table::User),
            ),
        },
{
    let statement = Statement::SetCurrentNote { title: title.to_owned() };
    match run(db, &statement, now) {
        Ok(_) => Ok(()),
        Err(error) => Err(error),
    }
}

/// The note with the given identifier; not found when there is none.
pub fn get_note_save_data(db: &Database, id: &str) -> (found: Result<Note, DatabaseError>)
    requires
        db.wf(),
    ensures
        !db@.note_table ==> failure(found) == Some(rejection(Fault::MissingTable(Table::Note))),
        db@.note_table && !db@.has_note(id@) ==> failure(found) == Some(
            DatabaseErrorView::NotFound,
        ),
        db@.note_table && db@.has_note(id@) ==> (found matches Ok(note) && note@ == db@.note(id@)),
{
    let statement = Statement::SelectNoteById { id: id.to_owned() };
    let rows = match read(db, &statement) {
        Ok(rows) => rows,
        Err(error) => {
            return Err(error);
        },
    };
    proof {
        lemma_note_by_id(db@, id@);
        lemma_rows_round_trip(
            db@.users,
            db@.workspaces,
            db@.notes.filter(crate::model::note_named(id@)),
        );
    }
    only_note(&rows)
}

/// Overwrites the payload of the note with the given identifier and hands
/// the payload back. Where no note has the identifier, nothing is changed
/// and the payload is handed back all the same.
pub fn save_notes(db: &mut Database, data: &str, current_note_id: &str, now: &str) -> (saved:
    Result<String, DatabaseError>)
    requires
        old(db).wf(),
    ensures
        final(db).wf(),
        match saved {
            Ok(echo) => old(db)@.note_table && echo@ == data@ && final(db)@
                == old(db)@.with_note_data(current_note_id@, data@, now@),
            Err(error) => !old(db)@.note_table && final(db)@ == old(db)@ && error@ == rejection(
                Fault::MissingTable(Table::Note),
            ),
        },
{
    let statement = Statement::UpdateNoteData {
        id: current_note_id.to_owned(),
        data: data.to_owned(),
    };
    match run(db, &statement, now) {
        Ok(_) => Ok(data.to_owned()),
        Err(error) => Err(error),
    }
}

/// Removes the note with the given identifier; where no note has it,
/// nothing is changed and the command succeeds.
pub fn delete_note(db: &mut Database, current_note_id: &str) -> (deleted: Result<
    (),
    DatabaseError,
>)
    requires
        old(db).wf(),
    ensures
        final(db).wf(),
        match deleted {
            Ok(_) => old(db)@.note_table && final(db)@ == old(db)@.without_note(current_note_id@),
            Err(error) => !old(db)@.note_table && final(db)@ == old(db)@ && error@ == rejection(
                Fault::MissingTable(Table::Note),
            ),
        },
{
    let statement = Statement::DeleteNote { id: current_note_id.to_owned() };
    match run(db, &statement, "") {
        Ok(_) => Ok(()),
        Err(error) => Err(error),
    }
}

/// Gives the note with the given identifier a new title.
pub fn rename_note(db: &mut Database, current_note_id: &str, new_title: &str, now: &str) -> (renamed:
    Result<(), DatabaseError>)
    requires
        old(db).wf(),
    ensures
        final(db).wf(),
        match renamed {
            Ok(_) => old(db)@.note_table && final(db)@ == old(db)@.with_note_title(
                current_note_id@,
                new_title@,
                now@,
            ),
            Err(error) => !old(db)@.note_table && final(db)@ == old(db)@ && error@ == rejection(
                Fault::MissingTable(Table::Note),
            ),
        },
{
    let statement = Statement::UpdateNoteTitle {
        id: current_note_id.to_owned(),
        title: new_title.to_owned(),
    };
    match run(db, &statement, now) {
        Ok(_) => Ok(()),
        Err(error) => Err(error),
    }
}

/// The rows of the user table: the single user, once the storage is prepared.
pub fn get_user(db: &Database) -> (found: Result<Vec<User>, DatabaseError>)
    ensures
        match found {
            Ok(users) => db@.user_table && users.deep_view() == db@.users,
            Err(error) => !db@.user_table && error@ == rejection(Fault::MissingTable(Table::User)),
        },
{
    let rows = match read(db, &Statement::SelectUsers) {
        Ok(rows) => rows,
        Err(error) => {
            return Err(error);
        },
    };
    proof {
        lemma_rows_round_trip(db@.users, db@.workspaces, db@.notes);
    }
    decode_users(&rows)
}

/// Whether provisioning stands where it should, having started from
/// `before` with the identifier `candidate` and reached `current`.
spec fn on_course(
    state: ProvisioningView,
    statement: StatementView,
    before: DatabaseView,
    current: DatabaseView,
    candidate: Seq<char>,
    now: Seq<char>,
) -> bool {
    match state {
        ProvisioningView::ReadingUsers { candidate: kept } => kept == candidate && statement
            == StatementView::SelectUsers && current == before,
        ProvisioningView::WritingUser => statement == (StatementView::InsertUser { id: candidate })
            && current == before && before.user_table && before.users.len() == 0,
        ProvisioningView::ReadingNewUser => statement == StatementView::SelectUsers
            && before.user_table && before.users.len() == 0 && current == before.with_user(
            candidate,
            now,
        ),
    }
}

/// Runs provisioning to its end on the database.
fn provide(
    db: &mut Database,
    start: (Provisioning, Statement),
    Ghost(candidate): Ghost<Seq<char>>,
    now: &str,
) -> (users: Result<Vec<User>, DatabaseError>)
    requires
        old(db).wf(),
        start.0@ == (ProvisioningView::ReadingUsers { candidate: candidate }),
        start.1@ == StatementView::SelectUsers,
    ensures
        final(db).wf(),
        final(db)@ == provisioned(old(db)@, candidate, now@),
        match users {
            Ok(users) => old(db)@.user_table && users.deep_view() == final(db)@.users,
            Err(error) => !old(db)@.user_table && error@ == rejection(
                Fault::MissingTable(Table::User),
            ),
        },
{
    let ghost before = db@;
    let (mut state, mut statement) = start;
    loop
        invariant
            db.wf(),
            before == old(db)@,
            on_course(state@, statement@, before, db@, candidate, now@),
        decreases statements_left(state@),
    {
        let ghost current = db@;
        proof {
            lemma_rows_round_trip(current.users, current.workspaces, current.notes);
        }
        let answer = run(db, &statement, now);
        match state.advance(answer) {
            Progress::Run { next, statement: asked } => {
                state = next;
                statement = asked;
            },
            Progress::Done { users } => {
                return Ok(users);
            },
            Progress::Failed { error } => {
                return Err(error);
            },
        }
    }
}

/// Makes sure that there is a user, writing one with the given identifier
/// when the table is empty, and returns the users that there are then.
pub fn create_user_with_id(db: &mut Database, candidate: String, now: &str) -> (users: Result<
    Vec<User>,
    DatabaseError,
>)
    requires
        old(db).wf(),
    ensures
        final(db).wf(),
        final(db)@ == provisioned(old(db)@, candidate@, now@),
        match users {
            Ok(users) => old(db)@.user_table && users.deep_view() == final(db)@.users,
            Err(error) => !old(db)@.user_table && error@ == rejection(
                Fault::MissingTable(Table::User),
            ),
        },
{
    let ghost wanted = candidate@;
    provide(db, Provisioning::begin(candidate), Ghost(wanted), now)
}

/// Makes sure that there is a user, writing one under a new random
/// identifier when the table is empty, and returns the users that there are
/// then.
pub fn create_user_if_null(db: &mut Database, now: &str) -> (users: Result<Vec<User>, DatabaseError>)
    requires
        old(db).wf(),
    ensures
        final(db).wf(),
        exists|id: Seq<char>| #[trigger]
            is_identifier(id) && final(db)@ == provisioned(old(db)@, id, now@),
        match users {
            Ok(users) => old(db)@.user_table && users.deep_view() == final(db)@.users,
            Err(error) => !old(db)@.user_table && error@ == rejection(
                Fault::MissingTable(Table::User),
            ),
        },
{
    let start = Provisioning::start();
    let ghost drawn = choose|id: Seq<char>| #[trigger]
        is_identifier(id) && start.0@ == (ProvisioningView::ReadingUsers { candidate: id });
    provide(db, start, Ghost(drawn), now)
}

/// Creates the tables that do not exist yet, without touching a row of
/// those that do.
fn create_tables(db: &mut Database) -> (created: Result<(), DatabaseError>)
    requires
        old(db).wf(),
    ensures
        final(db).wf(),
        final(db)@ == old(db)@.with_table(Table::User).with_table(Table::Workspace).with_table(
            Table::Note,
        ),
        created is Ok,
{
    let statements = Statement::schema();
    assert(statements.len() == statements.deep_view().len());
    let ghost before = db@;
    let mut i: usize = 0;
    while i < statements.len()
        invariant
            i <= statements.len(),
            statements.len() == 3,
            statements.deep_view() == crate::statement::schema_statements(),
            db.wf(),
            before == old(db)@,
            i == 0 ==> db@ == before,
            i == 1 ==> db@ == before.with_table(Table::User),
            i == 2 ==> db@ == before.with_table(Table::User).with_table(Table::Workspace),
            i == 3 ==> db@ == before.with_table(Table::User).with_table(Table::Workspace).with_table(
                Table::Note,
            ),
        decreases statements.len() - i,
    {
        assert(statements[i as int]@ == statements.deep_view()[i as int]);
        assert(statements[i as int]@ == crate::statement::schema_statements()[i as int]);
        match run(db, &statements[i], "") {
            Ok(_) => {},
            Err(error) => {
                return Err(error);
            },
        }
        i += 1;
    }
    Ok(())
}

/// Prepares the storage: creates the tables that do not exist yet, without
/// touching a row of those that do, and makes sure that there is a user,
/// written with the given identifier when there was none. A failure on the
/// way is a failure of the start.
pub fn create_database_with_id(db: &mut Database, candidate: String, now: &str) -> (users: Result<
    Vec<User>,
    DatabaseError,
>)
    requires
        old(db).wf(),
    ensures
        final(db).wf(),
        final(db)@ == prepared(old(db)@, candidate@, now@),
        users matches Ok(users) && users.deep_view() == final(db)@.users,
{
    match create_tables(db) {
        Ok(_) => {},
        Err(error) => {
            return Err(error.at_startup());
        },
    }
    match create_user_with_id(db, candidate, now) {
        Ok(users) => Ok(users),
        Err(error) => Err(error.at_startup()),
    }
}

/// Prepares the storage: creates the tables that do not exist yet, without
/// touching a row of those that do, and makes sure that there is a user,
/// written under a new random identifier when there was none. A failure on
/// the way is a failure of the start.
pub fn create_database(db: &mut Database, now: &str) -> (users: Result<Vec<User>, DatabaseError>)
    requires
        old(db).wf(),
    ensures
        final(db).wf(),
        exists|id: Seq<char>| #[trigger]
            is_identifier(id) && final(db)@ == prepared(old(db)@, id, now@),
        users matches Ok(users) && users.deep_view() == final(db)@.users,
{
    match create_tables(db) {
        Ok(_) => {},
        Err(error) => {
            return Err(error.at_startup());
        },
    }
    match create_user_if_null(db, now) {
        Ok(users) => Ok(users),
        Err(error) => Err(error.at_startup()),
    }
}

} // verus!
