//! What holds of the commands taken together, proved over the model of the
//! storage that their contracts speak of.

use crate::commands::{prepared, provisioned};
use crate::model::{
    in_workspace, lemma_filter_embeds, lemma_note_by_id, lemma_step_keeps_invariant, new_note,
    new_workspace, note_not_named, note_renamed, note_saved, refusal, step, DatabaseView,
};
use crate::record::NoteView;
use crate::statement::StatementView;
use crate::surface::{planned, CommandView};
use vstd::prelude::*;

verus! {

/// Whether one text comes before another in the order of their characters,
/// the order in which the storage compares texts. Timestamps of one format
/// stand in this order as their moments do.
pub open spec fn earlier(a: Seq<char>, b: Seq<char>) -> bool
    decreases a.len(),
{
    if b.len() == 0 {
        false
    } else if a.len() == 0 {
        true
    } else if a[0] != b[0] {
        (a[0] as u32) < (b[0] as u32)
    } else {
        earlier(a.drop_first(), b.drop_first())
    }
}

/// Whether one timestamp is not earlier than another.
pub open spec fn not_earlier(a: Seq<char>, b: Seq<char>) -> bool {
    !earlier(a, b)
}

/// No text comes before itself.
pub proof fn lemma_not_earlier_than_itself(a: Seq<char>)
    ensures
        not_earlier(a, a),
    decreases a.len(),
{
    if a.len() > 0 {
        lemma_not_earlier_than_itself(a.drop_first());
    }
}

/// `filter` after one more element.
proof fn lemma_filter_push<A>(s: Seq<A>, keep: spec_fn(A) -> bool, x: A)
    ensures
        s.push(x).filter(keep) == if keep(x) {
            s.filter(keep).push(x)
        } else {
            s.filter(keep)
        },
{
    reveal(Seq::filter);
    assert(s.push(x).drop_last() =~= s);
}

/// A sequence whose elements are all kept is what `filter` returns for it.
proof fn lemma_filter_keeps_all<A>(s: Seq<A>, keep: spec_fn(A) -> bool)
    requires
        forall|i: int| 0 <= i < s.len() ==> keep(#[trigger] s[i]),
    ensures
        s.filter(keep) == s,
    decreases s.len(),
{
    reveal(Seq::filter);
    if s.len() > 0 {
        lemma_filter_keeps_all(s.drop_last(), keep);
        assert(s.drop_last().push(s.last()) =~= s);
    }
}

/// Two filters may be applied in either order.
proof fn lemma_filters_commute<A>(s: Seq<A>, p: spec_fn(A) -> bool, q: spec_fn(A) -> bool)
    ensures
        s.filter(p).filter(q) == s.filter(q).filter(p),
    decreases s.len(),
{
    reveal(Seq::filter);
    if s.len() > 0 {
        let front = s.drop_last();
        lemma_filters_commute(front, p, q);
        lemma_filter_push(front.filter(p), q, s.last());
        lemma_filter_push(front.filter(q), p, s.last());
    }
}

/// A change that does not touch what a filter looks at may be made before
/// or after the filter.
proof fn lemma_filter_of_changed<A>(s: Seq<A>, change: spec_fn(A) -> A, keep: spec_fn(A) -> bool)
    requires
        forall|x: A| keep(#[trigger] change(x)) == keep(x),
    ensures
        s.map_values(change).filter(keep) == s.filter(keep).map_values(change),
    decreases s.len(),
{
    reveal(Seq::filter);
    if s.len() > 0 {
        let front = s.drop_last();
        lemma_filter_of_changed(front, change, keep);
        assert(s.map_values(change).drop_last() =~= front.map_values(change));
        assert(s.map_values(change).last() == change(s.last()));
        if keep(s.last()) {
            assert(front.filter(keep).push(s.last()).map_values(change) =~= front.filter(
                keep,
            ).map_values(change).push(change(s.last())));
        }
    } else {
        assert(s.map_values(change) =~= s);
        assert(s.filter(keep).map_values(change) =~= s.filter(keep));
    }
}

/// Preparing the storage is idempotent. After it the three tables exist and
/// there is a user; the workspaces and notes are those that there were; the
/// users that there were stay, and only an empty user table gets a row.
/// Preparing a prepared storage again, with whatever identifier and at
/// whatever time, changes nothing: no second user is written.
pub proof fn lemma_prepared_once(
    db: DatabaseView,
    first: Seq<char>,
    first_time: Seq<char>,
    second: Seq<char>,
    second_time: Seq<char>,
)
    ensures
        prepared(db, first, first_time).user_table,
        prepared(db, first, first_time).workspace_table,
        prepared(db, first, first_time).note_table,
        prepared(db, first, first_time).workspaces == db.workspaces,
        prepared(db, first, first_time).notes == db.notes,
        prepared(db, first, first_time).users.len() >= 1,
        db.users.len() >= 1 ==> prepared(db, first, first_time).users == db.users,
        db.users.len() <= 1 ==> prepared(db, first, first_time).ready(),
        prepared(prepared(db, first, first_time), second, second_time) == prepared(
            db,
            first,
            first_time,
        ),
        provisioned(prepared(db, first, first_time), second, second_time) == prepared(
            db,
            first,
            first_time,
        ),
{
}

/// Once the storage is prepared it stays prepared: whatever command runs,
/// refused or not, the three tables exist afterwards and there is exactly
/// one user, with the identifier it had.
pub proof fn lemma_commands_keep_the_user(
    db: DatabaseView,
    command: CommandView,
    statement: StatementView,
    now: Seq<char>,
)
    requires
        db.ready(),
        planned(command, statement),
    ensures
        step(db, statement, now).ready(),
        step(db, statement, now).users[0].id == db.users[0].id,
{
}

/// A workspace that was created is listed afterwards, last, with the title
/// it was given and an identifier that no other workspace has; the
/// workspaces that were listed before are still listed, in their places.
pub proof fn lemma_created_workspace_is_listed(
    db: DatabaseView,
    id: Seq<char>,
    title: Seq<char>,
    now: Seq<char>,
)
    requires
        db.wf(),
        db.workspace_table,
        !db.has_workspace(id),
    ensures
        ({
            let after = db.with_workspace(id, title, now);
            &&& after.wf()
            &&& after.workspaces.len() == db.workspaces.len() + 1
            &&& after.workspaces.last() == new_workspace(id, title, now)
            &&& after.workspaces.contains(new_workspace(id, title, now))
            &&& forall|i: int|
                0 <= i < db.workspaces.len() ==> (#[trigger] after.workspaces[i])
                    == db.workspaces[i] && after.workspaces[i].id != id
        }),
{
    let statement = StatementView::InsertWorkspace { id: id, title: title };
    lemma_step_keeps_invariant(db, statement, now);
    let after = db.with_workspace(id, title, now);
    assert(after.workspaces[db.workspaces.len() as int] == new_workspace(id, title, now));
    assert forall|i: int| 0 <= i < db.workspaces.len() implies (#[trigger] after.workspaces[i])
        == db.workspaces[i] && after.workspaces[i].id != id by {
        assert(db.workspaces[i].id != id);
    }
}

/// The notes listed for a workspace are exactly the notes of that workspace:
/// each listed note is a note of the table tied to the workspace, and each
/// note of the table tied to the workspace is listed.
pub proof fn lemma_listing_is_exact(db: DatabaseView, workspace_id: Seq<char>)
    ensures
        ({
            let listed = db.notes.filter(in_workspace(workspace_id));
            &&& forall|k: int|
                0 <= k < listed.len() ==> (#[trigger] listed[k]).workspace_id == workspace_id
                    && db.notes.contains(listed[k])
            &&& forall|i: int|
                0 <= i < db.notes.len() && (#[trigger] db.notes[i]).workspace_id == workspace_id
                    ==> listed.contains(db.notes[i])
        }),
{
    let keep = in_workspace(workspace_id);
    let listed = db.notes.filter(keep);
    lemma_filter_embeds(db.notes, keep);
    assert forall|k: int| 0 <= k < listed.len() implies (#[trigger] listed[k]).workspace_id
        == workspace_id && db.notes.contains(listed[k]) by {
        db.notes.lemma_filter_pred(keep, k);
        let i = choose|i: int| 0 <= i < db.notes.len() && db.notes[i] == listed[k];
        assert(db.notes[i] == listed[k]);
    }
    assert forall|i: int|
        0 <= i < db.notes.len() && (#[trigger] db.notes[i]).workspace_id
            == workspace_id implies listed.contains(db.notes[i]) by {
        db.notes.lemma_filter_contains(keep, i);
    }
}

/// A note that was created is listed afterwards for its workspace, after
/// the notes that were listed for it before, and the listing of every other
/// workspace is as it was.
pub proof fn lemma_created_note_is_listed(
    db: DatabaseView,
    id: Seq<char>,
    title: Seq<char>,
    workspace_id: Seq<char>,
    now: Seq<char>,
    other: Seq<char>,
)
    requires
        db.wf(),
        db.note_table,
        db.workspace_table,
        !db.has_note(id),
        db.has_workspace(workspace_id),
    ensures
        ({
            let after = db.with_note(id, title, workspace_id, now);
            &&& after.wf()
            &&& after.notes.filter(in_workspace(workspace_id)) == db.notes.filter(
                in_workspace(workspace_id),
            ).push(new_note(id, title, workspace_id, now))
            &&& other != workspace_id ==> after.notes.filter(in_workspace(other))
                == db.notes.filter(in_workspace(other))
        }),
{
    let statement = StatementView::InsertNote { id: id, title: title, workspace_id: workspace_id };
    lemma_step_keeps_invariant(db, statement, now);
    let created = new_note(id, title, workspace_id, now);
    lemma_filter_push(db.notes, in_workspace(workspace_id), created);
    lemma_filter_push(db.notes, in_workspace(other), created);
}

/// What a change of one note leaves of the note read by its identifier.
proof fn lemma_changed_note_is_read(
    db: DatabaseView,
    after: DatabaseView,
    id: Seq<char>,
    change: spec_fn(NoteView) -> NoteView,
)
    requires
        db.wf(),
        after.wf(),
        db.has_note(id),
        after.notes == db.notes.map_values(change),
        forall|n: NoteView| (#[trigger] change(n)).id == n.id,
    ensures
        after.has_note(id),
        after.note(id) == change(db.note(id)),
{
    lemma_note_by_id(db, id);
    lemma_note_by_id(after, id);
    let i = choose|i: int| 0 <= i < db.notes.len() && db.notes[i] == db.note(id);
    assert(after.notes[i] == change(db.notes[i]));
    assert(after.notes[i].id == id);
    let j = choose|j: int| 0 <= j < after.notes.len() && after.notes[j] == after.note(id);
    assert(after.notes[j] == change(db.notes[j]));
    if i < j {
        assert(db.notes[i].id != db.notes[j].id);
    }
    if j < i {
        assert(db.notes[j].id != db.notes[i].id);
    }
}

/// A payload that was saved to a note is the payload that is read from it:
/// the note read by its identifier is the note that was there, with the new
/// payload and the time of saving.
pub proof fn lemma_saved_data_is_read(
    db: DatabaseView,
    id: Seq<char>,
    data: Seq<char>,
    now: Seq<char>,
)
    requires
        db.wf(),
        db.has_note(id),
    ensures
        ({
            let after = db.with_note_data(id, data, now);
            &&& after.wf()
            &&& after.has_note(id)
            &&& after.note(id).save_data == data
            &&& after.note(id) == (NoteView { save_data: data, updated_at: now, ..db.note(id) })
        }),
{
    let statement = StatementView::UpdateNoteData { id: id, data: data };
    lemma_step_keeps_invariant(db, statement, now);
    lemma_note_by_id(db, id);
    let after = db.with_note_data(id, data, now);
    lemma_changed_note_is_read(db, after, id, note_saved(id, data, now));
}

/// A note that was deleted is gone: no note has its identifier, no listing
/// holds it, and each listing holds the other notes that it held, in their
/// order. Deleting it again is not refused and changes nothing.
pub proof fn lemma_deleted_note_is_gone(db: DatabaseView, id: Seq<char>, workspace_id: Seq<char>)
    requires
        db.wf(),
    ensures
        ({
            let after = db.without_note(id);
            &&& after.wf()
            &&& !after.has_note(id)
            &&& after.notes.filter(in_workspace(workspace_id)) == db.notes.filter(
                in_workspace(workspace_id),
            ).filter(note_not_named(id))
            &&& forall|k: int|
                0 <= k < after.notes.filter(in_workspace(workspace_id)).len() ==> (
                #[trigger] after.notes.filter(in_workspace(workspace_id))[k]).id != id
            &&& after.without_note(id) == after
            &&& refusal(after, StatementView::DeleteNote { id: id }) == refusal(
                db,
                StatementView::DeleteNote { id: id },
            )
        }),
{
    let statement = StatementView::DeleteNote { id: id };
    lemma_step_keeps_invariant(db, statement, Seq::empty());
    let after = db.without_note(id);
    let keep = note_not_named(id);
    assert(db.note_table ==> after == step(db, statement, Seq::empty()));
    assert forall|k: int| 0 <= k < after.notes.len() implies keep(#[trigger] after.notes[k]) by {
        db.notes.lemma_filter_pred(keep, k);
    }
    lemma_filter_keeps_all(after.notes, keep);
    lemma_filters_commute(db.notes, keep, in_workspace(workspace_id));
    let listed = after.notes.filter(in_workspace(workspace_id));
    assert forall|k: int| 0 <= k < listed.len() implies (#[trigger] listed[k]).id != id by {
        db.notes.filter(in_workspace(workspace_id)).lemma_filter_pred(keep, k);
    }
    if !db.note_table {
        assert(db.notes =~= Seq::empty());
        lemma_filter_keeps_all(db.notes, keep);
    }
}

/// A note that was renamed is read with its new title and the time of the
/// renaming, and is otherwise the note that was there. Where the clock did
/// not go back behind the time of the note's last change, the time of
/// change that is read is not earlier than the one that was there.
pub proof fn lemma_renamed_note_is_read(
    db: DatabaseView,
    id: Seq<char>,
    title: Seq<char>,
    now: Seq<char>,
)
    requires
        db.wf(),
        db.has_note(id),
    ensures
        ({
            let after = db.with_note_title(id, title, now);
            &&& after.wf()
            &&& after.has_note(id)
            &&& after.note(id).title == title
            &&& after.note(id) == (NoteView { title: title, updated_at: now, ..db.note(id) })
            &&& not_earlier(now, db.note(id).updated_at) ==> not_earlier(
                after.note(id).updated_at,
                db.note(id).updated_at,
            )
        }),
{
    let statement = StatementView::UpdateNoteTitle { id: id, title: title };
    lemma_step_keeps_invariant(db, statement, now);
    lemma_note_by_id(db, id);
    let after = db.with_note_title(id, title, now);
    lemma_changed_note_is_read(db, after, id, note_renamed(id, title, now));
}

/// A command that changes one note changes no other: every note with
/// another identifier is after the command what it was before, in its place.
pub proof fn lemma_other_notes_untouched(
    db: DatabaseView,
    id: Seq<char>,
    text: Seq<char>,
    now: Seq<char>,
    i: int,
)
    requires
        0 <= i < db.notes.len(),
        db.notes[i].id != id,
    ensures
        db.with_note_data(id, text, now).notes[i] == db.notes[i],
        db.with_note_title(id, text, now).notes[i] == db.notes[i],
        db.without_note(id).notes.contains(db.notes[i]),
        db.with_note_data(id, text, now).workspaces == db.workspaces,
        db.with_note_data(id, text, now).users == db.users,
        db.with_note_title(id, text, now).workspaces == db.workspaces,
        db.with_note_title(id, text, now).users == db.users,
        db.without_note(id).workspaces == db.workspaces,
        db.without_note(id).users == db.users,
{
    db.notes.lemma_filter_contains(note_not_named(id), i);
}

/// Two commands that change different notes may run in either order: the
/// storage is the same after both, whichever came first.
pub proof fn lemma_changes_of_different_notes_commute(
    db: DatabaseView,
    a: Seq<char>,
    text_a: Seq<char>,
    time_a: Seq<char>,
    b: Seq<char>,
    text_b: Seq<char>,
    time_b: Seq<char>,
)
    requires
        a != b,
    ensures
        db.with_note_data(a, text_a, time_a).with_note_data(b, text_b, time_b) == db.with_note_data(
            b,
            text_b,
            time_b,
        ).with_note_data(a, text_a, time_a),
        db.with_note_title(a, text_a, time_a).with_note_title(b, text_b, time_b)
            == db.with_note_title(b, text_b, time_b).with_note_title(a, text_a, time_a),
        db.with_note_data(a, text_a, time_a).with_note_title(b, text_b, time_b)
            == db.with_note_title(b, text_b, time_b).with_note_data(a, text_a, time_a),
        db.with_note_data(a, text_a, time_a).without_note(b) == db.without_note(b).with_note_data(
            a,
            text_a,
            time_a,
        ),
        db.with_note_title(a, text_a, time_a).without_note(b) == db.without_note(
            b,
        ).with_note_title(a, text_a, time_a),
        db.without_note(a).without_note(b) == db.without_note(b).without_note(a),
{
    let save_a = note_saved(a, text_a, time_a);
    let save_b = note_saved(b, text_b, time_b);
    let name_a = note_renamed(a, text_a, time_a);
    let name_b = note_renamed(b, text_b, time_b);
    assert(db.notes.map_values(save_a).map_values(save_b) =~= db.notes.map_values(
        save_b,
    ).map_values(save_a));
    assert(db.notes.map_values(name_a).map_values(name_b) =~= db.notes.map_values(
        name_b,
    ).map_values(name_a));
    assert(db.notes.map_values(save_a).map_values(name_b) =~= db.notes.map_values(
        name_b,
    ).map_values(save_a));
    lemma_filter_of_changed(db.notes, save_a, note_not_named(b));
    lemma_filter_of_changed(db.notes, name_a, note_not_named(b));
    lemma_filters_commute(db.notes, note_not_named(a), note_not_named(b));
}

} // verus!
