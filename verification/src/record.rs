//! The three kinds of record that the storage holds, and their mathematical views.

use vstd::prelude::*;

verus! {

/// The text that stands for "nothing selected" in a user's row.
pub open spec fn unset_marker() -> Seq<char> {
    "none"@
}

/// A named grouping that owns zero or more notes.
#[derive(Debug, Clone, PartialEq, Eq)]
pub struct Workspace {
    pub id: String,
    pub title: String,
    pub created_at: String,
    pub updated_at: String,
}

/// What a [`Workspace`] is, with every text as a sequence of characters.
pub struct WorkspaceView {
    pub id: Seq<char>,
    pub title: Seq<char>,
    pub created_at: Seq<char>,
    pub updated_at: Seq<char>,
}

impl View for Workspace {
    type V = WorkspaceView;

    open spec fn view(&self) -> WorkspaceView {
        WorkspaceView {
            id: self.id@,
            title: self.title@,
            created_at: self.created_at@,
            updated_at: self.updated_at@,
        }
    }
}

impl DeepView for Workspace {
    type V = WorkspaceView;

    open spec fn deep_view(&self) -> WorkspaceView {
        self@
    }
}

/// A titled document with an opaque payload, owned by one workspace.
#[derive(Debug, Clone, PartialEq, Eq)]
pub struct Note {
    pub id: String,
    pub title: String,
    pub save_data: String,
    pub created_at: String,
    pub updated_at: String,
    pub workspace_id: String,
}

/// What a [`Note`] is, with every text as a sequence of characters.
pub struct NoteView {
    pub id: Seq<char>,
    pub title: Seq<char>,
    pub save_data: Seq<char>,
    pub created_at: Seq<char>,
    pub updated_at: Seq<char>,
    pub workspace_id: Seq<char>,
}

impl View for Note {
    type V = NoteView;

    open spec fn view(&self) -> NoteView {
        NoteView {
            id: self.id@,
            title: self.title@,
            save_data: self.save_data@,
            created_at: self.created_at@,
            updated_at: self.updated_at@,
            workspace_id: self.workspace_id@,
        }
    }
}

impl DeepView for Note {
    type V = NoteView;

    open spec fn deep_view(&self) -> NoteView {
        self@
    }
}

/// The single session record: which workspace and which note are current.
#[derive(Debug, Clone, PartialEq, Eq)]
pub struct User {
    pub id: String,
    pub current_workspace: Option<String>,
    pub current_note: Option<String>,
    pub created_at: String,
    pub updated_at: String,
}

/// What a [`User`] is, with every text as a sequence of characters.
pub struct UserView {
    pub id: Seq<char>,
    pub current_workspace: Option<Seq<char>>,
    pub current_note: Option<Seq<char>>,
    pub created_at: Seq<char>,
    pub updated_at: Seq<char>,
}

impl View for User {
    type V = UserView;

    open spec fn view(&self) -> UserView {
        UserView {
            id: self.id@,
            current_workspace: self.current_workspace.deep_view(),
            current_note: self.current_note.deep_view(),
            created_at: self.created_at@,
            updated_at: self.updated_at@,
        }
    }
}

impl DeepView for User {
    type V = UserView;

    open spec fn deep_view(&self) -> UserView {
        self@
    }
}

/// A stored selection read as a choice: absent and the unset marker both mean
/// that nothing is selected.
pub open spec fn selection(stored: Option<Seq<char>>) -> Option<Seq<char>> {
    match stored {
        Some(text) => if text == unset_marker() {
            None
        } else {
            Some(text)
        },
        None => None,
    }
}

/// Whether two texts hold the same characters.
pub fn same_text(a: &str, b: &str) -> (same: bool)
    ensures
        same == (a@ == b@),
{
    let left = a.to_owned();
    let right = b.to_owned();
    left == right
}

impl Workspace {
    /// A copy of this workspace.
    pub fn duplicate(&self) -> (copy: Workspace)
        ensures
            copy@ == self@,
    {
        Workspace {
            id: self.id.clone(),
            title: self.title.clone(),
            created_at: self.created_at.clone(),
            updated_at: self.updated_at.clone(),
        }
    }
}

impl Note {
    /// A copy of this note.
    pub fn duplicate(&self) -> (copy: Note)
        ensures
            copy@ == self@,
    {
        Note {
            id: self.id.clone(),
            title: self.title.clone(),
            save_data: self.save_data.clone(),
            created_at: self.created_at.clone(),
            updated_at: self.updated_at.clone(),
            workspace_id: self.workspace_id.clone(),
        }
    }
}

/// A copy of a text that may be absent.
pub fn copy_text(text: &Option<String>) -> (copy: Option<String>)
    ensures
        copy.deep_view() == text.deep_view(),
{
    match text {
        Some(held) => Some(held.clone()),
        None => None,
    }
}

impl User {
    /// A copy of this user.
    pub fn duplicate(&self) -> (copy: User)
        ensures
            copy@ == self@,
    {
        User {
            id: self.id.clone(),
            current_workspace: copy_text(&self.current_workspace),
            current_note: copy_text(&self.current_note),
            created_at: self.created_at.clone(),
            updated_at: self.updated_at.clone(),
        }
    }

    /// The title of the workspace that is current, if one has been selected.
    pub fn selected_workspace(&self) -> (title: Option<String>)
        ensures
            title.deep_view() == selection(self@.current_workspace),
    {
        match &self.current_workspace {
            Some(text) => if same_text(text.as_str(), "none") {
                None
            } else {
                Some(text.clone())
            },
            None => None,
        }
    }

    /// The title of the note that is current, if one has been selected.
    pub fn selected_note(&self) -> (title: Option<String>)
        ensures
            title.deep_view() == selection(self@.current_note),
    {
        match &self.current_note {
            Some(text) => if same_text(text.as_str(), "none") {
                None
            } else {
                Some(text.clone())
            },
            None => None,
        }
    }
}

} // verus!
