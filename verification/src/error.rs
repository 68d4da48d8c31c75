//! The failures that a command can report.

use vstd::prelude::*;

verus! {

/// One of the three tables of the storage.
#[derive(Debug, Clone, Copy, PartialEq, Eq, Structural)]
pub enum Table {
    User,
    Workspace,
    Note,
}

/// Why the storage refused a statement.
#[derive(Debug, Clone, Copy, PartialEq, Eq, Structural)]
pub enum Fault {
    /// The statement names a table that has not been created.
    MissingTable(Table),
    /// A row with the same identifier is already in the table.
    DuplicateId(Table),
    /// A note was to be tied to a workspace that does not exist.
    UnknownWorkspace,
}

/// The message that the storage gives for a fault.
pub open spec fn fault_text(fault: Fault) -> Seq<char> {
    match fault {
        Fault::MissingTable(Table::User) => "no such table: user"@,
        Fault::MissingTable(Table::Workspace) => "no such table: workspace"@,
        Fault::MissingTable(Table::Note) => "no such table: note"@,
        Fault::DuplicateId(Table::User) => "UNIQUE constraint failed: user.id"@,
        Fault::DuplicateId(Table::Workspace) => "UNIQUE constraint failed: workspace.id"@,
        Fault::DuplicateId(Table::Note) => "UNIQUE constraint failed: note.id"@,
        Fault::UnknownWorkspace => "FOREIGN KEY constraint failed"@,
    }
}

impl Fault {
    /// The message that the storage gives for this fault.
    pub fn message(&self) -> (text: &'static str)
        ensures
            text@ == fault_text(*self),
    {
        match self {
            Fault::MissingTable(Table::User) => "no such table: user",
            Fault::MissingTable(Table::Workspace) => "no such table: workspace",
            Fault::MissingTable(Table::Note) => "no such table: note",
            Fault::DuplicateId(Table::User) => "UNIQUE constraint failed: user.id",
            Fault::DuplicateId(Table::Workspace) => "UNIQUE constraint failed: workspace.id",
            Fault::DuplicateId(Table::Note) => "UNIQUE constraint failed: note.id",
            Fault::UnknownWorkspace => "FOREIGN KEY constraint failed",
        }
    }
}

/// A failure of a command.
#[derive(Debug, Clone, PartialEq, Eq)]
pub enum DatabaseError {
    /// The storage could not be opened or its tables could not be created.
    Startup { message: String },
    /// The storage refused or failed to run a statement.
    Statement { message: String },
    /// A command that reads one row found none.
    NotFound,
    /// A command that reads one row by its identifier found several.
    Ambiguous,
    /// A row did not have the shape of its table.
    Malformed,
}

/// What a [`DatabaseError`] is, with its message as a sequence of characters.
pub enum DatabaseErrorView {
    Startup { message: Seq<char> },
    Statement { message: Seq<char> },
    NotFound,
    Ambiguous,
    Malformed,
}

impl View for DatabaseError {
    type V = DatabaseErrorView;

    open spec fn view(&self) -> DatabaseErrorView {
        match self {
            DatabaseError::Startup { message } => DatabaseErrorView::Startup { message: message@ },
            DatabaseError::Statement { message } => DatabaseErrorView::Statement {
                message: message@,
            },
            DatabaseError::NotFound => DatabaseErrorView::NotFound,
            DatabaseError::Ambiguous => DatabaseErrorView::Ambiguous,
            DatabaseError::Malformed => DatabaseErrorView::Malformed,
        }
    }
}

impl DeepView for DatabaseError {
    type V = DatabaseErrorView;

    open spec fn deep_view(&self) -> DatabaseErrorView {
        self@
    }
}

/// The error that reports a fault of the storage.
pub open spec fn rejection(fault: Fault) -> DatabaseErrorView {
    DatabaseErrorView::Statement { message: fault_text(fault) }
}

/// The text that is shown for an error.
pub open spec fn error_text(error: DatabaseErrorView) -> Seq<char> {
    match error {
        DatabaseErrorView::Startup { message } => message,
        DatabaseErrorView::Statement { message } => message,
        DatabaseErrorView::NotFound => "no row matches"@,
        DatabaseErrorView::Ambiguous => "more than one row matches"@,
        DatabaseErrorView::Malformed => "a row does not fit its table"@,
    }
}

/// The same failure, met while the storage was being prepared: a failed
/// statement becomes a startup failure with the same message, an error of
/// another kind becomes a startup failure with the text shown for it.
pub open spec fn startup_failure(error: DatabaseErrorView) -> DatabaseErrorView {
    DatabaseErrorView::Startup { message: error_text(error) }
}

impl DatabaseError {
    /// The error for a statement that the storage refused.
    pub fn rejected(fault: Fault) -> (error: DatabaseError)
        ensures
            error@ == rejection(fault),
    {
        DatabaseError::Statement { message: fault.message().to_owned() }
    }

    /// The text to show for this error.
    pub fn message(&self) -> (text: String)
        ensures
            text@ == error_text(self@),
    {
        match self {
            DatabaseError::Startup { message } => message.clone(),
            DatabaseError::Statement { message } => message.clone(),
            DatabaseError::NotFound => "no row matches".to_owned(),
            DatabaseError::Ambiguous => "more than one row matches".to_owned(),
            DatabaseError::Malformed => "a row does not fit its table".to_owned(),
        }
    }

    /// This failure as one that ends the start of the application.
    pub fn at_startup(&self) -> (error: DatabaseError)
        ensures
            error@ == startup_failure(self@),
    {
        DatabaseError::Startup { message: self.message() }
    }
}

} // verus!
