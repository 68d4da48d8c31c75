//! Provisioning of the single user, as a machine that asks for one statement
//! at a time and is told what the storage answered.
//!
//! The caller runs each statement it is given and hands back the rows, or the
//! failure, until the machine is done.

use crate::error::{DatabaseError, DatabaseErrorView};
use crate::ident::{is_identifier, random_identifier};
use crate::record::{User, UserView};
use crate::row::{decode_users, users_of, Row};
use crate::statement::{Statement, StatementView};
use vstd::prelude::*;

verus! {

/// Where provisioning stands: which answer it waits for.
#[derive(Debug)]
pub enum Provisioning {
    /// The users were asked for; the identifier is kept for a user to create.
    ReadingUsers { candidate: String },
    /// A user is being written.
    WritingUser,
    /// The users are asked for again, after one was written.
    ReadingNewUser,
}

/// What a [`Provisioning`] is, with its text as a sequence of characters.
pub enum ProvisioningView {
    ReadingUsers { candidate: Seq<char> },
    WritingUser,
    ReadingNewUser,
}

impl View for Provisioning {
    type V = ProvisioningView;

    open spec fn view(&self) -> ProvisioningView {
        match self {
            Provisioning::ReadingUsers { candidate } => ProvisioningView::ReadingUsers {
                candidate: candidate@,
            },
            Provisioning::WritingUser => ProvisioningView::WritingUser,
            Provisioning::ReadingNewUser => ProvisioningView::ReadingNewUser,
        }
    }
}

/// What provisioning asks of its caller next.
#[derive(Debug)]
pub enum Progress {
    /// Run the statement and come back with its answer.
    Run { next: Provisioning, statement: Statement },
    /// Provisioning is over: these are the users of the storage.
    Done { users: Vec<User> },
    /// Provisioning failed.
    Failed { error: DatabaseError },
}

/// What a [`Progress`] is, over the views of its parts.
pub enum ProgressView {
    Run { next: ProvisioningView, statement: StatementView },
    Done { users: Seq<UserView> },
    Failed { error: DatabaseErrorView },
}

impl View for Progress {
    type V = ProgressView;

    open spec fn view(&self) -> ProgressView {
        match self {
            Progress::Run { next, statement } => ProgressView::Run {
                next: next@,
                statement: statement@,
            },
            Progress::Done { users } => ProgressView::Done { users: users.deep_view() },
            Progress::Failed { error } => ProgressView::Failed { error: error@ },
        }
    }
}

/// The answer of the storage to a statement, over views.
pub open spec fn answer_view(answer: Result<Vec<Row>, DatabaseError>) -> Result<
    Seq<Seq<Option<Seq<char>>>>,
    DatabaseErrorView,
> {
    match answer {
        Ok(rows) => Ok(rows.deep_view()),
        Err(error) => Err(error@),
    }
}

/// The rule of provisioning. A failure of the storage ends it. When users
/// are read for the first time and there are some, they are the result and
/// nothing is written; when there are none, a user with the kept identifier
/// is written. After the write the users are read again, and what is read
/// then is the result.
pub open spec fn progress(
    state: ProvisioningView,
    answer: Result<Seq<Seq<Option<Seq<char>>>>, DatabaseErrorView>,
) -> ProgressView {
    match answer {
        Err(error) => ProgressView::Failed { error: error },
        Ok(rows) => match state {
            ProvisioningView::ReadingUsers { candidate } => match users_of(rows) {
                None => ProgressView::Failed { error: DatabaseErrorView::Malformed },
                Some(users) => if users.len() > 0 {
                    ProgressView::Done { users: users }
                } else {
                    ProgressView::Run {
                        next: ProvisioningView::WritingUser,
                        statement: StatementView::InsertUser { id: candidate },
                    }
                },
            },
            ProvisioningView::WritingUser => ProgressView::Run {
                next: ProvisioningView::ReadingNewUser,
                statement: StatementView::SelectUsers,
            },
            ProvisioningView::ReadingNewUser => match users_of(rows) {
                None => ProgressView::Failed { error: DatabaseErrorView::Malformed },
                Some(users) => ProgressView::Done { users: users },
            },
        },
    }
}

/// How many statements provisioning may still ask for.
pub open spec fn statements_left(state: ProvisioningView) -> nat {
    match state {
        ProvisioningView::ReadingUsers { .. } => 3,
        ProvisioningView::WritingUser => 2,
        ProvisioningView::ReadingNewUser => 1,
    }
}

impl Provisioning {
    /// Starts provisioning with the identifier for a user to create, should
    /// there be none: the users are asked for first.
    pub fn begin(candidate: String) -> (start: (Provisioning, Statement))
        ensures
            start.0@ == (ProvisioningView::ReadingUsers { candidate: candidate@ }),
            start.1@ == StatementView::SelectUsers,
    {
        (Provisioning::ReadingUsers { candidate }, Statement::SelectUsers)
    }

    /// Starts provisioning with a new random identifier for a user to
    /// create, should there be none.
    pub fn start() -> (start: (Provisioning, Statement))
        ensures
            exists|id: Seq<char>| #[trigger]
                is_identifier(id) && start.0@ == (ProvisioningView::ReadingUsers { candidate: id }),
            start.1@ == StatementView::SelectUsers,
    {
        let candidate = random_identifier();
        assert(is_identifier(candidate@));
        Provisioning::begin(candidate)
    }

    /// Takes the answer to the statement that was asked for and says what to
    /// do next.
    pub fn advance(self, answer: Result<Vec<Row>, DatabaseError>) -> (next: Progress)
        ensures
            next@ == progress(self@, answer_view(answer)),
            next@ matches ProgressView::Run { next: state, .. } ==> statements_left(state)
                < statements_left(self@),
    {
        let rows = match answer {
            Ok(rows) => rows,
            Err(error) => {
                return Progress::Failed { error };
            },
        };
        match self {
            Provisioning::ReadingUsers { candidate } => match decode_users(&rows) {
                Err(error) => Progress::Failed { error },
                Ok(users) => {
                    if users.len() > 0 {
                        Progress::Done { users }
                    } else {
                        Progress::Run {
                            next: Provisioning::WritingUser,
                            statement: Statement::InsertUser { id: candidate },
                        }
                    }
                },
            },
            Provisioning::WritingUser => Progress::Run {
                next: Provisioning::ReadingNewUser,
                statement: Statement::SelectUsers,
            },
            Provisioning::ReadingNewUser => match decode_users(&rows) {
                Err(error) => Progress::Failed { error },
                Ok(users) => Progress::Done { users },
            },
        }
    }
}

} // verus!
