//! Properties of the site that span several operations.

use vstd::prelude::*;
use crate::contact::{first_violation, ValidationError};
use crate::session::{accepts, after_login, after_logout, may_enter, Session};
use crate::site::{intake_outcome, ContactOutcome};
use crate::store::{new_row, newest_first, MessageModel, CAPACITY};

verus! {

/// A valid submission to a store that is not full is committed: the store
/// grows by exactly one row, and that row holds the submitted fields under
/// the next identifier.
pub proof fn valid_submission_adds_one_row(
    rows: Seq<MessageModel>,
    name: Seq<char>,
    email: Seq<char>,
    message: Seq<char>,
    created_at: nat,
)
    requires
        first_violation(name, email, message) is None,
        rows.len() < CAPACITY,
    ensures
        intake_outcome(rows.len(), name, email, message) == ContactOutcome::Sent(
            (rows.len() + 1) as u64,
        ),
        ({
            let after = rows.push(new_row(rows.len(), name, email, message, created_at));
            &&& after.len() == rows.len() + 1
            &&& after.subrange(0, rows.len() as int) == rows
            &&& after.last().name == name
            &&& after.last().email == email
            &&& after.last().message == message
        }),
{
    let after = rows.push(new_row(rows.len(), name, email, message, created_at));
    assert(after.subrange(0, rows.len() as int) =~= rows);
}

/// A submission with an empty field is refused as incomplete, whatever the
/// store holds; a refused submission writes nothing.
pub proof fn empty_field_is_refused(len: nat, name: Seq<char>, email: Seq<char>, message: Seq<char>)
    requires
        name.len() == 0 || email.len() == 0 || message.len() == 0,
    ensures
        intake_outcome(len, name, email, message) == ContactOutcome::Rejected(
            ValidationError::MissingField,
        ),
{
}

/// A complete submission whose email has no `@`, or no `.` after an `@`,
/// is refused as an invalid address.
pub proof fn malformed_email_is_refused(
    len: nat,
    name: Seq<char>,
    email: Seq<char>,
    message: Seq<char>,
)
    requires
        name.len() > 0,
        email.len() > 0,
        message.len() > 0,
        (forall|i: int| 0 <= i < email.len() ==> email[i] != '@') || (forall|k: int, j: int|
            0 <= k < j < email.len() && email[k] == '@' ==> email[j] != '.'),
    ensures
        intake_outcome(len, name, email, message) == ContactOutcome::Rejected(
            ValidationError::InvalidEmail,
        ),
{
}

/// Logging in with the administrator's configured credential authenticates
/// the session, which may then see the dashboard.
pub proof fn matching_login_opens_dashboard(
    session: Session,
    admin: (Seq<char>, Seq<char>),
    email: Seq<char>,
    password: Seq<char>,
)
    requires
        admin.0.len() > 0,
        admin.1.len() > 0,
        email == admin.0,
        password == admin.1,
    ensures
        after_login(session, admin, email, password) == Session::Authenticated,
        may_enter(after_login(session, admin, email, password)),
{
}

/// Logging in with anything but the administrator's credential leaves an
/// anonymous session anonymous, and it is still sent to the login page.
pub proof fn wrong_login_keeps_dashboard_closed(
    admin: (Seq<char>, Seq<char>),
    email: Seq<char>,
    password: Seq<char>,
)
    requires
        !accepts(admin, email, password),
    ensures
        after_login(Session::Anonymous, admin, email, password) == Session::Anonymous,
        !may_enter(after_login(Session::Anonymous, admin, email, password)),
{
}

/// After a logout the session is anonymous and the dashboard is closed to
/// it.
pub proof fn logout_closes_dashboard(session: Session)
    ensures
        after_logout(session) == Session::Anonymous,
        !may_enter(after_logout(session)),
{
}

/// The listing puts the latest committed row first, ahead of everything
/// listed before it.
pub proof fn newest_row_is_listed_first(rows: Seq<MessageModel>, row: MessageModel)
    ensures
        newest_first(rows.push(row)) == seq![row] + newest_first(rows),
{
    assert(newest_first(rows.push(row)) =~= seq![row] + newest_first(rows));
}

/// In a listing of rows numbered in commit order, every row has a larger
/// identifier than all the rows after it.
pub proof fn listing_is_newest_first(rows: Seq<MessageModel>)
    requires
        forall|i: int| 0 <= i < rows.len() ==> (#[trigger] rows[i]).id == i + 1,
    ensures
        forall|i: int, j: int|
            0 <= i < j < rows.len() ==> (#[trigger] newest_first(rows)[i]).id > (
            #[trigger] newest_first(rows)[j]).id,
{
    assert forall|i: int, j: int| 0 <= i < j < rows.len() implies (#[trigger] newest_first(
        rows,
    )[i]).id > (#[trigger] newest_first(rows)[j]).id by {
        assert(rows[rows.len() - 1 - i].id == rows.len() - i);
        assert(rows[rows.len() - 1 - j].id == rows.len() - j);
    }
}

} // verus!
