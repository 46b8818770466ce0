//! What each of the site's handlers decides: the outcome of a contact
//! submission and what the dashboard shows to a given session.

use vstd::prelude::*;
use crate::contact::{first_violation, validate, ValidationError};
use crate::session::{may_enter, Session};
use crate::store::{new_row, newest_first, ContactMessage, ContactStore, StorageError, CAPACITY};

verus! {

/// The result of a contact submission.
#[derive(Clone, Copy, Debug, PartialEq, Eq, Structural)]
pub enum ContactOutcome {
    /// Committed under this identifier.
    Sent(u64),
    /// Turned away before the store was touched.
    Rejected(ValidationError),
    /// Valid, but the store could not commit it.
    Failed(StorageError),
}

/// The outcome a submission has against a store holding `len` rows.
pub open spec fn intake_outcome(
    len: nat,
    name: Seq<char>,
    email: Seq<char>,
    message: Seq<char>,
) -> ContactOutcome {
    match first_violation(name, email, message) {
        Some(e) => ContactOutcome::Rejected(e),
        None => if len < CAPACITY {
            ContactOutcome::Sent((len + 1) as u64)
        } else {
            ContactOutcome::Failed(StorageError::Exhausted)
        },
    }
}

/// Validates a submission and, if it passes, commits it. Exactly one row is
/// written when the outcome is `Sent`, and none otherwise.
pub fn submit_contact(
    store: &mut ContactStore,
    name: &str,
    email: &str,
    message: &str,
    created_at: u64,
) -> (r: ContactOutcome)
    requires
        old(store).wf(),
    ensures
        final(store).wf(),
        r == intake_outcome(old(store)@.len(), name@, email@, message@),
        r is Sent ==> final(store)@ == old(store)@.push(
            new_row(old(store)@.len(), name@, email@, message@, created_at as nat),
        ),
        !(r is Sent) ==> final(store)@ == old(store)@,
{
    match validate(name, email, message) {
        Err(e) => ContactOutcome::Rejected(e),
        Ok(()) => match store.insert(name, email, message, created_at) {
            Ok(id) => ContactOutcome::Sent(id),
            Err(e) => ContactOutcome::Failed(e),
        },
    }
}

/// The phrase shown after a successful submission.
pub open spec fn sent_notice() -> Seq<char> {
    "Thank you! Your message has been sent."@
}

/// The phrase shown when a valid submission could not be stored.
pub open spec fn failed_notice() -> Seq<char> {
    "Sorry, your message could not be sent. Please try again later."@
}

impl ContactOutcome {
    /// Whether the submission was committed.
    pub fn is_success(&self) -> (r: bool)
        ensures
            r == (*self is Sent),
    {
        match self {
            ContactOutcome::Sent(_) => true,
            _ => false,
        }
    }

    /// The message shown to the visitor beside the contact form. It never
    /// carries the details of a storage failure.
    pub fn notice(&self) -> (r: &'static str)
        ensures
            *self is Sent ==> r@ == sent_notice(),
            *self is Failed ==> r@ == failed_notice(),
            *self == ContactOutcome::Rejected(ValidationError::MissingField) ==> r@
                == "All fields are required"@,
            *self == ContactOutcome::Rejected(ValidationError::InvalidEmail) ==> r@
                == "Invalid email address"@,
    {
        match self {
            ContactOutcome::Sent(_) => "Thank you! Your message has been sent.",
            ContactOutcome::Rejected(e) => e.text(),
            ContactOutcome::Failed(_) => "Sorry, your message could not be sent. Please try again later.",
        }
    }
}

/// The text shown on the login page after a refused login.
pub fn login_error() -> (r: &'static str)
    ensures
        r@ == "Invalid email or password"@,
{
    "Invalid email or password"
}

/// The path of the login page.
pub fn login_path() -> (r: &'static str)
    ensures
        r@ == "/login"@,
{
    "/login"
}

/// The path of the dashboard.
pub fn dashboard_path() -> (r: &'static str)
    ensures
        r@ == "/dashboard"@,
{
    "/dashboard"
}

/// A status code and body to send back for a rendered page.
pub struct PageReply {
    pub status: u16,
    pub body: String,
}

/// The body sent when a page could not be rendered; it never carries the
/// cause.
pub open spec fn render_failure_body() -> Seq<char> {
    "Error rendering template"@
}

/// The reply for a page render: the page with status 200, or, when the
/// render failed (`None`), status 500 with a fixed text.
pub fn page_reply(rendered: Option<String>) -> (r: PageReply)
    ensures
        rendered matches Some(page) ==> r.status == 200 && r.body@ == page@,
        rendered is None ==> r.status == 500 && r.body@ == render_failure_body(),
{
    match rendered {
        Some(page) => PageReply { status: 200, body: page },
        None => PageReply { status: 500, body: "Error rendering template".to_string() },
    }
}

/// What a request for the dashboard gets.
pub enum DashboardView {
    /// The session may not see the dashboard: send the visitor to the login
    /// page.
    RedirectToLogin,
    /// The messages, newest first, and how many there are.
    Listing { messages: Vec<ContactMessage>, count: usize },
}

/// Serves the dashboard. The session is checked first; an unreachable store
/// (`None`) gives an empty listing rather than an error.
pub fn dashboard(session: Session, store: Option<&ContactStore>) -> (r: DashboardView)
    requires
        store matches Some(s) ==> s.wf(),
    ensures
        r is RedirectToLogin <==> !may_enter(session),
        r matches DashboardView::Listing { messages, count } ==> {
            &&& count == messages@.len()
            &&& messages@.map_values(|m: ContactMessage| m@) == match store {
                Some(s) => newest_first(s@),
                None => Seq::empty(),
            }
        },
{
    if !session.is_authenticated() {
        return DashboardView::RedirectToLogin;
    }
    let messages = match store {
        Some(s) => s.list_all(),
        None => {
            let v: Vec<ContactMessage> = Vec::new();
            assert(v@.map_values(|m: ContactMessage| m@) =~= Seq::empty());
            v
        },
    };
    let count = messages.len();
    DashboardView::Listing { messages, count }
}

} // verus!
