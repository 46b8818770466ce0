//! The session gate: a fixed administrator credential and the two states a
//! visitor's session can be in.

use vstd::prelude::*;

verus! {

/// Whether a visitor has logged in as the administrator.
#[derive(Clone, Copy, Debug, PartialEq, Eq, Structural)]
pub enum Session {
    Anonymous,
    Authenticated,
}

/// Whether two strings hold the same characters, found by looking at every
/// position even after a difference, so that the time taken does not tell
/// how long a matching prefix was.
pub fn same_text(a: &str, b: &str) -> (r: bool)
    ensures
        r == (a@ == b@),
{
    let n = a.unicode_len();
    if n != b.unicode_len() {
        return false;
    }
    let mut same = true;
    let mut i: usize = 0;
    while i < n
        invariant
            n == a@.len(),
            n == b@.len(),
            i <= n,
            same == forall|k: int| 0 <= k < i ==> a@[k] == b@[k],
        decreases n - i,
    {
        let eq = a.get_char(i) == b.get_char(i);
        same = same && eq;
        i = i + 1;
    }
    proof {
        if same {
            assert(a@ =~= b@);
        }
    }
    same
}

/// The administrator's email address and password, fixed for the life of
/// the process.
pub struct AdminCredential {
    email: String,
    password: String,
}

impl View for AdminCredential {
    type V = (Seq<char>, Seq<char>);

    closed spec fn view(&self) -> (Seq<char>, Seq<char>) {
        (self.email@, self.password@)
    }
}

impl AdminCredential {
    /// The credential `(email, password)`.
    pub fn new(email: String, password: String) -> (r: Self)
        ensures
            r@ == (email@, password@),
    {
        AdminCredential { email, password }
    }

    /// Whether this credential is configured: neither part is empty.
    pub fn is_configured(&self) -> (r: bool)
        ensures
            r == (self@.0.len() > 0 && self@.1.len() > 0),
    {
        !self.email.as_str().is_empty() && !self.password.as_str().is_empty()
    }

    /// Whether `(email, password)` is exactly this credential, case and
    /// all, and the credential is configured.
    pub fn matches(&self, email: &str, password: &str) -> (r: bool)
        ensures
            r == accepts(self@, email@, password@),
    {
        let configured = self.is_configured();
        let e = same_text(self.email.as_str(), email);
        let p = same_text(self.password.as_str(), password);
        configured && e && p
    }
}

/// Whether a login with `(email, password)` succeeds against `admin`. A
/// credential with an empty email or password is not configured, and
/// accepts nothing.
pub open spec fn accepts(admin: (Seq<char>, Seq<char>), email: Seq<char>, password: Seq<char>) -> bool {
    &&& admin.0.len() > 0
    &&& admin.1.len() > 0
    &&& email == admin.0
    &&& password == admin.1
}

/// The session after a login attempt: a matching credential authenticates,
/// anything else leaves the session as it was.
pub open spec fn after_login(
    session: Session,
    admin: (Seq<char>, Seq<char>),
    email: Seq<char>,
    password: Seq<char>,
) -> Session {
    if accepts(admin, email, password) {
        Session::Authenticated
    } else {
        session
    }
}

/// The session after a logout: always anonymous.
pub open spec fn after_logout(session: Session) -> Session {
    Session::Anonymous
}

/// Whether a session may see pages reserved to the administrator.
pub open spec fn may_enter(session: Session) -> bool {
    session == Session::Authenticated
}

/// Whether a cookie holding `value` opens a session under the secret
/// `key`: the key must be non-empty and the value must be exactly the key.
pub open spec fn opens(value: Seq<char>, key: Seq<char>) -> bool {
    key.len() > 0 && value == key
}

impl Session {
    /// Attempts a login; returns the new session and whether it was granted.
    pub fn login(self, admin: &AdminCredential, email: &str, password: &str) -> (r: (Session, bool))
        ensures
            r.1 == accepts(admin@, email@, password@),
            r.0 == after_login(self, admin@, email@, password@),
    {
        if admin.matches(email, password) {
            (Session::Authenticated, true)
        } else {
            (self, false)
        }
    }

    /// Ends the session, whatever state it was in.
    pub fn logout(self) -> (r: Session)
        ensures
            r == after_logout(self),
    {
        Session::Anonymous
    }

    /// Whether this session may see the dashboard.
    pub fn is_authenticated(&self) -> (r: bool)
        ensures
            r == may_enter(*self),
    {
        match self {
            Session::Authenticated => true,
            Session::Anonymous => false,
        }
    }

    /// The session that a cookie value stands for. Only a cookie holding
    /// exactly `key` opens one, and an empty key opens none.
    ///
    /// The cookie cannot be forged as long as `key` is a secret that the
    /// server chose at random and hands out only through `cookie_value`,
    /// that is only to a visitor whose login was granted.
    pub fn from_cookie(value: Option<&str>, key: &str) -> (r: Session)
        ensures
            r == Session::Authenticated <==> (value matches Some(v) && opens(v@, key@)),
    {
        match value {
            Some(v) => {
                if key.unicode_len() > 0 && same_text(v, key) {
                    Session::Authenticated
                } else {
                    Session::Anonymous
                }
            },
            None => Session::Anonymous,
        }
    }

    /// The cookie value that stands for this session: the secret `key` for
    /// an authenticated session, nothing for an anonymous one.
    pub fn cookie_value<'a>(&self, key: &'a str) -> (r: &'a str)
        ensures
            *self == Session::Authenticated ==> r@ == key@,
            *self == Session::Anonymous ==> r@.len() == 0,
    {
        match self {
            Session::Authenticated => key,
            Session::Anonymous => {
                proof {
                    reveal_strlit("");
                }
                ""
            },
        }
    }
}

} // verus!
