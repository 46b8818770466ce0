//! The message store: contact submissions kept in the order they were
//! committed, each with an identifier handed out in increasing order.

use vstd::prelude::*;

verus! {

/// A committed contact submission.
pub struct ContactMessage {
    pub id: u64,
    pub name: String,
    pub email: String,
    pub message: String,
    /// Seconds since the Unix epoch at which the store accepted it.
    pub created_at: u64,
}

/// The mathematical content of a `ContactMessage`.
pub struct MessageModel {
    pub id: nat,
    pub name: Seq<char>,
    pub email: Seq<char>,
    pub message: Seq<char>,
    pub created_at: nat,
}

impl View for ContactMessage {
    type V = MessageModel;

    open spec fn view(&self) -> MessageModel {
        MessageModel {
            id: self.id as nat,
            name: self.name@,
            email: self.email@,
            message: self.message@,
            created_at: self.created_at as nat,
        }
    }
}

impl Clone for ContactMessage {
    fn clone(&self) -> (r: Self)
        ensures
            r@ == self@,
    {
        ContactMessage {
            id: self.id,
            name: self.name.clone(),
            email: self.email.clone(),
            message: self.message.clone(),
            created_at: self.created_at,
        }
    }
}

/// Why the store could not do what was asked.
#[derive(Clone, Copy, Debug, PartialEq, Eq, Structural)]
pub enum StorageError {
    /// The store could not be reached.
    Unavailable,
    /// Every identifier has been handed out; nothing more can be written.
    Exhausted,
}

/// The largest number of messages a store can hold.
pub const CAPACITY: u64 = 0xffff_ffff_ffff_fffe;

/// The rows of `rows`, newest first.
pub open spec fn newest_first(rows: Seq<MessageModel>) -> Seq<MessageModel> {
    Seq::new(rows.len(), |i: int| rows[rows.len() - 1 - i])
}

/// The row that a successful insert appends after `len` earlier rows.
pub open spec fn new_row(
    len: nat,
    name: Seq<char>,
    email: Seq<char>,
    message: Seq<char>,
    created_at: nat,
) -> MessageModel {
    MessageModel { id: len + 1, name, email, message, created_at }
}

/// All contact submissions, oldest first.
pub struct ContactStore {
    rows: Vec<ContactMessage>,
}

impl View for ContactStore {
    type V = Seq<MessageModel>;

    closed spec fn view(&self) -> Seq<MessageModel> {
        self.rows@.map_values(|m: ContactMessage| m@)
    }
}

impl ContactStore {
    /// Rows are numbered from 1 in the order they were committed, and the
    /// store never holds more than `CAPACITY` of them.
    pub open spec fn wf(&self) -> bool {
        &&& self@.len() <= CAPACITY
        &&& forall|i: int| 0 <= i < self@.len() ==> (#[trigger] self@[i]).id == i + 1
    }

    /// An empty store.
    pub fn new() -> (r: Self)
        ensures
            r.wf(),
            r@ == Seq::<MessageModel>::empty(),
    {
        let r = ContactStore { rows: Vec::new() };
        assert(r@ =~= Seq::<MessageModel>::empty());
        r
    }

    /// The number of committed messages.
    pub fn len(&self) -> (r: usize)
        ensures
            r == self@.len(),
    {
        self.rows.len()
    }

    /// Commits one message and returns its identifier. Fails, writing
    /// nothing, once the store is full.
    pub fn insert(&mut self, name: &str, email: &str, message: &str, created_at: u64) -> (r:
        Result<u64, StorageError>)
        requires
            old(self).wf(),
        ensures
            final(self).wf(),
            old(self)@.len() < CAPACITY <==> r is Ok,
            r matches Ok(id) ==> {
                &&& id == old(self)@.len() + 1
                &&& final(self)@ == old(self)@.push(
                    new_row(old(self)@.len(), name@, email@, message@, created_at as nat),
                )
            },
            r is Err ==> final(self)@ == old(self)@ && r == Err::<u64, _>(StorageError::Exhausted),
    {
        let len = self.rows.len();
        if len as u64 >= CAPACITY {
            return Err(StorageError::Exhausted);
        }
        let id = len as u64 + 1;
        let row = ContactMessage {
            id,
            name: name.to_string(),
            email: email.to_string(),
            message: message.to_string(),
            created_at,
        };
        self.rows.push(row);
        proof {
            assert(self@ =~= old(self)@.push(
                new_row(old(self)@.len(), name@, email@, message@, created_at as nat),
            ));
        }
        Ok(id)
    }

    /// Every committed message, newest first.
    pub fn list_all(&self) -> (r: Vec<ContactMessage>)
        requires
            self.wf(),
        ensures
            r@.map_values(|m: ContactMessage| m@) == newest_first(self@),
    {
        let n = self.rows.len();
        let mut out: Vec<ContactMessage> = Vec::new();
        let mut i: usize = n;
        while i > 0
            invariant
                i <= n,
                n == self@.len(),
                out@.len() == n - i,
                forall|k: int| 0 <= k < n - i ==> (#[trigger] out@[k])@ == self@[n - 1 - k],
            decreases i,
        {
            i = i - 1;
            out.push(self.rows[i].clone());
        }
        assert(out@.map_values(|m: ContactMessage| m@) =~= newest_first(self@));
        out
    }
}

} // verus!
