use vstd::prelude::*;
use crate::users::{NewUser, Timestamp, User};

verus! {

/// The failures that a store reports, classified.
#[derive(Clone, Copy, Debug, PartialEq, Eq, Structural)]
pub enum StoreError {
    /// No row has the requested identifier.
    NotFound,
    /// The email is already taken by another row.
    Conflict,
    /// Any other fault of the store.
    Failure,
}

/// The user with identifier `id`, searching from the newest row.
pub open spec fn find_user(rows: Seq<User>, id: u128) -> Option<User>
    decreases rows.len(),
{
    if rows.len() == 0 {
        None
    } else if rows.last().id == id {
        Some(rows.last())
    } else {
        find_user(rows.drop_last(), id)
    }
}

/// Some row already holds this email.
pub open spec fn email_taken(rows: Seq<User>, email: Seq<char>) -> bool {
    exists|k: int| 0 <= k < rows.len() && (#[trigger] rows[k]).email@ == email
}

/// The rows, newest first.
pub open spec fn newest_first(rows: Seq<User>) -> Seq<User> {
    Seq::new(rows.len(), |k: int| rows[rows.len() - 1 - k])
}

/// A row with this identifier is absent, so nothing is found for it.
pub proof fn lemma_absent_not_found(rows: Seq<User>, id: u128)
    requires
        forall|k: int| 0 <= k < rows.len() ==> (#[trigger] rows[k]).id != id,
    ensures
        find_user(rows, id) is None,
    decreases rows.len(),
{
    if rows.len() > 0 {
        assert(rows.last() == rows[rows.len() - 1]);
        let rest = rows.drop_last();
        assert forall|k: int| 0 <= k < rest.len() implies (#[trigger] rest[k]).id != id by {
            assert(rest[k] == rows[k]);
        }
        lemma_absent_not_found(rest, id);
    }
}

/// A user just added to the store is what a fetch by its identifier returns.
pub proof fn lemma_created_user_is_found(rows: Seq<User>, u: User)
    ensures
        find_user(rows.push(u), u.id) == Some(u),
{
    assert(rows.push(u).last() == u);
}

/// Once a user is stored, its email is taken, so a second creation with the
/// same email is refused as a conflict, and the first user stays retrievable.
pub proof fn lemma_duplicate_email_conflicts(rows: Seq<User>, u: User)
    ensures
        email_taken(rows.push(u), u.email@),
        find_user(rows.push(u), u.id) == Some(u),
{
    let s = rows.push(u);
    assert(s[rows.len() as int] == u);
    lemma_created_user_is_found(rows, u);
}

/// An in-memory user store: rows in order of creation, unique emails, and
/// identifiers handed out in increasing order.
pub struct MemoryStore {
    rows: Vec<User>,
    next_id: u128,
}

impl View for MemoryStore {
    type V = Seq<User>;

    closed spec fn view(&self) -> Seq<User> {
        self.rows@
    }
}

impl MemoryStore {
    pub closed spec fn wf(&self) -> bool {
        &&& forall|k: int| 0 <= k < self.rows@.len() ==> (#[trigger] self.rows@[k]).id < self.next_id
        &&& forall|j: int, k: int|
            0 <= j < k < self.rows@.len() ==> (#[trigger] self.rows@[j]).email@
                != (#[trigger] self.rows@[k]).email@
    }

    /// Every identifier has been handed out.
    pub closed spec fn exhausted(&self) -> bool {
        self.next_id == u128::MAX
    }

    pub fn new() -> (r: MemoryStore)
        ensures
            r.wf(),
            r@ == Seq::<User>::empty(),
            !r.exhausted(),
    {
        MemoryStore { rows: Vec::new(), next_id: 1 }
    }

    /// All users, newest first. An empty store gives an empty list.
    pub fn list(&self) -> (r: Vec<User>)
        ensures
            r@ == newest_first(self@),
    {
        let n = self.rows.len();
        let mut out: Vec<User> = Vec::new();
        let mut k: usize = 0;
        while k < n
            invariant
                n == self.rows@.len(),
                k <= n,
                out@.len() == k,
                forall|i: int| 0 <= i < k ==> out@[i] == self.rows@[n - 1 - i],
            decreases n - k,
        {
            out.push(self.rows[n - 1 - k].copy());
            k = k + 1;
        }
        assert(out@ =~= newest_first(self@));
        out
    }

    /// The user with this identifier, or the not-found signal.
    pub fn get(&self, id: u128) -> (r: Result<User, StoreError>)
        ensures
            match find_user(self@, id) {
                Some(u) => r == Ok::<User, StoreError>(u),
                None => r == Err::<User, StoreError>(StoreError::NotFound),
            },
    {
        let mut i: usize = self.rows.len();
        assert(self.rows@.subrange(0, i as int) =~= self.rows@);
        while i > 0
            invariant
                i <= self.rows@.len(),
                find_user(self.rows@, id) == find_user(self.rows@.subrange(0, i as int), id),
            decreases i,
        {
            let ghost before = self.rows@.subrange(0, i as int);
            assert(before.drop_last() =~= self.rows@.subrange(0, i - 1));
            i = i - 1;
            if self.rows[i].id == id {
                return Ok(self.rows[i].copy());
            }
        }
        assert(self.rows@.subrange(0, 0) =~= Seq::<User>::empty());
        Err(StoreError::NotFound)
    }

    /// Whether some row holds this email.
    pub fn has_email(&self, email: &String) -> (r: bool)
        ensures
            r == email_taken(self@, email@),
    {
        let n = self.rows.len();
        let mut k: usize = 0;
        while k < n
            invariant
                n == self.rows@.len(),
                k <= n,
                forall|j: int| 0 <= j < k ==> (#[trigger] self.rows@[j]).email@ != email@,
            decreases n - k,
        {
            if self.rows[k].email == *email {
                return true;
            }
            k = k + 1;
        }
        false
    }

    /// Stores a new user with a fresh identifier and the given creation time.
    /// A taken email is a conflict, and the store is left as it was.
    pub fn create(&mut self, new: &NewUser, now: Timestamp) -> (r: Result<User, StoreError>)
        requires
            old(self).wf(),
        ensures
            final(self).wf(),
            email_taken(old(self)@, new.email@) ==> r == Err::<User, StoreError>(
                StoreError::Conflict,
            ) && final(self)@ == old(self)@,
            !email_taken(old(self)@, new.email@) && old(self).exhausted() ==> r == Err::<
                User,
                StoreError,
            >(StoreError::Failure) && final(self)@ == old(self)@,
            !email_taken(old(self)@, new.email@) && !old(self).exhausted() ==> (r matches Ok(u) && {
                &&& u.name@ == new.name@
                &&& u.email@ == new.email@
                &&& u.created_at == now
                &&& find_user(old(self)@, u.id) is None
                &&& final(self)@ == old(self)@.push(u)
            }),
    {
        if self.has_email(&new.email) {
            return Err(StoreError::Conflict);
        }
        if self.next_id == u128::MAX {
            return Err(StoreError::Failure);
        }
        let u = User {
            id: self.next_id,
            name: new.name.clone(),
            email: new.email.clone(),
            created_at: now,
        };
        proof {
            lemma_absent_not_found(self.rows@, u.id);
        }
        let ghost before = self.rows@;
        self.rows.push(u.copy());
        self.next_id = self.next_id + 1;
        proof {
            assert forall|j: int, k: int|
                0 <= j < k < self.rows@.len() implies (#[trigger] self.rows@[j]).email@
                    != (#[trigger] self.rows@[k]).email@ by {
                if k == before.len() {
                    assert(self.rows@[j] == before[j]);
                }
            }
        }
        Ok(u)
    }
}

} // verus!
