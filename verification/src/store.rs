//! The user store port: the two lookups and the one insert that
//! authentication needs, together with a fully verified in-memory
//! implementation that keeps emails unique.

use vstd::prelude::*;
use vstd::string::StringExecFns;

use crate::domain::{DomainError, DomainErrorView, User, UserView};

verus! {

/// Whether some user in `users` carries the given email.
pub open spec fn has_email(users: Seq<UserView>, email: Seq<char>) -> bool {
    exists|i: int| 0 <= i < users.len() && #[trigger] users[i].email == email
}

/// Whether some user in `users` carries the given id.
pub open spec fn has_id(users: Seq<UserView>, id: Seq<char>) -> bool {
    exists|i: int| 0 <= i < users.len() && #[trigger] users[i].id == id
}

/// The store invariant: no two stored users share an email.
pub open spec fn emails_unique(users: Seq<UserView>) -> bool {
    forall|i: int, j: int|
        0 <= i < j < users.len() ==> #[trigger] users[i].email != #[trigger] users[j].email
}

/// Pushing a user whose email is not yet present keeps emails unique.
pub proof fn lemma_unique_after_push(users: Seq<UserView>, u: UserView)
    requires
        emails_unique(users),
        !has_email(users, u.email),
    ensures
        emails_unique(users.push(u)),
{
    let pushed = users.push(u);
    assert forall|i: int, j: int|
        0 <= i < j < pushed.len() implies #[trigger] pushed[i].email != #[trigger] pushed[j].email by {
        if j == users.len() {
            assert(pushed[i] == users[i]);
            assert(users[i].email != u.email);
        } else {
            assert(pushed[i] == users[i]);
            assert(pushed[j] == users[j]);
        }
    }
}

/// Whether a store engine's error code is the unique-key-violation code
/// that Postgres reports for a duplicate insert.
pub open spec fn spec_unique_violation(code: Option<&String>) -> bool {
    code matches Some(c) && c@ == "23505"@
}

/// Recognise a unique-key violation from the engine's error code.
pub fn is_unique_violation(code: Option<&String>) -> (r: bool)
    ensures
        r == spec_unique_violation(code),
{
    match code {
        Some(c) => *c == String::from_str("23505"),
        None => false,
    }
}

/// Classify a store engine failure from its plain parts — the engine's
/// error code, whether the row was simply missing, the entity involved,
/// and the engine's own text: a unique-key violation is a conflict, a
/// missing row is not-found, and everything else is internal.
pub fn map_store_error(
    code: Option<&String>,
    row_missing: bool,
    entity: &'static str,
    detail: String,
) -> (r: DomainError)
    ensures
        spec_unique_violation(code) ==> r@ == DomainErrorView::Conflict(
            entity@ + " already exists"@,
        ),
        !spec_unique_violation(code) && row_missing ==> r@ == (DomainErrorView::NotFound {
            entity: entity@,
            id: "unknown"@,
        }),
        !spec_unique_violation(code) && !row_missing ==> r@ == DomainErrorView::Internal(detail@),
{
    if is_unique_violation(code) {
        DomainError::conflict(String::from_str(entity).concat(" already exists"))
    } else if row_missing {
        DomainError::not_found(entity, String::from_str("unknown"))
    } else {
        DomainError::internal(detail)
    }
}

/// Port to the persistent user store: lookup by email, lookup by id, and
/// insertion that fails on a duplicate email. A store may also fail
/// internally (connectivity and the like), but never changes its contents
/// when it fails.
pub trait UserRepository {
    /// The stored users, for specifications only.
    spec fn users(&self) -> Seq<UserView>;

    /// Find the user carrying `email`, if any.
    fn find_by_email(&self, email: &String) -> (r: Result<Option<User>, DomainError>)
        ensures
            match r {
                Ok(found) => match found {
                    Some(u) => self.users().contains(u@) && u@.email == email@,
                    None => !has_email(self.users(), email@),
                },
                Err(e) => e@ is Internal,
            },
    ;

    /// Find the user carrying `id`, if any.
    fn find_by_id(&self, id: &String) -> (r: Result<Option<User>, DomainError>)
        ensures
            match r {
                Ok(found) => match found {
                    Some(u) => self.users().contains(u@) && u@.id == id@,
                    None => !has_id(self.users(), id@),
                },
                Err(e) => e@ is Internal,
            },
    ;

    /// Persist a new user. Succeeds exactly by appending the user; fails
    /// with a conflict when the email is already taken, and changes nothing
    /// when it fails.
    fn create(&mut self, user: &User) -> (r: Result<User, DomainError>)
        ensures
            match r {
                Ok(created) => {
                    &&& !has_email(old(self).users(), user@.email)
                    &&& final(self).users() == old(self).users().push(user@)
                    &&& created@ == user@
                },
                Err(e) => {
                    &&& final(self).users() == old(self).users()
                    &&& (e@ is Conflict || e@ is Internal)
                    &&& (has_email(old(self).users(), user@.email) ==> e@ is Conflict)
                    &&& (!has_email(old(self).users(), user@.email) ==> e@ is Internal)
                },
            },
    ;
}

/// An in-memory user store: the reference implementation of the port, with
/// every contract proved rather than trusted.
#[derive(Debug)]
pub struct InMemoryUserRepository {
    users: Vec<User>,
}

impl InMemoryUserRepository {
    /// An empty store.
    pub fn new() -> (r: Self)
        ensures
            r.users() == Seq::<UserView>::empty(),
            emails_unique(r.users()),
    {
        let r = InMemoryUserRepository { users: Vec::new() };
        proof {
            assert(r.users() =~= Seq::<UserView>::empty());
        }
        r
    }

    /// How many users are stored.
    pub fn len(&self) -> (r: usize)
        ensures
            r == self.users().len(),
    {
        self.users.len()
    }
}

impl UserRepository for InMemoryUserRepository {
    closed spec fn users(&self) -> Seq<UserView> {
        self.users@.map_values(|u: User| u@)
    }

    fn find_by_email(&self, email: &String) -> (r: Result<Option<User>, DomainError>)
        ensures
            r is Ok,
    {
        let n = self.users.len();
        let mut i: usize = 0;
        while i < n
            invariant
                n == self.users.len(),
                i <= n,
                forall|k: int| 0 <= k < i ==> #[trigger] self.users()[k].email != email@,
            decreases n - i,
        {
            let u = &self.users[i];
            if u.email == *email {
                proof {
                    assert(self.users().contains(u@)) by {
                        assert(self.users()[i as int] == u@);
                    }
                }
                return Ok(Some(u.clone()));
            }
            i += 1;
        }
        Ok(None)
    }

    fn find_by_id(&self, id: &String) -> (r: Result<Option<User>, DomainError>)
        ensures
            r is Ok,
    {
        let n = self.users.len();
        let mut i: usize = 0;
        while i < n
            invariant
                n == self.users.len(),
                i <= n,
                forall|k: int| 0 <= k < i ==> #[trigger] self.users()[k].id != id@,
            decreases n - i,
        {
            let u = &self.users[i];
            if u.id == *id {
                proof {
                    assert(self.users().contains(u@)) by {
                        assert(self.users()[i as int] == u@);
                    }
                }
                return Ok(Some(u.clone()));
            }
            i += 1;
        }
        Ok(None)
    }

    fn create(&mut self, user: &User) -> (r: Result<User, DomainError>)
        ensures
            !has_email(old(self).users(), user@.email) ==> r is Ok,
            r matches Err(e) ==> e@ == DomainErrorView::Conflict("User already exists"@),
    {
        let n = self.users.len();
        let mut i: usize = 0;
        while i < n
            invariant
                self == old(self),
                n == self.users.len(),
                i <= n,
                forall|k: int| 0 <= k < i ==> #[trigger] self.users()[k].email != user@.email,
            decreases n - i,
        {
            let u = &self.users[i];
            if u.email == user.email {
                proof {
                    assert(has_email(self.users(), user@.email)) by {
                        assert(self.users()[i as int].email == user@.email);
                    }
                }
                return Err(DomainError::conflict(String::from_str("User already exists")));
            }
            i += 1;
        }
        let created = user.clone();
        self.users.push(created);
        proof {
            assert(self.users() =~= old(self).users().push(user@));
        }
        Ok(user.clone())
    }
}

}
