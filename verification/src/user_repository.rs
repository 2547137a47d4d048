use vstd::prelude::*;
use crate::errors::{unique_violation, DbError};
use crate::models::{Profile, RegisterPayload, User};
use crate::text::str_eq;

verus! {

/// The permitted lookup keys of `find_by`: a fixed enumeration instead of
/// an interpolated field name, so no caller-influenced string ever reaches
/// a query.
pub enum LookupField {
    Username,
    Email,
}

/// The users that are active in `s`, in store order.
pub open spec fn active_users(s: Seq<User>) -> Seq<User>
    decreases s.len(),
{
    if s.len() == 0 {
        Seq::empty()
    } else {
        active_users(s.drop_last()) + (if s.last().is_active() {
            seq![s.last()]
        } else {
            Seq::empty()
        })
    }
}

/// The credential store's user table: records are appended on
/// registration, field-updated on profile changes, and only ever "deleted"
/// by setting the soft-delete marker.
pub struct UserRepository {
    pub users: Vec<User>,
    pub next_id: i64,
}

impl UserRepository {
    /// Record ids are unique and below `next_id`, and no two active
    /// records share a username or a mail address.
    pub open spec fn wf(self) -> bool {
        &&& (forall|i: int, j: int|
            0 <= i < j < self.users@.len() ==> self.users@[i].id != self.users@[j].id)
        &&& (forall|i: int, j: int|
            0 <= i < j < self.users@.len() && self.users@[i].is_active()
                && self.users@[j].is_active() ==> self.users@[i].username@
                != self.users@[j].username@ && self.users@[i].email@ != self.users@[j].email@)
        &&& (forall|i: int| 0 <= i < self.users@.len() ==> self.users@[i].id < self.next_id)
    }

    /// Some active record carries this username.
    pub open spec fn spec_has_active_username(self, name: Seq<char>) -> bool {
        exists|i: int|
            0 <= i < self.users@.len() && self.users@[i].is_active() && self.users@[i].username@
                == name
    }

    /// Some active record carries this mail address.
    pub open spec fn spec_has_active_email(self, mail: Seq<char>) -> bool {
        exists|i: int|
            0 <= i < self.users@.len() && self.users@[i].is_active() && self.users@[i].email@
                == mail
    }

    /// Some active record carries this id.
    pub open spec fn spec_has_active_id(self, id: i64) -> bool {
        exists|i: int|
            0 <= i < self.users@.len() && self.users@[i].is_active() && self.users@[i].id == id
    }

    /// An empty table.
    pub fn new() -> (r: Self)
        ensures
            r.users@.len() == 0,
            r.next_id == 1,
            r.wf(),
    {
        UserRepository { users: Vec::new(), next_id: 1 }
    }

    /// The active record with this username, if any.
    pub fn find_by_username(&self, username: &str) -> (r: Option<User>)
        ensures
            match r {
                Some(u) => self.users@.contains(u) && u.is_active() && u.username@ == username@,
                None => !self.spec_has_active_username(username@),
            },
    {
        let n = self.users.len();
        let mut i: usize = 0;
        while i < n
            invariant
                0 <= i <= n,
                n == self.users@.len(),
                forall|j: int|
                    0 <= j < i ==> !(self.users@[j].is_active() && self.users@[j].username@
                        == username@),
            decreases n - i,
        {
            if self.users[i].deleted_at.is_none() && str_eq(
                self.users[i].username.as_str(),
                username,
            ) {
                return Some(self.users[i].clone());
            }
            i += 1;
        }
        None
    }

    /// The active record with this mail address, if any.
    pub fn find_by_email(&self, email: &str) -> (r: Option<User>)
        ensures
            match r {
                Some(u) => self.users@.contains(u) && u.is_active() && u.email@ == email@,
                None => !self.spec_has_active_email(email@),
            },
    {
        let n = self.users.len();
        let mut i: usize = 0;
        while i < n
            invariant
                0 <= i <= n,
                n == self.users@.len(),
                forall|j: int|
                    0 <= j < i ==> !(self.users@[j].is_active() && self.users@[j].email@
                        == email@),
            decreases n - i,
        {
            if self.users[i].deleted_at.is_none() && str_eq(self.users[i].email.as_str(), email) {
                return Some(self.users[i].clone());
            }
            i += 1;
        }
        None
    }

    /// The active record with this id, if any.
    pub fn find_by_id(&self, id: i64) -> (r: Option<User>)
        ensures
            match r {
                Some(u) => self.users@.contains(u) && u.is_active() && u.id == id,
                None => !self.spec_has_active_id(id),
            },
    {
        let n = self.users.len();
        let mut i: usize = 0;
        while i < n
            invariant
                0 <= i <= n,
                n == self.users@.len(),
                forall|j: int|
                    0 <= j < i ==> !(self.users@[j].is_active() && self.users@[j].id == id),
            decreases n - i,
        {
            if self.users[i].deleted_at.is_none() && self.users[i].id == id {
                return Some(self.users[i].clone());
            }
            i += 1;
        }
        None
    }

    /// Lookup by one of the permitted keys.
    pub fn find_by(&self, field: LookupField, value: &str) -> (r: Option<User>)
        ensures
            match field {
                LookupField::Username => match r {
                    Some(u) => self.users@.contains(u) && u.is_active() && u.username@ == value@,
                    None => !self.spec_has_active_username(value@),
                },
                LookupField::Email => match r {
                    Some(u) => self.users@.contains(u) && u.is_active() && u.email@ == value@,
                    None => !self.spec_has_active_email(value@),
                },
            },
    {
        match field {
            LookupField::Username => self.find_by_username(value),
            LookupField::Email => self.find_by_email(value),
        }
    }

    /// The active record with this username or this mail address, if any:
    /// the duplicate probe of registration.
    pub fn find_by_username_or_email(&self, username: &str, email: &str) -> (r: Option<User>)
        ensures
            match r {
                Some(u) => self.users@.contains(u) && u.is_active() && (u.username@ == username@
                    || u.email@ == email@),
                None => !self.spec_has_active_username(username@) && !self.spec_has_active_email(
                    email@,
                ),
            },
    {
        let n = self.users.len();
        let mut i: usize = 0;
        while i < n
            invariant
                0 <= i <= n,
                n == self.users@.len(),
                forall|j: int|
                    0 <= j < i ==> !(self.users@[j].is_active() && (self.users@[j].username@
                        == username@ || self.users@[j].email@ == email@)),
            decreases n - i,
        {
            if self.users[i].deleted_at.is_none() && (str_eq(
                self.users[i].username.as_str(),
                username,
            ) || str_eq(self.users[i].email.as_str(), email)) {
                return Some(self.users[i].clone());
            }
            i += 1;
        }
        None
    }

    /// Every active record, in store order.
    pub fn find_all(&self) -> (r: Vec<User>)
        ensures
            r@ == active_users(self.users@),
    {
        let n = self.users.len();
        let mut out: Vec<User> = Vec::new();
        let mut i: usize = 0;
        while i < n
            invariant
                0 <= i <= n,
                n == self.users@.len(),
                out@ == active_users(self.users@.take(i as int)),
            decreases n - i,
        {
            if self.users[i].deleted_at.is_none() {
                out.push(self.users[i].clone());
            }
            proof {
                assert(self.users@.take(i + 1).drop_last() =~= self.users@.take(i as int));
                assert(self.users@.take(i + 1).last() == self.users@[i as int]);
            }
            i += 1;
        }
        proof {
            assert(self.users@.take(n as int) =~= self.users@);
        }
        out
    }

    /// Creates a user from a registration payload and an already-computed
    /// password hash. A username or mail address already taken by an
    /// active user yields the unique-violation error and leaves the table
    /// exactly as it was: a conflict, never a duplicate row.
    pub fn create(&mut self, data: &RegisterPayload, password_hash: &str) -> (r: Result<
        User,
        DbError,
    >)
        requires
            old(self).wf(),
            old(self).next_id < i64::MAX,
        ensures
            final(self).wf(),
            match r {
                Ok(u) => {
                    &&& !old(self).spec_has_active_username(data.username@)
                    &&& !old(self).spec_has_active_email(data.email@)
                    &&& u.id == old(self).next_id
                    &&& u.first_name == data.first_name
                    &&& u.last_name == data.last_name
                    &&& u.username == data.username
                    &&& u.email == data.email
                    &&& u.password_hash@ == password_hash@
                    &&& u.title == data.title
                    &&& u.image == data.image
                    &&& u.phone == data.phone
                    &&& u.role_id == 2
                    &&& u.is_active()
                    &&& final(self).users@ == old(self).users@.push(u)
                    &&& final(self).next_id == old(self).next_id + 1
                },
                Err(e) => {
                    &&& old(self).spec_has_active_username(data.username@) || old(
                        self,
                    ).spec_has_active_email(data.email@)
                    &&& *final(self) == *old(self)
                    &&& (e matches DbError::Database(c) && c matches Some(code) && code@
                        == crate::errors::spec_unique_violation_code())
                },
            },
    {
        if self.find_by_username_or_email(data.username.as_str(), data.email.as_str()).is_some() {
            return Err(unique_violation());
        }
        let user = User {
            id: self.next_id,
            first_name: data.first_name.clone(),
            last_name: data.last_name.clone(),
            username: data.username.clone(),
            email: data.email.clone(),
            password_hash: password_hash.to_owned(),
            title: data.title.clone(),
            image: data.image.clone(),
            phone: data.phone.clone(),
            role_id: 2,
            deleted_at: None,
        };
        let result = user.clone();
        self.users.push(user);
        self.next_id = self.next_id + 1;
        proof {
            assert forall|i: int, j: int|
                0 <= i < j < self.users@.len() && self.users@[i].is_active()
                    && self.users@[j].is_active() implies self.users@[i].username@
                != self.users@[j].username@ && self.users@[i].email@ != self.users@[j].email@ by {
                if j == self.users@.len() - 1 {
                    assert(!(old(self).users@[i].is_active() && old(self).users@[i].username@
                        == result.username@));
                    assert(!(old(self).users@[i].is_active() && old(self).users@[i].email@
                        == result.email@));
                }
            }
        }
        Ok(result)
    }

    /// Updates the identity fields of the active record with the profile's
    /// id. A missing record yields the not-found error; a username or mail
    /// address held by another active user yields the unique violation.
    /// Either failure leaves the table exactly as it was.
    pub fn update(&mut self, data: &Profile) -> (r: Result<User, DbError>)
        requires
            old(self).wf(),
        ensures
            final(self).wf(),
            final(self).next_id == old(self).next_id,
            match r {
                Ok(u) => {
                    exists|i: int|
                        {
                            &&& 0 <= i < old(self).users@.len()
                            &&& old(self).users@[i].is_active()
                            &&& old(self).users@[i].id == data.id
                            &&& u == (User {
                                first_name: data.first_name,
                                last_name: data.last_name,
                                username: data.username,
                                email: data.email,
                                title: data.title,
                                image: data.image,
                                phone: data.phone,
                                ..old(self).users@[i]
                            })
                            &&& final(self).users@ == old(self).users@.update(i, u)
                        }
                },
                Err(DbError::RowNotFound) => {
                    &&& !old(self).spec_has_active_id(data.id)
                    &&& final(self).users@ == old(self).users@
                },
                Err(_) => final(self).users@ == old(self).users@,
            },
    {
        let n = self.users.len();
        // the unique-constraint probe: another active record with the
        // requested username or mail address
        let mut k: usize = 0;
        while k < n
            invariant
                old(self).wf(),
                0 <= k <= n,
                n == self.users@.len(),
                self.users@ == old(self).users@,
                self.next_id == old(self).next_id,
                forall|j: int|
                    0 <= j < k ==> !(old(self).users@[j].is_active() && old(self).users@[j].id
                        != data.id && (old(self).users@[j].username@ == data.username@ || old(
                        self,
                    ).users@[j].email@ == data.email@)),
            decreases n - k,
        {
            if self.users[k].deleted_at.is_none() && self.users[k].id != data.id && (str_eq(
                self.users[k].username.as_str(),
                data.username.as_str(),
            ) || str_eq(self.users[k].email.as_str(), data.email.as_str())) {
                return Err(unique_violation());
            }
            k += 1;
        }
        let mut i: usize = 0;
        while i < n
            invariant
                old(self).wf(),
                0 <= i <= n,
                n == self.users@.len(),
                self.users@ == old(self).users@,
                self.next_id == old(self).next_id,
                forall|j: int|
                    0 <= j < n ==> !(old(self).users@[j].is_active() && old(self).users@[j].id
                        != data.id && (old(self).users@[j].username@ == data.username@ || old(
                        self,
                    ).users@[j].email@ == data.email@)),
                forall|j: int|
                    0 <= j < i ==> !(old(self).users@[j].is_active() && old(self).users@[j].id
                        == data.id),
            decreases n - i,
        {
            if self.users[i].deleted_at.is_none() && self.users[i].id == data.id {
                proof {
                    assert(old(self).users@[i as int].id == data.id);
                    assert(old(self).users@[i as int].is_active());
                }
                self.users[i].first_name = data.first_name.clone();
                self.users[i].last_name = data.last_name.clone();
                self.users[i].username = data.username.clone();
                self.users[i].email = data.email.clone();
                self.users[i].title = data.title.clone();
                self.users[i].image = data.image.clone();
                self.users[i].phone = data.phone.clone();
                let updated = self.users[i].clone();
                proof {
                    assert(self.users@ =~= old(self).users@.update(i as int, updated));
                    assert forall|p: int, q: int|
                        0 <= p < q < self.users@.len() && self.users@[p].is_active()
                            && self.users@[q].is_active() implies self.users@[p].username@
                        != self.users@[q].username@ && self.users@[p].email@
                        != self.users@[q].email@ by {
                        if p == i {
                            assert(old(self).users@[q].id != old(self).users@[i as int].id);
                            assert(self.users@[q] == old(self).users@[q]);
                        }
                        if q == i {
                            assert(old(self).users@[p].id != old(self).users@[i as int].id);
                            assert(self.users@[p] == old(self).users@[p]);
                        }
                        if p != i && q != i {
                            assert(self.users@[p] == old(self).users@[p]);
                            assert(self.users@[q] == old(self).users@[q]);
                        }
                    }
                }
                return Ok(updated);
            }
            i += 1;
        }
        Err(DbError::RowNotFound)
    }

    /// Soft-deletes the active record with this id: only the marker is
    /// set, nothing is removed, and no marker is ever cleared.
    pub fn delete(&mut self, id: i64, now: i64) -> (r: bool)
        requires
            old(self).wf(),
        ensures
            final(self).wf(),
            final(self).users@.len() == old(self).users@.len(),
            final(self).next_id == old(self).next_id,
            r == old(self).spec_has_active_id(id),
            forall|i: int|
                0 <= i < old(self).users@.len() ==> final(self).users@[i] == (if old(
                    self,
                ).users@[i].is_active() && old(self).users@[i].id == id {
                    (User { deleted_at: Some(now), ..old(self).users@[i] })
                } else {
                    old(self).users@[i]
                }),
    {
        let n = self.users.len();
        let mut i: usize = 0;
        let mut affected = false;
        while i < n
            invariant
                0 <= i <= n,
                n == self.users@.len(),
                self.users@.len() == old(self).users@.len(),
                self.next_id == old(self).next_id,
                affected == exists|j: int|
                    0 <= j < i && old(self).users@[j].is_active() && old(self).users@[j].id == id,
                forall|j: int|
                    0 <= j < i ==> self.users@[j] == (if old(self).users@[j].is_active() && old(
                        self,
                    ).users@[j].id == id {
                        (User { deleted_at: Some(now), ..old(self).users@[j] })
                    } else {
                        old(self).users@[j]
                    }),
                forall|j: int| i <= j < n ==> self.users@[j] == old(self).users@[j],
            decreases n - i,
        {
            if self.users[i].deleted_at.is_none() && self.users[i].id == id {
                self.users[i].deleted_at = Some(now);
                affected = true;
            }
            i += 1;
        }
        affected
    }
}

} // verus!
