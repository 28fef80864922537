//! An in-memory user store. It keeps the uniqueness invariant itself —
//! no two users share an id, a nickname or an email — the way a unique
//! index does in a relational store, and it is the authoritative check:
//! the friendlier pre-checks of the account service are an optimization,
//! not the enforcement.

use vstd::prelude::*;

use crate::domain::password::{hash_password, password_matches, wellformed_hash};
use crate::domain::user::{public_of, NewUserPayload, PublicUser, UpdateUserPayload, User, UserModel};
use crate::repositories::error::{HashingFault, RepositoryError};

verus! {

/// No two records share an id, a nickname or an email.
pub open spec fn wf_seq(s: Seq<UserModel>) -> bool {
    forall|i: int, j: int| #![trigger s[i], s[j]]
        0 <= i < j < s.len() ==> s[i].id != s[j].id && s[i].nickname != s[j].nickname && s[i].email
            != s[j].email
}

/// In a well-formed sequence any two distinct records differ in id,
/// nickname and email.
pub proof fn lemma_wf_distinct(s: Seq<UserModel>, i: int, j: int)
    requires
        wf_seq(s),
        0 <= i < s.len(),
        0 <= j < s.len(),
        i != j,
    ensures
        s[i].id != s[j].id,
        s[i].nickname != s[j].nickname,
        s[i].email != s[j].email,
{
    if i < j {
        assert(s[i].id != s[j].id && s[i].nickname != s[j].nickname && s[i].email != s[j].email);
    } else {
        assert(s[j].id != s[i].id && s[j].nickname != s[i].nickname && s[j].email != s[i].email);
    }
}

/// Every record's password field holds a well-formed hash: creation
/// stores only the hasher's output and no update touches the password,
/// so a stored hash is always usable for verification.
pub open spec fn hashes_wellformed(s: Seq<UserModel>) -> bool {
    forall|i: int| 0 <= i < s.len() ==> wellformed_hash(#[trigger] s[i].password)
}

/// Some record holds the id.
pub open spec fn has_id(s: Seq<UserModel>, id: u128) -> bool {
    exists|i: int| 0 <= i < s.len() && s[i].id == id
}

/// Some record holds the nickname.
pub open spec fn has_nickname(s: Seq<UserModel>, nickname: Seq<char>) -> bool {
    exists|i: int| 0 <= i < s.len() && s[i].nickname == nickname
}

/// Some record holds the email.
pub open spec fn has_email(s: Seq<UserModel>, email: Seq<char>) -> bool {
    exists|i: int| 0 <= i < s.len() && s[i].email == email
}

/// Some record other than the one with id `id` holds the nickname.
pub open spec fn has_other_nickname(s: Seq<UserModel>, id: u128, nickname: Seq<char>) -> bool {
    exists|i: int| 0 <= i < s.len() && s[i].id != id && s[i].nickname == nickname
}

/// The index of the record with id `id`; meaningful when `has_id` holds.
pub open spec fn id_index(s: Seq<UserModel>, id: u128) -> int {
    choose|i: int| 0 <= i < s.len() && s[i].id == id
}

/// The record with id `id`; meaningful when `has_id` holds.
pub open spec fn user_by_id(s: Seq<UserModel>, id: u128) -> UserModel {
    s[id_index(s, id)]
}

/// The record with the nickname; meaningful when `has_nickname` holds.
pub open spec fn user_by_nickname(s: Seq<UserModel>, nickname: Seq<char>) -> UserModel {
    s[choose|i: int| 0 <= i < s.len() && s[i].nickname == nickname]
}

/// The record with the email; meaningful when `has_email` holds.
pub open spec fn user_by_email(s: Seq<UserModel>, email: Seq<char>) -> UserModel {
    s[choose|i: int| 0 <= i < s.len() && s[i].email == email]
}

/// In a well-formed sequence, a nickname is held by a user other than the
/// one with id `id` exactly when the nickname is present and its holder's
/// id differs from `id`.
pub proof fn lemma_other_nickname(s: Seq<UserModel>, id: u128, nickname: Seq<char>)
    requires
        wf_seq(s),
    ensures
        has_other_nickname(s, id, nickname) <==> (has_nickname(s, nickname) && user_by_nickname(
            s,
            nickname,
        ).id != id),
{
    if has_other_nickname(s, id, nickname) {
        let i = choose|i: int| 0 <= i < s.len() && s[i].id != id && s[i].nickname == nickname;
        assert(has_nickname(s, nickname));
        let c = choose|i: int| 0 <= i < s.len() && s[i].nickname == nickname;
        if c != i {
            lemma_wf_distinct(s, c, i);
        }
    }
    if has_nickname(s, nickname) && user_by_nickname(s, nickname).id != id {
        let c = choose|i: int| 0 <= i < s.len() && s[i].nickname == nickname;
        assert(0 <= c < s.len() && s[c].id != id && s[c].nickname == nickname);
    }
}

/// A record after a partial update: the supplied fields replace the old
/// ones, identity and creation data stay, and the update time is
/// refreshed — also when no field was supplied.
pub open spec fn apply_update(u: UserModel, p: UpdateUserPayload, now: u64) -> UserModel {
    UserModel {
        id: u.id,
        name: match p.name {
            Some(n) => Some(n@),
            None => u.name,
        },
        nickname: match p.nickname {
            Some(n) => n@,
            None => u.nickname,
        },
        email: u.email,
        password: u.password,
        bio: match p.bio {
            Some(b) => Some(b@),
            None => u.bio,
        },
        creation_time: u.creation_time,
        update_time: Some(now),
    }
}

proof fn lemma_wf_push(s: Seq<UserModel>, u: UserModel)
    requires
        wf_seq(s),
        !has_id(s, u.id),
        !has_nickname(s, u.nickname),
        !has_email(s, u.email),
    ensures
        wf_seq(s.push(u)),
{
    let t = s.push(u);
    assert forall|i: int, j: int| #![trigger t[i], t[j]] 0 <= i < j < t.len() implies t[i].id
        != t[j].id && t[i].nickname != t[j].nickname && t[i].email != t[j].email by {
        if j == s.len() {
            assert(t[i] == s[i]);
            assert(t[j] == u);
            assert(s[i].id != u.id);
            assert(s[i].nickname != u.nickname);
            assert(s[i].email != u.email);
        } else {
            assert(t[i] == s[i]);
            assert(t[j] == s[j]);
            lemma_wf_distinct(s, i, j);
        }
    }
}

proof fn lemma_wf_update(s: Seq<UserModel>, k: int, u: UserModel)
    requires
        wf_seq(s),
        0 <= k < s.len(),
        u.id == s[k].id,
        u.email == s[k].email,
        u.nickname == s[k].nickname || !has_other_nickname(s, u.id, u.nickname),
    ensures
        wf_seq(s.update(k, u)),
{
    let t = s.update(k, u);
    assert forall|i: int, j: int| #![trigger t[i], t[j]] 0 <= i < j < t.len() implies t[i].id
        != t[j].id && t[i].nickname != t[j].nickname && t[i].email != t[j].email by {
        if i != k && j != k {
            assert(t[i] == s[i] && t[j] == s[j]);
            lemma_wf_distinct(s, i, j);
        } else if i == k {
            assert(t[i] == u && t[j] == s[j]);
            lemma_wf_distinct(s, k, j);
            if u.nickname != s[k].nickname {
                assert(s[j].id != u.id);
                assert(!(s[j].id != u.id && s[j].nickname == u.nickname));
            }
        } else {
            assert(t[i] == s[i] && t[j] == u);
            lemma_wf_distinct(s, i, k);
            if u.nickname != s[k].nickname {
                assert(s[i].id != u.id);
                assert(!(s[i].id != u.id && s[i].nickname == u.nickname));
            }
        }
    }
}

proof fn lemma_wf_remove(s: Seq<UserModel>, k: int)
    requires
        wf_seq(s),
        0 <= k < s.len(),
    ensures
        wf_seq(s.remove(k)),
{
    let t = s.remove(k);
    s.remove_ensures(k);
    assert forall|i: int, j: int| #![trigger t[i], t[j]] 0 <= i < j < t.len() implies t[i].id
        != t[j].id && t[i].nickname != t[j].nickname && t[i].email != t[j].email by {
        let i0: int = if i < k { i } else { i + 1 };
        let j0: int = if j < k { j } else { j + 1 };
        assert(t[i] == s[i0] && t[j] == s[j0]);
        lemma_wf_distinct(s, i0, j0);
    }
}

/// Uniqueness under racing creates: once a create has succeeded — the
/// store grew by its record — the new nickname and email are present, so
/// a second create with the same nickname (or the same email) meets the
/// conflict clause of `create_user` and cannot also succeed.
pub proof fn lemma_create_uniqueness(s0: Seq<UserModel>, u: UserModel)
    ensures
        has_nickname(s0.push(u), u.nickname),
        has_email(s0.push(u), u.email),
{
    let s1 = s0.push(u);
    assert(s1[s0.len() as int] == u);
    assert(has_nickname(s1, u.nickname));
    assert(has_email(s1, u.email));
}

/// Round trip: after a create of a record whose nickname was free, a
/// fetch by that nickname finds exactly the created record — same
/// nickname and email — and its public projection carries no password
/// field at all.
pub proof fn lemma_create_then_fetch(s0: Seq<UserModel>, u: UserModel)
    requires
        !has_nickname(s0, u.nickname),
    ensures
        has_nickname(s0.push(u), u.nickname),
        user_by_nickname(s0.push(u), u.nickname) == u,
        public_of(user_by_nickname(s0.push(u), u.nickname)).nickname == u.nickname,
        public_of(user_by_nickname(s0.push(u), u.nickname)).email == u.email,
{
    let s1 = s0.push(u);
    assert(s1[s0.len() as int] == u);
    assert(has_nickname(s1, u.nickname));
    let c = choose|i: int| 0 <= i < s1.len() && s1[i].nickname == u.nickname;
    if c < s0.len() {
        assert(s0[c].nickname == u.nickname);
        assert(has_nickname(s0, u.nickname));
    }
    assert(s1[c] == u);
}

/// Update partiality: an update that supplies neither a name nor a
/// nickname — only a bio, or nothing — leaves the record's nickname and
/// email unchanged and still refreshes the update time.
pub proof fn lemma_update_partiality(u: UserModel, p: UpdateUserPayload, now: u64)
    requires
        p.name is None,
        p.nickname is None,
    ensures
        apply_update(u, p, now).nickname == u.nickname,
        apply_update(u, p, now).email == u.email,
        apply_update(u, p, now).update_time == Some(now),
{
}

/// The persistence of user records, with the uniqueness of id, nickname
/// and email as its invariant.
pub struct UserStore {
    users: Vec<User>,
}

impl View for UserStore {
    type V = Seq<UserModel>;

    closed spec fn view(&self) -> Seq<UserModel> {
        self.users.deep_view()
    }
}

impl UserStore {
    /// The store's invariant: no duplicated id, nickname or email, and
    /// every stored password hash well formed.
    pub open spec fn wf(self) -> bool {
        wf_seq(self@) && hashes_wellformed(self@)
    }

    /// Creates an empty store.
    pub fn new() -> (r: UserStore)
        ensures
            r.wf(),
            r@ == Seq::<UserModel>::empty(),
    {
        let r = UserStore { users: Vec::new() };
        assert(r@ =~= Seq::<UserModel>::empty());
        r
    }

    fn index_of_id(&self, id: u128) -> (r: Option<usize>)
        requires
            self.wf(),
        ensures
            match r {
                Some(k) => has_id(self@, id) && k == id_index(self@, id) && 0 <= k < self@.len()
                    && self@[k as int].id == id,
                None => !has_id(self@, id),
            },
    {
        let n = self.users.len();
        let mut k: usize = 0;
        while k < n
            invariant
                self.wf(),
                n == self@.len(),
                0 <= k <= n,
                forall|j: int| 0 <= j < k ==> #[trigger] self@[j].id != id,
            decreases n - k,
        {
            proof {
                assert(self@[k as int] == self.users@[k as int]@);
            }
            if self.users[k].id == id {
                proof {
                    assert(self@[k as int].id == id);
                    assert(has_id(self@, id));
                    let c = id_index(self@, id);
                    assert(0 <= c < self@.len() && self@[c].id == id);
                    if c != k {
                        lemma_wf_distinct(self@, c, k as int);
                    }
                }
                return Some(k);
            }
            k = k + 1;
        }
        None
    }

    fn index_of_nickname(&self, nickname: &String) -> (r: Option<usize>)
        requires
            self.wf(),
        ensures
            match r {
                Some(k) => has_nickname(self@, nickname@) && 0 <= k < self@.len()
                    && self@[k as int] == user_by_nickname(self@, nickname@),
                None => !has_nickname(self@, nickname@),
            },
    {
        let n = self.users.len();
        let mut k: usize = 0;
        while k < n
            invariant
                self.wf(),
                n == self@.len(),
                0 <= k <= n,
                forall|j: int| 0 <= j < k ==> #[trigger] self@[j].nickname != nickname@,
            decreases n - k,
        {
            proof {
                assert(self@[k as int] == self.users@[k as int]@);
            }
            if self.users[k].nickname == *nickname {
                proof {
                    assert(self@[k as int].nickname == nickname@);
                    assert(has_nickname(self@, nickname@));
                    let c = choose|i: int| 0 <= i < self@.len() && self@[i].nickname == nickname@;
                    assert(0 <= c < self@.len() && self@[c].nickname == nickname@);
                    if c != k {
                        lemma_wf_distinct(self@, c, k as int);
                    }
                }
                return Some(k);
            }
            k = k + 1;
        }
        None
    }

    fn index_of_email(&self, email: &String) -> (r: Option<usize>)
        requires
            self.wf(),
        ensures
            match r {
                Some(k) => has_email(self@, email@) && 0 <= k < self@.len() && self@[k as int]
                    == user_by_email(self@, email@),
                None => !has_email(self@, email@),
            },
    {
        let n = self.users.len();
        let mut k: usize = 0;
        while k < n
            invariant
                self.wf(),
                n == self@.len(),
                0 <= k <= n,
                forall|j: int| 0 <= j < k ==> #[trigger] self@[j].email != email@,
            decreases n - k,
        {
            proof {
                assert(self@[k as int] == self.users@[k as int]@);
            }
            if self.users[k].email == *email {
                proof {
                    assert(self@[k as int].email == email@);
                    assert(has_email(self@, email@));
                    let c = choose|i: int| 0 <= i < self@.len() && self@[i].email == email@;
                    assert(0 <= c < self@.len() && self@[c].email == email@);
                    if c != k {
                        lemma_wf_distinct(self@, c, k as int);
                    }
                }
                return Some(k);
            }
            k = k + 1;
        }
        None
    }

    /// Inserts a new user with the given id and creation time, hashing the
    /// password first. A duplicate id, nickname or email is refused by the
    /// uniqueness constraint and surfaces as a storage error; the account
    /// service performs its own, friendlier conflict checks beforehand.
    pub fn create_user(&mut self, user: NewUserPayload, id: u128, now: u64) -> (r: Result<
        PublicUser,
        RepositoryError,
    >)
        requires
            old(self).wf(),
        ensures
            final(self).wf(),
            (has_id(old(self)@, id) || has_nickname(old(self)@, user.nickname@) || has_email(
                old(self)@,
                user.email@,
            )) ==> (r matches Err(e) && e matches RepositoryError::StorageError(_) && final(self)@
                == old(self)@),
            (r matches Err(e) && e matches RepositoryError::StorageError(_)) ==> (has_id(
                old(self)@,
                id,
            ) || has_nickname(old(self)@, user.nickname@) || has_email(old(self)@, user.email@)),
            r matches Err(e) ==> final(self)@ == old(self)@ && (e matches
                RepositoryError::StorageError(_) || e == RepositoryError::HashingError(
                HashingFault::Unusable,
            )),
            r matches Err(RepositoryError::HashingError(f)) ==> !has_id(old(self)@, id)
                && !has_nickname(old(self)@, user.nickname@) && !has_email(
                old(self)@,
                user.email@,
            ),
            r matches Ok(pu) ==> ({
                let u = final(self)@.last();
                &&& !has_id(old(self)@, id)
                &&& !has_nickname(old(self)@, user.nickname@)
                &&& !has_email(old(self)@, user.email@)
                &&& final(self)@ == old(self)@.push(u)
                &&& u.id == id
                &&& u.name == user.name.deep_view()
                &&& u.nickname == user.nickname@
                &&& u.email == user.email@
                &&& u.bio == user.bio.deep_view()
                &&& u.creation_time == now
                &&& u.update_time is None
                &&& wellformed_hash(u.password)
                &&& password_matches(user.password@, u.password)
                &&& (forall|other: Seq<char>| other != user.password@ ==> !password_matches(
                    other,
                    u.password,
                ))
                &&& u.password != user.password@
                &&& pu@ == public_of(u)
            }),
    {
        if self.index_of_id(id).is_some() || self.index_of_nickname(&user.nickname).is_some()
            || self.index_of_email(&user.email).is_some() {
            return Err(RepositoryError::StorageError(String::from_str(
                "unique constraint violated",
            )));
        }
        let NewUserPayload { name, nickname, email, password, bio } = user;
        let ghost plain = password@;
        let hashed = match hash_password(password) {
            Ok(h) => h,
            Err(f) => {
                return Err(RepositoryError::HashingError(f));
            },
        };
        let row = User {
            id,
            name,
            nickname,
            email,
            password: hashed,
            bio,
            creation_time: now,
            update_time: None,
        };
        let pu = to_public(&row);
        let ghost u = row@;
        self.users.push(row);
        proof {
            assert(self@ =~= old(self)@.push(u));
            lemma_wf_push(old(self)@, u);
            assert forall|i: int| 0 <= i < self@.len() implies wellformed_hash(
                #[trigger] self@[i].password,
            ) by {
                if i < old(self)@.len() {
                    assert(self@[i] == old(self)@[i]);
                } else {
                    assert(self@[i] == u);
                }
            }
        }
        Ok(pu)
    }

    /// Applies the supplied fields of a partial update to the user with the
    /// given id and refreshes the update time; updating a missing id writes
    /// nothing. A nickname already held by a different user is refused by
    /// the uniqueness constraint as a storage error.
    pub fn update_user(&mut self, id: u128, user: UpdateUserPayload, now: u64) -> (r: Result<
        (),
        RepositoryError,
    >)
        requires
            old(self).wf(),
        ensures
            final(self).wf(),
            !has_id(old(self)@, id) ==> (r matches Ok(_) && final(self)@ == old(self)@),
            (has_id(old(self)@, id) && (user.nickname matches Some(n) && has_other_nickname(
                old(self)@,
                id,
                n@,
            ))) ==> (r matches Err(e) && e matches RepositoryError::StorageError(_) && final(self)@
                == old(self)@),
            (has_id(old(self)@, id) && !(user.nickname matches Some(n) && has_other_nickname(
                old(self)@,
                id,
                n@,
            ))) ==> (r matches Ok(_) && final(self)@ == old(self)@.update(
                id_index(old(self)@, id),
                apply_update(user_by_id(old(self)@, id), user, now),
            )),
    {
        let k = match self.index_of_id(id) {
            Some(k) => k,
            None => {
                return Ok(());
            },
        };
        match &user.nickname {
            Some(n) => {
                if self.holds_other_nickname(id, n) {
                    return Err(RepositoryError::StorageError(String::from_str(
                        "unique constraint violated",
                    )));
                }
            },
            None => {},
        }
        let mut row = self.users.remove(k);
        match user.name {
            Some(n) => {
                row.name = Some(n);
            },
            None => {},
        }
        match user.nickname {
            Some(n) => {
                row.nickname = n;
            },
            None => {},
        }
        match user.bio {
            Some(b) => {
                row.bio = Some(b);
            },
            None => {},
        }
        row.update_time = Some(now);
        let ghost u = row@;
        self.users.insert(k, row);
        proof {
            assert(self@ =~= old(self)@.update(k as int, u));
            lemma_wf_update(old(self)@, k as int, u);
            assert forall|i: int| 0 <= i < self@.len() implies wellformed_hash(
                #[trigger] self@[i].password,
            ) by {
                if i != k {
                    assert(self@[i] == old(self)@[i]);
                } else {
                    assert(self@[i].password == old(self)@[i].password);
                }
            }
        }
        Ok(())
    }

    fn holds_other_nickname(&self, id: u128, nickname: &String) -> (r: bool)
        requires
            self.wf(),
        ensures
            r == has_other_nickname(self@, id, nickname@),
    {
        let n = self.users.len();
        let mut k: usize = 0;
        while k < n
            invariant
                self.wf(),
                n == self@.len(),
                0 <= k <= n,
                forall|j: int| 0 <= j < k ==> !(#[trigger] self@[j].id != id && self@[j].nickname == nickname@),
            decreases n - k,
        {
            proof {
                assert(self@[k as int] == self.users@[k as int]@);
            }
            if self.users[k].id != id && self.users[k].nickname == *nickname {
                proof {
                    assert(self@[k as int].id != id && self@[k as int].nickname == nickname@);
                    assert(has_other_nickname(self@, id, nickname@));
                }
                return true;
            }
            k = k + 1;
        }
        false
    }

    /// Looks a user up by nickname, returning the password-free projection.
    pub fn get_user_by_nickname(&self, nickname: &String) -> (r: Option<PublicUser>)
        requires
            self.wf(),
        ensures
            r is Some <==> has_nickname(self@, nickname@),
            r matches Some(pu) ==> pu@ == public_of(user_by_nickname(self@, nickname@)),
    {
        match self.index_of_nickname(nickname) {
            Some(k) => Some(to_public(&self.users[k])),
            None => None,
        }
    }

    /// Looks a user up by id, returning the password-free projection.
    pub fn get_user_by_id(&self, id: u128) -> (r: Option<PublicUser>)
        requires
            self.wf(),
        ensures
            r is Some <==> has_id(self@, id),
            r matches Some(pu) ==> pu@ == public_of(user_by_id(self@, id)),
    {
        match self.index_of_id(id) {
            Some(k) => Some(to_public(&self.users[k])),
            None => None,
        }
    }

    /// Looks a user up by email, returning the password-free projection.
    pub fn get_user_by_email(&self, email: &String) -> (r: Option<PublicUser>)
        requires
            self.wf(),
        ensures
            r is Some <==> has_email(self@, email@),
            r matches Some(pu) ==> pu@ == public_of(user_by_email(self@, email@)),
    {
        match self.index_of_email(email) {
            Some(k) => Some(to_public(&self.users[k])),
            None => None,
        }
    }

    /// Hands out the stored password hash for a login check. Internal to
    /// the account service: the hash never travels past that boundary.
    pub fn get_password_hash_by_email(&self, email: &String) -> (r: Option<String>)
        requires
            self.wf(),
        ensures
            r is Some <==> has_email(self@, email@),
            r matches Some(h) ==> h@ == user_by_email(self@, email@).password && wellformed_hash(
                h@,
            ),
    {
        match self.index_of_email(email) {
            Some(k) => Some(self.users[k].password.clone()),
            None => None,
        }
    }

    /// Removes the user with the given id; deleting a missing id removes
    /// nothing.
    pub fn delete_user(&mut self, id: u128) -> (r: Result<(), RepositoryError>)
        requires
            old(self).wf(),
        ensures
            final(self).wf(),
            r is Ok,
            !has_id(old(self)@, id) ==> final(self)@ == old(self)@,
            has_id(old(self)@, id) ==> final(self)@ == old(self)@.remove(
                id_index(old(self)@, id),
            ),
    {
        match self.index_of_id(id) {
            Some(k) => {
                self.users.remove(k);
                proof {
                    assert(self@ =~= old(self)@.remove(k as int));
                    lemma_wf_remove(old(self)@, k as int);
                    old(self)@.remove_ensures(k as int);
                    assert forall|i: int| 0 <= i < self@.len() implies wellformed_hash(
                        #[trigger] self@[i].password,
                    ) by {
                        let i0: int = if i < k { i } else { i + 1 };
                        assert(self@[i] == old(self)@[i0]);
                    }
                }
                Ok(())
            },
            None => Ok(()),
        }
    }
}

fn clone_opt_string(o: &Option<String>) -> (r: Option<String>)
    ensures
        r.deep_view() == o.deep_view(),
{
    match o {
        Some(s) => Some(s.clone()),
        None => None,
    }
}

fn to_public(u: &User) -> (r: PublicUser)
    ensures
        r@ == public_of(u@),
{
    PublicUser {
        id: u.id,
        name: clone_opt_string(&u.name),
        nickname: u.nickname.clone(),
        email: u.email.clone(),
        bio: clone_opt_string(&u.bio),
        creation_time: u.creation_time,
    }
}

} // verus!
