//! The account operations over the user store: uniqueness pre-checks on
//! create and update, existence checks on reads and deletes, and the
//! credential check on login.

use vstd::prelude::*;

use crate::domain::password::{password_matches, verify_passwords, PasswordCheck};
use crate::domain::user::{
    public_of, LoginUserPayload, NewUserPayload, PublicUser, UpdateUserPayload, UserModel,
};
use crate::repositories::error::{ErrorMessage, HashingFault, RepositoryError};
use crate::repositories::user::{
    apply_update, has_email, has_id, has_nickname, has_other_nickname, id_index,
    lemma_other_nickname, user_by_email, user_by_id, user_by_nickname, UserStore,
};

verus! {

/// The account service over a user store.
pub struct UserHandlerImpl {
    pub user_repository: UserStore,
}

impl View for UserHandlerImpl {
    type V = Seq<UserModel>;

    open spec fn view(&self) -> Seq<UserModel> {
        self.user_repository@
    }
}

impl UserHandlerImpl {
    /// The service is well formed when its store is.
    pub open spec fn wf(self) -> bool {
        self.user_repository.wf()
    }

    /// A service over an empty store.
    pub fn new() -> (r: UserHandlerImpl)
        ensures
            r.wf(),
            r@ == Seq::<UserModel>::empty(),
    {
        UserHandlerImpl { user_repository: UserStore::new() }
    }

    /// Registers a new user: refuses a taken nickname, then a taken email
    /// — the nickname conflict wins when both collide — hashes the
    /// password and persists the record with the given id and creation
    /// time.
    pub fn create_user(&mut self, new_user: NewUserPayload, id: u128, now: u64) -> (r: Result<
        PublicUser,
        RepositoryError,
    >)
        requires
            old(self).wf(),
        ensures
            final(self).wf(),
            r matches Err(_) ==> final(self)@ == old(self)@,
            has_nickname(old(self)@, new_user.nickname@) <==> (r matches Err(e) && e
                == RepositoryError::Conflict(ErrorMessage::ExistingNickame)),
            (!has_nickname(old(self)@, new_user.nickname@) && has_email(
                old(self)@,
                new_user.email@,
            )) <==> (r matches Err(e) && e == RepositoryError::Conflict(
                ErrorMessage::ExistingEmail,
            )),
            (!has_nickname(old(self)@, new_user.nickname@) && !has_email(
                old(self)@,
                new_user.email@,
            ) && has_id(old(self)@, id)) <==> (r matches Err(e) && e matches
                RepositoryError::StorageError(_)),
            (!has_nickname(old(self)@, new_user.nickname@) && !has_email(
                old(self)@,
                new_user.email@,
            ) && !has_id(old(self)@, id)) ==> (r matches Ok(_) || r matches Err(
                RepositoryError::HashingError(HashingFault::Unusable),
            )),
            r matches Ok(pu) ==> ({
                let u = final(self)@.last();
                &&& !has_nickname(old(self)@, new_user.nickname@)
                &&& !has_email(old(self)@, new_user.email@)
                &&& !has_id(old(self)@, id)
                &&& final(self)@ == old(self)@.push(u)
                &&& u.id == id
                &&& u.name == new_user.name.deep_view()
                &&& u.nickname == new_user.nickname@
                &&& u.email == new_user.email@
                &&& u.bio == new_user.bio.deep_view()
                &&& u.creation_time == now
                &&& u.update_time is None
                &&& password_matches(new_user.password@, u.password)
                &&& (forall|other: Seq<char>| other != new_user.password@ ==> !password_matches(
                    other,
                    u.password,
                ))
                &&& u.password != new_user.password@
                &&& pu@ == public_of(u)
            }),
    {
        if self.user_repository.get_user_by_nickname(&new_user.nickname).is_some() {
            return Err(RepositoryError::Conflict(ErrorMessage::ExistingNickame));
        }
        if self.user_repository.get_user_by_email(&new_user.email).is_some() {
            return Err(RepositoryError::Conflict(ErrorMessage::ExistingEmail));
        }
        self.user_repository.create_user(new_user, id, now)
    }

    /// Applies a partial update to an existing user: a missing id is
    /// reported as not found, and a supplied nickname already held by a
    /// different user as a conflict; otherwise the supplied fields are
    /// written and the update time refreshed.
    pub fn update_user_by_id(&mut self, id: u128, update_payload: UpdateUserPayload, now: u64) -> (r:
        Result<(), RepositoryError>)
        requires
            old(self).wf(),
        ensures
            final(self).wf(),
            r matches Err(_) ==> final(self)@ == old(self)@,
            !has_id(old(self)@, id) <==> (r matches Err(e) && e matches RepositoryError::NotFound),
            (has_id(old(self)@, id) && (update_payload.nickname matches Some(n)
                && has_other_nickname(old(self)@, id, n@))) <==> (r matches Err(e) && e
                == RepositoryError::Conflict(ErrorMessage::ExistingNickame)),
            (has_id(old(self)@, id) && !(update_payload.nickname matches Some(n)
                && has_other_nickname(old(self)@, id, n@))) <==> r matches Ok(_),
            r matches Ok(_) ==> final(self)@ == old(self)@.update(
                id_index(old(self)@, id),
                apply_update(user_by_id(old(self)@, id), update_payload, now),
            ),
    {
        if self.user_repository.get_user_by_id(id).is_none() {
            return Err(RepositoryError::NotFound);
        }
        match &update_payload.nickname {
            Some(nickname) => {
                match self.user_repository.get_user_by_nickname(nickname) {
                    Some(holder) => {
                        proof {
                            lemma_other_nickname(self@, id, nickname@);
                        }
                        if holder.id != id {
                            return Err(RepositoryError::Conflict(ErrorMessage::ExistingNickame));
                        }
                    },
                    None => {
                        proof {
                            lemma_other_nickname(self@, id, nickname@);
                        }
                    },
                }
            },
            None => {},
        }
        self.user_repository.update_user(id, update_payload, now)
    }

    /// Looks a user up by nickname; a missing nickname is reported as not
    /// found.
    pub fn get_user_by_nickname(&self, nickname: String) -> (r: Result<
        Option<PublicUser>,
        RepositoryError,
    >)
        requires
            self.wf(),
        ensures
            r is Ok <==> has_nickname(self@, nickname@),
            r matches Ok(o) ==> (o matches Some(pu) && pu@ == public_of(
                user_by_nickname(self@, nickname@),
            )),
            r matches Err(e) ==> e matches RepositoryError::NotFound,
    {
        match self.user_repository.get_user_by_nickname(&nickname) {
            Some(pu) => Ok(Some(pu)),
            None => Err(RepositoryError::NotFound),
        }
    }

    /// Looks a user up by id; a missing id is reported as not found.
    pub fn get_user_by_id(&self, id: u128) -> (r: Result<Option<PublicUser>, RepositoryError>)
        requires
            self.wf(),
        ensures
            r is Ok <==> has_id(self@, id),
            r matches Ok(o) ==> (o matches Some(pu) && pu@ == public_of(user_by_id(self@, id))),
            r matches Err(e) ==> e matches RepositoryError::NotFound,
    {
        match self.user_repository.get_user_by_id(id) {
            Some(pu) => Ok(Some(pu)),
            None => Err(RepositoryError::NotFound),
        }
    }

    /// Deletes a user by id; a missing id is reported as not found and
    /// deletes nothing.
    pub fn delete_user(&mut self, id: u128) -> (r: Result<(), RepositoryError>)
        requires
            old(self).wf(),
        ensures
            final(self).wf(),
            !has_id(old(self)@, id) <==> (r matches Err(e) && e matches RepositoryError::NotFound),
            r matches Err(e) ==> e matches RepositoryError::NotFound && final(self)@ == old(self)@,
            r matches Ok(_) ==> final(self)@ == old(self)@.remove(id_index(old(self)@, id)),
    {
        if self.user_repository.get_user_by_id(id).is_none() {
            return Err(RepositoryError::NotFound);
        }
        self.user_repository.delete_user(id)
    }

    /// Checks the presented credentials and returns the id of the account
    /// they belong to. An unknown email is reported as not found and a
    /// wrong password as a mismatch: the two failures stay
    /// distinguishable by design here, rather than being folded into one
    /// opaque login failure.
    pub fn get_user_by_login(&self, login_payload: LoginUserPayload) -> (r: Result<
        u128,
        RepositoryError,
    >)
        requires
            self.wf(),
        ensures
            !has_email(self@, login_payload.email@) <==> (r matches Err(e) && e matches
                RepositoryError::NotFound),
            has_email(self@, login_payload.email@) ==> ({
                let u = user_by_email(self@, login_payload.email@);
                &&& password_matches(login_payload.password@, u.password) <==> r == Result::<
                    u128,
                    RepositoryError,
                >::Ok(u.id)
                &&& !password_matches(login_payload.password@, u.password) <==> r == Result::<
                    u128,
                    RepositoryError,
                >::Err(RepositoryError::HashingError(HashingFault::Mismatch))
            }),
    {
        let user = match self.user_repository.get_user_by_email(&login_payload.email) {
            Some(u) => u,
            None => {
                return Err(RepositoryError::NotFound);
            },
        };
        let hash = match self.user_repository.get_password_hash_by_email(&login_payload.email) {
            Some(h) => h,
            None => {
                return Err(RepositoryError::NotFound);
            },
        };
        proof {
            assert(user.id == user_by_email(self@, login_payload.email@).id);
        }
        login_outcome(verify_passwords(&login_payload.password, &hash), user.id)
    }
}

/// The login outcome for each possible result of the password check: the
/// account's id on a match, a mismatch error for a wrong password, an
/// internal hashing error for a stored hash that could not be used.
pub fn login_outcome(check: PasswordCheck, uid: u128) -> (r: Result<u128, RepositoryError>)
    ensures
        r == match check {
            PasswordCheck::Match => Result::<u128, RepositoryError>::Ok(uid),
            PasswordCheck::Mismatch => Result::<u128, RepositoryError>::Err(
                RepositoryError::HashingError(HashingFault::Mismatch),
            ),
            PasswordCheck::Malformed => Result::<u128, RepositoryError>::Err(
                RepositoryError::HashingError(HashingFault::Unusable),
            ),
        },
{
    match check {
        PasswordCheck::Match => Ok(uid),
        PasswordCheck::Mismatch => Err(RepositoryError::HashingError(HashingFault::Mismatch)),
        PasswordCheck::Malformed => Err(RepositoryError::HashingError(HashingFault::Unusable)),
    }
}

} // verus!
