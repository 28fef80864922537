//! User records, their password-free projection, and request payloads.
//!
//! Identifiers are held as 128-bit integers; timestamps are seconds since
//! the Unix epoch.

use vstd::prelude::*;

verus! {

/// The mathematical value of a stored user record.
#[verifier::ext_equal]
pub ghost struct UserModel {
    pub id: u128,
    pub name: Option<Seq<char>>,
    pub nickname: Seq<char>,
    pub email: Seq<char>,
    pub password: Seq<char>,
    pub bio: Option<Seq<char>>,
    pub creation_time: u64,
    pub update_time: Option<u64>,
}

/// The mathematical value of a password-free user projection.
#[verifier::ext_equal]
pub ghost struct PublicUserModel {
    pub id: u128,
    pub name: Option<Seq<char>>,
    pub nickname: Seq<char>,
    pub email: Seq<char>,
    pub bio: Option<Seq<char>>,
    pub creation_time: u64,
}

/// A durable user record; `password` holds only the salted hash.
#[derive(Debug)]
pub struct User {
    pub id: u128,
    pub name: Option<String>,
    pub nickname: String,
    pub email: String,
    pub password: String,
    pub bio: Option<String>,
    pub creation_time: u64,
    pub update_time: Option<u64>,
}

/// The projection of a [`User`] that may leave the store boundary: every
/// field but the password hash.
#[derive(Debug)]
pub struct PublicUser {
    pub id: u128,
    pub name: Option<String>,
    pub nickname: String,
    pub email: String,
    pub bio: Option<String>,
    pub creation_time: u64,
}

impl View for User {
    type V = UserModel;

    open spec fn view(&self) -> UserModel {
        UserModel {
            id: self.id,
            name: self.name.deep_view(),
            nickname: self.nickname@,
            email: self.email@,
            password: self.password@,
            bio: self.bio.deep_view(),
            creation_time: self.creation_time,
            update_time: self.update_time,
        }
    }
}

impl DeepView for User {
    type V = UserModel;

    open spec fn deep_view(&self) -> UserModel {
        self.view()
    }
}

impl View for PublicUser {
    type V = PublicUserModel;

    open spec fn view(&self) -> PublicUserModel {
        PublicUserModel {
            id: self.id,
            name: self.name.deep_view(),
            nickname: self.nickname@,
            email: self.email@,
            bio: self.bio.deep_view(),
            creation_time: self.creation_time,
        }
    }
}

/// What a stored record looks like from outside the store: all fields but
/// the password hash.
pub open spec fn public_of(u: UserModel) -> PublicUserModel {
    PublicUserModel {
        id: u.id,
        name: u.name,
        nickname: u.nickname,
        email: u.email,
        bio: u.bio,
        creation_time: u.creation_time,
    }
}

/// The body of a request that registers a new user.
#[derive(Debug)]
pub struct NewUserPayload {
    pub name: Option<String>,
    pub nickname: String,
    pub email: String,
    pub password: String,
    pub bio: Option<String>,
}

/// The body of a request that updates an existing user; only the supplied
/// fields are applied.
#[derive(Debug)]
pub struct UpdateUserPayload {
    pub name: Option<String>,
    pub nickname: Option<String>,
    pub bio: Option<String>,
}

/// The credentials presented on login; never persisted.
#[derive(Debug)]
pub struct LoginUserPayload {
    pub email: String,
    pub password: String,
}

} // verus!
