//! The user routes: register, partial update (authorized), lookup and
//! delete.

use vstd::prelude::*;

use crate::auth::{get_id_auth_header, spec_token_subject};
use crate::domain::password::password_matches;
use crate::domain::user::{public_of, NewUserPayload, PublicUser, UpdateUserPayload};
use crate::error::{AppError, ErrorType};
use crate::handlers::user::UserHandlerImpl;
use crate::repositories::error::ErrorMessage;
use crate::repositories::user::{
    apply_update, has_email, has_id, has_nickname, has_other_nickname, id_index, user_by_id,
    user_by_nickname,
};
use crate::validation::{
    format_error_msg, spec_error_msg, spec_new_user_violations, spec_update_user_violations,
    validate_new_user, validate_update_user,
};

verus! {

/// Registers a new user from a create payload: a structurally invalid
/// payload is refused naming every failing field, a taken nickname or
/// email is a conflict — nickname first — and otherwise the user is
/// persisted under the given id and creation time and returned without
/// its password.
pub fn create_user(handler: &mut UserHandlerImpl, payload: NewUserPayload, id: u128, now: u64) -> (r:
    Result<PublicUser, AppError>)
    requires
        old(handler).wf(),
    ensures
        final(handler).wf(),
        r matches Err(_) ==> final(handler)@ == old(handler)@,
        spec_new_user_violations(payload).len() > 0 <==> (r matches Err(e) && e.kind
            == ErrorType::BadRequest && e.message@ == spec_error_msg(
            spec_new_user_violations(payload),
        )),
        spec_new_user_violations(payload).len() == 0 ==> ({
            &&& has_nickname(old(handler)@, payload.nickname@) <==> (r matches Err(e) && e.kind
                == ErrorType::Conflict && e.message@ == ErrorMessage::ExistingNickame.spec_message())
            &&& (!has_nickname(old(handler)@, payload.nickname@) && has_email(
                old(handler)@,
                payload.email@,
            )) <==> (r matches Err(e) && e.kind == ErrorType::Conflict && e.message@
                == ErrorMessage::ExistingEmail.spec_message())
            &&& (r matches Err(e) && e.kind == ErrorType::InternalError) ==> (!has_nickname(
                old(handler)@,
                payload.nickname@,
            ) && !has_email(old(handler)@, payload.email@))
            &&& (!has_nickname(old(handler)@, payload.nickname@) && !has_email(
                old(handler)@,
                payload.email@,
            )) ==> (r is Ok || (r matches Err(e) && e.kind == ErrorType::InternalError))
        }),
        r matches Ok(pu) ==> ({
            let u = final(handler)@.last();
            &&& spec_new_user_violations(payload).len() == 0
            &&& !has_nickname(old(handler)@, payload.nickname@)
            &&& !has_email(old(handler)@, payload.email@)
            &&& !has_id(old(handler)@, id)
            &&& final(handler)@ == old(handler)@.push(u)
            &&& u.id == id
            &&& u.name == payload.name.deep_view()
            &&& u.nickname == payload.nickname@
            &&& u.email == payload.email@
            &&& u.bio == payload.bio.deep_view()
            &&& u.creation_time == now
            &&& u.update_time is None
            &&& password_matches(payload.password@, u.password)
            &&& (forall|other: Seq<char>| other != payload.password@ ==> !password_matches(
                other,
                u.password,
            ))
            &&& u.password != payload.password@
            &&& pu@ == public_of(u)
        }),
{
    proof {
        reveal_strlit("This nickname is already in use");
        reveal_strlit("This email is already in use");
        assert(ErrorMessage::ExistingNickame.spec_message().len() == 31);
        assert(ErrorMessage::ExistingEmail.spec_message().len() == 28);
        assert(ErrorMessage::ExistingNickame.spec_message()
            != ErrorMessage::ExistingEmail.spec_message());
    }
    let violations = validate_new_user(&payload);
    if violations.len() > 0 {
        return Err(AppError::bad_request(format_error_msg(violations)));
    }
    match handler.create_user(payload, id, now) {
        Ok(pu) => Ok(pu),
        Err(e) => Err(AppError::from(e)),
    }
}

/// Applies a partial update to the user at `id`, only for a caller whose
/// token asserts that same id: a missing header or a foreign subject is
/// unauthorized and writes nothing, an unusable token is a bad request,
/// and the update itself follows the account-service rules.
pub fn update_user_by_id(
    handler: &mut UserHandlerImpl,
    id: u128,
    payload: UpdateUserPayload,
    auth_header: Option<&str>,
    secret: &[u8],
    now: u64,
) -> (r: Result<(), AppError>)
    requires
        old(handler).wf(),
    ensures
        final(handler).wf(),
        r matches Err(_) ==> final(handler)@ == old(handler)@,
        auth_header is None ==> (r matches Err(e) && e.kind == ErrorType::Unauthorized
            && e.message@ == "Unauthorized"@),
        (auth_header matches Some(h) && spec_token_subject(secret@, h@, now) is None) ==> (
        r matches Err(e) && e.kind == ErrorType::BadRequest && e.message@ == "Invalid token"@),
        (auth_header matches Some(h) && spec_token_subject(secret@, h@, now) matches Some(sub)
            && sub != id) ==> (r matches Err(e) && e.kind == ErrorType::Unauthorized && e.message@
            == "Unauthorized"@),
        (auth_header matches Some(h) && spec_token_subject(secret@, h@, now) == Some(id)) ==> ({
            &&& spec_update_user_violations(payload).len() > 0 <==> (r matches Err(e) && e.kind
                == ErrorType::BadRequest && e.message@ == spec_error_msg(
                spec_update_user_violations(payload),
            ))
            &&& spec_update_user_violations(payload).len() == 0 ==> ({
                &&& !has_id(old(handler)@, id) <==> (r matches Err(e) && e.kind
                    == ErrorType::NotFound)
                &&& (has_id(old(handler)@, id) && (payload.nickname matches Some(n)
                    && has_other_nickname(old(handler)@, id, n@))) <==> (r matches Err(e) && e.kind
                    == ErrorType::Conflict)
                &&& (has_id(old(handler)@, id) && !(payload.nickname matches Some(n)
                    && has_other_nickname(old(handler)@, id, n@))) <==> r matches Ok(_)
            })
        }),
        r matches Ok(_) ==> (auth_header matches Some(h) && spec_token_subject(secret@, h@, now)
            == Some(id) && spec_update_user_violations(payload).len() == 0 && final(handler)@
            == old(handler)@.update(
            id_index(old(handler)@, id),
            apply_update(user_by_id(old(handler)@, id), payload, now),
        )),
{
    let header = match auth_header {
        Some(h) => h,
        None => {
            return Err(
                AppError { message: String::from_str("Unauthorized"), kind: ErrorType::Unauthorized },
            );
        },
    };
    let subject = match get_id_auth_header(header, secret, now) {
        Ok(sub) => sub,
        Err(e) => {
            return Err(e);
        },
    };
    if subject != id {
        return Err(
            AppError { message: String::from_str("Unauthorized"), kind: ErrorType::Unauthorized },
        );
    }
    let violations = validate_update_user(&payload);
    if violations.len() > 0 {
        return Err(AppError::bad_request(format_error_msg(violations)));
    }
    match handler.update_user_by_id(id, payload, now) {
        Ok(()) => Ok(()),
        Err(e) => Err(AppError::from(e)),
    }
}

/// Returns the user at `id` without its password; a missing id is a
/// not-found error.
pub fn get_user_by_id(handler: &UserHandlerImpl, id: u128) -> (r: Result<PublicUser, AppError>)
    requires
        handler.wf(),
    ensures
        r is Ok <==> has_id(handler@, id),
        r matches Ok(pu) ==> pu@ == public_of(user_by_id(handler@, id)),
        r matches Err(e) ==> e.kind == ErrorType::NotFound,
{
    match handler.get_user_by_id(id) {
        Ok(Some(pu)) => Ok(pu),
        Ok(None) => Err(AppError::from(crate::repositories::error::RepositoryError::NotFound)),
        Err(e) => Err(AppError::from(e)),
    }
}

/// Returns the user holding `nickname` without its password; a missing
/// nickname is a not-found error.
pub fn get_user_by_nickname(handler: &UserHandlerImpl, nickname: String) -> (r: Result<
    PublicUser,
    AppError,
>)
    requires
        handler.wf(),
    ensures
        r is Ok <==> has_nickname(handler@, nickname@),
        r matches Ok(pu) ==> pu@ == public_of(user_by_nickname(handler@, nickname@)),
        r matches Err(e) ==> e.kind == ErrorType::NotFound,
{
    match handler.get_user_by_nickname(nickname) {
        Ok(Some(pu)) => Ok(pu),
        Ok(None) => Err(AppError::from(crate::repositories::error::RepositoryError::NotFound)),
        Err(e) => Err(AppError::from(e)),
    }
}

/// Deletes the user at `id`; a missing id is a not-found error and
/// deletes nothing.
pub fn delete_user(handler: &mut UserHandlerImpl, id: u128) -> (r: Result<(), AppError>)
    requires
        old(handler).wf(),
    ensures
        final(handler).wf(),
        r is Ok <==> has_id(old(handler)@, id),
        r matches Err(e) ==> e.kind == ErrorType::NotFound && final(handler)@ == old(handler)@,
        r matches Ok(_) ==> final(handler)@ == old(handler)@.remove(id_index(old(handler)@, id)),
{
    match handler.delete_user(id) {
        Ok(()) => Ok(()),
        Err(e) => Err(AppError::from(e)),
    }
}

} // verus!
