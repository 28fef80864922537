//! The login route: credential check and token issuance.

use vstd::prelude::*;

use crate::auth::{claims_of, create_jwt, token_of, TOKEN_TTL_SECONDS};
use crate::domain::password::password_matches;
use crate::domain::user::LoginUserPayload;
use crate::error::{AppError, ErrorType};
use crate::handlers::user::UserHandlerImpl;
use crate::repositories::user::{has_email, user_by_email};
use crate::validation::{format_error_msg, spec_error_msg, spec_login_violations, validate_login};

verus! {

/// Logs a user in: a structurally invalid payload is refused naming the
/// failing fields, an unknown email is not found, a wrong password a bad
/// request; on success a token for the account's id is issued, expiring
/// [`TOKEN_TTL_SECONDS`] after `now`.
pub fn login_user(
    handler: &UserHandlerImpl,
    payload: LoginUserPayload,
    secret: &[u8],
    now: u64,
) -> (r: Result<String, AppError>)
    requires
        handler.wf(),
        now + TOKEN_TTL_SECONDS <= u64::MAX,
    ensures
        spec_login_violations(payload).len() > 0 <==> (r matches Err(e) && e.kind
            == ErrorType::BadRequest && e.message@ == spec_error_msg(
            spec_login_violations(payload),
        )),
        spec_login_violations(payload).len() == 0 ==> ({
            &&& !has_email(handler@, payload.email@) <==> (r matches Err(e) && e.kind
                == ErrorType::NotFound)
            &&& (has_email(handler@, payload.email@) && password_matches(
                payload.password@,
                user_by_email(handler@, payload.email@).password,
            )) <==> r is Ok
            &&& (has_email(handler@, payload.email@) && !password_matches(
                payload.password@,
                user_by_email(handler@, payload.email@).password,
            )) <==> (r matches Err(e) && e.kind == ErrorType::BadRequest && e.message@
                == "Invalid password"@)
        }),
        r matches Ok(t) ==> ({
            let uid = user_by_email(handler@, payload.email@).id;
            &&& spec_login_violations(payload).len() == 0
            &&& has_email(handler@, payload.email@)
            &&& password_matches(
                payload.password@,
                user_by_email(handler@, payload.email@).password,
            )
            &&& t@ == token_of(secret@, uid, (now + TOKEN_TTL_SECONDS) as u64)
            &&& claims_of(secret@, t@) == Some((uid, (now + TOKEN_TTL_SECONDS) as u64))
            &&& (forall|other: Seq<u8>|
                other.len() == secret@.len() && other != secret@ ==> claims_of(other, t@) is None)
        }),
{
    proof {
        reveal_strlit("Invalid password");
        reveal_strlit("The following fields contain validation errors: ");
    }
    let violations = validate_login(&payload);
    if violations.len() > 0 {
        return Err(AppError::bad_request(format_error_msg(violations)));
    }
    let uid = match handler.get_user_by_login(payload) {
        Ok(uid) => uid,
        Err(e) => {
            return Err(AppError::from(e));
        },
    };
    match create_jwt(uid, secret, now) {
        Some(token) => Ok(token),
        None => Err(
            AppError { message: String::from_str("Internal Error"), kind: ErrorType::InternalError },
        ),
    }
}

} // verus!
