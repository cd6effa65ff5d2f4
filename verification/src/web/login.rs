//! The login: the password check, the upgrade of a password stored with an
//! outdated scheme, and the token cookie handed out.

use crate::model;
use crate::model::user::UserForLogin;
use crate::model::UtcTime;
use crate::pwd::scheme::SchemeStatus;
use crate::pwd::{hash_pwd, hashed_pwd, pwd_status, valid_pwd_key, validate_pwd, ContentToHash};
use crate::token::{fits_b64u, generate_token, token_to_string};
use crate::utc::rfc3339_writable;
use crate::web::error::Error;
use crate::web::mw_auth::renewed_token_text;
use vstd::prelude::*;

verus! {

/// What the login decided: its outcome, the new stored password when the
/// stored one used an outdated scheme, and the token cookie to set.
pub struct LoginDecision {
    pub result: Result<(), Error>,
    pub new_pwd: Option<String>,
    pub token_cookie: Option<String>,
}

/// What `login_decide` returns.
pub open spec fn login_post(
    user: Option<UserForLogin>,
    pwd_clear: String,
    pwd_key: Seq<u8>,
    token_key: Seq<u8>,
    now: int,
    duration: int,
    r: LoginDecision,
) -> bool {
    match user {
        None => r.result matches Err(Error::LoginFailUsernameNotFound) && r.new_pwd is None
            && r.token_cookie is None,
        Some(u) => match u.pwd {
            None => r.result matches Err(Error::LoginFailUserHasNoPwd { user_id }) && user_id == u.id
                && r.new_pwd is None && r.token_cookie is None,
            Some(pwd) => {
                let to_hash = ContentToHash { content: pwd_clear, salt: u.pwd_salt };
                match pwd_status(pwd_key, to_hash, pwd@) {
                    None => r.result matches Err(Error::LoginFailPwdNotMatching { user_id })
                        && user_id == u.id && r.new_pwd is None && r.token_cookie is None,
                    Some(status) => {
                        let upgrade_failed = status == SchemeStatus::Outdated && hashed_pwd(
                            pwd_key,
                            to_hash,
                        ) is None;
                        &&& status == SchemeStatus::Latest ==> r.new_pwd is None
                        &&& status == SchemeStatus::Outdated ==> match hashed_pwd(pwd_key, to_hash) {
                            Some(h) => r.new_pwd matches Some(n) && n@ == h,
                            None => r.new_pwd is None,
                        }
                        &&& if upgrade_failed {
                            r.result matches Err(Error::Model(model::Error::Pwd(_)))
                                && r.token_cookie is None
                        } else if !fits_b64u(u.username@) {
                            r.result matches Err(Error::Token(_)) && r.token_cookie is None
                        } else {
                            &&& r.result is Ok
                            &&& r.token_cookie matches Some(c) && c@ == renewed_token_text(
                                u.username@,
                                u.token_salt.bytes@,
                                token_key,
                                now + duration,
                            )
                        }
                    },
                }
            },
        },
    }
}

/// Decides a login once the program has fetched the user by the user name
/// given (`None` when there is none): the user must have a password, the
/// clear password must validate against it, a password stored with an
/// outdated scheme is hashed anew with the default scheme, and a token for
/// the user, expiring `token_duration_nanos` after `now`, is handed out.
pub fn login_decide(
    user: Option<UserForLogin>,
    pwd_clear: String,
    pwd_key: &[u8],
    token_key: &[u8],
    now: UtcTime,
    token_duration_nanos: i64,
) -> (r: LoginDecision)
    requires
        valid_pwd_key(pwd_key@),
        rfc3339_writable(now.unix_nanos + token_duration_nanos),
    ensures
        login_post(
            user,
            pwd_clear,
            pwd_key@,
            token_key@,
            now.unix_nanos as int,
            token_duration_nanos as int,
            r,
        ),
{
    let u = match user {
        None => {
            return LoginDecision {
                result: Err(Error::LoginFailUsernameNotFound),
                new_pwd: None,
                token_cookie: None,
            };
        },
        Some(u) => u,
    };
    let user_id = u.id;
    let pwd = match &u.pwd {
        None => {
            return LoginDecision {
                result: Err(Error::LoginFailUserHasNoPwd { user_id }),
                new_pwd: None,
                token_cookie: None,
            };
        },
        Some(p) => p,
    };
    let ghost clear = pwd_clear;
    let to_hash = ContentToHash { content: pwd_clear, salt: u.pwd_salt };
    assert(to_hash == ContentToHash { content: clear, salt: u.pwd_salt });
    let status = match validate_pwd(pwd_key, &to_hash, pwd.as_str()) {
        Ok(s) => s,
        Err(_) => {
            return LoginDecision {
                result: Err(Error::LoginFailPwdNotMatching { user_id }),
                new_pwd: None,
                token_cookie: None,
            };
        },
    };
    let new_pwd = match status {
        SchemeStatus::Latest => None,
        SchemeStatus::Outdated => match hash_pwd(pwd_key, &to_hash) {
            Ok(h) => Some(h),
            Err(e) => {
                return LoginDecision {
                    result: Err(Error::Model(model::Error::Pwd(e))),
                    new_pwd: None,
                    token_cookie: None,
                };
            },
        },
    };
    if u.username.as_str().as_bytes().len() > usize::MAX / 2 {
        return LoginDecision {
            result: Err(Error::Token("user name too long for a token".to_owned())),
            new_pwd,
            token_cookie: None,
        };
    }
    match generate_token(u.username.as_str(), now, token_duration_nanos, &u.token_salt, token_key) {
        Ok(t) => LoginDecision {
            result: Ok(()),
            new_pwd,
            token_cookie: Some(token_to_string(&t)),
        },
        Err(e) => LoginDecision {
            result: Err(Error::Token(e.as_str().to_owned())),
            new_pwd,
            token_cookie: None,
        },
    }
}

} // verus!
