//! The request context as the authentication middleware resolves it, and the
//! organisation id carried by the request path.

use crate::ctx::Ctx;
use crate::text::{chars_match_at, chars_of, ends_with, starts_with};
use crate::model::user::UserForAuth;
use crate::model::UtcTime;
use crate::token::{
    fits_b64u, generate_token, parse_token, parse_token_spec, token_sign, token_text, token_to_string,
    token_valid, validate_token_sign_and_exp, Error as TokenError, Token,
};
use crate::utc::{rfc3339_instant, rfc3339_text, rfc3339_writable};
use vstd::prelude::*;

verus! {

/// The resolved request context.
#[derive(Debug, Clone)]
pub struct CtxW(pub Ctx);

/// Why no request context could be resolved.
#[derive(Clone, Debug)]
pub enum CtxExtError {
    TokenNotInCookie,
    TokenWrongFormat,
    // -- Returned from ctx_resolve
    OrgIdInvalid { path: String },
    OrgIdNotFound(i64),
    OrgIdNoAccess { user_id: i64, org_id: i64 },
    UserNotFound,
    ModelAccessError(String),
    FailValidate,
    CannotSetTokenCookie,
    CtxNotInRequestExt,
    CtxCreateFail(String),
}

/// After a failed resolution the token cookie is removed, unless the failure
/// is that there was no token cookie.
pub fn should_remove_token_cookie(ctx_ext_result: &Result<CtxW, CtxExtError>) -> (r: bool)
    ensures
        r == (ctx_ext_result is Err && !(ctx_ext_result matches Err(
            CtxExtError::TokenNotInCookie,
        ))),
{
    match ctx_ext_result {
        Ok(_) => false,
        Err(CtxExtError::TokenNotInCookie) => false,
        Err(_) => true,
    }
}

/// An ASCII decimal digit.
pub open spec fn is_ascii_digit(c: char) -> bool {
    '0' <= c && c <= '9'
}

/// The value of a string of ASCII decimal digits.
pub open spec fn decimal_value(d: Seq<char>) -> int
    decreases d.len(),
{
    if d.len() == 0 {
        0
    } else {
        decimal_value(d.drop_last()) * 10 + (d.last() as int - 48)
    }
}

/// The digits between `/api/org/` and `/rpc` when the path is exactly
/// `/api/org/<one or more digits>/rpc`.
pub open spec fn org_path_digits(path: Seq<char>) -> Option<Seq<char>> {
    let pre = "/api/org/"@;
    let suf = "/rpc"@;
    if starts_with(path, pre) && ends_with(path, suf) && path.len() > pre.len() + suf.len() {
        let d = path.subrange(pre.len() as int, path.len() - suf.len());
        if forall|i: int| 0 <= i < d.len() ==> is_ascii_digit(#[trigger] d[i]) {
            Some(d)
        } else {
            None
        }
    } else {
        None
    }
}

/// The organisation id that a request path carries: `Some(None)` for the
/// multi-organisation routes (`/api/orgs/...`) and the plain rpc route
/// (`/api/rpc...`), `Some(Some(id))` for `/api/org/<id>/rpc` with an id that
/// fits in `i64`, and `None` (invalid) otherwise.
pub open spec fn path_org_id(path: Seq<char>) -> Option<Option<int>> {
    if starts_with(path, "/api/orgs/"@) || starts_with(path, "/api/rpc"@) {
        Some(None)
    } else {
        match org_path_digits(path) {
            Some(d) => if decimal_value(d) <= i64::MAX {
                Some(Some(decimal_value(d)))
            } else {
                None
            },
            None => None,
        }
    }
}

proof fn lemma_decimal_value_nonneg(d: Seq<char>)
    requires
        forall|i: int| 0 <= i < d.len() ==> is_ascii_digit(#[trigger] d[i]),
    ensures
        decimal_value(d) >= 0,
    decreases d.len(),
{
    if d.len() > 0 {
        lemma_decimal_value_nonneg(d.drop_last());
    }
}

proof fn lemma_decimal_prefix_le(d: Seq<char>, i: int)
    requires
        0 <= i <= d.len(),
        forall|k: int| 0 <= k < d.len() ==> is_ascii_digit(#[trigger] d[k]),
    ensures
        decimal_value(d.subrange(0, i)) <= decimal_value(d),
    decreases d.len(),
{
    if i < d.len() {
        let init = d.drop_last();
        assert(d.subrange(0, i) =~= init.subrange(0, i));
        lemma_decimal_prefix_le(init, i);
        lemma_decimal_value_nonneg(init);
    } else {
        assert(d.subrange(0, i) =~= d);
    }
}

/// The organisation id of the request path: `None` for the routes without
/// one, the id for `/api/org/<id>/rpc`, and `OrgIdInvalid` with the path
/// otherwise.
pub fn extract_org_id(path: &str) -> (r: Result<Option<i64>, CtxExtError>)
    ensures
        path_org_id(path@) matches Some(v) ==> (r matches Ok(o) && match o {
            Some(id) => v == Some(id as int),
            None => v is None,
        }),
        path_org_id(path@) is None ==> (r matches Err(CtxExtError::OrgIdInvalid { path: p })
            && p@ == path@),
{
    let cs = chars_of(path);
    let orgs = chars_of("/api/orgs/");
    let rpc = chars_of("/api/rpc");
    if chars_match_at(&cs, 0, &orgs) || chars_match_at(&cs, 0, &rpc) {
        return Ok(None);
    }
    let pre = chars_of("/api/org/");
    let suf = chars_of("/rpc");
    proof {
        reveal_strlit("/api/org/");
        reveal_strlit("/rpc");
    }
    let n = cs.len();
    if n <= 13 || !chars_match_at(&cs, 0, &pre) || !chars_match_at(&cs, n - 4, &suf) {
        return Err(CtxExtError::OrgIdInvalid { path: path.to_owned() });
    }
    let ghost d = cs@.subrange(9, n - 4);
    let mut i: usize = 9;
    let mut acc: i64 = 0;
    while i < n - 4
        invariant
            9 <= i <= n - 4,
            n == cs@.len(),
            n > 13,
            cs@ == path@,
            !starts_with(path@, "/api/orgs/"@),
            !starts_with(path@, "/api/rpc"@),
            starts_with(path@, "/api/org/"@),
            ends_with(path@, "/rpc"@),
            "/api/org/"@.len() == 9,
            "/rpc"@.len() == 4,
            d == cs@.subrange(9, n - 4),
            forall|k: int| 0 <= k < i - 9 ==> is_ascii_digit(#[trigger] d[k]),
            acc == decimal_value(d.subrange(0, i - 9)),
        decreases n - 4 - i,
    {
        let c = cs[i];
        if c < '0' || c > '9' {
            assert(!is_ascii_digit(d[i - 9]));
            return Err(CtxExtError::OrgIdInvalid { path: path.to_owned() });
        }
        let digit = (c as u32 - 48) as i64;
        assert(d.subrange(0, i - 9 + 1).drop_last() =~= d.subrange(0, i - 9));
        let next = match acc.checked_mul(10) {
            Some(t) => t.checked_add(digit),
            None => None,
        };
        match next {
            Some(v) => {
                acc = v;
            },
            None => {
                proof {
                    lemma_decimal_value_nonneg(d.subrange(0, i - 9));
                    if forall|k: int| 0 <= k < d.len() ==> is_ascii_digit(#[trigger] d[k]) {
                        lemma_decimal_prefix_le(d, i - 9 + 1);
                    }
                }
                return Err(CtxExtError::OrgIdInvalid { path: path.to_owned() });
            },
        }
        i = i + 1;
    }
    assert(d.subrange(0, d.len() as int) =~= d);
    Ok(Some(acc))
}

/// What `ctx_for_path` returns for user `user_id` on `path`.
pub open spec fn ctx_for_path_post(user_id: i64, path: Seq<char>, r: Result<CtxW, CtxExtError>) -> bool {
    match path_org_id(path) {
        None => r matches Err(CtxExtError::OrgIdInvalid { path: p }) && p@ == path,
        Some(v) => if user_id == 0 {
            r matches Err(CtxExtError::CtxCreateFail(m)) && m@ == "CtxCannotNewRootCtx"@
        } else {
            r matches Ok(CtxW(c)) && c.spec_user_id() == user_id && match c.spec_org_id() {
                Some(id) => v == Some(id as int),
                None => v is None,
            }
        },
    }
}

/// The context of user `user_id` on `path`: the organisation id that the
/// path carries (or `OrgIdInvalid`), then the context, whose failure is
/// `CtxCreateFail` with the error's name.
pub fn ctx_for_path(user_id: i64, path: &str) -> (r: Result<CtxW, CtxExtError>)
    ensures
        ctx_for_path_post(user_id, path@, r),
{
    let org_id = match extract_org_id(path) {
        Ok(o) => o,
        Err(e) => {
            return Err(e);
        },
    };
    match Ctx::new(user_id, org_id) {
        Ok(c) => Ok(CtxW(c)),
        Err(e) => Err(CtxExtError::CtxCreateFail(e.as_str().to_owned())),
    }
}

/// The first step of resolving the request context: the token that the
/// `auth-token` cookie holds (`TokenNotInCookie` without the cookie,
/// `TokenWrongFormat` when it does not read as a token). The program then
/// fetches the user that the token names and hands it to
/// `ctx_resolve_user`.
pub fn ctx_resolve_token(token_cookie: Option<&str>) -> (r: Result<Token, CtxExtError>)
    ensures
        token_cookie is None ==> r matches Err(CtxExtError::TokenNotInCookie),
        token_cookie matches Some(t) ==> match parse_token_spec(t@) {
            Ok((ident, exp, sign)) => r matches Ok(tok) && tok.ident@ == ident && tok.exp@ == exp
                && tok.sign_b64u@ == sign,
            Err(_) => r matches Err(CtxExtError::TokenWrongFormat),
        },
{
    match token_cookie {
        None => Err(CtxExtError::TokenNotInCookie),
        Some(t) => match parse_token(t) {
            Ok(tok) => Ok(tok),
            Err(_) => Err(CtxExtError::TokenWrongFormat),
        },
    }
}

/// How the request context was resolved: the context, or why there is
/// none, and the token cookie to set, if any.
pub struct CtxResolution {
    pub ctx: Result<CtxW, CtxExtError>,
    pub token_cookie: Option<String>,
}

/// The token cookie that renews a user's token at `now`.
pub open spec fn renewed_token_text(username: Seq<char>, token_salt: Seq<u8>, key: Seq<u8>, exp_at: int) -> Seq<char> {
    let exp = rfc3339_text(exp_at);
    token_text(username, exp, token_sign(username, exp, token_salt, key))
}

/// What `ctx_resolve_user` returns for the user that the token names.
pub open spec fn ctx_resolve_user_post(
    token: Token,
    u: UserForAuth,
    path: Seq<char>,
    key: Seq<u8>,
    now: int,
    duration: int,
    r: CtxResolution,
) -> bool {
    if !(fits_b64u(token.ident@) && fits_b64u(token.exp@)) || token_valid(
        token.ident@,
        token.exp@,
        token.sign_b64u@,
        u.token_salt.bytes@,
        key,
        now,
    ) is Err {
        r.ctx matches Err(CtxExtError::FailValidate) && r.token_cookie is None
    } else if !fits_b64u(u.username@) {
        r.ctx matches Err(CtxExtError::CannotSetTokenCookie) && r.token_cookie is None
    } else {
        &&& r.token_cookie matches Some(c) && c@ == renewed_token_text(
            u.username@,
            u.token_salt.bytes@,
            key,
            now + duration,
        )
        &&& ctx_for_path_post(u.id, path, r.ctx)
    }
}

/// The second step of resolving the request context, once the program has
/// fetched the user that the token names (`Err` with the message when the
/// fetch failed): the token is checked against the user's token salt and
/// the clock, a renewed token is made for the cookie, and the context is
/// that user's on the request path.
pub fn ctx_resolve_user(
    token: &Token,
    user: Result<Option<UserForAuth>, String>,
    path: &str,
    token_key: &[u8],
    now: UtcTime,
    token_duration_nanos: i64,
) -> (r: CtxResolution)
    requires
        rfc3339_writable(now.unix_nanos + token_duration_nanos),
    ensures
        user matches Err(m) ==> (r.ctx matches Err(CtxExtError::ModelAccessError(e)) && e@ == m@
            && r.token_cookie is None),
        user matches Ok(None) ==> (r.ctx matches Err(CtxExtError::UserNotFound)
            && r.token_cookie is None),
        user matches Ok(Some(u)) ==> ctx_resolve_user_post(
            *token,
            u,
            path@,
            token_key@,
            now.unix_nanos as int,
            token_duration_nanos as int,
            r,
        ),
{
    let u = match user {
        Err(m) => {
            return CtxResolution { ctx: Err(CtxExtError::ModelAccessError(m)), token_cookie: None };
        },
        Ok(None) => {
            return CtxResolution { ctx: Err(CtxExtError::UserNotFound), token_cookie: None };
        },
        Ok(Some(u)) => u,
    };
    // -- Validate Token
    let ident_len = token.ident.as_str().as_bytes().len();
    let exp_len = token.exp.as_str().as_bytes().len();
    if ident_len > usize::MAX / 2 || exp_len > usize::MAX / 2 {
        return CtxResolution { ctx: Err(CtxExtError::FailValidate), token_cookie: None };
    }
    if validate_token_sign_and_exp(token, &u.token_salt, token_key, now).is_err() {
        return CtxResolution { ctx: Err(CtxExtError::FailValidate), token_cookie: None };
    }
    // -- Update Token
    if u.username.as_str().as_bytes().len() > usize::MAX / 2 {
        return CtxResolution { ctx: Err(CtxExtError::CannotSetTokenCookie), token_cookie: None };
    }
    let new_token = match generate_token(
        u.username.as_str(),
        now,
        token_duration_nanos,
        &u.token_salt,
        token_key,
    ) {
        Ok(t) => t,
        Err(_) => {
            return CtxResolution { ctx: Err(CtxExtError::CannotSetTokenCookie), token_cookie: None };
        },
    };
    let token_cookie = token_to_string(&new_token);
    // -- Create the context
    let ctx = ctx_for_path(u.id, path);
    CtxResolution { ctx, token_cookie: Some(token_cookie) }
}

/// A token made for a user validates, with the user's token salt and the
/// same key, at every instant up to its expiration, and is refused as
/// expired after it.
pub proof fn lemma_generated_token_validates(
    ident: Seq<char>,
    exp: Seq<char>,
    salt: Seq<u8>,
    key: Seq<u8>,
    exp_at: int,
    now: int,
)
    requires
        rfc3339_instant(exp) == Some(exp_at),
    ensures
        now <= exp_at ==> token_valid(ident, exp, token_sign(ident, exp, salt, key), salt, key, now)
            is Ok,
        now > exp_at ==> token_valid(ident, exp, token_sign(ident, exp, salt, key), salt, key, now)
            == Err::<(), TokenError>(TokenError::Expired),
{
}

/// A request whose token was made for the user, with the user's token salt
/// and the key, and has not expired, resolves to that user's context on a
/// path that carries a valid organisation id (or none), and renews the
/// token cookie.
pub proof fn lemma_valid_token_resolves(
    token: Token,
    u: UserForAuth,
    path: Seq<char>,
    key: Seq<u8>,
    exp_at: int,
    now: int,
    duration: int,
    r: CtxResolution,
)
    requires
        token.sign_b64u@ == token_sign(token.ident@, token.exp@, u.token_salt.bytes@, key),
        rfc3339_instant(token.exp@) == Some(exp_at),
        now <= exp_at,
        fits_b64u(token.ident@),
        fits_b64u(token.exp@),
        fits_b64u(u.username@),
        u.id != 0,
        path_org_id(path) is Some,
        ctx_resolve_user_post(token, u, path, key, now, duration, r),
    ensures
        r.ctx matches Ok(CtxW(c)) && c.spec_user_id() == u.id,
        r.token_cookie matches Some(c) && c@ == renewed_token_text(
            u.username@,
            u.token_salt.bytes@,
            key,
            now + duration,
        ),
{
    lemma_generated_token_validates(token.ident@, token.exp@, u.token_salt.bytes@, key, exp_at, now);
}

/// The routes without an organisation carry none: every path under
/// `/api/orgs/` or starting with `/api/rpc`. The path `/api/org/<d>/rpc`,
/// for a non-empty run of decimal digits `d` whose value fits in `i64`,
/// carries that value; one more digit multiplies the value by ten and adds
/// the digit.
pub proof fn lemma_path_org_ids(rest: Seq<char>, d: Seq<char>, c: char)
    ensures
        path_org_id("/api/orgs/"@ + rest) == Some(None::<int>),
        path_org_id("/api/rpc"@ + rest) == Some(None::<int>),
        d.len() > 0 && (forall|i: int| 0 <= i < d.len() ==> is_ascii_digit(#[trigger] d[i]))
            && decimal_value(d) <= i64::MAX ==> path_org_id("/api/org/"@ + d + "/rpc"@) == Some(
            Some(decimal_value(d)),
        ),
        decimal_value(Seq::empty()) == 0,
        decimal_value(d.push(c)) == decimal_value(d) * 10 + (c as int - '0' as int),
{
    reveal_strlit("/api/orgs/");
    reveal_strlit("/api/rpc");
    reveal_strlit("/api/org/");
    reveal_strlit("/rpc");
    assert(("/api/orgs/"@ + rest).subrange(0, 10) =~= "/api/orgs/"@);
    assert(("/api/rpc"@ + rest).subrange(0, 8) =~= "/api/rpc"@);
    assert(d.push(c).drop_last() =~= d);
    let p = "/api/org/"@ + d + "/rpc"@;
    if d.len() > 0 && (forall|i: int| 0 <= i < d.len() ==> is_ascii_digit(#[trigger] d[i])) {
        assert(p.subrange(0, 9) =~= "/api/org/"@);
        assert(p.subrange(p.len() - 4, p.len() as int) =~= "/rpc"@);
        assert(p.subrange(9, p.len() - 4) =~= d);
        assert(!starts_with(p, "/api/orgs/"@)) by {
            if starts_with(p, "/api/orgs/"@) {
                assert(p.subrange(0, 10)[9] == p[9]);
                assert("/api/orgs/"@[9] == 's');
                assert(p[9] == d[0]);
            }
        }
        assert(!starts_with(p, "/api/rpc"@)) by {
            if starts_with(p, "/api/rpc"@) {
                assert(p.subrange(0, 8)[5] == p[5]);
                assert("/api/rpc"@[5] == 'r');
                assert(p[5] == 'o');
            }
        }
    }
}

} // verus!
