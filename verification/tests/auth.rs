use rust_web_app::b64::{b64u_decode, b64u_decode_to_string, b64u_encode};
use rust_web_app::model::user::{UserForAuth, UserForLogin};
use rust_web_app::model::UtcTime;
use rust_web_app::pwd::scheme::scheme_01::hmac_sha512_hash;
use rust_web_app::pwd::{hash_for_scheme, hash_pwd, ContentToHash};
use rust_web_app::token::{
	generate_token, parse_token, token_sign_into_b64u, token_to_string, validate_token_sign_and_exp, Error as TokenError,
	Token,
};
use rust_web_app::utc::{format_time, is_rfc3339_writable, parse_utc};
use rust_web_app::uuid::{uuid_parse, Uuid};
use rust_web_app::web::error::Error;
use rust_web_app::web::login::login_decide;
use rust_web_app::web::mw_auth::{ctx_resolve_token, ctx_resolve_user, CtxExtError};

const SEC: i64 = 1_000_000_000;

fn salt() -> Uuid {
	uuid_parse("f05e8961-d6ad-4086-9e78-a6de065e5453").unwrap()
}

fn other_salt() -> Uuid {
	uuid_parse("a05e8961-d6ad-4086-9e78-a6de065e5453").unwrap()
}

fn key() -> Vec<u8> {
	(0u8..64).collect()
}

fn now() -> UtcTime {
	UtcTime { unix_nanos: 1_700_000_000 * SEC as i128 }
}

#[test]
fn b64u_decode_reads_canonical_encodings() {
	assert_eq!(b64u_decode("aGVsbG8"), Some(b"hello".to_vec()));
	assert_eq!(b64u_decode(&b64u_encode(&[0xfb, 0xff])), Some(vec![0xfb, 0xff]));
	assert_eq!(b64u_decode("a"), None);
	assert_eq!(b64u_decode("aGVsbG8="), None);
	assert_eq!(b64u_decode("a+b/"), None);
	assert_eq!(b64u_decode_to_string("aGVsbG8").as_deref(), Some("hello"));
	assert_eq!(b64u_decode_to_string(&b64u_encode(&[0xff, 0xfe])), None);
}

#[test]
fn utc_text_round_trip() {
	assert_eq!(format_time(UtcTime { unix_nanos: 0 }), "1970-01-01T00:00:00Z");
	assert_eq!(format_time(UtcTime { unix_nanos: 1_500_000_000 }), "1970-01-01T00:00:01.5Z");
	assert_eq!(parse_utc("1970-01-01T00:00:01.5Z").unwrap().unix_nanos, 1_500_000_000);
	assert_eq!(parse_utc("2023-11-14T22:13:20Z").unwrap().unix_nanos, now().unix_nanos);
	assert!(parse_utc("yesterday").is_err());
	assert!(is_rfc3339_writable(0));
	assert!(!is_rfc3339_writable(253_402_300_800_000_000_000));
}

#[test]
fn token_text_round_trip() {
	let t = generate_token("demo1", now(), 1800 * SEC, &salt(), &key()).unwrap();
	assert_eq!(t.ident, "demo1");
	assert_eq!(t.exp, "2023-11-14T22:43:20Z");
	let text = token_to_string(&t);
	assert_eq!(text.split('.').count(), 3);
	let back = parse_token(&text).unwrap();
	assert_eq!((back.ident, back.exp, back.sign_b64u), (t.ident, t.exp, t.sign_b64u));
}

#[test]
fn token_parse_errors() {
	assert_eq!(parse_token("a.b").unwrap_err(), TokenError::InvalidFormat);
	assert_eq!(parse_token("a.b.c.d").unwrap_err(), TokenError::InvalidFormat);
	assert_eq!(parse_token("!!.ZXhw.sig").unwrap_err(), TokenError::CannotDecodeIdent);
	assert_eq!(parse_token("ZGVtbzE.!!.sig").unwrap_err(), TokenError::CannotDecodeExp);
}

#[test]
fn token_validation() {
	let t = generate_token("demo1", now(), 60 * SEC, &salt(), &key()).unwrap();
	assert!(validate_token_sign_and_exp(&t, &salt(), &key(), now()).is_ok());
	let at_exp = UtcTime { unix_nanos: now().unix_nanos + 60 * SEC as i128 };
	assert!(validate_token_sign_and_exp(&t, &salt(), &key(), at_exp).is_ok());
	let after = UtcTime { unix_nanos: at_exp.unix_nanos + 1 };
	assert_eq!(validate_token_sign_and_exp(&t, &salt(), &key(), after), Err(TokenError::Expired));
	assert_eq!(
		validate_token_sign_and_exp(&t, &other_salt(), &key(), now()),
		Err(TokenError::SignatureNotMatching)
	);
	let bad_exp = Token {
		ident: "demo1".to_string(),
		exp: "soon".to_string(),
		sign_b64u: token_sign_into_b64u("demo1", "soon", &salt(), &key()).unwrap(),
	};
	assert_eq!(validate_token_sign_and_exp(&bad_exp, &salt(), &key(), now()), Err(TokenError::ExpNotIso));
}

fn user_for_auth() -> UserForAuth {
	UserForAuth { id: 1000, username: "demo1".to_string(), token_salt: salt() }
}

#[test]
fn ctx_resolve_token_reads_cookie() {
	assert!(matches!(ctx_resolve_token(None), Err(CtxExtError::TokenNotInCookie)));
	assert!(matches!(ctx_resolve_token(Some("user-1.exp.sign")), Err(CtxExtError::TokenWrongFormat)));
	assert!(matches!(ctx_resolve_token(Some("nodots")), Err(CtxExtError::TokenWrongFormat)));
	let text = token_to_string(&generate_token("demo1", now(), 60 * SEC, &salt(), &key()).unwrap());
	let t = ctx_resolve_token(Some(&text)).unwrap();
	assert_eq!(t.ident, "demo1");
}

#[test]
fn ctx_resolve_user_outcomes() {
	let t = generate_token("demo1", now(), 60 * SEC, &salt(), &key()).unwrap();

	let r = ctx_resolve_user(&t, Err("db down".to_string()), "/api/rpc", &key(), now(), 60 * SEC);
	assert!(matches!(r.ctx, Err(CtxExtError::ModelAccessError(m)) if m == "db down"));
	assert!(r.token_cookie.is_none());

	let r = ctx_resolve_user(&t, Ok(None), "/api/rpc", &key(), now(), 60 * SEC);
	assert!(matches!(r.ctx, Err(CtxExtError::UserNotFound)));

	let r = ctx_resolve_user(&t, Ok(Some(user_for_auth())), "/api/org/7/rpc", &key(), now(), 60 * SEC);
	let ctx = r.ctx.unwrap().0;
	assert_eq!((ctx.user_id(), ctx.org_id()), (1000, Some(7)));
	let renewed = parse_token(&r.token_cookie.unwrap()).unwrap();
	assert_eq!(renewed.ident, "demo1");
	assert_eq!(renewed.exp, "2023-11-14T22:14:20Z");

	let later = UtcTime { unix_nanos: now().unix_nanos + 61 * SEC as i128 };
	let r = ctx_resolve_user(&t, Ok(Some(user_for_auth())), "/api/rpc", &key(), later, 60 * SEC);
	assert!(matches!(r.ctx, Err(CtxExtError::FailValidate)));
	assert!(r.token_cookie.is_none());

	let stranger = UserForAuth { token_salt: other_salt(), ..user_for_auth() };
	let r = ctx_resolve_user(&t, Ok(Some(stranger)), "/api/rpc", &key(), now(), 60 * SEC);
	assert!(matches!(r.ctx, Err(CtxExtError::FailValidate)));

	// The cookie is renewed even when the path carries no valid organisation.
	let r = ctx_resolve_user(&t, Ok(Some(user_for_auth())), "/api/org/x/rpc", &key(), now(), 60 * SEC);
	assert!(matches!(r.ctx, Err(CtxExtError::OrgIdInvalid { .. })));
	assert!(r.token_cookie.is_some());
}

fn user_for_login(pwd: Option<String>) -> UserForLogin {
	UserForLogin { id: 1000, username: "demo1".to_string(), pwd, pwd_salt: salt(), token_salt: salt() }
}

fn to_hash(content: &str) -> ContentToHash {
	ContentToHash { content: content.to_string(), salt: salt() }
}

#[test]
fn login_decisions() {
	let k = key();
	let d = login_decide(None, "welcome".to_string(), &k, &k, now(), 60 * SEC);
	assert!(matches!(d.result, Err(Error::LoginFailUsernameNotFound)));

	let d = login_decide(Some(user_for_login(None)), "welcome".to_string(), &k, &k, now(), 60 * SEC);
	assert!(matches!(d.result, Err(Error::LoginFailUserHasNoPwd { user_id: 1000 })));

	let stored = hash_pwd(&k, &to_hash("welcome")).unwrap();
	let d = login_decide(Some(user_for_login(Some(stored.clone()))), "welcome".to_string(), &k, &k, now(), 60 * SEC);
	assert!(d.result.is_ok());
	assert!(d.new_pwd.is_none());
	assert_eq!(parse_token(&d.token_cookie.unwrap()).unwrap().ident, "demo1");

	let d = login_decide(Some(user_for_login(Some(stored))), "nope".to_string(), &k, &k, now(), 60 * SEC);
	assert!(matches!(d.result, Err(Error::LoginFailPwdNotMatching { user_id: 1000 })));
	assert!(d.token_cookie.is_none());

	// A password stored with scheme "01" is upgraded to the default scheme.
	let old = hash_for_scheme(&k, "01", &to_hash("welcome")).unwrap();
	assert_eq!(old, format!("#01#{}", hmac_sha512_hash(&k, &to_hash("welcome")).unwrap()));
	let d = login_decide(Some(user_for_login(Some(old))), "welcome".to_string(), &k, &k, now(), 60 * SEC);
	assert!(d.result.is_ok());
	assert!(d.new_pwd.unwrap().starts_with("#02#"));
	assert!(d.token_cookie.is_some());
}
