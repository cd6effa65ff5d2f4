use base64::engine::general_purpose::URL_SAFE_NO_PAD;
use base64::Engine;
use rand::RngCore;
use rust_web_app::pwd::scheme::scheme_01::{hmac_sha512_hash, EncryptContent};
use rust_web_app::pwd::scheme::{get_scheme, Scheme, Scheme01, Scheme02, SchemeStatus};
use rust_web_app::pwd::{
	hash_for_scheme, hash_pwd, parse_pwd, valid_key_len, validate_pwd, ContentToHash, Error, PwdParts,
};
use rust_web_app::uuid::uuid_parse;

/// The password key of the development configuration (`SERVICE_PWD_KEY`).
fn dev_pwd_key() -> Vec<u8> {
	URL_SAFE_NO_PAD
		.decode("CKUGFOD9_2Qf6Pn3ZFRYgPYb8ht4vKqEG9PGMXTB7497bT0367DjoaD6ydFnEVaIRda0kKeBZVCT5Hb62m2sCA")
		.unwrap()
}

#[test]
fn test_scheme_01_hash_into_b64u_ok() {
	// -- Setup & Fixtures
	let fx_salt = uuid_parse("f05e8961-d6ad-4086-9e78-a6de065e5453").unwrap();
	let fx_key = dev_pwd_key(); // 512 bits = 64 bytes
	let fx_to_hash = ContentToHash {
		content: "hello world".to_string(),
		salt: fx_salt,
	};
	let fx_res = "qO9A90161DoewhNXFwVcnAaljRIVnajvd5zsVDrySCwxpoLwVCACzaz-8Ev2ZpI8RackUTLBVqFI6H5oMe-OIg";

	// -- Exec
	let res = hmac_sha512_hash(&fx_key, &fx_to_hash).unwrap();

	// -- Check
	assert_eq!(res, fx_res);
}

#[test]
fn test_hash_into_b64u_ok() {
	// -- Setup & Fixture
	let mut fx_key = [0u8; 64]; // 512 bits = 64 bytes
	rand::thread_rng().fill_bytes(&mut fx_key);
	let fx_to_hash = ContentToHash {
		content: "hello world".to_string(),
		salt: uuid_parse("f05e8961-d6ad-4086-9e78-a6de065e5453").unwrap(),
	};
	let fx_res = hmac_sha512_hash(&fx_key, &fx_to_hash).unwrap();

	// -- Exec
	let res = hmac_sha512_hash(&fx_key, &fx_to_hash).unwrap();

	// -- Check
	assert_eq!(res, fx_res);
}

#[test]
fn test_encrypt_into_b64u_ok() {
	// -- Setup & Fixture
	let mut fx_key = [0u8; 64]; // 512 bits = 64 bytes
	rand::thread_rng().fill_bytes(&mut fx_key);
	let fx_enc_content = EncryptContent {
		content: "hello world".to_string(),
		salt: "some pepper".to_string(),
	};
	let fx_res = Scheme01.encrypt(&fx_key, &fx_enc_content).unwrap();

	// -- Exec
	let res = Scheme01.encrypt(&fx_key, &fx_enc_content).unwrap();

	// -- Check
	assert_eq!(res, fx_res);
}

#[test]
fn test_scheme_02_hash_into_b64u_ok() {
	// -- Setup & Fixtures
	let fx_to_hash = ContentToHash {
		content: "hello world".to_string(),
		salt: uuid_parse("f05e8961-d6ad-4086-9e78-a6de065e5453").unwrap(),
	};
	let fx_res = "$argon2id$v=19$m=19456,t=2,p=1$8F6JYdatQIaeeKbeBl5UUw$TaRnmmbDdQ1aTzk2qQ2yQzPQoZfnKqhrfuTH/TRP5V4";

	// -- Exec
	let scheme = Scheme02;
	let res = scheme.hash(&dev_pwd_key(), &fx_to_hash).unwrap();

	// -- Check
	assert_eq!(res, fx_res);
}

#[test]
fn test_validate() {
	// -- Setup & Fixtures
	let fx_salt = uuid_parse("f05e8961-d6ad-4086-9e78-a6de065e5453").unwrap();
	let fx_pwd_clear = "welcome";
	let key = dev_pwd_key();

	let pwd_enc_1 = hash_pwd(
		&key,
		&ContentToHash {
			salt: fx_salt,
			content: fx_pwd_clear.to_string(),
		},
	)
	.unwrap();

	validate_pwd(
		&key,
		&ContentToHash {
			salt: fx_salt,
			content: fx_pwd_clear.to_string(),
		},
		&pwd_enc_1,
	)
	.unwrap();
}

#[test]
fn test_parse_pwd_ok() {
	// -- Fixtures
	let fx_pwd = "#01#DdVzPPKKpjs-xuf-Y88t3MpQ5KPDqa7C2gpaTIysHnHIzX_j2IgNb3WtEDHLfF2ps1OWVPKOkgLFvvDMvNrN-A";

	// -- Exec
	let PwdParts { scheme_name, .. } = parse_pwd(fx_pwd).unwrap();

	// -- Check
	assert_eq!(scheme_name, "01");
}

#[test]
fn test_parse_pwd_err_without() {
	// -- Fixtures
	let fx_pwd = "DdVzPPKKpjs-xuf-Y88t3MpQ5KPDqa7C2gpaTIysHnHIzX_j2IgNb3WtEDHLfF2ps1OWVPKOkgLFvvDMvNrN-A";

	// -- Exec
	let res = parse_pwd(fx_pwd);

	// -- Check
	assert!(
		matches!(res, Err(Error::SchemeNotInContent)),
		"Error not matching. Should have been SchemeNotFoundInContent"
	);
}

#[test]
fn test_scheme_upgrade_ok() {
	// -- Fixtures
	let fx_salt = uuid_parse("f05e8961-d6ad-4086-9e78-a6de065e5453").unwrap();
	let fx_pwd_clear = "welcome";
	let fx_to_hash = ContentToHash {
		content: fx_pwd_clear.to_string(),
		salt: fx_salt,
	};
	let fx_02_pwd = "#02#$argon2id$v=19$m=19456,t=2,p=1$8F6JYdatQIaeeKbeBl5UUw$H0HJXVHWXDh/B1BOlY+ov5hBNc8Sd434KERqgljWSxk";
	let key = dev_pwd_key();

	// -- scheme 01 hash & validate & check
	let pwd_01 = hash_for_scheme(&key, "01", &fx_to_hash).unwrap();
	let scheme_status = validate_pwd(&key, &fx_to_hash, &pwd_01).unwrap();
	assert!(
		matches!(scheme_status, SchemeStatus::Outdated),
		"scheme 01 should be Outdated"
	);

	// -- normal hash & validate & check
	let pwd_default = hash_pwd(&key, &fx_to_hash).unwrap();
	assert_eq!(pwd_default, fx_02_pwd);
	let scheme_status = validate_pwd(&key, &fx_to_hash, &pwd_default).unwrap();
	assert!(
		matches!(scheme_status, SchemeStatus::Latest),
		"scheme 02 should be Ok"
	);
}

#[test]
fn test_multi_scheme_ok() {
	// -- Setup & Fixtures
	let fx_salt = uuid_parse("f05e8961-d6ad-4086-9e78-a6de065e5453").unwrap();
	let fx_to_hash = ContentToHash {
		content: "hello world".to_string(),
		salt: fx_salt,
	};
	let key = dev_pwd_key();

	// -- Exec
	let pwd_hashed = hash_for_scheme(&key, "01", &fx_to_hash).unwrap();
	let pwd_validate = validate_pwd(&key, &fx_to_hash, &pwd_hashed).unwrap();

	// -- Check
	assert!(
		matches!(pwd_validate, SchemeStatus::Outdated),
		"status should be SchemeStatus::Outdated"
	);
}

// -- Further scenarios of the password schemes.

#[test]
fn validate_rejects_other_content_scheme_01() {
	let key = dev_pwd_key();
	let salt = uuid_parse("f05e8961-d6ad-4086-9e78-a6de065e5453").unwrap();
	let stored = hash_for_scheme(&key, "01", &ContentToHash { content: "welcome".to_string(), salt }).unwrap();
	let res = validate_pwd(&key, &ContentToHash { content: "welcome!".to_string(), salt }, &stored);
	assert!(matches!(
		res,
		Err(Error::Scheme { ref scheme_name, scheme_error: rust_web_app::pwd::scheme::Error::PwdValidate })
			if scheme_name == "01"
	));
}

#[test]
fn validate_rejects_other_content_scheme_02() {
	let key = dev_pwd_key();
	let salt = uuid_parse("f05e8961-d6ad-4086-9e78-a6de065e5453").unwrap();
	let stored = hash_pwd(&key, &ContentToHash { content: "welcome".to_string(), salt }).unwrap();
	let res = validate_pwd(&key, &ContentToHash { content: "welcome!".to_string(), salt }, &stored);
	assert!(matches!(
		res,
		Err(Error::Scheme { ref scheme_name, scheme_error: rust_web_app::pwd::scheme::Error::PwdValidate })
			if scheme_name == "02"
	));
}

#[test]
fn validate_unreadable_phc_gives_hash_error() {
	let key = dev_pwd_key();
	let salt = uuid_parse("f05e8961-d6ad-4086-9e78-a6de065e5453").unwrap();
	let res = validate_pwd(&key, &ContentToHash { content: "welcome".to_string(), salt }, "#02#not a phc string");
	assert!(matches!(
		res,
		Err(Error::Scheme { scheme_error: rust_web_app::pwd::scheme::Error::Hash, .. })
	));
}

#[test]
fn unknown_scheme_is_reported() {
	let key = dev_pwd_key();
	let salt = uuid_parse("f05e8961-d6ad-4086-9e78-a6de065e5453").unwrap();
	let to_hash = ContentToHash { content: "welcome".to_string(), salt };
	assert!(matches!(hash_for_scheme(&key, "03", &to_hash), Err(Error::SchemeUnknown(ref n)) if n == "03"));
	assert!(matches!(validate_pwd(&key, &to_hash, "#03#abc"), Err(Error::SchemeUnknown(ref n)) if n == "03"));
	assert!(matches!(get_scheme("03"), Err(rust_web_app::pwd::scheme::Error::SchemeNotFound(ref n)) if n == "03"));
}

#[test]
fn parse_pwd_follows_the_pattern() {
	let parts = parse_pwd("#01#abc\ndef").unwrap();
	assert_eq!(parts.scheme_name, "01");
	assert_eq!(parts.raw, "abc");
	let parts = parse_pwd("#a_Z9##x#y").unwrap();
	assert_eq!(parts.scheme_name, "a_Z9");
	assert_eq!(parts.raw, "#x#y");
	let parts = parse_pwd("#é1#").unwrap();
	assert_eq!(parts.scheme_name, "é1");
	assert_eq!(parts.raw, "");
	assert!(matches!(parse_pwd("##abc"), Err(Error::SchemeNotInContent)));
	assert!(matches!(parse_pwd("#01"), Err(Error::SchemeNotInContent)));
	assert!(matches!(parse_pwd("#0 1#abc"), Err(Error::SchemeNotInContent)));
	assert!(matches!(parse_pwd(""), Err(Error::SchemeNotInContent)));
}

#[test]
fn scheme_01_hash_is_b64u_of_64_bytes() {
	let key = dev_pwd_key();
	let salt = uuid_parse("f05e8961-d6ad-4086-9e78-a6de065e5453").unwrap();
	let res = Scheme01.hash(&key, &ContentToHash { content: "x".to_string(), salt }).unwrap();
	assert_eq!(res.len(), 86);
	assert!(res.chars().all(|c| c.is_ascii_alphanumeric() || c == '-' || c == '_'));
}

#[test]
fn key_length_bound() {
	assert!(valid_key_len(&[]));
	assert!(valid_key_len(&[7u8; 64]));
}
