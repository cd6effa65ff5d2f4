use rust_web_app::uuid::{uuid_new, uuid_parse, uuid_to_b64, uuid_to_hyphenated, Error};

#[test]
fn uuid_parse_accepts_all_forms() {
	let expected: [u8; 16] = [
		0xf0, 0x5e, 0x89, 0x61, 0xd6, 0xad, 0x40, 0x86, 0x9e, 0x78, 0xa6, 0xde, 0x06, 0x5e, 0x54, 0x53,
	];
	for text in [
		"f05e8961-d6ad-4086-9e78-a6de065e5453",
		"F05E8961-D6AD-4086-9E78-A6DE065E5453",
		"f05e8961d6ad40869e78a6de065e5453",
		"{f05e8961-d6ad-4086-9e78-a6de065e5453}",
		"urn:uuid:f05e8961-d6ad-4086-9e78-a6de065e5453",
		"URN:Uuid:f05e8961-d6ad-4086-9e78-a6de065e5453",
	] {
		assert_eq!(uuid_parse(text).unwrap().bytes, expected, "{text}");
	}
}

#[test]
fn uuid_parse_rejects_others() {
	for text in [
		"",
		"f05e8961-d6ad-4086-9e78-a6de065e545",
		"f05e8961-d6ad-4086-9e78-a6de065e545g",
		"f05e8961+d6ad-4086-9e78-a6de065e5453",
		"[f05e8961-d6ad-4086-9e78-a6de065e5453]",
		"urn:uid:f05e8961-d6ad-4086-9e78-a6de065e54531",
	] {
		assert_eq!(uuid_parse(text), Err(Error::FailParse), "{text}");
	}
}

#[test]
fn uuid_new_is_version_4() {
	let u = uuid_new();
	assert_eq!(u.bytes[6] >> 4, 4);
	assert_eq!(u.bytes[8] >> 6, 2);
	assert_ne!(uuid_new(), u);
}

#[test]
fn uuid_to_b64_is_standard_padded() {
	let u = uuid_parse("f05e8961-d6ad-4086-9e78-a6de065e5453").unwrap();
	assert_eq!(uuid_to_b64(u), "8F6JYdatQIaeeKbeBl5UUw==");
}

#[test]
fn uuid_hyphenated_round_trip() {
	let text = "f05e8961-d6ad-4086-9e78-a6de065e5453";
	let u = uuid_parse(text).unwrap();
	assert_eq!(uuid_to_hyphenated(&u), text);
	for form in [
		"F05E8961-D6AD-4086-9E78-A6DE065E5453",
		"f05e8961d6ad40869e78a6de065e5453",
		"{f05e8961-d6ad-4086-9e78-a6de065e5453}",
		"urn:uuid:f05e8961-d6ad-4086-9e78-a6de065e5453",
	] {
		assert_eq!(uuid_to_hyphenated(&uuid_parse(form).unwrap()), text);
	}
	let fresh = uuid_new();
	assert_eq!(uuid_parse(&uuid_to_hyphenated(&fresh)).unwrap(), fresh);
	assert_eq!(uuid_to_hyphenated(&fresh), uuid::Uuid::from_bytes(fresh.bytes).to_string());
}
