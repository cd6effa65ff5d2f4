use rust_web_app::b64::{b64_encode_standard, b64u_encode};

#[test]
fn b64u_rfc4648_vectors() {
	assert_eq!(b64u_encode(b""), "");
	assert_eq!(b64u_encode(b"f"), "Zg");
	assert_eq!(b64u_encode(b"fo"), "Zm8");
	assert_eq!(b64u_encode(b"foo"), "Zm9v");
	assert_eq!(b64u_encode(b"foob"), "Zm9vYg");
	assert_eq!(b64u_encode(&[0xfb, 0xff]), "-_8");
}

#[test]
fn b64_standard_pads() {
	assert_eq!(b64_encode_standard(b"f"), "Zg==");
	assert_eq!(b64_encode_standard(b"fo"), "Zm8=");
	assert_eq!(b64_encode_standard(&[0xfb, 0xff]), "+/8=");
}
