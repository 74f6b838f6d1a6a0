use card_wallet::errors::{ErrorMessage, HttpMessage};
use card_wallet::pin_hasher::{pin_compare, pin_hash};
use card_wallet::qr::{check_qr_payload, qr_link, qr_payload, qr_png, read_qr_link, sign, QR_ALPHABET};
use base64::Engine;

#[test]
fn pin_hash_length_errors() {
    assert_eq!(pin_hash(b""), Err(ErrorMessage::EmptyPin));
    assert_eq!(pin_hash(b"12345"), Err(ErrorMessage::PasswordTooShort(6)));
    assert_eq!(pin_hash(b"1234567"), Err(ErrorMessage::ExceededMaxPinLength(6)));
}

#[test]
fn pin_compare_length_errors() {
    assert_eq!(pin_compare(b"", "x"), Err(ErrorMessage::EmptyPin));
    assert_eq!(pin_compare(b"123", "x"), Err(ErrorMessage::PinTooShort(6)));
    assert_eq!(pin_compare(b"1234567", "x"), Err(ErrorMessage::ExceededMaxPinLength(6)));
}

#[test]
fn pin_compare_refuses_malformed_hash() {
    assert_eq!(pin_compare(b"123456", "not a hash"), Err(ErrorMessage::InvalidHashFormat));
}

#[test]
fn hashed_pin_verifies_and_other_pin_does_not() {
    let h = pin_hash(b"123456").unwrap();
    assert!(h.starts_with("$argon2id$"));
    assert_eq!(pin_compare(b"123456", &h), Ok(true));
    assert_eq!(pin_compare(b"654321", &h), Ok(false));
    // a fresh salt each time
    let h2 = pin_hash(b"123456").unwrap();
    assert_ne!(h, h2);
}

#[test]
fn signature_is_lower_case_hex_of_hmac_sha256() {
    assert_eq!(sign("The quick brown fox jumps over the lazy dog", "key"), "f7bc83f430538424b13298e6aa6fb143ef4d59a14946175997479dbc2d1a3cd8");
    assert_eq!(sign("", ""), "b613679a0814d9ec772f95d778c35fc5ff1697c493715653c6c712144292c5ad");
}

#[test]
fn payload_starts_with_hyphenated_id() {
    let id: u128 = 0x67e5_5044_10b1_426f_9247_bb68_0e5f_e0c8;
    assert!(qr_payload(id, "k").starts_with("67e55044-10b1-426f-9247-bb680e5fe0c8:"));
    assert!(qr_payload(1, "k").starts_with("00000000-0000-0000-0000-000000000001:"));
}

#[test]
fn payload_with_simple_uuid_form_reads_back() {
    let id: u128 = 0x67e5_5044_10b1_426f_9247_bb68_0e5f_e0c8;
    let simple = "67e5504410b1426f9247bb680e5fe0c8";
    let payload = format!("{}:{}", simple, sign(simple, "k"));
    assert_eq!(check_qr_payload(payload.into_bytes(), "k").map_err(|e| e.status), Ok(id));
}

#[test]
fn payload_is_id_colon_signature() {
    let id: u128 = 0x67e5_5044_10b1_426f_9247_bb68_0e5f_e0c8;
    let p = qr_payload(id, "secret");
    let expected = format!("67e55044-10b1-426f-9247-bb680e5fe0c8:{}", sign("67e55044-10b1-426f-9247-bb680e5fe0c8", "secret"));
    assert_eq!(p, expected);
    assert_eq!(p.len(), 101);
}

#[test]
fn signed_payload_reads_back() {
    let id: u128 = 42;
    let p = qr_payload(id, "s3cret");
    assert_eq!(check_qr_payload(p.into_bytes(), "s3cret").map_err(|e| e.status), Ok(id));
}

#[test]
fn payload_under_other_secret_is_tampered() {
    let p = qr_payload(42, "one");
    let e = check_qr_payload(p.into_bytes(), "two").unwrap_err();
    assert_eq!(e.status, 400);
    assert!(matches!(e.message, HttpMessage::Text(ref t) if t == "Qr is tampered!"));
}

#[test]
fn payload_without_single_colon_is_invalid() {
    let e = check_qr_payload(b"a:b:c".to_vec(), "k").unwrap_err();
    assert_eq!(e.status, 400);
    assert!(matches!(e.message, HttpMessage::Text(ref t) if t == "Invaild Qr!"));
    let e = check_qr_payload(b"abc".to_vec(), "k").unwrap_err();
    assert!(matches!(e.message, HttpMessage::Text(ref t) if t == "Invaild Qr!"));
}

#[test]
fn payload_with_bad_id_is_server_error() {
    let sig = sign("nope", "k");
    let e = check_qr_payload(format!("nope:{}", sig).into_bytes(), "k").unwrap_err();
    assert_eq!(e.status, 500);
}

#[test]
fn payload_not_utf8_is_server_error() {
    let e = check_qr_payload(vec![0xff, 0x3a, 0x41], "k").unwrap_err();
    assert_eq!(e.status, 500);
    assert!(matches!(e.message, HttpMessage::Known(ErrorMessage::ServerError)));
}

/// Standard base64 text written with the QR alphabet in place of the standard one.
fn in_qr_alphabet(standard: &str) -> String {
    const STANDARD: &str = "ABCDEFGHIJKLMNOPQRSTUVWXYZabcdefghijklmnopqrstuvwxyz0123456789+/";
    standard.chars().map(|c| match STANDARD.find(c) { Some(i) => QR_ALPHABET.as_bytes()[i] as char, None => c }).collect()
}

#[test]
fn qr_link_is_base64_of_payload_in_qr_alphabet() {
    let payload = qr_payload(7, "k");
    let expected = in_qr_alphabet(&base64::engine::general_purpose::STANDARD.encode(payload.as_bytes()));
    assert_eq!(qr_link(7, "k"), expected);
}

#[test]
fn reading_decodes_with_qr_alphabet() {
    // "WO" is "a" in the QR alphabet: it decodes, and then holds no ':'
    let e = read_qr_link("WO", "k").unwrap_err();
    assert!(matches!(e.message, HttpMessage::Text(ref t) if t == "Invaild Qr!"));
    // padding is refused
    let e = read_qr_link("WO==", "k").unwrap_err();
    assert!(matches!(e.message, HttpMessage::Text(ref t) if t == "Invalid QR link"));
}

#[test]
fn qr_link_is_padded_and_so_refused_by_reader() {
    let id: u128 = 7;
    let link = qr_link(id, "k");
    assert!(link.ends_with('='));
    let e = read_qr_link(&link, "k").unwrap_err();
    assert_eq!(e.status, 400);
    assert!(matches!(e.message, HttpMessage::Text(ref t) if t == "Invalid QR link"));
    // without its padding the link reads back
    let trimmed = link.trim_end_matches('=');
    assert_eq!(read_qr_link(trimmed, "k").map_err(|e| e.status), Ok(id));
}

#[test]
fn qr_picture_is_png() {
    let png = qr_png(qr_link(7, "k").as_bytes()).map_err(|e| e.status).unwrap();
    assert_eq!(&png[..8], &[0x89, b'P', b'N', b'G', 0x0d, 0x0a, 0x1a, 0x0a]);
}

#[test]
fn qr_picture_of_too_much_data_fails() {
    let big = vec![b'x'; 8000];
    let e = qr_png(&big).unwrap_err();
    assert_eq!(e.status, 500);
    assert!(matches!(e.message, HttpMessage::Text(ref t) if t == "QR generation failed"));
}
