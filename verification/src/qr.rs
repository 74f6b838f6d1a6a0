//! The card's QR code: its payload is the card's id and an HMAC-SHA256 tag of
//! that id, joined by `:`, written in base64 with the service's own alphabet.
//! A vendor's scan gives the text back; reading it checks the tag and yields
//! the card's id.
use vstd::prelude::*;
use vstd::utf8::{decode_utf8, encode_utf8, valid_utf8};
use vstd::arithmetic::power::pow;
use vstd::string::StringSliceAdditionalSpecFns;
use base64::{alphabet::Alphabet, engine, Engine};
use hmac::{Hmac, Mac};
use sha2::Sha256;
use uuid::Uuid;
use qrcode::QrCode;
use image::{DynamicImage, ImageBuffer, ImageFormat, Luma};
use crate::errors::{text, ErrorMessage, HttpError, HttpErrorView, HttpMessage, HttpMessageView, http_error, STATUS_BAD_REQUEST, STATUS_INTERNAL_SERVER_ERROR};

verus! {

/// The lower-case hexadecimal digit of `v` (below 16).
pub open spec fn hex_digit(v: int) -> char {
    if v < 10 { (48 + v) as char } else { (87 + v) as char }
}

/// `bytes` in lower-case hexadecimal, two digits a byte.
pub open spec fn hex_lower(bytes: Seq<u8>) -> Seq<char>
    decreases bytes.len(),
{
    if bytes.len() == 0 {
        Seq::empty()
    } else {
        hex_lower(bytes.drop_last()) + seq![hex_digit(bytes.last() as int / 16), hex_digit(bytes.last() as int % 16)]
    }
}

/// Calls `hex::encode`, which writes bytes in lower-case hexadecimal.
#[verifier::external_body]
pub(crate) fn hex_encode(data: &[u8]) -> (r: String)
    ensures
        r@ == hex_lower(data@),
{
    hex::encode(data)
}

/// The HMAC-SHA256 tag of `msg` under `key`.
pub uninterp spec fn hmac_sha256(key: Seq<u8>, msg: Seq<u8>) -> Seq<u8>;

/// Computes HMAC-SHA256 with `hmac` and `sha2`: `Hmac::<Sha256>::new_from_slice`
/// (which takes a key of any length), `update`, `finalize`. Claims that the tag
/// is a function of key and message, named `hmac_sha256`, of 32 bytes.
#[verifier::external_body]
pub(crate) fn hmac_sha256_tag(key: &[u8], msg: &[u8]) -> (r: Vec<u8>)
    ensures
        r@ == hmac_sha256(key@, msg@),
        r@.len() == 32,
{
    let mut mac = <Hmac<Sha256> as Mac>::new_from_slice(key).expect("HMAC takes a key of any size");
    mac.update(msg);
    mac.finalize().into_bytes().to_vec()
}

/// The signature of `data` under `secret`: its HMAC-SHA256 tag in hexadecimal.
pub open spec fn signature_of(data: Seq<u8>, secret: Seq<u8>) -> Seq<char> {
    hex_lower(hmac_sha256(secret, data))
}

/// Signs `data` with `secret`: the HMAC-SHA256 tag of its bytes, in hexadecimal.
pub fn sign(data: &str, secret: &str) -> (r: String)
    ensures
        r@ == signature_of(data.spec_bytes(), secret.spec_bytes()),
        r@.len() == 64,
{
    let tag = hmac_sha256_tag(secret.as_bytes(), data.as_bytes());
    proof {
        lemma_hex_lower(tag@);
    }
    hex_encode(tag.as_slice())
}

/// The 16 bytes of a UUID, most significant first.
pub open spec fn uuid_bytes(id: u128) -> Seq<u8> {
    Seq::new(16, |i: int| ((id as int / pow(256, (15 - i) as nat)) % 256) as u8)
}

/// A UUID as text: 32 lower-case hexadecimal digits in groups of 8, 4, 4, 4
/// and 12, joined by `-`.
pub open spec fn uuid_text(id: u128) -> Seq<char> {
    let h = hex_lower(uuid_bytes(id));
    h.subrange(0, 8) + seq!['-'] + h.subrange(8, 12) + seq!['-'] + h.subrange(12, 16)
        + seq!['-'] + h.subrange(16, 20) + seq!['-'] + h.subrange(20, 32)
}

/// Calls `Uuid::from_u128(id).to_string()`, which writes the UUID hyphenated
/// in lower case.
#[verifier::external_body]
pub(crate) fn uuid_to_string(id: u128) -> (r: String)
    ensures
        r@ == uuid_text(id),
{
    Uuid::from_u128(id).to_string()
}

/// What `Uuid::parse_str` gives for `s`: the UUID's value, or the text of its error.
pub uninterp spec fn uuid_parse_result(s: Seq<char>) -> Result<u128, Seq<char>>;

/// Where `text` is the hyphenated form of a UUID, `r` is that UUID.
pub open spec fn hyphenated_reads_back(text: Seq<char>, r: Result<u128, String>) -> bool {
    forall|id: u128| #[trigger] uuid_text(id) == text ==> r == Ok::<u128, String>(id)
}

/// Calls `Uuid::parse_str` and writes a failure as its error's text. Claims
/// that the outcome is a function of the text, named `uuid_parse_result`, and,
/// as the crate documents, that the hyphenated form it writes reads back.
#[verifier::external_body]
pub(crate) fn uuid_parse_str(s: &str) -> (r: Result<u128, String>)
    ensures
        match r {
            Ok(v) => uuid_parse_result(s@) == Ok::<u128, Seq<char>>(v),
            Err(e) => uuid_parse_result(s@) == Err::<u128, Seq<char>>(e@),
        },
        hyphenated_reads_back(s@, r),
{
    match Uuid::parse_str(s) {
        Ok(u) => Ok(u.as_u128()),
        Err(e) => Err(e.to_string()),
    }
}

/// A base64 alphabet that `Alphabet::new` accepts: 64 distinct printable
/// ASCII bytes, none of them `=`.
pub open spec fn alphabet_ok(bytes: Seq<u8>) -> bool {
    &&& bytes.len() == 64
    &&& forall|i: int| 0 <= i < 64 ==> 32 <= #[trigger] bytes[i] <= 126 && bytes[i] != 61
    &&& forall|i: int, j: int| 0 <= i < 64 && 0 <= j < 64 && i != j ==> #[trigger] bytes[i] != #[trigger] bytes[j]
}

/// The base64 text of `data` with the 64 symbols of `alphabet`: each three
/// bytes give four symbols of six bits each; one or two bytes left over give
/// two or three symbols, followed by `==` or `=` where `pad`.
pub open spec fn base64_text(alphabet: Seq<char>, pad: bool, data: Seq<u8>) -> Seq<char>
    decreases data.len(),
{
    if data.len() == 0 {
        Seq::empty()
    } else if data.len() == 1 {
        let a = data[0] as int;
        seq![alphabet[a / 4], alphabet[(a % 4) * 16]] + (if pad { seq!['=', '='] } else { Seq::empty() })
    } else if data.len() == 2 {
        let a = data[0] as int;
        let b = data[1] as int;
        seq![alphabet[a / 4], alphabet[(a % 4) * 16 + b / 16], alphabet[(b % 16) * 4]]
            + (if pad { seq!['='] } else { Seq::empty() })
    } else {
        let a = data[0] as int;
        let b = data[1] as int;
        let c = data[2] as int;
        seq![alphabet[a / 4], alphabet[(a % 4) * 16 + b / 16], alphabet[(b % 16) * 4 + c / 64], alphabet[c % 64]]
            + base64_text(alphabet, pad, data.skip(3))
    }
}

/// The six-bit value of the symbol `c`: its place in `alphabet`.
pub open spec fn symbol_value(alphabet: Seq<u8>, c: u8) -> Option<int> {
    if exists|i: int| 0 <= i < alphabet.len() && alphabet[i] == c {
        Some(choose|i: int| 0 <= i < alphabet.len() && alphabet[i] == c)
    } else {
        None
    }
}

/// The bytes of the unpadded base64 text `text` with `alphabet`, the unused
/// low bits of its last symbol ignored: four symbols give three bytes, a last
/// two or three give one or two; `None` where a byte is not a symbol
/// (`=` among them) or one symbol is left over.
pub open spec fn base64_unpadded_bytes(alphabet: Seq<u8>, text: Seq<u8>) -> Option<Seq<u8>>
    decreases text.len(),
{
    if text.len() == 0 {
        Some(Seq::empty())
    } else if text.len() == 1 {
        None
    } else {
        let n: int = if text.len() < 4 { text.len() as int } else { 4 };
        let a = symbol_value(alphabet, text[0]);
        let b = symbol_value(alphabet, text[1]);
        let c = if n > 2 { symbol_value(alphabet, text[2]) } else { Some(0) };
        let d = if n > 3 { symbol_value(alphabet, text[3]) } else { Some(0) };
        match (a, b, c, d) {
            (Some(a), Some(b), Some(c), Some(d)) => {
                let all = seq![(a * 4 + b / 16) as u8, ((b % 16) * 16 + c / 4) as u8, ((c % 4) * 64 + d) as u8];
                match base64_unpadded_bytes(alphabet, text.skip(n)) {
                    Some(rest) => Some(all.take(n - 1) + rest),
                    None => None,
                }
            },
            _ => None,
        }
    }
}

/// Calls `base64`'s `Engine::encode` on an engine made by `Alphabet::new`
/// and `GeneralPurpose::new` with the given encode padding. Claims that the
/// alphabet is refused exactly where `alphabet_ok` fails, as the crate's source
/// shows, and that the text is the standard base64 text with that alphabet.
#[verifier::external_body]
pub(crate) fn base64_encode(alphabet: &str, pad: bool, data: &[u8]) -> (r: Option<String>)
    ensures
        r is Some <==> alphabet_ok(alphabet.spec_bytes()),
        r matches Some(s) ==> s@ == base64_text(alphabet@, pad, data@),
{
    let a = Alphabet::new(alphabet).ok()?;
    let config = engine::GeneralPurposeConfig::new().with_encode_padding(pad);
    Some(engine::GeneralPurpose::new(&a, config).encode(data))
}

/// Calls `base64`'s `Engine::decode` on an engine made by `Alphabet::new` and
/// `GeneralPurpose::new` with trailing bits allowed and
/// `DecodePaddingMode::RequireNone`. Claims that an alphabet refused by
/// `alphabet_ok` gives `None`, and that otherwise the outcome is
/// `base64_unpadded_bytes`, as the crate's decoder shows (`=` is never a
/// symbol of an accepted alphabet, and padding is refused).
#[verifier::external_body]
pub(crate) fn base64_decode_unpadded(alphabet: &str, text: &[u8]) -> (r: Option<Vec<u8>>)
    ensures
        !alphabet_ok(alphabet.spec_bytes()) ==> r is None,
        alphabet_ok(alphabet.spec_bytes()) ==> match r {
            Some(v) => base64_unpadded_bytes(alphabet.spec_bytes(), text@) == Some(v@),
            None => base64_unpadded_bytes(alphabet.spec_bytes(), text@) is None,
        },
{
    let a = Alphabet::new(alphabet).ok()?;
    let config = engine::GeneralPurposeConfig::new()
        .with_decode_allow_trailing_bits(true)
        .with_decode_padding_mode(engine::DecodePaddingMode::RequireNone);
    engine::GeneralPurpose::new(&a, config).decode(text).ok()
}

/// Calls `String::from_utf8`, which, as std documents, succeeds exactly on
/// valid UTF-8 and then holds the characters the bytes encode.
#[verifier::external_body]
pub(crate) fn string_from_utf8(bytes: Vec<u8>) -> (r: Option<String>)
    ensures
        r is Some <==> valid_utf8(bytes@),
        r matches Some(s) ==> s@ == decode_utf8(bytes@),
{
    String::from_utf8(bytes).ok()
}

/// The pixels of the QR code that `QrCode::new` makes of `data` (medium error
/// correction, smallest version), rendered in grey-scale: width, height and
/// pixels row by row; `None` where the data does not fit.
pub uninterp spec fn qr_luma(data: Seq<u8>) -> Option<(u32, u32, Seq<u8>)>;

/// Calls `qrcode::QrCode::new` and renders the code with `render::<Luma<u8>>().build()`.
/// Claims only that the outcome is a function of the data, named `qr_luma`.
#[verifier::external_body]
pub(crate) fn qr_code_pixels(data: &[u8]) -> (r: Option<(u32, u32, Vec<u8>)>)
    ensures
        match r {
            Some((w, h, p)) => qr_luma(data@) == Some((w, h, p@)),
            None => qr_luma(data@) is None,
        },
{
    let code = QrCode::new(data).ok()?;
    let img = code.render::<Luma<u8>>().build();
    let (w, h) = img.dimensions();
    Some((w, h, img.into_raw()))
}

/// The PNG file that `image` writes of a grey-scale picture, or `None` where
/// the pixels do not make a `width` by `height` picture or writing fails.
pub uninterp spec fn png_luma8(width: u32, height: u32, pixels: Seq<u8>) -> Option<Seq<u8>>;

/// Calls `image::DynamicImage::write_to` with `ImageFormat::Png` on the
/// picture `ImageBuffer::from_raw` makes of the pixels. Claims only that the
/// outcome is a function of the picture, named `png_luma8`.
#[verifier::external_body]
pub(crate) fn png_encode_luma8(width: u32, height: u32, pixels: Vec<u8>) -> (r: Option<Vec<u8>>)
    ensures
        match r {
            Some(v) => png_luma8(width, height, pixels@) == Some(v@),
            None => png_luma8(width, height, pixels@) is None,
        },
{
    let img = ImageBuffer::<Luma<u8>, Vec<u8>>::from_raw(width, height, pixels)?;
    let mut buffer: Vec<u8> = Vec::new();
    DynamicImage::ImageLuma8(img).write_to(&mut std::io::Cursor::new(&mut buffer), ImageFormat::Png).ok()?;
    Some(buffer)
}

} // verus!
verus! {

/// The alphabet of the QR payload's base64: `+`, `/`, the capitals, the small
/// letters, the digits.
pub const QR_ALPHABET: &'static str = "+/ABCDEFGHIJKLMNOPQRSTUVWXYZabcdefghijklmnopqrstuvwxyz0123456789";

/// The QR alphabet is one that `Alphabet::new` accepts.
pub proof fn qr_alphabet_ok()
    ensures
        alphabet_ok(QR_ALPHABET.spec_bytes()),
        QR_ALPHABET@.len() == 64,
        vstd::utf8::is_ascii_chars(QR_ALPHABET@),
        forall|i: int| 0 <= i < 64 ==> #[trigger] QR_ALPHABET.spec_bytes()[i] == QR_ALPHABET@[i] as u8,
{
    reveal_strlit("+/ABCDEFGHIJKLMNOPQRSTUVWXYZabcdefghijklmnopqrstuvwxyz0123456789");
    let s = QR_ALPHABET;
    assert(vstd::string::is_ascii(s));
    let b = s.spec_bytes();
    assert(b =~= Seq::new(64, |i: int| s@[i] as u8));
    assert forall|i: int| 0 <= i < 64 implies 32 <= #[trigger] b[i] <= 126 && b[i] != 61 by {}
    assert forall|i: int, j: int| 0 <= i < 64 && 0 <= j < 64 && i != j implies #[trigger] b[i] != #[trigger] b[j] by {}
}

} // verus!
verus! {

/// A lower-case hexadecimal digit.
pub open spec fn is_hex_char(c: char) -> bool {
    ('0' <= c && c <= '9') || ('a' <= c && c <= 'f')
}

/// `hex_lower` writes two hexadecimal digits a byte.
pub proof fn lemma_hex_lower(bytes: Seq<u8>)
    ensures
        hex_lower(bytes).len() == 2 * bytes.len(),
        forall|k: int| 0 <= k < hex_lower(bytes).len() ==> is_hex_char(#[trigger] hex_lower(bytes)[k]),
    decreases bytes.len(),
{
    if bytes.len() > 0 {
        lemma_hex_lower(bytes.drop_last());
        let v = bytes.last() as int;
        assert(is_hex_char(hex_digit(v / 16)));
        assert(is_hex_char(hex_digit(v % 16)));
    }
}

} // verus!
verus! {

/// A character of a UUID's text.
pub open spec fn is_uuid_char(c: char) -> bool {
    is_hex_char(c) || c == '-'
}

/// The text of a UUID has 36 characters, hexadecimal digits and `-`.
pub proof fn lemma_uuid_text(id: u128)
    ensures
        uuid_text(id).len() == 36,
        forall|k: int| 0 <= k < 36 ==> is_uuid_char(#[trigger] uuid_text(id)[k]),
{
    let h = hex_lower(uuid_bytes(id));
    lemma_hex_lower(uuid_bytes(id));
    assert(h.len() == 32);
    let t = uuid_text(id);
    assert forall|k: int| 0 <= k < 36 implies is_uuid_char(#[trigger] t[k]) by {
        if k < 8 {
            assert(t[k] == h[k]);
        } else if k == 8 {
        } else if k < 13 {
            assert(t[k] == h[k - 1]);
        } else if k == 13 {
        } else if k < 18 {
            assert(t[k] == h[k - 2]);
        } else if k == 18 {
        } else if k < 23 {
            assert(t[k] == h[k - 3]);
        } else if k == 23 {
        } else {
            assert(t[k] == h[k - 4]);
        }
    }
}

/// The text of a UUID is its 32 hexadecimal digits, most significant first,
/// with `-` after the 8th, 12th, 16th and 20th.
pub proof fn uuid_text_layout(id: u128)
    ensures
        uuid_text(id)[8] == '-' && uuid_text(id)[13] == '-' && uuid_text(id)[18] == '-' && uuid_text(id)[23] == '-',
        uuid_text(id).subrange(0, 8) + uuid_text(id).subrange(9, 13) + uuid_text(id).subrange(14, 18)
            + uuid_text(id).subrange(19, 23) + uuid_text(id).subrange(24, 36) == hex_lower(uuid_bytes(id)),
{
    let h = hex_lower(uuid_bytes(id));
    lemma_hex_lower(uuid_bytes(id));
    let t = uuid_text(id);
    assert(t.subrange(0, 8) =~= h.subrange(0, 8));
    assert(t.subrange(9, 13) =~= h.subrange(8, 12));
    assert(t.subrange(14, 18) =~= h.subrange(12, 16));
    assert(t.subrange(19, 23) =~= h.subrange(16, 20));
    assert(t.subrange(24, 36) =~= h.subrange(20, 32));
    assert(h.subrange(0, 8) + h.subrange(8, 12) + h.subrange(12, 16) + h.subrange(16, 20) + h.subrange(20, 32) =~= h);
}

/// The byte of `:`.
pub open spec fn colon_byte() -> u8 {
    58
}

/// `bytes` holds a `:` at `i` and nowhere else.
pub open spec fn only_colon_at(bytes: Seq<u8>, i: int) -> bool {
    &&& 0 <= i < bytes.len()
    &&& bytes[i] == colon_byte()
    &&& forall|j: int| 0 <= j < bytes.len() && #[trigger] bytes[j] == colon_byte() ==> j == i
}

/// `bytes` split at its only `:`, which is dropped; `None` where it holds no
/// `:` or more than one (splitting at every `:` gives other than two parts).
pub open spec fn split_at_only_colon(bytes: Seq<u8>) -> Option<(Seq<u8>, Seq<u8>)> {
    if exists|i: int| only_colon_at(bytes, i) {
        let i = choose|i: int| only_colon_at(bytes, i);
        Some((bytes.subrange(0, i), bytes.subrange(i + 1, bytes.len() as int)))
    } else {
        None
    }
}

/// The position of the only `:` of `bytes`, if it holds exactly one.
pub fn find_only_colon(bytes: &[u8]) -> (r: Option<usize>)
    ensures
        match r {
            Some(i) => only_colon_at(bytes@, i as int),
            None => !exists|i: int| only_colon_at(bytes@, i),
        },
{
    let n = bytes.len();
    let mut first: Option<usize> = None;
    let mut i: usize = 0;
    while i < n
        invariant
            n == bytes@.len(),
            i <= n,
            match first {
                Some(f) => f < i && bytes@[f as int] == colon_byte()
                    && forall|j: int| 0 <= j < i && #[trigger] bytes@[j] == colon_byte() ==> j == f,
                None => forall|j: int| 0 <= j < i ==> #[trigger] bytes@[j] != colon_byte(),
            },
        decreases n - i,
    {
        if bytes[i] == 58u8 {
            match first {
                Some(f) => {
                    assert(!only_colon_at(bytes@, f as int));
                    assert forall|k: int| !only_colon_at(bytes@, k) by {
                        if only_colon_at(bytes@, k) {
                            assert(bytes@[f as int] == colon_byte());
                            assert(bytes@[i as int] == colon_byte());
                        }
                    }
                    return None;
                },
                None => {
                    first = Some(i);
                },
            }
        }
        i = i + 1;
    }
    match first {
        Some(f) => Some(f),
        None => {
            assert forall|k: int| !only_colon_at(bytes@, k) by {
                if only_colon_at(bytes@, k) {
                    assert(bytes@[k] == colon_byte());
                }
            }
            None
        },
    }
}

/// The text of a card's QR payload: the card's id, `:`, and the signature of
/// the id under `secret`.
pub open spec fn qr_payload_text(card_id: u128, secret: Seq<u8>) -> Seq<char> {
    let id = uuid_text(card_id);
    id + seq![':'] + signature_of(encode_utf8(id), secret)
}

/// The payload of a card's QR code.
pub fn qr_payload(card_id: u128, secret: &str) -> (r: String)
    ensures
        r@ == qr_payload_text(card_id, secret.spec_bytes()),
        r@.len() == 101,
{
    let id = uuid_to_string(card_id);
    let signature = sign(id.as_str(), secret);
    proof {
        reveal_strlit(":");
        lemma_uuid_text(card_id);
    }
    id.as_str().to_owned().concat(":").concat(signature.as_str())
}

/// The outcome of reading a decoded QR payload: it must be UTF-8 text (a
/// server error otherwise), hold exactly one `:` (a bad request otherwise), the
/// part before it must read as a UUID (a server error with the parser's text
/// otherwise) and the part after it must be the signature of the part before
/// (a bad request otherwise); then it yields the UUID.
pub open spec fn qr_payload_outcome(payload: Seq<u8>, secret: Seq<u8>) -> Result<u128, HttpErrorView> {
    if !valid_utf8(payload) {
        Err(http_error(HttpMessageView::Known(ErrorMessage::ServerError), STATUS_INTERNAL_SERVER_ERROR))
    } else {
        match split_at_only_colon(payload) {
            None => Err(http_error(HttpMessageView::Text("Invaild Qr!"@), STATUS_BAD_REQUEST)),
            Some((id, signature)) => match uuid_parse_result(decode_utf8(id)) {
                Err(msg) => Err(http_error(HttpMessageView::Text(msg), STATUS_INTERNAL_SERVER_ERROR)),
                Ok(card_id) => if signature_of(id, secret) == decode_utf8(signature) {
                    Ok(card_id)
                } else {
                    Err(http_error(HttpMessageView::Text("Qr is tampered!"@), STATUS_BAD_REQUEST))
                },
            },
        }
    }
}

/// The view of a result that carries an HTTP error.
pub open spec fn id_or_error(r: Result<u128, HttpError>) -> Result<u128, HttpErrorView> {
    match r {
        Ok(v) => Ok(v),
        Err(e) => Err(e@),
    }
}

} // verus!
verus! {

/// The bytes of a card's QR payload hold one `:`, right after the card's id.
pub proof fn lemma_payload_bytes(card_id: u128, secret: Seq<u8>)
    ensures
        valid_utf8(encode_utf8(qr_payload_text(card_id, secret))),
        only_colon_at(encode_utf8(qr_payload_text(card_id, secret)), 36),
        encode_utf8(qr_payload_text(card_id, secret)).subrange(0, 36) == encode_utf8(uuid_text(card_id)),
        encode_utf8(qr_payload_text(card_id, secret)).subrange(37, encode_utf8(qr_payload_text(card_id, secret)).len() as int)
            == encode_utf8(signature_of(encode_utf8(uuid_text(card_id)), secret)),
        encode_utf8(qr_payload_text(card_id, secret)).len() == qr_payload_text(card_id, secret).len(),
{
    broadcast use vstd::utf8::encode_utf8_valid_utf8;
    let id = uuid_text(card_id);
    let sig = signature_of(encode_utf8(id), secret);
    let p = qr_payload_text(card_id, secret);
    lemma_uuid_text(card_id);
    lemma_hex_lower(hmac_sha256(secret, encode_utf8(id)));
    assert(p =~= id + seq![':'] + sig);
    assert(vstd::utf8::is_ascii_chars(id));
    assert(vstd::utf8::is_ascii_chars(sig));
    assert(vstd::utf8::is_ascii_chars(p)) by {
        assert forall|k: int| 0 <= k < p.len() implies '\0' <= #[trigger] p[k] <= '\u{7f}' by {
            if k < 36 {
                assert(p[k] == id[k]);
            } else if k > 36 {
                assert(p[k] == sig[k - 37]);
            }
        }
    }
    vstd::utf8::is_ascii_chars_encode_utf8(p);
    vstd::utf8::is_ascii_chars_encode_utf8(id);
    vstd::utf8::is_ascii_chars_encode_utf8(sig);
    let b = encode_utf8(p);
    assert forall|j: int| 0 <= j < b.len() && #[trigger] b[j] == colon_byte() implies j == 36 by {
        if j < 36 {
            assert(p[j] == id[j]);
            assert(is_uuid_char(id[j]));
        } else if j > 36 {
            assert(p[j] == sig[j - 37]);
            assert(is_hex_char(sig[j - 37]));
        }
    }
    assert(b.subrange(0, 36) =~= encode_utf8(id));
    assert(b.subrange(37, b.len() as int) =~= encode_utf8(sig));
}

/// Reads a decoded QR payload: the card's id where the payload is one the
/// service signed with `secret`.
pub fn check_qr_payload(payload: Vec<u8>, secret: &str) -> (r: Result<u128, HttpError>)
    ensures
        id_or_error(r) == qr_payload_outcome(payload@, secret.spec_bytes()),
        forall|card_id: u128| payload@ == encode_utf8(#[trigger] qr_payload_text(card_id, secret.spec_bytes()))
            ==> r == Ok::<u128, HttpError>(card_id),
{
    broadcast use vstd::utf8::encode_utf8_valid_utf8, vstd::utf8::encode_utf8_decode_utf8;
    let ghost bytes = payload@;
    let s = match string_from_utf8(payload) {
        Some(s) => s,
        None => {
            proof {
                assert forall|card_id: u128| bytes != encode_utf8(#[trigger] qr_payload_text(card_id, secret.spec_bytes())) by {
                    lemma_payload_bytes(card_id, secret.spec_bytes());
                }
            }
            return Err(HttpError::server_error(HttpMessage::Known(ErrorMessage::ServerError)));
        },
    };
    proof {
        vstd::utf8::decode_utf8_encode_utf8(bytes);
    }
    let b = s.as_str().as_bytes();
    assert(b@ == bytes);
    let i = match find_only_colon(b) {
        Some(i) => i,
        None => {
            proof {
                assert forall|card_id: u128| bytes != encode_utf8(#[trigger] qr_payload_text(card_id, secret.spec_bytes())) by {
                    lemma_payload_bytes(card_id, secret.spec_bytes());
                }
            }
            return Err(HttpError::bad_request(text("Invaild Qr!")));
        },
    };
    proof {
        assert(split_at_only_colon(bytes) == Some((bytes.subrange(0, i as int), bytes.subrange(i + 1, bytes.len() as int))));
        vstd::utf8::is_char_boundary_iff_is_leading_byte(bytes, i as int);
    }
    let (id_text, rest) = s.as_str().split_at(i);
    proof {
        let rb = rest.spec_bytes();
        assert(rb =~= bytes.subrange(i as int, bytes.len() as int));
        assert(valid_utf8(rb));
        assert(rb[0] == colon_byte());
        reveal_with_fuel(vstd::utf8::is_char_boundary, 2);
        assert(vstd::utf8::length_of_first_scalar(rb) == 1);
        assert(vstd::utf8::is_char_boundary(vstd::utf8::pop_first_scalar(rb), 0));
    }
    let (_colon, signature) = rest.split_at(1);
    proof {
        assert(id_text.spec_bytes() == bytes.subrange(0, i as int));
        assert(signature.spec_bytes() =~= bytes.subrange(i + 1, bytes.len() as int));
        assert(decode_utf8(id_text.spec_bytes()) == id_text@);
        assert(decode_utf8(signature.spec_bytes()) == signature@);
    }
    let expected = sign(id_text, secret);
    let card_id = match uuid_parse_str(id_text) {
        Ok(v) => v,
        Err(msg) => {
            proof {
                assert forall|cid: u128| bytes != encode_utf8(#[trigger] qr_payload_text(cid, secret.spec_bytes())) by {
                    if bytes == encode_utf8(qr_payload_text(cid, secret.spec_bytes())) {
                        lemma_payload_bytes(cid, secret.spec_bytes());
                        assert(i == 36);
                        assert(id_text@ == uuid_text(cid));
                    }
                }
            }
            return Err(HttpError::server_error(HttpMessage::Text(msg)));
        },
    };
    let given = signature.to_owned();
    if expected == given {
        proof {
            assert forall|cid: u128| bytes == encode_utf8(#[trigger] qr_payload_text(cid, secret.spec_bytes())) implies card_id == cid by {
                lemma_payload_bytes(cid, secret.spec_bytes());
                assert(i == 36);
                assert(id_text@ == uuid_text(cid));
            }
        }
        Ok(card_id)
    } else {
        proof {
            assert forall|cid: u128| bytes != encode_utf8(#[trigger] qr_payload_text(cid, secret.spec_bytes())) by {
                if bytes == encode_utf8(qr_payload_text(cid, secret.spec_bytes())) {
                    lemma_payload_bytes(cid, secret.spec_bytes());
                    assert(i == 36);
                    assert(id_text@ == uuid_text(cid));
                    assert(signature.spec_bytes() == encode_utf8(signature_of(encode_utf8(uuid_text(cid)), secret.spec_bytes())));
                }
            }
        }
        Err(HttpError::bad_request(text("Qr is tampered!")))
    }
}

} // verus!
verus! {

/// The text of a card's QR code: its payload in base64 with the QR alphabet,
/// padded.
pub open spec fn qr_link_text(card_id: u128, secret: Seq<u8>) -> Seq<char> {
    base64_text(QR_ALPHABET@, true, encode_utf8(qr_payload_text(card_id, secret)))
}

/// Padded base64 of a number of bytes that is not a multiple of three ends
/// with `=`.
pub proof fn lemma_padded_text_ends_with_pad(alphabet: Seq<char>, data: Seq<u8>)
    requires
        data.len() % 3 != 0,
    ensures
        base64_text(alphabet, true, data).len() > 0,
        base64_text(alphabet, true, data).last() == '=',
    decreases data.len(),
{
    if data.len() > 2 {
        lemma_padded_text_ends_with_pad(alphabet, data.skip(3));
    }
}

/// Base64 text written with an ASCII alphabet is ASCII.
pub proof fn lemma_base64_text_ascii(alphabet: Seq<char>, pad: bool, data: Seq<u8>)
    requires
        alphabet.len() == 64,
        vstd::utf8::is_ascii_chars(alphabet),
    ensures
        vstd::utf8::is_ascii_chars(base64_text(alphabet, pad, data)),
    decreases data.len(),
{
    let t = base64_text(alphabet, pad, data);
    if data.len() > 2 {
        lemma_base64_text_ascii(alphabet, pad, data.skip(3));
        let a = data[0] as int;
        let b = data[1] as int;
        let c = data[2] as int;
        let head = seq![alphabet[a / 4], alphabet[(a % 4) * 16 + b / 16], alphabet[(b % 16) * 4 + c / 64], alphabet[c % 64]];
        let rest = base64_text(alphabet, pad, data.skip(3));
        assert(t =~= head + rest);
        assert forall|k: int| 0 <= k < t.len() implies '\0' <= #[trigger] t[k] <= '\u{7f}' by {
            if k >= 4 {
                assert(t[k] == rest[k - 4]);
            }
        }
    }
}

/// The bytes of an ASCII text.
pub open spec fn ascii_bytes(t: Seq<char>) -> Seq<u8> {
    t.map_values(|c: char| c as u8)
}

/// The `=` padding that base64 adds after `n` bytes.
pub open spec fn padding_after(n: nat) -> Seq<char> {
    if n % 3 == 1 {
        seq!['=', '=']
    } else if n % 3 == 2 {
        seq!['=']
    } else {
        Seq::empty()
    }
}

/// Padded base64 text is the unpadded text followed by its padding.
pub proof fn lemma_padding_is_a_suffix(alphabet: Seq<char>, data: Seq<u8>)
    ensures
        base64_text(alphabet, true, data) == base64_text(alphabet, false, data) + padding_after(data.len()),
    decreases data.len(),
{
    if data.len() > 2 {
        lemma_padding_is_a_suffix(alphabet, data.skip(3));
        let a = data[0] as int;
        let b = data[1] as int;
        let c = data[2] as int;
        let head = seq![alphabet[a / 4], alphabet[(a % 4) * 16 + b / 16], alphabet[(b % 16) * 4 + c / 64], alphabet[c % 64]];
        assert(head + (base64_text(alphabet, false, data.skip(3)) + padding_after(data.skip(3).len()))
            =~= (head + base64_text(alphabet, false, data.skip(3))) + padding_after(data.len()));
    } else {
        assert(base64_text(alphabet, true, data) =~= base64_text(alphabet, false, data) + padding_after(data.len()));
    }
}

/// In an accepted alphabet, the symbol at place `v` has the value `v`.
pub proof fn lemma_symbol_value(alphabet: Seq<u8>, v: int)
    requires
        alphabet_ok(alphabet),
        0 <= v < 64,
    ensures
        symbol_value(alphabet, alphabet[v]) == Some(v),
{
    assert(0 <= v < alphabet.len() && alphabet[v] == alphabet[v]);
    let i = choose|i: int| 0 <= i < alphabet.len() && alphabet[i] == alphabet[v];
    assert(i == v);
}

/// Unpadded base64 text decodes back to its bytes.
pub proof fn lemma_unpadded_text_decodes(chars: Seq<char>, alphabet: Seq<u8>, data: Seq<u8>)
    requires
        alphabet_ok(alphabet),
        chars.len() == 64,
        forall|i: int| 0 <= i < 64 ==> #[trigger] alphabet[i] == chars[i] as u8,
    ensures
        base64_unpadded_bytes(alphabet, ascii_bytes(base64_text(chars, false, data))) == Some(data),
    decreases data.len(),
{
    let t = base64_text(chars, false, data);
    let text = ascii_bytes(t);
    if data.len() == 0 {
        assert(text.len() == 0);
    } else {
        let a = data[0] as int;
        let b = if data.len() > 1 { data[1] as int } else { 0 };
        let c = if data.len() > 2 { data[2] as int } else { 0 };
        let v0 = a / 4;
        let v1 = (a % 4) * 16 + b / 16;
        let v2 = (b % 16) * 4 + c / 64;
        let v3 = c % 64;
        assert(0 <= v0 < 64 && 0 <= v1 < 64 && 0 <= v2 < 64 && 0 <= v3 < 64);
        lemma_symbol_value(alphabet, v0);
        lemma_symbol_value(alphabet, v1);
        lemma_symbol_value(alphabet, v2);
        lemma_symbol_value(alphabet, v3);
        assert(v0 * 4 + v1 / 16 == a);
        assert((v1 % 16) * 16 + v2 / 4 == b);
        assert((v2 % 4) * 64 + v3 == c);
        if data.len() == 1 {
            let w1 = (a % 4) * 16;
            lemma_symbol_value(alphabet, w1);
            assert(t =~= seq![chars[v0], chars[w1]]);
            assert(text =~= seq![alphabet[v0], alphabet[w1]]);
            assert(symbol_value(alphabet, text[0]) == Some(v0));
            assert(symbol_value(alphabet, text[1]) == Some(w1));
            assert(text.skip(2) =~= Seq::<u8>::empty());
            assert(base64_unpadded_bytes(alphabet, text.skip(2)) == Some(Seq::<u8>::empty()));
            let all = seq![(v0 * 4 + w1 / 16) as u8, ((w1 % 16) * 16 + 0int / 4) as u8, ((0int % 4) * 64 + 0int) as u8];
            assert(all.take(1) + Seq::<u8>::empty() =~= data);
            assert(base64_unpadded_bytes(alphabet, text) == Some(data));
        } else if data.len() == 2 {
            let w2 = (b % 16) * 4;
            lemma_symbol_value(alphabet, w2);
            assert(t =~= seq![chars[v0], chars[v1], chars[w2]]);
            assert(text =~= seq![alphabet[v0], alphabet[v1], alphabet[w2]]);
            assert(symbol_value(alphabet, text[0]) == Some(v0));
            assert(symbol_value(alphabet, text[1]) == Some(v1));
            assert(symbol_value(alphabet, text[2]) == Some(w2));
            assert(text.skip(3) =~= Seq::<u8>::empty());
            assert(base64_unpadded_bytes(alphabet, text.skip(3)) == Some(Seq::<u8>::empty()));
            let all = seq![(v0 * 4 + v1 / 16) as u8, ((v1 % 16) * 16 + w2 / 4) as u8, ((w2 % 4) * 64 + 0int) as u8];
            assert(all.take(2) + Seq::<u8>::empty() =~= data);
            assert(base64_unpadded_bytes(alphabet, text) == Some(data));
        } else {
            let rest = base64_text(chars, false, data.skip(3));
            lemma_unpadded_text_decodes(chars, alphabet, data.skip(3));
            assert(t =~= seq![chars[v0], chars[v1], chars[v2], chars[v3]] + rest);
            assert(text.skip(4) =~= ascii_bytes(rest));
            assert(text[0] == alphabet[v0]);
            assert(text[1] == alphabet[v1]);
            assert(text[2] == alphabet[v2]);
            assert(text[3] == alphabet[v3]);
            let all = seq![(v0 * 4 + v1 / 16) as u8, ((v1 % 16) * 16 + v2 / 4) as u8, ((v2 % 4) * 64 + v3) as u8];
            assert(all.take(3) + data.skip(3) =~= data);
            assert(base64_unpadded_bytes(alphabet, text) == Some(data));
        }
    }
}

/// The text of a card's QR code without its padding.
pub open spec fn unpadded_qr_link_text(card_id: u128, secret: Seq<u8>) -> Seq<char> {
    base64_text(QR_ALPHABET@, false, encode_utf8(qr_payload_text(card_id, secret)))
}

/// A card's QR link with its `=` padding taken off decodes to the card's
/// payload.
pub proof fn unpadded_link_decodes_to_payload(card_id: u128, secret: Seq<u8>)
    ensures
        base64_unpadded_bytes(QR_ALPHABET.spec_bytes(), encode_utf8(unpadded_qr_link_text(card_id, secret)))
            == Some(encode_utf8(qr_payload_text(card_id, secret))),
{
    qr_alphabet_ok();
    let data = encode_utf8(qr_payload_text(card_id, secret));
    let t = unpadded_qr_link_text(card_id, secret);
    lemma_base64_text_ascii(QR_ALPHABET@, false, data);
    vstd::utf8::is_ascii_chars_encode_utf8(t);
    assert(encode_utf8(t) =~= ascii_bytes(t));
    lemma_unpadded_text_decodes(QR_ALPHABET@, QR_ALPHABET.spec_bytes(), data);
}

/// Unpadded base64 that holds a byte that is not a symbol does not decode.
pub proof fn lemma_non_symbol_refused(alphabet: Seq<u8>, text: Seq<u8>, k: int)
    requires
        0 <= k < text.len(),
        symbol_value(alphabet, text[k]) is None,
    ensures
        base64_unpadded_bytes(alphabet, text) is None,
    decreases text.len(),
{
    if text.len() > 1 {
        let n: int = if text.len() < 4 { text.len() as int } else { 4 };
        if k >= n {
            assert(text.skip(n)[k - n] == text[k]);
            lemma_non_symbol_refused(alphabet, text.skip(n), k - n);
        }
    }
}

/// The text of a card's QR code. It is padded, so the reader, which refuses
/// padding, refuses it: a card's own link never pays.
pub fn qr_link(card_id: u128, secret: &str) -> (r: String)
    ensures
        r@ == qr_link_text(card_id, secret.spec_bytes()),
        r@ == unpadded_qr_link_text(card_id, secret.spec_bytes()) + seq!['='],
        qr_link_outcome(encode_utf8(r@), secret.spec_bytes())
            == Err::<u128, HttpErrorView>(http_error(HttpMessageView::Text("Invalid QR link"@), STATUS_BAD_REQUEST)),
{
    proof {
        qr_alphabet_ok();
    }
    let payload = qr_payload(card_id, secret);
    match base64_encode(QR_ALPHABET, true, payload.as_str().as_bytes()) {
        Some(s) => {
            proof {
                let data = encode_utf8(payload@);
                lemma_payload_bytes(card_id, secret.spec_bytes());
                assert(data.len() == 101);
                lemma_padded_text_ends_with_pad(QR_ALPHABET@, data);
                lemma_padding_is_a_suffix(QR_ALPHABET@, data);
                assert(padding_after(data.len()) =~= seq!['=']);
                assert(s@ =~= unpadded_qr_link_text(card_id, secret.spec_bytes()) + seq!['=']);
                reveal_strlit("+/ABCDEFGHIJKLMNOPQRSTUVWXYZabcdefghijklmnopqrstuvwxyz0123456789");
                assert(vstd::utf8::is_ascii_chars(QR_ALPHABET@));
                lemma_base64_text_ascii(QR_ALPHABET@, true, data);
                vstd::utf8::is_ascii_chars_encode_utf8(s@);
                let bytes = encode_utf8(s@);
                let last = s@.len() - 1;
                assert(bytes[last] == 61u8);
                let alphabet = QR_ALPHABET.spec_bytes();
                assert(!exists|i: int| 0 <= i < alphabet.len() && alphabet[i] == bytes[last]);
                lemma_non_symbol_refused(alphabet, bytes, last);
            }
            s
        },
        None => {
            assert(false);
            String::new()
        },
    }
}

/// The outcome of reading the text of a scanned QR code: base64 with the QR
/// alphabet, trailing bits allowed and no padding (a bad request where it does
/// not decode), then the payload.
pub open spec fn qr_link_outcome(link: Seq<u8>, secret: Seq<u8>) -> Result<u128, HttpErrorView> {
    match base64_unpadded_bytes(QR_ALPHABET.spec_bytes(), link) {
        None => Err(http_error(HttpMessageView::Text("Invalid QR link"@), STATUS_BAD_REQUEST)),
        Some(payload) => qr_payload_outcome(payload, secret),
    }
}

/// Reads the text of a scanned QR code: the card's id where it holds a
/// payload the service signed with `secret`.
pub fn read_qr_link(link: &str, secret: &str) -> (r: Result<u128, HttpError>)
    ensures
        id_or_error(r) == qr_link_outcome(link.spec_bytes(), secret.spec_bytes()),
        forall|card_id: u128| link.spec_bytes() == encode_utf8(#[trigger] unpadded_qr_link_text(card_id, secret.spec_bytes()))
            ==> r == Ok::<u128, HttpError>(card_id),
{
    proof {
        qr_alphabet_ok();
    }
    match base64_decode_unpadded(QR_ALPHABET, link.as_bytes()) {
        Some(payload) => {
            let ghost p = payload@;
            let r = check_qr_payload(payload, secret);
            proof {
                assert forall|card_id: u128| link.spec_bytes() == encode_utf8(#[trigger] unpadded_qr_link_text(card_id, secret.spec_bytes()))
                    implies r == Ok::<u128, HttpError>(card_id) by {
                    unpadded_link_decodes_to_payload(card_id, secret.spec_bytes());
                    assert(p == encode_utf8(qr_payload_text(card_id, secret.spec_bytes())));
                }
            }
            r
        },
        None => {
            proof {
                assert forall|card_id: u128| link.spec_bytes() != encode_utf8(#[trigger] unpadded_qr_link_text(card_id, secret.spec_bytes())) by {
                    unpadded_link_decodes_to_payload(card_id, secret.spec_bytes());
                }
            }
            Err(HttpError::bad_request(text("Invalid QR link")))
        },
    }
}

/// The PNG picture of the QR code of `data`.
pub open spec fn qr_png_outcome(data: Seq<u8>) -> Result<Seq<u8>, HttpErrorView> {
    match qr_luma(data) {
        None => Err(http_error(HttpMessageView::Text("QR generation failed"@), STATUS_INTERNAL_SERVER_ERROR)),
        Some((w, h, pixels)) => match png_luma8(w, h, pixels) {
            None => Err(http_error(HttpMessageView::Text("Image conversion failed"@), STATUS_INTERNAL_SERVER_ERROR)),
            Some(png) => Ok(png),
        },
    }
}

/// The view of a result that carries bytes or an HTTP error.
pub open spec fn bytes_or_error(r: Result<Vec<u8>, HttpError>) -> Result<Seq<u8>, HttpErrorView> {
    match r {
        Ok(v) => Ok(v@),
        Err(e) => Err(e@),
    }
}

/// Draws the QR code of `data` as a PNG picture.
pub fn qr_png(data: &[u8]) -> (r: Result<Vec<u8>, HttpError>)
    ensures
        bytes_or_error(r) == qr_png_outcome(data@),
{
    match qr_code_pixels(data) {
        None => Err(HttpError::server_error(text("QR generation failed"))),
        Some((w, h, pixels)) => match png_encode_luma8(w, h, pixels) {
            None => Err(HttpError::server_error(text("Image conversion failed"))),
            Some(png) => Ok(png),
        },
    }
}

} // verus!
