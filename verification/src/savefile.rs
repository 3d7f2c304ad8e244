use vstd::prelude::*;
use vstd::utf8::{decode_utf8, encode_utf8, valid_utf8};

use crate::player::Player;
use crate::stats::Stats;
use crate::time::TimeData;

verus! {

/// The level progress kept in a savefile.
#[derive(Clone, Debug)]
pub struct LevelsData {
    pub current: String,
    pub completed: Vec<String>,
    pub times: Vec<(String, TimeData)>,
    pub global_time: Option<TimeData>,
}

/// Everything a savefile keeps.
#[derive(Clone, Debug)]
pub struct SavefileData {
    pub player: Option<Player>,
    pub levels: LevelsData,
    pub stats: Option<Stats>,
}

/// Why base64 text could not be decoded: a byte outside the alphabet (with
/// its position), a length no encoding has, or a last symbol with bits that
/// would be dropped (with its position).
#[derive(Clone, Copy, Debug, PartialEq, Eq, Structural)]
pub enum Base64Error {
    InvalidByte(usize, u8),
    InvalidLength,
    InvalidLastSymbol(usize, u8),
}

/// Why a savefile could not be decrypted.
#[derive(Clone, Copy, Debug, PartialEq, Eq, Structural)]
pub enum DecryptError {
    /// The text is not base64.
    Base64(Base64Error),
    /// The decoded bytes are not UTF-8: the length of the valid prefix, and
    /// the length of the bad sequence (none when the input ends early).
    Utf8 { valid_up_to: usize, error_len: Option<usize> },
}

/// The bytes that may stand in base64 text: the symbols `A`-`Z`, `a`-`z`,
/// `0`-`9`, `+`, `/`, and the padding `=`.
pub open spec fn is_base64_byte(b: u8) -> bool {
    ||| 65 <= b <= 90
    ||| 97 <= b <= 122
    ||| 48 <= b <= 57
    ||| b == 43
    ||| b == 47
    ||| b == 61
}

/// The characters that may stand in base64 text.
pub open spec fn is_base64_char(c: char) -> bool {
    (c as u32) < 0x80 && is_base64_byte((c as u32) as u8)
}

/// A character outside the base64 alphabet puts a byte outside it into the
/// text's UTF-8 encoding.
pub proof fn lemma_bad_char_in_utf8(chars: Seq<char>, i: int)
    requires
        0 <= i < chars.len(),
        !is_base64_char(chars[i]),
    ensures
        exists|j: int| 0 <= j < encode_utf8(chars).len() && !is_base64_byte(#[trigger] encode_utf8(chars)[j]),
    decreases chars.len(),
{
    let c = chars[0] as u32;
    let head = vstd::utf8::encode_scalar(c);
    assert(encode_utf8(chars) == head + encode_utf8(chars.drop_first()));
    if i == 0 {
        vstd::utf8::char_is_scalar(chars[0]);
        if c < 0x80 {
            assert((c & 0x7F) as u8 == c as u8) by (bit_vector)
                requires
                    c < 0x80,
            ;
        } else if c <= 0x7FF {
            assert(0xC0 <= (0xC0u8 | ((c >> 6) & 0x1F) as u8)) by (bit_vector);
        } else if c <= 0xFFFF {
            assert(0xE0 <= (0xE0u8 | ((c >> 12) & 0x0F) as u8)) by (bit_vector);
        } else {
            assert(0xF0 <= (0xF0u8 | ((c >> 18) & 0x7) as u8)) by (bit_vector);
        }
        assert(encode_utf8(chars)[0] == head[0]);
        assert(!is_base64_byte(encode_utf8(chars)[0]));
    } else {
        lemma_bad_char_in_utf8(chars.drop_first(), i - 1);
        let j = choose|j: int| 0 <= j < encode_utf8(chars.drop_first()).len() && !is_base64_byte(#[trigger] encode_utf8(chars.drop_first())[j]);
        assert(encode_utf8(chars)[head.len() + j] == encode_utf8(chars.drop_first())[j]);
    }
}

/// The base64 text (standard alphabet, padded) of some bytes.
pub uninterp spec fn base64_encoding(bytes: Seq<u8>) -> Seq<char>;

/// The bytes that base64 text stands for, or why it stands for none.
pub uninterp spec fn base64_decoding(text: Seq<u8>) -> Result<Seq<u8>, Base64Error>;

/// Where a byte sequence that is not UTF-8 goes wrong.
pub uninterp spec fn utf8_error_details(bytes: Seq<u8>) -> (usize, Option<usize>);

/// `base64::encode` (version 0.13, standard alphabet with padding). Stated:
/// the text is a function of the bytes alone.
#[verifier::external_body]
fn base64_encode(bytes: &[u8]) -> (res: String)
    ensures
        res@ == base64_encoding(bytes@),
{
    base64::encode(bytes)
}

/// `base64::decode` (version 0.13, standard alphabet), with its error kinds
/// carried over one for one. Stated: the outcome is a function of the input
/// alone; decoding the UTF-8 bytes of what `base64::encode` made of some
/// bytes gives those bytes back; and text holding a byte that is neither a
/// symbol of the alphabet nor the padding `=` is refused (which error it
/// gets depends on where the byte stands, and is left unsaid).
#[verifier::external_body]
fn base64_decode(text: &[u8]) -> (res: Result<Vec<u8>, Base64Error>)
    ensures
        res is Ok ==> base64_decoding(text@) == Ok::<Seq<u8>, Base64Error>(res->Ok_0@),
        res is Err ==> base64_decoding(text@) == Err::<Seq<u8>, Base64Error>(res->Err_0),
        forall|b: Seq<u8>| text@ == encode_utf8(#[trigger] base64_encoding(b)) ==> res is Ok && res->Ok_0@ == b,
        (exists|i: int| 0 <= i < text@.len() && !is_base64_byte(#[trigger] text@[i])) ==> res is Err,
{
    match base64::decode(text) {
        Ok(v) => Ok(v),
        Err(base64::DecodeError::InvalidByte(i, b)) => Err(Base64Error::InvalidByte(i, b)),
        Err(base64::DecodeError::InvalidLength) => Err(Base64Error::InvalidLength),
        Err(base64::DecodeError::InvalidLastSymbol(i, b)) => Err(Base64Error::InvalidLastSymbol(i, b)),
    }
}

/// `String::from_utf8`: succeeds exactly on valid UTF-8, with the characters
/// the bytes encode; otherwise reports where the bytes go wrong (the
/// `valid_up_to` and `error_len` of its error), which depends on the bytes
/// alone, `valid_up_to` being the longest prefix of the bytes that is valid
/// UTF-8. Which length `error_len` gives is left unsaid.
#[verifier::external_body]
fn string_from_utf8(bytes: Vec<u8>) -> (res: Result<String, (usize, Option<usize>)>)
    ensures
        res is Ok <==> valid_utf8(bytes@),
        res is Ok ==> res->Ok_0@ == decode_utf8(bytes@),
        res is Err ==> res->Err_0 == utf8_error_details(bytes@),
        res is Err ==> res->Err_0.0 <= bytes@.len() && valid_utf8(bytes@.take(res->Err_0.0 as int)),
        res is Err ==> (forall|k: int| res->Err_0.0 < k <= bytes@.len() ==> !valid_utf8(#[trigger] bytes@.take(k))),
{
    match String::from_utf8(bytes) {
        Ok(s) => Ok(s),
        Err(e) => Err((e.utf8_error().valid_up_to(), e.utf8_error().error_len())),
    }
}

/// The encrypted text of a savefile: the base64 text of its UTF-8 bytes.
pub open spec fn spec_encrypt(plain: Seq<char>) -> Seq<char> {
    base64_encoding(encode_utf8(plain))
}

/// What decrypting savefile text gives.
pub open spec fn spec_decrypt(raw: Seq<char>) -> Result<Seq<char>, DecryptError> {
    match base64_decoding(encode_utf8(raw)) {
        Err(e) => Err(DecryptError::Base64(e)),
        Ok(b) => if valid_utf8(b) {
            Ok(decode_utf8(b))
        } else {
            Err(DecryptError::Utf8 { valid_up_to: utf8_error_details(b).0, error_len: utf8_error_details(b).1 })
        },
    }
}

/// Encrypts savefile text.
pub fn encrypt(raw: &str) -> (res: String)
    ensures
        res@ == spec_encrypt(raw@),
{
    base64_encode(raw.as_bytes())
}

/// Decrypts savefile text. Text that `encrypt` made is always decrypted back
/// to what was encrypted.
pub fn decrypt(raw: &str) -> (res: Result<String, DecryptError>)
    ensures
        res matches Ok(s) ==> spec_decrypt(raw@) == Ok::<Seq<char>, DecryptError>(s@),
        res matches Err(e) ==> spec_decrypt(raw@) == Err::<Seq<char>, DecryptError>(e),
        forall|plain: Seq<char>| raw@ == #[trigger] spec_encrypt(plain) ==> (res matches Ok(s) && s@ == plain),
        (exists|i: int| 0 <= i < raw@.len() && !is_base64_char(#[trigger] raw@[i])) ==> res matches Err(
            DecryptError::Base64(_),
        ),
        res matches Err(DecryptError::Utf8 { valid_up_to, error_len }) ==> {
            let b = base64_decoding(encode_utf8(raw@))->Ok_0;
            &&& base64_decoding(encode_utf8(raw@)) is Ok
            &&& valid_up_to <= b.len()
            &&& valid_utf8(b.take(valid_up_to as int))
            &&& forall|k: int| valid_up_to < k <= b.len() ==> !valid_utf8(#[trigger] b.take(k))
        },
{
    proof {
        if exists|i: int| 0 <= i < raw@.len() && !is_base64_char(#[trigger] raw@[i]) {
            let i = choose|i: int| 0 <= i < raw@.len() && !is_base64_char(#[trigger] raw@[i]);
            lemma_bad_char_in_utf8(raw@, i);
        }
    }
    let decoded = base64_decode(raw.as_bytes());
    match decoded {
        Err(e) => Err(DecryptError::Base64(e)),
        Ok(bytes) => {
            let ghost b = bytes@;
            let text = string_from_utf8(bytes);
            proof {
                broadcast use vstd::utf8::encode_utf8_valid_utf8, vstd::utf8::encode_utf8_decode_utf8;
            }
            match text {
                Ok(s) => Ok(s),
                Err(d) => Err(DecryptError::Utf8 { valid_up_to: d.0, error_len: d.1 }),
            }
        },
    }
}

/// The text written to a savefile for its JSON: encrypted, or as it is when
/// playing in development mode.
pub fn savefile_text(json: &str, development_mode: bool) -> (res: String)
    ensures
        res@ == if development_mode { json@ } else { spec_encrypt(json@) },
{
    if development_mode {
        let r = json.to_string();
        proof {
            vstd::string::to_string_from_display_ensures_for_str(json, r);
        }
        r
    } else {
        encrypt(json)
    }
}

/// The texts to read a savefile's JSON from, in the order to try them: the
/// decrypted text and then the raw text when the raw text decrypts; else the
/// raw text alone, with the decryption error. Text that `savefile_text`
/// encrypted is read back first as the JSON it was made from; text that it
/// wrote as it is (development mode) is read back first as itself when it
/// holds a character outside the base64 alphabet, as every JSON object does
/// with its `{`.
pub fn savefile_json_candidates(raw: &str) -> (res: (Vec<String>, Option<DecryptError>))
    ensures
        spec_decrypt(raw@) is Ok ==> {
            &&& res.0@.len() == 2
            &&& res.0@[0]@ == spec_decrypt(raw@)->Ok_0
            &&& res.0@[1]@ == raw@
            &&& res.1 is None
        },
        spec_decrypt(raw@) is Err ==> {
            &&& res.0@.len() == 1
            &&& res.0@[0]@ == raw@
            &&& res.1 == Some(spec_decrypt(raw@)->Err_0)
        },
        forall|plain: Seq<char>| raw@ == #[trigger] spec_encrypt(plain) ==> res.0@.len() >= 1 && res.0@[0]@ == plain,
        (exists|i: int| 0 <= i < raw@.len() && !is_base64_char(#[trigger] raw@[i])) ==> {
            &&& res.0@.len() == 1
            &&& res.0@[0]@ == raw@
        },
{
    let whole = raw.to_string();
    proof {
        vstd::string::to_string_from_display_ensures_for_str(raw, whole);
    }
    let mut candidates: Vec<String> = Vec::new();
    match decrypt(raw) {
        Ok(plain) => {
            candidates.push(plain);
            candidates.push(whole);
            (candidates, None)
        },
        Err(e) => {
            candidates.push(whole);
            (candidates, Some(e))
        },
    }
}

} // verus!
