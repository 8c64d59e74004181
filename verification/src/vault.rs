//! The credential vault: a password is kept on disk wrapped in two fixed
//! markers and encoded as base64. This hides the password from a casual
//! glance and from nothing else.

use vstd::prelude::*;
use vstd::utf8::*;
use crate::error::{fault, BackupError, ErrorKind, Fault};
use crate::text::{append, chars_of, ends_with, has_prefix, has_suffix, starts_with, string_of};

verus! {

/// The text that standard base64, with padding, gives for `bytes`.
pub uninterp spec fn base64_text(bytes: Seq<u8>) -> Seq<char>;

/// The bytes that `text` stands for in standard base64 with padding, or
/// `None` where `text` is no such encoding.
pub uninterp spec fn base64_bytes(text: Seq<char>) -> Option<Seq<u8>>;

/// `std::string::FromUtf8Error`, the error of `String::from_utf8`: carried
/// through, never looked into.
#[verifier::external_type_specification]
#[verifier::external_body]
pub struct ExFromUtf8Error(std::string::FromUtf8Error);

/// `String::from_utf8` succeeds exactly on well-formed UTF-8 and then holds
/// the characters that the bytes encode.
pub assume_specification[ String::from_utf8 ](vec: Vec<u8>) -> (r: Result<
    String,
    std::string::FromUtf8Error,
>)
    ensures
        r is Ok <==> valid_utf8(vec@),
        r matches Ok(s) ==> s@ == decode_utf8(vec@),
;

/// Calls `Engine::encode` of the crate `base64` on its `STANDARD` engine.
/// The result is named `base64_text`; decoding it with the same engine
/// gives the bytes back, as the crate's documentation of the engine shows.
/// The call panics where the encoded length overflows `usize`, which the
/// precondition rules out.
#[verifier::external_body]
fn base64_encode(bytes: &[u8]) -> (text: String)
    requires
        bytes@.len() / 3 * 4 + 4 <= usize::MAX,
    ensures
        text@ == base64_text(bytes@),
        base64_bytes(text@) == Some(bytes@),
{
    base64::Engine::encode(&base64::engine::general_purpose::STANDARD, bytes)
}

/// Calls `Engine::decode` of the crate `base64` on its `STANDARD` engine.
/// The result is named `base64_bytes`.
#[verifier::external_body]
fn base64_decode(text: &str) -> (bytes: Option<Vec<u8>>)
    ensures
        bytes is Some <==> base64_bytes(text@) is Some,
        bytes matches Some(b) ==> base64_bytes(text@) == Some(b@),
{
    base64::Engine::decode(&base64::engine::general_purpose::STANDARD, text).ok()
}

/// The marker in front of a stored password.
pub open spec fn opening_marker() -> Seq<char> {
    "_SALT_"@
}

/// The marker behind a stored password.
pub open spec fn closing_marker() -> Seq<char> {
    "_END_"@
}

/// The password between its two markers.
pub open spec fn sealed(password: Seq<char>) -> Seq<char> {
    opening_marker() + password + closing_marker()
}

/// `text` begins with the opening marker and ends with the closing one,
/// the two not overlapping.
pub open spec fn carries_markers(text: Seq<char>) -> bool {
    &&& opening_marker().len() + closing_marker().len() <= text.len()
    &&& starts_with(text, opening_marker())
    &&& ends_with(text, closing_marker())
}

/// What lies between the two markers of `text`.
pub open spec fn between_markers(text: Seq<char>) -> Seq<char> {
    text.subrange(opening_marker().len() as int, text.len() - closing_marker().len())
}

/// The blob under which `password` is stored.
pub open spec fn blob_of(password: Seq<char>) -> Seq<char> {
    base64_text(encode_utf8(sealed(password)))
}

/// The password that `blob` holds, or why it holds none.
pub open spec fn password_of(blob: Seq<char>) -> Result<Seq<char>, Fault> {
    match base64_bytes(blob) {
        None => Err(fault(ErrorKind::Format, "Decode failed"@)),
        Some(bytes) => if !valid_utf8(bytes) {
            Err(fault(ErrorKind::Format, "Invalid UTF-8"@))
        } else if !carries_markers(decode_utf8(bytes)) {
            Err(fault(ErrorKind::Format, "Data corruption"@))
        } else {
            Ok(between_markers(decode_utf8(bytes)))
        },
    }
}

/// `password` is short enough for the length of its blob to fit in
/// `usize`.
pub open spec fn fits(password: Seq<char>) -> bool {
    (encode_utf8(password).len() + 11) / 3 * 4 + 4 <= usize::MAX
}

/// What a read of the vault file gives back: the password of the stored
/// blob; a fault of kind `NotFound` where nothing is stored.
pub open spec fn stored_password(stored: Option<Seq<char>>) -> Result<Seq<char>, Fault> {
    match stored {
        None => Err(fault(ErrorKind::NotFound, "No password stored locally"@)),
        Some(blob) => password_of(blob),
    }
}

/// A blob that stands for the UTF-8 of a sealed password holds that
/// password: what is stored of a password is read back as that password.
pub proof fn blob_of_sealed_password_holds_it(password: Seq<char>, blob: Seq<char>)
    requires
        base64_bytes(blob) == Some(encode_utf8(sealed(password))),
    ensures
        password_of(blob) == Ok::<Seq<char>, Fault>(password),
        stored_password(Some(blob)) == Ok::<Seq<char>, Fault>(password),
{
    sealed_password_is_recovered(password);
    encode_utf8_valid_utf8(sealed(password));
    encode_utf8_decode_utf8(sealed(password));
}

/// A blob whose text carries no markers, and the absence of a blob, are
/// told apart: the one is a fault of kind `Format`, the other one of kind
/// `NotFound`.
pub proof fn corruption_is_not_absence(blob: Seq<char>)
    requires
        password_of(blob) is Err,
    ensures
        stored_password(Some(blob))->Err_0.kind == ErrorKind::Format,
        stored_password(None::<Seq<char>>)->Err_0.kind == ErrorKind::NotFound,
{
}

/// Sealing a password and taking it out again gives the password.
pub proof fn sealed_password_is_recovered(password: Seq<char>)
    ensures
        carries_markers(sealed(password)),
        between_markers(sealed(password)) == password,
        encode_utf8(sealed(password)).len() == encode_utf8(password).len() + 11,
{
    reveal_strlit("_SALT_");
    reveal_strlit("_END_");
    let text = sealed(password);
    assert(text.subrange(0, 6) =~= opening_marker());
    assert(text.subrange(text.len() - 5, text.len() as int) =~= closing_marker());
    assert(text.subrange(6, text.len() - 5) =~= password);
    sealed_length(password);
}

proof fn encode_utf8_concat(a: Seq<char>, b: Seq<char>)
    ensures
        encode_utf8(a + b) == encode_utf8(a) + encode_utf8(b),
    decreases a.len(),
{
    if a.len() == 0 {
        assert(a + b =~= b);
        assert(encode_utf8(a) =~= Seq::<u8>::empty());
        assert(encode_utf8(a) + encode_utf8(b) =~= encode_utf8(b));
    } else {
        assert((a + b).drop_first() =~= a.drop_first() + b);
        encode_utf8_concat(a.drop_first(), b);
        assert(encode_utf8(a + b) =~= encode_utf8(a) + encode_utf8(b));
    }
}

proof fn sealed_length(password: Seq<char>)
    ensures
        encode_utf8(sealed(password)).len() == encode_utf8(password).len() + 11,
{
    reveal_strlit("_SALT_");
    reveal_strlit("_END_");
    encode_utf8_concat(opening_marker() + password, closing_marker());
    encode_utf8_concat(opening_marker(), password);
    assert(is_ascii_chars(opening_marker()));
    assert(is_ascii_chars(closing_marker()));
    is_ascii_chars_encode_utf8(opening_marker());
    is_ascii_chars_encode_utf8(closing_marker());
}

/// The blob under which `data` is stored: base64 of the opening marker,
/// `data` and the closing marker. Reading the blob gives `data` back.
pub fn encrypt_data(data: &str) -> (blob: String)
    requires
        fits(data@),
    ensures
        blob@ == blob_of(data@),
        password_of(blob@) == Ok::<Seq<char>, Fault>(data@),
{
    let mut text: Vec<char> = chars_of("_SALT_");
    let body = chars_of(data);
    let tail = chars_of("_END_");
    append(&mut text, &body);
    append(&mut text, &tail);
    let salted = string_of(&text);
    proof {
        sealed_password_is_recovered(data@);
    }
    let blob = base64_encode(salted.as_str().as_bytes());
    proof {
        blob_of_sealed_password_holds_it(data@, blob@);
    }
    blob
}

/// The password that `data` holds. Fails with a fault of kind `Format`
/// where `data` is no base64, where the bytes are no UTF-8, and where the
/// text does not carry both markers.
pub fn decrypt_data(data: &str) -> (r: Result<String, BackupError>)
    ensures
        match password_of(data@) {
            Ok(password) => r matches Ok(s) && s@ == password,
            Err(f) => r matches Err(e) && e@ == f,
        },
{
    let bytes = match base64_decode(data) {
        Some(bytes) => bytes,
        None => {
            return Err(BackupError::new(ErrorKind::Format, "Decode failed"));
        },
    };
    let decoded = match String::from_utf8(bytes) {
        Ok(decoded) => decoded,
        Err(_) => {
            return Err(BackupError::new(ErrorKind::Format, "Invalid UTF-8"));
        },
    };
    let text = chars_of(decoded.as_str());
    let prefix = chars_of("_SALT_");
    let suffix = chars_of("_END_");
    if text.len() < prefix.len() || text.len() - prefix.len() < suffix.len() || !has_prefix(
        &text,
        &prefix,
    ) || !has_suffix(&text, &suffix) {
        return Err(BackupError::new(ErrorKind::Format, "Data corruption"));
    }
    let mut inner: Vec<char> = Vec::new();
    let end: usize = text.len() - suffix.len();
    let mut i: usize = prefix.len();
    while i < end
        invariant
            prefix.len() <= i <= end <= text.len(),
            inner@ == text@.subrange(prefix.len() as int, i as int),
        decreases end - i,
    {
        inner.push(text[i]);
        assert(text@.subrange(prefix.len() as int, i as int).push(text@[i as int])
            =~= text@.subrange(prefix.len() as int, i + 1));
        i += 1;
    }
    Ok(string_of(&inner))
}

/// The blob to write to the vault file for `password`, or a fault of kind
/// `Io` where the password is too long for a blob to be made. Loading the
/// blob gives `password` back.
pub fn save_password(password: &str) -> (r: Result<String, BackupError>)
    ensures
        match r {
            Ok(blob) => {
                &&& fits(password@)
                &&& blob@ == blob_of(password@)
                &&& stored_password(Some(blob@)) == Ok::<Seq<char>, Fault>(password@)
            },
            Err(e) => !fits(password@) && e@ == fault(ErrorKind::Io, "Password too long"@),
        },
{
    let len: usize = password.as_bytes().len();
    if len > usize::MAX - 11 || (len + 11) / 3 > (usize::MAX - 4) / 4 {
        return Err(BackupError::new(ErrorKind::Io, "Password too long"));
    }
    Ok(encrypt_data(password))
}

/// The password of the vault, given what its file holds (`None` where the
/// file is absent). Fails with a fault of kind `NotFound` where nothing is
/// stored, and as `decrypt_data` does on what is stored.
pub fn load_password(stored: Option<&str>) -> (r: Result<String, BackupError>)
    ensures
        match stored_password(
            match stored {
                Some(blob) => Some(blob@),
                None => None,
            },
        ) {
            Ok(password) => r matches Ok(s) && s@ == password,
            Err(f) => r matches Err(e) && e@ == f,
        },
{
    match stored {
        None => Err(BackupError::new(ErrorKind::NotFound, "No password stored locally")),
        Some(blob) => decrypt_data(blob),
    }
}

} // verus!
