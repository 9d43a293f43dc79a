//! Stored password hashes.
//!
//! A password is stored as the text encoding of an Argon2i hash session
//! made by `argon2rs` with its default parameters and a fresh random salt of
//! 16 bytes.  Logging in decodes the stored text, which may also hold a
//! session with other parameters, and lets `argon2rs` check the offered
//! password against it.
use vstd::prelude::*;
use vstd::string::*;
use vstd::utf8::*;
use argon2rs::verifier::Encoded;
use crate::hash_text::{argon2_text_syntax, is_usable_hash_text, usable_hash_text};

verus! {

/// The hash session type of `argon2rs`.
#[verifier::external_type_specification]
#[verifier::external_body]
pub struct ExEncoded(Encoded);

/// The bytes that `Encoded::default2i(password, salt, &[], &[]).to_u8()`
/// gives: the text encoding of an Argon2i hash of `password` (taken as its
/// UTF-8 bytes) with `salt`, no key and no associated data, under the
/// default parameters of `argon2rs`.
pub uninterp spec fn argon2i_encoding(password: Seq<char>, salt: Seq<u8>) -> Seq<u8>;

/// Whether `Encoded::from_u8` returns `Ok` for the UTF-8 bytes of `hash`.
pub uninterp spec fn argon2_decodes(hash: Seq<char>) -> bool;

/// What `Encoded::verify` answers for the UTF-8 bytes of `password` on the
/// session that `Encoded::from_u8` decodes from the UTF-8 bytes of `hash`.
pub uninterp spec fn argon2_verifies(hash: Seq<char>, password: Seq<char>) -> bool;

/// The characters of ASCII bytes.
pub open spec fn ascii_text(bytes: Seq<u8>) -> Seq<char> {
    Seq::new(bytes.len(), |i: int| bytes[i] as char)
}

/// Every byte is ASCII.
pub open spec fn ascii_bytes(bytes: Seq<u8>) -> bool {
    forall|i: int| 0 <= i < bytes.len() ==> #[trigger] bytes[i] < 128
}

/// Whether the stored text `hash` can be handed to `argon2rs` to check
/// passwords (see `usable_hash_text`): its UTF-8 bytes follow the layout of
/// an encoded hash session, and what they decode to is within Argon2's
/// bounds.
pub open spec fn stored_hash_usable(hash: Seq<char>) -> bool {
    usable_hash_text(encode_utf8(hash))
}

/// A stored hash that `argon2rs` can check passwords against: it is
/// usable, it decodes, and it accepts `password`.
pub open spec fn hash_accepts(hash: Seq<char>, password: Seq<char>) -> bool {
    &&& stored_hash_usable(hash)
    &&& argon2_decodes(hash)
    &&& argon2_verifies(hash, password)
}

/// A decoded hash session, together with the text it was decoded from.
pub struct StoredHash {
    encoded: Encoded,
    text: Ghost<Seq<char>>,
}

impl View for StoredHash {
    type V = Seq<char>;

    /// The stored text this session was decoded from.
    closed spec fn view(&self) -> Seq<char> {
        self.text@
    }
}

/// Sixteen random bytes from `rand::random`, which draws them from the
/// thread-local generator of `rand`.  Nothing is claimed of their values.
#[verifier::external_body]
fn random_salt() -> (salt: [u8; 16]) {
    rand::random::<[u8; 16]>()
}

/// Calls `Encoded::default2i` with the UTF-8 bytes of `password`, `salt`,
/// no key and no associated data, and `Encoded::to_u8` on the session.
///
/// `Argon2::hash` asserts a password of at most `u32::MAX` bytes and a salt
/// of 8 to `u32::MAX` bytes, hence the requirements.  The claims follow
/// `to_u8`, which writes `$argon2i$m=4096,t=3,p=1$`, the unpadded base64 of
/// the salt (never a `$`; it decodes to the salt's length), `$` and the
/// base64 of the hash, all ASCII; `from_u8` parses that text back into the
/// same session, and `verify` recomputes the same hash for the same
/// password.
#[verifier::external_body]
fn argon2i_encode(password: &str, salt: &[u8]) -> (r: Vec<u8>)
    requires
        password.spec_bytes().len() <= u32::MAX,
        8 <= salt@.len() <= u32::MAX,
    ensures
        r@ == argon2i_encoding(password@, salt@),
        ascii_bytes(r@),
        usable_hash_text(r@),
        argon2_decodes(ascii_text(r@)),
        argon2_verifies(ascii_text(r@), password@),
{
    Encoded::default2i(password.as_bytes(), salt, &[], &[]).to_u8()
}

/// Calls `Encoded::from_u8` on the UTF-8 bytes of `hash`: `None` stands for
/// its error.  Its parser asserts that input is left wherever it expects
/// more; on text that follows the layout of `argon2_text_syntax` input is
/// always left there, so it returns.
#[verifier::external_body]
pub(crate) fn argon2_decode(hash: &str) -> (r: Option<StoredHash>)
    requires
        argon2_text_syntax(hash.spec_bytes()),
    ensures
        r is Some <==> argon2_decodes(hash@),
        r matches Some(h) ==> h@ == hash@,
{
    match Encoded::from_u8(hash.as_bytes()) {
        Ok(encoded) => Some(StoredHash { encoded, text: Ghost(hash@) }),
        Err(_) => None,
    }
}

/// Calls `Encoded::verify` with the UTF-8 bytes of `password`.
/// `Argon2::hash` asserts a salt of 8 to `u32::MAX` bytes, a key of at most
/// 32 bytes, data and a password of at most `u32::MAX` bytes each; the
/// decoded salt, key and data are as long as their base64 texts decode to,
/// which `argon2_verify_bounds` bounds.  The memory and the threads that the
/// decoded parameters ask for are taken as given, as any allocation is.
#[verifier::external_body]
pub(crate) fn argon2_verify(stored: &StoredHash, password: &str) -> (ok: bool)
    requires
        stored_hash_usable(stored@),
        password.spec_bytes().len() <= u32::MAX,
    ensures
        ok == argon2_verifies(stored@, password@),
{
    stored.encoded.verify(password.as_bytes())
}

/// Calls `String::from_utf8` on bytes that are all ASCII, which are valid
/// UTF-8 and give one character each; the string holds the same bytes.
#[verifier::external_body]
fn string_from_ascii(bytes: Vec<u8>) -> (s: String)
    requires
        ascii_bytes(bytes@),
    ensures
        s@ == ascii_text(bytes@),
        encode_utf8(s@) == bytes@,
{
    String::from_utf8(bytes).unwrap()
}

/// Hashes `password` for storage: an Argon2i hash with a fresh random salt
/// of 16 bytes, in the text encoding of `argon2rs`.
pub fn hash_password(password: &String) -> (r: String)
    requires
        encode_utf8(password@).len() <= u32::MAX,
    ensures
        exists|salt: Seq<u8>|
            salt.len() == 16 && r@ == ascii_text(#[trigger] argon2i_encoding(password@, salt)),
        hash_accepts(r@, password@),
{
    let salt = random_salt();
    let bytes = argon2i_encode(password.as_str(), salt.as_slice());
    let r = string_from_ascii(bytes);
    proof {
        assert(r@ == ascii_text(argon2i_encoding(password@, salt@)));
    }
    r
}

/// Checks whether a stored hash can be handed to `argon2rs` (see
/// `stored_hash_usable`).
pub fn is_usable_stored_hash(hash: &str) -> (r: bool)
    ensures
        r == stored_hash_usable(hash@),
{
    is_usable_hash_text(hash.as_bytes())
}

} // verus!
