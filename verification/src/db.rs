//! What the database handles compute before they touch the database: the
//! instance secret, the stored form of a password, and the text of an
//! update statement.

use vstd::prelude::*;
use argon2::password_hash::rand_core::OsRng;
use argon2::password_hash::SaltString;
use argon2::{Argon2, PasswordHasher};
use rand::Rng;
use vstd::string::StringSliceAdditionalSpecFns;
use crate::text::{opt_str_view, owned, push_char};

verus! {

/// Whether `c` is an ASCII letter or digit.
pub open spec fn is_ascii_alphanumeric(c: char) -> bool {
    ('a' <= c <= 'z') || ('A' <= c <= 'Z') || ('0' <= c <= '9')
}

/// Whether `c` belongs to the standard Base64 alphabet.
pub open spec fn is_base64_char(c: char) -> bool {
    is_ascii_alphanumeric(c) || c == '+' || c == '/'
}

/// The number of characters of an instance secret.
pub const SECRET_LEN: usize = 80;

/// Whether `s` has the form of an instance secret: eighty ASCII letters and
/// digits.
pub open spec fn is_secret(s: Seq<char>) -> bool {
    &&& s.len() == SECRET_LEN
    &&& forall|i: int| 0 <= i < s.len() ==> is_ascii_alphanumeric(#[trigger] s[i])
}

/// Whether `s` has the form of a salt made by `SaltString::generate`:
/// sixteen random bytes in unpadded Base64, that is twenty-two characters.
pub open spec fn is_generated_salt(s: Seq<char>) -> bool {
    &&& s.len() == 22
    &&& forall|i: int| 0 <= i < s.len() ==> is_base64_char(#[trigger] s[i])
}

/// Draws a character from `rand::distributions::Alphanumeric` with the
/// thread's generator (`rand::thread_rng().sample(..)`), as a `char`. The
/// contract claims what the source shows of every outcome: an ASCII letter
/// or digit.
#[verifier::external_body]
fn random_alphanumeric() -> (c: char)
    ensures
        is_ascii_alphanumeric(c),
{
    char::from(rand::thread_rng().sample(rand::distributions::Alphanumeric))
}

/// A fresh random instance secret: eighty characters, each drawn from the
/// ASCII letters and digits.
pub fn generate_secret() -> (r: String)
    ensures
        is_secret(r@),
{
    let mut secret = String::new();
    let mut i: usize = 0;
    while i < SECRET_LEN
        invariant
            i <= SECRET_LEN,
            secret@.len() == i,
            forall|k: int| 0 <= k < i ==> is_ascii_alphanumeric(#[trigger] secret@[k]),
        decreases SECRET_LEN - i,
    {
        let c = random_alphanumeric();
        push_char(&mut secret, c);
        i = i + 1;
    }
    secret
}

/// Calls `SaltString::generate(&mut OsRng)` and takes the salt's text. The
/// contract claims what the `password-hash` source shows of every outcome:
/// sixteen random bytes encoded as unpadded Base64, twenty-two characters.
#[verifier::external_body]
fn generate_salt() -> (r: String)
    ensures
        is_generated_salt(r@),
{
    SaltString::generate(&mut OsRng).as_str().to_owned()
}

/// The PHC string that `Argon2::default().hash_password` makes of a
/// password and a Base64 salt, or `None` where it reports an error.
pub uninterp spec fn argon2_hash(password: Seq<u8>, salt: Seq<char>) -> Option<Seq<char>>;

/// Calls `Argon2::default().hash_password` on the password's bytes and the
/// salt (read with `SaltString::from_b64`), and takes the PHC string of the
/// hash. The contract claims only that the outcome is a function of the
/// password and the salt, named `argon2_hash`.
#[verifier::external_body]
fn argon2_hash_password(password: &[u8], salt: &str) -> (r: Option<String>)
    ensures
        opt_str_view(r) == argon2_hash(password@, salt@),
{
    match SaltString::from_b64(salt) {
        Ok(s) => match Argon2::default().hash_password(password, &s) {
            Ok(h) => Some(h.to_string()),
            Err(_) => None,
        },
        Err(_) => None,
    }
}

/// The Argon2 hash (PHC string) of a password with a given salt, or `None`
/// where hashing fails.
pub fn hash_password_with_salt(password: &str, salt: &str) -> (r: Option<String>)
    ensures
        opt_str_view(r) == argon2_hash(password.spec_bytes(), salt@),
{
    argon2_hash_password(password.as_bytes(), salt)
}

/// The stored form of a new user's password: a fresh random salt and the
/// Argon2 hash of the password with it (`None` where hashing fails).
pub fn hash_new_password(password: &str) -> (r: (String, Option<String>))
    ensures
        is_generated_salt(r.0@),
        opt_str_view(r.1) == argon2_hash(password.spec_bytes(), r.0@),
{
    let salt = generate_salt();
    let hash = hash_password_with_salt(password, salt.as_str());
    (salt, hash)
}

/// The statement that sets the given fields of the user whose id is bound
/// to `$1`.
pub fn update_user_query(fields: &str) -> (r: String)
    ensures
        r@ == "UPDATE user SET "@ + fields@ + " WHERE id = $1"@,
{
    owned("UPDATE user SET ").concat(fields).concat(" WHERE id = $1")
}

} // verus!
