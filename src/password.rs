//! Password credentials: a salted Argon2id digest in PHC string form.
use vstd::prelude::*;

use crate::role::utf8_len;
use crate::user::UserError;

use argon2::password_hash::rand_core::OsRng;
use argon2::password_hash::{PasswordHasher, PasswordVerifier, SaltString};

verus! {

/// The PHC string that Argon2id with default parameters gives for a password
/// and a B64 salt, or `None` where hashing fails.
pub uninterp spec fn phc_digest(password: Seq<char>, salt: Seq<char>) -> Option<Seq<char>>;

/// Whether a candidate password verifies against a stored PHC string.
pub uninterp spec fn phc_verifies(digest: Seq<char>, candidate: Seq<char>) -> bool;

/// Longest password Argon2 accepts, in bytes.
pub const MAX_PASSWORD_BYTES: u64 = 0xFFFF_FFFF;

/// A digit of the standard B64 alphabet.
pub open spec fn is_b64_digit(c: char) -> bool {
    ('A' <= c && c <= 'Z') || ('a' <= c && c <= 'z') || ('0' <= c && c <= '9') || c == '+'
        || c == '/'
}

/// Unpadded B64 text of sixteen bytes: 22 digits, the last with its four spare
/// bits clear.
pub open spec fn is_b64_of_16_bytes(s: Seq<char>) -> bool {
    &&& s.len() == 22
    &&& forall|i: int| 0 <= i < 22 ==> is_b64_digit(#[trigger] s[i])
    &&& (s[21] == 'A' || s[21] == 'Q' || s[21] == 'g' || s[21] == 'w')
}

/// Relies on `password_hash::SaltString::generate` with `OsRng`: sixteen random
/// bytes in unpadded B64.
#[verifier::external_body]
fn random_salt() -> (r: String)
    ensures
        is_b64_of_16_bytes(r@),
{
    SaltString::generate(&mut OsRng).as_str().to_string()
}

/// Relies on `argon2::Argon2::default().hash_password`: the PHC string for the
/// password and salt; the hasher's own verifier accepts that password against it.
/// It fails only on a salt that does not decode to 8 to 64 bytes, or on a password
/// over `MAX_PASSWORD_BYTES`.
#[verifier::external_body]
fn argon2_hash(password: &str, salt: &str) -> (r: Option<String>)
    ensures
        is_b64_of_16_bytes(salt@) && utf8_len(password@) <= MAX_PASSWORD_BYTES ==> r is Some,
        match r {
            Some(d) => phc_digest(password@, salt@) == Some(d@) && phc_verifies(d@, password@),
            None => phc_digest(password@, salt@) is None,
        },
{
    let salt = match SaltString::from_b64(salt) {
        Ok(s) => s,
        Err(_) => return None,
    };
    match argon2::Argon2::default().hash_password(password.as_bytes(), &salt) {
        Ok(h) => Some(h.to_string()),
        Err(_) => None,
    }
}

/// Relies on `argon2::PasswordHash::new` and `Argon2::default().verify_password`:
/// a digest that does not parse verifies nothing.
#[verifier::external_body]
fn argon2_verify(digest: &str, candidate: &str) -> (r: bool)
    ensures
        r == phc_verifies(digest@, candidate@),
{
    match argon2::PasswordHash::new(digest) {
        Ok(h) => argon2::Argon2::default().verify_password(candidate.as_bytes(), &h).is_ok(),
        Err(_) => false,
    }
}

/// A stored password credential. It holds the digest, never the password.
#[derive(Debug, Clone, PartialEq, Eq)]
pub struct UserPassword(String);

impl View for UserPassword {
    type V = Seq<char>;

    closed spec fn view(&self) -> Seq<char> {
        self.0@
    }
}

/// The outcome of making a credential from a password, its confirmation and a salt.
pub open spec fn credential_outcome(
    password: Seq<char>,
    confirm: Seq<char>,
    salt: Seq<char>,
) -> Result<Seq<char>, UserError> {
    if password != confirm {
        Err(UserError::PasswordMismatch)
    } else {
        match phc_digest(password, salt) {
            Some(d) => Ok(d),
            None => Err(UserError::HashingFailed),
        }
    }
}

impl UserPassword {
    /// A credential for `password` under the given B64 salt, once `confirm_password`
    /// equals it.
    pub fn with_salt(password: &str, confirm_password: &str, salt: &str) -> (r: Result<
        UserPassword,
        UserError,
    >)
        ensures
            match credential_outcome(password@, confirm_password@, salt@) {
                Ok(d) => r matches Ok(c) && c@ == d && phc_verifies(c@, password@),
                Err(e) => r == Err::<UserPassword, UserError>(e),
            },
            password@ == confirm_password@ && is_b64_of_16_bytes(salt@) && utf8_len(password@)
                <= MAX_PASSWORD_BYTES ==> r is Ok,
    {
        let p = password.to_owned();
        let c = confirm_password.to_owned();
        if p != c {
            return Err(UserError::PasswordMismatch);
        }
        match argon2_hash(password, salt) {
            Some(d) => Ok(UserPassword(d)),
            None => Err(UserError::HashingFailed),
        }
    }

    /// A credential for `password` under a fresh random salt, once
    /// `confirm_password` equals it. The new credential verifies `password`; it is
    /// always made for a password of at most `MAX_PASSWORD_BYTES` bytes.
    pub fn new(password: &str, confirm_password: &str) -> (r: Result<UserPassword, UserError>)
        ensures
            password@ != confirm_password@ <==> r == Err::<UserPassword, UserError>(
                UserError::PasswordMismatch,
            ),
            password@ == confirm_password@ ==> (r is Ok || r == Err::<UserPassword, UserError>(
                UserError::HashingFailed,
            )),
            password@ == confirm_password@ && utf8_len(password@) <= MAX_PASSWORD_BYTES ==> r is Ok,
            r matches Ok(c) ==> phc_verifies(c@, password@),
    {
        let salt = random_salt();
        UserPassword::with_salt(password, confirm_password, salt.as_str())
    }

    /// Whether `password` matches the credential. An unreadable digest matches nothing.
    pub fn verify(&self, password: &str) -> (r: bool)
        ensures
            r == phc_verifies(self@, password@),
    {
        argon2_verify(self.0.as_str(), password)
    }

    /// A credential from a stored PHC digest.
    pub fn from_digest(digest: String) -> (r: UserPassword)
        ensures
            r@ == digest@,
    {
        UserPassword(digest)
    }

    /// The stored PHC digest.
    pub fn digest(&self) -> (r: &str)
        ensures
            r@ == self@,
    {
        self.0.as_str()
    }
}

} // verus!
