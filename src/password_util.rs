//! One-way password hashing with a salt held for the hasher's lifetime.

use argon2::password_hash::PasswordHasher;
use vstd::prelude::*;

verus! {

/// The self-describing Argon2 hash string (algorithm parameters, salt and
/// digest) of a password under a B64-encoded salt, or `None` where hashing
/// fails.
pub uninterp spec fn argon2_phc(password: Seq<char>, salt: Seq<char>) -> Option<Seq<char>>;

pub open spec fn opt_string_view(r: Option<String>) -> Option<Seq<char>> {
    match r {
        Some(s) => Some(s@),
        None => None,
    }
}

/// A character of the unpadded B64 alphabet `[A-Za-z0-9+/]`.
pub open spec fn is_b64_char(c: char) -> bool {
    ||| ('A' as u32) <= (c as u32) <= ('Z' as u32)
    ||| ('a' as u32) <= (c as u32) <= ('z' as u32)
    ||| ('0' as u32) <= (c as u32) <= ('9' as u32)
    ||| c == '+'
    ||| c == '/'
}

/// The unpadded B64 text of 16 bytes: 22 characters, the last of which
/// carries only two bits (so its low four bits are zero).
pub open spec fn is_b64_of_16_bytes(s: Seq<char>) -> bool {
    &&& s.len() == 22
    &&& forall|i: int| 0 <= i < 22 ==> is_b64_char(#[trigger] s[i])
    &&& (s[21] == 'A' || s[21] == 'Q' || s[21] == 'g' || s[21] == 'w')
}

/// A password length (in characters) whose UTF-8 bytes stay within
/// Argon2's bound of 0xFFFF_FFFF bytes.
pub open spec fn password_len_ok(password: Seq<char>) -> bool {
    password.len() <= 0x3FFF_FFFF
}

/// Relies on password_hash::SaltString::generate with the operating
/// system's random source: 16 random bytes, encoded as unpadded B64.
#[verifier::external_body]
fn random_salt() -> (r: String)
    ensures
        is_b64_of_16_bytes(r@),
{
    argon2::password_hash::SaltString::generate(&mut argon2::password_hash::rand_core::OsRng)
        .as_str()
        .to_string()
}

/// Relies on argon2::Argon2::default().hash_password and
/// PasswordHash::to_string: the PHC string of the password under the salt
/// with the default parameters, which depends on the two inputs alone; an
/// error (here `None`) where the salt is not valid B64 or hashing fails.
/// A salt of 16 bytes and a password within the length bound hash without
/// error.
#[verifier::external_body]
fn argon2_hash(password: &str, salt: &str) -> (r: Option<String>)
    ensures
        opt_string_view(r) == argon2_phc(password@, salt@),
        is_b64_of_16_bytes(salt@) && password_len_ok(password@) ==> r is Some,
{
    let salt = argon2::password_hash::SaltString::from_b64(salt).ok()?;
    argon2::Argon2::default().hash_password(password.as_bytes(), &salt).ok().map(|h| h.to_string())
}

/// A credential hasher. It draws one random salt when constructed and uses
/// it for every password it hashes.
///
/// Known weakness, to be fixed: sharing one salt across passwords lets equal
/// passwords produce equal hashes. Each `hash` call should draw and embed a
/// fresh salt instead.
pub struct PasswordUtil {
    salt: String,
}

impl PasswordUtil {
    pub closed spec fn salt(&self) -> Seq<char> {
        self.salt@
    }

    /// The salt is the B64 text of 16 bytes.
    pub open spec fn wf(&self) -> bool {
        is_b64_of_16_bytes(self.salt())
    }

    /// What `hash` gives for `password` on this hasher.
    pub open spec fn spec_hash(&self, password: Seq<char>) -> Option<Seq<char>> {
        argon2_phc(password, self.salt())
    }

    /// A hasher with a freshly drawn salt.
    pub fn new() -> (r: PasswordUtil)
        ensures
            r.wf(),
    {
        PasswordUtil { salt: random_salt() }
    }

    /// What `hash` promises of its result `r` for `password`.
    pub open spec fn is_hash_result(&self, password: Seq<char>, r: Option<String>) -> bool {
        &&& opt_string_view(r) == self.spec_hash(password)
        &&& self.wf() && password_len_ok(password) ==> r is Some
    }

    /// The hash string of `password` under this hasher's salt, or `None`
    /// when hashing fails.
    pub fn hash(&self, password: String) -> (r: Option<String>)
        ensures
            opt_string_view(r) == self.spec_hash(password@),
            self.wf() && password_len_ok(password@) ==> r is Some,
            self.is_hash_result(password@, r),
    {
        argon2_hash(password.as_str(), self.salt.as_str())
    }
}

/// A hasher is deterministic: two hashes of one password on the same
/// hasher agree, and on a well-formed hasher with a password within the
/// length bound both succeed.
pub proof fn lemma_same_hasher_same_hash(
    u: &PasswordUtil,
    password: Seq<char>,
    r1: Option<String>,
    r2: Option<String>,
)
    requires
        u.is_hash_result(password, r1),
        u.is_hash_result(password, r2),
    ensures
        opt_string_view(r1) == opt_string_view(r2),
        u.wf() && password_len_ok(password) ==> r1 is Some && r2 is Some,
{
}

} // verus!
