use vstd::prelude::*;
use crate::text::{replace_all, replace_str};

verus! {

/// The user of a debug image.
#[derive(Clone, Debug)]
pub struct Credentials {
    pub username: String,
    pub password: String,
    pub salt: String,
}

/// What `str::to_uppercase` makes of a string.
pub uninterp spec fn upper_of(s: Seq<char>) -> Seq<char>;

/// Relies on std's `str::to_uppercase`, whose result depends on the
/// characters alone.
#[verifier::external_body]
fn uppercase(s: &str) -> (r: String)
    ensures
        r@ == upper_of(s@),
{
    s.to_uppercase()
}

/// Relies on rand's `Alphanumeric` distribution, sampled with the thread's
/// generator: one character out of `A-Z`, `a-z` and `0-9`.
#[verifier::external_body]
fn random_alphanumeric() -> (r: String)
    ensures
        r@.len() == 1,
        is_alphanumeric(r@[0]),
{
    (rand::Rng::sample(&mut rand::thread_rng(), rand::distributions::Alphanumeric) as char).to_string()
}

pub open spec fn is_alphanumeric(c: char) -> bool {
    ('A' <= c && c <= 'Z') || ('a' <= c && c <= 'z') || ('0' <= c && c <= '9')
}

/// The environment variable that holds a credential, from the upper-case
/// form of its name: spaces become underscores, behind a fixed prefix.
pub open spec fn env_key(upper: Seq<char>) -> Seq<char> {
    "THISTLE_YOCTO_BUILD_"@ + replace_all(upper, " "@, "_"@)
}

/// The environment variable for a credential, given the upper-case form of
/// its name.
pub fn env_key_from_upper(upper: &str) -> (r: String)
    ensures
        r@ == env_key(upper@),
{
    proof {
        reveal_strlit(" ");
    }
    let tail = replace_str(upper, " ", "_");
    "THISTLE_YOCTO_BUILD_".to_string().concat(tail.as_str())
}

/// The environment variable that holds the credential called `name`.
pub fn credential_env_key(name: &str) -> (r: String)
    ensures
        r@ == env_key(upper_of(name@)),
{
    let upper = uppercase(name);
    env_key_from_upper(upper.as_str())
}

/// A fresh salt of sixteen random letters and digits.
pub fn generate_salt() -> (r: String)
    ensures
        r@.len() == 16,
        forall|i: int| 0 <= i < 16 ==> is_alphanumeric(#[trigger] r@[i]),
{
    let mut salt = String::new();
    let mut i: usize = 0;
    while i < 16
        invariant
            i <= 16,
            salt@.len() == i,
            forall|j: int| 0 <= j < i ==> is_alphanumeric(#[trigger] salt@[j]),
        decreases 16 - i,
    {
        let c = random_alphanumeric();
        let ghost before = salt@;
        salt.append(c.as_str());
        assert(salt@ == before + c@);
        assert(salt@[i as int] == c@[0]);
        i = i + 1;
    }
    salt
}

/// The setting that selects SHA-256 crypt with the given salt.
pub fn sha256_crypt_setting(salt: &str) -> (r: String)
    ensures
        r@ == "$5$"@ + salt@,
{
    "$5$".to_string().concat(salt)
}

/// A password hash with each `$` escaped by a backslash, as the build
/// configuration expects it.
pub fn escape_hash(hash: &str) -> (r: String)
    ensures
        r@ == replace_all(hash@, "$"@, "\\$"@),
{
    proof {
        reveal_strlit("$");
    }
    replace_str(hash, "$", "\\$")
}

} // verus!
