//! Password storage rules: which bcrypt hash is in force, how a password is
//! checked against it and how a new one is hashed.
use vstd::prelude::*;
use crate::text::{trim, trim_spec};

verus! {

/// Hash of the built-in password `unlock`, used when no custom hash is stored.
pub const DEFAULT_HASH: &'static str = "$2b$12$G95bkoHmmCqLvabUSSsNc.U/lcHJzy2/ncG2ZgVja8SoKdS50/8Fi";

/// How often, in milliseconds, the overlay windows take the focus back.
pub const FOCUS_POLL_MS: u64 = 500;

/// How many frames of the primary display show the error border after a wrong password.
pub const ERROR_FLASH_FRAMES: u32 = 30;

/// The bcrypt cost with which new passwords are hashed.
pub const HASH_COST: u32 = 12;

/// The error type of the `bcrypt` crate.
#[verifier::external_type_specification]
#[verifier::external_body]
pub struct ExBcryptError(bcrypt::BcryptError);

/// What `bcrypt::verify(password, hash)` returns: `Some(b)` for `Ok(b)`, `None` for an error.
/// It depends on the password's UTF-8 bytes and on the hash text alone: the salt and the
/// cost are read from the hash and the password is hashed again with them.
pub uninterp spec fn bcrypt_verify_outcome(password: Seq<char>, hash: Seq<char>) -> Option<bool>;

/// Calls `bcrypt::verify`. Its source parses the hash (it must be 60 ASCII bytes of the
/// form `$2?$cc$...`, else an `InvalidHash` error), rehashes the password with the cost and
/// salt found there and compares. The contract states that the result is the named outcome
/// of the two arguments, and that a hash that is not 60 ASCII characters is refused.
#[verifier::external_body]
fn bcrypt_verify(password: &str, hash: &str) -> (r: Result<bool, bcrypt::BcryptError>)
    ensures
        match r {
            Ok(b) => bcrypt_verify_outcome(password@, hash@) == Some(b),
            Err(_) => bcrypt_verify_outcome(password@, hash@) is None,
        },
        !(hash@.len() == 60 && vstd::utf8::is_ascii_chars(hash@)) ==> r is Err,
{
    bcrypt::verify(password, hash)
}

/// A printable ASCII character other than the space: what the `$2b$cc$` prefix and the
/// bcrypt base64 alphabet (`./A-Za-z0-9`) of a hash are made of.
pub open spec fn is_hash_char(c: char) -> bool {
    0x21 <= (c as u32) && (c as u32) <= 0x7e
}

/// The decimal digit for `d` in 0..=9.
pub open spec fn digit_char(d: int) -> char {
    if d == 0 { '0' } else if d == 1 { '1' } else if d == 2 { '2' } else if d == 3 { '3' }
    else if d == 4 { '4' } else if d == 5 { '5' } else if d == 6 { '6' } else if d == 7 { '7' }
    else if d == 8 { '8' } else { '9' }
}

/// The first seven characters of a hash made with `cost` (4..=31): the version `$2b$`,
/// the cost in two decimal digits, then `$`.
pub open spec fn hash_prefix_matches(h: Seq<char>, cost: u32) -> bool {
    &&& h.len() >= 7
    &&& h[0] == '$'
    &&& h[1] == '2'
    &&& h[2] == 'b'
    &&& h[3] == '$'
    &&& h[4] == digit_char((cost / 10) as int)
    &&& h[5] == digit_char((cost % 10) as int)
    &&& h[6] == '$'
}

/// Calls `bcrypt::hash`. Its source refuses a cost outside 4..=31 and may fail to draw a
/// random salt; on success it returns a 60-character hash that starts with `$2b$`, the cost
/// in two digits and `$`, is otherwise written with the bcrypt base64 alphabet, and that
/// `bcrypt::verify` accepts for the same password. Which salt was drawn, and so which
/// hash, is left unsaid.
#[verifier::external_body]
fn bcrypt_hash(password: &str, cost: u32) -> (r: Result<String, bcrypt::BcryptError>)
    ensures
        !(4 <= cost <= 31) ==> r is Err,
        r matches Ok(h) ==> h@.len() == 60 && bcrypt_verify_outcome(password@, h@) == Some(true),
        r matches Ok(h) ==> forall|i: int| 0 <= i < h@.len() ==> is_hash_char(#[trigger] h@[i]),
        r matches Ok(h) ==> hash_prefix_matches(h@, cost),
{
    bcrypt::hash(password, cost)
}

/// Calls the `Display` impl of `bcrypt::BcryptError`; nothing is stated of the text.
#[verifier::external_body]
fn bcrypt_error_text(e: &bcrypt::BcryptError) -> String {
    format!("{e}")
}

/// Whether `input` is accepted by the stored hash `hash`.
pub open spec fn password_accepted(input: Seq<char>, hash: Seq<char>) -> bool {
    bcrypt_verify_outcome(input, hash) == Some(true)
}

/// Checks a typed password against a stored bcrypt hash; a malformed hash accepts nothing.
pub fn verify_password(input: &str, hash: &str) -> (r: bool)
    ensures
        r == password_accepted(input@, hash@),
        !(hash@.len() == 60 && vstd::utf8::is_ascii_chars(hash@)) ==> !r,
{
    match bcrypt_verify(input, hash) {
        Ok(b) => b,
        Err(_) => false,
    }
}

/// Hashes a new password for storage, in bcrypt version `2b` with cost `HASH_COST`. On
/// success the stored hash accepts the new password.
pub fn hash_password(password: &str) -> (r: Result<String, String>)
    ensures
        r matches Ok(h) ==> h@.len() == 60 && password_accepted(password@, h@),
        r matches Ok(h) ==> h@.take(7) == "$2b$12$"@,
        r matches Ok(h) ==> forall|i: int| 0 <= i < h@.len() ==> is_hash_char(#[trigger] h@[i]),
        r matches Err(m) ==> m@.take(12) == "hash error: "@,
{
    let outcome = bcrypt_hash(password, HASH_COST);
    proof {
        reveal_strlit("$2b$12$");
        if outcome is Ok {
            assert(outcome->Ok_0@.take(7) =~= "$2b$12$"@);
        }
    }
    finish_new_hash(outcome)
}

/// Turns the outcome of hashing a new password into the result of `hash_password`: a
/// hash that bcrypt produced is returned as it is, whatever the password was; a bcrypt
/// error becomes `hash error: ` followed by its text.
pub fn finish_new_hash(outcome: Result<String, bcrypt::BcryptError>) -> (r: Result<String, String>)
    ensures
        match outcome {
            Ok(h) => r == Ok::<String, String>(h),
            Err(_) => r matches Err(m) && m@.take(12) == "hash error: "@,
        },
{
    match outcome {
        Ok(h) => Ok(h),
        Err(e) => {
            let mut m = String::from_str("hash error: ");
            proof {
                reveal_strlit("hash error: ");
            }
            let detail = bcrypt_error_text(&e);
            let ghost prefix = m@;
            m.append(detail.as_str());
            assert(m@.take(12) =~= prefix);
            Err(m)
        },
    }
}

/// The stored hash in force: the trimmed contents of the password file when that is not
/// empty, else `DEFAULT_HASH`. `contents` is `None` when the file could not be read.
pub open spec fn effective_hash(contents: Option<Seq<char>>) -> Seq<char> {
    match contents {
        Some(c) => if trim_spec(c).len() > 0 {
            trim_spec(c)
        } else {
            DEFAULT_HASH@
        },
        None => DEFAULT_HASH@,
    }
}

/// Chooses the hash in force from what the password file holds.
pub fn select_password_hash(contents: Option<&str>) -> (r: String)
    ensures
        r@ == effective_hash(
            match contents {
                Some(c) => Some(c@),
                None => None,
            },
        ),
{
    match contents {
        Some(c) => {
            let h = trim(c);
            if h.as_str().unicode_len() > 0 {
                h
            } else {
                String::from_str(DEFAULT_HASH)
            }
        },
        None => String::from_str(DEFAULT_HASH),
    }
}

/// The home directory under which the password file lives: `$HOME`, else `%USERPROFILE%`.
pub fn password_home_dir(home: Option<String>, user_profile: Option<String>) -> (r: Option<
    String,
>)
    ensures
        r == (match home {
            Some(h) => Some(h),
            None => user_profile,
        }),
{
    match home {
        Some(h) => Some(h),
        None => user_profile,
    }
}

/// Why a new password typed twice is refused.
#[derive(Debug, Clone, Copy, PartialEq, Eq, Structural)]
pub enum PasswordEntryError {
    /// The password is empty.
    Empty,
    /// The confirmation differs from the password.
    Mismatch,
}

impl PasswordEntryError {
    /// The message shown for this error.
    pub fn message(&self) -> (r: String)
        ensures
            r@ == (match self {
                PasswordEntryError::Empty => "Password cannot be empty."@,
                PasswordEntryError::Mismatch => "Passwords do not match."@,
            }),
    {
        match self {
            PasswordEntryError::Empty => String::from_str("Password cannot be empty."),
            PasswordEntryError::Mismatch => String::from_str("Passwords do not match."),
        }
    }
}

/// Checks a new password and its confirmation: an empty password is refused first, then
/// a confirmation that differs.
pub fn check_new_password(password: &str, confirm: &str) -> (r: Result<(), PasswordEntryError>)
    ensures
        r == (if password@.len() == 0 {
            Err(PasswordEntryError::Empty)
        } else if password@ != confirm@ {
            Err(PasswordEntryError::Mismatch)
        } else {
            Ok(())
        }),
{
    if password.unicode_len() == 0 {
        return Err(PasswordEntryError::Empty);
    }
    let a = String::from_str(password);
    let b = String::from_str(confirm);
    if a == b {
        Ok(())
    } else {
        Err(PasswordEntryError::Mismatch)
    }
}

/// What the program does, chosen from its command line.
#[derive(Debug, Clone, Copy, PartialEq, Eq, Structural)]
pub enum RunMode {
    /// Prompt for a new password and store its hash.
    SetPassword,
    /// Restore the system settings that a crashed lock left behind.
    Reset,
    /// Lock the screen.
    Lock,
}

/// Whether some argument equals `flag`.
pub open spec fn has_flag(args: Seq<String>, flag: Seq<char>) -> bool {
    exists|i: int| 0 <= i < args.len() && #[trigger] args[i]@ == flag
}

/// `--set-password` wins over `--reset`; with neither the screen is locked.
pub fn select_mode(args: &Vec<String>) -> (r: RunMode)
    ensures
        r == (if has_flag(args@, "--set-password"@) {
            RunMode::SetPassword
        } else if has_flag(args@, "--reset"@) {
            RunMode::Reset
        } else {
            RunMode::Lock
        }),
{
    let set_flag = String::from_str("--set-password");
    let reset_flag = String::from_str("--reset");
    let mut saw_set = false;
    let mut saw_reset = false;
    let mut i: usize = 0;
    while i < args.len()
        invariant
            i <= args.len(),
            set_flag@ == "--set-password"@,
            reset_flag@ == "--reset"@,
            saw_set == exists|j: int| 0 <= j < i && #[trigger] args@[j]@ == "--set-password"@,
            saw_reset == exists|j: int| 0 <= j < i && #[trigger] args@[j]@ == "--reset"@,
        decreases args.len() - i,
    {
        if args[i] == set_flag {
            saw_set = true;
        }
        if args[i] == reset_flag {
            saw_reset = true;
        }
        i = i + 1;
    }
    if saw_set {
        RunMode::SetPassword
    } else if saw_reset {
        RunMode::Reset
    } else {
        RunMode::Lock
    }
}

} // verus!
