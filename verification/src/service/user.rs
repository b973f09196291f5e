use vstd::prelude::*;

use vstd::utf8::encode_utf8;

use argon2::{PasswordHasher, PasswordVerifier};

use crate::auth::normalize_call_sign;
use crate::text::{is_whitespace, trim, trim_str, to_lowercase, unicode_lower, unicode_upper};

verus! {

/// What compiling `pattern` as a regular expression of the `regex` crate
/// and testing `text` against it gives: `None` when the pattern does not
/// compile, else whether the text has a match.
pub uninterp spec fn regex_match(pattern: Seq<char>, text: Seq<char>) -> Option<bool>;

/// Compiles `pattern` with `regex::Regex::new` and tests `text` with
/// `Regex::is_match`, in one step, so that the answer can be named by the
/// pattern's text. Claimed: the answer depends on the pattern and the text
/// alone, and is named `regex_match` of them; a pattern that does not
/// compile gives `None`; and for this library's two patterns, what the
/// `regex` crate's syntax documentation gives them to match (`^` and `$`
/// anchor at the ends of the text, `\s` is Unicode whitespace).
#[verifier::external_body]
fn regex_is_match(pattern: &str, text: &str) -> (r: Option<bool>)
    ensures
        r == regex_match(pattern@, text@),
        pattern@ == CALL_SIGN_PATTERN@ ==> r == Some(call_sign_shape(text@)),
        pattern@ == EMAIL_PATTERN@ ==> r == Some(email_shape(text@)),
{
    match regex::Regex::new(pattern) {
        Ok(re) => Some(re.is_match(text)),
        Err(_) => None,
    }
}

/// A call sign: letters and digits in upper case, in parts joined by `/`.
pub const CALL_SIGN_PATTERN: &'static str = "^[A-Z0-9]+(?:/[A-Z0-9]+)*$";

/// An email address: text without spaces or `@`, an `@`, and a domain with
/// a dot.
pub const EMAIL_PATTERN: &'static str = "^[^\\s@]+@[^\\s@]+\\.[^\\s@]+$";

/// Whether a character may stand in a call sign: an upper-case ASCII
/// letter, a digit or `/`.
pub open spec fn is_call_sign_char(c: char) -> bool {
    ('A' <= c <= 'Z') || ('0' <= c <= '9') || c == '/'
}

/// Whether a text matches `CALL_SIGN_PATTERN`: one or more non-empty parts
/// of upper-case ASCII letters and digits, joined by single slashes.
pub open spec fn call_sign_shape(s: Seq<char>) -> bool {
    &&& s.len() > 0
    &&& forall|i: int| 0 <= i < s.len() ==> is_call_sign_char(#[trigger] s[i])
    &&& s[0] != '/'
    &&& s.last() != '/'
    &&& forall|i: int| 0 <= i < s.len() - 1 ==> !(#[trigger] s[i] == '/' && s[i + 1] == '/')
}

/// Whether a text matches `EMAIL_PATTERN`: no whitespace anywhere, exactly
/// one `@`, with text before it, and a dot after it with text on both sides.
pub open spec fn email_shape(s: Seq<char>) -> bool {
    &&& forall|k: int| 0 <= k < s.len() ==> !is_whitespace(#[trigger] s[k])
    &&& exists|i: int|
        #![trigger s[i]]
        1 <= i < s.len() && s[i] == '@' && (forall|k: int|
            0 <= k < s.len() && k != i ==> #[trigger] s[k] != '@') && (exists|j: int|
            i + 1 < j < s.len() - 1 && #[trigger] s[j] == '.')
}

/// Whether a character is an ASCII letter.
pub open spec fn is_ascii_letter(c: char) -> bool {
    ('A' <= c <= 'Z') || ('a' <= c <= 'z')
}

/// Whether a character is an ASCII digit.
pub open spec fn is_ascii_digit(c: char) -> bool {
    '0' <= c <= '9'
}

/// Whether a call sign may be registered: three to ten bytes long, with a
/// letter and a digit, matching `CALL_SIGN_PATTERN`.
pub open spec fn valid_call_sign(s: Seq<char>) -> bool {
    &&& 3 <= encode_utf8(s).len() as usize <= 10
    &&& exists|i: int| 0 <= i < s.len() && is_ascii_letter(s[i])
    &&& exists|i: int| 0 <= i < s.len() && is_ascii_digit(s[i])
    &&& call_sign_shape(s)
}

/// Whether an email address may be registered: it matches `EMAIL_PATTERN`.
pub open spec fn valid_email(s: Seq<char>) -> bool {
    email_shape(s)
}

/// Whether a password may be registered: at least eight bytes long.
pub open spec fn valid_password(s: Seq<char>) -> bool {
    encode_utf8(s).len() as usize >= 8
}

/// Whether `s` has an ASCII letter (when `letter`) or an ASCII digit
/// (otherwise).
fn has_class(s: &str, letter: bool) -> (r: bool)
    ensures
        letter ==> r == exists|i: int| 0 <= i < s@.len() && is_ascii_letter(s@[i]),
        !letter ==> r == exists|i: int| 0 <= i < s@.len() && is_ascii_digit(s@[i]),
{
    let n = s.unicode_len();
    let mut i: usize = 0;
    while i < n
        invariant
            n == s@.len(),
            i <= n,
            letter ==> forall|j: int| 0 <= j < i ==> !is_ascii_letter(s@[j]),
            !letter ==> forall|j: int| 0 <= j < i ==> !is_ascii_digit(s@[j]),
        decreases n - i,
    {
        let c = s.get_char(i);
        let hit = if letter {
            ('A' <= c && c <= 'Z') || ('a' <= c && c <= 'z')
        } else {
            '0' <= c && c <= '9'
        };
        if hit {
            return true;
        }
        i = i + 1;
    }
    false
}

/// Whether a (normalized) call sign may be registered.
pub fn is_valid_call_sign(call_sign: &str) -> (r: bool)
    ensures
        r == valid_call_sign(call_sign@),
{
    let len = call_sign.len();
    if len < 3 || len > 10 {
        return false;
    }
    if !has_class(call_sign, true) || !has_class(call_sign, false) {
        return false;
    }
    let m = regex_is_match(CALL_SIGN_PATTERN, call_sign);
    match m {
        Some(b) => b,
        None => false,
    }
}

/// Whether a (normalized) email address may be registered.
pub fn is_valid_email(email: &str) -> (r: bool)
    ensures
        r == valid_email(email@),
{
    match regex_is_match(EMAIL_PATTERN, email) {
        Some(b) => b,
        None => false,
    }
}

/// Whether a password may be registered.
pub fn is_valid_password(password: &str) -> (r: bool)
    ensures
        r == valid_password(password@),
{
    password.len() >= 8
}

/// Whether `argon2` accepts a password against a stored hash: the hash
/// parses as a PHC string (`PasswordHash::new`) and the password verifies
/// against it (`Argon2::default().verify_password`).
pub uninterp spec fn argon2_accepts(password: Seq<char>, hash: Seq<char>) -> bool;

/// Parses `hash` with `password_hash::PasswordHash::new` and verifies the
/// password's bytes against it with `Argon2::default().verify_password`.
/// Claimed: the answer depends on the password and the hash alone, and is
/// named `argon2_accepts` of them.
#[verifier::external_body]
fn argon2_verify(password: &str, hash: &str) -> (r: bool)
    ensures
        r == argon2_accepts(password@, hash@),
{
    match argon2::PasswordHash::new(hash) {
        Ok(parsed) => argon2::Argon2::default().verify_password(password.as_bytes(), &parsed).is_ok(),
        Err(_) => false,
    }
}

/// Hashes the password's bytes with `Argon2::default().hash_password` under
/// a fresh random salt (`SaltString::generate` from the operating system's
/// random source) and writes the hash as a PHC string. Claimed: the hash is
/// random, but whatever it is, `argon2` accepts the password against it, as
/// the crate's documentation shows; and hashing succeeds whenever the
/// password is at most `argon2::MAX_PWD_LEN` (0xFFFFFFFF) bytes long and
/// fails (`PwdTooLong`) beyond: the password's length is the only input
/// check in the source that a generated 16-byte salt and the default
/// parameters do not pass by construction.
#[verifier::external_body]
fn argon2_hash(password: &str) -> (r: Option<String>)
    ensures
        r matches Some(h) ==> argon2_accepts(password@, h@),
        encode_utf8(password@).len() <= 0xFFFF_FFFF ==> r is Some,
        encode_utf8(password@).len() > 0xFFFF_FFFF ==> r is None,
{
    let salt = argon2::password_hash::SaltString::generate(&mut argon2::password_hash::rand_core::OsRng);
    match argon2::Argon2::default().hash_password(password.as_bytes(), &salt) {
        Ok(hash) => Some(hash.to_string()),
        Err(_) => None,
    }
}

/// The hash stored for a new user's password: made whenever the password
/// is at most 0xFFFFFFFF bytes long (`None` beyond that). Whatever the salt,
/// the password is accepted against the hash.
pub fn hash_password(password: &str) -> (r: Option<String>)
    ensures
        r matches Some(h) ==> argon2_accepts(password@, h@),
        encode_utf8(password@).len() <= 0xFFFF_FFFF ==> r is Some,
        encode_utf8(password@).len() > 0xFFFF_FFFF ==> r is None,
{
    argon2_hash(password)
}

/// Whether a login succeeds: a user was found, and the password is accepted
/// against the user's stored hash.
pub open spec fn credentials_accepted(stored_hash: Option<Seq<char>>, password: Seq<char>) -> bool {
    match stored_hash {
        Some(h) => argon2_accepts(password, h),
        None => false,
    }
}

/// The message a refused login shows, whatever the reason.
pub const INVALID_CREDENTIALS: &'static str = "Invalid credentials";

/// Checks a login: `stored_hash` is the password hash of the user with the
/// (normalized) call sign given, or `None` when there is no such user.
pub fn credentials_valid(stored_hash: Option<String>, password: &str) -> (r: bool)
    ensures
        r == credentials_accepted(crate::text::opt_view(stored_hash), password@),
{
    match stored_hash {
        Some(h) => argon2_verify(password, h.as_str()),
        None => false,
    }
}

/// A user can log in with the password they signed up with: a hash made for
/// a password at sign-up accepts that password at login.
pub proof fn lemma_signup_password_logs_in(password: Seq<char>, stored: Seq<char>)
    requires
        argon2_accepts(password, stored),
    ensures
        credentials_accepted(Some(stored), password),
{
}

/// Why a sign-up is refused before anything is stored.
#[derive(Debug, Copy, Clone, PartialEq, Eq, Structural)]
pub enum SignupRejection {
    InvalidCallSign,
    InvalidEmail,
    InvalidPassword,
}

impl SignupRejection {
    /// The message the sign-up form shows for the refusal.
    pub fn message(&self) -> (r: &'static str)
        ensures
            r@ == match *self {
                SignupRejection::InvalidCallSign => "Invalid call sign"@,
                SignupRejection::InvalidEmail => "Invalid email address"@,
                SignupRejection::InvalidPassword => "Password must be at least 8 bytes long"@,
            },
    {
        match self {
            SignupRejection::InvalidCallSign => "Invalid call sign",
            SignupRejection::InvalidEmail => "Invalid email address",
            SignupRejection::InvalidPassword => "Password must be at least 8 bytes long",
        }
    }
}

/// The message the sign-up form shows when the call sign is already taken.
pub const DUPLICATE_USER: &'static str = "This call sign already has a user";

/// Checks a sign-up: the call sign is trimmed and upper-cased, the email
/// trimmed and lower-cased; then the call sign, the email and the password
/// are tested in that order, and the first that fails is the answer. On
/// success, the normalized call sign and email.
pub fn check_signup(call_sign: &str, email: &str, password: &str) -> (r: Result<
    (String, String),
    SignupRejection,
>)
    ensures
        ({
            let c = unicode_upper(trim(call_sign@));
            let e = unicode_lower(trim(email@));
            if !valid_call_sign(c) {
                r == Err::<(String, String), SignupRejection>(SignupRejection::InvalidCallSign)
            } else if !valid_email(e) {
                r == Err::<(String, String), SignupRejection>(SignupRejection::InvalidEmail)
            } else if !valid_password(password@) {
                r == Err::<(String, String), SignupRejection>(SignupRejection::InvalidPassword)
            } else {
                r matches Ok(p) && p.0@ == c && p.1@ == e
            }
        }),
{
    let call_sign = normalize_call_sign(call_sign);
    let email = to_lowercase(trim_str(email).as_str());
    if !is_valid_call_sign(call_sign.as_str()) {
        return Err(SignupRejection::InvalidCallSign);
    }
    if !is_valid_email(email.as_str()) {
        return Err(SignupRejection::InvalidEmail);
    }
    if !is_valid_password(password) {
        return Err(SignupRejection::InvalidPassword);
    }
    Ok((call_sign, email))
}

} // verus!
