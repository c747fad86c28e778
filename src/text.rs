//! Text utilities of the settings forms: shortening descriptions, checking
//! the fields of a new user, and checking a one-time code.

use vstd::prelude::*;
use vstd::string::*;
use vstd::utf8::encode_utf8;

verus! {

/// Length in bytes of the UTF-8 encoding of `s`, as `str::len` gives it
/// (a string in memory is never longer than `usize::MAX` bytes).
pub open spec fn byte_len(s: Seq<char>) -> usize {
    encode_utf8(s).len() as usize
}

/// `description` cut to its first `max_length` characters, with `...`
/// appended, when it is longer than `max_length` bytes.
pub open spec fn truncated_of(description: Seq<char>, max_length: usize) -> (Seq<char>, bool) {
    if byte_len(description) > max_length {
        let keep = if max_length < description.len() {
            max_length as nat
        } else {
            description.len()
        };
        (description.take(keep as int) + "..."@, true)
    } else {
        (description, false)
    }
}

/// Shortens a description for display. The length that decides is counted
/// in bytes; what is kept is counted in characters.
pub fn truncate_description(description: String, max_length: usize) -> (r: (String, bool))
    ensures
        r.0@ == truncated_of(description@, max_length).0,
        r.1 == truncated_of(description@, max_length).1,
{
    let is_truncated = description.as_str().len() > max_length;
    if is_truncated {
        let n = description.as_str().unicode_len();
        let keep = if max_length < n {
            max_length
        } else {
            n
        };
        let mut s = String::from_str(description.as_str().substring_char(0, keep));
        s.append("...");
        (s, true)
    } else {
        (description, false)
    }
}

/// Whether `c` has the Unicode `White_Space` property.
pub open spec fn is_white_space(c: char) -> bool {
    let u = c as u32;
    (0x09 <= u <= 0x0d) || u == 0x20 || u == 0x85 || u == 0xa0 || u == 0x1680 || (0x2000 <= u
        <= 0x200a) || u == 0x2028 || u == 0x2029 || u == 0x202f || u == 0x205f || u == 0x3000
}

/// A non-empty run of characters that are neither `@` nor white space.
pub open spec fn is_address_part(s: Seq<char>) -> bool {
    s.len() > 0 && forall|i: int| 0 <= i < s.len() ==> s[i] != '@' && !is_white_space(#[trigger] s[i])
}

/// `local@domain.tld`, each part a non-empty run without `@` or white space.
pub open spec fn is_email_form(s: Seq<char>) -> bool {
    exists|i: int, j: int|
        0 < i < j < s.len() && s[i] == '@' && s[j] == '.' && is_address_part(#[trigger] s.take(i))
            && is_address_part(#[trigger] s.subrange(i + 1, j)) && is_address_part(
            s.skip(j + 1),
        )
}

/// Relies on regex::Regex::is_match with the pattern
/// `^[^@\s]+@[^@\s]+\.[^@\s]+$`, in which `\s` is the Unicode `White_Space`
/// class; the pattern is valid, so `Regex::new` does not fail.
#[verifier::external_body]
fn matches_email_pattern(email: &str) -> (r: bool)
    ensures
        r == is_email_form(email@),
{
    regex::Regex::new(r"^[^@\s]+@[^@\s]+\.[^@\s]+$").unwrap().is_match(email)
}

/// The first rule of a new user's fields that fails, or none.
pub open spec fn user_input_error(username: Seq<char>, password: Seq<char>, email: Seq<char>) -> Option<
    Seq<char>,
> {
    if byte_len(username) < 4 {
        Some("Username must be at least 4 characters long"@)
    } else if byte_len(password) < 6 {
        Some("Password must be at least 6 characters long"@)
    } else if !is_email_form(email) {
        Some("Email is not in a valid format"@)
    } else {
        None
    }
}

/// Checks the fields of a new user: a user name of at least 4 bytes, a
/// password of at least 6 bytes, and a mail address of the form
/// `local@domain.tld`; the error names the first rule that fails.
pub fn validate_user_input(username: &str, password: &str, email: &str) -> (r: Result<(), String>)
    ensures
        r is Ok <==> user_input_error(username@, password@, email@) is None,
        r is Err ==> user_input_error(username@, password@, email@) == Some(r->Err_0@),
{
    if username.len() < 4 {
        return Err(String::from_str("Username must be at least 4 characters long"));
    }
    if password.len() < 6 {
        return Err(String::from_str("Password must be at least 6 characters long"));
    }
    if !matches_email_pattern(email) {
        return Err(String::from_str("Email is not in a valid format"));
    }
    Ok(())
}

/// Whether `c` is an ASCII decimal digit.
pub open spec fn is_digit(c: char) -> bool {
    48 <= (c as u32) <= 57
}

/// The value of the decimal digit `c`.
pub open spec fn digit_value(c: char) -> int {
    (c as u32) as int - 48
}

/// The value of a run of decimal digits, most significant first.
pub open spec fn digits_value(s: Seq<char>) -> int
    decreases s.len(),
{
    if s.len() == 0 {
        0
    } else {
        digits_value(s.drop_last()) * 10 + digit_value(s.last())
    }
}

/// `s` without one leading `+`.
pub open spec fn unsigned_part(s: Seq<char>) -> Seq<char> {
    if s.len() > 0 && s[0] == '+' {
        s.drop_first()
    } else {
        s
    }
}

/// What `u32::from_str` gives for `s`: an optional `+` and at least one
/// decimal digit, of a value that fits in a `u32`.
pub open spec fn parsed_u32(s: Seq<char>) -> Option<u32> {
    let d = unsigned_part(s);
    if d.len() > 0 && (forall|i: int| 0 <= i < d.len() ==> is_digit(#[trigger] d[i]))
        && digits_value(d) <= u32::MAX {
        Some(digits_value(d) as u32)
    } else {
        None
    }
}

proof fn lemma_digits_value_grows(s: Seq<char>, k: int)
    requires
        0 <= k <= s.len(),
        forall|i: int| 0 <= i < s.len() ==> is_digit(#[trigger] s[i]),
    ensures
        0 <= digits_value(s.take(k)) <= digits_value(s),
    decreases s.len(),
{
    if s.len() > 0 {
        let t = s.drop_last();
        assert forall|i: int| 0 <= i < t.len() implies is_digit(#[trigger] t[i]) by {
            assert(t[i] == s[i]);
        }
        if k == s.len() {
            assert(s.take(k) =~= s);
            lemma_digits_value_grows(t, t.len() as int);
            assert(t.take(t.len() as int) =~= t);
        } else {
            lemma_digits_value_grows(t, k);
            assert(t.take(k) =~= s.take(k));
            lemma_digits_value_grows(t, t.len() as int);
            assert(t.take(t.len() as int) =~= t);
        }
    }
}

/// Reads a code as `u32::from_str` does.
pub fn parse_code(code: &str) -> (r: Option<u32>)
    ensures
        r == parsed_u32(code@),
{
    let n = code.unicode_len();
    let ghost d = unsigned_part(code@);
    let start: usize = if n > 0 && code.get_char(0) == '+' {
        1
    } else {
        0
    };
    assert(d =~= code@.skip(start as int));
    if start == n {
        return None;
    }
    let mut value: u64 = 0;
    let mut i: usize = start;
    while i < n
        invariant
            start <= i <= n,
            n == code@.len(),
            d =~= code@.skip(start as int),
            d == unsigned_part(code@),
            value <= u32::MAX,
            forall|k: int| 0 <= k < i - start ==> is_digit(#[trigger] d[k]),
            value as int == digits_value(d.take(i - start)),
        decreases n - i,
    {
        let c = code.get_char(i);
        if !('0' <= c && c <= '9') {
            assert(!is_digit(d[i - start]));
            assert(parsed_u32(code@) is None);
            return None;
        }
        let ghost before = d.take(i - start);
        assert(d.take(i - start + 1).drop_last() =~= before);
        value = value * 10 + (c as u64 - 48);
        if value > 4294967295 {
            proof {
                assert(digits_value(d.take(i - start + 1)) > u32::MAX);
                if forall|k: int| 0 <= k < d.len() ==> is_digit(#[trigger] d[k]) {
                    lemma_digits_value_grows(d, i - start + 1);
                }
                assert(parsed_u32(code@) is None);
            }
            return None;
        }
        i = i + 1;
    }
    assert(d.take(n - start) =~= d);
    Some(value as u32)
}

/// What otpauth's `TOTP::verify` answers for a secret, a code, a period and
/// a time.
pub uninterp spec fn totp_accepts(secret: Seq<char>, code: u32, period: u64, timestamp: u64) -> bool;

/// Relies on otpauth::TOTP::new (the secret's bytes are the key) and
/// TOTP::verify, which divides the time by the period and refuses codes of
/// more than six digits.
#[verifier::external_body]
fn totp_verify(secret: &str, code: u32, period: u64, timestamp: u64) -> (r: bool)
    requires
        period > 0,
    ensures
        r == totp_accepts(secret@, code, period, timestamp),
        code >= 1_000_000 ==> !r,
{
    otpauth::TOTP::new(secret).verify(code, period, timestamp)
}

/// Seconds for which a one-time code is valid.
pub const TOTP_PERIOD_SECS: u64 = 30;

/// Checks a one-time code typed by the user against `secret` at `timestamp`
/// (seconds since the Unix epoch). A code that does not read as a `u32` is
/// refused.
pub fn verify_totp_code_at(secret: &str, code: &str, timestamp: u64) -> (r: bool)
    ensures
        r == match parsed_u32(code@) {
            Some(n) => totp_accepts(secret@, n, TOTP_PERIOD_SECS, timestamp),
            None => false,
        },
{
    match parse_code(code) {
        Some(n) => totp_verify(secret, n, TOTP_PERIOD_SECS, timestamp),
        None => false,
    }
}

} // verus!
