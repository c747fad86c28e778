//! Password hashing and HTML cleaning, both done by outside crates.

use argon2::password_hash::PasswordHasher;
use std::collections::HashMap;
use vstd::prelude::*;

verus! {

#[verifier::external_type_specification]
#[verifier::external_body]
pub struct ExPasswordHashError(argon2::password_hash::Error);

/// A password could not be hashed.
#[derive(Debug, Clone, Copy, PartialEq, Eq)]
pub enum PasswordHashError {
    HashFailed,
}

/// Relies on argon2: `Argon2::default()` (Argon2id, version 19) hashing
/// the password's bytes with a salt drawn from the operating system, and the
/// PHC string of the result, which names the algorithm first.
#[verifier::external_body]
fn argon2id_phc_string(password: &str) -> (r: Result<String, argon2::password_hash::Error>)
    ensures
        r is Ok ==> r->Ok_0@.len() >= 10 && r->Ok_0@.take(10) == "$argon2id$"@,
{
    let salt = argon2::password_hash::SaltString::generate(&mut argon2::password_hash::rand_core::OsRng);
    argon2::Argon2::default().hash_password(password.as_bytes(), &salt).map(|h| h.to_string())
}

/// Hashes a password for storage with Argon2id and a fresh random salt; the
/// result is a PHC string such as `$argon2id$v=19$...`.
pub fn encode_password(password: &str) -> (r: Result<String, PasswordHashError>)
    ensures
        r is Ok ==> r->Ok_0@.len() >= 10 && r->Ok_0@.take(10) == "$argon2id$"@,
{
    match argon2id_phc_string(password) {
        Ok(s) => Ok(s),
        Err(_) => Err(PasswordHashError::HashFailed),
    }
}

/// What the HTML cleaner gives for `html` when it keeps links with their
/// `href` and makes every link open in a new tab.
pub uninterp spec fn cleaned_with_blank_links(html: Seq<char>) -> Seq<char>;

/// Relies on ammonia::Builder::clean with the default rules, `<a>` allowed
/// with `href` and `target`, and `target` set to `_blank` on every `<a>`.
#[verifier::external_body]
fn clean_with_blank_links(html: &str) -> (r: String)
    ensures
        r@ == cleaned_with_blank_links(html@),
{
    let mut target = HashMap::new();
    target.insert("target", "_blank");
    let mut values = HashMap::new();
    values.insert("a", target);
    let mut builder = ammonia::Builder::default();
    builder.add_tags(&["a"]).add_tag_attributes("a", &["href", "target"]);
    builder.set_tag_attribute_values(values);
    builder.clean(html).to_string()
}

/// Cleans a podcast description of unsafe HTML, keeping links and making
/// them open in a new tab.
pub fn sanitize_html_with_blank_target(description: &str) -> (r: String)
    ensures
        r@ == cleaned_with_blank_links(description@),
{
    clean_with_blank_links(description)
}

} // verus!
