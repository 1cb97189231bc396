//! A secrecy-preserving handle for the access token.
//!
//! The plaintext token is held in a [`secrecy::SecretString`], so it can
//! only be read through one explicit accessor, its default debug form is a
//! fixed redaction marker, and the backing buffer is zeroed on drop.

use vstd::prelude::*;

verus! {

/// An opaque handle on one access token, backed by a
/// `secrecy::SecretString`.
///
/// The plaintext is observable only through [`SecretToken::expose_secret`];
/// the debug form is always the fixed redaction marker, and the backing
/// buffer is zeroed when the handle is dropped. The view of a handle is
/// the sequence of characters of the wrapped token.
#[verifier::external_body]
#[derive(Debug)]
pub struct SecretToken {
    inner: secrecy::SecretString,
}

/// The characters that a secret handle holds.
pub uninterp spec fn secret_chars(t: SecretToken) -> Seq<char>;

/// The fixed text that a secret handle shows in place of its contents.
/// It is one constant, the same for every token, so the default debug
/// form carries no information about the token.
pub open spec fn redacted_text_spec() -> Seq<char> {
    "SecretBox<str>([REDACTED])"@
}

/// Relies on `secrecy::SecretString::from(String)`: it moves the given
/// string into the box as the secret contents, unchanged.
#[verifier::external_body]
fn wrap_secret(token: String) -> (r: SecretToken)
    ensures
        secret_chars(r) == token@,
{
    SecretToken { inner: secrecy::SecretString::from(token) }
}

/// Relies on `secrecy::ExposeSecret::expose_secret` for `SecretBox<str>`:
/// it returns a reference to the secret contents, unchanged.
#[verifier::external_body]
fn expose_inner(t: &SecretToken) -> (r: &str)
    ensures
        r@ == secret_chars(*t),
{
    secrecy::ExposeSecret::expose_secret(&t.inner)
}

/// Relies on the `Debug` impl of `secrecy::SecretBox<str>`: it writes the
/// boxed type's name inside a fixed redaction marker, never the contents,
/// so the output is `SecretBox<str>([REDACTED])` for every token.
#[verifier::external_body]
fn redact_inner(t: &SecretToken) -> (r: String)
    ensures
        r@ == redacted_text_spec(),
{
    format!("{:?}", &t.inner)
}

impl View for SecretToken {
    type V = Seq<char>;

    closed spec fn view(&self) -> Seq<char> {
        secret_chars(*self)
    }
}

impl SecretToken {
    /// Wraps a plaintext token in a secret handle holding exactly its
    /// characters.
    pub fn wrap(token: String) -> (r: SecretToken)
        ensures
            r@ == token@,
    {
        wrap_secret(token)
    }

    /// Reveals the plaintext token. This is the only sanctioned way to
    /// obtain it.
    pub fn expose_secret(&self) -> (r: &str)
        ensures
            r@ == self@,
    {
        expose_inner(self)
    }

    /// Returns the handle's default textual representation: the fixed
    /// redaction marker, whatever token the handle holds.
    pub fn debug_text(&self) -> (r: String)
        ensures
            r@ == redacted_text_spec(),
    {
        redact_inner(self)
    }
}

/// Holds when `needle` occurs contiguously inside `hay`.
pub open spec fn contains_seq(hay: Seq<char>, needle: Seq<char>) -> bool {
    exists|i: int|
        0 <= i && i + needle.len() <= hay.len() && #[trigger] hay.subrange(
            i,
            i + needle.len(),
        ) == needle
}

/// The redacted text is one fixed marker, so a token longer than the
/// marker never occurs inside it: the debug form cannot leak such a token.
pub proof fn lemma_redaction_excludes_long_tokens(token: Seq<char>)
    requires
        token.len() > redacted_text_spec().len(),
    ensures
        !contains_seq(redacted_text_spec(), token),
{
}

} // verus!
