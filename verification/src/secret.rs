//! An opaque wrapper for sensitive strings. The plaintext can only be
//! obtained through the explicit `expose_secret` operation; every rendering
//! intended for logs or debugging yields a fixed redaction marker instead.

use vstd::prelude::*;

verus! {

/// A sensitive string. The wrapper offers no formatting of its contents:
/// `redacted` is the only rendering, and it never depends on the secret.
pub struct SecretValue {
    value: String,
}

/// The fixed marker that stands in for a secret wherever one would be
/// printed.
pub open spec fn spec_redaction_marker() -> Seq<char> {
    "[REDACTED]"@
}

impl View for SecretValue {
    type V = Seq<char>;

    closed spec fn view(&self) -> Seq<char> {
        self.value@
    }
}

impl SecretValue {
    /// Wraps a sensitive string.
    pub fn new(raw: String) -> (s: SecretValue)
        ensures
            s@ == raw@,
    {
        SecretValue { value: raw }
    }

    /// The sole way to obtain the plaintext; every composite that needs the
    /// secret (a connection string, a login) must call this explicitly.
    pub fn expose_secret(&self) -> (r: &str)
        ensures
            r@ == self@,
    {
        self.value.as_str()
    }

    /// The rendering used wherever the value would be displayed or logged:
    /// a fixed marker, the same for every secret, so that no formatting of
    /// the wrapper can leak the plaintext.
    pub fn redacted(&self) -> (r: String)
        ensures
            r@ == spec_redaction_marker(),
    {
        "[REDACTED]".to_owned()
    }
}

impl Clone for SecretValue {
    /// Cloning preserves the wrapped plaintext.
    fn clone(&self) -> (r: Self)
        ensures
            r@ == self@,
    {
        SecretValue { value: self.value.clone() }
    }
}

} // verus!
