//! An opaque secret value (password, client secret, or access token) whose
//! textual representation for diagnostics is a fixed placeholder, so the
//! secret can only reach output through the explicit reveal accessor.

use vstd::prelude::*;

verus! {

/// A wrapped secret string. Its view is the secret's character sequence, but
/// no method other than [`Credential::expose_secret`] returns the secret:
/// [`Credential::redacted`] yields a placeholder that is provably independent
/// of the wrapped value.
#[derive(Clone)]
pub struct Credential {
    secret: String,
}

impl View for Credential {
    type V = Seq<char>;

    closed spec fn view(&self) -> Seq<char> {
        self.secret@
    }
}

impl Credential {
    /// Wrap a secret string.
    pub fn new(secret: String) -> (c: Credential)
        ensures
            c@ == secret@,
    {
        Credential { secret }
    }

    /// The explicit, auditable accessor for the wrapped secret.
    pub fn expose_secret(&self) -> (s: &str)
        ensures
            s@ == self@,
    {
        self.secret.as_str()
    }

    /// An owned copy of the credential, wrapping the same secret.
    pub fn duplicate(&self) -> (c: Credential)
        ensures
            c@ == self@,
    {
        Credential { secret: self.secret.clone() }
    }

    /// The placeholder shown in any diagnostic text: a fixed string, the same
    /// for every credential, so default formatting can never reveal a secret.
    pub fn redacted(&self) -> (s: String)
        ensures
            s@ == "[REDACTED]"@,
    {
        "[REDACTED]".to_owned()
    }
}

} // verus!
