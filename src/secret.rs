use vstd::prelude::*;
use vstd::string::*;

verus! {

/// The fixed text that stands for any secret value when it is rendered.
pub const REDACTION_MARKER: &'static str = "*** redacted ***";

/// A value that must never appear in rendered text: credentials, card numbers,
/// verification codes and other personal data.
///
/// The only way to read the value is `expose`; `redacted_text` renders the
/// fixed marker whatever the value is.
#[derive(Clone, PartialEq, Eq)]
pub struct Secret<T> {
    inner: T,
}

impl<T> Secret<T> {
    /// The value held, for contracts.
    pub closed spec fn exposed(&self) -> T {
        self.inner
    }

    pub fn new(value: T) -> (r: Secret<T>)
        ensures
            r.exposed() == value,
    {
        Secret { inner: value }
    }

    /// Reads the secret value.
    pub fn expose(&self) -> (r: &T)
        ensures
            *r == self.exposed(),
    {
        &self.inner
    }

    /// Renders the secret for logs and messages: always the fixed marker.
    pub fn redacted_text(&self) -> (r: String)
        ensures
            r@ == REDACTION_MARKER@,
    {
        String::from_str(REDACTION_MARKER)
    }
}

impl Secret<String> {
    /// A copy of a secret string, holding the same text.
    pub fn duplicate(&self) -> (r: Secret<String>)
        ensures
            r.exposed()@ == self.exposed()@,
    {
        Secret { inner: self.inner.clone() }
    }
}

/// The text of a secret string, for contracts.
pub open spec fn secret_text(s: Secret<String>) -> Seq<char> {
    s.exposed()@
}

/// The text of an optional secret string, for contracts.
pub open spec fn opt_secret_text(o: Option<Secret<String>>) -> Option<Seq<char>> {
    match o {
        Some(s) => Some(s.exposed()@),
        None => None,
    }
}

/// A copy of an optional secret string, holding the same text.
pub fn duplicate_optional(o: &Option<Secret<String>>) -> (r: Option<Secret<String>>)
    ensures
        opt_secret_text(r) == opt_secret_text(*o),
{
    match o {
        Some(s) => Some(s.duplicate()),
        None => None,
    }
}

} // verus!
