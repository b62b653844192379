//! Where the CalDAV server lives and how to authenticate against it.
use vstd::prelude::*;

use crate::caldav::uri::Uri;

verus! {

#[verifier::external_type_specification]
#[verifier::external_body]
pub struct ExFormatter<'a>(core::fmt::Formatter<'a>);

#[verifier::external_type_specification]
#[verifier::external_body]
pub struct ExFmtError(core::fmt::Error);

/// The `secrecy::SecretString` that holds a secret. Verus does not take
/// a declaration of `secrecy::SecretBox` (its `Zeroize` bound), so the
/// field is hidden.
#[verifier::external_body]
#[derive(Debug)]
struct SecretHolder {
    inner: secrecy::SecretString,
}

/// A password or token. Its text is held in `secrecy::SecretString`, so
/// that `Debug` output is redacted; `view` is that text.
pub struct Secret {
    holder: SecretHolder,
    text: Ghost<Seq<char>>,
}

impl View for Secret {
    type V = Seq<char>;

    closed spec fn view(&self) -> Seq<char> {
        self.text@
    }
}

impl Secret {
    /// A secret holding `text`.
    pub fn new(text: String) -> (r: Secret)
        ensures
            r@ == text@,
    {
        let ghost t = text@;
        Secret { holder: hold_secret(text), text: Ghost(t) }
    }
}

impl core::fmt::Debug for Secret {
    /// Relies on `secrecy::SecretBox`'s `Debug`, which writes
    /// `[REDACTED]` in place of the secret.
    #[verifier::external_body]
    fn fmt(&self, f: &mut core::fmt::Formatter<'_>) -> core::fmt::Result {
        core::fmt::Debug::fmt(&self.holder.inner, f)
    }
}

/// Relies on `secrecy::SecretString`'s `From<String>`.
#[verifier::external_body]
fn hold_secret(text: String) -> SecretHolder {
    SecretHolder { inner: secrecy::SecretString::from(text) }
}

/// The server endpoint and the credentials used against it.
#[derive(Debug)]
pub struct CaldavConfig {
    /// The URI of the CalDAV server.
    pub uri: Uri,
    /// The authentication method used to talk to the server.
    pub auth: CaldavAuth,
}

/// How requests authenticate. Secrets stay wrapped: their `Debug`
/// output is redacted.
#[derive(Debug)]
pub enum CaldavAuth {
    /// No `Authorization` header.
    Plain,
    /// `Authorization: Basic base64(username:password)`.
    Basic { username: String, password: Secret },
    /// `Authorization: Bearer token`.
    Bearer { token: Secret },
}

impl Default for CaldavAuth {
    fn default() -> (r: Self)
        ensures
            r is Plain,
    {
        CaldavAuth::Plain
    }
}

/// Relies on `secrecy::ExposeSecret::expose_secret`: the text the
/// secret was made with (`Secret::new` hands it to `From<String>`,
/// which keeps it as it is). It is read only to write the
/// `Authorization` header.
#[verifier::external_body]
pub(crate) fn expose_secret_text(secret: &Secret) -> (r: String)
    ensures
        r@ == secret@,
{
    secrecy::ExposeSecret::expose_secret(&secret.holder.inner).to_string()
}

} // verus!
