//! The credentials a run starts from, and the wrapper that keeps secret
//! strings out of logs and debug output.

use secrecy::ExposeSecret;
use secrecy::Secret;
use crate::text::trim;
use crate::text::trimmed;
use vstd::prelude::*;
use vstd::string::*;

verus! {

/// A secret string, kept in a `secrecy::Secret<String>`: its debug output is
/// redacted and its memory is wiped on drop. The wrapped text is reached
/// through [`SecretText::expose_secret`] alone.
#[verifier::external_body]
#[derive(Debug)]
pub struct SecretText {
    inner: Secret<String>,
}

/// The text that a secret wraps.
pub uninterp spec fn secret_text(secret: SecretText) -> Seq<char>;

/// `secrecy::Secret::new`, which takes ownership of the value it is given:
/// the secret wraps exactly that text.
#[verifier::external_body]
fn seal(text: String) -> (secret: SecretText)
    ensures
        secret_text(secret) == text@,
{
    SecretText { inner: Secret::new(text) }
}

/// `secrecy::ExposeSecret::expose_secret`, which returns a reference to the
/// inner value: the text handed out is the wrapped one.
#[verifier::external_body]
fn unseal(secret: &SecretText) -> (text: &String)
    ensures
        text@ == secret_text(*secret),
{
    secret.inner.expose_secret()
}

impl View for SecretText {
    type V = Seq<char>;

    open spec fn view(&self) -> Seq<char> {
        secret_text(*self)
    }
}

impl SecretText {
    /// Wraps `text` as a secret.
    pub fn new(text: String) -> (secret: SecretText)
        ensures
            secret@ == text@,
    {
        seal(text)
    }

    /// The wrapped text. This is the only way to read a secret; it is meant
    /// for the point where a request is built.
    pub fn expose_secret(&self) -> (text: &String)
        ensures
            text@ == self@,
    {
        unseal(self)
    }
}

/// The four credentials of one account.
#[derive(Debug)]
pub struct Settings {
    pub client_id: SecretText,
    pub client_secret: SecretText,
    pub username: String,
    pub password: SecretText,
}

/// The mathematical content of [`Settings`].
pub struct SettingsView {
    pub client_id: Seq<char>,
    pub client_secret: Seq<char>,
    pub username: Seq<char>,
    pub password: Seq<char>,
}

impl View for Settings {
    type V = SettingsView;

    open spec fn view(&self) -> SettingsView {
        SettingsView {
            client_id: self.client_id@,
            client_secret: self.client_secret@,
            username: self.username@,
            password: self.password@,
        }
    }
}

impl Settings {
    /// Credentials from their four plain values, which are taken as they
    /// are: an empty value is not rejected here.
    pub fn new(client_id: String, client_secret: String, username: String, password: String) -> (settings: Settings)
        ensures
            settings@ == (SettingsView {
                client_id: client_id@,
                client_secret: client_secret@,
                username: username@,
                password: password@,
            }),
    {
        Settings {
            client_id: SecretText::new(client_id),
            client_secret: SecretText::new(client_secret),
            username,
            password: SecretText::new(password),
        }
    }

    /// Credentials from the four values of the environment; `None` unless
    /// all four are set.
    pub fn from_environment(
        client_id: Option<String>,
        client_secret: Option<String>,
        username: Option<String>,
        password: Option<String>,
    ) -> (settings: Option<Settings>)
        ensures
            settings is Some <==> client_id is Some && client_secret is Some && username is Some && password
                is Some,
            settings matches Some(s) ==> s@ == (SettingsView {
                client_id: client_id->Some_0@,
                client_secret: client_secret->Some_0@,
                username: username->Some_0@,
                password: password->Some_0@,
            }),
    {
        match (client_id, client_secret, username, password) {
            (Some(client_id), Some(client_secret), Some(username), Some(password)) => Some(
                Settings::new(client_id, client_secret, username, password),
            ),
            _ => None,
        }
    }

    /// Credentials from the four answers to a prompt, each taken without
    /// the white space around it, such as the end of the line.
    pub fn from_answers(client_id: &str, client_secret: &str, username: &str, password: &str) -> (settings:
        Settings)
        ensures
            settings@ == (SettingsView {
                client_id: trimmed(client_id@),
                client_secret: trimmed(client_secret@),
                username: trimmed(username@),
                password: trimmed(password@),
            }),
    {
        Settings::new(
            String::from_str(trim(client_id)),
            String::from_str(trim(client_secret)),
            String::from_str(trim(username)),
            String::from_str(trim(password)),
        )
    }
}

} // verus!
