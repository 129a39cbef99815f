//! Errors that can occur when using OAuth2.

use vstd::prelude::*;

verus! {

/// An unrecoverable error that can occur when using an OAuth client.
#[derive(Debug, PartialEq, Eq)]
pub struct OAuthClientError {
    message: String,
}

impl View for OAuthClientError {
    type V = Seq<char>;

    /// The message the error was made with.
    closed spec fn view(&self) -> Seq<char> {
        self.message@
    }
}

impl OAuthClientError {
    /// Makes an error that carries `message`.
    pub fn new(message: &str) -> (error: Self)
        ensures
            error@ == message@,
    {
        Self { message: String::from_str(message) }
    }

    /// What a user is shown for this error.
    pub open spec fn text(&self) -> Seq<char> {
        "OAuth client encountered an unrecoverable error: "@ + self@
    }

    /// Renders the error for a user.
    pub fn to_string(&self) -> (rendered: String)
        ensures
            rendered@ == self.text(),
    {
        String::from_str("OAuth client encountered an unrecoverable error: ").concat(
            self.message.as_str(),
        )
    }
}

/// An error that can occur when configuring an OAuth client.
#[derive(Debug, PartialEq, Eq)]
pub enum OAuthClientConfigurationError {
    /// The specified authorization URL for the provider was invalid
    InvalidAuthUrl(String),
    /// The specified redirect URL for the client was invalid
    InvalidRedirectUrl(String),
    /// The specified token URL for the provider was invalid
    InvalidTokenUrl(String),
}

impl OAuthClientConfigurationError {
    /// What a user is shown for this error: which URL was refused, and why.
    pub open spec fn text(&self) -> Seq<char> {
        match self {
            Self::InvalidAuthUrl(msg) => "provided authorization URL is invalid: "@ + msg@,
            Self::InvalidRedirectUrl(msg) => "client redirect URL is invalid: "@ + msg@,
            Self::InvalidTokenUrl(msg) => "provided token URL is invalid: "@ + msg@,
        }
    }

    /// Renders the error for a user.
    pub fn to_string(&self) -> (rendered: String)
        ensures
            rendered@ == self.text(),
    {
        match self {
            Self::InvalidAuthUrl(msg) => String::from_str(
                "provided authorization URL is invalid: ",
            ).concat(msg.as_str()),
            Self::InvalidRedirectUrl(msg) => String::from_str(
                "client redirect URL is invalid: ",
            ).concat(msg.as_str()),
            Self::InvalidTokenUrl(msg) => String::from_str(
                "provided token URL is invalid: ",
            ).concat(msg.as_str()),
        }
    }
}

} // verus!
