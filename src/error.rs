//! The failures an operation can end in.

use vstd::prelude::*;

verus! {

/// Every failure of the core, each surfaced to the caller as one error.
pub enum Error {
    /// The repository has no usable `origin` remote.
    NoRemote,
    /// The remote URL names no host.
    UnresolvableHost,
    /// The remote's host is a provider this tool does not serve.
    UnsupportedHost,
    /// The profile document matches neither the current nor the legacy shape.
    ProfileCorrupt,
    /// The profile holds no GitHub credentials.
    MissingGitHubProfile,
    /// The GitHub credentials hold neither a token nor a username and password.
    InvalidGitHubProfile,
    /// The profile holds no token for this GitLab host.
    MissingCredential(String),
    /// The transport failed; the text says how.
    Network(String),
    /// The provider reported a failure; the text is its message.
    ProviderApi(String),
    /// A GitLab list response carried no readable total.
    MissingTotal,
    /// A user lookup found nobody.
    EmptyResponse,
    /// The payload matches neither the success nor the error shape.
    Decode,
    /// The device code of a GitHub login expired before it was approved.
    LoginExpired,
    /// A GitHub login ended in an error it does not expect.
    LoginFailed,
    /// A pull request from a branch into itself; the text names it.
    SameBranches(String),
    /// The profile kind chosen is not one of those offered.
    InvalidChoice,
}

/// The text shown for an error.
pub open spec fn message_of(e: Error) -> Seq<char> {
    match e {
        Error::NoRemote => "no remote is set for current repository"@,
        Error::UnresolvableHost => "cannot resolve host of remote url"@,
        Error::UnsupportedHost => "unsupported repo type"@,
        Error::ProfileCorrupt => "cannot decode profile"@,
        Error::MissingGitHubProfile => "no GitHub profile: Try `yag profile add` first"@,
        Error::InvalidGitHubProfile => "wrong GitHub profile config"@,
        Error::MissingCredential(host) => "unknown remote host: "@ + host@,
        Error::Network(m) => m@,
        Error::ProviderApi(m) => m@,
        Error::MissingTotal => "fail to get total"@,
        Error::EmptyResponse => "unexpected empty response"@,
        Error::Decode => "cannot decode response"@,
        Error::LoginExpired => "expired"@,
        Error::LoginFailed => "unknown error"@,
        Error::SameBranches(b) => "head branch and base branch are same: "@ + b@,
        Error::InvalidChoice => "invalid choice"@,
    }
}

impl Error {
    /// The text shown for this error, as `message_of` gives it.
    pub fn message(&self) -> (r: String)
        ensures
            r@ == message_of(*self),
    {
        match self {
            Error::NoRemote => String::from_str("no remote is set for current repository"),
            Error::UnresolvableHost => String::from_str("cannot resolve host of remote url"),
            Error::UnsupportedHost => String::from_str("unsupported repo type"),
            Error::ProfileCorrupt => String::from_str("cannot decode profile"),
            Error::MissingGitHubProfile => String::from_str("no GitHub profile: Try `yag profile add` first"),
            Error::InvalidGitHubProfile => String::from_str("wrong GitHub profile config"),
            Error::MissingCredential(host) => String::from_str("unknown remote host: ").concat(host.as_str()),
            Error::Network(m) => m.clone(),
            Error::ProviderApi(m) => m.clone(),
            Error::MissingTotal => String::from_str("fail to get total"),
            Error::EmptyResponse => String::from_str("unexpected empty response"),
            Error::Decode => String::from_str("cannot decode response"),
            Error::LoginExpired => String::from_str("expired"),
            Error::LoginFailed => String::from_str("unknown error"),
            Error::SameBranches(b) => String::from_str("head branch and base branch are same: ").concat(b.as_str()),
            Error::InvalidChoice => String::from_str("invalid choice"),
        }
    }
}

} // verus!
