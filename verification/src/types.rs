//! Error values shared by the whole crate.

use vstd::prelude::*;
use vstd::string::StringExecFns;

verus! {

/// The kinds of failure this crate reports.
#[derive(Debug, Clone, Copy, PartialEq, Eq, Structural)]
pub enum ErrorKind {
    /// A provider or identity source could not produce a credential.
    AuthenticationFailed,
    /// The configuration handed to a constructor is unusable.
    InvalidClientConfig,
    /// Supporting infrastructure failed.
    IoError,
}

impl ErrorKind {
    /// The name of the kind as it appears in messages.
    pub open spec fn name(self) -> Seq<char> {
        match self {
            ErrorKind::AuthenticationFailed => "AuthenticationFailed"@,
            ErrorKind::InvalidClientConfig => "InvalidClientConfig"@,
            ErrorKind::IoError => "IoError"@,
        }
    }

    /// The name of the kind as it appears in messages.
    pub fn as_str(self) -> (name: &'static str)
        ensures
            name@ == self.name(),
    {
        match self {
            ErrorKind::AuthenticationFailed => "AuthenticationFailed",
            ErrorKind::InvalidClientConfig => "InvalidClientConfig",
            ErrorKind::IoError => "IoError",
        }
    }
}

/// An error: a kind, a fixed description, and optionally a detail text.
#[derive(Debug)]
pub struct RedisError {
    pub kind: ErrorKind,
    pub description: String,
    pub detail: Option<String>,
}

/// The mathematical content of a [`RedisError`].
pub struct RedisErrorView {
    pub kind: ErrorKind,
    pub description: Seq<char>,
    pub detail: Option<Seq<char>>,
}

impl View for RedisError {
    type V = RedisErrorView;

    open spec fn view(&self) -> RedisErrorView {
        RedisErrorView {
            kind: self.kind,
            description: self.description@,
            detail: match self.detail {
                Some(d) => Some(d@),
                None => None,
            },
        }
    }
}

impl RedisErrorView {
    /// The rendered message: the description, the kind's name, and the
    /// detail where there is one.
    pub open spec fn message(self) -> Seq<char> {
        match self.detail {
            Some(d) => self.description + " - "@ + self.kind.name() + ": "@ + d,
            None => self.description + " - "@ + self.kind.name(),
        }
    }
}

impl Clone for RedisError {
    fn clone(&self) -> (copy: Self)
        ensures
            copy == *self,
    {
        RedisError {
            kind: self.kind,
            description: self.description.clone(),
            detail: match &self.detail {
                Some(d) => Some(d.clone()),
                None => None,
            },
        }
    }
}

impl RedisError {
    /// An error with a description and no detail.
    pub fn new(kind: ErrorKind, description: &str) -> (err: Self)
        ensures
            err@ == (RedisErrorView { kind, description: description@, detail: None }),
    {
        RedisError { kind, description: String::from_str(description), detail: None }
    }

    /// An error with a description and a detail text.
    pub fn with_detail(kind: ErrorKind, description: &str, detail: String) -> (err: Self)
        ensures
            err@ == (RedisErrorView {
                kind,
                description: description@,
                detail: Some(detail@),
            }),
    {
        RedisError { kind, description: String::from_str(description), detail: Some(detail) }
    }

    /// The kind of the error.
    pub fn kind(&self) -> (kind: ErrorKind)
        ensures
            kind == self@.kind,
    {
        self.kind
    }

    /// Renders the error as text.
    pub fn to_string(&self) -> (text: String)
        ensures
            text@ == self@.message(),
    {
        let mut text = self.description.clone();
        text.append(" - ");
        text.append(self.kind.as_str());
        match &self.detail {
            Some(d) => {
                text.append(": ");
                text.append(d.as_str());
            },
            None => {},
        }
        text
    }
}

} // verus!
