//! Error types for the gopher-orch SDK.

use vstd::prelude::*;
use vstd::string::*;

verus! {

/// Result type alias for gopher-orch operations.
pub type Result<T> = core::result::Result<T, Error>;

/// Error types for gopher-orch operations.
#[derive(Debug)]
pub enum Error {
    /// Error loading or using the native library.
    Library(String),
    /// Error creating an agent.
    Agent(String),
    /// Invalid API key error.
    ApiKey(String),
    /// Connection error.
    Connection(String),
    /// Timeout error.
    Timeout(String),
    /// Configuration error.
    Config(String),
    /// Agent has been disposed.
    Disposed,
    /// Error reported while loading or using the token validation library.
    Auth(String),
}

impl Error {
    /// The message carried by this error (empty for `Disposed`).
    pub open spec fn msg(self) -> Seq<char> {
        match self {
            Error::Library(m) => m@,
            Error::Agent(m) => m@,
            Error::ApiKey(m) => m@,
            Error::Connection(m) => m@,
            Error::Timeout(m) => m@,
            Error::Config(m) => m@,
            Error::Disposed => Seq::empty(),
            Error::Auth(m) => m@,
        }
    }

    /// The text that displaying this error shows.
    pub open spec fn display(self) -> Seq<char> {
        match self {
            Error::Library(m) => "Library error: "@ + m@,
            Error::Agent(m) => "Agent error: "@ + m@,
            Error::ApiKey(m) => "API key error: "@ + m@,
            Error::Connection(m) => "Connection error: "@ + m@,
            Error::Timeout(m) => "Timeout error: "@ + m@,
            Error::Config(m) => "Configuration error: "@ + m@,
            Error::Disposed => "Agent has been disposed"@,
            Error::Auth(m) => "Auth error: "@ + m@,
        }
    }

    /// Every error but `Disposed` displays its own message at the end of
    /// its text, after a non-empty name of its kind.
    pub proof fn law_display_ends_with_message(self)
        ensures
            !(self is Disposed) ==> self.display().len() > self.msg().len() && self.display().subrange(
                self.display().len() - self.msg().len(),
                self.display().len() as int,
            ) == self.msg(),
            self is Disposed ==> self.display().len() > 0,
    {
        reveal_strlit("Library error: ");
        reveal_strlit("Agent error: ");
        reveal_strlit("API key error: ");
        reveal_strlit("Connection error: ");
        reveal_strlit("Timeout error: ");
        reveal_strlit("Configuration error: ");
        reveal_strlit("Agent has been disposed");
        reveal_strlit("Auth error: ");
        let d = self.display();
        let m = self.msg();
        if !(self is Disposed) {
            assert(d.subrange(d.len() - m.len(), d.len() as int) =~= m);
        }
    }

    /// The text that displaying this error shows.
    pub fn to_string(&self) -> (s: String)
        ensures
            s@ == self.display(),
    {
        match self {
            Error::Library(m) => String::from_str("Library error: ").concat(m.as_str()),
            Error::Agent(m) => String::from_str("Agent error: ").concat(m.as_str()),
            Error::ApiKey(m) => String::from_str("API key error: ").concat(m.as_str()),
            Error::Connection(m) => String::from_str("Connection error: ").concat(m.as_str()),
            Error::Timeout(m) => String::from_str("Timeout error: ").concat(m.as_str()),
            Error::Config(m) => String::from_str("Configuration error: ").concat(m.as_str()),
            Error::Disposed => String::from_str("Agent has been disposed"),
            Error::Auth(m) => String::from_str("Auth error: ").concat(m.as_str()),
        }
    }

    /// Create a new agent error.
    pub fn agent(msg: &str) -> (e: Self)
        ensures
            e is Agent && e.msg() == msg@,
    {
        Error::Agent(String::from_str(msg))
    }

    /// Create a new library error.
    pub fn library(msg: &str) -> (e: Self)
        ensures
            e is Library && e.msg() == msg@,
    {
        Error::Library(String::from_str(msg))
    }

    /// Create a new connection error.
    pub fn connection(msg: &str) -> (e: Self)
        ensures
            e is Connection && e.msg() == msg@,
    {
        Error::Connection(String::from_str(msg))
    }

    /// Create a new timeout error.
    pub fn timeout(msg: &str) -> (e: Self)
        ensures
            e is Timeout && e.msg() == msg@,
    {
        Error::Timeout(String::from_str(msg))
    }

    /// Create a new config error.
    pub fn config(msg: &str) -> (e: Self)
        ensures
            e is Config && e.msg() == msg@,
    {
        Error::Config(String::from_str(msg))
    }

    /// Create a new token validation library error.
    pub fn auth(msg: &str) -> (e: Self)
        ensures
            e is Auth && e.msg() == msg@,
    {
        Error::Auth(String::from_str(msg))
    }
}

} // verus!
