//! Result types for agent queries.

use vstd::prelude::*;
use vstd::string::*;

use crate::config::opt_view;

verus! {

/// Status of an agent result.
#[derive(Debug, Clone, Copy, PartialEq, Eq, Structural)]
pub enum AgentResultStatus {
    /// The query was successful.
    Success,
    /// An error occurred.
    Error,
    /// The query timed out.
    Timeout,
    /// Maximum iterations were reached.
    MaxIterationsReached,
}

impl AgentResultStatus {
    /// The name under which the status is displayed.
    pub open spec fn display(self) -> Seq<char> {
        match self {
            AgentResultStatus::Success => "SUCCESS"@,
            AgentResultStatus::Error => "ERROR"@,
            AgentResultStatus::Timeout => "TIMEOUT"@,
            AgentResultStatus::MaxIterationsReached => "MAX_ITERATIONS_REACHED"@,
        }
    }

    /// The name under which the status is displayed.
    pub fn to_string(&self) -> (s: String)
        ensures
            s@ == self.display(),
    {
        match self {
            AgentResultStatus::Success => String::from_str("SUCCESS"),
            AgentResultStatus::Error => String::from_str("ERROR"),
            AgentResultStatus::Timeout => String::from_str("TIMEOUT"),
            AgentResultStatus::MaxIterationsReached => String::from_str("MAX_ITERATIONS_REACHED"),
        }
    }
}

/// What an agent result holds, as plain values.
pub struct AgentResultView {
    pub response: Seq<char>,
    pub status: AgentResultStatus,
    pub error_message: Option<Seq<char>>,
    pub iteration_count: usize,
    pub tokens_used: u64,
}

/// Result of an agent query with detailed information.
#[derive(Debug, Clone)]
pub struct AgentResult {
    response: String,
    status: AgentResultStatus,
    error_message: Option<String>,
    iteration_count: usize,
    tokens_used: u64,
}

impl View for AgentResult {
    type V = AgentResultView;

    closed spec fn view(&self) -> AgentResultView {
        AgentResultView {
            response: self.response@,
            status: self.status,
            error_message: opt_view(self.error_message),
            iteration_count: self.iteration_count,
            tokens_used: self.tokens_used,
        }
    }
}

/// The result of a successful query that answered `response`.
pub open spec fn success_view(response: Seq<char>) -> AgentResultView {
    AgentResultView {
        response,
        status: AgentResultStatus::Success,
        error_message: None,
        iteration_count: 1,
        tokens_used: 0,
    }
}

/// The result of a failed query: no response, the given status and message.
pub open spec fn failure_view(status: AgentResultStatus, message: Seq<char>) -> AgentResultView {
    AgentResultView {
        response: Seq::empty(),
        status,
        error_message: Some(message),
        iteration_count: 0,
        tokens_used: 0,
    }
}

impl AgentResult {
    /// Get the agent's response.
    pub fn response(&self) -> (r: &str)
        ensures
            r@ == self@.response,
    {
        self.response.as_str()
    }

    /// Get the result status.
    pub fn status(&self) -> (r: AgentResultStatus)
        ensures
            r == self@.status,
    {
        self.status
    }

    /// Get the error message (if any).
    pub fn error_message(&self) -> (r: Option<&str>)
        ensures
            r is Some <==> self@.error_message is Some,
            r is Some ==> r->0@ == self@.error_message->0,
    {
        match &self.error_message {
            Some(m) => Some(m.as_str()),
            None => None,
        }
    }

    /// Get the iteration count.
    pub fn iteration_count(&self) -> (r: usize)
        ensures
            r == self@.iteration_count,
    {
        self.iteration_count
    }

    /// Get the number of tokens used.
    pub fn tokens_used(&self) -> (r: u64)
        ensures
            r == self@.tokens_used,
    {
        self.tokens_used
    }

    /// Check if the result was successful.
    pub fn is_success(&self) -> (r: bool)
        ensures
            r == (self@.status == AgentResultStatus::Success),
    {
        self.status == AgentResultStatus::Success
    }

    /// Create a successful result.
    pub fn success(response: &str) -> (r: Self)
        ensures
            r@ == success_view(response@),
    {
        AgentResult {
            response: String::from_str(response),
            status: AgentResultStatus::Success,
            error_message: None,
            iteration_count: 1,
            tokens_used: 0,
        }
    }

    /// Create an error result.
    pub fn error(message: &str) -> (r: Self)
        ensures
            r@ == failure_view(AgentResultStatus::Error, message@),
    {
        AgentResult {
            response: String::new(),
            status: AgentResultStatus::Error,
            error_message: Some(String::from_str(message)),
            iteration_count: 0,
            tokens_used: 0,
        }
    }

    /// Create a timeout result.
    pub fn timeout(message: &str) -> (r: Self)
        ensures
            r@ == failure_view(AgentResultStatus::Timeout, message@),
    {
        AgentResult {
            response: String::new(),
            status: AgentResultStatus::Timeout,
            error_message: Some(String::from_str(message)),
            iteration_count: 0,
            tokens_used: 0,
        }
    }
}

/// What a result builder holds, as plain values.
pub struct AgentResultBuilderView {
    pub response: Seq<char>,
    pub status: Option<AgentResultStatus>,
    pub error_message: Option<Seq<char>>,
    pub iteration_count: usize,
    pub tokens_used: u64,
}

/// The state of a fresh builder.
pub open spec fn fresh_builder() -> AgentResultBuilderView {
    AgentResultBuilderView {
        response: Seq::empty(),
        status: None,
        error_message: None,
        iteration_count: 0,
        tokens_used: 0,
    }
}

/// The result that a builder in the given state builds: an unset status
/// counts as success.
pub open spec fn built_view(b: AgentResultBuilderView) -> AgentResultView {
    AgentResultView {
        response: b.response,
        status: match b.status {
            Some(s) => s,
            None => AgentResultStatus::Success,
        },
        error_message: b.error_message,
        iteration_count: b.iteration_count,
        tokens_used: b.tokens_used,
    }
}

/// A built result keeps every field the builder was given, and its status
/// is the one given, or success when none was.
pub proof fn law_build_keeps_fields(b: AgentResultBuilderView)
    ensures
        built_view(b).response == b.response,
        built_view(b).error_message == b.error_message,
        built_view(b).iteration_count == b.iteration_count,
        built_view(b).tokens_used == b.tokens_used,
        b.status is Some ==> built_view(b).status == b.status->0,
        b.status is None ==> built_view(b).status == AgentResultStatus::Success,
{
}

/// A success result holds the response, no message, one iteration and no
/// tokens; a failure result holds no response, the message, no iteration
/// and no tokens.
pub proof fn law_result_constructors(response: Seq<char>, status: AgentResultStatus, message: Seq<char>)
    ensures
        success_view(response).response == response,
        success_view(response).status == AgentResultStatus::Success,
        success_view(response).error_message is None,
        success_view(response).iteration_count == 1,
        success_view(response).tokens_used == 0,
        failure_view(status, message).response.len() == 0,
        failure_view(status, message).status == status,
        failure_view(status, message).error_message == Some(message),
        failure_view(status, message).iteration_count == 0,
        failure_view(status, message).tokens_used == 0,
{
}

/// Builder for creating AgentResult instances.
#[derive(Debug)]
pub struct AgentResultBuilder {
    response: String,
    status: Option<AgentResultStatus>,
    error_message: Option<String>,
    iteration_count: usize,
    tokens_used: u64,
}

impl View for AgentResultBuilder {
    type V = AgentResultBuilderView;

    closed spec fn view(&self) -> AgentResultBuilderView {
        AgentResultBuilderView {
            response: self.response@,
            status: self.status,
            error_message: opt_view(self.error_message),
            iteration_count: self.iteration_count,
            tokens_used: self.tokens_used,
        }
    }
}

impl Default for AgentResultBuilder {
    fn default() -> (b: Self)
        ensures
            b@ == fresh_builder(),
    {
        AgentResultBuilder {
            response: String::new(),
            status: None,
            error_message: None,
            iteration_count: 0,
            tokens_used: 0,
        }
    }
}

impl AgentResultBuilder {
    /// Create a new builder.
    pub fn new() -> (b: Self)
        ensures
            b@ == fresh_builder(),
    {
        Self::default()
    }

    /// Set the response.
    pub fn with_response(self, response: &str) -> (b: Self)
        ensures
            b@ == (AgentResultBuilderView { response: response@, ..self@ }),
    {
        let mut s = self;
        s.response = String::from_str(response);
        s
    }

    /// Set the status.
    pub fn with_status(self, status: AgentResultStatus) -> (b: Self)
        ensures
            b@ == (AgentResultBuilderView { status: Some(status), ..self@ }),
    {
        let mut s = self;
        s.status = Some(status);
        s
    }

    /// Set the error message.
    pub fn with_error_message(self, message: &str) -> (b: Self)
        ensures
            b@ == (AgentResultBuilderView { error_message: Some(message@), ..self@ }),
    {
        let mut s = self;
        s.error_message = Some(String::from_str(message));
        s
    }

    /// Set the iteration count.
    pub fn with_iteration_count(self, count: usize) -> (b: Self)
        ensures
            b@ == (AgentResultBuilderView { iteration_count: count, ..self@ }),
    {
        let mut s = self;
        s.iteration_count = count;
        s
    }

    /// Set the tokens used.
    pub fn with_tokens_used(self, tokens: u64) -> (b: Self)
        ensures
            b@ == (AgentResultBuilderView { tokens_used: tokens, ..self@ }),
    {
        let mut s = self;
        s.tokens_used = tokens;
        s
    }

    /// Build the AgentResult; a builder whose status was never set builds a
    /// successful result.
    pub fn build(self) -> (r: AgentResult)
        ensures
            r@ == built_view(self@),
    {
        let status = match self.status {
            Some(s) => s,
            None => AgentResultStatus::Success,
        };
        AgentResult {
            response: self.response,
            status,
            error_message: self.error_message,
            iteration_count: self.iteration_count,
            tokens_used: self.tokens_used,
        }
    }
}

} // verus!
