//! The decisions of an agent: how it is created from a configuration, what
//! a query's answer becomes, and its disposal.
//!
//! The native calls themselves happen outside this crate; each function here
//! takes what a native call returned and says what follows from it.

use vstd::prelude::*;
use vstd::string::*;

use crate::config::{present_and_nonempty, Config};
use crate::error::Error;
use crate::result::{failure_view, success_view, AgentResult, AgentResultStatus, AgentResultView};
use crate::text::concat3;

verus! {

/// Default timeout for agent queries (60 seconds).
pub const DEFAULT_TIMEOUT_MS: u64 = 60000;

/// How the native engine is asked to create an agent.
#[derive(Debug, Clone, Copy, PartialEq, Eq, Structural)]
pub enum CreationMode {
    /// With an API key; the engine fetches the server configuration itself.
    ApiKey,
    /// With a JSON server configuration.
    ServerConfig,
}

/// The native call that creates an agent: the mode, the provider, the model,
/// and the API key or server configuration.
pub struct AgentRequest {
    pub mode: CreationMode,
    pub provider: String,
    pub model: String,
    pub credential: String,
}

/// The message when a configuration has neither an API key nor a server
/// configuration.
pub open spec fn missing_credentials_msg() -> Seq<char> {
    "Either API key or server config must be provided"@
}

/// Decides how an agent is created from a configuration: with its API key
/// when one is set and not empty, else with its server configuration when
/// one is set and not empty, else not at all (a `Config` error).
pub fn plan_creation(config: &Config) -> (r: Result<AgentRequest, Error>)
    ensures
        r is Ok <==> present_and_nonempty(config@.api_key) || present_and_nonempty(
            config@.server_config,
        ),
        r is Ok ==> r->Ok_0.provider@ == config@.provider && r->Ok_0.model@ == config@.model,
        present_and_nonempty(config@.api_key) ==> r is Ok && r->Ok_0.mode == CreationMode::ApiKey
            && r->Ok_0.credential@ == config@.api_key->0,
        !present_and_nonempty(config@.api_key) && present_and_nonempty(config@.server_config)
            ==> r is Ok && r->Ok_0.mode == CreationMode::ServerConfig && r->Ok_0.credential@
            == config@.server_config->0,
        r is Err ==> r->Err_0 is Config && r->Err_0.msg() == missing_credentials_msg(),
{
    let provider = String::from_str(config.provider());
    let model = String::from_str(config.model());
    if config.has_api_key() {
        let key = match config.api_key() {
            Some(k) => String::from_str(k),
            None => String::new(),
        };
        Ok(AgentRequest { mode: CreationMode::ApiKey, provider, model, credential: key })
    } else if config.has_server_config() {
        let json = match config.server_config() {
            Some(c) => String::from_str(c),
            None => String::new(),
        };
        Ok(AgentRequest { mode: CreationMode::ServerConfig, provider, model, credential: json })
    } else {
        Err(Error::config("Either API key or server config must be provided"))
    }
}

/// The message of a failed creation: the engine's last error, or a default
/// when it recorded none.
pub open spec fn creation_failure_msg(last_error: Seq<char>) -> Seq<char> {
    if last_error.len() == 0 {
        "Failed to create agent"@
    } else {
        last_error
    }
}

/// The error when the engine returned no agent; `last_error` is the
/// engine's last error message (empty when it has none).
pub fn creation_error(last_error: &str) -> (e: Error)
    ensures
        e is Agent && e.msg() == creation_failure_msg(last_error@),
{
    if last_error.is_empty() {
        Error::agent("Failed to create agent")
    } else {
        Error::agent(last_error)
    }
}

/// The answer to a query: the engine's response, or a note naming the query
/// when the response is empty.
pub open spec fn answer(query: Seq<char>, response: Seq<char>) -> Seq<char> {
    if response.len() == 0 {
        "No response for query: \""@ + query + "\""@
    } else {
        response
    }
}

/// What a query returns, given the engine's response to it.
pub fn run_response(query: &str, response: String) -> (s: String)
    ensures
        s@ == answer(query@, response@),
{
    if response.as_str().is_empty() {
        concat3("No response for query: \"", query, "\"")
    } else {
        response
    }
}

/// The detailed result of a query that returned `outcome`.
pub open spec fn detailed_spec(outcome: Result<String, Error>) -> AgentResultView {
    match outcome {
        Ok(response) => success_view(response@),
        Err(e) => if e is Timeout {
            failure_view(AgentResultStatus::Timeout, e.msg())
        } else {
            failure_view(AgentResultStatus::Error, e.display())
        },
    }
}

/// The detailed result of a query, given what the query returned: a
/// success with the answer, a timeout with the timeout's message, or an
/// error with the error's displayed text.
pub fn detailed_result(outcome: Result<String, Error>) -> (r: AgentResult)
    ensures
        r@ == detailed_spec(outcome),
{
    match outcome {
        Ok(response) => AgentResult::success(response.as_str()),
        Err(Error::Timeout(msg)) => AgentResult::timeout(msg.as_str()),
        Err(e) => AgentResult::error(e.to_string().as_str()),
    }
}

/// Whether an agent was disposed, and whether it holds a native handle.
pub struct LifecycleView {
    pub disposed: bool,
    pub has_handle: bool,
}

/// Whether disposing an agent in this state releases its native handle.
pub open spec fn releases_on_dispose(v: LifecycleView) -> bool {
    !v.disposed && v.has_handle
}

/// The state of an agent after disposal.
pub open spec fn disposed(v: LifecycleView) -> LifecycleView {
    LifecycleView { disposed: true, ..v }
}

/// The disposal state of an owner of a native handle: an agent, or a
/// token validation client.
#[derive(Debug)]
pub struct AgentLifecycle {
    disposed: bool,
    has_handle: bool,
}

impl View for AgentLifecycle {
    type V = LifecycleView;

    closed spec fn view(&self) -> LifecycleView {
        LifecycleView { disposed: self.disposed, has_handle: self.has_handle }
    }
}

impl AgentLifecycle {
    /// A live agent, holding a native handle or not.
    pub fn new(has_handle: bool) -> (l: Self)
        ensures
            l@ == (LifecycleView { disposed: false, has_handle }),
    {
        AgentLifecycle { disposed: false, has_handle }
    }

    /// Check if the agent has been disposed.
    pub fn is_disposed(&self) -> (r: bool)
        ensures
            r == self@.disposed,
    {
        self.disposed
    }

    /// Ensure the agent has not been disposed.
    pub fn ensure_not_disposed(&self) -> (r: Result<(), Error>)
        ensures
            r is Ok <==> !self@.disposed,
            r is Err ==> r->Err_0 is Disposed,
    {
        if self.disposed {
            Err(Error::Disposed)
        } else {
            Ok(())
        }
    }

    /// Marks the agent disposed; returns whether its native handle is to be
    /// released now, which is so only the first time and only when it holds
    /// one.
    pub fn dispose(&mut self) -> (release: bool)
        ensures
            final(self)@ == disposed(old(self)@),
            release == releases_on_dispose(old(self)@),
    {
        if !self.disposed {
            self.disposed = true;
            self.has_handle
        } else {
            false
        }
    }
}


/// A detailed result is a success exactly when the query returned `Ok`, and
/// then its response is the query's answer; a failed result has no response
/// and always carries a message.
pub proof fn law_detailed_success_iff_ok(outcome: Result<String, Error>)
    ensures
        (detailed_spec(outcome).status == AgentResultStatus::Success) <==> outcome is Ok,
        outcome is Ok ==> detailed_spec(outcome).response == outcome->Ok_0@,
        outcome is Err ==> detailed_spec(outcome).response.len() == 0 && detailed_spec(
            outcome,
        ).error_message is Some,
{
}

/// The detailed result of an answered query holds the answer, no message,
/// one iteration and no tokens; that of a failed query holds no response,
/// the timeout's message or the error's displayed text, no iteration and no
/// tokens.
pub proof fn law_detailed_result_fields(outcome: Result<String, Error>)
    ensures
        outcome is Ok ==> {
            &&& detailed_spec(outcome).status == AgentResultStatus::Success
            &&& detailed_spec(outcome).response == outcome->Ok_0@
            &&& detailed_spec(outcome).error_message is None
            &&& detailed_spec(outcome).iteration_count == 1
            &&& detailed_spec(outcome).tokens_used == 0
        },
        outcome is Err ==> {
            &&& detailed_spec(outcome).response.len() == 0
            &&& detailed_spec(outcome).iteration_count == 0
            &&& detailed_spec(outcome).tokens_used == 0
            &&& detailed_spec(outcome).error_message == Some(
                if outcome->Err_0 is Timeout {
                    outcome->Err_0.msg()
                } else {
                    outcome->Err_0.display()
                },
            )
            &&& detailed_spec(outcome).status == (if outcome->Err_0 is Timeout {
                AgentResultStatus::Timeout
            } else {
                AgentResultStatus::Error
            })
        },
{
}

/// Disposal releases the native handle at most once: a disposed agent stays
/// disposed, disposing it again releases nothing, and it refuses queries.
pub proof fn law_dispose_releases_once(v: LifecycleView)
    ensures
        disposed(v).disposed,
        !releases_on_dispose(disposed(v)),
        disposed(disposed(v)) == disposed(v),
        disposed(v).has_handle == v.has_handle,
{
}

/// A query never gets the empty text as its answer, and a non-empty
/// response is returned unchanged.
pub proof fn law_answer_never_empty(query: Seq<char>, response: Seq<char>)
    ensures
        answer(query, response).len() > 0,
        response.len() > 0 ==> answer(query, response) == response,
{
    reveal_strlit("No response for query: \"");
}

/// The note for an empty response is the text `No response for query: "`,
/// the query exactly as given, and a closing `"`.
pub proof fn law_empty_response_quotes_query_verbatim(query: Seq<char>, response: Seq<char>)
    requires
        response.len() == 0,
    ensures
        answer(query, response).len() == query.len() + 25,
        answer(query, response).subrange(0, 24) == seq![
            'N', 'o', ' ', 'r', 'e', 's', 'p', 'o', 'n', 's', 'e', ' ', 'f', 'o', 'r', ' ', 'q', 'u',
            'e', 'r', 'y', ':', ' ', '"',
        ],
        answer(query, response).subrange(24, 24 + query.len() as int) == query,
        answer(query, response).last() == '"',
{
    reveal_strlit("No response for query: \"");
    reveal_strlit("\"");
    let a = answer(query, response);
    let head = "No response for query: \""@;
    assert(a == head + query + seq!['"']);
    assert(a.subrange(0, 24) =~= head);
    assert(a.subrange(24, 24 + query.len() as int) =~= query);
}

} // verus!
