//! Agents: what a conversation partner is asked and what it answers.

pub mod agent_logic;
pub mod mock;

use vstd::prelude::*;
use vstd::string::StringExecFns;
use crate::text::concat2;

verus! {

/// `std::time::SystemTime`, a point in time of the wall clock, is carried
/// through without looking inside.
#[verifier::external_type_specification]
#[verifier::external_body]
pub struct ExSystemTime(std::time::SystemTime);

/// `SystemTime::now`: the wall clock at the moment of the call.
#[verifier::external_body]
pub(crate) fn system_now() -> std::time::SystemTime {
    std::time::SystemTime::now()
}

/// Response from an agent.
#[derive(Debug)]
pub struct AgentResponse {
    pub content: String,
    pub metadata: ResponseMetadata,
}

/// Metadata about the response.
#[derive(Debug)]
pub struct ResponseMetadata {
    pub processing_time: Option<std::time::Duration>,
    pub tokens_used: Option<u32>,
    pub model: Option<String>,
    pub timestamp: std::time::SystemTime,
}

impl ResponseMetadata {
    /// Metadata stamped with the time at which it is made and nothing else.
    pub fn new() -> (r: Self)
        ensures
            r.processing_time is None,
            r.tokens_used is None,
            r.model is None,
    {
        Self::at(system_now())
    }

    /// Metadata stamped with the given time and nothing else.
    pub fn at(timestamp: std::time::SystemTime) -> (r: Self)
        ensures
            r.processing_time is None,
            r.tokens_used is None,
            r.model is None,
            r.timestamp == timestamp,
    {
        Self { processing_time: None, tokens_used: None, model: None, timestamp }
    }

    /// The same metadata with the processing time set.
    pub fn with_processing_time(self, duration: std::time::Duration) -> (r: Self)
        ensures
            r.processing_time == Some(duration),
            r.tokens_used == self.tokens_used,
            r.model == self.model,
            r.timestamp == self.timestamp,
    {
        let mut r = self;
        r.processing_time = Some(duration);
        r
    }
}

/// Information about an agent.
#[derive(Debug)]
pub struct AgentInfo {
    pub name: String,
    pub description: String,
    pub version: String,
}

impl AgentInfo {
    /// A copy with the same texts.
    pub fn duplicate(&self) -> (r: AgentInfo)
        ensures
            r.name@ == self.name@,
            r.description@ == self.description@,
            r.version@ == self.version@,
    {
        AgentInfo {
            name: self.name.clone(),
            description: self.description.clone(),
            version: self.version.clone(),
        }
    }
}

/// Errors that can occur during agent operations.
#[derive(Debug)]
pub enum AgentError {
    Network(String),
    Configuration(String),
    Processing(String),
    Unavailable(String),
}

impl AgentError {
    /// The text shown for the error: the kind, then the detail.
    pub open spec fn message_spec(self) -> Seq<char> {
        match self {
            AgentError::Network(m) => "Network error: "@ + m@,
            AgentError::Configuration(m) => "Agent configuration error: "@ + m@,
            AgentError::Processing(m) => "Processing error: "@ + m@,
            AgentError::Unavailable(m) => "Agent unavailable: "@ + m@,
        }
    }

    /// The text shown for the error.
    pub fn message(&self) -> (s: String)
        ensures
            s@ == self.message_spec(),
    {
        match self {
            AgentError::Network(m) => concat2("Network error: ", m.as_str()),
            AgentError::Configuration(m) => concat2("Agent configuration error: ", m.as_str()),
            AgentError::Processing(m) => concat2("Processing error: ", m.as_str()),
            AgentError::Unavailable(m) => concat2("Agent unavailable: ", m.as_str()),
        }
    }

    /// A copy with the same kind and detail.
    pub fn duplicate(&self) -> (r: AgentError)
        ensures
            r.message_spec() == self.message_spec(),
            r is Network <==> self is Network,
            r is Configuration <==> self is Configuration,
            r is Processing <==> self is Processing,
            r is Unavailable <==> self is Unavailable,
    {
        match self {
            AgentError::Network(m) => AgentError::Network(m.clone()),
            AgentError::Configuration(m) => AgentError::Configuration(m.clone()),
            AgentError::Processing(m) => AgentError::Processing(m.clone()),
            AgentError::Unavailable(m) => AgentError::Unavailable(m.clone()),
        }
    }
}

/// The model of the primary provider where none is configured.
pub open spec fn default_model() -> Seq<char> {
    "x-ai/grok-4-fast:free"@
}

/// Factory for creating agents.
pub struct AgentFactory;

impl AgentFactory {
    /// The agent for the configured providers. `api_key` and `model` are
    /// the key and the model of the primary provider, `fallback` the key
    /// and the model of the gateway, each where it is configured. Without
    /// a key for the primary provider there is no agent.
    pub fn create_openrouter_from_env(
        api_key: Option<String>,
        model: Option<String>,
        fallback: Option<(String, String)>,
        event_sender: crate::events::EventSender,
    ) -> (r: Result<crate::agent::agent_logic::MultiModelAgent, AgentError>)
        ensures
            match api_key {
                None => r matches Err(AgentError::Configuration(text)) && text@
                    == "Missing OPENROUTER_API_KEY"@,
                Some(key) => r matches Ok(agent) && crate::agent::agent_logic::is_configured(
                    agent.configs(),
                    key@,
                    match model {
                        Some(m) => m@,
                        None => default_model(),
                    },
                    fallback,
                ),
            },
    {
        let key = match api_key {
            Some(k) => k,
            None => {
                return Err(
                    AgentError::Configuration(String::from_str("Missing OPENROUTER_API_KEY")),
                );
            },
        };
        let model = match model {
            Some(m) => m,
            None => String::from_str("x-ai/grok-4-fast:free"),
        };
        Ok(crate::agent::agent_logic::MultiModelAgent::new(key, model, fallback, event_sender))
    }
}

} // verus!
