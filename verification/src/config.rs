//! Where the signing agent is reached.

use vstd::prelude::*;
use vstd::string::StringExecFns;

verus! {

/// The agent's address when the environment names none: a local agent.
pub const DEFAULT_AGENT_URL: &'static str = "http://127.0.0.1:8765";

/// The name of the environment variable that holds the agent's address.
pub const AGENT_URL_VARIABLE: &'static str = "XHS_AGENT_URL";

/// Where the signing agent is reached, and whether it runs on its own.
#[derive(Debug)]
pub struct AgentConfig {
    /// Base URL of the agent.
    pub url: String,
    /// Whether the agent runs in a container of its own, so that this process
    /// neither starts nor stops it.
    pub is_container_mode: bool,
}

impl AgentConfig {
    /// The configuration for the given value of the environment variable
    /// `XHS_AGENT_URL`: a set variable names the agent and means container
    /// mode, an unset one means a local agent at the default address.
    pub fn from_env(value: Option<String>) -> (r: Self)
        ensures
            match value {
                Some(url) => r.url@ == url@ && r.is_container_mode,
                None => r.url@ == DEFAULT_AGENT_URL@ && !r.is_container_mode,
            },
    {
        match value {
            Some(url) => AgentConfig { url, is_container_mode: true },
            None => AgentConfig {
                url: String::from_str(DEFAULT_AGENT_URL),
                is_container_mode: false,
            },
        }
    }
}

/// The agent's base URL.
pub fn get_agent_url(config: &AgentConfig) -> (r: &str)
    ensures
        r@ == config.url@,
{
    config.url.as_str()
}

/// Whether the agent runs in a container of its own.
pub fn is_container_mode(config: &AgentConfig) -> (r: bool)
    ensures
        r == config.is_container_mode,
{
    config.is_container_mode
}

} // verus!
