//! The lifecycle of the local signing agent.
//!
//! The agent is a child process that is started when the service starts and
//! stopped when it exits. The manager decides what is to be done and records
//! what was done; spawning and killing the process is left to the caller.

use crate::config::{is_container_mode, AgentConfig};

use vstd::prelude::*;
use vstd::string::StringExecFns;

verus! {

/// The program that runs the agent.
pub const AGENT_PROGRAM: &'static str = "python";

/// Milliseconds to wait after the agent is spawned, until it answers.
pub const AGENT_STARTUP_MILLIS: u64 = 1500;

/// The arguments with which the agent is run.
pub open spec fn agent_arguments() -> Seq<Seq<char>> {
    seq![
        "-m"@,
        "uvicorn"@,
        "scripts.agent_server:app"@,
        "--host"@,
        "127.0.0.1"@,
        "--port"@,
        "8765"@,
    ]
}

/// What `start` asks of the caller.
#[derive(Debug)]
pub enum StartPlan {
    /// Nothing: the agent runs elsewhere, or is already running.
    Skip,
    /// To run `program` with `args`, and to report the child with `attach`.
    Spawn { program: String, args: Vec<String> },
}

/// Keeps track of the agent's process.
#[derive(Debug)]
pub struct AgentManager {
    process: Option<u32>,
}

impl AgentManager {
    /// The id of the agent's process, while one is attached.
    pub closed spec fn process(&self) -> Option<u32> {
        self.process
    }

    /// A manager without a process.
    pub fn new() -> (r: Self)
        ensures
            r.process() is None,
    {
        AgentManager { process: None }
    }

    /// What is to be done to start the agent. In container mode the agent
    /// runs elsewhere and nothing is to be done; nor is it when a process is
    /// attached already.
    pub fn start(&self, config: &AgentConfig) -> (r: StartPlan)
        ensures
            match r {
                StartPlan::Skip => config.is_container_mode || self.process() is Some,
                StartPlan::Spawn { program, args } => !config.is_container_mode
                    && self.process() is None && program@ == AGENT_PROGRAM@ && args@.map_values(
                    |s: String| s@,
                ) == agent_arguments(),
            },
    {
        if is_container_mode(config) || self.process.is_some() {
            StartPlan::Skip
        } else {
            let mut args: Vec<String> = Vec::new();
            args.push(String::from_str("-m"));
            args.push(String::from_str("uvicorn"));
            args.push(String::from_str("scripts.agent_server:app"));
            args.push(String::from_str("--host"));
            args.push(String::from_str("127.0.0.1"));
            args.push(String::from_str("--port"));
            args.push(String::from_str("8765"));
            assert(args@.map_values(|s: String| s@) =~= agent_arguments());
            StartPlan::Spawn { program: String::from_str(AGENT_PROGRAM), args }
        }
    }

    /// Records the process that was spawned for the agent.
    pub fn attach(&mut self, pid: u32)
        ensures
            final(self).process() == Some(pid),
    {
        self.process = Some(pid);
    }

    /// Detaches the agent's process and returns its id, for the caller to
    /// kill it. Without a process nothing is returned.
    pub fn stop(&mut self) -> (r: Option<u32>)
        ensures
            r == old(self).process(),
            final(self).process() is None,
    {
        let pid = self.process;
        self.process = None;
        pid
    }

    /// Whether the agent is running: a process is attached and, as the
    /// caller found, has not exited.
    pub fn is_running(&self, exited: bool) -> (r: bool)
        ensures
            r == (self.process() is Some && !exited),
    {
        self.process.is_some() && !exited
    }
}

/// What is to be done to start the agent; see `AgentManager::start`.
pub fn start_agent(manager: &AgentManager, config: &AgentConfig) -> (r: StartPlan)
    ensures
        match r {
            StartPlan::Skip => config.is_container_mode || manager.process() is Some,
            StartPlan::Spawn { program, args } => !config.is_container_mode
                && manager.process() is None && program@ == AGENT_PROGRAM@ && args@.map_values(
                |s: String| s@,
            ) == agent_arguments(),
        },
{
    manager.start(config)
}

/// Detaches the agent's process and returns its id; see `AgentManager::stop`.
pub fn stop_agent(manager: &mut AgentManager) -> (r: Option<u32>)
    ensures
        r == old(manager).process(),
        final(manager).process() is None,
{
    manager.stop()
}

/// Whether the agent is running; see `AgentManager::is_running`.
pub fn is_agent_running(manager: &AgentManager, exited: bool) -> (r: bool)
    ensures
        r == (manager.process() is Some && !exited),
{
    manager.is_running(exited)
}

} // verus!
