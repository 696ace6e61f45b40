//! Core of an agent pipeline that turns a product request into a built and
//! probed backend service: the shared project document, the four-state agent
//! lifecycle, the architect stage, the build-repair loop with its bounded
//! retry budget, the probe session that guarantees process termination, and
//! the orchestrator that runs the stages in order.
//!
//! Network calls, process handling, console and file access live outside this
//! library; each stage is a state machine whose decisions are verified here
//! and whose outside work is handed back as plain values.

pub mod agent_architect;
pub mod agent_backend;
pub mod ai_functions;
pub mod basic_agent;
pub mod command_line;
pub mod errors;
pub mod factsheet;
pub mod general;
pub mod llm;
pub mod managing_agent;
pub mod probe;
