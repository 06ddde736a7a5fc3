//! Agent orchestration engine for turning a free-text product request into
//! generated, build-verified source for a small full-stack web application.
//!
//! The engine drives a fixed, linear sequence of stages - solution architect,
//! URL manager, backend developer, frontend developer - over a shared project
//! record. Each stage is a finite state machine whose decisions are verified
//! here; the outside collaborators (the model completion service, the build
//! verifier, HTTP probes, durable storage and the operator gate) are modelled
//! as sessions of plain outcome values, so that every control decision the
//! engine makes is proved against its contract. A deployed runner performs
//! the real collaborator actions itself and takes its decisions, context
//! texts and counter updates from the verified functions here.

pub mod agent_frontend_comp;
pub mod agent_traits;
pub mod backend_developer;
pub mod basic_agent;
pub mod command_line;
pub mod frontend_developer;
pub mod general;
pub mod instructions;
pub mod llm;
pub mod managing_agent;
pub mod session;
pub mod solution_architect;
pub mod url_manager;
