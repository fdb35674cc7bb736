//! Composable provisioning actions and the execution contract they uphold.
//!
//! An external scheduler walks a dependency graph of actions. For each node it
//! first calls a side-effect-free idempotency probe, then — only when the probe
//! asks for it — runs the action in one of two directions (`Perform` or
//! `Rollback`). An action's parameter is either a literal or a reference to
//! another action's eventual output, resolved lazily against a run-scoped
//! output store. Expensive shared resources (such as a network client) live in
//! a registry populated once before execution begins.
//!
//! This crate holds the verified core of that contract: the typed output
//! store, the shared-state registry, the input resolver, the per-node probe /
//! run state machine, the error taxonomy, and the decision logic of each
//! concrete action. The side effects themselves (subprocesses, HTTP, the
//! filesystem) are performed by unverified adapters outside this crate, which
//! feed their observations back into the verified verdict functions here.

pub mod action;
pub mod apt;
pub mod command;
pub mod errors;
pub mod http;
pub mod machine;
pub mod resolve;
pub mod state;
pub mod store;
pub mod strings;
pub mod tempfile;
