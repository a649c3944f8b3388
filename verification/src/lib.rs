//! Behavioural contracts for AI agents: a contract names what an agent's
//! run must satisfy (typed assertions and quantitative limits), and the
//! runner evaluates a run against it in a fixed order, recording each
//! violation with the action the contract prescribes for it.

pub mod audit;
pub mod errors;
pub mod laws;
pub mod measure;
pub mod models;
pub mod runner;
pub mod text;
pub mod validators;

pub use audit::AuditWriter;
pub use errors::{ContractError, ContractViolation};
pub use models::Contract;
pub use runner::{ContractRunner, RunResult, ViolationRecord};
pub use validators::RunContext;
