//! Error types.

use vstd::prelude::*;

verus! {

/// Why a contract could not be loaded or is not valid.
#[derive(Clone, Debug)]
pub enum ContractError {
    LoadError(String),
    ValidationError(String),
}

impl ContractError {
    /// The error's message.
    pub open spec fn message(self) -> Seq<char> {
        match self {
            ContractError::LoadError(m) => "Failed to load contract: "@ + m@,
            ContractError::ValidationError(m) => "Contract validation error: "@ + m@,
        }
    }

    /// The error's message.
    pub fn to_string(&self) -> (r: String)
        ensures
            r@ == self.message(),
    {
        match self {
            ContractError::LoadError(m) => {
                let mut s = String::from_str("Failed to load contract: ");
                s.append(m.as_str());
                s
            },
            ContractError::ValidationError(m) => {
                let mut s = String::from_str("Contract validation error: ");
                s.append(m.as_str());
                s
            },
        }
    }
}

/// Raised when a blocking violation occurs.
#[derive(Clone, Debug)]
pub struct ContractViolation {
    pub message: String,
    pub violations: Vec<String>,
}

impl ContractViolation {
    /// The error's message.
    pub fn to_string(&self) -> (r: String)
        ensures
            r@ == "ContractViolation: "@ + self.message@,
    {
        let mut s = String::from_str("ContractViolation: ");
        s.append(self.message.as_str());
        s
    }
}

} // verus!
