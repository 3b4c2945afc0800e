//! Error taxonomy: configuration errors are fatal to the current command and
//! never retried; provider errors surface engine failures; unsupported
//! features degrade gracefully where correctness allows.

use vstd::prelude::*;

verus! {

/// The error type shared by every fallible operation of this crate.
#[derive(Debug, Clone, PartialEq, Eq)]
pub enum DevcontainerError {
    /// The configuration document is missing, unparsable, schema-invalid, or
    /// references a nonexistent dockerfile or workspace.
    Configuration(String),
    /// The container engine is unreachable, a subprocess failed, or a
    /// container identifier is missing.
    Provider(String),
    /// A feature accepted by the interface but not implemented by a provider.
    Unsupported(String),
}

impl DevcontainerError {
    /// The human-readable text carried by the error.
    pub fn message(&self) -> (r: &String)
        ensures
            r@ == self.message_spec(),
    {
        match self {
            DevcontainerError::Configuration(m) => m,
            DevcontainerError::Provider(m) => m,
            DevcontainerError::Unsupported(m) => m,
        }
    }

    /// The text carried by the error, as a sequence of characters.
    pub open spec fn message_spec(&self) -> Seq<char> {
        match self {
            DevcontainerError::Configuration(m) => m@,
            DevcontainerError::Provider(m) => m@,
            DevcontainerError::Unsupported(m) => m@,
        }
    }

    /// True of configuration errors.
    pub fn is_configuration(&self) -> (r: bool)
        ensures
            r == (self is Configuration),
    {
        match self {
            DevcontainerError::Configuration(_) => true,
            _ => false,
        }
    }
}

} // verus!
