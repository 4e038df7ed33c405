use vstd::prelude::*;

verus! {

/// The ways script normalization and parameterization can fail.  Every
/// variant is terminal for the call that produced it, and each carries a
/// human-readable detail so that a caller can report what went wrong.
#[derive(Clone, Debug, PartialEq)]
pub enum WhiskyError {
    /// The input hex string does not decode to bytes.
    DecodeError(String),
    /// The bytes decode, but do not parse as a script envelope.
    ScriptFormatError(String),
    /// A JSON argument does not follow the detailed Plutus data schema.
    SchemaError(String),
    /// The evaluation engine rejected the argument application.
    ApplicationError(String),
}

impl WhiskyError {
    /// The detail string carried by the error, whatever its variant.
    pub open spec fn detail(self) -> Seq<char> {
        match self {
            WhiskyError::DecodeError(m) => m@,
            WhiskyError::ScriptFormatError(m) => m@,
            WhiskyError::SchemaError(m) => m@,
            WhiskyError::ApplicationError(m) => m@,
        }
    }

    /// The human-readable detail carried by the error.
    pub fn message(&self) -> (r: String)
        ensures
            r@ == self.detail(),
    {
        match self {
            WhiskyError::DecodeError(m) => m.clone(),
            WhiskyError::ScriptFormatError(m) => m.clone(),
            WhiskyError::SchemaError(m) => m.clone(),
            WhiskyError::ApplicationError(m) => m.clone(),
        }
    }
}

} // verus!
