use vstd::prelude::*;

verus! {

/// The chain's standard error, as far as these contracts produce or pass it on.
#[derive(Debug, Clone, PartialEq, Eq)]
pub enum StdError {
    /// An error with a free-form message.
    GenericErr { msg: String },
    /// A value that was expected in storage is not there.
    NotFound { kind: String },
    /// A value could not be read from its serialised form.
    ParseErr { target_type: String, msg: String },
    /// A value could not be serialised.
    SerializeErr { source_type: String, msg: String },
}

impl StdError {
    /// An error with the given message.
    pub fn generic_err(msg: &str) -> (e: StdError)
        ensures
            e matches StdError::GenericErr { msg: m } && m@ == msg@,
    {
        StdError::GenericErr { msg: msg.to_owned() }
    }

    /// The error for a missing value of the given type.
    pub fn not_found(kind: &str) -> (e: StdError)
        ensures
            e matches StdError::NotFound { kind: k } && k@ == kind@,
    {
        StdError::NotFound { kind: kind.to_owned() }
    }
}

/// The errors the contracts answer with.
#[derive(Debug, Clone, PartialEq, Eq)]
pub enum ContractError {
    /// A standard error, raised here or passed on from the chain.
    Std(StdError),
    /// The price is zero, so no amount of tokens can be computed.
    DivisionError,
}

} // verus!
