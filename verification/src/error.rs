//! Errors reported by the upload orchestrator and the listing cursors.

use vstd::prelude::*;

verus! {

/// The calls to the object store that this crate decides on.
#[derive(Clone, Copy, Debug, PartialEq, Eq, Structural)]
pub enum RemoteCall {
    CreateSession,
    UploadPart,
    CompleteSession,
    AbortSession,
    PutObject,
    ListPage,
    GetObject,
}

/// Ways in which an answer of the store can be structurally invalid.
#[derive(Clone, Copy, Debug, PartialEq, Eq, Structural)]
pub enum Violation {
    /// A session was created, but the answer carries no session identifier.
    MissingSessionId,
    /// A listed object carries no key.
    MissingKey,
}

/// Why an operation failed. `E` is the caller's type for the underlying
/// cause (an I/O error, a transport error); it is carried, never inspected.
#[derive(Debug, PartialEq, Eq)]
pub enum StoreError<E> {
    /// Reading the upload source failed.
    SourceRead { cause: E },
    /// A call to the store failed.
    RemoteCall { call: RemoteCall, cause: E },
    /// The store answered, but the answer is structurally invalid.
    Protocol { violation: Violation },
    /// The session already holds as many parts as part numbers exist.
    PartLimit,
}

impl Violation {
    /// A short description of the violation.
    pub fn message(&self) -> (text: &'static str)
        ensures
            *self == Violation::MissingSessionId ==> text@ == "Missing upload ID"@,
            *self == Violation::MissingKey ==> text@ == "Missing object key"@,
    {
        match self {
            Violation::MissingSessionId => "Missing upload ID",
            Violation::MissingKey => "Missing object key",
        }
    }
}

/// Attaches the identity of `call` to the outcome of that call.
pub fn attribute<T, E>(call: RemoteCall, outcome: Result<T, E>) -> (attributed: Result<
    T,
    StoreError<E>,
>)
    ensures
        attributed == attributed_outcome(call, outcome),
{
    match outcome {
        Ok(value) => Ok(value),
        Err(cause) => Err(StoreError::RemoteCall { call, cause }),
    }
}

/// The outcome of `call` as this crate reports it: a success is kept, a
/// failure is wrapped together with the call that failed.
pub open spec fn attributed_outcome<T, E>(call: RemoteCall, outcome: Result<T, E>) -> Result<
    T,
    StoreError<E>,
> {
    match outcome {
        Ok(value) => Ok(value),
        Err(cause) => Err(StoreError::RemoteCall { call, cause }),
    }
}

} // verus!
