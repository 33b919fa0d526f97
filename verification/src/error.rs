//! The stable management error and its classes.

use vstd::prelude::*;

verus! {

/// How an adapter must treat a management error.
#[derive(Clone, Copy, Debug, PartialEq, Eq, Structural)]
pub enum ErrorClass {
    InvalidInput,
    Conflict,
    Forbidden,
    Store,
    Unavailable,
    Capability,
    Unresolved,
    Budget,
}

/// A stable management error: a class, a stable code and a human message.
#[derive(Clone, Debug)]
pub struct ManagementError {
    pub class: ErrorClass,
    pub code: String,
    pub message: String,
}

/// A refusal reported by a durable store, before it is classified.
#[derive(Clone, Debug)]
pub struct StoreError {
    pub code: String,
    pub message: String,
}

impl StoreError {
    pub fn new(code: &str, message: &str) -> (r: Self)
        ensures
            r.code@ == code@,
            r.message@ == message@,
    {
        StoreError { code: code.to_owned(), message: message.to_owned() }
    }
}

/// The class a store refusal is reported under, chosen by its stable code.
pub open spec fn store_error_class(code: Seq<char>) -> ErrorClass {
    if code == "run_not_found"@ || code == "command_not_found"@ {
        ErrorClass::InvalidInput
    } else if code == "stale_revision"@ || code == "duplicate_run"@ || code == "command_conflict"@ {
        ErrorClass::Conflict
    } else if code == "redaction_required"@ {
        ErrorClass::Forbidden
    } else {
        ErrorClass::Store
    }
}

/// The refusal a management operation reports: its class and stable code.
pub struct Refusal {
    pub class: ErrorClass,
    pub code: Seq<char>,
}

impl ManagementError {
    /// The class and code of this error.
    pub open spec fn refusal(&self) -> Refusal {
        Refusal { class: self.class, code: self.code@ }
    }
}

/// The refusal of this class with this code.
pub open spec fn refusal(class: ErrorClass, code: &str) -> Refusal {
    Refusal { class, code: code@ }
}

impl ManagementError {
    /// An error of the given class.
    pub fn new(class: ErrorClass, code: &str, message: &str) -> (r: Self)
        ensures
            r.class == class,
            r.code@ == code@,
            r.message@ == message@,
    {
        ManagementError { class, code: code.to_owned(), message: message.to_owned() }
    }

    /// A refusal of malformed input.
    pub fn invalid(code: &str, message: &str) -> (r: Self)
        ensures
            r.class == ErrorClass::InvalidInput,
            r.code@ == code@,
            r.message@ == message@,
    {
        Self::new(ErrorClass::InvalidInput, code, message)
    }

    /// A refusal because the request conflicts with retained state.
    pub fn conflict(code: &str, message: &str) -> (r: Self)
        ensures
            r.class == ErrorClass::Conflict,
            r.code@ == code@,
            r.message@ == message@,
    {
        Self::new(ErrorClass::Conflict, code, message)
    }

    /// A refusal because the caller lacks an authority.
    pub fn forbidden(code: &str, message: &str) -> (r: Self)
        ensures
            r.class == ErrorClass::Forbidden,
            r.code@ == code@,
            r.message@ == message@,
    {
        Self::new(ErrorClass::Forbidden, code, message)
    }

    /// A durable-store failure.
    pub fn store(code: &str, message: &str) -> (r: Self)
        ensures
            r.class == ErrorClass::Store,
            r.code@ == code@,
            r.message@ == message@,
    {
        Self::new(ErrorClass::Store, code, message)
    }

    /// A refusal because a required owner or port is not attached.
    pub fn unavailable(code: &str, message: &str) -> (r: Self)
        ensures
            r.class == ErrorClass::Unavailable,
            r.code@ == code@,
            r.message@ == message@,
    {
        Self::new(ErrorClass::Unavailable, code, message)
    }

    /// A refusal because the composition does not offer a capability.
    pub fn capability(code: &str, message: &str) -> (r: Self)
        ensures
            r.class == ErrorClass::Capability,
            r.code@ == code@,
            r.message@ == message@,
    {
        Self::new(ErrorClass::Capability, code, message)
    }

    /// An outcome that may already have produced an effect and must be reconciled.
    pub fn unresolved(code: &str, message: &str) -> (r: Self)
        ensures
            r.class == ErrorClass::Unresolved,
            r.code@ == code@,
            r.message@ == message@,
    {
        Self::new(ErrorClass::Unresolved, code, message)
    }

    /// A refusal because a declared budget was exhausted.
    pub fn budget(code: &str, message: &str) -> (r: Self)
        ensures
            r.class == ErrorClass::Budget,
            r.code@ == code@,
            r.message@ == message@,
    {
        Self::new(ErrorClass::Budget, code, message)
    }

    /// Classifies a store refusal by its stable code, keeping code and message.
    pub fn from_store_error(error: StoreError) -> (r: Self)
        ensures
            r.class == store_error_class(error.code@),
            r.code@ == error.code@,
            r.message@ == error.message@,
    {
        let code = &error.code;
        let class = if text_is(code, "run_not_found") || text_is(code, "command_not_found") {
            ErrorClass::InvalidInput
        } else if text_is(code, "stale_revision") || text_is(code, "duplicate_run") || text_is(
            code,
            "command_conflict",
        ) {
            ErrorClass::Conflict
        } else if text_is(code, "redaction_required") {
            ErrorClass::Forbidden
        } else {
            ErrorClass::Store
        };
        ManagementError { class, code: error.code, message: error.message }
    }
}

/// Whether an owned text equals a literal.
pub fn text_is(text: &String, literal: &str) -> (r: bool)
    ensures
        r == (text@ == literal@),
{
    *text == literal.to_owned()
}

/// Re-classifies a failure at or after a paid exchange as unresolved, keeping
/// its code and message for observability.
pub fn exchange_unresolved(error: ManagementError) -> (r: ManagementError)
    ensures
        r.class == ErrorClass::Unresolved,
        r.code@ == error.code@,
        r.message@ == error.message@,
{
    ManagementError { class: ErrorClass::Unresolved, code: error.code, message: error.message }
}

} // verus!
