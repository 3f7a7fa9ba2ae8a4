//! Error and diagnostic types for Gouda Scripting.
//!
//! Parse and resolve errors carry a source span so an editor can highlight
//! the offending range. Runtime errors abort a single handler without taking
//! down the engine.

use vstd::prelude::*;

use crate::effect::InvalidPayload;

verus! {

/// A byte range in the source, used to anchor editor diagnostics.
pub type Span = std::ops::Range<usize>;

/// A compile-time diagnostic (lex, parse, resolve).
#[derive(Debug)]
pub struct Diagnostic {
    pub message: String,
    pub span: Span,
}

impl Clone for Diagnostic {
    /// A copy with the same message and span.
    fn clone(&self) -> (res: Self)
        ensures
            res.message@ == self.message@,
            res.span == self.span,
    {
        Diagnostic {
            message: self.message.clone(),
            span: std::ops::Range { start: self.span.start, end: self.span.end },
        }
    }
}

impl Diagnostic {
    /// A diagnostic with the given message over the given span.
    pub fn new(message: String, span: Span) -> (d: Self)
        ensures
            d.message@ == message@,
            d.span == span,
    {
        Diagnostic { message, span }
    }
}

/// A runtime error raised while a handler executes. Aborting is per-handler.
#[derive(Debug, Clone)]
#[allow(inconsistent_fields)]
pub enum RuntimeError {
    /// A value of the wrong type.
    Type { expected: &'static str, found: &'static str },
    /// Reading a variable that was never declared.
    UndefinedVariable(String),
    /// Calling a function that does not exist.
    UndefinedFunction(String),
    /// Calling a function with the wrong number of arguments.
    Arity { name: String, expected: usize, got: usize },
    /// Division by zero.
    DivisionByZero,
    /// The handler exhausted its fuel budget.
    BudgetExceeded,
    /// Recursion went past the configured depth cap.
    RecursionLimit,
    /// An effect-producing built-in was given a value that failed the effect
    /// boundary's validation.
    InvalidEffect(InvalidPayload),
    /// Any other error.
    Custom(String),
}

impl From<InvalidPayload> for RuntimeError {
    /// An invalid effect argument aborts the handler as `InvalidEffect`.
    fn from(err: InvalidPayload) -> (res: Self) {
        RuntimeError::InvalidEffect(err)
    }
}

impl vstd::std_specs::convert::FromSpecImpl<InvalidPayload> for RuntimeError {
    open spec fn obeys_from_spec() -> bool {
        true
    }

    open spec fn from_spec(err: InvalidPayload) -> Self {
        RuntimeError::InvalidEffect(err)
    }
}

} // verus!
