//! Whether a change was made or had been made before.
use vstd::prelude::*;

verus! {

/// The answer of an operation that does its work at most once.
#[derive(Debug, PartialEq, Eq)]
#[must_use]
pub enum Idempotent<T> {
    Executed(T),
    AlreadyApplied,
}

impl<T> Idempotent<T> {
    /// Whether the work was done now.
    pub fn did_execute(&self) -> (res: bool)
        ensures
            res == (self is Executed),
    {
        match self {
            Idempotent::Executed(_) => true,
            Idempotent::AlreadyApplied => false,
        }
    }

    /// Whether the work had been done before.
    pub fn was_already_applied(&self) -> (res: bool)
        ensures
            res == (self is AlreadyApplied),
    {
        !self.did_execute()
    }

    /// The outcome of the work, for a caller that knows it was done now.
    pub fn expect(self, _msg: &str) -> (res: T)
        requires
            self is Executed,
        ensures
            self == Idempotent::Executed(res),
    {
        match self {
            Idempotent::Executed(outcome) => outcome,
            Idempotent::AlreadyApplied => vstd::pervasive::unreached(),
        }
    }
}

} // verus!
