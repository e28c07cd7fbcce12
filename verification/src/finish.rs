//! The outcome of closing an encoder: the sink comes back in any case, with
//! the error if there was one.

use vstd::prelude::*;

verus! {

/// A value that was recovered, and the error that finishing ran into, if any.
#[derive(Debug)]
pub struct Finish<T, E> {
    /// What was recovered.
    pub value: T,
    /// Why finishing did not complete, if it did not.
    pub error: Option<E>,
}

impl<T, E> Finish<T, E> {
    /// Pairs a recovered value with the outcome of finishing.
    pub fn new(value: T, error: Option<E>) -> (r: Self)
        ensures
            r.value == value,
            r.error == error,
    {
        Finish { value, error }
    }

    /// The recovered value of a finish that completed.
    pub fn unwrap(self) -> (value: T)
        requires
            self.error.is_none(),
        ensures
            value == self.value,
    {
        self.value
    }

    /// The recovered value if finishing completed, the error if it did not.
    pub fn into_result(self) -> (r: Result<T, E>)
        ensures
            r == match self.error {
                Some(e) => Err::<T, E>(e),
                None => Ok::<T, E>(self.value),
            },
    {
        match self.error {
            Some(e) => Err(e),
            None => Ok(self.value),
        }
    }

    /// As `into_result`, by reference.
    pub fn as_result(&self) -> (r: Result<&T, &E>)
        ensures
            match self.error {
                Some(e) => r == Err::<&T, &E>(&e),
                None => r == Ok::<&T, &E>(&self.value),
            },
    {
        match &self.error {
            Some(e) => Err(e),
            None => Ok(&self.value),
        }
    }
}

} // verus!
