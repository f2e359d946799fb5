//! `todo` for `Option` and `Result`: take the value out where the other case
//! has no handling yet.
//!
//! Bring [`UnwrapTodo`] into scope and call `.todo()` where `.unwrap()` would
//! stand in a prototype. A verified caller shows that the value is there. A
//! caller outside verification that gets it wrong is stopped with a text
//! saying that the handling is still to be written, which marks the place
//! for later.

use core::fmt::Debug;
use vstd::prelude::*;

pub mod diagnostic;

pub use diagnostic::{render_err, unwrap_err, unwrap_none};

verus! {

/// `todo` on the containers that hold either a value or a reason to stop.
pub trait UnwrapTodo {
    /// What `todo` hands out.
    type Target;

    /// What the container holds for `todo`: `Some` of the value, or `None`
    /// where it stands for absence or failure.
    spec fn payload(&self) -> Option<Self::Target>;

    /// Takes the value out of the container.
    fn todo(self) -> (t: Self::Target)
        requires
            self.payload() is Some,
        ensures
            self.payload() == Some(t),
    ;
}

impl<T> UnwrapTodo for Option<T> {
    type Target = T;

    open spec fn payload(&self) -> Option<T> {
        *self
    }

    /// Gives the value in `Some`.
    ///
    /// `None` is ruled out for verified callers. One outside verification
    /// that passes it is stopped with the text of [`unwrap_none`].
    #[inline]
    fn todo(self) -> (t: T)
        ensures
            self == Some(t),
    {
        match self {
            Some(t) => t,
            // Ruled out by the precondition, which is what lets the call of
            // `expect` on `None` verify. It is the panic for other callers.
            None => Option::<T>::None.expect(unwrap_none()),
        }
    }
}

impl<T, E: Debug> UnwrapTodo for Result<T, E> {
    type Target = T;

    open spec fn payload(&self) -> Option<T> {
        match *self {
            Ok(t) => Some(t),
            Err(_) => None,
        }
    }

    /// Gives the value in `Ok`.
    ///
    /// `Err` is ruled out for verified callers. One outside verification
    /// that passes it is stopped with the text of [`unwrap_err`].
    #[inline]
    fn todo(self) -> (t: T)
        ensures
            self == Ok::<T, E>(t),
    {
        match self {
            Ok(t) => t,
            // Ruled out by the precondition, as in the impl for `Option`.
            Err(e) => Option::<T>::None.expect(unwrap_err(&e).as_str()),
        }
    }
}

/// Nested containers open layer by layer: `todo` on the outer one hands out
/// the next one in, and so on down to the value.
pub proof fn lemma_todo_chains<T, E: Debug>(x: T)
    ensures
        ({
            let inner: Result<T, E> = Ok(x);
            let middle: Option<Result<T, E>> = Some(inner);
            let outer: Option<Option<Result<T, E>>> = Some(middle);
            &&& outer.payload() == Some(middle)
            &&& middle.payload() == Some(inner)
            &&& inner.payload() == Some(x)
        }),
{
}

} // verus!
