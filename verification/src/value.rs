//! Lisp values as seen from Rust: opaque handles that only the Lisp runtime
//! can interpret.
use vstd::prelude::*;

verus! {

/// A handle to a Lisp object, valid for the duration of the call in which the
/// Lisp runtime handed it out. The handle is the runtime's own reference,
/// carried as an integer.
#[derive(Clone, Copy, PartialEq, Eq, Debug, Structural)]
pub struct Value {
    pub raw: usize,
}

impl Value {
    /// Wraps a handle given by the Lisp runtime.
    pub fn from_raw(raw: usize) -> (v: Value)
        ensures
            v.raw == raw,
    {
        Value { raw }
    }

    /// The runtime's handle of this value.
    pub fn raw(&self) -> (r: usize)
        ensures
            r == self.raw,
    {
        self.raw
    }
}

} // verus!
