//! The Lisp primitives that the library calls through cached function
//! references, and the Lisp names they are found under.
use vstd::prelude::*;

verus! {

/// A Lisp primitive function that the library calls directly.
#[derive(Clone, Copy, PartialEq, Eq, Debug, Structural)]
pub enum Subr {
    Cons,
    Car,
    Cdr,
    Vector,
    MakeVector,
    List,
    Message,
    Fset,
}

impl Subr {
    /// The name of the Lisp function.
    pub open spec fn spec_symbol_name(self) -> &'static str {
        match self {
            Subr::Cons => "cons",
            Subr::Car => "car",
            Subr::Cdr => "cdr",
            Subr::Vector => "vector",
            Subr::MakeVector => "make-vector",
            Subr::List => "list",
            Subr::Message => "message",
            Subr::Fset => "fset",
        }
    }

    /// The name of the Lisp function that this primitive is found under.
    pub fn symbol_name(&self) -> (r: &'static str)
        ensures
            r == self.spec_symbol_name(),
    {
        match self {
            Subr::Cons => "cons",
            Subr::Car => "car",
            Subr::Cdr => "cdr",
            Subr::Vector => "vector",
            Subr::MakeVector => "make-vector",
            Subr::List => "list",
            Subr::Message => "message",
            Subr::Fset => "fset",
        }
    }
}

} // verus!
