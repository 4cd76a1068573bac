//! Lisp vectors.
use vstd::prelude::*;
use crate::call::{Arg, Call, Callee, Request};
use crate::env::Env;
use crate::error::Result;
use crate::subr::Subr;
use crate::value::Value;

verus! {

/// A Lisp vector: a value known to be a vector, with its length.
#[derive(Clone, Copy, Debug)]
pub struct Vector {
    value: Value,
    len: usize,
}

impl Vector {
    /// The vector as a Lisp value.
    pub closed spec fn spec_value(&self) -> Value {
        self.value
    }

    /// The vector's length.
    pub closed spec fn spec_len(&self) -> usize {
        self.len
    }

    /// The vector `value`, taken to have length `len` without asking Lisp.
    pub fn from_value_unchecked(value: Value, len: usize) -> (v: Vector)
        ensures
            v.spec_value() == value,
            v.spec_len() == len,
    {
        Vector { value, len }
    }

    /// The vector `value`, whose length Emacs reported as `size`.
    pub fn from_lisp(value: Value, size: isize) -> (v: Vector)
        requires
            size >= 0,
        ensures
            v.spec_value() == value,
            v.spec_len() == size as usize,
    {
        Vector { value, len: size as usize }
    }

    /// Asks for element `i`. Emacs checks the index against the vector's
    /// bounds.
    pub fn get(&self, env: &Env, i: usize) -> (r: Request)
        ensures
            r == (Request::VecGet { vector: self.spec_value(), index: i as isize }),
    {
        Request::VecGet { vector: self.value, index: i as isize }
    }

    /// Asks to make element `i` be `value`. Emacs checks the index against
    /// the vector's bounds.
    pub fn set(&self, env: &Env, i: usize, value: Value) -> (r: Request)
        ensures
            r == (Request::VecSet { vector: self.spec_value(), index: i as isize, value }),
    {
        Request::VecSet { vector: self.value, index: i as isize, value }
    }

    /// The vector's length (superseded by `len`).
    pub fn size(&self) -> (r: Result<usize>)
        ensures
            r matches Ok(n) && n == self.spec_len(),
    {
        Ok(self.len)
    }

    /// The vector's length.
    pub fn len(&self) -> (n: usize)
        ensures
            n == self.spec_len(),
    {
        self.len
    }

    /// The vector as a Lisp value.
    pub fn value(&self) -> (v: Value)
        ensures
            v == self.spec_value(),
    {
        self.value
    }

    /// The vector as a Lisp value.
    pub fn into_lisp(self, env: &Env) -> (v: Value)
        ensures
            v == self.spec_value(),
    {
        self.value
    }
}

/// A vector on its way to being made by `make-vector`.
pub struct MakeVector {
    /// The call that makes the vector.
    pub call: Call,
    /// The length asked for.
    pub length: usize,
}

impl MakeVector {
    /// The length the vector is made with.
    pub closed spec fn spec_length(&self) -> usize {
        self.length
    }

    /// The vector that `make-vector` gave: it has the asked-for length.
    pub fn finish(self, made: Value) -> (v: Vector)
        ensures
            is_finished(self, made, v),
    {
        Vector::from_value_unchecked(made, self.length)
    }
}

/// Whether `m` makes a vector of `length` elements, each `init`: a call of
/// `make-vector` on the two, remembering the length.
pub open spec fn is_make_vector(m: MakeVector, length: usize, init: Arg) -> bool {
    &&& m.spec_length() == length
    &&& m.call.callee == Callee::Subr(Subr::MakeVector)
    &&& m.call.args@.len() == 2
    &&& m.call.args@[0] == Arg::Usize(length)
    &&& m.call.args@[1] == init
}

/// Whether `v` is the vector that `m` gives once `make-vector` returned
/// `made`: that value, with the asked-for length.
pub open spec fn is_finished(m: MakeVector, made: Value, v: Vector) -> bool {
    &&& v.spec_value() == made
    &&& v.spec_len() == m.spec_length()
}

impl Env {
    /// Makes a vector of `length` elements, each `init`: a call of the
    /// primitive `make-vector`.
    pub fn make_vector(&self, length: usize, init: Arg) -> (m: MakeVector)
        ensures
            is_make_vector(m, length, init),
    {
        let mut args: Vec<Arg> = Vec::new();
        args.push(Arg::Usize(length));
        args.push(init);
        MakeVector { call: Call { callee: Callee::Subr(Subr::MakeVector), args }, length }
    }

    /// Makes a vector of the given elements: a call of the primitive
    /// `vector`.
    pub fn vector(&self, args: Vec<Arg>) -> (c: Call)
        ensures
            c.callee == Callee::Subr(Subr::Vector),
            c.args@ == args@,
    {
        Call { callee: Callee::Subr(Subr::Vector), args }
    }
}

/// A vector made by `make_vector(length, init)` and completed with the
/// value that `make-vector` returned has length `length` and is that value,
/// whatever `init` is.
pub proof fn law_made_vector_length(length: usize, init: Arg, m: MakeVector, made: Value, v: Vector)
    requires
        is_make_vector(m, length, init),
        is_finished(m, made, v),
    ensures
        v.spec_len() == length,
        v.spec_value() == made,
{
}

} // verus!
