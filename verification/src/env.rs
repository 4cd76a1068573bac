//! The environment through which Rust code reaches the Lisp runtime.
use vstd::prelude::*;
use crate::call::{Arg, Call, Callee, is_symbol_arg, calls_named, string_of};

verus! {

/// The environment of one call from Lisp into Rust. Its methods decide what
/// to ask of the Lisp runtime and what to make of the runtime's replies; the
/// runtime itself is reached by whoever holds the live Emacs environment.
#[derive(Clone, Copy, PartialEq, Eq, Debug, Structural)]
pub struct Env {}

impl Env {
    /// An environment.
    pub fn new() -> (env: Env)
        ensures
            env == (Env {}),
    {
        Env {}
    }

    /// Announces that the feature `name` is available: a call of `provide`
    /// on the symbol `name`.
    pub fn provide(&self, name: &str) -> (c: Call)
        ensures
            calls_named(c, "provide"@),
            c.args@.len() == 1,
            is_symbol_arg(c.args@[0], name@),
    {
        let mut args: Vec<Arg> = Vec::new();
        args.push(Arg::Symbol(string_of(name)));
        Call { callee: Callee::Named(string_of("provide")), args }
    }
}

} // verus!
