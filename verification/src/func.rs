//! Functions exported to Lisp: their arities, the arguments they receive,
//! and their registration under a symbol.
use vstd::prelude::*;
use crate::call::{Arg, Call, Callee, Request, is_symbol_arg, calls_named, string_of};
use crate::env::Env;
use crate::error::{Error, Result};
use crate::subr::Subr;
use crate::text::{decimal, push_decimal};
use crate::value::Value;

verus! {

/// The maximum arity that Emacs uses for a function taking any number of
/// arguments.
pub const VARIADIC: isize = -2;

/// A Rust function callable from Lisp, through an environment of type `E`.
pub trait LispFn<E> {
    /// The least number of arguments.
    const MIN_ARITY: usize;
    /// The greatest number of arguments; `None` for any number.
    const MAX_ARITY: Option<usize>;

    /// Calls the function on the arguments that Lisp passed.
    fn call(&self, env: &E, args: &[Value]) -> Result<Value>;
}

/// The arity that Emacs is told for the largest number of arguments.
pub open spec fn spec_max_arity(max: Option<usize>) -> isize {
    match max {
        Some(m) => m as isize,
        None => VARIADIC,
    }
}

/// Whether `r` creates a function object with these arities and docstring.
pub open spec fn is_make_function(r: Request, min: isize, max: isize, doc: Option<Vec<u8>>) -> bool {
    r matches Request::MakeFunction { min_arity, max_arity, doc: d } && min_arity == min && max_arity == max
        && d == doc
}

/// The number of arguments that a function receives when Emacs reports
/// `nargs`: `nargs` itself, or none when `nargs` is negative.
pub open spec fn spec_arg_count(nargs: isize) -> usize {
    if nargs >= 0 {
        nargs as usize
    } else {
        0
    }
}

/// The number of arguments to read for a call in which Emacs reported
/// `nargs` of them.
pub fn extern_lambda_arg_count(nargs: isize) -> (n: usize)
    ensures
        n == spec_arg_count(nargs),
        nargs >= 0 ==> n == nargs,
        nargs < 0 ==> n == 0,
{
    if nargs >= 0 {
        nargs as usize
    } else {
        0
    }
}

/// The message of the error of a docstring with a NUL byte at `pos`.
pub open spec fn nul_message(pos: nat) -> Seq<char> {
    "nul byte found in provided data at position: "@ + decimal(pos)
}

/// A function value made in Lisp for a Rust function.
pub struct Lambda(Value);

impl Lambda {
    /// The function value.
    pub closed spec fn spec_value(&self) -> Value {
        self.0
    }

    /// The function object that the runtime made.
    pub fn from_value(v: Value) -> (l: Lambda)
        ensures
            l.spec_value() == v,
    {
        Lambda(v)
    }

    /// Makes the function globally callable under `name`: calls `fset` on
    /// the interned symbol and the function value.
    pub fn fset(&self, env: &Env, name: &str) -> (c: Call)
        ensures
            c.callee == Callee::Subr(Subr::Fset),
            c.args@.len() == 2,
            is_symbol_arg(c.args@[0], name@),
            c.args@[1] == Arg::Value(self.spec_value()),
    {
        let mut args: Vec<Arg> = Vec::new();
        args.push(Arg::Symbol(string_of(name)));
        args.push(Arg::Value(self.0));
        Call { callee: Callee::Subr(Subr::Fset), args }
    }

    /// The function value, as a Lisp value.
    pub fn into_lisp(self, env: &Env) -> (v: Value)
        ensures
            v == self.spec_value(),
    {
        self.0
    }
}

impl Env {
    /// Asks for a Lisp function object backed by the Rust function `F`, with
    /// the given docstring: its arities are `F`'s, the maximum being
    /// `VARIADIC` when `F` takes any number of arguments.
    pub fn lambda<E, F: LispFn<E>>(&self, f: &F, docstring: Option<Vec<u8>>) -> (r: Request)
        requires
            F::MIN_ARITY <= isize::MAX,
            F::MAX_ARITY matches Some(m) ==> m <= isize::MAX,
        ensures
            is_make_function(r, F::MIN_ARITY as isize, spec_max_arity(F::MAX_ARITY), docstring),
            r matches Request::MakeFunction { min_arity, max_arity, .. } && min_arity == F::MIN_ARITY
                && (F::MAX_ARITY matches Some(m) ==> max_arity == m)
                && (F::MAX_ARITY is None ==> max_arity == VARIADIC),
    {
        let max = match F::MAX_ARITY {
            Some(m) => m as isize,
            None => VARIADIC,
        };
        Request::MakeFunction { min_arity: F::MIN_ARITY as isize, max_arity: max, doc: docstring }
    }
}

/// Low-level management of function objects.
pub trait Manage {
    /// Asks for a Lisp function object with the given arities and docstring.
    fn make_function(&self, arities: (usize, usize), doc: Vec<u8>) -> Result<Request>;

    /// Makes `func` globally callable under `name`.
    fn fset(&self, name: &str, func: Value) -> Call;
}

impl Manage for Env {
    /// Asks for a Lisp function object with the given arities and docstring.
    /// A docstring holding a NUL byte cannot be passed to Emacs: that is an
    /// error, naming the position of the first such byte.
    fn make_function(&self, arities: (usize, usize), doc: Vec<u8>) -> (r: Result<Request>)
        ensures
            (forall|i: int| 0 <= i < doc@.len() ==> doc@[i] != 0) ==> (r matches Ok(q) && is_make_function(
                q,
                arities.0 as isize,
                arities.1 as isize,
                Some(doc),
            )),
            forall|p: int|
                0 <= p < doc@.len() && doc@[p] == 0 && (forall|i: int| 0 <= i < p ==> doc@[i] != 0) ==> (
                r matches Err(Error::Other(m)) && m@ == nul_message(p as nat)),
    {
        let n = doc.len();
        let mut i: usize = 0;
        while i < n
            invariant
                n == doc@.len(),
                i <= n,
                forall|j: int| 0 <= j < i ==> doc@[j] != 0,
            decreases n - i,
        {
            if doc[i] == 0 {
                let mut m = string_of("nul byte found in provided data at position: ");
                push_decimal(&mut m, i);
                return Err(Error::Other(m));
            }
            i = i + 1;
        }
        Ok(Request::MakeFunction { min_arity: arities.0 as isize, max_arity: arities.1 as isize, doc: Some(doc) })
    }

    /// Makes `func` globally callable under `name`: calls `fset`, looked up
    /// by name, on the interned symbol and `func`.
    fn fset(&self, name: &str, func: Value) -> (c: Call)
        ensures
            calls_named(c, "fset"@),
            c.args@.len() == 2,
            is_symbol_arg(c.args@[0], name@),
            c.args@[1] == Arg::Value(func),
    {
        let mut args: Vec<Arg> = Vec::new();
        args.push(Arg::Symbol(string_of(name)));
        args.push(Arg::Value(func));
        Call { callee: Callee::Named(string_of("fset")), args }
    }
}

/// The environment of a call from Lisp into a Rust function, with the
/// arguments that Lisp passed.
pub struct CallEnv {
    env: Env,
    nargs: usize,
    args: Vec<Value>,
}

impl CallEnv {
    /// The arguments.
    pub closed spec fn spec_args(&self) -> Seq<Value> {
        self.args@
    }

    /// The number of arguments.
    pub closed spec fn spec_nargs(&self) -> usize {
        self.nargs
    }

    /// The environment of a call in which Emacs passed `nargs` arguments,
    /// which are `args`.
    pub fn new(env: Env, nargs: isize, args: Vec<Value>) -> (c: CallEnv)
        requires
            args@.len() == nargs as usize,
        ensures
            c.spec_nargs() == nargs as usize,
            c.spec_args() == args@,
    {
        CallEnv { env, nargs: nargs as usize, args }
    }

    /// The arguments, as Emacs passed them.
    pub fn raw_args(&self) -> (r: &[Value])
        ensures
            r@ == self.spec_args(),
    {
        self.args.as_slice()
    }

    /// The arguments.
    pub fn args(&self) -> (r: Vec<Value>)
        ensures
            r@ == self.spec_args(),
    {
        let mut r: Vec<Value> = Vec::new();
        let n = self.args.len();
        let mut i: usize = 0;
        while i < n
            invariant
                n == self.args@.len(),
                i <= n,
                r@ == self.args@.take(i as int),
            decreases n - i,
        {
            r.push(self.args[i]);
            assert(self.args@.take(i + 1) =~= self.args@.take(i as int).push(self.args@[i as int]));
            i = i + 1;
        }
        assert(self.args@.take(n as int) =~= self.args@);
        r
    }

    /// The `i`-th argument.
    pub fn get_arg(&self, i: usize) -> (v: Value)
        requires
            i < self.spec_args().len(),
        ensures
            v == self.spec_args()[i as int],
    {
        self.args[i]
    }

    /// The environment of the call.
    pub fn env(&self) -> (e: &Env)
        ensures
            *e == (Env {}),
    {
        &self.env
    }
}

/// Every argument that Emacs passes is read: a call with `nargs` arguments,
/// `nargs` not negative, reads exactly `nargs` of them, and only a negative
/// count reads none.
pub proof fn law_all_arguments_read(nargs: isize)
    ensures
        nargs >= 0 ==> spec_arg_count(nargs) == nargs,
        nargs < 0 ==> spec_arg_count(nargs) == 0,
{
}

/// A function object is made with exactly the arities it is asked for: the
/// largest arity `Some(m)` becomes `m`, whatever `m` is (zero too), and only
/// `None` makes the function take any number of arguments.
pub proof fn law_made_arity_is_asked_arity(min: usize, max: Option<usize>, doc: Option<Vec<u8>>, r: Request)
    requires
        min <= isize::MAX,
        max matches Some(m) ==> m <= isize::MAX,
        is_make_function(r, min as isize, spec_max_arity(max), doc),
    ensures
        r matches Request::MakeFunction { min_arity, max_arity, .. } && min_arity == min
            && (max matches Some(m) ==> max_arity == m && max_arity >= 0)
            && (max is None ==> max_arity == VARIADIC)
            && (max_arity == VARIADIC <==> max is None),
{
}

} // verus!
