//! The requests that the library hands to the Lisp runtime. Every interaction
//! with Emacs is one of these; the code that talks to Emacs performs it and
//! hands the reply back to the library.
use vstd::prelude::*;
use crate::subr::Subr;
use crate::value::Value;

verus! {

/// What a Lisp function is called through.
pub enum Callee {
    /// The function bound to the symbol of this name, looked up at call time.
    Named(String),
    /// A primitive, through its cached function object.
    Subr(Subr),
    /// Any callable Lisp value.
    Value(Value),
}

/// An argument of a Lisp call, converted to a Lisp value when the call is made.
pub enum Arg {
    /// A value that is already a Lisp object.
    Value(Value),
    /// The symbol interned under this name.
    Symbol(String),
    /// A Lisp string with these contents.
    Str(String),
    /// A Lisp integer.
    Usize(usize),
    /// A Lisp list of these elements.
    List(Vec<Arg>),
}

/// A call of a Lisp function on arguments.
pub struct Call {
    pub callee: Callee,
    pub args: Vec<Arg>,
}

/// One operation of the module interface of the Lisp runtime.
pub enum Request {
    /// Intern a symbol.
    Intern { name: String },
    /// Call a Lisp function.
    Call(Call),
    /// Read element `index` of a Lisp vector.
    VecGet { vector: Value, index: isize },
    /// Write element `index` of a Lisp vector.
    VecSet { vector: Value, index: isize, value: Value },
    /// Ask for the length of a Lisp vector.
    VecSize { vector: Value },
    /// Create a global reference to a value.
    MakeGlobalRef { value: Value },
    /// Release a global reference.
    FreeGlobalRef { value: Value },
    /// Ask whether two values are the same Lisp object.
    Eq { a: Value, b: Value },
    /// Create a Lisp function object backed by Rust code.
    MakeFunction { min_arity: isize, max_arity: isize, doc: Option<Vec<u8>> },
}

/// Whether `a` is the argument `Arg::Symbol(name)`.
pub open spec fn is_symbol_arg(a: Arg, name: Seq<char>) -> bool {
    a matches Arg::Symbol(s) && s@ == name
}

/// Whether `a` is the argument `Arg::Str(text)`.
pub open spec fn is_str_arg(a: Arg, text: Seq<char>) -> bool {
    a matches Arg::Str(s) && s@ == text
}

/// Whether `c` calls the function named `name`.
pub open spec fn calls_named(c: Call, name: Seq<char>) -> bool {
    c.callee matches Callee::Named(n) && n@ == name
}

/// A string with the characters of `s`.
pub fn string_of(s: &str) -> (r: String)
    ensures
        r@ == s@,
{
    let mut r = String::new();
    crate::text::push_str(&mut r, s);
    assert(Seq::<char>::empty() + s@ == s@);
    r
}

} // verus!
