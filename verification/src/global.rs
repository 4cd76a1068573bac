//! References to Lisp values that outlive a single call: global references,
//! and global references that are made on first use.
use vstd::prelude::*;
use crate::call::{Arg, Call, Callee, Request, is_symbol_arg, calls_named, string_of};
use crate::env::Env;
use crate::error::Error;
use crate::value::Value;

verus! {

/// A global reference to a Lisp value. It keeps the value alive across
/// calls, until freed.
#[derive(Debug)]
pub struct GlobalRef {
    raw: usize,
}

impl GlobalRef {
    /// The runtime's handle of the referenced value.
    pub closed spec fn handle(&self) -> usize {
        self.raw
    }

    /// Asks for a new global reference to `value`.
    pub fn new(env: &Env, value: Value) -> (r: Request)
        ensures
            r == (Request::MakeGlobalRef { value }),
    {
        Request::MakeGlobalRef { value }
    }

    /// The global reference that the runtime made, with handle `raw`.
    pub fn from_raw(raw: usize) -> (g: GlobalRef)
        ensures
            g.handle() == raw,
    {
        GlobalRef { raw }
    }

    /// Asks to free this global reference.
    pub fn free(self, env: &Env) -> (r: Request)
        ensures
            r == (Request::FreeGlobalRef { value: Value { raw: self.handle() } }),
    {
        Request::FreeGlobalRef { value: Value { raw: self.raw } }
    }

    /// The referenced value, for use in the current call.
    pub fn bind(&self, env: &Env) -> (v: Value)
        ensures
            v.raw == self.handle(),
    {
        Value { raw: self.raw }
    }

    /// Asks for a copy of this global reference.
    pub fn clone(&self, env: &Env) -> (r: Request)
        ensures
            r == (Request::MakeGlobalRef { value: Value { raw: self.handle() } }),
    {
        self.bind(env).make_global_ref(env)
    }

    /// Asks whether the referenced value is the Lisp object `r`.
    pub fn eq(&self, env: &Env, r: Value) -> (q: Request)
        ensures
            q == (Request::Eq { a: Value { raw: self.handle() }, b: r }),
    {
        Request::Eq { a: self.bind(env), b: r }
    }
}

impl Value {
    /// Asks for a new global reference to this value.
    pub fn make_global_ref(self, env: &Env) -> (r: Request)
        ensures
            r == (Request::MakeGlobalRef { value: self }),
    {
        GlobalRef::new(env, self)
    }
}

/// What a lazily made global reference is made from.
pub trait LazyGlobalRefValue: Copy {
    /// Whether `r` is the request that produces the value to reference.
    spec fn is_initialization(&self, r: Request) -> bool;

    /// The request that produces the value to reference.
    fn initialize(&self) -> (r: Request)
        ensures
            self.is_initialization(r),
    ;
}

/// The symbol of a given name.
#[derive(Clone, Copy, Debug)]
pub struct Symbol<'a>(&'a str);

impl<'a> Symbol<'a> {
    /// The symbol's name.
    pub closed spec fn spec_name(&self) -> &'a str {
        self.0
    }

    /// The symbol named `val`.
    pub fn new(val: &'a str) -> (s: Symbol<'a>)
        ensures
            s.spec_name() == val,
    {
        Symbol(val)
    }
}

impl<'a> LazyGlobalRefValue for Symbol<'a> {
    open spec fn is_initialization(&self, r: Request) -> bool {
        r matches Request::Intern { name } && name@ == self.spec_name()@
    }

    /// Interns the symbol.
    fn initialize(&self) -> (r: Request) {
        Request::Intern { name: string_of(self.0) }
    }
}

/// The function bound to the symbol of a given name.
#[derive(Clone, Copy, Debug)]
pub struct Fn<'a>(&'a str);

impl<'a> Fn<'a> {
    /// The function's name.
    pub closed spec fn spec_name(&self) -> &'a str {
        self.0
    }

    /// The function named `val`.
    pub fn new(val: &'a str) -> (f: Fn<'a>)
        ensures
            f.spec_name() == val,
    {
        Fn(val)
    }
}

impl<'a> LazyGlobalRefValue for Fn<'a> {
    open spec fn is_initialization(&self, r: Request) -> bool {
        r matches Request::Call(c) && calls_named(c, "indirect-function"@) && c.args@.len() == 1
            && is_symbol_arg(c.args@[0], self.spec_name()@)
    }

    /// Calls `indirect-function` on the symbol, to get the function object
    /// itself.
    fn initialize(&self) -> (r: Request) {
        let mut args: Vec<Arg> = Vec::new();
        args.push(Arg::Symbol(string_of(self.0)));
        Request::Call(Call { callee: Callee::Named(string_of("indirect-function")), args })
    }
}

/// What `try_bind` found.
pub enum BindStep {
    /// The reference is made: here is the value.
    Bound(Value),
    /// The reference is not made yet: perform this request, make a global
    /// reference of its result, and hand that to `init`.
    Initialize(Request),
}

/// What comparing a lazily made reference with a value takes.
pub enum EqStep {
    /// Ask this: whether the referenced value is the other value.
    Compare(Request),
    /// The reference is not made yet: perform this request and make the
    /// reference first. Should that fail, the two are taken to differ.
    Initialize(Request),
}

/// What comparing a lazily made reference with a value gives once the
/// reference's initialization has been tried.
pub enum EqOutcome {
    /// Ask this: whether the referenced value is the other value. Its answer
    /// is the answer.
    Compare(Request),
    /// The reference could not be made: the two are taken to differ, and
    /// the answer is `false`.
    Differ,
}

/// Whether `r` is what `try_bind` gives for `l`: the referenced value once the
/// reference is made, and before that the request that produces the value.
pub open spec fn is_bind_step<T: LazyGlobalRefValue>(l: LazyGlobalRef<T>, r: BindStep) -> bool {
    match l.spec_inner() {
        Some(g) => r == BindStep::Bound(Value { raw: g.handle() }),
        None => r matches BindStep::Initialize(q) && l.spec_val().is_initialization(q),
    }
}

/// Whether `after` is `before`, not yet made, once made with the global
/// reference `g`.
pub open spec fn is_initialized_with<T: LazyGlobalRefValue>(
    before: LazyGlobalRef<T>,
    after: LazyGlobalRef<T>,
    g: GlobalRef,
) -> bool {
    &&& before.spec_inner() is None
    &&& after.spec_val() == before.spec_val()
    &&& after.spec_inner() == Some(g)
}

/// Whether `after` and `o` are what finishing a comparison of `before`
/// with `r` gives, when making the reference gave `made`: a made reference
/// is recorded and compared; an error leaves the reference unmade and the
/// two are taken to differ.
pub open spec fn is_eq_after_init<T: LazyGlobalRefValue>(
    before: LazyGlobalRef<T>,
    after: LazyGlobalRef<T>,
    made: core::result::Result<GlobalRef, Error>,
    r: Value,
    o: EqOutcome,
) -> bool {
    match made {
        Ok(g) => is_initialized_with(before, after, g)
            && o == EqOutcome::Compare(Request::Eq { a: Value { raw: g.handle() }, b: r }),
        Err(_) => after == before && o == EqOutcome::Differ,
    }
}

/// A global reference that is made the first time it is needed, and from
/// then on stays the same.
pub struct LazyGlobalRef<T: LazyGlobalRefValue> {
    val: T,
    inner: Option<GlobalRef>,
}

impl<T: LazyGlobalRefValue> LazyGlobalRef<T> {
    /// What the reference is made from.
    pub closed spec fn spec_val(&self) -> T {
        self.val
    }

    /// The reference, once made.
    pub closed spec fn spec_inner(&self) -> Option<GlobalRef> {
        self.inner
    }

    /// A reference that is not made yet.
    pub fn new(val: T) -> (g: LazyGlobalRef<T>)
        ensures
            g.spec_val() == val,
            g.spec_inner() is None,
    {
        LazyGlobalRef { val, inner: None }
    }

    /// Whether the reference is made.
    pub fn is_initialized(&self) -> (r: bool)
        ensures
            r == (self.spec_inner() is Some),
    {
        self.inner.is_some()
    }

    /// Records the global reference made for this value, and gives the value.
    /// A reference is made only once.
    pub fn init(&mut self, g: GlobalRef) -> (v: Value)
        requires
            old(self).spec_inner() is None,
        ensures
            is_initialized_with(*old(self), *final(self), g),
            v.raw == g.handle(),
    {
        let v = Value { raw: g.raw };
        self.inner = Some(g);
        v
    }

    /// The referenced value once the reference is made; before that, the
    /// request that produces the value.
    pub fn try_bind(&self, env: &Env) -> (r: BindStep)
        ensures
            is_bind_step(*self, r),
    {
        match &self.inner {
            Some(g) => BindStep::Bound(g.bind(env)),
            None => BindStep::Initialize(self.val.initialize()),
        }
    }

    /// Whether the referenced value is the Lisp object `r`: once the
    /// reference is made, a comparison of the two.
    pub fn eq(&self, env: &Env, r: Value) -> (q: EqStep)
        ensures
            match self.spec_inner() {
                Some(g) => q == EqStep::Compare(Request::Eq { a: Value { raw: g.handle() }, b: r }),
                None => q matches EqStep::Initialize(i) && self.spec_val().is_initialization(i),
            },
    {
        match self.try_bind(env) {
            BindStep::Bound(v) => EqStep::Compare(Request::Eq { a: v, b: r }),
            BindStep::Initialize(i) => EqStep::Initialize(i),
        }
    }

    /// Finishes a comparison with the Lisp object `r` that had to make the
    /// reference first, given what making it gave: the global reference, or
    /// the error that stopped it. A made reference is recorded and compared;
    /// an error is not passed on, and the two are taken to differ.
    pub fn eq_after_init(&mut self, env: &Env, made: core::result::Result<GlobalRef, Error>, r: Value) -> (o: EqOutcome)
        requires
            old(self).spec_inner() is None,
        ensures
            is_eq_after_init(*old(self), *final(self), made, r, o),
    {
        match made {
            Ok(g) => {
                let v = self.init(g);
                EqOutcome::Compare(Request::Eq { a: v, b: r })
            },
            Err(_) => EqOutcome::Differ,
        }
    }
}

/// Once a lazily made reference is initialized with a global reference,
/// every later `try_bind` gives that reference's value, without asking to
/// initialize again, whatever the name it was made from is bound to later.
pub proof fn law_lazy_ref_stable<T: LazyGlobalRefValue>(
    before: LazyGlobalRef<T>,
    after: LazyGlobalRef<T>,
    g: GlobalRef,
    r1: BindStep,
    r2: BindStep,
)
    requires
        is_initialized_with(before, after, g),
        is_bind_step(after, r1),
        is_bind_step(after, r2),
    ensures
        r1 == BindStep::Bound(Value { raw: g.handle() }),
        r1 == r2,
{
}

/// Comparing a reference that is not made yet answers `false` when making it
/// fails, and otherwise asks about the value of the reference just made,
/// which every later `try_bind` gives as well.
pub proof fn law_lazy_eq_outcome<T: LazyGlobalRefValue>(
    before: LazyGlobalRef<T>,
    after: LazyGlobalRef<T>,
    made: core::result::Result<GlobalRef, Error>,
    r: Value,
    o: EqOutcome,
    later: BindStep,
)
    requires
        before.spec_inner() is None,
        is_eq_after_init(before, after, made, r, o),
        is_bind_step(after, later),
    ensures
        made is Err <==> o == EqOutcome::Differ,
        made is Err ==> later is Initialize,
        made matches Ok(g) ==> later == BindStep::Bound(Value { raw: g.handle() })
            && o == EqOutcome::Compare(Request::Eq { a: Value { raw: g.handle() }, b: r }),
{
}

} // verus!
