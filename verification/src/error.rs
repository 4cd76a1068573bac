//! Conversion between Lisp's non-local exits and Rust's `Result`s, at both
//! directions of the Rust-Lisp boundary.
use vstd::prelude::*;
use crate::call::{Arg, Call, Callee, is_symbol_arg, is_str_arg, calls_named, string_of};
use crate::subr::Subr;
use crate::env::Env;
use crate::text::{hex, push_hex, push_str};
use crate::value::Value;

verus! {

/// Exit status of a Lisp call that returned normally.
pub const RETURN: u32 = 0;
/// Exit status of a Lisp call that signaled an error.
pub const SIGNAL: u32 = 1;
/// Exit status of a Lisp call that threw to a tag.
pub const THROW: u32 = 2;

/// A raw Lisp value carried by an error. It stays meaningful only while the
/// call that produced the error is still running.
#[derive(Clone, Copy, PartialEq, Eq, Debug, Structural)]
pub struct TempValue {
    pub raw: usize,
}

impl TempValue {
    /// Wraps a raw value reported by the runtime.
    pub fn new(raw: usize) -> (t: TempValue)
        ensures
            t.raw == raw,
    {
        TempValue { raw }
    }

    /// The value, for use in the call in which the error arose.
    pub fn value(&self) -> (v: Value)
        ensures
            v.raw == self.raw,
    {
        Value { raw: self.raw }
    }
}

/// Error types generic to all Rust dynamic modules.
#[derive(Clone, Copy, Debug)]
pub enum ErrorKind {
    /// An error signaled by Lisp code.
    Signal { symbol: TempValue, data: TempValue },
    /// A non-local exit thrown by Lisp code.
    Throw { tag: TempValue, value: TempValue },
    /// The given value is not a `user-ptr` of the expected type.
    WrongTypeUserPtr { expected: &'static str },
}

/// How a `TempValue` prints itself for debugging.
pub open spec fn temp_debug(t: TempValue) -> Seq<char> {
    "TempValue { raw: 0x"@ + hex(t.raw as nat) + " }"@
}

/// The text of an error kind.
pub open spec fn kind_message(k: ErrorKind) -> Seq<char> {
    match k {
        ErrorKind::Signal { symbol, data } =>
            "Non-local signal: symbol="@ + temp_debug(symbol) + " data="@ + temp_debug(data),
        ErrorKind::Throw { tag, value } =>
            "Non-local throw: tag="@ + temp_debug(tag) + " value="@ + temp_debug(value),
        ErrorKind::WrongTypeUserPtr { expected } => "expected: "@ + expected@,
    }
}

fn push_temp_debug(s: &mut String, t: TempValue)
    ensures
        final(s)@ == old(s)@ + temp_debug(t),
{
    push_str(s, "TempValue { raw: 0x");
    push_hex(s, t.raw);
    push_str(s, " }");
    assert(old(s)@ + "TempValue { raw: 0x"@ + hex(t.raw as nat) + " }"@ == old(s)@ + temp_debug(t));
}

impl ErrorKind {
    /// The text of this error, as it is shown to the user.
    pub fn message(&self) -> (r: String)
        ensures
            r@ == kind_message(*self),
    {
        let mut s = String::new();
        match self {
            ErrorKind::Signal { symbol, data } => {
                push_str(&mut s, "Non-local signal: symbol=");
                push_temp_debug(&mut s, *symbol);
                push_str(&mut s, " data=");
                push_temp_debug(&mut s, *data);
                assert(s@ == kind_message(*self));
            },
            ErrorKind::Throw { tag, value } => {
                push_str(&mut s, "Non-local throw: tag=");
                push_temp_debug(&mut s, *tag);
                push_str(&mut s, " value=");
                push_temp_debug(&mut s, *value);
                assert(s@ == kind_message(*self));
            },
            ErrorKind::WrongTypeUserPtr { expected } => {
                push_str(&mut s, "expected: ");
                push_str(&mut s, expected);
                assert(s@ == kind_message(*self));
            },
        }
        s
    }
}

/// An error in Rust code called from Lisp.
#[derive(Debug)]
pub enum Error {
    /// An error that Lisp knows how to express.
    Lisp(ErrorKind),
    /// Any other Rust error, carried as the text it displays.
    Other(String),
}

/// The result type of operations that may fail with an `Error`.
pub type Result<T> = core::result::Result<T, Error>;

/// The error symbols that Rust modules define.
#[derive(Clone, Copy, PartialEq, Eq, Debug, Structural)]
pub enum CoreError {
    /// `rust-panic`: a Rust panic.
    RustPanic,
    /// `rust-error`: any Rust error.
    RustError,
    /// `rust-wrong-type-user-ptr`: a `user-ptr` of an unexpected type.
    RustWrongTypeUserPtr,
}

impl CoreError {
    /// The Lisp symbol of this error.
    pub open spec fn spec_symbol_name(self) -> &'static str {
        match self {
            CoreError::RustPanic => "rust-panic",
            CoreError::RustError => "rust-error",
            CoreError::RustWrongTypeUserPtr => "rust-wrong-type-user-ptr",
        }
    }

    /// The Lisp symbol of this error.
    pub fn symbol_name(&self) -> (r: &'static str)
        ensures
            r == self.spec_symbol_name(),
    {
        match self {
            CoreError::RustPanic => "rust-panic",
            CoreError::RustError => "rust-error",
            CoreError::RustWrongTypeUserPtr => "rust-wrong-type-user-ptr",
        }
    }
}

/// The non-local exit (or normal return) with which control goes back to Lisp.
pub enum ExitAction {
    /// Return this raw value.
    Return { value: usize },
    /// Signal `symbol` with `data`; the raw value returned is `symbol`.
    Signal { symbol: usize, data: usize },
    /// Throw `value` to `tag`; the raw value returned is `tag`.
    Throw { tag: usize, value: usize },
    /// Signal `error` with the one-element list `(message)` as data. Should
    /// building that signal fail, panic with `failure`; when
    /// `failure_is_prefix`, `failure` is followed by `: ` and the debug text
    /// of the error that stopped the signal.
    SignalMessage { error: CoreError, message: String, failure: String, failure_is_prefix: bool },
}

/// Whether `a` signals `e` with message `m`, panicking with `f` should that
/// fail; when `prefix`, `f` is followed by the error that stopped the signal.
pub open spec fn is_message_exit(a: ExitAction, e: CoreError, m: Seq<char>, f: Seq<char>, prefix: bool) -> bool {
    a matches ExitAction::SignalMessage { error, message, failure, failure_is_prefix }
        && error == e && message@ == m && failure@ == f && failure_is_prefix == prefix
}

/// The exit that a known error kind turns into.
pub open spec fn is_known_exit(k: ErrorKind, a: ExitAction) -> bool {
    match k {
        ErrorKind::Signal { symbol, data } => a == ExitAction::Signal { symbol: symbol.raw, data: data.raw },
        ErrorKind::Throw { tag, value } => a == ExitAction::Throw { tag: tag.raw, value: value.raw },
        ErrorKind::WrongTypeUserPtr { .. } => is_message_exit(
            a,
            CoreError::RustWrongTypeUserPtr,
            kind_message(k),
            "Failed to signal "@ + kind_message(k),
            false,
        ),
    }
}

/// The exit that the result of a Rust function called from Lisp turns into.
pub open spec fn is_maybe_exit(result: Result<Value>, a: ExitAction) -> bool {
    match result {
        Ok(v) => a == ExitAction::Return { value: v.raw },
        Err(Error::Lisp(k)) => is_known_exit(k, a),
        Err(Error::Other(m)) => is_message_exit(a, CoreError::RustError, m@, "Failed to signal "@ + m@, false),
    }
}

/// What a caught panic carried.
pub enum PanicPayload {
    /// A `String` message.
    Text(String),
    /// An `ErrorKind`, raised to propagate a non-local exit through code that
    /// cannot return a `Result`.
    Kind(ErrorKind),
    /// Anything else, as its debug text.
    Other(String),
}

/// The exit that the outcome of a call that may have panicked turns into.
pub open spec fn is_panic_exit(outcome: core::result::Result<usize, PanicPayload>, a: ExitAction) -> bool {
    match outcome {
        Ok(v) => a == ExitAction::Return { value: v },
        Err(PanicPayload::Text(m)) => is_message_exit(a, CoreError::RustPanic, m@, "Fail to signal panic"@, true),
        Err(PanicPayload::Kind(k)) => is_known_exit(k, a),
        Err(PanicPayload::Other(m)) => is_message_exit(a, CoreError::RustPanic, m@, "Fail to signal panic"@, true),
    }
}

/// What to do after a Lisp call has come back with exit status `status`.
pub struct ExitCheck<T> {
    /// Whether the pending non-local exit must be cleared.
    pub clear: bool,
    /// The outcome of the call.
    pub result: Result<T>,
}

/// The error that a non-local exit of status `status` stands for.
pub open spec fn exit_error(status: u32, symbol: usize, data: usize) -> ErrorKind {
    if status == SIGNAL {
        ErrorKind::Signal { symbol: TempValue { raw: symbol }, data: TempValue { raw: data } }
    } else {
        ErrorKind::Throw { tag: TempValue { raw: symbol }, value: TempValue { raw: data } }
    }
}

/// The one definition of an error symbol, by `define-error`.
pub open spec fn is_define_error(c: Call, name: Arg, message: Seq<char>, parents: Seq<Seq<char>>) -> bool {
    &&& calls_named(c, "define-error"@)
    &&& c.args@.len() == 3
    &&& c.args@[0] == name
    &&& is_str_arg(c.args@[1], message)
    &&& c.args@[2] matches Arg::List(ps) && ps@.len() == parents.len()
        && forall|i: int| 0 <= i < parents.len() ==> is_symbol_arg(#[trigger] ps@[i], parents[i])
}

/// The definition of the core error symbol `e`.
pub open spec fn is_core_definition(c: Call, e: CoreError) -> bool {
    &&& c.args@.len() == 3
    &&& is_symbol_arg(c.args@[0], e.spec_symbol_name()@)
    &&& match e {
        CoreError::RustPanic => is_define_error(c, c.args@[0], "Rust panic"@, seq!["error"@]),
        CoreError::RustError => is_define_error(c, c.args@[0], "Rust error"@, seq!["error"@]),
        CoreError::RustWrongTypeUserPtr => is_define_error(
            c,
            c.args@[0],
            "Wrong type user-ptr"@,
            seq!["rust-error"@, "wrong-type-argument"@],
        ),
    }
}

fn symbol_arg(name: &str) -> (a: Arg)
    ensures
        is_symbol_arg(a, name@),
{
    Arg::Symbol(string_of(name))
}

impl Env {
    /// Makes sense of the exit status of a Lisp call that produced `result`.
    /// A normal return keeps the result; a signal or a throw becomes the
    /// corresponding error, and the runtime's pending exit must be cleared.
    pub fn handle_exit<T>(&self, result: T, status: u32, symbol: usize, data: usize) -> (r: ExitCheck<T>)
        requires
            status == RETURN || status == SIGNAL || status == THROW,
        ensures
            status == RETURN ==> !r.clear && r.result == Ok::<T, Error>(result),
            status != RETURN ==> r.clear
                && r.result == Err::<T, Error>(Error::Lisp(exit_error(status, symbol, data))),
    {
        if status == RETURN {
            ExitCheck { clear: false, result: Ok(result) }
        } else if status == SIGNAL {
            ExitCheck {
                clear: true,
                result: Err(Error::Lisp(ErrorKind::Signal {
                    symbol: TempValue::new(symbol),
                    data: TempValue::new(data),
                })),
            }
        } else {
            ExitCheck {
                clear: true,
                result: Err(Error::Lisp(ErrorKind::Throw {
                    tag: TempValue::new(symbol),
                    value: TempValue::new(data),
                })),
            }
        }
    }

    /// The exit with which a known error kind goes back to Lisp.
    pub fn handle_known(&self, err: &ErrorKind) -> (a: ExitAction)
        ensures
            is_known_exit(*err, a),
    {
        match err {
            ErrorKind::Signal { symbol, data } => ExitAction::Signal { symbol: symbol.raw, data: data.raw },
            ErrorKind::Throw { tag, value } => ExitAction::Throw { tag: tag.raw, value: value.raw },
            ErrorKind::WrongTypeUserPtr { .. } => {
                let message = err.message();
                let mut failure = string_of("Failed to signal ");
                push_str(&mut failure, message.as_str());
                ExitAction::SignalMessage {
                    error: CoreError::RustWrongTypeUserPtr,
                    message,
                    failure,
                    failure_is_prefix: false,
                }
            },
        }
    }

    /// Converts the result of a Rust function called from Lisp into either a
    /// normal return or a non-local exit.
    pub fn maybe_exit(&self, result: Result<Value>) -> (a: ExitAction)
        ensures
            is_maybe_exit(result, a),
    {
        match result {
            Ok(v) => ExitAction::Return { value: v.raw },
            Err(Error::Lisp(k)) => self.handle_known(&k),
            Err(Error::Other(message)) => {
                let mut failure = string_of("Failed to signal ");
                push_str(&mut failure, message.as_str());
                ExitAction::SignalMessage { error: CoreError::RustError, message, failure, failure_is_prefix: false }
            },
        }
    }

    /// Converts the outcome of a call that may have panicked into the exit
    /// that goes back to Lisp. A panic carrying an `ErrorKind` exits as that
    /// error would have if returned; any other panic signals `rust-panic`.
    pub fn handle_panic(&self, outcome: core::result::Result<usize, PanicPayload>) -> (a: ExitAction)
        ensures
            is_panic_exit(outcome, a),
    {
        match outcome {
            Ok(v) => ExitAction::Return { value: v },
            Err(PanicPayload::Text(message)) => ExitAction::SignalMessage {
                error: CoreError::RustPanic,
                message,
                failure: string_of("Fail to signal panic"),
                failure_is_prefix: true,
            },
            Err(PanicPayload::Kind(k)) => self.handle_known(&k),
            Err(PanicPayload::Other(message)) => ExitAction::SignalMessage {
                error: CoreError::RustPanic,
                message,
                failure: string_of("Fail to signal panic"),
                failure_is_prefix: true,
            },
        }
    }

    /// Defines a new Lisp error signal named by `name`, with `message` and
    /// the given parent error symbols: a call of `define-error`.
    pub fn define_error(&self, name: Arg, message: &str, parents: Vec<Arg>) -> (c: Call)
        ensures
            calls_named(c, "define-error"@),
            c.args@.len() == 3,
            c.args@[0] == name,
            is_str_arg(c.args@[1], message@),
            c.args@[2] == Arg::List(parents),
    {
        let mut args: Vec<Arg> = Vec::new();
        args.push(name);
        args.push(Arg::Str(string_of(message)));
        args.push(Arg::List(parents));
        Call { callee: Callee::Named(string_of("define-error")), args }
    }

    /// The definitions of the error symbols that every Rust module provides:
    /// `rust-panic` and `rust-error` under `error`, and
    /// `rust-wrong-type-user-ptr` under both `rust-error` and
    /// `wrong-type-argument`.
    pub fn define_core_errors(&self) -> (defs: Vec<Call>)
        ensures
            defs@.len() == 3,
            is_core_definition(defs@[0], CoreError::RustPanic),
            is_core_definition(defs@[1], CoreError::RustError),
            is_core_definition(defs@[2], CoreError::RustWrongTypeUserPtr),
    {
        let mut defs: Vec<Call> = Vec::new();
        let mut p0: Vec<Arg> = Vec::new();
        p0.push(symbol_arg("error"));
        let d0 = self.define_error(symbol_arg("rust-panic"), "Rust panic", p0);
        let mut p1: Vec<Arg> = Vec::new();
        p1.push(symbol_arg("error"));
        let d1 = self.define_error(symbol_arg("rust-error"), "Rust error", p1);
        let mut p2: Vec<Arg> = Vec::new();
        p2.push(symbol_arg("rust-error"));
        p2.push(symbol_arg("wrong-type-argument"));
        let d2 = self.define_error(symbol_arg("rust-wrong-type-user-ptr"), "Wrong type user-ptr", p2);
        defs.push(d0);
        defs.push(d1);
        defs.push(d2);
        defs
    }

    /// Signals the Lisp error `symbol` with `data` (a list): the error that,
    /// returned to Lisp, becomes that signal.
    pub fn signal<T>(&self, symbol: Value, data: Value) -> (r: Result<T>)
        ensures
            r == Err::<T, Error>(Error::Lisp(ErrorKind::Signal {
                symbol: TempValue { raw: symbol.raw },
                data: TempValue { raw: data.raw },
            })),
    {
        Err(Error::Lisp(ErrorKind::Signal { symbol: TempValue::new(symbol.raw), data: TempValue::new(data.raw) }))
    }
}

/// Emacs-specific extension methods for `Result`.
pub trait ResultExt<T> {
    /// Turns an error into a Lisp signal whose data is the one-element list of
    /// the error's text: the error becomes the `list` call that makes that
    /// data, after which the signal is raised with `Env::signal`. A success
    /// is kept.
    fn or_signal(self, env: &Env) -> core::result::Result<T, Call>;
}

impl<T> ResultExt<T> for core::result::Result<T, String> {
    fn or_signal(self, env: &Env) -> (r: core::result::Result<T, Call>)
        ensures
            match self {
                Ok(t) => r == Ok::<T, Call>(t),
                Err(m) => r matches Err(c) && c.callee == Callee::Subr(Subr::List) && c.args@.len() == 1
                    && is_str_arg(c.args@[0], m@),
            },
    {
        match self {
            Ok(t) => Ok(t),
            Err(m) => {
                let mut args: Vec<Arg> = Vec::new();
                args.push(Arg::Str(m));
                Err(Call { callee: Callee::Subr(Subr::List), args })
            },
        }
    }
}

/// A non-local exit that Lisp code takes inside a call made from Rust, once
/// propagated unchanged out of the Rust function, goes back to Lisp as the
/// very same exit: a signal as the same symbol and data, a throw as the same
/// tag and value.
pub proof fn law_exit_round_trip(status: u32, symbol: usize, data: usize, a: ExitAction)
    requires
        status == SIGNAL || status == THROW,
        is_maybe_exit(Err(Error::Lisp(exit_error(status, symbol, data))), a),
    ensures
        status == SIGNAL ==> a == (ExitAction::Signal { symbol, data }),
        status == THROW ==> a == (ExitAction::Throw { tag: symbol, value: data }),
{
}

/// A Lisp call that returned normally, its result returned from the Rust
/// function, goes back to Lisp as that same value.
pub proof fn law_return_round_trip(v: Value, a: ExitAction)
    requires
        is_maybe_exit(Ok(v), a),
    ensures
        a == (ExitAction::Return { value: v.raw }),
{
}

/// A panic whose payload is an `ErrorKind` exits to Lisp exactly as returning
/// that error would.
pub proof fn law_panic_kind_as_result(k: ErrorKind, a: ExitAction)
    ensures
        is_panic_exit(Err(PanicPayload::Kind(k)), a) == is_maybe_exit(Err(Error::Lisp(k)), a),
{
}

/// Every panic that does not carry an `ErrorKind` is signaled as
/// `rust-panic`, never as `rust-error`.
pub proof fn law_panic_is_rust_panic(p: PanicPayload, a: ExitAction)
    requires
        !(p is Kind),
        is_panic_exit(Err(p), a),
    ensures
        a matches ExitAction::SignalMessage { error, .. } && error == CoreError::RustPanic,
{
}

/// An error signaled from Rust with `Env::signal`, once returned from the
/// Rust function, goes to Lisp as a signal of exactly that symbol and data.
pub proof fn law_signal_from_rust(symbol: Value, data: Value, a: ExitAction)
    requires
        is_maybe_exit(
            Err(Error::Lisp(ErrorKind::Signal {
                symbol: TempValue { raw: symbol.raw },
                data: TempValue { raw: data.raw },
            })),
            a,
        ),
    ensures
        a == (ExitAction::Signal { symbol: symbol.raw, data: data.raw }),
{
}

/// A call that did not panic hands back the raw value that its exit produced,
/// unchanged.
pub proof fn law_no_panic_passes_through(raw: usize, a: ExitAction)
    requires
        is_panic_exit(Ok(raw), a),
    ensures
        a == (ExitAction::Return { value: raw }),
{
}

} // verus!
