use rem::call::{Arg, Callee, Request};
use rem::error::{
    CoreError, Error, ErrorKind, ExitAction, PanicPayload, ResultExt, TempValue, RETURN, SIGNAL, THROW,
};
use rem::func::{extern_lambda_arg_count, CallEnv, Lambda, LispFn, Manage, VARIADIC};
use rem::global::{BindStep, EqOutcome, EqStep, GlobalRef, LazyGlobalRef};
use rem::subr::Subr;
use rem::{Env, Fn, Symbol, Value, Vector};

fn v(raw: usize) -> Value {
    Value::from_raw(raw)
}

fn is_symbol(a: &Arg, name: &str) -> bool {
    matches!(a, Arg::Symbol(s) if s == name)
}

#[test]
fn exit_status_codes_match_emacs() {
    assert_eq!(RETURN, emacs_module::emacs_funcall_exit_return);
    assert_eq!(SIGNAL, emacs_module::emacs_funcall_exit_signal);
    assert_eq!(THROW, emacs_module::emacs_funcall_exit_throw);
    assert_eq!(VARIADIC, emacs_module::emacs_variadic_function as isize);
}

#[test]
fn handle_exit_return_keeps_result() {
    let env = Env::new();
    let check = env.handle_exit(v(5), RETURN, 1, 2);
    assert!(!check.clear);
    assert!(matches!(check.result, Ok(x) if x == v(5)));
}

#[test]
fn handle_exit_signal_becomes_error() {
    let env = Env::new();
    let check = env.handle_exit(v(5), SIGNAL, 11, 12);
    assert!(check.clear);
    match check.result {
        Err(Error::Lisp(ErrorKind::Signal { symbol, data })) => {
            assert_eq!(symbol.raw, 11);
            assert_eq!(data.raw, 12);
        }
        _ => panic!("expected a signal"),
    }
}

#[test]
fn handle_exit_throw_becomes_error() {
    let env = Env::new();
    let check = env.handle_exit((), THROW, 21, 22);
    assert!(check.clear);
    match check.result {
        Err(Error::Lisp(ErrorKind::Throw { tag, value })) => {
            assert_eq!(tag.raw, 21);
            assert_eq!(value.raw, 22);
        }
        _ => panic!("expected a throw"),
    }
}

#[test]
fn error_kind_messages() {
    let k = ErrorKind::WrongTypeUserPtr { expected: "RefCell" };
    assert_eq!(k.message(), "expected: RefCell");
    let k = ErrorKind::Signal { symbol: TempValue::new(0x1f), data: TempValue::new(0) };
    assert_eq!(k.message(), "Non-local signal: symbol=TempValue { raw: 0x1f } data=TempValue { raw: 0x0 }");
    let k = ErrorKind::Throw { tag: TempValue::new(255), value: TempValue::new(4096) };
    assert_eq!(k.message(), "Non-local throw: tag=TempValue { raw: 0xff } value=TempValue { raw: 0x1000 }");
}

#[test]
fn temp_value_text_is_hexadecimal() {
    let raw: usize = 0xdead_beef;
    let k = ErrorKind::Signal { symbol: TempValue::new(raw), data: TempValue::new(usize::MAX) };
    let expected =
        format!("Non-local signal: symbol=TempValue {{ raw: 0x{:x} }} data=TempValue {{ raw: 0x{:x} }}", raw, usize::MAX);
    assert_eq!(k.message(), expected);
}

#[test]
fn temp_value_gives_value() {
    assert_eq!(TempValue::new(9).value(), v(9));
}

#[test]
fn maybe_exit_ok_returns() {
    let env = Env::new();
    assert!(matches!(env.maybe_exit(Ok(v(3))), ExitAction::Return { value: 3 }));
}

#[test]
fn maybe_exit_resignals_lisp_errors() {
    let env = Env::new();
    let err = Error::Lisp(ErrorKind::Signal { symbol: TempValue::new(1), data: TempValue::new(2) });
    assert!(matches!(env.maybe_exit(Err(err)), ExitAction::Signal { symbol: 1, data: 2 }));
    let err = Error::Lisp(ErrorKind::Throw { tag: TempValue::new(3), value: TempValue::new(4) });
    assert!(matches!(env.maybe_exit(Err(err)), ExitAction::Throw { tag: 3, value: 4 }));
}

#[test]
fn maybe_exit_signals_rust_errors() {
    let env = Env::new();
    match env.maybe_exit(Err(Error::Other("invalid digit found in string".to_string()))) {
        ExitAction::SignalMessage { error, message, failure, failure_is_prefix } => {
            assert_eq!(error, CoreError::RustError);
            assert_eq!(message, "invalid digit found in string");
            assert_eq!(failure, "Failed to signal invalid digit found in string");
            assert!(!failure_is_prefix);
        }
        _ => panic!("expected a rust-error signal"),
    }
}

#[test]
fn maybe_exit_signals_wrong_type_user_ptr() {
    let env = Env::new();
    match env.maybe_exit(Err(Error::Lisp(ErrorKind::WrongTypeUserPtr { expected: "RefCell" }))) {
        ExitAction::SignalMessage { error, message, failure, failure_is_prefix } => {
            assert_eq!(error, CoreError::RustWrongTypeUserPtr);
            assert_eq!(message, "expected: RefCell");
            assert_eq!(failure, "Failed to signal expected: RefCell");
            assert!(!failure_is_prefix);
        }
        _ => panic!("expected a rust-wrong-type-user-ptr signal"),
    }
}

#[test]
fn handle_panic_outcomes() {
    let env = Env::new();
    assert!(matches!(env.handle_panic(Ok(77)), ExitAction::Return { value: 77 }));
    match env.handle_panic(Err(PanicPayload::Text("boom".to_string()))) {
        ExitAction::SignalMessage { error, message, failure, failure_is_prefix } => {
            assert_eq!(error, CoreError::RustPanic);
            assert_eq!(message, "boom");
            assert_eq!(failure, "Fail to signal panic");
            assert!(failure_is_prefix);
        }
        _ => panic!("expected a rust-panic signal"),
    }
    match env.handle_panic(Err(PanicPayload::Other("Any { .. }".to_string()))) {
        ExitAction::SignalMessage { error, message, failure, failure_is_prefix } => {
            assert_eq!(error, CoreError::RustPanic);
            assert_eq!(message, "Any { .. }");
            assert_eq!(failure, "Fail to signal panic");
            assert!(failure_is_prefix);
        }
        _ => panic!("expected a rust-panic signal"),
    }
    let kind = ErrorKind::Throw { tag: TempValue::new(5), value: TempValue::new(6) };
    assert!(matches!(env.handle_panic(Err(PanicPayload::Kind(kind))), ExitAction::Throw { tag: 5, value: 6 }));
}

#[test]
fn core_error_symbols() {
    assert_eq!(CoreError::RustPanic.symbol_name(), "rust-panic");
    assert_eq!(CoreError::RustError.symbol_name(), "rust-error");
    assert_eq!(CoreError::RustWrongTypeUserPtr.symbol_name(), "rust-wrong-type-user-ptr");
}

#[test]
fn core_error_definitions() {
    let env = Env::new();
    let defs = env.define_core_errors();
    assert_eq!(defs.len(), 3);
    let expected: [(&str, &str, &[&str]); 3] = [
        ("rust-panic", "Rust panic", &["error"]),
        ("rust-error", "Rust error", &["error"]),
        ("rust-wrong-type-user-ptr", "Wrong type user-ptr", &["rust-error", "wrong-type-argument"]),
    ];
    for (def, (name, message, parents)) in defs.iter().zip(expected.iter()) {
        assert!(matches!(&def.callee, Callee::Named(n) if n == "define-error"));
        assert_eq!(def.args.len(), 3);
        assert!(is_symbol(&def.args[0], name));
        assert!(matches!(&def.args[1], Arg::Str(s) if s == message));
        match &def.args[2] {
            Arg::List(ps) => {
                assert_eq!(ps.len(), parents.len());
                for (p, q) in ps.iter().zip(parents.iter()) {
                    assert!(is_symbol(p, q));
                }
            }
            _ => panic!("expected a list of parents"),
        }
    }
}

#[test]
fn signal_from_rust_round_trips() {
    let env = Env::new();
    let r: rem::Result<()> = env.signal(v(40), v(41));
    assert!(matches!(env.maybe_exit(r.map(|_| v(0))), ExitAction::Signal { symbol: 40, data: 41 }));
}

#[test]
fn or_signal_keeps_success_and_lists_message() {
    let env = Env::new();
    let ok: Result<i32, String> = Ok(3);
    assert!(matches!(ok.or_signal(&env), Ok(3)));
    let bad: Result<i32, String> = Err("No such file or directory (os error 2)".to_string());
    match bad.or_signal(&env) {
        Err(call) => {
            assert!(matches!(call.callee, Callee::Subr(Subr::List)));
            assert_eq!(call.args.len(), 1);
            assert!(matches!(&call.args[0], Arg::Str(s) if s == "No such file or directory (os error 2)"));
        }
        Ok(_) => panic!("expected a signal"),
    }
}

struct Plus;

impl LispFn<Env> for Plus {
    const MIN_ARITY: usize = 2;
    const MAX_ARITY: Option<usize> = Some(3);

    fn call(&self, _: &Env, args: &[Value]) -> rem::Result<Value> {
        Ok(args[0])
    }
}

struct Many;

impl LispFn<Env> for Many {
    const MIN_ARITY: usize = 1;
    const MAX_ARITY: Option<usize> = None;

    fn call(&self, _: &Env, args: &[Value]) -> rem::Result<Value> {
        Ok(args[0])
    }
}

#[test]
fn lambda_arities() {
    let env = Env::new();
    match env.lambda(&Plus, None) {
        Request::MakeFunction { min_arity, max_arity, doc } => {
            assert_eq!((min_arity, max_arity), (2, 3));
            assert!(doc.is_none());
        }
        _ => panic!("expected make-function"),
    }
    match env.lambda(&Many, Some(b"Return the input (not a copy).".to_vec())) {
        Request::MakeFunction { min_arity, max_arity, doc } => {
            assert_eq!((min_arity, max_arity), (1, VARIADIC));
            assert_eq!(doc.unwrap(), b"Return the input (not a copy).".to_vec());
        }
        _ => panic!("expected make-function"),
    }
    assert!(Plus.call(&env, &[v(1), v(2)]).is_ok());
}

#[test]
fn make_function_checks_docstring() {
    let env = Env::new();
    match env.make_function((1, 1), b"decrement".to_vec()) {
        Ok(Request::MakeFunction { min_arity, max_arity, doc }) => {
            assert_eq!((min_arity, max_arity), (1, 1));
            assert_eq!(doc.unwrap(), b"decrement".to_vec());
        }
        _ => panic!("expected make-function"),
    }
    match env.make_function((0, 2), b"ab\0c\0".to_vec()) {
        Err(Error::Other(m)) => {
            assert_eq!(m, "nul byte found in provided data at position: 2");
        }
        _ => panic!("expected a nul error"),
    }
}

#[test]
fn fset_calls() {
    let env = Env::new();
    let c = env.fset("t/sum", v(8));
    assert!(matches!(&c.callee, Callee::Named(n) if n == "fset"));
    assert!(is_symbol(&c.args[0], "t/sum"));
    assert!(matches!(c.args[1], Arg::Value(x) if x == v(8)));
    let l = Lambda::from_value(v(9));
    let c = l.fset(&env, "t/inc");
    assert!(matches!(c.callee, Callee::Subr(Subr::Fset)));
    assert_eq!(c.args.len(), 2);
    assert!(is_symbol(&c.args[0], "t/inc"));
    assert!(matches!(c.args[1], Arg::Value(x) if x == v(9)));
    assert_eq!(l.into_lisp(&env), v(9));
}

#[test]
fn subr_names() {
    let all = [
        (Subr::Cons, "cons"),
        (Subr::Car, "car"),
        (Subr::Cdr, "cdr"),
        (Subr::Vector, "vector"),
        (Subr::MakeVector, "make-vector"),
        (Subr::List, "list"),
        (Subr::Message, "message"),
        (Subr::Fset, "fset"),
    ];
    for (s, name) in all {
        assert_eq!(s.symbol_name(), name);
    }
}

#[test]
fn arg_counts() {
    assert_eq!(extern_lambda_arg_count(3), 3);
    assert_eq!(extern_lambda_arg_count(0), 0);
    assert_eq!(extern_lambda_arg_count(-1), 0);
    assert_eq!(extern_lambda_arg_count(isize::MIN), 0);
}

#[test]
fn call_env_arguments() {
    let c = CallEnv::new(Env::new(), 3, vec![v(10), v(11), v(12)]);
    assert_eq!(c.raw_args(), &[v(10), v(11), v(12)]);
    assert_eq!(c.args(), vec![v(10), v(11), v(12)]);
    assert_eq!(c.get_arg(1), v(11));
    assert_eq!(*c.env(), Env::new());
}

#[test]
fn global_refs() {
    let env = Env::new();
    assert!(matches!(GlobalRef::new(&env, v(3)), Request::MakeGlobalRef { value } if value == v(3)));
    let g = GlobalRef::from_raw(30);
    assert_eq!(g.bind(&env), v(30));
    assert!(matches!(g.clone(&env), Request::MakeGlobalRef { value } if value == v(30)));
    assert!(matches!(g.eq(&env, v(4)), Request::Eq { a, b } if a == v(30) && b == v(4)));
    assert!(matches!(v(5).make_global_ref(&env), Request::MakeGlobalRef { value } if value == v(5)));
    assert!(matches!(g.free(&env), Request::FreeGlobalRef { value } if value == v(30)));
}

#[test]
fn lazy_symbol_is_interned_once() {
    let env = Env::new();
    let mut r = LazyGlobalRef::new(Symbol::new("rust-error"));
    assert!(!r.is_initialized());
    match r.try_bind(&env) {
        BindStep::Initialize(Request::Intern { name }) => assert_eq!(name, "rust-error"),
        _ => panic!("expected an intern request"),
    }
    let bound = r.init(GlobalRef::from_raw(77));
    assert_eq!(bound, v(77));
    assert!(r.is_initialized());
    assert!(matches!(r.try_bind(&env), BindStep::Bound(x) if x == v(77)));
    assert!(matches!(r.try_bind(&env), BindStep::Bound(x) if x == v(77)));
}

#[test]
fn lazy_function_uses_indirect_function() {
    let env = Env::new();
    let r = LazyGlobalRef::new(Fn::new("make-vector"));
    match r.try_bind(&env) {
        BindStep::Initialize(Request::Call(c)) => {
            assert!(matches!(&c.callee, Callee::Named(n) if n == "indirect-function"));
            assert_eq!(c.args.len(), 1);
            assert!(is_symbol(&c.args[0], "make-vector"));
        }
        _ => panic!("expected an indirect-function call"),
    }
}

#[test]
fn vectors() {
    let env = Env::new();
    let vec = Vector::from_value_unchecked(v(50), 4);
    assert_eq!(vec.len(), 4);
    assert_eq!(vec.value(), v(50));
    let size = vec.size();
    assert!(matches!(size, Ok(4)));
    assert!(matches!(vec.get(&env, 2), Request::VecGet { vector, index: 2 } if vector == v(50)));
    assert!(matches!(vec.set(&env, 3, v(7)), Request::VecSet { vector, index: 3, value } if vector == v(50) && value == v(7)));
    // Emacs, not the library, checks the bounds: an index past `isize::MAX` is passed on as it wraps.
    assert!(matches!(vec.get(&env, usize::MAX), Request::VecGet { index: -1, .. }));
    assert_eq!(vec.into_lisp(&env), v(50));
    let read = Vector::from_lisp(v(51), 6);
    assert_eq!(read.len(), 6);
    assert_eq!(read.value(), v(51));
}

#[test]
fn making_vectors() {
    let env = Env::new();
    let m = env.make_vector(5, Arg::Value(v(0)));
    assert!(matches!(m.call.callee, Callee::Subr(Subr::MakeVector)));
    assert!(matches!(m.call.args[0], Arg::Usize(5)));
    assert!(matches!(m.call.args[1], Arg::Value(x) if x == v(0)));
    let made = m.finish(v(60));
    assert_eq!(made.len(), 5);
    assert_eq!(made.value(), v(60));
    let c = env.vector(vec![Arg::Usize(1), Arg::Str("x".to_string())]);
    assert!(matches!(c.callee, Callee::Subr(Subr::Vector)));
    assert_eq!(c.args.len(), 2);
}

#[test]
fn lazy_ref_comparison() {
    let env = Env::new();
    let mut r = LazyGlobalRef::new(Symbol::new("left"));
    assert!(matches!(r.eq(&env, v(1)), EqStep::Initialize(Request::Intern { name }) if name == "left"));
    r.init(GlobalRef::from_raw(90));
    assert!(matches!(r.eq(&env, v(1)), EqStep::Compare(Request::Eq { a, b }) if a == v(90) && b == v(1)));
}

#[test]
fn lisp_exits_round_trip_through_rust() {
    let env = Env::new();
    let check = env.handle_exit(v(0), SIGNAL, 31, 32);
    assert!(matches!(env.maybe_exit(check.result), ExitAction::Signal { symbol: 31, data: 32 }));
    let check = env.handle_exit(v(0), THROW, 33, 34);
    assert!(matches!(env.maybe_exit(check.result), ExitAction::Throw { tag: 33, value: 34 }));
    let check = env.handle_exit(v(35), RETURN, 0, 0);
    assert!(matches!(env.maybe_exit(check.result), ExitAction::Return { value: 35 }));
}

#[test]
fn panic_with_error_kind_exits_like_returned_error() {
    let env = Env::new();
    let k = ErrorKind::WrongTypeUserPtr { expected: "Vector2d" };
    let (a, b) = (env.handle_panic(Err(PanicPayload::Kind(k))), env.maybe_exit(Err(Error::Lisp(k))));
    match (a, b) {
        (
            ExitAction::SignalMessage { error: e1, message: m1, failure: f1, failure_is_prefix: p1 },
            ExitAction::SignalMessage { error: e2, message: m2, failure: f2, failure_is_prefix: p2 },
        ) => {
            assert_eq!(e1, e2);
            assert_eq!(m1, m2);
            assert_eq!(f1, f2);
            assert_eq!(p1, p2);
            assert!(!p1);
            assert_eq!(m1, "expected: Vector2d");
        }
        _ => panic!("expected two rust-wrong-type-user-ptr signals"),
    }
}

#[test]
fn failed_initialization_compares_unequal() {
    let env = Env::new();
    let mut r = LazyGlobalRef::new(Symbol::new("left"));
    let out = r.eq_after_init(&env, Err(Error::Other("no symbol".to_string())), v(9));
    assert!(matches!(out, EqOutcome::Differ));
    assert!(!r.is_initialized());
    assert!(matches!(r.try_bind(&env), BindStep::Initialize(Request::Intern { .. })));
}

#[test]
fn initialization_then_compares_with_made_reference() {
    let env = Env::new();
    let mut r = LazyGlobalRef::new(Symbol::new("left"));
    let out = r.eq_after_init(&env, Ok(GlobalRef::from_raw(42)), v(9));
    match out {
        EqOutcome::Compare(Request::Eq { a, b }) => {
            assert_eq!(a.raw(), 42);
            assert_eq!(b.raw(), 9);
        }
        _ => panic!("expected a comparison"),
    }
    assert!(r.is_initialized());
    assert!(matches!(r.try_bind(&env), BindStep::Bound(x) if x.raw() == 42));
}

#[test]
fn provide_calls_provide_on_the_feature_symbol() {
    let env = Env::new();
    let c = env.provide("my-module");
    assert!(matches!(&c.callee, Callee::Named(n) if n == "provide"));
    assert_eq!(c.args.len(), 1);
    assert!(is_symbol(&c.args[0], "my-module"));
}

