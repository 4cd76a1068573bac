//! The `defun` attribute: checks on the signature of an exported function,
//! its options, and the plan of the wrapper that makes it callable from Lisp.
use vstd::prelude::*;
use crate::codegen::util::{arg, MetaError, NestedItem};
use crate::text::{decimal, push_chars, text_eq};

verus! {

/// How the wrapper gets hold of an argument value.
#[derive(Clone, Copy, PartialEq, Eq, Debug, Structural)]
pub enum Access {
    /// An owned value, converted from Lisp.
    Owned,
    /// A shared reference into an embedded `user-ptr`.
    Ref,
    /// A mutable reference into an embedded `user-ptr`.
    RefMut,
}

/// The shape of a Rust type, as far as the macro looks at it.
pub enum TypeShape {
    /// `&T` or `&mut T`.
    Reference { mutable: bool, elem: Box<TypeShape> },
    /// A path type; `qself` tells whether it has a qualified self type, and
    /// `text` is the path as written out in tokens.
    Path { qself: bool, text: String },
    /// Any other type.
    Other,
}

/// A parameter of a function, as far as the macro looks at it.
pub enum FnArgShape {
    /// `self`, `&self` or `&mut self`.
    Receiver,
    /// A typed parameter.
    Typed(TypeShape),
}

/// The signature of a function, as far as the macro looks at it.
pub struct SignatureShape {
    pub inputs: Vec<FnArgShape>,
    /// Whether the function declares a return type.
    pub has_output: bool,
}

/// What a parameter of an exported function receives.
#[derive(Clone, Copy, PartialEq, Eq, Debug, Structural)]
pub enum Param {
    /// The environment; `pos` is the parameter's position in the signature.
    Env { pos: usize },
    /// The `nth` Lisp argument.
    Val { pos: usize, access: Access, nth: usize },
}

/// Where in the source a problem is reported.
#[derive(Clone, Copy, PartialEq, Eq, Debug, Structural)]
pub enum Location {
    /// The parameter at this position.
    Input(usize),
    /// The `fn` keyword.
    FnToken,
}

/// A problem found in a signature.
#[derive(Clone, Copy, Debug)]
pub struct Report {
    pub at: Location,
    pub message: &'static str,
}

/// Where errors about the return value are reported.
#[derive(Clone, Copy, PartialEq, Eq, Debug, Structural)]
pub enum OutputLoc {
    /// The declared return type.
    ReturnType,
    /// The `fn` keyword, for a function without return type.
    FnToken,
}

/// Whether the text ends with `Env`.
pub open spec fn ends_with_env(s: Seq<char>) -> bool {
    &&& s.len() >= 3
    &&& s[s.len() - 3] == 'E'
    &&& s[s.len() - 2] == 'n'
    &&& s[s.len() - 1] == 'v'
}

/// Whether a type names the environment, possibly behind references.
pub open spec fn spec_is_env(ty: TypeShape) -> bool
    decreases ty,
{
    match ty {
        TypeShape::Reference { elem, .. } => spec_is_env(*elem),
        TypeShape::Path { qself, text } => !qself && ends_with_env(text@),
        TypeShape::Other => false,
    }
}

/// How an argument of this type is accessed.
pub open spec fn access_of(ty: TypeShape) -> Access {
    match ty {
        TypeShape::Reference { mutable, .. } => if mutable {
            Access::RefMut
        } else {
            Access::Ref
        },
        _ => Access::Owned,
    }
}

fn ends_with_env_text(s: &str) -> (r: bool)
    ensures
        r == ends_with_env(s@),
{
    let n = s.unicode_len();
    n >= 3 && s.get_char(n - 3) == 'E' && s.get_char(n - 2) == 'n' && s.get_char(n - 1) == 'v'
}

/// Whether a type names the environment: a path ending in `Env`, possibly
/// behind references.
pub fn is_env(ty: &TypeShape) -> (r: bool)
    ensures
        r == spec_is_env(*ty),
    decreases ty,
{
    match ty {
        TypeShape::Reference { elem, .. } => is_env(elem),
        TypeShape::Path { qself, text } => !*qself && ends_with_env_text(text.as_str()),
        TypeShape::Other => false,
    }
}

/// What has been learned of a signature after some of its parameters.
pub struct SigState {
    pub params: Seq<Param>,
    pub nth: nat,
    pub has_env: bool,
    pub errors: Seq<Report>,
}

/// The report for a `self` parameter.
pub open spec fn self_report(pos: nat) -> Report {
    Report { at: Location::Input(pos as usize), message: "Cannot take self argument" }
}

/// The report for an environment taken by value.
pub open spec fn env_by_value_report(pos: nat) -> Report {
    Report { at: Location::Input(pos as usize), message: "Can only take an &Env, not an Env" }
}

/// The report for an environment taken twice.
pub open spec fn env_twice_report(pos: nat) -> Report {
    Report { at: Location::Input(pos as usize), message: "&Env must be passed only once" }
}

/// The report for a missing return type.
pub open spec fn output_report() -> Report {
    Report { at: Location::FnToken, message: "Must return rem::Result<T> where T: IntoLisp<'_>" }
}

/// The effect of the parameter `a` at position `pos`.
pub open spec fn sig_step(st: SigState, pos: nat, a: FnArgShape) -> SigState {
    match a {
        FnArgShape::Receiver => SigState {
            params: st.params,
            nth: st.nth,
            has_env: st.has_env,
            errors: st.errors.push(self_report(pos)),
        },
        FnArgShape::Typed(ty) => if spec_is_env(ty) {
            let e1 = if ty is Reference {
                st.errors
            } else {
                st.errors.push(env_by_value_report(pos))
            };
            let e2 = if st.has_env {
                e1.push(env_twice_report(pos))
            } else {
                e1
            };
            SigState {
                params: st.params.push(Param::Env { pos: pos as usize }),
                nth: st.nth,
                has_env: true,
                errors: e2,
            }
        } else {
            SigState {
                params: st.params.push(
                    Param::Val { pos: pos as usize, access: access_of(ty), nth: st.nth as usize },
                ),
                nth: st.nth + 1,
                has_env: st.has_env,
                errors: st.errors,
            }
        },
    }
}

/// What is learned of a signature from its parameters, in order.
pub open spec fn sig_fold(inputs: Seq<FnArgShape>) -> SigState
    decreases inputs.len(),
{
    if inputs.len() == 0 {
        SigState { params: seq![], nth: 0, has_env: false, errors: seq![] }
    } else {
        sig_step(sig_fold(inputs.drop_last()), (inputs.len() - 1) as nat, inputs.last())
    }
}

/// Every problem of a signature, in the order they are reported.
pub open spec fn signature_errors(sig: SignatureShape) -> Seq<Report> {
    let st = sig_fold(sig.inputs@);
    if sig.has_output {
        st.errors
    } else {
        st.errors.push(output_report())
    }
}

proof fn lemma_fold_bounds(inputs: Seq<FnArgShape>)
    ensures
        sig_fold(inputs).nth <= inputs.len(),
    decreases inputs.len(),
{
    if inputs.len() > 0 {
        lemma_fold_bounds(inputs.drop_last());
    }
}

/// Whether a parameter names the environment.
pub open spec fn is_env_input(a: FnArgShape) -> bool {
    a matches FnArgShape::Typed(ty) && spec_is_env(ty)
}

/// Whether a parameter is refused on its own: `self`, or the environment
/// taken by value.
pub open spec fn is_refused_input(a: FnArgShape) -> bool {
    a is Receiver || (a matches FnArgShape::Typed(ty) && spec_is_env(ty) && !(ty is Reference))
}

/// Whether some parameter names the environment.
pub open spec fn has_env_input(ins: Seq<FnArgShape>) -> bool {
    exists|i: int| 0 <= i < ins.len() && is_env_input(#[trigger] ins[i])
}

/// Whether some parameter is refused on its own.
pub open spec fn has_refused_input(ins: Seq<FnArgShape>) -> bool {
    exists|i: int| 0 <= i < ins.len() && is_refused_input(#[trigger] ins[i])
}

/// Whether two parameters name the environment.
pub open spec fn has_env_twice(ins: Seq<FnArgShape>) -> bool {
    exists|i: int, j: int| 0 <= i < j < ins.len() && is_env_input(#[trigger] ins[i]) && is_env_input(#[trigger] ins[j])
}

/// Whether a signature is refused for export: it takes `self`, takes the
/// environment by value, takes the environment twice, or declares no return
/// type.
pub open spec fn is_refused_signature(sig: SignatureShape) -> bool {
    ||| !sig.has_output
    ||| has_refused_input(sig.inputs@)
    ||| has_env_twice(sig.inputs@)
}

proof fn lemma_inputs_step(ins: Seq<FnArgShape>)
    requires
        ins.len() > 0,
    ensures
        has_env_input(ins) == (has_env_input(ins.drop_last()) || is_env_input(ins.last())),
        has_refused_input(ins) == (has_refused_input(ins.drop_last()) || is_refused_input(ins.last())),
        has_env_twice(ins) == (has_env_twice(ins.drop_last()) || (has_env_input(ins.drop_last())
            && is_env_input(ins.last()))),
{
    let p = ins.drop_last();
    let n = ins.len() - 1;
    assert forall|i: int| 0 <= i < p.len() implies p[i] == ins[i] by {}
    if has_env_input(ins) {
        let i = choose|i: int| 0 <= i < ins.len() && is_env_input(#[trigger] ins[i]);
        if i < n {
            assert(is_env_input(p[i]));
        }
    }
    if has_env_input(p) {
        let i = choose|i: int| 0 <= i < p.len() && is_env_input(#[trigger] p[i]);
        assert(is_env_input(ins[i]));
    }
    if is_env_input(ins.last()) {
        assert(is_env_input(ins[n]));
    }
    if has_refused_input(ins) {
        let i = choose|i: int| 0 <= i < ins.len() && is_refused_input(#[trigger] ins[i]);
        if i < n {
            assert(is_refused_input(p[i]));
        }
    }
    if has_refused_input(p) {
        let i = choose|i: int| 0 <= i < p.len() && is_refused_input(#[trigger] p[i]);
        assert(is_refused_input(ins[i]));
    }
    if is_refused_input(ins.last()) {
        assert(is_refused_input(ins[n]));
    }
    if has_env_twice(ins) {
        let (i, j) = choose|i: int, j: int|
            0 <= i < j < ins.len() && is_env_input(#[trigger] ins[i]) && is_env_input(#[trigger] ins[j]);
        if j < n {
            assert(is_env_input(p[i]) && is_env_input(p[j]));
        } else {
            assert(is_env_input(p[i]));
        }
    }
    if has_env_twice(p) {
        let (i, j) = choose|i: int, j: int|
            0 <= i < j < p.len() && is_env_input(#[trigger] p[i]) && is_env_input(#[trigger] p[j]);
        assert(is_env_input(ins[i]) && is_env_input(ins[j]));
    }
    if has_env_input(p) && is_env_input(ins.last()) {
        let i = choose|i: int| 0 <= i < p.len() && is_env_input(#[trigger] p[i]);
        assert(is_env_input(ins[i]) && is_env_input(ins[n]));
    }
}

proof fn lemma_fold_errors(ins: Seq<FnArgShape>)
    ensures
        sig_fold(ins).has_env == has_env_input(ins),
        (sig_fold(ins).errors.len() > 0) == (has_refused_input(ins) || has_env_twice(ins)),
    decreases ins.len(),
{
    if ins.len() > 0 {
        lemma_fold_errors(ins.drop_last());
        lemma_inputs_step(ins);
    }
}

/// Checks the signature of an exported function. It succeeds when the
/// function takes no `self`, takes the environment at most once and only by
/// reference, and declares a return type; then it gives what each parameter
/// receives, the Lisp arity (the number of parameters other than the
/// environment, both as minimum and as maximum), and where the return type is.
/// Otherwise it gives every problem, in order.
pub fn check_signature(sig: &SignatureShape) -> (r: Result<(Vec<Param>, (usize, usize), OutputLoc), Vec<Report>>)
    ensures
        match r {
            Ok((params, arities, out)) => {
                &&& signature_errors(*sig).len() == 0
                &&& params@ == sig_fold(sig.inputs@).params
                &&& arities.0 == sig_fold(sig.inputs@).nth
                &&& arities.1 == sig_fold(sig.inputs@).nth
                &&& out == (if sig.has_output { OutputLoc::ReturnType } else { OutputLoc::FnToken })
            },
            Err(errors) => signature_errors(*sig).len() > 0 && errors@ == signature_errors(*sig),
        },
{
    let n = sig.inputs.len();
    let mut i: usize = 0;
    let mut has_env = false;
    let mut params: Vec<Param> = Vec::new();
    let mut errors: Vec<Report> = Vec::new();
    let mut k: usize = 0;
    while k < n
        invariant
            n == sig.inputs@.len(),
            k <= n,
            i <= k,
            params@ == sig_fold(sig.inputs@.take(k as int)).params,
            i == sig_fold(sig.inputs@.take(k as int)).nth,
            has_env == sig_fold(sig.inputs@.take(k as int)).has_env,
            errors@ == sig_fold(sig.inputs@.take(k as int)).errors,
        decreases n - k,
    {
        proof {
            lemma_fold_bounds(sig.inputs@.take(k as int));
            assert(sig.inputs@.take(k + 1).drop_last() =~= sig.inputs@.take(k as int));
            assert(sig.inputs@.take(k + 1).last() == sig.inputs@[k as int]);
        }
        match &sig.inputs[k] {
            FnArgShape::Typed(ty) => {
                if is_env(ty) {
                    match ty {
                        TypeShape::Reference { .. } => {},
                        _ => {
                            errors.push(Report { at: Location::Input(k), message: "Can only take an &Env, not an Env" });
                        },
                    }
                    if has_env {
                        errors.push(Report { at: Location::Input(k), message: "&Env must be passed only once" });
                    }
                    has_env = true;
                    params.push(Param::Env { pos: k });
                } else {
                    let access = match ty {
                        TypeShape::Reference { mutable, .. } => if *mutable {
                            Access::RefMut
                        } else {
                            Access::Ref
                        },
                        _ => Access::Owned,
                    };
                    params.push(Param::Val { pos: k, access, nth: i });
                    i = i + 1;
                }
            },
            FnArgShape::Receiver => {
                errors.push(Report { at: Location::Input(k), message: "Cannot take self argument" });
            },
        }
        k = k + 1;
    }
    assert(sig.inputs@.take(n as int) =~= sig.inputs@);
    let out = if sig.has_output {
        OutputLoc::ReturnType
    } else {
        errors.push(Report { at: Location::FnToken, message: "Must return rem::Result<T> where T: IntoLisp<'_>" });
        OutputLoc::FnToken
    };
    if errors.len() == 0 {
        Ok((params, (i, i), out))
    } else {
        Err(errors)
    }
}

/// How the return value of an exported function is embedded in a Lisp
/// `user-ptr`.
#[derive(Clone, Copy, PartialEq, Eq, Debug, Structural)]
pub enum UserPtr {
    /// Through a `RefCell`.
    RefCell,
    /// Through a `RwLock`.
    RwLock,
    /// Through a `Mutex`.
    Mutex,
    /// The value itself.
    Direct,
}

/// The embedding that a list of arguments asks for.
pub open spec fn spec_user_ptr_from_list(items: Seq<NestedItem>) -> Result<UserPtr, MetaError> {
    if items.len() == 1 {
        match items[0] {
            NestedItem::Path { last } => if last@ == "refcell"@ {
                Ok(UserPtr::RefCell)
            } else if last@ == "mutex"@ {
                Ok(UserPtr::Mutex)
            } else if last@ == "rwlock"@ {
                Ok(UserPtr::RwLock)
            } else if last@ == "direct"@ {
                Ok(UserPtr::Direct)
            } else {
                Err(MetaError::Custom { message: "Unknown kind of embedding", at: 0 })
            },
            _ => Err(MetaError::Custom { message: "Expected an identifier", at: 0 }),
        }
    } else {
        Err(MetaError::TooFewItems(1))
    }
}

impl UserPtr {
    /// The embedding asked for by the bare word `user_ptr`: a `RefCell`.
    pub fn from_word() -> (r: Result<UserPtr, MetaError>)
        ensures
            r == Ok::<UserPtr, MetaError>(UserPtr::RefCell),
    {
        Ok(UserPtr::RefCell)
    }

    /// The embedding asked for by `user_ptr(kind)`: one of `refcell`, `mutex`,
    /// `rwlock` and `direct`.
    pub fn from_list(outer: &Vec<NestedItem>) -> (r: Result<UserPtr, MetaError>)
        ensures
            r == spec_user_ptr_from_list(outer@),
    {
        if outer.len() == 1 {
            match &outer[0] {
                NestedItem::Path { last } => {
                    let last = last.as_str();
                    if text_eq(last, "refcell") {
                        Ok(UserPtr::RefCell)
                    } else if text_eq(last, "mutex") {
                        Ok(UserPtr::Mutex)
                    } else if text_eq(last, "rwlock") {
                        Ok(UserPtr::RwLock)
                    } else if text_eq(last, "direct") {
                        Ok(UserPtr::Direct)
                    } else {
                        Err(MetaError::Custom { message: "Unknown kind of embedding", at: 0 })
                    }
                },
                _ => Err(MetaError::Custom { message: "Expected an identifier", at: 0 }),
            }
        } else {
            Err(MetaError::TooFewItems(1))
        }
    }
}

/// Whether `f` holds what checking the signature `sig` found.
pub open spec fn is_checked(sig: SignatureShape, f: LispFunc) -> bool {
    &&& f.params@ == sig_fold(sig.inputs@).params
    &&& f.arities == (sig_fold(sig.inputs@).nth as usize, sig_fold(sig.inputs@).nth as usize)
    &&& f.output == (if sig.has_output { OutputLoc::ReturnType } else { OutputLoc::FnToken })
}

/// The options of the `defun` attribute.
pub struct FuncOpts {
    /// How the return value is embedded in a `user-ptr`; `None` for no embedding.
    pub user_ptr: Option<UserPtr>,
    /// The name of the generated struct, if given.
    pub name: Option<String>,
}

/// A function marked for export to Lisp.
pub struct LispFunc {
    /// The name of the Rust function.
    pub ident: String,
    /// What each parameter receives.
    pub params: Vec<Param>,
    /// The function's minimum and maximum arity in Lisp.
    pub arities: (usize, usize),
    /// Where errors about the return value are reported.
    pub output: OutputLoc,
    pub opts: FuncOpts,
}

impl LispFunc {
    /// Takes in a function marked with `defun`, with its options, after
    /// checking its signature.
    pub fn parse(opts: FuncOpts, ident: String, sig: &SignatureShape) -> (r: Result<LispFunc, Vec<Report>>)
        ensures
            match r {
                Ok(f) => {
                    &&& signature_errors(*sig).len() == 0
                    &&& f.ident == ident
                    &&& f.opts == opts
                    &&& is_checked(*sig, f)
                },
                Err(errors) => signature_errors(*sig).len() > 0 && errors@ == signature_errors(*sig),
            },
    {
        match check_signature(sig) {
            Ok((params, arities, output)) => Ok(LispFunc { ident, params, arities, output, opts }),
            Err(errors) => Err(errors),
        }
    }
}

/// The upper-case mapping of a character, as Rust's `char::to_uppercase`
/// gives it (one character, or several for some letters).
pub uninterp spec fn char_uppercase(c: char) -> Seq<char>;

/// `char::to_uppercase`: its characters are the character's upper-case
/// mapping, a function of the character alone. Of that mapping only the ASCII
/// part is stated here: `a` to `z` become `A` to `Z`, and every other ASCII
/// character, having no upper-case mapping, stays as it is.
#[verifier::external_body]
fn uppercase(c: char) -> (r: Vec<char>)
    ensures
        r@ == char_uppercase(c),
        'a' <= c <= 'z' ==> r@ == seq![((c as u32) - 32) as char],
        (c as u32) < 128 && !('a' <= c <= 'z') ==> r@ == seq![c],
{
    c.to_uppercase().collect()
}

/// The ASCII upper case of a character: `a` to `z` become `A` to `Z`, every
/// other character stays as it is.
pub open spec fn ascii_upper(c: char) -> char {
    if 'a' <= c <= 'z' {
        ((c as u32) - 32) as char
    } else {
        c
    }
}

/// Whether every character of `s` is ASCII.
pub open spec fn is_ascii_text(s: Seq<char>) -> bool {
    forall|i: int| 0 <= i < s.len() ==> (#[trigger] s[i] as u32) < 128
}

/// `camel` of an ASCII identifier, with its upper-case mapping written out:
/// each `_` is dropped, and the character after it (and the first character)
/// is turned to ASCII upper case.
pub open spec fn camel_ascii(s: Seq<char>, upper: bool) -> Seq<char>
    decreases s.len(),
{
    if s.len() == 0 {
        seq![]
    } else if s[0] == '_' {
        camel_ascii(s.drop_first(), true)
    } else if upper {
        seq![ascii_upper(s[0])] + camel_ascii(s.drop_first(), false)
    } else {
        seq![s[0]] + camel_ascii(s.drop_first(), false)
    }
}

/// The name of the struct generated for a function: each `_` is dropped,
/// and the character after it (and the first character) is upper-cased.
pub open spec fn camel(s: Seq<char>, upper: bool) -> Seq<char>
    decreases s.len(),
{
    if s.len() == 0 {
        seq![]
    } else if s[0] == '_' {
        camel(s.drop_first(), true)
    } else if upper {
        char_uppercase(s[0]) + camel(s.drop_first(), false)
    } else {
        seq![s[0]] + camel(s.drop_first(), false)
    }
}

/// `camel`, with the upper-case mapping of each character `s[i]` given as
/// `ups[i]`.
pub open spec fn camel_with(s: Seq<char>, ups: Seq<Seq<char>>, upper: bool) -> Seq<char>
    decreases s.len(),
{
    if s.len() == 0 {
        seq![]
    } else if s[0] == '_' {
        camel_with(s.drop_first(), ups.drop_first(), true)
    } else if upper {
        ups[0] + camel_with(s.drop_first(), ups.drop_first(), false)
    } else {
        seq![s[0]] + camel_with(s.drop_first(), ups.drop_first(), false)
    }
}

/// The characters of each vector.
pub open spec fn char_views(v: Seq<Vec<char>>) -> Seq<Seq<char>> {
    v.map_values(|x: Vec<char>| x@)
}

proof fn lemma_camel_with(s: Seq<char>, ups: Seq<Seq<char>>, upper: bool)
    requires
        ups.len() == s.len(),
        forall|i: int| 0 <= i < s.len() ==> ups[i] == char_uppercase(s[i]),
    ensures
        camel_with(s, ups, upper) == camel(s, upper),
    decreases s.len(),
{
    if s.len() > 0 {
        assert forall|i: int| 0 <= i < s.len() - 1 implies ups.drop_first()[i] == char_uppercase(s.drop_first()[i]) by {
            assert(ups.drop_first()[i] == ups[i + 1]);
            assert(s.drop_first()[i] == s[i + 1]);
        }
        lemma_camel_with(s.drop_first(), ups.drop_first(), true);
        lemma_camel_with(s.drop_first(), ups.drop_first(), false);
    }
}

proof fn lemma_camel_with_ascii(s: Seq<char>, ups: Seq<Seq<char>>, upper: bool)
    requires
        ups.len() == s.len(),
        is_ascii_text(s),
        forall|i: int| 0 <= i < s.len() ==> ups[i] == seq![ascii_upper(s[i])],
    ensures
        camel_with(s, ups, upper) == camel_ascii(s, upper),
    decreases s.len(),
{
    if s.len() > 0 {
        assert forall|i: int| 0 <= i < s.len() - 1 implies ups.drop_first()[i] == seq![
            ascii_upper(s.drop_first()[i]),
        ] by {
            assert(ups.drop_first()[i] == ups[i + 1]);
            assert(s.drop_first()[i] == s[i + 1]);
        }
        assert forall|i: int| 0 <= i < s.drop_first().len() implies (#[trigger] s.drop_first()[i] as u32) < 128 by {
            assert(s.drop_first()[i] == s[i + 1]);
        }
        lemma_camel_with_ascii(s.drop_first(), ups.drop_first(), true);
        lemma_camel_with_ascii(s.drop_first(), ups.drop_first(), false);
    }
}

/// Joins the identifier `ident` into upper camel case, given the upper-case
/// mapping `uppers[i]` of each of its characters: each `_` is dropped, and the
/// character after it (and the first character) is replaced by its mapping.
pub fn camel_case(ident: &str, uppers: &Vec<Vec<char>>) -> (r: String)
    requires
        uppers@.len() == ident@.len(),
    ensures
        r@ == camel_with(ident@, char_views(uppers@), true),
{
    let n = ident.unicode_len();
    let ghost ups = char_views(uppers@);
    let mut buf = String::new();
    let mut next_upper = true;
    let mut i: usize = 0;
    assert(ident@.skip(0) =~= ident@);
    assert(ups.skip(0) =~= ups);
    assert(buf@ + camel_with(ident@, ups, true) =~= camel_with(ident@, ups, true));
    while i < n
        invariant
            n == ident@.len(),
            n == uppers@.len(),
            ups == char_views(uppers@),
            i <= n,
            buf@ + camel_with(ident@.skip(i as int), ups.skip(i as int), next_upper) == camel_with(ident@, ups, true),
        decreases n - i,
    {
        let ch = ident.get_char(i);
        let ghost rest = ident@.skip(i as int);
        let ghost rest_ups = ups.skip(i as int);
        assert(rest[0] == ch);
        assert(rest.drop_first() =~= ident@.skip(i + 1));
        assert(rest_ups.drop_first() =~= ups.skip(i + 1));
        assert(rest_ups[0] == uppers@[i as int]@);
        let ghost before = buf@;
        if ch == '_' {
            next_upper = true;
        } else if next_upper {
            push_chars(&mut buf, &uppers[i]);
            next_upper = false;
            assert(before + camel_with(rest, rest_ups, true) =~= buf@ + camel_with(
                ident@.skip(i + 1),
                ups.skip(i + 1),
                false,
            ));
        } else {
            crate::text::push_char(&mut buf, ch);
            assert(before + camel_with(rest, rest_ups, false) =~= buf@ + camel_with(
                ident@.skip(i + 1),
                ups.skip(i + 1),
                false,
            ));
        }
        i = i + 1;
    }
    assert(ident@.skip(n as int) =~= Seq::<char>::empty());
    assert(buf@ + Seq::<char>::empty() =~= buf@);
    buf
}

/// The name of the struct generated for the function named `ident`, in
/// upper camel case: `make_inc_and_plus` becomes `MakeIncAndPlus`.
pub fn wrapper_struct_name(ident: &str) -> (r: String)
    ensures
        r@ == camel(ident@, true),
        is_ascii_text(ident@) ==> r@ == camel_ascii(ident@, true),
{
    let n = ident.unicode_len();
    let mut uppers: Vec<Vec<char>> = Vec::new();
    let mut i: usize = 0;
    while i < n
        invariant
            n == ident@.len(),
            i <= n,
            uppers@.len() == i,
            forall|j: int| 0 <= j < i ==> #[trigger] uppers@[j]@ == char_uppercase(ident@[j]),
            forall|j: int| 0 <= j < i && (ident@[j] as u32) < 128 ==> #[trigger] uppers@[j]@ == seq![
                ascii_upper(ident@[j]),
            ],
        decreases n - i,
    {
        let c = ident.get_char(i);
        let up = uppercase(c);
        proof {
            if (c as u32) < 128 {
                if 'a' <= c <= 'z' {
                    assert(up@ == seq![ascii_upper(c)]);
                } else {
                    assert(up@ == seq![ascii_upper(c)]);
                }
            }
        }
        uppers.push(up);
        i = i + 1;
    }
    let r = camel_case(ident, &uppers);
    proof {
        let ups = char_views(uppers@);
        assert forall|j: int| 0 <= j < ident@.len() implies ups[j] == char_uppercase(ident@[j]) by {
            assert(ups[j] == uppers@[j]@);
        }
        lemma_camel_with(ident@, ups, true);
        if is_ascii_text(ident@) {
            assert forall|j: int| 0 <= j < ident@.len() implies ups[j] == seq![ascii_upper(ident@[j])] by {
                assert(ups[j] == uppers@[j]@);
                assert((ident@[j] as u32) < 128);
            }
            lemma_camel_with_ascii(ident@, ups, true);
        }
    }
    r
}

/// A local variable of the wrapper, holding one Lisp argument.
pub struct Binding {
    /// The variable's name.
    pub name: String,
    /// The index of the Lisp argument.
    pub nth: usize,
    pub access: Access,
    /// The position of the parameter in the signature.
    pub pos: usize,
}

/// An argument with which the wrapper calls the exported function.
pub enum CallArg {
    /// The environment.
    Env { pos: usize },
    /// The variable of this name.
    Bound { name: String, pos: usize },
}

/// What the wrapper of an exported function consists of.
pub struct WrapperPlan {
    /// The name of the generated struct.
    pub struct_name: String,
    /// The name of the exported function.
    pub inner: String,
    /// The variables that convert Lisp arguments, in order.
    pub bindings: Vec<Binding>,
    /// The arguments of the call of the exported function, in order.
    pub call_args: Vec<CallArg>,
    /// How the result is embedded in a `user-ptr`, if at all.
    pub embed: Option<UserPtr>,
    pub min_arity: usize,
    pub max_arity: usize,
}

/// The parameters that receive Lisp arguments, in order.
pub open spec fn value_params(ps: Seq<Param>) -> Seq<Param>
    decreases ps.len(),
{
    if ps.len() == 0 {
        seq![]
    } else if ps.last() is Val {
        value_params(ps.drop_last()).push(ps.last())
    } else {
        value_params(ps.drop_last())
    }
}

/// The name of the variable holding the `nth` Lisp argument.
pub open spec fn binding_name(nth: usize) -> Seq<char> {
    "arg"@ + decimal(nth as nat)
}

/// Whether `b` is the variable for the parameter `p`.
pub open spec fn binds(b: Binding, p: Param) -> bool {
    p matches Param::Val { pos, access, nth } && b.pos == pos && b.access == access && b.nth == nth
        && b.name@ == binding_name(nth)
}

/// Whether `a` passes what the parameter `p` receives.
pub open spec fn passes(a: CallArg, p: Param) -> bool {
    match p {
        Param::Env { pos } => a == CallArg::Env { pos },
        Param::Val { pos, nth, .. } => a matches CallArg::Bound { name, pos: q } && q == pos
            && name@ == binding_name(nth),
    }
}

/// Whether `plan` is the wrapper of `f`: named as `f` asks, calling `f` with
/// what each parameter receives, reading each Lisp argument into its own
/// variable, embedding as `f` asks, with `f`'s arities.
pub open spec fn is_wrapper_plan(f: LispFunc, plan: WrapperPlan) -> bool {
    &&& plan.struct_name@ == f.spec_struct_name()
    &&& plan.inner@ == f.ident@
    &&& plan.embed == f.opts.user_ptr
    &&& plan.min_arity == f.arities.0
    &&& plan.max_arity == f.arities.1
    &&& plan.call_args@.len() == f.params@.len()
    &&& forall|k: int| 0 <= k < f.params@.len() ==> passes(#[trigger] plan.call_args@[k], f.params@[k])
    &&& plan.bindings@.len() == value_params(f.params@).len()
    &&& forall|j: int| 0 <= j < plan.bindings@.len() ==> binds(#[trigger] plan.bindings@[j], value_params(f.params@)[j])
}

impl LispFunc {
    /// The name of the struct that stands for this function in Lisp: the one
    /// given in the options, or else the function's name in camel case.
    pub open spec fn spec_struct_name(&self) -> Seq<char> {
        match self.opts.name {
            Some(n) => n@,
            None => camel(self.ident@, true),
        }
    }

    /// Plans the wrapper that decodes the Lisp arguments, calls the function,
    /// embeds the result if asked to, and encodes it for Lisp.
    pub fn gen_wrapper(&self) -> (plan: WrapperPlan)
        ensures
            is_wrapper_plan(*self, plan),
            self.opts.name matches Some(n) ==> plan.struct_name@ == n@,
            self.opts.name is None ==> plan.struct_name@ == camel(self.ident@, true),
    {
        let n = self.params.len();
        let mut bindings: Vec<Binding> = Vec::new();
        let mut call_args: Vec<CallArg> = Vec::new();
        let mut k: usize = 0;
        while k < n
            invariant
                n == self.params@.len(),
                k <= n,
                call_args@.len() == k,
                forall|m: int| 0 <= m < k ==> passes(#[trigger] call_args@[m], self.params@[m]),
                bindings@.len() == value_params(self.params@.take(k as int)).len(),
                forall|j: int| 0 <= j < bindings@.len() ==> binds(#[trigger] bindings@[j], value_params(self.params@.take(k as int))[j]),
            decreases n - k,
        {
            let p = self.params[k];
            proof {
                assert(self.params@.take(k + 1).drop_last() =~= self.params@.take(k as int));
                assert(self.params@.take(k + 1).last() == p);
            }
            match p {
                Param::Env { pos } => {
                    call_args.push(CallArg::Env { pos });
                },
                Param::Val { pos, access, nth } => {
                    let name = arg("arg", nth);
                    let name2 = arg("arg", nth);
                    bindings.push(Binding { name, nth, access, pos });
                    call_args.push(CallArg::Bound { name: name2, pos });
                },
            }
            k = k + 1;
        }
        assert(self.params@.take(n as int) =~= self.params@);
        let struct_name = match &self.opts.name {
            Some(name) => name.clone(),
            None => wrapper_struct_name(self.ident.as_str()),
        };
        WrapperPlan {
            struct_name,
            inner: self.ident.clone(),
            bindings,
            call_args,
            embed: self.opts.user_ptr,
            min_arity: self.arities.0,
            max_arity: self.arities.1,
        }
    }
}

/// In any signature, the parameters that receive Lisp arguments receive them
/// in order: the `j`-th of them receives argument `j`, and there are as many
/// of them as the function's Lisp arity.
pub proof fn law_values_numbered_in_order(inputs: Seq<FnArgShape>)
    requires
        inputs.len() <= usize::MAX,
    ensures
        value_params(sig_fold(inputs).params).len() == sig_fold(inputs).nth,
        forall|j: int| 0 <= j < sig_fold(inputs).nth ==> (#[trigger] value_params(sig_fold(inputs).params)[j]
            matches Param::Val { nth, .. } && nth == j),
    decreases inputs.len(),
{
    if inputs.len() > 0 {
        let prev = inputs.drop_last();
        law_values_numbered_in_order(prev);
        lemma_fold_bounds(prev);
        let st = sig_fold(prev);
        let ps = sig_fold(inputs).params;
        match inputs.last() {
            FnArgShape::Receiver => {
                assert(ps == st.params);
            },
            FnArgShape::Typed(ty) => {
                assert(ps.drop_last() =~= st.params);
                if spec_is_env(ty) {
                    assert(value_params(ps) == value_params(st.params));
                } else {
                    assert(value_params(ps) == value_params(st.params).push(ps.last()));
                    assert(ps.last() == Param::Val {
                        pos: (inputs.len() - 1) as usize,
                        access: access_of(ty),
                        nth: st.nth as usize,
                    });
                    assert((st.nth as usize) as int == st.nth);
                }
            },
        }
    }
}

/// The wrapper of a function taken in by `parse` reads exactly as many Lisp
/// arguments as the function's arity, the `j`-th variable reading argument
/// `j` into the variable `argj`.
pub proof fn law_wrapper_reads_every_argument(sig: SignatureShape, f: LispFunc, plan: WrapperPlan)
    requires
        sig.inputs@.len() <= usize::MAX,
        is_checked(sig, f),
        is_wrapper_plan(f, plan),
    ensures
        plan.bindings@.len() == plan.min_arity,
        plan.min_arity == plan.max_arity,
        forall|j: int| 0 <= j < plan.bindings@.len() ==> (#[trigger] plan.bindings@[j]).nth == j
            && plan.bindings@[j].name@ == binding_name(j as usize),
{
    law_values_numbered_in_order(sig.inputs@);
    lemma_fold_bounds(sig.inputs@);
    let vp = value_params(f.params@);
    assert forall|j: int| 0 <= j < plan.bindings@.len() implies (#[trigger] plan.bindings@[j]).nth == j
        && plan.bindings@[j].name@ == binding_name(j as usize) by {
        assert(binds(plan.bindings@[j], vp[j]));
        assert(vp[j] matches Param::Val { nth, .. } && nth == j);
    }
}

/// An exported function is refused exactly when it takes `self`, takes the
/// environment by value, takes the environment more than once, or declares
/// no return type; otherwise its signature is accepted.
pub proof fn law_signature_refused_exactly(sig: SignatureShape)
    ensures
        (signature_errors(sig).len() > 0) == is_refused_signature(sig),
{
    lemma_fold_errors(sig.inputs@);
}

/// The wrapper of a function whose options give it a name is named exactly
/// that, whatever the function's identifier; without a name option it is
/// named after the identifier in upper camel case.
pub proof fn law_name_option_names_wrapper(f: LispFunc, plan: WrapperPlan)
    requires
        is_wrapper_plan(f, plan),
    ensures
        f.opts.name matches Some(n) ==> plan.struct_name@ == n@,
        f.opts.name is None ==> plan.struct_name@ == camel(f.ident@, true),
{
}

/// Whether `p` is what the parameter at its position in `inputs` receives:
/// the environment for a type naming it, and otherwise a Lisp argument whose
/// access is read off the parameter's own type: `&mut T` through a mutable
/// reference, `&T` through a shared one, anything else as an owned value.
pub open spec fn receives_by_type(inputs: Seq<FnArgShape>, p: Param) -> bool {
    match p {
        Param::Env { pos } => pos < inputs.len() && (inputs[pos as int] matches FnArgShape::Typed(ty) && spec_is_env(ty)),
        Param::Val { pos, access, .. } => pos < inputs.len() && match inputs[pos as int] {
            FnArgShape::Typed(ty) => !spec_is_env(ty) && match ty {
                TypeShape::Reference { mutable, .. } => if mutable {
                    access == Access::RefMut
                } else {
                    access == Access::Ref
                },
                _ => access == Access::Owned,
            },
            FnArgShape::Receiver => false,
        },
    }
}

/// Whether some parameter received is a Lisp argument taken from position `k`.
pub open spec fn has_val_at(ps: Seq<Param>, k: int) -> bool {
    exists|j: int| 0 <= j < ps.len() && (#[trigger] ps[j] matches Param::Val { pos, .. } && pos == k)
}

proof fn lemma_receives_extend(inputs: Seq<FnArgShape>, p: Param)
    requires
        inputs.len() > 0,
        receives_by_type(inputs.drop_last(), p),
    ensures
        receives_by_type(inputs, p),
{
    match p {
        Param::Env { pos } => {
            assert(inputs.drop_last()[pos as int] == inputs[pos as int]);
        },
        Param::Val { pos, .. } => {
            assert(inputs.drop_last()[pos as int] == inputs[pos as int]);
        },
    }
}

/// In any signature, what each parameter receives is read off that
/// parameter's own type, whatever the other parameters are and wherever the
/// environment is: a `&mut` parameter is reached through a mutable
/// reference, a `&` parameter through a shared one, and any other parameter
/// is an owned value; every typed parameter that is not the environment
/// receives a Lisp argument.
pub proof fn law_param_access_follows_type(inputs: Seq<FnArgShape>)
    requires
        inputs.len() <= usize::MAX,
    ensures
        forall|j: int|
            0 <= j < sig_fold(inputs).params.len() ==> receives_by_type(inputs, #[trigger] sig_fold(inputs).params[j]),
        forall|k: int|
            0 <= k < inputs.len() && (#[trigger] inputs[k] matches FnArgShape::Typed(ty) && !spec_is_env(ty))
                ==> has_val_at(sig_fold(inputs).params, k),
    decreases inputs.len(),
{
    if inputs.len() > 0 {
        let prev_in = inputs.drop_last();
        law_param_access_follows_type(prev_in);
        let prev = sig_fold(prev_in).params;
        let ps = sig_fold(inputs).params;
        let n = inputs.len() - 1;
        assert forall|k: int| 0 <= k < n implies prev_in[k] == inputs[k] by {}
        match inputs.last() {
            FnArgShape::Receiver => {
                assert(ps == prev);
                assert forall|j: int| 0 <= j < ps.len() implies receives_by_type(inputs, #[trigger] ps[j]) by {
                    lemma_receives_extend(inputs, prev[j]);
                }
                assert forall|k: int|
                    0 <= k < inputs.len() && (#[trigger] inputs[k] matches FnArgShape::Typed(ty) && !spec_is_env(ty))
                    implies has_val_at(ps, k) by {
                    assert(k < n);
                    assert(prev_in[k] == inputs[k]);
                }
            },
            FnArgShape::Typed(ty) => {
                assert(ps.drop_last() =~= prev);
                assert(ps.len() == prev.len() + 1);
                assert forall|j: int| 0 <= j < ps.len() implies receives_by_type(inputs, #[trigger] ps[j]) by {
                    if j < prev.len() {
                        assert(ps[j] == prev[j]);
                        lemma_receives_extend(inputs, prev[j]);
                    } else {
                        assert(inputs[n] == inputs.last());
                        assert((n as usize) as int == n);
                    }
                }
                assert forall|k: int|
                    0 <= k < inputs.len() && (#[trigger] inputs[k] matches FnArgShape::Typed(t) && !spec_is_env(t))
                    implies has_val_at(ps, k) by {
                    if k < n {
                        assert(prev_in[k] == inputs[k]);
                        assert(has_val_at(prev, k));
                        let j = choose|j: int| 0 <= j < prev.len() && (#[trigger] prev[j] matches Param::Val { pos, .. } && pos == k);
                        assert(ps[j] == prev[j]);
                    } else {
                        assert(inputs[n] == inputs.last());
                        assert((n as usize) as int == n);
                        assert(ps[prev.len() as int] matches Param::Val { pos, .. } && pos == k);
                    }
                }
            },
        }
    }
}

} // verus!
