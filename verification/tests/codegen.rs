use rem::codegen::func::{
    camel_case, check_signature, is_env, wrapper_struct_name, Access, CallArg, FnArgShape, FuncOpts, LispFunc, Location,
    OutputLoc, Param, SignatureShape, TypeShape, UserPtr,
};
use rem::codegen::module::{crate_feature_name, Feature, Module, ModuleOpts, Name};
use rem::codegen::util::{arg, lisp_name, unraw, MetaError, NestedItem};
use rem::text::decimal_string;

fn path(text: &str) -> TypeShape {
    TypeShape::Path { qself: false, text: text.to_string() }
}

fn reference(mutable: bool, elem: TypeShape) -> TypeShape {
    TypeShape::Reference { mutable, elem: Box::new(elem) }
}

fn item_path(last: &str) -> NestedItem {
    NestedItem::Path { last: last.to_string() }
}

#[test]
fn decimal_numerals() {
    assert_eq!(decimal_string(0), "0");
    assert_eq!(decimal_string(7), "7");
    assert_eq!(decimal_string(10), "10");
    assert_eq!(decimal_string(1234567), "1234567");
    assert_eq!(decimal_string(usize::MAX), usize::MAX.to_string());
}

#[test]
fn lisp_names_replace_underscores() {
    assert_eq!(lisp_name("rs_module_helper"), "rs-module-helper");
    assert_eq!(lisp_name("plain"), "plain");
    assert_eq!(lisp_name("__x__"), "--x--");
}

#[test]
fn lisp_names_drop_raw_marker() {
    assert_eq!(unraw("r#match"), "match");
    assert_eq!(unraw("r#"), "");
    assert_eq!(unraw("rust"), "rust");
    assert_eq!(lisp_name("r#match_it"), "match-it");
    assert_eq!(lisp_name("x#y"), "x#y");
}

#[test]
fn argument_binding_names() {
    assert_eq!(arg("arg", 0), "arg0");
    assert_eq!(arg("arg", 12), "arg12");
    assert_eq!(arg("", 305), "305");
}

#[test]
fn wrapper_names_are_camel_case() {
    assert_eq!(wrapper_struct_name("make_inc_and_plus"), "MakeIncAndPlus");
    assert_eq!(wrapper_struct_name("to_uppercase"), "ToUppercase");
    assert_eq!(wrapper_struct_name("inc"), "Inc");
    assert_eq!(wrapper_struct_name("__a__b"), "AB");
    assert_eq!(wrapper_struct_name(""), "");
    assert_eq!(wrapper_struct_name("x1_2y"), "X12y");
}

#[test]
fn wrapper_names_use_full_uppercase_mapping() {
    // 'ß' upper-cases to two characters.
    assert_eq!(wrapper_struct_name("ßa_ß"), "SSaSS");
    assert_eq!(wrapper_struct_name("é_ü"), "ÉÜ");
}

#[test]
fn env_types_are_recognised() {
    assert!(is_env(&path("Env")));
    assert!(is_env(&path("rem :: Env")));
    assert!(is_env(&reference(false, path("Env"))));
    assert!(is_env(&reference(true, reference(false, path("CallEnv")))));
    assert!(!is_env(&TypeShape::Path { qself: true, text: "Env".to_string() }));
    assert!(!is_env(&path("Environment")));
    assert!(!is_env(&path("En")));
    assert!(!is_env(&TypeShape::Other));
}

#[test]
fn signature_with_env_and_values() {
    let sig = SignatureShape {
        inputs: vec![
            FnArgShape::Typed(reference(false, path("Env"))),
            FnArgShape::Typed(path("i64")),
            FnArgShape::Typed(reference(true, path("Vec < u8 >"))),
            FnArgShape::Typed(reference(false, path("String"))),
        ],
        has_output: true,
    };
    let (params, arities, out) = check_signature(&sig).ok().unwrap();
    assert_eq!(
        params,
        vec![
            Param::Env { pos: 0 },
            Param::Val { pos: 1, access: Access::Owned, nth: 0 },
            Param::Val { pos: 2, access: Access::RefMut, nth: 1 },
            Param::Val { pos: 3, access: Access::Ref, nth: 2 },
        ]
    );
    assert_eq!(arities, (3, 3));
    assert_eq!(out, OutputLoc::ReturnType);
}

#[test]
fn signature_without_parameters() {
    let sig = SignatureShape { inputs: vec![], has_output: true };
    let (params, arities, _) = check_signature(&sig).ok().unwrap();
    assert!(params.is_empty());
    assert_eq!(arities, (0, 0));
}

#[test]
fn signature_errors_in_order() {
    let sig = SignatureShape {
        inputs: vec![
            FnArgShape::Typed(path("Env")),
            FnArgShape::Receiver,
            FnArgShape::Typed(reference(false, path("Env"))),
            FnArgShape::Typed(path("u8")),
        ],
        has_output: false,
    };
    let errors = check_signature(&sig).err().unwrap();
    let got: Vec<(Location, &str)> = errors.iter().map(|r| (r.at, r.message)).collect();
    assert_eq!(
        got,
        vec![
            (Location::Input(0), "Can only take an &Env, not an Env"),
            (Location::Input(1), "Cannot take self argument"),
            (Location::Input(2), "&Env must be passed only once"),
            (Location::FnToken, "Must return rem::Result<T> where T: IntoLisp<'_>"),
        ]
    );
}

#[test]
fn signature_missing_return_type_only() {
    let sig = SignatureShape { inputs: vec![FnArgShape::Typed(path("i64"))], has_output: false };
    let errors = check_signature(&sig).err().unwrap();
    assert_eq!(errors.len(), 1);
    assert_eq!(errors[0].at, Location::FnToken);
}

#[test]
fn user_ptr_options() {
    assert_eq!(UserPtr::from_word().ok(), Some(UserPtr::RefCell));
    assert_eq!(UserPtr::from_list(&vec![item_path("refcell")]).ok(), Some(UserPtr::RefCell));
    assert_eq!(UserPtr::from_list(&vec![item_path("mutex")]).ok(), Some(UserPtr::Mutex));
    assert_eq!(UserPtr::from_list(&vec![item_path("rwlock")]).ok(), Some(UserPtr::RwLock));
    assert_eq!(UserPtr::from_list(&vec![item_path("direct")]).ok(), Some(UserPtr::Direct));
}

#[test]
fn user_ptr_option_errors() {
    assert!(matches!(
        UserPtr::from_list(&vec![item_path("box")]),
        Err(MetaError::Custom { message: "Unknown kind of embedding", at: 0 })
    ));
    assert!(matches!(
        UserPtr::from_list(&vec![NestedItem::Str("direct".to_string())]),
        Err(MetaError::Custom { message: "Expected an identifier", at: 0 })
    ));
    assert!(matches!(UserPtr::from_list(&vec![]), Err(MetaError::TooFewItems(1))));
    assert!(matches!(
        UserPtr::from_list(&vec![item_path("mutex"), item_path("rwlock")]),
        Err(MetaError::TooFewItems(1))
    ));
}

#[test]
fn module_name_options() {
    assert!(matches!(Name::from_list(&vec![item_path("fn")]), Ok(Name::Fn)));
    assert!(matches!(Name::from_list(&vec![item_path("crate")]), Ok(Name::Crate)));
    match Name::from_list(&vec![NestedItem::Str("foo".to_string())]) {
        Ok(Name::Str(s)) => assert_eq!(s, "foo"),
        _ => panic!("expected a string name"),
    }
    match Name::from_string("bar") {
        Ok(Name::Str(s)) => assert_eq!(s, "bar"),
        _ => panic!("expected a string name"),
    }
    assert!(matches!(Name::default(), Name::Crate));
}

#[test]
fn module_name_option_errors() {
    assert!(matches!(Name::from_list(&vec![]), Err(MetaError::TooFewItems(1))));
    assert!(matches!(
        Name::from_list(&vec![item_path("fn"), item_path("crate")]),
        Err(MetaError::TooManyItems(1))
    ));
    assert!(matches!(
        Name::from_list(&vec![item_path("self")]),
        Err(MetaError::Custom { message: "Expected crate/fn", at: 0 })
    ));
    assert!(matches!(
        Name::from_list(&vec![NestedItem::Other]),
        Err(MetaError::Custom { message: "Expected crate/fn or a string", at: 0 })
    ));
}

#[test]
fn features_from_crate_paths() {
    assert_eq!(crate_feature_name("test_module::foo::bar"), "test-module");
    assert_eq!(crate_feature_name("greeting"), "greeting");
    assert_eq!(crate_feature_name("my_crate"), "my-crate");
    assert_eq!(crate_feature_name(""), "");
    assert_eq!(crate_feature_name("::a"), "");
}

#[test]
fn module_features() {
    let m = Module::parse(ModuleOpts { name: Name::Fn }, "rs_module_helper".to_string());
    match m.feature() {
        Feature::Literal(s) => assert_eq!(s, "rs-module-helper"),
        Feature::CratePath => panic!("expected a literal feature"),
    }
    let m = Module::parse(ModuleOpts { name: Name::Str("foo".to_string()) }, "init".to_string());
    match m.feature() {
        Feature::Literal(s) => assert_eq!(s, "foo"),
        Feature::CratePath => panic!("expected a literal feature"),
    }
    let m = Module::parse(ModuleOpts { name: Name::Crate }, "init".to_string());
    assert!(matches!(m.feature(), Feature::CratePath));
}

#[test]
fn wrapper_plan_of_exported_function() {
    let sig = SignatureShape {
        inputs: vec![
            FnArgShape::Typed(path("i64")),
            FnArgShape::Typed(reference(false, path("Env"))),
            FnArgShape::Typed(reference(true, path("i64"))),
        ],
        has_output: true,
    };
    let opts = FuncOpts { user_ptr: Some(UserPtr::Direct), name: None };
    let f = LispFunc::parse(opts, "scale_mutably".to_string(), &sig).ok().unwrap();
    let plan = f.gen_wrapper();
    assert_eq!(plan.struct_name, "ScaleMutably");
    assert_eq!(plan.inner, "scale_mutably");
    assert_eq!(plan.min_arity, 2);
    assert_eq!(plan.max_arity, 2);
    assert_eq!(plan.embed, Some(UserPtr::Direct));
    let bindings: Vec<(String, usize, Access, usize)> =
        plan.bindings.iter().map(|b| (b.name.clone(), b.nth, b.access, b.pos)).collect();
    assert_eq!(
        bindings,
        vec![("arg0".to_string(), 0, Access::Owned, 0), ("arg1".to_string(), 1, Access::RefMut, 2)]
    );
    assert_eq!(plan.call_args.len(), 3);
    assert!(matches!(&plan.call_args[0], CallArg::Bound { name, pos: 0 } if name == "arg0"));
    assert!(matches!(&plan.call_args[1], CallArg::Env { pos: 1 }));
    assert!(matches!(&plan.call_args[2], CallArg::Bound { name, pos: 2 } if name == "arg1"));
}

#[test]
fn wrapper_plan_uses_given_name() {
    let sig = SignatureShape { inputs: vec![], has_output: true };
    let opts = FuncOpts { user_ptr: None, name: Some("Match".to_string()) };
    let f = LispFunc::parse(opts, "r#match".to_string(), &sig).ok().unwrap();
    let plan = f.gen_wrapper();
    assert_eq!(plan.struct_name, "Match");
    assert_eq!(plan.inner, "r#match");
    assert!(plan.bindings.is_empty());
    assert!(plan.call_args.is_empty());
    assert_eq!(plan.embed, None);
}

#[test]
fn parse_rejects_bad_signature() {
    let sig = SignatureShape { inputs: vec![FnArgShape::Receiver], has_output: true };
    let opts = FuncOpts { user_ptr: None, name: None };
    let errors = LispFunc::parse(opts, "f".to_string(), &sig).err().unwrap();
    assert_eq!(errors.len(), 1);
    assert_eq!(errors[0].message, "Cannot take self argument");
}

#[test]
fn lisp_name_keeps_length_without_underscores() {
    let name = lisp_name("r#a_b__c_");
    assert_eq!(name, "a-b--c-");
    assert_eq!(name.chars().count(), "a_b__c_".chars().count());
    assert!(!name.contains('_'));
}

#[test]
fn crate_feature_has_one_segment() {
    let f = crate_feature_name("my_dyn_module::inner::deeper");
    assert_eq!(f, "my-dyn-module");
    assert!(!f.contains(':') && !f.contains('_'));
}

#[test]
fn camel_case_uses_given_mappings() {
    // Every character's mapping is given; only those after `_` (and the first) are used.
    let uppers = vec![vec!['<', 'a'], vec!['?'], vec!['?'], vec!['!']];
    assert_eq!(camel_case("ab_c", &uppers), "<ab!");
    let uppers: Vec<Vec<char>> = vec![vec![], vec!['Y']];
    assert_eq!(camel_case("x_", &uppers), "");
}

#[test]
fn ascii_wrapper_names() {
    assert_eq!(wrapper_struct_name("say_hello"), "SayHello");
    assert_eq!(wrapper_struct_name("a_1_b"), "A1B");
    assert_eq!(wrapper_struct_name("Already_Up"), "AlreadyUp");
}

#[test]
fn signature_refused_for_each_reason() {
    let env_ref = || FnArgShape::Typed(reference(false, path("Env")));
    let ok = SignatureShape { inputs: vec![env_ref(), FnArgShape::Typed(path("i64"))], has_output: true };
    assert!(check_signature(&ok).is_ok());
    let with_self = SignatureShape { inputs: vec![FnArgShape::Receiver], has_output: true };
    assert_eq!(check_signature(&with_self).err().unwrap().len(), 1);
    let env_by_value = SignatureShape { inputs: vec![FnArgShape::Typed(path("rem::Env"))], has_output: true };
    assert_eq!(check_signature(&env_by_value).err().unwrap().len(), 1);
    let env_twice = SignatureShape { inputs: vec![env_ref(), env_ref()], has_output: true };
    assert_eq!(check_signature(&env_twice).err().unwrap().len(), 1);
    let no_output = SignatureShape { inputs: vec![], has_output: false };
    assert_eq!(check_signature(&no_output).err().unwrap().len(), 1);
}
