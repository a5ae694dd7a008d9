use java_bindgen_macro::signature::produce_fn_java_args_signature_lexed;
use java_bindgen_macro::signature::produce_fn_java_args_signature;
use java_bindgen_macro::tokens::{CompileErrors, Segment};
use java_bindgen_macro::types::{
    extract_jni_env_lifetime, is_bool_type, lifetime_from_type, FnArgModel, GenericArg, PathArgs,
    TypeModel, TypeShape, TypedArg,
};

fn path_with_lifetime(lt: &str) -> TypeShape {
    TypeShape::Path(vec![PathArgs::AngleBracketed(vec![GenericArg::Lifetime(lt.to_string())])])
}

fn env_ref(pat: &str, text: &str, lt: &str) -> FnArgModel {
    FnArgModel::Typed(TypedArg {
        pat: pat.to_string(),
        ty: TypeModel {
            text: text.to_string(),
            shape: TypeShape::Reference(Box::new(path_with_lifetime(lt))),
        },
        jni_ty: None,
    })
}

fn plain(pat: &str, text: &str, jni: Option<&str>) -> FnArgModel {
    FnArgModel::Typed(TypedArg {
        pat: pat.to_string(),
        ty: TypeModel { text: text.to_string(), shape: TypeShape::Other },
        jni_ty: jni.map(|s| s.to_string()),
    })
}

fn error_messages(e: CompileErrors) -> Vec<String> {
    e.into_tokens()
        .segments
        .into_iter()
        .map(|s| match s {
            Segment::CompileError(site, m) => format!("{site:?}:{m}"),
            _ => "other".to_string(),
        })
        .collect()
}

#[test]
fn bool_types() {
    assert!(is_bool_type("bool"));
    assert!(is_bool_type("Option < bool >"));
    assert!(!is_bool_type("u8"));
    assert!(!is_bool_type("Option < Option < bool > >"));
    assert!(!is_bool_type("std :: primitive :: bool"));
}

#[test]
fn lifetime_of_path_type() {
    assert_eq!(lifetime_from_type(&path_with_lifetime("'a")), Some("<'a>".to_string()));
    let shape = TypeShape::Path(vec![
        PathArgs::NoArgs,
        PathArgs::Parenthesized,
        PathArgs::AngleBracketed(vec![
            GenericArg::Other,
            GenericArg::Lifetime("'b".to_string()),
            GenericArg::Lifetime("'c".to_string()),
        ]),
    ]);
    assert_eq!(lifetime_from_type(&shape), Some("<'b>".to_string()));
}

#[test]
fn lifetime_of_other_types() {
    assert_eq!(lifetime_from_type(&TypeShape::Other), None);
    assert_eq!(
        lifetime_from_type(&TypeShape::Reference(Box::new(path_with_lifetime("'a")))),
        None
    );
    let no_lt = TypeShape::Path(vec![PathArgs::AngleBracketed(vec![GenericArg::Other])]);
    assert_eq!(lifetime_from_type(&no_lt), None);
}

#[test]
fn env_lifetime_from_reference() {
    let mut errors = CompileErrors::default();
    let inputs = vec![
        plain("x", "i32", None),
        env_ref("env", "& mut JNIEnv < 'local >", "'local"),
        env_ref("other", "& mut JNIEnv < 'b >", "'b"),
    ];
    assert_eq!(extract_jni_env_lifetime(&inputs, &mut errors), Some("<'local>".to_string()));
    assert!(error_messages(errors).is_empty());
}

#[test]
fn env_lifetime_needs_reference() {
    let mut errors = CompileErrors::default();
    let by_value = FnArgModel::Typed(TypedArg {
        pat: "env".to_string(),
        ty: TypeModel { text: "JNIEnv < 'a >".to_string(), shape: path_with_lifetime("'a") },
        jni_ty: None,
    });
    assert_eq!(extract_jni_env_lifetime(&[by_value], &mut errors), None);
    let not_env = env_ref("s", "& str", "'a");
    assert_eq!(extract_jni_env_lifetime(&[not_env], &mut errors), None);
}

#[test]
fn signature_with_env_class_and_args() {
    let mut errors = CompileErrors::default();
    let inputs = vec![
        env_ref("env", "& mut JNIEnv < 'a >", "'a"),
        plain("_class", "JClass < 'a >", None),
        plain("name", "String", Some("JString < 'a >")),
        plain("n", "i32", None),
    ];
    let sig = produce_fn_java_args_signature(&inputs, &mut errors);
    assert_eq!(
        sig.args,
        "mut env : JNIEnv<'a>, _class : JClass < 'a > , name : JString < 'a > , n : i32"
    );
    assert_eq!(sig.env_indent, "env");
    assert_eq!(sig.class_indent, "_class");
    assert_eq!(sig.into_rust_ident, vec!["name".to_string()]);
    assert_eq!(sig.jni_env_lifetime, "<'a>");
    assert!(error_messages(errors).is_empty());
    let parsed = syn::parse_str::<syn::ItemFn>(&format!("fn f<'a>({}) {{}}", sig.args));
    assert!(parsed.is_ok());
}

#[test]
fn signature_defaults_without_env() {
    let mut errors = CompileErrors::default();
    let sig = produce_fn_java_args_signature(&[plain("x", "u8", None)], &mut errors);
    assert_eq!(sig.args, "mut env : JNIEnv <'l>, _classs : JClass <'l> , x : u8");
    assert_eq!(sig.env_indent, "env");
    assert_eq!(sig.class_indent, "_classs");
    assert!(sig.into_rust_ident.is_empty());
    assert_eq!(sig.jni_env_lifetime, "<'l>");
}

#[test]
fn signature_wildcard_patterns_are_named_by_position() {
    let mut errors = CompileErrors::default();
    let inputs = vec![
        plain("a", "u8", None),
        env_ref("_", "& mut JNIEnv < 'e >", "'e"),
        plain("_", "JClass < 'e >", None),
    ];
    let sig = produce_fn_java_args_signature(&inputs, &mut errors);
    assert_eq!(sig.env_indent, "arg1");
    assert_eq!(sig.class_indent, "arg2");
    assert_eq!(sig.args, "mut arg1 : JNIEnv<'e>, arg2 : JClass < 'e > , a : u8");
}

#[test]
fn signature_reports_self_and_shared_env() {
    let mut errors = CompileErrors::default();
    errors.add("earlier".to_string());
    let inputs = vec![
        FnArgModel::Receiver,
        env_ref("env", "& JNIEnv < 'a >", "'a"),
        plain("x", "u8", None),
    ];
    let sig = produce_fn_java_args_signature(&inputs, &mut errors);
    assert_eq!(
        error_messages(errors),
        vec![
            "CallSite:[java-bindgen]\nearlier\n".to_string(),
            "Span(0):[java-bindgen]\n'self' parameter is not supported. Use functions for defining java bindings.\n".to_string(),
            "Span(1):[java-bindgen]\n'JNIEnv' must be declared as mutable reference: &mut JNIEnv<'a>\n".to_string(),
        ]
    );
    assert_eq!(sig.args, "mut env : &JNIEnv<'a>, _classs : JClass <'a> self ,  , x : u8");
}

#[test]
fn signature_self_repeats_earlier_args() {
    let mut errors = CompileErrors::default();
    let inputs = vec![plain("x", "u8", None), FnArgModel::Receiver];
    let sig = produce_fn_java_args_signature(&inputs, &mut errors);
    assert_eq!(sig.args, "mut env : JNIEnv <'l>, _classs : JClass <'l> , x : u8 self ,  , x : u8");
}

#[test]
fn signature_with_rejected_env_type() {
    let mut errors = CompileErrors::default();
    let inputs = vec![env_ref("env", "& mut JNIEnv < 'a >", "'a"), plain("n", "i32", None)];
    let sig = produce_fn_java_args_signature_lexed(&inputs, &[false, true], &mut errors);
    assert_eq!(sig.args, "mut env : /* Error */, _classs : JClass <'a> , n : i32");
    let accepted = produce_fn_java_args_signature_lexed(&inputs, &[true, false], &mut errors);
    assert_eq!(accepted.args, "mut env : JNIEnv<'a>, _classs : JClass <'a> , n : i32");
}
