use java_bindgen_macro::bindgen::{
    bindgen_output, bindgen_toml_error, jni_return_type, native_method_sig, ReturnKind,
};
use java_bindgen_macro::project::{parse_project_toml, project_dir_from, ProjectToml};
use java_bindgen_macro::signature::JavaFnSig;
use java_bindgen_macro::tokens::{CompileErrors, Segment, Site};

fn sig() -> JavaFnSig {
    JavaFnSig {
        args: "mut env : JNIEnv<'a>, _class : JClass<'a> , name : JString<'a>".to_string(),
        env_indent: "env".to_string(),
        class_indent: "_class".to_string(),
        into_rust_ident: vec!["name".to_string()],
        jni_env_lifetime: "<'a>".to_string(),
    }
}

#[test]
fn native_method_declaration() {
    let args = vec!["int a".to_string(), "String b".to_string()];
    assert_eq!(native_method_sig("String", "hello", &args), "public static native String hello(int a,String b)");
    assert_eq!(native_method_sig("void", "run", &[]), "public static native void run()");
}

#[test]
fn jni_return_type_choices() {
    assert_eq!(jni_return_type(Some("jint".to_string()), true, "i32", "<'a>"), "jint");
    assert_eq!(jni_return_type(None, true, "User", "<'a>"), "jni::objects::JObject <'a>");
    assert_eq!(jni_return_type(None, false, "()", "<'a>"), "()");
}

#[test]
fn bindgen_function_text() {
    let errors = CompileErrors::default();
    let t = bindgen_output(
        &errors,
        &sig(),
        "Java_com_example_Lib_greet",
        "greet",
        "env , name",
        "JString<'a>",
        ReturnKind::JResult,
    );
    assert_eq!(t.segments.len(), 3);
    assert!(matches!(&t.segments[0], Segment::Code(c) if c == "#[allow(non_snake_case)]"));
    assert!(matches!(&t.segments[1], Segment::Input));
    let code = match &t.segments[2] {
        Segment::Code(c) => c.clone(),
        _ => panic!("no code"),
    };
    assert_eq!(
        code,
        "#[no_mangle] #[allow(unused_mut, non_snake_case, unused_variables)] pub extern \"system\" fn \
Java_com_example_Lib_greet<'a>(mut env : JNIEnv<'a>, _class : JClass<'a> , name : JString<'a>) -> JString<'a> { \
let Ok(name) = name.into_rust(&mut env) else { return Default::default() }; \
let r = greet(env , name); java_bindgen::exception::j_result_handler(r, &mut env) }"
    );
    assert!(syn::parse_str::<syn::File>(&code).is_ok());
}

#[test]
fn bindgen_return_handlers() {
    let errors = CompileErrors::default();
    let opt = bindgen_output(&errors, &sig(), "f", "g", "", "()", ReturnKind::Optional);
    let plain = bindgen_output(&errors, &sig(), "f", "g", "", "()", ReturnKind::Plain);
    let text = |t: &java_bindgen_macro::tokens::Tokens| match &t.segments[2] {
        Segment::Code(c) => c.clone(),
        _ => String::new(),
    };
    assert!(text(&opt).ends_with("java_bindgen::exception::option_handler(r, &mut env) }"));
    assert!(text(&plain).ends_with("let r = g(); Default::default() }"));
}

#[test]
fn bindgen_errors_come_first() {
    let mut errors = CompileErrors::default();
    errors.add("e1".to_string());
    let t = bindgen_output(&errors, &sig(), "f", "g", "", "()", ReturnKind::Plain);
    assert_eq!(t.segments.len(), 4);
    assert!(matches!(&t.segments[0], Segment::CompileError(Site::CallSite, m) if m == "[java-bindgen]\ne1\n"));
}

#[test]
fn bindgen_toml_error_keeps_item() {
    let t = bindgen_toml_error("no toml".to_string());
    assert!(matches!(&t.segments[0], Segment::Input));
    assert!(matches!(&t.segments[1], Segment::CompileError(Site::Item, m) if m == "no toml"));
}

fn toml(meta: bool, package: bool) -> Result<ProjectToml<u32>, String> {
    Ok(ProjectToml { toml: 7, has_java_bindgen: meta, has_package: package, path: "/p/Cargo.toml".to_string() })
}

#[test]
fn project_toml_accepted() {
    assert_eq!(parse_project_toml(toml(true, true)), Ok(7));
}

#[test]
fn project_toml_without_metadata() {
    assert_eq!(
        parse_project_toml(toml(false, true)),
        Err("Add java-bindgen metadata in your Cargo.toml file. \n\nExample:\n[package.metadata.java-bindgen]\npackage = \"com.java.package\"\n\n\nfile:/p/Cargo.toml".to_string())
    );
}

#[test]
fn project_toml_without_package() {
    assert_eq!(
        parse_project_toml(toml(true, false)),
        Err("Add: package = \"com.java.package\" in your Cargo.toml file.\n\nExample:\n[package.metadata.java-bindgen]\npackage = \"com.java.package\"\n\n".to_string())
    );
}

#[test]
fn project_toml_read_error() {
    let r: Result<ProjectToml<u32>, String> = Err("not found".to_string());
    assert_eq!(parse_project_toml(r), Err("not found".to_string()));
}

#[test]
fn project_dir_default() {
    assert_eq!(project_dir_from(None), ".");
    assert_eq!(project_dir_from(Some("/work".to_string())), "/work");
}
