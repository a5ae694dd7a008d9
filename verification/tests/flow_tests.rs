use java_bindgen_macro::bindgen::ReturnKind;
use java_bindgen_macro::derive::FieldModel;
use java_bindgen_macro::flow::{
    bindgen_expansion, derive_expansion, derive_into_rust_expansion, derive_jlogger_expansion,
    DeriveKind,
};
use java_bindgen_macro::project::ProjectToml;
use java_bindgen_macro::tokens::{CompileErrors, Segment, Site, Tokens};
use java_bindgen_macro::types::{FnArgModel, TypeModel, TypeShape, TypedArg};

fn good_toml() -> Result<ProjectToml<()>, String> {
    Ok(ProjectToml { toml: (), has_java_bindgen: true, has_package: true, path: "Cargo.toml".to_string() })
}

fn fields() -> Vec<FieldModel> {
    vec![FieldModel { name: "id".to_string(), ty: "u32".to_string() }]
}

fn kinds(t: &Tokens) -> Vec<String> {
    t.segments
        .iter()
        .map(|s| match s {
            Segment::Code(_) => "code".to_string(),
            Segment::CompileError(site, m) => format!("error:{site:?}:{m}"),
            Segment::Input => "input".to_string(),
        })
        .collect()
}

#[test]
fn into_rust_flow() {
    let e = derive_into_rust_expansion(false, true, true, "S", &fields(), CompileErrors::default());
    assert_eq!(kinds(&e.tokens), vec!["input".to_string()]);
    assert!(!e.register_class);
    let e = derive_into_rust_expansion(true, false, true, "S", &fields(), CompileErrors::default());
    assert_eq!(kinds(&e.tokens), vec!["error:CallSite:[java-bindgen]\nOnly struct is allowed.\n".to_string()]);
    let mut errors = CompileErrors::default();
    errors.add("bad field".to_string());
    let e = derive_into_rust_expansion(true, true, false, "S", &fields(), errors);
    assert_eq!(kinds(&e.tokens), vec!["error:CallSite:[java-bindgen]\nbad field\n".to_string()]);
    let e = derive_into_rust_expansion(true, true, true, "S", &fields(), CompileErrors::default());
    assert_eq!(kinds(&e.tokens), vec!["code".to_string()]);
    assert!(e.register_class);
}

#[test]
fn derive_flow_stops_at_manifest() {
    let toml: Result<ProjectToml<()>, String> = Err("missing".to_string());
    let e = derive_expansion(DeriveKind::IntoJava, true, true, toml, true, "\"C\"", "S", "", "", &fields(), CompileErrors::default());
    assert_eq!(kinds(&e.tokens), vec!["error:Item:missing".to_string()]);
    assert!(!e.register_class);
}

#[test]
fn derive_flow_outputs() {
    let e = derive_expansion(DeriveKind::JavaClass, true, true, good_toml(), true, "\"C\"", "S", "", "", &fields(), CompileErrors::default());
    assert_eq!(kinds(&e.tokens), vec!["code".to_string(); 3]);
    assert!(e.register_class);
    let e = derive_expansion(DeriveKind::JavaType, true, true, good_toml(), true, "\"C\"", "S", "", "", &fields(), CompileErrors::default());
    assert_eq!(kinds(&e.tokens), vec!["code".to_string()]);
    let e = derive_expansion(DeriveKind::IntoJava, false, true, good_toml(), true, "\"C\"", "S", "", "", &fields(), CompileErrors::default());
    assert!(e.tokens.segments.is_empty());
}

#[test]
fn jlogger_flow() {
    assert!(derive_jlogger_expansion(false, true, good_toml(), "L", "\"C\"").segments.is_empty());
    assert_eq!(kinds(&derive_jlogger_expansion(true, true, good_toml(), "L", "\"C\"")), vec!["code".to_string()]);
    let bad: Result<ProjectToml<()>, String> = Ok(ProjectToml { toml: (), has_java_bindgen: true, has_package: false, path: String::new() });
    let t = derive_jlogger_expansion(true, true, bad, "L", "\"C\"");
    assert!(matches!(&t.segments[0], Segment::CompileError(Site::Item, m) if m.starts_with("Add: package")));
}

#[test]
fn bindgen_flow() {
    let inputs = vec![FnArgModel::Typed(TypedArg {
        pat: "x".to_string(),
        ty: TypeModel { text: "i32".to_string(), shape: TypeShape::Other },
        jni_ty: Some("jint".to_string()),
    })];
    let e = bindgen_expansion(
        true,
        "package = \"com.a\", return = \"long\"",
        good_toml(),
        &inputs,
        CompileErrors::default(),
        ReturnKind::Plain,
        "i64",
        None,
        &["int x".to_string()],
        "long ignored",
        "Java_com_a_Lib_f",
        "f",
        "x",
    );
    assert_eq!(e.ffi_method, Some("public static native long f(int x)".to_string()));
    assert_eq!(kinds(&e.tokens), vec!["code".to_string(), "input".to_string(), "code".to_string()]);
    match &e.tokens.segments[2] {
        Segment::Code(c) => {
            assert!(c.contains("-> jni::objects::JObject <'l>"));
            assert!(c.contains("let Ok(x) = x.into_rust(&mut env)"));
            assert!(syn::parse_str::<syn::File>(c).is_ok());
        }
        _ => panic!("no code"),
    }
    let skipped = bindgen_expansion(false, "", good_toml(), &inputs, CompileErrors::default(), ReturnKind::Plain, "()", None, &[], "void", "F", "f", "");
    assert_eq!(kinds(&skipped.tokens), vec!["input".to_string()]);
    assert_eq!(skipped.ffi_method, None);
    let no_toml: Result<ProjectToml<()>, String> = Err("io".to_string());
    let failed = bindgen_expansion(true, "", no_toml, &inputs, CompileErrors::default(), ReturnKind::Plain, "()", None, &[], "void", "F", "f", "");
    assert_eq!(kinds(&failed.tokens), vec!["input".to_string(), "error:Item:io".to_string()]);
}
