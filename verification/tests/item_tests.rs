use java_bindgen_macro::bindgen::ReturnKind;
use java_bindgen_macro::flow::{
    bindgen_expansion_of_item, derive_expansion_of_item, derive_into_rust_expansion_of_item,
    derive_jlogger_expansion_of_item, DeriveKind,
};
use java_bindgen_macro::item::{parse_derive_item, parse_item_fn};
use java_bindgen_macro::project::ProjectToml;
use java_bindgen_macro::tokens::{CompileErrors, Segment};
use java_bindgen_macro::types::{FnArgModel, GenericArg, PathArgs, TypeShape};

fn good_toml() -> Result<ProjectToml<()>, String> {
    Ok(ProjectToml { toml: (), has_java_bindgen: true, has_package: true, path: "Cargo.toml".to_string() })
}

#[test]
fn parses_function_inputs() {
    let m = parse_item_fn("fn hello<'a>(env: &mut JNIEnv<'a>, _: JClass<'a>, name: String) -> String { name }")
        .expect("parses");
    assert_eq!(m.name, "hello");
    assert_eq!(m.inputs.len(), 3);
    match &m.inputs[0] {
        FnArgModel::Typed(t) => {
            assert_eq!(t.pat, "env");
            assert_eq!(t.ty.text, "& mut JNIEnv < 'a >");
            match &t.ty.shape {
                TypeShape::Reference(inner) => match inner.as_ref() {
                    TypeShape::Path(segs) => {
                        assert_eq!(segs.len(), 1);
                        assert!(matches!(&segs[0], PathArgs::AngleBracketed(a) if matches!(&a[0], GenericArg::Lifetime(l) if l == "'a")));
                    }
                    _ => panic!("not a path"),
                },
                _ => panic!("not a reference"),
            }
            assert!(t.jni_ty.is_none());
        }
        _ => panic!("receiver"),
    }
    assert!(matches!(&m.inputs[1], FnArgModel::Typed(t) if t.pat == "_"));
}

#[test]
fn parses_receiver_and_rejects_non_function() {
    let m = parse_item_fn("fn f(&self, x: u8) {}").expect("parses");
    assert!(matches!(m.inputs[0], FnArgModel::Receiver));
    assert!(parse_item_fn("struct S;").is_none());
    assert!(parse_item_fn("fn (").is_none());
}

#[test]
fn parses_derive_inputs() {
    let d = parse_derive_item("struct Pair<T: Clone> where T: Copy { first: T, pub second: Option<bool> }").expect("parses");
    assert_eq!(d.name, "Pair");
    assert_eq!(d.ty_generics, "< T >");
    assert_eq!(d.where_clause, "where T : Copy");
    let fields = d.fields.expect("struct");
    assert_eq!(fields.len(), 2);
    assert_eq!(fields[0].name.as_deref(), Some("first"));
    assert_eq!(fields[1].ty, "Option < bool >");
    let e = parse_derive_item("enum E { A }").expect("parses");
    assert!(e.fields.is_none());
    let t = parse_derive_item("struct T(u8, bool);").expect("parses");
    assert_eq!(t.fields.expect("struct")[0].name, None);
    assert!(parse_derive_item("fn f() {}").is_none());
}

#[test]
fn into_rust_of_item() {
    let r = derive_into_rust_expansion_of_item("struct User { name: String, admin: bool }", true, CompileErrors::default());
    assert_eq!(r.fields.len(), 2);
    let e = r.expansion.expect("expands");
    assert!(e.register_class);
    match &e.tokens.segments[0] {
        Segment::Code(c) => {
            assert!(c.contains("name: self.call_getter(\"getName\", env)?, admin: self.call_getter(\"isAdmin\", env)?,"));
        }
        _ => panic!("no code"),
    }
    let bad = derive_into_rust_expansion_of_item("not an item", true, CompileErrors::default());
    assert!(bad.item.is_none());
    assert!(matches!(&bad.expansion.expect("expands").tokens.segments[0], Segment::Input));
    let tuple = derive_into_rust_expansion_of_item("struct T(u8);", true, CompileErrors::default());
    assert!(tuple.fields.is_empty());
}

#[test]
fn into_rust_of_item_with_non_ascii_field() {
    let r = derive_into_rust_expansion_of_item("struct S { ñ: u8 }", true, CompileErrors::default());
    assert!(r.expansion.is_none());
}

#[test]
fn derive_of_item_kinds() {
    let r = derive_expansion_of_item(DeriveKind::JavaType, "struct P<T> { v: T }", good_toml(), true, "\"a/P\"", CompileErrors::default());
    let e = r.expansion.expect("expands");
    match &e.tokens.segments[0] {
        Segment::Code(c) => assert!(c.starts_with("impl<'local> java_bindgen::interop::JTypeInfo<'local> for P < T >")),
        _ => panic!("no code"),
    }
    let en = derive_expansion_of_item(DeriveKind::IntoJava, "enum E { A }", good_toml(), true, "\"a/E\"", CompileErrors::default());
    assert!(matches!(&en.expansion.expect("expands").tokens.segments[0], Segment::CompileError(_, m) if m.contains("Only struct")));
    let ugly = derive_expansion_of_item(DeriveKind::JavaClass, "struct S { ñ: u8 }", good_toml(), true, "\"a/S\"", CompileErrors::default());
    assert!(ugly.expansion.is_none());
    let into_java = derive_expansion_of_item(DeriveKind::IntoJava, "struct S { ñ: u8 }", good_toml(), true, "\"a/S\"", CompileErrors::default());
    assert!(into_java.expansion.is_some());
}

#[test]
fn jlogger_of_item() {
    let (item, t) = derive_jlogger_expansion_of_item("struct Log;", good_toml(), "\"a/Lib\"");
    assert_eq!(item.expect("parses").name, "Log");
    assert!(matches!(&t.segments[0], Segment::Code(c) if c.starts_with("impl Log {")));
}

#[test]
fn bindgen_of_item() {
    let r = bindgen_expansion_of_item(
        "fn add(env: &mut JNIEnv<'a>, x: i32, y: i32) -> i32 { x + y }",
        "",
        good_toml(),
        &[None, Some("jint".to_string())],
        CompileErrors::default(),
        ReturnKind::Plain,
        "i32",
        Some("jint".to_string()),
        &["int x".to_string(), "int y".to_string()],
        "int",
        "Java_a_Lib_add",
        "x , y",
    );
    let m = r.item.expect("parses");
    assert_eq!(m.name, "add");
    assert!(matches!(&m.inputs[1], FnArgModel::Typed(t) if t.jni_ty.as_deref() == Some("jint")));
    assert!(matches!(&m.inputs[2], FnArgModel::Typed(t) if t.jni_ty.is_none()));
    assert_eq!(r.expansion.ffi_method, Some("public static native int add(int x,int y)".to_string()));
    match &r.expansion.tokens.segments[2] {
        Segment::Code(c) => {
            assert!(c.contains("fn Java_a_Lib_add<'a>(mut env : JNIEnv<'a>, _classs : JClass <'a> , x : jint , y : i32) -> jint"));
            assert!(c.contains("let r = add(x , y);"));
        }
        _ => panic!("no code"),
    }
}
