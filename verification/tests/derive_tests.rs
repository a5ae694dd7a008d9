use java_bindgen_macro::derive::impl_into_rust_lexed;
use java_bindgen_macro::derive::{
    impl_into_java, impl_into_rust, impl_java_class, impl_java_type, impl_jlogger,
    java_getter_name, only_struct_error, FieldModel,
};
use java_bindgen_macro::tokens::{CompileErrors, Segment, Tokens};

fn field(name: &str, ty: &str) -> FieldModel {
    FieldModel { name: name.to_string(), ty: ty.to_string() }
}

fn code_of(t: &Tokens) -> String {
    match t.segments.last() {
        Some(Segment::Code(c)) => c.clone(),
        _ => panic!("no code segment"),
    }
}

fn parses(code: &str) -> bool {
    syn::parse_str::<syn::File>(code).is_ok()
}

#[test]
fn getter_names() {
    assert_eq!(java_getter_name("name", "String"), "getName");
    assert_eq!(java_getter_name("active", "bool"), "isActive");
    assert_eq!(java_getter_name("x", "Option < bool >"), "isX");
    assert_eq!(java_getter_name("_x", "u8"), "get_x");
    assert_eq!(java_getter_name("Zed", "u8"), "getZed");
}

#[test]
fn into_rust_impl_text() {
    let errors = CompileErrors::default();
    let t = impl_into_rust("User", &[field("name", "String"), field("admin", "bool")], &errors);
    assert_eq!(t.segments.len(), 1);
    let code = code_of(&t);
    assert_eq!(
        code,
        "impl<'local> java_bindgen::j2r::IntoRustType<'local, User> for jni::objects::JObject<'local> { \
fn into_rust(self, env: &mut jni::JNIEnv<'local>) -> java_bindgen::JResult<User> { Ok(User { \
name: self.call_getter(\"getName\", env)?, admin: self.call_getter(\"isAdmin\", env)?, }) } } \
impl<'local> java_bindgen::prelude::IntoRustType<'local, User> for jni::objects::JValueGen<jni::objects::JObject<'local>> { \
fn into_rust(self, env: &mut jni::JNIEnv<'local>) -> JResult<User> { let obj = self.l()?; obj.into_rust(env) } }"
    );
    assert!(parses(&code));
}

#[test]
fn into_rust_keeps_errors_first() {
    let mut errors = CompileErrors::default();
    errors.add("oops".to_string());
    let t = impl_into_rust("Empty", &[], &errors);
    assert_eq!(t.segments.len(), 2);
    assert!(matches!(&t.segments[0], Segment::CompileError(_, m) if m == "[java-bindgen]\noops\n"));
    assert!(parses(&code_of(&t)));
}

#[test]
fn into_java_impl_text() {
    let errors = CompileErrors::default();
    let t = impl_into_java(
        "\"com/example/User\"",
        "User",
        "",
        "",
        &[field("name", "String"), field("age", "i32")],
        &errors,
    );
    let code = code_of(&t);
    assert_eq!(
        code,
        "impl <'local> java_bindgen::r2j::IntoJavaType<'local, jni::objects::JObject<'local>> for User   { \
fn into_java(self, env: &mut jni::JNIEnv<'local>) -> java_bindgen::JResult<jni::objects::JObject<'local>> { \
let sig = signature_by_type!(String, i32 => JVoid); \
let a0 = self.name.into_j_value(env)?; let a1 = self.age.into_j_value(env)?; \
let class = env.find_class(\"com/example/User\").j_catch(env)?; \
env.new_object(class, sig.to_string(), &[a0.borrow(), a1.borrow()]).j_catch(env) } }"
    );
    assert!(parses(&code));
}

#[test]
fn into_java_numbers_locals_past_nine() {
    let errors = CompileErrors::default();
    let fields: Vec<FieldModel> = (0..12).map(|i| field(&format!("f{i}"), "u8")).collect();
    let code = code_of(&impl_into_java("\"C\"", "S", "", "", &fields, &errors));
    assert!(code.contains("let a11 = self.f11.into_j_value(env)?;"));
    assert!(code.contains("a10.borrow(), a11.borrow()]"));
    assert!(parses(&code));
}

#[test]
fn java_type_impl_text() {
    let errors = CompileErrors::default();
    let t = impl_java_type("\"com/example/Pair\"", "Pair", "< T >", "where T : Clone", &errors);
    let code = code_of(&t);
    assert_eq!(
        code,
        "impl<'local> java_bindgen::interop::JTypeInfo<'local> for Pair < T > where T : Clone { \
fn j_type() -> jni::signature::JavaType { jni::signature::JavaType::Object(\"com/example/Pair\".to_string()) } \
fn j_return_type() -> jni::signature::ReturnType { jni::signature::ReturnType::Object } \
fn into_j_value(self, env: &mut jni::JNIEnv<'local>) -> java_bindgen::JResult<jni::objects::JValueOwned<'local>> { \
let obj = self.into_java(env)?; Ok(jni::objects::JValueOwned::Object(obj)) } }"
    );
    assert!(parses(&code));
}

#[test]
fn jlogger_impl_text() {
    let t = impl_jlogger("Log", "\"com/example/Lib\"");
    assert_eq!(t.segments.len(), 1);
    let code = code_of(&t);
    assert_eq!(
        code,
        "impl Log { fn init<'local>(env: &mut jni::JNIEnv<'local>) -> java_bindgen::logger::JLoggerCore<'local> { \
java_bindgen::logger::JLoggerCore::new(env, \"com/example/Lib\").unwrap_or_default() } }"
    );
    assert!(parses(&code));
}

#[test]
fn java_class_has_three_impls_each_after_errors() {
    let mut errors = CompileErrors::default();
    errors.add("e".to_string());
    let t = impl_java_class("\"p/C\"", "C", "", "", &[field("v", "u8")], &errors);
    let kinds: Vec<bool> = t.segments.iter().map(|s| matches!(s, Segment::Code(_))).collect();
    assert_eq!(kinds, vec![false, true, false, true, false, true]);
    for s in &t.segments {
        if let Segment::Code(c) = s {
            assert!(parses(c));
        }
    }
}

#[test]
fn only_struct_is_allowed() {
    let t = only_struct_error();
    assert_eq!(t.segments.len(), 1);
    assert!(matches!(&t.segments[0], Segment::CompileError(_, m) if m == "[java-bindgen]\nOnly struct is allowed.\n"));
}

#[test]
fn into_rust_with_rejected_getter_literal() {
    let errors = CompileErrors::default();
    let t = impl_into_rust_lexed("P", &[field("x", "u8"), field("on", "bool")], &[true, false], &errors);
    let code = code_of(&t);
    assert!(code.contains("Ok(P { x: self.call_getter(\"getX\", env)?, on: self.call_getter(/* Error */, env)?, })"));
}
