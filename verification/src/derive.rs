//! The impls that the derive macros generate for a struct: conversion of a
//! Java object into the struct (through the object's getters), conversion of
//! the struct into a Java object (through its constructor), the Java type
//! information of the struct, and the logger initialisation.
use vstd::prelude::*;
use crate::text::{ascii_upper, capitalize, chars_of, decimal, push_chars, push_decimal, push_str, string_of, to_ascii_upper};
use crate::tokens::{framed, text_lexes, ts2_from, ts2_text, CompileErrors, Segment, SegmentView, Site, Tokens};
use crate::types::{bool_type_text, is_bool_type};

verus! {

/// A named field of a struct: its name and the source text of its type.
#[derive(Clone, Debug)]
pub struct FieldModel {
    pub name: String,
    pub ty: String,
}

/// Whether the getter prefix can be formed for the field `name`: its first
/// character must be a single byte, as slicing `[0..1]` needs.
pub open spec fn getter_ready(name: Seq<char>) -> bool {
    name.len() > 0 && (name[0] as u32) < 128
}

/// The getter prefix for a field of type `ty`: `is` for `bool` and
/// `Option<bool>`, `get` otherwise.
pub open spec fn getter_prefix(ty: Seq<char>) -> Seq<char> {
    if bool_type_text(ty) {
        "is"@
    } else {
        "get"@
    }
}

/// The name of the Java getter for the field `name` of type `ty`: the
/// prefix, then the field name with its first character upper-cased.
pub open spec fn getter_name(name: Seq<char>, ty: Seq<char>) -> Seq<char> {
    getter_prefix(ty) + capitalize(name)
}

/// The string literal that names the getter of `f`: `"getName"`.
pub open spec fn getter_literal(f: FieldModel) -> Seq<char> {
    "\""@ + getter_name(f.name@, f.ty@) + "\""@
}

/// The source text of one field initialiser,
/// `name: self.call_getter("getName", env)?,`, where `lexed` is the lexer's
/// verdict on the getter literal.
pub open spec fn getter_line(f: FieldModel, lexed: bool) -> Seq<char> {
    f.name@ + ": self.call_getter("@ + ts2_text(lexed, getter_literal(f)) + ", env)?, "@
}

/// The field initialisers of `fields`, in order, with `lexed[k]` the
/// lexer's verdict on the getter literal of field `k`.
pub open spec fn getter_lines(fields: Seq<FieldModel>, lexed: Seq<bool>) -> Seq<char>
    decreases fields.len(),
{
    if fields.len() == 0 {
        Seq::<char>::empty()
    } else {
        getter_lines(fields.drop_last(), lexed) + getter_line(
            fields.last(),
            lexed[fields.len() - 1],
        )
    }
}

/// The impls of `IntoRustType` for the struct `name`, whose fields are read
/// with `getters`.
pub open spec fn into_rust_text(name: Seq<char>, getters: Seq<char>) -> Seq<char> {
    "impl<'local> java_bindgen::j2r::IntoRustType<'local, "@ + name
        + "> for jni::objects::JObject<'local> { fn into_rust(self, env: &mut jni::JNIEnv<'local>) -> java_bindgen::JResult<"@
        + name + "> { Ok("@ + name + " { "@ + getters
        + "}) } } impl<'local> java_bindgen::prelude::IntoRustType<'local, "@ + name
        + "> for jni::objects::JValueGen<jni::objects::JObject<'local>> { fn into_rust(self, env: &mut jni::JNIEnv<'local>) -> JResult<"@
        + name + "> { let obj = self.l()?; obj.into_rust(env) } }"@
}

/// The getter name for the field `name` of type `ty`.
pub fn java_getter_name(name: &str, ty: &str) -> (r: String)
    requires
        getter_ready(name@),
    ensures
        r@ == getter_name(name@, ty@),
{
    let n = chars_of(name);
    let mut out: Vec<char> = Vec::new();
    if is_bool_type(ty) {
        push_str(&mut out, "is");
    } else {
        push_str(&mut out, "get");
    }
    out.push(to_ascii_upper(n[0]));
    let mut i: usize = 1;
    let ghost start = out@;
    while i < n.len()
        invariant
            1 <= i <= n@.len(),
            out@ == start + n@.subrange(1, i as int),
        decreases n@.len() - i,
    {
        out.push(n[i]);
        i = i + 1;
        assert(n@.subrange(1, i as int) == n@.subrange(1, i - 1).push(n@[i - 1]));
    }
    assert(out@ =~= getter_name(name@, ty@));
    string_of(out.as_slice())
}

/// The getter literal of `f`: `"getName"`.
fn getter_literal_exec(f: &FieldModel) -> (r: String)
    requires
        getter_ready(f.name@),
    ensures
        r@ == getter_literal(*f),
{
    let getter = java_getter_name(f.name.as_str(), f.ty.as_str());
    let mut lit: Vec<char> = Vec::new();
    push_str(&mut lit, "\"");
    push_chars(&mut lit, chars_of(getter.as_str()).as_slice());
    push_str(&mut lit, "\"");
    assert(lit@ =~= getter_literal(*f));
    string_of(lit.as_slice())
}

fn push_getter_line(out: &mut Vec<char>, f: &FieldModel, lexed: bool)
    requires
        getter_ready(f.name@),
    ensures
        final(out)@ == old(out)@ + getter_line(*f, lexed),
{
    let lit = getter_literal_exec(f);
    let getter_tokens = ts2_from(lexed, lit.as_str());
    let ghost start = out@;
    push_chars(out, chars_of(f.name.as_str()).as_slice());
    push_str(out, ": self.call_getter(");
    push_chars(out, chars_of(getter_tokens.as_str()).as_slice());
    push_str(out, ", env)?, ");
    assert(out@ =~= start + getter_line(*f, lexed));
}

/// The errors, then the impls of `IntoRustType` for the struct `name` with
/// the fields `fields`: each field is read with the Java getter named after
/// it (`isX` for a `bool` field `x`, `getX` otherwise); `lexed[k]` is the
/// lexer's verdict on the getter literal of field `k`.
pub fn impl_into_rust_lexed(
    name: &str,
    fields: &[FieldModel],
    lexed: &[bool],
    errors: &CompileErrors,
) -> (r: Tokens)
    requires
        forall|k: int| 0 <= k < fields@.len() ==> getter_ready(#[trigger] fields@[k].name@),
        lexed@.len() == fields@.len(),
    ensures
        r@ == errors@.push(SegmentView::Code(into_rust_text(name@, getter_lines(fields@, lexed@)))),
{
    let mut getters: Vec<char> = Vec::new();
    let mut i: usize = 0;
    assert(fields@.take(0) =~= Seq::<FieldModel>::empty());
    while i < fields.len()
        invariant
            i <= fields@.len(),
            forall|k: int| 0 <= k < fields@.len() ==> getter_ready(#[trigger] fields@[k].name@),
            lexed@.len() == fields@.len(),
            getters@ == getter_lines(fields@.take(i as int), lexed@),
        decreases fields@.len() - i,
    {
        push_getter_line(&mut getters, &fields[i], lexed[i]);
        i = i + 1;
        assert(fields@.take(i as int).drop_last() == fields@.take(i - 1));
    }
    assert(fields@.take(fields@.len() as int) == fields@);
    let n = chars_of(name);
    let mut out: Vec<char> = Vec::new();
    push_str(&mut out, "impl<'local> java_bindgen::j2r::IntoRustType<'local, ");
    push_chars(&mut out, n.as_slice());
    push_str(&mut out, "> for jni::objects::JObject<'local> { fn into_rust(self, env: &mut jni::JNIEnv<'local>) -> java_bindgen::JResult<");
    push_chars(&mut out, n.as_slice());
    push_str(&mut out, "> { Ok(");
    push_chars(&mut out, n.as_slice());
    push_str(&mut out, " { ");
    push_chars(&mut out, getters.as_slice());
    push_str(&mut out, "}) } } impl<'local> java_bindgen::prelude::IntoRustType<'local, ");
    push_chars(&mut out, n.as_slice());
    push_str(&mut out, "> for jni::objects::JValueGen<jni::objects::JObject<'local>> { fn into_rust(self, env: &mut jni::JNIEnv<'local>) -> JResult<");
    push_chars(&mut out, n.as_slice());
    push_str(&mut out, "> { let obj = self.l()?; obj.into_rust(env) } }");
    assert(out@ =~= into_rust_text(name@, getter_lines(fields@, lexed@)));
    let mut r = Tokens::new();
    errors.to_tokens(&mut r);
    r.push(Segment::Code(string_of(out.as_slice())));
    r
}

/// The errors, then the impls of `IntoRustType` for the struct `name` with
/// the fields `fields`: each field is read with the Java getter named after
/// it. Each getter literal is lexed; what the result is holds for the
/// verdicts that the lexer gave.
pub fn impl_into_rust(name: &str, fields: &[FieldModel], errors: &CompileErrors) -> (r: Tokens)
    requires
        forall|k: int| 0 <= k < fields@.len() ==> getter_ready(#[trigger] fields@[k].name@),
    ensures
        exists|lexed: Seq<bool>|
            lexed.len() == fields@.len() && r@ == errors@.push(
                SegmentView::Code(into_rust_text(name@, getter_lines(fields@, lexed))),
            ),
{
    let lexed = getter_verdicts(fields);
    impl_into_rust_lexed(name, fields, lexed.as_slice(), errors)
}

/// The lexer's verdict on the getter literal of each field.
fn getter_verdicts(fields: &[FieldModel]) -> (r: Vec<bool>)
    requires
        forall|k: int| 0 <= k < fields@.len() ==> getter_ready(#[trigger] fields@[k].name@),
    ensures
        r@.len() == fields@.len(),
{
    let mut lexed: Vec<bool> = Vec::new();
    let mut i: usize = 0;
    while i < fields.len()
        invariant
            i <= fields@.len(),
            lexed@.len() == i,
            forall|k: int| 0 <= k < fields@.len() ==> getter_ready(#[trigger] fields@[k].name@),
        decreases fields@.len() - i,
    {
        let lit = getter_literal_exec(&fields[i]);
        lexed.push(text_lexes(lit.as_str()));
        i = i + 1;
    }
    lexed
}

/// The types of `fields`, separated by commas: the signature of the Java
/// constructor.
pub open spec fn type_signature(fields: Seq<FieldModel>) -> Seq<char>
    decreases fields.len(),
{
    if fields.len() == 0 {
        Seq::<char>::empty()
    } else {
        let p = type_signature(fields.drop_last());
        (if p.len() > 0 {
            p + ", "@
        } else {
            p
        }) + fields.last().ty@
    }
}

/// The local that holds the Java value of field `i`: `a{i}`.
pub open spec fn arg_name(i: nat) -> Seq<char> {
    "a"@ + decimal(i)
}

/// The conversions of `fields` into Java values, each into its local.
pub open spec fn args_conversion(fields: Seq<FieldModel>) -> Seq<char>
    decreases fields.len(),
{
    if fields.len() == 0 {
        Seq::<char>::empty()
    } else {
        args_conversion(fields.drop_last()) + "let "@ + arg_name((fields.len() - 1) as nat)
            + " = self."@ + fields.last().name@ + ".into_j_value(env)?; "@
    }
}

/// The constructor arguments for `n` fields: the borrowed locals, separated
/// by commas.
pub open spec fn args_list(n: nat) -> Seq<char>
    decreases n,
{
    if n == 0 {
        Seq::<char>::empty()
    } else {
        let p = args_list((n - 1) as nat);
        (if p.len() > 0 {
            p + ", "@
        } else {
            p
        }) + arg_name((n - 1) as nat) + ".borrow()"@
    }
}

/// The impl of `IntoJavaType` for the struct `name`: its fields converted
/// into Java values and passed to the constructor of the Java class.
pub open spec fn into_java_text(
    name: Seq<char>,
    ty_generics: Seq<char>,
    where_clause: Seq<char>,
    class_path: Seq<char>,
    fields: Seq<FieldModel>,
) -> Seq<char> {
    "impl <'local> java_bindgen::r2j::IntoJavaType<'local, jni::objects::JObject<'local>> for "@
        + name + " "@ + ty_generics + " "@ + where_clause
        + " { fn into_java(self, env: &mut jni::JNIEnv<'local>) -> java_bindgen::JResult<jni::objects::JObject<'local>> { let sig = signature_by_type!("@
        + type_signature(fields) + " => JVoid); "@ + args_conversion(fields)
        + "let class = env.find_class("@ + class_path
        + ").j_catch(env)?; env.new_object(class, sig.to_string(), &["@ + args_list(
        fields.len(),
    ) + "]).j_catch(env) } }"@
}

/// The errors, then the impl of `IntoJavaType` for the struct `name` (with
/// the source texts of its type generics and where clause) whose Java class
/// has the path given by the source text `class_path`.
pub fn impl_into_java(
    class_path: &str,
    name: &str,
    ty_generics: &str,
    where_clause: &str,
    fields: &[FieldModel],
    errors: &CompileErrors,
) -> (r: Tokens)
    ensures
        r@ == errors@.push(
            SegmentView::Code(
                into_java_text(name@, ty_generics@, where_clause@, class_path@, fields@),
            ),
        ),
{
    let mut type_sig: Vec<char> = Vec::new();
    let mut conversion: Vec<char> = Vec::new();
    let mut list: Vec<char> = Vec::new();
    let mut i: usize = 0;
    assert(fields@.take(0) =~= Seq::<FieldModel>::empty());
    while i < fields.len()
        invariant
            i <= fields@.len(),
            type_sig@ == type_signature(fields@.take(i as int)),
            conversion@ == args_conversion(fields@.take(i as int)),
            list@ == args_list(i as nat),
        decreases fields@.len() - i,
    {
        let f = &fields[i];
        let ghost sig0 = type_sig@;
        let ghost conv0 = conversion@;
        let ghost list0 = list@;
        if type_sig.len() > 0 {
            push_str(&mut type_sig, ", ");
        }
        push_chars(&mut type_sig, chars_of(f.ty.as_str()).as_slice());
        let mut arg: Vec<char> = Vec::new();
        push_str(&mut arg, "a");
        push_decimal(&mut arg, i);
        push_str(&mut conversion, "let ");
        push_chars(&mut conversion, arg.as_slice());
        push_str(&mut conversion, " = self.");
        push_chars(&mut conversion, chars_of(f.name.as_str()).as_slice());
        push_str(&mut conversion, ".into_j_value(env)?; ");
        if list.len() > 0 {
            push_str(&mut list, ", ");
        }
        push_chars(&mut list, arg.as_slice());
        push_str(&mut list, ".borrow()");
        i = i + 1;
        proof {
            let pre = fields@.take(i as int);
            assert(pre.drop_last() == fields@.take(i - 1));
            assert(pre.last() == *f);
            assert(arg@ =~= arg_name((i - 1) as nat));
            assert(type_sig@ =~= (if sig0.len() > 0 {
                sig0 + ", "@
            } else {
                sig0
            }) + f.ty@);
            assert(conversion@ =~= conv0 + "let "@ + arg_name((i - 1) as nat) + " = self."@
                + f.name@ + ".into_j_value(env)?; "@);
            assert(list@ =~= (if list0.len() > 0 {
                list0 + ", "@
            } else {
                list0
            }) + arg_name((i - 1) as nat) + ".borrow()"@);
        }
    }
    assert(fields@.take(fields@.len() as int) == fields@);
    let mut out: Vec<char> = Vec::new();
    push_str(&mut out, "impl <'local> java_bindgen::r2j::IntoJavaType<'local, jni::objects::JObject<'local>> for ");
    push_chars(&mut out, chars_of(name).as_slice());
    push_str(&mut out, " ");
    push_chars(&mut out, chars_of(ty_generics).as_slice());
    push_str(&mut out, " ");
    push_chars(&mut out, chars_of(where_clause).as_slice());
    push_str(&mut out, " { fn into_java(self, env: &mut jni::JNIEnv<'local>) -> java_bindgen::JResult<jni::objects::JObject<'local>> { let sig = signature_by_type!(");
    push_chars(&mut out, type_sig.as_slice());
    push_str(&mut out, " => JVoid); ");
    push_chars(&mut out, conversion.as_slice());
    push_str(&mut out, "let class = env.find_class(");
    push_chars(&mut out, chars_of(class_path).as_slice());
    push_str(&mut out, ").j_catch(env)?; env.new_object(class, sig.to_string(), &[");
    push_chars(&mut out, list.as_slice());
    push_str(&mut out, "]).j_catch(env) } }");
    assert(out@ =~= into_java_text(name@, ty_generics@, where_clause@, class_path@, fields@));
    let mut r = Tokens::new();
    errors.to_tokens(&mut r);
    r.push(Segment::Code(string_of(out.as_slice())));
    r
}

/// The impl of `JTypeInfo` for the struct `name`: a Java object of the class
/// with the path `class_path`.
pub open spec fn java_type_text(
    name: Seq<char>,
    ty_generics: Seq<char>,
    where_clause: Seq<char>,
    class_path: Seq<char>,
) -> Seq<char> {
    "impl<'local> java_bindgen::interop::JTypeInfo<'local> for "@ + name + " "@ + ty_generics + " "@
        + where_clause
        + " { fn j_type() -> jni::signature::JavaType { jni::signature::JavaType::Object("@
        + class_path
        + ".to_string()) } fn j_return_type() -> jni::signature::ReturnType { jni::signature::ReturnType::Object } fn into_j_value(self, env: &mut jni::JNIEnv<'local>) -> java_bindgen::JResult<jni::objects::JValueOwned<'local>> { let obj = self.into_java(env)?; Ok(jni::objects::JValueOwned::Object(obj)) } }"@
}

/// The errors, then the impl of `JTypeInfo` for the struct `name` whose Java
/// class has the path given by the source text `class_path`.
pub fn impl_java_type(
    class_path: &str,
    name: &str,
    ty_generics: &str,
    where_clause: &str,
    errors: &CompileErrors,
) -> (r: Tokens)
    ensures
        r@ == errors@.push(
            SegmentView::Code(java_type_text(name@, ty_generics@, where_clause@, class_path@)),
        ),
{
    let mut out: Vec<char> = Vec::new();
    push_str(&mut out, "impl<'local> java_bindgen::interop::JTypeInfo<'local> for ");
    push_chars(&mut out, chars_of(name).as_slice());
    push_str(&mut out, " ");
    push_chars(&mut out, chars_of(ty_generics).as_slice());
    push_str(&mut out, " ");
    push_chars(&mut out, chars_of(where_clause).as_slice());
    push_str(&mut out, " { fn j_type() -> jni::signature::JavaType { jni::signature::JavaType::Object(");
    push_chars(&mut out, chars_of(class_path).as_slice());
    push_str(&mut out, ".to_string()) } fn j_return_type() -> jni::signature::ReturnType { jni::signature::ReturnType::Object } fn into_j_value(self, env: &mut jni::JNIEnv<'local>) -> java_bindgen::JResult<jni::objects::JValueOwned<'local>> { let obj = self.into_java(env)?; Ok(jni::objects::JValueOwned::Object(obj)) } }");
    assert(out@ =~= java_type_text(name@, ty_generics@, where_clause@, class_path@));
    let mut r = Tokens::new();
    errors.to_tokens(&mut r);
    r.push(Segment::Code(string_of(out.as_slice())));
    r
}

/// The `init` function that the logger derive adds to the struct `name`:
/// a logger for the Java class with the path `class_path`.
pub open spec fn jlogger_text(name: Seq<char>, class_path: Seq<char>) -> Seq<char> {
    "impl "@ + name
        + " { fn init<'local>(env: &mut jni::JNIEnv<'local>) -> java_bindgen::logger::JLoggerCore<'local> { java_bindgen::logger::JLoggerCore::new(env, "@
        + class_path + ").unwrap_or_default() } }"@
}

/// The `init` function of the logger derive for the struct `name`, whose
/// Java class has the path given by the source text `class_path`.
pub fn impl_jlogger(name: &str, class_path: &str) -> (r: Tokens)
    ensures
        r@ == seq![SegmentView::Code(jlogger_text(name@, class_path@))],
{
    let mut out: Vec<char> = Vec::new();
    push_str(&mut out, "impl ");
    push_chars(&mut out, chars_of(name).as_slice());
    push_str(&mut out, " { fn init<'local>(env: &mut jni::JNIEnv<'local>) -> java_bindgen::logger::JLoggerCore<'local> { java_bindgen::logger::JLoggerCore::new(env, ");
    push_chars(&mut out, chars_of(class_path).as_slice());
    push_str(&mut out, ").unwrap_or_default() } }");
    assert(out@ =~= jlogger_text(name@, class_path@));
    let mut r = Tokens::new();
    r.push(Segment::Code(string_of(out.as_slice())));
    r
}

/// The output of the Java class derive: the `IntoJavaType`, `IntoRustType`
/// and `JTypeInfo` impls, each after the errors.
pub fn impl_java_class(
    class_path: &str,
    name: &str,
    ty_generics: &str,
    where_clause: &str,
    fields: &[FieldModel],
    errors: &CompileErrors,
) -> (r: Tokens)
    requires
        forall|k: int| 0 <= k < fields@.len() ==> getter_ready(#[trigger] fields@[k].name@),
    ensures
        exists|lexed: Seq<bool>|
            lexed.len() == fields@.len() && r@ == errors@.push(
                SegmentView::Code(
                    into_java_text(name@, ty_generics@, where_clause@, class_path@, fields@),
                ),
            ) + errors@.push(SegmentView::Code(into_rust_text(name@, getter_lines(fields@, lexed))))
                + errors@.push(
                SegmentView::Code(java_type_text(name@, ty_generics@, where_clause@, class_path@)),
            ),
{
    let into_java = impl_into_java(class_path, name, ty_generics, where_clause, fields, errors);
    let into_rust = impl_into_rust(name, fields, errors);
    let java_type = impl_java_type(class_path, name, ty_generics, where_clause, errors);
    let mut r = Tokens::new();
    r.append_all(&into_java);
    r.append_all(&into_rust);
    r.append_all(&java_type);
    assert(r@ =~= into_java@ + into_rust@ + java_type@);
    let ghost lexed = choose|lexed: Seq<bool>|
        lexed.len() == fields@.len() && into_rust@ == errors@.push(
            SegmentView::Code(into_rust_text(name@, getter_lines(fields@, lexed))),
        );
    assert(lexed.len() == fields@.len() && into_rust@ == errors@.push(
        SegmentView::Code(into_rust_text(name@, getter_lines(fields@, lexed))),
    ));
    r
}

/// The output of a derive applied to an enum or a union: the error that
/// only a struct is allowed.
pub fn only_struct_error() -> (r: Tokens)
    ensures
        r@ == seq![SegmentView::CompileError(Site::CallSite, framed("Only struct is allowed."@))],
{
    let mut errors = CompileErrors::default();
    errors.add(String::from_str("Only struct is allowed."));
    errors.into_tokens()
}

} // verus!
