//! What `#[java_bindgen]` generates for a Rust function: the JNI function
//! that Java calls, which converts the JNI arguments into Rust values, calls
//! the function and hands its result back to Java; and the declaration of
//! the native method on the Java side.
use vstd::prelude::*;
use crate::text::{chars_of, push_chars, push_str, string_of};
use crate::tokens::{CompileErrors, Segment, SegmentView, Tokens};
use crate::signature::JavaFnSig;

verus! {

/// How the result of the bound function reaches Java.
#[derive(Clone, Copy, PartialEq, Eq, Structural, Debug)]
pub enum ReturnKind {
    /// A `JResult`: an error becomes a Java exception.
    JResult,
    /// An `Option`: `None` becomes `null`.
    Optional,
    /// Any other type: the JNI function returns the default value.
    Plain,
}

/// Converting one JNI argument back into the Rust value, returning the
/// default value where that fails.
pub open spec fn rewrite_line(ident: Seq<char>, env: Seq<char>) -> Seq<char> {
    "let Ok("@ + ident + ") = "@ + ident + ".into_rust(&mut "@ + env
        + ") else { return Default::default() }; "@
}

/// The conversions of the arguments `idents`, in order.
pub open spec fn rewrites(idents: Seq<Seq<char>>, env: Seq<char>) -> Seq<char>
    decreases idents.len(),
{
    if idents.len() == 0 {
        Seq::<char>::empty()
    } else {
        rewrites(idents.drop_last(), env) + rewrite_line(idents.last(), env)
    }
}

/// What the JNI function returns once the bound function `r` has returned.
pub open spec fn return_handler(kind: ReturnKind, env: Seq<char>) -> Seq<char> {
    match kind {
        ReturnKind::JResult => "java_bindgen::exception::j_result_handler(r, &mut "@ + env + ")"@,
        ReturnKind::Optional => "java_bindgen::exception::option_handler(r, &mut "@ + env + ")"@,
        ReturnKind::Plain => "Default::default()"@,
    }
}

/// The JNI function `ffi_name` with the lifetime `lt` and parameters `args`,
/// returning `ret`: it converts the arguments, calls `fn_name` with
/// `args_names` and hands the result back.
pub open spec fn ffi_fn_text(
    ffi_name: Seq<char>,
    lt: Seq<char>,
    args: Seq<char>,
    ret: Seq<char>,
    conversions: Seq<char>,
    fn_name: Seq<char>,
    args_names: Seq<char>,
    handler: Seq<char>,
) -> Seq<char> {
    "#[no_mangle] #[allow(unused_mut, non_snake_case, unused_variables)] pub extern \"system\" fn "@
        + ffi_name + lt + "("@ + args + ") -> "@ + ret + " { "@ + conversions + "let r = "@
        + fn_name + "("@ + args_names + "); "@ + handler + " }"@
}

/// The JNI return type: the JNI rewrite of the Rust return type where it
/// applies; else a Java object where the attribute names a Java return type;
/// else the Rust return type itself.
pub open spec fn jni_return_text(
    rewritten: Option<Seq<char>>,
    attr_return: bool,
    return_type: Seq<char>,
    lt: Seq<char>,
) -> Seq<char> {
    match rewritten {
        Some(t) => t,
        None => if attr_return {
            "jni::objects::JObject "@ + lt
        } else {
            return_type
        },
    }
}

/// The JNI return type for the Rust return type with source text
/// `return_type`, given what the JNI rewrite makes of it and whether the
/// attribute names a Java return type.
pub fn jni_return_type(rewritten: Option<String>, attr_return: bool, return_type: &str, lt: &str) -> (r: String)
    ensures
        r@ == jni_return_text(
            match rewritten {
                Some(t) => Some(t@),
                None => None,
            },
            attr_return,
            return_type@,
            lt@,
        ),
{
    match rewritten {
        Some(t) => t,
        None => if attr_return {
            let mut out: Vec<char> = Vec::new();
            push_str(&mut out, "jni::objects::JObject ");
            push_chars(&mut out, chars_of(lt).as_slice());
            string_of(out.as_slice())
        } else {
            String::from_str(return_type)
        },
    }
}

/// The output of `#[java_bindgen]`: the errors, the function as written
/// (allowed a non-snake-case name) and the JNI function `ffi_name` that
/// calls it.
pub fn bindgen_output(
    errors: &CompileErrors,
    sig: &JavaFnSig,
    ffi_name: &str,
    fn_name: &str,
    args_names: &str,
    jni_return: &str,
    kind: ReturnKind,
) -> (r: Tokens)
    ensures
        r@ == errors@ + seq![
            SegmentView::Code("#[allow(non_snake_case)]"@),
            SegmentView::Input,
            SegmentView::Code(
                ffi_fn_text(
                    ffi_name@,
                    sig.jni_env_lifetime@,
                    sig.args@,
                    jni_return@,
                    rewrites(sig.into_rust_ident@.map_values(|s: String| s@), sig.env_indent@),
                    fn_name@,
                    args_names@,
                    return_handler(kind, sig.env_indent@),
                ),
            ),
        ],
{
    let env = chars_of(sig.env_indent.as_str());
    let ghost idents = sig.into_rust_ident@.map_values(|s: String| s@);
    let mut conversions: Vec<char> = Vec::new();
    let mut i: usize = 0;
    assert(idents.take(0) =~= Seq::<Seq<char>>::empty());
    while i < sig.into_rust_ident.len()
        invariant
            i <= idents.len(),
            idents == sig.into_rust_ident@.map_values(|s: String| s@),
            env@ == sig.env_indent@,
            conversions@ == rewrites(idents.take(i as int), env@),
        decreases idents.len() - i,
    {
        let id = chars_of(sig.into_rust_ident[i].as_str());
        let ghost before = conversions@;
        push_str(&mut conversions, "let Ok(");
        push_chars(&mut conversions, id.as_slice());
        push_str(&mut conversions, ") = ");
        push_chars(&mut conversions, id.as_slice());
        push_str(&mut conversions, ".into_rust(&mut ");
        push_chars(&mut conversions, env.as_slice());
        push_str(&mut conversions, ") else { return Default::default() }; ");
        i = i + 1;
        proof {
            assert(idents.take(i as int).drop_last() == idents.take(i - 1));
            assert(idents.take(i as int).last() == id@);
            assert(conversions@ =~= before + rewrite_line(id@, env@));
        }
    }
    assert(idents.take(idents.len() as int) == idents);
    let mut handler: Vec<char> = Vec::new();
    match kind {
        ReturnKind::JResult => {
            push_str(&mut handler, "java_bindgen::exception::j_result_handler(r, &mut ");
            push_chars(&mut handler, env.as_slice());
            push_str(&mut handler, ")");
        },
        ReturnKind::Optional => {
            push_str(&mut handler, "java_bindgen::exception::option_handler(r, &mut ");
            push_chars(&mut handler, env.as_slice());
            push_str(&mut handler, ")");
        },
        ReturnKind::Plain => {
            push_str(&mut handler, "Default::default()");
        },
    }
    assert(handler@ =~= return_handler(kind, env@));
    let mut out: Vec<char> = Vec::new();
    push_str(&mut out, "#[no_mangle] #[allow(unused_mut, non_snake_case, unused_variables)] pub extern \"system\" fn ");
    push_chars(&mut out, chars_of(ffi_name).as_slice());
    push_chars(&mut out, chars_of(sig.jni_env_lifetime.as_str()).as_slice());
    push_str(&mut out, "(");
    push_chars(&mut out, chars_of(sig.args.as_str()).as_slice());
    push_str(&mut out, ") -> ");
    push_chars(&mut out, chars_of(jni_return).as_slice());
    push_str(&mut out, " { ");
    push_chars(&mut out, conversions.as_slice());
    push_str(&mut out, "let r = ");
    push_chars(&mut out, chars_of(fn_name).as_slice());
    push_str(&mut out, "(");
    push_chars(&mut out, chars_of(args_names).as_slice());
    push_str(&mut out, "); ");
    push_chars(&mut out, handler.as_slice());
    push_str(&mut out, " }");
    assert(out@ =~= ffi_fn_text(
        ffi_name@,
        sig.jni_env_lifetime@,
        sig.args@,
        jni_return@,
        conversions@,
        fn_name@,
        args_names@,
        handler@,
    ));
    let mut r = Tokens::new();
    errors.to_tokens(&mut r);
    r.push(Segment::Code(String::from_str("#[allow(non_snake_case)]")));
    r.push(Segment::Input);
    r.push(Segment::Code(string_of(out.as_slice())));
    r
}

/// The arguments `args` joined by commas.
pub open spec fn join_commas(args: Seq<Seq<char>>) -> Seq<char>
    decreases args.len(),
{
    if args.len() == 0 {
        Seq::<char>::empty()
    } else if args.len() == 1 {
        args[0]
    } else {
        join_commas(args.drop_last()) + ","@ + args.last()
    }
}

/// The Java declaration of the native method `name` with the Java
/// parameters `args`, returning `return_type`.
pub open spec fn native_method_text(return_type: Seq<char>, name: Seq<char>, args: Seq<Seq<char>>) -> Seq<char> {
    "public static native "@ + return_type + " "@ + name + "("@ + join_commas(args) + ")"@
}

/// `public static native RET NAME(ARGS)`: the Java side of the binding.
pub fn native_method_sig(return_type: &str, name: &str, args: &[String]) -> (r: String)
    ensures
        r@ == native_method_text(return_type@, name@, args@.map_values(|s: String| s@)),
{
    let ghost a = args@.map_values(|s: String| s@);
    let mut joined: Vec<char> = Vec::new();
    let mut i: usize = 0;
    assert(a.take(0) =~= Seq::<Seq<char>>::empty());
    while i < args.len()
        invariant
            i <= a.len(),
            a == args@.map_values(|s: String| s@),
            joined@ == join_commas(a.take(i as int)),
        decreases a.len() - i,
    {
        let ghost before = joined@;
        if i > 0 {
            push_str(&mut joined, ",");
        }
        push_chars(&mut joined, chars_of(args[i].as_str()).as_slice());
        i = i + 1;
        proof {
            assert(a.take(i as int).drop_last() == a.take(i - 1));
            assert(a.take(i as int).last() == args@[i - 1]@);
            if i == 1 {
                assert(a.take(0) =~= Seq::<Seq<char>>::empty());
                assert(joined@ =~= a.take(1)[0]);
            } else {
                assert(joined@ =~= before + ","@ + a.take(i as int).last());
            }
        }
    }
    assert(a.take(a.len() as int) == a);
    let mut out: Vec<char> = Vec::new();
    push_str(&mut out, "public static native ");
    push_chars(&mut out, chars_of(return_type).as_slice());
    push_str(&mut out, " ");
    push_chars(&mut out, chars_of(name).as_slice());
    push_str(&mut out, "(");
    push_chars(&mut out, joined.as_slice());
    push_str(&mut out, ")");
    assert(out@ =~= native_method_text(return_type@, name@, a));
    string_of(out.as_slice())
}

/// The output of `#[java_bindgen]` when the project's `Cargo.toml` cannot be
/// used: the function as written, then the error at it.
pub fn bindgen_toml_error(message: String) -> (r: Tokens)
    ensures
        r@ == seq![SegmentView::Input, SegmentView::CompileError(crate::tokens::Site::Item, message@)],
{
    let mut r = Tokens::new();
    r.push(Segment::Input);
    r.push(Segment::CompileError(crate::tokens::Site::Item, message));
    r
}

} // verus!
