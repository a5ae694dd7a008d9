//! The parameter list of the `extern "system"` function that
//! `#[java_bindgen]` generates for a Rust function: the JNI environment and
//! class parameters first, then the other inputs, with their types rewritten
//! to JNI types where the rewrite applies.
use vstd::prelude::*;
use crate::text::{
    chars_eq, chars_of, contains, decimal, push_chars, push_decimal, push_str, remove_all,
    remove_all_chars, remove_char, string_of, trim, trim_chars,
};
use crate::tokens::{framed, text_lexes, ts2_from, ts2_text, CompileErrors, SegmentView, Site};
use crate::types::{env_lifetime, extract_jni_env_lifetime, text_contains, FnArgModel, TypedArg};

verus! {

/// The generated parameter list and what the rest of the expansion needs of it.
pub struct JavaFnSig {
    /// Source text of the parameters: environment, class, then the others.
    pub args: String,
    /// The name under which the JNI environment is passed.
    pub env_indent: String,
    /// The name under which the JNI class is passed.
    pub class_indent: String,
    /// The patterns of the inputs whose types were rewritten to JNI types,
    /// in order: these are converted back to Rust values in the body.
    pub into_rust_ident: Vec<String>,
    /// The lifetime, as `<'a>`, of the generated function.
    pub jni_env_lifetime: String,
}

/// The state of the parameter list while the inputs are read in order.
pub ghost struct SigState {
    pub env_indent: Seq<char>,
    pub class_indent: Seq<char>,
    pub jni_env: Seq<char>,
    pub jni_class: Seq<char>,
    pub args: Seq<char>,
    pub into_rust: Seq<Seq<char>>,
    pub errors: Seq<SegmentView>,
}

/// The error for a `self` input.
pub open spec fn self_msg() -> Seq<char> {
    "'self' parameter is not supported. Use functions for defining java bindings."@
}

/// The error for a JNI environment that is not taken by `&mut`.
pub open spec fn env_mut_msg() -> Seq<char> {
    "'JNIEnv' must be declared as mutable reference: &mut JNIEnv<'a>"@
}

/// The name under which input `i` with pattern `pat` is passed: the pattern,
/// or `arg{i}` where the pattern is `_`.
pub open spec fn input_ident(pat: Seq<char>, i: nat) -> Seq<char> {
    if trim(remove_char(pat, ' ')) == "_"@ {
        "arg"@ + decimal(i)
    } else {
        pat
    }
}

/// The state before any input is read, for the lifetime `lt` and the errors
/// gathered so far.
pub open spec fn sig_init(lt: Seq<char>, errors: Seq<SegmentView>) -> SigState {
    SigState {
        env_indent: "env"@,
        class_indent: "_classs"@,
        jni_env: "mut env : JNIEnv "@ + lt,
        jni_class: "_classs : JClass "@ + lt,
        args: Seq::<char>::empty(),
        into_rust: Seq::<Seq<char>>::empty(),
        errors,
    }
}

/// The type that a typed input is given in the generated signature: its
/// JNI rewrite where there is one, else its own type.
pub open spec fn effective_type(t: TypedArg) -> Seq<char> {
    match t.jni_ty {
        Some(j) => j@,
        None => t.ty.text@,
    }
}

/// The text that `ts2` lexes for a JNI environment input: its type, without
/// spaces and without `&mut`.
pub open spec fn env_type_text(t: TypedArg) -> Seq<char> {
    remove_all(remove_char(effective_type(t), ' '), "&mut"@)
}

/// Reading input `i`, where `lexed` is the lexer's verdict on the
/// environment type text of that input.
pub open spec fn sig_step(st: SigState, i: nat, a: FnArgModel, lexed: bool) -> SigState {
    match a {
        FnArgModel::Receiver => SigState {
            errors: st.errors.push(SegmentView::CompileError(Site::Span(i as usize), framed(self_msg()))),
            args: st.args + " self , "@ + st.args,
            ..st
        },
        FnArgModel::Typed(t) => {
            let ty = match t.jni_ty {
                Some(j) => j@,
                None => t.ty.text@,
            };
            let into_rust = if t.jni_ty is Some {
                st.into_rust.push(t.pat@)
            } else {
                st.into_rust
            };
            let type_string = remove_char(ty, ' ');
            if contains(type_string, "JNIEnv"@) {
                let errors = if !contains(type_string, "&mut"@) {
                    st.errors.push(
                        SegmentView::CompileError(Site::Span(i as usize), framed(env_mut_msg())),
                    )
                } else {
                    st.errors
                };
                let env = input_ident(t.pat@, i);
                let jni_env_type = ts2_text(lexed, remove_all(type_string, "&mut"@));
                SigState {
                    env_indent: env,
                    jni_env: "mut "@ + env + " : "@ + jni_env_type,
                    into_rust,
                    errors,
                    ..st
                }
            } else if contains(type_string, "JClass"@) {
                let cls = input_ident(t.pat@, i);
                SigState { class_indent: cls, jni_class: cls + " : "@ + ty, into_rust, ..st }
            } else {
                SigState { args: st.args + " , "@ + t.pat@ + " : "@ + ty, into_rust, ..st }
            }
        },
    }
}

/// The state after reading `args` in order from `init`, with `lexed[i]` the
/// lexer's verdict for input `i`.
pub open spec fn sig_fold(args: Seq<FnArgModel>, init: SigState, lexed: Seq<bool>) -> SigState
    decreases args.len(),
{
    if args.len() == 0 {
        init
    } else {
        sig_step(
            sig_fold(args.drop_last(), init, lexed),
            (args.len() - 1) as nat,
            args.last(),
            lexed[args.len() - 1],
        )
    }
}

/// The lifetime of the generated function: that of the JNI environment
/// input, or `<'l>`.
pub open spec fn sig_lifetime(args: Seq<FnArgModel>) -> Seq<char> {
    match env_lifetime(args) {
        Some(l) => l,
        None => "<'l>"@,
    }
}

/// The state after reading all of `args`, with the errors gathered before
/// and the lexer's verdicts `lexed`.
pub open spec fn sig_final(args: Seq<FnArgModel>, errors: Seq<SegmentView>, lexed: Seq<bool>) -> SigState {
    sig_fold(args, sig_init(sig_lifetime(args), errors), lexed)
}

/// `r` is the signature for `args` with the verdicts `lexed`, and the errors
/// went from `before` to `after`.
pub open spec fn sig_result(
    r: JavaFnSig,
    args: Seq<FnArgModel>,
    before: Seq<SegmentView>,
    after: Seq<SegmentView>,
    lexed: Seq<bool>,
) -> bool {
    let st = sig_final(args, before, lexed);
    &&& r.args@ == st.jni_env + ", "@ + st.jni_class + st.args
    &&& r.env_indent@ == st.env_indent
    &&& r.class_indent@ == st.class_indent
    &&& r.into_rust_ident@.map_values(|s: String| s@) == st.into_rust
    &&& r.jni_env_lifetime@ == sig_lifetime(args)
    &&& after == st.errors
}

struct SigBuilder {
    env_indent: Vec<char>,
    class_indent: Vec<char>,
    jni_env: Vec<char>,
    jni_class: Vec<char>,
    args: Vec<char>,
    into_rust: Vec<String>,
}

impl SigBuilder {
    spec fn state(&self, errors: Seq<SegmentView>) -> SigState {
        SigState {
            env_indent: self.env_indent@,
            class_indent: self.class_indent@,
            jni_env: self.jni_env@,
            jni_class: self.jni_class@,
            args: self.args@,
            into_rust: self.into_rust@.map_values(|s: String| s@),
            errors,
        }
    }
}

/// The name under which input `i` with pattern `pat` is passed.
fn input_ident_exec(pat: &str, i: usize) -> (r: Vec<char>)
    ensures
        r@ == input_ident(pat@, i as nat),
{
    let p = chars_of(pat);
    let spaceless = crate::text::remove_char_chars(p.as_slice(), ' ');
    let trimmed = trim_chars(spaceless.as_slice());
    if chars_eq(trimmed.as_slice(), chars_of("_").as_slice()) {
        let mut r: Vec<char> = Vec::new();
        push_str(&mut r, "arg");
        push_decimal(&mut r, i);
        r
    } else {
        p
    }
}

fn sig_step_exec(b: &mut SigBuilder, errors: &mut CompileErrors, i: usize, a: &FnArgModel, lexed: bool)
    ensures
        final(b).state(final(errors)@) == sig_step(old(b).state(old(errors)@), i as nat, *a, lexed),
{
    let ghost st = b.state(errors@);
    match a {
        FnArgModel::Receiver => {
            errors.add_spaned(Site::Span(i), String::from_str("'self' parameter is not supported. Use functions for defining java bindings."));
            let before = b.args.clone();
            push_str(&mut b.args, " self , ");
            push_chars(&mut b.args, before.as_slice());
            assert(b.args@ =~= st.args + " self , "@ + st.args);
        },
        FnArgModel::Typed(typed) => {
            let ty: &String = match &typed.jni_ty {
                Some(j) => {
                    b.into_rust.push(typed.pat.clone());
                    j
                },
                None => &typed.ty.text,
            };
            assert(b.into_rust@.map_values(|s: String| s@) =~= (if typed.jni_ty is Some {
                st.into_rust.push(typed.pat@)
            } else {
                st.into_rust
            }));
            let type_string = crate::text::remove_char_chars(chars_of(ty.as_str()).as_slice(), ' ');
            if text_contains(ty.as_str(), "JNIEnv") {
                if !text_contains(ty.as_str(), "&mut") {
                    errors.add_spaned(Site::Span(i), String::from_str("'JNIEnv' must be declared as mutable reference: &mut JNIEnv<'a>"));
                }
                let env = input_ident_exec(typed.pat.as_str(), i);
                proof {
                    reveal_strlit("&mut");
                }
                let removed = remove_all_chars(type_string.as_slice(), chars_of("&mut").as_slice());
                let jni_env_type = ts2_from(lexed, string_of(removed.as_slice()).as_str());
                let mut jni_env: Vec<char> = Vec::new();
                push_str(&mut jni_env, "mut ");
                push_chars(&mut jni_env, env.as_slice());
                push_str(&mut jni_env, " : ");
                push_chars(&mut jni_env, chars_of(jni_env_type.as_str()).as_slice());
                assert(jni_env@ =~= "mut "@ + env@ + " : "@ + jni_env_type@);
                b.env_indent = env;
                b.jni_env = jni_env;
            } else if text_contains(ty.as_str(), "JClass") {
                let cls = input_ident_exec(typed.pat.as_str(), i);
                let mut jni_class: Vec<char> = Vec::new();
                push_chars(&mut jni_class, cls.as_slice());
                push_str(&mut jni_class, " : ");
                push_chars(&mut jni_class, chars_of(ty.as_str()).as_slice());
                assert(jni_class@ =~= cls@ + " : "@ + ty@);
                b.class_indent = cls;
                b.jni_class = jni_class;
            } else {
                push_str(&mut b.args, " , ");
                push_chars(&mut b.args, chars_of(typed.pat.as_str()).as_slice());
                push_str(&mut b.args, " : ");
                push_chars(&mut b.args, chars_of(ty.as_str()).as_slice());
                assert(b.args@ =~= st.args + " , "@ + typed.pat@ + " : "@ + ty@);
            }
        },
    }
}

/// The parameter list of the generated JNI function for the inputs
/// `inputs`, with the errors it finds added to `errors`, where `lexed[i]` is
/// the lexer's verdict on the environment type text of input `i`: a `self`
/// input, and a JNI environment not taken by `&mut`, each give an error at
/// that input.
pub fn produce_fn_java_args_signature_lexed(
    inputs: &[FnArgModel],
    lexed: &[bool],
    errors: &mut CompileErrors,
) -> (r: JavaFnSig)
    requires
        lexed@.len() == inputs@.len(),
    ensures
        sig_result(r, inputs@, old(errors)@, final(errors)@, lexed@),
{
    let lt = match extract_jni_env_lifetime(inputs, errors) {
        Some(l) => l,
        None => String::from_str("<'l>"),
    };
    let ghost init = sig_init(lt@, errors@);
    let mut jni_env: Vec<char> = Vec::new();
    push_str(&mut jni_env, "mut env : JNIEnv ");
    push_chars(&mut jni_env, chars_of(lt.as_str()).as_slice());
    let mut jni_class: Vec<char> = Vec::new();
    push_str(&mut jni_class, "_classs : JClass ");
    push_chars(&mut jni_class, chars_of(lt.as_str()).as_slice());
    let mut b = SigBuilder {
        env_indent: chars_of("env"),
        class_indent: chars_of("_classs"),
        jni_env,
        jni_class,
        args: Vec::new(),
        into_rust: Vec::new(),
    };
    assert(b.jni_env@ =~= "mut env : JNIEnv "@ + lt@);
    assert(b.jni_class@ =~= "_classs : JClass "@ + lt@);
    assert(b.args@ =~= Seq::<char>::empty());
    assert(b.into_rust@.map_values(|s: String| s@) =~= Seq::<Seq<char>>::empty());
    assert(b.state(errors@) == init);
    let mut i: usize = 0;
    while i < inputs.len()
        invariant
            i <= inputs@.len(),
            lexed@.len() == inputs@.len(),
            b.state(errors@) == sig_fold(inputs@.take(i as int), init, lexed@),
        decreases inputs@.len() - i,
    {
        sig_step_exec(&mut b, errors, i, &inputs[i], lexed[i]);
        i = i + 1;
        assert(inputs@.take(i as int).drop_last() == inputs@.take(i - 1));
    }
    assert(inputs@.take(inputs@.len() as int) == inputs@);
    let mut args: Vec<char> = Vec::new();
    push_chars(&mut args, b.jni_env.as_slice());
    push_str(&mut args, ", ");
    push_chars(&mut args, b.jni_class.as_slice());
    push_chars(&mut args, b.args.as_slice());
    assert(args@ =~= b.jni_env@ + ", "@ + b.jni_class@ + b.args@);
    JavaFnSig {
        args: string_of(args.as_slice()),
        env_indent: string_of(b.env_indent.as_slice()),
        class_indent: string_of(b.class_indent.as_slice()),
        into_rust_ident: b.into_rust,
        jni_env_lifetime: lt,
    }
}

/// The parameter list of the generated JNI function for the inputs
/// `inputs`, with the errors it finds added to `errors`. The environment
/// type of each JNI environment input is lexed; what the result is holds
/// for the verdicts that the lexer gave.
pub fn produce_fn_java_args_signature(inputs: &[FnArgModel], errors: &mut CompileErrors) -> (r: JavaFnSig)
    ensures
        exists|lexed: Seq<bool>|
            lexed.len() == inputs@.len() && sig_result(r, inputs@, old(errors)@, final(errors)@, lexed),
{
    let mut lexed: Vec<bool> = Vec::new();
    let mut i: usize = 0;
    while i < inputs.len()
        invariant
            i <= inputs@.len(),
            lexed@.len() == i,
        decreases inputs@.len() - i,
    {
        let verdict = match &inputs[i] {
            FnArgModel::Typed(t) => {
                let ty: &String = match &t.jni_ty {
                    Some(j) => j,
                    None => &t.ty.text,
                };
                if text_contains(ty.as_str(), "JNIEnv") {
                    proof {
                        reveal_strlit("&mut");
                    }
                    let spaceless = crate::text::remove_char_chars(chars_of(ty.as_str()).as_slice(), ' ');
                    let removed = remove_all_chars(spaceless.as_slice(), chars_of("&mut").as_slice());
                    text_lexes(string_of(removed.as_slice()).as_str())
                } else {
                    true
                }
            },
            FnArgModel::Receiver => true,
        };
        lexed.push(verdict);
        i = i + 1;
    }
    let r = produce_fn_java_args_signature_lexed(inputs, lexed.as_slice(), errors);
    assert(lexed@.len() == inputs@.len() && sig_result(r, inputs@, old(errors)@, errors@, lexed@));
    r
}

} // verus!
