//! What the macros read of a Rust type or function input: the source text
//! of its tokens, and where lifetimes stand in it.
use vstd::prelude::*;
use crate::text::{chars_eq, chars_of, contains, contains_chars, remove_char, remove_char_chars, push_chars, push_str, string_of};
use crate::tokens::CompileErrors;

verus! {

/// A generic argument inside `<...>`.
#[derive(Clone, Debug)]
pub enum GenericArg {
    /// A lifetime, by its source text (such as `'a`).
    Lifetime(String),
    /// A type, a constant or a binding.
    Other,
}

/// The arguments of one path segment.
#[derive(Clone, Debug)]
pub enum PathArgs {
    NoArgs,
    AngleBracketed(Vec<GenericArg>),
    Parenthesized,
}

/// The shape of a type, as far as the lifetime search reads it.
#[derive(Debug)]
pub enum TypeShape {
    /// A path such as `a::b<'x, T>::c`: the arguments of each segment.
    Path(Vec<PathArgs>),
    /// `&T` or `&mut T`: the shape of `T`, of which the lifetime search
    /// reads no more than whether it is a path.
    Reference(Box<TypeShape>),
    /// Any other type.
    Other,
}

/// A type: the source text of its tokens, and its shape.
#[derive(Debug)]
pub struct TypeModel {
    pub text: String,
    pub shape: TypeShape,
}

/// An input `pat: ty` of a function.
#[derive(Debug)]
pub struct TypedArg {
    /// Source text of the pattern.
    pub pat: String,
    /// The declared type.
    pub ty: TypeModel,
    /// Source text of the JNI type that the type is rewritten to, where the
    /// JNI type rewrite applies to it.
    pub jni_ty: Option<String>,
}

/// An input of a function.
#[derive(Debug)]
pub enum FnArgModel {
    /// `self`, `&self` or `&mut self`.
    Receiver,
    Typed(TypedArg),
}

/// The first lifetime among `args`.
pub open spec fn first_lifetime_in_args(args: Seq<GenericArg>) -> Option<Seq<char>>
    decreases args.len(),
{
    if args.len() == 0 {
        None
    } else {
        match args[0] {
            GenericArg::Lifetime(l) => Some(l@),
            GenericArg::Other => first_lifetime_in_args(args.drop_first()),
        }
    }
}

/// The first lifetime in angle brackets among the path segments `segs`.
pub open spec fn first_lifetime_in_segments(segs: Seq<PathArgs>) -> Option<Seq<char>>
    decreases segs.len(),
{
    if segs.len() == 0 {
        None
    } else {
        let here = match segs[0] {
            PathArgs::AngleBracketed(a) => first_lifetime_in_args(a@),
            _ => None,
        };
        if here is Some {
            here
        } else {
            first_lifetime_in_segments(segs.drop_first())
        }
    }
}

/// `<'a>` for the first lifetime argument `'a` of a path type.
pub open spec fn type_lifetime(shape: TypeShape) -> Option<Seq<char>> {
    match shape {
        TypeShape::Path(segs) => match first_lifetime_in_segments(segs@) {
            Some(l) => Some("<"@ + l + ">"@),
            None => None,
        },
        _ => None,
    }
}

fn first_lifetime_in_args_exec(args: &Vec<GenericArg>) -> (r: Option<&String>)
    ensures
        r matches Some(l) ==> first_lifetime_in_args(args@) == Some(l@),
        r is None ==> first_lifetime_in_args(args@) is None,
{
    let mut i: usize = 0;
    assert(args@.skip(0) == args@);
    while i < args.len()
        invariant
            i <= args@.len(),
            first_lifetime_in_args(args@) == first_lifetime_in_args(args@.skip(i as int)),
        decreases args@.len() - i,
    {
        assert(args@.skip(i as int)[0] == args@[i as int]);
        match &args[i] {
            GenericArg::Lifetime(l) => {
                return Some(l);
            },
            GenericArg::Other => {},
        }
        assert(args@.skip(i as int).drop_first() == args@.skip(i + 1));
        i = i + 1;
    }
    None
}

/// `<'a>` for the first lifetime argument `'a` in a path type, such as
/// `JNIEnv<'a>`; none for any other type.
pub fn lifetime_from_type(ty: &TypeShape) -> (r: Option<String>)
    ensures
        r matches Some(s) ==> type_lifetime(*ty) == Some(s@),
        r is None ==> type_lifetime(*ty) is None,
{
    if let TypeShape::Path(segs) = ty {
        let mut i: usize = 0;
        assert(segs@.skip(0) == segs@);
        while i < segs.len()
            invariant
                i <= segs@.len(),
                *ty == TypeShape::Path(*segs),
                first_lifetime_in_segments(segs@) == first_lifetime_in_segments(segs@.skip(i as int)),
            decreases segs@.len() - i,
        {
            assert(segs@.skip(i as int)[0] == segs@[i as int]);
            if let PathArgs::AngleBracketed(args) = &segs[i] {
                if let Some(l) = first_lifetime_in_args_exec(args) {
                    assert(first_lifetime_in_segments(segs@.skip(i as int)) == Some(l@));
                    let mut out: Vec<char> = Vec::new();
                    push_str(&mut out, "<");
                    push_chars(&mut out, chars_of(l.as_str()).as_slice());
                    push_str(&mut out, ">");
                    assert(out@ =~= "<"@ + l@ + ">"@);
                    return Some(string_of(out.as_slice()));
                }
            }
            assert(segs@.skip(i as int).drop_first() == segs@.skip(i + 1));
            i = i + 1;
        }
        assert(segs@.skip(i as int) =~= Seq::<PathArgs>::empty());
    }
    None
}

/// The lifetime that an input gives to the JNI environment: where its type
/// text, without spaces, holds `JNIEnv` and the type is a reference, the
/// lifetime of the referenced type.
pub open spec fn arg_env_lifetime(a: FnArgModel) -> Option<Seq<char>> {
    match a {
        FnArgModel::Typed(t) => if contains(remove_char(t.ty.text@, ' '), "JNIEnv"@) {
            match t.ty.shape {
                TypeShape::Reference(elem) => type_lifetime(*elem),
                _ => None,
            }
        } else {
            None
        },
        FnArgModel::Receiver => None,
    }
}

/// The first lifetime that an input among `args` gives to the JNI environment.
pub open spec fn env_lifetime(args: Seq<FnArgModel>) -> Option<Seq<char>>
    decreases args.len(),
{
    if args.len() == 0 {
        None
    } else if arg_env_lifetime(args[0]) is Some {
        arg_env_lifetime(args[0])
    } else {
        env_lifetime(args.drop_first())
    }
}

/// Whether `text` holds `pat`, spaces in `text` left out.
pub fn text_contains(text: &str, pat: &str) -> (r: bool)
    ensures
        r == contains(remove_char(text@, ' '), pat@),
{
    let t = remove_char_chars(chars_of(text).as_slice(), ' ');
    contains_chars(t.as_slice(), chars_of(pat).as_slice())
}

/// The lifetime of the JNI environment among the inputs: `<'a>` for the
/// first input of a reference type to `JNIEnv<'a>`.
pub fn extract_jni_env_lifetime(inputs: &[FnArgModel], _errors: &mut CompileErrors) -> (r: Option<String>)
    ensures
        r matches Some(s) ==> env_lifetime(inputs@) == Some(s@),
        r is None ==> env_lifetime(inputs@) is None,
        final(_errors)@ == old(_errors)@,
{
    let mut i: usize = 0;
    assert(inputs@.skip(0) == inputs@);
    while i < inputs.len()
        invariant
            i <= inputs@.len(),
            env_lifetime(inputs@) == env_lifetime(inputs@.skip(i as int)),
        decreases inputs@.len() - i,
    {
        assert(inputs@.skip(i as int)[0] == inputs@[i as int]);
        assert(inputs@.skip(i as int).drop_first() == inputs@.skip(i + 1));
        if let FnArgModel::Typed(typed) = &inputs[i] {
            if text_contains(typed.ty.text.as_str(), "JNIEnv") {
                if let TypeShape::Reference(elem) = &typed.ty.shape {
                    if let Some(l) = lifetime_from_type(elem) {
                        return Some(l);
                    }
                }
            }
        }
        i = i + 1;
    }
    None
}

/// Whether a type, by its source text without spaces, is `bool` or
/// `Option<bool>`.
pub open spec fn bool_type_text(text: Seq<char>) -> bool {
    let t = remove_char(text, ' ');
    t == "bool"@ || t == "Option<bool>"@
}

/// Whether the type with source text `ty` is `bool` or `Option<bool>`.
pub fn is_bool_type(ty: &str) -> (r: bool)
    ensures
        r == bool_type_text(ty@),
{
    let t = remove_char_chars(chars_of(ty).as_slice(), ' ');
    chars_eq(t.as_slice(), chars_of("bool").as_slice()) || chars_eq(
        t.as_slice(),
        chars_of("Option<bool>").as_slice(),
    )
}

} // verus!
