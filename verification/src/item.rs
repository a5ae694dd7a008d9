//! The item that a macro is applied to, parsed with syn from its source
//! text and read into the library's models.
use vstd::prelude::*;
use quote::ToTokens;
use crate::types::{FnArgModel, GenericArg, PathArgs, TypeModel, TypeShape, TypedArg};

verus! {

#[verifier::external_type_specification]
#[verifier::external_body]
pub struct ExItemFn(syn::ItemFn);

#[verifier::external_type_specification]
#[verifier::external_body]
pub struct ExFnArg(syn::FnArg);

#[verifier::external_type_specification]
#[verifier::external_body]
pub struct ExType(syn::Type);

#[verifier::external_type_specification]
#[verifier::external_body]
pub struct ExDeriveInput(syn::DeriveInput);

#[verifier::external_type_specification]
#[verifier::external_body]
pub struct ExField(syn::Field);

/// `syn::parse_str::<syn::ItemFn>`: the item as a function, where it parses
/// as one. Nothing is claimed of the outcome: the lexer under the parse is
/// the compiler's inside a procedural macro and proc-macro2's elsewhere.
#[verifier::external_body]
fn parse_fn_syn(item: &str) -> Option<syn::ItemFn> {
    syn::parse_str::<syn::ItemFn>(item).ok()
}

/// The text of the function's name (`Ident`'s `Display`).
#[verifier::external_body]
fn fn_ident_text(f: &syn::ItemFn) -> String {
    f.sig.ident.to_string()
}

/// The function's inputs, in order (`Punctuated::iter`, cloned).
#[verifier::external_body]
fn fn_inputs(f: &syn::ItemFn) -> Vec<syn::FnArg> {
    f.sig.inputs.iter().cloned().collect()
}

/// The text of the pattern and the type of a typed input; none for a
/// receiver (`self`).
#[verifier::external_body]
fn fn_arg_typed(a: &syn::FnArg) -> Option<(String, syn::Type)> {
    match a {
        syn::FnArg::Receiver(_) => None,
        syn::FnArg::Typed(t) => Some((t.pat.to_token_stream().to_string(), (*t.ty).clone())),
    }
}

/// The text of a type's tokens (`ToTokens::to_token_stream`, then `Display`).
#[verifier::external_body]
fn type_text(ty: &syn::Type) -> String {
    ty.to_token_stream().to_string()
}

/// The outer level of a type: a path with the arguments of each segment, a
/// reference with the referenced type, or another type.
pub enum TypeLevel {
    Path(Vec<PathArgs>),
    Reference(syn::Type),
    Other,
}

/// The outer level of a type, read from syn's `Type`: each path segment's
/// arguments, with its lifetime arguments by their text.
#[verifier::external_body]
fn type_level(ty: &syn::Type) -> TypeLevel {
    match ty {
        syn::Type::Path(p) => TypeLevel::Path(p.path.segments.iter().map(|s| match &s.arguments {
            syn::PathArguments::None => PathArgs::NoArgs,
            syn::PathArguments::AngleBracketed(a) => PathArgs::AngleBracketed(a.args.iter().map(|g| match g {
                syn::GenericArgument::Lifetime(l) => GenericArg::Lifetime(l.to_string()),
                _ => GenericArg::Other,
            }).collect()),
            syn::PathArguments::Parenthesized(_) => PathArgs::Parenthesized,
        }).collect()),
        syn::Type::Reference(r) => TypeLevel::Reference((*r.elem).clone()),
        _ => TypeLevel::Other,
    }
}

/// The shape of a type from its outer level `outer` and, for a reference,
/// the level `inner` of the referenced type: a path keeps the arguments of
/// every segment; a reference keeps the referenced type's path with every
/// segment's arguments, where that is a path (any other referenced type, a
/// reference among them, shows as `Other`, which the lifetime search treats
/// alike); any other type is `Other`.
fn shape_from_levels(outer: TypeLevel, inner: Option<TypeLevel>) -> (r: TypeShape)
    ensures
        outer matches TypeLevel::Path(args) ==> r == TypeShape::Path(args),
        outer matches TypeLevel::Reference(_) ==> (r matches TypeShape::Reference(e) && (
        inner matches Some(TypeLevel::Path(args)) ==> *e == TypeShape::Path(args)) && (!(
        inner matches Some(TypeLevel::Path(_))) ==> *e == TypeShape::Other)),
        outer matches TypeLevel::Other ==> r == TypeShape::Other,
{
    match outer {
        TypeLevel::Path(args) => TypeShape::Path(args),
        TypeLevel::Reference(_) => match inner {
            Some(TypeLevel::Path(args)) => TypeShape::Reference(Box::new(TypeShape::Path(args))),
            _ => TypeShape::Reference(Box::new(TypeShape::Other)),
        },
        TypeLevel::Other => TypeShape::Other,
    }
}

/// The shape of a type as far as the lifetime search reads it: its outer
/// level and, for a reference, the level of the referenced type, read with
/// syn and put together by `shape_from_levels`.
fn type_shape(ty: &syn::Type) -> TypeShape {
    let outer = type_level(ty);
    let inner = match &outer {
        TypeLevel::Reference(elem) => Some(type_level(elem)),
        _ => None,
    };
    shape_from_levels(outer, inner)
}

/// A function item: its name and its inputs.
#[derive(Debug)]
pub struct ItemFnModel {
    pub name: String,
    pub inputs: Vec<FnArgModel>,
}

/// The function in the source text `item`, where syn parses it as one: its
/// name, and its inputs with no JNI rewrite applied.
pub fn parse_item_fn(item: &str) -> (r: Option<ItemFnModel>)
    ensures
        r matches Some(m) ==> forall|k: int|
            0 <= k < m.inputs@.len() ==> (#[trigger] m.inputs@[k] matches FnArgModel::Typed(t)
                ==> t.jni_ty is None),
{
    let f = match parse_fn_syn(item) {
        Some(f) => f,
        None => {
            return None;
        },
    };
    let args = fn_inputs(&f);
    let mut inputs: Vec<FnArgModel> = Vec::new();
    let mut i: usize = 0;
    while i < args.len()
        invariant
            i <= args@.len(),
            inputs@.len() == i,
            forall|k: int|
                0 <= k < inputs@.len() ==> (#[trigger] inputs@[k] matches FnArgModel::Typed(t)
                    ==> t.jni_ty is None),
        decreases args@.len() - i,
    {
        let model = match fn_arg_typed(&args[i]) {
            None => FnArgModel::Receiver,
            Some((pat, ty)) => FnArgModel::Typed(
                TypedArg {
                    pat,
                    ty: TypeModel { text: type_text(&ty), shape: type_shape(&ty) },
                    jni_ty: None,
                },
            ),
        };
        inputs.push(model);
        i = i + 1;
    }
    Some(ItemFnModel { name: fn_ident_text(&f), inputs })
}

/// `syn::parse_str::<syn::DeriveInput>`: the item as a derive input, where
/// it parses as one. Nothing is claimed of the outcome, for the reason given
/// at the function parse.
#[verifier::external_body]
fn parse_derive_syn(item: &str) -> Option<syn::DeriveInput> {
    syn::parse_str::<syn::DeriveInput>(item).ok()
}

/// The text of the item's name.
#[verifier::external_body]
fn derive_ident_text(d: &syn::DeriveInput) -> String {
    d.ident.to_string()
}

/// The texts of the type generics and the where clause that
/// `Generics::split_for_impl` gives.
#[verifier::external_body]
fn derive_generics_text(d: &syn::DeriveInput) -> (String, String) {
    let (_, ty_generics, where_clause) = d.generics.split_for_impl();
    (ty_generics.to_token_stream().to_string(), where_clause.to_token_stream().to_string())
}

/// The fields of a struct, in order; none for an enum or a union.
#[verifier::external_body]
fn derive_struct_fields(d: &syn::DeriveInput) -> Option<Vec<syn::Field>> {
    match &d.data {
        syn::Data::Struct(s) => Some(s.fields.iter().cloned().collect()),
        syn::Data::Enum(_) => None,
        syn::Data::Union(_) => None,
    }
}

/// The text of a field's name and its type; no name for a tuple field.
#[verifier::external_body]
fn field_parts(f: &syn::Field) -> (Option<String>, syn::Type) {
    (f.ident.as_ref().map(|i| i.to_string()), f.ty.clone())
}

/// A field as written: its name (none for a tuple field) and type text.
#[derive(Clone, Debug)]
pub struct FieldItem {
    pub name: Option<String>,
    pub ty: String,
}

/// An item that a derive is applied to.
#[derive(Clone, Debug)]
pub struct DeriveItem {
    pub name: String,
    pub ty_generics: String,
    pub where_clause: String,
    /// The fields of a struct, in order; none for an enum or a union.
    pub fields: Option<Vec<FieldItem>>,
}

/// The derive input in the source text `item`, where syn parses it as one.
pub fn parse_derive_item(item: &str) -> (r: Option<DeriveItem>) {
    let d = match parse_derive_syn(item) {
        Some(d) => d,
        None => {
            return None;
        },
    };
    let (ty_generics, where_clause) = derive_generics_text(&d);
    let fields = match derive_struct_fields(&d) {
        None => None,
        Some(fs) => {
            let mut out: Vec<FieldItem> = Vec::new();
            let mut i: usize = 0;
            while i < fs.len()
                invariant
                    i <= fs@.len(),
                decreases fs@.len() - i,
            {
                let (name, ty) = field_parts(&fs[i]);
                out.push(FieldItem { name, ty: type_text(&ty) });
                i = i + 1;
            }
            Some(out)
        },
    };
    Some(DeriveItem { name: derive_ident_text(&d), ty_generics, where_clause, fields })
}

} // verus!
