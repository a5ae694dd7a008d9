//! The expansions of the macros as a whole: from what the compiler and the
//! project give (whether the item parsed, whether it is a struct, the read
//! manifest, the fields and the errors gathered for them) to the generated
//! tokens, and to what the expansion records in the project's FFI store.
use vstd::prelude::*;
use crate::attr::{attr_map, attr_returns, JavaBindgenAttr};
use crate::bindgen::{
    bindgen_output, ffi_fn_text, jni_return_text, jni_return_type, native_method_sig,
    native_method_text, return_handler, rewrites, ReturnKind,
};
use crate::derive::{
    getter_lines, getter_ready, impl_into_java, impl_into_rust, impl_java_class, impl_java_type,
    impl_jlogger, into_java_text, into_rust_text, java_type_text, jlogger_text,
    only_struct_error, FieldModel,
};
use crate::project::{parse_project_toml, toml_problem, ProjectToml};
use crate::signature::{produce_fn_java_args_signature, sig_final, sig_lifetime};
use crate::tokens::{error, framed, CompileErrors, Segment, SegmentView, Site, Tokens};
use crate::types::{FnArgModel, TypedArg};
use crate::item::{parse_derive_item, parse_item_fn, DeriveItem, FieldItem, ItemFnModel};
use crate::text::chars_of;

verus! {

/// What a derive expands to, and whether it registers the struct as a Java
/// class in the project's FFI store.
pub struct DeriveExpansion {
    pub tokens: Tokens,
    pub register_class: bool,
}

/// The error of a derive applied to something other than a struct.
pub open spec fn only_struct_tokens() -> Seq<SegmentView> {
    seq![SegmentView::CompileError(Site::CallSite, framed("Only struct is allowed."@))]
}

/// The error of a derive whose project manifest has the problem `m`.
pub open spec fn toml_error_tokens(m: Seq<char>) -> Seq<SegmentView> {
    seq![SegmentView::CompileError(Site::Item, m)]
}

/// `r` is the expansion of the `IntoRust` derive for these values.
pub open spec fn into_rust_expansion_ok(
    parsed: bool,
    is_struct: bool,
    fields_ok: bool,
    name: Seq<char>,
    fields: Seq<FieldModel>,
    errors: Seq<SegmentView>,
    r: DeriveExpansion,
) -> bool {
    &&& !parsed ==> r.tokens@ == seq![SegmentView::Input] && !r.register_class
    &&& parsed && !is_struct ==> r.tokens@ == only_struct_tokens() && !r.register_class
    &&& parsed && is_struct && !fields_ok ==> r.tokens@ == errors && !r.register_class
    &&& parsed && is_struct && fields_ok ==> r.register_class && exists|lexed: Seq<bool>|
        lexed.len() == fields.len() && r.tokens@ == errors.push(
            SegmentView::Code(into_rust_text(name, #[trigger] getter_lines(fields, lexed))),
        )
}

/// The expansion of the `IntoRust` derive. `parsed`: the item parsed as a
/// derive input; `is_struct`: it is a struct; `fields_ok`: its fields gave
/// Java types; `errors`: the errors gathered while reading the fields.
pub fn derive_into_rust_expansion(
    parsed: bool,
    is_struct: bool,
    fields_ok: bool,
    name: &str,
    fields: &[FieldModel],
    errors: CompileErrors,
) -> (r: DeriveExpansion)
    requires
        parsed && is_struct && fields_ok ==> forall|k: int|
            0 <= k < fields@.len() ==> getter_ready(#[trigger] fields@[k].name@),
    ensures
        into_rust_expansion_ok(parsed, is_struct, fields_ok, name@, fields@, errors@, r),
{
    if !parsed {
        let mut t = Tokens::new();
        t.push(Segment::Input);
        return DeriveExpansion { tokens: t, register_class: false };
    }
    if !is_struct {
        return DeriveExpansion { tokens: only_struct_error(), register_class: false };
    }
    if !fields_ok {
        return DeriveExpansion { tokens: errors.into_tokens(), register_class: false };
    }
    DeriveExpansion { tokens: impl_into_rust(name, fields, &errors), register_class: true }
}

/// Which impl a derive with a manifest generates.
#[derive(Clone, Copy, PartialEq, Eq, Structural, Debug)]
pub enum DeriveKind {
    IntoJava,
    JavaType,
    JavaClass,
}

/// The impls that the derive `kind` generates, after the errors, with
/// `lexed` the lexer's verdicts on the getter literals.
pub open spec fn derive_tokens(
    kind: DeriveKind,
    class_path: Seq<char>,
    name: Seq<char>,
    ty_generics: Seq<char>,
    where_clause: Seq<char>,
    fields: Seq<FieldModel>,
    errors: Seq<SegmentView>,
    lexed: Seq<bool>,
) -> Seq<SegmentView> {
    let into_java = errors.push(
        SegmentView::Code(into_java_text(name, ty_generics, where_clause, class_path, fields)),
    );
    let java_type = errors.push(
        SegmentView::Code(java_type_text(name, ty_generics, where_clause, class_path)),
    );
    match kind {
        DeriveKind::IntoJava => into_java,
        DeriveKind::JavaType => java_type,
        DeriveKind::JavaClass => into_java + errors.push(
            SegmentView::Code(into_rust_text(name, getter_lines(fields, lexed))),
        ) + java_type,
    }
}

/// `r` is the expansion of the derive `kind` for these values, where
/// `problem` is what is wrong with the project's manifest.
pub open spec fn derive_expansion_ok(
    kind: DeriveKind,
    parsed: bool,
    is_struct: bool,
    problem: Option<Seq<char>>,
    fields_ok: bool,
    class_path: Seq<char>,
    name: Seq<char>,
    ty_generics: Seq<char>,
    where_clause: Seq<char>,
    fields: Seq<FieldModel>,
    errors: Seq<SegmentView>,
    r: DeriveExpansion,
) -> bool {
    &&& !parsed ==> r.tokens@ == Seq::<SegmentView>::empty() && !r.register_class
    &&& parsed && !is_struct ==> r.tokens@ == only_struct_tokens() && !r.register_class
    &&& parsed && is_struct ==> match problem {
        Some(m) => r.tokens@ == toml_error_tokens(m) && !r.register_class,
        None => if !fields_ok {
            r.tokens@ == errors && !r.register_class
        } else {
            r.register_class && exists|lexed: Seq<bool>|
                lexed.len() == fields.len() && r.tokens@ == #[trigger] derive_tokens(
                    kind,
                    class_path,
                    name,
                    ty_generics,
                    where_clause,
                    fields,
                    errors,
                    lexed,
                )
        },
    }
}

/// The expansion of the `IntoJava`, `JavaType` and `JavaClass` derives.
/// `parsed`: the item parsed as a derive input; `is_struct`: it is a struct;
/// `toml`: the project's manifest as read; `fields_ok`: the fields gave Java
/// types; `errors`: the errors gathered while reading the fields;
/// `class_path`: the source text of the Java class path.
pub fn derive_expansion<T>(
    kind: DeriveKind,
    parsed: bool,
    is_struct: bool,
    toml: Result<ProjectToml<T>, String>,
    fields_ok: bool,
    class_path: &str,
    name: &str,
    ty_generics: &str,
    where_clause: &str,
    fields: &[FieldModel],
    errors: CompileErrors,
) -> (r: DeriveExpansion)
    requires
        kind == DeriveKind::JavaClass && parsed && is_struct && toml_problem(toml) is None
            && fields_ok ==> forall|k: int|
            0 <= k < fields@.len() ==> getter_ready(#[trigger] fields@[k].name@),
    ensures
        derive_expansion_ok(
            kind,
            parsed,
            is_struct,
            toml_problem(toml),
            fields_ok,
            class_path@,
            name@,
            ty_generics@,
            where_clause@,
            fields@,
            errors@,
            r,
        ),
{
    if !parsed {
        return DeriveExpansion { tokens: Tokens::new(), register_class: false };
    }
    if !is_struct {
        return DeriveExpansion { tokens: only_struct_error(), register_class: false };
    }
    match parse_project_toml(toml) {
        Err(m) => {
            return DeriveExpansion { tokens: error(Site::Item, m), register_class: false };
        },
        Ok(_) => {},
    }
    if !fields_ok {
        return DeriveExpansion { tokens: errors.into_tokens(), register_class: false };
    }
    let tokens = match kind {
        DeriveKind::IntoJava => {
            let t = impl_into_java(class_path, name, ty_generics, where_clause, fields, &errors);
            let ghost w = Seq::new(fields@.len(), |k: int| true);
            assert(w.len() == fields@.len() && t@ == derive_tokens(kind, class_path@, name@, ty_generics@, where_clause@, fields@, errors@, w));
            t
        },
        DeriveKind::JavaType => {
            let t = impl_java_type(class_path, name, ty_generics, where_clause, &errors);
            let ghost w = Seq::new(fields@.len(), |k: int| true);
            assert(w.len() == fields@.len() && t@ == derive_tokens(kind, class_path@, name@, ty_generics@, where_clause@, fields@, errors@, w));
            t
        },
        DeriveKind::JavaClass => {
            let t = impl_java_class(class_path, name, ty_generics, where_clause, fields, &errors);
            let ghost w = choose|lexed: Seq<bool>|
                lexed.len() == fields@.len() && t@ == errors@.push(
                    SegmentView::Code(
                        into_java_text(name@, ty_generics@, where_clause@, class_path@, fields@),
                    ),
                ) + errors@.push(SegmentView::Code(into_rust_text(name@, getter_lines(fields@, lexed))))
                    + errors@.push(
                    SegmentView::Code(java_type_text(name@, ty_generics@, where_clause@, class_path@)),
                );
            assert(w.len() == fields@.len() && t@ == derive_tokens(kind, class_path@, name@, ty_generics@, where_clause@, fields@, errors@, w));
            t
        },
    };
    DeriveExpansion { tokens, register_class: true }
}

/// `r` is the expansion of the logger derive for these values.
pub open spec fn jlogger_expansion_ok(
    parsed: bool,
    is_struct: bool,
    problem: Option<Seq<char>>,
    name: Seq<char>,
    class_path: Seq<char>,
    r: Seq<SegmentView>,
) -> bool {
    &&& !parsed ==> r == Seq::<SegmentView>::empty()
    &&& parsed && !is_struct ==> r == only_struct_tokens()
    &&& parsed && is_struct ==> match problem {
        Some(m) => r == toml_error_tokens(m),
        None => r == seq![SegmentView::Code(jlogger_text(name, class_path))],
    }
}

/// The expansion of the logger derive. `class_path` is the source text of
/// the path of the project's Java class.
pub fn derive_jlogger_expansion<T>(
    parsed: bool,
    is_struct: bool,
    toml: Result<ProjectToml<T>, String>,
    name: &str,
    class_path: &str,
) -> (r: Tokens)
    ensures
        jlogger_expansion_ok(parsed, is_struct, toml_problem(toml), name@, class_path@, r@),
{
    if !parsed {
        return Tokens::new();
    }
    if !is_struct {
        return only_struct_error();
    }
    match parse_project_toml(toml) {
        Err(m) => error(Site::Item, m),
        Ok(_) => impl_jlogger(name, class_path),
    }
}

/// The text of an optional string.
pub open spec fn opt_text(o: Option<String>) -> Option<Seq<char>> {
    match o {
        Some(t) => Some(t@),
        None => None,
    }
}

/// What `#[java_bindgen]` expands to, and the Java declaration of the native
/// method that it records in the project's FFI store.
pub struct BindgenExpansion {
    pub tokens: Tokens,
    pub ffi_method: Option<String>,
}

/// The Java return type of the native method: the attribute's, else the one
/// derived from the Rust return type.
pub open spec fn java_return_text(attr: Seq<char>, produced: Seq<char>) -> Seq<char> {
    match attr_returns(attr_map(attr)) {
        Some(t) => t,
        None => produced,
    }
}

/// The tokens of a bound function: the errors after the signature, the
/// function as written and the JNI function, with `lexed` the lexer's
/// verdicts on the environment types.
pub open spec fn bindgen_tokens(
    inputs: Seq<FnArgModel>,
    errors: Seq<SegmentView>,
    lexed: Seq<bool>,
    attr: Seq<char>,
    rewritten_return: Option<Seq<char>>,
    return_type: Seq<char>,
    kind: ReturnKind,
    ffi_name: Seq<char>,
    fn_name: Seq<char>,
    args_names: Seq<char>,
) -> Seq<SegmentView> {
    let st = sig_final(inputs, errors, lexed);
    let lt = sig_lifetime(inputs);
    let ret = jni_return_text(rewritten_return, attr_returns(attr_map(attr)) is Some, return_type, lt);
    st.errors + seq![
        SegmentView::Code("#[allow(non_snake_case)]"@),
        SegmentView::Input,
        SegmentView::Code(
            ffi_fn_text(
                ffi_name,
                lt,
                st.jni_env + ", "@ + st.jni_class + st.args,
                ret,
                rewrites(st.into_rust, st.env_indent),
                fn_name,
                args_names,
                return_handler(kind, st.env_indent),
            ),
        ),
    ]
}

/// `r` is the expansion of `#[java_bindgen]` for these values, where
/// `problem` is what is wrong with the project's manifest.
pub open spec fn bindgen_expansion_ok(
    parsed: bool,
    attr: Seq<char>,
    problem: Option<Seq<char>>,
    inputs: Seq<FnArgModel>,
    errors: Seq<SegmentView>,
    kind: ReturnKind,
    return_type: Seq<char>,
    rewritten_return: Option<Seq<char>>,
    java_args: Seq<Seq<char>>,
    produced_java_return: Seq<char>,
    ffi_name: Seq<char>,
    fn_name: Seq<char>,
    args_names: Seq<char>,
    r: BindgenExpansion,
) -> bool {
    &&& !parsed ==> r.tokens@ == seq![SegmentView::Input] && r.ffi_method is None
    &&& parsed ==> match problem {
        Some(m) => r.tokens@ == seq![SegmentView::Input, SegmentView::CompileError(Site::Item, m)]
            && r.ffi_method is None,
        None => {
            &&& r.ffi_method matches Some(s) && s@ == native_method_text(
                java_return_text(attr, produced_java_return),
                fn_name,
                java_args,
            )
            &&& exists|lexed: Seq<bool>|
                lexed.len() == inputs.len() && r.tokens@ == #[trigger] bindgen_tokens(
                    inputs,
                    errors,
                    lexed,
                    attr,
                    rewritten_return,
                    return_type,
                    kind,
                    ffi_name,
                    fn_name,
                    args_names,
                )
        },
    }
}

/// The expansion of `#[java_bindgen]` on a function. `parsed`: the item
/// parsed as a function; `attr`: the attribute text; `toml`: the project's
/// manifest as read; `inputs`: the function's inputs; `errors`: the errors
/// gathered from its return type and Java types; `kind`, `return_type` and
/// `rewritten_return`: how the result reaches Java, the Rust return type and
/// its JNI rewrite; `java_args` and `produced_java_return`: the Java
/// parameters and the Java return type derived from the Rust types;
/// `ffi_name`, `fn_name`, `args_names`: the JNI function's name, the bound
/// function's name and the arguments it is called with.
pub fn bindgen_expansion<T>(
    parsed: bool,
    attr: &str,
    toml: Result<ProjectToml<T>, String>,
    inputs: &[FnArgModel],
    errors: CompileErrors,
    kind: ReturnKind,
    return_type: &str,
    rewritten_return: Option<String>,
    java_args: &[String],
    produced_java_return: &str,
    ffi_name: &str,
    fn_name: &str,
    args_names: &str,
) -> (r: BindgenExpansion)
    ensures
        bindgen_expansion_ok(
            parsed,
            attr@,
            toml_problem(toml),
            inputs@,
            errors@,
            kind,
            return_type@,
            opt_text(rewritten_return),
            java_args@.map_values(|a: String| a@),
            produced_java_return@,
            ffi_name@,
            fn_name@,
            args_names@,
            r,
        ),
{
    if !parsed {
        let mut t = Tokens::new();
        t.push(Segment::Input);
        return BindgenExpansion { tokens: t, ffi_method: None };
    }
    let attribute = JavaBindgenAttr::parse_attr(attr);
    match parse_project_toml(toml) {
        Err(m) => {
            let ghost mv = m@;
            let mut t = Tokens::new();
            t.push(Segment::Input);
            t.push(Segment::CompileError(Site::Item, m));
            assert(t@ =~= seq![SegmentView::Input, SegmentView::CompileError(Site::Item, mv)]);
            return BindgenExpansion { tokens: t, ffi_method: None };
        },
        Ok(_) => {},
    }
    let java_return = match &attribute.return_type {
        Some(t) => t.clone(),
        None => String::from_str(produced_java_return),
    };
    let method = native_method_sig(java_return.as_str(), fn_name, java_args);
    let mut errors = errors;
    let ghost before = errors@;
    let sig = produce_fn_java_args_signature(inputs, &mut errors);
    let attr_return = match &attribute.return_type {
        Some(_) => true,
        None => false,
    };
    let jni_return = jni_return_type(rewritten_return, attr_return, return_type, sig.jni_env_lifetime.as_str());
    let tokens = bindgen_output(&errors, &sig, ffi_name, fn_name, args_names, jni_return.as_str(), kind);
    proof {
        let lexed = choose|lexed: Seq<bool>|
            lexed.len() == inputs@.len() && #[trigger] crate::signature::sig_result(sig, inputs@, before, errors@, lexed);
        assert(tokens@ =~= bindgen_tokens(
            inputs@,
            before,
            lexed,
            attr@,
            opt_text(rewritten_return),
            return_type@,
            kind,
            ffi_name@,
            fn_name@,
            args_names@,
        ));
    }
    BindgenExpansion { tokens, ffi_method: Some(method) }
}

/// The named fields among `fields`, in order, each by its name and type text.
pub open spec fn named_fields(fields: Seq<FieldItem>) -> Seq<(Seq<char>, Seq<char>)>
    decreases fields.len(),
{
    if fields.len() == 0 {
        Seq::<(Seq<char>, Seq<char>)>::empty()
    } else {
        let p = named_fields(fields.drop_last());
        match fields.last().name {
            Some(n) => p.push((n@, fields.last().ty@)),
            None => p,
        }
    }
}

/// The named fields of a parsed derive input; none where it did not parse
/// or is not a struct.
pub open spec fn item_fields(item: Option<DeriveItem>) -> Seq<(Seq<char>, Seq<char>)> {
    match item {
        Some(d) => match d.fields {
            Some(fs) => named_fields(fs@),
            None => Seq::<(Seq<char>, Seq<char>)>::empty(),
        },
        None => Seq::<(Seq<char>, Seq<char>)>::empty(),
    }
}

/// Each field by its name and type text.
pub open spec fn field_views(fields: Seq<FieldModel>) -> Seq<(Seq<char>, Seq<char>)> {
    fields.map_values(|f: FieldModel| (f.name@, f.ty@))
}

/// The name of a parsed derive input; nothing where it did not parse.
pub open spec fn item_name(item: Option<DeriveItem>) -> Seq<char> {
    match item {
        Some(d) => d.name@,
        None => Seq::<char>::empty(),
    }
}

/// Whether the getter name can be formed for every field.
pub open spec fn all_getter_ready(fields: Seq<FieldModel>) -> bool {
    forall|k: int| 0 <= k < fields.len() ==> getter_ready(#[trigger] fields[k].name@)
}

fn named_field_models(item: &Option<DeriveItem>) -> (r: Vec<FieldModel>)
    ensures
        field_views(r@) == item_fields(*item),
{
    let mut out: Vec<FieldModel> = Vec::new();
    if let Some(d) = item {
        if let Some(fs) = &d.fields {
            let mut i: usize = 0;
            assert(fs@.take(0) =~= Seq::<FieldItem>::empty());
            assert(field_views(out@) =~= Seq::<(Seq<char>, Seq<char>)>::empty());
            while i < fs.len()
                invariant
                    i <= fs@.len(),
                    field_views(out@) == named_fields(fs@.take(i as int)),
                decreases fs@.len() - i,
            {
                let ghost before = out@;
                assert(fs@.take(i + 1).drop_last() == fs@.take(i as int));
                if let Some(n) = &fs[i].name {
                    out.push(FieldModel { name: n.clone(), ty: fs[i].ty.clone() });
                    assert(field_views(out@) =~= field_views(before).push((n@, fs@[i as int].ty@)));
                }
                i = i + 1;
            }
            assert(fs@.take(fs@.len() as int) == fs@);
        }
    }
    out
}

fn all_ready(fields: &[FieldModel]) -> (r: bool)
    ensures
        r == all_getter_ready(fields@),
{
    let mut i: usize = 0;
    while i < fields.len()
        invariant
            i <= fields@.len(),
            forall|k: int| 0 <= k < i ==> getter_ready(#[trigger] fields@[k].name@),
        decreases fields@.len() - i,
    {
        let n = chars_of(fields[i].name.as_str());
        if n.len() == 0 || (n[0] as u32) >= 128 {
            return false;
        }
        i = i + 1;
    }
    true
}

/// A derive applied to the item with source text `item`: the item as
/// parsed, its named fields, and the expansion. The expansion is none only
/// where a getter name is needed for a field whose name does not start with
/// a one-byte character, on which the derive panics.
pub struct DeriveOfItem {
    pub item: Option<DeriveItem>,
    pub fields: Vec<FieldModel>,
    pub expansion: Option<DeriveExpansion>,
}

/// The `IntoRust` derive applied to the source text `item`: whether it
/// parsed, whether it is a struct, its name and its named fields come from
/// the parse; `fields_ok` and `errors` from reading the fields.
pub fn derive_into_rust_expansion_of_item(
    item: &str,
    fields_ok: bool,
    errors: CompileErrors,
) -> (r: DeriveOfItem)
    ensures
        field_views(r.fields@) == item_fields(r.item),
        ({
            let parsed = r.item is Some;
            let is_struct = r.item matches Some(d) && d.fields is Some;
            if parsed && is_struct && fields_ok && !all_getter_ready(r.fields@) {
                r.expansion is None
            } else {
                r.expansion matches Some(e) && into_rust_expansion_ok(
                    parsed,
                    is_struct,
                    fields_ok,
                    item_name(r.item),
                    r.fields@,
                    errors@,
                    e,
                )
            }
        }),
{
    let parsed_item = parse_derive_item(item);
    let fields = named_field_models(&parsed_item);
    let (parsed, is_struct, name) = match &parsed_item {
        Some(d) => (true, d.fields.is_some(), d.name.clone()),
        None => (false, false, String::new()),
    };
    if parsed && is_struct && fields_ok && !all_ready(fields.as_slice()) {
        return DeriveOfItem { item: parsed_item, fields, expansion: None };
    }
    let e = derive_into_rust_expansion(parsed, is_struct, fields_ok, name.as_str(), fields.as_slice(), errors);
    DeriveOfItem { item: parsed_item, fields, expansion: Some(e) }
}

/// The derive `kind` applied to the source text `item`: whether it parsed,
/// whether it is a struct, its name, generics and named fields come from
/// the parse; `toml` is the project's manifest as read, `fields_ok` and
/// `errors` come from reading the fields and `class_path` is the source text
/// of the Java class path.
pub fn derive_expansion_of_item<T>(
    kind: DeriveKind,
    item: &str,
    toml: Result<ProjectToml<T>, String>,
    fields_ok: bool,
    class_path: &str,
    errors: CompileErrors,
) -> (r: DeriveOfItem)
    ensures
        field_views(r.fields@) == item_fields(r.item),
        ({
            let parsed = r.item is Some;
            let is_struct = r.item matches Some(d) && d.fields is Some;
            let (tg, wc) = match r.item {
                Some(d) => (d.ty_generics@, d.where_clause@),
                None => (Seq::<char>::empty(), Seq::<char>::empty()),
            };
            if kind == DeriveKind::JavaClass && parsed && is_struct && toml_problem(toml) is None
                && fields_ok && !all_getter_ready(r.fields@) {
                r.expansion is None
            } else {
                r.expansion matches Some(e) && derive_expansion_ok(
                    kind,
                    parsed,
                    is_struct,
                    toml_problem(toml),
                    fields_ok,
                    class_path@,
                    item_name(r.item),
                    tg,
                    wc,
                    r.fields@,
                    errors@,
                    e,
                )
            }
        }),
{
    let parsed_item = parse_derive_item(item);
    let fields = named_field_models(&parsed_item);
    let (parsed, is_struct, name, tg, wc) = match &parsed_item {
        Some(d) => (true, d.fields.is_some(), d.name.clone(), d.ty_generics.clone(), d.where_clause.clone()),
        None => (false, false, String::new(), String::new(), String::new()),
    };
    let toml_ok = match &toml {
        Ok(p) => p.has_java_bindgen && p.has_package,
        Err(_) => false,
    };
    if kind == DeriveKind::JavaClass && parsed && is_struct && toml_ok && fields_ok && !all_ready(fields.as_slice()) {
        return DeriveOfItem { item: parsed_item, fields, expansion: None };
    }
    let e = derive_expansion(
        kind,
        parsed,
        is_struct,
        toml,
        fields_ok,
        class_path,
        name.as_str(),
        tg.as_str(),
        wc.as_str(),
        fields.as_slice(),
        errors,
    );
    DeriveOfItem { item: parsed_item, fields, expansion: Some(e) }
}

/// The logger derive applied to the source text `item`, with `toml` the
/// project's manifest as read and `class_path` the source text of the path
/// of the project's Java class: the item as parsed, and the expansion.
pub fn derive_jlogger_expansion_of_item<T>(
    item: &str,
    toml: Result<ProjectToml<T>, String>,
    class_path: &str,
) -> (r: (Option<DeriveItem>, Tokens))
    ensures
        jlogger_expansion_ok(
            r.0 is Some,
            r.0 matches Some(d) && d.fields is Some,
            toml_problem(toml),
            item_name(r.0),
            class_path@,
            r.1@,
        ),
{
    let parsed_item = parse_derive_item(item);
    let (parsed, is_struct, name) = match &parsed_item {
        Some(d) => (true, d.fields.is_some(), d.name.clone()),
        None => (false, false, String::new()),
    };
    let t = derive_jlogger_expansion(parsed, is_struct, toml, name.as_str(), class_path);
    (parsed_item, t)
}

/// The JNI type of input `k` among `jni_types`; none past its end.
pub open spec fn jni_type_at(jni_types: Seq<Option<String>>, k: int) -> Option<Seq<char>> {
    if 0 <= k < jni_types.len() {
        opt_text(jni_types[k])
    } else {
        None
    }
}

/// `#[java_bindgen]` applied to the source text `item`: the function as
/// parsed (its typed inputs given the JNI types `jni_types`, by position)
/// and the expansion. Whether it parsed, its name and its inputs come from
/// the parse; the other values are as for `bindgen_expansion`.
pub struct BindgenOfItem {
    pub item: Option<ItemFnModel>,
    pub expansion: BindgenExpansion,
}

/// `#[java_bindgen]` applied to the source text `item`.
pub fn bindgen_expansion_of_item<T>(
    item: &str,
    attr: &str,
    toml: Result<ProjectToml<T>, String>,
    jni_types: &[Option<String>],
    errors: CompileErrors,
    kind: ReturnKind,
    return_type: &str,
    rewritten_return: Option<String>,
    java_args: &[String],
    produced_java_return: &str,
    ffi_name: &str,
    args_names: &str,
) -> (r: BindgenOfItem)
    ensures
        r.item matches Some(m) ==> forall|k: int|
            0 <= k < m.inputs@.len() ==> (#[trigger] m.inputs@[k] matches FnArgModel::Typed(t)
                ==> opt_text(t.jni_ty) == jni_type_at(jni_types@, k)),
        bindgen_expansion_ok(
            r.item is Some,
            attr@,
            toml_problem(toml),
            match r.item {
                Some(m) => m.inputs@,
                None => Seq::<FnArgModel>::empty(),
            },
            errors@,
            kind,
            return_type@,
            opt_text(rewritten_return),
            java_args@.map_values(|a: String| a@),
            produced_java_return@,
            ffi_name@,
            match r.item {
                Some(m) => m.name@,
                None => Seq::<char>::empty(),
            },
            args_names@,
            r.expansion,
        ),
{
    let parsed = parse_item_fn(item);
    let model = match parsed {
        Some(m) => {
            let mut inputs: Vec<FnArgModel> = Vec::new();
            let mut source = m.inputs;
            let n: usize = source.len();
            let mut k: usize = 0;
            while source.len() > 0
                invariant
                    inputs@.len() == k,
                    k + source@.len() == n,
                    forall|j: int|
                        0 <= j < inputs@.len() ==> (#[trigger] inputs@[j] matches FnArgModel::Typed(t)
                            ==> opt_text(t.jni_ty) == jni_type_at(jni_types@, j)),
                decreases source@.len(),
            {
                let a = source.remove(0);
                let jni = if k < jni_types.len() {
                    jni_types[k].clone()
                } else {
                    None
                };
                let modelled = match a {
                    FnArgModel::Receiver => FnArgModel::Receiver,
                    FnArgModel::Typed(t) => FnArgModel::Typed(TypedArg { pat: t.pat, ty: t.ty, jni_ty: jni }),
                };
                inputs.push(modelled);
                k = k + 1;
            }
            Some(ItemFnModel { name: m.name, inputs })
        },
        None => None,
    };
    let expansion = match &model {
        Some(m) => bindgen_expansion(
            true,
            attr,
            toml,
            m.inputs.as_slice(),
            errors,
            kind,
            return_type,
            rewritten_return,
            java_args,
            produced_java_return,
            ffi_name,
            m.name.as_str(),
            args_names,
        ),
        None => bindgen_expansion(
            false,
            attr,
            toml,
            &[],
            errors,
            kind,
            return_type,
            rewritten_return,
            java_args,
            produced_java_return,
            ffi_name,
            "",
            args_names,
        ),
    };
    BindgenOfItem { item: model, expansion }
}

} // verus!
