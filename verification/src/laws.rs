//! Properties of the macros that hold for every input.
use vstd::prelude::*;
use crate::attr::{attr_map, attr_pairs, entry_key, entry_value, lemma_map_of_lookup, map_of};
use crate::text::{ascii_upper, capitalize, contains, is_whitespace, remove_char, split, trim, trim_end, trim_start};
use crate::tokens::{framed, SegmentView, Site};
use crate::signature::{effective_type, env_mut_msg, env_type_text, self_msg, sig_final, sig_fold, sig_init, sig_lifetime, sig_step, SigState};
use crate::tokens::ts2_text;
use crate::text::decimal;
use crate::bindgen::{rewrite_line, rewrites};
use crate::flow::{all_getter_ready, derive_expansion_ok, derive_tokens, DeriveExpansion, DeriveKind};
use crate::derive::{into_java_text, into_rust_text, java_type_text};
use crate::types::FnArgModel;
use crate::derive::{getter_line, getter_lines, getter_name, getter_prefix, getter_ready, FieldModel};

verus! {

proof fn lemma_trim_start_idempotent(s: Seq<char>)
    ensures
        trim_start(trim_start(s)) == trim_start(s),
        trim_start(s).len() > 0 ==> !is_whitespace(trim_start(s)[0]),
    decreases s.len(),
{
    if s.len() > 0 && is_whitespace(s[0]) {
        lemma_trim_start_idempotent(s.drop_first());
    }
}

proof fn lemma_trim_end_facts(s: Seq<char>)
    ensures
        trim_end(trim_end(s)) == trim_end(s),
        trim_end(s).len() > 0 ==> !is_whitespace(trim_end(s).last()),
        trim_end(s).len() > 0 ==> trim_end(s)[0] == s[0],
        trim_end(s).len() <= s.len(),
        trim_end(s) == s.take(trim_end(s).len() as int),
    decreases s.len(),
{
    if s.len() > 0 && is_whitespace(s.last()) {
        lemma_trim_end_facts(s.drop_last());
        assert(s.drop_last().take(trim_end(s).len() as int) =~= s.take(trim_end(s).len() as int));
    } else {
        assert(s.take(s.len() as int) == s);
    }
}

/// Trimming twice is trimming once.
pub proof fn law_trim_idempotent(s: Seq<char>)
    ensures
        trim(trim(s)) == trim(s),
{
    let a = trim_start(s);
    let b = trim_end(a);
    lemma_trim_start_idempotent(s);
    lemma_trim_end_facts(a);
    if b.len() > 0 {
        assert(!is_whitespace(b[0]));
        assert(trim_start(b) == b);
    } else {
        assert(trim_start(b) == b);
    }
}

/// After `remove_char(s, c)`, no `c` is left.
pub proof fn law_remove_char_removes(s: Seq<char>, c: char)
    ensures
        !remove_char(s, c).contains(c),
    decreases s.len(),
{
    if s.len() > 0 {
        law_remove_char_removes(s.drop_last(), c);
        let r = remove_char(s.drop_last(), c);
        if s.last() != c {
            assert forall|i: int| 0 <= i < r.push(s.last()).len() implies r.push(s.last())[i] != c by {
                if i < r.len() {
                    assert(r.push(s.last())[i] == r[i]);
                }
            }
        }
    }
}

/// In the map of an attribute text, a key maps to the value of the last
/// entry with that key.
pub proof fn law_attr_last_entry_wins(attr: Seq<char>, i: int)
    requires
        0 <= i < split(attr, ',').len(),
        forall|t: int|
            i < t < split(attr, ',').len() ==> entry_key(#[trigger] split(attr, ',')[t])
                != entry_key(split(attr, ',')[i]),
    ensures
        attr_map(attr).contains_key(entry_key(split(attr, ',')[i])),
        attr_map(attr)[entry_key(split(attr, ',')[i])] == entry_value(split(attr, ',')[i]),
{
    let es = split(attr, ',');
    let pairs = attr_pairs(attr);
    assert forall|t: int| i < t < pairs.len() implies pairs[t].0 != entry_key(es[i]) by {
        assert(pairs[t].0 == entry_key(es[t]));
    }
    lemma_map_of_lookup(pairs, entry_key(es[i]), i);
}

proof fn lemma_map_of_domain(pairs: Seq<(Seq<char>, Seq<char>)>, k: Seq<char>)
    ensures
        map_of(pairs).contains_key(k) <==> exists|i: int| 0 <= i < pairs.len() && (#[trigger] pairs[i]).0 == k,
    decreases pairs.len(),
{
    if pairs.len() > 0 {
        let front = pairs.drop_last();
        lemma_map_of_domain(front, k);
        if map_of(front).contains_key(k) {
            let i: int = choose|i: int| 0 <= i < front.len() && (#[trigger] front[i]).0 == k;
            assert(pairs[i] == front[i]);
        }
        if exists|i: int| 0 <= i < pairs.len() && (#[trigger] pairs[i]).0 == k {
            let i: int = choose|i: int| 0 <= i < pairs.len() && (#[trigger] pairs[i]).0 == k;
            if i < front.len() {
                assert(front[i] == pairs[i]);
            }
        }
    }
}

/// The keys of the map of an attribute text are exactly the keys of its
/// entries.
pub proof fn law_attr_keys_are_entry_keys(attr: Seq<char>, k: Seq<char>)
    ensures
        attr_map(attr).contains_key(k) <==> exists|i: int|
            0 <= i < split(attr, ',').len() && entry_key(#[trigger] split(attr, ',')[i]) == k,
{
    let es = split(attr, ',');
    let pairs = attr_pairs(attr);
    lemma_map_of_domain(pairs, k);
    if attr_map(attr).contains_key(k) {
        let i: int = choose|i: int| 0 <= i < pairs.len() && (#[trigger] pairs[i]).0 == k;
        assert(entry_key(es[i]) == k);
    }
    if exists|i: int| 0 <= i < es.len() && entry_key(#[trigger] es[i]) == k {
        let i: int = choose|i: int| 0 <= i < es.len() && entry_key(#[trigger] es[i]) == k;
        assert(pairs[i].0 == k);
    }
}

/// Every key of the map of an attribute text is trimmed.
pub proof fn law_attr_keys_trimmed(attr: Seq<char>, k: Seq<char>)
    requires
        attr_map(attr).contains_key(k),
    ensures
        trim(k) == k,
{
    law_attr_keys_are_entry_keys(attr, k);
    let es = split(attr, ',');
    let i: int = choose|i: int| 0 <= i < es.len() && entry_key(#[trigger] es[i]) == k;
    law_trim_idempotent(split(es[i], '=')[0]);
}

proof fn lemma_map_of_values(pairs: Seq<(Seq<char>, Seq<char>)>, k: Seq<char>)
    requires
        map_of(pairs).contains_key(k),
    ensures
        exists|i: int| 0 <= i < pairs.len() && (#[trigger] pairs[i]) == (k, map_of(pairs)[k]),
    decreases pairs.len(),
{
    let front = pairs.drop_last();
    if pairs.last().0 == k {
        assert(pairs[pairs.len() - 1] == (k, map_of(pairs)[k]));
    } else {
        lemma_map_of_values(front, k);
        let i: int = choose|i: int| 0 <= i < front.len() && (#[trigger] front[i]) == (k, map_of(front)[k]);
        assert(pairs[i] == front[i]);
    }
}

/// No value in the map of an attribute text holds a double quote.
pub proof fn law_attr_values_unquoted(attr: Seq<char>, k: Seq<char>)
    requires
        attr_map(attr).contains_key(k),
    ensures
        !attr_map(attr)[k].contains('"'),
{
    let es = split(attr, ',');
    let pairs = attr_pairs(attr);
    lemma_map_of_values(pairs, k);
    let i: int = choose|i: int| 0 <= i < pairs.len() && (#[trigger] pairs[i]) == (k, map_of(pairs)[k]);
    let kv = split(es[i], '=');
    law_remove_char_removes(trim(if kv.len() > 1 { kv[1] } else { Seq::<char>::empty() }), '"');
}

/// The getter name of a field is its prefix followed by the field name, the
/// first character upper-cased and the others kept.
pub proof fn law_getter_name_keeps_field(name: Seq<char>, ty: Seq<char>)
    requires
        getter_ready(name),
    ensures
        getter_name(name, ty).len() == getter_prefix(ty).len() + name.len(),
        getter_name(name, ty).take(getter_prefix(ty).len() as int) == getter_prefix(ty),
        getter_name(name, ty)[getter_prefix(ty).len() as int] == ascii_upper(name[0]),
        getter_name(name, ty).skip(getter_prefix(ty).len() + 1int) == name.skip(1),
{
    let p = getter_prefix(ty);
    let g = getter_name(name, ty);
    assert(g.take(p.len() as int) =~= p);
    assert(g.skip(p.len() + 1int) =~= name.skip(1));
}

/// The patterns of the inputs whose types the JNI rewrite applies to, in order.
pub open spec fn rewritten_pats(args: Seq<FnArgModel>) -> Seq<Seq<char>>
    decreases args.len(),
{
    if args.len() == 0 {
        Seq::<Seq<char>>::empty()
    } else {
        let p = rewritten_pats(args.drop_last());
        match args.last() {
            FnArgModel::Typed(t) => if t.jni_ty is Some {
                p.push(t.pat@)
            } else {
                p
            },
            FnArgModel::Receiver => p,
        }
    }
}

/// Whether an input is a JNI environment: its type in the generated
/// signature, without spaces, holds `JNIEnv`.
pub open spec fn is_env_input(a: FnArgModel) -> bool {
    match a {
        FnArgModel::Typed(t) => contains(remove_char(effective_type(t), ' '), "JNIEnv"@),
        FnArgModel::Receiver => false,
    }
}

/// The errors that the inputs give, in order: one for each `self` input and
/// one for each JNI environment not taken by `&mut`, each at its input.
pub open spec fn input_errors(args: Seq<FnArgModel>) -> Seq<SegmentView>
    decreases args.len(),
{
    if args.len() == 0 {
        Seq::<SegmentView>::empty()
    } else {
        let p = input_errors(args.drop_last());
        let i: usize = (args.len() - 1) as usize;
        match args.last() {
            FnArgModel::Receiver => p.push(SegmentView::CompileError(Site::Span(i), framed(self_msg()))),
            FnArgModel::Typed(t) => {
                let ts = remove_char(effective_type(t), ' ');
                if contains(ts, "JNIEnv"@) && !contains(ts, "&mut"@) {
                    p.push(SegmentView::CompileError(Site::Span(i), framed(env_mut_msg())))
                } else {
                    p
                }
            },
        }
    }
}

proof fn lemma_sig_fold_lists(args: Seq<FnArgModel>, init: SigState, lexed: Seq<bool>)
    ensures
        sig_fold(args, init, lexed).into_rust == init.into_rust + rewritten_pats(args),
        sig_fold(args, init, lexed).errors == init.errors + input_errors(args),
        (forall|k: int| 0 <= k < args.len() ==> !is_env_input(#[trigger] args[k])) ==> {
            &&& sig_fold(args, init, lexed).env_indent == init.env_indent
            &&& sig_fold(args, init, lexed).jni_env == init.jni_env
        },
    decreases args.len(),
{
    if args.len() == 0 {
        assert(init.into_rust + Seq::<Seq<char>>::empty() == init.into_rust);
        assert(init.errors + Seq::<SegmentView>::empty() == init.errors);
    } else {
        let front = args.drop_last();
        lemma_sig_fold_lists(front, init, lexed);
        if forall|k: int| 0 <= k < args.len() ==> !is_env_input(#[trigger] args[k]) {
            assert forall|k: int| 0 <= k < front.len() implies !is_env_input(#[trigger] front[k]) by {
                assert(front[k] == args[k]);
            }
            assert(!is_env_input(args[args.len() - 1]));
        }
        assert(init.into_rust + rewritten_pats(front).push(
            match args.last() {
                FnArgModel::Typed(t) => t.pat@,
                FnArgModel::Receiver => Seq::<char>::empty(),
            },
        ) == (init.into_rust + rewritten_pats(front)).push(
            match args.last() {
                FnArgModel::Typed(t) => t.pat@,
                FnArgModel::Receiver => Seq::<char>::empty(),
            },
        ));
        let i: usize = (args.len() - 1) as usize;
        let e1 = SegmentView::CompileError(Site::Span(i), framed(self_msg()));
        let e2 = SegmentView::CompileError(Site::Span(i), framed(env_mut_msg()));
        assert(init.errors + input_errors(front).push(e1) == (init.errors + input_errors(front)).push(e1));
        assert(init.errors + input_errors(front).push(e2) == (init.errors + input_errors(front)).push(e2));
    }
}

/// The inputs that are converted back into Rust values in the generated
/// function are those whose types the JNI rewrite applies to, in order.
pub proof fn law_sig_into_rust(args: Seq<FnArgModel>, errors: Seq<SegmentView>, lexed: Seq<bool>)
    ensures
        sig_final(args, errors, lexed).into_rust == rewritten_pats(args),
{
    let init = sig_init(sig_lifetime(args), errors);
    lemma_sig_fold_lists(args, init, lexed);
    assert(Seq::<Seq<char>>::empty() + rewritten_pats(args) == rewritten_pats(args));
}

/// Reading the inputs keeps the errors gathered before and adds, in order,
/// one error for each `self` input and one for each JNI environment that is
/// not taken by `&mut`, and no other.
pub proof fn law_sig_errors(args: Seq<FnArgModel>, errors: Seq<SegmentView>, lexed: Seq<bool>)
    ensures
        sig_final(args, errors, lexed).errors == errors + input_errors(args),
{
    lemma_sig_fold_lists(args, sig_init(sig_lifetime(args), errors), lexed);
}

/// Where no input is a JNI environment, the generated function takes one
/// named `env`, of type `JNIEnv` with the function's lifetime.
pub proof fn law_sig_env_default(args: Seq<FnArgModel>, errors: Seq<SegmentView>, lexed: Seq<bool>)
    requires
        forall|k: int| 0 <= k < args.len() ==> !is_env_input(#[trigger] args[k]),
    ensures
        sig_final(args, errors, lexed).env_indent == "env"@,
        sig_final(args, errors, lexed).jni_env == "mut env : JNIEnv "@ + sig_lifetime(args),
{
    lemma_sig_fold_lists(args, sig_init(sig_lifetime(args), errors), lexed);
}

/// The initialiser of field `f` that reads it with its Java getter:
/// `name: self.call_getter("{prefix}{Name}", env)?,`.
pub open spec fn getter_call(f: FieldModel) -> Seq<char> {
    f.name@ + ": self.call_getter("@ + "\""@ + getter_prefix(f.ty@) + capitalize(f.name@) + "\""@
        + ", env)?, "@
}

/// The initialisers of `fields`, in order, each reading its field with its
/// Java getter.
pub open spec fn getter_calls(fields: Seq<FieldModel>) -> Seq<char>
    decreases fields.len(),
{
    if fields.len() == 0 {
        Seq::<char>::empty()
    } else {
        getter_calls(fields.drop_last()) + getter_call(fields.last())
    }
}

/// Where the lexer accepts every getter literal, the generated initialisers
/// read each field, in order, with the getter named `is` (for `bool` and
/// `Option<bool>`) or `get`, then the field name with its first character
/// upper-cased, as a string literal.
pub proof fn law_getter_lines_when_lexed(fields: Seq<FieldModel>, lexed: Seq<bool>)
    requires
        lexed.len() == fields.len(),
        forall|k: int| 0 <= k < lexed.len() ==> #[trigger] lexed[k],
    ensures
        getter_lines(fields, lexed) == getter_calls(fields),
    decreases fields.len(),
{
    if fields.len() > 0 {
        let front = fields.drop_last();
        let lf = lexed.drop_last();
        assert forall|k: int| 0 <= k < lf.len() implies #[trigger] lf[k] by {
            assert(lf[k] == lexed[k]);
        }
        law_getter_lines_when_lexed(front, lf);
        lemma_getter_lines_prefix(front, lexed, lf);
        let f = fields.last();
        assert(lexed[fields.len() - 1]);
        assert(getter_line(f, true) =~= getter_call(f));
    }
}

proof fn lemma_getter_lines_prefix(fields: Seq<FieldModel>, a: Seq<bool>, b: Seq<bool>)
    requires
        fields.len() <= a.len(),
        fields.len() <= b.len(),
        forall|k: int| 0 <= k < fields.len() ==> a[k] == b[k],
    ensures
        getter_lines(fields, a) == getter_lines(fields, b),
    decreases fields.len(),
{
    if fields.len() > 0 {
        lemma_getter_lines_prefix(fields.drop_last(), a, b);
        assert(a[fields.len() - 1] == b[fields.len() - 1]);
    }
}

/// A getter name can be formed for every field exactly when every field
/// name is non-empty and starts with a one-byte character: the slicing
/// `[0..1]` that forms it succeeds. One-character names among them.
pub proof fn law_all_getter_ready_is_slicing(fields: Seq<FieldModel>)
    ensures
        all_getter_ready(fields) <==> forall|k: int|
            0 <= k < fields.len() ==> #[trigger] fields[k].name@.len() > 0 && (fields[k].name@[0] as u32)
                < 128,
{
    if all_getter_ready(fields) {
        assert forall|k: int| 0 <= k < fields.len() implies #[trigger] fields[k].name@.len() > 0
            && (fields[k].name@[0] as u32) < 128 by {
            assert(getter_ready(fields[k].name@));
        }
    }
    if forall|k: int|
        0 <= k < fields.len() ==> #[trigger] fields[k].name@.len() > 0 && (fields[k].name@[0] as u32)
            < 128 {
        assert forall|k: int| 0 <= k < fields.len() implies getter_ready(#[trigger] fields[k].name@) by {
            assert(fields[k].name@.len() > 0);
        }
    }
}

/// The name of the JNI environment input `t` at position `j`: its pattern,
/// or `arg{j}` where the pattern is `_`.
pub open spec fn env_name(t: crate::types::TypedArg, j: int) -> Seq<char> {
    if trim(remove_char(t.pat@, ' ')) == "_"@ {
        "arg"@ + decimal(j as nat)
    } else {
        t.pat@
    }
}

proof fn lemma_sig_env_last(args: Seq<FnArgModel>, init: SigState, lexed: Seq<bool>, j: int)
    requires
        0 <= j < args.len(),
        is_env_input(args[j]),
        forall|t: int| j < t < args.len() ==> !is_env_input(#[trigger] args[t]),
    ensures
        args[j] matches FnArgModel::Typed(t) ==> {
            &&& sig_fold(args, init, lexed).env_indent == env_name(t, j)
            &&& sig_fold(args, init, lexed).jni_env == "mut "@ + env_name(t, j) + " : "@ + ts2_text(
                lexed[j],
                env_type_text(t),
            )
        },
    decreases args.len(),
{
    let front = args.drop_last();
    if j < args.len() - 1 {
        assert forall|t: int| j < t < front.len() implies !is_env_input(#[trigger] front[t]) by {
            assert(front[t] == args[t]);
        }
        assert(front[j] == args[j]);
        lemma_sig_env_last(front, init, lexed, j);
        assert(!is_env_input(args[args.len() - 1]));
    }
}

/// The generated function takes the JNI environment under the name of the
/// last input that is one: its pattern (or `arg{j}` for `_`), typed with
/// that input's type without `&mut` (where the lexer accepts that text).
pub proof fn law_sig_env_named(args: Seq<FnArgModel>, errors: Seq<SegmentView>, lexed: Seq<bool>, j: int)
    requires
        0 <= j < args.len(),
        is_env_input(args[j]),
        forall|t: int| j < t < args.len() ==> !is_env_input(#[trigger] args[t]),
    ensures
        args[j] matches FnArgModel::Typed(t) ==> {
            &&& sig_final(args, errors, lexed).env_indent == env_name(t, j)
            &&& sig_final(args, errors, lexed).jni_env == "mut "@ + env_name(t, j) + " : "@
                + ts2_text(lexed[j], env_type_text(t))
        },
{
    lemma_sig_env_last(args, sig_init(sig_lifetime(args), errors), lexed, j);
}

/// Each derive with a usable manifest and fields generates the impl it is
/// named after: `IntoJava` the `IntoJavaType` impl, `JavaType` the
/// `JTypeInfo` impl, `JavaClass` both with the `IntoRustType` impls between,
/// each after the errors.
pub proof fn law_derive_kind_impls(
    kind: DeriveKind,
    class_path: Seq<char>,
    name: Seq<char>,
    ty_generics: Seq<char>,
    where_clause: Seq<char>,
    fields: Seq<FieldModel>,
    errors: Seq<SegmentView>,
    r: DeriveExpansion,
)
    requires
        derive_expansion_ok(
            kind,
            true,
            true,
            None,
            true,
            class_path,
            name,
            ty_generics,
            where_clause,
            fields,
            errors,
            r,
        ),
    ensures
        r.register_class,
        kind == DeriveKind::IntoJava ==> r.tokens@ == errors.push(
            SegmentView::Code(into_java_text(name, ty_generics, where_clause, class_path, fields)),
        ),
        kind == DeriveKind::JavaType ==> r.tokens@ == errors.push(
            SegmentView::Code(java_type_text(name, ty_generics, where_clause, class_path)),
        ),
        kind == DeriveKind::JavaClass ==> {
            &&& r.tokens@.len() == 3 * errors.len() + 3
            &&& r.tokens@.take(errors.len() as int) == errors
            &&& r.tokens@[errors.len() as int] == SegmentView::Code(
                into_java_text(name, ty_generics, where_clause, class_path, fields),
            )
            &&& r.tokens@[3 * errors.len() + 2int] == SegmentView::Code(
                java_type_text(name, ty_generics, where_clause, class_path),
            )
            &&& exists|lexed: Seq<bool>|
                lexed.len() == fields.len() && r.tokens@[2 * errors.len() + 1int] == SegmentView::Code(
                    into_rust_text(name, #[trigger] crate::derive::getter_lines(fields, lexed)),
                )
        },
{
    let lexed = choose|lexed: Seq<bool>|
        lexed.len() == fields.len() && r.tokens@ == #[trigger] derive_tokens(
            kind,
            class_path,
            name,
            ty_generics,
            where_clause,
            fields,
            errors,
            lexed,
        );
    if kind == DeriveKind::JavaClass {
        let n = errors.len() as int;
        let a = errors.push(SegmentView::Code(into_java_text(name, ty_generics, where_clause, class_path, fields)));
        let b = errors.push(SegmentView::Code(into_rust_text(name, crate::derive::getter_lines(fields, lexed))));
        let c = errors.push(SegmentView::Code(java_type_text(name, ty_generics, where_clause, class_path)));
        assert(r.tokens@ == a + b + c);
        assert(r.tokens@.take(n) =~= errors);
        assert(r.tokens@[n] == a[n]);
        assert(r.tokens@[2 * n + 1] == b[n]);
        assert(r.tokens@[3 * n + 2] == c[n]);
    }
}

/// The conversions of several inputs are the conversions of each, in
/// order: those of `a` followed by `b` are those of `a`, then those of `b`.
pub proof fn law_rewrites_concat(a: Seq<Seq<char>>, b: Seq<Seq<char>>, env: Seq<char>)
    ensures
        rewrites(a + b, env) == rewrites(a, env) + rewrites(b, env),
    decreases b.len(),
{
    if b.len() == 0 {
        assert(a + b =~= a);
        assert(rewrites(a, env) + Seq::<char>::empty() =~= rewrites(a, env));
    } else {
        law_rewrites_concat(a, b.drop_last(), env);
        assert((a + b).drop_last() =~= a + b.drop_last());
        assert((a + b).last() == b.last());
        assert(rewrites(a, env) + rewrites(b.drop_last(), env) + rewrite_line(b.last(), env)
            =~= rewrites(a, env) + (rewrites(b.drop_last(), env) + rewrite_line(b.last(), env)));
    }
}

/// One input is converted by exactly its own conversion line, and none by
/// nothing.
pub proof fn law_rewrites_single(id: Seq<char>, env: Seq<char>)
    ensures
        rewrites(seq![id], env) == rewrite_line(id, env),
        rewrites(Seq::<Seq<char>>::empty(), env) == Seq::<char>::empty(),
{
    assert(seq![id].drop_last() =~= Seq::<Seq<char>>::empty());
    assert(seq![id].last() == id);
    assert(rewrites(seq![id].drop_last(), env) == Seq::<char>::empty());
    assert(Seq::<char>::empty() + rewrite_line(id, env) =~= rewrite_line(id, env));
}

/// Every input whose type was rewritten is converted back, each with its
/// own line: the conversions hold `rewrite_line(idents[k], env)` at the
/// place where those of the inputs before it end.
pub proof fn law_rewrites_each(idents: Seq<Seq<char>>, env: Seq<char>, k: int)
    requires
        0 <= k < idents.len(),
    ensures
        rewrites(idents, env).subrange(
            rewrites(idents.take(k), env).len() as int,
            (rewrites(idents.take(k), env).len() + rewrite_line(idents[k], env).len()) as int,
        ) == rewrite_line(idents[k], env),
{
    let a = idents.take(k);
    let b = idents.skip(k);
    assert(idents =~= a + b);
    law_rewrites_concat(a, b, env);
    let c = seq![idents[k]];
    let d = idents.skip(k + 1);
    assert(b =~= c + d);
    law_rewrites_concat(c, d, env);
    law_rewrites_single(idents[k], env);
    let ra = rewrites(a, env);
    let rl = rewrite_line(idents[k], env);
    assert(rewrites(idents, env) == ra + (rl + rewrites(d, env)));
    assert(rewrites(idents, env).subrange(ra.len() as int, (ra.len() + rl.len()) as int) =~= rl);
}

} // verus!
