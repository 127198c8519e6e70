//! How `#[morph(...)]` keys combine: each key sets only what it names, and
//! what earlier keys and earlier attributes said stays unless a later one says
//! otherwise.
use vstd::prelude::*;
use crate::model::{AttrArgs, DiagView, Owner, Tok, AttrDef};
use crate::meta::{MetaPathView, is_ident_path, lemma_meta_path_advances, spec_parse_meta_path, spec_after_item};
use crate::attrs::{
    FieldAttrsView, TypeAttrsView, is_morph_attr, lemma_field_item_advances, lemma_type_item_advances,
    no_field_attrs, no_type_attrs, spec_field_attrs_from, spec_field_item, spec_field_list,
    spec_parse_type_morph_attrs, spec_type_attrs_from, spec_type_item, spec_type_list,
};
use crate::model::DeriveDef;

verus! {

/// `new` where it says something, `old` otherwise.
pub open spec fn newer<T>(old: Option<T>, new: Option<T>) -> Option<T> {
    if new is Some {
        new
    } else {
        old
    }
}

/// What a field's attributes say after `earlier`, when what follows says
/// `later`.
pub open spec fn then_field(earlier: FieldAttrsView, later: FieldAttrsView) -> FieldAttrsView {
    FieldAttrsView {
        from: newer(earlier.from, later.from),
        with_path: newer(earlier.with_path, later.with_path),
        default_kind: newer(earlier.default_kind, later.default_kind),
        skip: earlier.skip || later.skip,
    }
}

pub open spec fn then_field_res(
    earlier: FieldAttrsView,
    later: Result<FieldAttrsView, DiagView>,
) -> Result<FieldAttrsView, DiagView> {
    match later {
        Ok(f) => Ok(then_field(earlier, f)),
        Err(d) => Err(d),
    }
}

/// What the item's attributes say after `earlier`, when what follows says
/// `later`.
pub open spec fn then_type(earlier: TypeAttrsView, later: TypeAttrsView) -> TypeAttrsView {
    TypeAttrsView {
        from_type: newer(earlier.from_type, later.from_type),
        validate_path: newer(earlier.validate_path, later.validate_path),
    }
}

pub open spec fn then_type_res(
    earlier: TypeAttrsView,
    later: Result<TypeAttrsView, DiagView>,
) -> Result<TypeAttrsView, DiagView> {
    match later {
        Ok(t) => Ok(then_type(earlier, t)),
        Err(d) => Err(d),
    }
}

/// A field item sets only what its key names: `from` the source name, `with`
/// the transform, `default` (bare or with an expression) the fallback, `skip`
/// the skip flag. Everything else stays as the items before it left it.
pub proof fn law_field_item_sets_only_its_key(
    toks: Seq<Tok>,
    path: MetaPathView,
    acc: FieldAttrsView,
    o: Owner,
    a: usize,
)
    ensures
        spec_field_item(toks, path, acc, o, a) matches Ok((r, q)) ==> {
            &&& is_ident_path(path, "from"@) ==> r.from is Some && r.with_path == acc.with_path
                && r.default_kind == acc.default_kind && r.skip == acc.skip
            &&& is_ident_path(path, "with"@) ==> r.with_path is Some && r.from == acc.from
                && r.default_kind == acc.default_kind && r.skip == acc.skip
            &&& is_ident_path(path, "default"@) ==> r.default_kind is Some && r.from == acc.from
                && r.with_path == acc.with_path && r.skip == acc.skip
            &&& is_ident_path(path, "skip"@) ==> r.skip && r.from == acc.from && r.with_path
                == acc.with_path && r.default_kind == acc.default_kind
        },
{
    reveal_strlit("from");
    reveal_strlit("with");
    reveal_strlit("default");
    reveal_strlit("skip");
    assert("from"@[0] != "with"@[0]);
    assert("from"@[0] != "skip"@[0]);
    assert("with"@[0] != "skip"@[0]);
    assert("default"@.len() != "from"@.len());
    assert("default"@.len() != "with"@.len());
    assert("default"@.len() != "skip"@.len());
}

/// An item of the type's list sets only what its key names: `from` the
/// source type, `validate` the hook.
pub proof fn law_type_item_sets_only_its_key(
    toks: Seq<Tok>,
    path: MetaPathView,
    acc: TypeAttrsView,
    ty_generics: Seq<char>,
    a: usize,
)
    ensures
        spec_type_item(toks, path, acc, ty_generics, a) matches Ok((r, q)) ==> {
            &&& is_ident_path(path, "from"@) ==> r.from_type is Some && r.validate_path
                == acc.validate_path
            &&& is_ident_path(path, "validate"@) ==> r.validate_path is Some && r.from_type
                == acc.from_type
        },
{
    reveal_strlit("from");
    reveal_strlit("validate");
    assert("from"@.len() != "validate"@.len());
}

proof fn lemma_field_item_then(toks: Seq<Tok>, path: MetaPathView, acc: FieldAttrsView, o: Owner, a: usize)
    ensures
        match spec_field_item(toks, path, no_field_attrs(), o, a) {
            Ok((f, q)) => spec_field_item(toks, path, acc, o, a) == Ok::<(FieldAttrsView, int), DiagView>(
                (then_field(acc, f), q),
            ),
            Err(d) => spec_field_item(toks, path, acc, o, a) == Err::<(FieldAttrsView, int), DiagView>(d),
        },
{
}

proof fn lemma_type_item_then(
    toks: Seq<Tok>,
    path: MetaPathView,
    acc: TypeAttrsView,
    ty_generics: Seq<char>,
    a: usize,
)
    ensures
        match spec_type_item(toks, path, no_type_attrs(), ty_generics, a) {
            Ok((t, q)) => spec_type_item(toks, path, acc, ty_generics, a) == Ok::<(TypeAttrsView, int), DiagView>(
                (then_type(acc, t), q),
            ),
            Err(d) => spec_type_item(toks, path, acc, ty_generics, a) == Err::<(TypeAttrsView, int), DiagView>(d),
        },
{
}

/// Reading a field's list after `acc` gives what `acc` said, overridden by
/// what the list says; errors do not depend on `acc`.
pub proof fn law_field_list_keeps_earlier(toks: Seq<Tok>, p: int, acc: FieldAttrsView, o: Owner, a: usize)
    ensures
        spec_field_list(toks, p, acc, o, a) == then_field_res(acc, spec_field_list(toks, p, no_field_attrs(), o, a)),
    decreases toks.len() - p,
{
    if p < 0 || p >= toks.len() {
        assert(then_field(acc, no_field_attrs()) == acc);
    } else if let Ok(path) = spec_parse_meta_path(toks, p, o, a) {
        lemma_field_item_then(toks, path, acc, o, a);
        if let Ok((f, q)) = spec_field_item(toks, path, no_field_attrs(), o, a) {
            if let Ok(Some(n)) = spec_after_item(toks, q, o, a) {
                lemma_meta_path_advances(toks, p, o, a);
                lemma_field_item_advances(toks, path, no_field_attrs(), o, a);
                law_field_list_keeps_earlier(toks, n, then_field(acc, f), o, a);
                law_field_list_keeps_earlier(toks, n, f, o, a);
                if let Ok(rest) = spec_field_list(toks, n, no_field_attrs(), o, a) {
                    assert(then_field(then_field(acc, f), rest) == then_field(acc, then_field(f, rest)));
                }
            }
        }
    }
}

/// Reading the item's list after `acc` gives what `acc` said, overridden by
/// what the list says; errors do not depend on `acc`.
pub proof fn law_type_list_keeps_earlier(
    toks: Seq<Tok>,
    p: int,
    acc: TypeAttrsView,
    ty_generics: Seq<char>,
    a: usize,
)
    ensures
        spec_type_list(toks, p, acc, ty_generics, a) == then_type_res(
            acc,
            spec_type_list(toks, p, no_type_attrs(), ty_generics, a),
        ),
    decreases toks.len() - p,
{
    if p < 0 || p >= toks.len() {
        assert(then_type(acc, no_type_attrs()) == acc);
    } else if let Ok(path) = spec_parse_meta_path(toks, p, Owner::Item, a) {
        lemma_type_item_then(toks, path, acc, ty_generics, a);
        if let Ok((t, q)) = spec_type_item(toks, path, no_type_attrs(), ty_generics, a) {
            if let Ok(Some(n)) = spec_after_item(toks, q, Owner::Item, a) {
                lemma_meta_path_advances(toks, p, Owner::Item, a);
                lemma_type_item_advances(toks, path, no_type_attrs(), ty_generics, a);
                law_type_list_keeps_earlier(toks, n, then_type(acc, t), ty_generics, a);
                law_type_list_keeps_earlier(toks, n, t, ty_generics, a);
                if let Ok(rest) = spec_type_list(toks, n, no_type_attrs(), ty_generics, a) {
                    assert(then_type(then_type(acc, t), rest) == then_type(acc, then_type(t, rest)));
                }
            }
        }
    }
}

/// Reading a field's attributes from `i` on after `acc` gives what `acc`
/// said, overridden by what those attributes say: each `#[morph(...)]`
/// attribute adds to the ones before it.
pub proof fn law_field_attrs_keep_earlier(attrs: Seq<AttrDef>, i: int, acc: FieldAttrsView, o: Owner)
    ensures
        spec_field_attrs_from(attrs, i, acc, o) == then_field_res(
            acc,
            spec_field_attrs_from(attrs, i, no_field_attrs(), o),
        ),
    decreases attrs.len() - i,
{
    if i < 0 || i >= attrs.len() {
        assert(then_field(acc, no_field_attrs()) == acc);
    } else if !is_morph_attr(attrs[i]) {
        law_field_attrs_keep_earlier(attrs, i + 1, acc, o);
    } else if let AttrArgs::List(toks) = attrs[i].args {
        law_field_list_keeps_earlier(toks@, 0, acc, o, i as usize);
        if let Ok(f) = spec_field_list(toks@, 0, no_field_attrs(), o, i as usize) {
            law_field_attrs_keep_earlier(attrs, i + 1, then_field(acc, f), o);
            law_field_attrs_keep_earlier(attrs, i + 1, f, o);
            if let Ok(rest) = spec_field_attrs_from(attrs, i + 1, no_field_attrs(), o) {
                assert(then_field(then_field(acc, f), rest) == then_field(acc, then_field(f, rest)));
            }
        }
    }
}

/// Reading the item's attributes from `i` on after `acc` gives what `acc`
/// said, overridden by what those attributes say: each `#[morph(...)]`
/// attribute adds to the ones before it.
pub proof fn law_type_attrs_keep_earlier(
    attrs: Seq<AttrDef>,
    i: int,
    acc: TypeAttrsView,
    ty_generics: Seq<char>,
)
    ensures
        spec_type_attrs_from(attrs, i, acc, ty_generics) == then_type_res(
            acc,
            spec_type_attrs_from(attrs, i, no_type_attrs(), ty_generics),
        ),
    decreases attrs.len() - i,
{
    if i < 0 || i >= attrs.len() {
        assert(then_type(acc, no_type_attrs()) == acc);
    } else if !is_morph_attr(attrs[i]) {
        law_type_attrs_keep_earlier(attrs, i + 1, acc, ty_generics);
    } else if let AttrArgs::List(toks) = attrs[i].args {
        law_type_list_keeps_earlier(toks@, 0, acc, ty_generics, i as usize);
        if let Ok(t) = spec_type_list(toks@, 0, no_type_attrs(), ty_generics, i as usize) {
            law_type_attrs_keep_earlier(attrs, i + 1, then_type(acc, t), ty_generics);
            law_type_attrs_keep_earlier(attrs, i + 1, t, ty_generics);
            if let Ok(rest) = spec_type_attrs_from(attrs, i + 1, no_type_attrs(), ty_generics) {
                assert(then_type(then_type(acc, t), rest) == then_type(acc, then_type(t, rest)));
            }
        }
    }
}

proof fn lemma_type_attrs_prefix(
    attrs: Seq<AttrDef>,
    k: int,
    i: int,
    acc: TypeAttrsView,
    ty_generics: Seq<char>,
)
    requires
        0 <= i <= k <= attrs.len(),
    ensures
        spec_type_attrs_from(attrs, i, acc, ty_generics) == match spec_type_attrs_from(
            attrs.take(k),
            i,
            acc,
            ty_generics,
        ) {
            Ok(mid) => spec_type_attrs_from(attrs, k, mid, ty_generics),
            Err(d) => Err(d),
        },
    decreases k - i,
{
    if i < k {
        assert(attrs.take(k)[i] == attrs[i]);
        if !is_morph_attr(attrs[i]) {
            lemma_type_attrs_prefix(attrs, k, i + 1, acc, ty_generics);
        } else if let AttrArgs::List(toks) = attrs[i].args {
            if let Ok(t) = spec_type_list(toks@, 0, acc, ty_generics, i as usize) {
                lemma_type_attrs_prefix(attrs, k, i + 1, t, ty_generics);
            }
        }
    }
}

/// The item's `#[morph(...)]` attributes accumulate: what the first `k`
/// attributes say, overridden by what the rest say where they say something.
/// So `#[morph(from = "S")]` followed by `#[morph(validate = "v")]` keeps the
/// source type of the first.
pub proof fn law_type_attrs_accumulate(def: DeriveDef, k: int)
    requires
        0 <= k <= def.attrs@.len(),
    ensures
        spec_parse_type_morph_attrs(def) == match spec_type_attrs_from(
            def.attrs@.take(k),
            0,
            no_type_attrs(),
            def.ty_generics@,
        ) {
            Ok(earlier) => then_type_res(
                earlier,
                spec_type_attrs_from(def.attrs@, k, no_type_attrs(), def.ty_generics@),
            ),
            Err(d) => Err(d),
        },
{
    lemma_type_attrs_prefix(def.attrs@, k, 0, no_type_attrs(), def.ty_generics@);
    if let Ok(earlier) = spec_type_attrs_from(def.attrs@.take(k), 0, no_type_attrs(), def.ty_generics@) {
        law_type_attrs_keep_earlier(def.attrs@, k, earlier, def.ty_generics@);
    }
}

proof fn lemma_field_attrs_prefix(attrs: Seq<AttrDef>, k: int, i: int, acc: FieldAttrsView, o: Owner)
    requires
        0 <= i <= k <= attrs.len(),
    ensures
        spec_field_attrs_from(attrs, i, acc, o) == match spec_field_attrs_from(attrs.take(k), i, acc, o) {
            Ok(mid) => spec_field_attrs_from(attrs, k, mid, o),
            Err(d) => Err(d),
        },
    decreases k - i,
{
    if i < k {
        assert(attrs.take(k)[i] == attrs[i]);
        if !is_morph_attr(attrs[i]) {
            lemma_field_attrs_prefix(attrs, k, i + 1, acc, o);
        } else if let AttrArgs::List(toks) = attrs[i].args {
            if let Ok(f) = spec_field_list(toks@, 0, acc, o, i as usize) {
                lemma_field_attrs_prefix(attrs, k, i + 1, f, o);
            }
        }
    }
}

/// A field's `#[morph(...)]` attributes accumulate: what the first `k`
/// attributes say, overridden by what the rest say where they say something.
/// So `#[morph(from = "x")]` followed by `#[morph(default = "e")]` keeps the
/// source name of the first.
pub proof fn law_field_attrs_accumulate(attrs: Seq<AttrDef>, o: Owner, k: int)
    requires
        0 <= k <= attrs.len(),
    ensures
        spec_field_attrs_from(attrs, 0, no_field_attrs(), o) == match spec_field_attrs_from(
            attrs.take(k),
            0,
            no_field_attrs(),
            o,
        ) {
            Ok(earlier) => then_field_res(earlier, spec_field_attrs_from(attrs, k, no_field_attrs(), o)),
            Err(d) => Err(d),
        },
{
    lemma_field_attrs_prefix(attrs, k, 0, no_field_attrs(), o);
    if let Ok(earlier) = spec_field_attrs_from(attrs.take(k), 0, no_field_attrs(), o) {
        law_field_attrs_keep_earlier(attrs, k, earlier, o);
    }
}

} // verus!
