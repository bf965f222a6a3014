//! Accessor generation for annotated structures: plain-value models of a
//! derive input, the attribute rules that select and validate accessors, and
//! the source text of each generated accessor.

pub mod generate;
pub mod getters;
pub mod impl_getset;
pub mod model;
pub mod mut_getters;
pub mod setters;
mod text;
pub mod visibility;

use vstd::prelude::*;

use vstd::string::*;

use crate::generate::{
    implement_for_unnamed_spec, implement_for_unnamed_with, implement_spec, implement_with,
    last_found, last_of, lemma_mode_name_not_skip, mode_name, same_text, GenMode, GenParams,
};
use crate::visibility::{
    lemma_table_acceptance_sound, note_attrs, note_opt_meta, sound_acceptance, table_acceptance,
    table_sound,
};
use crate::model::{AttrArgs, Attribute, Data, DeriveInput, Field, Fields, GenError, Meta};
pub use crate::text::{split_words, str_eq};

verus! {

/// Whether a path names a getter, a setter or `skip`.
pub open spec fn is_known_name(p: Seq<char>) -> bool {
    p == "get"@ || p == "get_clone"@ || p == "get_copy"@ || p == "get_mut"@ || p == "set"@ || p
        == "set_with"@ || p == "skip"@
}

/// The last of `ms` whose path is `name`.
pub open spec fn last_with(ms: Seq<Meta>, name: Seq<char>) -> Option<Meta>
    decreases ms.len(),
{
    if ms.len() == 0 {
        None
    } else if ms.last().path@ == name {
        Some(ms.last())
    } else {
        last_with(ms.drop_last(), name)
    }
}

/// Whether one of `ms` satisfies `p`.
pub open spec fn any_meta(ms: Seq<Meta>, p: spec_fn(Meta) -> bool) -> bool {
    exists|i: int| 0 <= i < ms.len() && p(#[trigger] ms[i])
}

/// Whether one of `ms` has a path that names no getter, setter or `skip`.
pub open spec fn has_unknown(ms: Seq<Meta>) -> bool {
    any_meta(ms, |m: Meta| !is_known_name(m.path@))
}

/// Whether one of `ms` is neither `name` nor `skip`.
pub open spec fn has_other(ms: Seq<Meta>, name: Seq<char>) -> bool {
    any_meta(ms, |m: Meta| m.path@ != name && m.path@ != "skip"@)
}

proof fn lemma_any_meta_push(prev: Seq<Meta>, x: Meta, p: spec_fn(Meta) -> bool)
    ensures
        any_meta(prev.push(x), p) == (any_meta(prev, p) || p(x)),
{
    let next = prev.push(x);
    if any_meta(prev, p) {
        let k = choose|k: int| 0 <= k < prev.len() && p(#[trigger] prev[k]);
        assert(next[k] == prev[k]);
    }
    if any_meta(next, p) {
        let k = choose|k: int| 0 <= k < next.len() && p(#[trigger] next[k]);
        if k < prev.len() {
            assert(next[k] == prev[k]);
        }
    }
    if p(x) {
        assert(next[prev.len() as int] == x);
    }
}

/// The item that a `getset(...)` list holds for a mode: the last one named
/// after the mode, or the `skip` item where `skip` stands alone.
pub open spec fn select_spec(ms: Seq<Meta>, mode: GenMode) -> Result<Option<Meta>, GenError> {
    if has_unknown(ms) {
        Err(GenError::UnknownAttribute)
    } else if last_with(ms, "skip"@) is Some {
        if last_with(ms, mode_name(mode)) is None && !has_other(ms, mode_name(mode)) {
            Ok(last_with(ms, "skip"@))
        } else {
            Err(GenError::SkipCombined)
        }
    } else {
        Ok(last_with(ms, mode_name(mode)))
    }
}

/// The item that one attribute holds for a mode, if any.
pub open spec fn parse_attr_spec(attr: Attribute, mode: GenMode) -> Result<Option<Meta>, GenError> {
    if attr.meta.path@ == "getset"@ {
        match attr.args {
            AttrArgs::Invalid(_) => Err(GenError::InvalidGetset),
            AttrArgs::Metas(ms) => select_spec(ms@, mode),
        }
    } else if attr.meta.path@ == mode_name(mode) {
        Ok(Some(attr.meta))
    } else {
        Ok(None)
    }
}

fn is_known(p: &str) -> (r: bool)
    ensures
        r == is_known_name(p@),
{
    str_eq(p, "get") || str_eq(p, "get_clone") || str_eq(p, "get_copy") || str_eq(p, "get_mut")
        || str_eq(p, "set") || str_eq(p, "set_with") || str_eq(p, "skip")
}

fn select(ms: &Vec<Meta>, mode: GenMode) -> (r: Result<Option<Meta>, GenError>)
    ensures
        r == select_spec(ms@, mode),
{
    let name = mode.name();
    proof {
        lemma_mode_name_not_skip(mode);
    }
    let mut unknown = false;
    let mut other = false;
    let mut last: Option<usize> = None;
    let mut skip: Option<usize> = None;
    let mut i: usize = 0;
    while i < ms.len()
        invariant
            name@ == mode_name(mode),
            name@ != "skip"@,
            i <= ms@.len(),
            unknown == has_unknown(ms@.subrange(0, i as int)),
            other == has_other(ms@.subrange(0, i as int), name@),
            match last {
                Some(k) => k < i && last_with(ms@.subrange(0, i as int), name@) == Some(ms@[k as int]),
                None => last_with(ms@.subrange(0, i as int), name@) is None,
            },
            match skip {
                Some(k) => k < i && last_with(ms@.subrange(0, i as int), "skip"@) == Some(ms@[k as int]),
                None => last_with(ms@.subrange(0, i as int), "skip"@) is None,
            },
        decreases ms.len() - i,
    {
        let ghost prev = ms@.subrange(0, i as int);
        let ghost next = ms@.subrange(0, i + 1);
        assert(next.drop_last() =~= prev);
        assert(next.last() == ms@[i as int]);
        assert(next =~= prev.push(ms@[i as int]));
        proof {
            lemma_any_meta_push(prev, ms@[i as int], |m: Meta| !is_known_name(m.path@));
            lemma_any_meta_push(
                prev,
                ms@[i as int],
                |m: Meta| m.path@ != name@ && m.path@ != "skip"@,
            );
        }
        let p = ms[i].path.as_str();
        if !is_known(p) {
            unknown = true;
        }
        if str_eq(p, name) {
            last = Some(i);
        } else if str_eq(p, "skip") {
            skip = Some(i);
        } else {
            other = true;
        }
        i = i + 1;
    }
    assert(ms@.subrange(0, ms@.len() as int) =~= ms@);
    if unknown {
        return Err(GenError::UnknownAttribute);
    }
    match skip {
        Some(k) => {
            if last.is_none() && !other {
                Ok(Some(ms[k].copied()))
            } else {
                Err(GenError::SkipCombined)
            }
        },
        None => match last {
            Some(k) => Ok(Some(ms[k].copied())),
            None => Ok(None),
        },
    }
}

/// The item that `attr` holds for `mode`: from a `getset(...)` list, or the
/// attribute itself where it is named after the mode.
pub fn parse_attr(attr: &Attribute, mode: GenMode) -> (r: Result<Option<Meta>, GenError>)
    ensures
        r == parse_attr_spec(*attr, mode),
{
    if str_eq(attr.meta.path.as_str(), "getset") {
        match &attr.args {
            AttrArgs::Invalid(_) => Err(GenError::InvalidGetset),
            AttrArgs::Metas(ms) => select(ms, mode),
        }
    } else if str_eq(attr.meta.path.as_str(), mode.name()) {
        Ok(Some(attr.meta.copied()))
    } else {
        Ok(None)
    }
}

/// The item each attribute holds for a mode, in order, or the first error.
pub open spec fn parse_attrs_spec(attrs: Seq<Attribute>, mode: GenMode) -> Result<
    Seq<Option<Meta>>,
    GenError,
>
    decreases attrs.len(),
{
    if attrs.len() == 0 {
        Ok(Seq::empty())
    } else {
        match parse_attrs_spec(attrs.drop_last(), mode) {
            Err(e) => Err(e),
            Ok(found) => match parse_attr_spec(attrs.last(), mode) {
                Err(e) => Err(e),
                Ok(o) => Ok(found.push(o)),
            },
        }
    }
}

/// Applies `parse_attr` to each attribute, stopping at the first error.
pub fn parse_attrs(attrs: &Vec<Attribute>, mode: GenMode) -> (r: Result<Vec<Option<Meta>>, GenError>)
    ensures
        match r {
            Ok(v) => parse_attrs_spec(attrs@, mode) == Ok::<Seq<Option<Meta>>, GenError>(v@),
            Err(e) => parse_attrs_spec(attrs@, mode) == Err::<Seq<Option<Meta>>, GenError>(e),
        },
{
    let mut found: Vec<Option<Meta>> = Vec::new();
    let mut i: usize = 0;
    assert(attrs@.subrange(0, 0) =~= Seq::<Attribute>::empty());
    while i < attrs.len()
        invariant
            i <= attrs@.len(),
            parse_attrs_spec(attrs@.subrange(0, i as int), mode) == Ok::<
                Seq<Option<Meta>>,
                GenError,
            >(found@),
        decreases attrs.len() - i,
    {
        let ghost next = attrs@.subrange(0, i + 1);
        assert(next.drop_last() =~= attrs@.subrange(0, i as int));
        assert(next.last() == attrs@[i as int]);
        match parse_attr(&attrs[i], mode) {
            Err(e) => {
                proof {
                    lemma_parse_attrs_error(attrs@, mode, i as int + 1);
                }
                return Err(e);
            },
            Ok(o) => {
                found.push(o);
            },
        }
        i = i + 1;
    }
    assert(attrs@.subrange(0, attrs@.len() as int) =~= attrs@);
    Ok(found)
}

/// An error in a prefix of the attributes is the error of them all.
proof fn lemma_parse_attrs_error(attrs: Seq<Attribute>, mode: GenMode, k: int)
    requires
        0 <= k <= attrs.len(),
        parse_attrs_spec(attrs.subrange(0, k), mode) is Err,
    ensures
        parse_attrs_spec(attrs, mode) == parse_attrs_spec(attrs.subrange(0, k), mode),
    decreases attrs.len() - k,
{
    if k == attrs.len() {
        assert(attrs.subrange(0, k) =~= attrs);
    } else {
        let next = attrs.subrange(0, k + 1);
        assert(next.drop_last() =~= attrs.subrange(0, k));
        lemma_parse_attrs_error(attrs, mode, k + 1);
    }
}

/// The item that a structure's own attributes hold for a mode: the last one.
pub open spec fn global_attr_spec(attrs: Seq<Attribute>, mode: GenMode) -> Result<
    Option<Meta>,
    GenError,
> {
    match parse_attrs_spec(attrs, mode) {
        Err(e) => Err(e),
        Ok(found) => Ok(last_found(found)),
    }
}

/// An impl block for the input's type around `body`.
pub open spec fn impl_block(input: DeriveInput, body: Seq<char>) -> Seq<char> {
    "impl"@ + input.impl_generics@ + " "@ + input.ident@ + input.ty_generics@ + " "@
        + input.where_clause@ + " { "@ + body + "}"@
}

/// The accessors of named fields, one after the other, or the first error.
pub open spec fn fields_text(
    fields: Seq<Field>,
    params: GenParams,
    acc: spec_fn(Seq<char>) -> bool,
) -> Result<Seq<char>, GenError>
    decreases fields.len(),
{
    if fields.len() == 0 {
        Ok(Seq::empty())
    } else {
        match fields_text(fields.drop_last(), params, acc) {
            Err(e) => Err(e),
            Ok(t) => match implement_spec(fields.last(), params, acc) {
                Err(e) => Err(e),
                Ok(a) => Ok(t + a),
            },
        }
    }
}

/// The impl block that a derive produces: accessors for each named field,
/// or for the one field of a unary tuple structure; `acc` tells which
/// visibility words syn accepts.
pub open spec fn produce_spec(
    input: DeriveInput,
    params: GenParams,
    acc: spec_fn(Seq<char>) -> bool,
) -> Result<Seq<char>, GenError> {
    match input.data {
        Data::Struct(fields) => match fields {
            Fields::Unnamed(v) => if v@.len() != 1 {
                Err(GenError::NotUnary)
            } else {
                match implement_for_unnamed_spec(v@[0], params, acc) {
                    Err(e) => Err(e),
                    Ok(t) => Ok(impl_block(input, t)),
                }
            },
            Fields::Named(v) => match fields_text(v@, params, acc) {
                Err(e) => Err(e),
                Ok(t) => Ok(impl_block(input, t)),
            },
            Fields::Unit => Ok(impl_block(input, Seq::empty())),
        },
        _ => Err(GenError::NotStruct),
    }
}

/// What the derive of `mode` produces for `input`, where `acc` tells which
/// visibility words syn accepts.
pub open spec fn derive_spec(
    input: DeriveInput,
    mode: GenMode,
    acc: spec_fn(Seq<char>) -> bool,
) -> Result<Seq<char>, GenError> {
    match global_attr_spec(input.attrs@, mode) {
        Err(e) => Err(e),
        Ok(g) => produce_spec(input, GenParams { mode, global_attr: g }, acc),
    }
}

/// The item that a structure's own attributes hold for `mode`.
pub fn parse_global_attr(attrs: &Vec<Attribute>, mode: GenMode) -> (r: Result<Option<Meta>, GenError>)
    ensures
        r == global_attr_spec(attrs@, mode),
{
    match parse_attrs(attrs, mode) {
        Err(e) => Err(e),
        Ok(found) => Ok(last_of(&found)),
    }
}

pub(crate) fn impl_block_of(input: &DeriveInput, body: &str) -> (r: String)
    ensures
        r@ == impl_block(*input, body@),
{
    let mut r = String::from_str("impl");
    r.append(input.impl_generics.as_str());
    r.append(" ");
    r.append(input.ident.as_str());
    r.append(input.ty_generics.as_str());
    r.append(" ");
    r.append(input.where_clause.as_str());
    r.append(" { ");
    r.append(body);
    r.append("}");
    r
}

fn named_fields_text(
    fields: &Vec<Field>,
    params: &GenParams,
    table: &Vec<(String, bool)>,
) -> (r: Result<String, GenError>)
    ensures
        same_text(r, fields_text(fields@, *params, table_acceptance(table@))),
{
    let mut out = String::new();
    let mut i: usize = 0;
    assert(fields@.subrange(0, 0) =~= Seq::<Field>::empty());
    while i < fields.len()
        invariant
            i <= fields@.len(),
            fields_text(fields@.subrange(0, i as int), *params, table_acceptance(table@)) == Ok::<
                Seq<char>,
                GenError,
            >(out@),
        decreases fields.len() - i,
    {
        let ghost next = fields@.subrange(0, i + 1);
        assert(next.drop_last() =~= fields@.subrange(0, i as int));
        assert(next.last() == fields@[i as int]);
        match implement_with(&fields[i], params, table) {
            Err(e) => {
                proof {
                    lemma_fields_text_error(fields@, *params, table_acceptance(table@), i as int + 1);
                }
                return Err(e);
            },
            Ok(a) => {
                out.append(a.as_str());
            },
        }
        i = i + 1;
    }
    assert(fields@.subrange(0, fields@.len() as int) =~= fields@);
    Ok(out)
}

proof fn lemma_fields_text_error(
    fields: Seq<Field>,
    params: GenParams,
    acc: spec_fn(Seq<char>) -> bool,
    k: int,
)
    requires
        0 <= k <= fields.len(),
        fields_text(fields.subrange(0, k), params, acc) is Err,
    ensures
        fields_text(fields, params, acc) == fields_text(fields.subrange(0, k), params, acc),
    decreases fields.len() - k,
{
    if k == fields.len() {
        assert(fields.subrange(0, k) =~= fields);
    } else {
        let next = fields.subrange(0, k + 1);
        assert(next.drop_last() =~= fields.subrange(0, k));
        lemma_fields_text_error(fields, params, acc, k + 1);
    }
}

/// The visibility verdicts for every attribute of `input`, of its fields and
/// of `global`.
fn input_table(input: &DeriveInput, global: &Option<Meta>) -> (t: Vec<(String, bool)>)
    ensures
        table_sound(t@),
{
    let mut t: Vec<(String, bool)> = Vec::new();
    note_attrs(&mut t, &input.attrs);
    note_opt_meta(&mut t, global);
    if let Data::Struct(fields) = &input.data {
        let v = match fields {
            Fields::Named(v) => v,
            Fields::Unnamed(v) => v,
            Fields::Unit => {
                return t;
            },
        };
        let mut i: usize = 0;
        while i < v.len()
            invariant
                table_sound(t@),
            decreases v.len() - i,
        {
            note_attrs(&mut t, &v[i].attrs);
            i = i + 1;
        }
    }
    t
}

/// The impl block of accessors that `params` asks of `input`. syn's
/// judgement of each visibility word is asked for; whatever it says, plain
/// visibilities are accepted.
pub fn produce(input: &DeriveInput, params: &GenParams) -> (r: Result<String, GenError>)
    ensures
        exists|acc: spec_fn(Seq<char>) -> bool|
            sound_acceptance(acc) && #[trigger] same_text(r, produce_spec(*input, *params, acc)),
{
    let table = input_table(input, &params.global_attr);
    let r = produce_with(input, params, &table);
    proof {
        lemma_table_acceptance_sound(table@);
    }
    assert(same_text(r, produce_spec(*input, *params, table_acceptance(table@))));
    r
}

/// The impl block of accessors that `params` asks of `input`, with syn's
/// verdicts on visibility words from `table`.
pub fn produce_with(input: &DeriveInput, params: &GenParams, table: &Vec<(String, bool)>) -> (r: Result<
    String,
    GenError,
>)
    ensures
        same_text(r, produce_spec(*input, *params, table_acceptance(table@))),
{
    match &input.data {
        Data::Struct(fields) => match fields {
            Fields::Unnamed(v) => {
                if v.len() != 1 {
                    return Err(GenError::NotUnary);
                }
                match implement_for_unnamed_with(&v[0], params, table) {
                    Err(e) => Err(e),
                    Ok(t) => Ok(impl_block_of(input, t.as_str())),
                }
            },
            Fields::Named(v) => match named_fields_text(v, params, table) {
                Err(e) => Err(e),
                Ok(t) => Ok(impl_block_of(input, t.as_str())),
            },
            Fields::Unit => Ok(impl_block_of(input, String::new().as_str())),
        },
        _ => Err(GenError::NotStruct),
    }
}

/// What the derive of `mode` produces for `input`, with syn's verdicts on
/// visibility words from `table`.
pub fn derive_with(input: &DeriveInput, mode: GenMode, table: &Vec<(String, bool)>) -> (r: Result<
    String,
    GenError,
>)
    ensures
        same_text(r, derive_spec(*input, mode, table_acceptance(table@))),
{
    match parse_global_attr(&input.attrs, mode) {
        Err(e) => Err(e),
        Ok(g) => {
            let params = GenParams { mode, global_attr: g };
            produce_with(input, &params, table)
        },
    }
}

fn derive_for(input: &DeriveInput, mode: GenMode) -> (r: Result<String, GenError>)
    ensures
        exists|acc: spec_fn(Seq<char>) -> bool|
            sound_acceptance(acc) && #[trigger] same_text(r, derive_spec(*input, mode, acc)),
{
    let table = input_table(input, &None);
    let r = derive_with(input, mode, &table);
    proof {
        lemma_table_acceptance_sound(table@);
    }
    assert(same_text(r, derive_spec(*input, mode, table_acceptance(table@))));
    r
}

/// Shared getters: `fn field(&self) -> &T`.
pub fn getters(input: &DeriveInput) -> (r: Result<String, GenError>)
    ensures
        exists|acc: spec_fn(Seq<char>) -> bool|
            sound_acceptance(acc) && #[trigger] same_text(r, derive_spec(*input, GenMode::Get, acc)),
{
    derive_for(input, GenMode::Get)
}

/// Cloning getters: `fn field(&self) -> T`, returning a clone.
pub fn clone_getters(input: &DeriveInput) -> (r: Result<String, GenError>)
    ensures
        exists|acc: spec_fn(Seq<char>) -> bool|
            sound_acceptance(acc) && #[trigger] same_text(r, derive_spec(*input, GenMode::GetClone, acc)),
{
    derive_for(input, GenMode::GetClone)
}

/// Copying getters: `fn field(&self) -> T`, returning a copy.
pub fn copy_getters(input: &DeriveInput) -> (r: Result<String, GenError>)
    ensures
        exists|acc: spec_fn(Seq<char>) -> bool|
            sound_acceptance(acc) && #[trigger] same_text(r, derive_spec(*input, GenMode::GetCopy, acc)),
{
    derive_for(input, GenMode::GetCopy)
}

/// Mutable getters: `fn field_mut(&mut self) -> &mut T`.
pub fn mut_getters(input: &DeriveInput) -> (r: Result<String, GenError>)
    ensures
        exists|acc: spec_fn(Seq<char>) -> bool|
            sound_acceptance(acc) && #[trigger] same_text(r, derive_spec(*input, GenMode::GetMut, acc)),
{
    derive_for(input, GenMode::GetMut)
}

/// Setters: `fn set_field(&mut self, val: T) -> &mut Self`.
pub fn setters(input: &DeriveInput) -> (r: Result<String, GenError>)
    ensures
        exists|acc: spec_fn(Seq<char>) -> bool|
            sound_acceptance(acc) && #[trigger] same_text(r, derive_spec(*input, GenMode::Setter, acc)),
{
    derive_for(input, GenMode::Setter)
}

/// Chainable setters: `fn with_field(mut self, val: T) -> Self`.
pub fn with_setters(input: &DeriveInput) -> (r: Result<String, GenError>)
    ensures
        exists|acc: spec_fn(Seq<char>) -> bool|
            sound_acceptance(acc) && #[trigger] same_text(r, derive_spec(*input, GenMode::SetWith, acc)),
{
    derive_for(input, GenMode::SetWith)
}

} // verus!
