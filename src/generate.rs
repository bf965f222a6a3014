//! The accessor derives: which attribute governs a field in each mode, the
//! name, visibility and signature of its accessor, and the accessor's text.

use vstd::prelude::*;
use vstd::string::*;

use crate::{parse_attrs, parse_attrs_spec};
use crate::visibility::{
    accepts, is_sure_visibility, visibility_text, visibility_text_spec, lemma_table_acceptance_sound, note_attrs, note_opt_meta,
    settle_visibility, settled, sound_acceptance, table_acceptance, table_sound,
    visibility_parses,
};

use crate::model::{Attribute, Field, FieldType, GenError, GenericArg, Meta, MetaValue, PathArgs};
use crate::text::{has_word, has_word_spec, is_raw, is_raw_name, str_eq, unraw, unraw_spec};

verus! {

/// Which accessor a derive generates.
#[derive(PartialEq, Eq, Structural, Copy, Clone, Debug)]
pub enum GenMode {
    Get,
    GetClone,
    GetCopy,
    GetMut,
    Setter,
    SetWith,
}

/// The attribute name that selects a mode.
pub open spec fn mode_name(m: GenMode) -> Seq<char> {
    match m {
        GenMode::Get => "get"@,
        GenMode::GetClone => "get_clone"@,
        GenMode::GetCopy => "get_copy"@,
        GenMode::GetMut => "get_mut"@,
        GenMode::Setter => "set"@,
        GenMode::SetWith => "set_with"@,
    }
}

/// What a mode puts before the field's name in an accessor's name.
pub open spec fn mode_prefix(m: GenMode) -> Seq<char> {
    match m {
        GenMode::Setter => "set_"@,
        GenMode::SetWith => "with_"@,
        _ => ""@,
    }
}

/// What a mode puts after the field's name in an accessor's name.
pub open spec fn mode_suffix(m: GenMode) -> Seq<char> {
    match m {
        GenMode::GetMut => "_mut"@,
        _ => ""@,
    }
}

/// Whether a mode reads the field.
pub open spec fn mode_is_get(m: GenMode) -> bool {
    match m {
        GenMode::Get | GenMode::GetClone | GenMode::GetCopy | GenMode::GetMut => true,
        _ => false,
    }
}

/// No mode is named `skip`.
pub proof fn lemma_mode_name_not_skip(m: GenMode)
    ensures
        mode_name(m) != "skip"@,
{
    reveal_strlit("skip");
    reveal_strlit("get");
    reveal_strlit("get_clone");
    reveal_strlit("get_copy");
    reveal_strlit("get_mut");
    reveal_strlit("set");
    reveal_strlit("set_with");
    assert("skip"@.len() == 4);
    match m {
        GenMode::Get => assert("get"@.len() == 3),
        GenMode::GetClone => assert("get_clone"@.len() == 9),
        GenMode::GetCopy => assert("get_copy"@.len() == 8),
        GenMode::GetMut => assert("get_mut"@.len() == 7),
        GenMode::Setter => assert("set"@.len() == 3),
        GenMode::SetWith => assert("set_with"@.len() == 8),
    }
}

impl GenMode {
    pub fn name(self) -> (r: &'static str)
        ensures
            r@ == mode_name(self),
    {
        match self {
            GenMode::Get => "get",
            GenMode::GetClone => "get_clone",
            GenMode::GetCopy => "get_copy",
            GenMode::GetMut => "get_mut",
            GenMode::Setter => "set",
            GenMode::SetWith => "set_with",
        }
    }

    pub fn prefix(self) -> (r: &'static str)
        ensures
            r@ == mode_prefix(self),
    {
        match self {
            GenMode::Get | GenMode::GetClone | GenMode::GetCopy | GenMode::GetMut => "",
            GenMode::Setter => "set_",
            GenMode::SetWith => "with_",
        }
    }

    pub fn suffix(self) -> (r: &'static str)
        ensures
            r@ == mode_suffix(self),
    {
        match self {
            GenMode::Get | GenMode::GetClone | GenMode::GetCopy | GenMode::Setter
            | GenMode::SetWith => "",
            GenMode::GetMut => "_mut",
        }
    }

    pub fn is_get(self) -> (r: bool)
        ensures
            r == mode_is_get(self),
    {
        match self {
            GenMode::Get | GenMode::GetClone | GenMode::GetCopy | GenMode::GetMut => true,
            GenMode::Setter | GenMode::SetWith => false,
        }
    }
}

/// The mode of a derive and the attribute that its structure carries for it.
pub struct GenParams {
    pub mode: GenMode,
    pub global_attr: Option<Meta>,
}

/// The string value of `attr` where it is named `name` and has one.
pub open spec fn named_value(attr: Option<Meta>, name: Seq<char>) -> Option<Seq<char>> {
    match attr {
        Some(m) => match m.value {
            MetaValue::Str(v) => if m.path@ == name {
                Some(v@)
            } else {
                None
            },
            _ => None,
        },
        None => None,
    }
}

/// The text that names an attribute's visibility: from the first word of its
/// value that begins with `pub` through the first space outside parentheses.
pub open spec fn visibility_word_spec(attr: Option<Meta>, name: Seq<char>) -> Option<Seq<char>> {
    match named_value(attr, name) {
        None => None,
        Some(v) => visibility_text_spec(v),
    }
}

/// The visibility an attribute asks for, where `acc` tells which words syn
/// accepts as a visibility.
pub open spec fn visibility_spec(
    attr: Option<Meta>,
    name: Seq<char>,
    acc: spec_fn(Seq<char>) -> bool,
) -> Result<Option<Seq<char>>, GenError> {
    match visibility_word_spec(attr, name) {
        None => Ok(None),
        Some(w) => settled(Some(w), acc(w)),
    }
}

/// Whether the value of `attr`, named `name`, holds the word `w`.
pub open spec fn value_has_word(attr: Option<Meta>, name: Seq<char>, w: Seq<char>) -> bool {
    match named_value(attr, name) {
        Some(v) => has_word_spec(v, w),
        None => false,
    }
}

/// An exec result that holds the text, or the error, of a spec result.
pub open spec fn same_opt_text(
    r: Result<Option<String>, GenError>,
    s: Result<Option<Seq<char>>, GenError>,
) -> bool {
    match (r, s) {
        (Ok(Some(a)), Ok(Some(b))) => a@ == b,
        (Ok(None), Ok(None)) => true,
        (Err(a), Err(b)) => a == b,
        _ => false,
    }
}

/// An exec result that holds the text, or the error, of a spec result.
pub open spec fn same_text(r: Result<String, GenError>, s: Result<Seq<char>, GenError>) -> bool {
    match (r, s) {
        (Ok(a), Ok(b)) => a@ == b,
        (Err(a), Err(b)) => a == b,
        _ => false,
    }
}

fn parse_named_value<'a>(attr: &'a Option<Meta>, meta_name: &str) -> (r: Option<&'a String>)
    ensures
        match r {
            Some(v) => named_value(*attr, meta_name@) == Some(v@),
            None => named_value(*attr, meta_name@) is None,
        },
{
    match attr {
        Some(m) => match &m.value {
            MetaValue::Str(v) => if str_eq(m.path.as_str(), meta_name) {
                Some(v)
            } else {
                None
            },
            _ => None,
        },
        None => None,
    }
}

/// The text that names the visibility `attr` asks for, when it is named
/// `meta_name`.
pub fn visibility_word(attr: &Option<Meta>, meta_name: &str) -> (r: Option<String>)
    ensures
        opt_view(r) == visibility_word_spec(*attr, meta_name@),
{
    match parse_named_value(attr, meta_name) {
        None => None,
        Some(v) => match visibility_text(v.as_str()) {
            Some(t) => Some(t),
            None => None,
        },
    }
}

/// The visibility that `attr` asks for, when it is named `meta_name`, as syn
/// judges its text: none without one, the text itself or an error otherwise,
/// and always the text where it is a plain or a `pub(in a::b)` visibility.
pub fn parse_visibility(attr: &Option<Meta>, meta_name: &str) -> (r: Result<Option<String>, GenError>)
    ensures
        match visibility_word_spec(*attr, meta_name@) {
            None => r matches Ok(None),
            Some(w) => (same_opt_text(r, Ok(Some(w))) || r == Err::<Option<String>, GenError>(
                GenError::InvalidVisibility,
            )) && (is_sure_visibility(w) ==> same_opt_text(r, Ok(Some(w)))),
        },
{
    let word = visibility_word(attr, meta_name);
    let accepted = match &word {
        Some(w) => visibility_parses(w.as_str()),
        None => true,
    };
    settle_visibility(word, accepted)
}

/// The visibility that `attr` asks for, with syn's verdicts from `table`.
fn visibility_in(attr: &Option<Meta>, meta_name: &str, table: &Vec<(String, bool)>) -> (r: Result<
    Option<String>,
    GenError,
>)
    ensures
        same_opt_text(r, visibility_spec(*attr, meta_name@, table_acceptance(table@))),
{
    let word = visibility_word(attr, meta_name);
    let accepted = match &word {
        Some(w) => accepts(table, w.as_str()),
        None => true,
    };
    settle_visibility(word, accepted)
}

/// Whether `attr`, named `meta_name`, asks for `as_ref`.
pub fn parse_as_ref(attr: &Option<Meta>, meta_name: &str) -> (r: bool)
    ensures
        r == value_has_word(*attr, meta_name@, "as_ref"@),
{
    match parse_named_value(attr, meta_name) {
        Some(v) => has_word(v.as_str(), "as_ref"),
        None => false,
    }
}

/// Whether `attr`, named `meta_name`, asks for `as_mut`.
pub fn parse_as_mut(attr: &Option<Meta>, meta_name: &str) -> (r: bool)
    ensures
        r == value_has_word(*attr, meta_name@, "as_mut"@),
{
    match parse_named_value(attr, meta_name) {
        Some(v) => has_word(v.as_str(), "as_mut"),
        None => false,
    }
}

/// The first type argument of a path segment.
pub open spec fn first_type_arg(args: PathArgs) -> Option<Seq<char>> {
    match args {
        PathArgs::AngleBracketed(v) => if v@.len() >= 1 {
            match v@[0] {
                GenericArg::Type(t) => Some(t@),
                GenericArg::Other => None,
            }
        } else {
            None
        },
        _ => None,
    }
}

/// The first two arguments of a path segment, when both are types.
pub open spec fn two_type_args(args: PathArgs) -> Option<(Seq<char>, Seq<char>)> {
    match args {
        PathArgs::AngleBracketed(v) => if v@.len() >= 2 {
            match (v@[0], v@[1]) {
                (GenericArg::Type(a), GenericArg::Type(b)) => Some((a@, b@)),
                _ => None,
            }
        } else {
            None
        },
        _ => None,
    }
}

/// The return type of an accessor that borrows the inside of an `Option` or
/// a `Result` field; `amp` is the borrow (`&` or `&mut `).
pub open spec fn borrowed_return_spec(ty: FieldType, amp: Seq<char>, e: GenError) -> Result<
    Seq<char>,
    GenError,
> {
    match ty.path {
        None => Err(e),
        Some(p) => if p.segments@.len() == 0 {
            Err(e)
        } else {
            let last = p.segments@.last();
            if last.ident@ == "Option"@ {
                match first_type_arg(last.args) {
                    Some(t) => Ok("Option<"@ + amp + t + ">"@),
                    None => Err(e),
                }
            } else if last.ident@ == "Result"@ {
                match two_type_args(last.args) {
                    Some((a, b)) => Ok("Result<"@ + amp + a + ", "@ + amp + b + ">"@),
                    None => Err(e),
                }
            } else {
                Err(e)
            }
        },
    }
}

fn borrowed_return(ty: &FieldType, amp: &str, e: GenError) -> (r: Result<String, GenError>)
    ensures
        same_text(r, borrowed_return_spec(*ty, amp@, e)),
{
    let p = match &ty.path {
        None => {
            return Err(e);
        },
        Some(p) => p,
    };
    let n = p.segments.len();
    if n == 0 {
        return Err(e);
    }
    let last = &p.segments[n - 1];
    if str_eq(last.ident.as_str(), "Option") {
        if let PathArgs::AngleBracketed(v) = &last.args {
            if v.len() >= 1 {
                if let GenericArg::Type(t) = &v[0] {
                    let mut r = String::from_str("Option<");
                    r.append(amp);
                    r.append(t.as_str());
                    r.append(">");
                    return Ok(r);
                }
            }
        }
        Err(e)
    } else if str_eq(last.ident.as_str(), "Result") {
        if let PathArgs::AngleBracketed(v) = &last.args {
            if v.len() >= 2 {
                if let (GenericArg::Type(a), GenericArg::Type(b)) = (&v[0], &v[1]) {
                    let mut r = String::from_str("Result<");
                    r.append(amp);
                    r.append(a.as_str());
                    r.append(", ");
                    r.append(amp);
                    r.append(b.as_str());
                    r.append(">");
                    return Ok(r);
                }
            }
        }
        Err(e)
    } else {
        Err(e)
    }
}

/// The return type of an `as_ref` getter: `Option<&T>` or `Result<&T, &E>`.
pub fn get_as_ref_return(ty: &FieldType) -> (r: Result<String, GenError>)
    ensures
        same_text(r, borrowed_return_spec(*ty, "&"@, GenError::AsRefUnsupported)),
{
    borrowed_return(ty, "&", GenError::AsRefUnsupported)
}

/// The return type of an `as_mut` getter: `Option<&mut T>` or
/// `Result<&mut T, &mut E>`.
pub fn get_as_mut_return(ty: &FieldType) -> (r: Result<String, GenError>)
    ensures
        same_text(r, borrowed_return_spec(*ty, "&mut "@, GenError::AsMutUnsupported)),
{
    borrowed_return(ty, "&mut ", GenError::AsMutUnsupported)
}

/// Whether a path names a getter.
pub open spec fn is_getter_name(p: Seq<char>) -> bool {
    p == "get"@ || p == "get_clone"@ || p == "get_copy"@ || p == "get_mut"@
}

/// Whether an item's string value holds the word `with_prefix`.
pub open spec fn meta_has_prefix(m: Meta) -> bool {
    match m.value {
        MetaValue::Str(v) => has_word_spec(v@, "with_prefix"@),
        _ => false,
    }
}

/// The first item found that is named after a getter.
pub open spec fn first_getter(found: Seq<Option<Meta>>) -> Option<Meta>
    decreases found.len(),
{
    if found.len() == 0 {
        None
    } else {
        match found[0] {
            Some(m) => if is_getter_name(m.path@) {
                Some(m)
            } else {
                first_getter(found.drop_first())
            },
            None => first_getter(found.drop_first()),
        }
    }
}

/// Whether a getter's name takes the `get_` prefix: its own getter item, or
/// the structure's item, asks for `with_prefix`.
pub open spec fn has_prefix_spec(found: Seq<Option<Meta>>, global: Option<Meta>) -> bool {
    (match first_getter(found) {
        Some(m) => meta_has_prefix(m),
        None => false,
    }) || (match global {
        Some(m) => meta_has_prefix(m),
        None => false,
    })
}

/// The last item found.
pub open spec fn last_found(found: Seq<Option<Meta>>) -> Option<Meta>
    decreases found.len(),
{
    if found.len() == 0 {
        None
    } else if found.last() is Some {
        found.last()
    } else {
        last_found(found.drop_last())
    }
}

/// The item that governs a field: its own last one, else the structure's.
pub open spec fn chosen_attr(found: Seq<Option<Meta>>, global: Option<Meta>) -> Option<Meta> {
    match last_found(found) {
        Some(m) => Some(m),
        None => global,
    }
}

/// The accessor's name for a named field. A raw field name stays raw where
/// nothing is added to it.
pub open spec fn fn_name_spec(ident: Seq<char>, mode: GenMode, prefixed: bool) -> Seq<char> {
    if !prefixed && mode_is_get(mode) && mode_suffix(mode).len() == 0 && is_raw(ident) {
        ident
    } else {
        (if prefixed && mode_is_get(mode) {
            "get_"@
        } else {
            ""@
        }) + mode_prefix(mode) + unraw_spec(ident) + mode_suffix(mode)
    }
}

/// The accessor's name for the field of a unary tuple structure.
pub open spec fn unnamed_fn_name(mode: GenMode) -> Seq<char> {
    match mode {
        GenMode::Get | GenMode::GetClone => "get"@,
        GenMode::GetCopy => "get_copy"@,
        GenMode::GetMut => "get_mut"@,
        GenMode::Setter => "set"@,
        GenMode::SetWith => "set_with"@,
    }
}

/// The last attribute whose path is `name`.
pub open spec fn last_named_spec(attrs: Seq<Attribute>, name: Seq<char>) -> Option<Attribute>
    decreases attrs.len(),
{
    if attrs.len() == 0 {
        None
    } else if attrs.last().meta.path@ == name {
        Some(attrs.last())
    } else {
        last_named_spec(attrs.drop_last(), name)
    }
}

/// The last attribute whose path is `name`.
pub(crate) fn last_named<'a>(attrs: &'a Vec<Attribute>, name: &str) -> (r: Option<&'a Attribute>)
    ensures
        match r {
            Some(a) => last_named_spec(attrs@, name@) == Some(*a),
            None => last_named_spec(attrs@, name@) is None,
        },
{
    let mut i: usize = attrs.len();
    assert(attrs@.subrange(0, attrs@.len() as int) =~= attrs@);
    while i > 0
        invariant
            i <= attrs@.len(),
            last_named_spec(attrs@, name@) == last_named_spec(attrs@.subrange(0, i as int), name@),
        decreases i,
    {
        let ghost pre = attrs@.subrange(0, i as int);
        assert(pre.drop_last() =~= attrs@.subrange(0, i - 1));
        assert(pre.last() == attrs@[i - 1]);
        if str_eq(attrs[i - 1].meta.path.as_str(), name) {
            return Some(&attrs[i - 1]);
        }
        i = i - 1;
    }
    assert(attrs@.subrange(0, 0) =~= Seq::<Attribute>::empty());
    None
}

/// The doc attributes of a field, each followed by a space.
pub open spec fn docs_text(attrs: Seq<Attribute>) -> Seq<char>
    decreases attrs.len(),
{
    if attrs.len() == 0 {
        Seq::empty()
    } else if attrs.last().meta.path@ == "doc"@ {
        docs_text(attrs.drop_last()) + attrs.last().text@ + " "@
    } else {
        docs_text(attrs.drop_last())
    }
}

pub open spec fn opt_view(o: Option<String>) -> Option<Seq<char>> {
    match o {
        Some(s) => Some(s@),
        None => None,
    }
}

pub open spec fn vis_text(vis: Option<Seq<char>>) -> Seq<char> {
    match vis {
        Some(v) => v + " "@,
        None => Seq::empty(),
    }
}

/// An inlined function with the given parts.
pub open spec fn fn_text(
    docs: Seq<char>,
    vis: Option<Seq<char>>,
    name: Seq<char>,
    params: Seq<char>,
    ret: Seq<char>,
    body: Seq<char>,
) -> Seq<char> {
    docs + "#[inline(always)] "@ + vis_text(vis) + "fn "@ + name + "("@ + params + ") -> "@ + ret
        + " { "@ + body + " }"@
}

/// The accessor of a mode that reaches the field by `access`; `borrowed` is
/// the return type of an `as_ref` or `as_mut` getter.
pub open spec fn accessor_spec(
    docs: Seq<char>,
    vis: Option<Seq<char>>,
    name: Seq<char>,
    mode: GenMode,
    access: Seq<char>,
    ty: Seq<char>,
    borrowed: Option<Seq<char>>,
) -> Seq<char> {
    match mode {
        GenMode::Get => match borrowed {
            Some(t) => fn_text(docs, vis, name, "&self"@, t, access + ".as_ref()"@),
            None => fn_text(docs, vis, name, "&self"@, "&"@ + ty, "&"@ + access),
        },
        GenMode::GetClone => fn_text(docs, vis, name, "&self"@, ty, access + ".clone()"@),
        GenMode::GetCopy => fn_text(docs, vis, name, "&self"@, ty, access),
        GenMode::GetMut => match borrowed {
            Some(t) => fn_text(docs, vis, name, "&mut self"@, t, access + ".as_mut()"@),
            None => fn_text(docs, vis, name, "&mut self"@, "&mut "@ + ty, "&mut "@ + access),
        },
        GenMode::Setter => fn_text(
            docs,
            vis,
            name,
            "&mut self, val: "@ + ty,
            "&mut Self"@,
            access + " = val; self"@,
        ),
        GenMode::SetWith => fn_text(
            docs,
            vis,
            name,
            "mut self, val: "@ + ty,
            "Self"@,
            access + " = val; self"@,
        ),
    }
}

/// The borrowed return type that an `as_ref` or `as_mut` getter asks for.
pub open spec fn borrowed_spec(attr: Option<Meta>, mode: GenMode, ty: FieldType) -> Result<
    Option<Seq<char>>,
    GenError,
> {
    match mode {
        GenMode::Get => if value_has_word(attr, mode_name(mode), "as_ref"@) {
            match borrowed_return_spec(ty, "&"@, GenError::AsRefUnsupported) {
                Ok(t) => Ok(Some(t)),
                Err(e) => Err(e),
            }
        } else {
            Ok(None)
        },
        GenMode::GetMut => if value_has_word(attr, mode_name(mode), "as_mut"@) {
            match borrowed_return_spec(ty, "&mut "@, GenError::AsMutUnsupported) {
                Ok(t) => Ok(Some(t)),
                Err(e) => Err(e),
            }
        } else {
            Ok(None)
        },
        _ => Ok(None),
    }
}

/// The accessor for a field once its governing item `attr` is known: nothing
/// where there is none or it is `skip`.
pub open spec fn accessor_for(
    docs: Seq<char>,
    attr: Option<Meta>,
    name: Seq<char>,
    mode: GenMode,
    access: Seq<char>,
    ty: FieldType,
    acc: spec_fn(Seq<char>) -> bool,
) -> Result<Seq<char>, GenError> {
    match visibility_spec(attr, mode_name(mode), acc) {
        Err(e) => Err(e),
        Ok(vis) => match attr {
            None => Ok(Seq::empty()),
            Some(m) => if m.path@ == "skip"@ {
                Ok(Seq::empty())
            } else {
                match borrowed_spec(attr, mode, ty) {
                    Err(e) => Err(e),
                    Ok(b) => Ok(accessor_spec(docs, vis, name, mode, access, ty.text@, b)),
                }
            },
        },
    }
}

/// The accessor for a named field, where `acc` tells which visibility words
/// syn accepts.
pub open spec fn implement_spec(
    field: Field,
    params: GenParams,
    acc: spec_fn(Seq<char>) -> bool,
) -> Result<Seq<char>, GenError> {
    match field.ident {
        None => Err(GenError::UnnamedField),
        Some(ident) => match parse_attrs_spec(field.attrs@, params.mode) {
            Err(e) => Err(e),
            Ok(found) => accessor_for(
                docs_text(field.attrs@),
                chosen_attr(found, params.global_attr),
                fn_name_spec(ident@, params.mode, has_prefix_spec(found, params.global_attr)),
                params.mode,
                "self."@ + ident@,
                field.ty,
                acc,
            ),
        },
    }
}

/// The accessor for the field of a unary tuple structure, where `acc` tells
/// which visibility words syn accepts.
pub open spec fn implement_for_unnamed_spec(
    field: Field,
    params: GenParams,
    acc: spec_fn(Seq<char>) -> bool,
) -> Result<Seq<char>, GenError> {
    match parse_attrs_spec(field.attrs@, params.mode) {
        Err(e) => Err(e),
        Ok(found) => accessor_for(
            docs_text(field.attrs@),
            chosen_attr(found, params.global_attr),
            unnamed_fn_name(params.mode),
            params.mode,
            "self.0"@,
            field.ty,
            acc,
        ),
    }
}

fn meta_wants_prefix(m: &Meta) -> (r: bool)
    ensures
        r == meta_has_prefix(*m),
{
    match &m.value {
        MetaValue::Str(v) => has_word(v.as_str(), "with_prefix"),
        _ => false,
    }
}

fn is_getter(p: &str) -> (r: bool)
    ensures
        r == is_getter_name(p@),
{
    str_eq(p, "get") || str_eq(p, "get_clone") || str_eq(p, "get_copy") || str_eq(p, "get_mut")
}

/// Whether a getter's name takes the `get_` prefix.
fn has_prefix_attr(found: &Vec<Option<Meta>>, params: &GenParams) -> (r: bool)
    ensures
        r == has_prefix_spec(found@, params.global_attr),
{
    let global_prefix = match &params.global_attr {
        Some(m) => meta_wants_prefix(m),
        None => false,
    };
    let ghost all = found@;
    let mut i: usize = 0;
    assert(all.subrange(0, all.len() as int) =~= all);
    while i < found.len()
        invariant
            all == found@,
            i <= all.len(),
            first_getter(all) == first_getter(all.subrange(i as int, all.len() as int)),
            global_prefix == (match params.global_attr {
                Some(g) => meta_has_prefix(g),
                None => false,
            }),
        decreases found.len() - i,
    {
        let ghost rest = all.subrange(i as int, all.len() as int);
        assert(rest.drop_first() =~= all.subrange(i + 1, all.len() as int));
        assert(rest[0] == all[i as int]);
        if let Some(m) = &found[i] {
            if is_getter(m.path.as_str()) {
                assert(rest.len() > 0 && rest[0] == Some(*m));
                assert(first_getter(rest) == Some(*m));
                return meta_wants_prefix(m) || global_prefix;
            }
        }
        i = i + 1;
    }
    assert(all.subrange(i as int, all.len() as int) =~= Seq::<Option<Meta>>::empty());
    global_prefix
}

/// The last item found.
pub(crate) fn last_of(found: &Vec<Option<Meta>>) -> (r: Option<Meta>)
    ensures
        r == last_found(found@),
{
    let mut i: usize = found.len();
    assert(found@.subrange(0, found@.len() as int) =~= found@);
    while i > 0
        invariant
            i <= found@.len(),
            last_found(found@) == last_found(found@.subrange(0, i as int)),
        decreases i,
    {
        let ghost pre = found@.subrange(0, i as int);
        assert(pre.drop_last() =~= found@.subrange(0, i - 1));
        assert(pre.last() == found@[i - 1]);
        if let Some(m) = &found[i - 1] {
            return Some(m.copied());
        }
        i = i - 1;
    }
    assert(found@.subrange(0, 0) =~= Seq::<Option<Meta>>::empty());
    None
}

/// The item that governs a field.
fn choose_attr(found: &Vec<Option<Meta>>, params: &GenParams) -> (r: Option<Meta>)
    ensures
        r == chosen_attr(found@, params.global_attr),
{
    match last_of(found) {
        Some(m) => Some(m),
        None => match &params.global_attr {
            Some(m) => Some(m.copied()),
            None => None,
        },
    }
}

/// The doc attributes of a field, each followed by a space.
pub(crate) fn docs_of(attrs: &Vec<Attribute>) -> (r: String)
    ensures
        r@ == docs_text(attrs@),
{
    let mut r = String::new();
    let mut i: usize = 0;
    assert(attrs@.subrange(0, 0) =~= Seq::<Attribute>::empty());
    while i < attrs.len()
        invariant
            i <= attrs@.len(),
            r@ == docs_text(attrs@.subrange(0, i as int)),
        decreases attrs.len() - i,
    {
        let ghost next = attrs@.subrange(0, i + 1);
        assert(next.drop_last() =~= attrs@.subrange(0, i as int));
        assert(next.last() == attrs@[i as int]);
        if str_eq(attrs[i].meta.path.as_str(), "doc") {
            r.append(attrs[i].text.as_str());
            r.append(" ");
        }
        i = i + 1;
    }
    assert(attrs@.subrange(0, attrs@.len() as int) =~= attrs@);
    r
}

pub(crate) fn fn_text_of(
    docs: &str,
    vis: &Option<String>,
    name: &str,
    params: &str,
    ret: &str,
    body: &str,
) -> (r: String)
    ensures
        r@ == fn_text(docs@, opt_view(*vis), name@, params@, ret@, body@),
{
    let mut r = String::from_str(docs);
    r.append("#[inline(always)] ");
    if let Some(v) = vis {
        r.append(v.as_str());
        r.append(" ");
    }
    r.append("fn ");
    r.append(name);
    r.append("(");
    r.append(params);
    r.append(") -> ");
    r.append(ret);
    r.append(" { ");
    r.append(body);
    r.append(" }");
    r
}

pub(crate) fn joined(a: &str, b: &str) -> (r: String)
    ensures
        r@ == a@ + b@,
{
    let mut r = String::from_str(a);
    r.append(b);
    r
}

fn accessor_text(
    docs: &str,
    vis: &Option<String>,
    name: &str,
    mode: GenMode,
    access: &str,
    ty: &str,
    borrowed: &Option<String>,
) -> (r: String)
    ensures
        r@ == accessor_spec(docs@, opt_view(*vis), name@, mode, access@, ty@, opt_view(*borrowed)),
{
    match mode {
        GenMode::Get => match borrowed {
            Some(t) => fn_text_of(docs, vis, name, "&self", t.as_str(), joined(access, ".as_ref()").as_str()),
            None => fn_text_of(docs, vis, name, "&self", joined("&", ty).as_str(), joined("&", access).as_str()),
        },
        GenMode::GetClone => fn_text_of(docs, vis, name, "&self", ty, joined(access, ".clone()").as_str()),
        GenMode::GetCopy => fn_text_of(docs, vis, name, "&self", ty, access),
        GenMode::GetMut => match borrowed {
            Some(t) => fn_text_of(docs, vis, name, "&mut self", t.as_str(), joined(access, ".as_mut()").as_str()),
            None => fn_text_of(
                docs,
                vis,
                name,
                "&mut self",
                joined("&mut ", ty).as_str(),
                joined("&mut ", access).as_str(),
            ),
        },
        GenMode::Setter => fn_text_of(
            docs,
            vis,
            name,
            joined("&mut self, val: ", ty).as_str(),
            "&mut Self",
            joined(access, " = val; self").as_str(),
        ),
        GenMode::SetWith => fn_text_of(
            docs,
            vis,
            name,
            joined("mut self, val: ", ty).as_str(),
            "Self",
            joined(access, " = val; self").as_str(),
        ),
    }
}

fn borrowed_of(attr: &Option<Meta>, mode: GenMode, ty: &FieldType) -> (r: Result<Option<String>, GenError>)
    ensures
        same_opt_text(r, borrowed_spec(*attr, mode, *ty)),
{
    match mode {
        GenMode::Get => if parse_as_ref(attr, mode.name()) {
            match get_as_ref_return(ty) {
                Ok(t) => Ok(Some(t)),
                Err(e) => Err(e),
            }
        } else {
            Ok(None)
        },
        GenMode::GetMut => if parse_as_mut(attr, mode.name()) {
            match get_as_mut_return(ty) {
                Ok(t) => Ok(Some(t)),
                Err(e) => Err(e),
            }
        } else {
            Ok(None)
        },
        _ => Ok(None),
    }
}

fn accessor_for_attr(
    docs: &str,
    attr: &Option<Meta>,
    name: &str,
    mode: GenMode,
    access: &str,
    ty: &FieldType,
    table: &Vec<(String, bool)>,
) -> (r: Result<String, GenError>)
    ensures
        same_text(r, accessor_for(docs@, *attr, name@, mode, access@, *ty, table_acceptance(table@))),
{
    let vis = match visibility_in(attr, mode.name(), table) {
        Err(e) => {
            return Err(e);
        },
        Ok(v) => v,
    };
    match attr {
        None => Ok(String::new()),
        Some(m) => if str_eq(m.path.as_str(), "skip") {
            Ok(String::new())
        } else {
            match borrowed_of(attr, mode, ty) {
                Err(e) => Err(e),
                Ok(b) => Ok(accessor_text(docs, &vis, name, mode, access, ty.text.as_str(), &b)),
            }
        },
    }
}

/// The accessor name for a named field.
fn fn_name_of(ident: &str, mode: GenMode, prefixed: bool) -> (r: String)
    ensures
        r@ == fn_name_spec(ident@, mode, prefixed),
{
    if !prefixed && mode.is_get() && mode.suffix().is_empty() && is_raw_name(ident) {
        String::from_str(ident)
    } else {
        let mut r = if prefixed && mode.is_get() {
            String::from_str("get_")
        } else {
            String::from_str("")
        };
        r.append(mode.prefix());
        r.append(unraw(ident).as_str());
        r.append(mode.suffix());
        r
    }
}

/// The visibility verdicts for a field's attributes and the structure's item.
pub(crate) fn field_table(field: &Field, params: &GenParams) -> (t: Vec<(String, bool)>)
    ensures
        table_sound(t@),
{
    let mut t: Vec<(String, bool)> = Vec::new();
    note_attrs(&mut t, &field.attrs);
    note_opt_meta(&mut t, &params.global_attr);
    t
}

/// The accessor, as source text, that `params` asks of a named field; empty
/// where the field asks for none. syn's judgement of each visibility word is
/// asked for; whatever it says, plain visibilities are accepted.
pub fn implement(field: &Field, params: &GenParams) -> (r: Result<String, GenError>)
    ensures
        exists|acc: spec_fn(Seq<char>) -> bool|
            sound_acceptance(acc) && #[trigger] same_text(r, implement_spec(*field, *params, acc)),
{
    let table = field_table(field, params);
    let r = implement_with(field, params, &table);
    proof {
        lemma_table_acceptance_sound(table@);
    }
    assert(same_text(r, implement_spec(*field, *params, table_acceptance(table@))));
    r
}

/// The accessor, as source text, that `params` asks of a named field, with
/// syn's verdicts on visibility words from `table`; empty where the field asks
/// for none.
pub fn implement_with(field: &Field, params: &GenParams, table: &Vec<(String, bool)>) -> (r: Result<
    String,
    GenError,
>)
    ensures
        same_text(r, implement_spec(*field, *params, table_acceptance(table@))),
{
    let ident = match &field.ident {
        None => {
            return Err(GenError::UnnamedField);
        },
        Some(i) => i,
    };
    let found = match parse_attrs(&field.attrs, params.mode) {
        Err(e) => {
            return Err(e);
        },
        Ok(f) => f,
    };
    let prefixed = has_prefix_attr(&found, params);
    let name = fn_name_of(ident.as_str(), params.mode, prefixed);
    let attr = choose_attr(&found, params);
    let docs = docs_of(&field.attrs);
    let access = joined("self.", ident.as_str());
    accessor_for_attr(docs.as_str(), &attr, name.as_str(), params.mode, access.as_str(), &field.ty, table)
}

/// The accessor, as source text, that `params` asks of the field of a unary
/// tuple structure; empty where the field asks for none. syn's judgement of
/// each visibility word is asked for; whatever it says, plain visibilities are
/// accepted.
pub fn implement_for_unnamed(field: &Field, params: &GenParams) -> (r: Result<String, GenError>)
    ensures
        exists|acc: spec_fn(Seq<char>) -> bool|
            sound_acceptance(acc) && #[trigger] same_text(
                r,
                implement_for_unnamed_spec(*field, *params, acc),
            ),
{
    let table = field_table(field, params);
    let r = implement_for_unnamed_with(field, params, &table);
    proof {
        lemma_table_acceptance_sound(table@);
    }
    assert(same_text(r, implement_for_unnamed_spec(*field, *params, table_acceptance(table@))));
    r
}

/// The accessor, as source text, that `params` asks of the field of a unary
/// tuple structure, with syn's verdicts on visibility words from `table`.
pub fn implement_for_unnamed_with(
    field: &Field,
    params: &GenParams,
    table: &Vec<(String, bool)>,
) -> (r: Result<String, GenError>)
    ensures
        same_text(r, implement_for_unnamed_spec(*field, *params, table_acceptance(table@))),
{
    let found = match parse_attrs(&field.attrs, params.mode) {
        Err(e) => {
            return Err(e);
        },
        Ok(f) => f,
    };
    let attr = choose_attr(&found, params);
    let docs = docs_of(&field.attrs);
    let name = match params.mode {
        GenMode::Get | GenMode::GetClone => "get",
        GenMode::GetCopy => "get_copy",
        GenMode::GetMut => "get_mut",
        GenMode::Setter => "set",
        GenMode::SetWith => "set_with",
    };
    accessor_for_attr(docs.as_str(), &attr, name, params.mode, "self.0", &field.ty, table)
}

/// A field whose own attributes end in `skip` gets no accessor, in any mode
/// and whatever the structure asks for.
pub proof fn lemma_skip_yields_nothing(
    field: Field,
    params: GenParams,
    acc: spec_fn(Seq<char>) -> bool,
)
    requires
        field.ident is Some,
        parse_attrs_spec(field.attrs@, params.mode) matches Ok(found) && last_found(found) matches Some(
            m,
        ) && m.path@ == "skip"@,
    ensures
        implement_spec(field, params, acc) == Ok::<Seq<char>, GenError>(Seq::empty()),
{
    lemma_mode_name_not_skip(params.mode);
}

/// A chainable setter takes the structure by value and hands it back, so that
/// calls can follow one another.
pub proof fn lemma_with_setter_returns_self(
    field: Field,
    params: GenParams,
    acc: spec_fn(Seq<char>) -> bool,
    t: Seq<char>,
)
    requires
        params.mode == GenMode::SetWith,
        implement_spec(field, params, acc) == Ok::<Seq<char>, GenError>(t),
        t.len() > 0,
    ensures
        exists|docs: Seq<char>, vis: Option<Seq<char>>, name: Seq<char>|
            t == fn_text(
                docs,
                vis,
                name,
                "mut self, val: "@ + field.ty.text@,
                "Self"@,
                "self."@ + field.ident->0@ + " = val; self"@,
            ),
{
    let found = parse_attrs_spec(field.attrs@, params.mode)->Ok_0;
    let attr = chosen_attr(found, params.global_attr);
    let vis = visibility_spec(attr, mode_name(params.mode), acc)->Ok_0;
    let name = fn_name_spec(
        field.ident->0@,
        params.mode,
        has_prefix_spec(found, params.global_attr),
    );
    assert(t == fn_text(
        docs_text(field.attrs@),
        vis,
        name,
        "mut self, val: "@ + field.ty.text@,
        "Self"@,
        "self."@ + field.ident->0@ + " = val; self"@,
    ));
}

/// A copying getter returns the field's own type, by value.
pub proof fn lemma_copy_getter_returns_value(
    field: Field,
    params: GenParams,
    acc: spec_fn(Seq<char>) -> bool,
    t: Seq<char>,
)
    requires
        params.mode == GenMode::GetCopy,
        implement_spec(field, params, acc) == Ok::<Seq<char>, GenError>(t),
        t.len() > 0,
    ensures
        exists|docs: Seq<char>, vis: Option<Seq<char>>, name: Seq<char>|
            t == fn_text(docs, vis, name, "&self"@, field.ty.text@, "self."@ + field.ident->0@),
{
    let found = parse_attrs_spec(field.attrs@, params.mode)->Ok_0;
    let attr = chosen_attr(found, params.global_attr);
    let vis = visibility_spec(attr, mode_name(params.mode), acc)->Ok_0;
    let name = fn_name_spec(
        field.ident->0@,
        params.mode,
        has_prefix_spec(found, params.global_attr),
    );
    assert(t == fn_text(
        docs_text(field.attrs@),
        vis,
        name,
        "&self"@,
        field.ty.text@,
        "self."@ + field.ident->0@,
    ));
}

} // verus!
