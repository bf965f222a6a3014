//! Accessor generation driven by requests: each attribute of a field that
//! names a mode is a request, the structure's requests fill in the modes a
//! field leaves open, and each request yields one accessor. Also covers
//! optional getters and setters of `Option` fields.

use vstd::prelude::*;
use vstd::string::*;

use crate::generate::{docs_of, docs_text, fn_text, fn_text_of, joined, opt_view, same_opt_text, same_text};
use crate::visibility::{
    accepts, is_sure_visibility, request_visibility_text, request_visibility_text_spec, lemma_table_acceptance_sound, note_attrs, note_meta,
    settle_visibility, settled, sound_acceptance, table_acceptance, table_sound,
    visibility_parses,
};
use crate::{impl_block, impl_block_of};
use crate::model::{
    AttrArgs, Attribute, Data, DeriveInput, Field, FieldType, GenError, GenericArg, Meta,
    MetaValue, PathArgs, PathSegment,
};
use crate::text::{has_word, has_word_spec, is_raw, is_raw_name, str_eq, unraw, unraw_spec};

verus! {

/// The prefix that `with_prefix` gives a getter's name.
pub const LEGACY_GETTER_PREFIX: &'static str = "get_";

/// The accessor an attribute of a field asks for.
#[derive(PartialEq, Eq, Structural, Copy, Clone, Debug)]
pub enum GetSetMode {
    Get,
    GetCopy,
    GetOption,
    GetMut,
    Setter,
    SetOption,
    Skip,
}

pub open spec fn get_set_mode_name(m: GetSetMode) -> Seq<char> {
    match m {
        GetSetMode::Get => "get"@,
        GetSetMode::GetCopy => "get_copy"@,
        GetSetMode::GetOption => "get_option"@,
        GetSetMode::GetMut => "get_mut"@,
        GetSetMode::Setter => "set"@,
        GetSetMode::SetOption => "set_option"@,
        GetSetMode::Skip => "skip"@,
    }
}

/// The mode an attribute name selects.
pub open spec fn mode_of_name(s: Seq<char>) -> Option<GetSetMode> {
    if s == "get"@ {
        Some(GetSetMode::Get)
    } else if s == "get_copy"@ {
        Some(GetSetMode::GetCopy)
    } else if s == "get_option"@ {
        Some(GetSetMode::GetOption)
    } else if s == "get_mut"@ {
        Some(GetSetMode::GetMut)
    } else if s == "set"@ {
        Some(GetSetMode::Setter)
    } else if s == "set_option"@ {
        Some(GetSetMode::SetOption)
    } else if s == "skip"@ {
        Some(GetSetMode::Skip)
    } else {
        None
    }
}

impl GetSetMode {
    pub fn name(self) -> (r: &'static str)
        ensures
            r@ == get_set_mode_name(self),
    {
        match self {
            GetSetMode::Get => "get",
            GetSetMode::GetCopy => "get_copy",
            GetSetMode::GetOption => "get_option",
            GetSetMode::GetMut => "get_mut",
            GetSetMode::Setter => "set",
            GetSetMode::SetOption => "set_option",
            GetSetMode::Skip => "skip",
        }
    }

    /// The mode that an attribute name selects, if any.
    pub fn from_name(s: &str) -> (r: Option<GetSetMode>)
        ensures
            r == mode_of_name(s@),
    {
        if str_eq(s, "get") {
            Some(GetSetMode::Get)
        } else if str_eq(s, "get_copy") {
            Some(GetSetMode::GetCopy)
        } else if str_eq(s, "get_option") {
            Some(GetSetMode::GetOption)
        } else if str_eq(s, "get_mut") {
            Some(GetSetMode::GetMut)
        } else if str_eq(s, "set") {
            Some(GetSetMode::Setter)
        } else if str_eq(s, "set_option") {
            Some(GetSetMode::SetOption)
        } else if str_eq(s, "skip") {
            Some(GetSetMode::Skip)
        } else {
            None
        }
    }
}

impl std::str::FromStr for GetSetMode {
    type Err = String;

    fn from_str(s: &str) -> (r: Result<Self, Self::Err>)
        ensures
            match mode_of_name(s@) {
                Some(m) => r == Ok::<GetSetMode, String>(m),
                None => r matches Err(e) && e@ == "'"@ + s@ + "' is not a valid value for GetSetMode"@,
            },
    {
        match GetSetMode::from_name(s) {
            Some(mode) => Ok(mode),
            None => Err(invalid_mode_message(s)),
        }
    }
}

/// The message for a text that names no mode.
pub fn invalid_mode_message(s: &str) -> (r: String)
    ensures
        r@ == "'"@ + s@ + "' is not a valid value for GetSetMode"@,
{
    let mut e = String::new();
    e.append("'");
    e.append(s);
    e.append("' is not a valid value for GetSetMode");
    proof {
        reveal_strlit("");
    }
    assert(e@ == ""@ + "'"@ + s@ + "' is not a valid value for GetSetMode"@);
    assert(""@ + "'"@ =~= "'"@);
    e
}

/// One accessor request of a field: its mode, and the prefix a getter asked
/// for with `with_prefix`.
#[derive(Clone, Copy)]
pub struct GetSetAttr {
    mode: GetSetMode,
    prefix: Option<&'static str>,
}

/// The mode of a request.
pub closed spec fn mode_of(a: GetSetAttr) -> GetSetMode {
    a.mode
}

/// The prefix a request asked for, if any.
pub closed spec fn prefix_of(a: GetSetAttr) -> Option<&'static str> {
    a.prefix
}

/// The prefix of a request's accessor name: `set_` for setters, else the
/// prefix the request asked for.
pub open spec fn attr_prefix_spec(a: GetSetAttr) -> Seq<char> {
    match (mode_of(a), prefix_of(a)) {
        (GetSetMode::Setter, _) => "set_"@,
        (GetSetMode::SetOption, _) => "set_"@,
        (_, Some(p)) => p@,
        _ => ""@,
    }
}

/// The suffix of a request's accessor name.
pub open spec fn attr_suffix_spec(a: GetSetAttr) -> Seq<char> {
    match mode_of(a) {
        GetSetMode::GetMut => "_mut"@,
        _ => ""@,
    }
}

/// Whether a request reads the field.
pub open spec fn attr_is_get(a: GetSetAttr) -> bool {
    !(mode_of(a) is Setter || mode_of(a) is SetOption || mode_of(a) is Skip)
}

/// Whether a request reads or writes the inside of an `Option` field.
pub open spec fn attr_is_option(a: GetSetAttr) -> bool {
    mode_of(a) is GetOption || mode_of(a) is SetOption
}

/// What tells two requests apart: two requests with one identifier exclude
/// each other.
pub open spec fn identifier_spec(a: GetSetAttr) -> Seq<char> {
    match prefix_of(a) {
        Some(p) => p@,
        None => match mode_of(a) {
            GetSetMode::Get | GetSetMode::GetCopy | GetSetMode::GetOption => "get"@,
            GetSetMode::GetMut => "get_mut"@,
            GetSetMode::Setter | GetSetMode::SetOption => "set"@,
            GetSetMode::Skip => "skip"@,
        },
    }
}

impl PartialEq for GetSetAttr {
    /// Two requests are equal when they exclude each other: when their
    /// identifiers are equal.
    fn eq(&self, other: &GetSetAttr) -> (r: bool) {
        str_eq(self.identifier(), other.identifier())
    }
}

impl vstd::std_specs::cmp::PartialEqSpecImpl for GetSetAttr {
    open spec fn obeys_eq_spec() -> bool {
        true
    }

    open spec fn eq_spec(&self, other: &GetSetAttr) -> bool {
        identifier_spec(*self) == identifier_spec(*other)
    }
}

impl Eq for GetSetAttr {

}

/// Whether an item's string value holds the word `with_prefix`.
pub open spec fn wants_prefix_spec(meta: Meta) -> bool {
    match meta.value {
        MetaValue::Str(v) => has_word_spec(v@, "with_prefix"@),
        _ => false,
    }
}

/// The request that an item makes, or why it makes none.
pub closed spec fn new_attr_spec(meta: Meta) -> Result<GetSetAttr, GenError> {
    match mode_of_name(meta.path@) {
        None => Err(GenError::InvalidMode),
        Some(mode) => Ok(
            GetSetAttr {
                mode,
                prefix: if wants_prefix_spec(meta) {
                    Some(LEGACY_GETTER_PREFIX)
                } else {
                    None
                },
            },
        ),
    }
}

impl GetSetAttr {
    /// The request that `meta` makes.
    pub fn new(meta: &Meta) -> (r: Result<GetSetAttr, GenError>)
        ensures
            r == new_attr_spec(*meta),
            match mode_of_name(meta.path@) {
                None => r == Err::<GetSetAttr, GenError>(GenError::InvalidMode),
                Some(m) => r matches Ok(a) && mode_of(a) == m && prefix_of(a) == (if wants_prefix_spec(
                    *meta,
                ) {
                    Some(LEGACY_GETTER_PREFIX)
                } else {
                    None
                }),
            },
    {
        match GetSetMode::from_name(meta.path.as_str()) {
            None => Err(GenError::InvalidMode),
            Some(mode) => {
                let prefix = if attr_wants_prefix(meta) {
                    Some(LEGACY_GETTER_PREFIX)
                } else {
                    None
                };
                Ok(GetSetAttr { mode, prefix })
            },
        }
    }

    /// The request to skip a field.
    pub fn skip() -> (r: GetSetAttr)
        ensures
            mode_of(r) == GetSetMode::Skip,
            prefix_of(r) is None,
    {
        GetSetAttr { mode: GetSetMode::Skip, prefix: None }
    }

    pub fn name(&self) -> (r: &'static str)
        ensures
            r@ == get_set_mode_name(mode_of(*self)),
    {
        self.mode.name()
    }

    pub fn prefix(&self) -> (r: &'static str)
        ensures
            r@ == attr_prefix_spec(*self),
    {
        match (self.mode, self.prefix) {
            (GetSetMode::Setter, _) => "set_",
            (GetSetMode::SetOption, _) => "set_",
            (_, Some(prefix)) => prefix,
            _ => "",
        }
    }

    pub fn suffix(&self) -> (r: &'static str)
        ensures
            r@ == attr_suffix_spec(*self),
    {
        match self.mode {
            GetSetMode::GetMut => "_mut",
            _ => "",
        }
    }

    pub fn is_get(&self) -> (r: bool)
        ensures
            r == attr_is_get(*self),
    {
        !matches!(self.mode, GetSetMode::Setter | GetSetMode::SetOption | GetSetMode::Skip)
    }

    pub fn is_option(&self) -> (r: bool)
        ensures
            r == attr_is_option(*self),
    {
        matches!(self.mode, GetSetMode::GetOption | GetSetMode::SetOption)
    }

    pub fn identifier(&self) -> (r: &'static str)
        ensures
            r@ == identifier_spec(*self),
    {
        if let Some(prefix) = self.prefix {
            return prefix;
        }
        match self.mode {
            GetSetMode::Get | GetSetMode::GetCopy | GetSetMode::GetOption => "get",
            GetSetMode::GetMut => "get_mut",
            GetSetMode::Setter | GetSetMode::SetOption => "set",
            GetSetMode::Skip => "skip",
        }
    }
}

/// Whether `meta` asks for the `get_` prefix.
pub fn attr_wants_prefix(meta: &Meta) -> (r: bool)
    ensures
        r == wants_prefix_spec(*meta),
{
    match &meta.value {
        MetaValue::Str(v) => has_word(v.as_str(), "with_prefix"),
        _ => false,
    }
}

/// The text that names an item's visibility: from the first word of its value
/// other than `with_prefix` through the first space outside parentheses.
pub open spec fn request_visibility_word(meta: Meta) -> Option<Seq<char>> {
    match meta.value {
        MetaValue::Str(v) => request_visibility_text_spec(v@),
        _ => None,
    }
}

/// The visibility an item asks for, where `acc` tells which words syn
/// accepts as a visibility.
pub open spec fn request_visibility_spec(meta: Meta, acc: spec_fn(Seq<char>) -> bool) -> Result<
    Option<Seq<char>>,
    GenError,
> {
    match request_visibility_word(meta) {
        None => Ok(None),
        Some(w) => settled(Some(w), acc(w)),
    }
}

fn visibility_word_of(attr: &Meta) -> (r: Option<String>)
    ensures
        opt_view(r) == request_visibility_word(*attr),
{
    match &attr.value {
        MetaValue::Str(v) => match request_visibility_text(v.as_str()) {
            Some(t) => Some(t),
            None => None,
        },
        _ => None,
    }
}

/// The visibility that `attr` asks for, as syn judges its text: none without
/// one, the text itself or an error otherwise, and always the text where it is
/// a plain or a `pub(in a::b)` visibility.
pub fn parse_visibility(attr: &Meta) -> (r: Result<Option<String>, GenError>)
    ensures
        match request_visibility_word(*attr) {
            None => r matches Ok(None),
            Some(w) => (same_opt_text(r, Ok(Some(w))) || r == Err::<Option<String>, GenError>(
                GenError::InvalidVisibility,
            )) && (is_sure_visibility(w) ==> same_opt_text(r, Ok(Some(w)))),
        },
{
    let word = visibility_word_of(attr);
    let accepted = match &word {
        Some(w) => visibility_parses(w.as_str()),
        None => true,
    };
    settle_visibility(word, accepted)
}

fn visibility_in(attr: &Meta, table: &Vec<(String, bool)>) -> (r: Result<Option<String>, GenError>)
    ensures
        same_opt_text(r, request_visibility_spec(*attr, table_acceptance(table@))),
{
    let word = visibility_word_of(attr);
    let accepted = match &word {
        Some(w) => accepts(table, w.as_str()),
        None => true,
    };
    settle_visibility(word, accepted)
}

/// The names of a path's segments.
pub open spec fn segment_idents(segs: Seq<PathSegment>) -> Seq<Seq<char>> {
    segs.map_values(|s: PathSegment| s.ident@)
}

/// Whether a path names `Option`: bare, or through `std` or `core`.
pub open spec fn is_option_path(ids: Seq<Seq<char>>) -> bool {
    ids == seq!["Option"@] || ids == seq!["std"@, "option"@, "Option"@] || ids == seq![
        "core"@,
        "option"@,
        "Option"@,
    ]
}

/// The inner type `T` of a field of type `Option<T>`.
pub open spec fn option_inner_spec(ty: FieldType) -> Result<Seq<char>, GenError> {
    match ty.path {
        Some(p) => if !p.qself && is_option_path(segment_idents(p.segments@)) {
            match p.segments@.last().args {
                PathArgs::AngleBracketed(v) => if v@.len() == 0 {
                    Err(GenError::NotOption)
                } else {
                    match v@[0] {
                        GenericArg::Type(t) => Ok(t@),
                        GenericArg::Other => Err(GenError::OptionInner),
                    }
                },
                _ => Err(GenError::OptionArgs),
            }
        } else {
            Err(GenError::NotOption)
        },
        None => Err(GenError::NotOption),
    }
}

fn names_option(segs: &Vec<PathSegment>) -> (r: bool)
    ensures
        r == is_option_path(segment_idents(segs@)),
{
    let ids = Ghost(segment_idents(segs@));
    let n = segs.len();
    if n == 1 {
        let r = str_eq(segs[0].ident.as_str(), "Option");
        assert(ids@.len() == 1 && ids@[0] == segs@[0].ident@);
        assert(r == (ids@ =~= seq!["Option"@]));
        r
    } else if n == 3 {
        assert(ids@.len() == 3 && ids@[0] == segs@[0].ident@ && ids@[1] == segs@[1].ident@ && ids@[2]
            == segs@[2].ident@);
        let a = str_eq(segs[1].ident.as_str(), "option") && str_eq(segs[2].ident.as_str(), "Option");
        let first_std = str_eq(segs[0].ident.as_str(), "std");
        let first_core = str_eq(segs[0].ident.as_str(), "core");
        assert((a && first_std) == (ids@ =~= seq!["std"@, "option"@, "Option"@]));
        assert((a && first_core) == (ids@ =~= seq!["core"@, "option"@, "Option"@]));
        a && (first_std || first_core)
    } else {
        assert(ids@.len() == n);
        false
    }
}

/// The inner type `T` of a field of type `Option<T>`, as source text.
pub fn extract_type_from_option(ty: &FieldType) -> (r: Result<String, GenError>)
    ensures
        same_text(r, option_inner_spec(*ty)),
{
    match &ty.path {
        Some(p) => if !p.qself && names_option(&p.segments) {
            let n = p.segments.len();
            assert(segment_idents(p.segments@).len() == n);
            match &p.segments[n - 1].args {
                PathArgs::AngleBracketed(v) => if v.len() == 0 {
                    Err(GenError::NotOption)
                } else {
                    match &v[0] {
                        GenericArg::Type(t) => Ok(t.clone()),
                        GenericArg::Other => Err(GenError::OptionInner),
                    }
                },
                _ => Err(GenError::OptionArgs),
            }
        } else {
            Err(GenError::NotOption)
        },
        None => Err(GenError::NotOption),
    }
}

/// The items of one attribute: those of a `getset(...)` list, the attribute
/// itself where it names a mode, and none for any other attribute (doc
/// comments among them).
pub open spec fn attr_metas(attr: Attribute) -> Result<Seq<Meta>, GenError> {
    if attr.meta.path@ == "getset"@ {
        match attr.args {
            AttrArgs::Metas(ms) => Ok(ms@),
            AttrArgs::Invalid(_) => Err(GenError::InvalidGetset),
        }
    } else if mode_of_name(attr.meta.path@) is Some {
        Ok(seq![attr.meta])
    } else {
        Ok(Seq::empty())
    }
}

/// The items of all attributes, in order, or the first error.
pub open spec fn all_metas(attrs: Seq<Attribute>) -> Result<Seq<Meta>, GenError>
    decreases attrs.len(),
{
    if attrs.len() == 0 {
        Ok(Seq::empty())
    } else {
        match all_metas(attrs.drop_last()) {
            Err(e) => Err(e),
            Ok(prev) => match attr_metas(attrs.last()) {
                Err(e) => Err(e),
                Ok(ms) => Ok(prev + ms),
            },
        }
    }
}

/// Whether one of the requests has identifier `id`.
pub open spec fn has_identifier(entries: Seq<(GetSetAttr, Meta)>, id: Seq<char>) -> bool {
    exists|i: int| 0 <= i < entries.len() && identifier_spec(#[trigger] entries[i].0) == id
}

/// The requests that items make, in order; two with one identifier exclude
/// each other.
pub open spec fn requests_spec(metas: Seq<Meta>) -> Result<Seq<(GetSetAttr, Meta)>, GenError>
    decreases metas.len(),
{
    if metas.len() == 0 {
        Ok(Seq::empty())
    } else {
        match requests_spec(metas.drop_last()) {
            Err(e) => Err(e),
            Ok(prev) => match new_attr_spec(metas.last()) {
                Err(e) => Err(e),
                Ok(a) => if has_identifier(prev, identifier_spec(a)) {
                    Err(GenError::MutuallyExclusive)
                } else {
                    Ok(prev.push((a, metas.last())))
                },
            },
        }
    }
}

/// The requests that a field's, or a structure's, attributes make.
pub open spec fn collect_attr_spec(attrs: Seq<Attribute>) -> Result<
    Seq<(GetSetAttr, Meta)>,
    GenError,
> {
    match all_metas(attrs) {
        Err(e) => Err(e),
        Ok(ms) => requests_spec(ms),
    }
}

proof fn lemma_all_metas_error(attrs: Seq<Attribute>, k: int)
    requires
        0 <= k <= attrs.len(),
        all_metas(attrs.subrange(0, k)) is Err,
    ensures
        all_metas(attrs) == all_metas(attrs.subrange(0, k)),
    decreases attrs.len() - k,
{
    if k == attrs.len() {
        assert(attrs.subrange(0, k) =~= attrs);
    } else {
        assert(attrs.subrange(0, k + 1).drop_last() =~= attrs.subrange(0, k));
        lemma_all_metas_error(attrs, k + 1);
    }
}

proof fn lemma_requests_error(metas: Seq<Meta>, k: int)
    requires
        0 <= k <= metas.len(),
        requests_spec(metas.subrange(0, k)) is Err,
    ensures
        requests_spec(metas) == requests_spec(metas.subrange(0, k)),
    decreases metas.len() - k,
{
    if k == metas.len() {
        assert(metas.subrange(0, k) =~= metas);
    } else {
        assert(metas.subrange(0, k + 1).drop_last() =~= metas.subrange(0, k));
        lemma_requests_error(metas, k + 1);
    }
}

fn metas_of(attrs: &Vec<Attribute>) -> (r: Result<Vec<Meta>, GenError>)
    ensures
        match r {
            Ok(v) => all_metas(attrs@) == Ok::<Seq<Meta>, GenError>(v@),
            Err(e) => all_metas(attrs@) == Err::<Seq<Meta>, GenError>(e),
        },
{
    let mut out: Vec<Meta> = Vec::new();
    let mut i: usize = 0;
    assert(attrs@.subrange(0, 0) =~= Seq::<Attribute>::empty());
    while i < attrs.len()
        invariant
            i <= attrs@.len(),
            all_metas(attrs@.subrange(0, i as int)) == Ok::<Seq<Meta>, GenError>(out@),
        decreases attrs.len() - i,
    {
        let ghost next = attrs@.subrange(0, i + 1);
        assert(next.drop_last() =~= attrs@.subrange(0, i as int));
        assert(next.last() == attrs@[i as int]);
        let attr = &attrs[i];
        if str_eq(attr.meta.path.as_str(), "getset") {
            match &attr.args {
                AttrArgs::Invalid(_) => {
                    proof {
                        lemma_all_metas_error(attrs@, i + 1);
                    }
                    return Err(GenError::InvalidGetset);
                },
                AttrArgs::Metas(ms) => {
                    let ghost base = out@;
                    let mut j: usize = 0;
                    assert(ms@.subrange(0, 0) =~= Seq::<Meta>::empty());
                    assert(base + ms@.subrange(0, 0) =~= base);
                    while j < ms.len()
                        invariant
                            j <= ms@.len(),
                            out@ == base + ms@.subrange(0, j as int),
                        decreases ms.len() - j,
                    {
                        out.push(ms[j].copied());
                        assert(ms@.subrange(0, j + 1) =~= ms@.subrange(0, j as int).push(ms@[j as int]));
                        j = j + 1;
                    }
                    assert(ms@.subrange(0, ms@.len() as int) =~= ms@);
                    assert(attr_metas(*attr) == Ok::<Seq<Meta>, GenError>(ms@));
                },
            }
        } else if GetSetMode::from_name(attr.meta.path.as_str()).is_some() {
            let ghost base = out@;
            out.push(attr.meta.copied());
            assert(out@ =~= base + seq![attr.meta]);
        } else {
            assert(out@ =~= out@ + Seq::<Meta>::empty());
        }
        i = i + 1;
    }
    assert(attrs@.subrange(0, attrs@.len() as int) =~= attrs@);
    Ok(out)
}

fn has_id(entries: &Vec<(GetSetAttr, Meta)>, id: &str) -> (r: bool)
    ensures
        r == has_identifier(entries@, id@),
{
    let mut i: usize = 0;
    while i < entries.len()
        invariant
            i <= entries@.len(),
            forall|j: int| 0 <= j < i ==> identifier_spec(#[trigger] entries@[j].0) != id@,
        decreases entries.len() - i,
    {
        if str_eq(entries[i].0.identifier(), id) {
            return true;
        }
        i = i + 1;
    }
    false
}

/// The requests that `attrs` make, in order.
pub fn collect_attr(attrs: &Vec<Attribute>) -> (r: Result<Vec<(GetSetAttr, Meta)>, GenError>)
    ensures
        match r {
            Ok(v) => collect_attr_spec(attrs@) == Ok::<Seq<(GetSetAttr, Meta)>, GenError>(v@),
            Err(e) => collect_attr_spec(attrs@) == Err::<Seq<(GetSetAttr, Meta)>, GenError>(e),
        },
{
    let metas = match metas_of(attrs) {
        Err(e) => {
            return Err(e);
        },
        Ok(m) => m,
    };
    let mut out: Vec<(GetSetAttr, Meta)> = Vec::new();
    let mut i: usize = 0;
    assert(metas@.subrange(0, 0) =~= Seq::<Meta>::empty());
    while i < metas.len()
        invariant
            i <= metas@.len(),
            all_metas(attrs@) == Ok::<Seq<Meta>, GenError>(metas@),
            requests_spec(metas@.subrange(0, i as int)) == Ok::<
                Seq<(GetSetAttr, Meta)>,
                GenError,
            >(out@),
        decreases metas.len() - i,
    {
        let ghost next = metas@.subrange(0, i + 1);
        assert(next.drop_last() =~= metas@.subrange(0, i as int));
        assert(next.last() == metas@[i as int]);
        match GetSetAttr::new(&metas[i]) {
            Err(e) => {
                proof {
                    lemma_requests_error(metas@, i + 1);
                }
                return Err(e);
            },
            Ok(a) => {
                if has_id(&out, a.identifier()) {
                    proof {
                        lemma_requests_error(metas@, i + 1);
                    }
                    return Err(GenError::MutuallyExclusive);
                }
                out.push((a, metas[i].copied()));
            },
        }
        i = i + 1;
    }
    assert(metas@.subrange(0, metas@.len() as int) =~= metas@);
    Ok(out)
}

/// A field's own requests followed by those of the structure's that no own
/// request shares an identifier with.
pub open spec fn merged(local: Seq<(GetSetAttr, Meta)>, global: Seq<(GetSetAttr, Meta)>) -> Seq<
    (GetSetAttr, Meta),
>
    decreases global.len(),
{
    if global.len() == 0 {
        local
    } else {
        let m = merged(local, global.drop_last());
        if has_identifier(m, identifier_spec(global.last().0)) {
            m
        } else {
            m.push(global.last())
        }
    }
}

/// The accessor's name for a request on a field.
pub open spec fn request_fn_name(a: GetSetAttr, ident: Seq<char>) -> Seq<char> {
    if prefix_of(a) is None && attr_is_get(a) && attr_suffix_spec(a).len() == 0 && is_raw(ident) {
        ident
    } else {
        attr_prefix_spec(a) + unraw_spec(ident) + attr_suffix_spec(a)
    }
}

/// The accessor of a mode; `ty` is the field's type, or the inner type of an
/// optional accessor.
pub open spec fn request_text(
    docs: Seq<char>,
    vis: Option<Seq<char>>,
    name: Seq<char>,
    mode: GetSetMode,
    access: Seq<char>,
    ty: Seq<char>,
) -> Seq<char> {
    match mode {
        GetSetMode::Get => fn_text(docs, vis, name, "&self"@, "&"@ + ty, "&"@ + access),
        GetSetMode::GetCopy => fn_text(docs, vis, name, "&self"@, ty, access),
        GetSetMode::GetOption => fn_text(
            docs,
            vis,
            name,
            "&self"@,
            "Option<&"@ + ty + ">"@,
            access + ".as_ref()"@,
        ),
        GetSetMode::GetMut => fn_text(docs, vis, name, "&mut self"@, "&mut "@ + ty, "&mut "@ + access),
        GetSetMode::Setter => fn_text(
            docs,
            vis,
            name,
            "&mut self, val: "@ + ty,
            "&mut Self"@,
            access + " = val; self"@,
        ),
        GetSetMode::SetOption => fn_text(
            docs,
            vis,
            name,
            "&mut self, val: "@ + ty,
            "&mut Self"@,
            access + " = Some(val); self"@,
        ),
        GetSetMode::Skip => Seq::empty(),
    }
}

/// The accessor that one request asks of a named field.
pub open spec fn request_accessor(
    docs: Seq<char>,
    entry: (GetSetAttr, Meta),
    ident: Seq<char>,
    ty: FieldType,
    acc: spec_fn(Seq<char>) -> bool,
) -> Result<Seq<char>, GenError> {
    match request_visibility_spec(entry.1, acc) {
        Err(e) => Err(e),
        Ok(vis) => match (if attr_is_option(entry.0) {
            option_inner_spec(ty)
        } else {
            Ok(ty.text@)
        }) {
            Err(e) => Err(e),
            Ok(t) => Ok(
                request_text(
                    docs,
                    vis,
                    request_fn_name(entry.0, ident),
                    mode_of(entry.0),
                    "self."@ + ident,
                    t,
                ),
            ),
        },
    }
}

/// The accessors that all requests ask of a named field, in order.
pub open spec fn request_accessors(
    docs: Seq<char>,
    entries: Seq<(GetSetAttr, Meta)>,
    ident: Seq<char>,
    ty: FieldType,
    acc: spec_fn(Seq<char>) -> bool,
) -> Result<Seq<char>, GenError>
    decreases entries.len(),
{
    if entries.len() == 0 {
        Ok(Seq::empty())
    } else {
        match request_accessors(docs, entries.drop_last(), ident, ty, acc) {
            Err(e) => Err(e),
            Ok(t) => match request_accessor(docs, entries.last(), ident, ty, acc) {
                Err(e) => Err(e),
                Ok(a) => Ok(t + a),
            },
        }
    }
}

/// The accessors of a field: none where it asks to be skipped.
pub open spec fn request_implement_spec(
    field: Field,
    global: Seq<(GetSetAttr, Meta)>,
    acc: spec_fn(Seq<char>) -> bool,
) -> Result<Seq<char>, GenError> {
    match collect_attr_spec(field.attrs@) {
        Err(e) => Err(e),
        Ok(local) => if has_identifier(local, "skip"@) {
            Ok(Seq::empty())
        } else {
            match field.ident {
                None => Err(GenError::UnnamedField),
                Some(ident) => request_accessors(
                    docs_text(field.attrs@),
                    merged(local, global),
                    ident@,
                    field.ty,
                    acc,
                ),
            }
        },
    }
}

/// The accessors of each field, one after the other, or the first error.
pub open spec fn request_fields_text(
    fields: Seq<Field>,
    global: Seq<(GetSetAttr, Meta)>,
    acc: spec_fn(Seq<char>) -> bool,
) -> Result<Seq<char>, GenError>
    decreases fields.len(),
{
    if fields.len() == 0 {
        Ok(Seq::empty())
    } else {
        match request_fields_text(fields.drop_last(), global, acc) {
            Err(e) => Err(e),
            Ok(t) => match request_implement_spec(fields.last(), global, acc) {
                Err(e) => Err(e),
                Ok(a) => Ok(t + a),
            },
        }
    }
}

/// The fields of a structure, in order.
pub open spec fn struct_fields(fields: crate::model::Fields) -> Seq<Field> {
    match fields {
        crate::model::Fields::Named(v) => v@,
        crate::model::Fields::Unnamed(v) => v@,
        crate::model::Fields::Unit => Seq::empty(),
    }
}

/// The impl block of accessors that the requests ask of a structure.
pub open spec fn request_produce_spec(
    input: DeriveInput,
    global: Seq<(GetSetAttr, Meta)>,
    acc: spec_fn(Seq<char>) -> bool,
) -> Result<Seq<char>, GenError> {
    match input.data {
        Data::Struct(fields) => match request_fields_text(struct_fields(fields), global, acc) {
            Err(e) => Err(e),
            Ok(t) => Ok(impl_block(input, t)),
        },
        _ => Err(GenError::NotStruct),
    }
}

fn merge(local: &mut Vec<(GetSetAttr, Meta)>, global: &Vec<(GetSetAttr, Meta)>)
    ensures
        final(local)@ == merged(old(local)@, global@),
{
    let ghost start = local@;
    let mut i: usize = 0;
    assert(global@.subrange(0, 0) =~= Seq::<(GetSetAttr, Meta)>::empty());
    while i < global.len()
        invariant
            i <= global@.len(),
            local@ == merged(start, global@.subrange(0, i as int)),
        decreases global.len() - i,
    {
        let ghost next = global@.subrange(0, i + 1);
        assert(next.drop_last() =~= global@.subrange(0, i as int));
        assert(next.last() == global@[i as int]);
        if !has_id(local, global[i].0.identifier()) {
            local.push((global[i].0, global[i].1.copied()));
        }
        i = i + 1;
    }
    assert(global@.subrange(0, global@.len() as int) =~= global@);
}

fn request_text_of(
    docs: &str,
    vis: &Option<String>,
    name: &str,
    mode: GetSetMode,
    access: &str,
    ty: &str,
) -> (r: String)
    ensures
        r@ == request_text(docs@, opt_view(*vis), name@, mode, access@, ty@),
{
    match mode {
        GetSetMode::Get => fn_text_of(docs, vis, name, "&self", joined("&", ty).as_str(), joined("&", access).as_str()),
        GetSetMode::GetCopy => fn_text_of(docs, vis, name, "&self", ty, access),
        GetSetMode::GetOption => {
            let mut ret = String::from_str("Option<&");
            ret.append(ty);
            ret.append(">");
            fn_text_of(docs, vis, name, "&self", ret.as_str(), joined(access, ".as_ref()").as_str())
        },
        GetSetMode::GetMut => fn_text_of(
            docs,
            vis,
            name,
            "&mut self",
            joined("&mut ", ty).as_str(),
            joined("&mut ", access).as_str(),
        ),
        GetSetMode::Setter => fn_text_of(
            docs,
            vis,
            name,
            joined("&mut self, val: ", ty).as_str(),
            "&mut Self",
            joined(access, " = val; self").as_str(),
        ),
        GetSetMode::SetOption => fn_text_of(
            docs,
            vis,
            name,
            joined("&mut self, val: ", ty).as_str(),
            "&mut Self",
            joined(access, " = Some(val); self").as_str(),
        ),
        GetSetMode::Skip => String::new(),
    }
}

fn request_name_of(a: &GetSetAttr, ident: &str) -> (r: String)
    ensures
        r@ == request_fn_name(*a, ident@),
{
    if a.prefix.is_none() && a.is_get() && a.suffix().is_empty() && is_raw_name(ident) {
        String::from_str(ident)
    } else {
        let mut r = String::from_str(a.prefix());
        r.append(unraw(ident).as_str());
        r.append(a.suffix());
        r
    }
}

fn accessor_of(
    docs: &str,
    entry: &(GetSetAttr, Meta),
    ident: &str,
    ty: &FieldType,
    table: &Vec<(String, bool)>,
) -> (r: Result<String, GenError>)
    ensures
        same_text(r, request_accessor(docs@, *entry, ident@, *ty, table_acceptance(table@))),
{
    let vis = match visibility_in(&entry.1, table) {
        Err(e) => {
            return Err(e);
        },
        Ok(v) => v,
    };
    let name = request_name_of(&entry.0, ident);
    let t = if entry.0.is_option() {
        match extract_type_from_option(ty) {
            Err(e) => {
                return Err(e);
            },
            Ok(t) => t,
        }
    } else {
        ty.text.clone()
    };
    let access = joined("self.", ident);
    Ok(request_text_of(docs, &vis, name.as_str(), entry.0.mode, access.as_str(), t.as_str()))
}

proof fn lemma_accessors_error(
    docs: Seq<char>,
    entries: Seq<(GetSetAttr, Meta)>,
    ident: Seq<char>,
    ty: FieldType,
    acc: spec_fn(Seq<char>) -> bool,
    k: int,
)
    requires
        0 <= k <= entries.len(),
        request_accessors(docs, entries.subrange(0, k), ident, ty, acc) is Err,
    ensures
        request_accessors(docs, entries, ident, ty, acc) == request_accessors(
            docs,
            entries.subrange(0, k),
            ident,
            ty,
            acc,
        ),
    decreases entries.len() - k,
{
    if k == entries.len() {
        assert(entries.subrange(0, k) =~= entries);
    } else {
        assert(entries.subrange(0, k + 1).drop_last() =~= entries.subrange(0, k));
        lemma_accessors_error(docs, entries, ident, ty, acc, k + 1);
    }
}

fn note_requests(table: &mut Vec<(String, bool)>, requests: &Vec<(GetSetAttr, Meta)>)
    requires
        table_sound(old(table)@),
    ensures
        table_sound(final(table)@),
{
    let mut i: usize = 0;
    while i < requests.len()
        invariant
            table_sound(table@),
        decreases requests.len() - i,
    {
        note_meta(table, &requests[i].1);
        i = i + 1;
    }
}

/// The accessors that the field's own requests, and then the structure's,
/// ask of a field; none where the field asks to be skipped. syn's judgement of
/// each visibility word is asked for; whatever it says, plain visibilities are
/// accepted.
pub fn implement(field: &Field, global_params: &Vec<(GetSetAttr, Meta)>) -> (r: Result<String, GenError>)
    ensures
        exists|acc: spec_fn(Seq<char>) -> bool|
            sound_acceptance(acc) && #[trigger] same_text(
                r,
                request_implement_spec(*field, global_params@, acc),
            ),
{
    let mut table: Vec<(String, bool)> = Vec::new();
    note_attrs(&mut table, &field.attrs);
    note_requests(&mut table, global_params);
    let r = implement_with(field, global_params, &table);
    proof {
        lemma_table_acceptance_sound(table@);
    }
    assert(same_text(r, request_implement_spec(*field, global_params@, table_acceptance(table@))));
    r
}

/// The accessors that the requests ask of a field, with syn's verdicts on
/// visibility words from `table`; none where the field asks to be skipped.
pub fn implement_with(
    field: &Field,
    global_params: &Vec<(GetSetAttr, Meta)>,
    table: &Vec<(String, bool)>,
) -> (r: Result<String, GenError>)
    ensures
        same_text(r, request_implement_spec(*field, global_params@, table_acceptance(table@))),
{
    let mut params = match collect_attr(&field.attrs) {
        Err(e) => {
            return Err(e);
        },
        Ok(p) => p,
    };
    let ghost local = params@;
    if has_id(&params, GetSetAttr::skip().identifier()) {
        return Ok(String::new());
    }
    merge(&mut params, global_params);
    let ident = match &field.ident {
        None => {
            return Err(GenError::UnnamedField);
        },
        Some(i) => i,
    };
    let docs = docs_of(&field.attrs);
    let ghost entries = params@;
    let mut out = String::new();
    let mut i: usize = 0;
    assert(entries.subrange(0, 0) =~= Seq::<(GetSetAttr, Meta)>::empty());
    while i < params.len()
        invariant
            entries == params@,
            collect_attr_spec(field.attrs@) == Ok::<Seq<(GetSetAttr, Meta)>, GenError>(local),
            !has_identifier(local, "skip"@),
            entries == merged(local, global_params@),
            field.ident == Some(*ident),
            docs@ == docs_text(field.attrs@),
            i <= entries.len(),
            request_accessors(
                docs@,
                entries.subrange(0, i as int),
                ident@,
                field.ty,
                table_acceptance(table@),
            ) == Ok::<
                Seq<char>,
                GenError,
            >(out@),
        decreases params.len() - i,
    {
        let ghost next = entries.subrange(0, i + 1);
        assert(next.drop_last() =~= entries.subrange(0, i as int));
        assert(next.last() == entries[i as int]);
        match accessor_of(docs.as_str(), &params[i], ident.as_str(), &field.ty, table) {
            Err(e) => {
                proof {
                    lemma_accessors_error(docs@, entries, ident@, field.ty, table_acceptance(table@), i + 1);
                }
                return Err(e);
            },
            Ok(a) => {
                out.append(a.as_str());
            },
        }
        i = i + 1;
    }
    assert(entries.subrange(0, entries.len() as int) =~= entries);
    Ok(out)
}

proof fn lemma_request_fields_error(
    fields: Seq<Field>,
    global: Seq<(GetSetAttr, Meta)>,
    acc: spec_fn(Seq<char>) -> bool,
    k: int,
)
    requires
        0 <= k <= fields.len(),
        request_fields_text(fields.subrange(0, k), global, acc) is Err,
    ensures
        request_fields_text(fields, global, acc) == request_fields_text(fields.subrange(0, k), global, acc),
    decreases fields.len() - k,
{
    if k == fields.len() {
        assert(fields.subrange(0, k) =~= fields);
    } else {
        assert(fields.subrange(0, k + 1).drop_last() =~= fields.subrange(0, k));
        lemma_request_fields_error(fields, global, acc, k + 1);
    }
}

fn fields_text_of(
    fields: &Vec<Field>,
    global: &Vec<(GetSetAttr, Meta)>,
    table: &Vec<(String, bool)>,
) -> (r: Result<String, GenError>)
    ensures
        same_text(r, request_fields_text(fields@, global@, table_acceptance(table@))),
{
    let mut out = String::new();
    let mut i: usize = 0;
    assert(fields@.subrange(0, 0) =~= Seq::<Field>::empty());
    while i < fields.len()
        invariant
            i <= fields@.len(),
            request_fields_text(fields@.subrange(0, i as int), global@, table_acceptance(table@))
                == Ok::<Seq<char>, GenError>(out@),
        decreases fields.len() - i,
    {
        let ghost next = fields@.subrange(0, i + 1);
        assert(next.drop_last() =~= fields@.subrange(0, i as int));
        assert(next.last() == fields@[i as int]);
        match implement_with(&fields[i], global, table) {
            Err(e) => {
                proof {
                    lemma_request_fields_error(fields@, global@, table_acceptance(table@), i + 1);
                }
                return Err(e);
            },
            Ok(a) => {
                out.append(a.as_str());
            },
        }
        i = i + 1;
    }
    assert(fields@.subrange(0, fields@.len() as int) =~= fields@);
    Ok(out)
}

fn note_fields(table: &mut Vec<(String, bool)>, fields: &Vec<Field>)
    requires
        table_sound(old(table)@),
    ensures
        table_sound(final(table)@),
{
    let mut i: usize = 0;
    while i < fields.len()
        invariant
            table_sound(table@),
        decreases fields.len() - i,
    {
        note_attrs(table, &fields[i].attrs);
        i = i + 1;
    }
}

/// The impl block of accessors that each field of `ast` asks for, with the
/// structure's requests as defaults. syn's judgement of each visibility word
/// is asked for; whatever it says, plain visibilities are accepted.
pub fn produce(ast: &DeriveInput, global_params: &Vec<(GetSetAttr, Meta)>) -> (r: Result<String, GenError>)
    ensures
        exists|acc: spec_fn(Seq<char>) -> bool|
            sound_acceptance(acc) && #[trigger] same_text(
                r,
                request_produce_spec(*ast, global_params@, acc),
            ),
{
    let mut table: Vec<(String, bool)> = Vec::new();
    note_requests(&mut table, global_params);
    if let Data::Struct(fields) = &ast.data {
        match fields {
            crate::model::Fields::Named(v) => note_fields(&mut table, v),
            crate::model::Fields::Unnamed(v) => note_fields(&mut table, v),
            crate::model::Fields::Unit => {},
        }
    }
    let r = produce_with(ast, global_params, &table);
    proof {
        lemma_table_acceptance_sound(table@);
    }
    assert(same_text(r, request_produce_spec(*ast, global_params@, table_acceptance(table@))));
    r
}

/// The impl block of accessors that each field of `ast` asks for, with the
/// structure's requests as defaults and syn's verdicts on visibility words
/// from `table`.
pub fn produce_with(
    ast: &DeriveInput,
    global_params: &Vec<(GetSetAttr, Meta)>,
    table: &Vec<(String, bool)>,
) -> (r: Result<String, GenError>)
    ensures
        same_text(r, request_produce_spec(*ast, global_params@, table_acceptance(table@))),
{
    match &ast.data {
        Data::Struct(fields) => {
            let body = match fields {
                crate::model::Fields::Named(v) => fields_text_of(v, global_params, table),
                crate::model::Fields::Unnamed(v) => fields_text_of(v, global_params, table),
                crate::model::Fields::Unit => fields_text_of(&Vec::new(), global_params, table),
            };
            match body {
                Err(e) => Err(e),
                Ok(t) => Ok(impl_block_of(ast, t.as_str())),
            }
        },
        _ => Err(GenError::NotStruct),
    }
}

} // verus!
