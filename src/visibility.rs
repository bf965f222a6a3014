//! Visibility words and syn's verdict on them. Whether syn accepts a word
//! beyond the plain visibilities depends on the lexer proc-macro2 runs on
//! (the compiler's inside a derive, its own elsewhere), so generation takes
//! the verdicts as values: a table of words, each with whether it parsed.

use vstd::prelude::*;
use vstd::string::*;

use crate::model::{AttrArgs, Attribute, GenError, Meta, MetaValue};
use crate::text::str_eq;

verus! {

/// The visibilities that every lexer reads alike and syn accepts.
pub open spec fn is_plain_visibility(s: Seq<char>) -> bool {
    s == "pub"@ || s == "pub(crate)"@ || s == "pub(self)"@ || s == "pub(super)"@
}

/// The visibilities that syn accepts whatever lexer proc-macro2 uses: the
/// plain ones and `pub(in a::b)`.
pub open spec fn is_sure_visibility(s: Seq<char>) -> bool {
    is_plain_visibility(s) || is_in_path_visibility(s)
}

/// An acceptance of visibility words that takes at least the sure ones.
pub open spec fn sound_acceptance(acc: spec_fn(Seq<char>) -> bool) -> bool {
    forall|s: Seq<char>| #[trigger] is_sure_visibility(s) ==> acc(s)
}

/// Relies on `syn::parse_str::<syn::Visibility>`, which accepts `pub`,
/// `pub(crate)`, `pub(self)`, `pub(super)` and `pub(in a::b)` (segments
/// `super`, `self`, `Self`, `crate` or identifiers that are no keyword)
/// whatever lexer proc-macro2 uses. For other texts the answer depends on
/// that lexer, so nothing more is stated.
#[verifier::external_body]
pub(crate) fn visibility_parses(s: &str) -> (r: bool)
    ensures
        is_plain_visibility(s@) ==> r,
        is_in_path_visibility(s@) ==> r,
{
    syn::parse_str::<syn::Visibility>(s).is_ok()
}

/// Whether `s` is a plain visibility.
pub fn plain_visibility(s: &str) -> (r: bool)
    ensures
        r == is_plain_visibility(s@),
{
    str_eq(s, "pub") || str_eq(s, "pub(crate)") || str_eq(s, "pub(self)") || str_eq(s, "pub(super)")
}

/// The visibility that a word asks for, once syn's verdict on it is known:
/// none without a word, the word where syn accepted it, an error otherwise.
pub open spec fn settled(word: Option<Seq<char>>, accepted: bool) -> Result<
    Option<Seq<char>>,
    GenError,
> {
    match word {
        None => Ok(None),
        Some(w) => if accepted {
            Ok(Some(w))
        } else {
            Err(GenError::InvalidVisibility)
        },
    }
}

/// The visibility that `word` asks for, given whether syn accepted it.
pub fn settle_visibility(word: Option<String>, accepted: bool) -> (r: Result<Option<String>, GenError>)
    ensures
        match (r, settled(
            match word {
                Some(w) => Some(w@),
                None => None,
            },
            accepted,
        )) {
            (Ok(Some(a)), Ok(Some(b))) => a@ == b,
            (Ok(None), Ok(None)) => true,
            (Err(a), Err(b)) => a == b,
            _ => false,
        },
{
    match word {
        None => Ok(None),
        Some(w) => if accepted {
            Ok(Some(w))
        } else {
            Err(GenError::InvalidVisibility)
        },
    }
}

/// The verdict that a table holds for `s`: its first entry for `s`.
pub open spec fn table_lookup(t: Seq<(String, bool)>, s: Seq<char>) -> Option<bool>
    decreases t.len(),
{
    if t.len() == 0 {
        None
    } else if t[0].0@ == s {
        Some(t[0].1)
    } else {
        table_lookup(t.drop_first(), s)
    }
}

/// The acceptance a table gives: its verdict where it has one, and the sure
/// visibilities elsewhere.
pub open spec fn table_acceptance(t: Seq<(String, bool)>) -> spec_fn(Seq<char>) -> bool {
    |s: Seq<char>|
        match table_lookup(t, s) {
            Some(b) => b,
            None => is_sure_visibility(s),
        }
}

/// A table that accepts every sure visibility it holds.
pub open spec fn table_sound(t: Seq<(String, bool)>) -> bool {
    forall|i: int| 0 <= i < t.len() && is_sure_visibility(#[trigger] t[i].0@) ==> t[i].1
}

proof fn lemma_lookup_sound(t: Seq<(String, bool)>, s: Seq<char>)
    requires
        table_sound(t),
        is_sure_visibility(s),
    ensures
        table_lookup(t, s) matches Some(b) ==> b,
    decreases t.len(),
{
    if t.len() > 0 && t[0].0@ != s {
        let rest = t.drop_first();
        assert forall|i: int| 0 <= i < rest.len() && is_sure_visibility(#[trigger] rest[i].0@) implies rest[i].1 by {
            assert(rest[i] == t[i + 1]);
        }
        lemma_lookup_sound(rest, s);
    }
}

/// A sound table gives a sound acceptance.
pub proof fn lemma_table_acceptance_sound(t: Seq<(String, bool)>)
    requires
        table_sound(t),
    ensures
        sound_acceptance(table_acceptance(t)),
{
    assert forall|s: Seq<char>| #[trigger] is_sure_visibility(s) implies table_acceptance(t)(s) by {
        lemma_lookup_sound(t, s);
    }
}

/// The verdict of `table` on `w`.
pub fn accepts(table: &Vec<(String, bool)>, w: &str) -> (r: bool)
    ensures
        r == table_acceptance(table@)(w@),
{
    let ghost t = table@;
    let mut i: usize = 0;
    assert(t.subrange(0, t.len() as int) =~= t);
    while i < table.len()
        invariant
            t == table@,
            i <= t.len(),
            table_lookup(t, w@) == table_lookup(t.subrange(i as int, t.len() as int), w@),
        decreases table.len() - i,
    {
        let ghost rest = t.subrange(i as int, t.len() as int);
        assert(rest.drop_first() =~= t.subrange(i + 1, t.len() as int));
        assert(rest[0] == t[i as int]);
        if str_eq(table[i].0.as_str(), w) {
            return table[i].1;
        }
        i = i + 1;
    }
    assert(t.subrange(i as int, t.len() as int) =~= Seq::<(String, bool)>::empty());
    plain_visibility(w) || in_path_visibility(w)
}

fn note_word(table: &mut Vec<(String, bool)>, w: String)
    requires
        table_sound(old(table)@),
    ensures
        table_sound(final(table)@),
{
    let ok = visibility_parses(w.as_str());
    let ghost before = table@;
    table.push((w, ok));
    assert forall|i: int| 0 <= i < table@.len() && is_sure_visibility(#[trigger] table@[i].0@) implies table@[i].1 by {
        if i < before.len() {
            assert(table@[i] == before[i]);
        }
    }
}

/// Asks syn about each visibility word an item's value may carry.
pub(crate) fn note_meta(table: &mut Vec<(String, bool)>, meta: &Meta)
    requires
        table_sound(old(table)@),
    ensures
        table_sound(final(table)@),
{
    if let MetaValue::Str(v) = &meta.value {
        if let Some(w) = visibility_text(v.as_str()) {
            note_word(table, w);
        }
        if let Some(w) = request_visibility_text(v.as_str()) {
            note_word(table, w);
        }
    }
}

/// Asks syn about each visibility word in `attrs` and in their lists.
pub(crate) fn note_attrs(table: &mut Vec<(String, bool)>, attrs: &Vec<Attribute>)
    requires
        table_sound(old(table)@),
    ensures
        table_sound(final(table)@),
{
    let mut i: usize = 0;
    while i < attrs.len()
        invariant
            table_sound(table@),
        decreases attrs.len() - i,
    {
        note_meta(table, &attrs[i].meta);
        if let AttrArgs::Metas(ms) = &attrs[i].args {
            let mut j: usize = 0;
            while j < ms.len()
                invariant
                    table_sound(table@),
                decreases ms.len() - j,
            {
                note_meta(table, &ms[j]);
                j = j + 1;
            }
        }
        i = i + 1;
    }
}

/// Asks syn about the visibility words of an optional item.
pub(crate) fn note_opt_meta(table: &mut Vec<(String, bool)>, meta: &Option<Meta>)
    requires
        table_sound(old(table)@),
    ensures
        table_sound(final(table)@),
{
    if let Some(m) = meta {
        note_meta(table, m);
    }
}

/// Whether position `i` of `v` begins a space-separated word.
pub open spec fn word_start(v: Seq<char>, i: int) -> bool {
    i == 0 || (0 < i <= v.len() && v[i - 1] == ' ')
}

/// Whether `pub` stands at position `i` of `v`.
pub open spec fn pub_at(v: Seq<char>, i: int) -> bool {
    0 <= i && i + 3 <= v.len() && v[i] == 'p' && v[i + 1] == 'u' && v[i + 2] == 'b'
}

/// The first position from `i` on where a word begins with `pub`.
pub open spec fn first_pub_start(v: Seq<char>, i: int) -> Option<int>
    decreases v.len() + 1 - i,
{
    if i < 0 || i > v.len() {
        None
    } else if word_start(v, i) && pub_at(v, i) {
        Some(i)
    } else {
        first_pub_start(v, i + 1)
    }
}

/// Where the text from position `j` on ends: at the first space outside
/// parentheses, or at the end; `depth` counts the parentheses open before `j`.
pub open spec fn vis_end(v: Seq<char>, j: int, depth: int) -> int
    decreases v.len() - j,
{
    if j < 0 || j >= v.len() {
        v.len() as int
    } else if v[j] == ' ' && depth <= 0 {
        j
    } else {
        vis_end(
            v,
            j + 1,
            depth + if v[j] == '(' {
                1int
            } else if v[j] == ')' {
                -1int
            } else {
                0int
            },
        )
    }
}

/// The end of the word at position `j`: the next space, or the end.
pub open spec fn word_end(v: Seq<char>, j: int) -> int
    decreases v.len() - j,
{
    if j < 0 || j >= v.len() {
        v.len() as int
    } else if v[j] == ' ' {
        j
    } else {
        word_end(v, j + 1)
    }
}

/// The first position from `i` on where a word other than `with_prefix`
/// begins.
pub open spec fn first_other_start(v: Seq<char>, i: int) -> Option<int>
    decreases v.len() + 1 - i,
{
    if i < 0 || i > v.len() {
        None
    } else if word_start(v, i) && v.subrange(i, word_end(v, i)) != "with_prefix"@ {
        Some(i)
    } else {
        first_other_start(v, i + 1)
    }
}

/// The visibility text of an attribute value: from the first word that
/// begins with `pub` through the first space outside parentheses, so that
/// `pub(in a::b)` stays whole.
pub open spec fn visibility_text_spec(v: Seq<char>) -> Option<Seq<char>> {
    match first_pub_start(v, 0) {
        Some(i) => Some(v.subrange(i, vis_end(v, i, 0))),
        None => None,
    }
}

/// The visibility text of a request's value: from the first word other than
/// `with_prefix` through the first space outside parentheses.
pub open spec fn request_visibility_text_spec(v: Seq<char>) -> Option<Seq<char>> {
    match first_other_start(v, 0) {
        Some(i) => Some(v.subrange(i, vis_end(v, i, 0))),
        None => None,
    }
}

proof fn lemma_vis_end_bounds(v: Seq<char>, j: int, depth: int)
    requires
        0 <= j <= v.len(),
    ensures
        j <= vis_end(v, j, depth) <= v.len(),
    decreases v.len() - j,
{
    if j < v.len() && !(v[j] == ' ' && depth <= 0) {
        let d = depth + if v[j] == '(' {
            1int
        } else if v[j] == ')' {
            -1int
        } else {
            0int
        };
        lemma_vis_end_bounds(v, j + 1, d);
    }
}

proof fn lemma_word_end_bounds(v: Seq<char>, j: int)
    requires
        0 <= j <= v.len(),
    ensures
        j <= word_end(v, j) <= v.len(),
    decreases v.len() - j,
{
    if j < v.len() && v[j] != ' ' {
        lemma_word_end_bounds(v, j + 1);
    }
}

fn vis_end_of(v: &str, start: usize) -> (r: usize)
    requires
        start <= v@.len(),
    ensures
        r == vis_end(v@, start as int, 0),
        start <= r <= v@.len(),
{
    let n = v.unicode_len();
    let mut opens: usize = 0;
    let mut closes: usize = 0;
    let mut j: usize = start;
    proof {
        lemma_vis_end_bounds(v@, start as int, 0);
    }
    while j < n
        invariant
            n == v@.len(),
            start <= j <= n,
            opens + closes <= j - start,
            vis_end(v@, start as int, 0) == vis_end(v@, j as int, opens - closes),
        decreases n - j,
    {
        let c = v.get_char(j);
        if c == ' ' && opens <= closes {
            return j;
        }
        if c == '(' {
            opens = opens + 1;
        } else if c == ')' {
            closes = closes + 1;
        }
        j = j + 1;
    }
    n
}

fn word_end_of(v: &str, start: usize) -> (r: usize)
    requires
        start <= v@.len(),
    ensures
        r == word_end(v@, start as int),
        start <= r <= v@.len(),
{
    let n = v.unicode_len();
    let mut j: usize = start;
    proof {
        lemma_word_end_bounds(v@, start as int);
    }
    while j < n
        invariant
            n == v@.len(),
            start <= j <= n,
            word_end(v@, start as int) == word_end(v@, j as int),
        decreases n - j,
    {
        if v.get_char(j) == ' ' {
            return j;
        }
        j = j + 1;
    }
    n
}

/// The visibility text of an attribute value.
pub fn visibility_text(v: &str) -> (r: Option<String>)
    ensures
        match r {
            Some(t) => visibility_text_spec(v@) == Some(t@),
            None => visibility_text_spec(v@) is None,
        },
{
    let n = v.unicode_len();
    let mut i: usize = 0;
    while i < n
        invariant
            n == v@.len(),
            i <= n,
            first_pub_start(v@, 0) == first_pub_start(v@, i as int),
        decreases n - i,
    {
        let at_start = i == 0 || v.get_char(i - 1) == ' ';
        let at_pub = n >= 3 && i <= n - 3 && v.get_char(i) == 'p' && v.get_char(i + 1) == 'u' && v.get_char(i + 2) == 'b';
        if at_start && at_pub {
            let e = vis_end_of(v, i);
            return Some(String::from_str(v.substring_char(i, e)));
        }
        i = i + 1;
    }
    assert(!pub_at(v@, n as int));
    assert(first_pub_start(v@, n as int + 1) is None);
    None
}

/// The visibility text of a request's value.
pub fn request_visibility_text(v: &str) -> (r: Option<String>)
    ensures
        match r {
            Some(t) => request_visibility_text_spec(v@) == Some(t@),
            None => request_visibility_text_spec(v@) is None,
        },
{
    let n = v.unicode_len();
    let mut i: usize = 0;
    while i < n
        invariant
            n == v@.len(),
            i <= n,
            first_other_start(v@, 0) == first_other_start(v@, i as int),
        decreases n - i,
    {
        let at_start = i == 0 || v.get_char(i - 1) == ' ';
        if at_start {
            let we = word_end_of(v, i);
            if !str_eq(v.substring_char(i, we), "with_prefix") {
                let e = vis_end_of(v, i);
                return Some(String::from_str(v.substring_char(i, e)));
            }
        }
        i = i + 1;
    }
    assert(first_other_start(v@, n as int + 1) is None);
    if n == 0 || v.get_char(n - 1) == ' ' {
        assert(v@.subrange(n as int, word_end(v@, n as int)) =~= Seq::<char>::empty());
        proof {
            reveal_strlit("with_prefix");
        }
        assert("with_prefix"@.len() == 11);
        let e = vis_end_of(v, n);
        return Some(String::from_str(v.substring_char(n, e)));
    }
    None
}

/// Whether `c` may stand in an identifier.
pub open spec fn is_ident_char(c: char) -> bool {
    ('a' <= c && c <= 'z') || ('A' <= c && c <= 'Z') || ('0' <= c && c <= '9') || c == '_'
}

/// Whether `c` may begin an identifier.
pub open spec fn is_ident_start(c: char) -> bool {
    ('a' <= c && c <= 'z') || ('A' <= c && c <= 'Z') || c == '_'
}

/// The words that syn refuses as identifiers.
pub open spec fn is_syn_keyword(w: Seq<char>) -> bool {
    w == "_"@
        || w == "abstract"@
        || w == "as"@
        || w == "async"@
        || w == "await"@
        || w == "become"@
        || w == "box"@
        || w == "break"@
        || w == "const"@
        || w == "continue"@
        || w == "crate"@
        || w == "do"@
        || w == "dyn"@
        || w == "else"@
        || w == "enum"@
        || w == "extern"@
        || w == "false"@
        || w == "final"@
        || w == "fn"@
        || w == "for"@
        || w == "if"@
        || w == "impl"@
        || w == "in"@
        || w == "let"@
        || w == "loop"@
        || w == "macro"@
        || w == "match"@
        || w == "mod"@
        || w == "move"@
        || w == "mut"@
        || w == "override"@
        || w == "priv"@
        || w == "pub"@
        || w == "ref"@
        || w == "return"@
        || w == "Self"@
        || w == "self"@
        || w == "static"@
        || w == "struct"@
        || w == "super"@
        || w == "trait"@
        || w == "true"@
        || w == "try"@
        || w == "type"@
        || w == "typeof"@
        || w == "unsafe"@
        || w == "unsized"@
        || w == "use"@
        || w == "virtual"@
        || w == "where"@
        || w == "while"@
        || w == "yield"@
}

/// A segment of a module path as syn reads one after `pub(in`: `super`,
/// `self`, `Self`, `crate`, or an identifier that is no keyword.
pub open spec fn is_mod_segment(w: Seq<char>) -> bool {
    w == "super"@ || w == "self"@ || w == "Self"@ || w == "crate"@ || (w.len() > 0
        && is_ident_start(w[0]) && (forall|i: int| 0 <= i < w.len() ==> is_ident_char(#[trigger] w[i]))
        && !is_syn_keyword(w))
}

/// Whether `p` from position `i` on, inside a segment that began at
/// `start`, is segments separated by `::`.
pub open spec fn mod_path_from(p: Seq<char>, start: int, i: int) -> bool
    decreases p.len() - i,
{
    if i < start || start < 0 || i > p.len() {
        false
    } else if i == p.len() {
        start < i && is_mod_segment(p.subrange(start, i))
    } else if is_ident_char(p[i]) {
        mod_path_from(p, start, i + 1)
    } else if p[i] == ':' && i + 1 < p.len() && p[i + 1] == ':' {
        start < i && is_mod_segment(p.subrange(start, i)) && mod_path_from(p, i + 2, i + 2)
    } else {
        false
    }
}

/// A restricted visibility `pub(in a::b)`, written with one space.
pub open spec fn is_in_path_visibility(s: Seq<char>) -> bool {
    s.len() > 8 && s.subrange(0, 7) == "pub(in "@ && s.last() == ')' && mod_path_from(
        s.subrange(7, s.len() - 1),
        0,
        0,
    )
}

fn syn_keyword(w: &str) -> (r: bool)
    ensures
        r == is_syn_keyword(w@),
{
    str_eq(w, "_")
        || str_eq(w, "abstract")
        || str_eq(w, "as")
        || str_eq(w, "async")
        || str_eq(w, "await")
        || str_eq(w, "become")
        || str_eq(w, "box")
        || str_eq(w, "break")
        || str_eq(w, "const")
        || str_eq(w, "continue")
        || str_eq(w, "crate")
        || str_eq(w, "do")
        || str_eq(w, "dyn")
        || str_eq(w, "else")
        || str_eq(w, "enum")
        || str_eq(w, "extern")
        || str_eq(w, "false")
        || str_eq(w, "final")
        || str_eq(w, "fn")
        || str_eq(w, "for")
        || str_eq(w, "if")
        || str_eq(w, "impl")
        || str_eq(w, "in")
        || str_eq(w, "let")
        || str_eq(w, "loop")
        || str_eq(w, "macro")
        || str_eq(w, "match")
        || str_eq(w, "mod")
        || str_eq(w, "move")
        || str_eq(w, "mut")
        || str_eq(w, "override")
        || str_eq(w, "priv")
        || str_eq(w, "pub")
        || str_eq(w, "ref")
        || str_eq(w, "return")
        || str_eq(w, "Self")
        || str_eq(w, "self")
        || str_eq(w, "static")
        || str_eq(w, "struct")
        || str_eq(w, "super")
        || str_eq(w, "trait")
        || str_eq(w, "true")
        || str_eq(w, "try")
        || str_eq(w, "type")
        || str_eq(w, "typeof")
        || str_eq(w, "unsafe")
        || str_eq(w, "unsized")
        || str_eq(w, "use")
        || str_eq(w, "virtual")
        || str_eq(w, "where")
        || str_eq(w, "while")
        || str_eq(w, "yield")
}

fn mod_segment(w: &str) -> (r: bool)
    ensures
        r == is_mod_segment(w@),
{
    if str_eq(w, "super") || str_eq(w, "self") || str_eq(w, "Self") || str_eq(w, "crate") {
        return true;
    }
    let n = w.unicode_len();
    if n == 0 {
        return false;
    }
    let c0 = w.get_char(0);
    if !(('a' <= c0 && c0 <= 'z') || ('A' <= c0 && c0 <= 'Z') || c0 == '_') {
        return false;
    }
    let mut i: usize = 0;
    while i < n
        invariant
            n == w@.len(),
            i <= n,
            !(w@ == "super"@ || w@ == "self"@ || w@ == "Self"@ || w@ == "crate"@),
            n > 0 && is_ident_start(w@[0]),
            forall|k: int| 0 <= k < i ==> is_ident_char(#[trigger] w@[k]),
        decreases n - i,
    {
        let c = w.get_char(i);
        if !(('a' <= c && c <= 'z') || ('A' <= c && c <= 'Z') || ('0' <= c && c <= '9') || c == '_') {
            assert(!is_ident_char(w@[i as int]));
            return false;
        }
        i = i + 1;
    }
    !syn_keyword(w)
}

/// Whether `s` is a restricted visibility `pub(in a::b)` written with one
/// space.
pub fn in_path_visibility(s: &str) -> (r: bool)
    ensures
        r == is_in_path_visibility(s@),
{
    let n = s.unicode_len();
    if n <= 8 || !str_eq(s.substring_char(0, 7), "pub(in ") || s.get_char(n - 1) != ')' {
        return false;
    }
    let p = s.substring_char(7, n - 1);
    let m = p.unicode_len();
    let mut start: usize = 0;
    let mut i: usize = 0;
    while i < m
        invariant
            m == p@.len(),
            start <= i <= m,
            s@.len() > 8 && s@.subrange(0, 7) == "pub(in "@ && s@.last() == ')',
            p@ == s@.subrange(7, s@.len() - 1),
            mod_path_from(p@, 0, 0) == mod_path_from(p@, start as int, i as int),
        decreases m - i,
    {
        let c = p.get_char(i);
        if ('a' <= c && c <= 'z') || ('A' <= c && c <= 'Z') || ('0' <= c && c <= '9') || c == '_' {
            i = i + 1;
        } else if c == ':' && i + 1 < m && p.get_char(i + 1) == ':' {
            if !(start < i && mod_segment(p.substring_char(start, i))) {
                return false;
            }
            i = i + 2;
            start = i;
        } else {
            return false;
        }
    }
    start < i && mod_segment(p.substring_char(start, i))
}

} // verus!
