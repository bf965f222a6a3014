//! Text helpers over strings viewed as character sequences.

use vstd::prelude::*;
use vstd::string::*;

verus! {

/// The views of a sequence of strings.
pub open spec fn views(v: Seq<String>) -> Seq<Seq<char>> {
    v.map_values(|s: String| s@)
}

/// The pieces of `s` between single spaces, as `str::split(' ')` yields them:
/// an empty text has one empty piece, and every space starts a new piece.
pub open spec fn words(s: Seq<char>) -> Seq<Seq<char>>
    decreases s.len(),
{
    if s.len() == 0 {
        seq![Seq::<char>::empty()]
    } else {
        let w = words(s.drop_last());
        if s.last() == ' ' {
            w.push(Seq::<char>::empty())
        } else {
            w.update(w.len() - 1, w.last().push(s.last()))
        }
    }
}

/// Whether `w` is one of the space-separated pieces of `s`.
pub open spec fn has_word_spec(s: Seq<char>, w: Seq<char>) -> bool {
    words(s).contains(w)
}

/// Whether a name is written in raw form (`r#name`).
pub open spec fn is_raw(n: Seq<char>) -> bool {
    n.len() >= 2 && n[0] == 'r' && n[1] == '#'
}

/// A name without its raw marker.
pub open spec fn unraw_spec(n: Seq<char>) -> Seq<char> {
    if is_raw(n) {
        n.subrange(2, n.len() as int)
    } else {
        n
    }
}

/// Character-wise equality of two texts.
pub fn str_eq(a: &str, b: &str) -> (r: bool)
    ensures
        r == (a@ == b@),
{
    let n = a.unicode_len();
    if n != b.unicode_len() {
        return false;
    }
    let mut i: usize = 0;
    while i < n
        invariant
            n == a@.len(),
            n == b@.len(),
            i <= n,
            a@.subrange(0, i as int) == b@.subrange(0, i as int),
        decreases n - i,
    {
        if a.get_char(i) != b.get_char(i) {
            return false;
        }
        assert(a@.subrange(0, i + 1) =~= a@.subrange(0, i as int).push(a@[i as int]));
        assert(b@.subrange(0, i + 1) =~= b@.subrange(0, i as int).push(b@[i as int]));
        i = i + 1;
    }
    assert(a@ =~= a@.subrange(0, n as int));
    assert(b@ =~= b@.subrange(0, n as int));
    true
}

/// Splits `s` at every space, keeping empty pieces.
pub fn split_words(s: &str) -> (r: Vec<String>)
    ensures
        views(r@) == words(s@),
{
    let n = s.unicode_len();
    let mut out: Vec<String> = Vec::new();
    let mut start: usize = 0;
    let mut i: usize = 0;
    assert(s@.subrange(0, 0) =~= Seq::<char>::empty());
    assert(views(out@) + seq![s@.subrange(0, 0)] =~= words(s@.subrange(0, 0)));
    while i < n
        invariant
            n == s@.len(),
            start <= i <= n,
            views(out@) + seq![s@.subrange(start as int, i as int)] == words(
                s@.subrange(0, i as int),
            ),
        decreases n - i,
    {
        let ghost prev = s@.subrange(0, i as int);
        let ghost next = s@.subrange(0, i + 1);
        assert(next.drop_last() =~= prev);
        assert(next.last() == s@[i as int]);
        let c = s.get_char(i);
        if c == ' ' {
            let piece = String::from_str(s.substring_char(start, i));
            let ghost before = out@;
            out.push(piece);
            assert(s@.subrange(i + 1, i + 1) =~= Seq::<char>::empty());
            assert(views(out@) =~= views(before).push(piece@));
            start = i + 1;
        } else {
            assert(s@.subrange(start as int, i + 1) =~= s@.subrange(start as int, i as int).push(c));
        }
        i = i + 1;
    }
    out.push(String::from_str(s.substring_char(start, n)));
    assert(s@.subrange(0, n as int) =~= s@);
    assert(views(out@) =~= words(s@));
    out
}

/// Whether `w` is one of the space-separated words of `s`.
pub fn has_word(s: &str, w: &str) -> (r: bool)
    ensures
        r == has_word_spec(s@, w@),
{
    let ws = split_words(s);
    let mut i: usize = 0;
    while i < ws.len()
        invariant
            views(ws@) == words(s@),
            i <= ws@.len(),
            forall|j: int| 0 <= j < i ==> ws@[j]@ != w@,
        decreases ws.len() - i,
    {
        if str_eq(ws[i].as_str(), w) {
            assert(words(s@)[i as int] == w@);
            return true;
        }
        i = i + 1;
    }
    assert forall|j: int| 0 <= j < words(s@).len() implies words(s@)[j] != w@ by {
        assert(words(s@)[j] == ws@[j]@);
    }
    false
}

/// Whether `n` is written in raw form.
pub fn is_raw_name(n: &str) -> (r: bool)
    ensures
        r == is_raw(n@),
{
    n.unicode_len() >= 2 && n.get_char(0) == 'r' && n.get_char(1) == '#'
}

/// `n` without its raw marker.
pub fn unraw(n: &str) -> (r: String)
    ensures
        r@ == unraw_spec(n@),
{
    if is_raw_name(n) {
        String::from_str(n.substring_char(2, n.unicode_len()))
    } else {
        String::from_str(n)
    }
}

} // verus!
