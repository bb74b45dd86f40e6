//! Keyword-weighted priority triage of free text.
//!
//! A text is normalized to lower case and scanned for a fixed set of
//! keywords; each keyword found contributes a fixed weight to an
//! accumulator, counted once regardless of how often or where it occurs.
//! The accumulated weight is then mapped to one of three encoded priority
//! levels: at least 30 is high (100), at least 15 is medium (50), anything
//! below is low (10). Matching is literal substring containment, with no
//! partial matches and no stemming.

use vstd::prelude::*;

verus! {

/// The characters of the Unicode lowercase equivalent of a text; determined
/// by the characters of the text alone.
pub uninterp spec fn lower_of(s: Seq<char>) -> Seq<char>;

/// Relies on str::to_lowercase: returns the lowercase equivalent of the
/// input string, per the Unicode lowercase mapping, a function of the input
/// characters alone.
#[verifier::external_body]
fn to_lower(s: &str) -> (r: String)
    ensures
        r@ == lower_of(s@),
{
    s.to_lowercase()
}

/// `needle` occurs in `hay` starting at position `i`.
pub open spec fn occurs_at(hay: Seq<char>, needle: Seq<char>, i: int) -> bool {
    &&& 0 <= i
    &&& i + needle.len() <= hay.len()
    &&& hay.subrange(i, i + needle.len()) == needle
}

/// `needle` occurs somewhere in `hay`: literal substring containment.
pub open spec fn contains_seq(hay: Seq<char>, needle: Seq<char>) -> bool {
    exists|i: int| occurs_at(hay, needle, i)
}

/// Does `needle` occur in `hay` starting at position `i`?
fn occurs_at_pos(hay: &str, needle: &str, i: usize) -> (b: bool)
    requires
        i + needle@.len() <= hay@.len(),
    ensures
        b == occurs_at(hay@, needle@, i as int),
{
    let n = hay.unicode_len();
    let m = needle.unicode_len();
    let mut j: usize = 0;
    while j < m
        invariant
            n == hay@.len(),
            m == needle@.len(),
            i + m <= n,
            j <= m,
            forall|k: int| 0 <= k < j ==> hay@[i as int + k] == needle@[k],
        decreases m - j,
    {
        if hay.get_char(i + j) != needle.get_char(j) {
            assert(!occurs_at(hay@, needle@, i as int)) by {
                if occurs_at(hay@, needle@, i as int) {
                    assert(hay@.subrange(i as int, i as int + m)[j as int] == needle@[j as int]);
                }
            }
            return false;
        }
        j += 1;
    }
    assert(occurs_at(hay@, needle@, i as int)) by {
        assert(hay@.subrange(i as int, i as int + m) =~= needle@);
    }
    true
}

/// Literal substring search: does `needle` occur anywhere in `hay`?
fn contains_str(hay: &str, needle: &str) -> (b: bool)
    ensures
        b == contains_seq(hay@, needle@),
{
    let n = hay.unicode_len();
    let m = needle.unicode_len();
    if m == 0 {
        assert(occurs_at(hay@, needle@, 0)) by {
            assert(hay@.subrange(0, 0) =~= needle@);
        }
        return true;
    }
    if m > n {
        assert(forall|i: int| !occurs_at(hay@, needle@, i));
        return false;
    }
    let mut i: usize = 0;
    while i <= n - m
        invariant
            n == hay@.len(),
            m == needle@.len(),
            0 < m <= n,
            i <= n - m + 1,
            forall|k: int| 0 <= k < i ==> !occurs_at(hay@, needle@, k),
        decreases n - m + 1 - i,
    {
        if occurs_at_pos(hay, needle, i) {
            return true;
        }
        i += 1;
    }
    assert(forall|k: int| !occurs_at(hay@, needle@, k));
    false
}

/// The keyword weighted 50.
pub open spec fn kw_fuego() -> Seq<char> {
    seq!['f', 'u', 'e', 'g', 'o']
}

/// The keyword weighted 40.
pub open spec fn kw_critico() -> Seq<char> {
    seq!['c', 'r', 'i', 't', 'i', 'c', 'o']
}

/// The keyword weighted 35.
pub open spec fn kw_urgente() -> Seq<char> {
    seq!['u', 'r', 'g', 'e', 'n', 't', 'e']
}

/// The keyword weighted 30.
pub open spec fn kw_falla() -> Seq<char> {
    seq!['f', 'a', 'l', 'l', 'a']
}

/// The keyword weighted 45.
pub open spec fn kw_peligro() -> Seq<char> {
    seq!['p', 'e', 'l', 'i', 'g', 'r', 'o']
}

/// Accumulated keyword weight of a lowercased text: each keyword contained
/// in the text contributes its fixed weight once.
pub open spec fn keyword_score(t: Seq<char>) -> int {
    (if contains_seq(t, kw_fuego()) {
        50int
    } else {
        0int
    }) + (if contains_seq(t, kw_critico()) {
        40int
    } else {
        0int
    }) + (if contains_seq(t, kw_urgente()) {
        35int
    } else {
        0int
    }) + (if contains_seq(t, kw_falla()) {
        30int
    } else {
        0int
    }) + (if contains_seq(t, kw_peligro()) {
        45int
    } else {
        0int
    })
}

/// Encoded priority level of an accumulated weight: at least 30 is high
/// (100), at least 15 is medium (50), anything below is low (10).
pub open spec fn priority_of(score: int) -> int {
    if score >= 30 {
        100int
    } else if score >= 15 {
        50int
    } else {
        10int
    }
}

/// Score a text for urgency: lowercase it, add the fixed weight of each
/// keyword it contains, and map the sum to an encoded priority level.
pub fn calc_p_rust(texto: &str) -> (r: i32)
    ensures
        r as int == priority_of(keyword_score(lower_of(texto@))),
{
    let t = to_lower(texto);
    let s = t.as_str();
    proof {
        reveal_strlit("fuego");
        reveal_strlit("critico");
        reveal_strlit("urgente");
        reveal_strlit("falla");
        reveal_strlit("peligro");
        assert(("fuego")@ =~= kw_fuego());
        assert(("critico")@ =~= kw_critico());
        assert(("urgente")@ =~= kw_urgente());
        assert(("falla")@ =~= kw_falla());
        assert(("peligro")@ =~= kw_peligro());
    }
    let mut p_al: i32 = 0;
    if contains_str(s, "fuego") {
        p_al += 50;
    }
    if contains_str(s, "critico") {
        p_al += 40;
    }
    if contains_str(s, "urgente") {
        p_al += 35;
    }
    if contains_str(s, "falla") {
        p_al += 30;
    }
    if contains_str(s, "peligro") {
        p_al += 45;
    }
    if p_al >= 30 {
        100
    } else if p_al >= 15 {
        50
    } else {
        10
    }
}

/// A text containing none of the keywords accumulates no weight and is
/// scored at the low level.
pub proof fn lemma_no_keyword_is_low(t: Seq<char>)
    requires
        !contains_seq(t, kw_fuego()),
        !contains_seq(t, kw_critico()),
        !contains_seq(t, kw_urgente()),
        !contains_seq(t, kw_falla()),
        !contains_seq(t, kw_peligro()),
    ensures
        priority_of(keyword_score(t)) == 10,
{
}

/// Every single keyword weight already reaches the high threshold, so a
/// text containing any keyword at all is scored at the high level.
pub proof fn lemma_any_keyword_is_high(t: Seq<char>)
    requires
        contains_seq(t, kw_fuego()) || contains_seq(t, kw_critico()) || contains_seq(
            t,
            kw_urgente(),
        ) || contains_seq(t, kw_falla()) || contains_seq(t, kw_peligro()),
    ensures
        priority_of(keyword_score(t)) == 100,
{
}

} // verus!
