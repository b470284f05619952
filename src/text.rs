//! Literal text search and token substitution over character sequences.
use vstd::prelude::*;

verus! {

/// `p` occurs in `s` starting at position `i`.
pub open spec fn occurs_at(s: Seq<char>, p: Seq<char>, i: int) -> bool {
    0 <= i && i + p.len() <= s.len() && s.subrange(i, i + p.len()) == p
}

/// `p` occurs somewhere in `s` (the empty pattern occurs in every text).
pub open spec fn contains_seq(s: Seq<char>, p: Seq<char>) -> bool {
    exists|i: int| occurs_at(s, p, i)
}

/// `s` with every occurrence of `p` replaced by `t`, scanning left to right
/// and never letting two replaced occurrences overlap. An empty `p` matches
/// at every character boundary, so `t` is put before each character and at
/// the end.
pub open spec fn replaced(s: Seq<char>, p: Seq<char>, t: Seq<char>) -> Seq<char>
    decreases s.len(),
{
    if p.len() == 0 {
        if s.len() == 0 {
            t
        } else {
            t + seq![s[0]] + replaced(s.drop_first(), p, t)
        }
    } else if occurs_at(s, p, 0) {
        t + replaced(s.subrange(p.len() as int, s.len() as int), p, t)
    } else if s.len() == 0 {
        s
    } else {
        seq![s[0]] + replaced(s.drop_first(), p, t)
    }
}

/// Relies on `String::push`: appends one character.
#[verifier::external_body]
pub(crate) fn push_char(s: &mut String, c: char)
    ensures
        final(s)@ == old(s)@.push(c),
{
    s.push(c);
}

/// The characters of `s`, in order.
pub fn chars_of(s: &str) -> (r: Vec<char>)
    ensures
        r@ == s@,
{
    let mut r: Vec<char> = Vec::new();
    for c in it: s.chars()
        invariant
            it.seq() == s@,
            r@ == it.seq().take(it.index() as int),
    {
        proof {
            assert(it.seq().take(it.index() as int).push(c) =~= it.seq().take(it.index() + 1));
        }
        r.push(c);
    }
    proof {
        assert(r@ =~= s@);
    }
    r
}

/// Whether `p` occurs in `s` at position `i`.
pub fn matches_at(s: &Vec<char>, p: &Vec<char>, i: usize) -> (r: bool)
    ensures
        r == occurs_at(s@, p@, i as int),
{
    if i > s.len() || p.len() > s.len() - i {
        return false;
    }
    let mut k: usize = 0;
    while k < p.len()
        invariant
            i + p.len() <= s.len(),
            k <= p.len(),
            forall|j: int| 0 <= j < k ==> s@[i + j] == p@[j],
        decreases p.len() - k,
    {
        if s[i + k] != p[k] {
            proof {
                assert(s@.subrange(i as int, i + p.len())[k as int] != p@[k as int]);
            }
            return false;
        }
        k = k + 1;
    }
    proof {
        assert(s@.subrange(i as int, i + p.len()) =~= p@);
    }
    true
}

/// Whether `p` occurs anywhere in `s`.
pub fn contains_chars(s: &Vec<char>, p: &Vec<char>) -> (r: bool)
    ensures
        r == contains_seq(s@, p@),
{
    let mut i: usize = 0;
    loop
        invariant
            i <= s.len(),
            forall|j: int| 0 <= j < i ==> !occurs_at(s@, p@, j),
        ensures
            forall|j: int| 0 <= j <= s.len() ==> !occurs_at(s@, p@, j),
        decreases s.len() - i,
    {
        if matches_at(s, p, i) {
            return true;
        }
        if i == s.len() {
            break;
        }
        i = i + 1;
    }
    proof {
        assert forall|j: int| !occurs_at(s@, p@, j) by {
            if 0 <= j && j + p@.len() <= s@.len() {
                assert(j <= s@.len());
            }
        }
    }
    false
}

/// `text` with every occurrence of `from` replaced by `to`, as `replaced`
/// describes.
pub fn replace_text(text: &str, from: &str, to: &str) -> (r: String)
    ensures
        r@ == replaced(text@, from@, to@),
{
    let s = chars_of(text);
    let p = chars_of(from);
    let n = s.len();
    let mut out = String::new();
    let mut i: usize = 0;
    proof {
        assert(s@.subrange(0, n as int) =~= s@);
        assert(out@ + replaced(s@, p@, to@) =~= replaced(s@, p@, to@));
    }
    while i < n
        invariant
            n == s@.len(),
            s@ == text@,
            p@ == from@,
            i <= n,
            out@ + replaced(s@.subrange(i as int, n as int), p@, to@) == replaced(s@, p@, to@),
        decreases n - i,
    {
        let ghost rest = s@.subrange(i as int, n as int);
        if p.len() == 0 {
            proof {
                assert(rest.drop_first() =~= s@.subrange(i + 1, n as int));
                assert(out@ + to@ + seq![s@[i as int]] =~= out@ + (to@ + seq![rest[0]]));
            }
            out.append(to);
            push_char(&mut out, s[i]);
            i = i + 1;
        } else if matches_at(&s, &p, i) {
            proof {
                assert(rest.subrange(0, p@.len() as int) =~= s@.subrange(i as int, i + p@.len()));
                assert(rest.subrange(p@.len() as int, rest.len() as int) =~= s@.subrange(
                    i + p@.len(),
                    n as int,
                ));
                assert(out@ + to@ + replaced(s@.subrange(i + p@.len(), n as int), p@, to@) =~= out@
                    + (to@ + replaced(s@.subrange(i + p@.len(), n as int), p@, to@)));
            }
            out.append(to);
            i = i + p.len();
        } else {
            proof {
                if rest.len() >= p@.len() {
                    assert(rest.subrange(0, p@.len() as int) =~= s@.subrange(i as int, i + p@.len()));
                }
                assert(rest.drop_first() =~= s@.subrange(i + 1, n as int));
                assert(out@.push(s@[i as int]) + replaced(s@.subrange(i + 1, n as int), p@, to@)
                    =~= out@ + (seq![rest[0]] + replaced(rest.drop_first(), p@, to@)));
            }
            push_char(&mut out, s[i]);
            i = i + 1;
        }
    }
    proof {
        assert(s@.subrange(n as int, n as int) =~= Seq::<char>::empty());
    }
    if p.len() == 0 {
        out.append(to);
    }
    proof {
        assert(out@ =~= replaced(s@, p@, to@));
    }
    out
}

/// The text to write back for a file holding `contents` when `from` is to
/// become `to`, or `None` when the substitution changes nothing and the file
/// is to be left untouched.
pub fn rewrite(contents: &str, from: &str, to: &str) -> (r: Option<String>)
    ensures
        r is None <==> replaced(contents@, from@, to@) == contents@,
        r matches Some(n) ==> n@ == replaced(contents@, from@, to@),
{
    let updated = replace_text(contents, from, to);
    let current = contents.to_owned();
    if updated == current {
        None
    } else {
        Some(updated)
    }
}

/// A text in which a non-empty pattern does not occur is left as it is.
pub proof fn lemma_replaced_without_match(s: Seq<char>, p: Seq<char>, t: Seq<char>)
    requires
        p.len() > 0,
        !contains_seq(s, p),
    ensures
        replaced(s, p, t) == s,
    decreases s.len(),
{
    assert(!occurs_at(s, p, 0));
    if s.len() > 0 {
        let d = s.drop_first();
        assert forall|j: int| !occurs_at(d, p, j) by {
            if occurs_at(d, p, j) {
                assert(s.subrange(j + 1, j + 1 + p.len()) =~= d.subrange(j, j + p.len()));
                assert(occurs_at(s, p, j + 1));
            }
        }
        lemma_replaced_without_match(d, p, t);
        assert(seq![s[0]] + d =~= s);
    }
}

/// Replacing a pattern by itself leaves every text as it is.
pub proof fn lemma_replaced_by_itself(s: Seq<char>, p: Seq<char>)
    ensures
        replaced(s, p, p) == s,
    decreases s.len(),
{
    if p.len() == 0 {
        if s.len() > 0 {
            lemma_replaced_by_itself(s.drop_first(), p);
            assert(p + seq![s[0]] + s.drop_first() =~= s);
        }
    } else if occurs_at(s, p, 0) {
        let rest = s.subrange(p.len() as int, s.len() as int);
        lemma_replaced_by_itself(rest, p);
        assert(p + rest =~= s);
    } else if s.len() > 0 {
        lemma_replaced_by_itself(s.drop_first(), p);
        assert(seq![s[0]] + s.drop_first() =~= s);
    }
}

/// With an empty pattern the replacement is put in at least once more than
/// the text is long.
proof fn lemma_replaced_empty_pattern_len(s: Seq<char>, p: Seq<char>, t: Seq<char>)
    requires
        p.len() == 0,
    ensures
        replaced(s, p, t).len() >= s.len() + t.len(),
    decreases s.len(),
{
    if s.len() > 0 {
        lemma_replaced_empty_pattern_len(s.drop_first(), p, t);
    }
}

/// A replacement no longer than a non-empty pattern never lengthens the text,
/// and one no shorter never shortens it.
proof fn lemma_replaced_len(s: Seq<char>, p: Seq<char>, t: Seq<char>)
    requires
        p.len() > 0,
    ensures
        t.len() <= p.len() ==> replaced(s, p, t).len() <= s.len(),
        t.len() >= p.len() ==> replaced(s, p, t).len() >= s.len(),
    decreases s.len(),
{
    if occurs_at(s, p, 0) {
        lemma_replaced_len(s.subrange(p.len() as int, s.len() as int), p, t);
    } else if s.len() > 0 {
        lemma_replaced_len(s.drop_first(), p, t);
    }
}

/// Replacing an occurring pattern by a different text changes the text.
proof fn lemma_replaced_changes(s: Seq<char>, p: Seq<char>, t: Seq<char>)
    requires
        p != t,
        contains_seq(s, p),
    ensures
        replaced(s, p, t) != s,
    decreases s.len(),
{
    if p.len() == 0 {
        assert(t.len() > 0) by {
            if t.len() == 0 {
                assert(p =~= t);
            }
        }
        lemma_replaced_empty_pattern_len(s, p, t);
    } else if occurs_at(s, p, 0) {
        let rest = s.subrange(p.len() as int, s.len() as int);
        let r = replaced(s, p, t);
        lemma_replaced_len(rest, p, t);
        if t.len() == p.len() && r == s {
            assert(r.subrange(0, t.len() as int) =~= t);
            assert(s.subrange(0, p.len() as int) =~= p);
        }
    } else {
        let d = s.drop_first();
        let j = choose|j: int| occurs_at(s, p, j);
        assert(j > 0);
        assert(d.subrange(j - 1, j - 1 + p.len()) =~= s.subrange(j, j + p.len()));
        assert(occurs_at(d, p, j - 1));
        lemma_replaced_changes(d, p, t);
        let r = replaced(s, p, t);
        if r == s {
            assert(r.drop_first() =~= replaced(d, p, t));
        }
    }
}

/// Substituting twice in a row gives the same text as substituting once, so
/// the second pass writes nothing, exactly when `from` is `to` or the first
/// pass leaves no occurrence of `from` behind.
pub proof fn lemma_substitution_idempotent(s: Seq<char>, from: Seq<char>, to: Seq<char>)
    ensures
        replaced(replaced(s, from, to), from, to) == replaced(s, from, to) <==> (from == to
            || !contains_seq(replaced(s, from, to), from)),
{
    let once = replaced(s, from, to);
    if from == to {
        lemma_replaced_by_itself(once, from);
    } else if contains_seq(once, from) {
        lemma_replaced_changes(once, from, to);
    } else {
        if from.len() == 0 {
            assert(occurs_at(once, from, 0)) by {
                assert(once.subrange(0, 0) =~= from);
            }
        }
        lemma_replaced_without_match(once, from, to);
    }
}

} // verus!
