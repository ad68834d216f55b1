//! Text building blocks shared by the rule encoding and the prefix paths:
//! joining pieces with a separator, appending a relative subpath onto a root
//! path, and counting separator characters.

use vstd::prelude::*;

verus! {

/// Number of occurrences of the character `c` in `s`.
pub open spec fn count_char(s: Seq<char>, c: char) -> nat
    decreases s.len(),
{
    if s.len() == 0 {
        0
    } else {
        count_char(s.drop_last(), c) + if s.last() == c {
            1nat
        } else {
            0nat
        }
    }
}

/// Counting a character distributes over concatenation.
pub proof fn lemma_count_char_concat(a: Seq<char>, b: Seq<char>, c: char)
    ensures
        count_char(a + b, c) == count_char(a, c) + count_char(b, c),
    decreases b.len(),
{
    if b.len() == 0 {
        assert(a + b =~= a);
    } else {
        assert((a + b).drop_last() =~= a + b.drop_last());
        assert((a + b).last() == b.last());
        lemma_count_char_concat(a, b.drop_last(), c);
    }
}

/// A sequence in which a character never occurs counts it zero times.
pub proof fn lemma_count_char_absent(s: Seq<char>, c: char)
    requires
        forall|i: int| 0 <= i < s.len() ==> s[i] != c,
    ensures
        count_char(s, c) == 0,
    decreases s.len(),
{
    if s.len() > 0 {
        lemma_count_char_absent(s.drop_last(), c);
    }
}

/// The pieces concatenated in order, with `sep` between neighbours and
/// nothing before the first or after the last; no pieces give the empty
/// sequence.
pub open spec fn spec_join(parts: Seq<Seq<char>>, sep: Seq<char>) -> Seq<char>
    decreases parts.len(),
{
    if parts.len() == 0 {
        Seq::empty()
    } else if parts.len() == 1 {
        parts[0]
    } else {
        spec_join(parts.drop_last(), sep) + sep + parts.last()
    }
}

/// Joining one more piece appends one separator and then the piece.
pub proof fn lemma_join_push(parts: Seq<Seq<char>>, sep: Seq<char>, piece: Seq<char>)
    requires
        parts.len() > 0,
    ensures
        spec_join(parts.push(piece), sep) == spec_join(parts, sep) + sep + piece,
{
    assert(parts.push(piece).drop_last() =~= parts);
    assert(parts.push(piece).last() == piece);
}

/// When the joined pieces are free of the character `c` and the separator
/// holds it exactly once, the join holds exactly one `c` per gap between
/// pieces: one fewer than the number of pieces.
pub proof fn lemma_join_count_sep(parts: Seq<Seq<char>>, sep: Seq<char>, c: char)
    requires
        parts.len() > 0,
        count_char(sep, c) == 1,
        forall|i: int| 0 <= i < parts.len() ==> count_char(#[trigger] parts[i], c) == 0,
    ensures
        count_char(spec_join(parts, sep), c) == parts.len() - 1,
    decreases parts.len(),
{
    if parts.len() == 1 {
        assert(count_char(parts[0], c) == 0);
    } else {
        lemma_join_count_sep(parts.drop_last(), sep, c);
        lemma_count_char_concat(spec_join(parts.drop_last(), sep), sep, c);
        lemma_count_char_concat(spec_join(parts.drop_last(), sep) + sep, parts.last(), c);
        assert(count_char(parts.last(), c) == 0);
    }
}

/// The way a fixed relative subpath is appended onto a root path: a `/`
/// separator is inserted unless the root is empty or already ends with one.
pub open spec fn spec_path_join(root: Seq<char>, rel: Seq<char>) -> Seq<char> {
    if root.len() == 0 {
        rel
    } else if root.last() == '/' {
        root + rel
    } else {
        root + "/"@ + rel
    }
}

/// Appends the relative path `rel` onto the root path `root`.
pub fn join_path(root: &str, rel: &str) -> (r: String)
    ensures
        r@ == spec_path_join(root@, rel@),
{
    let n = root.unicode_len();
    if n == 0 {
        String::from_str(rel)
    } else if root.get_char(n - 1) == '/' {
        let mut s = String::from_str(root);
        s.append(rel);
        s
    } else {
        let mut s = String::from_str(root);
        s.append("/");
        s.append(rel);
        s
    }
}

/// Joins the given strings in order, separated by `sep`; no strings yield the
/// empty string.
pub fn join_strings(parts: &Vec<String>, sep: &str) -> (r: String)
    ensures
        r@ == spec_join(parts.deep_view(), sep@),
{
    let mut out = String::new();
    let n = parts.len();
    let mut i: usize = 0;
    while i < n
        invariant
            n == parts.len(),
            i <= n,
            out@ == spec_join(parts.deep_view().take(i as int), sep@),
        decreases n - i,
    {
        if i > 0 {
            out.append(sep);
        }
        out.append(parts[i].as_str());
        proof {
            let dv = parts.deep_view();
            assert(dv.take(i + 1).drop_last() =~= dv.take(i as int));
            if i > 0 {
                lemma_join_push(dv.take(i as int), sep@, dv[i as int]);
                assert(dv.take(i as int).push(dv[i as int]) =~= dv.take(i + 1));
            }
            assert(out@ == spec_join(dv.take(i + 1), sep@));
        }
        i += 1;
    }
    proof {
        assert(parts.deep_view().take(n as int) =~= parts.deep_view());
    }
    out
}

} // verus!
