//! Text helpers: building log lines, joining dialog pages, and the two
//! string operations whose results are taken on trust from `std`.

use vstd::prelude::*;

verus! {

/// The lower-cased form of a text, as `str::to_lowercase` computes it.
pub uninterp spec fn lowercase(s: Seq<char>) -> Seq<char>;

/// `s` with every occurrence of `pat` deleted, scanning left to right and
/// never re-examining characters that were part of a deleted occurrence.
pub open spec fn without(s: Seq<char>, pat: Seq<char>) -> Seq<char>
    decreases s.len(),
{
    if pat.len() == 0 || s.len() == 0 {
        s
    } else if pat.is_prefix_of(s) {
        without(s.skip(pat.len() as int), pat)
    } else {
        seq![s[0]] + without(s.skip(1), pat)
    }
}

/// The lines joined by single newlines, with no trailing newline.
pub open spec fn join_lines(lines: Seq<Seq<char>>) -> Seq<char>
    decreases lines.len(),
{
    if lines.len() == 0 {
        Seq::empty()
    } else if lines.len() == 1 {
        lines[0]
    } else {
        join_lines(lines.drop_last()) + "\n"@ + lines.last()
    }
}

/// Calls `str::to_lowercase`. Trusted: the result is the Unicode lower-casing
/// of the argument, which depends on the argument alone.
#[verifier::external_body]
pub(crate) fn to_lowercase(s: &str) -> (r: String)
    ensures
        r@ == lowercase(s@),
{
    s.to_lowercase()
}

/// Calls `str::replace` with an empty replacement. Trusted: the result is the
/// argument with all non-overlapping matches of `pat`, found left to right,
/// removed; an empty `pat` removes nothing.
#[verifier::external_body]
pub(crate) fn remove_all(s: &str, pat: &str) -> (r: String)
    ensures
        r@ == without(s@, pat@),
{
    s.replace(pat, "")
}

/// `a` followed by `b`.
pub fn concat2(a: &str, b: &str) -> (r: String)
    ensures
        r@ == a@ + b@,
{
    let mut r = String::from_str(a);
    r.append(b);
    r
}

/// `a`, `b` and `c` in a row.
pub fn concat3(a: &str, b: &str, c: &str) -> (r: String)
    ensures
        r@ == a@ + b@ + c@,
{
    let mut r = String::from_str(a);
    r.append(b);
    r.append(c);
    r
}

/// The first `count` lines of `lines` (all of them if there are fewer),
/// joined by newlines.
pub fn join_first(lines: &Vec<String>, count: usize) -> (r: String)
    ensures
        r@ == join_lines(
            lines.deep_view().take(
                if count <= lines.len() {
                    count as int
                } else {
                    lines.len() as int
                },
            ),
        ),
{
    let n: usize = if count <= lines.len() {
        count
    } else {
        lines.len()
    };
    let ghost all = lines.deep_view();
    let mut r = String::new();
    let mut i: usize = 0;
    while i < n
        invariant
            i <= n <= lines.len(),
            all == lines.deep_view(),
            r@ == join_lines(all.take(i as int)),
        decreases n - i,
    {
        proof {
            assert(all.take(i + 1).drop_last() =~= all.take(i as int));
        }
        if i > 0 {
            r.append("\n");
        }
        r.append(lines[i].as_str());
        i += 1;
    }
    r
}

} // verus!
