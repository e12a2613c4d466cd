//! The macro forms that resolve one type (`get`), call an annotated function (`call`) and
//! build a container (`container`).
use vstd::prelude::*;

use crate::arguments::{find_char, find_from};
use crate::syntax::{is_expression, parses_as_expression};
use crate::text::{pieces, separators, separators_below, split_top_level, trim, trimmed, views};

pub mod call;
pub mod container;
pub mod get;

verus! {

/// The trimmed texts before and after the first `c` in `s`, if `s` holds one.
pub open spec fn pair_of(s: Seq<char>, c: char) -> Option<(Seq<char>, Seq<char>)> {
    let i = find_from(s, c, 0);
    if i < s.len() {
        Some((trimmed(s.subrange(0, i)), trimmed(s.subrange(i + 1, s.len() as int))))
    } else {
        None
    }
}

/// Splits `s` at its first `c` into the trimmed texts before and after it.
pub fn split_pair(s: &str, c: char) -> (r: Option<(String, String)>)
    ensures
        match r {
            Some((a, b)) => pair_of(s@, c) == Some((a@, b@)),
            None => pair_of(s@, c) is None,
        },
{
    let n = s.unicode_len();
    let i = find_char(s, c);
    if i < n {
        Some((trim(s.substring_char(0, i)), trim(s.substring_char(i + 1, n))))
    } else {
        None
    }
}

/// Whether `t` starts with the word `w` followed by white space.
pub open spec fn starts_with_word(t: Seq<char>, w: Seq<char>) -> bool {
    t.len() > w.len() && t.subrange(0, w.len() as int) == w && crate::text::is_space(t[w.len() as int])
}

/// Whether `t` starts with the word `w` followed by white space.
pub fn starts_with_word_of(t: &str, w: &str) -> (r: bool)
    ensures
        r == starts_with_word(t@, w@),
{
    let n = w.unicode_len();
    if t.unicode_len() <= n {
        return false;
    }
    let mut i: usize = 0;
    while i < n
        invariant
            n == w@.len(),
            n < t@.len(),
            i <= n,
            forall|j: int| 0 <= j < i ==> t@[j] == w@[j],
        decreases n - i,
    {
        if t.get_char(i) != w.get_char(i) {
            assert(t@.subrange(0, n as int)[i as int] != w@[i as int]);
            return false;
        }
        i = i + 1;
    }
    assert(t@.subrange(0, n as int) =~= w@);
    crate::text::is_space_char(t.get_char(n))
}

/// The top-level comma positions of `s`, brackets counted and angle brackets not.
pub open spec fn commas(s: Seq<char>) -> Seq<int> {
    separators(s, s.len() as int, ',', false)
}

/// The number of the first top-level comma, from number `j` on, before which the text is an
/// expression; the number of commas if there is none.
pub open spec fn expression_comma(s: Seq<char>, j: int) -> int
    decreases commas(s).len() - j,
{
    if j < 0 || j >= commas(s).len() {
        commas(s).len() as int
    } else if is_expression(trimmed(s.subrange(0, commas(s)[j]))) {
        j
    } else {
        expression_comma(s, j + 1)
    }
}

/// The leading expression of `s` and the text after the comma that ends it: the shortest
/// text before a top-level comma that is an expression (so a comma inside generic arguments
/// such as `f::<A, B>()` does not end it). `None` if no such comma exists.
pub open spec fn leading(s: Seq<char>) -> Option<(Seq<char>, Seq<char>)> {
    let j = expression_comma(s, 0);
    if j < commas(s).len() {
        Some((trimmed(s.subrange(0, commas(s)[j])), s.subrange(commas(s)[j] + 1, s.len() as int)))
    } else {
        None
    }
}

/// Splits `s` into its leading expression and the text after the comma that ends it.
pub fn leading_expression(s: &str) -> (r: Option<(String, String)>)
    ensures
        match r {
            Some((e, rest)) => leading(s@) == Some((e@, rest@)),
            None => leading(s@) is None,
        },
{
    let ps = split_top_level(s, ',', false);
    let n = s.unicode_len();
    let ghost c = commas(s@);
    proof {
        separators_below(s@, s@.len() as int, ',', false);
    }
    assert(views(ps@).len() == ps@.len());
    assert(pieces(s@, ',', false).len() == c.len() + 1);
    let mut pos: usize = 0;
    let mut j: usize = 0;
    while j < ps.len() - 1
        invariant
            c == commas(s@),
            n == s@.len(),
            views(ps@) == pieces(s@, ',', false),
            ps@.len() == c.len() + 1,
            forall|k: int| 0 <= k < c.len() ==> 0 <= #[trigger] c[k] < n,
            forall|a: int, b: int| 0 <= a < b < c.len() ==> c[a] < c[b],
            j < ps@.len(),
            pos == (if j == 0 {
                0
            } else {
                c[j - 1] + 1
            }),
            expression_comma(s@, 0) == expression_comma(s@, j as int),
        decreases ps@.len() - j,
    {
        assert(ps@[j as int]@ == pieces(s@, ',', false)[j as int]);
        assert(ps@[j as int]@ == s@.subrange(pos as int, c[j as int]));
        let end = pos + ps[j].unicode_len();
        let e = trim(s.substring_char(0, end));
        if parses_as_expression(e.as_str()) {
            let rest = s.substring_char(end + 1, n).to_owned();
            return Some((e, rest));
        }
        pos = end + 1;
        j = j + 1;
    }
    None
}

} // verus!
