//! Scanning macro input text: splitting at separators that stand outside any bracket or
//! string literal, and trimming white space.
use vstd::prelude::*;

verus! {

/// Whether `c` opens a bracket; angle brackets count only where `angles` holds (in types).
pub open spec fn opens(c: char, angles: bool) -> bool {
    c == '(' || c == '[' || c == '{' || (angles && c == '<')
}

/// Whether the character at `i` closes a bracket; the `>` of an arrow `->` closes none.
pub open spec fn closes(s: Seq<char>, i: int, angles: bool) -> bool {
    s[i] == ')' || s[i] == ']' || s[i] == '}' || (angles && s[i] == '>' && !(i > 0 && s[i
        - 1] == '-'))
}

/// Whether the quote at `i` opens a character literal (`'c'` or `'\...'`) rather than
/// standing before a lifetime or label.
pub open spec fn opens_char_literal(s: Seq<char>, i: int) -> bool {
    (i + 1 < s.len() && s[i + 1] == '\\') || (i + 2 < s.len() && s[i + 2] == '\'')
}

/// The scanner's state before the character at `n`: bracket depth, whether inside a string
/// or character literal, whether the previous character was an escaping backslash in one,
/// and whether that literal is a character literal.
pub open spec fn scan(s: Seq<char>, n: int, angles: bool) -> (int, bool, bool, bool)
    decreases n,
{
    if n <= 0 {
        (0, false, false, false)
    } else {
        let (d, quoted, escaped, chr) = scan(s, n - 1, angles);
        let c = s[n - 1];
        if quoted {
            if escaped {
                (d, true, false, chr)
            } else if c == '\\' {
                (d, true, true, chr)
            } else if (chr && c == '\'') || (!chr && c == '"') {
                (d, false, false, false)
            } else {
                (d, true, false, chr)
            }
        } else if c == '"' {
            (d, true, false, false)
        } else if c == '\'' && opens_char_literal(s, n - 1) {
            (d, true, false, true)
        } else if opens(c, angles) {
            (d + 1, false, false, false)
        } else if closes(s, n - 1, angles) {
            (d - 1, false, false, false)
        } else {
            (d, false, false, false)
        }
    }
}

/// Whether `c` can separate pieces: it neither opens nor closes a bracket or a literal.
pub open spec fn is_separator_char(c: char) -> bool {
    !opens(c, true) && c != ')' && c != ']' && c != '}' && c != '>' && c != '"' && c != '\''
}

/// Whether the character at `i` is `sep` standing outside any bracket and string literal.
pub open spec fn at_top(s: Seq<char>, i: int, sep: char, angles: bool) -> bool {
    s[i] == sep && scan(s, i, angles).0 == 0 && !scan(s, i, angles).1
}

/// The positions below `n` of separators at the top level, in order.
pub open spec fn separators(s: Seq<char>, n: int, sep: char, angles: bool) -> Seq<int>
    decreases n,
{
    if n <= 0 {
        Seq::empty()
    } else if at_top(s, n - 1, sep, angles) {
        separators(s, n - 1, sep, angles).push(n - 1)
    } else {
        separators(s, n - 1, sep, angles)
    }
}

/// The pieces of `s` between its top-level separators (one more than there are separators).
pub open spec fn pieces(s: Seq<char>, sep: char, angles: bool) -> Seq<Seq<char>> {
    let c = separators(s, s.len() as int, sep, angles);
    Seq::new(
        c.len() + 1,
        |k: int|
            s.subrange(
                if k == 0 {
                    0
                } else {
                    c[k - 1] + 1
                },
                if k == c.len() {
                    s.len() as int
                } else {
                    c[k]
                },
            ),
    )
}

/// Whether `c` is white space.
pub open spec fn is_space(c: char) -> bool {
    c == ' ' || c == '\t' || c == '\n' || c == '\r'
}

/// `s` without leading white space.
pub open spec fn trim_start(s: Seq<char>) -> Seq<char>
    decreases s.len(),
{
    if s.len() > 0 && is_space(s[0]) {
        trim_start(s.drop_first())
    } else {
        s
    }
}

/// `s` without trailing white space.
pub open spec fn trim_end(s: Seq<char>) -> Seq<char>
    decreases s.len(),
{
    if s.len() > 0 && is_space(s.last()) {
        trim_end(s.drop_last())
    } else {
        s
    }
}

/// `s` without leading and trailing white space.
pub open spec fn trimmed(s: Seq<char>) -> Seq<char> {
    trim_end(trim_start(s))
}

/// The views of a sequence of strings.
pub open spec fn views(v: Seq<String>) -> Seq<Seq<char>> {
    v.map_values(|x: String| x@)
}

pub proof fn separators_below(s: Seq<char>, n: int, sep: char, angles: bool)
    requires
        0 <= n,
    ensures
        forall|k: int|
            0 <= k < separators(s, n, sep, angles).len() ==> separators(s, n, sep, angles)[k]
                < n,
        forall|k: int|
            0 <= k < separators(s, n, sep, angles).len() ==> 0 <= separators(s, n, sep, angles)[k],
        forall|j: int, k: int|
            0 <= j < k < separators(s, n, sep, angles).len() ==> separators(s, n, sep, angles)[j]
                < separators(s, n, sep, angles)[k],
    decreases n,
{
    if n > 0 {
        separators_below(s, n - 1, sep, angles);
        let p = separators(s, n - 1, sep, angles);
        if at_top(s, n - 1, sep, angles) {
            assert(separators(s, n, sep, angles) == p.push(n - 1));
            assert forall|k: int| 0 <= k < p.len() + 1 implies 0 <= #[trigger] p.push(n - 1)[k] < n by {
                if k < p.len() {
                    assert(p.push(n - 1)[k] == p[k]);
                }
            }
        }
    }
}

/// Splits `s` at its top-level occurrences of `sep`.
pub fn split_top_level(s: &str, sep: char, angles: bool) -> (r: Vec<String>)
    requires
        is_separator_char(sep),
    ensures
        views(r@) == pieces(s@, sep, angles),
{
    let n = s.unicode_len();
    let mut r: Vec<String> = Vec::new();
    let mut depth: i128 = 0;
    let mut quoted = false;
    let mut escaped = false;
    let mut chr = false;
    let mut start: usize = 0;
    let mut i: usize = 0;
    while i < n
        invariant
            n == s@.len(),
            is_separator_char(sep),
            i <= n,
            -(i as int) <= depth <= i,
            (depth as int, quoted, escaped, chr) == scan(s@, i as int, angles),
            start <= i,
            r@.len() == separators(s@, i as int, sep, angles).len(),
            start == (if r@.len() == 0 {
                0
            } else {
                separators(s@, i as int, sep, angles).last() + 1
            }),
            forall|k: int|
                0 <= k < r@.len() ==> (#[trigger] r@[k])@ == s@.subrange(
                    if k == 0 {
                        0
                    } else {
                        separators(s@, i as int, sep, angles)[k - 1] + 1
                    },
                    separators(s@, i as int, sep, angles)[k],
                ),
        decreases n - i,
    {
        proof {
            separators_below(s@, i as int, sep, angles);
        }
        let c = s.get_char(i);
        if quoted {
            if escaped {
                escaped = false;
            } else if c == '\\' {
                escaped = true;
            } else if (chr && c == '\'') || (!chr && c == '"') {
                quoted = false;
                chr = false;
            }
        } else if c == '"' {
            quoted = true;
        } else if c == '\'' && ((n - i > 1 && s.get_char(i + 1) == '\\') || (n - i > 2
            && s.get_char(i + 2) == '\'')) {
            quoted = true;
            chr = true;
        } else if c == '(' || c == '[' || c == '{' || (angles && c == '<') {
            depth = depth + 1;
        } else if c == ')' || c == ']' || c == '}' || (angles && c == '>' && !(i > 0
            && s.get_char(i - 1) == '-')) {
            depth = depth - 1;
        } else if c == sep && depth == 0 {
            let piece = s.substring_char(start, i).to_owned();
            r.push(piece);
            start = i + 1;
        } else {
        }
        assert(separators(s@, i + 1, sep, angles) == if at_top(s@, i as int, sep, angles) {
            separators(s@, i as int, sep, angles).push(i as int)
        } else {
            separators(s@, i as int, sep, angles)
        });
        i = i + 1;
    }
    proof {
        separators_below(s@, n as int, sep, angles);
    }
    let last = s.substring_char(start, n).to_owned();
    r.push(last);
    assert(views(r@) =~= pieces(s@, sep, angles));
    r
}

/// `s` without leading and trailing white space.
pub fn trim(s: &str) -> (r: String)
    ensures
        r@ == trimmed(s@),
{
    let n = s.unicode_len();
    let mut lo: usize = 0;
    assert(s@.subrange(0, n as int) =~= s@);
    while lo < n && is_space_char(s.get_char(lo))
        invariant
            n == s@.len(),
            lo <= n,
            trim_start(s@) == trim_start(s@.subrange(lo as int, n as int)),
        decreases n - lo,
    {
        assert(s@.subrange(lo as int + 1, n as int) =~= s@.subrange(lo as int, n as int).drop_first());
        lo = lo + 1;
    }
    assert(trim_start(s@) == s@.subrange(lo as int, n as int));
    let mut hi: usize = n;
    while hi > lo && is_space_char(s.get_char(hi - 1))
        invariant
            n == s@.len(),
            lo <= hi <= n,
            trim_end(s@.subrange(lo as int, n as int)) == trim_end(s@.subrange(lo as int, hi as int)),
        decreases hi - lo,
    {
        assert(s@.subrange(lo as int, hi as int - 1) =~= s@.subrange(lo as int, hi as int).drop_last());
        hi = hi - 1;
    }
    s.substring_char(lo, hi).to_owned()
}

/// Whether `c` is white space.
pub fn is_space_char(c: char) -> (r: bool)
    ensures
        r == is_space(c),
{
    c == ' ' || c == '\t' || c == '\n' || c == '\r'
}

} // verus!
