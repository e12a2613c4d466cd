//! Lists of names: lookup and repetition.
use vstd::prelude::*;

use crate::text::views;

verus! {

/// Whether no name occurs twice.
pub open spec fn distinct(s: Seq<Seq<char>>) -> bool {
    forall|i: int, j: int| 0 <= i < j < s.len() ==> s[i] != s[j]
}

/// Whether `n` occurs at two places.
pub open spec fn repeated(s: Seq<Seq<char>>, n: Seq<char>) -> bool {
    exists|i: int, j: int| 0 <= i < j < s.len() && s[i] == n && s[j] == n
}

/// The index of the first occurrence of `n` in `names`, if any.
pub fn index_of(names: &Vec<String>, n: &String) -> (r: Option<usize>)
    ensures
        match r {
            Some(i) => i < names@.len() && names@[i as int]@ == n@ && forall|j: int|
                0 <= j < i ==> (#[trigger] names@[j])@ != n@,
            None => forall|j: int| 0 <= j < names@.len() ==> (#[trigger] names@[j])@ != n@,
        },
{
    let mut i: usize = 0;
    while i < names.len()
        invariant
            i <= names@.len(),
            forall|j: int| 0 <= j < i ==> (#[trigger] names@[j])@ != n@,
        decreases names@.len() - i,
    {
        if names[i] == *n {
            return Some(i);
        }
        i = i + 1;
    }
    None
}

/// A name that occurs twice in `names`, if there is one.
pub fn first_repeat(names: &Vec<String>) -> (r: Option<String>)
    ensures
        r is None <==> distinct(views(names@)),
        r matches Some(n) ==> repeated(views(names@), n@),
{
    let ghost v = views(names@);
    let mut i: usize = 0;
    while i < names.len()
        invariant
            v == views(names@),
            i <= names@.len(),
            forall|a: int, b: int| 0 <= a < b < i ==> v[a] != v[b],
        decreases names@.len() - i,
    {
        let mut j: usize = 0;
        while j < i
            invariant
                v == views(names@),
                j <= i < names@.len(),
                forall|a: int| 0 <= a < j ==> v[a] != v[i as int],
            decreases i - j,
        {
            if names[j] == names[i] {
                assert(v[j as int] == v[i as int]);
                return Some(names[i].clone());
            }
            j = j + 1;
        }
        i = i + 1;
    }
    None
}

} // verus!
