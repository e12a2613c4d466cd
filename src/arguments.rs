//! Annotation arguments: `default(name [= expr], ...)` and `no_inject(name, ...)` clauses.
//!
//! A default-value set maps parameter names to fallback expressions; an exclusion set names
//! parameters that may not fall back to self-construction. Several clauses of one kind are
//! merged, and a name given twice among them is an error.
use vstd::prelude::*;

use crate::error::ExpandError;
use crate::names::{distinct, first_repeat, repeated};
use crate::syntax::{is_expression, is_identifier, parses_as_expression, parses_as_identifier};
use crate::text::{pieces, split_top_level, trim, trimmed, views};

verus! {

/// The expression used for a default argument given without one.
pub open spec fn default_construction() -> Seq<char> {
    "Default::default()"@
}

/// The items of a comma-separated list. An empty last item (after a trailing comma, or in an
/// empty list) is no item.
pub open spec fn list_items(s: Seq<char>) -> Seq<Seq<char>> {
    let p = pieces(s, ',', false);
    if trimmed(p.last()).len() == 0 {
        p.drop_last()
    } else {
        p
    }
}

/// What the items of a comma-separated list of expressions are.
#[derive(Debug, Clone, Copy, PartialEq, Eq, Structural)]
pub enum ItemKind {
    /// `name` or `name = expr`.
    DefaultArgument,
    /// `member: expr`.
    KeywordArgument,
    /// `[ref] expr`.
    Provider,
}

/// Whether `t` is a well-formed item of kind `kind`.
pub open spec fn item_ok(kind: ItemKind, t: Seq<char>) -> bool {
    match kind {
        ItemKind::DefaultArgument => default_item(t) is Some,
        ItemKind::KeywordArgument => crate::forms::call::kwarg_item(t) is Some,
        ItemKind::Provider => crate::forms::container::provider_item(t) is Some,
    }
}

/// The items made of the pieces `ps` from `i` on, `cur` holding the pieces taken so far
/// that do not yet form an item: a piece is joined, with the comma between them, to the
/// pieces before it until they form a well-formed item (a comma inside generic arguments
/// such as `f::<A, B>()` separates no items). Pieces left over at the end form a last item.
pub open spec fn regroup(ps: Seq<Seq<char>>, i: int, cur: Option<Seq<char>>, kind: ItemKind) -> Seq<Seq<char>>
    decreases ps.len() - i,
{
    if i >= ps.len() || i < 0 {
        match cur {
            Some(c) => seq![c],
            None => Seq::empty(),
        }
    } else {
        let c = match cur {
            Some(c) => c + ","@ + ps[i],
            None => ps[i],
        };
        if item_ok(kind, c) {
            seq![c] + regroup(ps, i + 1, None, kind)
        } else {
            regroup(ps, i + 1, Some(c), kind)
        }
    }
}

/// The items of kind `kind` in the comma-separated list `s`.
pub open spec fn grouped_items(s: Seq<char>, kind: ItemKind) -> Seq<Seq<char>> {
    regroup(list_items(s), 0, None, kind)
}

/// The index of the first `c` in `s` at or after `k`, or the length of `s` if there is none.
pub open spec fn find_from(s: Seq<char>, c: char, k: int) -> int
    decreases s.len() - k,
{
    if k >= s.len() {
        s.len() as int
    } else if s[k] == c {
        k
    } else {
        find_from(s, c, k + 1)
    }
}

/// `find_from` gives an index between `k` and the length of `s`.
pub proof fn find_from_bounds(s: Seq<char>, c: char, k: int)
    requires
        0 <= k <= s.len(),
    ensures
        k <= find_from(s, c, k) <= s.len(),
    decreases s.len() - k,
{
    if k < s.len() && s[k] != c {
        find_from_bounds(s, c, k + 1);
    }
}

/// One default argument, `name` or `name = expr`.
pub open spec fn default_item(p: Seq<char>) -> Option<(Seq<char>, Seq<char>)> {
    let i = find_from(p, '=', 0);
    if i < p.len() {
        let name = trimmed(p.subrange(0, i));
        let value = trimmed(p.subrange(i + 1, p.len() as int));
        if is_identifier(name) && is_expression(value) {
            Some((name, value))
        } else {
            None
        }
    } else {
        let name = trimmed(p);
        if is_identifier(name) {
            Some((name, default_construction()))
        } else {
            None
        }
    }
}

/// Whether every item is a well-formed default argument.
pub open spec fn all_default_items(it: Seq<Seq<char>>) -> bool {
    forall|k: int| 0 <= k < it.len() ==> (#[trigger] default_item(it[k])) is Some
}

/// The default arguments listed in `s`, or `None` if one of them is malformed.
pub open spec fn default_items(s: Seq<char>) -> Option<Seq<(Seq<char>, Seq<char>)>> {
    let it = grouped_items(s, ItemKind::DefaultArgument);
    if all_default_items(it) {
        Some(it.map_values(|p: Seq<char>| default_item(p)->0))
    } else {
        None
    }
}

/// The names listed in `s`, or `None` if one of them is not an identifier.
pub open spec fn name_items(s: Seq<char>) -> Option<Seq<Seq<char>>> {
    let it = list_items(s);
    if forall|k: int| 0 <= k < it.len() ==> is_identifier(#[trigger] trimmed(it[k])) {
        Some(it.map_values(|p: Seq<char>| trimmed(p)))
    } else {
        None
    }
}

/// The names of default arguments.
pub open spec fn default_names(d: Seq<(Seq<char>, Seq<char>)>) -> Seq<Seq<char>> {
    d.map_values(|e: (Seq<char>, Seq<char>)| e.0)
}

/// One default argument.
#[derive(Debug)]
pub struct DefaultArg {
    pub name: String,
    pub value: String,
}

/// A default-value set: parameter names with the expression each falls back to.
#[derive(Debug)]
pub struct DefaultArgs {
    pub fields: Vec<DefaultArg>,
}

impl View for DefaultArgs {
    type V = Seq<(Seq<char>, Seq<char>)>;

    open spec fn view(&self) -> Seq<(Seq<char>, Seq<char>)> {
        self.fields@.map_values(|a: DefaultArg| (a.name@, a.value@))
    }
}

/// An exclusion set: parameters that may not fall back to self-construction.
#[derive(Debug)]
pub struct NoInjectArgs {
    pub fields: Vec<String>,
}

impl View for NoInjectArgs {
    type V = Seq<Seq<char>>;

    open spec fn view(&self) -> Seq<Seq<char>> {
        views(self.fields@)
    }
}

/// The items of the comma-separated list `s`.
pub fn split_list(s: &str) -> (r: Vec<String>)
    ensures
        views(r@) == list_items(s@),
{
    let mut p = split_top_level(s, ',', false);
    let ghost all = views(p@);
    let n = p.len();
    assert(all.len() == p@.len());
    let last = trim(p[n - 1].as_str());
    if last.unicode_len() == 0 {
        p.pop();
        assert(views(p@) =~= all.drop_last());
    }
    p
}

/// The index of the first `c` in `s` at or after `k`, or the length of `s`.
pub(crate) fn find_char(s: &str, c: char) -> (r: usize)
    ensures
        r == find_from(s@, c, 0),
{
    let n = s.unicode_len();
    let mut i: usize = 0;
    while i < n && s.get_char(i) != c
        invariant
            n == s@.len(),
            i <= n,
            find_from(s@, c, 0) == find_from(s@, c, i as int),
        decreases n - i,
    {
        i = i + 1;
    }
    i
}

/// Parses one default argument.
fn parse_default_item(p: &str) -> (r: Option<DefaultArg>)
    ensures
        match r {
            Some(a) => default_item(p@) == Some((a.name@, a.value@)),
            None => default_item(p@) is None,
        },
{
    let n = p.unicode_len();
    let i = find_char(p, '=');
    if i < n {
        let name = trim(p.substring_char(0, i));
        let value = trim(p.substring_char(i + 1, n));
        if parses_as_identifier(name.as_str()) && parses_as_expression(value.as_str()) {
            Some(DefaultArg { name, value })
        } else {
            None
        }
    } else {
        let name = trim(p);
        if parses_as_identifier(name.as_str()) {
            Some(DefaultArg { name, value: String::from_str("Default::default()") })
        } else {
            None
        }
    }
}

/// Whether `t` is a well-formed item of kind `kind`.
fn item_checks(kind: ItemKind, t: &str) -> (r: bool)
    ensures
        r == item_ok(kind, t@),
{
    match kind {
        ItemKind::DefaultArgument => parse_default_item(t).is_some(),
        ItemKind::KeywordArgument => crate::forms::call::parse_kwarg(t).is_some(),
        ItemKind::Provider => crate::forms::container::parse_provider(t).is_some(),
    }
}

/// The items of kind `kind` in the comma-separated list `s`.
pub fn split_items(s: &str, kind: ItemKind) -> (r: Vec<String>)
    ensures
        views(r@) == grouped_items(s@, kind),
{
    let pieces = split_list(s);
    let ghost ps = views(pieces@);
    let mut r: Vec<String> = Vec::new();
    let mut cur: Option<String> = None;
    let mut i: usize = 0;
    while i < pieces.len()
        invariant
            ps == views(pieces@),
            ps == list_items(s@),
            i <= pieces@.len(),
            views(r@) + regroup(
                ps,
                i as int,
                match cur {
                    Some(c) => Some(c@),
                    None => None,
                },
                kind,
            ) == grouped_items(s@, kind),
        decreases pieces@.len() - i,
    {
        assert(pieces@[i as int]@ == ps[i as int]);
        let c = match cur {
            Some(mut c) => {
                c.append(",");
                c.append(pieces[i].as_str());
                c
            },
            None => pieces[i].clone(),
        };
        if item_checks(kind, c.as_str()) {
            let ghost before = r@;
            r.push(c);
            assert(views(r@) =~= views(before) + seq![c@]);
            cur = None;
        } else {
            cur = Some(c);
        }
        i = i + 1;
    }
    match cur {
        Some(c) => {
            let ghost before = r@;
            r.push(c);
            assert(views(r@) =~= views(before) + seq![c@]);
        },
        None => {
            assert(views(r@) =~= views(r@) + Seq::<Seq<char>>::empty());
        },
    }
    r
}

impl DefaultArgs {
    /// The names of the default arguments, in order.
    pub fn fields(&self) -> (r: Vec<String>)
        ensures
            views(r@) == default_names(self@),
    {
        let mut r: Vec<String> = Vec::new();
        let mut i: usize = 0;
        while i < self.fields.len()
            invariant
                i <= self.fields@.len(),
                r@.len() == i,
                forall|k: int| 0 <= k < i ==> (#[trigger] r@[k])@ == self.fields@[k].name@,
            decreases self.fields@.len() - i,
        {
            r.push(self.fields[i].name.clone());
            i = i + 1;
        }
        assert(views(r@) =~= default_names(self@));
        r
    }

    /// Parses the contents of a `default(...)` clause.
    pub fn parse(s: &str) -> (r: Result<DefaultArgs, ExpandError>)
        ensures
            match default_items(s@) {
                None => r matches Err(ExpandError::Malformed(_)),
                Some(d) => if distinct(default_names(d)) {
                    r matches Ok(a) && a@ == d
                } else {
                    r matches Err(ExpandError::Duplicate(n)) && repeated(default_names(d), n@)
                },
            },
    {
        let items = split_items(s, ItemKind::DefaultArgument);
        let ghost it = grouped_items(s@, ItemKind::DefaultArgument);
        let mut fields: Vec<DefaultArg> = Vec::new();
        let mut i: usize = 0;
        while i < items.len()
            invariant
                it == grouped_items(s@, ItemKind::DefaultArgument),
                views(items@) == it,
                i <= items@.len(),
                fields@.len() == i,
                forall|k: int| 0 <= k < i ==> (#[trigger] default_item(it[k])) is Some,
                forall|k: int|
                    0 <= k < i ==> default_item(it[k]) == Some(
                        ((#[trigger] fields@[k]).name@, fields@[k].value@),
                    ),
            decreases items@.len() - i,
        {
            assert(items@[i as int]@ == it[i as int]);
            match parse_default_item(items[i].as_str()) {
                Some(a) => fields.push(a),
                None => {
                    assert(default_item(it[i as int]) is None);
                    assert(!all_default_items(it));
                    return Err(ExpandError::Malformed(String::from_str("expected `name` or `name = expr`")));
                },
            }
            i = i + 1;
        }
        let d = DefaultArgs { fields };
        assert(default_items(s@) is Some);
        assert(d@ =~= default_items(s@)->0);
        match first_repeat(&d.fields()) {
            Some(n) => Err(ExpandError::Duplicate(n)),
            None => Ok(d),
        }
    }

    /// Joins two default-value sets; a name in both is an error.
    pub fn merge(self, other: DefaultArgs) -> (r: Result<DefaultArgs, ExpandError>)
        ensures
            distinct(default_names(self@ + other@)) ==> (r matches Ok(m) && m@ == self@ + other@),
            !distinct(default_names(self@ + other@)) ==> (r matches Err(ExpandError::Duplicate(n))
                && repeated(default_names(self@ + other@), n@)),
    {
        let mut fields = self.fields;
        let mut more = other.fields;
        let ghost a = fields@;
        let ghost b = more@;
        fields.append(&mut more);
        let m = DefaultArgs { fields };
        assert(m@ =~= self@ + other@);
        match first_repeat(&m.fields()) {
            Some(n) => Err(ExpandError::Duplicate(n)),
            None => Ok(m),
        }
    }
}

/// The default arguments of several sets, in order.
pub open spec fn all_defaults(v: Seq<DefaultArgs>) -> Seq<(Seq<char>, Seq<char>)>
    decreases v.len(),
{
    if v.len() == 0 {
        Seq::empty()
    } else {
        all_defaults(v.drop_last()) + v.last()@
    }
}

/// The names of several exclusion sets, in order.
pub open spec fn all_excluded(v: Seq<NoInjectArgs>) -> Seq<Seq<char>>
    decreases v.len(),
{
    if v.len() == 0 {
        Seq::empty()
    } else {
        all_excluded(v.drop_last()) + v.last()@
    }
}

/// Merges default-value sets into one; none at all gives `None`.
pub fn merge_defaults(sets: Vec<DefaultArgs>) -> (r: Result<Option<DefaultArgs>, ExpandError>)
    ensures
        sets@.len() == 0 ==> r matches Ok(None),
        sets@.len() > 0 && distinct(default_names(all_defaults(sets@))) ==> (r matches Ok(Some(m))
            && m@ == all_defaults(sets@)),
        sets@.len() > 0 && !distinct(default_names(all_defaults(sets@))) ==> (r matches Err(
            ExpandError::Duplicate(n),
        ) && repeated(default_names(all_defaults(sets@)), n@)),
{
    let ghost all = sets@;
    let mut sets = sets;
    if sets.len() == 0 {
        return Ok(None);
    }
    let mut merged = DefaultArgs { fields: Vec::new() };
    let mut rest: Vec<DefaultArgs> = Vec::new();
    let mut i: usize = 0;
    let n = sets.len();
    while i < n
        invariant
            n == all.len(),
            i <= n,
            sets@ == all.subrange(i as int, n as int),
            merged@ == all_defaults(all.subrange(0, i as int)),
        decreases n - i,
    {
        let next = sets.remove(0);
        assert(sets@ =~= all.subrange(i as int + 1, n as int));
        assert(all.subrange(0, i as int + 1).drop_last() =~= all.subrange(0, i as int));
        let mut fields = merged.fields;
        let mut more = next.fields;
        fields.append(&mut more);
        merged = DefaultArgs { fields };
        assert(merged@ =~= all_defaults(all.subrange(0, i as int)) + next@);
        i = i + 1;
    }
    assert(all.subrange(0, n as int) =~= all);
    match first_repeat(&merged.fields()) {
        Some(d) => Err(ExpandError::Duplicate(d)),
        None => Ok(Some(merged)),
    }
}

/// Whether every item is an identifier.
pub open spec fn all_name_items(it: Seq<Seq<char>>) -> bool {
    forall|k: int| 0 <= k < it.len() ==> is_identifier(#[trigger] trimmed(it[k]))
}

impl NoInjectArgs {
    /// Parses the contents of a `no_inject(...)` clause.
    pub fn parse(s: &str) -> (r: Result<NoInjectArgs, ExpandError>)
        ensures
            match name_items(s@) {
                None => r matches Err(ExpandError::Malformed(_)),
                Some(d) => if distinct(d) {
                    r matches Ok(a) && a@ == d
                } else {
                    r matches Err(ExpandError::Duplicate(n)) && repeated(d, n@)
                },
            },
    {
        let items = split_list(s);
        let ghost it = list_items(s@);
        let mut fields: Vec<String> = Vec::new();
        let mut i: usize = 0;
        while i < items.len()
            invariant
                it == list_items(s@),
                views(items@) == it,
                i <= items@.len(),
                fields@.len() == i,
                forall|k: int| 0 <= k < i ==> is_identifier(#[trigger] trimmed(it[k])),
                forall|k: int| 0 <= k < i ==> (#[trigger] fields@[k])@ == trimmed(it[k]),
            decreases items@.len() - i,
        {
            assert(items@[i as int]@ == it[i as int]);
            let name = trim(items[i].as_str());
            if !parses_as_identifier(name.as_str()) {
                assert(!all_name_items(it));
                return Err(ExpandError::Malformed(String::from_str("expected identifier")));
            }
            fields.push(name);
            i = i + 1;
        }
        let d = NoInjectArgs { fields };
        assert(all_name_items(it));
        assert(d@ =~= name_items(s@)->0);
        match first_repeat(&d.fields) {
            Some(n) => Err(ExpandError::Duplicate(n)),
            None => Ok(d),
        }
    }

    /// Joins two exclusion sets; a name in both is an error.
    pub fn merge(self, other: NoInjectArgs) -> (r: Result<NoInjectArgs, ExpandError>)
        ensures
            distinct(self@ + other@) ==> (r matches Ok(m) && m@ == self@ + other@),
            !distinct(self@ + other@) ==> (r matches Err(ExpandError::Duplicate(n)) && repeated(
                self@ + other@,
                n@,
            )),
    {
        let mut fields = self.fields;
        let mut more = other.fields;
        fields.append(&mut more);
        let m = NoInjectArgs { fields };
        assert(m@ =~= self@ + other@);
        match first_repeat(&m.fields) {
            Some(n) => Err(ExpandError::Duplicate(n)),
            None => Ok(m),
        }
    }
}

/// Merges exclusion sets into one; none at all gives `None`.
pub fn merge_excluded(sets: Vec<NoInjectArgs>) -> (r: Result<Option<NoInjectArgs>, ExpandError>)
    ensures
        sets@.len() == 0 ==> r matches Ok(None),
        sets@.len() > 0 && distinct(all_excluded(sets@)) ==> (r matches Ok(Some(m)) && m@
            == all_excluded(sets@)),
        sets@.len() > 0 && !distinct(all_excluded(sets@)) ==> (r matches Err(
            ExpandError::Duplicate(n),
        ) && repeated(all_excluded(sets@), n@)),
{
    let ghost all = sets@;
    let mut sets = sets;
    if sets.len() == 0 {
        return Ok(None);
    }
    let mut merged = NoInjectArgs { fields: Vec::new() };
    let mut i: usize = 0;
    let n = sets.len();
    while i < n
        invariant
            n == all.len(),
            i <= n,
            sets@ == all.subrange(i as int, n as int),
            merged@ == all_excluded(all.subrange(0, i as int)),
        decreases n - i,
    {
        let next = sets.remove(0);
        assert(sets@ =~= all.subrange(i as int + 1, n as int));
        assert(all.subrange(0, i as int + 1).drop_last() =~= all.subrange(0, i as int));
        let mut fields = merged.fields;
        let mut more = next.fields;
        fields.append(&mut more);
        merged = NoInjectArgs { fields };
        assert(merged@ =~= all_excluded(all.subrange(0, i as int)) + next@);
        i = i + 1;
    }
    assert(all.subrange(0, n as int) =~= all);
    match first_repeat(&merged.fields) {
        Some(d) => Err(ExpandError::Duplicate(d)),
        None => Ok(Some(merged)),
    }
}

/// The kind and contents of one annotation clause: `default(...)` gives `(true, contents)`,
/// `no_inject(...)` gives `(false, contents)`, anything else `None`.
pub open spec fn clause(c: Seq<char>) -> Option<(bool, Seq<char>)> {
    let t = trimmed(c);
    if t.len() >= 7 && t.subrange(0, 7) == "default"@ && group_of(t.subrange(7, t.len() as int)) is Some {
        Some((true, group_of(t.subrange(7, t.len() as int))->0))
    } else if t.len() >= 9 && t.subrange(0, 9) == "no_inject"@ && group_of(
        t.subrange(9, t.len() as int),
    ) is Some {
        Some((false, group_of(t.subrange(9, t.len() as int))->0))
    } else {
        None
    }
}

/// The contents of a parenthesised group `( ... )`, white space around it allowed.
pub open spec fn group_of(s: Seq<char>) -> Option<Seq<char>> {
    let t = trimmed(s);
    if t.len() >= 2 && t[0] == '(' && t.last() == ')' {
        Some(t.subrange(1, t.len() - 1))
    } else {
        None
    }
}

/// The parsed contents of the clause `c`: default arguments, or names to exclude.
pub open spec fn clause_args(c: Seq<char>) -> Option<(bool, Seq<(Seq<char>, Seq<char>)>, Seq<Seq<char>>)> {
    match clause(c) {
        Some((true, inner)) => match default_items(inner) {
            Some(d) => if distinct(default_names(d)) {
                Some((true, d, Seq::empty()))
            } else {
                None
            },
            None => None,
        },
        Some((false, inner)) => match name_items(inner) {
            Some(n) => if distinct(n) {
                Some((false, Seq::empty(), n))
            } else {
                None
            },
            None => None,
        },
        None => None,
    }
}

/// Whether `c` is a well-formed `default(...)` clause.
pub open spec fn is_default_clause(c: Seq<char>) -> bool {
    match clause_args(c) {
        Some((kind, _, _)) => kind,
        None => false,
    }
}

/// Whether `c` is a well-formed `no_inject(...)` clause.
pub open spec fn is_excluded_clause(c: Seq<char>) -> bool {
    match clause_args(c) {
        Some((kind, _, _)) => !kind,
        None => false,
    }
}

/// Whether every clause is well formed, with no name twice inside it.
pub open spec fn all_clauses(cl: Seq<Seq<char>>) -> bool {
    forall|k: int| 0 <= k < cl.len() ==> (#[trigger] clause_args(cl[k])) is Some
}

/// The default arguments of the clauses, in order.
pub open spec fn clause_defaults(cl: Seq<Seq<char>>) -> Seq<(Seq<char>, Seq<char>)>
    decreases cl.len(),
{
    if cl.len() == 0 {
        Seq::empty()
    } else {
        clause_defaults(cl.drop_last()) + clause_args(cl.last()).unwrap().1
    }
}

/// The excluded names of the clauses, in order.
pub open spec fn clause_excluded(cl: Seq<Seq<char>>) -> Seq<Seq<char>>
    decreases cl.len(),
{
    if cl.len() == 0 {
        Seq::empty()
    } else {
        clause_excluded(cl.drop_last()) + clause_args(cl.last()).unwrap().2
    }
}

/// The annotation arguments of an injectable signature.
#[derive(Debug)]
pub struct InjectArgs {
    pub default_args: Option<DefaultArgs>,
    pub no_inject_args: Option<NoInjectArgs>,
}

/// The default arguments of an annotation.
pub open spec fn defaults_of(a: InjectArgs) -> Seq<(Seq<char>, Seq<char>)> {
    match a.default_args {
        Some(d) => d@,
        None => Seq::empty(),
    }
}

/// The excluded names of an annotation.
pub open spec fn excluded_of(a: InjectArgs) -> Seq<Seq<char>> {
    match a.no_inject_args {
        Some(d) => d@,
        None => Seq::empty(),
    }
}

/// Parses the text after a prefix of `k` characters as a parenthesised group.
fn parse_group(t: &str, k: usize) -> (r: Option<String>)
    requires
        k <= t@.len(),
    ensures
        match r {
            Some(g) => group_of(t@.subrange(k as int, t@.len() as int)) == Some(g@),
            None => group_of(t@.subrange(k as int, t@.len() as int)) is None,
        },
{
    let g = trim(t.substring_char(k, t.unicode_len()));
    let n = g.unicode_len();
    if n >= 2 && g.get_char(0) == '(' && g.get_char(n - 1) == ')' {
        Some(g.substring_char(1, n - 1).to_owned())
    } else {
        None
    }
}

/// Whether `t` starts with the characters of `p`.
fn starts_with(t: &str, p: &str) -> (r: bool)
    ensures
        r == (t@.len() >= p@.len() && t@.subrange(0, p@.len() as int) == p@),
{
    let n = p.unicode_len();
    if t.unicode_len() < n {
        return false;
    }
    let mut i: usize = 0;
    while i < n
        invariant
            n == p@.len(),
            n <= t@.len(),
            i <= n,
            forall|j: int| 0 <= j < i ==> t@[j] == p@[j],
        decreases n - i,
    {
        if t.get_char(i) != p.get_char(i) {
            assert(t@.subrange(0, n as int)[i as int] != p@[i as int]);
            return false;
        }
        i = i + 1;
    }
    assert(t@.subrange(0, n as int) =~= p@);
    true
}

/// Parses one annotation clause.
fn parse_clause(c: &str) -> (r: Result<(Option<DefaultArgs>, Option<NoInjectArgs>), ExpandError>)
    ensures
        match r {
            Ok((Some(d), None)) => clause_args(c@) == Some((true, d@, Seq::<Seq<char>>::empty())),
            Ok((None, Some(n))) => clause_args(c@) == Some(
                (false, Seq::<(Seq<char>, Seq<char>)>::empty(), n@),
            ),
            Ok(_) => false,
            Err(e) => clause_args(c@) is None && (e is Malformed || e is Duplicate),
        },
{
    let t = trim(c);
    proof {
        reveal_strlit("default");
        reveal_strlit("no_inject");
    }
    if starts_with(t.as_str(), "default") {
        if let Some(g) = parse_group(t.as_str(), 7) {
            return match DefaultArgs::parse(g.as_str()) {
                Ok(d) => Ok((Some(d), None)),
                Err(e) => Err(e),
            };
        }
    }
    if starts_with(t.as_str(), "no_inject") {
        if let Some(g) = parse_group(t.as_str(), 9) {
            return match NoInjectArgs::parse(g.as_str()) {
                Ok(n) => Ok((None, Some(n))),
                Err(e) => Err(e),
            };
        }
    }
    Err(ExpandError::Malformed(String::from_str("expected `default(...)` or `no_inject(...)`")))
}

impl InjectArgs {
    /// Parses the arguments of an annotation: zero or more `default(...)` and
    /// `no_inject(...)` clauses, separated by commas. Clauses of one kind are merged.
    pub fn parse(s: &str) -> (r: Result<InjectArgs, ExpandError>)
        ensures
            r is Ok <==> (all_clauses(list_items(s@)) && distinct(
                default_names(clause_defaults(list_items(s@))),
            ) && distinct(clause_excluded(list_items(s@)))),
            r matches Ok(a) ==> defaults_of(a) == clause_defaults(list_items(s@)) && excluded_of(a)
                == clause_excluded(list_items(s@)),
            r matches Ok(a) ==> (a.default_args is None <==> forall|k: int|
                0 <= k < list_items(s@).len() ==> !is_default_clause(#[trigger] list_items(s@)[k])),
            r matches Ok(a) ==> (a.no_inject_args is None <==> forall|k: int|
                0 <= k < list_items(s@).len() ==> !is_excluded_clause(#[trigger] list_items(s@)[k])),
            r matches Err(e) ==> (e is Malformed || e is Duplicate),
    {
        let clauses = split_list(s);
        let ghost cl = list_items(s@);
        let mut defaults: Vec<DefaultArgs> = Vec::new();
        let mut excluded: Vec<NoInjectArgs> = Vec::new();
        let mut i: usize = 0;
        while i < clauses.len()
            invariant
                cl == list_items(s@),
                views(clauses@) == cl,
                i <= clauses@.len(),
                forall|k: int| 0 <= k < i ==> (#[trigger] clause_args(cl[k])) is Some,
                all_defaults(defaults@) == clause_defaults(cl.subrange(0, i as int)),
                all_excluded(excluded@) == clause_excluded(cl.subrange(0, i as int)),
                (defaults@.len() == 0) == (forall|k: int|
                    0 <= k < i ==> !is_default_clause(#[trigger] cl[k])),
                (excluded@.len() == 0) == (forall|k: int|
                    0 <= k < i ==> !is_excluded_clause(#[trigger] cl[k])),
            decreases clauses@.len() - i,
        {
            assert(clauses@[i as int]@ == cl[i as int]);
            assert(cl.subrange(0, i as int + 1).drop_last() =~= cl.subrange(0, i as int));
            match parse_clause(clauses[i].as_str()) {
                Ok((Some(d), _)) => {
                    assert(is_default_clause(cl[i as int]));
                    let ghost before = defaults@;
                    defaults.push(d);
                    assert(defaults@.drop_last() == before);
                },
                Ok((_, Some(n))) => {
                    assert(is_excluded_clause(cl[i as int]));
                    let ghost before = excluded@;
                    excluded.push(n);
                    assert(excluded@.drop_last() == before);
                },
                Ok(_) => {},
                Err(e) => {
                    assert(!all_clauses(cl));
                    return Err(e);
                },
            }
            i = i + 1;
        }
        assert(cl.subrange(0, i as int) =~= cl);
        let default_args = match merge_defaults(defaults) {
            Ok(d) => d,
            Err(e) => {
                return Err(e);
            },
        };
        let no_inject_args = match merge_excluded(excluded) {
            Ok(n) => n,
            Err(e) => {
                return Err(e);
            },
        };
        Ok(InjectArgs { default_args, no_inject_args })
    }
}

} // verus!
