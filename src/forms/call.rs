//! The call form: `(container-expr, function-name [, kwargs = { name: expr, ... }])`.
use vstd::prelude::*;

use crate::arguments::{grouped_items, split_items, ItemKind};
use crate::error::ExpandError;
use crate::forms::{leading, leading_expression, pair_of, split_pair};
use crate::syntax::{
    is_expression, is_identifier, parses_as_expression, parses_as_identifier,
};
use crate::text::{pieces, split_top_level, trim, trimmed, views};

verus! {

/// One keyword argument, `member: expr`.
#[derive(Debug)]
pub struct Kwarg {
    pub member: String,
    pub expr: String,
}

/// The keyword arguments of a `kwargs = { ... }` clause.
#[derive(Debug)]
pub struct Kwargs {
    pub fields: Vec<Kwarg>,
}

/// A parsed call form.
#[derive(Debug)]
pub struct Call {
    /// The expression giving the container.
    pub ident: String,
    /// The annotated function to call.
    pub func: String,
    /// The keyword arguments, if a `kwargs = { ... }` clause is given.
    pub kwargs: Option<Kwargs>,
}

/// The views of keyword arguments.
pub open spec fn kwarg_views(v: Seq<Kwarg>) -> Seq<(Seq<char>, Seq<char>)> {
    v.map_values(|k: Kwarg| (k.member@, k.expr@))
}

/// One keyword argument `member: expr`, or `None` if the item is not one.
pub open spec fn kwarg_item(p: Seq<char>) -> Option<(Seq<char>, Seq<char>)> {
    match pair_of(p, ':') {
        Some((m, e)) => if is_identifier(m) && is_expression(e) {
            Some((m, e))
        } else {
            None
        },
        None => None,
    }
}

/// The contents of a braced group `{ ... }`, white space around it allowed.
pub open spec fn braced(s: Seq<char>) -> Option<Seq<char>> {
    let t = trimmed(s);
    if t.len() >= 2 && t[0] == '{' && t.last() == '}' {
        Some(t.subrange(1, t.len() - 1))
    } else {
        None
    }
}

/// Whether every item is a keyword argument.
pub open spec fn all_kwarg_items(it: Seq<Seq<char>>) -> bool {
    forall|j: int| 0 <= j < it.len() ==> (#[trigger] kwarg_item(it[j])) is Some
}

/// The keyword arguments of a `kwargs = { ... }` clause, or `None` if it is malformed.
pub open spec fn kwargs_clause(c: Seq<char>) -> Option<Seq<(Seq<char>, Seq<char>)>> {
    match pair_of(c, '=') {
        Some((k, g)) => if k == "kwargs"@ && braced(g) is Some && all_kwarg_items(
            grouped_items(braced(g)->0, ItemKind::KeywordArgument),
        ) {
            Some(
                grouped_items(braced(g)->0, ItemKind::KeywordArgument).map_values(
                    |p: Seq<char>| kwarg_item(p)->0,
                ),
            )
        } else {
            None
        },
        None => None,
    }
}

/// The call form in `s` as (container expression, function, keyword arguments), or `None`
/// if `s` does not follow the form.
pub open spec fn call_form(s: Seq<char>) -> Option<
    (Seq<char>, Seq<char>, Option<Seq<(Seq<char>, Seq<char>)>>),
> {
    match leading(s) {
        None => None,
        Some((e, rest)) => {
            let p = pieces(rest, ',', false);
            let f = trimmed(p[0]);
            let kw = if p.len() == 2 && trimmed(p[1]).len() > 0 {
                kwargs_clause(p[1])
            } else {
                None
            };
            if p.len() <= 2 && is_identifier(f) && (p.len() == 1 || trimmed(p[1]).len() == 0
                || kw is Some) {
                Some((e, f, kw))
            } else {
                None
            }
        },
    }
}

/// The keyword arguments as they are forwarded: `, member: expr` for each.
pub open spec fn forwarded(k: Seq<(Seq<char>, Seq<char>)>) -> Seq<char> {
    crate::expand::concat_each(k.len() as int, |j: int| ", "@ + k[j].0 + ": "@ + k[j].1)
}

/// The code of a call form: an invocation of the function's call-wrapper macro.
pub open spec fn call_code(e: Seq<char>, f: Seq<char>, k: Option<Seq<(Seq<char>, Seq<char>)>>) -> Seq<char> {
    "__inject_"@ + f + "!("@ + e + match k {
        Some(k) => forwarded(k),
        None => Seq::empty(),
    } + ")"@
}

/// Parses the contents of a braced group.
fn parse_braced(s: &str) -> (r: Option<String>)
    ensures
        match r {
            Some(g) => braced(s@) == Some(g@),
            None => braced(s@) is None,
        },
{
    let g = trim(s);
    let n = g.unicode_len();
    if n >= 2 && g.get_char(0) == '{' && g.get_char(n - 1) == '}' {
        Some(g.substring_char(1, n - 1).to_owned())
    } else {
        None
    }
}

/// Parses one keyword argument `member: expr`.
pub(crate) fn parse_kwarg(p: &str) -> (r: Option<Kwarg>)
    ensures
        match r {
            Some(k) => kwarg_item(p@) == Some((k.member@, k.expr@)),
            None => kwarg_item(p@) is None,
        },
{
    match split_pair(p, ':') {
        Some((m, e)) => {
            if parses_as_identifier(m.as_str()) && parses_as_expression(e.as_str()) {
                Some(Kwarg { member: m, expr: e })
            } else {
                None
            }
        },
        None => None,
    }
}

impl Kwargs {
    /// Parses a `kwargs = { member: expr, ... }` clause.
    pub fn parse(c: &str) -> (r: Option<Kwargs>)
        ensures
            match r {
                Some(k) => kwargs_clause(c@) == Some(kwarg_views(k.fields@)),
                None => kwargs_clause(c@) is None,
            },
    {
        proof {
            reveal_strlit("kwargs");
        }
        let (k, g) = match split_pair(c, '=') {
            Some(x) => x,
            None => {
                return None;
            },
        };
        if !k.eq(&String::from_str("kwargs")) {
            return None;
        }
        let inner = match parse_braced(g.as_str()) {
            Some(i) => i,
            None => {
                return None;
            },
        };
        let items = split_items(inner.as_str(), ItemKind::KeywordArgument);
        let ghost it = grouped_items(inner@, ItemKind::KeywordArgument);
        let mut r: Vec<Kwarg> = Vec::new();
        let mut i: usize = 0;
        while i < items.len()
            invariant
                it == grouped_items(inner@, ItemKind::KeywordArgument),
                pair_of(c@, '=') == Some((k@, g@)),
                k@ == "kwargs"@,
                braced(g@) == Some(inner@),
                views(items@) == it,
                i <= items@.len(),
                r@.len() == i,
                forall|j: int| 0 <= j < i ==> (#[trigger] kwarg_item(it[j])) is Some,
                forall|j: int| 0 <= j < i ==> kwarg_item(it[j]) == Some(((#[trigger] r@[j]).member@, r@[j].expr@)),
            decreases items@.len() - i,
        {
            assert(items@[i as int]@ == it[i as int]);
            match parse_kwarg(items[i].as_str()) {
                Some(kw) => r.push(kw),
                None => {
                    assert(kwarg_item(it[i as int]) is None);
                    assert(!all_kwarg_items(it));
                    return None;
                },
            }
            i = i + 1;
        }
        assert(kwarg_views(r@) =~= kwargs_clause(c@)->0);
        Some(Kwargs { fields: r })
    }
}

impl Kwarg {
    /// The code of the keyword argument as it is forwarded: `member: expr`.
    pub fn to_code(&self) -> (r: String)
        ensures
            r@ == self.member@ + ": "@ + self.expr@,
    {
        let mut r = self.member.clone();
        r.append(": ");
        r.append(self.expr.as_str());
        r
    }
}

impl Call {
    /// Parses a call form.
    pub fn parse(s: &str) -> (r: Result<Call, ExpandError>)
        ensures
            match call_form(s@) {
                Some((e, f, k)) => r matches Ok(c) && c.ident@ == e && c.func@ == f && match c.kwargs {
                    Some(v) => k == Some(kwarg_views(v.fields@)),
                    None => k is None,
                },
                None => r matches Err(ExpandError::Malformed(_)),
            },
    {
        let (ident, rest) = match leading_expression(s) {
            Some(x) => x,
            None => {
                return Err(ExpandError::Malformed(String::from_str("expected `container, function [, kwargs = { ... }]`")));
            },
        };
        let p = split_top_level(rest.as_str(), ',', false);
        let ghost ps = pieces(rest@, ',', false);
        assert(p@.len() == ps.len());
        if p.len() > 2 {
            return Err(ExpandError::Malformed(String::from_str("expected `container, function [, kwargs = { ... }]`")));
        }
        assert(p@[0]@ == ps[0]);
        let func = trim(p[0].as_str());
        let mut kwargs: Option<Kwargs> = None;
        if p.len() == 2 {
            assert(p@[1]@ == ps[1]);
            let c = trim(p[1].as_str());
            if c.unicode_len() > 0 {
                kwargs = Kwargs::parse(p[1].as_str());
                if kwargs.is_none() {
                    return Err(ExpandError::Malformed(String::from_str("expected `kwargs = { name: expr, ... }`")));
                }
            }
        }
        if !parses_as_identifier(func.as_str()) {
            return Err(ExpandError::Malformed(String::from_str("expected `container, function [, kwargs = { ... }]`")));
        }
        Ok(Call { ident, func, kwargs })
    }

    /// The code of the form: the function's call-wrapper macro, given the container and the
    /// keyword arguments.
    pub fn expand(&self) -> (r: String)
        ensures
            r@ == call_code(
                self.ident@,
                self.func@,
                match self.kwargs {
                    Some(v) => Some(kwarg_views(v.fields@)),
                    None => None,
                },
            ),
    {
        let mut r = String::from_str("__inject_");
        r.append(self.func.as_str());
        r.append("!(");
        r.append(self.ident.as_str());
        if let Some(kw) = &self.kwargs {
            let k = &kw.fields;
            let ghost head = r@;
            let ghost kv = kwarg_views(k@);
            let mut i: usize = 0;
            while i < k.len()
                invariant
                    kv == kwarg_views(k@),
                    i <= k@.len(),
                    r@ == head + crate::expand::concat_each(i as int, |j: int| ", "@ + kv[j].0 + ": "@ + kv[j].1),
                decreases k@.len() - i,
            {
                r.append(", ");
                r.append(k[i].member.as_str());
                r.append(": ");
                r.append(k[i].expr.as_str());
                i = i + 1;
            }
        }
        r.append(")");
        r
    }
}

} // verus!
