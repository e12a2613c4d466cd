//! The get form: `(container-expr, [&]TypePath [, create: bool])`.
use vstd::prelude::*;

use crate::error::ExpandError;
use crate::forms::{leading, leading_expression, pair_of, split_pair};
use crate::input::{last_segment, last_segment_of};
use crate::syntax::{is_path, parses_as_path};
use crate::text::{pieces, split_top_level, trim, trimmed};

verus! {

/// A parsed get form.
#[derive(Debug)]
pub struct Get {
    /// The expression giving the container.
    pub expr: String,
    /// Whether a reference is resolved rather than a value.
    pub reference: bool,
    /// The type to resolve.
    pub ident: String,
    /// Whether self-construction is allowed, if the form says.
    pub create: Option<bool>,
}

/// The value of a `create: bool` clause.
pub open spec fn create_clause(c: Seq<char>) -> Option<bool> {
    match pair_of(c, ':') {
        Some((k, v)) => if k == "create"@ && v == "true"@ {
            Some(true)
        } else if k == "create"@ && v == "false"@ {
            Some(false)
        } else {
            None
        },
        None => None,
    }
}

/// The reference marker and the path of a `[&]TypePath` piece.
pub open spec fn target_of(p: Seq<char>) -> (bool, Seq<char>) {
    let t = trimmed(p);
    if t.len() > 0 && t[0] == '&' {
        (true, trimmed(t.subrange(1, t.len() as int)))
    } else {
        (false, t)
    }
}

/// The get form in `s` as (container expression, reference marker, path, create flag), or
/// `None` if `s` does not follow the form. The container expression is the leading
/// expression; angle brackets are counted only in the type that follows.
pub open spec fn get_form(s: Seq<char>) -> Option<(Seq<char>, bool, Seq<char>, Option<bool>)> {
    match leading(s) {
        None => None,
        Some((e, rest)) => {
            let p = pieces(rest, ',', true);
            let (reference, path) = target_of(p[0]);
            let create = if p.len() == 2 && trimmed(p[1]).len() > 0 {
                create_clause(p[1])
            } else {
                None
            };
            if p.len() <= 2 && is_path(path) && (p.len() == 1 || trimmed(p[1]).len() == 0
                || create is Some) {
                Some((e, reference, path, create))
            } else {
                None
            }
        },
    }
}

/// Whether a value resolution may fall back to self-construction: `create` allows it and
/// the type is not a shared handle (`Arc`), which has no self-construction of its own.
pub open spec fn falls_back(path: Seq<char>, create: Option<bool>) -> bool {
    create != Some(false) && last_segment(path) != "Arc"@
}

/// The code of a get form.
pub open spec fn get_code(expr: Seq<char>, reference: bool, path: Seq<char>, create: Option<bool>) -> Seq<char> {
    if reference {
        "{ use ::inject::{Inject, InjectExt}; ("@ + expr + ").get_ref::<"@ + path + ">() }"@
    } else {
        "{ use ::inject::{Inject, InjectExt}; ("@ + expr + ").get::<"@ + path + ">()"@ + if falls_back(
            path,
            create,
        ) {
            ".or_else(|_| <"@ + path + ">::inject("@ + expr + "))"@
        } else {
            Seq::empty()
        } + " }"@
    }
}

/// Parses a `create: bool` clause.
fn parse_create(c: &str) -> (r: Option<bool>)
    ensures
        r == create_clause(c@),
{
    proof {
        reveal_strlit("create");
        reveal_strlit("true");
        reveal_strlit("false");
    }
    match split_pair(c, ':') {
        Some((k, v)) => {
            if k.eq(&String::from_str("create")) {
                if v.eq(&String::from_str("true")) {
                    Some(true)
                } else if v.eq(&String::from_str("false")) {
                    Some(false)
                } else {
                    None
                }
            } else {
                None
            }
        },
        None => None,
    }
}

impl Get {
    /// Parses a get form.
    pub fn parse(s: &str) -> (r: Result<Get, ExpandError>)
        ensures
            match get_form(s@) {
                Some((e, reference, path, create)) => r matches Ok(g) && g.expr@ == e
                    && g.reference == reference && g.ident@ == path && g.create == create,
                None => r matches Err(ExpandError::Malformed(_)),
            },
    {
        let (expr, rest) = match leading_expression(s) {
            Some(x) => x,
            None => {
                return Err(ExpandError::Malformed(String::from_str("expected `container, Type [, create: bool]`")));
            },
        };
        let p = split_top_level(rest.as_str(), ',', true);
        let ghost ps = pieces(rest@, ',', true);
        assert(p@.len() == ps.len());
        if p.len() > 2 {
            return Err(ExpandError::Malformed(String::from_str("expected `container, Type [, create: bool]`")));
        }
        assert(p@[0]@ == ps[0]);
        let t = trim(p[0].as_str());
        let m = t.unicode_len();
        let (reference, ident) = if m > 0 && t.get_char(0) == '&' {
            (true, trim(t.as_str().substring_char(1, m)))
        } else {
            (false, t)
        };
        let mut create: Option<bool> = None;
        if p.len() == 2 {
            assert(p@[1]@ == ps[1]);
            let c = trim(p[1].as_str());
            if c.unicode_len() > 0 {
                create = parse_create(p[1].as_str());
                if create.is_none() {
                    return Err(ExpandError::Malformed(String::from_str("expected `create: bool`")));
                }
            }
        }
        if !parses_as_path(ident.as_str()) {
            return Err(ExpandError::Malformed(String::from_str("expected `container, Type [, create: bool]`")));
        }
        Ok(Get { expr, reference, ident, create })
    }

    /// Whether a missing value provider falls back to self-construction.
    pub fn can_fallback(&self) -> (r: bool)
        ensures
            r == falls_back(self.ident@, self.create),
    {
        proof {
            reveal_strlit("Arc");
        }
        let can_create = match self.create {
            Some(b) => b,
            None => true,
        };
        can_create && !last_segment_of(self.ident.as_str()).eq(&String::from_str("Arc"))
    }

    /// The code of the form: resolve a reference, or resolve a value and, where allowed,
    /// fall back to the type's self-construction.
    pub fn expand(&self) -> (r: String)
        ensures
            r@ == get_code(self.expr@, self.reference, self.ident@, self.create),
    {
        let mut r = String::from_str("{ use ::inject::{Inject, InjectExt}; (");
        r.append(self.expr.as_str());
        if self.reference {
            r.append(").get_ref::<");
            r.append(self.ident.as_str());
            r.append(">() }");
        } else {
            r.append(").get::<");
            r.append(self.ident.as_str());
            r.append(">()");
            if self.can_fallback() {
                r.append(".or_else(|_| <");
                r.append(self.ident.as_str());
                r.append(">::inject(");
                r.append(self.expr.as_str());
                r.append("))");
            }
            r.append(" }");
        }
        r
    }
}

} // verus!
