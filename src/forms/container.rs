//! The container form: a comma-separated list of providers, each optionally marked `ref`.
use vstd::prelude::*;

use crate::arguments::{grouped_items, split_items, ItemKind};
use crate::error::ExpandError;
use crate::forms::{starts_with_word, starts_with_word_of};
use crate::syntax::{is_expression, parses_as_expression};
use crate::text::{trim, trimmed, views};

verus! {

/// One provider of the form: an expression, installed as a reference provider when marked.
#[derive(Debug)]
pub struct Provider {
    pub ref_token: bool,
    pub provider: String,
}

/// A parsed container form.
#[derive(Debug)]
pub struct Container {
    pub providers: Vec<Provider>,
}

/// One provider item as (reference marker, expression), or `None` if it is malformed.
pub open spec fn provider_item(p: Seq<char>) -> Option<(bool, Seq<char>)> {
    let t = trimmed(p);
    let (marked, e) = if starts_with_word(t, "ref"@) {
        (true, trimmed(t.subrange(3, t.len() as int)))
    } else {
        (false, t)
    };
    if is_expression(e) {
        Some((marked, e))
    } else {
        None
    }
}

/// The views of providers.
pub open spec fn provider_views(v: Seq<Provider>) -> Seq<(bool, Seq<char>)> {
    v.map_values(|p: Provider| (p.ref_token, p.provider@))
}

/// The install call of one provider.
pub open spec fn install_code(p: (bool, Seq<char>)) -> Seq<char> {
    if p.0 {
        "container.install_ref("@ + p.1 + "); "@
    } else {
        "container.install("@ + p.1 + "); "@
    }
}

/// The code of a container form: a block that installs each provider, in order, into a new
/// container and yields it.
pub open spec fn container_code(v: Seq<(bool, Seq<char>)>) -> Seq<char> {
    "{ let mut container = ::inject::Container::new(); "@ + crate::expand::concat_each(
        v.len() as int,
        |k: int| install_code(v[k]),
    ) + "container }"@
}

/// Whether every item is a provider.
pub open spec fn all_providers(it: Seq<Seq<char>>) -> bool {
    forall|k: int| 0 <= k < it.len() ==> (#[trigger] provider_item(it[k])) is Some
}

/// Parses one provider, `[ref] expr`.
pub(crate) fn parse_provider(p: &str) -> (r: Option<Provider>)
    ensures
        match r {
            Some(v) => provider_item(p@) == Some((v.ref_token, v.provider@)),
            None => provider_item(p@) is None,
        },
{
    proof {
        reveal_strlit("ref");
    }
    let t = trim(p);
    let (marked, e) = if starts_with_word_of(t.as_str(), "ref") {
        (true, trim(t.as_str().substring_char(3, t.unicode_len())))
    } else {
        (false, t)
    };
    if parses_as_expression(e.as_str()) {
        Some(Provider { ref_token: marked, provider: e })
    } else {
        None
    }
}

impl Container {
    /// Parses a container form.
    pub fn parse(s: &str) -> (r: Result<Container, ExpandError>)
        ensures
            all_providers(grouped_items(s@, ItemKind::Provider)) ==> (r matches Ok(c)
                && provider_views(c.providers@) == grouped_items(s@, ItemKind::Provider).map_values(
                |p: Seq<char>| provider_item(p)->0,
            )),
            !all_providers(grouped_items(s@, ItemKind::Provider)) ==> r matches Err(
                ExpandError::Malformed(_),
            ),
    {
        let items = split_items(s, ItemKind::Provider);
        let ghost it = grouped_items(s@, ItemKind::Provider);
        let mut providers: Vec<Provider> = Vec::new();
        let mut i: usize = 0;
        while i < items.len()
            invariant
                it == grouped_items(s@, ItemKind::Provider),
                views(items@) == it,
                i <= items@.len(),
                providers@.len() == i,
                forall|k: int| 0 <= k < i ==> (#[trigger] provider_item(it[k])) is Some,
                forall|k: int|
                    0 <= k < i ==> provider_item(it[k]) == Some(
                        ((#[trigger] providers@[k]).ref_token, providers@[k].provider@),
                    ),
            decreases items@.len() - i,
        {
            assert(items@[i as int]@ == it[i as int]);
            match parse_provider(items[i].as_str()) {
                Some(p) => providers.push(p),
                None => {
                    assert(!all_providers(it));
                    return Err(ExpandError::Malformed(String::from_str("expected a provider expression")));
                },
            }
            i = i + 1;
        }
        let c = Container { providers };
        assert(provider_views(c.providers@) =~= it.map_values(|p: Seq<char>| provider_item(p)->0));
        Ok(c)
    }

    /// The code of the form.
    pub fn expand(&self) -> (r: String)
        ensures
            r@ == container_code(provider_views(self.providers@)),
    {
        let ghost v = provider_views(self.providers@);
        let mut r = String::from_str("{ let mut container = ::inject::Container::new(); ");
        let ghost head = r@;
        let mut i: usize = 0;
        while i < self.providers.len()
            invariant
                v == provider_views(self.providers@),
                i <= self.providers@.len(),
                r@ == head + crate::expand::concat_each(i as int, |k: int| install_code(v[k])),
            decreases self.providers@.len() - i,
        {
            let p = &self.providers[i];
            if p.ref_token {
                r.append("container.install_ref(");
            } else {
                r.append("container.install(");
            }
            r.append(p.provider.as_str());
            r.append("); ");
            i = i + 1;
        }
        r.append("container }");
        r
    }
}

} // verus!
