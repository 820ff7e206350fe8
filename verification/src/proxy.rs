//! The kinds of proxying that the runtime allows, and what each lets through.
use vstd::prelude::*;

verus! {

/// The type used to represent the kinds of proxying allowed.
#[derive(Clone, Copy, Debug, PartialEq, Eq, Structural, PartialOrd, Ord)]
pub enum ProxyType {
    /// A proxy that may make any call on behalf of its delegator.
    Any,
}

/// Whether a proxy of kind `t` may make a call: every kind lets every call
/// through.
pub open spec fn spec_filter(t: ProxyType) -> bool {
    match t {
        ProxyType::Any => true,
    }
}

/// Whether a proxy of kind `t` may do at least everything that one of kind
/// `o` may: a kind covers itself, and `Any` covers every kind.
pub open spec fn spec_is_superset(t: ProxyType, o: ProxyType) -> bool {
    t == o || t == ProxyType::Any
}

impl Default for ProxyType {
    /// The default kind of proxy is `Any`.
    fn default() -> (r: Self)
        ensures
            r == ProxyType::Any,
    {
        ProxyType::Any
    }
}

impl ProxyType {
    /// Whether a proxy of this kind may dispatch the call `_c`.
    pub fn filter<C>(&self, _c: &C) -> (r: bool)
        ensures
            r == spec_filter(*self),
    {
        match self {
            ProxyType::Any => true,
        }
    }

    /// Whether this kind of proxy matches at least everything that `o` does.
    pub fn is_superset(&self, o: &Self) -> (r: bool)
        ensures
            r == spec_is_superset(*self, *o),
    {
        if *self == *o {
            true
        } else {
            match self {
                ProxyType::Any => true,
            }
        }
    }
}

/// Every kind of proxy is a superset of itself.
pub proof fn lemma_is_superset_reflexive(t: ProxyType)
    ensures
        spec_is_superset(t, t),
{
}

/// `Any` is a superset of every kind of proxy.
pub proof fn lemma_any_is_superset_of_all(o: ProxyType)
    ensures
        spec_is_superset(ProxyType::Any, o),
{
}

/// A superset lets through every call that the kind it covers lets through.
pub proof fn lemma_superset_filters_more(t: ProxyType, o: ProxyType)
    requires
        spec_is_superset(t, o),
        spec_filter(o),
    ensures
        spec_filter(t),
{
}

/// Being a superset is transitive.
pub proof fn lemma_is_superset_transitive(a: ProxyType, b: ProxyType, c: ProxyType)
    requires
        spec_is_superset(a, b),
        spec_is_superset(b, c),
    ensures
        spec_is_superset(a, c),
{
}

/// A proxy of kind `Any` lets every call through.
pub proof fn lemma_any_filters_everything()
    ensures
        spec_filter(ProxyType::Any),
{
}

} // verus!
