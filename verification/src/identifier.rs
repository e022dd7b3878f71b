//! External identifier claims: the (namespace, domain, identifier) triple.

use vstd::prelude::*;

verus! {

/// The mathematical value of an identifier triple.
pub struct IdTuple {
    pub namespace: Seq<char>,
    pub domain: Seq<char>,
    pub identifier: Seq<char>,
}

impl IdTuple {
    /// A triple is complete when none of its three parts is empty.
    pub open spec fn is_complete(self) -> bool {
        self.namespace.len() > 0 && self.domain.len() > 0 && self.identifier.len() > 0
    }
}

/// An external claim that an instrument is known by `identifier` in the scheme
/// given by `namespace` and `domain`. `id` is an opaque handle of the caller.
#[derive(Debug, PartialEq, Eq)]
pub struct Identifier {
    pub id: String,
    pub namespace: String,
    pub domain: String,
    pub identifier: String,
}

/// The mathematical value of an [`Identifier`].
pub struct IdentifierView {
    pub id: Seq<char>,
    pub namespace: Seq<char>,
    pub domain: Seq<char>,
    pub identifier: Seq<char>,
}

impl IdentifierView {
    /// The triple that identifies the claim.
    pub open spec fn tuple(self) -> IdTuple {
        IdTuple { namespace: self.namespace, domain: self.domain, identifier: self.identifier }
    }
}

impl View for Identifier {
    type V = IdentifierView;

    open spec fn view(&self) -> IdentifierView {
        IdentifierView {
            id: self.id@,
            namespace: self.namespace@,
            domain: self.domain@,
            identifier: self.identifier@,
        }
    }
}

impl Clone for Identifier {
    fn clone(&self) -> (r: Self)
        ensures
            r == *self,
    {
        Identifier {
            id: self.id.clone(),
            namespace: self.namespace.clone(),
            domain: self.domain.clone(),
            identifier: self.identifier.clone(),
        }
    }
}

impl Identifier {
    /// Builds an identifier claim without a caller handle.
    pub fn new(namespace: &str, domain: &str, identifier: &str) -> (r: Identifier)
        ensures
            r@.id.len() == 0,
            r@.namespace == namespace@,
            r@.domain == domain@,
            r@.identifier == identifier@,
    {
        Identifier {
            id: String::new(),
            namespace: namespace.to_owned(),
            domain: domain.to_owned(),
            identifier: identifier.to_owned(),
        }
    }

    /// Whether two claims name the same triple.
    pub fn same_tuple(&self, other: &Identifier) -> (r: bool)
        ensures
            r == (self@.tuple() == other@.tuple()),
    {
        self.namespace == other.namespace && self.domain == other.domain && self.identifier
            == other.identifier
    }
}

/// The triples of a sequence of identifier claims, in order.
pub open spec fn tuples_of(ids: Seq<Identifier>) -> Seq<IdTuple> {
    ids.map_values(|i: Identifier| i@.tuple())
}

} // verus!
