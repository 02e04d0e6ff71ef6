//! Identities (account / contract addresses) and the authorization context
//! of a single invocation.
//!
//! An `Address` is an opaque identity handle: the registry never inspects it
//! beyond equality. An `AuthContext` records which identities have proven
//! control over themselves for the current invocation; the host's signature
//! verification decides what goes into it, the registry only asks membership.

use vstd::prelude::*;

verus! {

/// An opaque identity handle, compared only for equality.
pub struct Address {
    value: String,
}

impl View for Address {
    type V = Seq<char>;

    closed spec fn view(&self) -> Seq<char> {
        self.value@
    }
}

impl Address {
    /// Wrap a host-format address string.
    pub fn new(value: String) -> (a: Address)
        ensures
            a@ == value@,
    {
        Address { value }
    }

    /// A copy of this identity, equal to the original.
    pub fn duplicate(&self) -> (a: Address)
        ensures
            a == *self,
    {
        Address { value: self.value.clone() }
    }

    /// The underlying host-format address string.
    pub fn as_string(&self) -> (s: &String)
        ensures
            s@ == self@,
    {
        &self.value
    }
}

impl PartialEq for Address {
    fn eq(&self, other: &Address) -> (r: bool) {
        self.value == other.value
    }
}

impl vstd::std_specs::cmp::PartialEqSpecImpl for Address {
    open spec fn obeys_eq_spec() -> bool {
        true
    }

    open spec fn eq_spec(&self, other: &Address) -> bool {
        self@ == other@
    }
}

impl Eq for Address {}

/// The set of identities that have authorized the current invocation.
pub struct AuthContext {
    authorized: Vec<Address>,
}

impl AuthContext {
    /// Does this context hold authorization proof for the identity `id`?
    pub closed spec fn authorizes(&self, id: Seq<char>) -> bool {
        exists|i: int| 0 <= i < self.authorized@.len() && self.authorized@[i]@ == id
    }

    /// A context in which no identity has authorized anything.
    pub fn empty() -> (c: AuthContext)
        ensures
            forall|id: Seq<char>| !c.authorizes(id),
    {
        AuthContext { authorized: Vec::new() }
    }

    /// Record that `a` has proven control over itself for this invocation.
    pub fn grant(&mut self, a: Address)
        ensures
            final(self).authorizes(a@),
            forall|id: Seq<char>|
                final(self).authorizes(id) <==> (old(self).authorizes(id) || id == a@),
    {
        let ghost n = self.authorized@.len() as int;
        self.authorized.push(a);
        proof {
            assert(self.authorized@[n]@ == a@);
            assert forall|id: Seq<char>|
                self.authorizes(id) implies (old(self).authorizes(id) || id == a@) by {
                let i = choose|i: int|
                    0 <= i < self.authorized@.len() && self.authorized@[i]@ == id;
                if i < n {
                    assert(old(self).authorized@[i]@ == id);
                }
            };
            assert forall|id: Seq<char>|
                (old(self).authorizes(id) || id == a@) implies self.authorizes(id) by {
                if old(self).authorizes(id) {
                    let i = choose|i: int|
                        0 <= i < old(self).authorized@.len() && old(self).authorized@[i]@ == id;
                    assert(self.authorized@[i]@ == id);
                }
            };
        }
    }

    /// The check behind `require_auth`: is `a` among the identities that have
    /// authorized this invocation?
    pub fn is_authorized(&self, a: &Address) -> (r: bool)
        ensures
            r == self.authorizes(a@),
    {
        let mut i: usize = 0;
        while i < self.authorized.len()
            invariant
                i <= self.authorized.len(),
                forall|j: int| 0 <= j < i ==> self.authorized@[j]@ != a@,
            decreases self.authorized.len() - i,
        {
            if self.authorized[i] == *a {
                return true;
            }
            i += 1;
        }
        false
    }
}

} // verus!
