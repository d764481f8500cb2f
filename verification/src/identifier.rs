use vstd::prelude::*;

verus! {

/// The mathematical key of a stored variable: its name as a sequence of
/// 16-bit code units in the store's native encoding, and its 128-bit
/// namespace. `(name, namespace)` is the store's natural key.
pub ghost struct VarKey {
    pub name: Seq<u16>,
    pub namespace: u128,
}

/// The reserved name that anchors enumeration at the start of the store: a
/// single zero code unit in isolation. It is never the name of a stored
/// variable, and the namespace beside it is ignored.
pub open spec fn is_sentinel_name(name: Seq<u16>) -> bool {
    name == seq![0u16]
}

/// Uniquely identifies a stored variable.
#[derive(Debug)]
pub struct VariableIdentifier {
    /// The name of the variable, as 16-bit code units (not treated as UTF-8)
    pub name: Vec<u16>,
    /// The 128-bit namespace of the variable
    pub namespace: u128,
}

impl View for VariableIdentifier {
    type V = VarKey;

    open spec fn view(&self) -> VarKey {
        VarKey { name: self.name@, namespace: self.namespace }
    }
}

/// Code-unit-wise equality of two names.
pub fn names_match(a: &Vec<u16>, b: &Vec<u16>) -> (r: bool)
    ensures
        r == (a@ == b@),
{
    if a.len() != b.len() {
        return false;
    }
    let mut i: usize = 0;
    while i < a.len()
        invariant
            i <= a.len(),
            a@.len() == b@.len(),
            forall|j: int| 0 <= j < i ==> a@[j] == b@[j],
        decreases a.len() - i,
    {
        if a[i] != b[i] {
            return false;
        }
        i += 1;
    }
    proof {
        assert(a@ =~= b@);
    }
    true
}

/// Whether `(name, namespace)` is exactly the key of `id`: code-unit-wise
/// match of the names and exact match of the namespaces.
pub fn key_matches(name: &Vec<u16>, namespace: u128, id: &VariableIdentifier) -> (r: bool)
    ensures
        r == (VarKey { name: name@, namespace } == id@),
{
    namespace == id.namespace && names_match(name, &id.name)
}

/// Whether `name` is the reserved start-of-enumeration name.
pub fn name_is_sentinel(name: &Vec<u16>) -> (r: bool)
    ensures
        r == is_sentinel_name(name@),
{
    if name.len() == 1 && name[0] == 0 {
        proof {
            assert(name@ =~= seq![0u16]);
        }
        true
    } else {
        proof {
            if name@.len() != 1 {
                assert(name@ != seq![0u16]);
            } else {
                assert(name@[0] != seq![0u16][0]);
            }
        }
        false
    }
}

impl VariableIdentifier {
    /// Exact-match equality of two identifiers: both the name and the
    /// namespace must match; no ordering relation is defined.
    pub fn same_key(&self, other: &VariableIdentifier) -> (r: bool)
        ensures
            r == (self@ == other@),
    {
        key_matches(&self.name, self.namespace, other)
    }
}

} // verus!
