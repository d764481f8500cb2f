use vstd::prelude::*;

use crate::identifier::{is_sentinel_name, VarKey};

verus! {

/// A well-formed enumeration order of a variable store: the keys are
/// pairwise distinct and none of them carries the reserved
/// start-of-enumeration name.
pub open spec fn store_wf(s: Seq<VarKey>) -> bool {
    &&& forall|i: int, j: int| 0 <= i < j < s.len() ==> s[i] != s[j]
    &&& forall|i: int| 0 <= i < s.len() ==> !is_sentinel_name(s[i].name)
}

/// The keys that enumeration anchored at `anchor` has still to produce, in
/// order: the whole order for the start sentinel, the strict suffix after
/// `anchor` for a stored key, and nothing for a key the store does not hold.
pub open spec fn suffix_after(s: Seq<VarKey>, anchor: VarKey) -> Seq<VarKey> {
    if is_sentinel_name(anchor.name) {
        s
    } else if s.contains(anchor) {
        s.skip(s.index_of(anchor) + 1)
    } else {
        Seq::empty()
    }
}

/// The key that enumeration produces directly after `anchor`, if any.
pub open spec fn next_after(s: Seq<VarKey>, anchor: VarKey) -> Option<VarKey> {
    if suffix_after(s, anchor).len() > 0 {
        Some(suffix_after(s, anchor)[0])
    } else {
        None
    }
}

/// In a well-formed order a contained key has exactly one index, so the
/// chosen index is that one.
pub proof fn lemma_index_of_unique(s: Seq<VarKey>, k: VarKey, i: int)
    requires
        store_wf(s),
        0 <= i < s.len(),
        s[i] == k,
    ensures
        s.index_of(k) == i,
{
    assert(s.contains(k));
    let j = s.index_of(k);
    assert(0 <= j < s.len() && s[j] == k);
    if j < i {
        assert(s[j] != s[i]);
    } else if i < j {
        assert(s[i] != s[j]);
    }
}

/// An iterator anchored at a stored key is left with exactly the strict
/// suffix of the enumeration order that follows that key, and in particular
/// will never produce the anchor itself again.
pub proof fn lemma_suffix_excludes_anchor(s: Seq<VarKey>, k: VarKey)
    requires
        store_wf(s),
        s.contains(k),
    ensures
        suffix_after(s, k) == s.skip(s.index_of(k) + 1),
        !suffix_after(s, k).contains(k),
{
    let i = s.index_of(k);
    assert(0 <= i < s.len() && s[i] == k);
    assert(!is_sentinel_name(k.name));
    let suffix = s.skip(i + 1);
    assert forall|j: int| 0 <= j < suffix.len() implies suffix[j] != k by {
        assert(suffix[j] == s[i + 1 + j]);
        assert(s[i] != s[i + 1 + j]);
    }
}

/// One enumeration step: the first pending key is a stored key, and once it
/// is yielded the keys still to come are exactly the remaining pending keys.
pub proof fn lemma_suffix_step(s: Seq<VarKey>, anchor: VarKey)
    requires
        store_wf(s),
        is_sentinel_name(anchor.name) || s.contains(anchor),
        suffix_after(s, anchor).len() > 0,
    ensures
        s.contains(suffix_after(s, anchor)[0]),
        suffix_after(s, suffix_after(s, anchor)[0]) == suffix_after(s, anchor).skip(1),
{
    let produced = suffix_after(s, anchor)[0];
    if is_sentinel_name(anchor.name) {
        assert(produced == s[0]);
        assert(s.contains(produced));
        lemma_index_of_unique(s, produced, 0);
        assert(suffix_after(s, produced) == s.skip(1));
        assert(suffix_after(s, anchor).skip(1) == s.skip(1));
    } else {
        let i = s.index_of(anchor);
        assert(0 <= i < s.len() && s[i] == anchor);
        assert(produced == s.skip(i + 1)[0]);
        assert(produced == s[i + 1]);
        assert(s.contains(produced));
        lemma_index_of_unique(s, produced, i + 1);
        assert(suffix_after(s, produced) == s.skip(i + 2));
        assert(suffix_after(s, anchor).skip(1) =~= s.skip(i + 2));
    }
}

} // verus!
