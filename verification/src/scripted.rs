use vstd::prelude::*;

use crate::identifier::{is_sentinel_name, key_matches, name_is_sentinel, VarKey, VariableIdentifier};
use crate::services::{GetVariableStatus, VarData, VariableInfo, VariableServices};
use crate::status::ErrorStatus;
use crate::store_model::{lemma_index_of_unique, next_after, store_wf, suffix_after};

verus! {

/// One scripted variable: its key, its data bytes and its attributes.
pub struct ScriptedVariable {
    /// The key of the variable
    pub id: VariableIdentifier,
    /// The data bytes of the variable
    pub data: Vec<u8>,
    /// The attributes of the variable
    pub attributes: u32,
}

/// The keys of a script, in its enumeration order.
pub open spec fn script_keys(s: Seq<ScriptedVariable>) -> Seq<VarKey> {
    s.map_values(|e: ScriptedVariable| e.id@)
}

/// The content a script stores under key `k`, if any.
pub open spec fn script_stored(s: Seq<ScriptedVariable>, k: VarKey) -> Option<VarData> {
    if script_keys(s).contains(k) {
        let i = script_keys(s).index_of(k);
        Some(VarData { data: s[i].data@, attributes: s[i].attributes })
    } else {
        None
    }
}

/// A scripted, in-memory binding of [`VariableServices`]: it serves
/// enumeration, fetch and capacity queries from a fixed list of variables,
/// behaving as the firmware interface does — including reporting an
/// undersized output buffer, by growing it to the required length, instead
/// of writing a name that does not fit.
pub struct ScriptedStore {
    entries: Vec<ScriptedVariable>,
    info: VariableInfo,
}

impl ScriptedStore {
    /// The scripted keys are a well-formed enumeration order and the
    /// scripted capacity report is well formed; established at construction
    /// and never broken, as the store is immutable afterwards.
    #[verifier::type_invariant]
    closed spec fn inv(&self) -> bool {
        &&& store_wf(script_keys(self.entries@))
        &&& self.info.wf()
    }

    /// Build a scripted store from variables in enumeration order and a
    /// capacity report. A script that would break the store's own contract —
    /// a repeated key, the reserved start-of-enumeration name, or an
    /// ill-formed capacity report — is rejected, not corrected.
    pub fn new(entries: Vec<ScriptedVariable>, info: VariableInfo) -> (r: Option<ScriptedStore>)
        ensures
            match r {
                Some(store) => {
                    &&& store_wf(script_keys(entries@))
                    &&& info.wf()
                    &&& store.entries() == script_keys(entries@)
                    &&& forall|k: VarKey| store.stored(k) == script_stored(entries@, k)
                    &&& forall|attributes: u32| store.capacity(attributes) == info
                },
                None => !(store_wf(script_keys(entries@)) && info.wf()),
            },
    {
        if !info.is_well_formed() {
            return None;
        }
        let n = entries.len();
        let mut i: usize = 0;
        while i < n
            invariant
                i <= n,
                n == entries@.len(),
                forall|p: int, q: int|
                    0 <= p < q < i ==> script_keys(entries@)[p] != script_keys(entries@)[q],
                forall|p: int| 0 <= p < i ==> !is_sentinel_name(script_keys(entries@)[p].name),
            decreases n - i,
        {
            if name_is_sentinel(&entries[i].id.name) {
                proof {
                    assert(is_sentinel_name(script_keys(entries@)[i as int].name));
                }
                return None;
            }
            let mut j: usize = 0;
            while j < i
                invariant
                    j <= i < n,
                    n == entries@.len(),
                    forall|p: int|
                        0 <= p < j ==> script_keys(entries@)[p] != script_keys(entries@)[i as int],
                decreases i - j,
            {
                if key_matches(&entries[j].id.name, entries[j].id.namespace, &entries[i].id) {
                    proof {
                        assert(script_keys(entries@)[j as int] == script_keys(entries@)[i as int]);
                    }
                    return None;
                }
                j += 1;
            }
            i += 1;
        }
        Some(ScriptedStore { entries, info })
    }

    /// Position of the first script entry with the given key, if any.
    fn find_key(&self, name: &Vec<u16>, namespace: u128) -> (r: Option<usize>)
        ensures
            match r {
                Some(i) => i < self.entries@.len() && script_keys(self.entries@)[i as int]
                    == (VarKey { name: name@, namespace }),
                None => !script_keys(self.entries@).contains(VarKey { name: name@, namespace }),
            },
    {
        let mut i: usize = 0;
        while i < self.entries.len()
            invariant
                i <= self.entries@.len(),
                forall|j: int|
                    0 <= j < i ==> script_keys(self.entries@)[j] != (VarKey {
                        name: name@,
                        namespace,
                    }),
            decreases self.entries@.len() - i,
        {
            if key_matches(name, namespace, &self.entries[i].id) {
                return Some(i);
            }
            i += 1;
        }
        None
    }
}

impl VariableServices for ScriptedStore {
    closed spec fn entries(&self) -> Seq<VarKey> {
        script_keys(self.entries@)
    }

    closed spec fn stored(&self, k: VarKey) -> Option<VarData> {
        script_stored(self.entries@, k)
    }

    closed spec fn capacity(&self, attributes: u32) -> VariableInfo {
        self.info
    }

    proof fn entries_hold_content(&self, k: VarKey) {
    }

    fn get_next_variable_name(
        &self,
        prev_name: &Vec<u16>,
        prev_namespace: u128,
        out_name: &mut Vec<u16>,
        out_namespace: &mut u128,
    ) -> (r: Result<(), ErrorStatus>) {
        let ghost s = script_keys(self.entries@);
        let ghost prev = VarKey { name: prev_name@, namespace: prev_namespace };
        let next_index: usize = if name_is_sentinel(prev_name) {
            0
        } else {
            match self.find_key(prev_name, prev_namespace) {
                Some(i) => {
                    proof {
                        lemma_index_of_unique(s, prev, i as int);
                    }
                    let n = self.entries.len();
                    proof {
                        assert(i < n);
                    }
                    i + 1
                },
                None => {
                    // Unreachable under the contract: the previous key is the
                    // sentinel or a stored key. Answer as the firmware would
                    // for an invalid anchor.
                    return Err(ErrorStatus::Other(0x8000000000000002u64));
                },
            }
        };
        proof {
            if is_sentinel_name(prev.name) {
                assert(suffix_after(s, prev) =~= s.skip(0));
            }
            assert(suffix_after(s, prev) == s.skip(next_index as int));
        }
        if next_index < self.entries.len() {
            proof {
                assert(s.skip(next_index as int)[0] == s[next_index as int]);
                assert(next_after(s, prev) == Some(s[next_index as int]));
            }
            let needed = self.entries[next_index].id.name.len();
            if out_name.len() < needed {
                // The name does not fit: grow the buffer to the required
                // length — the length itself is the size report — and let the
                // caller retry.
                grow_to(out_name, needed);
                Err(ErrorStatus::BufferTooSmall)
            } else {
                copy_into(out_name, &self.entries[next_index].id.name);
                *out_namespace = self.entries[next_index].id.namespace;
                Ok(())
            }
        } else {
            // The previous key was the last one: enumeration is exhausted.
            Err(ErrorStatus::NotFound)
        }
    }

    fn get_variable(&self, name: &Vec<u16>, namespace: u128, buffer: &mut Vec<u8>) -> (r:
        GetVariableStatus) {
        proof {
            use_type_invariant(self);
        }
        let ghost k = VarKey { name: name@, namespace };
        match self.find_key(name, namespace) {
            Some(i) => {
                proof {
                    lemma_index_of_unique(script_keys(self.entries@), k, i as int);
                }
                let data_size = self.entries[i].data.len();
                let attributes = self.entries[i].attributes;
                if buffer.len() < data_size {
                    GetVariableStatus::BufferTooSmall { data_size, attributes }
                } else {
                    copy_prefix(buffer, &self.entries[i].data);
                    GetVariableStatus::Success { data_size, attributes }
                }
            },
            None => GetVariableStatus::Error(ErrorStatus::NotFound),
        }
    }

    fn query_variable_info(&self, attributes: u32) -> (r: Result<VariableInfo, ErrorStatus>) {
        proof {
            use_type_invariant(self);
        }
        Ok(self.info)
    }
}

/// Make `buffer` exactly `len` code units long, with unspecified contents.
fn grow_to(buffer: &mut Vec<u16>, len: usize)
    ensures
        final(buffer)@.len() == len,
{
    buffer.clear();
    while buffer.len() < len
        invariant
            buffer@.len() <= len,
        decreases len - buffer@.len(),
    {
        buffer.push(0);
    }
}

/// Replace the contents of `dst` with the code units of `src`.
fn copy_into(dst: &mut Vec<u16>, src: &Vec<u16>)
    ensures
        final(dst)@ == src@,
{
    dst.clear();
    let mut i: usize = 0;
    while i < src.len()
        invariant
            i <= src@.len(),
            dst@ == src@.subrange(0, i as int),
        decreases src@.len() - i,
    {
        dst.push(src[i]);
        i += 1;
    }
    proof {
        assert(dst@ =~= src@);
    }
}

/// Copy `src` over the front of `dst`, leaving `dst`'s length unchanged.
fn copy_prefix(dst: &mut Vec<u8>, src: &Vec<u8>)
    requires
        src@.len() <= old(dst)@.len(),
    ensures
        final(dst)@.len() == old(dst)@.len(),
        final(dst)@.subrange(0, src@.len() as int) == src@,
{
    let ghost orig_len = dst@.len();
    let mut i: usize = 0;
    while i < src.len()
        invariant
            i <= src@.len(),
            src@.len() <= dst@.len(),
            dst@.len() == orig_len,
            forall|j: int| 0 <= j < i ==> dst@[j] == src@[j],
        decreases src@.len() - i,
    {
        dst.set(i, src[i]);
        i += 1;
    }
    proof {
        assert(dst@.subrange(0, src@.len() as int) =~= src@);
    }
}

} // verus!
