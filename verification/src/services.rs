use vstd::prelude::*;

use crate::identifier::{is_sentinel_name, VarKey};
use crate::status::ErrorStatus;
use crate::store_model::{next_after, store_wf};

verus! {

/// Aggregate storage capacity for one class of variable attributes.
#[derive(Clone, Copy, Debug, PartialEq, Eq, Structural)]
pub struct VariableInfo {
    /// The maximum size of the storage space available for variables with the attributes specified
    pub maximum_variable_storage_size: u64,
    /// The remaining size of the storage space available for variables with the attributes specified
    pub remaining_variable_storage_size: u64,
    /// The maximum size of an individual variable with the attributes specified
    pub maximum_variable_size: u64,
}

impl VariableInfo {
    /// A well-formed capacity report: neither the remaining storage nor the
    /// largest admissible single variable can exceed the total storage.
    pub open spec fn wf(&self) -> bool {
        &&& self.remaining_variable_storage_size <= self.maximum_variable_storage_size
        &&& self.maximum_variable_size <= self.maximum_variable_storage_size
    }

    /// Runtime check of [`VariableInfo::wf`]; a response that fails it is a
    /// breach of the collaborator's contract, not something to correct.
    pub fn is_well_formed(&self) -> (r: bool)
        ensures
            r == self.wf(),
    {
        self.remaining_variable_storage_size <= self.maximum_variable_storage_size
            && self.maximum_variable_size <= self.maximum_variable_storage_size
    }
}

/// The stored content of one variable: its data bytes and its attributes.
pub ghost struct VarData {
    pub data: Seq<u8>,
    pub attributes: u32,
}

/// Status of one single-shot fetch-by-name call.
#[derive(Debug, PartialEq, Eq, Structural)]
pub enum GetVariableStatus {
    /// The variable was unable to be retrieved
    Error(ErrorStatus),
    /// The variable was found, but the buffer provided wasn't large enough
    BufferTooSmall {
        /// The size of a buffer needed to retrieve the variable data
        data_size: usize,
        /// The attributes of the variable
        attributes: u32,
    },
    /// The variable was successfully retrieved
    Success {
        /// The size of the variable data retrieved
        data_size: usize,
        /// The attributes of the variable
        attributes: u32,
    },
}

/// What one fetch outcome may report of a variable whose stored content is
/// `stored` (`None` when the store holds no such variable): the sizing and
/// attribute figures always describe the stored content exactly, whether or
/// not data was copied; the not-found status is reserved for a missing
/// variable; and the undersized-buffer condition is never wrapped in
/// `Error`, it has its own outcome.
pub open spec fn fetch_reports(r: GetVariableStatus, stored: Option<VarData>) -> bool {
    match r {
        GetVariableStatus::Error(status) => {
            &&& status !is BufferTooSmall
            &&& (status is NotFound ==> stored is None)
        },
        GetVariableStatus::BufferTooSmall { data_size, attributes } => {
            stored matches Some(v) && data_size == v.data.len() && attributes == v.attributes
        },
        GetVariableStatus::Success { data_size, attributes } => {
            stored matches Some(v) && data_size == v.data.len() && attributes == v.attributes
        },
    }
}

/// A sizing report and a successful fetch of the same, unmodified variable
/// agree on its size: the `data_size` of a `BufferTooSmall` outcome equals
/// the `data_size` a subsequent `Success` outcome reports, both being the
/// exact length of the stored data.
pub proof fn lemma_fetch_sizes_agree(
    first: GetVariableStatus,
    second: GetVariableStatus,
    stored: VarData,
)
    requires
        fetch_reports(first, Some(stored)),
        fetch_reports(second, Some(stored)),
        first is BufferTooSmall,
        second is Success,
    ensures
        first matches GetVariableStatus::BufferTooSmall { data_size: reported, .. } ==> (
        second matches GetVariableStatus::Success { data_size: copied, .. } ==> reported == copied),
{
}

/// The collaborator capability set this core depends on: the three firmware
/// variable operations, bound to real runtime services in production and to
/// a scripted sequence under test. The spec functions are the binding's
/// mathematical model; the contracts below say what every binding must make
/// of them.
pub trait VariableServices {
    /// The keys of the store, in its enumeration order. The order is
    /// whatever the store presents; this core never sorts it.
    spec fn entries(&self) -> Seq<VarKey>;

    /// The stored content of the variable with key `k`, if any.
    spec fn stored(&self, k: VarKey) -> Option<VarData>;

    /// The capacity report for the storage class selected by `attributes`.
    spec fn capacity(&self, attributes: u32) -> VariableInfo;

    /// The enumeration order lists exactly the keys that hold content.
    proof fn entries_hold_content(&self, k: VarKey)
        ensures
            self.entries().contains(k) <==> self.stored(k) is Some,
    ;

    /// Given the previous key (the sentinel name meaning "start of the
    /// store"), write the key that follows it in store order into the output
    /// parameters. Exhaustion is the distinguished not-found status; an
    /// undersized output buffer is reported by growing the buffer to the
    /// required length without writing the name, so that the caller can
    /// retry; any other failure promises nothing about the outputs.
    fn get_next_variable_name(
        &self,
        prev_name: &Vec<u16>,
        prev_namespace: u128,
        out_name: &mut Vec<u16>,
        out_namespace: &mut u128,
    ) -> (r: Result<(), ErrorStatus>)
        requires
            store_wf(self.entries()),
            is_sentinel_name(prev_name@) || self.entries().contains(
                VarKey { name: prev_name@, namespace: prev_namespace },
            ),
        ensures
            ({
                let nxt = next_after(
                    self.entries(),
                    VarKey { name: prev_name@, namespace: prev_namespace },
                );
                match r {
                    Ok(()) => nxt matches Some(k) && final(out_name)@ == k.name
                        && *final(out_namespace) == k.namespace,
                    Err(ErrorStatus::NotFound) => nxt is None,
                    Err(ErrorStatus::BufferTooSmall) => nxt matches Some(k) && old(out_name)@.len()
                        < k.name.len() && final(out_name)@.len() == k.name.len(),
                    Err(ErrorStatus::Other(_)) => true,
                }
            }),
    ;

    /// Fetch the variable with the given name and namespace into `buffer`,
    /// whose length is the caller's buffer capacity. Data is copied only on
    /// success; an undersized buffer is reported, with the exact size a
    /// retry must allocate, without copying. This path never retries on the
    /// caller's behalf.
    fn get_variable(&self, name: &Vec<u16>, namespace: u128, buffer: &mut Vec<u8>) -> (r:
        GetVariableStatus)
        ensures
            fetch_reports(r, self.stored(VarKey { name: name@, namespace })),
            ({
                let stored = self.stored(VarKey { name: name@, namespace });
                match r {
                    GetVariableStatus::Success { data_size, .. } => {
                        &&& old(buffer)@.len() >= data_size
                        &&& final(buffer)@.len() == old(buffer)@.len()
                        &&& final(buffer)@.subrange(0, data_size as int) == stored.unwrap().data
                    },
                    GetVariableStatus::BufferTooSmall { data_size, .. } => {
                        &&& old(buffer)@.len() < data_size
                        &&& final(buffer)@ == old(buffer)@
                    },
                    GetVariableStatus::Error(_) => final(buffer)@ == old(buffer)@,
                }
            }),
    ;

    /// Query the storage capacity for one attribute class. A well-formed
    /// response satisfies [`VariableInfo::wf`]; one that does not would be a
    /// breach of this contract.
    fn query_variable_info(&self, attributes: u32) -> (r: Result<VariableInfo, ErrorStatus>)
        ensures
            r matches Ok(info) ==> info == self.capacity(attributes) && info.wf(),
    ;
}

} // verus!
