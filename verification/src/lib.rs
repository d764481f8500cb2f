//! Enumeration of firmware variable names, and the result model for
//! single-variable fetch and storage-capacity queries.
//!
//! The heart of the crate is [`VariableNameIterator`], a lazy, fallible
//! cursor over the keys of a firmware variable store. The store itself is
//! reached only through the [`VariableServices`] collaborator trait, whose
//! contracts pin down what each firmware operation may report;
//! [`ScriptedStore`] is a verified in-memory binding of that trait.

mod identifier;
mod iterator;
mod scripted;
mod services;
mod status;
mod store_model;

pub use identifier::{
    is_sentinel_name, key_matches, name_is_sentinel, names_match, VarKey, VariableIdentifier,
};
pub use iterator::{lemma_exhausted_iterator_yielded_anchor, VariableNameIterator};
pub use scripted::{script_keys, script_stored, ScriptedStore, ScriptedVariable};
pub use services::{
    fetch_reports, lemma_fetch_sizes_agree, GetVariableStatus, VarData, VariableInfo,
    VariableServices,
};
pub use status::ErrorStatus;
pub use store_model::{
    lemma_index_of_unique, lemma_suffix_excludes_anchor, lemma_suffix_step, next_after, store_wf,
    suffix_after,
};
