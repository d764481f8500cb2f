use vstd::prelude::*;

use crate::identifier::{is_sentinel_name, VarKey, VariableIdentifier};
use crate::services::VariableServices;
use crate::status::ErrorStatus;
use crate::store_model::{
    lemma_suffix_excludes_anchor, lemma_suffix_step, next_after, store_wf, suffix_after,
};

verus! {

/// A lazy, fallible, one-shot cursor over the variable names of a store.
///
/// The iterator is anchored either at the start of the store
/// ([`VariableNameIterator::new_from_first`]) or at an already stored key
/// ([`VariableNameIterator::new_from_variable`]), and each
/// [`advance`](VariableNameIterator::advance) asks the collaborator for the
/// key that follows the current one. The two name buffers swap roles on
/// every step, so a step allocates only when the next name outgrows the
/// scratch buffer. Exhaustion is a successful end-of-sequence signal; any
/// other collaborator failure is fatal and ends consumption.
pub struct VariableNameIterator<'a, R: VariableServices> {
    rs: &'a R,
    current: VariableIdentifier,
    next: VariableIdentifier,
    finished: bool,
    started: bool,
    yielded: Ghost<Seq<VarKey>>,
    anchor_suffix: Ghost<Seq<VarKey>>,
    failed: Ghost<bool>,
}

impl<'a, R: VariableServices> VariableNameIterator<'a, R> {
    /// The enumeration order of the underlying store.
    pub closed spec fn store(&self) -> Seq<VarKey> {
        self.rs.entries()
    }

    /// The key currently under the cursor.
    pub closed spec fn current_key(&self) -> VarKey {
        self.current@
    }

    /// The keys this iterator has yet to yield, in order.
    pub closed spec fn remaining(&self) -> Seq<VarKey> {
        if self.finished {
            Seq::empty()
        } else {
            suffix_after(self.store(), self.current@)
        }
    }

    /// The keys this iterator has yielded so far, in order.
    pub closed spec fn yielded_keys(&self) -> Seq<VarKey> {
        self.yielded@
    }

    /// The full sequence of keys the iterator was anchored to yield: the
    /// whole store for a start anchor, the strict suffix after the anchor
    /// for a known stored key.
    pub closed spec fn anchored(&self) -> Seq<VarKey> {
        self.anchor_suffix@
    }

    /// Whether the explicit end-of-sequence signal has been reached.
    pub closed spec fn is_exhausted(&self) -> bool {
        self.finished
    }

    /// Whether an item is currently available: an advance has produced one
    /// and the end has not been reached.
    pub closed spec fn has_item(&self) -> bool {
        self.started && !self.finished
    }

    /// Whether a fatal collaborator error has been reported. The state after
    /// a fatal error is not exhaustion; a caller must stop consuming.
    pub closed spec fn has_failed(&self) -> bool {
        self.failed@
    }

    /// Well-formed iterator state: the store's order is well formed, and as
    /// long as no fatal error has struck, the cursor is a valid anchor and
    /// the keys yielded so far followed by the keys still to come are
    /// exactly the anchored sequence, in order.
    pub closed spec fn wf(&self) -> bool {
        &&& store_wf(self.store())
        &&& !self.failed@ ==> {
            &&& self.finished || is_sentinel_name(self.current@.name) || self.store().contains(
                self.current@,
            )
            &&& self.yielded@ + self.remaining() == self.anchor_suffix@
            &&& self.has_item() ==> self.yielded@.len() > 0 && self.current@ == self.yielded@.last()
            &&& !self.started ==> self.yielded@.len() == 0
        }
    }

    /// Produce a new iterator anchored at the beginning of the variable
    /// list: at the reserved sentinel name, with an all-zero namespace
    /// (ignored by the collaborator beside the sentinel).
    pub fn new_from_first(runtime_services: &'a R) -> (r: Self)
        requires
            store_wf(runtime_services.entries()),
        ensures
            r.wf(),
            !r.has_failed(),
            !r.is_exhausted(),
            !r.has_item(),
            r.store() == runtime_services.entries(),
            r.yielded_keys().len() == 0,
            r.anchored() == runtime_services.entries(),
            r.remaining() == runtime_services.entries(),
    {
        // The previous name is the sentinel: a single zero code unit.
        let mut prev_name: Vec<u16> = Vec::with_capacity(1);
        prev_name.push(0);
        let r = VariableNameIterator {
            rs: runtime_services,
            current: VariableIdentifier { name: prev_name, namespace: 0 },
            next: VariableIdentifier { name: Vec::new(), namespace: 0 },
            finished: false,
            started: false,
            yielded: Ghost(Seq::empty()),
            anchor_suffix: Ghost(runtime_services.entries()),
            failed: Ghost(false),
        };
        proof {
            assert(r.current@.name =~= seq![0u16]);
            assert(r.yielded@ + r.remaining() =~= r.remaining());
        }
        r
    }

    /// Produce a new iterator anchored at a given, already stored variable.
    /// The first advance yields the key that follows it in store order; the
    /// anchor itself is never yielded.
    pub fn new_from_variable(name: &[u16], namespace: u128, runtime_services: &'a R) -> (r: Self)
        requires
            store_wf(runtime_services.entries()),
            runtime_services.entries().contains(VarKey { name: name@, namespace }),
        ensures
            r.wf(),
            !r.has_failed(),
            !r.is_exhausted(),
            !r.has_item(),
            r.store() == runtime_services.entries(),
            r.yielded_keys().len() == 0,
            r.anchored() == suffix_after(
                runtime_services.entries(),
                VarKey { name: name@, namespace },
            ),
            r.remaining() == r.anchored(),
            !r.anchored().contains(VarKey { name: name@, namespace }),
    {
        let anchor_name = copy_code_units(name);
        let r = VariableNameIterator {
            rs: runtime_services,
            current: VariableIdentifier { name: anchor_name, namespace },
            next: VariableIdentifier { name: Vec::new(), namespace: 0 },
            finished: false,
            started: false,
            yielded: Ghost(Seq::empty()),
            anchor_suffix: Ghost(
                suffix_after(runtime_services.entries(), VarKey { name: name@, namespace }),
            ),
            failed: Ghost(false),
        };
        proof {
            lemma_suffix_excludes_anchor(
                runtime_services.entries(),
                VarKey { name: name@, namespace },
            );
            assert(r.yielded@ + r.remaining() =~= r.remaining());
        }
        r
    }

    /// Advance the cursor to the next variable name.
    ///
    /// Once exhausted, advancing again any number of times is a no-op that
    /// keeps reporting success. Otherwise one advance either yields the
    /// first pending key, turns the collaborator's not-found signal into
    /// exhaustion — at which point the keys yielded are exactly the anchored
    /// sequence — or surfaces a fatal error verbatim, after which the
    /// iterator must not be advanced again.
    pub fn advance(&mut self) -> (r: Result<(), ErrorStatus>)
        requires
            old(self).wf(),
            !old(self).has_failed(),
        ensures
            final(self).wf(),
            final(self).store() == old(self).store(),
            final(self).anchored() == old(self).anchored(),
            old(self).is_exhausted() ==> r == Ok::<(), ErrorStatus>(()),
            match r {
                Ok(()) => {
                    &&& !final(self).has_failed()
                    &&& (old(self).is_exhausted() ==> *final(self) == *old(self))
                    &&& (!old(self).is_exhausted() ==> {
                        if old(self).remaining().len() > 0 {
                            &&& !final(self).is_exhausted()
                            &&& final(self).has_item()
                            &&& final(self).current_key() == old(self).remaining()[0]
                            &&& final(self).remaining() == old(self).remaining().skip(1)
                            &&& final(self).yielded_keys() == old(self).yielded_keys().push(
                                old(self).remaining()[0],
                            )
                        } else {
                            &&& final(self).is_exhausted()
                            &&& final(self).yielded_keys() == old(self).yielded_keys()
                            &&& final(self).yielded_keys() == final(self).anchored()
                        }
                    })
                },
                Err(status) => {
                    &&& status matches ErrorStatus::Other(_)
                    &&& final(self).has_failed()
                    &&& !final(self).is_exhausted()
                },
            },
    {
        // Don't do anything if we've reached the end already.
        if self.finished {
            return Ok(());
        }
        let ghost prev_remaining = self.remaining();
        let status = fetch_next(self.rs, &self.current, &mut self.next);

        // Swap the buffer roles: the answer becomes the current item and the
        // old current buffer becomes the scratch space for the next step.
        core::mem::swap(&mut self.current, &mut self.next);
        self.started = true;

        match status {
            Ok(()) => {
                proof {
                    lemma_suffix_step(self.rs.entries(), self.next@);
                    let produced = prev_remaining[0];
                    assert(self.yielded@.push(produced) + prev_remaining.skip(1) =~= self.yielded@
                        + prev_remaining);
                    self.yielded@ = self.yielded@.push(produced);
                }
                Ok(())
            },
            Err(status) => {
                if matches!(status, ErrorStatus::NotFound) {
                    self.finished = true;
                    proof {
                        assert(self.yielded@ + self.remaining() =~= self.yielded@);
                    }
                    Ok(())
                } else {
                    proof {
                        self.failed@ = true;
                    }
                    Err(status)
                }
            },
        }
    }

    /// The current item by reference, or nothing if the iterator is
    /// exhausted or has not yet been advanced.
    pub fn get(&self) -> (r: Option<&VariableIdentifier>)
        ensures
            match r {
                Some(id) => self.has_item() && id@ == self.current_key(),
                None => !self.has_item(),
            },
    {
        if self.finished || !self.started {
            None
        } else {
            Some(&self.current)
        }
    }

    /// Advance, then return the new current item: `Ok(Some(..))` with the
    /// next name, `Ok(None)` at end-of-sequence, and a fatal collaborator
    /// error verbatim.
    pub fn next(&mut self) -> (r: Result<Option<&VariableIdentifier>, ErrorStatus>)
        requires
            old(self).wf(),
            !old(self).has_failed(),
        ensures
            final(self).wf(),
            final(self).store() == old(self).store(),
            final(self).anchored() == old(self).anchored(),
            old(self).is_exhausted() ==> r matches Ok(None),
            match r {
                Ok(Some(id)) => {
                    &&& !final(self).has_failed()
                    &&& !old(self).is_exhausted()
                    &&& old(self).remaining().len() > 0
                    &&& id@ == old(self).remaining()[0]
                    &&& final(self).current_key() == old(self).remaining()[0]
                    &&& final(self).remaining() == old(self).remaining().skip(1)
                    &&& final(self).yielded_keys() == old(self).yielded_keys().push(
                        old(self).remaining()[0],
                    )
                },
                Ok(None) => {
                    &&& !final(self).has_failed()
                    &&& final(self).is_exhausted()
                    &&& old(self).remaining().len() == 0
                    &&& final(self).yielded_keys() == old(self).yielded_keys()
                    &&& final(self).yielded_keys() == final(self).anchored()
                },
                Err(status) => {
                    &&& status matches ErrorStatus::Other(_)
                    &&& final(self).has_failed()
                    &&& !final(self).is_exhausted()
                },
            },
    {
        proof {
            if old(self).is_exhausted() {
                assert(old(self).yielded@ + old(self).remaining() =~= old(self).yielded@);
            }
        }
        match self.advance() {
            Ok(()) => Ok(self.get()),
            Err(status) => Err(status),
        }
    }
}

/// Ask the collaborator for the key that follows `prev`, writing it into
/// `out`. The collaborator may first report that the output buffer is too
/// small, growing it to the required length; one retry with the grown buffer
/// is then enough, so the undersized-buffer condition is absorbed here and
/// never surfaces.
fn fetch_next<R: VariableServices>(
    rs: &R,
    prev: &VariableIdentifier,
    out: &mut VariableIdentifier,
) -> (r: Result<(), ErrorStatus>)
    requires
        store_wf(rs.entries()),
        is_sentinel_name(prev@.name) || rs.entries().contains(prev@),
    ensures
        match r {
            Ok(()) => next_after(rs.entries(), prev@) matches Some(k) && final(out)@ == k,
            Err(ErrorStatus::NotFound) => next_after(rs.entries(), prev@) is None,
            Err(ErrorStatus::BufferTooSmall) => false,
            Err(ErrorStatus::Other(_)) => true,
        },
{
    let mut status = rs.get_next_variable_name(
        &prev.name,
        prev.namespace,
        &mut out.name,
        &mut out.namespace,
    );
    while undersized(status)
        invariant
            store_wf(rs.entries()),
            is_sentinel_name(prev@.name) || rs.entries().contains(prev@),
            status matches Err(ErrorStatus::BufferTooSmall) ==> next_after(rs.entries(), prev@)
                matches Some(k) && out.name@.len() == k.name.len(),
            match status {
                Ok(()) => next_after(rs.entries(), prev@) matches Some(k) && out@ == k,
                Err(ErrorStatus::NotFound) => next_after(rs.entries(), prev@) is None,
                Err(ErrorStatus::BufferTooSmall) => true,
                Err(ErrorStatus::Other(_)) => true,
            },
        decreases (if status matches Err(ErrorStatus::BufferTooSmall) {
            1int
        } else {
            0int
        }),
    {
        // The buffer now has the required length, so this call cannot
        // report it undersized again.
        status = rs.get_next_variable_name(
            &prev.name,
            prev.namespace,
            &mut out.name,
            &mut out.namespace,
        );
    }
    status
}

/// Enumeration is complete and ordered: a well-formed iterator that has
/// reached the end-of-sequence signal has yielded exactly its anchored key
/// sequence — for an iterator built from the start anchor, every key the
/// store holds, in store order — and has nothing left to yield. Advancing
/// it further is a no-op by the contract of
/// [`VariableNameIterator::advance`].
pub proof fn lemma_exhausted_iterator_yielded_anchor<'a, R: VariableServices>(
    it: &VariableNameIterator<'a, R>,
)
    requires
        it.wf(),
        !it.has_failed(),
        it.is_exhausted(),
    ensures
        it.yielded_keys() == it.anchored(),
        it.remaining().len() == 0,
{
    assert(it.yielded_keys() + it.remaining() =~= it.yielded_keys());
}

/// Whether a collaborator answer is the retryable undersized-buffer report.
fn undersized(status: Result<(), ErrorStatus>) -> (r: bool)
    ensures
        r == (status matches Err(ErrorStatus::BufferTooSmall)),
{
    matches!(status, Err(ErrorStatus::BufferTooSmall))
}

/// Copy a borrowed name into an owned buffer.
fn copy_code_units(src: &[u16]) -> (r: Vec<u16>)
    ensures
        r@ == src@,
{
    let mut r: Vec<u16> = Vec::with_capacity(src.len());
    let mut i: usize = 0;
    while i < src.len()
        invariant
            i <= src@.len(),
            r@ == src@.subrange(0, i as int),
        decreases src@.len() - i,
    {
        r.push(*vstd::slice::slice_index_get(src, i));
        i += 1;
    }
    proof {
        assert(r@ =~= src@);
    }
    r
}

} // verus!
