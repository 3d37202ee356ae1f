//! The fixed-size, ordered set of checks that the polling and reporting loops
//! share. Entries are never added or removed after load; only fail counts change.
use vstd::prelude::*;
use crate::check::{HttpCheck, next_fail_count};

verus! {

/// A write-back the registry refuses: an index it does not hold, or a fail
/// count outside the entry's range.
#[derive(Debug, Clone, Copy, PartialEq, Eq, Structural)]
pub enum RegistryError {
    OutOfRange,
    /// The new fail count exceeds the entry's ceiling (`unhealthy_threshold`).
    AboveCeiling,
}

pub struct Registry {
    checks: Vec<HttpCheck>,
}

impl View for Registry {
    type V = Seq<HttpCheck>;

    closed spec fn view(&self) -> Seq<HttpCheck> {
        self.checks@
    }
}

/// Every check of the sequence satisfies its load-time invariant.
pub open spec fn all_wf(checks: Seq<HttpCheck>) -> bool {
    forall|i: int| 0 <= i < checks.len() ==> #[trigger] checks[i].wf()
}

impl Registry {
    pub open spec fn wf(&self) -> bool {
        all_wf(self@)
    }

    /// Takes ownership of the loaded, validated checks, in their order.
    pub fn new(checks: Vec<HttpCheck>) -> (r: Registry)
        requires
            all_wf(checks@),
        ensures
            r@ == checks@,
            r.wf(),
    {
        Registry { checks }
    }

    pub fn len(&self) -> (r: usize)
        ensures
            r == self@.len(),
    {
        self.checks.len()
    }

    /// An independent copy of every entry, in order.
    pub fn snapshot(&self) -> (r: Vec<HttpCheck>)
        ensures
            r@ == self@,
    {
        let mut out: Vec<HttpCheck> = Vec::new();
        let n = self.checks.len();
        for i in 0..n
            invariant
                n == self.checks@.len(),
                out@ == self.checks@.subrange(0, i as int),
        {
            out.push(self.checks[i].duplicate());
            assert(out@ =~= self.checks@.subrange(0, i + 1));
        }
        assert(out@ =~= self.checks@);
        out
    }

    /// Replaces the fail count of entry `index` and nothing else.
    pub fn update_fail_count(&mut self, index: usize, new_fail_count: u64) -> (r: Result<
        (),
        RegistryError,
    >)
        requires
            old(self).wf(),
        ensures
            final(self).wf(),
            index >= old(self)@.len() <==> r == Err::<(), RegistryError>(RegistryError::OutOfRange),
            (index < old(self)@.len() && new_fail_count > old(self)@[index as int].unhealthy_threshold)
                <==> r == Err::<(), RegistryError>(RegistryError::AboveCeiling),
            r is Err ==> final(self)@ == old(self)@,
            r is Ok ==> final(self)@ == old(self)@.update(
                index as int,
                (HttpCheck { fail_count: new_fail_count, ..old(self)@[index as int] }),
            ),
    {
        if index >= self.checks.len() {
            return Err(RegistryError::OutOfRange);
        }
        if new_fail_count > self.checks[index].unhealthy_threshold {
            return Err(RegistryError::AboveCeiling);
        }
        let mut entry = self.checks[index].duplicate();
        entry.set_the_new_fail_count(new_fail_count);
        self.checks.set(index, entry);
        proof {
            assert forall|i: int| 0 <= i < self@.len() implies #[trigger] self@[i].wf() by {
                if i != index {
                    assert(self@[i] == old(self)@[i]);
                } else {
                    assert(old(self)@[i].wf());
                }
            }
        }
        Ok(())
    }
}

} // verus!
