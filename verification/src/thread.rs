//! The thread strategy: how many worker units to run, and what their results
//! must look like.

use vstd::prelude::*;
use crate::error::ExecutionError;
use crate::error::ResourceError;
use crate::error::ResourceErrorView;
use crate::resource::Resource;
use crate::resource::ResourceKind;
use crate::workload::fib;
use crate::workload::lemma_fib_values;
use crate::workload::WORKLOAD_INDEX;
use crate::workload::WORKLOAD_RESULT;

verus! {

/// A number of worker units.
#[derive(Debug, Clone, PartialEq, Eq)]
pub struct Thread(pub u32);

/// All results are equal to the first one. An empty sequence is consistent:
/// with no worker there is nothing to compare.
pub open spec fn consistent(results: Seq<u32>) -> bool {
    forall|i: int| 0 <= i < results.len() ==> #[trigger] results[i] == results[0]
}

impl Thread {
    /// The strategy that a resource request asks for.
    pub open spec fn requested(res: Resource) -> Result<Thread, ResourceErrorView> {
        match res {
            Resource::Thread { num } => Ok(Thread(num)),
            Resource::Memory { .. } => Err(
                ResourceErrorView::WrongResourceKind {
                    expected: ResourceKind::Thread,
                    found: ResourceKind::Memory,
                },
            ),
        }
    }

    /// A request for memory never gives a thread strategy.
    pub proof fn lemma_memory_request_is_refused(res: Resource)
        requires
            res is Memory,
        ensures
            Thread::requested(res) == Err::<Thread, ResourceErrorView>(
                ResourceErrorView::WrongResourceKind {
                    expected: ResourceKind::Thread,
                    found: ResourceKind::Memory,
                },
            ),
    {
    }

    /// Where each of the worker units, one or more, reports what the
    /// workload computes, there are as many results as units, every result
    /// is the workload's fixed value, and the results are consistent.
    pub proof fn lemma_uniform_workload_is_consistent(self, results: Seq<u32>)
        requires
            self.0 >= 1,
            results.len() == self.0,
            forall|i: int| 0 <= i < results.len() ==> results[i] == fib(WORKLOAD_INDEX as nat),
        ensures
            forall|i: int| 0 <= i < self.0 ==> results[i] == WORKLOAD_RESULT,
            consistent(results),
    {
        lemma_fib_values();
    }

    /// A strategy of `num` worker units.
    pub fn new(num: u32) -> (t: Thread)
        ensures
            t == Thread(num),
    {
        Thread(num)
    }

    /// Builds the strategy from a request for threads; a request for memory
    /// is refused.
    pub fn from_resource(res: Resource) -> (r: Result<Thread, ResourceError>)
        ensures
            r matches Ok(t) ==> Thread::requested(res) == Ok::<Thread, ResourceErrorView>(t),
            r matches Err(e) ==> Thread::requested(res) == Err::<Thread, ResourceErrorView>(e@),
    {
        match res {
            Resource::Thread { num } => Ok(Thread::new(num)),
            Resource::Memory { .. } => Err(
                ResourceError::WrongResourceKind {
                    expected: ResourceKind::Thread,
                    found: ResourceKind::Memory,
                },
            ),
        }
    }

    /// The number of worker units to spawn.
    pub fn count(&self) -> (n: u32)
        ensures
            n == self.0,
    {
        self.0
    }
}

/// Compares every collected result with the first one.
pub fn check_results(results: &[u32]) -> (r: Result<(), ExecutionError>)
    ensures
        consistent(results@) ==> r == Ok::<(), ExecutionError>(()),
        !consistent(results@) ==> r == Err::<(), ExecutionError>(
            ExecutionError::ResultInconsistency,
        ),
{
    let n: usize = results.len();
    let mut i: usize = 0;
    while i < n
        invariant
            n == results@.len(),
            0 <= i <= n,
            forall|j: int| 0 <= j < i ==> #[trigger] results@[j] == results@[0],
        decreases n - i,
    {
        if results[i] != results[0] {
            return Err(ExecutionError::ResultInconsistency);
        }
        i += 1;
    }
    Ok(())
}

} // verus!
