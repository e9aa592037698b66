//! The memory strategy: how many bytes to allocate, touch and release.

use vstd::prelude::*;
use crate::error::ExecutionError;
use crate::error::ResourceError;
use crate::error::ResourceErrorView;
use crate::resource::Resource;
use crate::resource::ResourceKind;
use crate::size::decode_size;
use crate::size::decoded_size;
use crate::size::is_unit_multiplier;
use crate::size::lemma_decoded_multiplier_is_unit;

verus! {

/// The alignment of the block that the strategy allocates.
pub const ALIGNMENT: usize = 8;

/// A number of units of memory: `size` times `multiplier` bytes.
#[derive(Debug, Clone, PartialEq, Eq)]
pub struct Memory {
    pub size: u64,
    pub multiplier: u64,
}

/// The descriptor of one allocation. The same value describes the block when
/// it is requested and when it is released.
#[derive(Debug, Clone, Copy, PartialEq, Eq, Structural)]
pub struct Allocation {
    pub size: usize,
    pub align: usize,
}

/// The largest block that can be described with alignment `ALIGNMENT`: its
/// size, rounded up to the alignment, still fits in `isize`.
pub open spec fn max_block_size() -> int {
    isize::MAX - (ALIGNMENT - 1)
}

impl Memory {
    /// The strategy that a resource request asks for.
    pub open spec fn requested(res: Resource) -> Result<Memory, ResourceErrorView> {
        match res {
            Resource::Memory { arg } => match decoded_size(arg@) {
                Ok((size, multiplier)) => Ok(Memory { size, multiplier }),
                Err(e) => Err(e),
            },
            Resource::Thread { .. } => Err(
                ResourceErrorView::WrongResourceKind {
                    expected: ResourceKind::Memory,
                    found: ResourceKind::Thread,
                },
            ),
        }
    }

    /// The number of bytes that the strategy stands for.
    pub open spec fn total(&self) -> int {
        self.size * self.multiplier
    }

    /// What execution does first: the block to ask for, or the reason why
    /// nothing is allocated.
    pub open spec fn planned(&self) -> Result<Allocation, ExecutionError> {
        if self.total() == 0 {
            Err(ExecutionError::ZeroSizeAllocation)
        } else if self.total() > max_block_size() {
            Err(ExecutionError::AllocationFailure)
        } else {
            Ok(Allocation { size: self.total() as usize, align: ALIGNMENT })
        }
    }

    /// A request for threads never gives a memory strategy.
    pub proof fn lemma_thread_request_is_refused(res: Resource)
        requires
            res is Thread,
        ensures
            Memory::requested(res) == Err::<Memory, ResourceErrorView>(
                ResourceErrorView::WrongResourceKind {
                    expected: ResourceKind::Memory,
                    found: ResourceKind::Thread,
                },
            ),
    {
    }

    /// A size of zero gives a total of zero bytes with any multiplier, and
    /// then nothing is allocated: execution ends with the fatal error for it.
    pub proof fn lemma_zero_size_is_never_allocated(self)
        requires
            self.size == 0,
        ensures
            self.total() == 0,
            self.planned() == Err::<Allocation, ExecutionError>(
                ExecutionError::ZeroSizeAllocation,
            ),
    {
    }

    /// Whatever is planned has the alignment of the strategy and a size that
    /// is the total, not zero, and describable with that alignment.
    pub proof fn lemma_planned_block_is_valid(self)
        ensures
            self.planned() matches Ok(block) ==> {
                &&& block.align == ALIGNMENT
                &&& block.size == self.total()
                &&& 0 < block.size <= max_block_size()
            },
    {
    }

    /// Builds the strategy from a request for memory by decoding its size
    /// string; a request for threads is refused.
    pub fn from_resource(res: Resource) -> (r: Result<Memory, ResourceError>)
        ensures
            r matches Ok(m) ==> Memory::requested(res) == Ok::<Memory, ResourceErrorView>(m),
            r matches Err(e) ==> Memory::requested(res) == Err::<Memory, ResourceErrorView>(e@),
            r matches Ok(m) ==> is_unit_multiplier(m.multiplier),
    {
        match res {
            Resource::Memory { arg } => {
                proof {
                    lemma_decoded_multiplier_is_unit(arg@);
                }
                match decode_size(arg.as_str()) {
                    Ok((size, multiplier)) => Ok(Memory { size, multiplier }),
                    Err(e) => Err(e),
                }
            },
            Resource::Thread { .. } => Err(
                ResourceError::WrongResourceKind {
                    expected: ResourceKind::Memory,
                    found: ResourceKind::Thread,
                },
            ),
        }
    }

    /// The number of bytes, where it fits in 64 bits.
    pub fn total_size(&self) -> (r: Option<u64>)
        ensures
            self.total() <= u64::MAX ==> r == Some(self.total() as u64),
            self.total() > u64::MAX ==> r is None,
    {
        self.size.checked_mul(self.multiplier)
    }

    /// Decides what to allocate. A total of zero bytes is refused, and so is
    /// one that no block of this machine can hold.
    pub fn allocation(&self) -> (r: Result<Allocation, ExecutionError>)
        ensures
            r == self.planned(),
    {
        let limit: usize = (isize::MAX as usize) - (ALIGNMENT - 1);
        match self.total_size() {
            None => Err(ExecutionError::AllocationFailure),
            Some(total) => {
                if total == 0 {
                    Err(ExecutionError::ZeroSizeAllocation)
                } else if total > limit as u64 {
                    Err(ExecutionError::AllocationFailure)
                } else {
                    Ok(Allocation { size: total as usize, align: ALIGNMENT })
                }
            },
        }
    }
}

} // verus!
