//! The resource request: which resource to exercise, and how much of it.

use vstd::prelude::*;

verus! {

/// The two kinds of resource.
#[derive(Debug, Clone, Copy, PartialEq, Eq, Structural)]
pub enum ResourceKind {
    Memory,
    Thread,
}

/// A request for one kind of resource, as it comes from the command line.
#[derive(Debug, Clone, PartialEq, Eq)]
pub enum Resource {
    /// A size with its unit suffix, still undecoded, such as `100K`.
    Memory { arg: String },
    /// The number of worker units to spawn.
    Thread { num: u32 },
}

impl ResourceKind {
    /// The name of the kind.
    pub open spec fn label(self) -> Seq<char> {
        match self {
            ResourceKind::Memory => "Memory"@,
            ResourceKind::Thread => "Thread"@,
        }
    }

    /// The name of the kind as text.
    pub fn name(&self) -> (m: &'static str)
        ensures
            m@ == self.label(),
    {
        match self {
            ResourceKind::Memory => "Memory",
            ResourceKind::Thread => "Thread",
        }
    }
}

} // verus!
