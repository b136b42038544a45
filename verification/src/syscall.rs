//! Syscall identifier space: the dispatcher lives outside the core.

use vstd::prelude::*;

verus! {

/// The syscalls the kernel acknowledges.
#[derive(Debug, Clone, Copy, PartialEq, Eq, Structural)]
pub enum Syscall {
    Yield,
    Send,
    Receive,
    Spawn,
}

impl Syscall {
    /// The identifier of each syscall: `Yield = 0`, `Send = 1`,
    /// `Receive = 2`, `Spawn = 3`.
    pub open spec fn spec_number(self) -> u16 {
        match self {
            Syscall::Yield => 0,
            Syscall::Send => 1,
            Syscall::Receive => 2,
            Syscall::Spawn => 3,
        }
    }

    /// The identifier used for this syscall on the dispatch surface.
    pub fn number(self) -> (r: u16)
        ensures
            r == self.spec_number(),
    {
        match self {
            Syscall::Yield => 0,
            Syscall::Send => 1,
            Syscall::Receive => 2,
            Syscall::Spawn => 3,
        }
    }
}

} // verus!
