//! Page-fault recording: the last fault address and error code, kept for
//! post-mortem diagnostics and overwritten on every fault.

use vstd::prelude::*;

verus! {

/// The process-wide page-fault log. The kernel owns exactly one of these for
/// its entire run.
pub struct PageFaultLog {
    addr: u64,
    code: u64,
}

impl PageFaultLog {
    /// The address of the last recorded fault.
    pub closed spec fn spec_addr(self) -> u64 {
        self.addr
    }

    /// The error code of the last recorded fault.
    pub closed spec fn spec_code(self) -> u64 {
        self.code
    }

    /// A fresh log with both fields zero.
    pub fn new() -> (r: PageFaultLog)
        ensures
            r.spec_addr() == 0,
            r.spec_code() == 0,
    {
        PageFaultLog { addr: 0, code: 0 }
    }
}

/// Clears the log.
pub fn init(log: &mut PageFaultLog)
    ensures
        final(log).spec_addr() == 0,
        final(log).spec_code() == 0,
{
    log.addr = 0;
    log.code = 0;
}

/// Stores the fault address and error code, overwriting the previous pair.
pub fn record_fault(log: &mut PageFaultLog, addr: u64, error_code: u64)
    ensures
        final(log).spec_addr() == addr,
        final(log).spec_code() == error_code,
{
    log.addr = addr;
    log.code = error_code;
}

/// Reads back the last recorded fault as `(address, error code)`.
pub fn last_fault(log: &PageFaultLog) -> (r: (u64, u64))
    ensures
        r.0 == log.spec_addr(),
        r.1 == log.spec_code(),
{
    (log.addr, log.code)
}

/// Handles an unrecoverable page fault: records the pair for diagnostics.
///
/// Page faults are not recoverable by the core; after this returns, the
/// architecture layer must halt the CPU in its idle loop and never resume
/// the faulting context.
pub fn handle_page_fault(log: &mut PageFaultLog, fault_addr: u64, error_code: u64)
    ensures
        final(log).spec_addr() == fault_addr,
        final(log).spec_code() == error_code,
{
    record_fault(log, fault_addr, error_code);
}

} // verus!
