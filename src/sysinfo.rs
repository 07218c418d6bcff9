//! Machine statistics reported by the kernel.

use vstd::prelude::*;

verus! {

/// Uptime and memory figures of the machine.
#[derive(Debug)]
pub struct SysInfo {
    /// Seconds since boot.
    pub uptime: usize,
    /// Total usable main memory, in bytes.
    pub total_ram: usize,
    /// Available memory, in bytes.
    pub free_ram: usize,
    /// Shared memory, in bytes.
    pub shared_ram: usize,
}

/// Why the statistics could not be had.
#[derive(Clone, Copy, Debug, PartialEq, Eq, Structural)]
pub enum SysInfoError {
    /// The kernel call reported failure with this status.
    CallFailed(i32),
}

impl SysInfo {
    /// The statistics from the kernel call's status and figures: an error
    /// where the status is negative, the figures as they are otherwise.
    pub fn new(
        status: i32,
        uptime: usize,
        total_ram: usize,
        free_ram: usize,
        shared_ram: usize,
    ) -> (r: Result<SysInfo, SysInfoError>)
        ensures
            status < 0 <==> r is Err,
            r matches Err(e) ==> e == SysInfoError::CallFailed(status),
            r matches Ok(info) ==> info.uptime == uptime && info.total_ram == total_ram
                && info.free_ram == free_ram && info.shared_ram == shared_ram,
    {
        if status < 0 {
            return Err(SysInfoError::CallFailed(status));
        }
        Ok(SysInfo { uptime, total_ram, free_ram, shared_ram })
    }
}

} // verus!
