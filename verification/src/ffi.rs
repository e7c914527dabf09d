//! Bridge to the components written in other languages.
//!
//! This build carries neither the syscall layer nor the control plane, so
//! every call across the bridge reports that its other side is missing.

use crate::text::{decimal, push_decimal};
use vstd::prelude::*;
use vstd::string::*;

verus! {

/// Result code of a call across the bridge.
pub type FfiResult = i32;

/// The call succeeded.
pub const FFI_SUCCESS: FfiResult = 0;

/// The call failed.
pub const FFI_ERROR: FfiResult = -1;

/// What a call into the syscall layer reports.
pub open spec fn syscall_layer_missing() -> Seq<char> {
    "Zig FFI not available on this platform or build configuration"@
}

/// What a call into the control plane reports.
pub open spec fn control_plane_missing() -> Seq<char> {
    "Go FFI not available on this platform or build configuration"@
}

/// Tunes the out-of-memory killer for a process. The syscall layer is
/// missing, so the call fails.
pub fn tune_oom_killer(pid: u32, oom_score_adj: i32, enable: bool) -> (outcome: Result<(), String>)
    ensures
        outcome matches Err(text) && text@ == syscall_layer_missing(),
{
    Err(String::from_str("Zig FFI not available on this platform or build configuration"))
}

/// Allocations and frees of the syscall layer's allocator. The syscall
/// layer is missing, so the call fails.
pub fn get_allocator_stats() -> (outcome: Result<(u64, u64), String>)
    ensures
        outcome matches Err(text) && text@ == syscall_layer_missing(),
{
    Err(String::from_str("Zig FFI not available on this platform or build configuration"))
}

/// Starts the control plane on the given address. The control plane is
/// missing, so the call fails.
pub fn init_control_plane(addr: &str) -> (outcome: Result<(), String>)
    ensures
        outcome matches Err(text) && text@ == control_plane_missing(),
{
    Err(String::from_str("Go FFI not available on this platform or build configuration"))
}

/// Shuts the control plane down. The control plane is missing, so the call
/// fails.
pub fn shutdown_control_plane() -> (outcome: Result<(), String>)
    ensures
        outcome matches Err(text) && text@ == control_plane_missing(),
{
    Err(String::from_str("Go FFI not available on this platform or build configuration"))
}

/// What the tuning of the out-of-memory killer for the process `pid` came
/// to, by the result code of the syscall layer: a success for
/// [`FFI_SUCCESS`], and for every other code the failure, with the process
/// named.
pub fn tune_oom_killer_outcome(code: FfiResult, pid: u32) -> (outcome: Result<(), String>)
    ensures
        code == FFI_SUCCESS ==> outcome is Ok,
        code != FFI_SUCCESS ==> (outcome matches Err(text) && text@
            == "Failed to tune OOM killer for PID "@ + decimal(pid as nat)),
{
    if code == FFI_SUCCESS {
        Ok(())
    } else {
        let mut text = String::from_str("Failed to tune OOM killer for PID ");
        push_decimal(&mut text, pid as u64);
        Err(text)
    }
}

/// The allocations and frees that the syscall layer reported, by its result
/// code: the two numbers for [`FFI_SUCCESS`], and a failure for every other
/// code.
pub fn allocator_stats_outcome(code: FfiResult, total_allocs: u64, total_frees: u64) -> (outcome:
    Result<(u64, u64), String>)
    ensures
        code == FFI_SUCCESS ==> outcome == Ok::<(u64, u64), String>((total_allocs, total_frees)),
        code != FFI_SUCCESS ==> (outcome matches Err(text) && text@
            == "Failed to get allocator stats"@),
{
    if code == FFI_SUCCESS {
        Ok((total_allocs, total_frees))
    } else {
        Err(String::from_str("Failed to get allocator stats"))
    }
}

/// What the start of the control plane came to, by its result code.
pub fn init_control_plane_outcome(code: FfiResult) -> (outcome: Result<(), String>)
    ensures
        code == FFI_SUCCESS ==> outcome is Ok,
        code != FFI_SUCCESS ==> (outcome matches Err(text) && text@
            == "Failed to initialize Go control plane"@),
{
    if code == FFI_SUCCESS {
        Ok(())
    } else {
        Err(String::from_str("Failed to initialize Go control plane"))
    }
}

/// What the shutdown of the control plane came to, by its result code.
pub fn shutdown_control_plane_outcome(code: FfiResult) -> (outcome: Result<(), String>)
    ensures
        code == FFI_SUCCESS ==> outcome is Ok,
        code != FFI_SUCCESS ==> (outcome matches Err(text) && text@
            == "Failed to shutdown Go control plane"@),
{
    if code == FFI_SUCCESS {
        Ok(())
    } else {
        Err(String::from_str("Failed to shutdown Go control plane"))
    }
}

} // verus!
