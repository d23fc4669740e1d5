//! What libpfm4's answers mean to the library.

use vstd::prelude::*;

verus! {

/// `PFM_SUCCESS`: what libpfm returns when a call succeeded.
pub const PFM_SUCCESS: i32 = 0;

/// The privilege levels an event string is encoded for when it names none: user (`PFM_PLM3`),
/// kernel (`PFM_PLM0`) and hypervisor (`PFM_PLMH`).
pub const DEFAULT_PRIVILEGE_LEVELS: i32 = 0x19;

/// `PFM_OS_PERF_EVENT`: encode for `perf_event_open`.
pub const PFM_OS_PERF_EVENT: i32 = 1;

/// The handle to an initialized libpfm.
#[derive(Default)]
pub struct PFMInterior {}

/// A libpfm error code.
#[derive(Clone, Copy, Debug, PartialEq, Eq)]
pub struct PfmError(pub i32);

/// Whether the libpfm return code `code` reports success; the code is the error otherwise.
pub fn pfm_result(code: i32) -> (r: Result<(), PfmError>)
    ensures
        code == PFM_SUCCESS ==> r == Ok::<(), PfmError>(()),
        code != PFM_SUCCESS ==> r == Err::<(), PfmError>(PfmError(code)),
{
    if code != PFM_SUCCESS {
        Err(PfmError(code))
    } else {
        Ok(())
    }
}

} // verus!
