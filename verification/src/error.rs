//! Failures, and how a device-node call's raw outcome becomes one.

use vstd::prelude::*;

verus! {

/// Why an operation of the driver failed.
#[derive(Clone, Copy, Debug, PartialEq, Eq, Structural)]
pub enum GpuError {
    /// A device-node call failed; carries the error number, or `0` where the
    /// kernel gave none that is known.
    KernelRequestFailed(i32),
    /// The ring is at capacity, or the kernel denied memory.
    ResourceExhausted,
    /// An operation that the command's submission mode does not allow.
    InvalidUsage,
    /// An operation on something that is not in the state it needs.
    StateViolation,
}

/// The result of the driver's operations.
pub type NvGpuResult<T> = Result<T, GpuError>;

/// The raw outcome of one device-node call.
#[derive(Clone, Copy, Debug, PartialEq, Eq, Structural)]
pub enum IoctlOutcome {
    /// The call went through and the driver returned this status.
    Returned(i32),
    /// The call itself failed, with this error number if the system gave one.
    Failed(Option<i32>),
}

/// The error number that stands for "not a known error".
pub const UNKNOWN_ERRNO: i32 = 0;

/// The number of the error that `nix` knows under `code`: `code` itself
/// where the platform's table holds it, `UNKNOWN_ERRNO` where it does not.
pub uninterp spec fn known_errno(code: i32) -> i32;

/// Looks `code` up in the platform's error table with `nix`'s
/// `Errno::from_i32` and gives back the number of the entry found. Trusted:
/// the table maps each number it holds to itself and every other number to
/// the unknown error, whose number is zero.
#[verifier::external_body]
fn errno_number(code: i32) -> (r: i32)
    ensures
        r == known_errno(code),
        r == code || r == UNKNOWN_ERRNO,
{
    nix::errno::Errno::from_i32(code) as i32
}

/// The failure that a nonzero driver status stands for.
pub open spec fn status_failure(code: i32) -> GpuError {
    GpuError::KernelRequestFailed(known_errno(code))
}

/// What the outcome of a device-node call means: success on status zero,
/// the looked-up error on any other status, the unknown error where the
/// call itself failed.
pub open spec fn spec_ioctl_status(outcome: IoctlOutcome) -> NvGpuResult<()> {
    match outcome {
        IoctlOutcome::Failed(_) => Err(GpuError::KernelRequestFailed(UNKNOWN_ERRNO)),
        IoctlOutcome::Returned(status) => if status == 0 {
            Ok(())
        } else {
            Err(status_failure(status))
        },
    }
}

/// Classifies the outcome of a device-node call.
pub fn ioctl_status(outcome: IoctlOutcome) -> (r: NvGpuResult<()>)
    ensures
        r == spec_ioctl_status(outcome),
        r is Ok <==> outcome == IoctlOutcome::Returned(0),
{
    match outcome {
        IoctlOutcome::Failed(_) => Err(GpuError::KernelRequestFailed(UNKNOWN_ERRNO)),
        IoctlOutcome::Returned(status) => {
            if status == 0 {
                Ok(())
            } else {
                Err(failure_from_errno(errno_number(status)))
            }
        },
    }
}

/// The failure that carries the error number `errno`.
pub fn failure_from_errno(errno: i32) -> (r: GpuError)
    ensures
        r == GpuError::KernelRequestFailed(errno),
{
    GpuError::KernelRequestFailed(errno)
}

/// What the failure of a system call means: the system's own error number
/// where it gave one, the unknown error where it did not.
pub fn system_failure(errno: Option<i32>) -> (r: GpuError)
    ensures
        r == GpuError::KernelRequestFailed(
            match errno {
                Some(code) => code,
                None => UNKNOWN_ERRNO,
            },
        ),
{
    match errno {
        Some(code) => GpuError::KernelRequestFailed(code),
        None => GpuError::KernelRequestFailed(UNKNOWN_ERRNO),
    }
}

} // verus!
