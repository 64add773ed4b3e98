use nvgpu::channel::{allocate_gpfifo_arguments, submit_arguments, submit_result, SubmitArguments};
use nvgpu::error::{
    failure_from_errno, ioctl_status, system_failure, GpuError, IoctlOutcome, UNKNOWN_ERRNO,
};
use nvgpu::nvhost::{timeslice_status, ChannelPriority, RawFence, ENOTTY};
use nvgpu::nvmap::KernelReply;

#[test]
fn status_zero_is_success() {
    assert_eq!(ioctl_status(IoctlOutcome::Returned(0)), Ok(()));
}

#[test]
fn known_status_keeps_its_number() {
    assert_eq!(
        ioctl_status(IoctlOutcome::Returned(12)),
        Err(GpuError::KernelRequestFailed(12))
    );
    assert_eq!(
        ioctl_status(IoctlOutcome::Returned(22)),
        Err(GpuError::KernelRequestFailed(22))
    );
}

#[test]
fn unknown_status_becomes_the_unknown_error() {
    assert_eq!(
        ioctl_status(IoctlOutcome::Returned(99_999)),
        Err(GpuError::KernelRequestFailed(UNKNOWN_ERRNO))
    );
    assert_eq!(
        ioctl_status(IoctlOutcome::Returned(-1)),
        Err(GpuError::KernelRequestFailed(0))
    );
}

#[test]
fn failed_call_becomes_the_unknown_error() {
    assert_eq!(
        ioctl_status(IoctlOutcome::Failed(Some(5))),
        Err(GpuError::KernelRequestFailed(0))
    );
    assert_eq!(
        ioctl_status(IoctlOutcome::Failed(None)),
        Err(GpuError::KernelRequestFailed(0))
    );
}

#[test]
fn failure_carries_its_number() {
    assert_eq!(failure_from_errno(13), GpuError::KernelRequestFailed(13));
}

#[test]
fn system_failure_keeps_the_number_of_the_system() {
    assert_eq!(system_failure(Some(12)), GpuError::KernelRequestFailed(12));
    assert_eq!(system_failure(None), GpuError::KernelRequestFailed(0));
}

#[test]
fn reply_follows_the_outcome() {
    assert_eq!(
        KernelReply::from_outcome(IoctlOutcome::Returned(0), KernelReply::Handle(7)),
        KernelReply::Handle(7)
    );
    assert_eq!(
        KernelReply::from_outcome(IoctlOutcome::Returned(1), KernelReply::Handle(7)),
        KernelReply::Failed(GpuError::KernelRequestFailed(1))
    );
    assert_eq!(KernelReply::Done.status(), Ok(()));
    assert_eq!(KernelReply::Fd(3).status(), Ok(()));
    assert_eq!(
        KernelReply::Failed(GpuError::StateViolation).status(),
        Err(GpuError::StateViolation)
    );
}

#[test]
fn unknown_timeslice_request_is_taken_as_accepted() {
    assert_eq!(ENOTTY, 25);
    assert_eq!(timeslice_status(IoctlOutcome::Failed(Some(ENOTTY))), Ok(()));
    assert_eq!(
        timeslice_status(IoctlOutcome::Failed(Some(1))),
        Err(GpuError::KernelRequestFailed(0))
    );
    assert_eq!(
        timeslice_status(IoctlOutcome::Failed(None)),
        Err(GpuError::KernelRequestFailed(0))
    );
    assert_eq!(timeslice_status(IoctlOutcome::Returned(0)), Ok(()));
    assert_eq!(
        timeslice_status(IoctlOutcome::Returned(ENOTTY)),
        Err(GpuError::KernelRequestFailed(25))
    );
}

#[test]
fn priorities_have_their_levels_and_timeslices() {
    assert_eq!(u32::from(ChannelPriority::Low), 50);
    assert_eq!(u32::from(ChannelPriority::Medium), 100);
    assert_eq!(u32::from(ChannelPriority::High), 150);
    assert_eq!(ChannelPriority::Low.timeslice_us(), 1300);
    assert_eq!(ChannelPriority::Medium.timeslice_us(), 2600);
    assert_eq!(ChannelPriority::High.timeslice_us(), 5200);
}

#[test]
fn submission_without_fence_carries_the_fence_for_none() {
    assert_eq!(
        submit_arguments(3, None, 10),
        SubmitArguments { num_entries: 3, flags: 10, fence: RawFence { id: -1, value: 0xFFFF_FFFF } }
    );
    let fence = RawFence { id: 4, value: 9 };
    assert_eq!(
        submit_arguments(1, Some(fence), 11),
        SubmitArguments { num_entries: 1, flags: 11, fence }
    );
}

#[test]
fn submission_gives_its_fence_only_when_asked() {
    let fence = RawFence { id: 4, value: 9 };
    assert_eq!(submit_result(IoctlOutcome::Returned(0), 10, fence), Ok(Some(fence)));
    assert_eq!(submit_result(IoctlOutcome::Returned(0), 11, fence), Ok(Some(fence)));
    assert_eq!(submit_result(IoctlOutcome::Returned(0), 9, fence), Ok(None));
    assert_eq!(submit_result(IoctlOutcome::Returned(0), 0, fence), Ok(None));
    assert_eq!(
        submit_result(IoctlOutcome::Returned(16), 10, fence),
        Err(GpuError::KernelRequestFailed(16))
    );
    assert_eq!(
        submit_result(IoctlOutcome::Failed(None), 10, fence),
        Err(GpuError::KernelRequestFailed(0))
    );
}

#[test]
fn ring_allocation_takes_size_and_flags() {
    assert_eq!(allocate_gpfifo_arguments(0x800, 0), (0x800, 0));
}
