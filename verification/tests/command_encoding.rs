use nvgpu::command::{Command, CommandSubmissionMode, SubChannelId};
use nvgpu::error::GpuError;
use nvgpu::fifo_entry::GpFifoEntry;

const MODES: [CommandSubmissionMode; 6] = [
    CommandSubmissionMode::IncreasingOld,
    CommandSubmissionMode::Increasing,
    CommandSubmissionMode::NonIncreasingOld,
    CommandSubmissionMode::NonIncreasing,
    CommandSubmissionMode::Inline,
    CommandSubmissionMode::IncreasingOnce,
];

#[test]
fn mode_tags_are_those_of_the_hardware() {
    let tags: Vec<u32> = MODES.iter().map(|mode| mode.id()).collect();
    assert_eq!(tags, vec![0, 1, 2, 3, 4, 5]);
}

#[test]
fn sub_channel_numbers_are_those_of_the_bindings() {
    assert_eq!(u32::from(SubChannelId::ThreeD), 0);
    assert_eq!(u32::from(SubChannelId::Compute), 1);
    assert_eq!(u32::from(SubChannelId::InlineToMemory), 2);
    assert_eq!(u32::from(SubChannelId::TwoD), 3);
    assert_eq!(u32::from(SubChannelId::DirectMemoryAccess), 4);
}

#[test]
fn header_holds_method_sub_channel_and_mode() {
    let command = Command::new(0x6c0, SubChannelId::ThreeD, CommandSubmissionMode::Increasing);
    assert_eq!(command.into_vec(), vec![0x2000_06c0]);
    let command = Command::new_raw(0x1fff, 7, CommandSubmissionMode::IncreasingOnce);
    assert_eq!(command.into_vec(), vec![0xa000_ffff]);
}

#[test]
fn header_round_trips_for_every_triple() {
    for method in (0..0x2000u32).step_by(7).chain([0, 1, 0x1000, 0x1fff]) {
        for sub_channel in 0..8u32 {
            for mode in MODES {
                let words = Command::new_raw(method, sub_channel, mode).into_vec();
                let entry = GpFifoEntry(words[0]);
                assert_eq!(entry.method(), method);
                assert_eq!(entry.sub_channel(), sub_channel);
                assert_eq!(entry.submission_mode(), mode.id());
                assert_eq!(entry.argument_count(), 0);
                assert!(!entry.unknown_28());
            }
        }
    }
}

#[test]
fn header_drops_bits_that_do_not_fit() {
    let words = Command::new_raw(0xffff_ffff, 0xffff_fff9, CommandSubmissionMode::Increasing)
        .into_vec();
    let entry = GpFifoEntry(words[0]);
    assert_eq!(entry.method(), 0x1fff);
    assert_eq!(entry.sub_channel(), 1);
    assert_eq!(entry.submission_mode(), 1);
    assert_eq!(words[0], 0x2000_3fff);
}

#[test]
fn entry_accessors_read_and_write_their_fields() {
    let entry = GpFifoEntry(0xdead_beef);
    assert_eq!(entry.method(), 0x1eef);
    assert_eq!(entry.sub_channel(), 5);
    assert_eq!(entry.argument_count(), 0x6ad);
    assert_eq!(entry.inline_arguments(), 0x6ad);
    assert!(entry.unknown_28());
    assert_eq!(entry.submission_mode(), 6);

    let mut entry = GpFifoEntry(0);
    entry.set_method(0x1234);
    assert_eq!(entry.0, 0x1234);
    entry.set_sub_channel(3);
    assert_eq!(entry.0, 0x7234);
    entry.set_argument_count(0x7ff);
    assert_eq!(entry.0, 0x07ff_7234);
    entry.set_unknown_28(true);
    assert_eq!(entry.0, 0x17ff_7234);
    entry.set_submission_mode(5);
    assert_eq!(entry.0, 0xb7ff_7234);
    entry.set_inline_arguments(1);
    assert_eq!(entry.0, 0xb001_7234);
    entry.set_unknown_28(false);
    assert_eq!(entry.0, 0xa001_7234);
    entry.set_method(0);
    assert_eq!(entry.0, 0xa001_6000);
}

#[test]
fn arguments_follow_the_header_and_are_counted() {
    let mut command = Command::new(
        0x1c5,
        SubChannelId::DirectMemoryAccess,
        CommandSubmissionMode::Increasing,
    );
    assert_eq!(command.push_argument(0x40), Ok(()));
    assert_eq!(command.push_argument(1), Ok(()));
    assert_eq!(command.push_argument(0), Ok(()));
    assert_eq!(command.submission_mode(), CommandSubmissionMode::Increasing);
    assert_eq!(command.into_vec(), vec![0x2003_81c5, 0x40, 1, 0]);
}

#[test]
fn argument_count_keeps_eleven_bits() {
    let mut command = Command::new(0, SubChannelId::ThreeD, CommandSubmissionMode::Increasing);
    for i in 0..0x801u32 {
        assert_eq!(command.push_argument(i), Ok(()));
    }
    let words = command.into_vec();
    assert_eq!(words.len(), 0x802);
    assert_eq!(GpFifoEntry(words[0]).argument_count(), 1);
    assert_eq!(words[0x801], 0x800);
}

#[test]
fn address_goes_high_word_first() {
    let mut command = Command::new(
        0x100,
        SubChannelId::DirectMemoryAccess,
        CommandSubmissionMode::Increasing,
    );
    assert_eq!(command.push_address(0x0000_0012_3456_789a), Ok(()));
    let words = command.into_vec();
    assert_eq!(words, vec![0x2002_8100, 0x12, 0x3456_789a]);
    assert_eq!(((words[1] as u64) << 32) | words[2] as u64, 0x0000_0012_3456_789a);
}

#[test]
fn address_reassembles_for_edge_values() {
    for address in [0u64, 1, 0xffff_ffff, 0x1_0000_0000, u64::MAX, 0x8000_0000_0000_0001] {
        let mut command =
            Command::new(0x100, SubChannelId::Compute, CommandSubmissionMode::Increasing);
        assert_eq!(command.push_address(address), Ok(()));
        let words = command.into_vec();
        assert_eq!(words.len(), 3);
        assert_eq!(((words[1] as u64) << 32) | words[2] as u64, address);
    }
}

#[test]
fn inlined_buffer_is_packed_and_padded() {
    let mut command = Command::new(
        0x6d,
        SubChannelId::Compute,
        CommandSubmissionMode::NonIncreasing,
    );
    assert_eq!(command.push_inlined_buffer(&[1, 2, 3, 4, 5, 6]), Ok(()));
    let words = command.into_vec();
    assert_eq!(words.len(), 3);
    assert_eq!(words[1], 0x0403_0201);
    assert_eq!(words[2], 0x0000_0605);
    assert_eq!(words[2] >> 16, 0);
}

#[test]
fn inlined_buffer_of_every_rest_length() {
    let data = [0x11u8, 0x22, 0x33, 0x44, 0x55, 0x66, 0x77, 0x88];
    let expected: [&[u32]; 9] = [
        &[],
        &[0x11],
        &[0x2211],
        &[0x33_2211],
        &[0x4433_2211],
        &[0x4433_2211, 0x55],
        &[0x4433_2211, 0x6655],
        &[0x4433_2211, 0x77_6655],
        &[0x4433_2211, 0x8877_6655],
    ];
    for len in 0..=8 {
        let mut command = Command::new(
            0x6d,
            SubChannelId::Compute,
            CommandSubmissionMode::NonIncreasing,
        );
        assert_eq!(command.push_inlined_buffer(&data[..len]), Ok(()));
        let words = command.into_vec();
        assert_eq!(&words[1..], expected[len]);
        assert_eq!(GpFifoEntry(words[0]).argument_count() as usize, expected[len].len());
    }
}

#[test]
fn empty_inlined_buffer_adds_nothing() {
    let mut command = Command::new(
        0x6d,
        SubChannelId::Compute,
        CommandSubmissionMode::NonIncreasing,
    );
    assert_eq!(command.push_inlined_buffer(&[]), Ok(()));
    assert_eq!(command.into_vec().len(), 1);
}

#[test]
fn inline_command_takes_no_argument() {
    let mut command = Command::new_inline(0x107, SubChannelId::DirectMemoryAccess, 1);
    assert_eq!(command.push_argument(5), Err(GpuError::InvalidUsage));
    assert_eq!(command.push_address(5), Err(GpuError::InvalidUsage));
    assert_eq!(command.push_inlined_buffer(&[1]), Err(GpuError::InvalidUsage));
    assert_eq!(command.push_inlined_buffer(&[]), Ok(()));
    assert_eq!(command.submission_mode(), CommandSubmissionMode::Inline);
    assert_eq!(command.into_vec(), vec![0x8001_8107]);
}

#[test]
fn inline_argument_keeps_eleven_bits() {
    let command = Command::new_inline(0x107, SubChannelId::ThreeD, 0xffff_ffff);
    assert_eq!(command.into_vec(), vec![0x87ff_0107]);
}
