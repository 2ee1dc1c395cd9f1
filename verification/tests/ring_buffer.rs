use point_cloud_viewer::gl_wrappers::buffer::{
    Binding, Buffer, BufferType, CopyCommand, FenceState, FenceWait, WaitFailure, WaitProgress,
    WaitResult, WaitStage, WriteCommand,
};

/// A stand-in for the device: regions of plain memory, fences that are
/// pending or not, and a record of everything that was asked of it.
struct Device {
    regions: Vec<Vec<u8>>,
    pending: Vec<bool>,
    /// Answers to wait requests on a pending fence, first to last. When they
    /// run out the fence is satisfied.
    answers: Vec<WaitResult>,
    waits: Vec<FenceWait>,
    flushes: usize,
    bound: Option<Binding>,
}

impl Device {
    fn new(regions: usize, size: usize) -> Device {
        Device {
            regions: vec![vec![0u8; size]; regions],
            pending: vec![false; regions],
            answers: Vec::new(),
            waits: Vec::new(),
            flushes: 0,
            bound: None,
        }
    }

    fn wait(&mut self, request: FenceWait) -> WaitResult {
        self.waits.push(request);
        if request.flush_first {
            self.flushes += 1;
        }
        if !self.pending[request.region] {
            return WaitResult::AlreadySignaled;
        }
        if self.answers.is_empty() {
            self.pending[request.region] = false;
            return WaitResult::ConditionSatisfied;
        }
        let answer = self.answers.remove(0);
        if answer == WaitResult::AlreadySignaled || answer == WaitResult::ConditionSatisfied {
            self.pending[request.region] = false;
        }
        answer
    }

    fn copy(&mut self, command: CopyCommand, data: &[u8]) {
        assert!(command.fits_within(self.regions[command.region].len() as isize));
        assert_eq!(data.len(), command.element_count * command.element_size);
        let first = command.element_offset as usize * command.element_size;
        self.regions[command.region][first..first + data.len()].copy_from_slice(data);
    }

    /// Carries out a synchronised write the way a driver does: ask, step,
    /// ask again, and copy and bind once the region is free.
    fn write(&mut self, command: WriteCommand, data: &[u8]) -> Result<(), WaitFailure> {
        let mut stage = WaitStage::Poll;
        let mut request = command.first_wait();
        let progress = loop {
            let answer = self.wait(request);
            match Buffer::wait_for_buffer(stage, answer) {
                WaitProgress::Retry(next) => {
                    stage = next;
                    request = stage.request(command.copy.region, command.timeout);
                }
                progress => break progress,
            }
        };
        let (copy, binding) = command.after_wait(progress)?;
        self.copy(copy, data);
        self.bound = Some(binding);
        Ok(())
    }
}

fn bytes_of(values: &[f32]) -> Vec<u8> {
    values.iter().flat_map(|v| v.to_ne_bytes()).collect()
}

#[test]
fn new_ring_binds_region_zero() {
    let (buffer, binding) = Buffer::new(48, 2, BufferType::Array(0, 12));
    assert_eq!(buffer.number_buffers(), 2);
    assert_eq!(buffer.size_buffer_bytes(), 48);
    assert_eq!(buffer.current_buffer_index(), 0);
    assert_eq!(buffer.fence_state(0), Some(FenceState::Satisfied));
    assert_eq!(buffer.fence_state(1), Some(FenceState::Satisfied));
    assert_eq!(buffer.fence_state(2), None);
    assert_eq!(
        binding,
        Binding::VertexBuffer { binding_point: 0, region: 0, offset: 0, stride: 12 }
    );
    assert_eq!(buffer.update_binding(), binding);
}

#[test]
fn index_ring_binds_as_element_array() {
    let (mut buffer, binding) = Buffer::new(24, 1, BufferType::Indice);
    assert_eq!(binding, Binding::ElementArray { region: 0 });
    let command = buffer.write_data(6, 4, 5_000_000);
    assert_eq!(command.binding, Binding::ElementArray { region: 0 });
    assert_eq!(command.copy.region, 0);
    assert_eq!(buffer.current_buffer_index(), 0);
}

#[test]
fn writes_go_round_the_ring() {
    let regions = 4;
    let (mut buffer, _) = Buffer::new(64, regions, BufferType::Array(1, 8));
    let mut visited = Vec::new();
    for _ in 0..regions {
        let command = buffer.write_data(1, 8, 10);
        assert_eq!(command.copy.region, buffer.current_buffer_index());
        visited.push(command.copy.region);
    }
    assert_eq!(visited, vec![1, 2, 3, 0]);
    let again = buffer.write_data(1, 8, 10);
    assert_eq!(again.copy.region, visited[0]);
    let mut sorted = visited.clone();
    sorted.sort();
    assert_eq!(sorted, vec![0, 1, 2, 3]);
}

#[test]
fn a_ring_on_its_last_region_starts_over_at_region_zero() {
    let regions = 3;
    let (mut buffer, _) = Buffer::new(64, regions, BufferType::Array(1, 8));
    buffer.write_data(1, 8, 10);
    buffer.write_data(1, 8, 10);
    assert_eq!(buffer.current_buffer_index(), regions - 1);
    for k in 0..regions {
        assert_eq!(buffer.write_data(1, 8, 10).copy.region, k);
    }
    assert_eq!(buffer.write_data(1, 8, 10).copy.region, 0);
}

#[test]
fn a_single_region_is_written_every_time() {
    let (mut buffer, _) = Buffer::new(64, 1, BufferType::Array(1, 8));
    for _ in 0..3 {
        assert_eq!(buffer.write_data(2, 8, 10).copy.region, 0);
        assert_eq!(buffer.current_buffer_index(), 0);
    }
}

#[test]
fn write_at_an_offset_counts_whole_elements() {
    let (mut buffer, _) = Buffer::new(120, 2, BufferType::Array(3, 12));
    let command = buffer.write_data_offset(4, 12, 77, 36);
    assert_eq!(command.timeout, 77);
    assert_eq!(
        command.copy,
        CopyCommand { region: 1, element_offset: 3, element_count: 4, element_size: 12 }
    );
    assert_eq!(
        command.binding,
        Binding::VertexBuffer { binding_point: 3, region: 1, offset: 0, stride: 12 }
    );
    let rounded = buffer.write_data_offset(1, 12, 77, 35);
    assert_eq!(rounded.copy.element_offset, 2);
    assert_eq!(rounded.copy.region, 0);
}

#[test]
fn unsynchronised_write_leaves_the_ring_alone() {
    let (mut buffer, _) = Buffer::new(48, 3, BufferType::Array(0, 12));
    buffer.write_data(1, 12, 10);
    buffer.update_fence();
    let before: Vec<_> = (0..3).map(|r| buffer.fence_state(r)).collect();
    for k in 0..5 {
        let command = buffer.write_data_no_wait_no_binding(1, 12, 12 * (k % 4));
        assert_eq!(
            command,
            CopyCommand {
                region: 1,
                element_offset: (k % 4) as isize,
                element_count: 1,
                element_size: 12
            }
        );
        assert_eq!(buffer.current_buffer_index(), 1);
        let after: Vec<_> = (0..3).map(|r| buffer.fence_state(r)).collect();
        assert_eq!(before, after);
    }
}

#[test]
fn fence_update_marks_the_current_region() {
    let (mut buffer, _) = Buffer::new(48, 2, BufferType::Array(0, 12));
    buffer.write_data(1, 12, 10);
    assert_eq!(buffer.update_fence(), 1);
    assert_eq!(buffer.fence_state(1), Some(FenceState::Pending));
    assert_eq!(buffer.fence_state(0), Some(FenceState::Satisfied));
    assert_eq!(buffer.current_buffer_index(), 1);
}

#[test]
fn repeated_fence_updates_change_nothing_more() {
    let (mut buffer, _) = Buffer::new(48, 2, BufferType::Array(0, 12));
    assert_eq!(buffer.update_fence(), 0);
    let once: Vec<_> = (0..2).map(|r| buffer.fence_state(r)).collect();
    for _ in 0..4 {
        assert_eq!(buffer.update_fence(), 0);
        let again: Vec<_> = (0..2).map(|r| buffer.fence_state(r)).collect();
        assert_eq!(once, again);
        assert_eq!(buffer.current_buffer_index(), 0);
    }
    assert_eq!(once, vec![Some(FenceState::Pending), Some(FenceState::Satisfied)]);
}

#[test]
fn a_write_waits_for_the_fence_of_its_region() {
    let (mut buffer, _) = Buffer::new(48, 2, BufferType::Array(0, 12));
    buffer.write_data(1, 12, 10);
    buffer.write_data(1, 12, 10);
    buffer.update_fence();
    assert_eq!(buffer.fence_state(0), Some(FenceState::Pending));
    buffer.write_data(1, 12, 10);
    buffer.write_data(1, 12, 10);
    assert_eq!(buffer.fence_state(0), Some(FenceState::Satisfied));
}

#[test]
fn the_four_requests_escalate() {
    assert_eq!(
        WaitStage::Poll.request(2, 500),
        FenceWait { region: 2, flush_first: false, flush_hint: false, timeout: 0 }
    );
    assert_eq!(
        WaitStage::Wait.request(2, 500),
        FenceWait { region: 2, flush_first: false, flush_hint: false, timeout: 500 }
    );
    assert_eq!(
        WaitStage::WaitFlushHint.request(2, 500),
        FenceWait { region: 2, flush_first: false, flush_hint: true, timeout: 500 }
    );
    assert_eq!(
        WaitStage::FlushThenWait.request(2, 500),
        FenceWait { region: 2, flush_first: true, flush_hint: true, timeout: 500 }
    );
}

#[test]
fn every_stage_ends_on_a_satisfied_answer() {
    for stage in
        [WaitStage::Poll, WaitStage::Wait, WaitStage::WaitFlushHint, WaitStage::FlushThenWait]
    {
        assert!(WaitResult::AlreadySignaled.is_signaled());
        assert!(WaitResult::ConditionSatisfied.is_signaled());
        assert_eq!(
            Buffer::wait_for_buffer(stage, WaitResult::AlreadySignaled),
            WaitProgress::Ready
        );
        assert_eq!(
            Buffer::wait_for_buffer(stage, WaitResult::ConditionSatisfied),
            WaitProgress::Ready
        );
    }
}

#[test]
fn unsatisfied_answers_move_to_the_next_stage() {
    for answer in [WaitResult::TimeoutExpired, WaitResult::WaitFailed] {
        assert!(!answer.is_signaled());
        assert_eq!(
            Buffer::wait_for_buffer(WaitStage::Poll, answer),
            WaitProgress::Retry(WaitStage::Wait)
        );
        assert_eq!(
            Buffer::wait_for_buffer(WaitStage::Wait, answer),
            WaitProgress::Retry(WaitStage::WaitFlushHint)
        );
        assert_eq!(
            Buffer::wait_for_buffer(WaitStage::WaitFlushHint, answer),
            WaitProgress::Retry(WaitStage::FlushThenWait)
        );
    }
}

#[test]
fn the_last_stage_fails_for_good() {
    assert_eq!(
        Buffer::wait_for_buffer(WaitStage::FlushThenWait, WaitResult::TimeoutExpired),
        WaitProgress::Fatal(WaitFailure { timeout_expired: true, wait_failed: false })
    );
    assert_eq!(
        Buffer::wait_for_buffer(WaitStage::FlushThenWait, WaitResult::WaitFailed),
        WaitProgress::Fatal(WaitFailure { timeout_expired: false, wait_failed: true })
    );
}

#[test]
fn a_satisfied_fence_needs_one_poll_and_no_flush() {
    let (mut buffer, _) = Buffer::new(48, 2, BufferType::Array(0, 12));
    let mut device = Device::new(2, 48);
    let command = buffer.write_data(2, 12, 5_000_000);
    device.write(command, &bytes_of(&[1.0, 2.0, 3.0, 4.0, 5.0, 6.0])).unwrap();
    assert_eq!(device.flushes, 0);
    assert_eq!(
        device.waits,
        vec![FenceWait { region: 1, flush_first: false, flush_hint: false, timeout: 0 }]
    );
}

#[test]
fn a_busy_fence_is_waited_for_step_by_step() {
    let (mut buffer, _) = Buffer::new(48, 1, BufferType::Array(0, 12));
    let mut device = Device::new(1, 48);
    device.pending[0] = true;
    device.answers =
        vec![WaitResult::TimeoutExpired, WaitResult::TimeoutExpired, WaitResult::TimeoutExpired];
    let command = buffer.write_data(1, 12, 900);
    device.write(command, &bytes_of(&[1.0, 2.0, 3.0])).unwrap();
    assert_eq!(device.flushes, 1);
    assert_eq!(
        device.waits,
        vec![
            FenceWait { region: 0, flush_first: false, flush_hint: false, timeout: 0 },
            FenceWait { region: 0, flush_first: false, flush_hint: false, timeout: 900 },
            FenceWait { region: 0, flush_first: false, flush_hint: true, timeout: 900 },
            FenceWait { region: 0, flush_first: true, flush_hint: true, timeout: 900 },
        ]
    );
    assert_eq!(&device.regions[0][..12], &bytes_of(&[1.0, 2.0, 3.0])[..]);
}

#[test]
fn a_fence_that_never_clears_is_fatal_and_nothing_is_copied() {
    let (mut buffer, _) = Buffer::new(48, 1, BufferType::Array(0, 12));
    let mut device = Device::new(1, 48);
    device.pending[0] = true;
    device.answers = vec![
        WaitResult::TimeoutExpired,
        WaitResult::TimeoutExpired,
        WaitResult::WaitFailed,
        WaitResult::TimeoutExpired,
    ];
    let command = buffer.write_data(1, 12, 900);
    let outcome = device.write(command, &bytes_of(&[1.0, 2.0, 3.0]));
    assert_eq!(outcome, Err(WaitFailure { timeout_expired: true, wait_failed: false }));
    assert_eq!(device.waits.len(), 4);
    assert!(device.regions[0].iter().all(|byte| *byte == 0));
    assert_eq!(device.bound, None);
}

#[test]
fn two_regions_keep_the_last_two_writes() {
    let (mut buffer, binding) = Buffer::new(48, 2, BufferType::Array(0, 12));
    let mut device = Device::new(2, 48);
    device.bound = Some(binding);
    let first = bytes_of(&[1.0, 2.0, 3.0, 4.0, 5.0, 6.0]);
    let second = bytes_of(&[7.0, 8.0, 9.0, 10.0, 11.0, 12.0]);
    let third = bytes_of(&[13.0, 14.0, 15.0, 16.0, 17.0, 18.0]);

    let command = buffer.write_data(2, 12, 5_000_000);
    let first_region = command.copy.region;
    device.write(command, &first).unwrap();
    assert_eq!(
        device.bound,
        Some(Binding::VertexBuffer {
            binding_point: 0,
            region: first_region,
            offset: 0,
            stride: 12
        })
    );

    let fenced = buffer.update_fence();
    assert_eq!(fenced, first_region);
    device.pending[fenced] = true;

    let command = buffer.write_data(2, 12, 5_000_000);
    let second_region = command.copy.region;
    assert_ne!(second_region, first_region);
    let waits_before = device.waits.len();
    device.write(command, &second).unwrap();
    assert_eq!(device.waits.len(), waits_before + 1);
    assert_eq!(device.waits[waits_before].region, second_region);
    assert_eq!(device.waits[waits_before].timeout, 0);
    assert_eq!(device.flushes, 0);
    assert_eq!(&device.regions[first_region][..24], &first[..]);
    assert_eq!(&device.regions[second_region][..24], &second[..]);
    assert!(device.regions[first_region][24..].iter().all(|byte| *byte == 0));

    let command = buffer.write_data(2, 12, 5_000_000);
    assert_eq!(command.copy.region, first_region);
    device.write(command, &third).unwrap();
    assert_eq!(&device.regions[first_region][..24], &third[..]);
    assert_eq!(&device.regions[second_region][..24], &second[..]);
    assert_eq!(first_region, 1);
    assert_eq!(second_region, 0);
}

#[test]
fn one_rotation_serves_a_whole_batch() {
    let (mut buffer, _) = Buffer::new(120, 3, BufferType::Array(4, 12));
    let before = buffer.current_buffer_index();
    let head = buffer.write_data_offset(2, 12, 10, 0);
    let mut regions = vec![head.copy.region];
    for k in 0..3 {
        regions.push(buffer.write_data_no_wait_no_binding(2, 12, 24 + 24 * k).region);
    }
    assert_eq!(regions, vec![1, 1, 1, 1]);
    assert_eq!(buffer.current_buffer_index(), (before + 1) % 3);
}

#[test]
fn a_wait_starts_with_a_poll() {
    let (mut buffer, _) = Buffer::new(48, 2, BufferType::Array(0, 12));
    let command = buffer.write_data(2, 12, 5_000_000);
    assert_eq!(
        command.first_wait(),
        FenceWait { region: 1, flush_first: false, flush_hint: false, timeout: 0 }
    );
    assert_eq!(command.first_wait(), WaitStage::Poll.request(1, 5_000_000));
}

#[test]
fn only_a_wait_that_ended_well_lets_the_copy_through() {
    let (mut buffer, _) = Buffer::new(48, 2, BufferType::Array(0, 12));
    let command = buffer.write_data_offset(2, 12, 77, 12);
    assert_eq!(command.after_wait(WaitProgress::Ready), Ok((command.copy, command.binding)));
    let failure = WaitFailure { timeout_expired: true, wait_failed: false };
    assert_eq!(command.after_wait(WaitProgress::Fatal(failure)), Err(failure));
    let failure = WaitFailure { timeout_expired: false, wait_failed: true };
    assert_eq!(command.after_wait(WaitProgress::Fatal(failure)), Err(failure));
}

#[test]
fn a_copy_fits_a_region_or_not() {
    let copy = |element_offset, element_count, element_size| CopyCommand {
        region: 0,
        element_offset,
        element_count,
        element_size,
    };
    assert!(copy(0, 4, 12).fits_within(48));
    assert!(copy(2, 2, 12).fits_within(48));
    assert!(copy(4, 0, 12).fits_within(48));
    assert!(copy(0, 0, 12).fits_within(0));
    assert!(copy(3, 7, 12).fits_within(120));
    assert!(!copy(3, 8, 12).fits_within(120));
    assert!(!copy(0, 5, 12).fits_within(48));
    assert!(!copy(3, 2, 12).fits_within(48));
    assert!(!copy(5, 0, 12).fits_within(48));
    assert!(!copy(0, 4, 12).fits_within(47));
    assert!(!copy(-1, 1, 12).fits_within(48));
    assert!(!copy(0, 1, 0).fits_within(48));
    assert!(!copy(0, 0, 12).fits_within(-1));
    assert!(!copy(isize::MAX, usize::MAX, usize::MAX).fits_within(isize::MAX));
    assert!(copy(isize::MAX, 0, 1).fits_within(isize::MAX));
    assert!(!copy(isize::MAX, 1, 1).fits_within(isize::MAX));
}

#[test]
fn the_ring_rotates_whether_or_not_the_write_fits() {
    let (mut buffer, _) = Buffer::new(48, 3, BufferType::Array(0, 12));
    let command = buffer.write_data(1000, 12, 10);
    assert_eq!(command.copy.region, 1);
    assert!(!command.copy.fits_within(buffer.size_buffer_bytes()));
    assert_eq!(buffer.current_buffer_index(), 1);
    let command = buffer.write_data(0, 12, 10);
    assert_eq!(command.copy.region, 2);
    assert!(command.copy.fits_within(buffer.size_buffer_bytes()));
    buffer.update_fence();
    let marker = buffer.write_data_no_wait_no_binding(1000, 12, 480);
    assert_eq!((marker.region, marker.element_offset), (2, 40));
    assert_eq!(buffer.current_buffer_index(), 2);
    assert_eq!(buffer.fence_state(2), Some(FenceState::Pending));
}
