//! A ring of interchangeable device memory regions, each guarded by a fence.
//!
//! The host writes into one region while the device may still be reading an
//! older one. Every write rotates to the next region, waits until the device
//! has finished with it, copies, and rebinds the read source. The ring kept
//! here is the bookkeeping half of that protocol: it decides which region is
//! touched and in which order the device is asked to wait, copy, bind and
//! fence. The commands it returns are carried out by the caller.

use vstd::prelude::*;
use vstd::arithmetic::div_mod::{
    lemma_add_mod_noop, lemma_fundamental_div_mod, lemma_mod_multiples_vanish, lemma_small_mod,
};

verus! {

pub type BindingPoint = u32;

pub type Stride = i32;

/// How the regions of a ring are bound for reads.
#[derive(Clone, Copy, Debug, PartialEq, Eq, Structural)]
pub enum BufferType {
    /// A strided per-vertex attribute source at a binding point.
    Array(BindingPoint, Stride),
    /// The source of the index list.
    Indice,
}

/// What is known of the fence that guards a region.
#[derive(Clone, Copy, Debug, PartialEq, Eq, Structural)]
pub enum FenceState {
    /// Nothing to wait for: the device is done with the region.
    Satisfied,
    /// A fence was installed after draw calls that may still read the region.
    Pending,
}

/// The read-source binding that makes one region the one the device reads.
#[derive(Clone, Copy, Debug, PartialEq, Eq, Structural)]
pub enum Binding {
    VertexBuffer { binding_point: BindingPoint, region: usize, offset: isize, stride: Stride },
    ElementArray { region: usize },
}

/// A host-side copy of `element_count` elements of `element_size` bytes each
/// into `region`, starting `element_offset` elements into it.
#[derive(Clone, Copy, Debug, PartialEq, Eq, Structural)]
pub struct CopyCommand {
    pub region: usize,
    pub element_offset: isize,
    pub element_count: usize,
    pub element_size: usize,
}

/// A synchronised write: wait for the fence of `copy.region` for at most
/// `timeout` nanoseconds per step, copy, then establish `binding`.
#[derive(Clone, Copy, Debug, PartialEq, Eq, Structural)]
pub struct WriteCommand {
    pub timeout: u64,
    pub copy: CopyCommand,
    pub binding: Binding,
}

/// The four steps of the escalating wait for a fence, cheapest first.
#[derive(Clone, Copy, Debug, PartialEq, Eq, Structural)]
pub enum WaitStage {
    /// Ask with a zero timeout: succeeds at once if the device is done.
    Poll,
    /// Wait up to the timeout without forcing anything.
    Wait,
    /// Wait up to the timeout and hint the driver to flush pending commands.
    WaitFlushHint,
    /// Submit all pending commands, then wait once more with the hint.
    FlushThenWait,
}

/// What the device answers to a wait request.
#[derive(Clone, Copy, Debug, PartialEq, Eq, Structural)]
pub enum WaitResult {
    AlreadySignaled,
    ConditionSatisfied,
    TimeoutExpired,
    WaitFailed,
}

/// One wait request to the device for the fence of `region`.
#[derive(Clone, Copy, Debug, PartialEq, Eq, Structural)]
pub struct FenceWait {
    pub region: usize,
    /// Force the submission of all pending commands before waiting.
    pub flush_first: bool,
    /// Pass the hint to flush pending commands along with the wait.
    pub flush_hint: bool,
    pub timeout: u64,
}

/// Why a wait ended for good: the answer to the last request.
#[derive(Clone, Copy, Debug, PartialEq, Eq, Structural)]
pub struct WaitFailure {
    pub timeout_expired: bool,
    pub wait_failed: bool,
}

/// Where a wait stands after an answer.
#[derive(Clone, Copy, Debug, PartialEq, Eq, Structural)]
pub enum WaitProgress {
    /// The region is free: copy.
    Ready,
    /// Ask again, at the given stage.
    Retry(WaitStage),
    /// Every step failed. Nothing may be copied; the caller has to terminate.
    Fatal(WaitFailure),
}

impl WaitResult {
    /// The two answers that say the device is done with the region.
    pub open spec fn signaled(self) -> bool {
        self == WaitResult::AlreadySignaled || self == WaitResult::ConditionSatisfied
    }

    #[verifier::when_used_as_spec(signaled)]
    pub fn is_signaled(self) -> (b: bool)
        ensures
            b == self.signaled(),
    {
        match self {
            WaitResult::AlreadySignaled => true,
            WaitResult::ConditionSatisfied => true,
            _ => false,
        }
    }
}

impl WaitStage {
    /// The request that this stage sends for `region`.
    pub open spec fn spec_request(self, region: usize, timeout: u64) -> FenceWait {
        match self {
            WaitStage::Poll => FenceWait { region, flush_first: false, flush_hint: false, timeout: 0 },
            WaitStage::Wait => FenceWait { region, flush_first: false, flush_hint: false, timeout },
            WaitStage::WaitFlushHint => FenceWait {
                region,
                flush_first: false,
                flush_hint: true,
                timeout,
            },
            WaitStage::FlushThenWait => FenceWait {
                region,
                flush_first: true,
                flush_hint: true,
                timeout,
            },
        }
    }

    #[verifier::when_used_as_spec(spec_request)]
    pub fn request(self, region: usize, timeout: u64) -> (wait: FenceWait)
        ensures
            wait == self.spec_request(region, timeout),
    {
        match self {
            WaitStage::Poll => FenceWait { region, flush_first: false, flush_hint: false, timeout: 0 },
            WaitStage::Wait => FenceWait { region, flush_first: false, flush_hint: false, timeout },
            WaitStage::WaitFlushHint => FenceWait {
                region,
                flush_first: false,
                flush_hint: true,
                timeout,
            },
            WaitStage::FlushThenWait => FenceWait {
                region,
                flush_first: true,
                flush_hint: true,
                timeout,
            },
        }
    }
}

impl WriteCommand {
    /// The request that the wait of this write starts with.
    pub open spec fn spec_first_wait(self) -> FenceWait {
        WaitStage::Poll.spec_request(self.copy.region, self.timeout)
    }

    /// The request that the wait of this write starts with: a poll of the
    /// fence of the region that is written.
    #[verifier::when_used_as_spec(spec_first_wait)]
    pub fn first_wait(self) -> (wait: FenceWait)
        ensures
            wait == WaitStage::Poll.spec_request(self.copy.region, self.timeout),
    {
        WaitStage::Poll.request(self.copy.region, self.timeout)
    }

    /// What is carried out of this write once its wait is over: the copy
    /// and the binding if the region is free, and nothing at all if the
    /// wait has failed.
    pub fn after_wait(self, progress: WaitProgress) -> (todo: Result<
        (CopyCommand, Binding),
        WaitFailure,
    >)
        requires
            !(progress is Retry),
        ensures
            progress is Ready ==> todo == Ok::<(CopyCommand, Binding), WaitFailure>(
                (self.copy, self.binding),
            ),
            progress matches WaitProgress::Fatal(failure) ==> todo == Err::<
                (CopyCommand, Binding),
                WaitFailure,
            >(failure),
    {
        match progress {
            WaitProgress::Fatal(failure) => Err(failure),
            _ => Ok((self.copy, self.binding)),
        }
    }
}

/// The escalation rule: a signaled answer ends the wait, anything else moves
/// to the next stage, and after the last stage the wait has failed.
pub open spec fn wait_step(stage: WaitStage, result: WaitResult) -> WaitProgress {
    if result.signaled() {
        WaitProgress::Ready
    } else {
        match stage {
            WaitStage::Poll => WaitProgress::Retry(WaitStage::Wait),
            WaitStage::Wait => WaitProgress::Retry(WaitStage::WaitFlushHint),
            WaitStage::WaitFlushHint => WaitProgress::Retry(WaitStage::FlushThenWait),
            WaitStage::FlushThenWait => WaitProgress::Fatal(
                WaitFailure {
                    timeout_expired: result == WaitResult::TimeoutExpired,
                    wait_failed: result == WaitResult::WaitFailed,
                },
            ),
        }
    }
}

/// The mathematical model of a ring.
pub struct BufferView {
    pub fences: Seq<FenceState>,
    pub current: int,
    pub size_bytes: int,
    pub buffer_type: BufferType,
}

impl CopyCommand {
    /// First byte of the region that the copy writes.
    pub open spec fn first_byte(self) -> int {
        self.element_offset * self.element_size
    }

    /// One past the last byte of the region that the copy writes.
    pub open spec fn end_byte(self) -> int {
        (self.element_offset + self.element_count) * self.element_size
    }

    /// Whether the copy stays inside a region of `size_bytes` bytes: it
    /// starts at or behind the first byte and ends at or before the last.
    pub open spec fn fits(self, size_bytes: int) -> bool {
        &&& 0 <= self.element_offset
        &&& 0 < self.element_size
        &&& self.end_byte() <= size_bytes
    }

    /// Whether the copy stays inside a region of `size_bytes` bytes.
    pub fn fits_within(&self, size_bytes: isize) -> (fits: bool)
        ensures
            fits == self.fits(size_bytes as int),
    {
        if self.element_offset < 0 || self.element_size == 0 || size_bytes < 0 {
            proof {
                if 0 <= self.element_offset && 0 < self.element_size {
                    assert((self.element_offset + self.element_count) * self.element_size >= 0)
                        by (nonlinear_arith)
                        requires
                            0 <= self.element_offset,
                            0 <= self.element_count,
                            0 < self.element_size,
                    ;
                }
            }
            return false;
        }
        let elements: usize = size_bytes as usize / self.element_size;
        let offset: usize = self.element_offset as usize;
        proof {
            let bytes = size_bytes as int;
            let size = self.element_size as int;
            let sum = self.element_offset + self.element_count;
            lemma_fundamental_div_mod(bytes, size);
            if sum <= bytes / size {
                assert(sum * size <= (bytes / size) * size) by (nonlinear_arith)
                    requires
                        sum <= bytes / size,
                        0 < size,
                ;
                assert((bytes / size) * size == size * (bytes / size)) by (nonlinear_arith);
            } else {
                assert(sum * size >= (bytes / size + 1) * size) by (nonlinear_arith)
                    requires
                        sum >= bytes / size + 1,
                        0 < size,
                ;
                assert((bytes / size + 1) * size == size * (bytes / size) + size)
                    by (nonlinear_arith);
            }
        }
        offset <= elements && self.element_count <= elements - offset
    }
}

impl BufferView {
    /// A ring has at least one region and no more than can be counted, and
    /// its current region is one of them.
    pub open spec fn wf(self) -> bool {
        &&& 1 <= self.fences.len() <= usize::MAX
        &&& 0 <= self.current < self.fences.len()
    }

    pub open spec fn number_buffers(self) -> int {
        self.fences.len() as int
    }

    /// A fresh ring: every fence satisfied, region 0 current.
    pub open spec fn initial(size_bytes: int, number_buffers: nat, buffer_type: BufferType) -> BufferView {
        BufferView {
            fences: Seq::new(number_buffers, |i: int| FenceState::Satisfied),
            current: 0,
            size_bytes,
            buffer_type,
        }
    }

    /// The region the next synchronised write goes to.
    pub open spec fn next_index(self) -> int {
        (self.current + 1) % self.number_buffers()
    }

    /// The binding that makes `region` the read source.
    pub open spec fn binding_of(self, region: int) -> Binding {
        match self.buffer_type {
            BufferType::Array(binding_point, stride) => Binding::VertexBuffer {
                binding_point,
                region: region as usize,
                offset: 0,
                stride,
            },
            BufferType::Indice => Binding::ElementArray { region: region as usize },
        }
    }

    /// Whether a copy stays inside the region that it goes to.
    pub open spec fn holds(self, copy: CopyCommand) -> bool {
        0 <= copy.region < self.number_buffers() && copy.fits(self.size_bytes)
    }

    /// The ring after one synchronised write: rotated by one, the fence of
    /// the new current region waited for.
    pub open spec fn after_write(self) -> BufferView {
        BufferView {
            fences: self.fences.update(self.next_index(), FenceState::Satisfied),
            current: self.next_index(),
            ..self
        }
    }

    /// The ring after `n` synchronised writes.
    pub open spec fn after_writes(self, n: nat) -> BufferView
        decreases n,
    {
        if n == 0 {
            self
        } else {
            self.after_writes((n - 1) as nat).after_write()
        }
    }

    /// Whether one of the next `n` synchronised writes goes to `region`.
    pub open spec fn writes_reach(self, n: nat, region: int) -> bool {
        exists|k: nat| 1 <= k <= n && #[trigger] self.after_writes(k).current == region
    }

    /// The ring after a fresh fence was installed for the current region.
    pub open spec fn after_fence_update(self) -> BufferView {
        BufferView { fences: self.fences.update(self.current, FenceState::Pending), ..self }
    }
}

/// The ring itself.
pub struct Buffer {
    fences: Vec<FenceState>,
    current_buffer_index: usize,
    size_buffer_bytes: isize,
    buffer_type: BufferType,
}

impl View for Buffer {
    type V = BufferView;

    closed spec fn view(&self) -> BufferView {
        BufferView {
            fences: self.fences@,
            current: self.current_buffer_index as int,
            size_bytes: self.size_buffer_bytes as int,
            buffer_type: self.buffer_type,
        }
    }
}

impl Buffer {
    /// A ring has at least one region, and its current region is one of them.
    pub open spec fn wf(&self) -> bool {
        self@.wf()
    }

    /// A ring of `number_buffers` regions of `size_buffer_bytes` bytes each,
    /// with the binding that makes region 0 the read source.
    pub fn new(size_buffer_bytes: isize, number_buffers: usize, buffer_type: BufferType) -> (made: (
        Buffer,
        Binding,
    ))
        requires
            number_buffers >= 1,
        ensures
            made.0@ == BufferView::initial(size_buffer_bytes as int, number_buffers as nat, buffer_type),
            made.0@.number_buffers() == number_buffers,
            made.0.wf(),
            made.1 == made.0@.binding_of(0),
    {
        let mut fences: Vec<FenceState> = Vec::new();
        let mut i: usize = 0;
        while i < number_buffers
            invariant
                i <= number_buffers,
                fences@.len() == i,
                forall|j: int| 0 <= j < i ==> fences@[j] == FenceState::Satisfied,
            decreases number_buffers - i,
        {
            fences.push(FenceState::Satisfied);
            i = i + 1;
        }
        let buffer = Buffer {
            fences,
            current_buffer_index: 0,
            size_buffer_bytes,
            buffer_type,
        };
        assert(buffer@.fences =~= BufferView::initial(
            size_buffer_bytes as int,
            number_buffers as nat,
            buffer_type,
        ).fences);
        let binding = buffer.update_binding();
        (buffer, binding)
    }

    /// Number of regions in the ring.
    pub fn number_buffers(&self) -> (n: usize)
        ensures
            n == self@.number_buffers(),
    {
        self.fences.len()
    }

    /// Size of each region in bytes.
    pub fn size_buffer_bytes(&self) -> (n: isize)
        ensures
            n == self@.size_bytes,
    {
        self.size_buffer_bytes
    }

    /// The region that is bound for reads.
    pub fn current_buffer_index(&self) -> (i: usize)
        ensures
            i == self@.current,
    {
        self.current_buffer_index
    }

    /// What is known of the fence of `region`.
    pub fn fence_state(&self, region: usize) -> (state: Option<FenceState>)
        ensures
            region < self@.number_buffers() ==> state == Some(self@.fences[region as int]),
            region >= self@.number_buffers() ==> state.is_none(),
    {
        if region < self.fences.len() {
            Some(self.fences[region])
        } else {
            None
        }
    }

    /// Records a synchronised write at the start of the next region.
    ///
    /// See [`Buffer::write_data_offset`].
    pub fn write_data(&mut self, element_count: usize, element_size: usize, timeout: u64) -> (command:
        WriteCommand)
        requires
            old(self).wf(),
            element_size > 0,
        ensures
            final(self)@ == old(self)@.after_write(),
            final(self)@.number_buffers() == old(self)@.number_buffers(),
            final(self).wf(),
            command.timeout == timeout,
            command.copy == (CopyCommand {
                region: old(self)@.next_index() as usize,
                element_offset: 0,
                element_count,
                element_size,
            }),
            command.binding == old(self)@.binding_of(old(self)@.next_index()),
    {
        self.write_data_offset(element_count, element_size, timeout, 0)
    }

    /// Records a synchronised write: the ring rotates to the next region,
    /// whose fence has to be waited for before `element_count` elements of
    /// `element_size` bytes are copied into it, `offset_bytes / element_size`
    /// elements from its start; the region then becomes the read source.
    ///
    /// The ring is then as it is once the write has been carried out. What
    /// is carried out is decided by the wait: it starts with
    /// [`WriteCommand::first_wait`], and [`WriteCommand::after_wait`] lets
    /// the copy and the binding through only if it ended well.
    ///
    /// The ring does not check the write against the size of its regions:
    /// that the copy fits is for the caller to see to, and
    /// [`CopyCommand::fits_within`] tells whether it does.
    pub fn write_data_offset(
        &mut self,
        element_count: usize,
        element_size: usize,
        timeout: u64,
        offset_bytes: isize,
    ) -> (command: WriteCommand)
        requires
            old(self).wf(),
            element_size > 0,
            offset_bytes >= 0,
        ensures
            final(self)@ == old(self)@.after_write(),
            final(self)@.number_buffers() == old(self)@.number_buffers(),
            final(self).wf(),
            command.timeout == timeout,
            command.copy == (CopyCommand {
                region: old(self)@.next_index() as usize,
                element_offset: (offset_bytes as int / element_size as int) as isize,
                element_count,
                element_size,
            }),
            command.binding == old(self)@.binding_of(old(self)@.next_index()),
    {
        let element_offset: isize = (offset_bytes as usize / element_size) as isize;
        let number_buffers: usize = self.fences.len();
        let next: usize = if self.current_buffer_index + 1 == number_buffers {
            0
        } else {
            self.current_buffer_index + 1
        };
        proof {
            let n = self.fences.len() as int;
            let c = self.current_buffer_index as int;
            if c + 1 == n {
                lemma_mod_multiples_vanish(1, 0, n);
            } else {
                lemma_small_mod((c + 1) as nat, n as nat);
            }
            assert(next == old(self)@.next_index());
        }
        self.current_buffer_index = next;
        self.fences.set(next, FenceState::Satisfied);
        let binding = self.update_binding();
        WriteCommand {
            timeout,
            copy: CopyCommand { region: next, element_offset, element_count, element_size },
            binding,
        }
    }

    /// Records an unsynchronised copy into the region that is already bound:
    /// no rotation, no wait, no rebinding.
    ///
    /// This bypasses the fence protocol. It is only safe where the caller
    /// knows that no device work in flight reads the bytes being overwritten.
    pub fn write_data_no_wait_no_binding(
        &mut self,
        element_count: usize,
        element_size: usize,
        offset_bytes: isize,
    ) -> (command: CopyCommand)
        requires
            old(self).wf(),
            element_size > 0,
            offset_bytes >= 0,
        ensures
            final(self)@ == old(self)@,
            final(self).wf(),
            command == (CopyCommand {
                region: old(self)@.current as usize,
                element_offset: (offset_bytes as int / element_size as int) as isize,
                element_count,
                element_size,
            }),
    {
        let element_offset: isize = (offset_bytes as usize / element_size) as isize;
        CopyCommand {
            region: self.current_buffer_index,
            element_offset,
            element_count,
            element_size,
        }
    }

    /// Records that a fresh fence replaces the one of the current region.
    /// Returns that region.
    ///
    /// To be called right after the draw calls of a frame that read from the
    /// current region were submitted.
    pub fn update_fence(&mut self) -> (region: usize)
        requires
            old(self).wf(),
        ensures
            final(self)@ == old(self)@.after_fence_update(),
            final(self)@.number_buffers() == old(self)@.number_buffers(),
            final(self).wf(),
            region == old(self)@.current,
    {
        let region: usize = self.current_buffer_index;
        self.fences.set(region, FenceState::Pending);
        region
    }

    /// One step of the escalating wait: what to do after the device answered
    /// the request of `stage` with `result`.
    pub fn wait_for_buffer(stage: WaitStage, result: WaitResult) -> (progress: WaitProgress)
        ensures
            progress == wait_step(stage, result),
    {
        if result.is_signaled() {
            return WaitProgress::Ready;
        }
        match stage {
            WaitStage::Poll => WaitProgress::Retry(WaitStage::Wait),
            WaitStage::Wait => WaitProgress::Retry(WaitStage::WaitFlushHint),
            WaitStage::WaitFlushHint => WaitProgress::Retry(WaitStage::FlushThenWait),
            WaitStage::FlushThenWait => WaitProgress::Fatal(
                WaitFailure {
                    timeout_expired: match result {
                        WaitResult::TimeoutExpired => true,
                        _ => false,
                    },
                    wait_failed: match result {
                        WaitResult::WaitFailed => true,
                        _ => false,
                    },
                },
            ),
        }
    }

    /// The binding that makes the current region the read source.
    pub fn update_binding(&self) -> (binding: Binding)
        ensures
            binding == self@.binding_of(self@.current),
    {
        match self.buffer_type {
            BufferType::Array(binding_point, stride) => Binding::VertexBuffer {
                binding_point,
                region: self.current_buffer_index,
                offset: 0,
                stride,
            },
            BufferType::Indice => Binding::ElementArray { region: self.current_buffer_index },
        }
    }
}

/// The four stages in the order in which a wait goes through them.
pub open spec fn escalation() -> Seq<WaitStage> {
    seq![WaitStage::Poll, WaitStage::Wait, WaitStage::WaitFlushHint, WaitStage::FlushThenWait]
}

/// The stages at which the device is asked when a wait starts at `stage` and
/// the device answers the requests, in order, with `results`.
pub open spec fn stages_asked(stage: WaitStage, results: Seq<WaitResult>) -> Seq<WaitStage>
    decreases results.len(),
{
    if results.len() == 0 {
        seq![stage]
    } else {
        match wait_step(stage, results[0]) {
            WaitProgress::Retry(next) => seq![stage] + stages_asked(next, results.drop_first()),
            _ => seq![stage],
        }
    }
}

/// How a wait that starts at `stage` ends under the answers `results`;
/// `None` as long as the answers given do not decide it.
pub open spec fn wait_outcome(stage: WaitStage, results: Seq<WaitResult>) -> Option<WaitProgress>
    decreases results.len(),
{
    if results.len() == 0 {
        None
    } else {
        match wait_step(stage, results[0]) {
            WaitProgress::Retry(next) => wait_outcome(next, results.drop_first()),
            done => Some(done),
        }
    }
}

/// After `n` synchronised writes the ring has the same regions, and its
/// current region is the one `n` steps further round the ring.
pub proof fn lemma_after_writes(b: BufferView, n: nat)
    requires
        b.wf(),
    ensures
        b.after_writes(n).wf(),
        b.after_writes(n).number_buffers() == b.number_buffers(),
        b.after_writes(n).current == (b.current + n) % b.number_buffers(),
        b.after_writes(n).size_bytes == b.size_bytes,
        b.after_writes(n).buffer_type == b.buffer_type,
    decreases n,
{
    let len = b.number_buffers();
    if n == 0 {
        lemma_small_mod(b.current as nat, len as nat);
    } else {
        lemma_after_writes(b, (n - 1) as nat);
        let before = b.after_writes((n - 1) as nat);
        lemma_add_mod_noop(b.current + n - 1, 1, len);
        lemma_small_mod(before.current as nat, len as nat);
        assert(before.after_write().current == (before.current + 1) % len);
        assert((b.current + n - 1) % len == before.current);
        assert(((b.current + n - 1) % len + 1int % len) % len == (b.current + n - 1 + 1) % len);
        if len == 1 {
            assert((before.current + 1) % len == (b.current + n) % len);
        } else {
            lemma_small_mod(1, len as nat);
        }
    }
}

/// Round robin: of any `N` consecutive synchronised writes on a ring of `N`
/// regions, each goes to the region after the one before it, every region is
/// written exactly once, and the write after them starts the round again.
pub proof fn lemma_round_robin(b: BufferView)
    requires
        b.wf(),
    ensures
        forall|k: nat| #[trigger]
            b.after_writes(k).current == (b.current + k) % b.number_buffers(),
        forall|k: nat| #[trigger]
            b.after_writes(k + 1).current == b.after_writes(k).next_index(),
        forall|r: int|
            0 <= r < b.number_buffers() ==> #[trigger] b.writes_reach(
                b.number_buffers() as nat,
                r,
            ),
        forall|j: nat, k: nat|
            1 <= j < k <= b.number_buffers() ==> #[trigger] b.after_writes(j).current
                != #[trigger] b.after_writes(k).current,
        b.after_writes(b.number_buffers() as nat).current == b.current,
        b.after_writes((b.number_buffers() + 1) as nat).current == b.after_writes(1).current,
{
    let len = b.number_buffers();
    let c = b.current;
    assert forall|k: nat| #[trigger] b.after_writes(k).current == (c + k) % len by {
        lemma_after_writes(b, k);
    }
    assert forall|k: nat| #[trigger]
        b.after_writes(k + 1).current == b.after_writes(k).next_index() by {
        lemma_after_writes(b, k);
        assert(b.after_writes(k + 1) == b.after_writes(k).after_write());
    }
    assert forall|r: int| 0 <= r < len implies #[trigger] b.writes_reach(len as nat, r) by {
        let k: nat = if r > c {
            (r - c) as nat
        } else {
            (r - c + len) as nat
        };
        lemma_after_writes(b, k);
        lemma_small_mod(r as nat, len as nat);
        if r > c {
            assert(c + k == r);
        } else {
            lemma_mod_multiples_vanish(1, r, len);
            assert(c + k == len * 1 + r);
        }
        assert(b.after_writes(k).current == r);
    }
    assert forall|j: nat, k: nat| 1 <= j < k <= len implies #[trigger] b.after_writes(j).current
        != #[trigger] b.after_writes(k).current by {
        lemma_after_writes(b, j);
        lemma_after_writes(b, k);
        lemma_distinct_residues(c + j, c + k, len);
    }
    lemma_after_writes(b, len as nat);
    lemma_mod_multiples_vanish(1, c, len);
    lemma_small_mod(c as nat, len as nat);
    lemma_after_writes(b, (len + 1) as nat);
    lemma_after_writes(b, 1);
    lemma_mod_multiples_vanish(1, c + 1, len);
}

/// Round robin, counted from region 0: where the first of `N + 1` writes
/// goes to region 0, the `k`-th goes to region `k - 1`, and the one after
/// the `N`-th wraps to region 0.
pub proof fn lemma_round_robin_from_region_zero(b: BufferView)
    requires
        b.wf(),
        b.current == b.number_buffers() - 1,
    ensures
        forall|k: nat|
            1 <= k <= b.number_buffers() ==> #[trigger] b.after_writes(k).current == k - 1,
        b.after_writes((b.number_buffers() + 1) as nat).current == 0,
{
    let len = b.number_buffers();
    assert forall|k: nat| 1 <= k <= len implies #[trigger] b.after_writes(k).current == k - 1 by {
        lemma_after_writes(b, k);
        lemma_mod_multiples_vanish(1, k - 1, len);
        lemma_small_mod((k - 1) as nat, len as nat);
    }
    lemma_after_writes(b, (len + 1) as nat);
    lemma_mod_multiples_vanish(2, 0, len);
}

/// Two numbers less than `m` apart have different residues modulo `m`.
proof fn lemma_distinct_residues(x: int, y: int, m: int)
    requires
        0 <= x < y < x + m,
    ensures
        x % m != y % m,
{
    lemma_fundamental_div_mod(x, m);
    lemma_fundamental_div_mod(y, m);
    if x % m == y % m {
        let d = y / m - x / m;
        assert(y - x == m * (y / m) - m * (x / m));
        assert(m * (y / m) - m * (x / m) == m * d) by (nonlinear_arith)
            requires
                d == y / m - x / m,
        ;
        assert(false) by (nonlinear_arith)
            requires
                0 < m * d < m,
        ;
    }
}

/// Replacing the fence of the current region again, with no write in
/// between, changes nothing more than the first replacement did.
pub proof fn lemma_update_fence_idempotent(b: BufferView)
    requires
        b.wf(),
    ensures
        b.after_fence_update().wf(),
        b.after_fence_update().after_fence_update() == b.after_fence_update(),
        b.after_fence_update().current == b.current,
        b.after_fence_update().fences[b.current] == FenceState::Pending,
        forall|r: int|
            0 <= r < b.number_buffers() && r != b.current
                ==> b.after_fence_update().fences[r] == b.fences[r],
{
    assert(b.after_fence_update().after_fence_update().fences =~= b.after_fence_update().fences);
}

/// Fast path: where the fence is already satisfied, the wait is over after
/// one poll with a zero timeout. Nothing is flushed and no flush is hinted.
pub proof fn lemma_satisfied_fence_fast_path(results: Seq<WaitResult>, region: usize, timeout: u64)
    requires
        results.len() >= 1,
        results[0].signaled(),
    ensures
        wait_outcome(WaitStage::Poll, results) == Some(WaitProgress::Ready),
        stages_asked(WaitStage::Poll, results) == seq![WaitStage::Poll],
        forall|i: int|
            0 <= i < stages_asked(WaitStage::Poll, results).len() ==> {
                let wait = (#[trigger] stages_asked(WaitStage::Poll, results)[i]).spec_request(
                    region,
                    timeout,
                );
                !wait.flush_first && !wait.flush_hint && wait.timeout == 0
            },
{
}

/// Escalation: a wait asks the device at most four times, stage by stage in
/// the order of [`escalation`]; it asks again only after an unsatisfied
/// answer, forces a flush only with the fourth request, is over at the first
/// satisfied answer, and has failed once four answers were unsatisfied.
pub proof fn lemma_wait_escalation(results: Seq<WaitResult>)
    ensures
        1 <= stages_asked(WaitStage::Poll, results).len() <= 4,
        stages_asked(WaitStage::Poll, results).len() <= results.len() + 1,
        forall|i: int|
            0 <= i < stages_asked(WaitStage::Poll, results).len() ==> #[trigger] stages_asked(
                WaitStage::Poll,
                results,
            )[i] == escalation()[i],
        forall|j: int|
            0 <= j < stages_asked(WaitStage::Poll, results).len() - 1 ==> !(
            #[trigger] results[j]).signaled(),
        forall|i: int, region: usize, timeout: u64|
            0 <= i < stages_asked(WaitStage::Poll, results).len() && (#[trigger] stages_asked(
                WaitStage::Poll,
                results,
            )[i].spec_request(region, timeout)).flush_first ==> i == 3,
        wait_outcome(WaitStage::Poll, results) == Some(WaitProgress::Ready) <==> exists|j: int|
            0 <= j < results.len() && j < 4 && (#[trigger] results[j]).signaled(),
        wait_outcome(WaitStage::Poll, results) is Some && wait_outcome(
            WaitStage::Poll,
            results,
        )->0 is Fatal <==> results.len() >= 4 && forall|j: int|
            0 <= j < 4 ==> !(#[trigger] results[j]).signaled(),
        wait_outcome(WaitStage::Poll, results) is Some ==> !(wait_outcome(
            WaitStage::Poll,
            results,
        )->0 is Retry),
{
    reveal_with_fuel(stages_asked, 5);
    reveal_with_fuel(wait_outcome, 5);
    let r1 = results.drop_first();
    let r2 = r1.drop_first();
    let r3 = r2.drop_first();
    if results.len() >= 1 {
        assert(r1.len() == results.len() - 1);
        if results.len() >= 2 {
            assert(r1[0] == results[1]);
            assert(r2.len() == results.len() - 2);
            if results.len() >= 3 {
                assert(r2[0] == results[2]);
                assert(r3.len() == results.len() - 3);
                if results.len() >= 4 {
                    assert(r3[0] == results[3]);
                }
            }
        }
    }
}

} // verus!
