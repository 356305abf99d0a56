//! The renderer's share of the frame protocol: where each frame's uniform
//! block lies in the ring of slots, and when a frame may be submitted.
use vstd::prelude::*;
use crate::dispatch_semaphore::{DispatchSemaphore, GateState, SignalOutcome, DISPATCH_TIME_FOREVER};

verus! {

/// The number of frames that may be in flight, and of slots in the ring.
pub const MBE_IN_FLIGHT_BUFFER_COUNT: u64 = 3;

/// The boundary, in bytes, on which every slot starts.
pub const MBE_BUFFER_ALIGNMENT: u32 = 256;

/// The size, in bytes, of one index of the index buffer.
pub const MBE_INDEX_SIZE: u64 = 2;

/// `n` rounded up to a multiple of `alignment`.
pub open spec fn spec_align_up(n: int, alignment: int) -> int {
    ((n + (alignment - 1)) / alignment) * alignment
}

/// The distance in bytes between two neighbouring slots.
pub open spec fn spec_stride(uniform_size: int) -> int {
    spec_align_up(uniform_size, MBE_BUFFER_ALIGNMENT as int)
}

/// The offset in bytes at which slot `index` starts.
pub open spec fn spec_slot_offset(uniform_size: int, index: int) -> int {
    spec_stride(uniform_size) * index
}

/// The length in bytes of the whole ring.
pub open spec fn spec_ring_length(uniform_size: int) -> int {
    spec_stride(uniform_size) * MBE_IN_FLIGHT_BUFFER_COUNT as int
}

/// The slot that follows slot `index` in the ring.
pub open spec fn spec_next_slot(index: int) -> int {
    (index + 1) % (MBE_IN_FLIGHT_BUFFER_COUNT as int)
}

/// Rounding up gives the least multiple of the alignment that is not below
/// `n`: it is a multiple, it is at least `n`, and it is less than one
/// alignment above `n`.
pub proof fn lemma_align_up(n: int, alignment: int)
    requires
        n >= 0,
        alignment > 0,
    ensures
        spec_align_up(n, alignment) % alignment == 0,
        n <= spec_align_up(n, alignment) < n + alignment,
        n % alignment == 0 ==> spec_align_up(n, alignment) == n,
{
    let m = n + alignment - 1;
    let q = m / alignment;
    vstd::arithmetic::div_mod::lemma_fundamental_div_mod(m, alignment);
    vstd::arithmetic::div_mod::lemma_mod_pos_bound(m, alignment);
    vstd::arithmetic::div_mod::lemma_mod_multiples_basic(q, alignment);
    if n % alignment == 0 {
        vstd::arithmetic::div_mod::lemma_fundamental_div_mod(n, alignment);
        let k = n / alignment;
        vstd::arithmetic::div_mod::lemma_fundamental_div_mod_converse(
            m,
            alignment,
            k,
            alignment - 1,
        );
    }
}

/// Rounds `n` up to a multiple of `alignment`.
#[inline]
pub fn align_up(n: u64, alignment: u32) -> (r: u64)
    requires
        alignment > 0,
        n + alignment - 1 <= u64::MAX,
    ensures
        r == spec_align_up(n as int, alignment as int),
        r % (alignment as u64) == 0,
        n <= r < n + alignment,
{
    let alignment: u64 = alignment as u64;
    proof {
        lemma_align_up(n as int, alignment as int);
    }
    ((n + (alignment - 1)) / alignment) * alignment
}

/// The slots of the ring do not overlap: each starts on the alignment
/// boundary, holds a whole uniform block, ends where the next one starts or
/// before, and lies inside the ring.
pub proof fn lemma_slots_disjoint(uniform_size: int, i: int, j: int)
    requires
        uniform_size >= 0,
        0 <= i < j < MBE_IN_FLIGHT_BUFFER_COUNT,
    ensures
        spec_stride(uniform_size) >= uniform_size,
        spec_slot_offset(uniform_size, i) % (MBE_BUFFER_ALIGNMENT as int) == 0,
        spec_slot_offset(uniform_size, j) % (MBE_BUFFER_ALIGNMENT as int) == 0,
        spec_slot_offset(uniform_size, i) + uniform_size <= spec_slot_offset(uniform_size, j),
        0 <= spec_slot_offset(uniform_size, i),
        spec_slot_offset(uniform_size, j) + uniform_size <= spec_ring_length(uniform_size),
{
    let a = MBE_BUFFER_ALIGNMENT as int;
    let s = spec_stride(uniform_size);
    lemma_align_up(uniform_size, a);
    let q = (uniform_size + a - 1) / a;
    assert(spec_slot_offset(uniform_size, i) == a * (q * i)) by (nonlinear_arith)
        requires
            spec_slot_offset(uniform_size, i) == (q * a) * i,
    ;
    assert(spec_slot_offset(uniform_size, j) == a * (q * j)) by (nonlinear_arith)
        requires
            spec_slot_offset(uniform_size, j) == (q * a) * j,
    ;
    vstd::arithmetic::div_mod::lemma_mod_multiples_basic(q * i, a);
    vstd::arithmetic::div_mod::lemma_mod_multiples_basic(q * j, a);
    assert(s * i + s <= s * j && 0 <= s * i && s * j + s <= s * 3) by (nonlinear_arith)
        requires
            s >= 0,
            0 <= i < j < 3,
    ;
}

/// What the renderer is, mathematically: the size of one uniform block,
/// the slot that the next frame writes, and the semaphore.
pub struct RendererState {
    pub uniform_size: nat,
    pub buffer_index: nat,
    pub gate: GateState,
}

/// What the caller of `draw_in_view` has to do.
#[derive(Copy, Clone, Debug, PartialEq, Eq, Structural)]
pub enum DrawAction {
    /// Every slot is taken by a frame in flight: block until a frame
    /// completes, then call `draw_in_view` again.
    Wait,
    /// Write the uniform block at `uniform_buffer_offset`, bind the uniform
    /// buffer at that offset, draw `index_count` indices and commit.
    Submit { uniform_buffer_offset: u64, index_count: u64 },
}

impl RendererState {
    /// A renderer that has drawn nothing yet.
    pub open spec fn initial(uniform_size: nat) -> RendererState {
        RendererState {
            uniform_size,
            buffer_index: 0,
            gate: GateState::initial(MBE_IN_FLIGHT_BUFFER_COUNT as nat),
        }
    }

    /// The frames that were submitted and have not completed.
    pub open spec fn frames_in_flight(self) -> int {
        self.gate.checked_out()
    }

    /// The offset of the slot that the next frame writes.
    pub open spec fn uniform_buffer_offset(self) -> int {
        spec_slot_offset(self.uniform_size as int, self.buffer_index as int)
    }

    /// The number of indices in an index buffer of the given length.
    pub open spec fn index_count(index_buffer_length: u64) -> int {
        index_buffer_length as int / MBE_INDEX_SIZE as int
    }

    /// The renderer after a call of `draw_in_view`: only the semaphore
    /// changes.
    pub open spec fn after_draw(self) -> RendererState {
        RendererState { gate: self.gate.after_wait(DISPATCH_TIME_FOREVER), ..self }
    }

    /// The renderer after a frame has completed: the ring moves on by one
    /// slot and the semaphore gets its permit back. Where no frame was in
    /// flight nothing changes.
    pub open spec fn after_completion(self) -> RendererState {
        if self.gate.count >= self.gate.limit {
            self
        } else {
            RendererState {
                buffer_index: spec_next_slot(self.buffer_index as int) as nat,
                gate: self.gate.after_signal(),
                ..self
            }
        }
    }
}

/// The renderer's part of the frame protocol.
#[derive(Debug)]
pub struct RustMBERenderer {
    uniform_size: u64,
    buffer_index: u64,
    display_semaphore: DispatchSemaphore,
}

impl RustMBERenderer {
    /// The renderer as a mathematical value.
    pub closed spec fn view(&self) -> RendererState {
        RendererState {
            uniform_size: self.uniform_size as nat,
            buffer_index: self.buffer_index as nat,
            gate: self.display_semaphore@,
        }
    }

    /// The invariant of the type: the ring fits the address range, the
    /// current slot is one of the ring's, and the semaphore has one permit
    /// for each slot, of which no more are free than there are.
    pub open spec fn wf(&self) -> bool {
        &&& spec_ring_length(self@.uniform_size as int) <= u64::MAX
        &&& self@.uniform_size <= u64::MAX
        &&& self@.buffer_index < MBE_IN_FLIGHT_BUFFER_COUNT
        &&& self@.gate.limit == MBE_IN_FLIGHT_BUFFER_COUNT
        &&& self@.gate.count <= self@.gate.limit
        &&& self@.gate.waiting <= u64::MAX
    }

    /// Makes the renderer for uniform blocks of `uniform_size` bytes, with
    /// no frame in flight and the first slot current. There is none where
    /// the ring would not fit in 64 bits.
    pub fn new(uniform_size: u64) -> (r: Option<Self>)
        ensures
            r is Some <==> spec_ring_length(uniform_size as int) <= u64::MAX,
            r matches Some(renderer) ==> renderer.wf() && renderer@ == RendererState::initial(
                uniform_size as nat,
            ),
    {
        if uniform_size > u64::MAX - (MBE_BUFFER_ALIGNMENT as u64 - 1) {
            return None;
        }
        let stride: u64 = align_up(uniform_size, MBE_BUFFER_ALIGNMENT);
        if stride > u64::MAX / MBE_IN_FLIGHT_BUFFER_COUNT {
            return None;
        }
        match DispatchSemaphore::create(MBE_IN_FLIGHT_BUFFER_COUNT as i64) {
            Some(display_semaphore) => Some(
                RustMBERenderer { uniform_size, buffer_index: 0, display_semaphore },
            ),
            None => None,
        }
    }

    /// The size in bytes of one uniform block.
    pub fn uniform_size(&self) -> (r: u64)
        ensures
            r == self@.uniform_size,
    {
        self.uniform_size
    }

    /// The slot that the next frame writes.
    pub fn buffer_index(&self) -> (r: u64)
        ensures
            r == self@.buffer_index,
    {
        self.buffer_index
    }

    /// The frames that were submitted and have not completed.
    pub fn frames_in_flight(&self) -> (r: u64)
        requires
            self.wf(),
        ensures
            r == self@.frames_in_flight(),
            r <= MBE_IN_FLIGHT_BUFFER_COUNT,
    {
        self.display_semaphore.checked_out()
    }

    /// The callers that were told to wait for a slot and have not been
    /// woken.
    pub fn blocked_callers(&self) -> (r: u64)
        ensures
            r == self@.gate.waiting,
    {
        self.display_semaphore.waiting()
    }

    /// The distance in bytes between two slots.
    pub fn uniform_buffer_stride(&self) -> (r: u64)
        requires
            self.wf(),
        ensures
            r == spec_stride(self@.uniform_size as int),
            r % (MBE_BUFFER_ALIGNMENT as u64) == 0,
            r >= self@.uniform_size,
    {
        align_up(self.uniform_size, MBE_BUFFER_ALIGNMENT)
    }

    /// The length in bytes of the uniform buffer: one stride for each slot.
    pub fn uniform_buffer_length(&self) -> (r: u64)
        requires
            self.wf(),
        ensures
            r == spec_ring_length(self@.uniform_size as int),
    {
        self.uniform_buffer_stride() * MBE_IN_FLIGHT_BUFFER_COUNT
    }

    /// The offset in bytes of the current slot in the uniform buffer.
    #[inline]
    pub fn uniform_buffer_offset(&self) -> (r: u64)
        requires
            self.wf(),
        ensures
            r == self@.uniform_buffer_offset(),
            r % (MBE_BUFFER_ALIGNMENT as u64) == 0,
            r + self@.uniform_size <= spec_ring_length(self@.uniform_size as int),
    {
        let stride: u64 = self.uniform_buffer_stride();
        proof {
            let s = stride as int;
            let i = self.buffer_index as int;
            let a = MBE_BUFFER_ALIGNMENT as int;
            assert(0 <= s * i && s * i + s <= s * 3) by (nonlinear_arith)
                requires
                    s >= 0,
                    0 <= i < 3,
            ;
            let q = s / a;
            vstd::arithmetic::div_mod::lemma_fundamental_div_mod(s, a);
            assert(s * i == a * (q * i)) by (nonlinear_arith)
                requires
                    s == a * q,
            ;
            vstd::arithmetic::div_mod::lemma_mod_multiples_basic(q * i, a);
        }
        stride * self.buffer_index
    }

    /// Starts a frame. Where a slot is free the frame takes it and the
    /// caller is told where to write and what to draw; where the ring is
    /// full the caller is told to wait, and is counted as blocked.
    pub fn draw_in_view(&mut self, index_buffer_length: u64) -> (action: DrawAction)
        requires
            old(self).wf(),
            old(self)@.gate.waiting < u64::MAX,
        ensures
            final(self).wf(),
            final(self)@ == old(self)@.after_draw(),
            old(self)@.gate.grants() ==> action == (DrawAction::Submit {
                uniform_buffer_offset: old(self)@.uniform_buffer_offset() as u64,
                index_count: RendererState::index_count(index_buffer_length) as u64,
            }),
            !old(self)@.gate.grants() ==> action == DrawAction::Wait,
    {
        if self.display_semaphore.wait(DISPATCH_TIME_FOREVER) {
            let uniform_buffer_offset: u64 = self.uniform_buffer_offset();
            DrawAction::Submit {
                uniform_buffer_offset,
                index_count: index_buffer_length / MBE_INDEX_SIZE,
            }
        } else {
            DrawAction::Wait
        }
    }

    /// Records that the oldest frame in flight has completed: the ring moves
    /// on to the next slot and the semaphore gets a permit back, which wakes
    /// one blocked caller if there is one. Where no frame is in flight
    /// nothing changes.
    pub fn command_buffer_completed(&mut self) -> (outcome: SignalOutcome)
        requires
            old(self).wf(),
        ensures
            final(self).wf(),
            final(self)@ == old(self)@.after_completion(),
            outcome == old(self)@.gate.signal_outcome(),
    {
        if self.display_semaphore.checked_out() == 0 {
            SignalOutcome::NothingCheckedOut
        } else {
            self.buffer_index = (self.buffer_index + 1) % MBE_IN_FLIGHT_BUFFER_COUNT;
            self.display_semaphore.signal()
        }
    }
}

/// A step of the protocol.
pub enum FrameEvent {
    /// The clock ticked and `draw_in_view` was called.
    Draw,
    /// The device reported a frame as complete.
    Completed,
}

impl RendererState {
    /// The renderer after one step.
    pub open spec fn after(self, event: FrameEvent) -> RendererState {
        match event {
            FrameEvent::Draw => self.after_draw(),
            FrameEvent::Completed => self.after_completion(),
        }
    }

    /// The renderer after a sequence of steps, first to last.
    pub open spec fn after_all(self, events: Seq<FrameEvent>) -> RendererState
        decreases events.len(),
    {
        if events.len() == 0 {
            self
        } else {
            self.after_all(events.drop_last()).after(events.last())
        }
    }
}

/// However ticks and completions interleave, no more frames are in flight
/// than the ring has slots, the current slot is one of the ring's, and the
/// size of a uniform block stays what it was.
pub proof fn lemma_frames_in_flight_bounded(uniform_size: nat, events: Seq<FrameEvent>)
    ensures
        0 <= RendererState::initial(uniform_size).after_all(events).frames_in_flight()
            <= MBE_IN_FLIGHT_BUFFER_COUNT,
        RendererState::initial(uniform_size).after_all(events).buffer_index
            < MBE_IN_FLIGHT_BUFFER_COUNT,
        RendererState::initial(uniform_size).after_all(events).gate.limit
            == MBE_IN_FLIGHT_BUFFER_COUNT,
        RendererState::initial(uniform_size).after_all(events).uniform_size == uniform_size,
    decreases events.len(),
{
    if events.len() > 0 {
        lemma_frames_in_flight_bounded(uniform_size, events.drop_last());
    }
}

/// The current slot moves only when a frame completes: a frame that is
/// started leaves it where it was, so two frames started with no completion
/// between them are told to write the same slot.
pub proof fn lemma_slot_moves_only_on_completion(s: RendererState)
    requires
        s.buffer_index < MBE_IN_FLIGHT_BUFFER_COUNT,
        s.gate.bounded(),
    ensures
        s.after_draw().buffer_index == s.buffer_index,
        s.after_draw().uniform_buffer_offset() == s.uniform_buffer_offset(),
        s.after_draw().after_draw().uniform_buffer_offset() == s.uniform_buffer_offset(),
        s.frames_in_flight() > 0 ==> s.after_completion().buffer_index == spec_next_slot(
            s.buffer_index as int,
        ) && s.after_completion().frames_in_flight() == s.frames_in_flight() - 1,
        s.frames_in_flight() == 0 ==> s.after_completion() == s,
        s.gate.grants() ==> s.after_draw().frames_in_flight() == s.frames_in_flight() + 1,
        !s.gate.grants() ==> s.after_draw().frames_in_flight() == s.frames_in_flight(),
{
}

/// The ring is walked round-robin: as many completions as there are slots
/// bring the current slot back to where it was.
pub proof fn lemma_ring_round_robin(index: int)
    requires
        0 <= index < MBE_IN_FLIGHT_BUFFER_COUNT,
    ensures
        0 <= spec_next_slot(index) < MBE_IN_FLIGHT_BUFFER_COUNT,
        spec_next_slot(index) != index,
        spec_next_slot(spec_next_slot(spec_next_slot(index))) == index,
{
}

} // verus!
