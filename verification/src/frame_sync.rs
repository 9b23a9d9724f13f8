//! Frame synchronizer: paces N in-flight frames.
//!
//! Each of the N fixed slots owns one fence, one "image-available"
//! semaphore, one "render-finished" semaphore and one command buffer
//! (all identified here by the slot index). The synchronizer decides,
//! for every step of a frame, which slot's objects the surrounding
//! frame loop must use and in which order; the loop performs the GPU
//! calls and reports each completion back. A slot is handed out again
//! only after its fence has been confirmed signaled, which is the only
//! CPU-GPU backpressure point of a frame.

use vstd::prelude::*;

verus! {

/// One of the per-slot GPU semaphores, identified by its slot.
#[derive(Clone, Copy, PartialEq, Eq, Structural, Debug)]
pub enum SemaphoreId {
    /// Signaled by the acquire operation once the swapchain image is free.
    ImageAvailable { slot: usize },
    /// Signaled by the queue once the slot's draw commands finish.
    RenderFinished { slot: usize },
}

/// Lifecycle of one frame slot.
#[derive(Clone, Copy, PartialEq, Eq, Structural, Debug)]
pub enum SlotPhase {
    /// Free for reuse once its fence is confirmed signaled.
    Idle,
    /// An image acquire has been requested with the slot's semaphore.
    Acquiring,
    /// An image is acquired; draw commands may be recorded.
    Recording,
    /// The slot's command buffer has been submitted, fence pending.
    Submitted,
    /// Presentation of the acquired image has been requested.
    Presenting,
}

/// One frame slot: its progress and what the CPU knows of its fence.
#[derive(Clone, Copy, PartialEq, Eq, Structural, Debug)]
pub struct Slot {
    pub phase: SlotPhase,
    /// True once a completed wait confirmed the slot's fence signaled;
    /// reset when the fence is reset at submission.
    pub fence_signaled: bool,
    /// Swapchain image acquired for this slot; meaningful from the
    /// Recording phase until the frame is presented.
    pub image_index: u32,
}

/// Why a synchronizer step was refused. Every refusal leaves the
/// synchronizer unchanged.
#[derive(Clone, Copy, PartialEq, Eq, Structural, Debug)]
pub enum SyncError {
    /// A synchronizer needs at least one slot.
    ZeroSlots,
    /// The active slot is still mid-frame.
    SlotNotIdle,
    /// The active slot's fence has not been confirmed signaled, so the
    /// slot's objects may still be read by the GPU.
    FenceNotSignaled,
    /// No acquire is outstanding on the active slot.
    NotAcquiring,
    /// The active slot is not recording.
    NotRecording,
    /// The active slot has no submission to present.
    NotSubmitted,
    /// No presentation is outstanding on the active slot.
    NotPresenting,
}

/// What the acquire operation must be given.
#[derive(Clone, Copy, PartialEq, Eq, Structural, Debug)]
pub struct AcquireInfo {
    pub slot: usize,
    /// Semaphore the acquire operation signals when the image is ready.
    pub signal_semaphore: SemaphoreId,
}

/// What the queue submission must be given: reset the fence first, then
/// submit the slot's command buffer gated on the semaphore chain.
#[derive(Clone, Copy, PartialEq, Eq, Structural, Debug)]
pub struct SubmitInfo {
    pub slot: usize,
    /// The slot's command buffer, identified by slot index.
    pub command_buffer: usize,
    pub image_index: u32,
    /// Wait for the image before color output: the acquire's semaphore.
    pub wait_semaphore: SemaphoreId,
    /// Signal this when the draw commands finish.
    pub signal_semaphore: SemaphoreId,
    /// The slot's fence, identified by slot index: reset before the
    /// submission, signaled by the GPU when the submission completes.
    pub fence: usize,
}

/// What the presentation request must be given.
#[derive(Clone, Copy, PartialEq, Eq, Structural, Debug)]
pub struct PresentInfo {
    pub slot: usize,
    pub image_index: u32,
    /// Presentation waits on the slot's render-finished semaphore.
    pub wait_semaphore: SemaphoreId,
}

/// Paces N in-flight frames across N fixed slots.
pub struct FrameSync {
    num_slots: usize,
    frames_completed: u64,
    slots: Vec<Slot>,
}

impl FrameSync {
    /// Well-formedness: at least one slot, one record per slot, and no
    /// slot whose GPU work may still be pending (submitted or presenting)
    /// has its fence counted as confirmed signaled.
    pub closed spec fn inv(self) -> bool {
        &&& self.num_slots >= 1
        &&& self.slots@.len() == self.num_slots
        &&& forall|i: int| #![auto] 0 <= i < self.slots@.len()
            ==> ((self.slots@[i].phase == SlotPhase::Submitted
                || self.slots@[i].phase == SlotPhase::Presenting)
                ==> !self.slots@[i].fence_signaled)
    }

    pub closed spec fn slot_count(self) -> int {
        self.num_slots as int
    }

    /// Frames completed (presented) so far.
    pub closed spec fn frames(self) -> int {
        self.frames_completed as int
    }

    pub closed spec fn slot(self, i: int) -> Slot {
        self.slots@[i]
    }

    /// The slot that frame k uses, for any frame counter k and slot count n.
    pub open spec fn slot_for_frame(k: int, n: int) -> int {
        k % n
    }

    /// The active slot: the one the next frame step works on.
    pub open spec fn active(self) -> int {
        Self::slot_for_frame(self.frames(), self.slot_count())
    }

    /// A new frame may start: the active slot is free and its fence is
    /// confirmed signaled.
    pub open spec fn can_begin_frame(self) -> bool {
        &&& self.slot(self.active()).phase == SlotPhase::Idle
        &&& self.slot(self.active()).fence_signaled
    }

    /// Creates a synchronizer with `num_slots` slots, every slot idle and
    /// its fence created already signaled, so the first `num_slots` frames
    /// start without waiting.
    pub fn new(num_slots: usize) -> (r: Result<FrameSync, SyncError>)
        ensures
            match r {
                Ok(f) => {
                    &&& num_slots >= 1
                    &&& f.inv()
                    &&& f.slot_count() == num_slots
                    &&& f.frames() == 0
                    &&& forall|i: int| #![auto] 0 <= i < num_slots ==> f.slot(i)
                        == (Slot { phase: SlotPhase::Idle, fence_signaled: true, image_index: 0 })
                },
                Err(e) => e == SyncError::ZeroSlots && num_slots == 0,
            },
    {
        if num_slots == 0 {
            return Err(SyncError::ZeroSlots);
        }
        let mut slots: Vec<Slot> = Vec::new();
        let mut i: usize = 0;
        while i < num_slots
            invariant
                i <= num_slots,
                slots@.len() == i,
                forall|j: int| #![auto] 0 <= j < i ==> slots@[j]
                    == (Slot { phase: SlotPhase::Idle, fence_signaled: true, image_index: 0 }),
            decreases num_slots - i,
        {
            slots.push(Slot { phase: SlotPhase::Idle, fence_signaled: true, image_index: 0 });
            i = i + 1;
        }
        Ok(FrameSync { num_slots, frames_completed: 0, slots })
    }

    /// The active slot index: frames completed so far, modulo the slot count.
    pub fn current_slot(&self) -> (s: usize)
        requires
            self.inv(),
        ensures
            s as int == self.active(),
            0 <= s < self.slot_count(),
    {
        (self.frames_completed % (self.num_slots as u64)) as usize
    }

    /// Starts a frame on the active slot. Succeeds exactly when the slot is
    /// idle with its fence confirmed signaled (the blocking fence wait of a
    /// frame happens before this step, see `fence_wait_completed`); the
    /// image acquire must then be issued with the returned semaphore.
    pub fn begin_frame(&mut self) -> (r: Result<AcquireInfo, SyncError>)
        requires
            old(self).inv(),
        ensures
            final(self).inv(),
            final(self).slot_count() == old(self).slot_count(),
            final(self).frames() == old(self).frames(),
            match r {
                Ok(info) => {
                    let a = old(self).active();
                    &&& old(self).can_begin_frame()
                    &&& info.slot as int == a
                    &&& info.signal_semaphore == (SemaphoreId::ImageAvailable { slot: info.slot })
                    &&& final(self).slot(a) == (Slot {
                        phase: SlotPhase::Acquiring,
                        ..old(self).slot(a)
                    })
                    &&& forall|i: int| #![auto] 0 <= i < old(self).slot_count() && i != a
                        ==> final(self).slot(i) == old(self).slot(i)
                },
                Err(e) => {
                    &&& !old(self).can_begin_frame()
                    &&& *final(self) == *old(self)
                    &&& e == (if old(self).slot(old(self).active()).phase != SlotPhase::Idle {
                        SyncError::SlotNotIdle
                    } else {
                        SyncError::FenceNotSignaled
                    })
                },
            },
    {
        let cur = self.current_slot();
        let s = self.slots[cur];
        if s.phase != SlotPhase::Idle {
            Err(SyncError::SlotNotIdle)
        } else if !s.fence_signaled {
            Err(SyncError::FenceNotSignaled)
        } else {
            self.slots[cur] = Slot { phase: SlotPhase::Acquiring, ..s };
            Ok(AcquireInfo {
                slot: cur,
                signal_semaphore: SemaphoreId::ImageAvailable { slot: cur },
            })
        }
    }

    /// Reports that the blocking wait on the active slot's fence returned:
    /// the GPU work of the slot's previous frame is complete and the slot
    /// may be rewritten. Succeeds exactly when the slot is idle.
    pub fn fence_wait_completed(&mut self) -> (r: Result<(), SyncError>)
        requires
            old(self).inv(),
        ensures
            final(self).inv(),
            final(self).slot_count() == old(self).slot_count(),
            final(self).frames() == old(self).frames(),
            match r {
                Ok(_) => {
                    let a = old(self).active();
                    &&& old(self).slot(a).phase == SlotPhase::Idle
                    &&& final(self).slot(a) == (Slot { fence_signaled: true, ..old(self).slot(a) })
                    &&& forall|i: int| #![auto] 0 <= i < old(self).slot_count() && i != a
                        ==> final(self).slot(i) == old(self).slot(i)
                    &&& final(self).can_begin_frame()
                },
                Err(e) => {
                    &&& old(self).slot(old(self).active()).phase != SlotPhase::Idle
                    &&& *final(self) == *old(self)
                    &&& e == SyncError::SlotNotIdle
                },
            },
    {
        let cur = self.current_slot();
        let s = self.slots[cur];
        if s.phase != SlotPhase::Idle {
            Err(SyncError::SlotNotIdle)
        } else {
            self.slots[cur] = Slot { fence_signaled: true, ..s };
            Ok(())
        }
    }

    /// Reports the image index the acquire operation returned for the
    /// active slot. Succeeds exactly when an acquire is outstanding.
    pub fn image_acquired(&mut self, image_index: u32) -> (r: Result<(), SyncError>)
        requires
            old(self).inv(),
        ensures
            final(self).inv(),
            final(self).slot_count() == old(self).slot_count(),
            final(self).frames() == old(self).frames(),
            match r {
                Ok(_) => {
                    let a = old(self).active();
                    &&& old(self).slot(a).phase == SlotPhase::Acquiring
                    &&& final(self).slot(a) == (Slot {
                        phase: SlotPhase::Recording,
                        fence_signaled: old(self).slot(a).fence_signaled,
                        image_index,
                    })
                    &&& forall|i: int| #![auto] 0 <= i < old(self).slot_count() && i != a
                        ==> final(self).slot(i) == old(self).slot(i)
                },
                Err(e) => {
                    &&& old(self).slot(old(self).active()).phase != SlotPhase::Acquiring
                    &&& *final(self) == *old(self)
                    &&& e == SyncError::NotAcquiring
                },
            },
    {
        let cur = self.current_slot();
        let s = self.slots[cur];
        if s.phase != SlotPhase::Acquiring {
            Err(SyncError::NotAcquiring)
        } else {
            self.slots[cur] = Slot { phase: SlotPhase::Recording, image_index, ..s };
            Ok(())
        }
    }

    /// Ends recording on the active slot: the slot's fence must be reset and
    /// its command buffer submitted as the returned plan says, with the
    /// semaphore chain image-available -> draw commands -> render-finished.
    /// Resetting the fence before the submission that signals it is what
    /// makes a later confirmed fence wait mean "this frame's work is done".
    /// Succeeds exactly when the slot is recording.
    pub fn end_frame(&mut self) -> (r: Result<SubmitInfo, SyncError>)
        requires
            old(self).inv(),
        ensures
            final(self).inv(),
            final(self).slot_count() == old(self).slot_count(),
            final(self).frames() == old(self).frames(),
            match r {
                Ok(info) => {
                    let a = old(self).active();
                    &&& old(self).slot(a).phase == SlotPhase::Recording
                    &&& info.slot as int == a
                    &&& info.command_buffer == info.slot
                    &&& info.fence == info.slot
                    &&& info.image_index == old(self).slot(a).image_index
                    &&& info.wait_semaphore == (SemaphoreId::ImageAvailable { slot: info.slot })
                    &&& info.signal_semaphore == (SemaphoreId::RenderFinished { slot: info.slot })
                    &&& final(self).slot(a) == (Slot {
                        phase: SlotPhase::Submitted,
                        fence_signaled: false,
                        image_index: old(self).slot(a).image_index,
                    })
                    &&& forall|i: int| #![auto] 0 <= i < old(self).slot_count() && i != a
                        ==> final(self).slot(i) == old(self).slot(i)
                },
                Err(e) => {
                    &&& old(self).slot(old(self).active()).phase != SlotPhase::Recording
                    &&& *final(self) == *old(self)
                    &&& e == SyncError::NotRecording
                },
            },
    {
        let cur = self.current_slot();
        let s = self.slots[cur];
        if s.phase != SlotPhase::Recording {
            Err(SyncError::NotRecording)
        } else {
            self.slots[cur] = Slot {
                phase: SlotPhase::Submitted,
                fence_signaled: false,
                image_index: s.image_index,
            };
            Ok(SubmitInfo {
                slot: cur,
                command_buffer: cur,
                image_index: s.image_index,
                wait_semaphore: SemaphoreId::ImageAvailable { slot: cur },
                signal_semaphore: SemaphoreId::RenderFinished { slot: cur },
                fence: cur,
            })
        }
    }

    /// Reports that the submission was issued: presentation of the acquired
    /// image must now be requested, waiting on the slot's render-finished
    /// semaphore (GPU-side ordering only; the CPU does not wait here).
    /// Succeeds exactly when the slot is submitted.
    pub fn frame_submitted(&mut self) -> (r: Result<PresentInfo, SyncError>)
        requires
            old(self).inv(),
        ensures
            final(self).inv(),
            final(self).slot_count() == old(self).slot_count(),
            final(self).frames() == old(self).frames(),
            match r {
                Ok(info) => {
                    let a = old(self).active();
                    &&& old(self).slot(a).phase == SlotPhase::Submitted
                    &&& info.slot as int == a
                    &&& info.image_index == old(self).slot(a).image_index
                    &&& info.wait_semaphore == (SemaphoreId::RenderFinished { slot: info.slot })
                    &&& final(self).slot(a) == (Slot {
                        phase: SlotPhase::Presenting,
                        ..old(self).slot(a)
                    })
                    &&& forall|i: int| #![auto] 0 <= i < old(self).slot_count() && i != a
                        ==> final(self).slot(i) == old(self).slot(i)
                },
                Err(e) => {
                    &&& old(self).slot(old(self).active()).phase != SlotPhase::Submitted
                    &&& *final(self) == *old(self)
                    &&& e == SyncError::NotSubmitted
                },
            },
    {
        let cur = self.current_slot();
        let s = self.slots[cur];
        if s.phase != SlotPhase::Submitted {
            Err(SyncError::NotSubmitted)
        } else {
            self.slots[cur] = Slot { phase: SlotPhase::Presenting, ..s };
            Ok(PresentInfo {
                slot: cur,
                image_index: s.image_index,
                wait_semaphore: SemaphoreId::RenderFinished { slot: cur },
            })
        }
    }

    /// Reports that the presentation request was issued: the frame is done
    /// on the CPU side and the synchronizer advances to the next slot,
    /// without waiting for the GPU. The finished slot stays unusable until
    /// its fence is confirmed signaled again. Succeeds exactly when the
    /// slot is presenting.
    pub fn frame_presented(&mut self) -> (r: Result<(), SyncError>)
        requires
            old(self).inv(),
            old(self).frames() < u64::MAX,
        ensures
            final(self).inv(),
            final(self).slot_count() == old(self).slot_count(),
            match r {
                Ok(_) => {
                    let a = old(self).active();
                    &&& old(self).slot(a).phase == SlotPhase::Presenting
                    &&& final(self).frames() == old(self).frames() + 1
                    &&& final(self).active() == (old(self).active() + 1) % old(self).slot_count()
                    &&& final(self).slot(a) == (Slot { phase: SlotPhase::Idle, ..old(self).slot(a) })
                    &&& forall|i: int| #![auto] 0 <= i < old(self).slot_count() && i != a
                        ==> final(self).slot(i) == old(self).slot(i)
                    &&& !final(self).slot(a).fence_signaled
                },
                Err(e) => {
                    &&& old(self).slot(old(self).active()).phase != SlotPhase::Presenting
                    &&& *final(self) == *old(self)
                    &&& e == SyncError::NotPresenting
                },
            },
    {
        let cur = self.current_slot();
        let s = self.slots[cur];
        if s.phase != SlotPhase::Presenting {
            Err(SyncError::NotPresenting)
        } else {
            self.slots[cur] = Slot { phase: SlotPhase::Idle, ..s };
            proof {
                let k = self.frames_completed as int;
                let n = self.num_slots as int;
                vstd::arithmetic::div_mod::lemma_add_mod_noop(k, 1, n);
                if n == 1 {
                    vstd::arithmetic::div_mod::lemma_mod_bound(k + 1, n);
                    vstd::arithmetic::div_mod::lemma_mod_bound(k % n + 1, n);
                } else {
                    vstd::arithmetic::div_mod::lemma_small_mod(1nat, n as nat);
                }
            }
            self.frames_completed = self.frames_completed + 1;
            Ok(())
        }
    }
}

/// The pacing law: in every well-formed synchronizer the active slot index
/// equals the completed-frame count modulo the slot count, that index is in
/// range, and a slot can only be reused for a new frame once its fence is
/// confirmed signaled.
pub proof fn lemma_frame_pacing(f: FrameSync)
    requires
        f.inv(),
    ensures
        f.active() == FrameSync::slot_for_frame(f.frames(), f.slot_count()),
        0 <= f.active() < f.slot_count(),
        f.can_begin_frame() ==> f.slot(f.active()).fence_signaled,
{
}

/// A windowing event, reduced to what the frame loop decides on.
#[derive(Clone, Copy, PartialEq, Eq, Structural, Debug)]
pub enum LoopEvent {
    /// The window was asked to close.
    CloseRequested,
    /// A key changed state; `escape` says whether it was the escape key.
    KeyboardInput { escape: bool, pressed: bool },
    /// All pending events of this iteration were handled.
    EventsCleared,
    /// The window asked to be redrawn.
    RedrawRequested,
    /// The event loop is being torn down.
    Destroyed,
    /// Anything the frame loop does not react to.
    Other,
}

/// What the frame loop does in reaction to an event.
#[derive(Clone, Copy, PartialEq, Eq, Structural, Debug)]
pub enum LoopAction {
    /// Leave the loop; no further frame is produced.
    Exit,
    /// Ask the window for a redraw.
    RequestRedraw,
    /// Produce one frame.
    DrawFrame,
    /// Block until the device is idle, so no submitted work outlives the
    /// objects it references; done only at shutdown.
    WaitIdle,
    Ignore,
}

/// The frame loop's reaction to each event: close requests and a pressed
/// escape key end the loop, a cleared event queue requests a redraw, a
/// redraw request draws one frame, and tear-down waits for the device to
/// go idle before anything is destroyed.
pub fn handle_loop_event(event: &LoopEvent) -> (a: LoopAction)
    ensures
        a == match *event {
            LoopEvent::CloseRequested => LoopAction::Exit,
            LoopEvent::KeyboardInput { escape, pressed } => if escape && pressed {
                LoopAction::Exit
            } else {
                LoopAction::Ignore
            },
            LoopEvent::EventsCleared => LoopAction::RequestRedraw,
            LoopEvent::RedrawRequested => LoopAction::DrawFrame,
            LoopEvent::Destroyed => LoopAction::WaitIdle,
            LoopEvent::Other => LoopAction::Ignore,
        },
{
    match event {
        LoopEvent::CloseRequested => LoopAction::Exit,
        LoopEvent::KeyboardInput { escape, pressed } => if *escape && *pressed {
            LoopAction::Exit
        } else {
            LoopAction::Ignore
        },
        LoopEvent::EventsCleared => LoopAction::RequestRedraw,
        LoopEvent::RedrawRequested => LoopAction::DrawFrame,
        LoopEvent::Destroyed => LoopAction::WaitIdle,
        LoopEvent::Other => LoopAction::Ignore,
    }
}

/// Frames exactly one slot-cycle apart share a slot: with n slots, frame
/// k + n reuses frame k's slot, and no frame in between does.
pub proof fn lemma_slot_reuse_distance(k: int, n: int)
    requires
        n >= 1,
        k >= 0,
    ensures
        FrameSync::slot_for_frame(k + n, n) == FrameSync::slot_for_frame(k, n),
        forall|j: int| k < j < k + n ==> FrameSync::slot_for_frame(j, n)
            != #[trigger] FrameSync::slot_for_frame(k, n),
{
    vstd::arithmetic::div_mod::lemma_mod_add_multiples_vanish(k, n);
    assert forall|j: int| k < j < k + n implies FrameSync::slot_for_frame(j, n)
        != #[trigger] FrameSync::slot_for_frame(k, n) by {
        let d = j - k;
        let r = k % n;
        vstd::arithmetic::div_mod::lemma_mod_bound(k, n);
        vstd::arithmetic::div_mod::lemma_small_mod(d as nat, n as nat);
        vstd::arithmetic::div_mod::lemma_add_mod_noop(k, d, n);
        if r + d < n {
            vstd::arithmetic::div_mod::lemma_small_mod((r + d) as nat, n as nat);
        } else {
            vstd::arithmetic::div_mod::lemma_mod_add_multiples_vanish(r + d - n, n);
            vstd::arithmetic::div_mod::lemma_small_mod((r + d - n) as nat, n as nat);
        }
    }
}

} // verus!
