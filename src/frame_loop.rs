//! The per-frame protocol: wait on the slot's fence, acquire an image,
//! submit, present, and rebuild the swapchain when it is stale, suboptimal
//! or the window was resized. The loop that performs the GPU calls feeds
//! each outcome back as an event and receives the next action to perform.
use vstd::prelude::*;
use crate::frames::{lemma_mod_step, InFlightFrames, SyncObjects};
use crate::swapchain::Extent2D;

verus! {

/// Whether a frame slot's fence is signaled, or waits on a submission that
/// has not completed yet.
#[derive(Clone, Copy, Debug, PartialEq, Eq, Structural)]
pub enum FenceState {
    Signaled,
    Pending,
}

/// The step of the protocol whose action is outstanding.
#[derive(Clone, Copy, Debug, PartialEq, Eq, Structural)]
pub enum Phase {
    WaitFence,
    Acquire,
    Submit,
    Present,
    AwaitExtent,
    Rebuild,
}

/// What the caller must do next.
#[derive(Clone, Copy, Debug, PartialEq, Eq, Structural)]
pub enum FrameAction {
    /// Wait, without a time limit, on the fence of frame slot `slot`, whose
    /// synchronization objects are `sync`.
    WaitFence { slot: usize, sync: SyncObjects },
    /// Acquire the next swapchain image, signaling the slot's
    /// image-available semaphore.
    AcquireImage { slot: usize, sync: SyncObjects },
    /// Reset the slot's fence, update the uniforms of image `image_index` and
    /// submit its command buffer, waiting on image-available and signaling
    /// render-finished and the slot's fence.
    SubmitFrame { slot: usize, image_index: u32, sync: SyncObjects },
    /// Present image `image_index`, waiting on the slot's render-finished
    /// semaphore.
    Present { slot: usize, image_index: u32, sync: SyncObjects },
    /// The window is minimized: poll window events until it has a non-zero
    /// size.
    PollEvents,
    /// Wait for the device to be idle, then tear down and recreate the
    /// swapchain and everything that depends on its extent or format.
    Rebuild { extent: Extent2D },
}

/// The outcome of the last action, or of an event poll.
#[derive(Clone, Copy, Debug, PartialEq, Eq, Structural)]
pub enum FrameEvent {
    FenceSignaled,
    ImageAcquired { image_index: u32 },
    AcquireOutOfDate,
    Submitted,
    Presented { suboptimal: bool },
    PresentOutOfDate,
    EventsPolled,
    Rebuilt,
}

/// An event that does not answer the outstanding action.
#[derive(Clone, Copy, Debug, PartialEq, Eq, Structural)]
pub enum FrameLoopError {
    UnexpectedEvent,
}

/// The state of the protocol, as a mathematical value.
pub struct FrameLoopView {
    /// The synchronization objects of each slot of the ring.
    pub ring: Seq<SyncObjects>,
    pub slot: nat,
    pub fences: Seq<FenceState>,
    pub phase: Phase,
    pub image_index: u32,
    pub window: Extent2D,
    pub resize_pending: bool,
}

/// Where a state goes when the swapchain must be rebuilt: first wait for a
/// usable window size if the window is minimized.
pub open spec fn enter_rebuild(s: FrameLoopView) -> FrameLoopView {
    if s.window.is_zero_spec() {
        FrameLoopView { phase: Phase::AwaitExtent, ..s }
    } else {
        FrameLoopView { phase: Phase::Rebuild, ..s }
    }
}

/// Starts the next frame on the next slot of the ring.
pub open spec fn begin_next_frame(s: FrameLoopView) -> FrameLoopView {
    FrameLoopView { slot: (s.slot + 1) % s.fences.len(), phase: Phase::WaitFence, ..s }
}

/// Every fence signaled, as after a device-wide idle wait.
pub open spec fn all_signaled(n: nat) -> Seq<FenceState> {
    Seq::new(n, |i: int| FenceState::Signaled)
}

/// The state that event `e` leads to from `s`, or `None` when `e` does not
/// answer the outstanding action.
pub open spec fn next_state(s: FrameLoopView, e: FrameEvent) -> Option<FrameLoopView> {
    match (s.phase, e) {
        (Phase::WaitFence, FrameEvent::FenceSignaled) => Some(
            FrameLoopView {
                fences: s.fences.update(s.slot as int, FenceState::Signaled),
                phase: Phase::Acquire,
                ..s
            },
        ),
        (Phase::Acquire, FrameEvent::ImageAcquired { image_index }) => Some(
            FrameLoopView { phase: Phase::Submit, image_index, ..s },
        ),
        (Phase::Acquire, FrameEvent::AcquireOutOfDate) => Some(enter_rebuild(s)),
        (Phase::Submit, FrameEvent::Submitted) => Some(
            FrameLoopView {
                fences: s.fences.update(s.slot as int, FenceState::Pending),
                phase: Phase::Present,
                ..s
            },
        ),
        (Phase::Present, FrameEvent::Presented { suboptimal }) => if suboptimal
            || s.resize_pending {
            Some(enter_rebuild(s))
        } else {
            Some(begin_next_frame(s))
        },
        (Phase::Present, FrameEvent::PresentOutOfDate) => Some(enter_rebuild(s)),
        (Phase::AwaitExtent, FrameEvent::EventsPolled) => Some(enter_rebuild(s)),
        (Phase::Rebuild, FrameEvent::Rebuilt) => Some(
            begin_next_frame(
                FrameLoopView {
                    fences: all_signaled(s.fences.len()),
                    resize_pending: false,
                    ..s
                },
            ),
        ),
        _ => None,
    }
}

/// The action that is outstanding in state `s`.
pub open spec fn pending_action(s: FrameLoopView) -> FrameAction {
    let sync = s.ring[s.slot as int];
    match s.phase {
        Phase::WaitFence => FrameAction::WaitFence { slot: s.slot as usize, sync },
        Phase::Acquire => FrameAction::AcquireImage { slot: s.slot as usize, sync },
        Phase::Submit => FrameAction::SubmitFrame {
            slot: s.slot as usize,
            image_index: s.image_index,
            sync,
        },
        Phase::Present => FrameAction::Present {
            slot: s.slot as usize,
            image_index: s.image_index,
            sync,
        },
        Phase::AwaitExtent => FrameAction::PollEvents,
        Phase::Rebuild => FrameAction::Rebuild { extent: s.window },
    }
}

/// The protocol's invariant: the slot lies in the ring, and from the moment
/// its fence has been waited on until the submission that resets it, the
/// slot's fence is signaled.
pub open spec fn frame_loop_inv(s: FrameLoopView) -> bool {
    &&& 0 < s.fences.len() <= usize::MAX
    &&& s.ring.len() == s.fences.len()
    &&& s.slot < s.fences.len()
    &&& (s.phase == Phase::Acquire || s.phase == Phase::Submit) ==> s.fences[s.slot as int]
        == FenceState::Signaled
}

/// Drives the per-frame protocol over a ring of `N` frame slots.
pub struct FrameLoop {
    frames: InFlightFrames,
    sync: SyncObjects,
    slot: usize,
    fences: Vec<FenceState>,
    phase: Phase,
    image_index: u32,
    window: Extent2D,
    resize_pending: bool,
}

impl View for FrameLoop {
    type V = FrameLoopView;

    closed spec fn view(&self) -> FrameLoopView {
        FrameLoopView {
            ring: self.frames.slots(),
            slot: self.slot as nat,
            fences: self.fences@,
            phase: self.phase,
            image_index: self.image_index,
            window: self.window,
            resize_pending: self.resize_pending,
        }
    }
}

impl FrameLoop {
    /// The ring's cursor is one past the current slot, whose objects are
    /// held at hand, and the ring has one fence state per slot.
    pub closed spec fn well_formed(&self) -> bool {
        &&& self.frames.wf()
        &&& self.frames.slots().len() == self.fences@.len()
        &&& self.slot < self.fences@.len()
        &&& self.frames.current() == (self.slot as nat + 1) % (self.fences@.len() as nat)
        &&& self.sync == self.frames.slots()[self.slot as int]
    }

    /// Starts the protocol over the ring `sync_objects`, one set per frame
    /// in flight, every fence created signaled so that the first frame does
    /// not wait on a submission that never happened, for a window of size
    /// `window`. The first action is to wait on slot 0's fence.
    pub fn new(sync_objects: Vec<SyncObjects>, window: Extent2D) -> (r: Self)
        requires
            sync_objects.len() > 0,
        ensures
            r.well_formed(),
            frame_loop_inv(r@),
            r@.ring == sync_objects@,
            r@.slot == 0,
            r@.fences == all_signaled(sync_objects@.len()),
            r@.phase == Phase::WaitFence,
            r@.window == window,
            !r@.resize_pending,
            pending_action(r@) == (FrameAction::WaitFence { slot: 0, sync: sync_objects@[0] }),
    {
        let frame_count = sync_objects.len();
        let mut frames = InFlightFrames::new(sync_objects);
        let sync = frames.next();
        let mut fences: Vec<FenceState> = Vec::new();
        let mut i: usize = 0;
        while i < frame_count
            invariant
                i <= frame_count,
                fences@ == all_signaled(i as nat),
            decreases frame_count - i,
        {
            fences.push(FenceState::Signaled);
            i += 1;
            proof {
                assert(fences@ =~= all_signaled(i as nat));
            }
        }
        FrameLoop {
            frames,
            sync,
            slot: 0,
            fences,
            phase: Phase::WaitFence,
            image_index: 0,
            window,
            resize_pending: false,
        }
    }

    /// The action that the caller must perform now.
    pub fn action(&self) -> (r: FrameAction)
        requires
            self.well_formed(),
        ensures
            r == pending_action(self@),
    {
        let sync = self.sync;
        match self.phase {
            Phase::WaitFence => FrameAction::WaitFence { slot: self.slot, sync },
            Phase::Acquire => FrameAction::AcquireImage { slot: self.slot, sync },
            Phase::Submit => FrameAction::SubmitFrame {
                slot: self.slot,
                image_index: self.image_index,
                sync,
            },
            Phase::Present => FrameAction::Present {
                slot: self.slot,
                image_index: self.image_index,
                sync,
            },
            Phase::AwaitExtent => FrameAction::PollEvents,
            Phase::Rebuild => FrameAction::Rebuild { extent: self.window },
        }
    }

    /// The state of slot `slot`'s fence, or `None` past the ring's end.
    pub fn fence_state(&self, slot: usize) -> (r: Option<FenceState>)
        ensures
            slot < self@.fences.len() ==> r == Some(self@.fences[slot as int]),
            slot >= self@.fences.len() ==> r is None,
    {
        if slot < self.fences.len() {
            Some(self.fences[slot])
        } else {
            None
        }
    }

    /// Whether a resize is waiting for the end of the current frame.
    pub fn is_resize_pending(&self) -> (r: bool)
        ensures
            r == self@.resize_pending,
    {
        self.resize_pending
    }

    /// The window size last reported.
    pub fn window_extent(&self) -> (r: Extent2D)
        ensures
            r == self@.window,
    {
        self.window
    }

    /// Records that the window now has size `width` x `height`; the
    /// swapchain is rebuilt at the end of the current frame.
    pub fn notify_resize(&mut self, width: u32, height: u32)
        requires
            old(self).well_formed(),
            frame_loop_inv(old(self)@),
        ensures
            final(self).well_formed(),
            final(self)@ == (FrameLoopView {
                window: Extent2D { width, height },
                resize_pending: true,
                ..old(self)@
            }),
            frame_loop_inv(final(self)@),
    {
        self.window = Extent2D { width, height };
        self.resize_pending = true;
    }

    fn enter_rebuild(&mut self)
        requires
            old(self).well_formed(),
            frame_loop_inv(old(self)@),
            old(self).phase == Phase::Acquire || old(self).phase == Phase::Present || old(
                self,
            ).phase == Phase::AwaitExtent,
        ensures
            final(self).well_formed(),
            final(self)@ == enter_rebuild(old(self)@),
    {
        if self.window.is_zero() {
            self.phase = Phase::AwaitExtent;
        } else {
            self.phase = Phase::Rebuild;
        }
    }

    fn begin_next_frame(&mut self)
        requires
            old(self).well_formed(),
        ensures
            final(self).well_formed(),
            final(self)@ == begin_next_frame(old(self)@),
    {
        let n = self.fences.len();
        proof {
            lemma_mod_step((self.slot + 1) as nat, n as nat);
        }
        self.sync = self.frames.next();
        self.slot = (self.slot + 1) % n;
        self.phase = Phase::WaitFence;
    }

    /// Feeds back the outcome `event` of the outstanding action and returns
    /// the next action. An event that does not answer the outstanding action
    /// changes nothing and is reported as an error.
    pub fn on_event(&mut self, event: FrameEvent) -> (r: Result<FrameAction, FrameLoopError>)
        requires
            old(self).well_formed(),
            frame_loop_inv(old(self)@),
        ensures
            final(self).well_formed(),
            frame_loop_inv(final(self)@),
            match next_state(old(self)@, event) {
                Some(s) => final(self)@ == s && r == Ok::<FrameAction, FrameLoopError>(
                    pending_action(s),
                ),
                None => final(self)@ == old(self)@ && r == Err::<FrameAction, FrameLoopError>(
                    FrameLoopError::UnexpectedEvent,
                ),
            },
    {
        proof {
            lemma_step_keeps_inv(self@, event);
        }
        match (self.phase, event) {
            (Phase::WaitFence, FrameEvent::FenceSignaled) => {
                self.fences.set(self.slot, FenceState::Signaled);
                self.phase = Phase::Acquire;
            },
            (Phase::Acquire, FrameEvent::ImageAcquired { image_index }) => {
                self.phase = Phase::Submit;
                self.image_index = image_index;
            },
            (Phase::Acquire, FrameEvent::AcquireOutOfDate) => {
                self.enter_rebuild();
            },
            (Phase::Submit, FrameEvent::Submitted) => {
                self.fences.set(self.slot, FenceState::Pending);
                self.phase = Phase::Present;
            },
            (Phase::Present, FrameEvent::Presented { suboptimal }) => {
                if suboptimal || self.resize_pending {
                    self.enter_rebuild();
                } else {
                    self.begin_next_frame();
                }
            },
            (Phase::Present, FrameEvent::PresentOutOfDate) => {
                self.enter_rebuild();
            },
            (Phase::AwaitExtent, FrameEvent::EventsPolled) => {
                self.enter_rebuild();
            },
            (Phase::Rebuild, FrameEvent::Rebuilt) => {
                let n = self.fences.len();
                let mut i: usize = 0;
                while i < n
                    invariant
                        n == self.fences.len(),
                        i <= n,
                        self.slot < n,
                        self.slot == old(self).slot,
                        self.frames == old(self).frames,
                        self.sync == old(self).sync,
                        self.image_index == old(self).image_index,
                        self.window == old(self).window,
                        self.resize_pending == old(self).resize_pending,
                        self.phase == Phase::Rebuild,
                        forall|j: int| 0 <= j < i ==> self.fences@[j] == FenceState::Signaled,
                    decreases n - i,
                {
                    self.fences.set(i, FenceState::Signaled);
                    i += 1;
                }
                proof {
                    assert(self.fences@ =~= all_signaled(n as nat));
                }
                self.resize_pending = false;
                self.begin_next_frame();
            },
            _ => {
                return Err(FrameLoopError::UnexpectedEvent);
            },
        }
        Ok(self.action())
    }
}

/// Every step of the protocol keeps its invariant.
pub proof fn lemma_step_keeps_inv(s: FrameLoopView, e: FrameEvent)
    requires
        frame_loop_inv(s),
    ensures
        next_state(s, e) matches Some(t) ==> frame_loop_inv(t) && t.fences.len() == s.fences.len(),
{
    if let Some(t) = next_state(s, e) {
        if t.phase == Phase::WaitFence {
            assert(t.slot < t.fences.len());
        }
    }
}

/// A frame slot's resources are reused only once its previous submission
/// has completed: whenever the outstanding action is to submit on a slot,
/// that slot's fence is signaled, and a submission leaves it pending.
pub proof fn lemma_slot_reused_only_after_fence(s: FrameLoopView, e: FrameEvent)
    requires
        frame_loop_inv(s),
    ensures
        next_state(s, e) matches Some(t) ==> (pending_action(t) matches FrameAction::SubmitFrame {
            slot,
            ..
        } ==> slot as nat == t.slot && t.fences[slot as int] == FenceState::Signaled),
        s.phase == Phase::Submit && e == FrameEvent::Submitted ==> (next_state(s, e) matches Some(
            t,
        ) && t.fences[s.slot as int] == FenceState::Pending),
{
    lemma_step_keeps_inv(s, e);
}

/// A stale swapchain at acquire time ends the frame at once: the fence that
/// was just waited on is not reset, and the next action rebuilds the
/// swapchain (or first waits for a usable window size).
pub proof fn lemma_stale_acquire_skips_to_rebuild(s: FrameLoopView)
    requires
        frame_loop_inv(s),
        s.phase == Phase::Acquire,
    ensures
        next_state(s, FrameEvent::AcquireOutOfDate) matches Some(t) && t.fences == s.fences && (
        pending_action(t) == FrameAction::PollEvents || pending_action(t) == (FrameAction::Rebuild {
            extent: s.window,
        })),
{
}

/// Presentation that reports a stale or suboptimal swapchain, or a resize
/// that arrived during the frame, always leads to a rebuild; a clean
/// presentation with no resize pending starts the next frame on the next
/// slot of the ring.
pub proof fn lemma_present_outcomes(s: FrameLoopView, suboptimal: bool)
    requires
        frame_loop_inv(s),
        s.phase == Phase::Present,
    ensures
        next_state(s, FrameEvent::PresentOutOfDate) == Some(enter_rebuild(s)),
        (suboptimal || s.resize_pending) ==> next_state(s, FrameEvent::Presented { suboptimal })
            == Some(enter_rebuild(s)),
        (!suboptimal && !s.resize_pending) ==> (next_state(s, FrameEvent::Presented { suboptimal })
            matches Some(t) && pending_action(t) == (FrameAction::WaitFence {
                slot: ((s.slot + 1) % s.fences.len()) as usize,
                sync: s.ring[((s.slot + 1) % s.fences.len()) as int],
            })),
        enter_rebuild(s).phase == Phase::AwaitExtent || enter_rebuild(s).phase == Phase::Rebuild,
{
}

/// A minimized window holds the rebuild: while the window has a zero side,
/// polling events leads back to polling; once it has a non-zero size, the
/// rebuild goes ahead with exactly that size. No rebuild is ever asked for
/// with a zero extent.
pub proof fn lemma_minimized_window_blocks_rebuild(s: FrameLoopView, e: FrameEvent)
    requires
        frame_loop_inv(s),
    ensures
        s.phase == Phase::AwaitExtent && s.window.is_zero_spec() ==> next_state(
            s,
            FrameEvent::EventsPolled,
        ) == Some(s) && pending_action(s) == FrameAction::PollEvents,
        s.phase == Phase::AwaitExtent && !s.window.is_zero_spec() ==> (next_state(
            s,
            FrameEvent::EventsPolled,
        ) matches Some(t) && pending_action(t) == (FrameAction::Rebuild { extent: s.window })),
        next_state(s, e) matches Some(t) ==> (pending_action(t) matches FrameAction::Rebuild {
            extent,
        } ==> !extent.is_zero_spec()),
{
}

} // verus!
