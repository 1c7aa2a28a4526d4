//! The ring of per-frame synchronization objects that bounds how many frames
//! may be in flight at once.
use vstd::prelude::*;

verus! {

/// Raw handles of the synchronization objects owned by one in-flight frame.
#[derive(Clone, Copy, Debug, PartialEq, Eq, Structural)]
pub struct SyncObjects {
    /// Semaphore signaled when the swapchain image has been acquired.
    pub image_available_semaphore: u64,
    /// Semaphore signaled when rendering into the image has finished.
    pub render_finished_semaphore: u64,
    /// Fence signaled when the frame's submission completes on the GPU.
    pub fence: u64,
}

/// A fixed ring of `N` synchronization-object sets, handed out in turn.
pub struct InFlightFrames {
    sync_objects: Vec<SyncObjects>,
    current_frame: usize,
    issued: Ghost<nat>,
}

impl InFlightFrames {
    /// The sets of the ring, in order.
    pub closed spec fn slots(&self) -> Seq<SyncObjects> {
        self.sync_objects@
    }

    /// Index of the set that the next call of `next` hands out.
    pub closed spec fn current(&self) -> nat {
        self.current_frame as nat
    }

    /// How many times `next` has been called since the ring was made.
    pub closed spec fn issued(&self) -> nat {
        self.issued@
    }

    /// The ring is non-empty and its cursor is the number of calls so far,
    /// modulo the ring's length.
    pub open spec fn wf(&self) -> bool {
        &&& self.slots().len() > 0
        &&& self.current() == self.issued() % self.slots().len()
    }

    /// The set handed out by the `i`-th call of `next` (counting from zero).
    pub open spec fn slot_for_call(&self, i: nat) -> SyncObjects
        recommends
            self.slots().len() > 0,
    {
        self.slots()[(i % self.slots().len()) as int]
    }

    /// Builds a ring over `sync_objects`; the first call of `next` returns
    /// the first set.
    pub fn new(sync_objects: Vec<SyncObjects>) -> (r: Self)
        requires
            sync_objects.len() > 0,
        ensures
            r.wf(),
            r.slots() == sync_objects@,
            r.issued() == 0,
            r.current() == 0,
    {
        proof {
            vstd::arithmetic::div_mod::lemma_small_mod(0, sync_objects.len() as nat);
        }
        InFlightFrames { sync_objects, current_frame: 0, issued: Ghost(0) }
    }

    /// Number of sets in the ring.
    pub fn len(&self) -> (r: usize)
        ensures
            r == self.slots().len(),
    {
        self.sync_objects.len()
    }

    /// Hands out the current set and moves the cursor one step round the
    /// ring. It never blocks and never runs out: the `i`-th call returns set
    /// `i mod N`.
    pub fn next(&mut self) -> (r: SyncObjects)
        requires
            old(self).wf(),
        ensures
            final(self).wf(),
            final(self).slots() == old(self).slots(),
            final(self).issued() == old(self).issued() + 1,
            final(self).current() == (old(self).current() + 1) % (old(self).slots().len() as nat),
            r == old(self).slots()[old(self).current() as int],
            r == old(self).slot_for_call(old(self).issued()),
    {
        let r = self.sync_objects[self.current_frame];
        let n = self.sync_objects.len();
        proof {
            lemma_mod_step(self.issued@, n as nat);
        }
        self.current_frame = (self.current_frame + 1) % n;
        self.issued = Ghost(self.issued@ + 1);
        r
    }
}

/// Advancing a counter by one advances its residue by one, round the ring.
pub proof fn lemma_mod_step(i: nat, n: nat)
    requires
        n > 0,
    ensures
        (i + 1) % n == ((i % n) + 1) % n,
{
    vstd::arithmetic::div_mod::lemma_add_mod_noop(i as int, 1, n as int);
    if n > 1 {
        vstd::arithmetic::div_mod::lemma_small_mod(1, n);
    } else {
        assert((i as int + 1) % 1 == 0) by (nonlinear_arith);
        assert(((i % n) as int + 1) % 1 == 0) by (nonlinear_arith);
    }
}

/// The ring is periodic: the call `i + N` hands out the same set as call `i`,
/// whatever the calls in between.
pub proof fn lemma_ring_period(frames: &InFlightFrames, i: nat)
    requires
        frames.wf(),
    ensures
        frames.slot_for_call(i + frames.slots().len()) == frames.slot_for_call(i),
        frames.slot_for_call(i) == frames.slots()[(i % frames.slots().len()) as int],
{
    let n = frames.slots().len();
    vstd::arithmetic::div_mod::lemma_mod_add_multiples_vanish(i as int, n as int);
}

} // verus!
