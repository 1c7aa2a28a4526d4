//! The order of the device calls with a fixed sequence: destroying GPU
//! objects (dependents before what they depend on, handles before the memory
//! bound to them, the device before the surface and the instance) and
//! running a one-time command buffer.
use vstd::prelude::*;

verus! {

/// One destruction performed when the device context is torn down.
#[derive(Clone, Copy, Debug, PartialEq, Eq, Structural)]
pub enum ContextTeardownStep {
    TransientCommandPool,
    GeneralCommandPool,
    Device,
    Surface,
    DebugReportCallback,
    Instance,
}

/// The context's teardown: command pools, then the device, then the
/// surface, then the debug callback if there is one, and the instance last.
pub open spec fn context_teardown_spec(has_debug_callback: bool) -> Seq<ContextTeardownStep> {
    let head = seq![
        ContextTeardownStep::TransientCommandPool,
        ContextTeardownStep::GeneralCommandPool,
        ContextTeardownStep::Device,
        ContextTeardownStep::Surface,
    ];
    if has_debug_callback {
        head + seq![ContextTeardownStep::DebugReportCallback, ContextTeardownStep::Instance]
    } else {
        head.push(ContextTeardownStep::Instance)
    }
}

/// Returns the destructions to perform, in order, when the device context
/// is torn down.
pub fn context_teardown_order(has_debug_callback: bool) -> (r: Vec<ContextTeardownStep>)
    ensures
        r@ == context_teardown_spec(has_debug_callback),
{
    let mut steps: Vec<ContextTeardownStep> = Vec::new();
    steps.push(ContextTeardownStep::TransientCommandPool);
    steps.push(ContextTeardownStep::GeneralCommandPool);
    steps.push(ContextTeardownStep::Device);
    steps.push(ContextTeardownStep::Surface);
    if has_debug_callback {
        steps.push(ContextTeardownStep::DebugReportCallback);
    }
    steps.push(ContextTeardownStep::Instance);
    proof {
        assert(steps@ =~= context_teardown_spec(has_debug_callback));
    }
    steps
}

/// One destruction performed when a buffer or an image is released.
#[derive(Clone, Copy, Debug, PartialEq, Eq, Structural)]
pub enum ResourceTeardownStep {
    /// Destroy the buffer or image handle.
    DestroyHandle,
    /// Free the device memory that was bound to it.
    FreeMemory,
}

/// Returns the destructions that release a buffer or an image: the handle
/// first, then the memory bound to it, never the reverse.
pub fn resource_teardown_order() -> (r: Vec<ResourceTeardownStep>)
    ensures
        r@ == seq![ResourceTeardownStep::DestroyHandle, ResourceTeardownStep::FreeMemory],
{
    let mut steps: Vec<ResourceTeardownStep> = Vec::new();
    steps.push(ResourceTeardownStep::DestroyHandle);
    steps.push(ResourceTeardownStep::FreeMemory);
    proof {
        assert(steps@ =~= seq![ResourceTeardownStep::DestroyHandle, ResourceTeardownStep::FreeMemory]);
    }
    steps
}

/// One destruction performed when a swapchain is torn down.
#[derive(Clone, Copy, Debug, PartialEq, Eq, Structural)]
pub enum SwapchainTeardownStep {
    Framebuffer { index: usize },
    ImageView { index: usize },
    Swapchain,
}

/// The swapchain's teardown for `n` images: every framebuffer, then every
/// image view, then the swapchain itself, which owns the images.
pub open spec fn swapchain_teardown_spec(n: nat) -> Seq<SwapchainTeardownStep> {
    Seq::new(n, |i: int| SwapchainTeardownStep::Framebuffer { index: i as usize }) + Seq::new(
        n,
        |i: int| SwapchainTeardownStep::ImageView { index: i as usize },
    ) + seq![SwapchainTeardownStep::Swapchain]
}

/// Returns the destructions to perform, in order, when a swapchain of
/// `image_count` images is torn down.
pub fn swapchain_teardown_order(image_count: usize) -> (r: Vec<SwapchainTeardownStep>)
    ensures
        r@ == swapchain_teardown_spec(image_count as nat),
{
    let mut framebuffers: Vec<SwapchainTeardownStep> = Vec::new();
    let mut i: usize = 0;
    while i < image_count
        invariant
            i <= image_count,
            framebuffers@ =~= Seq::new(
                i as nat,
                |k: int| SwapchainTeardownStep::Framebuffer { index: k as usize },
            ),
        decreases image_count - i,
    {
        framebuffers.push(SwapchainTeardownStep::Framebuffer { index: i });
        i += 1;
    }
    let mut views: Vec<SwapchainTeardownStep> = Vec::new();
    let mut j: usize = 0;
    while j < image_count
        invariant
            j <= image_count,
            views@ =~= Seq::new(j as nat, |k: int| SwapchainTeardownStep::ImageView { index: k as usize }),
        decreases image_count - j,
    {
        views.push(SwapchainTeardownStep::ImageView { index: j });
        j += 1;
    }
    framebuffers.append(&mut views);
    framebuffers.push(SwapchainTeardownStep::Swapchain);
    proof {
        assert(framebuffers@ =~= swapchain_teardown_spec(image_count as nat));
    }
    framebuffers
}

/// One call of a one-time command submission.
#[derive(Clone, Copy, Debug, PartialEq, Eq, Structural)]
pub enum OneTimeCommandStep {
    /// Allocate one primary command buffer from the transient pool.
    Allocate,
    /// Begin recording, with the submit-once hint.
    BeginOneTimeSubmit,
    /// Let the caller record its commands.
    Record,
    /// End recording.
    End,
    /// Submit to the graphics queue with no semaphore and no fence.
    SubmitUnsynchronized,
    /// Block until the graphics queue is idle.
    WaitQueueIdle,
    /// Free the command buffer.
    Free,
}

/// The calls of a one-time command submission, in order.
pub open spec fn one_time_commands_spec() -> Seq<OneTimeCommandStep> {
    seq![
        OneTimeCommandStep::Allocate,
        OneTimeCommandStep::BeginOneTimeSubmit,
        OneTimeCommandStep::Record,
        OneTimeCommandStep::End,
        OneTimeCommandStep::SubmitUnsynchronized,
        OneTimeCommandStep::WaitQueueIdle,
        OneTimeCommandStep::Free,
    ]
}

/// Returns the calls that run a one-time command buffer: record, submit,
/// wait for the queue to be idle, and only then free the buffer, so that
/// the caller may rely on the work being complete when it returns.
pub fn one_time_commands_order() -> (r: Vec<OneTimeCommandStep>)
    ensures
        r@ == one_time_commands_spec(),
{
    let mut steps: Vec<OneTimeCommandStep> = Vec::new();
    steps.push(OneTimeCommandStep::Allocate);
    steps.push(OneTimeCommandStep::BeginOneTimeSubmit);
    steps.push(OneTimeCommandStep::Record);
    steps.push(OneTimeCommandStep::End);
    steps.push(OneTimeCommandStep::SubmitUnsynchronized);
    steps.push(OneTimeCommandStep::WaitQueueIdle);
    steps.push(OneTimeCommandStep::Free);
    proof {
        assert(steps@ =~= one_time_commands_spec());
    }
    steps
}

/// In a swapchain's teardown, image `i`'s framebuffer is destroyed before
/// its view, and its view before the swapchain.
pub proof fn lemma_swapchain_dependents_first(n: nat, i: int)
    requires
        0 <= i < n,
        n <= usize::MAX,
    ensures
        swapchain_teardown_spec(n)[i] == (SwapchainTeardownStep::Framebuffer { index: i as usize }),
        swapchain_teardown_spec(n)[n as int + i] == (SwapchainTeardownStep::ImageView { index: i as usize }),
        swapchain_teardown_spec(n)[2 * n as int] == SwapchainTeardownStep::Swapchain,
        swapchain_teardown_spec(n).len() == 2 * n + 1,
        i < n + i < 2 * n,
{
}

/// In the context's teardown, both command pools go before the device, and
/// the device before the surface and the instance, which is last.
pub proof fn lemma_context_device_order(has_debug_callback: bool)
    ensures
        context_teardown_spec(has_debug_callback)[0] == ContextTeardownStep::TransientCommandPool,
        context_teardown_spec(has_debug_callback)[1] == ContextTeardownStep::GeneralCommandPool,
        context_teardown_spec(has_debug_callback)[2] == ContextTeardownStep::Device,
        context_teardown_spec(has_debug_callback)[3] == ContextTeardownStep::Surface,
        context_teardown_spec(has_debug_callback).last() == ContextTeardownStep::Instance,
{
}

} // verus!
