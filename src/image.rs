//! Image layout transitions and the plan for generating a mip chain by
//! successive blits.
use vstd::prelude::*;
use crate::swapchain::Extent2D;

verus! {

/// The layouts this renderer moves its images through.
#[derive(Clone, Copy, Debug, PartialEq, Eq, Structural)]
pub enum ImageLayout {
    Undefined,
    ColorAttachmentOptimal,
    DepthStencilAttachmentOptimal,
    ShaderReadOnlyOptimal,
    TransferSrcOptimal,
    TransferDstOptimal,
    PresentSrc,
}

impl ImageLayout {
    /// The layout's raw Vulkan value.
    pub open spec fn raw_spec(self) -> i32 {
        match self {
            ImageLayout::Undefined => 0,
            ImageLayout::ColorAttachmentOptimal => 2,
            ImageLayout::DepthStencilAttachmentOptimal => 3,
            ImageLayout::ShaderReadOnlyOptimal => 5,
            ImageLayout::TransferSrcOptimal => 6,
            ImageLayout::TransferDstOptimal => 7,
            ImageLayout::PresentSrc => 1000001002,
        }
    }

    /// Returns the layout's raw Vulkan value.
    pub fn raw(self) -> (r: i32)
        ensures
            r == self.raw_spec(),
    {
        match self {
            ImageLayout::Undefined => 0,
            ImageLayout::ColorAttachmentOptimal => 2,
            ImageLayout::DepthStencilAttachmentOptimal => 3,
            ImageLayout::ShaderReadOnlyOptimal => 5,
            ImageLayout::TransferSrcOptimal => 6,
            ImageLayout::TransferDstOptimal => 7,
            ImageLayout::PresentSrc => 1000001002,
        }
    }
}

/// Access bit: shader reads.
pub const ACCESS_SHADER_READ: u32 = 0x20;

/// Access bit: color attachment reads.
pub const ACCESS_COLOR_ATTACHMENT_READ: u32 = 0x80;

/// Access bit: color attachment writes.
pub const ACCESS_COLOR_ATTACHMENT_WRITE: u32 = 0x100;

/// Access bit: depth/stencil attachment reads.
pub const ACCESS_DEPTH_STENCIL_ATTACHMENT_READ: u32 = 0x200;

/// Access bit: depth/stencil attachment writes.
pub const ACCESS_DEPTH_STENCIL_ATTACHMENT_WRITE: u32 = 0x400;

/// Access bit: transfer reads.
pub const ACCESS_TRANSFER_READ: u32 = 0x800;

/// Access bit: transfer writes.
pub const ACCESS_TRANSFER_WRITE: u32 = 0x1000;

/// Pipeline stage bit: top of the pipe.
pub const STAGE_TOP_OF_PIPE: u32 = 0x1;

/// Pipeline stage bit: fragment shader.
pub const STAGE_FRAGMENT_SHADER: u32 = 0x80;

/// Pipeline stage bit: early fragment tests.
pub const STAGE_EARLY_FRAGMENT_TESTS: u32 = 0x100;

/// Pipeline stage bit: color attachment output.
pub const STAGE_COLOR_ATTACHMENT_OUTPUT: u32 = 0x400;

/// Pipeline stage bit: transfers.
pub const STAGE_TRANSFER: u32 = 0x1000;

/// Aspect bit: color.
pub const ASPECT_COLOR: u32 = 0x1;

/// Aspect bit: depth.
pub const ASPECT_DEPTH: u32 = 0x2;

/// Aspect bit: stencil.
pub const ASPECT_STENCIL: u32 = 0x4;

/// Raw value of the depth format `D24_UNORM_S8_UINT`.
pub const FORMAT_D24_UNORM_S8_UINT: i32 = 129;

/// Raw value of the depth format `D32_SFLOAT_S8_UINT`.
pub const FORMAT_D32_SFLOAT_S8_UINT: i32 = 130;

/// The access and stage masks of a layout-transition barrier.
#[derive(Clone, Copy, Debug, PartialEq, Eq, Structural)]
pub struct LayoutBarrier {
    pub src_access: u32,
    pub dst_access: u32,
    pub src_stage: u32,
    pub dst_stage: u32,
}

/// The barrier for each supported transition; `None` for any other pair.
pub open spec fn barrier_spec(old: ImageLayout, new: ImageLayout) -> Option<LayoutBarrier> {
    match (old, new) {
        (ImageLayout::Undefined, ImageLayout::TransferDstOptimal) => Some(
            LayoutBarrier {
                src_access: 0,
                dst_access: ACCESS_TRANSFER_WRITE,
                src_stage: STAGE_TOP_OF_PIPE,
                dst_stage: STAGE_TRANSFER,
            },
        ),
        (ImageLayout::Undefined, ImageLayout::ColorAttachmentOptimal) => Some(
            LayoutBarrier {
                src_access: 0,
                dst_access: ACCESS_COLOR_ATTACHMENT_READ | ACCESS_COLOR_ATTACHMENT_WRITE,
                src_stage: STAGE_TOP_OF_PIPE,
                dst_stage: STAGE_COLOR_ATTACHMENT_OUTPUT,
            },
        ),
        (ImageLayout::Undefined, ImageLayout::DepthStencilAttachmentOptimal) => Some(
            LayoutBarrier {
                src_access: 0,
                dst_access: ACCESS_DEPTH_STENCIL_ATTACHMENT_READ
                    | ACCESS_DEPTH_STENCIL_ATTACHMENT_WRITE,
                src_stage: STAGE_TOP_OF_PIPE,
                dst_stage: STAGE_EARLY_FRAGMENT_TESTS,
            },
        ),
        (ImageLayout::TransferDstOptimal, ImageLayout::TransferSrcOptimal) => Some(
            LayoutBarrier {
                src_access: ACCESS_TRANSFER_WRITE,
                dst_access: ACCESS_TRANSFER_READ,
                src_stage: STAGE_TRANSFER,
                dst_stage: STAGE_TRANSFER,
            },
        ),
        (ImageLayout::TransferDstOptimal, ImageLayout::ShaderReadOnlyOptimal) => Some(
            LayoutBarrier {
                src_access: ACCESS_TRANSFER_WRITE,
                dst_access: ACCESS_SHADER_READ,
                src_stage: STAGE_TRANSFER,
                dst_stage: STAGE_FRAGMENT_SHADER,
            },
        ),
        (ImageLayout::TransferSrcOptimal, ImageLayout::ShaderReadOnlyOptimal) => Some(
            LayoutBarrier {
                src_access: ACCESS_TRANSFER_READ,
                dst_access: ACCESS_SHADER_READ,
                src_stage: STAGE_TRANSFER,
                dst_stage: STAGE_FRAGMENT_SHADER,
            },
        ),
        _ => None,
    }
}

/// Returns the barrier masks that move an image from layout `old` to layout
/// `new`, or `None` when the transition is not supported.
pub fn transition_barrier(old: ImageLayout, new: ImageLayout) -> (r: Option<LayoutBarrier>)
    ensures
        r == barrier_spec(old, new),
{
    match (old, new) {
        (ImageLayout::Undefined, ImageLayout::TransferDstOptimal) => Some(
            LayoutBarrier {
                src_access: 0,
                dst_access: ACCESS_TRANSFER_WRITE,
                src_stage: STAGE_TOP_OF_PIPE,
                dst_stage: STAGE_TRANSFER,
            },
        ),
        (ImageLayout::Undefined, ImageLayout::ColorAttachmentOptimal) => Some(
            LayoutBarrier {
                src_access: 0,
                dst_access: ACCESS_COLOR_ATTACHMENT_READ | ACCESS_COLOR_ATTACHMENT_WRITE,
                src_stage: STAGE_TOP_OF_PIPE,
                dst_stage: STAGE_COLOR_ATTACHMENT_OUTPUT,
            },
        ),
        (ImageLayout::Undefined, ImageLayout::DepthStencilAttachmentOptimal) => Some(
            LayoutBarrier {
                src_access: 0,
                dst_access: ACCESS_DEPTH_STENCIL_ATTACHMENT_READ
                    | ACCESS_DEPTH_STENCIL_ATTACHMENT_WRITE,
                src_stage: STAGE_TOP_OF_PIPE,
                dst_stage: STAGE_EARLY_FRAGMENT_TESTS,
            },
        ),
        (ImageLayout::TransferDstOptimal, ImageLayout::TransferSrcOptimal) => Some(
            LayoutBarrier {
                src_access: ACCESS_TRANSFER_WRITE,
                dst_access: ACCESS_TRANSFER_READ,
                src_stage: STAGE_TRANSFER,
                dst_stage: STAGE_TRANSFER,
            },
        ),
        (ImageLayout::TransferDstOptimal, ImageLayout::ShaderReadOnlyOptimal) => Some(
            LayoutBarrier {
                src_access: ACCESS_TRANSFER_WRITE,
                dst_access: ACCESS_SHADER_READ,
                src_stage: STAGE_TRANSFER,
                dst_stage: STAGE_FRAGMENT_SHADER,
            },
        ),
        (ImageLayout::TransferSrcOptimal, ImageLayout::ShaderReadOnlyOptimal) => Some(
            LayoutBarrier {
                src_access: ACCESS_TRANSFER_READ,
                dst_access: ACCESS_SHADER_READ,
                src_stage: STAGE_TRANSFER,
                dst_stage: STAGE_FRAGMENT_SHADER,
            },
        ),
        _ => None,
    }
}

/// The depth format also has a stencil component.
pub open spec fn has_stencil_spec(format: i32) -> bool {
    format == FORMAT_D32_SFLOAT_S8_UINT || format == FORMAT_D24_UNORM_S8_UINT
}

/// The aspects that a barrier into layout `new` covers for an image of
/// format `format`: depth (and stencil, when the format has one) for a
/// depth/stencil attachment, color otherwise.
pub open spec fn aspect_mask_spec(new: ImageLayout, format: i32) -> u32 {
    if new == ImageLayout::DepthStencilAttachmentOptimal {
        if has_stencil_spec(format) {
            ASPECT_DEPTH | ASPECT_STENCIL
        } else {
            ASPECT_DEPTH
        }
    } else {
        ASPECT_COLOR
    }
}

/// Returns the aspects covered by a barrier into layout `new`.
pub fn transition_aspect_mask(new: ImageLayout, format: i32) -> (r: u32)
    ensures
        r == aspect_mask_spec(new, format),
{
    if new == ImageLayout::DepthStencilAttachmentOptimal {
        if format == FORMAT_D32_SFLOAT_S8_UINT || format == FORMAT_D24_UNORM_S8_UINT {
            ASPECT_DEPTH | ASPECT_STENCIL
        } else {
            ASPECT_DEPTH
        }
    } else {
        ASPECT_COLOR
    }
}

/// No transition ends in the undefined layout: it is a source layout only.
/// Every transition into the shader-read layout makes the preceding transfer
/// accesses visible to fragment-shader reads.
pub proof fn lemma_transition_rules(old: ImageLayout, new: ImageLayout)
    ensures
        barrier_spec(old, ImageLayout::Undefined) is None,
        new == ImageLayout::ShaderReadOnlyOptimal ==> (barrier_spec(old, new) matches Some(b) ==> (
        b.dst_access == ACCESS_SHADER_READ && b.dst_stage == STAGE_FRAGMENT_SHADER && b.src_stage
            == STAGE_TRANSFER && (b.src_access == ACCESS_TRANSFER_WRITE || b.src_access
            == ACCESS_TRANSFER_READ))),
        barrier_spec(old, new) is Some && old == ImageLayout::Undefined ==> barrier_spec(
            old,
            new,
        )->0.src_access == 0,
{
}

/// `floor(log2(n))`, and zero for zero.
pub open spec fn log2_floor(n: nat) -> nat
    decreases n,
{
    if n <= 1 {
        0
    } else {
        1 + log2_floor(n / 2)
    }
}

/// The larger side of an extent.
pub open spec fn max_side(e: Extent2D) -> u32 {
    if e.width >= e.height {
        e.width
    } else {
        e.height
    }
}

/// The number of levels of a full mip chain for an image of size `e`:
/// halving the larger side down to one pixel, plus the base level.
pub open spec fn mip_levels_spec(e: Extent2D) -> nat {
    log2_floor(max_side(e) as nat) + 1
}

/// The logarithm of a positive number is below the number.
pub proof fn lemma_log2_below(n: nat)
    requires
        n >= 1,
    ensures
        log2_floor(n) < n,
    decreases n,
{
    if n > 1 {
        lemma_log2_below(n / 2);
    }
}

/// Returns the number of levels of a full mip chain for an image of size
/// `extent`.
pub fn mip_levels(extent: Extent2D) -> (r: u32)
    ensures
        r == mip_levels_spec(extent),
{
    let top: u32 = if extent.width >= extent.height {
        extent.width
    } else {
        extent.height
    };
    proof {
        if top >= 1 {
            lemma_log2_below(top as nat);
        }
    }
    let mut n: u32 = top;
    let mut k: u32 = 0;
    while n > 1
        invariant
            k + log2_floor(n as nat) == log2_floor(top as nat),
            top == 0 || log2_floor(top as nat) < top,
        decreases n,
    {
        n = n / 2;
        k = k + 1;
    }
    k + 1
}

/// One side of the next mip level: half as long, but never below one pixel.
pub open spec fn halve(x: u32) -> u32 {
    if x > 1 {
        x / 2
    } else {
        x
    }
}

/// The size of mip level `k` of an image of size `e`.
pub open spec fn mip_extent(e: Extent2D, k: nat) -> Extent2D
    decreases k,
{
    if k == 0 {
        e
    } else {
        let p = mip_extent(e, (k - 1) as nat);
        Extent2D { width: halve(p.width), height: halve(p.height) }
    }
}

/// One command of mip-chain generation.
#[derive(Clone, Copy, Debug, PartialEq, Eq, Structural)]
pub enum MipStep {
    /// Move mip level `level` from layout `old` to layout `new`.
    Barrier { level: u32, old: ImageLayout, new: ImageLayout },
    /// Blit, with linear filtering, the whole of level `src_level` onto the
    /// whole of level `dst_level`.
    Blit { src_level: u32, src_extent: Extent2D, dst_level: u32, dst_extent: Extent2D },
}

/// The commands that produce level `k + 1` from level `k`: make `k` a
/// transfer source, blit it onto `k + 1`, then make `k` shader-readable.
pub open spec fn mip_level_steps(e: Extent2D, k: nat) -> Seq<MipStep> {
    seq![
        MipStep::Barrier {
            level: k as u32,
            old: ImageLayout::TransferDstOptimal,
            new: ImageLayout::TransferSrcOptimal,
        },
        MipStep::Blit {
            src_level: k as u32,
            src_extent: mip_extent(e, k),
            dst_level: (k + 1) as u32,
            dst_extent: mip_extent(e, k + 1),
        },
        MipStep::Barrier {
            level: k as u32,
            old: ImageLayout::TransferSrcOptimal,
            new: ImageLayout::ShaderReadOnlyOptimal,
        },
    ]
}

/// The commands for source levels `0 .. n`, in order.
pub open spec fn blit_steps(e: Extent2D, n: nat) -> Seq<MipStep>
    decreases n,
{
    if n == 0 {
        Seq::empty()
    } else {
        blit_steps(e, (n - 1) as nat) + mip_level_steps(e, (n - 1) as nat)
    }
}

/// The whole plan for a chain of `levels` levels whose every level starts in
/// the transfer-destination layout: each level but the last is blitted onto
/// the next and then made shader-readable; the last level, which has no blit
/// destination, is made shader-readable straight from the transfer layout.
pub open spec fn mip_steps_spec(e: Extent2D, levels: nat) -> Seq<MipStep> {
    if levels == 0 {
        Seq::empty()
    } else {
        blit_steps(e, (levels - 1) as nat).push(
            MipStep::Barrier {
                level: (levels - 1) as u32,
                old: ImageLayout::TransferDstOptimal,
                new: ImageLayout::ShaderReadOnlyOptimal,
            },
        )
    }
}

fn halve_side(x: u32) -> (r: u32)
    ensures
        r == halve(x),
{
    if x > 1 {
        x / 2
    } else {
        x
    }
}

/// Returns the commands that generate a mip chain of `levels` levels for an
/// image of size `extent` whose base level holds the picture.
pub fn mip_generation_steps(extent: Extent2D, levels: u32) -> (r: Vec<MipStep>)
    ensures
        r@ == mip_steps_spec(extent, levels as nat),
{
    let mut steps: Vec<MipStep> = Vec::new();
    if levels == 0 {
        return steps;
    }
    let mut cur = extent;
    let mut k: u32 = 0;
    while k < levels - 1
        invariant
            levels >= 1,
            k <= levels - 1,
            cur == mip_extent(extent, k as nat),
            steps@ == blit_steps(extent, k as nat),
        decreases levels - 1 - k,
    {
        let next = Extent2D { width: halve_side(cur.width), height: halve_side(cur.height) };
        steps.push(
            MipStep::Barrier {
                level: k,
                old: ImageLayout::TransferDstOptimal,
                new: ImageLayout::TransferSrcOptimal,
            },
        );
        steps.push(MipStep::Blit { src_level: k, src_extent: cur, dst_level: k + 1, dst_extent: next });
        steps.push(
            MipStep::Barrier {
                level: k,
                old: ImageLayout::TransferSrcOptimal,
                new: ImageLayout::ShaderReadOnlyOptimal,
            },
        );
        proof {
            assert(steps@ =~= blit_steps(extent, k as nat) + mip_level_steps(extent, k as nat));
            assert(blit_steps(extent, (k + 1) as nat) == blit_steps(extent, k as nat)
                + mip_level_steps(extent, k as nat));
        }
        k = k + 1;
        cur = next;
    }
    steps.push(
        MipStep::Barrier {
            level: levels - 1,
            old: ImageLayout::TransferDstOptimal,
            new: ImageLayout::ShaderReadOnlyOptimal,
        },
    );
    steps
}

/// Each level of the plan is a transfer source only after it was written,
/// and every barrier of the plan is a supported transition.
pub proof fn lemma_mip_steps_supported(e: Extent2D, levels: nat, i: int)
    requires
        0 <= i < mip_steps_spec(e, levels).len(),
    ensures
        mip_steps_spec(e, levels).len() == 3 * (levels - 1) + 1,
        mip_steps_spec(e, levels)[i] matches MipStep::Barrier { old, new, .. } ==> barrier_spec(
            old,
            new,
        ) is Some,
{
    lemma_blit_steps_shape(e, (levels - 1) as nat, i);
}

/// The blit part of the plan has three commands per source level, and each
/// of its barriers is one of the two a blit needs.
pub proof fn lemma_blit_steps_shape(e: Extent2D, n: nat, i: int)
    ensures
        blit_steps(e, n).len() == 3 * n,
        0 <= i < blit_steps(e, n).len() ==> (blit_steps(e, n)[i] matches MipStep::Barrier {
            old,
            new,
            ..
        } ==> barrier_spec(old, new) is Some),
    decreases n,
{
    if n > 0 {
        lemma_blit_steps_shape(e, (n - 1) as nat, i);
        let prev = blit_steps(e, (n - 1) as nat);
        if i >= prev.len() && i < blit_steps(e, n).len() {
            assert(blit_steps(e, n)[i] == mip_level_steps(e, (n - 1) as nat)[i - prev.len()]);
        }
    }
}

} // verus!
