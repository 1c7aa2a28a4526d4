//! Negotiation of the swapchain's properties from what the surface reports,
//! and the order in which a swapchain's parts are released.
use vstd::prelude::*;

verus! {

/// A width and a height in pixels.
#[derive(Clone, Copy, Debug, PartialEq, Eq, Structural)]
pub struct Extent2D {
    pub width: u32,
    pub height: u32,
}

impl Extent2D {
    /// Either side is zero, as for a minimized window.
    pub open spec fn is_zero_spec(&self) -> bool {
        self.width == 0 || self.height == 0
    }

    /// Returns whether either side is zero.
    pub fn is_zero(&self) -> (r: bool)
        ensures
            r == self.is_zero_spec(),
    {
        self.width == 0 || self.height == 0
    }
}

/// Raw value of the pixel format `B8G8R8A8_UNORM`.
pub const FORMAT_B8G8R8A8_UNORM: i32 = 44;

/// Raw value of the color space `SRGB_NONLINEAR`.
pub const COLOR_SPACE_SRGB_NONLINEAR: i32 = 0;

/// Raw value of the present mode `IMMEDIATE`.
pub const PRESENT_MODE_IMMEDIATE: i32 = 0;

/// Raw value of the present mode `MAILBOX`: low latency, no tearing.
pub const PRESENT_MODE_MAILBOX: i32 = 1;

/// Raw value of the present mode `FIFO`, which every device supports.
pub const PRESENT_MODE_FIFO: i32 = 2;

/// The width that a surface reports as its current extent when it accepts
/// any extent.
pub const ANY_EXTENT: u32 = 0xFFFF_FFFF;

/// A pixel format together with a color space.
#[derive(Clone, Copy, Debug, PartialEq, Eq, Structural)]
pub struct SurfaceFormat {
    pub format: i32,
    pub color_space: i32,
}

/// What the surface reports of the swapchains it accepts.
#[derive(Clone, Copy, Debug, PartialEq, Eq, Structural)]
pub struct SurfaceCapabilities {
    pub min_image_count: u32,
    /// Zero when there is no upper bound.
    pub max_image_count: u32,
    /// `ANY_EXTENT` wide when the surface accepts any extent.
    pub current_extent: Extent2D,
    pub min_image_extent: Extent2D,
    pub max_image_extent: Extent2D,
}

/// Everything the device reports about presenting to a surface.
pub struct SwapchainSupportDetails {
    pub capabilities: SurfaceCapabilities,
    pub formats: Vec<SurfaceFormat>,
    pub present_modes: Vec<i32>,
}

/// The negotiated properties of a swapchain.
#[derive(Clone, Copy, Debug, PartialEq, Eq, Structural)]
pub struct SwapchainProperties {
    pub format: SurfaceFormat,
    pub present_mode: i32,
    pub extent: Extent2D,
}

/// The format and color space that the renderer prefers.
pub open spec fn preferred_format() -> SurfaceFormat {
    SurfaceFormat { format: FORMAT_B8G8R8A8_UNORM, color_space: COLOR_SPACE_SRGB_NONLINEAR }
}

/// The preferred format if the surface offers it, else the first one it
/// offers.
pub open spec fn surface_format_spec(formats: Seq<SurfaceFormat>) -> SurfaceFormat
    recommends
        formats.len() > 0,
{
    if formats.contains(preferred_format()) {
        preferred_format()
    } else {
        formats[0]
    }
}

/// Mailbox if the surface offers it, else FIFO, which is always available.
pub open spec fn present_mode_spec(modes: Seq<i32>) -> i32 {
    if modes.contains(PRESENT_MODE_MAILBOX) {
        PRESENT_MODE_MAILBOX
    } else {
        PRESENT_MODE_FIFO
    }
}

/// `v` brought within `[lo, hi]`: first capped at `hi`, then raised to `lo`.
pub open spec fn clamp_spec(v: u32, lo: u32, hi: u32) -> u32 {
    let capped = if v > hi {
        hi
    } else {
        v
    };
    if capped < lo {
        lo
    } else {
        capped
    }
}

/// The surface's current extent, unless it accepts any extent: then the
/// requested extent clamped to the surface's bounds.
pub open spec fn extent_spec(caps: SurfaceCapabilities, requested: Extent2D) -> Extent2D {
    if caps.current_extent.width != ANY_EXTENT {
        caps.current_extent
    } else {
        Extent2D {
            width: clamp_spec(
                requested.width,
                caps.min_image_extent.width,
                caps.max_image_extent.width,
            ),
            height: clamp_spec(
                requested.height,
                caps.min_image_extent.height,
                caps.max_image_extent.height,
            ),
        }
    }
}

/// One image more than the minimum, so that the driver never has to wait
/// on the renderer, but no more than the maximum when there is one.
pub open spec fn image_count_spec(caps: SurfaceCapabilities) -> u32 {
    let preferred = caps.min_image_count as int + 1;
    if caps.max_image_count > 0 && preferred > caps.max_image_count {
        caps.max_image_count
    } else if preferred > u32::MAX {
        u32::MAX
    } else {
        preferred as u32
    }
}

/// The properties negotiated for a swapchain of a window of size
/// `requested`, or `None` when the surface offers no format.
pub open spec fn properties_spec(
    caps: SurfaceCapabilities,
    formats: Seq<SurfaceFormat>,
    modes: Seq<i32>,
    requested: Extent2D,
) -> Option<SwapchainProperties> {
    if formats.len() == 0 {
        None
    } else {
        Some(
            SwapchainProperties {
                format: surface_format_spec(formats),
                present_mode: present_mode_spec(modes),
                extent: extent_spec(caps, requested),
            },
        )
    }
}

/// Picks the preferred format and color space if offered, else the first
/// format offered; `None` when none is.
pub fn choose_swapchain_surface_format(formats: &Vec<SurfaceFormat>) -> (r: Option<SurfaceFormat>)
    ensures
        formats@.len() == 0 ==> r is None,
        formats@.len() > 0 ==> r == Some(surface_format_spec(formats@)),
{
    if formats.len() == 0 {
        return None;
    }
    let mut i: usize = 0;
    while i < formats.len()
        invariant
            i <= formats@.len(),
            forall|j: int| 0 <= j < i ==> formats@[j] != preferred_format(),
        decreases formats@.len() - i,
    {
        let f = formats[i];
        if f.format == FORMAT_B8G8R8A8_UNORM && f.color_space == COLOR_SPACE_SRGB_NONLINEAR {
            proof {
                assert(formats@[i as int] == preferred_format());
            }
            return Some(f);
        }
        i += 1;
    }
    Some(formats[0])
}

/// Picks mailbox if offered, else FIFO.
pub fn choose_swapchain_present_mode(modes: &Vec<i32>) -> (r: i32)
    ensures
        r == present_mode_spec(modes@),
{
    let mut i: usize = 0;
    while i < modes.len()
        invariant
            i <= modes@.len(),
            forall|j: int| 0 <= j < i ==> modes@[j] != PRESENT_MODE_MAILBOX,
        decreases modes@.len() - i,
    {
        if modes[i] == PRESENT_MODE_MAILBOX {
            proof {
                assert(modes@[i as int] == PRESENT_MODE_MAILBOX);
            }
            return PRESENT_MODE_MAILBOX;
        }
        i += 1;
    }
    PRESENT_MODE_FIFO
}

fn clamp_u32(v: u32, lo: u32, hi: u32) -> (r: u32)
    ensures
        r == clamp_spec(v, lo, hi),
{
    let capped = if v > hi {
        hi
    } else {
        v
    };
    if capped < lo {
        lo
    } else {
        capped
    }
}

/// Picks the swapchain extent for a window of size `requested`.
pub fn choose_swapchain_extent(caps: &SurfaceCapabilities, requested: Extent2D) -> (r: Extent2D)
    ensures
        r == extent_spec(*caps, requested),
{
    if caps.current_extent.width != ANY_EXTENT {
        return caps.current_extent;
    }
    Extent2D {
        width: clamp_u32(requested.width, caps.min_image_extent.width, caps.max_image_extent.width),
        height: clamp_u32(
            requested.height,
            caps.min_image_extent.height,
            caps.max_image_extent.height,
        ),
    }
}

/// Picks how many images the swapchain asks for.
pub fn choose_image_count(caps: &SurfaceCapabilities) -> (r: u32)
    ensures
        r == image_count_spec(*caps),
{
    let preferred: u32 = if caps.min_image_count < u32::MAX {
        caps.min_image_count + 1
    } else {
        u32::MAX
    };
    if caps.max_image_count > 0 && preferred > caps.max_image_count {
        caps.max_image_count
    } else {
        preferred
    }
}

/// Negotiates the format, present mode and extent of a swapchain for a
/// window of size `requested`; `None` when the surface offers no format.
pub fn choose_swapchain_properties(support: &SwapchainSupportDetails, requested: Extent2D) -> (r:
    Option<SwapchainProperties>)
    ensures
        r == properties_spec(
            support.capabilities,
            support.formats@,
            support.present_modes@,
            requested,
        ),
{
    match choose_swapchain_surface_format(&support.formats) {
        None => None,
        Some(format) => Some(
            SwapchainProperties {
                format,
                present_mode: choose_swapchain_present_mode(&support.present_modes),
                extent: choose_swapchain_extent(&support.capabilities, requested),
            },
        ),
    }
}

/// Where a swapchain is in its life.
#[derive(Clone, Copy, Debug, PartialEq, Eq, Structural)]
pub enum ChainState {
    NotCreated,
    Created,
    /// Created, but reported out of date or outgrown by a resize.
    Stale,
    Destroyed,
}

/// Why a swapchain operation was refused.
#[derive(Clone, Copy, Debug, PartialEq, Eq, Structural)]
pub enum SwapchainError {
    /// The swapchain was created already.
    AlreadyCreated,
    /// The swapchain has not been created yet.
    NotCreated,
    /// The swapchain was destroyed.
    Destroyed,
    /// The surface offers no format.
    NoSurfaceFormat,
}

/// A swapchain's lifecycle as mathematical values.
pub struct ChainView {
    pub state: ChainState,
    pub properties: Option<SwapchainProperties>,
    pub image_count: u32,
}

/// The state after a successful (re)creation with properties `p`.
pub open spec fn created_view(caps: SurfaceCapabilities, p: SwapchainProperties) -> ChainView {
    ChainView { state: ChainState::Created, properties: Some(p), image_count: image_count_spec(caps) }
}

/// Outcome of rebuilding: allowed from the created and stale states; it
/// negotiates anew and replaces the whole swapchain, or changes nothing when
/// the surface offers no format.
pub open spec fn rebuild_spec(
    v: ChainView,
    caps: SurfaceCapabilities,
    formats: Seq<SurfaceFormat>,
    modes: Seq<i32>,
    requested: Extent2D,
) -> (ChainView, Result<SwapchainProperties, SwapchainError>) {
    match v.state {
        ChainState::NotCreated => (v, Err(SwapchainError::NotCreated)),
        ChainState::Destroyed => (v, Err(SwapchainError::Destroyed)),
        _ => match properties_spec(caps, formats, modes, requested) {
            None => (v, Err(SwapchainError::NoSurfaceFormat)),
            Some(p) => (created_view(caps, p), Ok(p)),
        },
    }
}

/// The lifecycle of the window's swapchain: created once, marked stale when
/// out of date or resized, rebuilt whole (never patched), destroyed at the
/// end. The value stands for one logical swapchain across rebuilds.
pub struct SurfaceChain {
    state: ChainState,
    properties: Option<SwapchainProperties>,
    image_count: u32,
}

impl View for SurfaceChain {
    type V = ChainView;

    closed spec fn view(&self) -> ChainView {
        ChainView { state: self.state, properties: self.properties, image_count: self.image_count }
    }
}

impl SurfaceChain {
    /// A swapchain not created yet.
    pub fn new() -> (r: Self)
        ensures
            r@ == (ChainView { state: ChainState::NotCreated, properties: None, image_count: 0 }),
    {
        SurfaceChain { state: ChainState::NotCreated, properties: None, image_count: 0 }
    }

    /// Where the swapchain is in its life.
    pub fn state(&self) -> (r: ChainState)
        ensures
            r == self@.state,
    {
        self.state
    }

    /// The properties negotiated at the last (re)creation.
    pub fn properties(&self) -> (r: Option<SwapchainProperties>)
        ensures
            r == self@.properties,
    {
        self.properties
    }

    /// The number of images asked for at the last (re)creation.
    pub fn image_count(&self) -> (r: u32)
        ensures
            r == self@.image_count,
    {
        self.image_count
    }

    fn recreate(&mut self, support: &SwapchainSupportDetails, requested: Extent2D) -> (r: Result<
        SwapchainProperties,
        SwapchainError,
    >)
        ensures
            match properties_spec(
                support.capabilities,
                support.formats@,
                support.present_modes@,
                requested,
            ) {
                None => final(self)@ == old(self)@ && r == Err::<SwapchainProperties, SwapchainError>(
                    SwapchainError::NoSurfaceFormat,
                ),
                Some(p) => final(self)@ == created_view(support.capabilities, p) && r == Ok::<
                    SwapchainProperties,
                    SwapchainError,
                >(p),
            },
    {
        match choose_swapchain_properties(support, requested) {
            None => Err(SwapchainError::NoSurfaceFormat),
            Some(p) => {
                self.state = ChainState::Created;
                self.properties = Some(p);
                self.image_count = choose_image_count(&support.capabilities);
                Ok(p)
            },
        }
    }

    /// Creates the swapchain for a window of size `requested`, with the
    /// properties negotiated from `support`. Refused unless the swapchain
    /// was never created.
    pub fn create(&mut self, support: &SwapchainSupportDetails, requested: Extent2D) -> (r: Result<
        SwapchainProperties,
        SwapchainError,
    >)
        ensures
            old(self)@.state != ChainState::NotCreated ==> final(self)@ == old(self)@ && r == Err::<
                SwapchainProperties,
                SwapchainError,
            >(SwapchainError::AlreadyCreated),
            old(self)@.state == ChainState::NotCreated ==> match properties_spec(
                support.capabilities,
                support.formats@,
                support.present_modes@,
                requested,
            ) {
                None => final(self)@ == old(self)@ && r == Err::<SwapchainProperties, SwapchainError>(
                    SwapchainError::NoSurfaceFormat,
                ),
                Some(p) => final(self)@ == created_view(support.capabilities, p) && r == Ok::<
                    SwapchainProperties,
                    SwapchainError,
                >(p),
            },
    {
        if self.state != ChainState::NotCreated {
            return Err(SwapchainError::AlreadyCreated);
        }
        self.recreate(support, requested)
    }

    /// Records that the swapchain is out of date or no longer matches the
    /// window. Only a created swapchain becomes stale.
    pub fn mark_stale(&mut self)
        ensures
            old(self)@.state == ChainState::Created ==> final(self)@ == (ChainView {
                state: ChainState::Stale,
                ..old(self)@
            }),
            old(self)@.state != ChainState::Created ==> final(self)@ == old(self)@,
    {
        if self.state == ChainState::Created {
            self.state = ChainState::Stale;
        }
    }

    /// Tears the swapchain down and creates it anew for a window of size
    /// `requested`, negotiating its properties again.
    pub fn rebuild(&mut self, support: &SwapchainSupportDetails, requested: Extent2D) -> (r: Result<
        SwapchainProperties,
        SwapchainError,
    >)
        ensures
            (final(self)@, r) == rebuild_spec(
                old(self)@,
                support.capabilities,
                support.formats@,
                support.present_modes@,
                requested,
            ),
    {
        match self.state {
            ChainState::NotCreated => Err(SwapchainError::NotCreated),
            ChainState::Destroyed => Err(SwapchainError::Destroyed),
            _ => self.recreate(support, requested),
        }
    }

    /// Destroys the swapchain for good.
    pub fn destroy(&mut self) -> (r: Result<(), SwapchainError>)
        ensures
            old(self)@.state == ChainState::NotCreated ==> r == Err::<(), SwapchainError>(
                SwapchainError::NotCreated,
            ) && final(self)@ == old(self)@,
            old(self)@.state == ChainState::Destroyed ==> r == Err::<(), SwapchainError>(
                SwapchainError::Destroyed,
            ) && final(self)@ == old(self)@,
            (old(self)@.state == ChainState::Created || old(self)@.state == ChainState::Stale) ==> r
                == Ok::<(), SwapchainError>(()) && final(self)@ == (ChainView {
                state: ChainState::Destroyed,
                ..old(self)@
            }),
    {
        match self.state {
            ChainState::NotCreated => Err(SwapchainError::NotCreated),
            ChainState::Destroyed => Err(SwapchainError::Destroyed),
            _ => {
                self.state = ChainState::Destroyed;
                Ok(())
            },
        }
    }
}

/// Rebuilding twice in a row, for the same device and surface and with no
/// resize in between, yields the same negotiated properties and the same
/// state both times, whether the swapchain was stale or not.
pub proof fn lemma_rebuild_twice(
    v: ChainView,
    caps: SurfaceCapabilities,
    formats: Seq<SurfaceFormat>,
    modes: Seq<i32>,
    requested: Extent2D,
)
    ensures
        rebuild_spec(v, caps, formats, modes, requested).1 is Ok ==> rebuild_spec(
            rebuild_spec(v, caps, formats, modes, requested).0,
            caps,
            formats,
            modes,
            requested,
        ) == rebuild_spec(v, caps, formats, modes, requested),
{
}

/// Whether a rebuild must recreate the per-image resources (each object's
/// uniform buffers and descriptor sets): only when the swapchain's image
/// count changed; otherwise they are kept.
pub fn per_image_resources_stale(old_image_count: u32, new_image_count: u32) -> (r: bool)
    ensures
        r == (old_image_count != new_image_count),
{
    old_image_count != new_image_count
}

/// Clamping twice to the same bounds gives what clamping once gave.
pub proof fn lemma_clamp_idempotent(v: u32, lo: u32, hi: u32)
    ensures
        clamp_spec(clamp_spec(v, lo, hi), lo, hi) == clamp_spec(v, lo, hi),
{
}

/// Rebuilding is idempotent: negotiating again for the same device and
/// surface, with the window size that the previous negotiation settled on
/// (no resize in between), yields exactly the same format, present mode and
/// extent.
pub proof fn lemma_rebuild_idempotent(
    caps: SurfaceCapabilities,
    formats: Seq<SurfaceFormat>,
    modes: Seq<i32>,
    requested: Extent2D,
)
    ensures
        properties_spec(caps, formats, modes, requested) matches Some(p) ==> properties_spec(
            caps,
            formats,
            modes,
            p.extent,
        ) == Some(p),
{
    lemma_clamp_idempotent(
        requested.width,
        caps.min_image_extent.width,
        caps.max_image_extent.width,
    );
    lemma_clamp_idempotent(
        requested.height,
        caps.min_image_extent.height,
        caps.max_image_extent.height,
    );
}

/// A surface that accepts any extent, with bounds that admit the requested
/// size, gets exactly the requested size.
pub proof fn lemma_extent_within_bounds_kept(caps: SurfaceCapabilities, requested: Extent2D)
    requires
        caps.current_extent.width == ANY_EXTENT,
        caps.min_image_extent.width <= requested.width <= caps.max_image_extent.width,
        caps.min_image_extent.height <= requested.height <= caps.max_image_extent.height,
    ensures
        extent_spec(caps, requested) == requested,
{
}

} // verus!
