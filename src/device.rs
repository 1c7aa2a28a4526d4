//! Choosing a physical device and what to ask of it: queue families,
//! validation layers, sample count and supported formats.
use vstd::prelude::*;
use crate::memory::contains_flags;

verus! {

/// Queue-family bit: the family supports graphics operations.
pub const QUEUE_GRAPHICS: u32 = 0x1;

/// Format-feature bit: usable as a depth/stencil attachment.
pub const FORMAT_FEATURE_DEPTH_STENCIL_ATTACHMENT: u32 = 0x200;

/// Format-feature bit: usable as the source of a linearly filtered blit.
pub const FORMAT_FEATURE_SAMPLED_IMAGE_FILTER_LINEAR: u32 = 0x1000;

/// Raw value of the depth format `D32_SFLOAT`.
pub const FORMAT_D32_SFLOAT: i32 = 126;

/// Sample-count bits, one per supported count.
pub const SAMPLE_COUNT_1: u32 = 0x1;

pub const SAMPLE_COUNT_2: u32 = 0x2;

pub const SAMPLE_COUNT_4: u32 = 0x4;

pub const SAMPLE_COUNT_8: u32 = 0x8;

pub const SAMPLE_COUNT_16: u32 = 0x10;

pub const SAMPLE_COUNT_32: u32 = 0x20;

pub const SAMPLE_COUNT_64: u32 = 0x40;

/// The queue families chosen for graphics work and for presentation; they
/// may be the same family.
#[derive(Clone, Copy, Debug, PartialEq, Eq, Structural)]
pub struct QueueFamiliesIndices {
    pub graphics_index: u32,
    pub present_index: u32,
}

/// What a device reports of one of its queue families.
#[derive(Clone, Copy, Debug, PartialEq, Eq, Structural)]
pub struct QueueFamily {
    pub queue_flags: u32,
    pub queue_count: u32,
    /// The family can present to the window's surface.
    pub present_support: bool,
}

/// Family `i` has queues and supports graphics.
pub open spec fn is_graphics_family(families: Seq<QueueFamily>, i: int) -> bool {
    0 <= i < families.len() && families[i].queue_count > 0 && contains_flags(
        families[i].queue_flags,
        QUEUE_GRAPHICS,
    )
}

/// Family `i` has queues and can present.
pub open spec fn is_present_family(families: Seq<QueueFamily>, i: int) -> bool {
    0 <= i < families.len() && families[i].queue_count > 0 && families[i].present_support
}

/// `r` is the lowest index of a graphics family, or `None` when there is
/// none.
pub open spec fn is_first_graphics(families: Seq<QueueFamily>, r: Option<u32>) -> bool {
    match r {
        Some(k) => is_graphics_family(families, k as int) && forall|j: int|
            0 <= j < k ==> !is_graphics_family(families, j),
        None => forall|j: int| !is_graphics_family(families, j),
    }
}

/// `r` is the lowest index of a presenting family, or `None` when there is
/// none.
pub open spec fn is_first_present(families: Seq<QueueFamily>, r: Option<u32>) -> bool {
    match r {
        Some(k) => is_present_family(families, k as int) && forall|j: int|
            0 <= j < k ==> !is_present_family(families, j),
        None => forall|j: int| !is_present_family(families, j),
    }
}

/// Returns the index of the first family that has queues and supports
/// graphics.
pub fn find_graphics_queue_family(families: &Vec<QueueFamily>) -> (r: Option<u32>)
    requires
        families@.len() <= u32::MAX,
    ensures
        is_first_graphics(families@, r),
{
    let mut i: usize = 0;
    while i < families.len()
        invariant
            i <= families@.len() <= u32::MAX,
            forall|j: int| 0 <= j < i ==> !is_graphics_family(families@, j),
        decreases families@.len() - i,
    {
        let f = families[i];
        if f.queue_count > 0 && f.queue_flags & QUEUE_GRAPHICS == QUEUE_GRAPHICS {
            return Some(i as u32);
        }
        i += 1;
    }
    None
}

/// Returns the index of the first family that has queues and can present.
pub fn find_present_queue_family(families: &Vec<QueueFamily>) -> (r: Option<u32>)
    requires
        families@.len() <= u32::MAX,
    ensures
        is_first_present(families@, r),
{
    let mut i: usize = 0;
    while i < families.len()
        invariant
            i <= families@.len() <= u32::MAX,
            forall|j: int| 0 <= j < i ==> !is_present_family(families@, j),
        decreases families@.len() - i,
    {
        let f = families[i];
        if f.queue_count > 0 && f.present_support {
            return Some(i as u32);
        }
        i += 1;
    }
    None
}

/// Picks the first graphics family and the first presenting family; `None`
/// when either is missing.
pub fn find_queue_families(families: &Vec<QueueFamily>) -> (r: Option<QueueFamiliesIndices>)
    requires
        families@.len() <= u32::MAX,
    ensures
        match r {
            Some(q) => is_first_graphics(families@, Some(q.graphics_index)) && is_first_present(
                families@,
                Some(q.present_index),
            ),
            None => (forall|j: int| !is_graphics_family(families@, j)) || (forall|j: int|
                !is_present_family(families@, j)),
        },
{
    match (find_graphics_queue_family(families), find_present_queue_family(families)) {
        (Some(graphics_index), Some(present_index)) => Some(
            QueueFamiliesIndices { graphics_index, present_index },
        ),
        _ => None,
    }
}

/// The distinct queue families to create queues from: one when graphics and
/// presentation share a family, else the graphics family then the
/// presenting one.
pub fn unique_queue_families(indices: QueueFamiliesIndices) -> (r: Vec<u32>)
    ensures
        indices.graphics_index == indices.present_index ==> r@ == seq![indices.graphics_index],
        indices.graphics_index != indices.present_index ==> r@ == seq![
            indices.graphics_index,
            indices.present_index,
        ],
{
    let mut r: Vec<u32> = Vec::new();
    r.push(indices.graphics_index);
    if indices.present_index != indices.graphics_index {
        r.push(indices.present_index);
    }
    proof {
        if indices.graphics_index == indices.present_index {
            assert(r@ =~= seq![indices.graphics_index]);
        } else {
            assert(r@ =~= seq![indices.graphics_index, indices.present_index]);
        }
    }
    r
}

/// Debug-report flag: a debugging message.
pub const DEBUG_REPORT_DEBUG: u32 = 0x10;

/// Debug-report flag: an informational message.
pub const DEBUG_REPORT_INFORMATION: u32 = 0x1;

/// Debug-report flag: a warning.
pub const DEBUG_REPORT_WARNING: u32 = 0x2;

/// Debug-report flag: a performance warning.
pub const DEBUG_REPORT_PERFORMANCE_WARNING: u32 = 0x4;

/// How loudly a validation-layer message is logged.
#[derive(Clone, Copy, Debug, PartialEq, Eq, Structural)]
pub enum Severity {
    Debug,
    Info,
    Warn,
    Error,
}

/// The severity of a validation-layer message with report flags `flags`:
/// debug, information and the two kinds of warning map to their own level;
/// anything else is an error.
pub open spec fn severity_spec(flags: u32) -> Severity {
    if flags == DEBUG_REPORT_DEBUG {
        Severity::Debug
    } else if flags == DEBUG_REPORT_INFORMATION {
        Severity::Info
    } else if flags == DEBUG_REPORT_WARNING || flags == DEBUG_REPORT_PERFORMANCE_WARNING {
        Severity::Warn
    } else {
        Severity::Error
    }
}

/// Returns the level at which to log a validation-layer message.
pub fn debug_report_severity(flags: u32) -> (r: Severity)
    ensures
        r == severity_spec(flags),
{
    if flags == DEBUG_REPORT_DEBUG {
        Severity::Debug
    } else if flags == DEBUG_REPORT_INFORMATION {
        Severity::Info
    } else if flags == DEBUG_REPORT_WARNING || flags == DEBUG_REPORT_PERFORMANCE_WARNING {
        Severity::Warn
    } else {
        Severity::Error
    }
}

/// What the renderer needs to know of a physical device to decide whether
/// it can use it.
pub struct DeviceCandidate {
    pub queue_families: Vec<QueueFamily>,
    /// The device offers the swapchain extension.
    pub swapchain_extension: bool,
    /// How many surface formats the device offers for the window.
    pub surface_format_count: usize,
    /// How many present modes the device offers for the window.
    pub present_mode_count: usize,
    /// The device supports anisotropic sampling.
    pub sampler_anisotropy: bool,
}

/// A device is suitable when it has a graphics family and a presenting
/// family, the swapchain extension, at least one surface format and present
/// mode, and anisotropic sampling.
pub open spec fn is_suitable_spec(c: DeviceCandidate) -> bool {
    &&& exists|i: int| is_graphics_family(c.queue_families@, i)
    &&& exists|i: int| is_present_family(c.queue_families@, i)
    &&& c.swapchain_extension
    &&& c.surface_format_count > 0
    &&& c.present_mode_count > 0
    &&& c.sampler_anisotropy
}

/// Returns whether the renderer can use the device.
pub fn is_device_suitable(candidate: &DeviceCandidate) -> (r: bool)
    requires
        candidate.queue_families@.len() <= u32::MAX,
    ensures
        r == is_suitable_spec(*candidate),
{
    let families = find_queue_families(&candidate.queue_families);
    proof {
        if let Some(q) = families {
            assert(is_graphics_family(candidate.queue_families@, q.graphics_index as int));
            assert(is_present_family(candidate.queue_families@, q.present_index as int));
        }
    }
    families.is_some() && candidate.swapchain_extension && candidate.surface_format_count > 0
        && candidate.present_mode_count > 0 && candidate.sampler_anisotropy
}

/// Returns the index of the first suitable device, or `None` when there is
/// none.
pub fn pick_physical_device(candidates: &Vec<DeviceCandidate>) -> (r: Option<usize>)
    requires
        forall|i: int|
            0 <= i < candidates@.len() ==> candidates@[i].queue_families@.len() <= u32::MAX,
    ensures
        match r {
            Some(k) => k < candidates@.len() && is_suitable_spec(candidates@[k as int]) && forall|
                j: int,
            |
                0 <= j < k ==> !is_suitable_spec(candidates@[j]),
            None => forall|j: int| 0 <= j < candidates@.len() ==> !is_suitable_spec(candidates@[j]),
        },
{
    let mut i: usize = 0;
    while i < candidates.len()
        invariant
            i <= candidates@.len(),
            forall|j: int|
                0 <= j < candidates@.len() ==> candidates@[j].queue_families@.len() <= u32::MAX,
            forall|j: int| 0 <= j < i ==> !is_suitable_spec(candidates@[j]),
        decreases candidates@.len() - i,
    {
        if is_device_suitable(&candidates[i]) {
            return Some(i);
        }
        i += 1;
    }
    None
}

fn bytes_equal(a: &Vec<u8>, b: &Vec<u8>) -> (r: bool)
    ensures
        r == (a@ == b@),
{
    if a.len() != b.len() {
        return false;
    }
    let mut i: usize = 0;
    while i < a.len()
        invariant
            a@.len() == b@.len(),
            i <= a@.len(),
            forall|j: int| 0 <= j < i ==> a@[j] == b@[j],
        decreases a@.len() - i,
    {
        if a[i] != b[i] {
            return false;
        }
        i += 1;
    }
    proof {
        assert(a@ =~= b@);
    }
    true
}

/// `name` is among the `available` layer names.
pub open spec fn layer_available(available: Seq<Vec<u8>>, name: Seq<u8>) -> bool {
    exists|j: int| 0 <= j < available.len() && #[trigger] available[j]@ == name
}

/// Every layer name in `required` is among the `available` layer names.
pub open spec fn layers_supported_spec(required: Seq<Vec<u8>>, available: Seq<Vec<u8>>) -> bool {
    forall|i: int| 0 <= i < required.len() ==> layer_available(available, #[trigger] required[i]@)
}

/// Returns whether every required validation layer is available; names are
/// compared byte for byte.
pub fn check_validation_layer_support(required: &Vec<Vec<u8>>, available: &Vec<Vec<u8>>) -> (r:
    bool)
    ensures
        r == layers_supported_spec(required@, available@),
{
    let mut i: usize = 0;
    while i < required.len()
        invariant
            i <= required@.len(),
            forall|k: int| 0 <= k < i ==> layer_available(available@, #[trigger] required@[k]@),
        decreases required@.len() - i,
    {
        let mut found = false;
        let mut j: usize = 0;
        while j < available.len()
            invariant
                i < required@.len(),
                j <= available@.len(),
                !found ==> forall|l: int| 0 <= l < j ==> available@[l]@ != required@[i as int]@,
                found ==> layer_available(available@, required@[i as int]@),
            decreases available@.len() - j,
        {
            if !found && bytes_equal(&available[j], &required[i]) {
                found = true;
            }
            j += 1;
        }
        if !found {
            proof {
                assert(!layer_available(available@, required@[i as int]@));
            }
            return false;
        }
        i += 1;
    }
    true
}

/// The sample counts usable for both color and depth, as the device reports
/// them compared as raw masks: the smaller of the two masks.
pub open spec fn common_sample_counts(color_counts: u32, depth_counts: u32) -> u32 {
    if color_counts <= depth_counts {
        color_counts
    } else {
        depth_counts
    }
}

/// The highest count among 64, 32, 16, 8, 4 and 2 whose bit is set in
/// `counts`, else one sample.
pub open spec fn highest_sample_count(counts: u32) -> u32 {
    if contains_flags(counts, SAMPLE_COUNT_64) {
        SAMPLE_COUNT_64
    } else if contains_flags(counts, SAMPLE_COUNT_32) {
        SAMPLE_COUNT_32
    } else if contains_flags(counts, SAMPLE_COUNT_16) {
        SAMPLE_COUNT_16
    } else if contains_flags(counts, SAMPLE_COUNT_8) {
        SAMPLE_COUNT_8
    } else if contains_flags(counts, SAMPLE_COUNT_4) {
        SAMPLE_COUNT_4
    } else if contains_flags(counts, SAMPLE_COUNT_2) {
        SAMPLE_COUNT_2
    } else {
        SAMPLE_COUNT_1
    }
}

/// Returns the largest sample count usable for multisampling, from the
/// framebuffer color and depth sample-count masks that the device reports.
pub fn get_max_usable_sample_count(color_counts: u32, depth_counts: u32) -> (r: u32)
    ensures
        r == highest_sample_count(common_sample_counts(color_counts, depth_counts)),
{
    let counts = if color_counts <= depth_counts {
        color_counts
    } else {
        depth_counts
    };
    if counts & SAMPLE_COUNT_64 == SAMPLE_COUNT_64 {
        SAMPLE_COUNT_64
    } else if counts & SAMPLE_COUNT_32 == SAMPLE_COUNT_32 {
        SAMPLE_COUNT_32
    } else if counts & SAMPLE_COUNT_16 == SAMPLE_COUNT_16 {
        SAMPLE_COUNT_16
    } else if counts & SAMPLE_COUNT_8 == SAMPLE_COUNT_8 {
        SAMPLE_COUNT_8
    } else if counts & SAMPLE_COUNT_4 == SAMPLE_COUNT_4 {
        SAMPLE_COUNT_4
    } else if counts & SAMPLE_COUNT_2 == SAMPLE_COUNT_2 {
        SAMPLE_COUNT_2
    } else {
        SAMPLE_COUNT_1
    }
}

/// How the texels of an image are laid out in memory.
#[derive(Clone, Copy, Debug, PartialEq, Eq, Structural)]
pub enum ImageTiling {
    Optimal,
    Linear,
}

/// A candidate format with the features the device supports for it.
#[derive(Clone, Copy, Debug, PartialEq, Eq, Structural)]
pub struct FormatCandidate {
    pub format: i32,
    pub linear_tiling_features: u32,
    pub optimal_tiling_features: u32,
}

/// The candidate supports every feature in `features` with tiling `tiling`.
pub open spec fn format_supports(c: FormatCandidate, tiling: ImageTiling, features: u32) -> bool {
    match tiling {
        ImageTiling::Linear => contains_flags(c.linear_tiling_features, features),
        ImageTiling::Optimal => contains_flags(c.optimal_tiling_features, features),
    }
}

/// Returns the first candidate format that supports `features` with tiling
/// `tiling`, or `None` when none does.
pub fn find_supported_format(
    candidates: &Vec<FormatCandidate>,
    tiling: ImageTiling,
    features: u32,
) -> (r: Option<i32>)
    ensures
        match r {
            Some(f) => exists|k: int|
                0 <= k < candidates@.len() && candidates@[k].format == f && format_supports(
                    candidates@[k],
                    tiling,
                    features,
                ) && forall|j: int|
                    0 <= j < k ==> !format_supports(candidates@[j], tiling, features),
            None => forall|j: int|
                0 <= j < candidates@.len() ==> !format_supports(candidates@[j], tiling, features),
        },
{
    let mut i: usize = 0;
    while i < candidates.len()
        invariant
            i <= candidates@.len(),
            forall|j: int| 0 <= j < i ==> !format_supports(candidates@[j], tiling, features),
        decreases candidates@.len() - i,
    {
        let c = candidates[i];
        let ok = match tiling {
            ImageTiling::Linear => c.linear_tiling_features & features == features,
            ImageTiling::Optimal => c.optimal_tiling_features & features == features,
        };
        if ok {
            proof {
                assert(candidates@[i as int] == c);
            }
            return Some(c.format);
        }
        i += 1;
    }
    None
}

} // verus!
