//! The choices that set up the window's swapchain and the device that draws
//! into it: surface format, present mode, image size and count, alpha
//! compositing, queue family and memory type. The values are the raw
//! numbers that Vulkan uses for them.

use vstd::prelude::*;

verus! {

/// `VK_FORMAT_R8G8B8A8_UNORM`.
pub const FORMAT_R8G8B8A8_UNORM: i32 = 37;
/// `VK_FORMAT_B8G8R8A8_UNORM`.
pub const FORMAT_B8G8R8A8_UNORM: i32 = 44;
/// `VK_PRESENT_MODE_MAILBOX_KHR`.
pub const PRESENT_MODE_MAILBOX: i32 = 1;
/// `VK_PRESENT_MODE_FIFO_KHR`, which every surface supports.
pub const PRESENT_MODE_FIFO: i32 = 2;
/// `VK_COMPOSITE_ALPHA_OPAQUE_BIT_KHR`.
pub const COMPOSITE_ALPHA_OPAQUE: u32 = 1;
/// `VK_COMPOSITE_ALPHA_PRE_MULTIPLIED_BIT_KHR`.
pub const COMPOSITE_ALPHA_PRE_MULTIPLIED: u32 = 2;
/// `VK_COMPOSITE_ALPHA_POST_MULTIPLIED_BIT_KHR`.
pub const COMPOSITE_ALPHA_POST_MULTIPLIED: u32 = 4;
/// `VK_COMPOSITE_ALPHA_INHERIT_BIT_KHR`.
pub const COMPOSITE_ALPHA_INHERIT: u32 = 8;
/// `VK_QUEUE_GRAPHICS_BIT`.
pub const QUEUE_GRAPHICS: u32 = 1;
/// The width of a surface's current extent when the surface leaves the size
/// to the swapchain.
pub const EXTENT_UNDEFINED: u32 = 0xffff_ffff;
/// The most memory types a device reports (`VK_MAX_MEMORY_TYPES`).
pub const MAX_MEMORY_TYPES: usize = 32;

/// A width and a height in pixels.
#[derive(Debug, Clone, Copy, PartialEq, Eq, Structural)]
pub struct Extent2D {
    pub width: u32,
    pub height: u32,
}

/// What a surface reports of the swapchains it accepts.
#[derive(Debug, Clone, Copy, PartialEq, Eq, Structural)]
pub struct SurfaceCapabilities {
    pub current_extent: Extent2D,
    pub min_image_extent: Extent2D,
    pub max_image_extent: Extent2D,
    pub min_image_count: u32,
    /// Zero where there is no upper limit.
    pub max_image_count: u32,
    /// The supported composite alpha modes, one bit each.
    pub supported_composite_alpha: u32,
}

/// A pixel format with its color space.
#[derive(Debug, Clone, Copy, PartialEq, Eq, Structural)]
pub struct SurfaceFormat {
    pub format: i32,
    pub color_space: i32,
}

/// A queue family of a device: its capability bits and whether it can
/// present to the window's surface.
#[derive(Debug, Clone, Copy, PartialEq, Eq, Structural)]
pub struct QueueFamily {
    pub queue_flags: u32,
    pub supports_surface: bool,
}

/// Everything that the swapchain is created with that is chosen here.
#[derive(Debug, Clone, Copy, PartialEq, Eq, Structural)]
pub struct SwapchainPlan {
    pub format: SurfaceFormat,
    pub present_mode: i32,
    pub extent: Extent2D,
    pub image_count: u32,
    pub composite_alpha: u32,
}

/// Every bit of `flag` is set in `flags`.
pub open spec fn spec_contains(flags: u32, flag: u32) -> bool {
    flags & flag == flag
}

/// Whether every bit of `flag` is set in `flags`.
pub fn contains(flags: u32, flag: u32) -> (r: bool)
    ensures
        r == spec_contains(flags, flag),
        r == (flags & flag == flag),
{
    flags & flag == flag
}

/// `v` brought into `lo..=hi`.
pub open spec fn spec_clamp(v: u32, lo: u32, hi: u32) -> u32 {
    if v < lo {
        lo
    } else if v > hi {
        hi
    } else {
        v
    }
}

/// `v` brought into `lo..=hi`, as `u32::clamp` does; like it, this asks
/// that `lo <= hi`.
pub fn clamp_u32(v: u32, lo: u32, hi: u32) -> (r: u32)
    requires
        lo <= hi,
    ensures
        r == spec_clamp(v, lo, hi),
        lo <= r <= hi,
        lo <= v <= hi ==> r == v,
        v < lo ==> r == lo,
        v > hi ==> r == hi,
{
    if v < lo {
        lo
    } else if v > hi {
        hi
    } else {
        v
    }
}

/// The size of the swapchain's images: the surface's own size where it has
/// one, else the window's size brought into the range that the surface
/// allows.
pub open spec fn spec_choose_extent(caps: SurfaceCapabilities, width: u32, height: u32) -> Extent2D {
    if caps.current_extent.width != EXTENT_UNDEFINED {
        caps.current_extent
    } else {
        Extent2D {
            width: spec_clamp(width, caps.min_image_extent.width, caps.max_image_extent.width),
            height: spec_clamp(height, caps.min_image_extent.height, caps.max_image_extent.height),
        }
    }
}

/// The surface's limits are in order where the window's size is used.
pub open spec fn extent_range_valid(caps: SurfaceCapabilities) -> bool {
    caps.current_extent.width == EXTENT_UNDEFINED ==> {
        &&& caps.min_image_extent.width <= caps.max_image_extent.width
        &&& caps.min_image_extent.height <= caps.max_image_extent.height
    }
}

/// Whether the surface's limits are in order where the window's size is
/// used, as `choose_extent` asks.
pub fn extent_range_ok(caps: &SurfaceCapabilities) -> (ok: bool)
    ensures
        ok == extent_range_valid(*caps),
{
    caps.current_extent.width != EXTENT_UNDEFINED || (caps.min_image_extent.width
        <= caps.max_image_extent.width && caps.min_image_extent.height
        <= caps.max_image_extent.height)
}

/// Chooses the size of the swapchain's images for a window of
/// `width` x `height` pixels.
pub fn choose_extent(caps: &SurfaceCapabilities, width: u32, height: u32) -> (extent: Extent2D)
    requires
        extent_range_valid(*caps),
    ensures
        extent == spec_choose_extent(*caps, width, height),
        caps.current_extent.width != 0xffff_ffff ==> extent == caps.current_extent,
        caps.current_extent.width == 0xffff_ffff ==> {
            &&& caps.min_image_extent.width <= extent.width <= caps.max_image_extent.width
            &&& caps.min_image_extent.height <= extent.height <= caps.max_image_extent.height
            &&& (caps.min_image_extent.width <= width <= caps.max_image_extent.width ==> extent.width == width)
            &&& (caps.min_image_extent.height <= height <= caps.max_image_extent.height ==> extent.height == height)
            &&& (width < caps.min_image_extent.width ==> extent.width == caps.min_image_extent.width)
            &&& (width > caps.max_image_extent.width ==> extent.width == caps.max_image_extent.width)
            &&& (height < caps.min_image_extent.height ==> extent.height == caps.min_image_extent.height)
            &&& (height > caps.max_image_extent.height ==> extent.height == caps.max_image_extent.height)
        },
{
    if caps.current_extent.width != EXTENT_UNDEFINED {
        caps.current_extent
    } else {
        Extent2D {
            width: clamp_u32(width, caps.min_image_extent.width, caps.max_image_extent.width),
            height: clamp_u32(height, caps.min_image_extent.height, caps.max_image_extent.height),
        }
    }
}

/// One image more than the surface's minimum, unless that passes its maximum.
pub open spec fn spec_image_count(min_image_count: u32, max_image_count: u32) -> int {
    if max_image_count > 0 && min_image_count + 1 > max_image_count {
        max_image_count as int
    } else {
        min_image_count + 1
    }
}

/// Chooses how many images the swapchain holds.
pub fn swapchain_image_count(min_image_count: u32, max_image_count: u32) -> (count: u32)
    requires
        min_image_count < 0xffff_ffff,
    ensures
        count == spec_image_count(min_image_count, max_image_count),
        max_image_count == 0 ==> count == min_image_count + 1,
        max_image_count > min_image_count ==> count == min_image_count + 1,
        0 < max_image_count <= min_image_count ==> count == max_image_count,
        max_image_count > 0 ==> count <= max_image_count,
{
    let mut count = min_image_count + 1;
    if max_image_count > 0 && count > max_image_count {
        count = max_image_count;
    }
    count
}

/// The first of pre-multiplied, post-multiplied, inherited and opaque alpha
/// that the surface supports, and opaque where it supports none of them.
pub open spec fn spec_choose_composite_alpha(supported: u32) -> u32 {
    if spec_contains(supported, COMPOSITE_ALPHA_PRE_MULTIPLIED) {
        COMPOSITE_ALPHA_PRE_MULTIPLIED
    } else if spec_contains(supported, COMPOSITE_ALPHA_POST_MULTIPLIED) {
        COMPOSITE_ALPHA_POST_MULTIPLIED
    } else if spec_contains(supported, COMPOSITE_ALPHA_INHERIT) {
        COMPOSITE_ALPHA_INHERIT
    } else {
        COMPOSITE_ALPHA_OPAQUE
    }
}

/// Chooses how the window's pixels are blended with the desktop behind it.
pub fn choose_composite_alpha(supported: u32) -> (alpha: u32)
    ensures
        alpha == spec_choose_composite_alpha(supported),
        supported & 2 == 2 ==> alpha == 2,
        supported & 2 != 2 && supported & 4 == 4 ==> alpha == 4,
        supported & 2 != 2 && supported & 4 != 4 && supported & 8 == 8 ==> alpha == 8,
        supported & 2 != 2 && supported & 4 != 4 && supported & 8 != 8 ==> alpha == 1,
{
    if contains(supported, COMPOSITE_ALPHA_PRE_MULTIPLIED) {
        COMPOSITE_ALPHA_PRE_MULTIPLIED
    } else if contains(supported, COMPOSITE_ALPHA_POST_MULTIPLIED) {
        COMPOSITE_ALPHA_POST_MULTIPLIED
    } else if contains(supported, COMPOSITE_ALPHA_INHERIT) {
        COMPOSITE_ALPHA_INHERIT
    } else {
        COMPOSITE_ALPHA_OPAQUE
    }
}

/// A format that the pet is drawn in by preference: 8-bit BGRA or RGBA.
pub open spec fn is_preferred_format(format: i32) -> bool {
    format == FORMAT_B8G8R8A8_UNORM || format == FORMAT_R8G8B8A8_UNORM
}

/// Chooses the surface format: the first one offered in a preferred format,
/// else the first one offered.
pub fn choose_surface_format(formats: &Vec<SurfaceFormat>) -> (chosen: SurfaceFormat)
    requires
        formats.len() > 0,
    ensures
        exists|i: int|
            0 <= i < formats.len() && chosen == formats@[i] && (forall|j: int|
                0 <= j < i ==> !is_preferred_format(#[trigger] formats@[j].format)) && (
            is_preferred_format(chosen.format) || i == 0),
        is_preferred_format(chosen.format) || chosen == formats@[0],
        (exists|j: int| 0 <= j < formats.len() && is_preferred_format(#[trigger] formats@[j].format))
            ==> is_preferred_format(chosen.format),
        forall|i: int|
            0 <= i < formats.len() && (formats@[i].format == 44 || formats@[i].format == 37) ==> exists|k: int|
                0 <= k <= i && chosen == #[trigger] formats@[k] && (chosen.format == 44 || chosen.format == 37)
                    && forall|j: int| 0 <= j < k ==> formats@[j].format != 44 && formats@[j].format != 37,
        (forall|j: int| 0 <= j < formats.len() ==> formats@[j].format != 44 && formats@[j].format != 37)
            ==> chosen == formats@[0],
{
    let mut i: usize = 0;
    while i < formats.len()
        invariant
            i <= formats.len(),
            forall|j: int| 0 <= j < i ==> !is_preferred_format(#[trigger] formats@[j].format),
        decreases formats.len() - i,
    {
        let f = formats[i].format;
        if f == FORMAT_B8G8R8A8_UNORM || f == FORMAT_R8G8B8A8_UNORM {
            return formats[i];
        }
        i = i + 1;
    }
    formats[0]
}

/// Chooses the present mode: mailbox where the surface offers it, else FIFO.
pub fn choose_present_mode(modes: &Vec<i32>) -> (mode: i32)
    ensures
        mode == (if modes@.contains(PRESENT_MODE_MAILBOX) { PRESENT_MODE_MAILBOX } else { PRESENT_MODE_FIFO }),
        (exists|i: int| 0 <= i < modes.len() && modes@[i] == 1) ==> mode == 1,
        (forall|i: int| 0 <= i < modes.len() ==> modes@[i] != 1) ==> mode == 2,
{
    let mut i: usize = 0;
    while i < modes.len()
        invariant
            i <= modes.len(),
            forall|j: int| 0 <= j < i ==> modes@[j] != PRESENT_MODE_MAILBOX,
        decreases modes.len() - i,
    {
        if modes[i] == PRESENT_MODE_MAILBOX {
            return PRESENT_MODE_MAILBOX;
        }
        i = i + 1;
    }
    PRESENT_MODE_FIFO
}

/// Chooses everything that the swapchain is created with for a window of
/// `width` x `height` pixels, from what the surface offers.
pub fn plan_swapchain(
    caps: &SurfaceCapabilities,
    formats: &Vec<SurfaceFormat>,
    present_modes: &Vec<i32>,
    width: u32,
    height: u32,
) -> (plan: SwapchainPlan)
    requires
        formats.len() > 0,
        caps.min_image_count < 0xffff_ffff,
        extent_range_valid(*caps),
    ensures
        exists|i: int|
            0 <= i < formats.len() && plan.format == formats@[i] && (forall|j: int|
                0 <= j < i ==> !is_preferred_format(#[trigger] formats@[j].format)) && (
            is_preferred_format(plan.format.format) || i == 0),
        is_preferred_format(plan.format.format) || plan.format == formats@[0],
        (exists|j: int| 0 <= j < formats.len() && is_preferred_format(#[trigger] formats@[j].format))
            ==> is_preferred_format(plan.format.format),
        plan.present_mode == (if present_modes@.contains(PRESENT_MODE_MAILBOX) {
            PRESENT_MODE_MAILBOX
        } else {
            PRESENT_MODE_FIFO
        }),
        plan.extent == spec_choose_extent(*caps, width, height),
        plan.image_count == spec_image_count(caps.min_image_count, caps.max_image_count),
        plan.composite_alpha == spec_choose_composite_alpha(caps.supported_composite_alpha),
        caps.supported_composite_alpha & 2 == 2 ==> plan.composite_alpha == 2,
        caps.supported_composite_alpha & 2 != 2 && caps.supported_composite_alpha & 4 == 4
            ==> plan.composite_alpha == 4,
        caps.supported_composite_alpha & 2 != 2 && caps.supported_composite_alpha & 4 != 4
            && caps.supported_composite_alpha & 8 == 8 ==> plan.composite_alpha == 8,
        caps.supported_composite_alpha & 2 != 2 && caps.supported_composite_alpha & 4 != 4
            && caps.supported_composite_alpha & 8 != 8 ==> plan.composite_alpha == 1,
        caps.max_image_count == 0 || caps.max_image_count > caps.min_image_count
            ==> plan.image_count == caps.min_image_count + 1,
        0 < caps.max_image_count <= caps.min_image_count ==> plan.image_count == caps.max_image_count,
        (exists|i: int| 0 <= i < present_modes.len() && present_modes@[i] == 1) ==> plan.present_mode == 1,
        (forall|i: int| 0 <= i < present_modes.len() ==> present_modes@[i] != 1) ==> plan.present_mode == 2,
        caps.current_extent.width != 0xffff_ffff ==> plan.extent == caps.current_extent,
        forall|i: int|
            0 <= i < formats.len() && (formats@[i].format == 44 || formats@[i].format == 37) ==> exists|k: int|
                0 <= k <= i && plan.format == #[trigger] formats@[k] && (plan.format.format == 44
                    || plan.format.format == 37) && forall|j: int|
                    0 <= j < k ==> formats@[j].format != 44 && formats@[j].format != 37,
        (forall|j: int| 0 <= j < formats.len() ==> formats@[j].format != 44 && formats@[j].format != 37)
            ==> plan.format == formats@[0],
{
    let format = choose_surface_format(formats);
    let present_mode = choose_present_mode(present_modes);
    let extent = choose_extent(caps, width, height);
    let image_count = swapchain_image_count(caps.min_image_count, caps.max_image_count);
    let composite_alpha = choose_composite_alpha(caps.supported_composite_alpha);
    SwapchainPlan { format, present_mode, extent, image_count, composite_alpha }
}

/// A queue family that can both draw and present to the window.
pub open spec fn is_usable_family(family: QueueFamily) -> bool {
    spec_contains(family.queue_flags, QUEUE_GRAPHICS) && family.supports_surface
}

/// Family `f` of device `d` comes before family `g` of device `e` in the
/// order in which devices and their families are listed.
pub open spec fn listed_before(d: int, f: int, e: int, g: int) -> bool {
    d < e || (d == e && f < g)
}

/// Picks the first device, in the order listed, with a queue family that can
/// draw and present, and the first such family of it: the indices of both,
/// or `None` where no device has one. `devices[d]` lists the queue families
/// of device `d`.
pub fn pick_queue_family(devices: &Vec<Vec<QueueFamily>>) -> (picked: Option<(usize, usize)>)
    ensures
        match picked {
            Some((d, f)) => {
                &&& d < devices.len()
                &&& f < devices@[d as int].len()
                &&& is_usable_family(devices@[d as int]@[f as int])
                &&& forall|e: int, g: int|
                    0 <= e < devices.len() && 0 <= g < devices@[e].len() && listed_before(e, g, d as int, f as int)
                        ==> !is_usable_family(#[trigger] devices@[e]@[g])
            },
            None => forall|e: int, g: int|
                0 <= e < devices.len() && 0 <= g < devices@[e].len() ==> !is_usable_family(
                    #[trigger] devices@[e]@[g],
                ),
        },
        forall|e: int, g: int|
            0 <= e < devices.len() && 0 <= g < devices@[e].len() && #[trigger] devices@[e]@[g].queue_flags & 1
                == 1 && devices@[e]@[g].supports_surface ==> (picked matches Some((d, f)) && (d < e || (d == e
                && f <= g))),
        picked matches Some((d, f)) ==> {
            &&& d < devices.len()
            &&& f < devices@[d as int].len()
            &&& devices@[d as int]@[f as int].queue_flags & 1 == 1
            &&& devices@[d as int]@[f as int].supports_surface
        },
{
    let mut d: usize = 0;
    while d < devices.len()
        invariant
            d <= devices.len(),
            forall|e: int, g: int|
                0 <= e < d && 0 <= g < devices@[e].len() ==> !is_usable_family(#[trigger] devices@[e]@[g]),
        decreases devices.len() - d,
    {
        let families = &devices[d];
        let mut f: usize = 0;
        while f < families.len()
            invariant
                d < devices.len(),
                families@ == devices@[d as int]@,
                f <= families.len(),
                forall|e: int, g: int|
                    0 <= e < d && 0 <= g < devices@[e].len() ==> !is_usable_family(#[trigger] devices@[e]@[g]),
                forall|g: int| 0 <= g < f ==> !is_usable_family(#[trigger] devices@[d as int]@[g]),
            decreases families.len() - f,
        {
            let family = families[f];
            let graphics = contains(family.queue_flags, QUEUE_GRAPHICS);
            if graphics && family.supports_surface {
                assert forall|e: int, g: int|
                    0 <= e < devices.len() && 0 <= g < devices@[e].len() && #[trigger] devices@[e]@[g].queue_flags
                        & 1 == 1 && devices@[e]@[g].supports_surface implies (d < e || (d == e && f <= g)) by {
                    if e < d || (e == d && g < f) {
                        assert(!is_usable_family(devices@[e]@[g]));
                    }
                }
                return Some((d, f));
            }
            f = f + 1;
        }
        d = d + 1;
    }
    assert forall|e: int, g: int|
        0 <= e < devices.len() && 0 <= g < devices@[e].len() && #[trigger] devices@[e]@[g].queue_flags & 1
            == 1 && devices@[e]@[g].supports_surface implies false by {
        assert(!is_usable_family(devices@[e]@[g]));
    }
    None
}

/// Memory type `i` is allowed by `type_bits` and has every property in
/// `properties`.
pub open spec fn is_suitable_memory_type(type_bits: u32, flags: Seq<u32>, properties: u32, i: int) -> bool {
    &&& 0 <= i < flags.len()
    &&& i < 32
    &&& type_bits & (1u32 << (i as u32)) != 0
    &&& spec_contains(flags[i], properties)
}

/// Finds the first memory type that a buffer may use (a bit set in
/// `type_bits`) and that has every property in `properties`.
/// `memory_type_flags[i]` holds the property bits of memory type `i`.
pub fn find_memory_type(type_bits: u32, memory_type_flags: &Vec<u32>, properties: u32) -> (found: Option<u32>)
    requires
        memory_type_flags.len() <= MAX_MEMORY_TYPES,
    ensures
        match found {
            Some(i) => {
                &&& is_suitable_memory_type(type_bits, memory_type_flags@, properties, i as int)
                &&& forall|j: int| 0 <= j < i ==> !is_suitable_memory_type(type_bits, memory_type_flags@, properties, j)
            },
            None => forall|j: int|
                0 <= j < memory_type_flags.len() ==> !is_suitable_memory_type(type_bits, memory_type_flags@, properties, j),
        },
        forall|i: int|
            0 <= i < memory_type_flags.len() && type_bits & (1u32 << (i as u32)) != 0 && memory_type_flags@[i]
                & properties == properties ==> (found matches Some(j) && j <= i),
        found matches Some(j) ==> {
            &&& j < memory_type_flags.len()
            &&& type_bits & (1u32 << j) != 0
            &&& memory_type_flags@[j as int] & properties == properties
        },
{
    let count = memory_type_flags.len();
    let mut i: u32 = 0;
    while (i as usize) < count
        invariant
            count == memory_type_flags.len(),
            count <= MAX_MEMORY_TYPES,
            i <= count,
            forall|j: int| 0 <= j < i ==> !is_suitable_memory_type(type_bits, memory_type_flags@, properties, j),
        decreases count - i,
    {
        let supported = (type_bits & (1u32 << i)) != 0;
        let has_props = contains(memory_type_flags[i as usize], properties);
        if supported && has_props {
            assert forall|k: int|
                0 <= k < count && type_bits & (1u32 << (k as u32)) != 0 && memory_type_flags@[k] & properties
                    == properties implies k >= i by {
                if k < i {
                    assert(!is_suitable_memory_type(type_bits, memory_type_flags@, properties, k));
                }
            }
            return Some(i);
        }
        i = i + 1;
    }
    assert forall|k: int|
        0 <= k < count && type_bits & (1u32 << (k as u32)) != 0 && memory_type_flags@[k] & properties
            == properties implies false by {
        assert(!is_suitable_memory_type(type_bits, memory_type_flags@, properties, k));
    }
    None
}

} // verus!
