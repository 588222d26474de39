use vstd::prelude::*;

verus! {

#[derive(Clone, Copy, Debug, PartialEq, Eq, Structural)]
pub enum PhysicalDeviceType {
    Other,
    IntegratedGpu,
    DiscreteGpu,
    VirtualGpu,
    Cpu,
}

/// What a queue family of a device can do.
#[derive(Clone, Copy, Debug, PartialEq, Eq, Structural)]
pub struct QueueFamily {
    pub graphics: bool,
    pub present: bool,
}

/// A presentable surface format: a pixel format and a color space.
#[derive(Clone, Copy, Debug, PartialEq, Eq, Structural)]
pub struct SurfaceFormat {
    pub format: i32,
    pub color_space: i32,
}

pub const PRESENT_MODE_MAILBOX: i32 = 1;
pub const PRESENT_MODE_FIFO_RELAXED: i32 = 3;
pub const COLOR_SPACE_SRGB_NONLINEAR: i32 = 0;
pub const FORMAT_R8G8B8A8_SRGB: i32 = 43;
pub const FORMAT_B8G8R8A8_SRGB: i32 = 50;

/// What the engine needs to know of one adapter to choose among them.
pub struct DeviceCandidate {
    pub device_type: PhysicalDeviceType,
    pub queue_families: Vec<QueueFamily>,
    pub present_modes: Vec<i32>,
    pub surface_formats: Vec<SurfaceFormat>,
    pub min_image_count: u32,
    pub max_image_count: u32,
    pub extensions: Vec<String>,
}

/// The adapter chosen, with the queue family, present mode and surface
/// format the engine will use on it.
#[derive(Clone, Copy, Debug, PartialEq, Eq, Structural)]
pub struct DeviceChoice {
    pub index: usize,
    pub queue_family_index: usize,
    pub present_mode: i32,
    pub surface_format: SurfaceFormat,
}

pub open spec fn family_ok(f: QueueFamily) -> bool {
    f.graphics && f.present
}

/// `k` is the first queue family that supports graphics and presentation.
pub open spec fn is_first_family(c: &DeviceCandidate, k: int) -> bool {
    &&& 0 <= k < c.queue_families@.len()
    &&& family_ok(c.queue_families@[k])
    &&& forall|j: int| 0 <= j < k ==> !family_ok(#[trigger] c.queue_families@[j])
}

pub open spec fn format_ok(f: SurfaceFormat) -> bool {
    f.color_space == COLOR_SPACE_SRGB_NONLINEAR && (f.format == FORMAT_B8G8R8A8_SRGB
        || f.format == FORMAT_R8G8B8A8_SRGB)
}

/// `k` is the first sRGB surface format in the nonlinear sRGB color space.
pub open spec fn is_first_format(c: &DeviceCandidate, k: int) -> bool {
    &&& 0 <= k < c.surface_formats@.len()
    &&& format_ok(c.surface_formats@[k])
    &&& forall|j: int| 0 <= j < k ==> !format_ok(#[trigger] c.surface_formats@[j])
}

/// Some name in `available` is `name`.
pub open spec fn has_name(available: Seq<String>, name: Seq<char>) -> bool {
    exists|j: int| 0 <= j < available.len() && (#[trigger] available[j])@ == name
}

pub open spec fn supports_extensions(available: Seq<String>, required: Seq<String>) -> bool {
    forall|i: int| 0 <= i < required.len() ==> has_name(available, (#[trigger] required[i])@)
}

/// A device the engine can run on: a graphics queue that can present, both
/// mailbox and relaxed FIFO presentation, an sRGB surface format, at least
/// two images at minimum and three at maximum, and every required extension.
pub open spec fn suitable(c: &DeviceCandidate, required: Seq<String>) -> bool {
    &&& exists|k: int| 0 <= k < c.queue_families@.len() && family_ok(#[trigger] c.queue_families@[k])
    &&& c.present_modes@.contains(PRESENT_MODE_MAILBOX)
    &&& c.present_modes@.contains(PRESENT_MODE_FIFO_RELAXED)
    &&& exists|k: int| 0 <= k < c.surface_formats@.len() && format_ok(#[trigger] c.surface_formats@[k])
    &&& c.min_image_count >= 2
    &&& c.max_image_count >= 3
    &&& supports_extensions(c.extensions@, required)
}

/// The preference of a device type: discrete, then integrated, then others.
pub open spec fn rank(t: PhysicalDeviceType) -> int {
    match t {
        PhysicalDeviceType::DiscreteGpu => 2,
        PhysicalDeviceType::IntegratedGpu => 1,
        _ => 0,
    }
}

/// `i` is the suitable candidate of highest rank, the last one among equals.
pub open spec fn is_best(cs: Seq<DeviceCandidate>, required: Seq<String>, i: int) -> bool {
    &&& 0 <= i < cs.len()
    &&& suitable(&cs[i], required)
    &&& forall|j: int| 0 <= j < cs.len() && suitable(&cs[j], required) ==>
        rank((#[trigger] cs[j]).device_type) <= rank(cs[i].device_type)
    &&& forall|j: int| i < j < cs.len() && suitable(&cs[j], required) ==>
        rank((#[trigger] cs[j]).device_type) < rank(cs[i].device_type)
}

/// The device extensions the engine requires: swapchain, dynamic rendering,
/// shader objects and extended dynamic state.
pub fn required_device_extensions() -> (r: Vec<String>)
    ensures
        r@.len() == 4,
        r@[0]@ == "VK_KHR_swapchain"@,
        r@[1]@ == "VK_KHR_dynamic_rendering"@,
        r@[2]@ == "VK_EXT_shader_object"@,
        r@[3]@ == "VK_EXT_extended_dynamic_state"@,
{
    let mut r: Vec<String> = Vec::new();
    r.push("VK_KHR_swapchain".to_owned());
    r.push("VK_KHR_dynamic_rendering".to_owned());
    r.push("VK_EXT_shader_object".to_owned());
    r.push("VK_EXT_extended_dynamic_state".to_owned());
    r
}

fn contains_mode(modes: &Vec<i32>, mode: i32) -> (r: bool)
    ensures
        r == modes@.contains(mode),
{
    let mut k: usize = 0;
    while k < modes.len()
        invariant
            k <= modes@.len(),
            forall|j: int| 0 <= j < k ==> modes@[j] != mode,
        decreases modes@.len() - k,
    {
        if modes[k] == mode {
            return true;
        }
        k = k + 1;
    }
    false
}

fn has_extension(available: &Vec<String>, name: &String) -> (r: bool)
    ensures
        r == has_name(available@, name@),
{
    let mut k: usize = 0;
    while k < available.len()
        invariant
            k <= available@.len(),
            forall|j: int| 0 <= j < k ==> (#[trigger] available@[j])@ != name@,
        decreases available@.len() - k,
    {
        if available[k] == *name {
            return true;
        }
        k = k + 1;
    }
    false
}

fn has_extensions(available: &Vec<String>, required: &Vec<String>) -> (r: bool)
    ensures
        r == supports_extensions(available@, required@),
{
    let mut i: usize = 0;
    while i < required.len()
        invariant
            i <= required@.len(),
            forall|m: int| 0 <= m < i ==> has_name(available@, (#[trigger] required@[m])@),
        decreases required@.len() - i,
    {
        if !has_extension(available, &required[i]) {
            return false;
        }
        i = i + 1;
    }
    true
}

/// The queue family and surface format the engine would use on a device,
/// or `None` when the device is not suitable.
pub fn evaluate_device(c: &DeviceCandidate, required: &Vec<String>) -> (r: Option<(usize, SurfaceFormat)>)
    ensures
        r.is_some() <==> suitable(c, required@),
        r.is_some() ==> is_first_family(c, r->Some_0.0 as int),
        r.is_some() ==> exists|k: int| is_first_format(c, k) && c.surface_formats@[k] == r->Some_0.1,
{
    let mut family: usize = 0;
    while family < c.queue_families.len() && !(c.queue_families[family].graphics && c.queue_families[family].present)
        invariant
            family <= c.queue_families@.len(),
            forall|j: int| 0 <= j < family ==> !family_ok(#[trigger] c.queue_families@[j]),
        decreases c.queue_families@.len() - family,
    {
        family = family + 1;
    }
    if family == c.queue_families.len() {
        return None;
    }
    if !contains_mode(&c.present_modes, PRESENT_MODE_MAILBOX) || !contains_mode(&c.present_modes, PRESENT_MODE_FIFO_RELAXED) {
        return None;
    }
    let mut f: usize = 0;
    while f < c.surface_formats.len() && !(c.surface_formats[f].color_space == COLOR_SPACE_SRGB_NONLINEAR
        && (c.surface_formats[f].format == FORMAT_B8G8R8A8_SRGB || c.surface_formats[f].format == FORMAT_R8G8B8A8_SRGB))
        invariant
            f <= c.surface_formats@.len(),
            forall|j: int| 0 <= j < f ==> !format_ok(#[trigger] c.surface_formats@[j]),
        decreases c.surface_formats@.len() - f,
    {
        f = f + 1;
    }
    if f == c.surface_formats.len() {
        return None;
    }
    if c.min_image_count < 2 || c.max_image_count < 3 {
        return None;
    }
    if !has_extensions(&c.extensions, required) {
        return None;
    }
    assert(is_first_format(c, f as int));
    Some((family, c.surface_formats[f]))
}

/// Chooses the adapter to run on: among the suitable candidates, the one of
/// highest rank, the last one among equals. `None` when no candidate is
/// suitable.
pub fn select_device(candidates: &Vec<DeviceCandidate>, required: &Vec<String>) -> (r: Option<DeviceChoice>)
    ensures
        r.is_none() <==> forall|i: int| 0 <= i < candidates@.len() ==> !suitable(#[trigger] &candidates@[i], required@),
        r.is_some() ==> ({
            let ch = r->Some_0;
            let c = &candidates@[ch.index as int];
            &&& is_best(candidates@, required@, ch.index as int)
            &&& is_first_family(c, ch.queue_family_index as int)
            &&& exists|k: int| is_first_format(c, k) && c.surface_formats@[k] == ch.surface_format
            &&& ch.present_mode == PRESENT_MODE_MAILBOX
        }),
{
    let mut best: Option<DeviceChoice> = None;
    let mut best_rank: u8 = 0;
    let mut i: usize = 0;
    while i < candidates.len()
        invariant
            i <= candidates@.len(),
            best.is_none() ==> forall|j: int| 0 <= j < i ==> !suitable(#[trigger] &candidates@[j], required@),
            best.is_some() ==> ({
                let ch = best->Some_0;
                let c = &candidates@[ch.index as int];
                &&& ch.index < i
                &&& suitable(c, required@)
                &&& best_rank as int == rank(c.device_type)
                &&& forall|j: int| 0 <= j < i && suitable(&candidates@[j], required@) ==>
                    rank((#[trigger] candidates@[j]).device_type) <= best_rank
                &&& forall|j: int| ch.index < j < i && suitable(&candidates@[j], required@) ==>
                    rank((#[trigger] candidates@[j]).device_type) < best_rank
                &&& is_first_family(c, ch.queue_family_index as int)
                &&& exists|k: int| is_first_format(c, k) && c.surface_formats@[k] == ch.surface_format
                &&& ch.present_mode == PRESENT_MODE_MAILBOX
            }),
        decreases candidates@.len() - i,
    {
        let c = &candidates[i];
        match evaluate_device(c, required) {
            None => {},
            Some((family, format)) => {
                let rk: u8 = match c.device_type {
                    PhysicalDeviceType::DiscreteGpu => 2,
                    PhysicalDeviceType::IntegratedGpu => 1,
                    _ => 0,
                };
                if best.is_none() || rk >= best_rank {
                    best = Some(DeviceChoice {
                        index: i,
                        queue_family_index: family,
                        present_mode: PRESENT_MODE_MAILBOX,
                        surface_format: format,
                    });
                    best_rank = rk;
                }
            },
        }
        i = i + 1;
    }
    best
}

} // verus!
