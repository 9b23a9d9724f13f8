//! Swapchain facade: choosing a surface configuration and tracking the
//! presentable images as one atomically recreated set.
//!
//! On construction or recreation the facade picks, from what the surface
//! reports: a format (the preferred pair when offered, else the first
//! offered), a present mode (the preferred low-latency mode when offered,
//! else the universally supported synchronized fallback), and an extent
//! (what the surface dictates, unless it reports "match the window", in
//! which case the window's pixel size clamped to the surface's bounds).
//! Recreation replaces every image view in one step: the generation
//! counter moves, so nothing can mistake an old view for a current one.
//!
//! The device suitability checks the engine runs during setup are here
//! too: they decide, over plainly reported facts, whether a physical
//! device can drive this facade at all.

use crate::render_graph::Extent;
use vstd::prelude::*;

verus! {

/// A surface format: the pixel format paired with a color space, as the
/// surface enumerates them.
#[derive(Clone, Copy, PartialEq, Eq, Structural, Debug)]
pub struct SurfaceFormat {
    pub format: u32,
    pub color_space: u32,
}

/// What the surface reports about extents.
#[derive(Clone, Copy, PartialEq, Eq, Structural, Debug)]
pub struct SurfaceCaps {
    /// The extent the surface dictates; `None` when the surface reports
    /// "match the window's current size".
    pub current_extent: Option<Extent>,
    pub min_extent: Extent,
    pub max_extent: Extent,
}

/// The configuration a swapchain is (re)built with.
#[derive(Clone, Copy, PartialEq, Eq, Structural, Debug)]
pub struct SwapchainConfig {
    pub format: SurfaceFormat,
    pub present_mode: u32,
    pub extent: Extent,
}

/// The chosen format: the preferred pair when the surface offers it, else
/// the first offered pair.
pub open spec fn spec_choose_format(available: Seq<SurfaceFormat>, preferred: SurfaceFormat)
    -> SurfaceFormat {
    if available.contains(preferred) {
        preferred
    } else {
        available[0]
    }
}

/// The chosen present mode: the preferred low-latency mode when offered,
/// else the synchronized fallback that every surface supports.
pub open spec fn spec_choose_present_mode(available: Seq<u32>, preferred: u32, fallback: u32)
    -> u32 {
    if available.contains(preferred) {
        preferred
    } else {
        fallback
    }
}

pub open spec fn spec_clamp(x: u32, lo: u32, hi: u32) -> u32 {
    if x < lo {
        lo
    } else if x > hi {
        hi
    } else {
        x
    }
}

/// The chosen extent: what the surface dictates, unless it says "match the
/// window", in which case the window's pixel size clamped to the surface's
/// bounds.
pub open spec fn spec_choose_extent(caps: SurfaceCaps, window: Extent) -> Extent {
    match caps.current_extent {
        Some(e) => e,
        None => Extent {
            width: spec_clamp(window.width, caps.min_extent.width, caps.max_extent.width),
            height: spec_clamp(window.height, caps.min_extent.height, caps.max_extent.height),
        },
    }
}

/// Picks the surface format for the swapchain.
pub fn choose_surface_format(available: &Vec<SurfaceFormat>, preferred: SurfaceFormat) -> (r:
    SurfaceFormat)
    requires
        available@.len() >= 1,
    ensures
        r == spec_choose_format(available@, preferred),
{
    let n = available.len();
    let mut i: usize = 0;
    while i < n
        invariant
            i <= n,
            n == available@.len(),
            forall|j: int| 0 <= j < i ==> available@[j] != preferred,
        decreases n - i,
    {
        if available[i] == preferred {
            proof {
                assert(available@.contains(preferred));
            }
            return preferred;
        }
        i = i + 1;
    }
    proof {
        assert(!available@.contains(preferred));
    }
    available[0]
}

/// Picks the present mode for the swapchain.
pub fn choose_present_mode(available: &Vec<u32>, preferred: u32, fallback: u32) -> (r: u32)
    ensures
        r == spec_choose_present_mode(available@, preferred, fallback),
{
    let n = available.len();
    let mut i: usize = 0;
    while i < n
        invariant
            i <= n,
            n == available@.len(),
            forall|j: int| 0 <= j < i ==> available@[j] != preferred,
        decreases n - i,
    {
        if available[i] == preferred {
            proof {
                assert(available@.contains(preferred));
            }
            return preferred;
        }
        i = i + 1;
    }
    proof {
        assert(!available@.contains(preferred));
    }
    fallback
}

fn clamp(x: u32, lo: u32, hi: u32) -> (r: u32)
    ensures
        r == spec_clamp(x, lo, hi),
{
    if x < lo {
        lo
    } else if x > hi {
        hi
    } else {
        x
    }
}

/// Picks the swapchain extent.
pub fn choose_extent(caps: &SurfaceCaps, window: Extent) -> (r: Extent)
    ensures
        r == spec_choose_extent(*caps, window),
{
    match caps.current_extent {
        Some(e) => e,
        None => Extent {
            width: clamp(window.width, caps.min_extent.width, caps.max_extent.width),
            height: clamp(window.height, caps.min_extent.height, caps.max_extent.height),
        },
    }
}

/// Picks the whole configuration in one step.
pub fn choose_swapchain_config(
    formats: &Vec<SurfaceFormat>,
    present_modes: &Vec<u32>,
    caps: &SurfaceCaps,
    window: Extent,
    preferred_format: SurfaceFormat,
    preferred_mode: u32,
    fallback_mode: u32,
) -> (r: SwapchainConfig)
    requires
        formats@.len() >= 1,
    ensures
        r.format == spec_choose_format(formats@, preferred_format),
        r.present_mode == spec_choose_present_mode(present_modes@, preferred_mode, fallback_mode),
        r.extent == spec_choose_extent(*caps, window),
{
    SwapchainConfig {
        format: choose_surface_format(formats, preferred_format),
        present_mode: choose_present_mode(present_modes, preferred_mode, fallback_mode),
        extent: choose_extent(caps, window),
    }
}

/// The facade over the presentable image set. All images share the chosen
/// extent; the whole set is replaced at once on recreation, and the
/// generation number says which rebuild the current views belong to, so a
/// view from before a recreation can never pass for a live one.
pub struct Facade {
    config: SwapchainConfig,
    image_count: usize,
    generation: u64,
}

impl Facade {
    pub closed spec fn spec_config(self) -> SwapchainConfig {
        self.config
    }

    pub closed spec fn spec_image_count(self) -> int {
        self.image_count as int
    }

    pub closed spec fn spec_generation(self) -> int {
        self.generation as int
    }

    /// What a (re)construction must establish: the configuration chosen
    /// from what the surface reported at that moment.
    pub open spec fn configured_from(
        self,
        formats: Seq<SurfaceFormat>,
        present_modes: Seq<u32>,
        caps: SurfaceCaps,
        window: Extent,
        preferred_format: SurfaceFormat,
        preferred_mode: u32,
        fallback_mode: u32,
    ) -> bool {
        &&& self.spec_config().format == spec_choose_format(formats, preferred_format)
        &&& self.spec_config().present_mode == spec_choose_present_mode(
            present_modes,
            preferred_mode,
            fallback_mode,
        )
        &&& self.spec_config().extent == spec_choose_extent(caps, window)
    }

    /// Builds the facade for a fresh swapchain of `image_count` images.
    pub fn new(
        formats: &Vec<SurfaceFormat>,
        present_modes: &Vec<u32>,
        caps: &SurfaceCaps,
        window: Extent,
        preferred_format: SurfaceFormat,
        preferred_mode: u32,
        fallback_mode: u32,
        image_count: usize,
    ) -> (f: Facade)
        requires
            formats@.len() >= 1,
        ensures
            f.configured_from(
                formats@,
                present_modes@,
                *caps,
                window,
                preferred_format,
                preferred_mode,
                fallback_mode,
            ),
            f.spec_image_count() == image_count,
            f.spec_generation() == 0,
    {
        Facade {
            config: choose_swapchain_config(
                formats,
                present_modes,
                caps,
                window,
                preferred_format,
                preferred_mode,
                fallback_mode,
            ),
            image_count,
            generation: 0,
        }
    }

    /// Recreates the swapchain wholesale after the surface changed: the new
    /// configuration is chosen from the freshly queried reports, and the
    /// generation moves, invalidating every image view of the old set
    /// together. Nothing of the old set survives into the new one.
    pub fn recreate(
        &mut self,
        formats: &Vec<SurfaceFormat>,
        present_modes: &Vec<u32>,
        caps: &SurfaceCaps,
        window: Extent,
        preferred_format: SurfaceFormat,
        preferred_mode: u32,
        fallback_mode: u32,
        image_count: usize,
    )
        requires
            formats@.len() >= 1,
            old(self).spec_generation() < u64::MAX,
        ensures
            final(self).configured_from(
                formats@,
                present_modes@,
                *caps,
                window,
                preferred_format,
                preferred_mode,
                fallback_mode,
            ),
            final(self).spec_image_count() == image_count,
            final(self).spec_generation() == old(self).spec_generation() + 1,
    {
        self.config = choose_swapchain_config(
            formats,
            present_modes,
            caps,
            window,
            preferred_format,
            preferred_mode,
            fallback_mode,
        );
        self.image_count = image_count;
        self.generation = self.generation + 1;
    }

    pub fn image_count(&self) -> (n: usize)
        ensures
            n == self.spec_image_count(),
    {
        self.image_count
    }

    /// The extent every image of the current set has.
    pub fn image_extent(&self) -> (e: Extent)
        ensures
            e == self.spec_config().extent,
    {
        self.config.extent
    }

    pub fn config(&self) -> (c: SwapchainConfig)
        ensures
            c == self.spec_config(),
    {
        self.config
    }

    /// Whether an index returned by an acquire names an image of the
    /// current set.
    pub fn valid_image_index(&self, index: u32) -> (r: bool)
        ensures
            r == ((index as int) < self.spec_image_count()),
    {
        (index as usize) < self.image_count
    }
}

/// What an acquire or present operation reported about the surface.
#[derive(Clone, Copy, PartialEq, Eq, Structural, Debug)]
pub enum SurfaceStatus {
    /// The operation succeeded and the image set still matches the surface.
    Current,
    /// The operation succeeded but the image set no longer matches the
    /// surface exactly.
    Suboptimal,
    /// The image set no longer works with the surface at all; nothing was
    /// acquired or presented.
    OutOfDate,
    /// Any other failure of the operation.
    Failed,
}

/// What the frame loop must do after an acquire or present.
#[derive(Clone, Copy, PartialEq, Eq, Structural, Debug)]
pub enum FrameDisposition {
    /// Carry on with the frame.
    Proceed,
    /// Recreate the swapchain (and everything referencing its views), then
    /// try the frame again; the surface changed under the image set.
    RecreateSwapchain,
    /// Abort the frame loop: the engine cannot safely continue.
    Fatal,
}

/// Routes a surface report: an out-of-date surface asks for recreation
/// rather than an abort, a merely suboptimal image set still carries the
/// frame, and any other failure of a wait, submit or present is fatal.
pub fn handle_surface_status(status: SurfaceStatus) -> (d: FrameDisposition)
    ensures
        d == match status {
            SurfaceStatus::Current => FrameDisposition::Proceed,
            SurfaceStatus::Suboptimal => FrameDisposition::Proceed,
            SurfaceStatus::OutOfDate => FrameDisposition::RecreateSwapchain,
            SurfaceStatus::Failed => FrameDisposition::Fatal,
        },
{
    match status {
        SurfaceStatus::Current => FrameDisposition::Proceed,
        SurfaceStatus::Suboptimal => FrameDisposition::Proceed,
        SurfaceStatus::OutOfDate => FrameDisposition::RecreateSwapchain,
        SurfaceStatus::Failed => FrameDisposition::Fatal,
    }
}

/// Byte-for-byte equality of two names (layer or extension names are
/// compared by content, as the setup code reads them from the driver).
pub fn names_equal(a: &Vec<u8>, b: &Vec<u8>) -> (r: bool)
    ensures
        r == (a@ == b@),
{
    if a.len() != b.len() {
        proof {
            assert(a@ != b@);
        }
        return false;
    }
    let n = a.len();
    let mut i: usize = 0;
    while i < n
        invariant
            i <= n,
            n == a@.len(),
            n == b@.len(),
            forall|j: int| 0 <= j < i ==> a@[j] == b@[j],
        decreases n - i,
    {
        if a[i] != b[i] {
            proof {
                assert(a@ != b@);
            }
            return false;
        }
        i = i + 1;
    }
    proof {
        assert(a@ =~= b@);
    }
    true
}

/// A required name is available when some entry of the available list has
/// exactly its bytes.
pub open spec fn spec_name_available(available: Seq<Vec<u8>>, name: Seq<u8>) -> bool {
    exists|j: int| 0 <= j < available.len() && available[j]@ == name
}

/// Whether every required name (validation layer, device extension) occurs
/// in the available list. A missing requirement disqualifies the layer set
/// or the device.
pub fn all_names_present(required: &Vec<Vec<u8>>, available: &Vec<Vec<u8>>) -> (r: bool)
    ensures
        r == forall|i: int| 0 <= i < required@.len()
            ==> spec_name_available(available@, (#[trigger] required@[i])@),
{
    let n = required.len();
    let mut i: usize = 0;
    while i < n
        invariant
            i <= n,
            n == required@.len(),
            forall|k: int| 0 <= k < i
                ==> spec_name_available(available@, (#[trigger] required@[k])@),
        decreases n - i,
    {
        let m = available.len();
        let mut j: usize = 0;
        let mut found = false;
        while j < m
            invariant
                j <= m,
                m == available@.len(),
                i < required@.len(),
                found == exists|k: int| 0 <= k < j && available@[k]@ == required@[i as int]@,
            decreases m - j,
        {
            if names_equal(&available[j], &required[i]) {
                found = true;
            }
            j = j + 1;
        }
        if !found {
            proof {
                assert(!spec_name_available(available@, required@[i as int]@));
            }
            return false;
        }
        i = i + 1;
    }
    true
}

/// Whether a physical device can drive the engine: complete queue
/// families (graphics and present), the required device extensions, a
/// swapchain with at least one format and one present mode, and sampler
/// anisotropy.
pub fn device_suitable(
    queue_families_complete: bool,
    extensions_supported: bool,
    format_count: usize,
    present_mode_count: usize,
    supports_sampler_anisotropy: bool,
) -> (r: bool)
    ensures
        r == (queue_families_complete && extensions_supported && format_count > 0
            && present_mode_count > 0 && supports_sampler_anisotropy),
{
    queue_families_complete && extensions_supported && format_count > 0 && present_mode_count > 0
        && supports_sampler_anisotropy
}

} // verus!
