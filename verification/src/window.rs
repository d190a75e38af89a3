//! Per-window swapchain state.
//!
//! Each window owns at most one chain of presentable images. The chain is
//! created on first use, replaced wholesale on every recreation, and dropped
//! when the window closes. Image count and color format are fixed for the
//! chain's lifetime; only the extent may change, and the viewport always
//! tracks it. The application performs the actual platform calls and reports
//! the platform's capabilities and formats here as plain values; everything
//! decided from them is verified.

use vstd::prelude::*;

verus! {

/// A drawable size in pixels.
#[derive(Debug, Clone, Copy, PartialEq, Eq, Structural)]
pub struct Extent {
    pub width: u32,
    pub height: u32,
}

/// An extent can be presented to only when both dimensions are non-zero.
pub open spec fn extent_is_drawable(e: Extent) -> bool {
    e.width > 0 && e.height > 0
}

/// The window-sized viewport bound at draw time. The offset is always the
/// origin and the depth range is always the unit interval; only the extent
/// follows the window. The application maps these integers to the
/// floating-point viewport the driver expects.
#[derive(Debug, Clone, Copy, PartialEq, Eq, Structural)]
pub struct Viewport {
    pub offset_x: u32,
    pub offset_y: u32,
    pub width: u32,
    pub height: u32,
    pub depth_min: u32,
    pub depth_max: u32,
}

/// The one viewport a given extent allows.
pub open spec fn spec_viewport_for_extent(extent: Extent) -> Viewport {
    Viewport {
        offset_x: 0,
        offset_y: 0,
        width: extent.width,
        height: extent.height,
        depth_min: 0,
        depth_max: 1,
    }
}

/// Recomputes the viewport for a freshly built image chain.
pub fn viewport_for_extent(extent: Extent) -> (v: Viewport)
    ensures
        v == spec_viewport_for_extent(extent),
{
    Viewport {
        offset_x: 0,
        offset_y: 0,
        width: extent.width,
        height: extent.height,
        depth_min: 0,
        depth_max: 1,
    }
}

/// How a presented image is composited with the rest of the desktop.
#[derive(Debug, Clone, Copy, PartialEq, Eq, Structural)]
pub enum CompositeAlpha {
    Opaque,
    PreMultiplied,
    PostMultiplied,
    Inherit,
}

/// What the platform reports about a presentation target, reduced to the
/// parts the engine reads. Color formats are opaque platform identifiers.
#[derive(Debug, Clone)]
pub struct SurfaceCapabilities {
    /// Fewest images the presentation engine will accept in a chain.
    pub min_image_count: u32,
    /// Composite-alpha modes the target supports, in the platform's order.
    pub supported_composite_alpha: Vec<CompositeAlpha>,
}

/// Images in a new chain: at least two, and no fewer than the platform asks.
pub open spec fn chain_image_count(caps: SurfaceCapabilities) -> int {
    if caps.min_image_count >= 2 {
        caps.min_image_count as int
    } else {
        2
    }
}

/// Generation counters grow by one per rebuild until they would overflow.
pub open spec fn bumped(g: u64) -> u64 {
    if g < u64::MAX {
        (g + 1) as u64
    } else {
        g
    }
}

/// One generation of a window's presentable-image chain.
#[derive(Debug, Clone, Copy, PartialEq, Eq, Structural)]
pub struct Present {
    /// Number of presentable images; fixed for the chain's lifetime.
    pub image_count: u32,
    /// Opaque color-format identifier; fixed for the chain's lifetime.
    pub image_format: u32,
    /// Composite-alpha mode chosen at creation.
    pub composite_alpha: CompositeAlpha,
    /// Current image extent; the only value recreation may change.
    pub extent: Extent,
    /// Viewport recomputed from the extent at every (re)creation.
    pub viewport: Viewport,
    /// How many times this chain has been rebuilt in place.
    pub generation: u64,
}

/// A swapchain-subsystem failure class together with its account.
#[derive(Debug)]
pub struct WindowError {
    pub error_type: WindowErrorType,
    pub message: String,
}

impl WindowError {
    pub fn new(error_type: WindowErrorType, message: String) -> (e: WindowError)
        ensures
            e.error_type == error_type,
            e.message == message,
    {
        WindowError { error_type, message }
    }
}

#[derive(Debug, Clone, Copy, PartialEq, Eq, Structural)]
pub enum WindowErrorType {
    GetSurfaceCapabilitiesFailed,
    GetSurfaceFormatsFailed,
    GetWindowCompositeSurfaceFailed,
    CreateSwapChainFailed,
}

/// One window's swapchain state: the current chain, if any, and the dirty
/// flag that asks for recreation before the next use.
#[derive(Debug, Clone, Copy)]
pub struct AspenWindow {
    /// Stable identifier handed out by the window system.
    pub window_id: u64,
    /// The current image chain; `None` until first use and after teardown.
    pub present: Option<Present>,
    /// Set by resize events and staleness signals; cleared by recreation.
    pub should_recreate_swapchain: bool,
}

/// Create-or-recreate as one spec-level transition: the window afterwards,
/// and the verdict (errors carried by failure class alone).
///
/// An undrawable extent changes nothing. First creation picks the image
/// count as `max(2, platform minimum)`, the first reported format, and the
/// first reported composite-alpha mode, failing only when that reported set
/// is empty. A rebuild keeps count, format and composite alpha, changes the
/// extent, and retires the old images as a new generation. Both paths
/// recompute the viewport from the extent and clear the dirty flag.
pub open spec fn spec_recreate_swapchain(
    w: AspenWindow,
    caps: SurfaceCapabilities,
    formats: Seq<u32>,
    extent: Extent,
) -> (AspenWindow, Result<(), WindowErrorType>) {
    if !extent_is_drawable(extent) {
        (w, Ok(()))
    } else {
        match w.present {
            None => {
                if caps.supported_composite_alpha@.len() == 0 {
                    (w, Err(WindowErrorType::GetWindowCompositeSurfaceFailed))
                } else {
                    (
                        AspenWindow {
                            present: Some(
                                Present {
                                    image_count: if caps.min_image_count >= 2 {
                                        caps.min_image_count
                                    } else {
                                        2u32
                                    },
                                    image_format: formats[0],
                                    composite_alpha: caps.supported_composite_alpha@[0],
                                    extent,
                                    viewport: spec_viewport_for_extent(extent),
                                    generation: 0,
                                },
                            ),
                            should_recreate_swapchain: false,
                            ..w
                        },
                        Ok(()),
                    )
                }
            },
            Some(p0) => (
                AspenWindow {
                    present: Some(
                        Present {
                            image_count: p0.image_count,
                            image_format: p0.image_format,
                            composite_alpha: p0.composite_alpha,
                            extent,
                            viewport: spec_viewport_for_extent(extent),
                            generation: bumped(p0.generation),
                        },
                    ),
                    should_recreate_swapchain: false,
                    ..w
                },
                Ok(()),
            ),
        }
    }
}

impl AspenWindow {
    /// A chain, once it exists, keeps at least two images, a drawable extent,
    /// and a viewport that matches that extent exactly.
    pub open spec fn wf(self) -> bool {
        self.present matches Some(p) ==> {
            &&& p.image_count >= 2
            &&& extent_is_drawable(p.extent)
            &&& p.viewport == spec_viewport_for_extent(p.extent)
        }
    }

    /// A freshly opened window: no chain yet, and marked for creation on
    /// first use.
    pub fn new(window_id: u64) -> (w: AspenWindow)
        ensures
            w.window_id == window_id,
            w.present is None,
            w.should_recreate_swapchain,
            w.wf(),
    {
        AspenWindow { window_id, present: None, should_recreate_swapchain: true }
    }

    /// The window system's stable identifier for this window.
    pub fn id(&self) -> (r: u64)
        ensures
            r == self.window_id,
    {
        self.window_id
    }

    /// Marks the chain stale: recreate before the next present.
    pub fn set_recreate_swapchain(&mut self)
        ensures
            *final(self) == (AspenWindow { should_recreate_swapchain: true, ..*old(self) }),
    {
        self.should_recreate_swapchain = true
    }

    /// Creates the chain on first use, or rebuilds it in place.
    ///
    /// A zero-width or zero-height extent is refused as a no-op: nothing
    /// changes and no error is raised. On first creation the image count is
    /// `max(2, platform minimum)`, the format is the first one reported, and
    /// the composite-alpha mode is the first of the reported set -- an empty
    /// set is a platform inconsistency and the one creation-time error. A
    /// rebuild keeps the image count and format, changes only the extent,
    /// and retires the old images as a new generation. Either way the
    /// viewport is recomputed from the extent and the dirty flag is cleared.
    pub fn recreate_swapchain(
        &mut self,
        caps: &SurfaceCapabilities,
        formats: &Vec<u32>,
        extent: Extent,
    ) -> (r: Result<(), WindowError>)
        requires
            old(self).wf(),
            old(self).present is None ==> formats@.len() > 0,
        ensures
            final(self).wf(),
            ({
                let (w2, verdict) = spec_recreate_swapchain(*old(self), *caps, formats@, extent);
                &&& *final(self) == w2
                &&& match r {
                    Ok(()) => verdict is Ok,
                    Err(e) => verdict matches Err(t) && e.error_type == t,
                }
            }),
            !extent_is_drawable(extent) ==> r is Ok && *final(self) == *old(self),
            r is Ok && extent_is_drawable(extent) ==> {
                &&& final(self).present matches Some(p)
                &&& p.extent == extent
                &&& p.viewport == spec_viewport_for_extent(extent)
                &&& p.image_count == match old(self).present {
                    None => chain_image_count(*caps),
                    Some(p0) => p0.image_count as int,
                }
                &&& p.image_format == match old(self).present {
                    None => formats@[0],
                    Some(p0) => p0.image_format,
                }
                &&& !final(self).should_recreate_swapchain
            },
            r is Err ==> *final(self) == *old(self) && old(self).present is None
                && caps.supported_composite_alpha@.len() == 0,
    {
        if extent.width == 0 || extent.height == 0 {
            return Ok(());
        }
        match self.present {
            None => {
                if caps.supported_composite_alpha.len() == 0 {
                    return Err(
                        WindowError::new(
                            WindowErrorType::GetWindowCompositeSurfaceFailed,
                            "Failed to get the surface's supported composite alpha, whatever that means".to_string(),
                        ),
                    );
                }
                let image_count = if caps.min_image_count >= 2 {
                    caps.min_image_count
                } else {
                    2
                };
                self.present = Some(
                    Present {
                        image_count,
                        image_format: formats[0],
                        composite_alpha: caps.supported_composite_alpha[0],
                        extent,
                        viewport: viewport_for_extent(extent),
                        generation: 0,
                    },
                );
                self.should_recreate_swapchain = false;
                Ok(())
            },
            Some(p0) => {
                let generation = if p0.generation < u64::MAX {
                    p0.generation + 1
                } else {
                    p0.generation
                };
                self.present = Some(
                    Present {
                        image_count: p0.image_count,
                        image_format: p0.image_format,
                        composite_alpha: p0.composite_alpha,
                        extent,
                        viewport: viewport_for_extent(extent),
                        generation,
                    },
                );
                self.should_recreate_swapchain = false;
                Ok(())
            },
        }
    }
}

/// An in-place rebuild never fails and never changes the chain's shape: the
/// image count, color format and composite-alpha mode are fixed for the
/// chain's lifetime, and only the extent -- and with it the viewport -- may
/// differ afterwards.
pub proof fn lemma_rebuild_keeps_count_and_format(
    w: AspenWindow,
    caps: SurfaceCapabilities,
    formats: Seq<u32>,
    extent: Extent,
)
    requires
        w.present is Some,
    ensures
        ({
            let (w2, verdict) = spec_recreate_swapchain(w, caps, formats, extent);
            &&& verdict is Ok
            &&& w2.present matches Some(p2)
            &&& w.present matches Some(p1)
            &&& p2.image_count == p1.image_count
            &&& p2.image_format == p1.image_format
            &&& p2.composite_alpha == p1.composite_alpha
        }),
{
}

/// Wherever a well-formed window holds a chain, the viewport tracks it: the
/// viewport extent equals the chain's extent, the offset is the origin, and
/// the depth range is the unit interval.
pub proof fn lemma_viewport_tracks_chain(w: AspenWindow)
    requires
        w.wf(),
    ensures
        w.present matches Some(p) ==> {
            &&& p.viewport.width == p.extent.width
            &&& p.viewport.height == p.extent.height
            &&& p.viewport.offset_x == 0
            &&& p.viewport.offset_y == 0
            &&& p.viewport.depth_min == 0
            &&& p.viewport.depth_max == 1
        },
{
}

} // verus!
