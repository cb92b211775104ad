//! Presentation-surface negotiation, the resize policy, and the outcomes of
//! acquiring and presenting images.
//!
//! The surface owns a small ring of presentable images. Its configuration is
//! negotiated from what the device reports: the first reported format, one
//! image more than the supported minimum, and a present mode chosen by the
//! variant's throughput policy. Configurations that tile their dispatches
//! quantize the accepted extent to tile multiples and answer a misaligned
//! window extent with a corrective resize request instead of accepting it.

use vstd::prelude::*;
use crate::extent::Extent;
use crate::extent::align_down;
use crate::extent::spec_align_down;

verus! {

/// How presentable images reach the screen.
#[derive(Clone, Copy, Debug, PartialEq, Eq, Structural)]
pub enum PresentMode {
    /// Vsync-correct first-in first-out queueing; always available.
    Fifo,
    /// Uncapped, may tear.
    Immediate,
    /// Uncapped, latest-ready wins.
    Mailbox,
}

/// The variant's throughput discipline.
#[derive(Clone, Copy, Debug, PartialEq, Eq, Structural)]
pub enum ThroughputPolicy {
    /// Prefer vsync-correct FIFO presentation.
    VsyncCapped,
    /// Prefer an uncapped mode where the device offers one.
    Uncapped,
}

/// What the device reports about the surface.
#[derive(Clone, Debug)]
pub struct SurfaceCaps {
    /// Supported surface formats, in the order the device reports them.
    pub formats: Vec<u32>,
    /// Fewest presentable images a configuration may ask for.
    pub min_image_count: u32,
    pub immediate_supported: bool,
    pub mailbox_supported: bool,
}

/// A negotiated surface configuration.
#[derive(Clone, Copy, Debug, PartialEq, Eq, Structural)]
pub struct SurfaceConfig {
    pub format: u32,
    pub extent: Extent,
    pub present_mode: PresentMode,
    pub image_count: u32,
}

/// Fatal startup failure: the device reports no format for the surface.
#[derive(Clone, Copy, Debug, PartialEq, Eq, Structural)]
pub struct NoSurfaceFormatError;

/// The present mode negotiation picks: FIFO for vsync-capped variants, else
/// the first uncapped mode the device offers, falling back to FIFO.
pub open spec fn negotiated_mode(caps: SurfaceCaps, policy: ThroughputPolicy) -> PresentMode {
    match policy {
        ThroughputPolicy::VsyncCapped => PresentMode::Fifo,
        ThroughputPolicy::Uncapped => if caps.immediate_supported {
            PresentMode::Immediate
        } else if caps.mailbox_supported {
            PresentMode::Mailbox
        } else {
            PresentMode::Fifo
        },
    }
}

/// Negotiates the initial configuration: the first reported format, the
/// window's extent, the policy's present mode, and one image more than the
/// supported minimum (double or triple buffering). Fails exactly when the
/// device reports no format.
pub fn configure(caps: &SurfaceCaps, policy: ThroughputPolicy, window_extent: Extent) -> (r:
    Result<SurfaceConfig, NoSurfaceFormatError>)
    requires
        caps.min_image_count < u32::MAX,
    ensures
        r is Ok <==> caps.formats@.len() > 0,
        r matches Ok(c) ==> {
            &&& c.format == caps.formats@[0]
            &&& c.extent == window_extent
            &&& c.present_mode == negotiated_mode(*caps, policy)
            &&& c.image_count == caps.min_image_count + 1
        },
{
    if caps.formats.len() == 0 {
        return Err(NoSurfaceFormatError);
    }
    let mode = match policy {
        ThroughputPolicy::VsyncCapped => PresentMode::Fifo,
        ThroughputPolicy::Uncapped => {
            if caps.immediate_supported {
                PresentMode::Immediate
            } else if caps.mailbox_supported {
                PresentMode::Mailbox
            } else {
                PresentMode::Fifo
            }
        },
    };
    Ok(
        SurfaceConfig {
            format: caps.formats[0],
            extent: window_extent,
            present_mode: mode,
            image_count: caps.min_image_count + 1,
        },
    )
}

/// The configuration after a reconfiguration to `new_extent`: everything is
/// kept but the extent.
pub open spec fn reconfigured(config: SurfaceConfig, new_extent: Extent) -> SurfaceConfig {
    SurfaceConfig {
        format: config.format,
        extent: new_extent,
        present_mode: config.present_mode,
        image_count: config.image_count,
    }
}

/// Reconfiguration after a resize or a stale acquire/present: everything is
/// kept but the extent, which becomes `new_extent`.
pub fn reconfigure(config: SurfaceConfig, new_extent: Extent) -> (c: SurfaceConfig)
    ensures
        c == reconfigured(config, new_extent),
{
    SurfaceConfig {
        format: config.format,
        extent: new_extent,
        present_mode: config.present_mode,
        image_count: config.image_count,
    }
}

/// Whether and how the accepted extent is quantized to the dispatch tile.
#[derive(Clone, Copy, Debug, PartialEq, Eq, Structural)]
pub struct ResizePolicy {
    /// Quantize accepted extents to multiples of `tile`.
    pub quantize_to_tile: bool,
    /// Tile side in pixels; positive.
    pub tile: u32,
}

impl ResizePolicy {
    /// The tile side is positive, so alignment and rounding are meaningful.
    pub open spec fn wf(self) -> bool {
        self.tile > 0
    }

    /// The extents this policy accepts for configuration.
    pub open spec fn accepts(self, e: Extent) -> bool {
        self.quantize_to_tile ==> e.is_aligned(self.tile)
    }
}

/// Answer to a window extent: accept it, or ask the window to shrink to the
/// nearest smaller tile-aligned extent first.
#[derive(Clone, Copy, Debug, PartialEq, Eq, Structural)]
pub enum ExtentDecision {
    Accept(Extent),
    RequestResize(Extent),
}

/// The decision a policy takes on a window extent: a quantizing policy
/// accepts exactly the tile-aligned extents and answers any other with a
/// corrective request for the nearest smaller aligned extent; a
/// non-quantizing policy accepts everything.
pub open spec fn spec_decide_extent(policy: ResizePolicy, window_extent: Extent) -> ExtentDecision {
    if policy.quantize_to_tile && !window_extent.is_aligned(policy.tile) {
        ExtentDecision::RequestResize(spec_align_down(window_extent, policy.tile))
    } else {
        ExtentDecision::Accept(window_extent)
    }
}

/// Decides what to do with an extent the window reports. A quantizing policy
/// accepts exactly the tile-aligned extents and answers any other with a
/// corrective request for the nearest smaller aligned extent; a
/// non-quantizing policy accepts everything.
pub fn decide_extent(policy: ResizePolicy, window_extent: Extent) -> (d: ExtentDecision)
    requires
        policy.wf(),
    ensures
        d == spec_decide_extent(policy, window_extent),
        d matches ExtentDecision::Accept(e) ==> e == window_extent && policy.accepts(e),
        d is Accept <==> policy.accepts(window_extent),
        d matches ExtentDecision::RequestResize(e) ==> {
            &&& e.is_aligned(policy.tile)
            &&& e.width <= window_extent.width
            &&& e.height <= window_extent.height
            &&& window_extent.width - e.width < policy.tile
            &&& window_extent.height - e.height < policy.tile
        },
{
    if policy.quantize_to_tile {
        let aligned = align_down(window_extent, policy.tile);
        if aligned.width == window_extent.width && aligned.height == window_extent.height {
            ExtentDecision::Accept(window_extent)
        } else {
            ExtentDecision::RequestResize(aligned)
        }
    } else {
        ExtentDecision::Accept(window_extent)
    }
}

/// Outcome of asking the surface for the next presentable image.
#[derive(Clone, Copy, Debug, PartialEq, Eq, Structural)]
pub enum AcquireOutcome {
    /// An image slot is available; its index in the ring.
    Image(u32),
    /// The configuration no longer matches the window; reconfigure and retry.
    Outdated,
    /// The surface contents were lost; reconfigure and retry.
    Lost,
    /// Any other per-frame acquire failure; the frame is dropped.
    OtherError,
}

impl AcquireOutcome {
    /// Recoverable through the resizing path rather than surfaced as an
    /// error: the surface reported itself outdated or lost.
    pub open spec fn is_stale(self) -> bool {
        self is Outdated || self is Lost
    }
}

/// Outcome of presenting the acquired image.
#[derive(Clone, Copy, Debug, PartialEq, Eq, Structural)]
pub enum PresentOutcome {
    Presented,
    /// The configuration no longer matches the window; reconfigure and retry.
    Outdated,
    /// The surface contents were lost; reconfigure and retry.
    Lost,
    /// Any other per-frame present failure; the frame is dropped.
    OtherError,
}

impl PresentOutcome {
    /// Recoverable through the resizing path rather than surfaced as an
    /// error.
    pub open spec fn is_stale(self) -> bool {
        self is Outdated || self is Lost
    }
}

} // verus!
