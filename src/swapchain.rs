use vstd::prelude::*;

verus! {

/// Width and height of a presentable image, in pixels.
#[derive(Clone, Copy, Debug, PartialEq, Eq, Structural)]
pub struct Extent {
    pub width: u32,
    pub height: u32,
}

impl Extent {
    /// An extent with no area cannot be rendered to.
    pub fn is_drawable(&self) -> (r: bool)
        ensures
            r == (self.width > 0 && self.height > 0),
    {
        self.width > 0 && self.height > 0
    }
}

/// `e` lies within the range a surface supports, bounds included.
pub open spec fn within(e: Extent, min: Extent, max: Extent) -> bool {
    min.width <= e.width <= max.width && min.height <= e.height <= max.height
}

pub open spec fn clamp_u32(v: u32, lo: u32, hi: u32) -> u32 {
    if v < lo {
        lo
    } else if v > hi {
        hi
    } else {
        v
    }
}

/// Why a swapchain could not be rebuilt.
#[derive(Clone, Copy, Debug, PartialEq, Eq, Structural)]
pub enum SwapchainError {
    /// The surface does not support the requested extent; it supports the
    /// extents from `min_supported` to `max_supported`.
    ExtentNotSupported { provided: Extent, min_supported: Extent, max_supported: Extent },
    /// Any other failure; rendering cannot go on.
    Other,
}

/// What an attempt to rebuild the swapchain reported.
#[derive(Clone, Copy, Debug, PartialEq, Eq, Structural)]
pub enum RebuildOutcome {
    /// A new swapchain with `image_count` images of `extent`.
    Rebuilt { extent: Extent, image_count: u32 },
    /// The requested extent was refused; the surface reports this range.
    ExtentNotSupported { min_supported: Extent, max_supported: Extent },
    /// Any other failure.
    Failed,
}

pub struct StarrySwapchain {}

impl StarrySwapchain {
    /// Whether the surface's range `min..=max` holds `requested`.
    pub fn extent_supported(requested: Extent, min: Extent, max: Extent) -> (r: bool)
        ensures
            r == within(requested, min, max),
    {
        min.width <= requested.width && requested.width <= max.width && min.height
            <= requested.height && requested.height <= max.height
    }

    /// The extent nearest to `requested` within `min..=max`, each side clamped
    /// on its own.
    pub fn clamp_extent(requested: Extent, min: Extent, max: Extent) -> (r: Extent)
        requires
            min.width <= max.width,
            min.height <= max.height,
        ensures
            r.width == clamp_u32(requested.width, min.width, max.width),
            r.height == clamp_u32(requested.height, min.height, max.height),
            within(r, min, max),
            within(requested, min, max) ==> r == requested,
    {
        let width = if requested.width < min.width {
            min.width
        } else if requested.width > max.width {
            max.width
        } else {
            requested.width
        };
        let height = if requested.height < min.height {
            min.height
        } else if requested.height > max.height {
            max.height
        } else {
            requested.height
        };
        Extent { width, height }
    }

    /// The result of rebuilding at `requested`, given what the rebuild reported.
    pub open spec fn spec_rebuild_result(requested: Extent, outcome: RebuildOutcome) -> Result<
        (Extent, u32),
        SwapchainError,
    > {
        match outcome {
            RebuildOutcome::Rebuilt { extent, image_count } => if image_count > 0 {
                Ok((extent, image_count))
            } else {
                Err(SwapchainError::Other)
            },
            RebuildOutcome::ExtentNotSupported { min_supported, max_supported } => Err(
                SwapchainError::ExtentNotSupported { provided: requested, min_supported, max_supported },
            ),
            RebuildOutcome::Failed => Err(SwapchainError::Other),
        }
    }

    /// The result of rebuilding at `requested`, given what the rebuild reported.
    ///
    /// A refused extent comes back with the surface's supported range, so the
    /// caller can retry with a clamped request.
    pub fn rebuild_result(requested: Extent, outcome: RebuildOutcome) -> (r: Result<
        (Extent, u32),
        SwapchainError,
    >)
        ensures
            r == Self::spec_rebuild_result(requested, outcome),
    {
        match outcome {
            RebuildOutcome::Rebuilt { extent, image_count } => {
                if image_count > 0 {
                    Ok((extent, image_count))
                } else {
                    Err(SwapchainError::Other)
                }
            },
            RebuildOutcome::ExtentNotSupported { min_supported, max_supported } => Err(
                SwapchainError::ExtentNotSupported { provided: requested, min_supported, max_supported },
            ),
            RebuildOutcome::Failed => Err(SwapchainError::Other),
        }
    }
}

} // verus!
