//! Swapchain creation choices and per-frame acquisition outcomes.

use vstd::prelude::*;

verus! {

/// Composite alpha modes a surface may support. `Inherit` stands for any
/// platform-specific mode outside the three ranked ones.
#[derive(Clone, Copy, PartialEq, Eq, Structural, Debug)]
pub enum AlphaMode {
    PostMultiplied,
    PreMultiplied,
    Opaque,
    Inherit,
}

/// Preference rank of a composite alpha mode: transparency-preserving modes
/// first (post-multiplied over pre-multiplied), opaque and anything else
/// last.
pub open spec fn alpha_preference(m: AlphaMode) -> int {
    match m {
        AlphaMode::PostMultiplied => 1,
        AlphaMode::PreMultiplied => 2,
        AlphaMode::Opaque => 3,
        AlphaMode::Inherit => 3,
    }
}

/// Position `k` holds the mode the swapchain must be created with: no
/// supported mode is preferred over it, and among equally preferred modes it
/// is the first listed.
pub open spec fn is_chosen_alpha(supported: Seq<AlphaMode>, k: int) -> bool {
    &&& 0 <= k < supported.len()
    &&& forall|j: int|
        0 <= j < supported.len() ==> alpha_preference(supported[j]) >= alpha_preference(
            supported[k],
        )
    &&& forall|j: int|
        0 <= j < k ==> alpha_preference(supported[j]) > alpha_preference(supported[k])
}

fn alpha_rank(m: AlphaMode) -> (r: u8)
    ensures
        r == alpha_preference(m),
{
    match m {
        AlphaMode::PostMultiplied => 1,
        AlphaMode::PreMultiplied => 2,
        AlphaMode::Opaque => 3,
        AlphaMode::Inherit => 3,
    }
}

/// Pick the composite alpha mode for a new swapchain from the
/// platform-reported supported set: the most preferred mode, and among
/// equally preferred ones the first reported.
pub fn choose_alpha(supported: &Vec<AlphaMode>) -> (r: Option<AlphaMode>)
    ensures
        match r {
            Some(m) => exists|k: int| #[trigger]
                is_chosen_alpha(supported@, k) && supported@[k] == m,
            None => supported@.len() == 0,
        },
{
    let mut best: Option<(usize, u8)> = None;
    let mut idx: usize = 0;
    while idx < supported.len()
        invariant
            idx <= supported@.len(),
            match best {
                Some((b, rk)) => {
                    &&& b < idx
                    &&& rk == alpha_preference(supported@[b as int])
                    &&& forall|j: int|
                        0 <= j < idx ==> alpha_preference(supported@[j]) >= rk
                    &&& forall|j: int| 0 <= j < b ==> alpha_preference(supported@[j]) > rk
                },
                None => idx == 0,
            },
        decreases supported@.len() - idx,
    {
        let rank = alpha_rank(supported[idx]);
        match best {
            Some((_, rk)) => {
                if rank < rk {
                    best = Some((idx, rank));
                }
            },
            None => {
                best = Some((idx, rank));
            },
        }
        idx += 1;
    }
    match best {
        Some((b, _)) => {
            let m = supported[b];
            proof {
                assert(is_chosen_alpha(supported@, b as int));
            }
            Some(m)
        },
        None => None,
    }
}

/// Color formats a swapchain image may carry, as far as the core tells them
/// apart: the one format the drawing surface supports, and everything else.
#[derive(Clone, Copy, PartialEq, Eq, Structural, Debug)]
pub enum ImageFormat {
    B8g8r8a8Unorm,
    R8g8b8a8Unorm,
    Other,
}

/// Color types a drawing surface can be declared with.
#[derive(Clone, Copy, PartialEq, Eq, Structural, Debug)]
pub enum SurfaceColorType {
    Bgra8888,
}

/// The drawing-surface color type matching a swapchain image format, if any.
/// A format with no match is a fatal configuration error when a surface is
/// bound.
pub open spec fn color_type_spec(f: ImageFormat) -> Option<SurfaceColorType> {
    match f {
        ImageFormat::B8g8r8a8Unorm => Some(SurfaceColorType::Bgra8888),
        _ => None,
    }
}

pub fn surface_color_type(f: ImageFormat) -> (r: Option<SurfaceColorType>)
    ensures
        r == color_type_spec(f),
{
    match f {
        ImageFormat::B8g8r8a8Unorm => Some(SurfaceColorType::Bgra8888),
        _ => None,
    }
}

/// What the platform reports for one image-acquisition request.
#[derive(Clone, Copy, PartialEq, Eq, Structural, Debug)]
pub enum AcquireOutcome {
    /// An image is available at `image_index`; `suboptimal` when the platform
    /// flags the swapchain as usable but no longer ideal, so the next frame
    /// must rebuild it while this frame proceeds.
    Ready { image_index: u32, suboptimal: bool },
    /// The swapchain can no longer present and must be rebuilt before a
    /// retry.
    OutOfDate,
    /// Any other platform failure: fatal for the draw call.
    Fatal,
}

} // verus!
