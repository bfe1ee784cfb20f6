//! The per-window renderer: swapchain lifecycle, frame acquisition with its
//! single retry, and the presentation pipeline of one draw call.
//!
//! The platform's answers — acquisition outcomes, the image count of a
//! rebuilt swapchain, whether a present submission succeeded — enter as plain
//! values in a [`DrawEnv`]; the renderer decides everything else and its
//! decisions are verified.

use vstd::prelude::*;
use crate::RenderError;
use crate::context::{Registry, is_fresh_context, record_present_spec, in_call_order,
    lemma_presentation_in_call_order, lemma_fresh_in_call_order, RenderContext};
use crate::device::{DeviceInfo, QueueHandle, QueueSlot, is_selected_device, device_eligible};
use crate::geometry::{Extent, ScaleFactor, logical_extent_spec, logical_fits, logical_extent,
    lemma_logical_roundtrip};
use crate::swapchain::{AcquireOutcome, AlphaMode, ImageFormat, is_chosen_alpha, choose_alpha,
    color_type_spec, surface_color_type};

verus! {

broadcast use crate::context::Registry::lemma_get_spec_contains;

/// One window's renderer: the swapchain it owns, the framebuffer set built
/// in lock-step with it, and the validity flag that schedules rebuilds.
pub struct Renderer {
    /// Identity of the window this renderer draws to.
    pub id: u64,
    /// The shared queue this renderer presents on.
    pub queue: QueueHandle,
    /// Pixel extent of the swapchain's images.
    pub extent: Extent,
    /// Color format of the swapchain's images, fixed at creation.
    pub format: ImageFormat,
    /// Composite alpha mode the swapchain was created with.
    pub alpha: AlphaMode,
    /// One entry per swapchain image: the pixel extent its framebuffer was
    /// built at.
    pub framebuffers: Vec<Extent>,
    /// False whenever the swapchain must be rebuilt before the next frame.
    pub swapchain_is_valid: bool,
}

impl Renderer {
    /// Framebuffers are regenerated in lock-step with the swapchain: while
    /// the swapchain is valid there is one framebuffer per image and every
    /// one was built at the swapchain's current extent.
    pub open spec fn wf(self) -> bool {
        self.swapchain_is_valid ==> {
            &&& self.framebuffers@.len() >= 1
            &&& forall|k: int|
                0 <= k < self.framebuffers@.len() ==> #[trigger] self.framebuffers@[k]
                    == self.extent
        }
    }

    /// The swapchain must be recreated before the next frame: it is flagged
    /// invalid and the window has drawable area. A zero-area window is a
    /// benign no-op, never an error.
    pub open spec fn needs_rebuild(self, window_extent: Extent) -> bool {
        !self.swapchain_is_valid && !window_extent.is_zero_area()
    }
}

/// Swapchain extent after validation against a window extent.
pub open spec fn prepared_extent(pre: Renderer, window_extent: Extent) -> Extent {
    if pre.needs_rebuild(window_extent) {
        window_extent
    } else {
        pre.extent
    }
}

/// Framebuffer set after validation: rebuilt as one framebuffer per image at
/// the window extent, or left alone.
pub open spec fn prepared_fbs(pre: Renderer, window_extent: Extent, image_count: u32) -> Seq<
    Extent,
> {
    if pre.needs_rebuild(window_extent) {
        Seq::new(image_count as nat, |i: int| window_extent)
    } else {
        pre.framebuffers@
    }
}

/// Validity flag after validation.
pub open spec fn prepared_valid(pre: Renderer, window_extent: Extent) -> bool {
    if pre.needs_rebuild(window_extent) {
        true
    } else {
        pre.swapchain_is_valid
    }
}

/// How `prepare_swapchain` relates the renderer before and after.
pub open spec fn prepared_spec(pre: Renderer, window_extent: Extent, image_count: u32, post: Renderer) -> bool {
    &&& post.id == pre.id
    &&& post.queue == pre.queue
    &&& post.format == pre.format
    &&& post.alpha == pre.alpha
    &&& post.extent == prepared_extent(pre, window_extent)
    &&& post.framebuffers@ =~= prepared_fbs(pre, window_extent, image_count)
    &&& post.swapchain_is_valid == prepared_valid(pre, window_extent)
}

/// How classifying one acquisition outcome changes the renderer: out-of-date
/// invalidates; a suboptimal success invalidates for the next frame while the
/// current one proceeds; nothing else changes.
pub open spec fn classified_spec(pre: Renderer, outcome: AcquireOutcome, post: Renderer) -> bool {
    &&& post.id == pre.id
    &&& post.queue == pre.queue
    &&& post.format == pre.format
    &&& post.alpha == pre.alpha
    &&& post.extent == pre.extent
    &&& post.framebuffers == pre.framebuffers
    &&& post.swapchain_is_valid == match outcome {
        AcquireOutcome::Ready { suboptimal, .. } => pre.swapchain_is_valid && !suboptimal,
        AcquireOutcome::OutOfDate => false,
        AcquireOutcome::Fatal => pre.swapchain_is_valid,
    }
}

/// Everything outside the core that one draw call consumes: the window's
/// current size and scale, the platform's answer to each acquisition request,
/// the image count of each possible swapchain rebuild, and whether the
/// present submission goes through. The retry fields are consulted only when
/// the first acquisition reports out-of-date.
#[derive(Clone, Copy, PartialEq, Eq, Structural, Debug)]
pub struct DrawEnv {
    /// The window's current pixel extent.
    pub window_extent: Extent,
    /// The window's current DPI scale factor.
    pub scale: ScaleFactor,
    /// Outcome of the first acquisition request.
    pub first: AcquireOutcome,
    /// Outcome of the retry acquisition, consulted only after an out-of-date
    /// first attempt.
    pub retry: AcquireOutcome,
    /// Image count of a swapchain rebuilt during initial validation.
    pub image_count: u32,
    /// Image count of a swapchain rebuilt after an out-of-date acquisition.
    pub image_count_retry: u32,
    /// Whether the present submission of this frame succeeds. A failure is
    /// best-effort territory: the frame is lost but the call still succeeds.
    pub present_ok: bool,
}

/// What one frame painted: which image was bound, at what sizes, and with
/// which submission serial.
#[derive(Clone, Copy, PartialEq, Eq, Structural, Debug)]
pub struct PaintInfo {
    /// Index of the swapchain image the frame was drawn into.
    pub image_index: u32,
    /// Logical (DPI-independent) size handed to the paint callback.
    pub logical: Extent,
    /// Extent of the framebuffer the drawing surface was bound over.
    pub framebuffer_extent: Extent,
    /// Serial of this frame's present submission, counted from 1 per window.
    pub frame_serial: u64,
}

/// The observable course of one draw call.
#[derive(Clone, Copy, Debug)]
pub struct DrawResult {
    /// What was painted, or nothing when the frame was dropped (zero-area
    /// window, or the swapchain stayed unavailable after the one retry).
    pub painted: Option<PaintInfo>,
    /// How many acquisition requests were made: never more than two.
    pub acquisitions: u32,
    /// How many swapchain rebuilds occurred during the call.
    pub rebuilds: u32,
}

/// Whether the draw call gets as far as touching the window's render
/// context: it does unless the window has zero area or a fatal acquisition
/// error aborts the call first.
pub open spec fn draw_reaches_context(env: DrawEnv) -> bool {
    &&& !env.window_extent.is_zero_area()
    &&& !(env.first is Fatal)
    &&& !(env.first is OutOfDate && env.retry is Fatal)
}

/// Whether the environment hands the draw call an image to paint into.
pub open spec fn env_acquires_image(env: DrawEnv) -> bool {
    &&& !env.window_extent.is_zero_area()
    &&& (env.first is Ready || (env.first is OutOfDate && env.retry is Ready))
}

/// Whether the draw call paints: an image was acquired and the swapchain
/// format has a drawing-surface color type.
pub open spec fn draw_paints(pre: Renderer, env: DrawEnv) -> bool {
    env_acquires_image(env) && color_type_spec(pre.format) is Some
}

/// The acquisition indices the platform may report: always within the image
/// count of the swapchain the request was made against.
pub open spec fn env_indices_in_bounds(pre: Renderer, env: DrawEnv) -> bool {
    !env.window_extent.is_zero_area() ==> {
        &&& (env.first matches AcquireOutcome::Ready { image_index, .. } ==> (image_index as nat)
            < prepared_fbs(pre, env.window_extent, env.image_count).len())
        &&& (env.first is OutOfDate ==> (env.retry matches AcquireOutcome::Ready {
            image_index,
            ..
        } ==> (image_index as int) < env.image_count_retry))
    }
}

/// The renderer-side meaning of one draw call, for every environment: how
/// the state changes and what the result must be.
pub open spec fn draw_renderer_spec(
    pre: Renderer,
    env: DrawEnv,
    post: Renderer,
    r: Result<DrawResult, RenderError>,
) -> bool {
    if env.window_extent.is_zero_area() {
        &&& post == pre
        &&& r matches Ok(d) && d.painted is None && d.acquisitions == 0 && d.rebuilds == 0
    } else {
        let ext1 = prepared_extent(pre, env.window_extent);
        let fbs1 = prepared_fbs(pre, env.window_extent, env.image_count);
        let valid1 = prepared_valid(pre, env.window_extent);
        let rb1: int = if pre.needs_rebuild(env.window_extent) {
            1
        } else {
            0
        };
        &&& post.id == pre.id
        &&& post.queue == pre.queue
        &&& post.format == pre.format
        &&& post.alpha == pre.alpha
        &&& match env.first {
            AcquireOutcome::Fatal => {
                &&& r == Err::<DrawResult, RenderError>(RenderError::AcquisitionFailed)
                &&& post.extent == ext1
                &&& post.framebuffers@ =~= fbs1
                &&& post.swapchain_is_valid == valid1
            },
            AcquireOutcome::Ready { image_index, suboptimal } => {
                &&& post.extent == ext1
                &&& post.framebuffers@ =~= fbs1
                &&& post.swapchain_is_valid == (valid1 && !suboptimal)
                &&& match color_type_spec(pre.format) {
                    None => r == Err::<DrawResult, RenderError>(RenderError::UnsupportedFormat),
                    Some(_) => r matches Ok(d) && {
                        &&& d.acquisitions == 1
                        &&& d.rebuilds == rb1
                        &&& d.painted matches Some(p) && {
                            &&& p.image_index == image_index
                            &&& p.logical == logical_extent_spec(env.window_extent, env.scale)
                            &&& p.framebuffer_extent == fbs1[image_index as int]
                        }
                    },
                }
            },
            AcquireOutcome::OutOfDate => {
                &&& post.extent == env.window_extent
                &&& post.framebuffers@ =~= Seq::new(
                    env.image_count_retry as nat,
                    |i: int| env.window_extent,
                )
                &&& match env.retry {
                    AcquireOutcome::Fatal => {
                        &&& r == Err::<DrawResult, RenderError>(RenderError::AcquisitionFailed)
                        &&& post.swapchain_is_valid
                    },
                    AcquireOutcome::OutOfDate => {
                        &&& r matches Ok(d) && d.painted is None && d.acquisitions == 2
                            && d.rebuilds == rb1 + 1
                        &&& !post.swapchain_is_valid
                    },
                    AcquireOutcome::Ready { image_index, suboptimal } => {
                        &&& post.swapchain_is_valid == !suboptimal
                        &&& match color_type_spec(pre.format) {
                            None => r == Err::<DrawResult, RenderError>(
                                RenderError::UnsupportedFormat,
                            ),
                            Some(_) => r matches Ok(d) && {
                                &&& d.acquisitions == 2
                                &&& d.rebuilds == rb1 + 1
                                &&& d.painted matches Some(p) && {
                                    &&& p.image_index == image_index
                                    &&& p.logical == logical_extent_spec(
                                        env.window_extent,
                                        env.scale,
                                    )
                                    &&& p.framebuffer_extent == env.window_extent
                                }
                            },
                        }
                    },
                }
            },
        }
    }
}

impl Renderer {
    /// Build a renderer for a newly shown window: reuse or lazily create the
    /// thread's shared queue, size the swapchain to the window, pick the
    /// transparency-preferring composite alpha mode from the supported set,
    /// and leave the framebuffer set empty and flagged for building before
    /// the first frame. Fails only when no device qualifies, a fatal
    /// startup-time condition.
    pub fn for_window(
        slot: &mut QueueSlot,
        devices: &Vec<DeviceInfo>,
        id: u64,
        window_extent: Extent,
        format: ImageFormat,
        supported_alpha: &Vec<AlphaMode>,
    ) -> (r: Result<Renderer, RenderError>)
        requires
            supported_alpha@.len() >= 1,
        ensures
            match r {
                Ok(rr) => {
                    &&& rr.id == id
                    &&& rr.extent == window_extent
                    &&& rr.format == format
                    &&& rr.framebuffers@.len() == 0
                    &&& !rr.swapchain_is_valid
                    &&& rr.wf()
                    &&& exists|k: int| #[trigger]
                        is_chosen_alpha(supported_alpha@, k) && supported_alpha@[k] == rr.alpha
                    &&& final(slot).handle == Some(rr.queue)
                    &&& (old(slot).handle matches Some(h) ==> rr.queue == h)
                    &&& (old(slot).handle is None ==> is_selected_device(
                        devices@,
                        rr.queue.device_index as int,
                        rr.queue.queue_family as int,
                    ))
                },
                Err(e) => {
                    &&& e == RenderError::NoSuitableDevice
                    &&& old(slot).handle is None
                    &&& final(slot).handle is None
                    &&& forall|j: int|
                        0 <= j < devices@.len() ==> !device_eligible(#[trigger] devices@[j])
                },
            },
    {
        let queue = match slot.get_or_create(devices) {
            Ok(q) => q,
            Err(e) => {
                return Err(e);
            },
        };
        let alpha = match choose_alpha(supported_alpha) {
            Some(a) => a,
            None => {
                proof {
                    assert(false);
                }
                AlphaMode::Opaque
            },
        };
        Ok(
            Renderer {
                id,
                queue,
                extent: window_extent,
                format,
                alpha,
                framebuffers: Vec::new(),
                swapchain_is_valid: false,
            },
        )
    }

    /// Resize notification: the swapchain no longer matches the window, so
    /// flag it for rebuilding; the new dimensions are read from the window
    /// when the framebuffers are reallocated.
    pub fn resize(&mut self, _new_size: Extent)
        ensures
            !final(self).swapchain_is_valid,
            final(self).id == old(self).id,
            final(self).queue == old(self).queue,
            final(self).extent == old(self).extent,
            final(self).format == old(self).format,
            final(self).alpha == old(self).alpha,
            final(self).framebuffers == old(self).framebuffers,
            final(self).wf(),
    {
        self.swapchain_is_valid = false;
    }

    /// Validate the swapchain before a frame: when flagged invalid and the
    /// window has drawable area, recreate it at the window's extent and
    /// regenerate the framebuffer set in lock-step, one framebuffer per
    /// image; otherwise do nothing. `image_count` is how many images the
    /// platform gives the rebuilt swapchain.
    pub fn prepare_swapchain(&mut self, window_extent: Extent, image_count: u32)
        requires
            image_count >= 1,
        ensures
            prepared_spec(*old(self), window_extent, image_count, *final(self)),
            old(self).wf() ==> final(self).wf(),
    {
        if !self.swapchain_is_valid && !window_extent.zero_area() {
            self.extent = window_extent;
            let mut fbs: Vec<Extent> = Vec::new();
            let mut i: u32 = 0;
            while i < image_count
                invariant
                    i <= image_count,
                    fbs@ =~= Seq::new(i as nat, |j: int| window_extent),
                decreases image_count - i,
            {
                fbs.push(window_extent);
                proof {
                    assert(fbs@ =~= Seq::new((i + 1) as nat, |j: int| window_extent));
                }
                i += 1;
            }
            self.framebuffers = fbs;
            self.swapchain_is_valid = true;
        }
    }

    /// Classify one acquisition outcome. Ready hands back the image index —
    /// on a suboptimal flag the current frame proceeds but the next one
    /// rebuilds; out-of-date invalidates the swapchain and returns nothing so
    /// the caller re-validates and retries once; anything else is fatal.
    pub fn get_next_frame(&mut self, outcome: AcquireOutcome) -> (r: Result<
        Option<u32>,
        RenderError,
    >)
        ensures
            classified_spec(*old(self), outcome, *final(self)),
            match outcome {
                AcquireOutcome::Ready { image_index, .. } => r == Ok::<Option<u32>, RenderError>(
                    Some(image_index),
                ),
                AcquireOutcome::OutOfDate => r == Ok::<Option<u32>, RenderError>(None),
                AcquireOutcome::Fatal => r == Err::<Option<u32>, RenderError>(
                    RenderError::AcquisitionFailed,
                ),
            },
            old(self).wf() ==> final(self).wf(),
    {
        match outcome {
            AcquireOutcome::Ready { image_index, suboptimal } => {
                if suboptimal {
                    self.swapchain_is_valid = false;
                }
                Ok(Some(image_index))
            },
            AcquireOutcome::OutOfDate => {
                self.swapchain_is_valid = false;
                Ok(None)
            },
            AcquireOutcome::Fatal => Err(RenderError::AcquisitionFailed),
        }
    }

    /// One draw call: validate or rebuild the swapchain, acquire an image
    /// (retrying exactly once after an out-of-date report), bind a drawing
    /// surface over the acquired framebuffer, hand the paint callback the
    /// window's logical size, and submit the frame for presentation in call
    /// order. A zero-area window and a frame dropped after the one retry are
    /// benign successes with nothing painted; fatal acquisition errors and an
    /// unsupported color format are typed errors.
    pub fn draw(&mut self, reg: &mut Registry, env: &DrawEnv) -> (r: Result<
        DrawResult,
        RenderError,
    >)
        requires
            old(self).wf(),
            old(reg).wf(),
            env.scale.wf(),
            env.image_count >= 1,
            env.image_count_retry >= 1,
            logical_fits(env.window_extent, env.scale),
            env_indices_in_bounds(*old(self), *env),
            old(reg).get_spec(old(self).id) matches Some(c) ==> c.frames_submitted < u64::MAX,
        ensures
            draw_renderer_spec(*old(self), *env, *final(self), r),
            final(self).wf(),
            final(reg).wf(),
            forall|k: u64|
                k != old(self).id ==> final(reg).get_spec(k) == old(reg).get_spec(k),
            forall|k: u64|
                k != old(self).id ==> final(reg).contains_spec(k) == old(reg).contains_spec(k),
            !draw_reaches_context(*env) ==> final(reg).get_spec(old(self).id) == old(
                reg,
            ).get_spec(old(self).id) && final(reg).contains_spec(old(self).id) == old(
                reg,
            ).contains_spec(old(self).id),
            draw_reaches_context(*env) ==> final(reg).contains_spec(old(self).id),
            (draw_reaches_context(*env) && !draw_paints(*old(self), *env)) ==> match old(
                reg,
            ).get_spec(old(self).id) {
                Some(c0) => final(reg).get_spec(old(self).id) == Some(c0),
                None => final(reg).get_spec(old(self).id) matches Some(c) && is_fresh_context(
                    c,
                    old(self).id,
                ),
            },
            draw_paints(*old(self), *env) ==> match old(reg).get_spec(old(self).id) {
                Some(c0) => final(reg).get_spec(old(self).id) matches Some(c1)
                    && record_present_spec(c0, env.present_ok, c1),
                None => exists|c0: RenderContext|
                    is_fresh_context(c0, old(self).id) && (final(reg).get_spec(old(self).id)
                        matches Some(c1) && record_present_spec(c0, env.present_ok, c1)),
            },
            // presentation order is preserved through every draw call
            ((old(reg).get_spec(old(self).id) matches Some(c0) ==> in_call_order(c0)) && (
            final(reg).get_spec(old(self).id) matches Some(c1))) ==> in_call_order(
                final(reg).get_spec(old(self).id).unwrap(),
            ),
            // the frame serial continues the window's submission count
            r matches Ok(d) ==> (d.painted matches Some(p) ==> p.frame_serial == 1 + (
            match old(reg).get_spec(old(self).id) {
                Some(c0) => c0.frames_submitted as int,
                None => 0,
            })),
            // no stale-size framebuffer is ever bound
            r matches Ok(d) ==> (d.painted matches Some(p) ==> p.framebuffer_extent == final(self).extent),
            // a zero-area window is a benign no-op
            env.window_extent.is_zero_area() ==> (r matches Ok(d) && d.painted is None)
                && *final(self) == *old(self),
    {
        if env.window_extent.zero_area() {
            return Ok(DrawResult { painted: None, acquisitions: 0, rebuilds: 0 });
        }
        let initial_rebuild = !self.swapchain_is_valid;
        self.prepare_swapchain(env.window_extent, env.image_count);
        let mut acquisitions: u32 = 1;
        let mut rebuilds: u32 = if initial_rebuild {
            1
        } else {
            0
        };
        let outcome1 = match self.get_next_frame(env.first) {
            Ok(o) => o,
            Err(e) => {
                return Err(e);
            },
        };
        let frame: Option<u32> = match outcome1 {
            Some(i) => Some(i),
            None => {
                // out-of-date: rebuild the now-invalid swapchain and retry
                // exactly once; a frame still unavailable is dropped silently
                self.prepare_swapchain(env.window_extent, env.image_count_retry);
                acquisitions = 2;
                rebuilds = rebuilds + 1;
                match self.get_next_frame(env.retry) {
                    Ok(o) => o,
                    Err(e) => {
                        return Err(e);
                    },
                }
            },
        };
        reg.ensure_context(self.id);
        match frame {
            None => {
                proof {
                    lemma_fresh_in_call_order_helper(*old(reg), *reg, old(self).id);
                }
                Ok(DrawResult { painted: None, acquisitions, rebuilds })
            },
            Some(image_index) => {
                match surface_color_type(self.format) {
                    Some(_) => {},
                    None => {
                        proof {
                            lemma_fresh_in_call_order_helper(*old(reg), *reg, old(self).id);
                        }
                        return Err(RenderError::UnsupportedFormat);
                    },
                };
                let framebuffer_extent = self.framebuffers[image_index as usize];
                let logical = logical_extent(&env.window_extent, &env.scale);
                let frames_before = match reg.frames_submitted_of(self.id) {
                    Some(n) => n,
                    None => {
                        proof {
                            assert(false);
                        }
                        0
                    },
                };
                let ghost mid_reg = *reg;
                reg.record_present(self.id, env.present_ok);
                proof {
                    let id = old(self).id;
                    let c0o = old(reg).get_spec(id);
                    let cmid = mid_reg.get_spec(id).unwrap();
                    let c1 = reg.get_spec(id).unwrap();
                    if c0o is None {
                        lemma_fresh_in_call_order(cmid, id);
                    }
                    if (c0o matches Some(c0) ==> in_call_order(c0)) {
                        lemma_presentation_in_call_order(cmid, env.present_ok, c1);
                    }
                }
                Ok(
                    DrawResult {
                        painted: Some(
                            PaintInfo {
                                image_index,
                                logical,
                                framebuffer_extent,
                                frame_serial: frames_before + 1,
                            },
                        ),
                        acquisitions,
                        rebuilds,
                    },
                )
            },
        }
    }

    /// Destroy the renderer when its window closes: the window's render
    /// context leaves the thread-local registry, so a later lookup for this
    /// window identity finds nothing. Outstanding GPU work is abandoned;
    /// other windows' contexts are untouched.
    pub fn close(self, reg: &mut Registry)
        requires
            old(reg).wf(),
        ensures
            final(reg).wf(),
            !final(reg).contains_spec(self.id),
            forall|k: u64| k != self.id ==> final(reg).get_spec(k) == old(reg).get_spec(k),
            forall|k: u64|
                k != self.id ==> final(reg).contains_spec(k) == old(reg).contains_spec(k),
    {
        reg.remove(self.id);
    }
}

/// If a context for `id` was just ensured (created fresh or left alone), a
/// context that was in call order stays in call order.
proof fn lemma_fresh_in_call_order_helper(pre: Registry, post: Registry, id: u64)
    requires
        pre.contains_spec(id) ==> post.get_spec(id) == pre.get_spec(id),
        !pre.contains_spec(id) ==> (post.get_spec(id) matches Some(c) && is_fresh_context(c, id)),
    ensures
        ((pre.get_spec(id) matches Some(c0) ==> in_call_order(c0)) && (post.get_spec(id)
            matches Some(c1))) ==> in_call_order(post.get_spec(id).unwrap()),
{
    if !pre.contains_spec(id) {
        match post.get_spec(id) {
            Some(c) => lemma_fresh_in_call_order(c, id),
            None => (),
        }
    }
}

/// Law: no stale-size framebuffer is ever bound. Under any interleaving of
/// resizes and draws a renderer stays well-formed, and whenever a draw call
/// paints, the framebuffer it bound has the swapchain's current image extent.
pub proof fn lemma_no_stale_framebuffer(
    pre: Renderer,
    env: DrawEnv,
    post: Renderer,
    r: Result<DrawResult, RenderError>,
)
    requires
        pre.wf(),
        env_indices_in_bounds(pre, env),
        draw_renderer_spec(pre, env, post, r),
    ensures
        r matches Ok(d) ==> (d.painted matches Some(p) ==> p.framebuffer_extent == post.extent),
{
}

/// Law: after an out-of-date first acquisition, exactly one swapchain
/// rebuild and one retry acquisition occur before the frame succeeds or is
/// silently dropped; the frame is never retried more than once (a draw call
/// makes at most two acquisition requests).
pub proof fn lemma_retry_exactly_once(
    pre: Renderer,
    env: DrawEnv,
    post: Renderer,
    r: Result<DrawResult, RenderError>,
)
    requires
        draw_renderer_spec(pre, env, post, r),
        !env.window_extent.is_zero_area(),
        pre.swapchain_is_valid,
        env.first is OutOfDate,
    ensures
        r matches Ok(d) ==> d.rebuilds == 1 && d.acquisitions == 2,
        env.retry is Fatal <==> r == Err::<DrawResult, RenderError>(RenderError::AcquisitionFailed),
{
}

/// Law: a draw call never makes more than two acquisition requests, and only
/// an out-of-date first attempt leads to a second one.
pub proof fn lemma_at_most_one_retry(
    pre: Renderer,
    env: DrawEnv,
    post: Renderer,
    r: Result<DrawResult, RenderError>,
)
    requires
        draw_renderer_spec(pre, env, post, r),
    ensures
        r matches Ok(d) ==> d.acquisitions <= 2,
        r matches Ok(d) ==> (!(env.first is OutOfDate) ==> d.acquisitions <= 1),
{
}

/// Law: the logical size handed to the paint callback, multiplied by the
/// scale factor, recovers the window's physical extent to within half a
/// rounding step; for scale factors of at most 2.0 the two agree to within
/// one physical pixel. Stated per dimension over the exact rational scale
/// `num / den`.
pub proof fn lemma_paint_logical_matches_physical(env: DrawEnv, p: PaintInfo)
    requires
        env.scale.wf(),
        logical_fits(env.window_extent, env.scale),
        p.logical == logical_extent_spec(env.window_extent, env.scale),
    ensures
        2 * (p.logical.width * env.scale.num) <= 2 * (env.window_extent.width * env.scale.den)
            + env.scale.num,
        2 * (env.window_extent.width * env.scale.den) <= 2 * (p.logical.width * env.scale.num)
            + env.scale.num,
        2 * (p.logical.height * env.scale.num) <= 2 * (env.window_extent.height * env.scale.den)
            + env.scale.num,
        2 * (env.window_extent.height * env.scale.den) <= 2 * (p.logical.height * env.scale.num)
            + env.scale.num,
        env.scale.num <= 2 * env.scale.den ==> {
            &&& p.logical.width * env.scale.num <= env.window_extent.width * env.scale.den
                + env.scale.den
            &&& env.window_extent.width * env.scale.den <= p.logical.width * env.scale.num
                + env.scale.den
            &&& p.logical.height * env.scale.num <= env.window_extent.height * env.scale.den
                + env.scale.den
            &&& env.window_extent.height * env.scale.den <= p.logical.height * env.scale.num
                + env.scale.den
        },
{
    lemma_logical_roundtrip(
        env.window_extent.width as nat,
        env.scale.num as nat,
        env.scale.den as nat,
    );
    lemma_logical_roundtrip(
        env.window_extent.height as nat,
        env.scale.num as nat,
        env.scale.den as nat,
    );
}

} // verus!
