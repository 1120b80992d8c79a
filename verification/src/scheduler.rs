//! The frame scheduler: the per-tick state machine that paces the CPU
//! against the GPU with one fence wait per tick, orders the transfer-queue
//! copy before the graphics-queue draw through an ownership-handoff signal,
//! and recovers from a stale surface by a full rebuild.
//!
//! The scheduler only decides. Each transition returns an [`Action`] for an
//! unverified adapter to perform (a queue submission, a presentation, a
//! surface rebuild); the adapter reports what happened by calling the next
//! transition.

use vstd::prelude::*;

use crate::error::{RenderError, RenderStage};
use crate::extent::SurfaceCapabilities;
use crate::format::{PresentMode, SurfaceFormat};
use crate::swapchain::{planned_config, plan_swapchain, SwapchainConfig};
use crate::sync::{lemma_pending_frames_bounded, pending_frames, SyncRegistry};
use crate::upload::{
    fresh_image, payload_fits, total_vertices, total_vertex_count, vertices_fit, FramePayload,
    ImageResources,
};

verus! {

/// Where the scheduler stands within the current tick.
#[derive(Clone, Copy, Debug, PartialEq, Eq, Structural)]
pub enum SchedulerState {
    Idle,
    WaitingOnFence,
    Acquiring,
    StagingUpload,
    TransferSubmitted,
    OwnershipHandoff,
    RenderSubmitted,
    Presenting,
    RecreatingSurface,
}

/// What the adapter must do next. Byte and vertex figures repeat the staged
/// lengths so the adapter never sizes a copy or a draw on its own.
#[derive(Clone, Copy, Debug, PartialEq, Eq, Structural)]
pub enum Action {
    /// Block on the fence of the given frame slot.
    WaitFence { slot: usize },
    /// Acquire the next presentable image, signaling the slot's
    /// "image available" primitive.
    AcquireImage { slot: usize },
    /// Copy the payload's bytes into the image's mapped staging buffers.
    StageUpload { image: usize, geometry_bytes: u64, overlay_bytes: u64 },
    /// On the transfer queue: copy staging to device-local, release
    /// ownership to the graphics family, signal "ownership transferred".
    SubmitTransfer { image: usize, geometry_bytes: u64, overlay_bytes: u64 },
    /// On the graphics queue: wait on "ownership transferred", acquire
    /// ownership of the same buffers.
    SubmitHandoff { image: usize },
    /// On the graphics queue: wait on "image available", draw the given
    /// vertex counts, signal "render finished", reset and re-arm the
    /// slot's fence.
    SubmitRender { image: usize, slot: usize, geometry_vertices: u64, overlay_vertices: u64 },
    /// Present the image, waiting on "render finished".
    Present { image: usize, slot: usize },
    /// Wait for the device to go idle, destroy the surface-sized
    /// resources, query the surface anew and report back.
    RebuildSurface,
    /// The tick is over; `drew` tells whether a frame was submitted.
    TickDone { drew: bool },
}

/// What presentation reported, fatal errors aside.
#[derive(Clone, Copy, Debug, PartialEq, Eq, Structural)]
pub enum PresentOutcome {
    Optimal,
    Suboptimal,
    OutOfDate,
}

/// The states in which a presentable image has been acquired for this tick.
pub open spec fn holds_image(s: SchedulerState) -> bool {
    ||| s == SchedulerState::StagingUpload
    ||| s == SchedulerState::TransferSubmitted
    ||| s == SchedulerState::OwnershipHandoff
    ||| s == SchedulerState::RenderSubmitted
    ||| s == SchedulerState::Presenting
}

pub struct FrameScheduler {
    pub state: SchedulerState,
    /// Set by a fatal device error; no further transitions are taken.
    pub halted: bool,
    /// `K`, the number of frames that may be in flight at once.
    pub slot_count: usize,
    /// The frame slot the current (or next) tick uses.
    pub current_slot: usize,
    /// How many ticks have submitted a frame.
    pub frames_drawn: u64,
    /// The swapchain the surface currently runs with.
    pub config: SwapchainConfig,
    /// Per presentable image, indexed by acquired image index — never by
    /// frame slot.
    pub images: Vec<ImageResources>,
    pub sync: SyncRegistry,
    /// Byte capacity of every staging buffer.
    pub buffer_capacity: u64,
    pub geometry_stride: u64,
    pub overlay_stride: u64,
    /// The caller flagged a resize at the start of this tick.
    pub resize_pending: bool,
    /// Vertex counts of the payload this tick is drawing.
    pub pending_geometry_vertices: u64,
    pub pending_overlay_vertices: u64,
    /// The image index acquired this tick; meaningful in `holds_image`
    /// states.
    pub pending_image: usize,
    /// Whether this tick has submitted its draw.
    pub drew_this_tick: bool,
}

impl FrameScheduler {
    /// The payload accepted at the start of the tick fits the staging
    /// buffers.
    pub open spec fn pending_payload_fits(self) -> bool {
        &&& vertices_fit(
            self.pending_geometry_vertices as int,
            self.geometry_stride,
            self.buffer_capacity,
        )
        &&& vertices_fit(
            self.pending_overlay_vertices as int,
            self.overlay_stride,
            self.buffer_capacity,
        )
    }

    /// The acquired image's staged lengths are exactly this tick's payload.
    pub open spec fn pending_image_staged(self) -> bool {
        &&& self.images@[self.pending_image as int].staged_vertices
            == self.pending_geometry_vertices
        &&& self.images@[self.pending_image as int].overlay_staged_vertices
            == self.pending_overlay_vertices
    }

    /// The device-local copies were sized to the staged lengths.
    pub open spec fn pending_image_transferred(self) -> bool {
        &&& self.images@[self.pending_image as int].device_bytes
            == self.images@[self.pending_image as int].staged_bytes
        &&& self.images@[self.pending_image as int].overlay_device_bytes
            == self.images@[self.pending_image as int].overlay_staged_bytes
    }

    /// The recorded draws consume exactly the staged vertex counts.
    pub open spec fn pending_image_drawn(self) -> bool {
        &&& self.images@[self.pending_image as int].draw_vertices
            == self.images@[self.pending_image as int].staged_vertices
        &&& self.images@[self.pending_image as int].overlay_draw_vertices
            == self.images@[self.pending_image as int].overlay_staged_vertices
    }

    /// Well-formedness: established by the constructor, preserved by every
    /// transition.
    pub open spec fn wf(self) -> bool {
        &&& self.slot_count > 0
        &&& self.current_slot < self.slot_count
        // The slot in use paces the frames drawn, modulo the pool size.
        &&& self.current_slot as int == self.frames_drawn as int % self.slot_count as int
        &&& self.geometry_stride > 0
        &&& self.overlay_stride > 0
        &&& self.config.image_count > 0
        &&& self.images@.len() == self.config.image_count
        &&& self.sync.wf(self.slot_count as int, self.images@.len() as int)
        &&& forall|i: int|
            0 <= i < self.images@.len() ==> {
                &&& (#[trigger] self.images@[i]).wf()
                &&& self.images@[i].capacity == self.buffer_capacity
                &&& self.images@[i].geometry_stride == self.geometry_stride
                &&& self.images@[i].overlay_stride == self.overlay_stride
            }
        // A tick's payload is known to fit before it is staged.
        &&& (self.state == SchedulerState::WaitingOnFence || self.state
            == SchedulerState::Acquiring) ==> self.pending_payload_fits()
        // A resize-flagged tick goes straight from the fence wait to the
        // rebuild: it never reaches an upload, draw or present state.
        &&& self.resize_pending ==> (self.state == SchedulerState::WaitingOnFence || self.state
            == SchedulerState::RecreatingSurface)
        &&& holds_image(self.state) ==> {
            &&& self.pending_image < self.images@.len()
            &&& self.pending_image_staged()
        }
        // Between acquisition and the render submission the slot's
        // "image available" signal is armed for the render's wait.
        &&& (self.state == SchedulerState::StagingUpload || self.state
            == SchedulerState::TransferSubmitted || self.state
            == SchedulerState::OwnershipHandoff)
            ==> self.sync.image_available_armed@[self.current_slot as int]
        // From the transfer submission on, the device-local lengths match
        // what was staged.
        &&& (self.state == SchedulerState::TransferSubmitted || self.state
            == SchedulerState::OwnershipHandoff || self.state
            == SchedulerState::RenderSubmitted || self.state == SchedulerState::Presenting)
            ==> self.pending_image_transferred()
        // Between the transfer submission and the handoff submission the
        // per-image "ownership transferred" signal is armed: the handoff's
        // wait can only be satisfied by the transfer's completion.
        &&& (self.state == SchedulerState::TransferSubmitted || self.state
            == SchedulerState::OwnershipHandoff)
            ==> self.sync.ownership_armed@[self.pending_image as int]
        // After the render submission the slot's fence is re-armed and the
        // "render finished" signal is armed for presentation; the draw
        // consumes exactly what was staged.
        &&& (self.state == SchedulerState::RenderSubmitted || self.state
            == SchedulerState::Presenting) ==> {
            &&& !self.sync.fence_signaled@[self.current_slot as int]
            &&& self.sync.render_finished_armed@[self.current_slot as int]
            &&& self.pending_image_drawn()
        }
    }

    /// Create a scheduler for a freshly planned swapchain. Fails exactly
    /// when the surface offers no format.
    pub fn new(
        slot_count: usize,
        buffer_capacity: u64,
        geometry_stride: u64,
        overlay_stride: u64,
        formats: &Vec<SurfaceFormat>,
        modes: &Vec<PresentMode>,
        caps: &SurfaceCapabilities,
        width: u32,
        height: u32,
    ) -> (r: Result<FrameScheduler, RenderError>)
        requires
            slot_count > 0,
            geometry_stride > 0,
            overlay_stride > 0,
            caps.min_image_count < u32::MAX,
        ensures
            match r {
                Ok(s) => {
                    &&& formats@.len() > 0
                    &&& s.wf()
                    &&& !s.halted
                    &&& s.state == SchedulerState::Idle
                    &&& s.config == planned_config(formats@, modes@, *caps, width, height)
                    &&& s.slot_count == slot_count
                    &&& s.current_slot == 0
                    &&& s.frames_drawn == 0
                    &&& s.buffer_capacity == buffer_capacity
                    &&& s.geometry_stride == geometry_stride
                    &&& s.overlay_stride == overlay_stride
                    &&& forall|j: int| 0 <= j < slot_count ==> s.sync.fence_signaled@[j]
                    &&& forall|j: int|
                        0 <= j < s.images@.len() ==> s.images@[j] == fresh_image(
                            buffer_capacity,
                            geometry_stride,
                            overlay_stride,
                        )
                },
                Err(e) => {
                    &&& formats@.len() == 0
                    &&& e == RenderError::SurfaceUnsupported
                },
            },
    {
        let config = match plan_swapchain(formats, modes, caps, width, height) {
            Ok(c) => c,
            Err(e) => {
                return Err(e);
            },
        };
        let image_count: usize = config.image_count as usize;
        let images = image_vec(image_count, buffer_capacity, geometry_stride, overlay_stride);
        let sync = SyncRegistry::new(slot_count, image_count);
        Ok(
            FrameScheduler {
                state: SchedulerState::Idle,
                halted: false,
                slot_count,
                current_slot: 0,
                frames_drawn: 0,
                config,
                images,
                sync,
                buffer_capacity,
                geometry_stride,
                overlay_stride,
                resize_pending: false,
                pending_geometry_vertices: 0,
                pending_overlay_vertices: 0,
                pending_image: 0,
                drew_this_tick: false,
            },
        )
    }

    /// Start a tick: remember the payload's sizes and the resize flag, and
    /// ask the adapter to block on this slot's fence — the one blocking
    /// point that bounds the frames in flight.
    ///
    /// A payload larger than the staging capacity is a precondition
    /// violation, not an error; `check_payload_fits` decides it.
    pub fn begin_tick(&mut self, resized: bool, payload: &FramePayload) -> (r: Action)
        requires
            old(self).wf(),
            !old(self).halted,
            old(self).state == SchedulerState::Idle,
            payload_fits(
                *payload,
                old(self).geometry_stride,
                old(self).overlay_stride,
                old(self).buffer_capacity,
            ),
        ensures
            final(self).wf(),
            *final(self) == (FrameScheduler {
                state: SchedulerState::WaitingOnFence,
                resize_pending: resized,
                pending_geometry_vertices: final(self).pending_geometry_vertices,
                pending_overlay_vertices: payload.overlay_vertex_count,
                drew_this_tick: false,
                ..*old(self)
            }),
            final(self).pending_geometry_vertices == total_vertices(payload.groups@),
            r == (Action::WaitFence { slot: old(self).current_slot }),
    {
        let total = match total_vertex_count(&payload.groups) {
            Some(t) => t,
            None => {
                proof {
                    assert(total_vertices(payload.groups@) <= total_vertices(payload.groups@)
                        * self.geometry_stride) by (nonlinear_arith)
                        requires
                            self.geometry_stride >= 1,
                            total_vertices(payload.groups@) >= 0,
                    ;
                }
                proof {
                    crate::upload::lemma_total_vertices_nonneg(payload.groups@);
                }
                unreached()
            },
        };
        self.state = SchedulerState::WaitingOnFence;
        self.resize_pending = resized;
        self.pending_geometry_vertices = total;
        self.pending_overlay_vertices = payload.overlay_vertex_count;
        self.drew_this_tick = false;
        Action::WaitFence { slot: self.current_slot }
    }

    /// The fence wait returned: the slot is free again. A pending resize
    /// diverts the whole tick to the surface rebuild; otherwise the
    /// adapter acquires the next presentable image.
    pub fn fence_observed(&mut self) -> (r: Action)
        requires
            old(self).wf(),
            !old(self).halted,
            old(self).state == SchedulerState::WaitingOnFence,
        ensures
            final(self).wf(),
            *final(self) == (FrameScheduler {
                state: if old(self).resize_pending {
                    SchedulerState::RecreatingSurface
                } else {
                    SchedulerState::Acquiring
                },
                sync: final(self).sync,
                ..*old(self)
            }),
            final(self).sync == (SyncRegistry {
                fence_signaled: final(self).sync.fence_signaled,
                ..old(self).sync
            }),
            final(self).sync.fence_signaled@ == old(self).sync.fence_signaled@.update(
                old(self).current_slot as int,
                true,
            ),
            r == if old(self).resize_pending {
                Action::RebuildSurface
            } else {
                (Action::AcquireImage { slot: old(self).current_slot })
            },
    {
        self.sync.fence_signaled[self.current_slot] = true;
        if self.resize_pending {
            self.state = SchedulerState::RecreatingSurface;
            Action::RebuildSurface
        } else {
            self.state = SchedulerState::Acquiring;
            Action::AcquireImage { slot: self.current_slot }
        }
    }

    /// An image was acquired: stage the payload's lengths into that
    /// image's resources and have the adapter copy the bytes. The image
    /// index comes from the surface and is always below the image count.
    pub fn image_acquired(&mut self, image: usize) -> (r: Action)
        requires
            old(self).wf(),
            !old(self).halted,
            old(self).state == SchedulerState::Acquiring,
            image < old(self).images@.len(),
        ensures
            final(self).wf(),
            final(self).state == SchedulerState::StagingUpload,
            final(self).pending_image == image,
            final(self).images@ == old(self).images@.update(
                image as int,
                final(self).images@[image as int],
            ),
            final(self).images@[image as int] == (ImageResources {
                staged_vertices: old(self).pending_geometry_vertices,
                staged_bytes: final(self).images@[image as int].staged_bytes,
                overlay_staged_vertices: old(self).pending_overlay_vertices,
                overlay_staged_bytes: final(self).images@[image as int].overlay_staged_bytes,
                ..old(self).images@[image as int]
            }),
            final(self).sync.image_available_armed@ == old(
                self,
            ).sync.image_available_armed@.update(old(self).current_slot as int, true),
            final(self).sync == (SyncRegistry {
                image_available_armed: final(self).sync.image_available_armed,
                ..old(self).sync
            }),
            *final(self) == (FrameScheduler {
                state: SchedulerState::StagingUpload,
                pending_image: image,
                images: final(self).images,
                sync: final(self).sync,
                ..*old(self)
            }),
            r == (Action::StageUpload {
                image,
                geometry_bytes: final(self).images@[image as int].staged_bytes,
                overlay_bytes: final(self).images@[image as int].overlay_staged_bytes,
            }),
    {
        let mut res = self.images[image];
        res.stage(self.pending_geometry_vertices, self.pending_overlay_vertices);
        let geometry_bytes = res.staged_bytes;
        let overlay_bytes = res.overlay_staged_bytes;
        self.images[image] = res;
        self.sync.image_available_armed[self.current_slot] = true;
        self.pending_image = image;
        self.state = SchedulerState::StagingUpload;
        Action::StageUpload { image, geometry_bytes, overlay_bytes }
    }

    /// Acquisition reported the surface stale: divert to the rebuild
    /// without drawing. Recovered locally, invisible to the caller.
    pub fn acquire_out_of_date(&mut self) -> (r: Action)
        requires
            old(self).wf(),
            !old(self).halted,
            old(self).state == SchedulerState::Acquiring,
        ensures
            final(self).wf(),
            *final(self) == (FrameScheduler {
                state: SchedulerState::RecreatingSurface,
                ..*old(self)
            }),
            r == Action::RebuildSurface,
    {
        self.state = SchedulerState::RecreatingSurface;
        Action::RebuildSurface
    }

    /// The staging copy is in place: submit the transfer-queue work — the
    /// copies into the device-local buffers, sized to the staged bytes,
    /// then the ownership release signaling "ownership transferred".
    pub fn staging_done(&mut self) -> (r: Action)
        requires
            old(self).wf(),
            !old(self).halted,
            old(self).state == SchedulerState::StagingUpload,
        ensures
            final(self).wf(),
            final(self).state == SchedulerState::TransferSubmitted,
            final(self).images@ == old(self).images@.update(
                old(self).pending_image as int,
                final(self).images@[old(self).pending_image as int],
            ),
            final(self).images@[old(self).pending_image as int] == (ImageResources {
                device_bytes: old(self).images@[old(self).pending_image as int].staged_bytes,
                overlay_device_bytes: old(self).images@[old(
                    self,
                ).pending_image as int].overlay_staged_bytes,
                ..old(self).images@[old(self).pending_image as int]
            }),
            final(self).sync.ownership_armed@ == old(self).sync.ownership_armed@.update(
                old(self).pending_image as int,
                true,
            ),
            final(self).sync == (SyncRegistry {
                ownership_armed: final(self).sync.ownership_armed,
                ..old(self).sync
            }),
            *final(self) == (FrameScheduler {
                state: SchedulerState::TransferSubmitted,
                images: final(self).images,
                sync: final(self).sync,
                ..*old(self)
            }),
            r == (Action::SubmitTransfer {
                image: old(self).pending_image,
                geometry_bytes: old(self).images@[old(self).pending_image as int].staged_bytes,
                overlay_bytes: old(self).images@[old(
                    self,
                ).pending_image as int].overlay_staged_bytes,
            }),
    {
        let image = self.pending_image;
        let mut res = self.images[image];
        res.record_transfer();
        self.images[image] = res;
        self.sync.ownership_armed[image] = true;
        self.state = SchedulerState::TransferSubmitted;
        Action::SubmitTransfer {
            image,
            geometry_bytes: res.device_bytes,
            overlay_bytes: res.overlay_device_bytes,
        }
    }

    /// The transfer is on its queue: submit the graphics-queue acquire
    /// that waits on "ownership transferred". The host never blocks
    /// between the two submissions.
    pub fn transfer_submitted(&mut self) -> (r: Action)
        requires
            old(self).wf(),
            !old(self).halted,
            old(self).state == SchedulerState::TransferSubmitted,
        ensures
            final(self).wf(),
            *final(self) == (FrameScheduler {
                state: SchedulerState::OwnershipHandoff,
                ..*old(self)
            }),
            final(self).sync.ownership_armed@[final(self).pending_image as int],
            r == (Action::SubmitHandoff { image: old(self).pending_image }),
    {
        self.state = SchedulerState::OwnershipHandoff;
        Action::SubmitHandoff { image: self.pending_image }
    }

    /// The handoff is on the graphics queue: submit the render — it waits
    /// on "image available", draws exactly the staged vertex counts,
    /// signals "render finished", and resets and re-arms this slot's
    /// fence, which makes the next cycle's wait meaningful.
    pub fn handoff_submitted(&mut self) -> (r: Action)
        requires
            old(self).wf(),
            !old(self).halted,
            old(self).state == SchedulerState::OwnershipHandoff,
        ensures
            final(self).wf(),
            final(self).state == SchedulerState::RenderSubmitted,
            final(self).images@ == old(self).images@.update(
                old(self).pending_image as int,
                final(self).images@[old(self).pending_image as int],
            ),
            final(self).images@[old(self).pending_image as int] == (ImageResources {
                draw_vertices: old(self).images@[old(self).pending_image as int].staged_vertices,
                overlay_draw_vertices: old(self).images@[old(
                    self,
                ).pending_image as int].overlay_staged_vertices,
                ..old(self).images@[old(self).pending_image as int]
            }),
            final(self).sync.ownership_armed@ == old(self).sync.ownership_armed@.update(
                old(self).pending_image as int,
                false,
            ),
            final(self).sync.image_available_armed@ == old(
                self,
            ).sync.image_available_armed@.update(old(self).current_slot as int, false),
            final(self).sync.render_finished_armed@ == old(
                self,
            ).sync.render_finished_armed@.update(old(self).current_slot as int, true),
            final(self).sync.fence_signaled@ == old(self).sync.fence_signaled@.update(
                old(self).current_slot as int,
                false,
            ),
            *final(self) == (FrameScheduler {
                state: SchedulerState::RenderSubmitted,
                images: final(self).images,
                sync: final(self).sync,
                ..*old(self)
            }),
            r == (Action::SubmitRender {
                image: old(self).pending_image,
                slot: old(self).current_slot,
                geometry_vertices: old(self).images@[old(
                    self,
                ).pending_image as int].staged_vertices,
                overlay_vertices: old(self).images@[old(
                    self,
                ).pending_image as int].overlay_staged_vertices,
            }),
    {
        let image = self.pending_image;
        let slot = self.current_slot;
        let mut res = self.images[image];
        res.record_draw();
        self.images[image] = res;
        self.sync.ownership_armed[image] = false;
        self.sync.image_available_armed[slot] = false;
        self.sync.render_finished_armed[slot] = true;
        self.sync.fence_signaled[slot] = false;
        self.state = SchedulerState::RenderSubmitted;
        Action::SubmitRender {
            image,
            slot,
            geometry_vertices: res.draw_vertices,
            overlay_vertices: res.overlay_draw_vertices,
        }
    }

    /// The render is on its queue: request presentation.
    pub fn render_submitted(&mut self) -> (r: Action)
        requires
            old(self).wf(),
            !old(self).halted,
            old(self).state == SchedulerState::RenderSubmitted,
        ensures
            final(self).wf(),
            *final(self) == (FrameScheduler {
                state: SchedulerState::Presenting,
                drew_this_tick: true,
                ..*old(self)
            }),
            r == (Action::Present { image: old(self).pending_image, slot: old(self).current_slot }),
    {
        self.drew_this_tick = true;
        self.state = SchedulerState::Presenting;
        Action::Present { image: self.pending_image, slot: self.current_slot }
    }

    /// Presentation completed. An optimal present finishes the tick and
    /// advances the frame slot; a suboptimal or out-of-date surface is
    /// rebuilt first and the tick still counts as drawn.
    pub fn present_completed(&mut self, outcome: PresentOutcome) -> (r: Action)
        requires
            old(self).wf(),
            !old(self).halted,
            old(self).state == SchedulerState::Presenting,
            old(self).frames_drawn < u64::MAX,
        ensures
            final(self).wf(),
            final(self).sync.render_finished_armed@ == old(
                self,
            ).sync.render_finished_armed@.update(old(self).current_slot as int, false),
            final(self).sync == (SyncRegistry {
                render_finished_armed: final(self).sync.render_finished_armed,
                ..old(self).sync
            }),
            outcome == PresentOutcome::Optimal ==> {
                &&& *final(self) == (FrameScheduler {
                    state: SchedulerState::Idle,
                    current_slot: (((old(self).current_slot + 1) as int % old(
                        self,
                    ).slot_count as int)) as usize,
                    frames_drawn: (old(self).frames_drawn + 1) as u64,
                    sync: final(self).sync,
                    ..*old(self)
                })
                &&& r == (Action::TickDone { drew: true })
            },
            outcome != PresentOutcome::Optimal ==> {
                &&& *final(self) == (FrameScheduler {
                    state: SchedulerState::RecreatingSurface,
                    sync: final(self).sync,
                    ..*old(self)
                })
                &&& r == Action::RebuildSurface
            },
    {
        self.sync.render_finished_armed[self.current_slot] = false;
        match outcome {
            PresentOutcome::Optimal => {
                proof {
                    vstd::arithmetic::div_mod::lemma_add_mod_noop_right(
                        1,
                        self.frames_drawn as int,
                        self.slot_count as int,
                    );
                }
                self.current_slot = (self.current_slot + 1) % self.slot_count;
                self.frames_drawn = self.frames_drawn + 1;
                self.state = SchedulerState::Idle;
                Action::TickDone { drew: true }
            },
            _ => {
                self.state = SchedulerState::RecreatingSurface;
                Action::RebuildSurface
            },
        }
    }

    /// The device went idle and the surface was queried anew: plan the
    /// replacement swapchain and rebuild every per-image collection to the
    /// new image count — which may differ from the old one. All fences are
    /// signaled again by the drain and no signal stays armed. A tick that
    /// had already submitted its draw still advances the frame slot.
    ///
    /// Fails exactly when the surface offers no format; that is fatal.
    pub fn surface_rebuilt(
        &mut self,
        formats: &Vec<SurfaceFormat>,
        modes: &Vec<PresentMode>,
        caps: &SurfaceCapabilities,
        width: u32,
        height: u32,
    ) -> (r: Result<Action, RenderError>)
        requires
            old(self).wf(),
            !old(self).halted,
            old(self).state == SchedulerState::RecreatingSurface,
            caps.min_image_count < u32::MAX,
            old(self).frames_drawn < u64::MAX,
        ensures
            match r {
                Ok(a) => {
                    &&& formats@.len() > 0
                    &&& final(self).wf()
                    &&& !final(self).halted
                    &&& final(self).state == SchedulerState::Idle
                    &&& final(self).config == planned_config(formats@, modes@, *caps, width, height)
                    &&& final(self).images@.len() == final(self).config.image_count
                    &&& forall|j: int|
                        0 <= j < final(self).images@.len() ==> final(self).images@[j]
                            == fresh_image(
                            old(self).buffer_capacity,
                            old(self).geometry_stride,
                            old(self).overlay_stride,
                        )
                    &&& final(self).sync.wf(
                        old(self).slot_count as int,
                        final(self).images@.len() as int,
                    )
                    &&& forall|j: int|
                        0 <= j < old(self).slot_count ==> final(self).sync.fence_signaled@[j]
                    &&& final(self).resize_pending == false
                    &&& final(self).slot_count == old(self).slot_count
                    &&& final(self).buffer_capacity == old(self).buffer_capacity
                    &&& final(self).geometry_stride == old(self).geometry_stride
                    &&& final(self).overlay_stride == old(self).overlay_stride
                    &&& final(self).frames_drawn == if old(self).drew_this_tick {
                        old(self).frames_drawn + 1
                    } else {
                        old(self).frames_drawn as int
                    }
                    &&& final(self).current_slot == if old(self).drew_this_tick {
                        (old(self).current_slot + 1) % old(self).slot_count as int
                    } else {
                        old(self).current_slot as int
                    }
                    &&& a == (Action::TickDone { drew: old(self).drew_this_tick })
                },
                Err(e) => {
                    &&& formats@.len() == 0
                    &&& e == RenderError::SurfaceUnsupported
                    &&& final(self).halted
                },
            },
    {
        let config = match plan_swapchain(formats, modes, caps, width, height) {
            Ok(c) => c,
            Err(e) => {
                self.halted = true;
                return Err(e);
            },
        };
        let image_count: usize = config.image_count as usize;
        self.config = config;
        self.images = image_vec(
            image_count,
            self.buffer_capacity,
            self.geometry_stride,
            self.overlay_stride,
        );
        self.sync.reset_after_drain(image_count);
        self.resize_pending = false;
        if self.drew_this_tick {
            proof {
                vstd::arithmetic::div_mod::lemma_add_mod_noop_right(
                    1,
                    self.frames_drawn as int,
                    self.slot_count as int,
                );
            }
            self.current_slot = (self.current_slot + 1) % self.slot_count;
            self.frames_drawn = self.frames_drawn + 1;
        }
        self.state = SchedulerState::Idle;
        Ok(Action::TickDone { drew: self.drew_this_tick })
    }

    /// A fatal device error: out-of-memory, device-lost or an
    /// invalid-argument class result. The scheduler halts; the error
    /// carries the stage and the device's code, and the render loop is
    /// expected to end rather than keep submitting against a lost device.
    pub fn device_error(&mut self, stage: RenderStage, code: i32) -> (r: RenderError)
        requires
            old(self).wf(),
            !old(self).halted,
        ensures
            final(self).wf(),
            *final(self) == (FrameScheduler { halted: true, ..*old(self) }),
            r == (RenderError::Device { stage, code }),
    {
        self.halted = true;
        RenderError::Device { stage, code }
    }
}

/// Build `n` fresh per-image resource sets.
fn image_vec(n: usize, capacity: u64, geometry_stride: u64, overlay_stride: u64) -> (v: Vec<
    ImageResources,
>)
    requires
        geometry_stride > 0,
        overlay_stride > 0,
    ensures
        v@.len() == n,
        forall|j: int|
            0 <= j < n ==> v@[j] == fresh_image(capacity, geometry_stride, overlay_stride),
{
    let mut v: Vec<ImageResources> = Vec::new();
    let mut i: usize = 0;
    while i < n
        invariant
            0 <= i <= n,
            v@.len() == i,
            geometry_stride > 0,
            overlay_stride > 0,
            forall|j: int|
                0 <= j < i ==> v@[j] == fresh_image(capacity, geometry_stride, overlay_stride),
        decreases n - i,
    {
        v.push(ImageResources::new(capacity, geometry_stride, overlay_stride));
        i = i + 1;
    }
    v
}

/// The number of frames whose fence wait has not yet been satisfied
/// never exceeds `K`, the slot count — the fence pool is the sole
/// backpressure bounding how far the CPU may race the GPU.
pub proof fn lemma_frames_in_flight_bounded(s: FrameScheduler)
    requires
        s.wf(),
    ensures
        pending_frames(s.sync.fence_signaled@) <= s.slot_count,
{
    lemma_pending_frames_bounded(s.sync.fence_signaled@);
}

/// On every tick that reached the render submission, the staged byte
/// length, the device-local copy length and the draw call's vertex count
/// agree for the acquired image — the upload round-trip invariant.
pub proof fn lemma_upload_round_trip(s: FrameScheduler)
    requires
        s.wf(),
        s.state == SchedulerState::RenderSubmitted || s.state == SchedulerState::Presenting,
    ensures
        s.images@[s.pending_image as int].device_bytes == s.images@[s.pending_image
            as int].staged_bytes,
        s.images@[s.pending_image as int].staged_bytes == s.images@[s.pending_image
            as int].staged_vertices * s.geometry_stride,
        s.images@[s.pending_image as int].draw_vertices == s.images@[s.pending_image
            as int].staged_vertices,
        s.images@[s.pending_image as int].overlay_device_bytes == s.images@[s.pending_image
            as int].overlay_staged_bytes,
        s.images@[s.pending_image as int].overlay_draw_vertices == s.images@[s.pending_image
            as int].overlay_staged_vertices,
{
}

/// A resize-flagged tick is either still waiting on its fence or
/// already rebuilding the surface; it is never in an upload, submission or
/// present state, so it issues no draw and no present call.
pub proof fn lemma_resize_tick_never_draws(s: FrameScheduler)
    requires
        s.wf(),
        s.resize_pending,
    ensures
        s.state == SchedulerState::WaitingOnFence || s.state == SchedulerState::RecreatingSurface,
        !holds_image(s.state),
{
}

/// The per-image resource collections and the per-image ownership
/// signals always have length exactly the current image count — also right
/// after a recreation that changed the count.
pub proof fn lemma_per_image_collections_sized(s: FrameScheduler)
    requires
        s.wf(),
    ensures
        s.images@.len() == s.config.image_count,
        s.sync.ownership_armed@.len() == s.config.image_count,
{
}

/// While the graphics-queue handoff for image `i` is being submitted,
/// the "ownership transferred" signal for exactly that image is armed by
/// this tick's transfer submission — the draw for `i` can never run before
/// the transfer-queue copy for `i` has signaled completion.
pub proof fn lemma_handoff_waits_on_transfer(s: FrameScheduler)
    requires
        s.wf(),
        s.state == SchedulerState::OwnershipHandoff,
    ensures
        s.sync.ownership_armed@[s.pending_image as int],
        s.images@[s.pending_image as int].device_bytes == s.images@[s.pending_image
            as int].staged_bytes,
{
}

/// The frame slot in use always equals the number of frames drawn so far,
/// modulo the slot count: slot reuse paces the CPU exactly one fence pool
/// apart.
pub proof fn lemma_slot_paces_frames(s: FrameScheduler)
    requires
        s.wf(),
    ensures
        s.current_slot == s.frames_drawn as int % s.slot_count as int,
{
}

} // verus!
