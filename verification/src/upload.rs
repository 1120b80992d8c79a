//! The upload path: caller-supplied vertex groups are staged into a bounded
//! per-image buffer, copied to the device-local counterpart, and drawn — and
//! the three lengths involved must always agree.

use vstd::prelude::*;

verus! {

/// The vertices of one material/category key in a frame payload.
#[derive(Clone, Copy, Debug, PartialEq, Eq, Structural)]
pub struct VertexGroup {
    pub category: u64,
    pub vertex_count: u64,
}

/// One tick's caller-supplied geometry: primary vertices grouped by
/// category, plus overlay/text vertices. Consumed once per tick.
#[derive(Clone, Debug)]
pub struct FramePayload {
    pub groups: Vec<VertexGroup>,
    pub overlay_vertex_count: u64,
}

/// The total vertex count over a sequence of groups.
pub open spec fn total_vertices(groups: Seq<VertexGroup>) -> int
    decreases groups.len(),
{
    if groups.len() == 0 {
        0
    } else {
        total_vertices(groups.drop_last()) + groups.last().vertex_count
    }
}

pub proof fn lemma_total_vertices_nonneg(groups: Seq<VertexGroup>)
    ensures
        total_vertices(groups) >= 0,
    decreases groups.len(),
{
    if groups.len() > 0 {
        lemma_total_vertices_nonneg(groups.drop_last());
    }
}

proof fn lemma_total_vertices_prefix(groups: Seq<VertexGroup>, i: int)
    requires
        0 <= i <= groups.len(),
    ensures
        total_vertices(groups) >= total_vertices(groups.subrange(0, i)),
    decreases groups.len() - i,
{
    if i < groups.len() {
        assert(groups.subrange(0, i + 1).drop_last() =~= groups.subrange(0, i));
        assert(total_vertices(groups.subrange(0, i + 1)) == total_vertices(groups.subrange(0, i))
            + groups[i].vertex_count);
        lemma_total_vertices_prefix(groups, i + 1);
    } else {
        assert(groups.subrange(0, i) =~= groups);
    }
}

/// Sum the groups' vertex counts, or `None` when the sum exceeds `u64`.
pub fn total_vertex_count(groups: &Vec<VertexGroup>) -> (r: Option<u64>)
    ensures
        match r {
            Some(t) => t == total_vertices(groups@),
            None => total_vertices(groups@) > u64::MAX,
        },
{
    let mut acc: u64 = 0;
    let mut i: usize = 0;
    while i < groups.len()
        invariant
            0 <= i <= groups@.len(),
            acc == total_vertices(groups@.subrange(0, i as int)),
        decreases groups@.len() - i,
    {
        let c = groups[i].vertex_count;
        proof {
            assert(groups@.subrange(0, i + 1).drop_last() =~= groups@.subrange(0, i as int));
            assert(total_vertices(groups@.subrange(0, i + 1)) == acc + c);
        }
        if c > u64::MAX - acc {
            proof {
                lemma_total_vertices_prefix(groups@, i + 1);
            }
            return None;
        }
        acc = acc + c;
        i = i + 1;
    }
    proof {
        assert(groups@.subrange(0, groups@.len() as int) =~= groups@);
    }
    Some(acc)
}

/// Whether `count` vertices of `stride` bytes each fit in `capacity` bytes.
pub open spec fn vertices_fit(count: int, stride: u64, capacity: u64) -> bool {
    count * stride <= capacity
}

/// Whether a whole payload fits the per-image staging buffers.
pub open spec fn payload_fits(
    p: FramePayload,
    geometry_stride: u64,
    overlay_stride: u64,
    capacity: u64,
) -> bool {
    &&& vertices_fit(total_vertices(p.groups@), geometry_stride, capacity)
    &&& vertices_fit(p.overlay_vertex_count as int, overlay_stride, capacity)
}

/// Decide whether `count` vertices of `stride` bytes fit in `capacity`.
pub fn check_vertices_fit(count: u64, stride: u64, capacity: u64) -> (b: bool)
    requires
        stride > 0,
    ensures
        b == vertices_fit(count as int, stride, capacity),
{
    proof {
        assert((count * stride <= capacity) == (count <= capacity / stride))
            by (nonlinear_arith)
            requires stride > 0
        ;
    }
    count <= capacity / stride
}

/// Decide whether a payload fits the staging buffers.
pub fn check_payload_fits(
    p: &FramePayload,
    geometry_stride: u64,
    overlay_stride: u64,
    capacity: u64,
) -> (b: bool)
    requires
        geometry_stride > 0,
        overlay_stride > 0,
    ensures
        b == payload_fits(*p, geometry_stride, overlay_stride, capacity),
{
    match total_vertex_count(&p.groups) {
        Some(t) => {
            check_vertices_fit(t, geometry_stride, capacity) && check_vertices_fit(
                p.overlay_vertex_count,
                overlay_stride,
                capacity,
            )
        },
        None => {
            proof {
                assert(total_vertices(p.groups@) * geometry_stride > capacity)
                    by (nonlinear_arith)
                    requires
                        geometry_stride > 0,
                        total_vertices(p.groups@) > u64::MAX,
                        capacity <= u64::MAX,
                ;
            }
            false
        },
    }
}

/// The per-image resource lengths: what is staged in the host-visible
/// buffers, what the device-local copies were last sized to, and what the
/// recorded draw commands consume.
#[derive(Clone, Copy, Debug, PartialEq, Eq, Structural)]
pub struct ImageResources {
    /// Byte capacity of each staging buffer, fixed at creation.
    pub capacity: u64,
    /// Bytes per primary vertex.
    pub geometry_stride: u64,
    /// Bytes per overlay vertex.
    pub overlay_stride: u64,
    pub staged_vertices: u64,
    pub staged_bytes: u64,
    pub overlay_staged_vertices: u64,
    pub overlay_staged_bytes: u64,
    pub device_bytes: u64,
    pub overlay_device_bytes: u64,
    pub draw_vertices: u64,
    pub overlay_draw_vertices: u64,
}

/// The empty per-image resources a fresh swapchain starts with.
pub open spec fn fresh_image(capacity: u64, geometry_stride: u64, overlay_stride: u64) -> ImageResources {
    ImageResources {
        capacity,
        geometry_stride,
        overlay_stride,
        staged_vertices: 0,
        staged_bytes: 0,
        overlay_staged_vertices: 0,
        overlay_staged_bytes: 0,
        device_bytes: 0,
        overlay_device_bytes: 0,
        draw_vertices: 0,
        overlay_draw_vertices: 0,
    }
}

impl ImageResources {
    /// Staged lengths are consistent with the strides and never exceed the
    /// fixed capacity.
    pub open spec fn wf(self) -> bool {
        &&& self.geometry_stride > 0
        &&& self.overlay_stride > 0
        &&& self.staged_bytes == self.staged_vertices * self.geometry_stride
        &&& self.staged_bytes <= self.capacity
        &&& self.overlay_staged_bytes == self.overlay_staged_vertices * self.overlay_stride
        &&& self.overlay_staged_bytes <= self.capacity
    }

    /// Fresh, empty resources for one presentable image.
    pub fn new(capacity: u64, geometry_stride: u64, overlay_stride: u64) -> (r: ImageResources)
        requires
            geometry_stride > 0,
            overlay_stride > 0,
        ensures
            r.wf(),
            r == fresh_image(capacity, geometry_stride, overlay_stride),
    {
        ImageResources {
            capacity,
            geometry_stride,
            overlay_stride,
            staged_vertices: 0,
            staged_bytes: 0,
            overlay_staged_vertices: 0,
            overlay_staged_bytes: 0,
            device_bytes: 0,
            overlay_device_bytes: 0,
            draw_vertices: 0,
            overlay_draw_vertices: 0,
        }
    }

    /// Stage a payload's vertex counts into this image's buffers, marking
    /// the logical lengths the device-side copy and the draw call will use.
    /// Exceeding the capacity is a precondition violation, never a silent
    /// truncation.
    pub fn stage(&mut self, geometry_vertices: u64, overlay_vertices: u64)
        requires
            old(self).wf(),
            vertices_fit(geometry_vertices as int, old(self).geometry_stride, old(self).capacity),
            vertices_fit(overlay_vertices as int, old(self).overlay_stride, old(self).capacity),
        ensures
            final(self).wf(),
            final(self).staged_vertices == geometry_vertices,
            final(self).staged_bytes == geometry_vertices * old(self).geometry_stride,
            final(self).overlay_staged_vertices == overlay_vertices,
            final(self).overlay_staged_bytes == overlay_vertices * old(self).overlay_stride,
            final(self).capacity == old(self).capacity,
            final(self).geometry_stride == old(self).geometry_stride,
            final(self).overlay_stride == old(self).overlay_stride,
            final(self).device_bytes == old(self).device_bytes,
            final(self).overlay_device_bytes == old(self).overlay_device_bytes,
            final(self).draw_vertices == old(self).draw_vertices,
            final(self).overlay_draw_vertices == old(self).overlay_draw_vertices,
    {
        proof {
            assert(geometry_vertices * self.geometry_stride <= self.capacity);
            assert(overlay_vertices * self.overlay_stride <= self.capacity);
        }
        self.staged_vertices = geometry_vertices;
        self.staged_bytes = geometry_vertices * self.geometry_stride;
        self.overlay_staged_vertices = overlay_vertices;
        self.overlay_staged_bytes = overlay_vertices * self.overlay_stride;
    }

    /// Record the transfer-queue copy: the device-local lengths become the
    /// staged lengths.
    pub fn record_transfer(&mut self)
        requires
            old(self).wf(),
        ensures
            final(self).wf(),
            final(self).device_bytes == old(self).staged_bytes,
            final(self).overlay_device_bytes == old(self).overlay_staged_bytes,
            *final(self) == (ImageResources {
                device_bytes: old(self).staged_bytes,
                overlay_device_bytes: old(self).overlay_staged_bytes,
                ..*old(self)
            }),
    {
        self.device_bytes = self.staged_bytes;
        self.overlay_device_bytes = self.overlay_staged_bytes;
    }

    /// Record the draw commands: the vertex counts drawn become the staged
    /// vertex counts.
    pub fn record_draw(&mut self)
        requires
            old(self).wf(),
        ensures
            final(self).wf(),
            final(self).draw_vertices == old(self).staged_vertices,
            final(self).overlay_draw_vertices == old(self).overlay_staged_vertices,
            *final(self) == (ImageResources {
                draw_vertices: old(self).staged_vertices,
                overlay_draw_vertices: old(self).overlay_staged_vertices,
                ..*old(self)
            }),
    {
        self.draw_vertices = self.staged_vertices;
        self.overlay_draw_vertices = self.overlay_staged_vertices;
    }
}

} // verus!
