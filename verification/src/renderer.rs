//! The frame coordinator: what one frame does with the surface, decided from
//! how acquiring the next image went.
//!
//! The coordinator holds the last size that the surface was configured with.
//! It does not touch the GPU: each call returns what the host is to carry
//! out.

use crate::bytes::is_memory_of;
use crate::components::Transform;
use crate::instance::{
    batch_words, extract_instances, frame_sources, instance_bytes, is_batch_of, InstanceRaw,
    INSTANCE_CAPACITY, INSTANCE_STRIDE,
};
use crate::math::Mat4;
use crate::mesh::QUAD_INDEX_COUNT;
use crate::scene::Scene;
use vstd::prelude::*;

verus! {

/// The number of bytes in the instance buffer.
pub const INSTANCE_BUFFER_SIZE: u64 = 81_920;

/// The two failures of a frame that the host has to act on: after
/// `SurfaceLost` it goes on with the next frame, after `OutOfMemory` it ends
/// the run loop.
#[derive(Clone, Copy, Debug, PartialEq, Eq, Structural)]
pub enum RenderError {
    SurfaceLost,
    OutOfMemory,
}

/// The size of a surface in pixels.
#[derive(Clone, Copy, Debug, PartialEq, Eq, Structural)]
pub struct SurfaceSize {
    pub width: u32,
    pub height: u32,
}

impl SurfaceSize {
    /// Whether a surface can be configured with this size: both dimensions
    /// are positive.
    pub open spec fn is_drawable(self) -> bool {
        self.width > 0 && self.height > 0
    }
}

/// How acquiring the next presentable image went.
#[derive(Clone, Copy, Debug, PartialEq, Eq, Structural)]
pub enum Acquired {
    /// An image is ready to be drawn to.
    Image,
    /// The surface became invalid.
    Lost,
    /// The device has run out of memory.
    OutOfMemory,
    /// Any other failure, which passes by itself.
    Other,
}

/// One indexed, instanced draw call.
#[derive(Clone, Copy, Debug, PartialEq, Eq, Structural)]
pub struct DrawCall {
    pub index_count: u32,
    pub instance_count: u32,
}

/// What the host carries out for one frame, in the order of the fields.
#[derive(Debug)]
pub struct Frame {
    /// What the frame reports to the host.
    pub result: Result<(), RenderError>,
    /// The size to configure the surface with again, before anything else.
    pub reconfigure: Option<SurfaceSize>,
    /// The batch of draw instances that the frame draws.
    pub instances: Vec<InstanceRaw>,
    /// The bytes to write into the instance buffer, from offset zero.
    pub upload: Option<Vec<u8>>,
    /// The draw call to record in the frame's render pass.
    pub draw: Option<DrawCall>,
    /// Whether the recorded commands are submitted and the image presented.
    pub present: bool,
}

impl Frame {
    /// A frame on which nothing is uploaded, drawn or presented.
    pub open spec fn is_skipped(self) -> bool {
        self.instances@.len() == 0 && self.upload is None && self.draw is None && !self.present
    }

    /// Whether this frame presents its batch: it uploads the batch's bytes,
    /// which fit the instance buffer, draws the batch with one call over all
    /// six indices unless it is empty, and presents.
    pub open spec fn presents(self) -> bool {
        &&& self.result is Ok
        &&& self.reconfigure is None
        &&& self.upload matches Some(bytes)
        &&& bytes@.len() == INSTANCE_STRIDE * self.instances@.len()
        &&& bytes@.len() <= INSTANCE_BUFFER_SIZE
        &&& is_memory_of(bytes@, batch_words(self.instances@))
        &&& self.instances@.len() == 0 ==> self.draw is None
        &&& self.instances@.len() > 0 ==> self.draw == Some(
            DrawCall {
                index_count: QUAD_INDEX_COUNT,
                instance_count: self.instances@.len() as u32,
            },
        )
        &&& self.present
    }

    /// Whether this frame is the one that follows a failed acquisition while
    /// the surface has the size `size`.
    pub open spec fn recovers(self, failure: Acquired, size: SurfaceSize) -> bool {
        &&& self.is_skipped()
        &&& failure is Lost ==> self.result == Err::<(), RenderError>(RenderError::SurfaceLost)
            && self.reconfigure == Some(size)
        &&& failure is OutOfMemory ==> self.result == Err::<(), RenderError>(
            RenderError::OutOfMemory,
        ) && self.reconfigure is None
        &&& failure is Other ==> self.result is Ok && self.reconfigure is None
    }
}

/// The index of the surface format to configure with, among the formats that
/// the surface offers: the first one that is sRGB, and the very first one
/// where none is. `srgb[i]` says whether format `i` is sRGB.
pub fn choose_surface_format(srgb: &Vec<bool>) -> (index: usize)
    requires
        srgb@.len() > 0,
    ensures
        index < srgb@.len(),
        forall|j: int| 0 <= j < index ==> !srgb@[j],
        srgb@[index as int] || (index == 0 && forall|j: int| 0 <= j < srgb@.len() ==> !srgb@[j]),
{
    let mut i: usize = 0;
    while i < srgb.len()
        invariant
            i <= srgb@.len(),
            forall|j: int| 0 <= j < i ==> !srgb@[j],
        decreases srgb@.len() - i,
    {
        if srgb[i] {
            return i;
        }
        i = i + 1;
    }
    0
}

/// The instance buffer holds exactly `INSTANCE_CAPACITY` records.
pub proof fn lemma_buffer_holds_capacity()
    ensures
        INSTANCE_BUFFER_SIZE == INSTANCE_STRIDE * INSTANCE_CAPACITY,
{
}

/// The frame coordinator.
#[derive(Clone, Copy, Debug)]
pub struct Renderer {
    /// The size that the surface was last configured with.
    pub size: SurfaceSize,
}

impl Renderer {
    /// A coordinator for a surface that is configured with `size`.
    pub fn new(size: SurfaceSize) -> (renderer: Renderer)
        ensures
            renderer.size == size,
    {
        Renderer { size }
    }

    /// Handles a size-change notification. A size with both dimensions
    /// positive becomes the current one, and is returned for the host to
    /// configure the surface with. A size with a zero dimension changes
    /// nothing.
    pub fn resize(&mut self, new_size: SurfaceSize) -> (reconfigure: Option<SurfaceSize>)
        ensures
            new_size.is_drawable() ==> final(self).size == new_size && reconfigure == Some(
                new_size,
            ),
            !new_size.is_drawable() ==> final(self).size == old(self).size && reconfigure is None,
    {
        if new_size.width > 0 && new_size.height > 0 {
            self.size = new_size;
            Some(new_size)
        } else {
            None
        }
    }

    /// Offers a window event to the coordinator, which declines every event.
    pub fn input<E>(&mut self, _event: &E) -> (handled: bool)
        ensures
            !handled,
            final(self).size == old(self).size,
    {
        false
    }

    /// Decides the frame from how the acquisition went and from the batch to
    /// draw. With an image the batch is uploaded, drawn and presented; without
    /// one nothing is, and a lost surface is configured again with the
    /// current size.
    pub fn frame_for(&self, acquired: Acquired, instances: Vec<InstanceRaw>) -> (frame: Frame)
        requires
            instances@.len() <= INSTANCE_CAPACITY,
        ensures
            acquired is Image ==> frame.instances@ == instances@ && frame.presents(),
            !(acquired is Image) ==> frame.recovers(acquired, self.size),
    {
        match acquired {
            Acquired::Image => {
                let upload = instance_bytes(&instances);
                let count = instances.len();
                let draw = if count > 0 {
                    Some(DrawCall { index_count: QUAD_INDEX_COUNT, instance_count: count as u32 })
                } else {
                    None
                };
                Frame {
                    result: Ok(()),
                    reconfigure: None,
                    instances,
                    upload: Some(upload),
                    draw,
                    present: true,
                }
            },
            Acquired::Lost => Frame {
                result: Err(RenderError::SurfaceLost),
                reconfigure: Some(self.size),
                instances: Vec::new(),
                upload: None,
                draw: None,
                present: false,
            },
            Acquired::OutOfMemory => Frame {
                result: Err(RenderError::OutOfMemory),
                reconfigure: None,
                instances: Vec::new(),
                upload: None,
                draw: None,
                present: false,
            },
            Acquired::Other => Frame {
                result: Ok(()),
                reconfigure: None,
                instances: Vec::new(),
                upload: None,
                draw: None,
                present: false,
            },
        }
    }

    /// Runs one frame over `scene`, which it only reads. The batch is
    /// extracted only once an image has been acquired.
    ///
    /// `compose(transform)` is the host's arithmetic, as in
    /// `extract_instances`.
    pub fn render<F: Fn(Transform) -> Mat4>(
        &mut self,
        scene: &Scene,
        acquired: Acquired,
        compose: F,
    ) -> (frame: Frame)
        requires
            forall|t: Transform| call_requires(compose, (t,)),
        ensures
            final(self).size == old(self).size,
            acquired is Image ==> frame.presents() && is_batch_of(
                frame.instances@,
                frame_sources(scene.entities@, INSTANCE_CAPACITY as int),
                compose,
            ),
            !(acquired is Image) ==> frame.recovers(acquired, old(self).size),
    {
        let instances = match acquired {
            Acquired::Image => extract_instances(scene, INSTANCE_CAPACITY, compose),
            _ => Vec::new(),
        };
        self.frame_for(acquired, instances)
    }
}

} // verus!
