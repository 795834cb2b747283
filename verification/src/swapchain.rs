//! One generation of the chain of presentable images, and its replacement by
//! the next when the surface changes size.
//!
//! A generation is the chain with its images, the depth buffer and the
//! framebuffers that were made for it. It is replaced whole or not at all:
//! whoever looks at the chain sees the parts of one generation, never a
//! framebuffer of one beside the depth buffer of another.

use crate::error::GfxError;
use crate::surface::Extent2D;
use vstd::prelude::*;

verus! {

/// The size of the window's drawable area as it was last known.
#[derive(Debug, Clone, Copy, PartialEq, Eq, Structural)]
pub struct Dimensions {
    pub width: u32,
    pub height: u32,
}

impl Dimensions {
    /// The same size, as the size of an image.
    pub open spec fn extent(self) -> Extent2D {
        Extent2D { width: self.width, height: self.height }
    }
}

/// The framebuffer of one image of the chain, with what it binds.
#[derive(Debug, Clone, Copy, PartialEq, Eq)]
pub struct Framebuffer {
    pub handle: u64,
    /// The view of the image that is drawn to.
    pub color: u64,
    /// The depth buffer that is drawn to.
    pub depth: u64,
    pub extent: Extent2D,
}

/// Why no image could be had from the chain.
#[derive(Debug, Clone, Copy, PartialEq, Eq, Structural)]
pub enum AcquireError {
    /// The chain no longer fits the surface and has to be made anew.
    OutOfDate,
    /// No image came free within the time allowed.
    Timeout,
    /// No image is free at the moment.
    NotReady,
    SurfaceLost,
    DeviceLost,
    OutOfMemory,
    /// The driver named an image that the chain does not have.
    InvalidImageIndex,
}

/// An image that the driver has handed out, and the signal that tells when
/// it can be written to.
#[derive(Debug, Clone, Copy, PartialEq, Eq)]
pub struct AcquiredImage {
    pub index: usize,
    pub future: u64,
}

/// A generation as a value: what its parts are, apart from where they are stored.
pub struct Generation {
    pub extent: Extent2D,
    pub images: Seq<u64>,
    pub depth_buffer: u64,
    pub framebuffers: Seq<Framebuffer>,
    pub chain: u64,
}

impl Generation {
    /// The generation is whole: it has an image, each image has its
    /// framebuffer, and each framebuffer binds its image and the depth buffer
    /// of this generation, at this generation's size.
    pub open spec fn complete(self) -> bool {
        &&& self.images.len() >= 1
        &&& self.framebuffers.len() == self.images.len()
        &&& forall|i: int|
            0 <= i < self.framebuffers.len() ==> {
                &&& (#[trigger] self.framebuffers[i]).color == self.images[i]
                &&& self.framebuffers[i].depth == self.depth_buffer
                &&& self.framebuffers[i].extent == self.extent
            }
    }

    /// The handles of the parts, in the order in which the parts are made:
    /// the chain, the views of its images, the depth buffer, the framebuffers.
    pub open spec fn parts(self) -> Seq<u64> {
        seq![self.chain] + self.images + seq![self.depth_buffer] + self.framebuffers.map_values(
            |framebuffer: Framebuffer| framebuffer.handle,
        )
    }

    /// The generation that is current after an attempt to make a new one:
    /// the new one where the attempt gave one, else this one.
    pub open spec fn refreshed(self, next: Option<Generation>) -> Generation {
        match next {
            Some(generation) => generation,
            None => self,
        }
    }

    /// The generation that is handed back for release after an attempt to
    /// make a new one: this one, whole, where the attempt gave a new one, and
    /// none where it did not.
    pub open spec fn replaced(self, next: Option<Generation>) -> Option<Generation> {
        match next {
            Some(_) => Some(self),
            None => None,
        }
    }

    /// The generation that is current after a run of attempts, of which the
    /// first to give a new generation ends the run.
    pub open spec fn retried(self, attempts: Seq<Option<Generation>>) -> Generation
        decreases attempts.len(),
    {
        if attempts.len() == 0 {
            self
        } else {
            match attempts[0] {
                Some(generation) => generation,
                None => self.retried(attempts.drop_first()),
            }
        }
    }
}

/// How many of `attempts` are made before the run ends: all up to and with
/// the first that gives a new generation.
pub open spec fn attempts_made(attempts: Seq<Option<Generation>>) -> nat
    decreases attempts.len(),
{
    if attempts.len() == 0 {
        0
    } else if attempts[0] is Some {
        1
    } else {
        1 + attempts_made(attempts.drop_first())
    }
}

/// The chain of presentable images in its current generation.
#[derive(Debug, Clone, PartialEq, Eq)]
pub struct Swapchain {
    /// One framebuffer for each image, in the order of the images.
    pub framebuffers: Vec<Framebuffer>,
    pub depth_buffer: u64,
    /// The views of the images of the chain.
    pub images: Vec<u64>,
    pub id: u64,
    pub extent: Extent2D,
}

impl View for Swapchain {
    type V = Generation;

    open spec fn view(&self) -> Generation {
        Generation {
            extent: self.extent,
            images: self.images@,
            depth_buffer: self.depth_buffer,
            framebuffers: self.framebuffers@,
            chain: self.id,
        }
    }
}

/// What came of an attempt to make the chain anew at a given size.
#[derive(Debug, Clone, PartialEq, Eq)]
pub enum RecreateOutcome {
    /// The new generation, whole.
    Created(Swapchain),
    /// The platform does not take the size at the moment, as happens while
    /// the user is dragging the window's edge. The size is to be asked for
    /// again and the attempt repeated.
    UnsupportedDimensions,
}

impl RecreateOutcome {
    /// The generation that the attempt gave, if it gave one.
    pub open spec fn generation(self) -> Option<Generation> {
        match self {
            RecreateOutcome::Created(next) => Some(next@),
            RecreateOutcome::UnsupportedDimensions => None,
        }
    }
}

impl Swapchain {
    /// Puts a generation together from its parts: the chain `id` of size
    /// `extent`, the views of its images, the depth buffer, and the handles of
    /// the framebuffers that were made for the images, in the order of the
    /// images. Fails when there is no image, or not one framebuffer for each.
    pub fn new(
        id: u64,
        extent: Extent2D,
        images: Vec<u64>,
        depth_buffer: u64,
        framebuffers: &Vec<u64>,
    ) -> (r: Result<Swapchain, GfxError>)
        ensures
            match r {
                Ok(chain) => {
                    &&& images.len() >= 1 && framebuffers.len() == images.len()
                    &&& chain@.complete()
                    &&& chain@.chain == id
                    &&& chain@.extent == extent
                    &&& chain@.images == images@
                    &&& chain@.depth_buffer == depth_buffer
                    &&& forall|i: int|
                        0 <= i < framebuffers.len() ==> (#[trigger] chain@.framebuffers[i]).handle
                            == framebuffers@[i]
                },
                Err(e) => {
                    &&& e is IncompleteGeneration
                    &&& images.len() == 0 || framebuffers.len() != images.len()
                },
            },
    {
        if images.len() == 0 || framebuffers.len() != images.len() {
            return Err(GfxError::IncompleteGeneration);
        }
        let mut bound: Vec<Framebuffer> = Vec::new();
        let mut i: usize = 0;
        while i < images.len()
            invariant
                i <= images.len(),
                framebuffers.len() == images.len(),
                bound.len() == i,
                forall|j: int|
                    0 <= j < i ==> {
                        &&& (#[trigger] bound@[j]).handle == framebuffers@[j]
                        &&& bound@[j].color == images@[j]
                        &&& bound@[j].depth == depth_buffer
                        &&& bound@[j].extent == extent
                    },
            decreases images.len() - i,
        {
            bound.push(
                Framebuffer { handle: framebuffers[i], color: images[i], depth: depth_buffer, extent },
            );
            i += 1;
        }
        Ok(Swapchain { framebuffers: bound, depth_buffer, images, id, extent })
    }

    /// The handles of the parts in the order in which they are to be
    /// released: the other way round from the order in which they were made,
    /// so that nothing is released while a part made after it still uses it.
    pub fn release_order(&self) -> (r: Vec<u64>)
        ensures
            r@ == self@.parts().reverse(),
    {
        let ghost parts = self@.parts();
        let mut order: Vec<u64> = Vec::new();
        let mut left: usize = self.framebuffers.len();
        while left > 0
            invariant
                left <= self.framebuffers.len(),
                order.len() == self.framebuffers.len() - left,
                forall|j: int|
                    0 <= j < order.len() ==> order@[j] == self.framebuffers@[
                        self.framebuffers.len() - 1 - j
                    ].handle,
            decreases left,
        {
            left -= 1;
            order.push(self.framebuffers[left].handle);
        }
        order.push(self.depth_buffer);
        let mut left: usize = self.images.len();
        while left > 0
            invariant
                left <= self.images.len(),
                order.len() == self.framebuffers.len() + 1 + (self.images.len() - left),
                forall|j: int|
                    0 <= j < self.framebuffers.len() ==> order@[j] == self.framebuffers@[
                        self.framebuffers.len() - 1 - j
                    ].handle,
                order@[self.framebuffers.len() as int] == self.depth_buffer,
                forall|j: int|
                    self.framebuffers.len() < j < order.len() ==> order@[j] == self.images@[
                        self.images.len() - (j - self.framebuffers.len())
                    ],
            decreases left,
        {
            left -= 1;
            order.push(self.images[left]);
        }
        order.push(self.id);
        assert(order@ =~= parts.reverse());
        order
    }

    /// Takes what came of asking the driver for the next image. For an image
    /// of the chain, gives its index, the framebuffer that was made for it,
    /// and the signal that comes with it. An error of the driver is passed on
    /// as it is, so that a chain out of date can be told from an image not
    /// yet free.
    pub fn acquire_next_framebuffer(
        &self,
        acquired: Result<AcquiredImage, AcquireError>,
    ) -> (r: Result<(usize, Framebuffer, u64), AcquireError>)
        ensures
            r == match acquired {
                Ok(image) => if image.index < self@.framebuffers.len() {
                    Ok((image.index, self@.framebuffers[image.index as int], image.future))
                } else {
                    Err(AcquireError::InvalidImageIndex)
                },
                Err(e) => Err(e),
            },
    {
        match acquired {
            Ok(image) => if image.index < self.framebuffers.len() {
                Ok((image.index, self.framebuffers[image.index], image.future))
            } else {
                Err(AcquireError::InvalidImageIndex)
            },
            Err(e) => Err(e),
        }
    }

    /// Takes what came of an attempt to make the chain anew. A new generation
    /// takes the place of the current one in one step, and the one it
    /// replaces is handed back whole, for its resources to be released. Where
    /// the attempt gave none, the chain stays as it is and nothing is handed
    /// back: the attempt has to be repeated.
    pub fn refresh(&mut self, outcome: RecreateOutcome) -> (retired: Option<Swapchain>)
        ensures
            final(self)@ == old(self)@.refreshed(outcome.generation()),
            match retired {
                Some(previous) => old(self)@.replaced(outcome.generation()) == Some(previous@),
                None => old(self)@.replaced(outcome.generation()) is None,
            },
    {
        match outcome {
            RecreateOutcome::Created(next) => {
                let mut generation = next;
                std::mem::swap(self, &mut generation);
                Some(generation)
            },
            RecreateOutcome::UnsupportedDimensions => None,
        }
    }
}

/// After an attempt to make the chain anew, the current generation is either
/// the one from before or the new one, with each of its parts: no part of one
/// stands beside a part of the other. A chain that was whole stays whole.
pub proof fn lemma_generation_replaced_whole(current: Generation, next: Option<Generation>)
    requires
        current.complete(),
        next matches Some(generation) ==> generation.complete(),
    ensures
        current.refreshed(next) == current || next == Some(current.refreshed(next)),
        current.refreshed(next).complete(),
        forall|i: int|
            0 <= i < current.refreshed(next).framebuffers.len() ==> {
                &&& (#[trigger] current.refreshed(next).framebuffers[i]).depth
                    == current.refreshed(next).depth_buffer
                &&& current.refreshed(next).framebuffers[i].color == current.refreshed(
                    next,
                ).images[i]
            },
{
}

/// Making the chain anew twice at the same size leaves a chain of that size
/// both times. Each time the generation from before is handed back whole for
/// release, so that after the second time nothing of the first new
/// generation is current: the second has replaced it.
pub proof fn lemma_recreate_twice(
    current: Generation,
    first: Generation,
    second: Generation,
    extent: Extent2D,
)
    requires
        first.extent == extent,
        second.extent == extent,
    ensures
        current.refreshed(Some(first)).extent == extent,
        current.refreshed(Some(first)).refreshed(Some(second)).extent == extent,
        current.refreshed(Some(first)).refreshed(Some(second)) == second,
        current.replaced(Some(first)) == Some(current),
        current.refreshed(Some(first)).replaced(Some(second)) == Some(first),
{
}

/// However often the platform refuses the size before it takes it, the run
/// of attempts ends with the first that succeeds, and the generation of that
/// attempt is then the current one.
pub proof fn lemma_retry_until_created(current: Generation, refusals: nat, created: Generation)
    ensures
        current.retried(Seq::new(refusals, |i: int| None::<Generation>).push(Some(created)))
            == created,
        attempts_made(Seq::new(refusals, |i: int| None::<Generation>).push(Some(created)))
            == refusals + 1,
    decreases refusals,
{
    let attempts = Seq::new(refusals, |i: int| None::<Generation>).push(Some(created));
    if refusals > 0 {
        let fewer = (refusals - 1) as nat;
        assert(attempts.drop_first() =~= Seq::new(fewer, |i: int| None::<Generation>).push(
            Some(created),
        ));
        lemma_retry_until_created(current, fewer, created);
    }
}

} // verus!
