//! The chain of presentable images together with the size of the window as
//! it was last known.

use crate::surface::Extent2D;
use crate::swapchain::{
    AcquireError, AcquiredImage, Dimensions, Framebuffer, Generation, RecreateOutcome, Swapchain,
};
use vstd::prelude::*;

verus! {

/// The chain and the size it was last made for. Drawing reads it; a change
/// of the window's size writes it, and while it does nothing else looks.
#[derive(Debug, Clone, PartialEq, Eq)]
pub struct Core {
    pub swapchain: Swapchain,
    pub dimensions: Dimensions,
}

impl Core {
    /// The chain is whole, and the size that is kept is the size of the chain.
    pub open spec fn consistent(&self) -> bool {
        &&& self.swapchain@.complete()
        &&& self.dimensions.extent() == self.swapchain@.extent
    }

    /// The size that is kept after an attempt to make the chain anew: the
    /// size of the new generation where the attempt gave one, else the size
    /// from before.
    pub open spec fn dimensions_after(dimensions: Dimensions, next: Option<Generation>) -> Dimensions {
        match next {
            Some(generation) => Dimensions {
                width: generation.extent.width,
                height: generation.extent.height,
            },
            None => dimensions,
        }
    }

    /// Starts out with a chain, at the size the chain was made for.
    pub fn new(swapchain: Swapchain) -> (core: Core)
        ensures
            core.swapchain == swapchain,
            core.dimensions.extent() == swapchain@.extent,
            swapchain@.complete() ==> core.consistent(),
    {
        let dimensions = Dimensions {
            width: swapchain.extent.width,
            height: swapchain.extent.height,
        };
        Core { swapchain, dimensions }
    }

    /// Takes what came of asking the driver for the next image of the chain;
    /// see [`Swapchain::acquire_next_framebuffer`].
    pub fn acquire_next_framebuffer(
        &self,
        acquired: Result<AcquiredImage, AcquireError>,
    ) -> (r: Result<(usize, Framebuffer, u64), AcquireError>)
        ensures
            r == match acquired {
                Ok(image) => if image.index < self.swapchain@.framebuffers.len() {
                    Ok(
                        (
                            image.index,
                            self.swapchain@.framebuffers[image.index as int],
                            image.future,
                        ),
                    )
                } else {
                    Err(AcquireError::InvalidImageIndex)
                },
                Err(e) => Err(e),
            },
    {
        self.swapchain.acquire_next_framebuffer(acquired)
    }

    /// Takes what came of one attempt to make the chain anew for the
    /// window's present size. Where the attempt gave a new generation, it
    /// becomes the current one, the size that is kept becomes its size, and
    /// the generation it replaces is handed back to be released. Where the
    /// platform refused the size, nothing changes and nothing is handed
    /// back: the caller asks the window for its size again and repeats the
    /// attempt, as often as it takes.
    pub fn recreate_swapchain(&mut self, outcome: RecreateOutcome) -> (retired: Option<Swapchain>)
        ensures
            final(self).swapchain@ == old(self).swapchain@.refreshed(outcome.generation()),
            final(self).dimensions == Self::dimensions_after(
                old(self).dimensions,
                outcome.generation(),
            ),
            match retired {
                Some(previous) => old(self).swapchain@.replaced(outcome.generation()) == Some(
                    previous@,
                ),
                None => old(self).swapchain@.replaced(outcome.generation()) is None,
            },
            old(self).consistent() && (outcome.generation() matches Some(generation)
                ==> generation.complete()) ==> final(self).consistent(),
    {
        let size: Option<Extent2D> = match &outcome {
            RecreateOutcome::Created(next) => Some(next.extent),
            RecreateOutcome::UnsupportedDimensions => None,
        };
        let retired = self.swapchain.refresh(outcome);
        if let Some(extent) = size {
            self.dimensions = Dimensions { width: extent.width, height: extent.height };
        }
        retired
    }
}

} // verus!
