//! Putting a generation of the chain together, part by part.
//!
//! Each part is made by the driver and needs the parts before it: the chain,
//! the views of its images, the render pass, the depth buffer, and last the
//! framebuffers. When the driver fails to make a part, the parts made so far
//! are handed back to be released, the last made first, so that nothing half
//! built is left behind and no generation is handed out that is not whole.

use crate::error::GfxError;
use crate::surface::Extent2D;
use crate::swapchain::{Framebuffer, Generation, Swapchain};
use vstd::prelude::*;

verus! {

/// The parts of a generation, in the order in which they are made.
#[derive(Debug, Clone, Copy, PartialEq, Eq, Structural)]
pub enum Part {
    Chain,
    ImageViews,
    RenderPass,
    DepthBuffer,
    Framebuffers,
}

/// A generation in the making: the parts made so far, and the part to make next.
#[derive(Debug, Clone, PartialEq, Eq)]
pub struct Assembly {
    pub extent: Extent2D,
    /// The part that is to be made next. The fields of the parts that come
    /// before it are filled in; the others mean nothing yet.
    pub next: Part,
    pub chain: u64,
    pub image_views: Vec<u64>,
    pub render_pass: u64,
    /// Whether the render pass is made for this generation. A chain that is
    /// made anew keeps the render pass it had, and does not release it when
    /// the making fails.
    pub owns_render_pass: bool,
    pub depth_buffer: u64,
}

/// A finished generation, with the render pass its framebuffers were made for.
#[derive(Debug, Clone, PartialEq, Eq)]
pub struct Internal {
    pub swapchain: Swapchain,
    pub render_pass: u64,
}

/// What comes of handing a part to an assembly.
#[derive(Debug, Clone, PartialEq, Eq)]
pub enum Progress {
    /// The part was taken; the assembly says which part to make next.
    Make(Assembly),
    /// The last part was taken: the generation is whole.
    Ready(Internal),
    /// The making has failed. The handles are those of all that was made,
    /// in the order in which they are to be released.
    Abandoned { error: GfxError, release: Vec<u64> },
}

impl Assembly {
    /// The handles of what has been made so far, in the order of making. A
    /// render pass that was there before is not among them.
    pub open spec fn made(self) -> Seq<u64> {
        let render_pass = if self.owns_render_pass {
            seq![self.render_pass]
        } else {
            Seq::empty()
        };
        match self.next {
            Part::Chain => Seq::empty(),
            Part::ImageViews => seq![self.chain],
            Part::RenderPass => seq![self.chain] + self.image_views@,
            Part::DepthBuffer => seq![self.chain] + self.image_views@ + render_pass,
            Part::Framebuffers => seq![self.chain] + self.image_views@ + render_pass + seq![
                self.depth_buffer,
            ],
        }
    }

    /// Whether `handles` can be the part that is made next: one view at least
    /// and one framebuffer for each view, and one handle for every other part.
    pub open spec fn accepts(self, handles: Seq<u64>) -> bool {
        match self.next {
            Part::ImageViews => handles.len() >= 1,
            Part::Framebuffers => self.image_views@.len() >= 1 && handles.len()
                == self.image_views@.len(),
            _ => handles.len() == 1,
        }
    }

    /// The part that is made after the next one; the render pass is passed
    /// over where there is one already.
    pub open spec fn part_after_next(self) -> Part {
        match self.next {
            Part::Chain => Part::ImageViews,
            Part::ImageViews => if self.owns_render_pass {
                Part::RenderPass
            } else {
                Part::DepthBuffer
            },
            Part::RenderPass => Part::DepthBuffer,
            _ => Part::Framebuffers,
        }
    }

    /// The assembly `self` is `before` with `handles` taken as its next part.
    pub open spec fn follows(self, before: Assembly, handles: Seq<u64>) -> bool {
        &&& self.extent == before.extent
        &&& self.owns_render_pass == (before.owns_render_pass || before.next is RenderPass)
        &&& self.next == before.part_after_next()
        &&& self.chain == if before.next is Chain {
            handles[0]
        } else {
            before.chain
        }
        &&& self.image_views@ == if before.next is ImageViews {
            handles
        } else {
            before.image_views@
        }
        &&& self.render_pass == if before.next is RenderPass {
            handles[0]
        } else {
            before.render_pass
        }
        &&& self.depth_buffer == if before.next is DepthBuffer {
            handles[0]
        } else {
            before.depth_buffer
        }
    }

    /// The generation that the parts make up when `framebuffers` is taken as
    /// the last of them.
    pub open spec fn finished(self, framebuffers: Seq<u64>) -> Generation {
        Generation {
            extent: self.extent,
            images: self.image_views@,
            depth_buffer: self.depth_buffer,
            framebuffers: Seq::new(
                framebuffers.len(),
                |i: int|
                    Framebuffer {
                        handle: framebuffers[i],
                        color: self.image_views@[i],
                        depth: self.depth_buffer,
                        extent: self.extent,
                    },
            ),
            chain: self.chain,
        }
    }

    /// Begins a generation of size `extent`, with nothing made yet. With a
    /// render pass given, as when a chain is made anew, that one is used and
    /// none is made.
    pub fn new(extent: Extent2D, render_pass: Option<u64>) -> (r: Assembly)
        ensures
            r.extent == extent,
            r.next is Chain,
            r.made() == Seq::<u64>::empty(),
            r.owns_render_pass == (render_pass is None),
            render_pass matches Some(handle) ==> r.render_pass == handle,
    {
        let (render_pass, owns_render_pass) = match render_pass {
            Some(handle) => (handle, false),
            None => (0, true),
        };
        Assembly {
            extent,
            next: Part::Chain,
            chain: 0,
            image_views: Vec::new(),
            render_pass,
            owns_render_pass,
            depth_buffer: 0,
        }
    }

    /// Takes what came of making the next part: its handles, or the code
    /// with which the driver refused.
    ///
    /// Handles that fit the part are taken, and the assembly goes on to the
    /// part after, or is done when they were the framebuffers. A refusal, or
    /// handles that do not fit, end the making: everything made so far is
    /// handed back for release, the last made first, with the handles that
    /// did not fit before all others.
    pub fn advance(self, made: Result<Vec<u64>, i32>) -> (r: Progress)
        ensures
            match r {
                Progress::Make(assembly) => {
                    &&& made matches Ok(handles)
                    &&& self.accepts(handles@)
                    &&& !(self.next is Framebuffers)
                    &&& assembly.follows(self, handles@)
                    &&& assembly.made() == self.made() + handles@
                },
                Progress::Ready(done) => {
                    &&& made matches Ok(handles)
                    &&& self.accepts(handles@)
                    &&& self.next is Framebuffers
                    &&& done.swapchain@ == self.finished(handles@)
                    &&& done.swapchain@.complete()
                    &&& done.render_pass == self.render_pass
                },
                Progress::Abandoned { error, release } => match made {
                    Ok(handles) => {
                        &&& !self.accepts(handles@)
                        &&& error is IncompleteGeneration
                        &&& release@ == (self.made() + handles@).reverse()
                    },
                    Err(code) => {
                        &&& error == GfxError::SwapchainCreationFailed(code)
                        &&& release@ == self.made().reverse()
                    },
                },
            },
    {
        let mut built = self.made_handles();
        let handles = match made {
            Ok(handles) => handles,
            Err(code) => {
                return Progress::Abandoned {
                    error: GfxError::SwapchainCreationFailed(code),
                    release: reversed(&built),
                };
            },
        };
        let fits = match self.next {
            Part::ImageViews => handles.len() >= 1,
            Part::Framebuffers => self.image_views.len() >= 1 && handles.len()
                == self.image_views.len(),
            _ => handles.len() == 1,
        };
        if !fits {
            let mut handles = handles;
            built.append(&mut handles);
            return Progress::Abandoned {
                error: GfxError::IncompleteGeneration,
                release: reversed(&built),
            };
        }
        let ghost before = self;
        match self.next {
            Part::Chain => {
                let assembly = Assembly { next: Part::ImageViews, chain: handles[0], ..self };
                assert(assembly.made() =~= before.made() + handles@);
                Progress::Make(assembly)
            },
            Part::ImageViews => {
                let next = if self.owns_render_pass {
                    Part::RenderPass
                } else {
                    Part::DepthBuffer
                };
                let ghost taken = handles@;
                let assembly = Assembly { next, image_views: handles, ..self };
                assert(assembly.made() =~= before.made() + taken);
                Progress::Make(assembly)
            },
            Part::RenderPass => {
                let assembly = Assembly {
                    next: Part::DepthBuffer,
                    render_pass: handles[0],
                    owns_render_pass: true,
                    ..self
                };
                assert(assembly.made() =~= before.made() + handles@);
                Progress::Make(assembly)
            },
            Part::DepthBuffer => {
                let assembly = Assembly {
                    next: Part::Framebuffers,
                    depth_buffer: handles[0],
                    ..self
                };
                assert(assembly.made() =~= before.made() + handles@);
                Progress::Make(assembly)
            },
            Part::Framebuffers => {
                let ghost whole = self.finished(handles@);
                match Swapchain::new(
                    self.chain,
                    self.extent,
                    self.image_views,
                    self.depth_buffer,
                    &handles,
                ) {
                    Ok(swapchain) => {
                        assert(swapchain@.framebuffers =~= whole.framebuffers);
                        Progress::Ready(Internal { swapchain, render_pass: self.render_pass })
                    },
                    Err(_) => {
                        let mut handles = handles;
                        built.append(&mut handles);
                        Progress::Abandoned {
                            error: GfxError::IncompleteGeneration,
                            release: reversed(&built),
                        }
                    },
                }
            },
        }
    }

    /// The handles of what has been made so far, in the order of making.
    fn made_handles(&self) -> (r: Vec<u64>)
        ensures
            r@ == self.made(),
    {
        let mut built: Vec<u64> = Vec::new();
        if let Part::Chain = self.next {
            return built;
        }
        built.push(self.chain);
        if let Part::ImageViews = self.next {
            return built;
        }
        let mut i: usize = 0;
        while i < self.image_views.len()
            invariant
                i <= self.image_views.len(),
                built@ == seq![self.chain] + self.image_views@.take(i as int),
            decreases self.image_views.len() - i,
        {
            built.push(self.image_views[i]);
            assert(self.image_views@.take(i + 1) =~= self.image_views@.take(i as int).push(
                self.image_views@[i as int],
            ));
            i += 1;
        }
        assert(self.image_views@.take(i as int) =~= self.image_views@);
        if let Part::RenderPass = self.next {
            return built;
        }
        if self.owns_render_pass {
            built.push(self.render_pass);
        }
        if let Part::DepthBuffer = self.next {
            return built;
        }
        built.push(self.depth_buffer);
        built
    }
}

/// The handles of `list`, last first.
fn reversed(list: &Vec<u64>) -> (r: Vec<u64>)
    ensures
        r@ == list@.reverse(),
{
    let mut out: Vec<u64> = Vec::new();
    let mut left: usize = list.len();
    while left > 0
        invariant
            left <= list.len(),
            out.len() == list.len() - left,
            forall|j: int| 0 <= j < out.len() ==> out@[j] == list@[list.len() - 1 - j],
        decreases left,
    {
        left -= 1;
        out.push(list[left]);
    }
    out
}

} // verus!
