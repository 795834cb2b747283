use gfx_core::assembly::{Assembly, Internal, Part, Progress};
use gfx_core::error::GfxError;
use gfx_core::surface::Extent2D;
use gfx_core::swapchain::{Framebuffer, Swapchain};

const EXTENT: Extent2D = Extent2D { width: 800, height: 600 };

fn go_on(progress: Progress) -> Assembly {
    match progress {
        Progress::Make(assembly) => assembly,
        other => panic!("the making ended: {:?}", other),
    }
}

/// An assembly that has taken the chain 1, the views 2 and 3, the render pass
/// 4 and the depth buffer 5.
fn up_to_the_framebuffers() -> Assembly {
    let assembly = Assembly::new(EXTENT, None);
    let assembly = go_on(assembly.advance(Ok(vec![1])));
    let assembly = go_on(assembly.advance(Ok(vec![2, 3])));
    let assembly = go_on(assembly.advance(Ok(vec![4])));
    go_on(assembly.advance(Ok(vec![5])))
}

#[test]
fn parts_are_made_in_their_order() {
    let assembly = Assembly::new(EXTENT, None);
    assert_eq!(assembly.next, Part::Chain);
    assert_eq!(assembly.extent, EXTENT);
    let assembly = go_on(assembly.advance(Ok(vec![1])));
    assert_eq!(assembly.next, Part::ImageViews);
    assert_eq!(assembly.chain, 1);
    let assembly = go_on(assembly.advance(Ok(vec![2, 3])));
    assert_eq!(assembly.next, Part::RenderPass);
    assert_eq!(assembly.image_views, vec![2, 3]);
    let assembly = go_on(assembly.advance(Ok(vec![4])));
    assert_eq!(assembly.next, Part::DepthBuffer);
    assert_eq!(assembly.render_pass, 4);
    let assembly = go_on(assembly.advance(Ok(vec![5])));
    assert_eq!(assembly.next, Part::Framebuffers);
    assert_eq!(assembly.depth_buffer, 5);
    assert_eq!(
        assembly.advance(Ok(vec![6, 7])),
        Progress::Ready(Internal {
            swapchain: Swapchain {
                framebuffers: vec![
                    Framebuffer { handle: 6, color: 2, depth: 5, extent: EXTENT },
                    Framebuffer { handle: 7, color: 3, depth: 5, extent: EXTENT },
                ],
                depth_buffer: 5,
                images: vec![2, 3],
                id: 1,
                extent: EXTENT,
            },
            render_pass: 4,
        })
    );
}

#[test]
fn given_render_pass_is_used_and_none_is_made() {
    let assembly = Assembly::new(EXTENT, Some(40));
    let assembly = go_on(assembly.advance(Ok(vec![1])));
    let assembly = go_on(assembly.advance(Ok(vec![2])));
    assert_eq!(assembly.next, Part::DepthBuffer);
    let assembly = go_on(assembly.advance(Ok(vec![5])));
    assert_eq!(assembly.next, Part::Framebuffers);
    match assembly.advance(Ok(vec![6])) {
        Progress::Ready(done) => {
            assert_eq!(done.render_pass, 40);
            assert_eq!(done.swapchain, Swapchain::new(1, EXTENT, vec![2], 5, &vec![6]).unwrap());
        }
        other => panic!("not ready: {:?}", other),
    }
}

#[test]
fn refusal_releases_what_was_made_last_first() {
    assert_eq!(
        Assembly::new(EXTENT, None).advance(Err(-1)),
        Progress::Abandoned { error: GfxError::SwapchainCreationFailed(-1), release: vec![] }
    );
    let assembly = go_on(Assembly::new(EXTENT, None).advance(Ok(vec![1])));
    assert_eq!(
        assembly.advance(Err(-2)),
        Progress::Abandoned { error: GfxError::SwapchainCreationFailed(-2), release: vec![1] }
    );
    let assembly = go_on(Assembly::new(EXTENT, None).advance(Ok(vec![1])));
    let assembly = go_on(assembly.advance(Ok(vec![2, 3])));
    assert_eq!(
        assembly.advance(Err(-3)),
        Progress::Abandoned { error: GfxError::SwapchainCreationFailed(-3), release: vec![3, 2, 1] }
    );
    assert_eq!(
        up_to_the_framebuffers().advance(Err(-4)),
        Progress::Abandoned {
            error: GfxError::SwapchainCreationFailed(-4),
            release: vec![5, 4, 3, 2, 1],
        }
    );
}

#[test]
fn refusal_keeps_a_render_pass_that_was_given() {
    let assembly = Assembly::new(EXTENT, Some(40));
    let assembly = go_on(assembly.advance(Ok(vec![1])));
    let assembly = go_on(assembly.advance(Ok(vec![2, 3])));
    let assembly = go_on(assembly.advance(Ok(vec![5])));
    assert_eq!(
        assembly.advance(Err(-9)),
        Progress::Abandoned {
            error: GfxError::SwapchainCreationFailed(-9),
            release: vec![5, 3, 2, 1],
        }
    );
}

#[test]
fn parts_that_do_not_fit_are_released_with_the_rest() {
    assert_eq!(
        Assembly::new(EXTENT, None).advance(Ok(vec![1, 2])),
        Progress::Abandoned { error: GfxError::IncompleteGeneration, release: vec![2, 1] }
    );
    let assembly = go_on(Assembly::new(EXTENT, None).advance(Ok(vec![1])));
    assert_eq!(
        assembly.advance(Ok(vec![])),
        Progress::Abandoned { error: GfxError::IncompleteGeneration, release: vec![1] }
    );
    assert_eq!(
        up_to_the_framebuffers().advance(Ok(vec![6])),
        Progress::Abandoned {
            error: GfxError::IncompleteGeneration,
            release: vec![6, 5, 4, 3, 2, 1],
        }
    );
    assert_eq!(
        up_to_the_framebuffers().advance(Ok(vec![6, 7, 8])),
        Progress::Abandoned {
            error: GfxError::IncompleteGeneration,
            release: vec![8, 7, 6, 5, 4, 3, 2, 1],
        }
    );
}
