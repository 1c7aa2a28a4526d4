use vulkan_frames::swapchain::{
    per_image_resources_stale, ChainState, Extent2D, SurfaceCapabilities, SurfaceChain, SurfaceFormat, SwapchainError,
    SwapchainSupportDetails, ANY_EXTENT, PRESENT_MODE_FIFO, PRESENT_MODE_MAILBOX,
};

fn support(formats: Vec<SurfaceFormat>) -> SwapchainSupportDetails {
    SwapchainSupportDetails {
        capabilities: SurfaceCapabilities {
            min_image_count: 2,
            max_image_count: 4,
            current_extent: Extent2D { width: ANY_EXTENT, height: ANY_EXTENT },
            min_image_extent: Extent2D { width: 1, height: 1 },
            max_image_extent: Extent2D { width: 1920, height: 1080 },
        },
        formats,
        present_modes: vec![PRESENT_MODE_FIFO, PRESENT_MODE_MAILBOX],
    }
}

fn unorm() -> SurfaceFormat {
    SurfaceFormat { format: 37, color_space: 0 }
}

#[test]
fn chain_lifecycle() {
    let s = support(vec![unorm()]);
    let mut chain = SurfaceChain::new();
    assert_eq!(chain.state(), ChainState::NotCreated);
    assert_eq!(chain.properties(), None);
    let p = chain.create(&s, Extent2D { width: 800, height: 600 }).unwrap();
    assert_eq!(chain.state(), ChainState::Created);
    assert_eq!(chain.image_count(), 3);
    assert_eq!(p.extent, Extent2D { width: 800, height: 600 });
    assert_eq!(p.present_mode, PRESENT_MODE_MAILBOX);
    chain.mark_stale();
    assert_eq!(chain.state(), ChainState::Stale);
    let q = chain.rebuild(&s, Extent2D { width: 4000, height: 300 }).unwrap();
    assert_eq!(q.extent, Extent2D { width: 1920, height: 300 });
    assert_eq!(chain.state(), ChainState::Created);
    assert_eq!(chain.destroy(), Ok(()));
    assert_eq!(chain.state(), ChainState::Destroyed);
}

#[test]
fn rebuild_twice_is_idempotent() {
    let s = support(vec![unorm()]);
    let mut chain = SurfaceChain::new();
    chain.create(&s, Extent2D { width: 640, height: 480 }).unwrap();
    let first = chain.rebuild(&s, Extent2D { width: 640, height: 480 }).unwrap();
    let second = chain.rebuild(&s, Extent2D { width: 640, height: 480 }).unwrap();
    assert_eq!(first, second);
    assert_eq!(chain.properties(), Some(second));
}

#[test]
fn chain_errors() {
    let s = support(vec![unorm()]);
    let empty = support(vec![]);
    let mut chain = SurfaceChain::new();
    let e = Extent2D { width: 10, height: 10 };
    assert_eq!(chain.rebuild(&s, e), Err(SwapchainError::NotCreated));
    assert_eq!(chain.destroy(), Err(SwapchainError::NotCreated));
    assert_eq!(chain.create(&empty, e), Err(SwapchainError::NoSurfaceFormat));
    assert_eq!(chain.state(), ChainState::NotCreated);
    chain.create(&s, e).unwrap();
    assert_eq!(chain.create(&s, e), Err(SwapchainError::AlreadyCreated));
    assert_eq!(chain.rebuild(&empty, e), Err(SwapchainError::NoSurfaceFormat));
    assert_eq!(chain.state(), ChainState::Created);
    chain.destroy().unwrap();
    assert_eq!(chain.rebuild(&s, e), Err(SwapchainError::Destroyed));
    assert_eq!(chain.destroy(), Err(SwapchainError::Destroyed));
    chain.mark_stale();
    assert_eq!(chain.state(), ChainState::Destroyed);
}

#[test]
fn per_image_resources_follow_the_image_count() {
    assert!(!per_image_resources_stale(3, 3));
    assert!(per_image_resources_stale(3, 2));
    assert!(per_image_resources_stale(0, 3));
}
