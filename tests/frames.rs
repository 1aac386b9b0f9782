use ember_lily::adapter::{Adapter, DeviceExtension, PhysicalDeviceCandidate, QueueFamilyIndices, QueueFamilyProperties};
use ember_lily::instance::{InstanceLifetime, TeardownError, TeardownStep};
use ember_lily::renderer::{
    recovery_action, ClearColor, FrameError, FramePlan, Pipeline, RecoveryAction, Renderer,
};
use ember_lily::surface::{
    ColorSpace, Extent2D, Format, PresentMode, SurfaceCapabilities, SurfaceFormat,
    SwapChainSupportDetail, UNDEFINED_EXTENT,
};
use ember_lily::swapchain::{ConfigureError, SharingMode, SurfaceError, SwapChain, SwapChainState};

/// A backend that hands out images in turn and fails one chosen frame's acquire.
struct MockBackend {
    frame: u32,
    failing_frame: u32,
    failure: SurfaceError,
    image_count: u32,
    submitted: Vec<FramePlan>,
    presented: Vec<u32>,
}

impl MockBackend {
    fn new(image_count: u32, failing_frame: u32, failure: SurfaceError) -> Self {
        MockBackend { frame: 0, failing_frame, failure, image_count, submitted: vec![], presented: vec![] }
    }

    fn acquire_image(&mut self) -> Result<u32, SurfaceError> {
        self.frame += 1;
        if self.frame == self.failing_frame {
            Err(self.failure)
        } else {
            Ok(self.frame % self.image_count)
        }
    }

    fn submit(&mut self, plan: &FramePlan) {
        self.submitted.push(*plan);
    }

    fn present(&mut self, image_index: u32) -> Result<(), SurfaceError> {
        self.presented.push(image_index);
        Ok(())
    }

    /// Runs one frame the way the event loop does.
    fn run_frame(&mut self, renderer: &Renderer, swapchain: &mut SwapChain) -> Result<(), FrameError> {
        renderer.begin_frame(swapchain)?;
        let acquired = self.acquire_image();
        let plan = renderer.render(swapchain, acquired)?;
        self.submit(&plan);
        let presented = self.present(plan.image_index);
        renderer.finish_frame(swapchain, presented)
    }
}

fn support(current: Extent2D) -> SwapChainSupportDetail {
    SwapChainSupportDetail {
        capabilities: SurfaceCapabilities {
            min_image_count: 1,
            max_image_count: 3,
            current_extent: current,
            min_image_extent: Extent2D { width: 1, height: 1 },
            max_image_extent: Extent2D { width: 4096, height: 4096 },
            current_transform: 1,
        },
        formats: vec![
            SurfaceFormat { format: Format::B8g8r8a8Srgb, color_space: ColorSpace::SrgbNonlinear },
            SurfaceFormat { format: Format::B8g8r8a8Unorm, color_space: ColorSpace::SrgbNonlinear },
        ],
        present_modes: vec![PresentMode::Fifo],
    }
}

fn scenario_adapter() -> Adapter {
    let device = PhysicalDeviceCandidate {
        queue_families: vec![QueueFamilyProperties { queue_count: 1, graphics: true, present: true }],
        extensions: vec!["VK_KHR_swapchain".to_string()],
        swapchain_support: support(Extent2D { width: 800, height: 600 }),
    };
    Adapter::new(&vec![device], &DeviceExtension::required()).unwrap()
}

fn configured(adapter: &Adapter) -> SwapChain {
    let mut swapchain = SwapChain::new();
    let rebuilt = swapchain.configure(
        &support(Extent2D { width: 800, height: 600 }),
        &adapter.queue_family_indices(),
        Extent2D { width: 800, height: 600 },
    );
    assert_eq!(rebuilt, Ok(true));
    swapchain
}

fn renderer_for(swapchain: &SwapChain) -> Renderer {
    let clear = ClearColor { r: 100, g: 200, b: 600, a: 1000 };
    Renderer::new(clear, Pipeline::for_config(&swapchain.config().unwrap(), 3))
}

#[test]
fn scenario_initial_configuration() {
    let adapter = scenario_adapter();
    assert_eq!(adapter.queue_families(), vec![0]);
    let swapchain = configured(&adapter);
    let config = swapchain.config().unwrap();
    assert_eq!(config.surface_format.format, Format::B8g8r8a8Srgb);
    assert_eq!(config.present_mode, PresentMode::Fifo);
    assert_eq!(config.image_count, 2);
    assert_eq!(config.extent, Extent2D { width: 800, height: 600 });
    assert_eq!(config.sharing_mode, SharingMode::Exclusive);
    assert_eq!(swapchain.state(), SwapChainState::Ready);
}

#[test]
fn scenario_resize_to_zero_width_keeps_configuration() {
    let adapter = scenario_adapter();
    let mut swapchain = configured(&adapter);
    let before = swapchain.config();
    let rebuilt = swapchain.configure(
        &support(Extent2D { width: 0, height: 600 }),
        &adapter.queue_family_indices(),
        Extent2D { width: 0, height: 600 },
    );
    assert_eq!(rebuilt, Ok(false));
    assert_eq!(swapchain.config(), before);
    assert_eq!(swapchain.state(), SwapChainState::Ready);
}

#[test]
fn zero_height_before_first_configure_stays_unconfigured() {
    let mut swapchain = SwapChain::new();
    let q = QueueFamilyIndices { graphics_family: Some(0), present_family: Some(0) };
    assert_eq!(swapchain.configure(&support(Extent2D { width: 800, height: 0 }), &q, Extent2D { width: 800, height: 0 }), Ok(false));
    assert_eq!(swapchain.state(), SwapChainState::Unconfigured);
    assert_eq!(swapchain.config(), None);
}

#[test]
fn scenario_outdated_frame_then_reconfigure() {
    let adapter = scenario_adapter();
    let mut swapchain = configured(&adapter);
    let renderer = renderer_for(&swapchain);
    let mut backend = MockBackend::new(2, 5, SurfaceError::Outdated);
    for _ in 0..4 {
        assert_eq!(backend.run_frame(&renderer, &mut swapchain), Ok(()));
    }
    assert_eq!(backend.submitted.len(), 4);
    assert_eq!(backend.presented.len(), 4);

    let err = backend.run_frame(&renderer, &mut swapchain);
    assert_eq!(err, Err(FrameError::Surface(SurfaceError::Outdated)));
    assert_eq!(backend.submitted.len(), 4);
    assert_eq!(backend.presented.len(), 4);
    assert_eq!(swapchain.state(), SwapChainState::Invalid);
    assert_eq!(recovery_action(err.unwrap_err()), RecoveryAction::Reconfigure);

    let window = Extent2D { width: 1024, height: 768 };
    let rebuilt = swapchain.configure(&support(window), &adapter.queue_family_indices(), window);
    assert_eq!(rebuilt, Ok(true));
    assert_eq!(backend.run_frame(&renderer, &mut swapchain), Ok(()));
    assert_eq!(backend.frame, 6);
    assert_eq!(backend.submitted.len(), 5);
    assert_eq!(backend.presented, vec![1, 0, 1, 0, 0]);
    assert_eq!(swapchain.config().unwrap().extent, window);
    assert_eq!(swapchain.state(), SwapChainState::Ready);
}

#[test]
fn frame_plan_clears_and_draws_pipeline() {
    let adapter = scenario_adapter();
    let mut swapchain = configured(&adapter);
    let renderer = renderer_for(&swapchain);
    let plan = renderer.render(&mut swapchain, Ok(1)).unwrap();
    assert_eq!(plan.image_index, 1);
    assert_eq!(plan.clear_color, ClearColor { r: 100, g: 200, b: 600, a: 1000 });
    assert_eq!(plan.pipeline, Pipeline { target_format: Format::B8g8r8a8Srgb, vertex_count: 3 });
    assert_eq!(plan.instance_count, 1);
}

#[test]
fn timeout_drops_frame_without_invalidating() {
    let adapter = scenario_adapter();
    let mut swapchain = configured(&adapter);
    let renderer = renderer_for(&swapchain);
    let mut backend = MockBackend::new(3, 1, SurfaceError::Timeout);
    assert_eq!(backend.run_frame(&renderer, &mut swapchain), Err(FrameError::Surface(SurfaceError::Timeout)));
    assert!(backend.presented.is_empty());
    assert_eq!(swapchain.state(), SwapChainState::Ready);
    assert_eq!(backend.run_frame(&renderer, &mut swapchain), Ok(()));
}

#[test]
fn lost_surface_invalidates_and_asks_for_new_surface() {
    let adapter = scenario_adapter();
    let mut swapchain = configured(&adapter);
    let renderer = renderer_for(&swapchain);
    let err = renderer.render(&mut swapchain, Err(SurfaceError::Lost)).unwrap_err();
    assert_eq!(err, FrameError::Surface(SurfaceError::Lost));
    assert_eq!(swapchain.state(), SwapChainState::Invalid);
    assert_eq!(recovery_action(err), RecoveryAction::RecreateSurface);
    assert_eq!(renderer.begin_frame(&swapchain), Err(FrameError::SwapchainInvalid));
    assert_eq!(renderer.render(&mut swapchain, Ok(0)), Err(FrameError::SwapchainInvalid));
}

#[test]
fn failed_present_invalidates() {
    let adapter = scenario_adapter();
    let mut swapchain = configured(&adapter);
    let renderer = renderer_for(&swapchain);
    assert_eq!(renderer.finish_frame(&mut swapchain, Ok(())), Ok(()));
    assert_eq!(
        renderer.finish_frame(&mut swapchain, Err(SurfaceError::Outdated)),
        Err(FrameError::Surface(SurfaceError::Outdated))
    );
    assert_eq!(swapchain.state(), SwapChainState::Invalid);
}

#[test]
fn unconfigured_swapchain_refuses_frames() {
    let mut swapchain = SwapChain::new();
    let pipeline = Pipeline { target_format: Format::B8g8r8a8Srgb, vertex_count: 3 };
    let renderer = Renderer::new(ClearColor { r: 0, g: 0, b: 0, a: 1000 }, pipeline);
    assert_eq!(renderer.begin_frame(&swapchain), Err(FrameError::NotConfigured));
    assert_eq!(renderer.render(&mut swapchain, Ok(0)), Err(FrameError::NotConfigured));
    assert_eq!(recovery_action(FrameError::NotConfigured), RecoveryAction::Reconfigure);
}

#[test]
fn recovery_policy_per_error() {
    assert_eq!(recovery_action(FrameError::Surface(SurfaceError::OutOfMemory)), RecoveryAction::Exit);
    assert_eq!(recovery_action(FrameError::Surface(SurfaceError::Timeout)), RecoveryAction::SkipFrame);
    assert_eq!(recovery_action(FrameError::SwapchainInvalid), RecoveryAction::Reconfigure);
}

#[test]
fn configure_reports_each_error_and_keeps_state() {
    let adapter = scenario_adapter();
    let mut swapchain = configured(&adapter);
    let before = swapchain.config();
    let window = Extent2D { width: 640, height: 480 };
    let q = adapter.queue_family_indices();

    let mut no_formats = support(window);
    no_formats.formats.clear();
    assert_eq!(swapchain.configure(&no_formats, &q, window), Err(ConfigureError::NoSurfaceFormat));

    let mut inverted = support(window);
    inverted.capabilities.min_image_extent = Extent2D { width: 5000, height: 1 };
    assert_eq!(swapchain.configure(&inverted, &q, window), Err(ConfigureError::InvalidCapabilities));

    let incomplete = QueueFamilyIndices { graphics_family: Some(0), present_family: None };
    assert_eq!(swapchain.configure(&support(window), &incomplete, window), Err(ConfigureError::IncompleteQueueFamilies));

    assert_eq!(swapchain.config(), before);
}

#[test]
fn configure_twice_gives_same_configuration() {
    let q = QueueFamilyIndices { graphics_family: Some(0), present_family: Some(1) };
    let window = Extent2D { width: 300, height: 200 };
    let mut s = support(Extent2D { width: UNDEFINED_EXTENT, height: UNDEFINED_EXTENT });
    s.present_modes = vec![PresentMode::Immediate, PresentMode::Mailbox];
    let mut swapchain = SwapChain::new();
    assert_eq!(swapchain.configure(&s, &q, window), Ok(true));
    let first = swapchain.config();
    assert_eq!(swapchain.configure(&s, &q, window), Ok(true));
    assert_eq!(swapchain.config(), first);
    let config = first.unwrap();
    assert_eq!(config.extent, window);
    assert_eq!(config.present_mode, PresentMode::Mailbox);
    assert_eq!(config.sharing_mode, SharingMode::Concurrent { graphics: 0, present: 1 });
}

#[test]
fn configured_extent_within_bounds() {
    let q = QueueFamilyIndices { graphics_family: Some(0), present_family: Some(0) };
    let mut s = support(Extent2D { width: UNDEFINED_EXTENT, height: UNDEFINED_EXTENT });
    s.capabilities.min_image_extent = Extent2D { width: 320, height: 240 };
    s.capabilities.max_image_extent = Extent2D { width: 1920, height: 1080 };
    let mut swapchain = SwapChain::new();
    assert_eq!(swapchain.configure(&s, &q, Extent2D { width: 4000, height: 100 }), Ok(true));
    assert_eq!(swapchain.config().unwrap().extent, Extent2D { width: 1920, height: 240 });
}

#[test]
fn instance_outlives_derived_objects() {
    let mut instance = InstanceLifetime::new(true);
    instance.derive_object();
    instance.derive_object();
    assert_eq!(instance.destroy(), Err(TeardownError::DerivedObjectsLive));
    instance.release_object();
    instance.release_object();
    assert_eq!(instance.live_objects(), 0);
    assert_eq!(
        instance.destroy(),
        Ok(vec![TeardownStep::DestroyDebugMessenger, TeardownStep::DestroyInstance])
    );
    assert_eq!(instance.destroy(), Err(TeardownError::AlreadyDestroyed));
}

#[test]
fn instance_without_validation_tears_down_in_one_step() {
    let mut instance = InstanceLifetime::new(false);
    assert_eq!(instance.destroy(), Ok(vec![TeardownStep::DestroyInstance]));
}
