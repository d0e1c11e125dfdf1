use glium_pi_backend::window::{TeardownStep, WindowBuilder, WindowStep};
use glium_pi_backend::{ColorBits, Error, Handle, NativeCall, Window, WindowConfig};

fn builder_with(cfg: &WindowConfig) -> WindowBuilder {
    WindowBuilder::new(cfg)
}

fn builder_past_context(cfg: &WindowConfig, context_raw: u64) -> WindowBuilder {
    let mut b = builder_with(cfg);
    b.config_chosen(true, 1, 0).unwrap();
    b.api_bound(true).unwrap();
    b.context_created(context_raw, 0).unwrap();
    b
}

fn finished_window(cfg: &WindowConfig, display: (u32, u32)) -> Window {
    let mut b = builder_past_context(cfg, 42);
    b.display_size_obtained(0, display.0, display.1).unwrap();
    b.layer_display_opened(7).unwrap();
    b.update_started(9).unwrap();
    b.element_added(11).unwrap();
    b.update_submitted(0, 0).unwrap();
    b.surface_created(13, 0).unwrap();
    b.made_current(true, 0).unwrap();
    b.finish()
}

#[test]
fn window_construction_walks_the_fixed_order() {
    let cfg = WindowConfig::default();
    let mut b = builder_with(&cfg);
    assert_eq!(b.current_step(), WindowStep::ChooseConfig);
    b.config_chosen(true, 1, 0).unwrap();
    assert_eq!(b.current_step(), WindowStep::BindApi);
    b.api_bound(true).unwrap();
    assert_eq!(b.current_step(), WindowStep::CreateContext);
    b.context_created(42, 0).unwrap();
    assert_eq!(b.current_step(), WindowStep::QueryDisplaySize);
    b.display_size_obtained(0, 1024, 768).unwrap();
    assert_eq!(b.current_step(), WindowStep::OpenLayerDisplay);
    b.layer_display_opened(7).unwrap();
    assert_eq!(b.current_step(), WindowStep::StartUpdate);
    b.update_started(9).unwrap();
    assert_eq!(b.current_step(), WindowStep::AddElement);
    let (src, dst) = b.element_rects();
    assert_eq!((src.width, src.height), (1024, 768));
    assert_eq!((dst.width, dst.height), (1024 * 65536, 768 * 65536));
    b.element_added(11).unwrap();
    assert_eq!(b.current_step(), WindowStep::SubmitUpdate);
    b.update_submitted(0, 0).unwrap();
    assert_eq!(b.current_step(), WindowStep::CreateSurface);
    let d = b.descriptor();
    assert_eq!(d.element, Handle::Live(11));
    assert_eq!((d.width, d.height), (1024, 768));
    b.surface_created(13, 0).unwrap();
    assert_eq!(b.current_step(), WindowStep::MakeCurrent);
    b.made_current(true, 0).unwrap();
    assert_eq!(b.current_step(), WindowStep::Complete);
    let w = b.finish();
    assert_eq!(w.get_framebuffer_dimensions(), (1024, 768));
}

#[test]
fn explicit_surface_size_wins_over_display_size() {
    let mut cfg = WindowConfig::default();
    cfg.surface_size = Some((640, 480));
    let w = finished_window(&cfg, (1024, 768));
    assert_eq!(w.get_framebuffer_dimensions(), (640, 480));
}

#[test]
fn omitted_surface_size_falls_back_to_the_display_size() {
    let cfg = WindowConfig::default();
    let w = finished_window(&cfg, (1920, 1080));
    assert_eq!(w.get_framebuffer_dimensions(), (1920, 1080));
}

#[test]
fn explicit_surface_size_scales_to_the_full_display() {
    let mut cfg = WindowConfig::default();
    cfg.surface_size = Some((320, 200));
    let mut b = builder_past_context(&cfg, 42);
    b.display_size_obtained(0, 1024, 768).unwrap();
    b.layer_display_opened(7).unwrap();
    b.update_started(9).unwrap();
    let (src, dst) = b.element_rects();
    assert_eq!((src.width, src.height), (320, 200));
    assert_eq!((dst.width, dst.height), (1024 * 65536, 768 * 65536));
}

#[test]
fn failure_after_context_tears_down_only_the_context() {
    let cfg = WindowConfig::default();
    let mut b = builder_past_context(&cfg, 42);
    let e = b.display_size_obtained(-1, 0, 0).unwrap_err();
    assert_eq!(e, Error::Fn(NativeCall::GraphicsGetDisplaySize));
    assert_eq!(b.current_step(), WindowStep::Failed);
    let w = b.abandon();
    assert_eq!(w.teardown_plan(), vec![TeardownStep::DestroyContext(42)]);
}

#[test]
fn full_teardown_is_the_exact_reverse_of_construction() {
    let cfg = WindowConfig::default();
    let w = finished_window(&cfg, (1024, 768));
    assert_eq!(
        w.teardown_plan(),
        vec![
            TeardownStep::ReleaseCurrent,
            TeardownStep::DestroySurface(13),
            TeardownStep::BeginElementRemoval,
            TeardownStep::RemoveElement(11),
            TeardownStep::SubmitElementRemoval,
            TeardownStep::CloseLayerDisplay(7),
            TeardownStep::DestroyContext(42),
        ]
    );
}

#[test]
fn second_teardown_has_an_empty_plan() {
    let cfg = WindowConfig::default();
    let mut w = finished_window(&cfg, (1024, 768));
    w.complete_teardown();
    assert_eq!(w.teardown_plan(), vec![]);
}

#[test]
fn failed_configuration_selection_is_a_function_error() {
    let cfg = WindowConfig::default();
    let mut b = builder_with(&cfg);
    let e = b.config_chosen(false, 0, 0).unwrap_err();
    assert_eq!(e, Error::Fn(NativeCall::EglChooseConfig));
}

#[test]
fn no_matching_configuration_is_a_function_error() {
    let cfg = WindowConfig::default();
    let mut b = builder_with(&cfg);
    let e = b.config_chosen(true, 0, 0).unwrap_err();
    assert_eq!(e, Error::Fn(NativeCall::EglChooseConfig));
    assert!(b.abandon().teardown_plan().is_empty());
}

#[test]
fn driver_code_after_configuration_selection_is_a_driver_error() {
    let cfg = WindowConfig::default();
    let mut b = builder_with(&cfg);
    let e = b.config_chosen(true, 1, 5).unwrap_err();
    assert_eq!(e, Error::Gl(NativeCall::EglChooseConfig, 5));
}

#[test]
fn failed_api_bind_is_a_function_error() {
    let cfg = WindowConfig::default();
    let mut b = builder_with(&cfg);
    b.config_chosen(true, 1, 0).unwrap();
    let e = b.api_bound(false).unwrap_err();
    assert_eq!(e, Error::Fn(NativeCall::EglBindApi));
}

#[test]
fn sentinel_context_is_a_function_error_with_nothing_to_tear_down() {
    let cfg = WindowConfig::default();
    let mut b = builder_with(&cfg);
    b.config_chosen(true, 1, 0).unwrap();
    b.api_bound(true).unwrap();
    let e = b.context_created(0, 0).unwrap_err();
    assert_eq!(e, Error::Fn(NativeCall::EglCreateContext));
    assert!(b.abandon().teardown_plan().is_empty());
}

#[test]
fn driver_code_after_context_creation_still_records_the_context() {
    let cfg = WindowConfig::default();
    let mut b = builder_with(&cfg);
    b.config_chosen(true, 1, 0).unwrap();
    b.api_bound(true).unwrap();
    let e = b.context_created(9, 3).unwrap_err();
    assert_eq!(e, Error::Gl(NativeCall::EglCreateContext, 3));
    assert_eq!(b.abandon().teardown_plan(), vec![TeardownStep::DestroyContext(9)]);
}

#[test]
fn unrepresentable_display_geometry_is_rejected() {
    let cfg = WindowConfig::default();
    let mut b = builder_past_context(&cfg, 42);
    let e = b.display_size_obtained(0, 0x8000, 768).unwrap_err();
    assert_eq!(e, Error::Fn(NativeCall::GraphicsGetDisplaySize));
}

#[test]
fn sentinel_layer_display_is_a_function_error() {
    let cfg = WindowConfig::default();
    let mut b = builder_past_context(&cfg, 42);
    b.display_size_obtained(0, 1024, 768).unwrap();
    let e = b.layer_display_opened(0).unwrap_err();
    assert_eq!(e, Error::Fn(NativeCall::VcDispmanxDisplayOpen));
}

#[test]
fn sentinel_update_handle_is_a_function_error() {
    let cfg = WindowConfig::default();
    let mut b = builder_past_context(&cfg, 42);
    b.display_size_obtained(0, 1024, 768).unwrap();
    b.layer_display_opened(7).unwrap();
    let e = b.update_started(0).unwrap_err();
    assert_eq!(e, Error::Fn(NativeCall::VcDispmanxUpdateStart));
    assert_eq!(
        b.abandon().teardown_plan(),
        vec![
            TeardownStep::CloseLayerDisplay(7),
            TeardownStep::DestroyContext(42),
        ]
    );
}

#[test]
fn sentinel_element_is_a_function_error() {
    let cfg = WindowConfig::default();
    let mut b = builder_past_context(&cfg, 42);
    b.display_size_obtained(0, 1024, 768).unwrap();
    b.layer_display_opened(7).unwrap();
    b.update_started(9).unwrap();
    let e = b.element_added(0).unwrap_err();
    assert_eq!(e, Error::Fn(NativeCall::VcDispmanxElementAdd));
}

#[test]
fn failed_submission_is_a_function_error() {
    let cfg = WindowConfig::default();
    let mut b = builder_past_context(&cfg, 42);
    b.display_size_obtained(0, 1024, 768).unwrap();
    b.layer_display_opened(7).unwrap();
    b.update_started(9).unwrap();
    b.element_added(11).unwrap();
    let e = b.update_submitted(-1, 0).unwrap_err();
    assert_eq!(e, Error::Fn(NativeCall::VcDispmanxUpdateSubmitSync));
    assert_eq!(
        b.abandon().teardown_plan(),
        vec![
            TeardownStep::BeginElementRemoval,
            TeardownStep::RemoveElement(11),
            TeardownStep::SubmitElementRemoval,
            TeardownStep::CloseLayerDisplay(7),
            TeardownStep::DestroyContext(42),
        ]
    );
}

#[test]
fn driver_code_after_submission_is_a_driver_error() {
    let cfg = WindowConfig::default();
    let mut b = builder_past_context(&cfg, 42);
    b.display_size_obtained(0, 1024, 768).unwrap();
    b.layer_display_opened(7).unwrap();
    b.update_started(9).unwrap();
    b.element_added(11).unwrap();
    let e = b.update_submitted(0, 4).unwrap_err();
    assert_eq!(e, Error::Gl(NativeCall::VcDispmanxUpdateSubmitSync, 4));
}

#[test]
fn sentinel_surface_is_a_function_error() {
    let cfg = WindowConfig::default();
    let mut b = builder_past_context(&cfg, 42);
    b.display_size_obtained(0, 1024, 768).unwrap();
    b.layer_display_opened(7).unwrap();
    b.update_started(9).unwrap();
    b.element_added(11).unwrap();
    b.update_submitted(0, 0).unwrap();
    let e = b.surface_created(0, 0).unwrap_err();
    assert_eq!(e, Error::Fn(NativeCall::EglCreateWindowSurface));
}

#[test]
fn driver_code_after_surface_creation_still_records_the_surface() {
    let cfg = WindowConfig::default();
    let mut b = builder_past_context(&cfg, 42);
    b.display_size_obtained(0, 1024, 768).unwrap();
    b.layer_display_opened(7).unwrap();
    b.update_started(9).unwrap();
    b.element_added(11).unwrap();
    b.update_submitted(0, 0).unwrap();
    let e = b.surface_created(8, 2).unwrap_err();
    assert_eq!(e, Error::Gl(NativeCall::EglCreateWindowSurface, 2));
    let plan = b.abandon().teardown_plan();
    assert_eq!(plan[0], TeardownStep::ReleaseCurrent);
    assert_eq!(plan[1], TeardownStep::DestroySurface(8));
}

#[test]
fn failed_make_current_is_a_function_error() {
    let cfg = WindowConfig::default();
    let mut b = builder_past_context(&cfg, 42);
    b.display_size_obtained(0, 1024, 768).unwrap();
    b.layer_display_opened(7).unwrap();
    b.update_started(9).unwrap();
    b.element_added(11).unwrap();
    b.update_submitted(0, 0).unwrap();
    b.surface_created(13, 0).unwrap();
    let e = b.made_current(false, 0).unwrap_err();
    assert_eq!(e, Error::Fn(NativeCall::EglMakeCurrent));
    let e2 = {
        let mut b2 = builder_past_context(&cfg, 43);
        b2.display_size_obtained(0, 1024, 768).unwrap();
        b2.layer_display_opened(7).unwrap();
        b2.update_started(9).unwrap();
        b2.element_added(11).unwrap();
        b2.update_submitted(0, 0).unwrap();
        b2.surface_created(13, 0).unwrap();
        b2.made_current(true, 9).unwrap_err()
    };
    assert_eq!(e2, Error::Gl(NativeCall::EglMakeCurrent, 9));
}

#[test]
fn is_current_compares_the_raw_context() {
    let cfg = WindowConfig::default();
    let w = finished_window(&cfg, (1024, 768));
    assert!(w.is_current(42));
    assert!(!w.is_current(1));
    assert!(!w.is_current(0));
}
