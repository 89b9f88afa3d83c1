use blackbird::renderer::{Renderer, RendererError, WGPURenderer};

#[test]
fn new_renderer_is_empty() {
    let renderer: WGPURenderer<&str, u32, u64> = WGPURenderer::new("instance");
    assert_eq!(*renderer.instance(), "instance");
    assert_eq!(renderer.surface(), None);
    assert_eq!(renderer.adapter(), None);
}

#[test]
fn initialize_without_surface_fails() {
    let mut renderer: WGPURenderer<(), u32, u64> = WGPURenderer::new(());
    assert_eq!(renderer.initialize(), Err(RendererError::SurfaceInitialization));
    assert_eq!(renderer.store_adapter(9), Err(RendererError::SurfaceInitialization));
    assert_eq!(renderer.adapter(), None);
}

#[test]
fn initialize_after_failed_attach_fails() {
    let mut renderer: WGPURenderer<(), u32, u64> = WGPURenderer::new(());
    assert_eq!(renderer.attach_window(None), Err(RendererError::SurfaceInitialization));
    assert_eq!(renderer.attach_window(None), Err(RendererError::SurfaceInitialization));
    assert_eq!(renderer.surface(), None);
    assert_eq!(renderer.initialize(), Err(RendererError::SurfaceInitialization));
}

#[test]
fn attach_then_initialize() {
    let mut renderer: WGPURenderer<(), u32, u64> = WGPURenderer::new(());
    assert_eq!(renderer.attach_window(Some(5)), Ok(()));
    assert_eq!(renderer.surface(), Some(&5));
    assert_eq!(renderer.initialize(), Ok(&5));
    assert_eq!(renderer.adapter(), None);
    assert_eq!(renderer.store_adapter(9), Ok(()));
    assert_eq!(renderer.adapter(), Some(&9));
    assert_eq!(renderer.surface(), Some(&5));
}

#[test]
fn failed_attach_keeps_the_surface() {
    let mut renderer: WGPURenderer<(), u32, u64> = WGPURenderer::new(());
    assert_eq!(renderer.attach_window(Some(5)), Ok(()));
    assert_eq!(renderer.attach_window(None), Err(RendererError::SurfaceInitialization));
    assert_eq!(renderer.surface(), Some(&5));
    assert_eq!(renderer.attach_window(Some(6)), Ok(()));
    assert_eq!(renderer.surface(), Some(&6));
}

#[test]
fn render_does_nothing() {
    let mut renderer: WGPURenderer<(), u32, u64> = WGPURenderer::new(());
    assert_eq!(renderer.render(), Ok(()));
    assert_eq!(renderer.surface(), None);
    renderer.attach_window(Some(5)).unwrap();
    renderer.store_adapter(9).unwrap();
    assert_eq!(renderer.render(), Ok(()));
    assert_eq!(renderer.surface(), Some(&5));
    assert_eq!(renderer.adapter(), Some(&9));
}

#[test]
fn renderer_error_text() {
    assert_eq!(RendererError::SurfaceInitialization.to_string(), "SurfaceInitialization");
}
