use tri_render::format::{attribute_size, srgb_view_format, AttributeFormat, ColorFormat, DepthFormat};
use tri_render::frame::{ClearColor, DepthClear, FrameError, FrameRenderer};
use tri_render::layout::{packed_layout, vertex_input_layout, StepMode};
use tri_render::pipeline::{CompareFunction, Pipeline, Topology};
use tri_render::state::{HostAction, HostEvent, State, TRIANGLE_VERTEX_COUNT};
use tri_render::surface::{
    select_color_format, AlphaMode, PresentMode, SurfaceError, SurfaceManager, SurfaceSize,
    MAX_QUEUED_FRAMES,
};

fn size(width: u32, height: u32) -> SurfaceSize {
    SurfaceSize { width, height }
}

fn state_800x600() -> State {
    State::new(&vec![Some(ColorFormat::Bgra8Unorm)], size(800, 600)).unwrap()
}

#[test]
fn initialize_800x600_configures_surface_depth_and_pipeline() {
    let s = state_800x600();
    assert_eq!(s.surface.config.width, 800);
    assert_eq!(s.surface.config.height, 600);
    assert_eq!(s.surface.config.color_format, ColorFormat::Bgra8Unorm);
    assert_eq!(s.surface.config.view_format, ColorFormat::Bgra8UnormSrgb);
    assert_eq!(s.surface.config.present_mode, PresentMode::AutoVsync);
    assert_eq!(s.surface.config.alpha_mode, AlphaMode::PreMultiplied);
    assert_eq!(s.surface.config.max_queued_frames, MAX_QUEUED_FRAMES);
    assert_eq!(s.surface.depth.width, 800);
    assert_eq!(s.surface.depth.height, 600);
    assert_eq!(s.surface.depth.format, DepthFormat::Depth24PlusStencil8);
    assert_eq!(s.pipeline.color_format, ColorFormat::Bgra8Unorm);
    assert!(!s.renderer.in_flight);
}

#[test]
fn zero_width_resize_keeps_previous_configuration() {
    let mut s = state_800x600();
    let before = s.surface.config;
    assert!(!s.resize(size(0, 400)));
    assert_eq!(s.surface.config, before);
    assert_eq!(s.surface.config.width, 800);
    assert_eq!(s.surface.config.height, 600);
    assert_eq!(s.surface.depth.width, 800);
    assert!(!s.resize(size(640, 0)));
    assert_eq!(s.surface.config, before);
}

#[test]
fn resize_then_redraw_renders_at_new_size() {
    let mut s = state_800x600();
    assert!(s.resize(size(1024, 768)));
    let plan = s.render();
    assert_eq!((plan.color.width, plan.color.height), (1024, 768));
    assert_eq!((plan.depth.width, plan.depth.height), (1024, 768));
    assert_eq!(plan.draw.first_vertex, 0);
    assert_eq!(plan.draw.vertex_count, 3);
    assert_eq!(plan.draw.first_instance, 0);
    assert_eq!(plan.draw.instance_count, 1);
    assert_eq!(plan.color.view_format, ColorFormat::Bgra8UnormSrgb);
    assert_eq!(plan.color.clear, ClearColor::Transparent);
    assert_eq!(plan.depth.depth_clear, DepthClear::Far);
    assert_eq!(plan.depth.stencil_clear, 0);
    assert!(plan.color.store && plan.depth.store);
    assert_eq!(plan.bind_group_entries, 0);
    assert!(!s.renderer.in_flight);
}

#[test]
fn events_resize_then_redraw_draw_at_new_size() {
    let mut s = state_800x600();
    match s.handle_event(HostEvent::SurfaceResized(size(1024, 768))) {
        HostAction::Reconfigure(c) => assert_eq!((c.width, c.height), (1024, 768)),
        other => panic!("unexpected action {:?}", other),
    }
    match s.handle_event(HostEvent::RedrawRequested) {
        HostAction::Draw(plan) => {
            assert_eq!((plan.color.width, plan.color.height), (1024, 768));
            assert_eq!((plan.depth.width, plan.depth.height), (1024, 768));
            assert_eq!(plan.draw.vertex_count, TRIANGLE_VERTEX_COUNT);
            assert_eq!(plan.draw.instance_count, 1);
        }
        other => panic!("unexpected action {:?}", other),
    }
}

#[test]
fn close_while_idle_exits_with_no_image_held() {
    let mut s = state_800x600();
    assert_eq!(s.handle_event(HostEvent::CloseRequested), HostAction::Exit);
    assert!(!s.renderer.in_flight);
    assert_eq!(s.surface.config.width, 800);
}

#[test]
fn zero_resize_event_is_idle() {
    let mut s = state_800x600();
    assert_eq!(s.handle_event(HostEvent::SurfaceResized(size(0, 400))), HostAction::Idle);
    assert_eq!(s.handle_event(HostEvent::Other), HostAction::Idle);
    assert_eq!((s.surface.config.width, s.surface.config.height), (800, 600));
}

#[test]
fn resize_sequence_ends_at_last_nonzero_size() {
    let mut s = state_800x600();
    let requests = [size(0, 0), size(1024, 768), size(0, 300), size(300, 0), size(640, 480), size(0, 1)];
    for r in requests {
        s.resize(r);
        assert!(s.surface.config.width > 0 && s.surface.config.height > 0);
    }
    assert_eq!((s.surface.config.width, s.surface.config.height), (640, 480));
    assert_eq!((s.surface.depth.width, s.surface.depth.height), (640, 480));
}

#[test]
fn depth_follows_every_resize() {
    let mut s = state_800x600();
    for (w, h) in [(1, 1), (1920, 1080), (u32::MAX, 7)] {
        assert!(s.resize(size(w, h)));
        assert_eq!((s.surface.depth.width, s.surface.depth.height), (w, h));
        let plan = s.render();
        assert_eq!((plan.color.width, plan.color.height), (w, h));
        assert_eq!((plan.depth.width, plan.depth.height), (w, h));
    }
}

#[test]
fn second_acquire_is_refused_until_present() {
    let s = state_800x600();
    let mut r = FrameRenderer::new();
    let t = r.acquire(&s.surface).unwrap();
    assert_eq!((t.width, t.height), (800, 600));
    assert!(matches!(r.acquire(&s.surface), Err(FrameError::TicketOutstanding)));
    assert_eq!(r.present(t), Ok(()));
    assert!(!r.in_flight);
    let t2 = r.acquire(&s.surface).unwrap();
    assert_eq!(r.discard(t2), Ok(()));
    assert!(!r.in_flight);
}

#[test]
fn present_without_held_image_is_refused() {
    let s = state_800x600();
    let mut r = FrameRenderer::new();
    let t = r.acquire(&s.surface).unwrap();
    let mut other = FrameRenderer::new();
    assert_eq!(other.present(t), Err(FrameError::NoTicket));
    assert!(r.in_flight);
}

#[test]
fn record_refuses_missing_ticket_and_size_mismatch() {
    let mut s = state_800x600();
    let mut r = FrameRenderer::new();
    let t = r.acquire(&s.surface).unwrap();
    let idle = FrameRenderer::new();
    assert_eq!(idle.record(&t, &s.surface, &s.pipeline, 3), Err(FrameError::NoTicket));
    assert!(s.surface.reconfigure(size(1024, 768)));
    assert_eq!(r.record(&t, &s.surface, &s.pipeline, 3), Err(FrameError::SizeMismatch));
    assert_eq!(r.discard(t), Ok(()));
    let t = r.acquire(&s.surface).unwrap();
    let plan = r.record(&t, &s.surface, &s.pipeline, 3).unwrap();
    assert_eq!((plan.color.width, plan.depth.width), (1024, 1024));
    assert_eq!(r.present(t), Ok(()));
}

#[test]
fn pipeline_is_untouched_by_resize_and_render() {
    let mut s = state_800x600();
    s.resize(size(1024, 768));
    s.render();
    s.resize(size(0, 5));
    assert_eq!(s.pipeline.color_format, ColorFormat::Bgra8Unorm);
    assert!(s.pipeline.depth_write_enabled);
    assert_eq!(s.pipeline.depth_compare, CompareFunction::Less);
    assert_eq!(s.pipeline.topology, Topology::TriangleList);
    assert!(!s.pipeline.needs_rebuild(s.surface.config.color_format));
    assert!(s.pipeline.needs_rebuild(ColorFormat::Rgba8Unorm));
}

#[test]
fn pipeline_build_fixes_state() {
    let p = Pipeline::build(ColorFormat::Rgba8UnormSrgb);
    assert_eq!(p.color_format, ColorFormat::Rgba8UnormSrgb);
    assert_eq!(p.depth_format, DepthFormat::Depth24PlusStencil8);
    assert_eq!(p.bind_group_entries, 0);
    assert_eq!(p.vertex_layout.array_stride, 32);
    assert_eq!(p.vertex_layout.attributes.len(), 2);
}

#[test]
fn first_compatible_format_is_chosen() {
    let advertised = vec![None, Some(ColorFormat::Rgba8Unorm), Some(ColorFormat::Bgra8Unorm)];
    assert_eq!(select_color_format(&advertised), Some(ColorFormat::Rgba8Unorm));
    assert_eq!(select_color_format(&vec![None, None]), None);
    assert_eq!(select_color_format(&vec![]), None);
    let s = State::new(&advertised, size(10, 20)).unwrap();
    assert_eq!(s.surface.config.color_format, ColorFormat::Rgba8Unorm);
    assert_eq!(s.surface.config.view_format, ColorFormat::Rgba8UnormSrgb);
}

#[test]
fn initialize_errors() {
    assert!(matches!(
        State::new(&vec![None], size(800, 600)),
        Err(SurfaceError::NoCompatibleFormat)
    ));
    assert!(matches!(
        State::new(&vec![], size(0, 0)),
        Err(SurfaceError::NoCompatibleFormat)
    ));
    assert!(matches!(
        State::new(&vec![Some(ColorFormat::Bgra8Unorm)], size(0, 600)),
        Err(SurfaceError::ZeroSize)
    ));
    assert!(matches!(
        SurfaceManager::initialize(&vec![Some(ColorFormat::Bgra8Unorm)], size(800, 0)),
        Err(SurfaceError::ZeroSize)
    ));
}

#[test]
fn srgb_view_formats() {
    assert_eq!(srgb_view_format(ColorFormat::Bgra8Unorm), ColorFormat::Bgra8UnormSrgb);
    assert_eq!(srgb_view_format(ColorFormat::Rgba8Unorm), ColorFormat::Rgba8UnormSrgb);
    assert_eq!(srgb_view_format(ColorFormat::Bgra8UnormSrgb), ColorFormat::Bgra8UnormSrgb);
    assert_eq!(srgb_view_format(ColorFormat::Rgba8UnormSrgb), ColorFormat::Rgba8UnormSrgb);
}

#[test]
fn vertex_input_layout_packs_position_and_color() {
    let l = vertex_input_layout();
    assert_eq!(l.array_stride, 32);
    assert_eq!(l.step_mode, StepMode::Vertex);
    assert_eq!(l.attributes.len(), 2);
    assert_eq!(l.attributes[0].offset, 0);
    assert_eq!(l.attributes[0].shader_location, 0);
    assert_eq!(l.attributes[0].format, AttributeFormat::Float32x4);
    assert_eq!(l.attributes[1].offset, 16);
    assert_eq!(l.attributes[1].shader_location, 1);
}

#[test]
fn packed_layout_sums_attribute_sizes() {
    let l = packed_layout(&vec![AttributeFormat::Float32x2, AttributeFormat::Float32x3, AttributeFormat::Float32]);
    let offsets: Vec<u64> = l.attributes.iter().map(|a| a.offset).collect();
    assert_eq!(offsets, vec![0, 8, 20]);
    assert_eq!(l.array_stride, 24);
    assert_eq!(l.attributes[2].shader_location, 2);
    assert_eq!(packed_layout(&vec![]).array_stride, 0);
    assert_eq!(attribute_size(AttributeFormat::Float32), 4);
    assert_eq!(attribute_size(AttributeFormat::Float32x3), 12);
    assert_eq!(attribute_size(AttributeFormat::Float32x4), 16);
}
