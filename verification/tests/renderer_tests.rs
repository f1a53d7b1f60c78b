use rseed::backend::{Backend, RenderCommand};
use rseed::config::{window_settings, Mode, Resolution, WindowConf};
use rseed::context::GlContext;
use rseed::renderer::{BackendKind, GlRenderer, Renderer, RendererBackend, RendererError};

#[test]
fn backends_serialize_to_their_tags() {
    assert_eq!(Backend::GL.tag(), "GL");
    assert_eq!(Backend::VK.tag(), "VK");
    assert_eq!(Backend::UNDEFINED.tag(), "UNDEFINED");
}

#[test]
fn tags_read_back_as_their_backends() {
    assert_eq!(Backend::from_tag("GL"), Some(Backend::GL));
    assert_eq!(Backend::from_tag("VK"), Some(Backend::VK));
    assert_eq!(Backend::from_tag("UNDEFINED"), Some(Backend::UNDEFINED));
    assert_eq!(Backend::from_tag("gl"), None);
    assert_eq!(Backend::from_tag(""), None);
    assert_eq!(Backend::from_tag("METAL"), None);
}

#[test]
fn each_defined_backend_has_a_construction_path() {
    assert_eq!(Renderer::select_backend(Backend::GL), Ok(BackendKind::Gl));
    assert_eq!(Renderer::select_backend(Backend::VK), Ok(BackendKind::Vk));
    assert_eq!(
        Renderer::select_backend(Backend::UNDEFINED),
        Err(RendererError::UndefinedBackend)
    );
}

#[test]
fn draw_swaps_exactly_once_per_invocation() {
    let (r, _) = GlContext::init(Ok(()));
    let gl = GlRenderer::new(r.unwrap());
    let mut renderer = Renderer::new(RendererBackend::Gl(gl));
    assert_eq!(renderer.swap_count(), 0);
    renderer.draw();
    assert_eq!(renderer.swap_count(), 1);
    renderer.draw();
    renderer.draw();
    assert_eq!(renderer.swap_count(), 3);
}

#[test]
fn render_commands_name_the_operations() {
    let all = [
        RenderCommand::Clear,
        RenderCommand::SetClearColor,
        RenderCommand::DrawIndexed,
        RenderCommand::Draw,
        RenderCommand::Flush,
    ];
    assert_eq!(all.len(), 5);
}

#[test]
fn fullscreen_mode_sizes_to_the_configured_resolution() {
    let conf = WindowConf {
        title: String::from("game"),
        res: Resolution { width: 600, height: 600 },
        visible: true,
        mode: Mode::FullScreen,
        render_backend: Backend::VK,
    };
    let s = window_settings(&conf);
    assert_eq!(s.title, "game");
    assert!(s.visible);
    assert!(s.fullscreen);
    assert_eq!(s.width, 600);
    assert_eq!(s.height, 600);
    assert!(s.resizable);
}

#[test]
fn windowed_mode_sizes_to_the_modes_own_size() {
    let conf = WindowConf {
        title: String::from("tool"),
        res: Resolution { width: 600, height: 600 },
        visible: false,
        mode: Mode::Windowed {
            size: Resolution { width: 800, height: 450 },
            resizable: false,
        },
        render_backend: Backend::GL,
    };
    let s = window_settings(&conf);
    assert_eq!(s.title, "tool");
    assert!(!s.visible);
    assert!(!s.fullscreen);
    assert_eq!(s.width, 800);
    assert_eq!(s.height, 450);
    assert!(!s.resizable);
}
