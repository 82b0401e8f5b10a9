use radiant::blendmode;
use radiant::color::Color;
use radiant::layer::{Layer, LayerContents, LayerIds, QuadExtents, QuadParams, ViewSource};
use radiant::program::Program;
use radiant::renderer::{
    DisplayId, DrawConfig, DrawViewSource, PixelRect, RenderTarget, Renderer, ResolvedView,
    TextureFilter, TextureId,
};
use radiant::scalar::{Mat4, Point, Rect};

fn test_renderer() -> Renderer {
    let program = Program::from_sources(String::from("sprite"), String::from("texture"));
    Renderer::new(DisplayId(1), program)
}

fn plain_quad() -> QuadParams {
    QuadParams {
        generation: None,
        bucket_id: 1,
        texture_id: 0,
        components: 0,
        uv: Rect {
            min: Point { x: 0, y: 0 },
            max: Point { x: 0, y: 0 },
        },
        pos: Point { x: 0, y: 0 },
        extents: QuadExtents { x0: 0, x1: 0, y0: 0, y1: 0 },
        color: Color::white(),
        rotation: 0,
    }
}

#[test]
fn renderer_starts_on_the_display() {
    let r = test_renderer();
    assert_eq!(r.current_target(), RenderTarget::Display(DisplayId(1)));
}

#[test]
fn push_pop_restores_previous_target() {
    let mut r = test_renderer();
    let before = r.current_target();
    r.push_target(RenderTarget::Texture(TextureId(5)));
    assert_eq!(r.current_target(), RenderTarget::Texture(TextureId(5)));
    r.pop_target();
    assert_eq!(r.current_target(), before);
}

#[test]
fn nested_scopes_restore_in_order() {
    let mut r = test_renderer();
    r.push_target(RenderTarget::Texture(TextureId(1)));
    r.push_target(RenderTarget::Texture(TextureId(2)));
    assert_eq!(r.current_target(), RenderTarget::Texture(TextureId(2)));
    r.pop_target();
    assert_eq!(r.current_target(), RenderTarget::Texture(TextureId(1)));
    r.pop_target();
    assert_eq!(r.current_target(), RenderTarget::Display(DisplayId(1)));
}

#[test]
fn scope_restores_on_error_path() {
    // A scope that fails halfway still pops on its way out: the pop is
    // unconditional, so the previous target is restored on the error path.
    let mut r = test_renderer();
    let before = r.current_target();
    let result: Result<(), &str> = {
        r.push_target(RenderTarget::Texture(TextureId(9)));
        let attempt: Result<(), &str> = Err("scope failed");
        r.pop_target();
        attempt
    };
    assert!(result.is_err());
    assert_eq!(r.current_target(), before);
}

#[test]
fn clear_resolves_against_current_target() {
    let mut r = test_renderer();
    let a = r.clear(Color::black());
    assert_eq!(a.target, RenderTarget::Display(DisplayId(1)));
    assert_eq!(a.color, Color::black());
    r.push_target(RenderTarget::Texture(TextureId(3)));
    let a = r.clear(Color::white());
    assert_eq!(a.target, RenderTarget::Texture(TextureId(3)));
}

#[test]
fn draw_layer_on_empty_layer_is_noop() {
    let r = test_renderer();
    let mut ids = LayerIds::new();
    let mut layer = Layer::new(&mut ids, 1, 1);
    assert!(r.draw_layer(&mut layer, 0).is_none());
    // The no-op did not consume the dirty flag.
    assert!(layer.undirty());
}

#[test]
fn draw_layer_resolves_state_and_undirties() {
    let r = test_renderer();
    let mut ids = LayerIds::new();
    let mut layer = Layer::new(&mut ids, 1, 1);
    layer.add_quad(plain_quad());
    layer.set_blendmode(blendmode::screen());
    layer.set_color(Color::purple());
    let action = r.draw_layer(&mut layer, 2).expect("non-empty layer draws");
    assert_eq!(action.target, RenderTarget::Display(DisplayId(1)));
    assert_eq!(action.layer_id, layer.id());
    assert_eq!(action.vertex_count, 4);
    assert_eq!(action.component, 2);
    assert!(!action.uses_layer_program);
    assert!(action.needs_upload);
    assert_eq!(action.blend, blendmode::screen());
    assert_eq!(action.color, Color::purple());
    // The draw consumed the dirty flag; a second draw needs no upload.
    let again = r.draw_layer(&mut layer, 2).expect("still non-empty");
    assert!(!again.needs_upload);
}

#[test]
fn draw_layer_uses_layer_program_when_set() {
    let r = test_renderer();
    let mut ids = LayerIds::new();
    let own = Program::from_sources(String::from("a"), String::from("b"));
    let mut layer = Layer::with_program(&mut ids, 1, 1, own);
    layer.add_quad(plain_quad());
    let action = r.draw_layer(&mut layer, 0).expect("non-empty layer draws");
    assert!(action.uses_layer_program);
}

#[test]
fn draw_rect_applies_defaults() {
    let r = test_renderer();
    let config = r.rect(Rect {
        min: Point { x: 0, y: 0 },
        max: Point { x: 1, y: 1 },
    });
    assert_eq!(config, DrawConfig::rect(config.target_rect));
    let a = r.draw_rect(config, None);
    assert_eq!(a.color, Color::white());
    assert_eq!(a.blendmode, blendmode::alpha());
    assert_eq!(a.model_matrix, Mat4::identity());
    assert_eq!(a.view, ResolvedView::TargetViewport);
    // Without an override the action carries the renderer default program.
    assert_eq!(a.program.sprite_source(), "sprite");
    assert_eq!(a.texture, None);
}

#[test]
fn draw_rect_keeps_overrides() {
    let r = test_renderer();
    let mut config = DrawConfig::fill();
    config.color = Some(Color::red());
    config.blendmode = Some(blendmode::multiply());
    config.texture = Some(TextureId(4));
    config.view_source = DrawViewSource::Source;
    let program = Program::from_sources(String::from("x"), String::from("y"));
    let a = r.draw_rect(config, Some(&program));
    assert_eq!(a.color, Color::red());
    assert_eq!(a.blendmode, blendmode::multiply());
    assert_eq!(a.view, ResolvedView::SourceViewport(TextureId(4)));
    assert_eq!(a.program.sprite_source(), "x");
    assert_eq!(a.texture, Some(TextureId(4)));
}

#[test]
fn fill_covers_the_unit_rect_under_unit_viewport() {
    let r = test_renderer();
    assert_eq!(r.fill(), DrawConfig::fill());
    let a = r.draw_rect(r.fill(), None);
    assert_eq!(a.view, ResolvedView::UnitViewport);
    assert_eq!(a.target_rect.min, Point { x: 0.0f32.to_bits(), y: 0.0f32.to_bits() });
    assert_eq!(a.target_rect.max, Point { x: 1.0f32.to_bits(), y: 1.0f32.to_bits() });
}

#[test]
fn copy_from_blits_whole_surfaces() {
    let r = test_renderer();
    let a = r.copy_from(RenderTarget::Texture(TextureId(2)), TextureFilter::Linear);
    assert_eq!(a.source, RenderTarget::Texture(TextureId(2)));
    assert_eq!(a.target, RenderTarget::Display(DisplayId(1)));
    assert_eq!(a.source_rect, None);
    assert_eq!(a.target_rect, None);
    assert_eq!(a.filter, TextureFilter::Linear);
}

#[test]
fn copy_rect_from_carries_both_rects() {
    let r = test_renderer();
    let src = PixelRect { x0: 0, y0: 0, x1: 32, y1: 32 };
    let dst = PixelRect { x0: 10, y0: 10, x1: 42, y1: 42 };
    let a = r.copy_rect_from(
        RenderTarget::Texture(TextureId(2)),
        src,
        dst,
        TextureFilter::Nearest,
    );
    assert_eq!(a.source_rect, Some(src));
    assert_eq!(a.target_rect, Some(dst));
    assert_eq!(a.filter, TextureFilter::Nearest);
}

#[test]
fn resolve_layer_program_prefers_the_layers_own() {
    let r = test_renderer();
    let mut ids = LayerIds::new();
    let plain = Layer::new(&mut ids, 1, 1);
    assert_eq!(r.resolve_layer_program(&plain).sprite_source(), "sprite");
    let own = Program::from_sources(String::from("own_s"), String::from("own_t"));
    let with_own = Layer::with_program(&mut ids, 1, 1, own);
    assert_eq!(r.resolve_layer_program(&with_own).sprite_source(), "own_s");
}

#[test]
fn target_depth_follows_push_and_pop() {
    let mut r = test_renderer();
    assert_eq!(r.target_depth(), 1);
    r.push_target(RenderTarget::Texture(TextureId(1)));
    assert_eq!(r.target_depth(), 2);
    r.pop_target();
    assert_eq!(r.target_depth(), 1);
}

#[test]
fn draw_contents_resolves_shared_contents() {
    let r = test_renderer();
    let mut contents = LayerContents::new(9, 16);
    // Empty contents: a no-op that keeps the dirty flag.
    assert!(r
        .draw_contents(
            &mut contents,
            ViewSource::Viewport(1, 1),
            Mat4::identity(),
            blendmode::alpha(),
            Color::white(),
            false,
            0,
        )
        .is_none());
    assert!(contents.is_dirty());
    contents.add_quad(plain_quad());
    let action = r
        .draw_contents(
            &mut contents,
            ViewSource::Viewport(1, 1),
            Mat4::identity(),
            blendmode::screen(),
            Color::red(),
            true,
            3,
        )
        .expect("non-empty contents draw");
    assert_eq!(action.layer_id, 9);
    assert_eq!(action.vertex_count, 4);
    assert_eq!(action.component, 3);
    assert!(action.uses_layer_program);
    assert!(action.needs_upload);
    assert_eq!(action.blend, blendmode::screen());
    assert_eq!(action.color, Color::red());
    assert!(!contents.is_dirty());
}

#[test]
fn layer_view_starts_at_its_dimensions() {
    let mut ids = LayerIds::new();
    let layer = Layer::new(&mut ids, 640.0f32.to_bits(), 480.0f32.to_bits());
    assert_eq!(
        layer.view_matrix(),
        ViewSource::Viewport(640.0f32.to_bits(), 480.0f32.to_bits())
    );
    let mut layer = layer;
    layer.set_view_matrix(Mat4::identity());
    assert_eq!(layer.view_matrix(), ViewSource::Matrix(Mat4::identity()));
}
