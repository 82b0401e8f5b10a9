use radiant::blendmode::{
    alpha, brightest, lighten, multiply, replace, screen, BlendEquation, BlendFactor,
};
use radiant::color::Color;
use radiant::postprocess::{Basic, Postprocessor};
use radiant::program::Program;
use radiant::renderer::{DisplayId, RenderTarget, Renderer, ResolvedView, TextureId};

#[test]
fn replace_overwrites_the_destination() {
    let m = replace();
    assert_eq!(m.color.equation, BlendEquation::Addition);
    assert_eq!(m.color.source, BlendFactor::One);
    assert_eq!(m.color.destination, BlendFactor::Zero);
    assert_eq!(m.alpha.source, BlendFactor::One);
}

#[test]
fn alpha_weighs_by_source_alpha() {
    let m = alpha();
    assert_eq!(m.color.source, BlendFactor::SourceAlpha);
    assert_eq!(m.color.destination, BlendFactor::OneMinusSourceAlpha);
    assert_eq!(m.alpha.source, BlendFactor::One);
    assert_eq!(m.alpha.destination, BlendFactor::OneMinusSourceAlpha);
}

#[test]
fn presets_are_distinct() {
    let all = [replace(), alpha(), lighten(), multiply(), screen(), brightest()];
    for i in 0..all.len() {
        for j in 0..all.len() {
            if i != j {
                assert_ne!(all[i], all[j]);
            }
        }
    }
}

#[test]
fn brightest_keeps_the_maximum() {
    let m = brightest();
    assert_eq!(m.color.equation, BlendEquation::Max);
    assert_eq!(m.alpha.equation, BlendEquation::Max);
}

#[test]
fn postprocess_scope_redirects_and_restores() {
    let program = Program::from_sources(String::from("s"), String::from("t"));
    let mut renderer = Renderer::new(DisplayId(1), program);
    let pp_program = Program::from_sources(String::from("ps"), String::from("pt"));
    let pp = Basic::new(TextureId(7), pp_program);
    let before = renderer.current_target();

    renderer.postprocess_begin(&pp);
    // Scope draws now land on the intermediate texture.
    assert_eq!(renderer.current_target(), RenderTarget::Texture(TextureId(7)));
    let inside = renderer.clear(Color::black());
    assert_eq!(inside.target, RenderTarget::Texture(TextureId(7)));
    renderer.postprocess_end();
    assert_eq!(renderer.current_target(), before);

    // The basic postprocessor has no intermediate processing step.
    assert!(pp.process(&renderer).is_empty());

    // The composite draws the intermediate result onto the restored target
    // through the postprocessor's own program.
    let composite = pp.composite(&renderer, screen());
    assert_eq!(composite.target, before);
    assert_eq!(composite.texture, Some(TextureId(7)));
    assert_eq!(composite.blendmode, screen());
    assert_eq!(composite.program.sprite_source(), "ps");
    assert_eq!(composite.view, ResolvedView::UnitViewport);
}
