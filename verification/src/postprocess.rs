//! Postprocessors: a caller-supplied pair of hooks around a drawing scope.
//!
//! The scope's draws are redirected to the processor's intermediate texture;
//! once the previous target is restored the processor composites the
//! intermediate result onto it. The embedding drives the sequence — redirect,
//! run the scope, process, restore, composite — with the verified stack
//! operations ([`Renderer::push_target`], [`Renderer::pop_target`]) and the
//! resolved actions built here.

use vstd::prelude::*;
use crate::blendmode::BlendMode;
use crate::program::Program;
use crate::renderer::{
    DrawConfig,
    DrawRectAction,
    RenderTarget,
    Renderer,
    ResolvedView,
    TextureId,
};
use crate::scalar::{Point, Rect, SCALAR_ONE, SCALAR_ZERO};
use crate::color::spec_white;

verus! {

/// A custom postprocessor: names the intermediate texture its scope draws
/// into, processes the accumulated intermediate contents, and composites the
/// processed result onto the restored target.
pub trait Postprocessor {
    /// The intermediate texture the scope's draws are redirected to.
    fn target_texture(&self) -> TextureId;

    /// Resolves the processing of the accumulated intermediate contents,
    /// run after the scope and before the previous target is restored:
    /// the draws to perform, in order. Simple postprocessors process
    /// nothing and return none.
    fn process<'a>(&'a self, renderer: &'a Renderer) -> (v: Vec<DrawRectAction<'a>>)
        requires
            renderer.spec_targets().len() > 0,
    ;

    /// Resolves the composite of the intermediate result onto the current —
    /// already restored — target, using the given blend mode.
    fn composite<'a>(&'a self, renderer: &'a Renderer, blendmode: BlendMode) -> (a:
        DrawRectAction<'a>)
        requires
            renderer.spec_targets().len() > 0,
    ;
}

/// A basic postprocessor that applies one program to the intermediate result.
pub struct Basic {
    /// The intermediate texture the scope is drawn into.
    pub source: TextureId,
    /// The program applied when compositing.
    pub program: Program,
}

impl Basic {
    /// A basic postprocessor drawing through `program` from the given
    /// intermediate texture, which the embedding creates (and clears to
    /// transparent) at the postprocessor's working dimensions.
    pub fn new(source: TextureId, program: Program) -> (b: Basic)
        ensures
            b.source == source,
            b.program == program,
    {
        Basic { source, program }
    }
}

impl Postprocessor for Basic {
    /// The intermediate texture.
    fn target_texture(&self) -> (t: TextureId)
        ensures
            t == self.source,
    {
        self.source
    }

    /// The basic postprocessor applies its program in one pass at composite
    /// time; there is nothing to process in between.
    fn process<'a>(&'a self, renderer: &'a Renderer) -> (v: Vec<DrawRectAction<'a>>)
        ensures
            v@.len() == 0,
    {
        Vec::new()
    }

    /// Fills the restored target with the intermediate texture through the
    /// postprocessor's program, under the given blend mode.
    fn composite<'a>(&'a self, renderer: &'a Renderer, blendmode: BlendMode) -> (a:
        DrawRectAction<'a>)
        ensures
            a.target == renderer.spec_targets().last(),
            a.texture == Some(self.source),
            *a.program == self.program,
            a.blendmode == blendmode,
            a.color == spec_white(),
            a.view == ResolvedView::UnitViewport,
            a.target_rect == (Rect {
                min: Point { x: SCALAR_ZERO, y: SCALAR_ZERO },
                max: Point { x: SCALAR_ONE, y: SCALAR_ONE },
            }),
    {
        let mut config = DrawConfig::fill();
        config.texture = Some(self.source);
        config.blendmode = Some(blendmode);
        renderer.draw_rect(config, Some(&self.program))
    }
}

impl Renderer {
    /// Redirects subsequent draws to the postprocessor's intermediate
    /// texture. The scope runs between this and [`Renderer::postprocess_end`];
    /// the previous target is below the pushed one and is restored by the
    /// matching pop on every exit path (see
    /// [`crate::renderer::lemma_scope_restores`]).
    pub fn postprocess_begin<P: Postprocessor>(&mut self, postprocessor: &P) -> (t:
        TextureId)
        requires
            old(self).spec_targets().len() < usize::MAX,
        ensures
            final(self).spec_targets() == old(self).spec_targets().push(
                RenderTarget::Texture(t),
            ),
            final(self).spec_default_program() == old(self).spec_default_program(),
    {
        let texture = postprocessor.target_texture();
        self.push_target(RenderTarget::Texture(texture));
        texture
    }

    /// Restores the target that was active before the postprocessing scope;
    /// the processor's composite is then resolved against it.
    pub fn postprocess_end(&mut self)
        requires
            old(self).spec_targets().len() > 0,
        ensures
            final(self).spec_targets() == old(self).spec_targets().drop_last(),
            final(self).spec_default_program() == old(self).spec_default_program(),
    {
        self.pop_target();
    }
}

} // verus!
