//! The renderer: the target stack with scoped redirection, the texture-atlas
//! bucket assignment, and draw dispatch.
//!
//! Drawing here means resolving: each draw operation settles the target, the
//! program choice, the blend state and the matrices, and hands the result
//! back as a fully resolved action value. The embedding backend performs the
//! actions; the decisions are made, and proved, here.

use vstd::prelude::*;
use vstd::arithmetic::power2::{
    pow2,
    lemma_pow2_adds,
    lemma_pow2_pos,
    lemma_pow2_strictly_increases,
    lemma2_to64,
};
use crate::blendmode::{BlendMode, spec_alpha, alpha};
use crate::color::{Color, spec_white};
use crate::layer::{Layer, LayerContents, ViewSource};
use crate::program::Program;
use crate::scalar::{Mat4, Rect, SCALAR_ONE, SCALAR_ZERO, spec_identity_cells};

verus! {

/// Handle of a display surface, assigned by the backend.
#[derive(Clone, Copy, PartialEq, Eq, Structural, Debug)]
pub struct DisplayId(pub u64);

/// Handle of an offscreen texture, assigned by the backend.
#[derive(Clone, Copy, PartialEq, Eq, Structural, Debug)]
pub struct TextureId(pub u64);

/// A destination draws are issued against.
#[derive(Clone, Copy, PartialEq, Eq, Structural, Debug)]
pub enum RenderTarget {
    /// Draws are discarded.
    Disabled,
    /// The display surface.
    Display(DisplayId),
    /// An offscreen texture.
    Texture(TextureId),
}

// ---------------------------------------------------------------------------
// Texture-atlas bucket assignment
// ---------------------------------------------------------------------------

/// Number of bucket slots the atlas is configured with; bucket zero is
/// reserved for the glyph cache.
pub const NUM_BUCKETS: u32 = 12;

/// The largest texture edge the configured bucket count admits:
/// the top bucket holds slots of this size.
pub const MAX_TEXTURE_SIZE: u32 = 16384;

/// The larger of a texture's two edges, which alone determines its bucket.
pub open spec fn max_edge(width: u32, height: u32) -> u32 {
    if width >= height {
        width
    } else {
        height
    }
}

/// The least `k` with `2^k >= n` (zero for `n <= 1`).
pub open spec fn spec_ceil_log2(n: nat) -> nat
    decreases n,
{
    if n <= 1 {
        0
    } else {
        1 + spec_ceil_log2(((n + 1) / 2) as nat)
    }
}

/// The bucket a texture of the given size is packed into: sizes up to 16x16
/// share bucket one, every further doubling of the larger edge moves one
/// bucket up. Bucket zero is never assigned; it holds the glyph cache.
pub open spec fn spec_bucket_id(width: u32, height: u32) -> nat {
    let l = spec_ceil_log2(max_edge(width, height) as nat);
    if l <= 4 {
        1
    } else {
        (l - 3) as nat
    }
}

/// The edge length of the assigned bucket's slots: `2^(bucket_id + 3)`. The
/// texture is padded up to this size.
pub open spec fn spec_padded_size(width: u32, height: u32) -> nat {
    pow2((spec_bucket_id(width, height) + 3) as nat)
}

/// `spec_ceil_log2` names the least exponent: `2^clog2(n) >= n`, and the
/// next-smaller power falls short.
pub proof fn lemma_ceil_log2_bounds(n: nat)
    ensures
        n >= 1 ==> pow2(spec_ceil_log2(n)) >= n,
        spec_ceil_log2(n) > 0 ==> pow2((spec_ceil_log2(n) - 1) as nat) < n,
    decreases n,
{
    if n <= 1 {
        assert(pow2(0) == 1) by {
            lemma2_to64();
        }
    } else {
        let m = ((n + 1) / 2) as nat;
        let c = spec_ceil_log2(m);
        lemma_ceil_log2_bounds(m);
        assert(2 * m >= n);
        assert(pow2(c + 1) == 2 * pow2(c)) by {
            lemma_pow2_adds(c, 1);
            lemma2_to64();
        }
        assert(pow2(spec_ceil_log2(n)) >= n);
        if c > 0 {
            assert(pow2(c) == 2 * pow2((c - 1) as nat)) by {
                lemma_pow2_adds((c - 1) as nat, 1);
                lemma2_to64();
            }
            assert(pow2((c - 1) as nat) <= m - 1);
            assert(pow2(c) <= 2 * m - 2);
            assert(2 * m <= n + 1);
        } else {
            assert(m == 1);
            assert(pow2(0) == 1) by {
                lemma2_to64();
            }
        }
    }
}

/// No smaller exponent reaches `n`: whenever `2^k >= n`, `clog2(n) <= k`.
pub proof fn lemma_ceil_log2_is_least(n: nat, k: nat)
    requires
        pow2(k) >= n,
        n >= 1,
    ensures
        spec_ceil_log2(n) <= k,
{
    let c = spec_ceil_log2(n);
    if c > k {
        lemma_ceil_log2_bounds(n);
        if k < c - 1 {
            lemma_pow2_strictly_increases(k, (c - 1) as nat);
        }
        assert(pow2(k) <= pow2((c - 1) as nat));
        assert(false);
    }
}

/// The characterization is unique: an exponent with both bounds is the
/// ceiling logarithm.
pub proof fn lemma_ceil_log2_unique(n: nat, k: nat)
    requires
        pow2(k) >= n,
        k > 0 ==> pow2((k - 1) as nat) < n,
    ensures
        n >= 1 ==> k == spec_ceil_log2(n),
        n == 0 ==> k == 0,
{
    if n == 0 {
        if k > 0 {
            lemma_pow2_pos((k - 1) as nat);
        }
    } else {
        let c = spec_ceil_log2(n);
        lemma_ceil_log2_is_least(n, k);
        if c < k {
            lemma_ceil_log2_bounds(n);
            if c < k - 1 {
                lemma_pow2_strictly_increases(c, (k - 1) as nat);
            }
            assert(pow2(c) <= pow2((k - 1) as nat));
            assert(false);
        }
    }
}

/// Monotonicity of the ceiling logarithm.
pub proof fn lemma_ceil_log2_monotonic(a: nat, b: nat)
    requires
        a <= b,
    ensures
        spec_ceil_log2(a) <= spec_ceil_log2(b),
{
    if a >= 1 {
        lemma_ceil_log2_bounds(b);
        lemma_ceil_log2_is_least(a, spec_ceil_log2(b));
    }
}

/// Bucket assignment is monotonic in the larger edge: a texture no larger
/// than another never lands in a higher bucket.
pub proof fn lemma_bucket_monotonic(w1: u32, h1: u32, w2: u32, h2: u32)
    requires
        max_edge(w1, h1) <= max_edge(w2, h2),
    ensures
        spec_bucket_id(w1, h1) <= spec_bucket_id(w2, h2),
{
    lemma_ceil_log2_monotonic(max_edge(w1, h1) as nat, max_edge(w2, h2) as nat);
}

/// Within the supported texture range the assigned bucket always stays below
/// the configured bucket count.
pub proof fn lemma_bucket_in_range(width: u32, height: u32)
    requires
        max_edge(width, height) <= MAX_TEXTURE_SIZE,
    ensures
        1 <= spec_bucket_id(width, height) < NUM_BUCKETS,
{
    let m = max_edge(width, height) as nat;
    assert(pow2(14) == 16384) by {
        lemma2_to64();
    }
    if m >= 1 {
        lemma_ceil_log2_is_least(m, 14);
    }
}

impl Renderer {
    /// The bucket and padded slot size for a texture of the given dimensions.
    /// Deterministic in the dimensions; the assigned bucket is always below
    /// the configured bucket count. See [`Renderer::try_bucket_info`] for the
    /// checking form covering arbitrary sizes.
    pub fn bucket_info(width: u32, height: u32) -> (r: (u32, u32))
        requires
            max_edge(width, height) <= MAX_TEXTURE_SIZE,
        ensures
            r.0 == spec_bucket_id(width, height),
            r.1 == spec_padded_size(width, height),
            1 <= r.0 < NUM_BUCKETS,
    {
        let m: u32 = if width >= height {
            width
        } else {
            height
        };
        let mut k: u32 = 0;
        let mut p: u32 = 1;
        proof {
            lemma2_to64();
        }
        while p < m
            invariant
                p == pow2(k as nat),
                k > 0 ==> pow2((k - 1) as nat) < m,
                p >= 1,
                p <= 32768,
                k <= 15,
                m <= MAX_TEXTURE_SIZE,
            decreases 15 - k,
        {
            proof {
                lemma_pow2_adds(k as nat, 1);
                lemma2_to64();
                lemma_pow2_pos(k as nat);
                assert(k < 14) by {
                    if k >= 14 {
                        if k > 14 {
                            lemma_pow2_strictly_increases(14, k as nat);
                        }
                        assert(pow2(k as nat) >= 16384);
                    }
                }
            }
            p = p * 2;
            k = k + 1;
        }
        proof {
            lemma_ceil_log2_unique(m as nat, k as nat);
            lemma_bucket_in_range(width, height);
        }
        let bucket: u32 = if k <= 4 {
            1
        } else {
            k - 3
        };
        let size: u32 = if k <= 4 {
            16
        } else {
            p
        };
        proof {
            assert(pow2(4) == 16) by {
                lemma2_to64();
            }
        }
        (bucket, size)
    }

    /// The checking form of [`Renderer::bucket_info`]: assigns a bucket
    /// exactly to the sizes the configured bucket count admits, and reports
    /// the capacity violation for anything larger.
    pub fn try_bucket_info(width: u32, height: u32) -> (r: Option<(u32, u32)>)
        ensures
            r is Some <==> max_edge(width, height) <= MAX_TEXTURE_SIZE,
            r matches Some(b) ==> {
                &&& b.0 == spec_bucket_id(width, height)
                &&& b.1 == spec_padded_size(width, height)
                &&& 1 <= b.0 < NUM_BUCKETS
            },
    {
        let m: u32 = if width >= height {
            width
        } else {
            height
        };
        if m <= MAX_TEXTURE_SIZE {
            Some(Self::bucket_info(width, height))
        } else {
            None
        }
    }
}

// ---------------------------------------------------------------------------
// Resolved draw actions
// ---------------------------------------------------------------------------

/// Filtering used when blitting between targets.
#[derive(Clone, Copy, PartialEq, Eq, Structural, Debug)]
pub enum TextureFilter {
    Nearest,
    Linear,
}

/// A rectangle in integral pixel coordinates, for blit operations.
#[derive(Clone, Copy, PartialEq, Eq, Structural, Debug)]
pub struct PixelRect {
    pub x0: i32,
    pub y0: i32,
    pub x1: i32,
    pub y1: i32,
}

/// A resolved clear: fill the target with the color.
#[derive(Clone, Copy, PartialEq, Eq, Structural, Debug)]
pub struct ClearAction {
    pub target: RenderTarget,
    pub color: Color,
}

/// A resolved layer draw: one draw call covering the layer's completed
/// vertices, against the resolved target, with the layer's presentation
/// state.
#[derive(Clone, Copy, PartialEq, Eq, Debug)]
pub struct DrawLayerAction {
    /// Where the draw goes: the top of the target stack at dispatch.
    pub target: RenderTarget,
    /// Which layer's buffer to draw.
    pub layer_id: u64,
    /// How many completed vertices the draw covers.
    pub vertex_count: usize,
    /// The sprite component requested; sprites not supporting it are skipped
    /// by the backend's primitive assembly, not filtered here.
    pub component: u32,
    /// Whether the layer's own program replaces the renderer default.
    pub uses_layer_program: bool,
    /// Whether the buffer changed since the last flush, so the backend must
    /// re-upload its vertex buffer.
    pub needs_upload: bool,
    pub blend: BlendMode,
    pub view: ViewSource,
    pub model: Mat4,
    pub color: Color,
}

/// A resolved blit between two targets; no blending, no program.
#[derive(Clone, Copy, PartialEq, Eq, Structural, Debug)]
pub struct BlitAction {
    pub source: RenderTarget,
    pub target: RenderTarget,
    /// Sub-rectangle to read; the whole source when absent.
    pub source_rect: Option<PixelRect>,
    /// Sub-rectangle to overwrite; the whole target when absent.
    pub target_rect: Option<PixelRect>,
    pub filter: TextureFilter,
}

/// Where an ad-hoc rectangle draw takes its view matrix from, in the
/// enumerated priority resolved once per draw call.
#[derive(Clone, Copy, PartialEq, Eq, Debug)]
pub enum DrawViewSource {
    /// An explicit matrix.
    Matrix(Mat4),
    /// The unit viewport.
    One,
    /// A viewport derived from the current target's dimensions.
    Target,
    /// A viewport derived from the given display's dimensions.
    Display(DisplayId),
    /// A viewport derived from the source texture's dimensions.
    Source,
}

/// The settled view-matrix source of a rectangle draw; where a viewport is
/// derived from dimensions, the backend reads them at draw time.
#[derive(Clone, Copy, PartialEq, Eq, Debug)]
pub enum ResolvedView {
    Matrix(Mat4),
    UnitViewport,
    TargetViewport,
    DisplayViewport(DisplayId),
    SourceViewport(TextureId),
}

/// Configuration of an ad-hoc rectangle draw: the target rectangle and the
/// optional overrides, resolved against the renderer defaults by
/// [`Renderer::draw_rect`].
#[derive(Clone, Copy, PartialEq, Eq, Debug)]
pub struct DrawConfig {
    /// The rectangle to cover, in view space.
    pub target_rect: Rect,
    /// Color multiplicator; white when absent.
    pub color: Option<Color>,
    /// Blend mode; alpha blending when absent.
    pub blendmode: Option<BlendMode>,
    /// Model matrix; identity when absent.
    pub model_matrix: Option<Mat4>,
    /// Where the view matrix comes from.
    pub view_source: DrawViewSource,
    /// The texture to cover the rectangle with, if any.
    pub texture: Option<TextureId>,
}

impl DrawConfig {
    /// Configuration covering the given rectangle, viewed through the
    /// current target's own viewport.
    pub fn rect(target_rect: Rect) -> (c: DrawConfig)
        ensures
            c == (DrawConfig {
                target_rect,
                color: None,
                blendmode: None,
                model_matrix: None,
                view_source: DrawViewSource::Target,
                texture: None,
            }),
    {
        DrawConfig {
            target_rect,
            color: None,
            blendmode: None,
            model_matrix: None,
            view_source: DrawViewSource::Target,
            texture: None,
        }
    }

    /// Configuration filling the entire current target: the unit rectangle
    /// under the unit viewport.
    pub fn fill() -> (c: DrawConfig)
        ensures
            c == (DrawConfig {
                target_rect: Rect {
                    min: crate::scalar::Point { x: SCALAR_ZERO, y: SCALAR_ZERO },
                    max: crate::scalar::Point { x: SCALAR_ONE, y: SCALAR_ONE },
                },
                color: None,
                blendmode: None,
                model_matrix: None,
                view_source: DrawViewSource::One,
                texture: None,
            }),
    {
        DrawConfig {
            target_rect: Rect {
                min: crate::scalar::Point { x: SCALAR_ZERO, y: SCALAR_ZERO },
                max: crate::scalar::Point { x: SCALAR_ONE, y: SCALAR_ONE },
            },
            color: None,
            blendmode: None,
            model_matrix: None,
            view_source: DrawViewSource::One,
            texture: None,
        }
    }
}

/// The settled view source of a configuration: explicit matrix and unit
/// viewport stand as given; target, display and source viewports name where
/// the backend reads the dimensions.
pub open spec fn spec_resolve_view(config: DrawConfig) -> ResolvedView {
    match config.view_source {
        DrawViewSource::Matrix(m) => ResolvedView::Matrix(m),
        DrawViewSource::One => ResolvedView::UnitViewport,
        DrawViewSource::Target => ResolvedView::TargetViewport,
        DrawViewSource::Display(d) => ResolvedView::DisplayViewport(d),
        DrawViewSource::Source => ResolvedView::SourceViewport(
            config.texture->Some_0,
        ),
    }
}

/// A resolved ad-hoc rectangle draw.
#[derive(Clone, Copy, Debug)]
pub struct DrawRectAction<'a> {
    /// Where the draw goes: the top of the target stack at dispatch.
    pub target: RenderTarget,
    /// The rectangle to cover.
    pub target_rect: Rect,
    /// The program the draw runs with: the caller's, or the renderer
    /// default.
    pub program: &'a Program,
    /// The texture to cover the rectangle with, if any.
    pub texture: Option<TextureId>,
    pub color: Color,
    pub blendmode: BlendMode,
    pub model_matrix: Mat4,
    pub view: ResolvedView,
}

// ---------------------------------------------------------------------------
// The renderer
// ---------------------------------------------------------------------------

/// Renders layers and textures to the display or to offscreen textures. Not
/// thread-safe: one thread drives the render loop; accumulation into layers
/// may happen anywhere.
pub struct Renderer {
    program: Program,
    targets: Vec<RenderTarget>,
}

impl Renderer {
    /// The target stack; the last element receives the draws.
    pub closed spec fn spec_targets(&self) -> Seq<RenderTarget> {
        self.targets@
    }

    /// The default program, used whenever no other is given.
    pub closed spec fn spec_default_program(&self) -> Program {
        self.program
    }

    /// A renderer that draws to the given display by default.
    pub fn new(display: DisplayId, default_program: Program) -> (r: Renderer)
        ensures
            r.spec_targets() == seq![RenderTarget::Display(display)],
            r.spec_default_program() == default_program,
    {
        let mut targets: Vec<RenderTarget> = Vec::new();
        targets.push(RenderTarget::Display(display));
        proof {
            assert(targets@ =~= seq![RenderTarget::Display(display)]);
        }
        Renderer { program: default_program, targets }
    }

    /// A renderer without a target; one must be pushed before drawing.
    pub fn headless(default_program: Program) -> (r: Renderer)
        ensures
            r.spec_targets() == Seq::<RenderTarget>::empty(),
            r.spec_default_program() == default_program,
    {
        Renderer { program: default_program, targets: Vec::new() }
    }

    /// The default rendering program.
    pub fn default_program(&self) -> (p: &Program)
        ensures
            *p == self.spec_default_program(),
    {
        &self.program
    }

    /// How many targets the stack holds; draws need at least one.
    pub fn target_depth(&self) -> (n: usize)
        ensures
            n == self.spec_targets().len(),
    {
        self.targets.len()
    }

    /// The currently active target: the top of the stack.
    pub fn current_target(&self) -> (t: RenderTarget)
        requires
            self.spec_targets().len() > 0,
        ensures
            t == self.spec_targets().last(),
    {
        self.targets[self.targets.len() - 1]
    }

    /// Pushes a target: draws issued until the matching pop go to it.
    pub fn push_target(&mut self, target: RenderTarget)
        requires
            old(self).spec_targets().len() < usize::MAX,
        ensures
            final(self).spec_targets() == old(self).spec_targets().push(target),
            final(self).spec_default_program() == old(self).spec_default_program(),
    {
        self.targets.push(target);
    }

    /// Pops a target, restoring the previously active one. Only ever called
    /// paired with a prior push; the stack never empties during normal
    /// operation (see [`lemma_scope_restores`]).
    pub fn pop_target(&mut self)
        requires
            old(self).spec_targets().len() > 0,
        ensures
            final(self).spec_targets() == old(self).spec_targets().drop_last(),
            final(self).spec_default_program() == old(self).spec_default_program(),
    {
        self.targets.pop();
    }

    /// Resolves a clear of the current target.
    pub fn clear(&self, color: Color) -> (a: ClearAction)
        requires
            self.spec_targets().len() > 0,
        ensures
            a.target == self.spec_targets().last(),
            a.color == color,
    {
        ClearAction { target: self.current_target(), color }
    }

    /// Resolves one draw call covering the layer's completed vertices
    /// against the current target: the layer's own program when it has one,
    /// the renderer default otherwise; the layer's blend, matrices and color
    /// as they stand. Reads and lowers the layer's dirty flag so the backend
    /// knows whether to re-upload. Drawing an empty layer is a no-op.
    pub fn draw_layer(&self, layer: &mut Layer, component: u32) -> (a: Option<
        DrawLayerAction,
    >)
        requires
            self.spec_targets().len() > 0,
            old(layer).wf(),
        ensures
            a is Some <==> old(layer).contents.spec_vertices().len() > 0,
            a matches Some(action) ==> {
                &&& action.target == self.spec_targets().last()
                &&& action.layer_id == old(layer).contents.spec_id()
                &&& action.vertex_count == old(layer).contents.spec_vertices().len()
                &&& action.component == component
                &&& action.uses_layer_program == (old(layer).spec_program() is Some)
                &&& action.needs_upload == old(layer).contents.spec_dirty()
                &&& action.blend == old(layer).spec_blend()
                &&& action.view == old(layer).spec_view()
                &&& action.model == old(layer).spec_model()
                &&& action.color == old(layer).spec_color()
            },
            final(layer).contents.spec_vertices() == old(layer).contents.spec_vertices(),
            final(layer).contents.spec_generation() == old(
                layer,
            ).contents.spec_generation(),
            final(layer).contents.spec_id() == old(layer).contents.spec_id(),
            final(layer).contents.spec_vertex_capacity() == old(
                layer,
            ).contents.spec_vertex_capacity(),
            final(layer).same_style(old(layer)),
            final(layer).contents.spec_dirty() == (if a is Some {
                false
            } else {
                old(layer).contents.spec_dirty()
            }),
            final(layer).wf(),
    {
        let has_program = match layer.program() {
            Some(_) => true,
            None => false,
        };
        let view = layer.view_matrix();
        let model = layer.model_matrix();
        let blend = layer.blendmode();
        let color = layer.color();
        self.draw_contents(&mut layer.contents, view, model, blend, color, has_program, component)
    }

    /// Resolves one draw call over a layer's shared contents and its
    /// per-clone presentation state, handed in as values — the flush path of
    /// an embedding that shares one `LayerContents` among clones behind its
    /// own lock. Reads and lowers the dirty flag; an empty buffer is a
    /// no-op.
    pub fn draw_contents(
        &self,
        contents: &mut LayerContents,
        view: ViewSource,
        model: Mat4,
        blend: BlendMode,
        color: Color,
        has_program: bool,
        component: u32,
    ) -> (a: Option<DrawLayerAction>)
        requires
            self.spec_targets().len() > 0,
            old(contents).wf(),
        ensures
            a is Some <==> old(contents).spec_vertices().len() > 0,
            a matches Some(action) ==> {
                &&& action.target == self.spec_targets().last()
                &&& action.layer_id == old(contents).spec_id()
                &&& action.vertex_count == old(contents).spec_vertices().len()
                &&& action.component == component
                &&& action.uses_layer_program == has_program
                &&& action.needs_upload == old(contents).spec_dirty()
                &&& action.blend == blend
                &&& action.view == view
                &&& action.model == model
                &&& action.color == color
            },
            final(contents).spec_vertices() == old(contents).spec_vertices(),
            final(contents).spec_generation() == old(contents).spec_generation(),
            final(contents).spec_id() == old(contents).spec_id(),
            final(contents).spec_vertex_capacity() == old(contents).spec_vertex_capacity(),
            final(contents).spec_dirty() == (if a is Some {
                false
            } else {
                old(contents).spec_dirty()
            }),
            final(contents).wf(),
    {
        let vertex_count = contents.snapshot().len();
        if vertex_count == 0 {
            return None;
        }
        let needs_upload = contents.undirty();
        Some(DrawLayerAction {
            target: self.current_target(),
            layer_id: contents.id(),
            vertex_count,
            component,
            uses_layer_program: has_program,
            needs_upload,
            blend,
            view,
            model,
            color,
        })
    }

    /// The program a resolved layer draw runs with: the layer's own when it
    /// has one, the renderer default otherwise — for the backend performing
    /// a [`DrawLayerAction`].
    pub fn resolve_layer_program<'a>(&'a self, layer: &'a Layer) -> (p: &'a Program)
        ensures
            *p == (match layer.spec_program() {
                Some(q) => q,
                None => self.spec_default_program(),
            }),
    {
        match layer.program() {
            Some(p) => p,
            None => &self.program,
        }
    }

    /// Starts an ad-hoc draw covering the given rectangle of the current
    /// target, viewed through the target's own viewport; the configuration
    /// is completed field by field and passed to [`Renderer::draw_rect`].
    pub fn rect(&self, target_rect: Rect) -> (c: DrawConfig)
        ensures
            c == (DrawConfig {
                target_rect,
                color: None,
                blendmode: None,
                model_matrix: None,
                view_source: DrawViewSource::Target,
                texture: None,
            }),
    {
        DrawConfig::rect(target_rect)
    }

    /// Starts an ad-hoc draw filling the entire current target; a
    /// specialization of [`Renderer::rect`].
    pub fn fill(&self) -> (c: DrawConfig)
        ensures
            c == (DrawConfig {
                target_rect: Rect {
                    min: crate::scalar::Point { x: SCALAR_ZERO, y: SCALAR_ZERO },
                    max: crate::scalar::Point { x: SCALAR_ONE, y: SCALAR_ONE },
                },
                color: None,
                blendmode: None,
                model_matrix: None,
                view_source: DrawViewSource::One,
                texture: None,
            }),
    {
        DrawConfig::fill()
    }

    /// Resolves an ad-hoc rectangle draw against the current target: the
    /// caller's program over the default, the configured color, blend mode
    /// and model matrix over white, alpha blending and identity, and the
    /// view matrix by the enumerated source priority. Deriving the view from
    /// the source requires a source texture.
    pub fn draw_rect<'a>(&'a self, config: DrawConfig, custom_program: Option<&'a Program>)
        -> (a: DrawRectAction<'a>)
        requires
            self.spec_targets().len() > 0,
            config.view_source is Source ==> config.texture is Some,
        ensures
            a.target == self.spec_targets().last(),
            a.target_rect == config.target_rect,
            *a.program == (match custom_program {
                Some(p) => *p,
                None => self.spec_default_program(),
            }),
            a.texture == config.texture,
            a.color == (match config.color {
                Some(c) => c,
                None => spec_white(),
            }),
            a.blendmode == (match config.blendmode {
                Some(b) => b,
                None => spec_alpha(),
            }),
            a.model_matrix == (match config.model_matrix {
                Some(m) => m,
                None => (Mat4 { cells: spec_identity_cells() }),
            }),
            a.view == spec_resolve_view(config),
    {
        let color = match config.color {
            Some(c) => c,
            None => Color::white(),
        };
        let blendmode = match config.blendmode {
            Some(b) => b,
            None => alpha(),
        };
        let model_matrix = match config.model_matrix {
            Some(m) => m,
            None => Mat4::identity(),
        };
        let view = match config.view_source {
            DrawViewSource::Matrix(m) => ResolvedView::Matrix(m),
            DrawViewSource::One => ResolvedView::UnitViewport,
            DrawViewSource::Target => ResolvedView::TargetViewport,
            DrawViewSource::Display(d) => ResolvedView::DisplayViewport(d),
            DrawViewSource::Source => match config.texture {
                Some(t) => ResolvedView::SourceViewport(t),
                None => ResolvedView::UnitViewport,
            },
        };
        DrawRectAction {
            target: self.current_target(),
            target_rect: config.target_rect,
            program: match custom_program {
                Some(p) => p,
                None => &self.program,
            },
            texture: config.texture,
            color,
            blendmode,
            model_matrix,
            view,
        }
    }

    /// Resolves a full copy of the source over the entire current target; a
    /// blit, bypassing blend and program entirely.
    pub fn copy_from(&self, source: RenderTarget, filter: TextureFilter) -> (a: BlitAction)
        requires
            self.spec_targets().len() > 0,
        ensures
            a.source == source,
            a.target == self.spec_targets().last(),
            a.source_rect is None,
            a.target_rect is None,
            a.filter == filter,
    {
        BlitAction {
            source,
            target: self.current_target(),
            source_rect: None,
            target_rect: None,
            filter,
        }
    }

    /// Resolves a copy of a source rectangle onto a rectangle of the current
    /// target; coordinates are integral pixels, top-left at the origin, and
    /// must lie within their respective surfaces.
    pub fn copy_rect_from(
        &self,
        source: RenderTarget,
        source_rect: PixelRect,
        target_rect: PixelRect,
        filter: TextureFilter,
    ) -> (a: BlitAction)
        requires
            self.spec_targets().len() > 0,
        ensures
            a.source == source,
            a.target == self.spec_targets().last(),
            a.source_rect == Some(source_rect),
            a.target_rect == Some(target_rect),
            a.filter == filter,
    {
        BlitAction {
            source,
            target: self.current_target(),
            source_rect: Some(source_rect),
            target_rect: Some(target_rect),
            filter,
        }
    }
}

// ---------------------------------------------------------------------------
// The target stack and its scope law
// ---------------------------------------------------------------------------

/// One operation on the target stack.
#[derive(Clone, Copy, PartialEq, Eq, Structural, Debug)]
pub enum StackOp {
    Push(RenderTarget),
    Pop,
}

/// The net depth change of a sequence of stack operations.
pub open spec fn net_depth(ops: Seq<StackOp>) -> int
    decreases ops.len(),
{
    if ops.len() == 0 {
        0
    } else {
        net_depth(ops.drop_last()) + (match ops.last() {
            StackOp::Push(_) => 1int,
            StackOp::Pop => -1int,
        })
    }
}

/// A scope's stack operations are balanced: no prefix pops below the depth
/// at scope entry, and the scope ends at that depth.
pub open spec fn balanced(ops: Seq<StackOp>) -> bool {
    &&& (forall|i: int| 0 <= i <= ops.len() ==> net_depth(#[trigger] ops.take(i)) >= 0)
    &&& net_depth(ops) == 0
}

/// The stack after applying one operation (popping an empty stack leaves it
/// empty; a balanced scope never does).
pub open spec fn apply_op(s: Seq<RenderTarget>, op: StackOp) -> Seq<RenderTarget> {
    match op {
        StackOp::Push(t) => s.push(t),
        StackOp::Pop => if s.len() == 0 {
            s
        } else {
            s.drop_last()
        },
    }
}

/// The stack after applying a sequence of operations, first to last.
pub open spec fn apply_ops(s: Seq<RenderTarget>, ops: Seq<StackOp>) -> Seq<RenderTarget>
    decreases ops.len(),
{
    if ops.len() == 0 {
        s
    } else {
        apply_op(apply_ops(s, ops.drop_last()), ops.last())
    }
}

/// While no prefix dips below the starting depth, the starting stack is never
/// touched: the result keeps it as a prefix and only the net depth varies.
pub proof fn lemma_stack_floor(s: Seq<RenderTarget>, ops: Seq<StackOp>)
    requires
        forall|i: int| 0 <= i <= ops.len() ==> net_depth(#[trigger] ops.take(i)) >= 0,
    ensures
        apply_ops(s, ops).len() == s.len() + net_depth(ops),
        forall|j: int| 0 <= j < s.len() ==> apply_ops(s, ops)[j] == s[j],
    decreases ops.len(),
{
    if ops.len() > 0 {
        let prefix = ops.drop_last();
        assert forall|i: int| 0 <= i <= prefix.len() implies net_depth(
            #[trigger] prefix.take(i),
        ) >= 0 by {
            assert(prefix.take(i) =~= ops.take(i));
        }
        lemma_stack_floor(s, prefix);
        let mid = apply_ops(s, prefix);
        assert(prefix.take(prefix.len() as int) =~= prefix);
        assert(ops.take(ops.len() as int) =~= ops);
        match ops.last() {
            StackOp::Push(_) => {}
            StackOp::Pop => {
                assert(net_depth(ops) == net_depth(prefix) - 1);
                assert(net_depth(ops) >= 0);
                assert(mid.len() > s.len());
            }
        }
    }
}

/// The scope law: push a target, run any balanced scope — draws, nested
/// scopes, whatever it issues, on any exit path — then pop: the previously
/// active stack is restored exactly.
pub proof fn lemma_scope_restores(s: Seq<RenderTarget>, t: RenderTarget, ops: Seq<StackOp>)
    requires
        balanced(ops),
    ensures
        apply_op(apply_ops(s.push(t), ops), StackOp::Pop) == s,
{
    lemma_stack_floor(s.push(t), ops);
    let inner = apply_ops(s.push(t), ops);
    assert(inner.len() == s.len() + 1);
    assert forall|j: int| 0 <= j < s.len() + 1 implies inner[j] == s.push(t)[j] by {}
    assert(inner =~= s.push(t));
    assert(apply_op(inner, StackOp::Pop) =~= s);
}

} // verus!
