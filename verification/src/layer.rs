//! Layers: the drawing surfaces application code accumulates geometry into.
//!
//! A layer couples per-clone presentation state (view and model matrix, blend
//! mode, color multiplicator, optional program) with [`LayerContents`]: the
//! vertex buffer, a dirty flag for renderer bookkeeping, a generation tag
//! distinguishing logical drawing passes, and the layer's identity. Clones of
//! a layer carry independent presentation state over the same contents; an
//! embedding that shares one `LayerContents` among clones and threads wraps
//! it in its own synchronization and calls the operations here, each of which
//! is one atomic step on the contents.

use vstd::prelude::*;
use crate::buffer::{AppendBuffer, grown_capacity};
use crate::blendmode::{BlendMode, spec_alpha, alpha};
use crate::color::{Color, spec_white};
use crate::scalar::{Mat4, Point, Rect, Scalar};
use crate::program::Program;

verus! {

/// Default room for sprites in a fresh layer, in quads.
pub const INITIAL_SPRITE_CAPACITY: usize = 512;

/// One corner vertex of a sprite quad, as uploaded to the backend.
#[derive(Clone, Copy, PartialEq, Eq, Structural, Debug)]
pub struct Vertex {
    /// Position of the quad's anchor in layer space.
    pub position: Point,
    /// This corner's offset from the anchor, scaled but unrotated.
    pub offset: Point,
    /// Rotation around the anchor, in radians (payload).
    pub rotation: Scalar,
    /// Color multiplicator.
    pub color: Color,
    /// Texture-atlas bucket holding the sprite's texture.
    pub bucket_id: u32,
    /// Texture index within the bucket.
    pub texture_id: u32,
    /// This corner's texture coordinates.
    pub texture_uv: Point,
    /// Sprite component mask the quad belongs to.
    pub components: u32,
}

/// The anchor-relative corner extents of a quad: the scaled offsets of its
/// left/right edges and top/bottom edges from the anchor.
#[derive(Clone, Copy, PartialEq, Eq, Structural, Debug)]
pub struct QuadExtents {
    /// Offset of the left edge.
    pub x0: Scalar,
    /// Offset of the right edge.
    pub x1: Scalar,
    /// Offset of the top edge.
    pub y0: Scalar,
    /// Offset of the bottom edge.
    pub y1: Scalar,
}

/// Everything that describes one sprite quad to be appended to a layer.
#[derive(Clone, Copy, PartialEq, Eq, Structural, Debug)]
pub struct QuadParams {
    /// Generation tag of the logical drawing pass, if the write is tagged.
    pub generation: Option<u64>,
    /// Texture-atlas bucket.
    pub bucket_id: u8,
    /// Texture index within the bucket.
    pub texture_id: u32,
    /// Sprite component mask.
    pub components: u8,
    /// Texture coordinates of the quad.
    pub uv: Rect,
    /// Anchor position in layer space.
    pub pos: Point,
    /// Scaled corner offsets from the anchor.
    pub extents: QuadExtents,
    /// Color multiplicator.
    pub color: Color,
    /// Rotation around the anchor (payload).
    pub rotation: Scalar,
}

/// The four vertices of a quad, in the fixed corner order: top-left,
/// top-right, bottom-left, bottom-right. Each corner takes its UV corner and
/// its pair of edge offsets; everything else is shared.
pub open spec fn quad_vertices(q: QuadParams) -> Seq<Vertex> {
    seq![
        Vertex {
            position: q.pos,
            offset: Point { x: q.extents.x0, y: q.extents.y0 },
            rotation: q.rotation,
            color: q.color,
            bucket_id: q.bucket_id as u32,
            texture_id: q.texture_id,
            texture_uv: q.uv.min,
            components: q.components as u32,
        },
        Vertex {
            position: q.pos,
            offset: Point { x: q.extents.x1, y: q.extents.y0 },
            rotation: q.rotation,
            color: q.color,
            bucket_id: q.bucket_id as u32,
            texture_id: q.texture_id,
            texture_uv: Point { x: q.uv.max.x, y: q.uv.min.y },
            components: q.components as u32,
        },
        Vertex {
            position: q.pos,
            offset: Point { x: q.extents.x0, y: q.extents.y1 },
            rotation: q.rotation,
            color: q.color,
            bucket_id: q.bucket_id as u32,
            texture_id: q.texture_id,
            texture_uv: Point { x: q.uv.min.x, y: q.uv.max.y },
            components: q.components as u32,
        },
        Vertex {
            position: q.pos,
            offset: Point { x: q.extents.x1, y: q.extents.y1 },
            rotation: q.rotation,
            color: q.color,
            bucket_id: q.bucket_id as u32,
            texture_id: q.texture_id,
            texture_uv: q.uv.max,
            components: q.components as u32,
        },
    ]
}

/// The vertices produced by a sequence of quad writes, in order.
pub open spec fn quads_vertices(qs: Seq<QuadParams>) -> Seq<Vertex>
    decreases qs.len(),
{
    if qs.len() == 0 {
        Seq::empty()
    } else {
        quads_vertices(qs.drop_last()) + quad_vertices(qs.last())
    }
}

/// Accumulation law: however many quad writes are interleaved — concurrent
/// writers linearize to some sequence of atomic appends — the buffer holds
/// exactly four vertices per quad, and the four vertices of the `i`-th quad
/// are contiguous, in slots `4i .. 4i+4`, in the fixed corner order.
pub proof fn lemma_quad_accumulation(qs: Seq<QuadParams>)
    ensures
        quads_vertices(qs).len() == 4 * qs.len(),
        forall|i: int|
            0 <= i < qs.len() ==> quads_vertices(qs).subrange(4 * i, 4 * i + 4)
                == quad_vertices(qs[i]),
    decreases qs.len(),
{
    if qs.len() > 0 {
        let prefix = qs.drop_last();
        lemma_quad_accumulation(prefix);
        assert(quads_vertices(qs) == quads_vertices(prefix) + quad_vertices(qs.last()));
        assert(quads_vertices(prefix).len() == 4 * prefix.len());
        assert(quad_vertices(qs.last()).len() == 4);
        assert forall|i: int|
            0 <= i < qs.len() implies quads_vertices(qs).subrange(4 * i, 4 * i + 4)
            == quad_vertices(qs[i]) by {
            if i < prefix.len() {
                assert(quads_vertices(prefix).subrange(4 * i, 4 * i + 4)
                    == quad_vertices(prefix[i]));
                assert(prefix[i] == qs[i]);
                assert(quads_vertices(qs).subrange(4 * i, 4 * i + 4)
                    =~= quads_vertices(prefix).subrange(4 * i, 4 * i + 4));
            } else {
                assert(i == prefix.len());
                assert(qs[i] == qs.last());
                assert(quads_vertices(qs).subrange(4 * i, 4 * i + 4)
                    =~= quad_vertices(qs.last()));
            }
        }
    }
}

/// The accumulation law anchored at a buffer state: a buffer that held
/// `init` and took the quad writes `qs` — an empty `init` after a clear —
/// holds `init` untouched, exactly four vertices per quad behind it, and the
/// `i`-th quad's corners contiguous and in order. A later frame never
/// disturbs what stood before it, and after a clear it consists of its own
/// quads alone.
pub proof fn lemma_accumulated_contents(init: Seq<Vertex>, qs: Seq<QuadParams>)
    ensures
        (init + quads_vertices(qs)).len() == init.len() + 4 * qs.len(),
        (init + quads_vertices(qs)).take(init.len() as int) == init,
        forall|i: int|
            0 <= i < qs.len() ==> (init + quads_vertices(qs)).subrange(
                init.len() + 4 * i,
                init.len() + 4 * i + 4,
            ) == quad_vertices(qs[i]),
{
    lemma_quad_accumulation(qs);
    let whole = init + quads_vertices(qs);
    assert(whole.take(init.len() as int) =~= init);
    assert forall|i: int|
        0 <= i < qs.len() implies whole.subrange(
        init.len() + 4 * i,
        init.len() + 4 * i + 4,
    ) == quad_vertices(qs[i]) by {
        assert(whole.subrange(init.len() + 4 * i, init.len() + 4 * i + 4)
            =~= quads_vertices(qs).subrange(4 * i, 4 * i + 4));
    }
}

/// Whether a write tagged `incoming` may enter a buffer whose current tag is
/// `current`: the buffer is untagged, or the write is untagged, or the tags
/// match. Anything else would commingle geometry from separate logical
/// passes.
pub open spec fn generation_accepts(current: u64, incoming: u64) -> bool {
    current == incoming || incoming == 0 || current == 0
}

/// Executable form of [`generation_accepts`].
pub fn generation_compatible(current: u64, incoming: u64) -> (b: bool)
    ensures
        b == generation_accepts(current, incoming),
{
    current == incoming || incoming == 0 || current == 0
}

/// After a clear the buffer is untagged, and an untagged buffer accepts a
/// write of any generation.
pub proof fn lemma_clear_enables_any_generation(g: u64)
    ensures
        generation_accepts(0, g),
{
}

/// The generation rules: an untagged write is always accepted; two distinct
/// nonzero tags never mix.
pub proof fn lemma_generation_rules(current: u64, incoming: u64)
    ensures
        incoming == 0 ==> generation_accepts(current, incoming),
        current != 0 && incoming != 0 && current != incoming
            ==> !generation_accepts(current, incoming),
{
}

/// Rejecting a tagged write: its generation and the buffer's are distinct and
/// both nonzero.
#[derive(Clone, Copy, PartialEq, Eq, Structural, Debug)]
pub enum LayerError {
    /// The buffer still holds geometry from a different logical pass; it must
    /// be cleared before a pass with another generation writes to it.
    GenerationConflict,
}

/// Hands out layer identities: starting at one, monotonic, never reused.
pub struct LayerIds {
    next: u64,
}

impl LayerIds {
    /// The identity the next layer will receive.
    pub closed spec fn spec_next(&self) -> u64 {
        self.next
    }

    /// Identities start at one; zero never names a layer.
    pub open spec fn wf(&self) -> bool {
        self.spec_next() >= 1
    }

    /// A fresh identity source. The embedding keeps one per process, so
    /// identities are process-lifetime: monotonic and never reused.
    pub fn new() -> (ids: LayerIds)
        ensures
            ids.spec_next() == 1,
            ids.wf(),
    {
        LayerIds { next: 1 }
    }

    /// The identity the next layer will receive, without assigning it.
    pub fn next_id(&self) -> (id: u64)
        ensures
            id == self.spec_next(),
    {
        self.next
    }

    /// Hands out the next identity.
    pub fn allocate(&mut self) -> (id: u64)
        requires
            old(self).wf(),
            old(self).spec_next() < u64::MAX,
        ensures
            id == old(self).spec_next(),
            final(self).spec_next() == id + 1,
            id >= 1,
            final(self).wf(),
    {
        let id = self.next;
        self.next = self.next + 1;
        id
    }
}

/// The contents shared by all clones of a layer: the vertex buffer, the dirty
/// flag, the generation tag and the layer's identity.
pub struct LayerContents {
    vertices: AppendBuffer<Vertex>,
    dirty: bool,
    generation: u64,
    layer_id: u64,
}

impl LayerContents {
    /// The completed vertices, in append order.
    pub closed spec fn spec_vertices(&self) -> Seq<Vertex> {
        self.vertices@
    }

    /// Whether geometry was appended (or the buffer cleared) since the last
    /// renderer flush.
    pub closed spec fn spec_dirty(&self) -> bool {
        self.dirty
    }

    /// The generation tag of the pass the buffer currently holds; zero when
    /// untagged.
    pub closed spec fn spec_generation(&self) -> u64 {
        self.generation
    }

    /// The layer's identity.
    pub closed spec fn spec_id(&self) -> u64 {
        self.layer_id
    }

    /// Room for vertices before a blocking growth.
    pub closed spec fn spec_vertex_capacity(&self) -> nat {
        self.vertices.spec_capacity()
    }

    /// The buffer invariant holds.
    pub open spec fn wf(&self) -> bool {
        &&& self.spec_vertices().len() <= self.spec_vertex_capacity()
        &&& self.spec_vertices().len() % 4 == 0
    }

    /// Fresh contents: empty, dirty (a first flush must upload), untagged.
    pub fn new(layer_id: u64, sprite_capacity: usize) -> (c: LayerContents)
        requires
            sprite_capacity <= usize::MAX / 4,
        ensures
            c.spec_vertices() == Seq::<Vertex>::empty(),
            c.spec_dirty(),
            c.spec_generation() == 0,
            c.spec_id() == layer_id,
            c.spec_vertex_capacity() == 4 * sprite_capacity,
            c.wf(),
    {
        LayerContents {
            vertices: AppendBuffer::new(sprite_capacity * 4),
            dirty: true,
            generation: 0,
            layer_id,
        }
    }

    /// Appends one quad: reserves four contiguous slots and fills the corners
    /// in the fixed order. A tagged write must be compatible with the current
    /// generation — an incompatible tagged write is a contract violation (see
    /// [`Self::try_add_quad`] for the checking form) — and retags the buffer;
    /// an untagged write leaves the tag alone. Marks the contents dirty.
    pub fn add_quad(&mut self, q: QuadParams)
        requires
            old(self).wf(),
            old(self).spec_vertices().len() + 4 <= usize::MAX,
            q.generation matches Some(g) ==> generation_accepts(
                old(self).spec_generation(),
                g,
            ),
        ensures
            final(self).spec_vertices() == old(self).spec_vertices() + quad_vertices(q),
            final(self).spec_dirty(),
            final(self).spec_generation() == (match q.generation {
                Some(g) => g,
                None => old(self).spec_generation(),
            }),
            final(self).spec_id() == old(self).spec_id(),
            final(self).spec_vertex_capacity() == grown_capacity(
                old(self).spec_vertex_capacity(),
                old(self).spec_vertices().len() + 4,
            ),
            final(self).wf(),
    {
        self.dirty = true;
        if let Some(g) = q.generation {
            self.generation = g;
        }
        let corners: Vec<Vertex> = quad_corners(q);
        self.vertices.append(corners);
    }

    /// The checking form of [`Self::add_quad`]: rejects an incompatible
    /// tagged write, leaving the contents untouched, and accepts exactly the
    /// writes `add_quad` admits.
    pub fn try_add_quad(&mut self, q: QuadParams) -> (r: Result<(), LayerError>)
        requires
            old(self).wf(),
            old(self).spec_vertices().len() + 4 <= usize::MAX,
        ensures
            r is Ok <==> (q.generation matches Some(g) ==> generation_accepts(
                old(self).spec_generation(),
                g,
            )),
            r is Err ==> *final(self) == *old(self),
            r is Ok ==> {
                &&& final(self).spec_vertices() == old(self).spec_vertices()
                    + quad_vertices(q)
                &&& final(self).spec_dirty()
                &&& final(self).spec_generation() == (match q.generation {
                    Some(g) => g,
                    None => old(self).spec_generation(),
                })
                &&& final(self).spec_id() == old(self).spec_id()
                &&& final(self).spec_vertex_capacity() == grown_capacity(
                    old(self).spec_vertex_capacity(),
                    old(self).spec_vertices().len() + 4,
                )
            },
            final(self).wf(),
    {
        let accepted = match q.generation {
            Some(g) => generation_compatible(self.generation, g),
            None => true,
        };
        if accepted {
            self.add_quad(q);
            Ok(())
        } else {
            Err(LayerError::GenerationConflict)
        }
    }

    /// Removes all geometry: the length returns to zero, and the tag and
    /// the dirty flag are both unset — a cleared buffer has nothing pending.
    /// The backing store is kept.
    pub fn clear(&mut self)
        requires
            old(self).wf(),
        ensures
            final(self).spec_vertices() == Seq::<Vertex>::empty(),
            !final(self).spec_dirty(),
            final(self).spec_generation() == 0,
            final(self).spec_id() == old(self).spec_id(),
            final(self).spec_vertex_capacity() == old(self).spec_vertex_capacity(),
            final(self).wf(),
    {
        self.dirty = false;
        self.generation = 0;
        self.vertices.clear();
    }

    /// Lowers the dirty flag and reports whether it was raised — the
    /// renderer's read-and-clear bookkeeping step.
    pub fn undirty(&mut self) -> (was_dirty: bool)
        ensures
            was_dirty == old(self).spec_dirty(),
            !final(self).spec_dirty(),
            final(self).spec_vertices() == old(self).spec_vertices(),
            final(self).spec_generation() == old(self).spec_generation(),
            final(self).spec_id() == old(self).spec_id(),
            final(self).spec_vertex_capacity() == old(self).spec_vertex_capacity(),
    {
        let was_dirty = self.dirty;
        self.dirty = false;
        was_dirty
    }

    /// Whether the contents are dirty.
    pub fn is_dirty(&self) -> (d: bool)
        ensures
            d == self.spec_dirty(),
    {
        self.dirty
    }

    /// The current generation tag; zero when untagged.
    pub fn generation(&self) -> (g: u64)
        ensures
            g == self.spec_generation(),
    {
        self.generation
    }

    /// The layer's identity.
    pub fn id(&self) -> (id: u64)
        ensures
            id == self.spec_id(),
    {
        self.layer_id
    }

    /// The number of sprites currently stored.
    pub fn sprite_len(&self) -> (n: usize)
        requires
            self.wf(),
        ensures
            n == self.spec_vertices().len() / 4,
    {
        self.vertices.len() / 4
    }

    /// How many sprites fit before a blocking reallocation.
    pub fn sprite_capacity(&self) -> (n: usize)
        ensures
            n == self.spec_vertex_capacity() / 4,
    {
        self.vertices.capacity() / 4
    }

    /// A consistent snapshot of all completed vertices. Appends after the
    /// snapshot was taken are not visible through it.
    pub fn snapshot(&self) -> (s: &Vec<Vertex>)
        ensures
            s@ == self.spec_vertices(),
    {
        self.vertices.snapshot()
    }
}

/// Builds the four corner vertices of a quad, in the fixed order.
fn quad_corners(q: QuadParams) -> (v: Vec<Vertex>)
    ensures
        v@ == quad_vertices(q),
{
    let base = Vertex {
        position: q.pos,
        offset: Point { x: q.extents.x0, y: q.extents.y0 },
        rotation: q.rotation,
        color: q.color,
        bucket_id: q.bucket_id as u32,
        texture_id: q.texture_id,
        texture_uv: q.uv.top_left(),
        components: q.components as u32,
    };
    let mut v: Vec<Vertex> = Vec::with_capacity(4);
    v.push(base);
    v.push(Vertex {
        offset: Point { x: q.extents.x1, y: q.extents.y0 },
        texture_uv: q.uv.top_right(),
        ..base
    });
    v.push(Vertex {
        offset: Point { x: q.extents.x0, y: q.extents.y1 },
        texture_uv: q.uv.bottom_left(),
        ..base
    });
    v.push(Vertex {
        offset: Point { x: q.extents.x1, y: q.extents.y1 },
        texture_uv: q.uv.bottom_right(),
        ..base
    });
    proof {
        assert(v@ =~= quad_vertices(q));
    }
    v
}

/// Where a layer's view matrix comes from: seeded from the layer's target
/// dimensions, or set explicitly.
#[derive(Clone, Copy, PartialEq, Eq, Debug)]
pub enum ViewSource {
    /// A viewport matrix mapping the given dimensions onto the whole target;
    /// the backend derives the cells at draw time.
    Viewport(Scalar, Scalar),
    /// An explicit matrix.
    Matrix(Mat4),
}

/// A drawing surface: per-clone presentation state over shared contents.
pub struct Layer {
    pub view: ViewSource,
    pub model: Mat4,
    pub blend: BlendMode,
    pub color: Color,
    pub program: Option<Program>,
    /// The shared geometry, dirty flag, generation and identity.
    pub contents: LayerContents,
}

impl Layer {
    /// The source of the view matrix.
    pub open spec fn spec_view(&self) -> ViewSource {
        self.view
    }

    /// The model matrix.
    pub open spec fn spec_model(&self) -> Mat4 {
        self.model
    }

    /// The blend mode.
    pub open spec fn spec_blend(&self) -> BlendMode {
        self.blend
    }

    /// The color multiplicator.
    pub open spec fn spec_color(&self) -> Color {
        self.color
    }

    /// The layer's own program, if one was attached.
    pub open spec fn spec_program(&self) -> Option<Program> {
        self.program
    }

    /// The presentation state is unchanged between two layer values.
    pub open spec fn same_style(&self, other: &Layer) -> bool {
        &&& self.spec_view() == other.spec_view()
        &&& self.spec_model() == other.spec_model()
        &&& self.spec_blend() == other.spec_blend()
        &&& self.spec_color() == other.spec_color()
        &&& self.spec_program() == other.spec_program()
    }

    /// The contents invariant holds.
    pub open spec fn wf(&self) -> bool {
        self.contents.wf()
    }

    /// Creates a layer with the given identity source and target-space
    /// dimensions. The dimensions only seed the initial view matrix; the
    /// layer itself is unbounded. Starts with the identity model matrix,
    /// alpha blending, a white color multiplicator and no program.
    pub fn new(ids: &mut LayerIds, width: Scalar, height: Scalar) -> (layer: Layer)
        requires
            old(ids).wf(),
            old(ids).spec_next() < u64::MAX,
        ensures
            layer.spec_view() == ViewSource::Viewport(width, height),
            layer.spec_model().cells == crate::scalar::spec_identity_cells(),
            layer.spec_blend() == spec_alpha(),
            layer.spec_color() == spec_white(),
            layer.spec_program() is None,
            layer.contents.spec_vertices() == Seq::<Vertex>::empty(),
            layer.contents.spec_dirty(),
            layer.contents.spec_generation() == 0,
            layer.contents.spec_id() == old(ids).spec_next(),
            layer.contents.spec_vertex_capacity() == 4 * INITIAL_SPRITE_CAPACITY,
            layer.wf(),
            final(ids).spec_next() == old(ids).spec_next() + 1,
            final(ids).wf(),
    {
        Self::create(ids, width, height, INITIAL_SPRITE_CAPACITY, None)
    }

    /// Creates a layer with a program of its own, used in place of the
    /// renderer's default when the layer is drawn.
    pub fn with_program(
        ids: &mut LayerIds,
        width: Scalar,
        height: Scalar,
        program: Program,
    ) -> (layer: Layer)
        requires
            old(ids).wf(),
            old(ids).spec_next() < u64::MAX,
        ensures
            layer.spec_view() == ViewSource::Viewport(width, height),
            layer.spec_model().cells == crate::scalar::spec_identity_cells(),
            layer.spec_blend() == spec_alpha(),
            layer.spec_color() == spec_white(),
            layer.spec_program() == Some(program),
            layer.contents.spec_vertices() == Seq::<Vertex>::empty(),
            layer.contents.spec_dirty(),
            layer.contents.spec_generation() == 0,
            layer.contents.spec_id() == old(ids).spec_next(),
            layer.wf(),
            final(ids).spec_next() == old(ids).spec_next() + 1,
            final(ids).wf(),
    {
        Self::create(ids, width, height, INITIAL_SPRITE_CAPACITY, Some(program))
    }

    /// Creates a layer with explicit room for `sprite_capacity` sprites.
    pub fn with_capacity(
        ids: &mut LayerIds,
        width: Scalar,
        height: Scalar,
        sprite_capacity: usize,
    ) -> (layer: Layer)
        requires
            old(ids).wf(),
            old(ids).spec_next() < u64::MAX,
            sprite_capacity <= usize::MAX / 4,
        ensures
            layer.spec_view() == ViewSource::Viewport(width, height),
            layer.spec_model().cells == crate::scalar::spec_identity_cells(),
            layer.spec_blend() == spec_alpha(),
            layer.spec_color() == spec_white(),
            layer.spec_program() is None,
            layer.contents.spec_vertices() == Seq::<Vertex>::empty(),
            layer.contents.spec_dirty(),
            layer.contents.spec_generation() == 0,
            layer.contents.spec_id() == old(ids).spec_next(),
            layer.contents.spec_vertex_capacity() == 4 * sprite_capacity,
            layer.wf(),
            final(ids).spec_next() == old(ids).spec_next() + 1,
            final(ids).wf(),
    {
        Self::create(ids, width, height, sprite_capacity, None)
    }

    /// Shared constructor.
    fn create(
        ids: &mut LayerIds,
        width: Scalar,
        height: Scalar,
        sprite_capacity: usize,
        program: Option<Program>,
    ) -> (layer: Layer)
        requires
            old(ids).wf(),
            old(ids).spec_next() < u64::MAX,
            sprite_capacity <= usize::MAX / 4,
        ensures
            layer.spec_view() == ViewSource::Viewport(width, height),
            layer.spec_model().cells == crate::scalar::spec_identity_cells(),
            layer.spec_blend() == spec_alpha(),
            layer.spec_color() == spec_white(),
            layer.spec_program() == program,
            layer.contents.spec_vertices() == Seq::<Vertex>::empty(),
            layer.contents.spec_dirty(),
            layer.contents.spec_generation() == 0,
            layer.contents.spec_id() == old(ids).spec_next(),
            layer.contents.spec_vertex_capacity() == 4 * sprite_capacity,
            layer.wf(),
            final(ids).spec_next() == old(ids).spec_next() + 1,
            final(ids).wf(),
    {
        let id = ids.allocate();
        Layer {
            view: ViewSource::Viewport(width, height),
            model: Mat4::identity(),
            blend: alpha(),
            color: Color::white(),
            program,
            contents: LayerContents::new(id, sprite_capacity),
        }
    }

    /// An independent copy of the presentation state — what a clone of the
    /// layer starts from: view source, model matrix, blend mode, color.
    pub fn style_snapshot(&self) -> (s: (ViewSource, Mat4, BlendMode, Color))
        ensures
            s == (self.spec_view(), self.spec_model(), self.spec_blend(), self.spec_color()),
    {
        (self.view, self.model, self.blend, self.color)
    }

    /// Sets the global color multiplicator. White renders the contents in
    /// their original colors.
    pub fn set_color(&mut self, color: Color)
        ensures
            final(self).spec_color() == color,
            final(self).spec_view() == old(self).spec_view(),
            final(self).spec_model() == old(self).spec_model(),
            final(self).spec_blend() == old(self).spec_blend(),
            final(self).spec_program() == old(self).spec_program(),
            final(self).contents == old(self).contents,
    {
        self.color = color;
    }

    /// The global color multiplicator.
    pub fn color(&self) -> (c: Color)
        ensures
            c == self.spec_color(),
    {
        self.color
    }

    /// Sets the view matrix, applied after objects are positioned on the
    /// layer: manipulating it manipulates the layer as a whole.
    pub fn set_view_matrix(&mut self, matrix: Mat4)
        ensures
            final(self).spec_view() == ViewSource::Matrix(matrix),
            final(self).spec_model() == old(self).spec_model(),
            final(self).spec_blend() == old(self).spec_blend(),
            final(self).spec_color() == old(self).spec_color(),
            final(self).spec_program() == old(self).spec_program(),
            final(self).contents == old(self).contents,
    {
        self.view = ViewSource::Matrix(matrix);
    }

    /// The source of the view matrix.
    pub fn view_matrix(&self) -> (v: ViewSource)
        ensures
            v == self.spec_view(),
    {
        self.view
    }

    /// Sets the model matrix, applied to each object before it is placed:
    /// manipulating it manipulates every object individually.
    pub fn set_model_matrix(&mut self, matrix: Mat4)
        ensures
            final(self).spec_model() == matrix,
            final(self).spec_view() == old(self).spec_view(),
            final(self).spec_blend() == old(self).spec_blend(),
            final(self).spec_color() == old(self).spec_color(),
            final(self).spec_program() == old(self).spec_program(),
            final(self).contents == old(self).contents,
    {
        self.model = matrix;
    }

    /// The model matrix.
    pub fn model_matrix(&self) -> (m: Mat4)
        ensures
            m == self.spec_model(),
    {
        self.model
    }

    /// Sets the blend mode used when the layer is drawn.
    pub fn set_blendmode(&mut self, blendmode: BlendMode)
        ensures
            final(self).spec_blend() == blendmode,
            final(self).spec_view() == old(self).spec_view(),
            final(self).spec_model() == old(self).spec_model(),
            final(self).spec_color() == old(self).spec_color(),
            final(self).spec_program() == old(self).spec_program(),
            final(self).contents == old(self).contents,
    {
        self.blend = blendmode;
    }

    /// The blend mode.
    pub fn blendmode(&self) -> (m: BlendMode)
        ensures
            m == self.spec_blend(),
    {
        self.blend
    }

    /// The layer's own program, if one was attached.
    pub fn program(&self) -> (p: Option<&Program>)
        ensures
            match p {
                Some(prog) => self.spec_program() == Some(*prog),
                None => self.spec_program() is None,
            },
    {
        self.program.as_ref()
    }

    /// Appends one sprite quad. See [`LayerContents::add_quad`].
    pub fn add_quad(&mut self, q: QuadParams)
        requires
            old(self).wf(),
            old(self).contents.spec_vertices().len() + 4 <= usize::MAX,
            q.generation matches Some(g) ==> generation_accepts(
                old(self).contents.spec_generation(),
                g,
            ),
        ensures
            final(self).contents.spec_vertices() == old(self).contents.spec_vertices()
                + quad_vertices(q),
            final(self).contents.spec_dirty(),
            final(self).contents.spec_generation() == (match q.generation {
                Some(g) => g,
                None => old(self).contents.spec_generation(),
            }),
            final(self).contents.spec_id() == old(self).contents.spec_id(),
            final(self).contents.spec_vertex_capacity() == grown_capacity(
                old(self).contents.spec_vertex_capacity(),
                old(self).contents.spec_vertices().len() + 4,
            ),
            final(self).same_style(old(self)),
            final(self).wf(),
    {
        self.contents.add_quad(q);
    }

    /// Appends one sprite quad, rejecting an incompatible tagged write. See
    /// [`LayerContents::try_add_quad`].
    pub fn try_add_quad(&mut self, q: QuadParams) -> (r: Result<(), LayerError>)
        requires
            old(self).wf(),
            old(self).contents.spec_vertices().len() + 4 <= usize::MAX,
        ensures
            r is Ok <==> (q.generation matches Some(g) ==> generation_accepts(
                old(self).contents.spec_generation(),
                g,
            )),
            r is Err ==> *final(self) == *old(self),
            r is Ok ==> {
                &&& final(self).contents.spec_vertices() == old(self).contents.spec_vertices()
                    + quad_vertices(q)
                &&& final(self).contents.spec_dirty()
                &&& final(self).contents.spec_generation() == (match q.generation {
                    Some(g) => g,
                    None => old(self).contents.spec_generation(),
                })
                &&& final(self).contents.spec_id() == old(self).contents.spec_id()
                &&& final(self).contents.spec_vertex_capacity() == grown_capacity(
                    old(self).contents.spec_vertex_capacity(),
                    old(self).contents.spec_vertices().len() + 4,
                )
            },
            final(self).same_style(old(self)),
            final(self).wf(),
    {
        self.contents.try_add_quad(q)
    }

    /// Removes all previously added objects and unsets the generation and
    /// the dirty flag. Typically invoked after the layer was rendered.
    pub fn clear(&mut self)
        requires
            old(self).wf(),
        ensures
            final(self).contents.spec_vertices() == Seq::<Vertex>::empty(),
            !final(self).contents.spec_dirty(),
            final(self).contents.spec_generation() == 0,
            final(self).contents.spec_id() == old(self).contents.spec_id(),
            final(self).contents.spec_vertex_capacity()
                == old(self).contents.spec_vertex_capacity(),
            final(self).same_style(old(self)),
            final(self).wf(),
    {
        self.contents.clear();
    }

    /// The number of sprites currently stored on the layer.
    pub fn len(&self) -> (n: usize)
        requires
            self.wf(),
        ensures
            n == self.contents.spec_vertices().len() / 4,
    {
        self.contents.sprite_len()
    }

    /// How many sprites the layer holds without a blocking reallocation.
    pub fn capacity(&self) -> (n: usize)
        ensures
            n == self.contents.spec_vertex_capacity() / 4,
    {
        self.contents.sprite_capacity()
    }

    /// Lowers the dirty flag and reports whether it was raised.
    pub fn undirty(&mut self) -> (was_dirty: bool)
        ensures
            was_dirty == old(self).contents.spec_dirty(),
            !final(self).contents.spec_dirty(),
            final(self).contents.spec_vertices() == old(self).contents.spec_vertices(),
            final(self).contents.spec_generation() == old(self).contents.spec_generation(),
            final(self).contents.spec_id() == old(self).contents.spec_id(),
            final(self).contents.spec_vertex_capacity()
                == old(self).contents.spec_vertex_capacity(),
            final(self).same_style(old(self)),
    {
        self.contents.undirty()
    }

    /// The layer's identity.
    pub fn id(&self) -> (id: u64)
        ensures
            id == self.contents.spec_id(),
    {
        self.contents.id()
    }

    /// The current generation tag; zero when untagged.
    pub fn generation(&self) -> (g: u64)
        ensures
            g == self.contents.spec_generation(),
    {
        self.contents.generation()
    }

    /// A consistent snapshot of all completed vertices.
    pub fn vertices(&self) -> (s: &Vec<Vertex>)
        ensures
            s@ == self.contents.spec_vertices(),
    {
        self.contents.snapshot()
    }
}


/// The mathematical state of a layer: its presentation state and the
/// observable state of its contents. Scene interpretation is specified as a
/// fold over values of this form.
pub ghost struct LayerModel {
    pub view: ViewSource,
    pub model: Mat4,
    pub blend: BlendMode,
    pub color: Color,
    pub has_program: bool,
    pub vertices: Seq<Vertex>,
    pub dirty: bool,
    pub generation: u64,
    pub id: u64,
}

impl Layer {
    /// The layer's mathematical state.
    pub open spec fn layer_model(&self) -> LayerModel {
        LayerModel {
            view: self.spec_view(),
            model: self.spec_model(),
            blend: self.spec_blend(),
            color: self.spec_color(),
            has_program: self.spec_program() is Some,
            vertices: self.contents.spec_vertices(),
            dirty: self.contents.spec_dirty(),
            generation: self.contents.spec_generation(),
            id: self.contents.spec_id(),
        }
    }
}

} // verus!
