//! Scenes: a queue of layer operations built up from any thread, interpreted
//! in order by the render pass.
//!
//! Interpretation is specified as a fold over [`LayerModel`] states: each
//! operation either updates one layer's state or — for a draw — emits a
//! resolved draw action against the renderer's current target.
//!
//! Sprites and fonts are clients of this core, not part of it: they produce
//! geometry by calling [`Layer::add_quad`] with atlas-resolved buckets and
//! texture coordinates, and an embedding that registers them keeps its own
//! registries beside the scene.

use vstd::prelude::*;
use crate::blendmode::{BlendMode, spec_alpha};
use crate::buffer::AppendBuffer;
use crate::color::{Color, spec_white};
use crate::layer::{Layer, LayerIds, LayerModel, ViewSource};
use crate::renderer::{DrawLayerAction, RenderTarget, Renderer};
use crate::scalar::{Mat4, Scalar, spec_identity_cells};

verus! {

/// Position of an operation in the scene's queue.
#[derive(Clone, Copy, PartialEq, Eq, Structural, Debug)]
pub struct OperationId(pub usize);

/// Position of a layer in the scene's layer registry.
#[derive(Clone, Copy, PartialEq, Eq, Structural, Debug)]
pub struct LayerId(pub usize);

/// One queued layer operation.
#[derive(Clone, Copy, PartialEq, Eq, Debug)]
pub enum Operation {
    /// Does nothing.
    Skip,
    /// Sets the layer's color multiplicator.
    SetColor(LayerId, Color),
    /// Sets the layer's view matrix.
    SetViewMatrix(LayerId, Mat4),
    /// Sets the layer's model matrix.
    SetModelMatrix(LayerId, Mat4),
    /// Sets the layer's blend mode.
    SetBlendmode(LayerId, BlendMode),
    /// Draws the layer to the current target.
    Draw(LayerId),
    /// Clears the layer.
    Reset(LayerId),
}

/// The operation only names layers the scene has.
pub open spec fn op_valid(op: Operation, n_layers: nat) -> bool {
    match op {
        Operation::Skip => true,
        Operation::SetColor(l, _) => l.0 < n_layers,
        Operation::SetViewMatrix(l, _) => l.0 < n_layers,
        Operation::SetModelMatrix(l, _) => l.0 < n_layers,
        Operation::SetBlendmode(l, _) => l.0 < n_layers,
        Operation::Draw(l) => l.0 < n_layers,
        Operation::Reset(l) => l.0 < n_layers,
    }
}

/// One operation's effect on the layer states. A draw lowers the drawn
/// layer's dirty flag — unless the layer is empty and the draw is a no-op; a
/// reset empties the layer and unsets its generation and dirty flag; the
/// setters replace one field of the named layer's presentation state.
pub open spec fn apply_operation(models: Seq<LayerModel>, op: Operation) -> Seq<LayerModel> {
    match op {
        Operation::Skip => models,
        Operation::SetColor(l, c) => models.update(
            l.0 as int,
            LayerModel { color: c, ..models[l.0 as int] },
        ),
        Operation::SetViewMatrix(l, m) => models.update(
            l.0 as int,
            LayerModel { view: ViewSource::Matrix(m), ..models[l.0 as int] },
        ),
        Operation::SetModelMatrix(l, m) => models.update(
            l.0 as int,
            LayerModel { model: m, ..models[l.0 as int] },
        ),
        Operation::SetBlendmode(l, b) => models.update(
            l.0 as int,
            LayerModel { blend: b, ..models[l.0 as int] },
        ),
        Operation::Draw(l) => if models[l.0 as int].vertices.len() > 0 {
            models.update(l.0 as int, LayerModel { dirty: false, ..models[l.0 as int] })
        } else {
            models
        },
        Operation::Reset(l) => models.update(
            l.0 as int,
            LayerModel {
                vertices: Seq::empty(),
                dirty: false,
                generation: 0,
                ..models[l.0 as int]
            },
        ),
    }
}

/// The layer states after a queue of operations, first to last.
pub open spec fn layers_after(models: Seq<LayerModel>, ops: Seq<Operation>) -> Seq<
    LayerModel,
>
    decreases ops.len(),
{
    if ops.len() == 0 {
        models
    } else {
        apply_operation(layers_after(models, ops.drop_last()), ops.last())
    }
}

/// The draw call a `Draw` operation emits for a layer state.
pub open spec fn action_of(lm: LayerModel, target: RenderTarget) -> DrawLayerAction {
    DrawLayerAction {
        target,
        layer_id: lm.id,
        vertex_count: lm.vertices.len() as usize,
        component: 0,
        uses_layer_program: lm.has_program,
        needs_upload: lm.dirty,
        blend: lm.blend,
        view: lm.view,
        model: lm.model,
        color: lm.color,
    }
}

/// The draw actions a queue of operations emits, in order; each `Draw` of a
/// non-empty layer contributes one action, resolved against the layer state
/// at that point of the queue.
pub open spec fn actions_of(
    models: Seq<LayerModel>,
    ops: Seq<Operation>,
    target: RenderTarget,
) -> Seq<DrawLayerAction>
    decreases ops.len(),
{
    if ops.len() == 0 {
        Seq::empty()
    } else {
        let pre = layers_after(models, ops.drop_last());
        actions_of(models, ops.drop_last(), target) + (match ops.last() {
            Operation::Draw(l) => if pre[l.0 as int].vertices.len() > 0 {
                seq![action_of(pre[l.0 as int], target)]
            } else {
                Seq::empty()
            },
            _ => Seq::empty(),
        })
    }
}

/// A scene: the operation queue and the layers it acts on.
pub struct Scene {
    /// The queued operations, in submission order.
    pub operations: AppendBuffer<Operation>,
    /// The layer registry; a [`LayerId`] indexes into it.
    pub layers: Vec<Layer>,
}

/// Default room for queued operations.
pub const INITIAL_OPERATION_CAPACITY: usize = 1024;

impl Scene {
    /// The queued operations.
    pub open spec fn spec_operations(&self) -> Seq<Operation> {
        self.operations@
    }

    /// The registered layers.
    pub open spec fn spec_layers(&self) -> Seq<Layer> {
        self.layers@
    }

    /// The layers' mathematical states.
    pub open spec fn layer_models(&self) -> Seq<LayerModel> {
        self.layers@.map_values(|l: Layer| l.layer_model())
    }

    /// The queue and every layer are well formed. Any operation may be
    /// queued; see [`Scene::ops_valid`] for what interpretation asks.
    pub open spec fn wf(&self) -> bool {
        &&& self.operations.wf()
        &&& forall|i: int|
            0 <= i < self.spec_layers().len() ==> (#[trigger] self.spec_layers()[i]).wf()
    }

    /// Every queued operation names a layer the scene has — what [`draw`]
    /// requires; an operation naming a missing layer is a usage error there.
    pub open spec fn ops_valid(&self) -> bool {
        forall|i: int|
            0 <= i < self.spec_operations().len() ==> op_valid(
                #[trigger] self.spec_operations()[i],
                self.spec_layers().len(),
            )
    }

    /// An empty scene.
    pub fn new() -> (s: Scene)
        ensures
            s.spec_operations() == Seq::<Operation>::empty(),
            s.spec_layers() == Seq::<Layer>::empty(),
            s.wf(),
    {
        Scene { operations: AppendBuffer::new(INITIAL_OPERATION_CAPACITY), layers: Vec::new() }
    }

    /// Queues one operation and returns its position. Any operation is
    /// accepted here; one naming a missing layer fails at [`draw`].
    pub fn op(&mut self, operation: Operation) -> (id: OperationId)
        requires
            old(self).wf(),
            old(self).spec_operations().len() < usize::MAX,
        ensures
            final(self).spec_operations() == old(self).spec_operations().push(operation),
            final(self).spec_layers() == old(self).spec_layers(),
            id.0 == old(self).spec_operations().len(),
            final(self).wf(),
    {
        let idx = self.operations.push(operation);
        proof {
            assert(self.spec_layers() == old(self).spec_layers());
            assert(forall|i: int|
                0 <= i < self.spec_layers().len() ==> (
                #[trigger] self.spec_layers()[i]).wf());
        }
        OperationId(idx)
    }

    /// Queues several operations, in order.
    pub fn ops(&mut self, operations: &Vec<Operation>)
        requires
            old(self).wf(),
            old(self).spec_operations().len() + operations@.len() <= usize::MAX,
        ensures
            final(self).spec_operations() == old(self).spec_operations() + operations@,
            final(self).spec_layers() == old(self).spec_layers(),
            final(self).wf(),
    {
        let n = operations.len();
        let mut i: usize = 0;
        while i < n
            invariant
                n == operations@.len(),
                0 <= i <= n,
                old(self).spec_operations().len() + operations@.len() <= usize::MAX,
                self.spec_operations() == old(self).spec_operations() + operations@.take(
                    i as int,
                ),
                self.spec_layers() == old(self).spec_layers(),
                self.wf(),
            decreases n - i,
        {
            self.op(operations[i]);
            proof {
                assert(operations@.take(i + 1) =~= operations@.take(i as int).push(
                    operations@[i as int],
                ));
            }
            i = i + 1;
        }
        proof {
            assert(operations@.take(n as int) =~= operations@);
        }
    }

    /// Clears the operation queue; the layers are untouched.
    pub fn clear(&mut self)
        requires
            old(self).wf(),
        ensures
            final(self).spec_operations() == Seq::<Operation>::empty(),
            final(self).spec_layers() == old(self).spec_layers(),
            final(self).wf(),
    {
        self.operations.clear();
        proof {
            assert(self.spec_layers() == old(self).spec_layers());
            assert(forall|i: int|
                0 <= i < self.spec_layers().len() ==> (
                #[trigger] self.spec_layers()[i]).wf());
        }
    }

    /// Creates a layer with room for `max_sprites` sprites and registers it.
    pub fn create_layer(
        &mut self,
        ids: &mut LayerIds,
        max_sprites: usize,
        width: Scalar,
        height: Scalar,
    ) -> (id: LayerId)
        requires
            old(self).wf(),
            old(ids).wf(),
            old(ids).spec_next() < u64::MAX,
            max_sprites <= usize::MAX / 4,
            old(self).spec_layers().len() < usize::MAX,
        ensures
            id.0 == old(self).spec_layers().len(),
            final(self).spec_layers().len() == old(self).spec_layers().len() + 1,
            final(self).spec_layers().drop_last() == old(self).spec_layers(),
            final(self).spec_layers().last().layer_model() == (LayerModel {
                view: ViewSource::Viewport(width, height),
                model: Mat4 { cells: spec_identity_cells() },
                blend: spec_alpha(),
                color: spec_white(),
                has_program: false,
                vertices: Seq::empty(),
                dirty: true,
                generation: 0,
                id: old(ids).spec_next(),
            }),
            final(self).spec_layers().last().contents.spec_vertex_capacity() == 4
                * max_sprites,
            final(self).spec_operations() == old(self).spec_operations(),
            final(ids).spec_next() == old(ids).spec_next() + 1,
            final(ids).wf(),
            final(self).wf(),
    {
        let idx = self.layers.len();
        let layer = Layer::with_capacity(ids, width, height, max_sprites);
        self.layers.push(layer);
        proof {
            assert(final(self).spec_layers().drop_last() =~= old(self).spec_layers());
        }
        LayerId(idx)
    }

    /// The layer registered under the given id.
    pub fn layer(&self, id: LayerId) -> (layer: &Layer)
        requires
            id.0 < self.spec_layers().len(),
        ensures
            *layer == self.spec_layers()[id.0 as int],
    {
        &self.layers[id.0]
    }
}

/// Interprets the scene's queued operations against its layers, in order:
/// layer-state operations update the named layer, each draw of a non-empty
/// layer emits one resolved draw action against the renderer's current
/// target and lowers that layer's dirty flag. The queue itself is left as it
/// stands (cleared separately), and the final layer states and the emitted
/// actions are exactly the fold of the queue.
pub fn draw(scene: &mut Scene, renderer: &Renderer) -> (actions: Vec<DrawLayerAction>)
    requires
        old(scene).wf(),
        old(scene).ops_valid(),
        renderer.spec_targets().len() > 0,
    ensures
        final(scene).spec_operations() == old(scene).spec_operations(),
        final(scene).spec_layers().len() == old(scene).spec_layers().len(),
        final(scene).layer_models() == layers_after(
            old(scene).layer_models(),
            old(scene).spec_operations(),
        ),
        actions@ == actions_of(
            old(scene).layer_models(),
            old(scene).spec_operations(),
            renderer.spec_targets().last(),
        ),
        final(scene).wf(),
{
    let ghost init_models = scene.layer_models();
    let ghost all_ops = scene.spec_operations();
    let ghost target = renderer.spec_targets().last();
    let mut actions: Vec<DrawLayerAction> = Vec::new();
    let n = scene.operations.len();
    let mut i: usize = 0;
    while i < n
        invariant
            0 <= i <= n,
            n == all_ops.len(),
            renderer.spec_targets().len() > 0,
            target == renderer.spec_targets().last(),
            scene.spec_operations() == all_ops,
            scene.ops_valid(),
            scene.spec_layers().len() == old(scene).spec_layers().len(),
            init_models.len() == scene.spec_layers().len(),
            scene.layer_models() == layers_after(init_models, all_ops.take(i as int)),
            actions@ == actions_of(init_models, all_ops.take(i as int), target),
            scene.wf(),
        decreases n - i,
    {
        let ghost prev_models = scene.layer_models();
        let op = *scene.operations.get(i);
        proof {
            assert(all_ops.take(i + 1).drop_last() =~= all_ops.take(i as int));
            assert(all_ops.take(i + 1).last() == all_ops[i as int]);
        }
        match op {
            Operation::Skip => {
                proof {
                    assert(scene.layer_models() =~= apply_operation(prev_models, op));
                    assert(actions@ =~= actions_of(init_models, all_ops.take(i + 1), target));
                }
            }
            Operation::SetColor(l, c) => {
                let layer = &mut scene.layers[l.0];
                layer.set_color(c);
                proof {
                    assert(scene.layer_models() =~= apply_operation(prev_models, op));
                    assert(actions@ =~= actions_of(init_models, all_ops.take(i + 1), target));
                }
            }
            Operation::SetViewMatrix(l, m) => {
                let layer = &mut scene.layers[l.0];
                layer.set_view_matrix(m);
                proof {
                    assert(scene.layer_models() =~= apply_operation(prev_models, op));
                    assert(actions@ =~= actions_of(init_models, all_ops.take(i + 1), target));
                }
            }
            Operation::SetModelMatrix(l, m) => {
                let layer = &mut scene.layers[l.0];
                layer.set_model_matrix(m);
                proof {
                    assert(scene.layer_models() =~= apply_operation(prev_models, op));
                    assert(actions@ =~= actions_of(init_models, all_ops.take(i + 1), target));
                }
            }
            Operation::SetBlendmode(l, b) => {
                let layer = &mut scene.layers[l.0];
                layer.set_blendmode(b);
                proof {
                    assert(scene.layer_models() =~= apply_operation(prev_models, op));
                    assert(actions@ =~= actions_of(init_models, all_ops.take(i + 1), target));
                }
            }
            Operation::Draw(l) => {
                let layer = &mut scene.layers[l.0];
                match renderer.draw_layer(layer, 0) {
                    Some(a) => {
                        actions.push(a);
                        proof {
                            assert(scene.layer_models() =~= apply_operation(prev_models, op));
                            assert(a == action_of(prev_models[l.0 as int], target));
                            assert(actions@ =~= actions_of(
                                init_models,
                                all_ops.take(i + 1),
                                target,
                            ));
                        }
                    }
                    None => {
                        proof {
                            assert(scene.layer_models() =~= apply_operation(prev_models, op));
                            assert(actions@ =~= actions_of(
                                init_models,
                                all_ops.take(i + 1),
                                target,
                            ));
                        }
                    }
                }
            }
            Operation::Reset(l) => {
                let layer = &mut scene.layers[l.0];
                layer.clear();
                proof {
                    assert(scene.layer_models() =~= apply_operation(prev_models, op));
                    assert(actions@ =~= actions_of(init_models, all_ops.take(i + 1), target));
                }
            }
        }
        i = i + 1;
    }
    proof {
        assert(all_ops.take(n as int) =~= all_ops);
    }
    actions
}

} // verus!
