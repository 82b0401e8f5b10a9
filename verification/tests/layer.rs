use radiant::color::Color;
use radiant::layer::{Layer, LayerError, LayerIds, QuadExtents, QuadParams};
use radiant::scalar::{Point, Rect};

fn quad_with(color: Color, generation: Option<u64>, x: f32, y: f32) -> QuadParams {
    QuadParams {
        generation,
        bucket_id: 1,
        texture_id: 7,
        components: 0,
        uv: Rect {
            min: Point { x: 0.0f32.to_bits(), y: 0.0f32.to_bits() },
            max: Point { x: 1.0f32.to_bits(), y: 1.0f32.to_bits() },
        },
        pos: Point { x: x.to_bits(), y: y.to_bits() },
        extents: QuadExtents {
            x0: (-8.0f32).to_bits(),
            x1: 8.0f32.to_bits(),
            y0: (-8.0f32).to_bits(),
            y1: 8.0f32.to_bits(),
        },
        color,
        rotation: 0.0f32.to_bits(),
    }
}

#[test]
fn fresh_layer_state() {
    let mut ids = LayerIds::new();
    let layer = Layer::new(&mut ids, 640.0f32.to_bits(), 480.0f32.to_bits());
    assert_eq!(layer.len(), 0);
    assert_eq!(layer.generation(), 0);
    assert_eq!(layer.id(), 1);
    assert!(layer.vertices().is_empty());
}

#[test]
fn layer_ids_are_monotonic_and_start_at_one() {
    let mut ids = LayerIds::new();
    let a = Layer::new(&mut ids, 1.0f32.to_bits(), 1.0f32.to_bits());
    let b = Layer::new(&mut ids, 1.0f32.to_bits(), 1.0f32.to_bits());
    let c = Layer::new(&mut ids, 1.0f32.to_bits(), 1.0f32.to_bits());
    assert_eq!(a.id(), 1);
    assert_eq!(b.id(), 2);
    assert_eq!(c.id(), 3);
}

#[test]
fn add_quad_appends_four_ordered_vertices() {
    let mut ids = LayerIds::new();
    let mut layer = Layer::new(&mut ids, 640.0f32.to_bits(), 480.0f32.to_bits());
    let q = quad_with(Color::red(), None, 10.0, 20.0);
    layer.add_quad(q);
    assert_eq!(layer.len(), 1);
    let v = layer.vertices();
    assert_eq!(v.len(), 4);
    // Corner order: top-left, top-right, bottom-left, bottom-right.
    assert_eq!(v[0].offset, Point { x: (-8.0f32).to_bits(), y: (-8.0f32).to_bits() });
    assert_eq!(v[1].offset, Point { x: 8.0f32.to_bits(), y: (-8.0f32).to_bits() });
    assert_eq!(v[2].offset, Point { x: (-8.0f32).to_bits(), y: 8.0f32.to_bits() });
    assert_eq!(v[3].offset, Point { x: 8.0f32.to_bits(), y: 8.0f32.to_bits() });
    // Per-corner texture coordinates.
    assert_eq!(v[0].texture_uv, Point { x: 0.0f32.to_bits(), y: 0.0f32.to_bits() });
    assert_eq!(v[1].texture_uv, Point { x: 1.0f32.to_bits(), y: 0.0f32.to_bits() });
    assert_eq!(v[2].texture_uv, Point { x: 0.0f32.to_bits(), y: 1.0f32.to_bits() });
    assert_eq!(v[3].texture_uv, Point { x: 1.0f32.to_bits(), y: 1.0f32.to_bits() });
    for corner in v.iter() {
        assert_eq!(corner.position, Point { x: 10.0f32.to_bits(), y: 20.0f32.to_bits() });
        assert_eq!(corner.color, Color::red());
        assert_eq!(corner.bucket_id, 1);
        assert_eq!(corner.texture_id, 7);
        assert_eq!(corner.components, 0);
    }
}

#[test]
fn interleaved_appends_accumulate_contiguously() {
    // Any interleaving of writers linearizes to a sequence of atomic quad
    // appends; simulate four writers' quads arriving round-robin.
    let mut ids = LayerIds::new();
    let mut layer = Layer::new(&mut ids, 640.0f32.to_bits(), 480.0f32.to_bits());
    let colors = [Color::red(), Color::green(), Color::blue(), Color::yellow()];
    for round in 0..8 {
        for writer in 0..4 {
            layer.add_quad(quad_with(colors[writer], None, round as f32, writer as f32));
        }
    }
    assert_eq!(layer.len(), 32);
    let v = layer.vertices();
    assert_eq!(v.len(), 128);
    for i in 0..32 {
        let expected = colors[i % 4];
        for k in 0..4 {
            assert_eq!(v[4 * i + k].color, expected);
        }
    }
}

#[test]
fn clear_resets_length_and_generation() {
    let mut ids = LayerIds::new();
    let mut layer = Layer::new(&mut ids, 640.0f32.to_bits(), 480.0f32.to_bits());
    layer.add_quad(quad_with(Color::white(), Some(9), 0.0, 0.0));
    assert_eq!(layer.generation(), 9);
    assert_eq!(layer.len(), 1);
    layer.clear();
    assert_eq!(layer.len(), 0);
    assert_eq!(layer.generation(), 0);
    // After a clear, a write tagged with any generation succeeds.
    assert!(layer.try_add_quad(quad_with(Color::white(), Some(12345), 0.0, 0.0)).is_ok());
    assert_eq!(layer.generation(), 12345);
}

#[test]
fn mismatched_nonzero_generations_are_rejected() {
    let mut ids = LayerIds::new();
    let mut layer = Layer::new(&mut ids, 640.0f32.to_bits(), 480.0f32.to_bits());
    assert!(layer.try_add_quad(quad_with(Color::white(), Some(3), 0.0, 0.0)).is_ok());
    let r = layer.try_add_quad(quad_with(Color::white(), Some(4), 0.0, 0.0));
    assert_eq!(r, Err(LayerError::GenerationConflict));
    // The rejected write left nothing behind.
    assert_eq!(layer.len(), 1);
    assert_eq!(layer.generation(), 3);
}

#[test]
fn untagged_writes_are_always_accepted() {
    let mut ids = LayerIds::new();
    let mut layer = Layer::new(&mut ids, 640.0f32.to_bits(), 480.0f32.to_bits());
    assert!(layer.try_add_quad(quad_with(Color::white(), Some(3), 0.0, 0.0)).is_ok());
    // Generation zero in the tag position also always passes.
    assert!(layer.try_add_quad(quad_with(Color::white(), Some(0), 0.0, 0.0)).is_ok());
    // An untagged write never conflicts.
    assert!(layer.try_add_quad(quad_with(Color::white(), None, 0.0, 0.0)).is_ok());
    assert_eq!(layer.len(), 3);
}

#[test]
fn concurrent_accumulation_scenario() {
    // A layer with room for 100 sprites; four writers append 50 sprites each
    // (200 in all) with distinct colors. Under any linearization the buffer
    // ends with 200 sprites: 800 vertices, each quad's slots consistent.
    let mut ids = LayerIds::new();
    let mut layer = Layer::with_capacity(
        &mut ids,
        640.0f32.to_bits(),
        480.0f32.to_bits(),
        100,
    );
    assert_eq!(layer.capacity(), 100);
    let colors = [Color::red(), Color::green(), Color::blue(), Color::yellow()];
    for round in 0..50 {
        for writer in 0..4 {
            layer.add_quad(quad_with(colors[writer], None, round as f32, writer as f32));
        }
    }
    assert_eq!(layer.len(), 200);
    let v = layer.vertices();
    assert_eq!(v.len(), 800);
    for i in 0..200 {
        let expected = colors[i % 4];
        let pos = Point {
            x: ((i / 4) as f32).to_bits(),
            y: ((i % 4) as f32).to_bits(),
        };
        for k in 0..4 {
            assert_eq!(v[4 * i + k].color, expected);
            assert_eq!(v[4 * i + k].position, pos);
        }
    }
}

#[test]
fn round_trip_does_not_leak_previous_frame() {
    let mut ids = LayerIds::new();
    let mut layer = Layer::new(&mut ids, 640.0f32.to_bits(), 480.0f32.to_bits());
    for _ in 0..5 {
        layer.add_quad(quad_with(Color::red(), Some(1), 0.0, 0.0));
    }
    assert_eq!(layer.len(), 5);
    layer.clear();
    for _ in 0..2 {
        layer.add_quad(quad_with(Color::blue(), Some(2), 1.0, 1.0));
    }
    let v = layer.vertices();
    assert_eq!(layer.len(), 2);
    assert_eq!(v.len(), 8);
    for corner in v.iter() {
        assert_eq!(corner.color, Color::blue());
    }
}

#[test]
fn undirty_reads_and_clears_the_flag() {
    let mut ids = LayerIds::new();
    let mut layer = Layer::new(&mut ids, 640.0f32.to_bits(), 480.0f32.to_bits());
    // A fresh layer starts dirty so a first flush uploads.
    assert!(layer.undirty());
    assert!(!layer.undirty());
    layer.add_quad(quad_with(Color::white(), None, 0.0, 0.0));
    assert!(layer.undirty());
    // A clear leaves nothing pending: the dirty flag is unset with it.
    layer.clear();
    assert!(!layer.undirty());
}

#[test]
fn style_setters_are_independent_of_contents() {
    let mut ids = LayerIds::new();
    let mut layer = Layer::new(&mut ids, 640.0f32.to_bits(), 480.0f32.to_bits());
    layer.add_quad(quad_with(Color::white(), None, 0.0, 0.0));
    layer.set_color(Color::cyan());
    layer.set_blendmode(radiant::blendmode::lighten());
    assert_eq!(layer.color(), Color::cyan());
    assert_eq!(layer.blendmode(), radiant::blendmode::lighten());
    assert_eq!(layer.len(), 1);
}

#[test]
fn growth_preserves_accumulated_quads() {
    let mut ids = LayerIds::new();
    let mut layer = Layer::with_capacity(&mut ids, 1.0f32.to_bits(), 1.0f32.to_bits(), 2);
    for i in 0..10 {
        layer.add_quad(quad_with(Color::green(), None, i as f32, 0.0));
    }
    assert_eq!(layer.len(), 10);
    assert!(layer.capacity() >= 10);
    let v = layer.vertices();
    for i in 0..10 {
        assert_eq!(v[4 * i].position.x, (i as f32).to_bits());
    }
}
