use frames_viewer::{render_plan, DrawCall, FrameStore, Transform, Viewport};

fn offset(x: f32) -> Transform {
    let mut bits = Transform::identity().bits;
    bits[12] = x.to_bits();
    Transform { bits }
}

#[test]
fn render_draw_order_grid_frames_then_identity_last() {
    let mut store = FrameStore::new();
    store.push("f1", offset(1.0));
    store.push("f2", offset(2.0));
    let plan = render_plan(&store.snapshot_for_render());
    assert_eq!(plan.len(), 6);
    assert_eq!(plan[0], DrawCall::Clear);
    assert_eq!(plan[1], DrawCall::Grid);
    let middle = [plan[2], plan[3]];
    assert!(middle.contains(&DrawCall::Frame(offset(1.0))));
    assert!(middle.contains(&DrawCall::Frame(offset(2.0))));
    assert_eq!(plan[4], DrawCall::Frame(Transform::identity()));
    assert_eq!(plan[5], DrawCall::Present);
}

#[test]
fn render_empty_store_draws_grid_and_origin() {
    let plan = render_plan(&Vec::new());
    assert_eq!(
        plan,
        vec![DrawCall::Clear, DrawCall::Grid, DrawCall::Frame(Transform::identity()), DrawCall::Present]
    );
}

#[test]
fn identity_is_ones_on_the_diagonal() {
    let m: Vec<f32> = Transform::identity().bits.iter().map(|b| f32::from_bits(*b)).collect();
    for r in 0..4 {
        for c in 0..4 {
            assert_eq!(m[4 * c + r], if r == c { 1.0 } else { 0.0 });
        }
    }
}

#[test]
fn viewport_zero_height_is_clamped() {
    let v = Viewport::for_window(800, 0);
    assert_eq!(v, Viewport { width: 800, height: 1 });
    let aspect = v.width as f32 / v.height as f32;
    assert!(aspect.is_finite());
}

#[test]
fn viewport_zero_width_and_huge_extents() {
    assert_eq!(Viewport::for_window(0, 600), Viewport { width: 1, height: 600 });
    assert_eq!(
        Viewport::for_window(u32::MAX, 3_000_000_000),
        Viewport { width: i32::MAX as u32, height: i32::MAX as u32 }
    );
    assert_eq!(Viewport::for_window(1024, 768), Viewport { width: 1024, height: 768 });
}
