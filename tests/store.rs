use frames_viewer::{Frame, FrameStore, Transform};

fn scaled(s: f32) -> Transform {
    let mut bits = Transform::identity().bits;
    bits[0] = s.to_bits();
    bits[5] = s.to_bits();
    bits[10] = s.to_bits();
    Transform { bits }
}

fn sorted(mut v: Vec<Frame>) -> Vec<Frame> {
    v.sort_by(|p, q| p.name.cmp(&q.name));
    v
}

#[test]
fn store_distinct_pushes_all_present_with_their_transforms() {
    let mut store = FrameStore::new();
    store.push("x", scaled(1.0));
    store.push("y", scaled(2.0));
    store.push("z", scaled(3.0));
    let snap = sorted(store.snapshot_for_render());
    assert_eq!(snap.len(), 3);
    assert_eq!(snap[0], Frame { name: "x".to_string(), transform: scaled(1.0) });
    assert_eq!(snap[1], Frame { name: "y".to_string(), transform: scaled(2.0) });
    assert_eq!(snap[2], Frame { name: "z".to_string(), transform: scaled(3.0) });
}

#[test]
fn store_same_name_last_write_wins() {
    let mut store = FrameStore::new();
    store.push("a", scaled(1.0));
    store.push("a", scaled(2.0));
    let snap = store.snapshot_for_render();
    assert_eq!(snap.len(), 1);
    assert_eq!(snap[0].name, "a");
    assert_eq!(snap[0].transform, scaled(2.0));
}

#[test]
fn store_clear_after_pushes_is_empty() {
    let mut store = FrameStore::new();
    for n in 0..10 {
        store.push(&format!("f{}", n), scaled(n as f32));
    }
    store.clear();
    assert!(store.snapshot_for_render().is_empty());
    store.clear();
    assert!(store.snapshot_for_render().is_empty());
}

#[test]
fn store_new_is_empty_and_overwrite_keeps_others() {
    let mut store = FrameStore::new();
    assert!(store.snapshot_for_render().is_empty());
    store.push("a", scaled(1.0));
    store.push("b", scaled(2.0));
    store.push("a", scaled(5.0));
    store.push("", scaled(6.0));
    let snap = sorted(store.snapshot_for_render());
    assert_eq!(snap.len(), 3);
    assert_eq!(snap[0].name, "");
    assert_eq!(snap[1].transform, scaled(5.0));
    assert_eq!(snap[2].transform, scaled(2.0));
}
