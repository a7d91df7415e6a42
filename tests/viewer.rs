use frames_viewer::{Transform, Viewer};

fn moved_to(x: f32, y: f32, z: f32) -> Transform {
    let mut m = [0.0f32; 16];
    m[0] = 1.0;
    m[5] = 1.0;
    m[10] = 1.0;
    m[15] = 1.0;
    m[12] = x;
    m[13] = y;
    m[14] = z;
    let mut bits = [0u32; 16];
    for k in 0..16 {
        bits[k] = m[k].to_bits();
    }
    Transform { bits }
}

#[test]
fn test_create_viewer() {
    let viewer = Viewer::new();
    assert_eq!(viewer.is_running(), false);
}

#[test]
fn test_push_frame() {
    let viewer = Viewer::new();
    let transform = Transform::identity();
    viewer.push_frame(transform, "test_frame");
    assert_eq!(viewer.snapshot_for_render().len(), 1);
}

#[test]
fn viewer_running_flag_follows_start_and_stop() {
    let viewer = Viewer::new();
    viewer.mark_running();
    assert!(viewer.is_running());
    let handle = viewer.share();
    viewer.stop();
    assert!(!handle.is_running());
}

#[test]
fn viewer_shared_handle_sees_pushes_and_clear() {
    let viewer = Viewer::new();
    let handle = viewer.share();
    viewer.push_frame(moved_to(1.0, 2.0, 3.0), "a");
    viewer.push_frame(moved_to(4.0, 5.0, 6.0), "b");
    viewer.push_frame(moved_to(7.0, 8.0, 9.0), "a");
    let mut snap = handle.snapshot_for_render();
    snap.sort_by(|p, q| p.name.cmp(&q.name));
    assert_eq!(snap.len(), 2);
    assert_eq!(snap[0].name, "a");
    assert_eq!(snap[0].transform, moved_to(7.0, 8.0, 9.0));
    assert_eq!(snap[1].name, "b");
    assert_eq!(snap[1].transform, moved_to(4.0, 5.0, 6.0));
    handle.clear_frames();
    assert!(viewer.snapshot_for_render().is_empty());
}

#[test]
fn viewer_interleaved_pushes_and_snapshots_hold_whole_transforms() {
    let viewer = Viewer::new();
    let handles: Vec<Viewer> = (0..4).map(|_| viewer.share()).collect();
    for n in 0..300u32 {
        let w = (n % 4) as usize;
        let t = (n % 17) as f32;
        handles[w].push_frame(moved_to(t, t, t), &format!("w{}-{}", w, (n / 4) % 8));
        let snap = viewer.snapshot_for_render();
        let mut names: Vec<&String> = snap.iter().map(|f| &f.name).collect();
        names.sort();
        names.dedup();
        assert_eq!(names.len(), snap.len());
        for f in &snap {
            let m: Vec<f32> = f.transform.bits.iter().map(|b| f32::from_bits(*b)).collect();
            assert_eq!(m[15], 1.0);
            assert_eq!(m[12], m[13]);
            assert_eq!(m[13], m[14]);
        }
    }
    assert_eq!(viewer.snapshot_for_render().len(), 32);
}

#[test]
fn viewer_push_frame_rows_checks_the_shape() {
    let viewer = Viewer::new();
    let mut rows = vec![0u32; 16];
    for k in [0, 5, 10, 15] {
        rows[k] = 1.0f32.to_bits();
    }
    rows[3] = 2.5f32.to_bits();
    assert_eq!(viewer.push_frame_rows(&[4, 4], &rows, "p"), Ok(()));
    assert_eq!(
        viewer.push_frame_rows(&[4, 3], &rows[..12], "q"),
        Err(frames_viewer::ViewerError::InvalidTransform)
    );
    let snap = viewer.snapshot_for_render();
    assert_eq!(snap.len(), 1);
    assert_eq!(snap[0].name, "p");
    assert_eq!(f32::from_bits(snap[0].transform.bits[12]), 2.5);
}
