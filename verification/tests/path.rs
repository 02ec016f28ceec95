use qbezier::path::{
    arc_point_count, arc_points, resample, resample_pair, square_points, valid_path_len,
    ARC_COMPONENTS,
};

#[test]
fn path_lengths_are_odd_and_at_least_three() {
    assert!(!valid_path_len(0));
    assert!(!valid_path_len(1));
    assert!(!valid_path_len(2));
    assert!(valid_path_len(3));
    assert!(!valid_path_len(4));
    assert!(valid_path_len(9));
    assert!(!valid_path_len(10));
    assert!(valid_path_len(17));
}

#[test]
fn square_has_nine_points_in_outline_order() {
    let points = square_points(|x, y| (x, y));
    assert_eq!(
        points,
        vec![(1, 1), (0, 1), (-1, 1), (-1, 0), (-1, -1), (0, -1), (1, -1), (1, 0), (1, 1)]
    );
    assert!(valid_path_len(points.len()));
}

#[test]
fn square_closes_and_has_straight_edges() {
    let points = square_points(|x, y| (x as i32, y as i32));
    assert_eq!(points.first(), points.last());
    for i in (1..points.len()).step_by(2) {
        let (a, h, b) = (points[i - 1], points[i], points[i + 1]);
        assert_eq!((2 * h.0, 2 * h.1), (a.0 + b.0, a.1 + b.1));
    }
    for i in (0..points.len()).step_by(2) {
        assert_eq!(points[i].0.abs(), 1);
        assert_eq!(points[i].1.abs(), 1);
    }
}

#[test]
fn square_scales_like_the_unit_square() {
    let side = 1.0f32;
    let points = square_points(|x, y| [x as f32 * side * 0.5, y as f32 * side * 0.5, 0.0]);
    assert_eq!(points[0], [0.5, 0.5, 0.0]);
    assert_eq!(points[1], [0.0, 0.5, 0.0]);
    assert_eq!(points[4], [-0.5, -0.5, 0.0]);
    assert_eq!(points[7], [0.5, 0.0, 0.0]);
    assert_eq!(points[8], [0.5, 0.5, 0.0]);
}

#[test]
fn arc_point_counts() {
    assert_eq!(arc_point_count(1), 3);
    assert_eq!(arc_point_count(8), 17);
    assert_eq!(arc_point_count(0x7fff_ffff), u32::MAX);
}

#[test]
fn arc_calls_every_position_in_order() {
    let points = arc_points(8, |i, steps, handle| (i, steps, handle));
    assert_eq!(points.len(), 17);
    assert!(valid_path_len(points.len()));
    for (k, p) in points.iter().enumerate() {
        assert_eq!(*p, (k as u32, 16, k % 2 == 1));
    }
}

#[test]
fn the_library_cuts_arcs_into_eight_segments() {
    assert_eq!(ARC_COMPONENTS, 8);
    assert_eq!(arc_point_count(ARC_COMPONENTS), 17);
    assert_eq!(arc_points(ARC_COMPONENTS, |i, _, _| i).len(), 17);
    assert_eq!(square_points(|x, y| (x, y)).len(), 9);
}

#[test]
fn arc_of_one_segment_has_three_points() {
    let points = arc_points(1, |i, steps, handle| (i, steps, handle));
    assert_eq!(points, vec![(0, 2, false), (1, 2, true), (2, 2, false)]);
}

#[test]
fn arc_lengths_are_always_drawable() {
    for n in 1u32..40 {
        let points = arc_points(n, |i, _, _| i);
        assert_eq!(points.len() as u32, 2 * n + 1);
        assert!(valid_path_len(points.len()));
    }
}

#[test]
fn circle_handles_are_pushed_outward() {
    let radius = 1.0f32;
    let angle = std::f32::consts::PI * 2.0;
    let n = 8u32;
    let adjust = 1.0 / (angle / n as f32 / 2.0).cos();
    let points = arc_points(n, |i, steps, handle| {
        let a = i as f32 * angle / steps as f32;
        let r = if handle { radius * adjust } else { radius };
        [a.cos() * r, a.sin() * r]
    });
    for (k, p) in points.iter().enumerate() {
        let r = (p[0] * p[0] + p[1] * p[1]).sqrt();
        let expected = if k % 2 == 1 { adjust } else { 1.0 };
        assert!((r - expected).abs() < 1e-5);
    }
    assert!((points[0][0] - 1.0).abs() < 1e-6);
    assert!((points[16][0] - 1.0).abs() < 1e-5);
    assert!(points[16][1].abs() < 1e-5);
}

#[test]
fn resample_copies_the_scaled_index() {
    let old = vec![10, 20, 30];
    // new[i] = old[i * 3 / 7]
    assert_eq!(resample(&old, 7), vec![10, 10, 10, 20, 20, 30, 30]);
}

#[test]
fn resample_nine_to_seventeen() {
    let old: Vec<usize> = (0..9).collect();
    let new = resample(&old, 17);
    assert_eq!(new.len(), 17);
    for (i, p) in new.iter().enumerate() {
        assert_eq!(*p, i * 9 / 17);
    }
    assert_eq!(new, vec![0, 0, 1, 1, 2, 2, 3, 3, 4, 4, 5, 5, 6, 6, 7, 7, 8]);
}

#[test]
fn resample_to_the_same_length_is_the_identity() {
    let old = vec!['a', 'b', 'c', 'd'];
    assert_eq!(resample(&old, 4), old);
}

#[test]
fn resample_to_fewer_points_skips() {
    let old: Vec<u32> = (0..10).collect();
    assert_eq!(resample(&old, 5), vec![0, 2, 4, 6, 8]);
    assert_eq!(resample(&old, 1), vec![0]);
}

#[test]
fn resample_to_nothing_is_empty() {
    assert_eq!(resample(&vec![1, 2, 3], 0), Vec::<i32>::new());
    assert_eq!(resample(&Vec::<i32>::new(), 0), Vec::<i32>::new());
}

#[test]
fn resample_keeps_order_and_every_point_when_stretching() {
    let old: Vec<usize> = (0..9).collect();
    for new_len in 9..60 {
        let new = resample(&old, new_len);
        assert!(new.windows(2).all(|w| w[0] <= w[1]));
        for p in &old {
            assert!(new.contains(p));
        }
    }
}

#[test]
fn resample_pair_stretches_the_shorter() {
    let a: Vec<usize> = (0..9).collect();
    let b: Vec<usize> = (100..117).collect();
    let (a2, b2) = resample_pair(a.clone(), b.clone());
    assert_eq!(a2.len(), 17);
    assert_eq!(b2, b);
    for i in 0..17 {
        assert_eq!(a2[i], a[i * 9 / 17]);
    }
    let (b3, a3) = resample_pair(b.clone(), a.clone());
    assert_eq!(b3, b);
    assert_eq!(a3, a2);
}

#[test]
fn resample_pair_of_equal_lengths_changes_nothing() {
    let a = vec![1, 2, 3];
    let b = vec![4, 5, 6];
    assert_eq!(resample_pair(a.clone(), b.clone()), (a, b));
    assert_eq!(resample_pair(Vec::<u8>::new(), Vec::<u8>::new()), (vec![], vec![]));
}

#[test]
fn resample_pair_of_two_paths_is_a_pair_of_paths() {
    for (n, m) in [(3usize, 9usize), (9, 17), (17, 9), (5, 5), (3, 101)] {
        let (a, b) = resample_pair(vec![0u8; n], vec![1u8; m]);
        assert_eq!(a.len(), b.len());
        assert_eq!(a.len(), n.max(m));
        assert!(valid_path_len(a.len()));
    }
}
