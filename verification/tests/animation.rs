use qbezier::animation::{Phase, Progress, Step, Transformation};
use qbezier::easing::{Easing, Linear};
use qbezier::shape::Snapshot;

type Anim = Transformation<Linear, i32, u8, usize>;

fn snap(points: Vec<usize>, transform: i32, color: u8) -> Snapshot<i32, u8, usize> {
    Snapshot { points, transform, color }
}

#[test]
fn a_new_animation_is_pending_and_idle() {
    let mut anim: Anim = Transformation::new(1_000, Linear);
    assert_eq!(anim.phase(), Phase::Pending);
    assert_eq!(anim.duration(), 1_000);
    assert_eq!(anim.elapsed(), 0);
    assert_eq!(anim.advance(10), Step::Idle);
    assert_eq!(anim.elapsed(), 0);
    assert_eq!(anim.phase(), Phase::Pending);
}

#[test]
fn begin_captures_the_ends_and_starts_the_clock() {
    let mut anim: Anim = Transformation::new(1_000, Linear);
    anim.begin(snap(vec![1, 2, 3], -1, 10), snap(vec![4, 5, 6], 1, 20));
    assert_eq!(anim.phase(), Phase::Running);
    assert_eq!(anim.initial().points, vec![1, 2, 3]);
    assert_eq!(anim.initial().transform, -1);
    assert_eq!(anim.initial().color, 10);
    assert_eq!(anim.target().points, vec![4, 5, 6]);
    assert_eq!(anim.target().transform, 1);
    assert_eq!(anim.target().color, 20);
}

#[test]
fn begin_resamples_the_shorter_end() {
    let square: Vec<usize> = (0..9).collect();
    let circle: Vec<usize> = (100..117).collect();
    let mut anim: Anim = Transformation::new(1, Linear);
    anim.begin(snap(square.clone(), 0, 0), snap(circle.clone(), 0, 0));
    assert_eq!(anim.initial().points.len(), 17);
    assert_eq!(anim.target().points, circle);
    for i in 0..17 {
        assert_eq!(anim.initial().points[i], square[i * 9 / 17]);
    }
    let mut back: Anim = Transformation::new(1, Linear);
    back.begin(snap(circle.clone(), 0, 0), snap(square.clone(), 0, 0));
    assert_eq!(back.initial().points, circle);
    assert_eq!(back.target().points, anim.initial().points);
}

#[test]
fn frames_report_the_time_before_the_step() {
    let mut anim: Anim = Transformation::new(100, Linear);
    anim.begin(snap(vec![0], 0, 0), snap(vec![1], 0, 0));
    assert_eq!(anim.advance(40), Step::Frame(Progress { elapsed: 0, duration: 100 }));
    assert_eq!(anim.advance(40), Step::Frame(Progress { elapsed: 40, duration: 100 }));
    assert_eq!(anim.advance(20), Step::Frame(Progress { elapsed: 80, duration: 100 }));
    // Exactly at the end there is one more frame, at the second end.
    let last = anim.advance(1);
    assert_eq!(last, Step::Frame(Progress { elapsed: 100, duration: 100 }));
    match last {
        Step::Frame(p) => assert!(p.is_complete()),
        _ => unreachable!(),
    }
    assert_eq!(anim.advance(1), Step::Finished);
    assert_eq!(anim.phase(), Phase::Completed);
}

#[test]
fn the_end_is_reported_once() {
    let mut anim: Anim = Transformation::new(10, Linear);
    anim.begin(snap(vec![0], 0, 0), snap(vec![1], 0, 0));
    assert!(matches!(anim.advance(11), Step::Frame(_)));
    assert_eq!(anim.advance(5), Step::Finished);
    for _ in 0..5 {
        assert_eq!(anim.advance(5), Step::Idle);
    }
    assert_eq!(anim.phase(), Phase::Completed);
    assert_eq!(anim.elapsed(), 11);
}

#[test]
fn apply_is_progress_or_nothing() {
    let anim: Anim = Transformation::new(100, Linear);
    assert_eq!(anim.apply(0), Some(Progress { elapsed: 0, duration: 100 }));
    assert_eq!(anim.apply(50), Some(Progress { elapsed: 50, duration: 100 }));
    assert_eq!(anim.apply(100), Some(Progress { elapsed: 100, duration: 100 }));
    assert_eq!(anim.apply(101), None);
    assert_eq!(anim.apply(u64::MAX), None);
}

#[test]
fn an_animation_of_no_duration_shows_its_end_and_is_over() {
    let mut anim: Anim = Transformation::new(0, Linear);
    anim.begin(snap(vec![0], 0, 0), snap(vec![1], 0, 0));
    let first = anim.advance(1);
    assert_eq!(first, Step::Frame(Progress { elapsed: 0, duration: 0 }));
    assert!(Progress { elapsed: 0, duration: 0 }.is_complete());
    assert_eq!(anim.advance(1), Step::Finished);
}

#[test]
fn progress_is_complete_at_the_duration_only() {
    assert!(!Progress { elapsed: 0, duration: 5 }.is_complete());
    assert!(!Progress { elapsed: 4, duration: 5 }.is_complete());
    assert!(Progress { elapsed: 5, duration: 5 }.is_complete());
}

#[test]
fn elapsed_time_stops_at_the_largest_count() {
    let mut anim: Anim = Transformation::new(u64::MAX, Linear);
    anim.begin(snap(vec![0], 0, 0), snap(vec![1], 0, 0));
    anim.advance(u64::MAX - 1);
    assert_eq!(anim.elapsed(), u64::MAX - 1);
    anim.advance(5);
    assert_eq!(anim.elapsed(), u64::MAX);
    assert_eq!(
        anim.advance(5),
        Step::Frame(Progress { elapsed: u64::MAX, duration: u64::MAX })
    );
}

#[test]
fn a_frame_of_no_time_repeats_the_progress() {
    let mut anim: Anim = Transformation::new(10, Linear);
    anim.begin(snap(vec![0], 0, 0), snap(vec![1], 0, 0));
    anim.advance(3);
    assert_eq!(anim.advance(0), Step::Frame(Progress { elapsed: 3, duration: 10 }));
    assert_eq!(anim.advance(0), Step::Frame(Progress { elapsed: 3, duration: 10 }));
}

#[test]
fn begin_starts_a_finished_animation_over() {
    let mut anim: Anim = Transformation::new(1, Linear);
    anim.begin(snap(vec![0], 0, 0), snap(vec![1], 0, 0));
    anim.advance(2);
    assert_eq!(anim.advance(0), Step::Finished);
    anim.begin(snap(vec![5], 0, 0), snap(vec![6, 7], 0, 0));
    assert_eq!(anim.phase(), Phase::Running);
    assert_eq!(anim.elapsed(), 0);
    assert_eq!(anim.initial().points, vec![5, 5]);
    assert_eq!(anim.advance(1), Step::Frame(Progress { elapsed: 0, duration: 1 }));
}

#[test]
fn the_animation_keeps_its_easing() {
    let anim: Anim = Transformation::new(1, Linear);
    assert_eq!(anim.easing().ease(0.5f32), 0.5);
}
