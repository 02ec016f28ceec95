use qbezier::easing::{Easing, Linear};

#[test]
fn linear_starts_at_zero_and_ends_at_one() {
    assert_eq!(Linear.ease(0.0f32), 0.0);
    assert_eq!(Linear.ease(1.0f32), 1.0);
}

#[test]
fn linear_is_the_identity() {
    for k in 0..=100 {
        let t = k as f32 / 100.0;
        assert_eq!(Linear.ease(t), t);
    }
    assert_eq!(Linear.ease(0.25f64), 0.25);
    assert_eq!(Linear.ease(7u64), 7);
}

#[test]
fn linear_never_falls() {
    let mut last = Linear.ease(0.0f32);
    for k in 1..=1000 {
        let eased = Linear.ease(k as f32 / 1000.0);
        assert!(eased >= last);
        last = eased;
    }
}

struct Squared;

impl Easing<f32> for Squared {
    fn ease(&self, t: f32) -> f32 {
        t * t
    }
}

#[test]
fn callers_bring_their_own_curves() {
    let curves: Vec<Box<dyn Easing<f32>>> = vec![Box::new(Linear), Box::new(Squared)];
    assert_eq!(curves[0].ease(0.5), 0.5);
    assert_eq!(curves[1].ease(0.5), 0.25);
}
