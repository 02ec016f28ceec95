use qbezier::animation::{Progress, Transformation};
use qbezier::easing::Linear;
use qbezier::scene::{Id, Scene, Update};
use qbezier::shape::Snapshot;

struct Circle;
struct Square;

type Anim = Transformation<Linear, (), (), u8>;
type TestScene = Scene<&'static str, Anim, &'static str>;

fn running(duration: u64) -> Anim {
    let mut anim: Anim = Transformation::new(duration, Linear);
    anim.begin(
        Snapshot { points: vec![0], transform: (), color: () },
        Snapshot { points: vec![9], transform: (), color: () },
    );
    anim
}

fn ids(scene: &TestScene) -> Vec<(u32, &'static str)> {
    (0..scene.len()).map(|i| (scene.get(i).0, *scene.get(i).1)).collect()
}

#[test]
fn a_new_scene_is_empty() {
    let scene: TestScene = Scene::new();
    assert_eq!(scene.len(), 0);
    assert!(scene.animation().is_none());
    assert_eq!(scene.position(0), None);
}

#[test]
fn shapes_are_numbered_and_drawn_in_the_order_added() {
    let mut scene: TestScene = Scene::new();
    let a: Id<Circle> = scene.add("a").unwrap();
    let b: Id<Square> = scene.add("b").unwrap();
    let c: Id<Circle> = scene.add("c").unwrap();
    assert_eq!((a.id, b.id, c.id), (0, 1, 2));
    assert_eq!(b.number(), 1);
    assert_eq!(ids(&scene), vec![(0, "a"), (1, "b"), (2, "c")]);
    assert_eq!(scene.position(1), Some(1));
    assert_eq!(scene.position(3), None);
}

#[test]
fn removing_keeps_the_others_in_order() {
    let mut scene: TestScene = Scene::new();
    let _a: Id<Circle> = scene.add("a").unwrap();
    let b: Id<Circle> = scene.add("b").unwrap();
    let _c: Id<Circle> = scene.add("c").unwrap();
    assert_eq!(scene.remove(&b), Some("b"));
    assert_eq!(ids(&scene), vec![(0, "a"), (2, "c")]);
    assert_eq!(scene.position(2), Some(1));
    // Removing again finds nothing and changes nothing.
    assert_eq!(scene.remove(&b), None);
    assert_eq!(scene.remove(&b.clone()), None);
    assert_eq!(ids(&scene), vec![(0, "a"), (2, "c")]);
}

#[test]
fn shapes_are_found_by_their_numbers() {
    let mut scene: TestScene = Scene::new();
    let a: Id<Circle> = scene.add("a").unwrap();
    let b: Id<Square> = scene.add("b").unwrap();
    assert_eq!(scene.find(&a), Some(&"a"));
    assert_eq!(scene.find(&b), Some(&"b"));
    scene.remove(&a);
    assert_eq!(scene.find(&a), None);
    assert_eq!(scene.find(&b), Some(&"b"));
}

#[test]
fn a_number_is_never_given_out_twice() {
    let mut scene: TestScene = Scene::new();
    let a: Id<Circle> = scene.add("a").unwrap();
    scene.remove(&a);
    let b: Id<Circle> = scene.add("b").unwrap();
    assert_eq!(b.id, 1);
    assert_eq!(scene.remove(&a), None);
    assert_eq!(ids(&scene), vec![(1, "b")]);
}

#[test]
fn adding_then_removing_gives_back_the_scene() {
    let mut scene: TestScene = Scene::new();
    let _: Id<Circle> = scene.add("a").unwrap();
    let _: Id<Circle> = scene.add("b").unwrap();
    let before = ids(&scene);
    let c: Id<Square> = scene.add("c").unwrap();
    assert_eq!(scene.remove(&c), Some("c"));
    assert_eq!(ids(&scene), before);
}

#[test]
fn update_without_an_animation_is_idle() {
    let mut scene: TestScene = Scene::new();
    assert!(matches!(scene.update(16), Update::Idle));
}

#[test]
fn an_animation_plays_and_signals_once() {
    let mut scene: TestScene = Scene::new();
    let _: Id<Circle> = scene.add("a").unwrap();
    assert_eq!(scene.play(running(30), "done"), None);
    assert!(scene.animation().is_some());
    let mut frames = Vec::new();
    let mut signals = Vec::new();
    for _ in 0..10 {
        match scene.update(16) {
            Update::Frame(p) => frames.push(p.elapsed),
            Update::Finished(handle) => signals.push(handle),
            Update::Idle => {}
        }
    }
    assert_eq!(frames, vec![0, 16]);
    assert_eq!(signals, vec!["done"]);
    assert!(scene.animation().is_none());
    assert_eq!(scene.len(), 1);
}

#[test]
fn update_reports_the_progress_of_the_animation() {
    let mut scene: TestScene = Scene::new();
    scene.play(running(100), "h");
    assert!(matches!(scene.update(25), Update::Frame(Progress { elapsed: 0, duration: 100 })));
    assert!(matches!(scene.update(25), Update::Frame(Progress { elapsed: 25, duration: 100 })));
    let (anim, handle) = scene.animation().unwrap();
    assert_eq!(anim.elapsed(), 50);
    assert_eq!(*handle, "h");
}

#[test]
fn a_second_animation_replaces_the_first_and_hands_its_handle_back() {
    let mut scene: TestScene = Scene::new();
    assert_eq!(scene.play(running(100), "first"), None);
    scene.update(10);
    assert_eq!(scene.play(running(5), "second"), Some("first"));
    // The new animation starts at its own beginning.
    assert!(matches!(scene.update(10), Update::Frame(Progress { elapsed: 0, duration: 5 })));
    match scene.update(10) {
        Update::Finished(handle) => assert_eq!(handle, "second"),
        _ => unreachable!(),
    }
    assert!(matches!(scene.update(10), Update::Idle));
}

#[test]
fn stopping_hands_the_handle_back() {
    let mut scene: TestScene = Scene::new();
    assert_eq!(scene.stop(), None);
    scene.play(running(100), "h");
    assert_eq!(scene.stop(), Some("h"));
    assert_eq!(scene.stop(), None);
    assert!(matches!(scene.update(1), Update::Idle));
}

#[test]
fn an_animation_that_was_over_when_it_came_signals_at_once() {
    let mut scene: TestScene = Scene::new();
    let mut anim = running(0);
    anim.advance(1);
    anim.advance(1);
    scene.play(anim, "late");
    match scene.update(1) {
        Update::Finished(handle) => assert_eq!(handle, "late"),
        _ => unreachable!(),
    }
    assert!(scene.animation().is_none());
    assert!(matches!(scene.update(1), Update::Idle));
}

#[test]
fn an_animation_that_was_never_started_stays_in_the_scene() {
    let mut scene: TestScene = Scene::new();
    scene.play(Transformation::new(10, Linear), "h");
    assert!(matches!(scene.update(100), Update::Idle));
    assert!(matches!(scene.update(100), Update::Idle));
    assert!(scene.animation().is_some());
}
