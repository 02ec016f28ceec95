use cgmath::{Vector3, Vector4, VectorSpace};
use qbezier::animation::Transformation;
use qbezier::easing::{Easing, Linear};
use qbezier::path::{arc_points, square_points};
use qbezier::pipeline::Pipeline;
use qbezier::renderer::{Command, QBezierRenderer};
use qbezier::scene::{Id, Scene, Update};
use qbezier::shape::{HasPoints, Shape};

const SECOND: u64 = 1_000_000_000;

#[derive(Clone)]
enum Kind {
    Square { side: f32 },
    Arc { radius: f32, angle: f32 },
}

impl HasPoints<Vector3<f32>> for Kind {
    fn calc_points(&self) -> Vec<Vector3<f32>> {
        match *self {
            Kind::Square { side } => {
                square_points(|x, y| Vector3::new(x as f32, y as f32, 0.0) * side * 0.5)
            }
            Kind::Arc { radius, angle } => {
                let n_components = 8;
                let theta = angle / n_components as f32;
                let handle_adjust = 1.0 / (theta / 2.0).cos();
                arc_points(n_components, |i, steps, handle| {
                    let a = i as f32 * angle / steps as f32;
                    let p = Vector3::new(a.cos(), a.sin(), 0.0) * radius;
                    if handle {
                        p * handle_adjust
                    } else {
                        p
                    }
                })
            }
        }
    }
}

type Mob = Shape<Kind, Vector3<f32>, Vector4<f32>, Vector3<f32>>;

fn square() -> Mob {
    Shape::new(Kind::Square { side: 1.0 }, Vector3::new(0.0, 0.0, 0.0), Vector4::new(0.8, 0.95, 0.05, 0.9))
}

fn circle() -> Mob {
    Shape::new(
        Kind::Arc { radius: 1.0, angle: std::f32::consts::PI * 2.0 },
        Vector3::new(2.0, 0.0, 0.0),
        Vector4::new(1.0, 1.0, 1.0, 1.0),
    )
}

fn close(a: Vector3<f32>, b: Vector3<f32>) -> bool {
    (a - b).map(f32::abs).x < 1e-6 && (a - b).map(f32::abs).y < 1e-6 && (a - b).z.abs() < 1e-6
}

/// Plays a one-second animation from `from` to `to` on `live`, in frames of
/// `dt` ticks, and returns the outline after every frame.
fn play(live: &mut Mob, from: &Mob, to: &Mob, dt: u64) -> Vec<(u64, Vec<Vector3<f32>>)> {
    let mut scene: Scene<(), Transformation<Linear, Vector3<f32>, Vector4<f32>, Vector3<f32>>, ()> =
        Scene::new();
    let _: Id<Kind> = scene.add(()).unwrap();
    let mut anim = Transformation::new(SECOND, Linear);
    anim.begin(from.snapshot(), to.snapshot());
    assert_eq!(scene.play(anim, ()), None);
    let mut frames = Vec::new();
    let mut finished = 0;
    for _ in 0..20 {
        match scene.update(dt) {
            Update::Frame(progress) => {
                let (anim, _) = scene.animation().unwrap();
                let t = anim
                    .easing()
                    .ease(progress.elapsed as f32 / progress.duration as f32);
                live.interpolate(
                    anim.initial(),
                    anim.target(),
                    |a, b| a.lerp(*b, t),
                    |a, b| a.lerp(*b, t),
                    |a, b| a.lerp(*b, t),
                );
                frames.push((progress.elapsed, live.points().clone()));
            }
            Update::Finished(()) => finished += 1,
            Update::Idle => {}
        }
    }
    assert_eq!(finished, 1);
    frames
}

#[test]
fn generated_outlines_are_drawable_paths() {
    assert_eq!(square().snapshot().points.len(), 9);
    assert_eq!(circle().snapshot().points.len(), 17);
}

#[test]
fn square_to_circle_shows_source_blend_and_target() {
    let from = square();
    let to = circle();
    let mut live = from.clone();
    let frames = play(&mut live, &from, &to, SECOND / 2);
    assert_eq!(frames.iter().map(|f| f.0).collect::<Vec<_>>(), vec![0, SECOND / 2, SECOND]);

    let source = from.snapshot().points;
    let target = to.snapshot().points;
    let stretched: Vec<Vector3<f32>> = (0..17).map(|i| source[i * 9 / 17]).collect();

    // At the start: the source, point for point under the resampling.
    assert_eq!(frames[0].1, stretched);
    // Half way: every point half way between its two ends.
    assert_eq!(frames[1].1.len(), 17);
    for i in 0..17 {
        assert!(close(frames[1].1[i], (stretched[i] + target[i]) * 0.5));
    }
    assert!(frames[1].1 != stretched && frames[1].1 != target);
    // At the end: the target, as closely as the blend of two floats comes to
    // its second end.
    assert_eq!(frames[2].1.len(), target.len());
    for i in 0..17 {
        assert!(close(frames[2].1[i], target[i]));
    }
    assert!(close(*live.transform(), Vector3::new(2.0, 0.0, 0.0)));
    assert!(close(live.color().truncate(), Vector3::new(1.0, 1.0, 1.0)));
    assert!((live.color().w - 1.0).abs() < 1e-6);
}

#[test]
fn later_changes_to_the_ends_do_not_reach_a_running_animation() {
    let from = square();
    let mut to = circle();
    let mut anim: Transformation<Linear, Vector3<f32>, Vector4<f32>, Vector3<f32>> =
        Transformation::new(SECOND, Linear);
    anim.begin(from.snapshot(), to.snapshot());
    let before = anim.target().points.clone();
    to.set_points(vec![Vector3::new(9.0, 9.0, 9.0); 3]);
    to.set_transform(Vector3::new(-1.0, -1.0, -1.0));
    assert_eq!(anim.target().points, before);
    assert_eq!(anim.target().transform, Vector3::new(2.0, 0.0, 0.0));
}

#[test]
fn an_animated_shape_uploads_every_frame_and_then_rests() {
    let from = square();
    let to = circle();
    let mut live = from.clone();
    live.create_render_object().unwrap();
    let renderer = QBezierRenderer::new(
        Pipeline::new((), 1, 0),
        Pipeline::new((), 2, 1),
        Pipeline::new((), 2, 1),
    );
    // Before the animation: nine points.
    let first = renderer.render(&mut live, true).unwrap();
    assert_eq!(
        first[0],
        Command::Reallocate { point_bytes: 144, vertex_bytes: 416, index_bytes: 96 }
    );

    let mut anim: Transformation<Linear, Vector3<f32>, Vector4<f32>, Vector3<f32>> =
        Transformation::new(SECOND, Linear);
    anim.begin(from.snapshot(), to.snapshot());
    let blend = |live: &mut Mob, t: f32| {
        live.interpolate(
            anim.initial(),
            anim.target(),
            |a, b| a.lerp(*b, t),
            |a, b| a.lerp(*b, t),
            |a, b| a.lerp(*b, t),
        )
    };
    // The first animated frame has seventeen points: new buffers.
    blend(&mut live, 0.0);
    assert_eq!(
        renderer.render(&mut live, true).unwrap(),
        vec![
            Command::Reallocate { point_bytes: 272, vertex_bytes: 800, index_bytes: 192 },
            Command::Dispatch { workgroups: 1 },
            Command::WriteUniforms { model: true, color: true },
            Command::Stencil { indices: 48 },
            Command::Cover { indices: 48, reference: 1, clear: true },
        ]
    );
    // Every later one is written in place.
    blend(&mut live, 0.5);
    assert_eq!(
        renderer.render(&mut live, true).unwrap(),
        vec![
            Command::WritePoints { point_bytes: 272 },
            Command::Dispatch { workgroups: 1 },
            Command::WriteUniforms { model: true, color: true },
            Command::Stencil { indices: 48 },
            Command::Cover { indices: 48, reference: 1, clear: true },
        ]
    );
    // Once the animation is over nothing is uploaded.
    assert_eq!(renderer.render(&mut live, true).unwrap().len(), 2);
}
