//! Timed blending from one shape to another.
//!
//! An animation keeps snapshots of its two ends, brought to a common number
//! of points, and counts time in whole ticks of the caller's clock. Each frame
//! it reports how far it has come; the caller turns that into a blend.

use crate::path::{
    is_path_len,
    lemma_resample_index_in_range,
    lemma_resample_same_len,
    resample_index,
    resample_pair,
    resampled,
};
use crate::shape::{Snapshot, SnapshotView};
use vstd::prelude::*;

verus! {

/// Where an animation stands in its life.
#[derive(Debug, Clone, Copy, PartialEq, Eq)]
pub enum Phase {
    /// Created, ends not yet captured.
    Pending,
    /// Ends captured, time running.
    Running,
    /// Over; the completion was reported.
    Completed,
}

/// How far an animation has come: `elapsed` ticks out of `duration`.
#[derive(Debug, Clone, Copy, PartialEq, Eq)]
pub struct Progress {
    pub elapsed: u64,
    pub duration: u64,
}

impl Progress {
    /// The animation shows its first end.
    pub open spec fn at_start(self) -> bool {
        self.elapsed == 0 && self.duration > 0
    }

    /// The animation shows its second end. An animation of no duration is at
    /// its end from the start.
    pub open spec fn at_end(self) -> bool {
        self.elapsed == self.duration
    }

    /// Whether the animation shows its second end.
    pub fn is_complete(&self) -> (complete: bool)
        ensures
            complete == self.at_end(),
    {
        self.elapsed == self.duration
    }
}

/// What one frame of an animation amounts to.
#[derive(Debug, Clone, Copy, PartialEq, Eq)]
pub enum Step {
    /// The animation is not running: nothing to show.
    Idle,
    /// Show the blend at this progress.
    Frame(Progress),
    /// The animation is over: report its completion.
    Finished,
}

/// The sum of two tick counts, held at the largest count there is.
pub open spec fn saturating_sum(a: u64, b: u64) -> u64 {
    if a + b > u64::MAX {
        u64::MAX
    } else {
        (a + b) as u64
    }
}

/// Progress at `time` ticks into an animation of `duration` ticks, or `None`
/// once the time is past the duration.
pub open spec fn progress_at(duration: u64, time: u64) -> Option<Progress> {
    if time > duration {
        None
    } else {
        Some(Progress { elapsed: time, duration })
    }
}

/// The abstract state of a [`Transformation`].
pub struct TransformationView<E, T, C, P> {
    pub duration: u64,
    pub easing: E,
    pub elapsed: u64,
    pub phase: Phase,
    /// The two ends, once captured.
    pub ends: Option<(SnapshotView<T, C, P>, SnapshotView<T, C, P>)>,
}

impl<E, T, C, P> TransformationView<E, T, C, P> {
    /// What holds of the state of every animation: one that has begun has
    /// its two ends, and they have the same number of points.
    pub open spec fn wf(self) -> bool {
        self.phase != Phase::Pending ==> self.ends is Some && self.ends.unwrap().0.points.len()
            == self.ends.unwrap().1.points.len()
    }

    /// A new animation.
    pub open spec fn fresh(duration: u64, easing: E) -> Self {
        TransformationView { duration, easing, elapsed: 0, phase: Phase::Pending, ends: None }
    }

    /// The animation was started between the two given ends: the one with
    /// fewer points is resampled to the number of points of the other.
    pub open spec fn begin(self, initial: SnapshotView<T, C, P>, target: SnapshotView<T, C, P>) -> Self {
        let len = if initial.points.len() >= target.points.len() {
            initial.points.len()
        } else {
            target.points.len()
        };
        TransformationView {
            elapsed: 0,
            phase: Phase::Running,
            ends: Some(
                (
                    SnapshotView { points: resampled(initial.points, len), ..initial },
                    SnapshotView { points: resampled(target.points, len), ..target },
                ),
            ),
            ..self
        }
    }

    /// One frame of `dt` ticks. A running animation reports its progress and
    /// then moves on by `dt`; once its time is past its duration it reports
    /// that it is over, and is. An animation that is not running stays as it
    /// is.
    pub open spec fn advance(self, dt: u64) -> (Self, Step) {
        if self.phase != Phase::Running {
            (self, Step::Idle)
        } else {
            match progress_at(self.duration, self.elapsed) {
                Some(progress) => (
                    TransformationView { elapsed: saturating_sum(self.elapsed, dt), ..self },
                    Step::Frame(progress),
                ),
                None => (TransformationView { phase: Phase::Completed, ..self }, Step::Finished),
            }
        }
    }
}

/// An animation that carries one shape over into another in `duration` ticks,
/// along the easing curve `E`.
pub struct Transformation<E, T, C, P> {
    duration: u64,
    easing: E,
    elapsed: u64,
    phase: Phase,
    ends: Option<(Snapshot<T, C, P>, Snapshot<T, C, P>)>,
}

impl<E, T, C, P> View for Transformation<E, T, C, P> {
    type V = TransformationView<E, T, C, P>;

    closed spec fn view(&self) -> TransformationView<E, T, C, P> {
        TransformationView {
            duration: self.duration,
            easing: self.easing,
            elapsed: self.elapsed,
            phase: self.phase,
            ends: match self.ends {
                Some((initial, target)) => Some((initial@, target@)),
                None => None,
            },
        }
    }
}

impl<E, T, C, P> Transformation<E, T, C, P> {
    #[verifier::type_invariant]
    spec fn inv(self) -> bool {
        self@.wf()
    }

    /// A new animation of `duration` ticks. It does nothing until it is
    /// started with [`Transformation::begin`].
    pub fn new(duration: u64, easing: E) -> (anim: Self)
        ensures
            anim@ == TransformationView::<E, T, C, P>::fresh(duration, easing),
            anim@.wf(),
    {
        Transformation { duration, easing, elapsed: 0, phase: Phase::Pending, ends: None }
    }

    /// Starts, or starts over, between the two given ends. Where they differ
    /// in their number of points, the shorter outline is resampled to the
    /// length of the longer.
    pub fn begin(&mut self, initial: Snapshot<T, C, P>, target: Snapshot<T, C, P>) where P: Copy
        requires
            (initial.points.len() == 0) == (target.points.len() == 0),
        ensures
            final(self)@ == old(self)@.begin(initial@, target@),
            final(self)@.wf(),
    {
        let Snapshot { points: initial_points, transform: initial_transform, color: initial_color } =
            initial;
        let Snapshot { points: target_points, transform: target_transform, color: target_color } =
            target;
        let (initial_points, target_points) = resample_pair(initial_points, target_points);
        let from = Snapshot {
            points: initial_points,
            transform: initial_transform,
            color: initial_color,
        };
        let to = Snapshot { points: target_points, transform: target_transform, color: target_color };
        assert(from@ == old(self)@.begin(initial@, target@).ends.unwrap().0);
        assert(to@ == old(self)@.begin(initial@, target@).ends.unwrap().1);
        self.ends = Some((from, to));
        self.elapsed = 0;
        self.phase = Phase::Running;
    }

    /// Progress at `time` ticks after the start, or `None` once `time` is
    /// past the duration.
    pub fn apply(&self, time: u64) -> (progress: Option<Progress>)
        ensures
            progress == progress_at(self@.duration, time),
    {
        if time > self.duration {
            None
        } else {
            Some(Progress { elapsed: time, duration: self.duration })
        }
    }

    /// Moves the animation on by one frame of `dt` ticks and says what the
    /// frame amounts to.
    pub fn advance(&mut self, dt: u64) -> (step: Step)
        ensures
            (final(self)@, step) == old(self)@.advance(dt),
            final(self)@.wf(),
    {
        proof {
            use_type_invariant(&*self);
        }
        match self.phase {
            Phase::Running => {
                match self.apply(self.elapsed) {
                    Some(progress) => {
                        self.elapsed = if dt > u64::MAX - self.elapsed {
                            u64::MAX
                        } else {
                            self.elapsed + dt
                        };
                        Step::Frame(progress)
                    },
                    None => {
                        self.phase = Phase::Completed;
                        Step::Finished
                    },
                }
            },
            _ => Step::Idle,
        }
    }

    /// Where the animation stands in its life.
    pub fn phase(&self) -> (phase: Phase)
        ensures
            phase == self@.phase,
            self@.wf(),
    {
        proof {
            use_type_invariant(self);
        }
        self.phase
    }

    /// Length of the animation in ticks.
    pub fn duration(&self) -> (duration: u64)
        ensures
            duration == self@.duration,
    {
        self.duration
    }

    /// Ticks since the start.
    pub fn elapsed(&self) -> (elapsed: u64)
        ensures
            elapsed == self@.elapsed,
    {
        self.elapsed
    }

    /// The easing curve.
    pub fn easing(&self) -> (easing: &E)
        ensures
            *easing == self@.easing,
    {
        &self.easing
    }

    /// The end that the animation starts from.
    pub fn initial(&self) -> (initial: &Snapshot<T, C, P>)
        requires
            self@.phase != Phase::Pending,
        ensures
            self@.wf(),
            self@.ends is Some,
            initial@ == self@.ends.unwrap().0,
            initial.points.len() == self@.ends.unwrap().1.points.len(),
    {
        proof {
            use_type_invariant(self);
        }
        match &self.ends {
            Some(ends) => &ends.0,
            None => vstd::pervasive::unreached(),
        }
    }

    /// The end that the animation arrives at.
    pub fn target(&self) -> (target: &Snapshot<T, C, P>)
        requires
            self@.phase != Phase::Pending,
        ensures
            self@.wf(),
            self@.ends is Some,
            target@ == self@.ends.unwrap().1,
            target.points.len() == self@.ends.unwrap().0.points.len(),
    {
        proof {
            use_type_invariant(self);
        }
        match &self.ends {
            Some(ends) => &ends.1,
            None => vstd::pervasive::unreached(),
        }
    }
}

/// The two ends of a started animation have the same number of points, the
/// larger of the two numbers that came in. The end that had that many is kept
/// as it came; point `i` of the other is the point that came in at position
/// `i * old_len / new_len`. Two drawable paths give two drawable paths.
pub proof fn lemma_begin_aligns_ends<E, T, C, P>(
    s: TransformationView<E, T, C, P>,
    initial: SnapshotView<T, C, P>,
    target: SnapshotView<T, C, P>,
)
    requires
        (initial.points.len() == 0) == (target.points.len() == 0),
    ensures
        ({
            let (from, to) = s.begin(initial, target).ends.unwrap();
            let len = from.points.len();
            &&& s.begin(initial, target).wf()
            &&& from.points.len() == to.points.len()
            &&& len == initial.points.len() || len == target.points.len()
            &&& len >= initial.points.len() && len >= target.points.len()
            &&& initial.points.len() == len ==> from.points == initial.points
            &&& target.points.len() == len ==> to.points == target.points
            &&& forall|i: int|
                0 <= i < len ==> 0 <= #[trigger] resample_index(
                    i,
                    initial.points.len() as int,
                    len as int,
                ) < initial.points.len() && from.points[i] == initial.points[i
                    * initial.points.len() / (len as int)]
            &&& forall|i: int|
                0 <= i < len ==> 0 <= #[trigger] resample_index(
                    i,
                    target.points.len() as int,
                    len as int,
                ) < target.points.len() && to.points[i] == target.points[i * target.points.len()
                    / (len as int)]
            &&& from.transform == initial.transform && from.color == initial.color
            &&& to.transform == target.transform && to.color == target.color
            &&& is_path_len(initial.points.len()) && is_path_len(target.points.len())
                ==> is_path_len(len)
        }),
{
    let (from, to) = s.begin(initial, target).ends.unwrap();
    let len = from.points.len();
    lemma_resample_same_len(initial.points);
    lemma_resample_same_len(target.points);
    assert forall|i: int| 0 <= i < len implies 0 <= #[trigger] resample_index(
        i,
        initial.points.len() as int,
        len as int,
    ) < initial.points.len() by {
        lemma_resample_index_in_range(i, initial.points.len() as int, len as int);
    }
    assert forall|i: int| 0 <= i < len implies 0 <= #[trigger] resample_index(
        i,
        target.points.len() as int,
        len as int,
    ) < target.points.len() by {
        lemma_resample_index_in_range(i, target.points.len() as int, len as int);
    }
}

/// The first frame after the start shows the first end, and every frame shows
/// a progress that is not past the end.
pub proof fn lemma_frames_in_range<E, T, C, P>(
    s: TransformationView<E, T, C, P>,
    initial: SnapshotView<T, C, P>,
    target: SnapshotView<T, C, P>,
    dt: u64,
)
    ensures
        s.begin(initial, target).advance(dt).1 == Step::Frame(
            Progress { elapsed: 0, duration: s.duration },
        ),
        s.advance(dt).1 is Frame ==> s.advance(dt).1->Frame_0.elapsed <= s.duration
            && s.advance(dt).1->Frame_0 == (Progress { elapsed: s.elapsed, duration: s.duration }),
        s.phase == Phase::Running && s.elapsed == s.duration ==> s.advance(dt).1 is Frame
            && s.advance(dt).1->Frame_0.at_end(),
{
}

/// Time moves an animation towards its end: a frame of `dt` ticks adds `dt`
/// to the elapsed time, as far as the tick count reaches, and a running
/// animation whose time is past its duration is over at the next frame.
pub proof fn lemma_advance_moves_on<E, T, C, P>(s: TransformationView<E, T, C, P>, dt: u64)
    requires
        s.phase == Phase::Running,
    ensures
        s.elapsed <= s.duration ==> s.advance(dt).0.elapsed == saturating_sum(s.elapsed, dt)
            && s.advance(dt).0.phase == Phase::Running,
        s.elapsed > s.duration <==> s.advance(dt).1 == Step::Finished,
        s.elapsed > s.duration ==> s.advance(dt).0.phase == Phase::Completed,
{
}

/// The end of an animation is reported once: only a running animation
/// reports it, and after the report no frame reports anything.
pub proof fn lemma_finished_once<E, T, C, P>(s: TransformationView<E, T, C, P>, dt: u64, later: u64)
    ensures
        s.advance(dt).1 == Step::Finished ==> s.phase == Phase::Running,
        s.advance(dt).1 == Step::Finished ==> s.advance(dt).0.advance(later) == (
            s.advance(dt).0,
            Step::Idle,
        ),
        s.phase == Phase::Completed ==> s.advance(dt) == (s, Step::Idle),
        s.wf() ==> s.advance(dt).0.wf(),
{
}

} // verus!
