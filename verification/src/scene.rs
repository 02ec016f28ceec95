//! The scene: the shapes that are drawn, in drawing order, and the one
//! animation that may be playing.
//!
//! The scene keeps whatever the caller uses to reach a shape (`S`) under a
//! number of its own, and whatever the caller wants back when an animation
//! ends (`H`). A second animation replaces the first; the handle of the one
//! replaced is handed back at once, so that no completion is lost.

use crate::animation::{Phase, Progress, Step, Transformation};
use std::marker::PhantomData;
use vstd::prelude::*;

verus! {

/// The number under which a scene keeps a shape of kind `K`.
pub struct Id<K> {
    pub id: u32,
    _marker: PhantomData<K>,
}

impl<K> View for Id<K> {
    type V = u32;

    closed spec fn view(&self) -> u32 {
        self.id
    }
}

impl<K> Clone for Id<K> {
    fn clone(&self) -> (copy: Self)
        ensures
            copy@ == self@,
    {
        Id { id: self.id, _marker: PhantomData }
    }
}

impl<K> Id<K> {
    /// The number itself.
    pub fn number(&self) -> (n: u32)
        ensures
            n == self@,
    {
        self.id
    }
}

/// What one frame amounts to for the scene's animation.
pub enum Update<H> {
    /// No animation is playing.
    Idle,
    /// Show the blend at this progress.
    Frame(Progress),
    /// The animation is over and left the scene: signal its completion
    /// through the handle.
    Finished(H),
}

/// The abstract state of a [`Scene`].
pub struct SceneView<S, A, H> {
    /// The shapes with their numbers, in drawing order.
    pub objects: Seq<(u32, S)>,
    /// The number that the next shape gets.
    pub next_id: u32,
    /// The animation that is playing, with its completion handle.
    pub animation: Option<(A, H)>,
}

impl<S, A, H> SceneView<S, A, H> {
    /// What holds of the state of every scene: every number was given out
    /// before, and no two shapes share one.
    pub open spec fn wf(self) -> bool {
        &&& forall|i: int|
            0 <= i < self.objects.len() ==> (#[trigger] self.objects[i]).0 < self.next_id
        &&& forall|i: int, j: int|
            0 <= i < j < self.objects.len() ==> (#[trigger] self.objects[i]).0 != (
            #[trigger] self.objects[j]).0
    }

    /// The empty scene.
    pub open spec fn empty() -> Self {
        SceneView { objects: Seq::empty(), next_id: 0, animation: None }
    }

    /// Whether a shape is kept under `id`.
    pub open spec fn has(self, id: u32) -> bool {
        exists|i: int| 0 <= i < self.objects.len() && (#[trigger] self.objects[i]).0 == id
    }

    /// The place in drawing order of the shape kept under `id`.
    pub open spec fn index_of(self, id: u32) -> int {
        choose|i: int| 0 <= i < self.objects.len() && (#[trigger] self.objects[i]).0 == id
    }

    /// `shape` was added: it is drawn last and gets the next number.
    pub open spec fn add(self, shape: S) -> Self {
        SceneView {
            objects: self.objects.push((self.next_id, shape)),
            next_id: (self.next_id + 1) as u32,
            ..self
        }
    }

    /// The shape kept under `id`, if any, was removed; the others keep their
    /// order.
    pub open spec fn remove(self, id: u32) -> Self {
        if self.has(id) {
            SceneView { objects: self.objects.remove(self.index_of(id)), ..self }
        } else {
            self
        }
    }

    /// `animation` was started and took the place of any other.
    pub open spec fn play(self, animation: A, handle: H) -> Self {
        SceneView { animation: Some((animation, handle)), ..self }
    }

    /// The animation, if any, was taken out.
    pub open spec fn stop(self) -> Self {
        SceneView { animation: None, ..self }
    }
}

/// The shapes to draw and the animation to play.
pub struct Scene<S, A, H> {
    objects: Vec<(u32, S)>,
    next_id: u32,
    animation: Option<(A, H)>,
}

impl<S, A, H> View for Scene<S, A, H> {
    type V = SceneView<S, A, H>;

    closed spec fn view(&self) -> SceneView<S, A, H> {
        SceneView { objects: self.objects@, next_id: self.next_id, animation: self.animation }
    }
}

impl<S, A, H> Scene<S, A, H> {
    #[verifier::type_invariant]
    spec fn inv(self) -> bool {
        &&& forall|i: int|
            0 <= i < self.objects@.len() ==> (#[trigger] self.objects@[i]).0 < self.next_id
        &&& forall|i: int, j: int|
            0 <= i < j < self.objects@.len() ==> (#[trigger] self.objects@[i]).0 != (
            #[trigger] self.objects@[j]).0
    }

    /// The empty scene.
    pub fn new() -> (scene: Self)
        ensures
            scene@ == SceneView::<S, A, H>::empty(),
            scene@.wf(),
    {
        Scene { objects: Vec::new(), next_id: 0, animation: None }
    }

    /// Adds a shape, to be drawn after those that are there, and returns the
    /// number it is kept under. Returns `None`, and adds nothing, when the
    /// numbers have run out.
    pub fn add<K>(&mut self, shape: S) -> (id: Option<Id<K>>)
        ensures
            final(self)@.wf(),
            match id {
                Some(id) => old(self)@.next_id < u32::MAX && id@ == old(self)@.next_id
                    && final(self)@ == old(self)@.add(shape),
                None => old(self)@.next_id == u32::MAX && final(self)@ == old(self)@,
            },
    {
        proof {
            use_type_invariant(&*self);
        }
        if self.next_id == u32::MAX {
            return None;
        }
        let id: u32 = self.next_id;
        let mut objects: Vec<(u32, S)> = Vec::new();
        core::mem::swap(&mut self.objects, &mut objects);
        objects.push((id, shape));
        self.next_id = id + 1;
        self.objects = objects;
        Some(Id { id, _marker: PhantomData })
    }

    /// Place in drawing order of the shape kept under `id`, if there is one.
    pub fn position(&self, id: u32) -> (at: Option<usize>)
        ensures
            self@.wf(),
            match at {
                Some(i) => self@.has(id) && i == self@.index_of(id) && i < self@.objects.len()
                    && self@.objects[i as int].0 == id,
                None => !self@.has(id),
            },
    {
        proof {
            use_type_invariant(self);
        }
        let mut i: usize = 0;
        while i < self.objects.len()
            invariant
                i <= self.objects.len(),
                self@.wf(),
                forall|k: int| 0 <= k < i ==> (#[trigger] self@.objects[k]).0 != id,
            decreases self.objects.len() - i,
        {
            if self.objects[i].0 == id {
                assert(self@.objects[i as int].0 == id);
                assert(self@.has(id));
                let ghost at = self@.index_of(id);
                assert(at == i) by {
                    if at < i {
                        assert(self@.objects[at].0 != self@.objects[i as int].0);
                    } else if i < at {
                        assert(self@.objects[i as int].0 != self@.objects[at].0);
                    }
                }
                return Some(i);
            }
            i += 1;
        }
        None
    }

    /// Removes the shape kept under `id` and returns it; the other shapes
    /// keep their order. Returns `None`, and removes nothing, when no shape is
    /// kept under `id`.
    pub fn remove<K>(&mut self, id: &Id<K>) -> (shape: Option<S>)
        ensures
            final(self)@.wf(),
            final(self)@ == old(self)@.remove(id@),
            match shape {
                Some(s) => old(self)@.has(id@) && old(self)@.objects[old(self)@.index_of(id@)] == (
                    id@,
                    s,
                ),
                None => !old(self)@.has(id@),
            },
    {
        match self.position(id.id) {
            Some(i) => {
                let mut objects: Vec<(u32, S)> = Vec::new();
                core::mem::swap(&mut self.objects, &mut objects);
                let (_, shape) = objects.remove(i);
                proof {
                    lemma_remove_keeps_others(old(self)@, id@);
                }
                self.objects = objects;
                Some(shape)
            },
            None => None,
        }
    }

    /// The shape kept under `id`, if there is one.
    pub fn find<K>(&self, id: &Id<K>) -> (shape: Option<&S>)
        ensures
            match shape {
                Some(s) => self@.has(id@) && self@.objects[self@.index_of(id@)] == (id@, *s),
                None => !self@.has(id@),
            },
    {
        match self.position(id.id) {
            Some(i) => Some(&self.objects[i].1),
            None => None,
        }
    }

    /// Number of shapes.
    pub fn len(&self) -> (n: usize)
        ensures
            n == self@.objects.len(),
    {
        self.objects.len()
    }

    /// The shape at place `i` of the drawing order.
    pub fn get(&self, i: usize) -> (entry: (u32, &S))
        requires
            i < self@.objects.len(),
        ensures
            entry.0 == self@.objects[i as int].0,
            *entry.1 == self@.objects[i as int].1,
    {
        (self.objects[i].0, &self.objects[i].1)
    }

    /// Starts `animation`. An animation that was playing is replaced, and its
    /// handle is returned for the caller to signal.
    pub fn play(&mut self, animation: A, handle: H) -> (superseded: Option<H>)
        ensures
            final(self)@ == old(self)@.play(animation, handle),
            final(self)@.wf(),
            match superseded {
                Some(h) => old(self)@.animation is Some && old(self)@.animation.unwrap().1 == h,
                None => old(self)@.animation is None,
            },
    {
        proof {
            use_type_invariant(&*self);
        }
        let mut previous: Option<(A, H)> = Some((animation, handle));
        core::mem::swap(&mut self.animation, &mut previous);
        match previous {
            Some((_, h)) => Some(h),
            None => None,
        }
    }

    /// Takes the animation out, as when the scene is torn down, and returns
    /// its handle for the caller to signal.
    pub fn stop(&mut self) -> (handle: Option<H>)
        ensures
            final(self)@ == old(self)@.stop(),
            final(self)@.wf(),
            match handle {
                Some(h) => old(self)@.animation is Some && old(self)@.animation.unwrap().1 == h,
                None => old(self)@.animation is None,
            },
    {
        proof {
            use_type_invariant(&*self);
        }
        let mut previous: Option<(A, H)> = None;
        core::mem::swap(&mut self.animation, &mut previous);
        match previous {
            Some((_, h)) => Some(h),
            None => None,
        }
    }

    /// The animation that is playing.
    pub fn animation(&self) -> (playing: Option<(&A, &H)>)
        ensures
            match playing {
                Some((a, h)) => self@.animation == Some((*a, *h)),
                None => self@.animation is None,
            },
    {
        match &self.animation {
            Some(slot) => Some((&slot.0, &slot.1)),
            None => None,
        }
    }
}

impl<S, H, E, T, C, P> Scene<S, Transformation<E, T, C, P>, H> {
    /// Moves the animation on by one frame of `dt` ticks.
    ///
    /// While the animation runs, the frame's progress is returned and the
    /// animation stays. When it is over it leaves the scene, and its handle
    /// is returned for the caller to signal: this happens once, as the
    /// animation is gone afterwards. An animation that was over when it came
    /// leaves the same way; one that was never started stays and waits. The
    /// shapes are not touched.
    pub fn update(&mut self, dt: u64) -> (update: Update<H>)
        ensures
            final(self)@.wf(),
            final(self)@.objects == old(self)@.objects,
            final(self)@.next_id == old(self)@.next_id,
            match old(self)@.animation {
                None => update is Idle && final(self)@.animation is None,
                Some((playing, handle)) => match playing@.advance(dt).1 {
                    Step::Frame(progress) => {
                        &&& update == Update::<H>::Frame(progress)
                        &&& final(self)@.animation is Some
                        &&& final(self)@.animation.unwrap().0@ == playing@.advance(dt).0
                        &&& final(self)@.animation.unwrap().1 == handle
                    },
                    Step::Finished => {
                        &&& update == Update::Finished(handle)
                        &&& final(self)@.animation is None
                    },
                    Step::Idle => if playing@.phase == Phase::Completed {
                        &&& update == Update::Finished(handle)
                        &&& final(self)@.animation is None
                    } else {
                        &&& update is Idle
                        &&& final(self)@.animation is Some
                        &&& final(self)@.animation.unwrap().0@ == playing@
                        &&& final(self)@.animation.unwrap().1 == handle
                    },
                },
            },
    {
        proof {
            use_type_invariant(&*self);
        }
        let mut slot: Option<(Transformation<E, T, C, P>, H)> = None;
        core::mem::swap(&mut self.animation, &mut slot);
        match slot {
            Some((mut playing, handle)) => {
                match playing.advance(dt) {
                    Step::Frame(progress) => {
                        self.animation = Some((playing, handle));
                        Update::Frame(progress)
                    },
                    Step::Finished => Update::Finished(handle),
                    Step::Idle => {
                        if matches!(playing.phase(), Phase::Completed) {
                            Update::Finished(handle)
                        } else {
                            self.animation = Some((playing, handle));
                            Update::Idle
                        }
                    },
                }
            },
            None => Update::Idle,
        }
    }
}

/// A shape that is added gets a number that no shape in the scene has, is
/// drawn last, and leaves the others where they were.
pub proof fn lemma_add_is_fresh<S, A, H>(s: SceneView<S, A, H>, shape: S)
    requires
        s.wf(),
        s.next_id < u32::MAX,
    ensures
        !s.has(s.next_id),
        s.add(shape).wf(),
        s.add(shape).has(s.next_id),
        s.add(shape).index_of(s.next_id) == s.objects.len(),
        s.add(shape).objects.len() == s.objects.len() + 1,
        forall|i: int| 0 <= i < s.objects.len() ==> s.add(shape).objects[i] == s.objects[i],
{
    let after = s.add(shape);
    let last = s.objects.len() as int;
    assert(after.objects[last].0 == s.next_id);
    assert(after.has(s.next_id));
    let at = after.index_of(s.next_id);
    if at != last {
        assert(after.objects[at] == s.objects[at]);
    }
}

/// After a removal no shape is kept under the removed number, every other
/// shape is kept as before, and the shapes that stay keep their order.
pub proof fn lemma_remove_keeps_others<S, A, H>(s: SceneView<S, A, H>, id: u32)
    requires
        s.wf(),
    ensures
        s.remove(id).wf(),
        !s.remove(id).has(id),
        s.has(id) ==> s.remove(id).objects.len() == s.objects.len() - 1,
        !s.has(id) ==> s.remove(id) == s,
        forall|i: int|
            0 <= i < s.objects.len() && s.objects[i].0 != id ==> {
                let k = if s.has(id) && i > s.index_of(id) {
                    i - 1
                } else {
                    i
                };
                0 <= k < s.remove(id).objects.len() && s.remove(id).objects[k]
                    == #[trigger] s.objects[i]
            },
{
    if s.has(id) {
        let at = s.index_of(id);
        let after = s.remove(id);
        assert forall|k: int| 0 <= k < after.objects.len() implies (#[trigger] after.objects[k]).0
            != id by {
            if k < at {
                assert(after.objects[k] == s.objects[k]);
                assert(s.objects[k].0 != s.objects[at].0);
            } else {
                assert(after.objects[k] == s.objects[k + 1]);
                assert(s.objects[at].0 != s.objects[k + 1].0);
            }
        }
        assert forall|i: int, j: int| 0 <= i < j < after.objects.len() implies (
        #[trigger] after.objects[i]).0 != (#[trigger] after.objects[j]).0 by {
            let from_i = if i < at {
                i
            } else {
                i + 1
            };
            let from_j = if j < at {
                j
            } else {
                j + 1
            };
            assert(after.objects[i] == s.objects[from_i]);
            assert(after.objects[j] == s.objects[from_j]);
            assert(s.objects[from_i].0 != s.objects[from_j].0);
        }
        assert forall|k: int| 0 <= k < after.objects.len() implies (#[trigger] after.objects[k]).0
            < after.next_id by {
            let from = if k < at {
                k
            } else {
                k + 1
            };
            assert(after.objects[k] == s.objects[from]);
        }
    }
}

/// Removing the shape that was added last gives back the shapes that were
/// there before.
pub proof fn lemma_add_then_remove<S, A, H>(s: SceneView<S, A, H>, shape: S)
    requires
        s.wf(),
        s.next_id < u32::MAX,
    ensures
        s.add(shape).remove(s.next_id).objects == s.objects,
{
    lemma_add_is_fresh(s, shape);
    assert(s.add(shape).remove(s.next_id).objects =~= s.objects);
}

/// Starting an animation leaves the shapes as they are, and so does taking
/// it out.
pub proof fn lemma_play_keeps_shapes<S, A, H>(s: SceneView<S, A, H>, animation: A, handle: H)
    requires
        s.wf(),
    ensures
        s.play(animation, handle).wf(),
        s.play(animation, handle).objects == s.objects,
        s.stop().wf(),
        s.stop().objects == s.objects,
        s.play(animation, handle).stop().animation is None,
{
}

} // verus!
