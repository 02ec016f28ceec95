//! A shape: geometry parameters, placement and colour on the host side, and a
//! record of the GPU buffers that mirror them.
//!
//! Every mirrored field sits in its own [`Latch`], so a frame uploads only
//! what changed. The shape decides; the caller performs the uploads and
//! allocations that the decisions name. What a shape is, and what each
//! operation does to it, is stated over [`ShapeView`].

use crate::buffers::{
    index_buffer_size,
    index_bytes,
    index_count,
    index_entries,
    lemma_sizes_in_range,
    lemma_sizes_monotonic,
    num_compute_workgroups,
    point_buffer_size,
    point_bytes,
    vertex_buffer_size,
    vertex_bytes,
    vertex_records,
    workgroups,
    fits,
    buffer_fits,
    MAX_POINTS,
};
use crate::latch::Latch;
use crate::path::{is_path_len, lemma_resample_same_len, resample, valid_path_len};
use vstd::prelude::*;

verus! {

/// A kind of shape: parameters from which the control points of its outline
/// can be computed.
pub trait HasPoints<P> {
    /// Computes the outline from the parameters.
    fn calc_points(&self) -> Vec<P>;
}

/// `points` is an outline that `kind` can compute.
pub open spec fn generates<K: HasPoints<P>, P>(kind: K, points: Seq<P>) -> bool {
    exists|v: Vec<P>| v@ == points && call_ensures(K::calc_points, (&kind,), v)
}

/// Why a shape's buffers could not be brought up to date.
#[derive(Debug, Clone, Copy, PartialEq, Eq)]
pub enum SyncError {
    /// The outline has more than [`MAX_POINTS`] control points: no buffers
    /// could hold its tessellation.
    PathTooLong,
    /// The parameters gave an outline that is no path: its number of points
    /// is even or below three.
    InvalidOutline,
}

/// What the caller has to do on the GPU after the points of a shape were
/// brought up to date.
#[derive(Debug, Clone, Copy, PartialEq, Eq)]
pub enum ComputeSync {
    /// Nothing changed: no upload, no dispatch.
    Clean,
    /// Write the points into the existing point buffer, then dispatch the
    /// tessellation kernel.
    Rewrite { point_bytes: u64, workgroups: u32 },
    /// Replace the point buffer, resize the vertex and index buffers to
    /// match, rebuild the compute bind group, then dispatch the kernel.
    Reallocate { point_bytes: u64, vertex_bytes: u64, index_bytes: u64, workgroups: u32 },
}

/// What the caller has to do on the GPU after placement and colour of a shape
/// were brought up to date.
#[derive(Debug, Clone, Copy, PartialEq, Eq)]
pub enum RenderSync {
    /// Nothing changed: the uniform buffer stays as it is.
    Clean,
    /// Rewrite the uniform buffer. `model` says that the model matrix has to
    /// be recomputed from the transform, `color` that the colour was replaced.
    Rewrite { model: bool, color: bool },
    /// First use: build the uniforms from the current transform and colour,
    /// and create the uniform buffer and its bind group.
    Create,
}

/// Sizes of the buffers that a draw of the shape reads.
#[derive(Debug, Clone, Copy, PartialEq, Eq)]
pub struct RenderObject {
    pub vertex_bytes: u64,
    pub index_bytes: u64,
    pub index_count: u32,
}

/// Size of the buffer that the tessellation kernel reads.
#[derive(Debug, Clone, Copy, PartialEq, Eq)]
pub struct ComputeObject {
    pub point_bytes: u64,
}

/// The buffers allocated for a shape.
#[derive(Clone, Copy)]
struct Gpu {
    /// Number of control points that the vertex and index buffers, and the
    /// point buffer if there is one, were sized for.
    capacity: usize,
    point_buffer: bool,
    uniform_buffer: bool,
}

/// What an animation keeps of a shape: a copy of its outline, transform and
/// colour, cut off from later changes to the shape.
pub struct Snapshot<T, C, P> {
    pub points: Vec<P>,
    pub transform: T,
    pub color: C,
}

/// The abstract state of a [`Snapshot`].
pub struct SnapshotView<T, C, P> {
    pub points: Seq<P>,
    pub transform: T,
    pub color: C,
}

impl<T, C, P> View for Snapshot<T, C, P> {
    type V = SnapshotView<T, C, P>;

    open spec fn view(&self) -> SnapshotView<T, C, P> {
        SnapshotView { points: self.points@, transform: self.transform, color: self.color }
    }
}

/// The abstract state of a [`Shape`].
pub struct ShapeView<K, T, C, P> {
    /// Geometry parameters.
    pub kind: K,
    /// The parameters changed since the points were last computed from them.
    pub kind_dirty: bool,
    /// Position, rotation and scale.
    pub transform: T,
    /// The transform changed since the uniforms were last uploaded.
    pub transform_dirty: bool,
    pub color: C,
    /// The colour changed since the uniforms were last uploaded.
    pub color_dirty: bool,
    /// The cached outline.
    pub points: Seq<P>,
    /// The outline changed since it was last uploaded.
    pub points_dirty: bool,
    /// `Some(n)` once the shape is attached to a render target: its vertex and
    /// index buffers are sized for `n` control points.
    pub capacity: Option<nat>,
    /// The point buffer and the compute bind group exist.
    pub point_buffer: bool,
    /// The uniform buffer and the render bind group exist.
    pub uniform_buffer: bool,
}

impl<K, T, C, P> ShapeView<K, T, C, P> {
    /// What holds of the state of every shape: buffers exist only on an
    /// attached shape, no buffer is sized for more than [`MAX_POINTS`]
    /// points, and an outline that is not marked changed fits the buffers.
    pub open spec fn wf(self) -> bool {
        &&& self.capacity matches Some(n) ==> n <= MAX_POINTS
        &&& self.point_buffer ==> self.capacity is Some
        &&& self.uniform_buffer ==> self.capacity is Some
        &&& self.capacity matches Some(n) ==> self.points_dirty || self.points.len() <= n
    }

    /// The shape has buffers on a render target.
    pub open spec fn attached(self) -> bool {
        self.capacity is Some
    }

    /// The buffers of the shape are large enough for its outline and the
    /// tessellation of it: the vertex buffer for three vertices a segment and
    /// one more, the index buffer for six indices a segment, and the point
    /// buffer, where there is one, for every point.
    pub open spec fn holds_outline(self) -> bool {
        let n = self.points.len();
        &&& self.capacity matches Some(capacity) && {
            &&& n <= capacity
            &&& vertex_records(n) <= vertex_records(capacity)
            &&& vertex_bytes(n) <= vertex_bytes(capacity)
            &&& index_entries(n) <= index_entries(capacity)
            &&& index_bytes(n) <= index_bytes(capacity)
            &&& point_bytes(n) <= point_bytes(capacity)
        }
    }

    /// A new shape: parameters marked changed, nothing computed or allocated.
    pub open spec fn fresh(kind: K, transform: T, color: C) -> Self {
        ShapeView {
            kind,
            kind_dirty: true,
            transform,
            transform_dirty: false,
            color,
            color_dirty: false,
            points: Seq::empty(),
            points_dirty: false,
            capacity: None,
            point_buffer: false,
            uniform_buffer: false,
        }
    }

    /// The parameters were written.
    pub open spec fn with_kind(self, kind: K) -> Self {
        ShapeView { kind, kind_dirty: true, ..self }
    }

    /// The transform was written.
    pub open spec fn with_transform(self, transform: T) -> Self {
        ShapeView { transform, transform_dirty: true, ..self }
    }

    /// The colour was written.
    pub open spec fn with_color(self, color: C) -> Self {
        ShapeView { color, color_dirty: true, ..self }
    }

    /// The cached outline was written.
    pub open spec fn with_points(self, points: Seq<P>) -> Self {
        ShapeView { points, points_dirty: true, ..self }
    }

    /// Outline, transform and colour were all written, as a frame of an
    /// animation does.
    pub open spec fn interpolated(self, points: Seq<P>, transform: T, color: C) -> Self {
        self.with_points(points).with_transform(transform).with_color(color)
    }

    /// The shape was attached to a render target with `generated` as its
    /// outline: vertex and index buffers are sized for it, and the outline
    /// is not marked changed. The other buffers are left to the
    /// synchronisations; the first upload comes from the mark that the
    /// parameters of a new shape carry.
    pub open spec fn attach(self, generated: Seq<P>) -> Self {
        ShapeView {
            points: generated,
            points_dirty: false,
            capacity: Some(generated.len()),
            point_buffer: false,
            uniform_buffer: false,
            ..self
        }
    }

    /// Why `generated` cannot be taken as the outline that parameters gave:
    /// it is longer than [`MAX_POINTS`], or it is within that limit and no
    /// path. `None` where it can be taken.
    pub open spec fn rejects(generated: Seq<P>) -> Option<SyncError> {
        if generated.len() > MAX_POINTS {
            Some(SyncError::PathTooLong)
        } else if !is_path_len(generated.len()) {
            Some(SyncError::InvalidOutline)
        } else {
            None
        }
    }

    /// Attaching with `generated` as the outline that the parameters gave:
    /// an outline that cannot be taken leaves the shape as it was.
    pub open spec fn try_attach(self, generated: Seq<P>) -> (Self, Result<(), SyncError>) {
        match Self::rejects(generated) {
            Some(e) => (self, Err(e)),
            None => (self.attach(generated), Ok(())),
        }
    }

    /// The buffers were given up.
    pub open spec fn release(self) -> Self {
        ShapeView { capacity: None, point_buffer: false, uniform_buffer: false, ..self }
    }

    /// First half of the compute synchronisation: changed parameters are
    /// consumed, and `generated`, the outline computed from them, replaces the
    /// cached one.
    pub open spec fn refresh(self, generated: Seq<P>) -> Self {
        if self.kind_dirty {
            ShapeView { kind_dirty: false, points: generated, points_dirty: true, ..self }
        } else {
            self
        }
    }

    /// Whether the point buffer can take the cached outline as it is.
    pub open spec fn point_buffer_fits(self) -> bool {
        self.point_buffer && fits(
            point_bytes(self.capacity.unwrap()),
            point_bytes(self.points.len()),
        )
    }

    /// Second half of the compute synchronisation: a changed outline is
    /// consumed and goes to the point buffer, in place where the buffer fits
    /// it, into new buffers where it does not.
    pub open spec fn upload(self) -> (Self, Result<ComputeSync, SyncError>) {
        let n = self.points.len();
        if !self.points_dirty {
            (self, Ok(ComputeSync::Clean))
        } else if n > MAX_POINTS {
            (self, Err(SyncError::PathTooLong))
        } else if self.point_buffer_fits() {
            (
                ShapeView { points_dirty: false, ..self },
                Ok(
                    ComputeSync::Rewrite {
                        point_bytes: point_bytes(n) as u64,
                        workgroups: workgroups(n) as u32,
                    },
                ),
            )
        } else {
            (
                ShapeView { points_dirty: false, capacity: Some(n), point_buffer: true, ..self },
                Ok(
                    ComputeSync::Reallocate {
                        point_bytes: point_bytes(n) as u64,
                        vertex_bytes: vertex_bytes(n) as u64,
                        index_bytes: index_bytes(n) as u64,
                        workgroups: workgroups(n) as u32,
                    },
                ),
            )
        }
    }

    /// The compute synchronisation, with `generated` as the outline that
    /// changed parameters give. Where that outline is within the limit and
    /// no path, the shape stays as it was; otherwise changed parameters are
    /// consumed and the outline is uploaded.
    pub open spec fn sync_compute(self, generated: Seq<P>) -> (Self, Result<ComputeSync, SyncError>) {
        if self.kind_dirty && Self::rejects(generated) == Some(SyncError::InvalidOutline) {
            (self, Err(SyncError::InvalidOutline))
        } else {
            self.refresh(generated).upload()
        }
    }

    /// The render synchronisation: changes of transform and colour are
    /// consumed and reported.
    pub open spec fn sync_render(self) -> (Self, RenderSync) {
        let clean = ShapeView {
            transform_dirty: false,
            color_dirty: false,
            uniform_buffer: true,
            ..self
        };
        if !self.uniform_buffer {
            (clean, RenderSync::Create)
        } else if self.transform_dirty || self.color_dirty {
            (clean, RenderSync::Rewrite { model: self.transform_dirty, color: self.color_dirty })
        } else {
            (self, RenderSync::Clean)
        }
    }
}

impl ComputeSync {
    /// Whether the tessellation kernel has to run this frame.
    pub fn needs_dispatch(&self) -> (dispatch: bool)
        ensures
            dispatch == !(*self is Clean),
    {
        match self {
            ComputeSync::Clean => false,
            _ => true,
        }
    }
}

impl RenderSync {
    /// Whether the uniform buffer has to be written this frame.
    pub fn needs_upload(&self) -> (upload: bool)
        ensures
            upload == !(*self is Clean),
    {
        match self {
            RenderSync::Clean => false,
            _ => true,
        }
    }

    /// Whether the report says that the transform changed.
    pub open spec fn model_changed(self) -> bool {
        match self {
            RenderSync::Clean => false,
            RenderSync::Rewrite { model, .. } => model,
            RenderSync::Create => true,
        }
    }

    /// Whether the model matrix has to be computed from the transform.
    pub fn refreshes_model(&self) -> (refresh: bool)
        ensures
            refresh == self.model_changed(),
    {
        match self {
            RenderSync::Clean => false,
            RenderSync::Rewrite { model, .. } => *model,
            RenderSync::Create => true,
        }
    }
}

/// A shape of kind `K`, placed by a transform `T`, filled with a colour `C`,
/// and outlined by control points `P`.
pub struct Shape<K, T, C, P> {
    kind: Latch<K>,
    transform: Latch<T>,
    color: Latch<C>,
    points: Latch<Vec<P>>,
    gpu: Option<Gpu>,
}

impl<K, T, C, P> View for Shape<K, T, C, P> {
    type V = ShapeView<K, T, C, P>;

    closed spec fn view(&self) -> ShapeView<K, T, C, P> {
        ShapeView {
            kind: self.kind.value(),
            kind_dirty: self.kind.is_set(),
            transform: self.transform.value(),
            transform_dirty: self.transform.is_set(),
            color: self.color.value(),
            color_dirty: self.color.is_set(),
            points: self.points.value()@,
            points_dirty: self.points.is_set(),
            capacity: match self.gpu {
                Some(gpu) => Some(gpu.capacity as nat),
                None => None,
            },
            point_buffer: match self.gpu {
                Some(gpu) => gpu.point_buffer,
                None => false,
            },
            uniform_buffer: match self.gpu {
                Some(gpu) => gpu.uniform_buffer,
                None => false,
            },
        }
    }
}

impl<K, T, C, P> std::ops::Deref for Shape<K, T, C, P> {
    type Target = K;

    /// The geometry parameters.
    fn deref(&self) -> (kind: &K)
        ensures
            *kind == self@.kind,
    {
        self.kind.get()
    }
}

impl<K, T, C, P> Shape<K, T, C, P> {
    #[verifier::type_invariant]
    spec fn inv(self) -> bool {
        self.gpu matches Some(gpu) ==> gpu.capacity <= MAX_POINTS && (self.points.is_set()
            || self.points.value()@.len() <= gpu.capacity)
    }

    /// A new shape that is not yet attached to a render target.
    pub fn new(kind: K, transform: T, color: C) -> (s: Self)
        ensures
            s@ == ShapeView::<K, T, C, P>::fresh(kind, transform, color),
            s@.wf(),
    {
        Shape {
            kind: Latch::new_set(kind),
            transform: Latch::new_reset(transform),
            color: Latch::new_reset(color),
            points: Latch::new_reset(Vec::new()),
            gpu: None,
        }
    }

    /// The geometry parameters.
    pub fn kind(&self) -> (kind: &K)
        ensures
            *kind == self@.kind,
    {
        self.kind.get()
    }

    /// The transform.
    pub fn transform(&self) -> (transform: &T)
        ensures
            *transform == self@.transform,
    {
        self.transform.get()
    }

    /// The colour.
    pub fn color(&self) -> (color: &C)
        ensures
            *color == self@.color,
    {
        self.color.get()
    }

    /// The cached outline.
    pub fn points(&self) -> (points: &Vec<P>)
        ensures
            points@ == self@.points,
    {
        self.points.get()
    }

    /// Whether the shape has buffers on a render target.
    pub fn is_attached(&self) -> (attached: bool)
        ensures
            attached == self@.attached(),
            self@.wf(),
    {
        proof {
            use_type_invariant(self);
        }
        self.gpu.is_some()
    }

    /// Whether the point buffer and the compute bind group exist.
    pub fn has_compute_object(&self) -> (exists: bool)
        ensures
            exists == self@.point_buffer,
    {
        match self.gpu {
            Some(gpu) => gpu.point_buffer,
            None => false,
        }
    }

    /// Mutable access to the geometry parameters; marks them changed.
    pub fn kind_mut(&mut self) -> (kind: &mut K)
        ensures
            *kind == old(self)@.kind,
            final(self)@ == old(self)@.with_kind(*final(kind)),
            final(self)@.wf(),
    {
        proof {
            use_type_invariant(&*self);
        }
        self.kind.get_mut()
    }

    /// Mutable access to the transform; marks it changed.
    pub fn transform_mut(&mut self) -> (transform: &mut T)
        ensures
            *transform == old(self)@.transform,
            final(self)@ == old(self)@.with_transform(*final(transform)),
            final(self)@.wf(),
    {
        proof {
            use_type_invariant(&*self);
        }
        self.transform.get_mut()
    }

    /// Replaces the geometry parameters and marks them changed.
    pub fn set_kind(&mut self, kind: K)
        ensures
            final(self)@ == old(self)@.with_kind(kind),
            final(self)@.wf(),
    {
        proof {
            use_type_invariant(&*self);
        }
        self.kind.set(kind);
    }

    /// Replaces the transform and marks it changed.
    pub fn set_transform(&mut self, transform: T)
        ensures
            final(self)@ == old(self)@.with_transform(transform),
            final(self)@.wf(),
    {
        proof {
            use_type_invariant(&*self);
        }
        self.transform.set(transform);
    }

    /// Replaces the colour and marks it changed.
    pub fn set_color(&mut self, color: C)
        ensures
            final(self)@ == old(self)@.with_color(color),
            final(self)@.wf(),
    {
        proof {
            use_type_invariant(&*self);
        }
        self.color.set(color);
    }

    /// Replaces the cached outline and marks it changed.
    pub fn set_points(&mut self, points: Vec<P>)
        ensures
            final(self)@ == old(self)@.with_points(points@),
            final(self)@.wf(),
    {
        proof {
            use_type_invariant(&*self);
        }
        self.points.set(points);
    }
}

impl<K, T, C, P> Shape<K, T, C, P> {
    /// Attaches the shape to a render target: computes the outline from the
    /// parameters, stores it without marking it changed, and records vertex
    /// and index buffers sized for it. The caller allocates them, with the
    /// sizes that [`Shape::get_render_object`] then reports.
    ///
    /// Fails, and leaves the shape as it was, when the outline is longer than
    /// [`MAX_POINTS`] or is no path. After a success the outline is a path:
    /// its length is odd and at least three.
    pub fn create_render_object(&mut self) -> (r: Result<(), SyncError>) where K: HasPoints<P>
        ensures
            final(self)@.wf(),
            exists|generated: Seq<P>|
                generates(old(self)@.kind, generated) && (final(self)@, r) == (
                #[trigger] old(self)@.try_attach(generated)),
            r is Ok ==> is_path_len(final(self)@.points.len()) && !final(self)@.points_dirty
                && final(self)@.capacity == Some(final(self)@.points.len()),
            r is Ok ==> final(self)@.holds_outline(),
    {
        proof {
            use_type_invariant(&*self);
        }
        let generated = self.kind.get().calc_points();
        let ghost witness = generated@;
        assert(generates(self@.kind, witness));
        let n: usize = generated.len();
        if n > MAX_POINTS {
            let r = Err(SyncError::PathTooLong);
            assert((self@, r) == old(self)@.try_attach(witness));
            return r;
        }
        if !valid_path_len(n) {
            let r = Err(SyncError::InvalidOutline);
            assert((self@, r) == old(self)@.try_attach(witness));
            return r;
        }
        self.points.set(generated);
        self.gpu = Some(Gpu { capacity: n, point_buffer: false, uniform_buffer: false });
        self.points.reset();
        let r = Ok(());
        assert((self@, r) == old(self)@.try_attach(witness));
        r
    }

    /// Gives up the buffers; the caller destroys them. The host side of the
    /// shape is untouched.
    pub fn release(&mut self)
        ensures
            final(self)@ == old(self)@.release(),
            final(self)@.wf(),
    {
        self.gpu = None;
    }

    /// Brings the point buffer up to date and says what the caller has to do
    /// for it.
    ///
    /// Changed parameters are consumed first: the outline is computed anew
    /// from them and replaces the cached one, whether or not that one was
    /// written meanwhile. A changed outline is then consumed: it is written
    /// into the point buffer where [`ShapeView::point_buffer_fits`] holds, and
    /// into new buffers sized for it otherwise. With neither changed nothing
    /// happens.
    ///
    /// Fails, and leaves the shape as it was, when changed parameters give an
    /// outline within [`MAX_POINTS`] that is no path. Fails when the outline,
    /// computed or written, is longer than [`MAX_POINTS`]; the outline then
    /// stays marked changed.
    ///
    /// After a success the outline fits the buffers, whatever the call did,
    /// and an outline that was computed is a path.
    pub fn update_compute_buffers(&mut self) -> (r: Result<ComputeSync, SyncError>) where
        K: HasPoints<P>,

        requires
            old(self)@.attached(),
        ensures
            final(self)@.wf(),
            exists|generated: Seq<P>|
                (old(self)@.kind_dirty ==> generates(old(self)@.kind, generated)) && (
                    final(self)@,
                    r,
                ) == (#[trigger] old(self)@.sync_compute(generated)),
            r is Ok ==> final(self)@.holds_outline(),
            r is Ok && old(self)@.kind_dirty ==> is_path_len(final(self)@.points.len()),
    {
        proof {
            use_type_invariant(&*self);
        }
        let ghost mut witness = self@.points;
        if self.kind.is_dirty() {
            let generated = self.kind.get().calc_points();
            proof {
                witness = generated@;
                assert(generates(old(self)@.kind, witness));
            }
            let len: usize = generated.len();
            if len <= MAX_POINTS && !valid_path_len(len) {
                let r = Err(SyncError::InvalidOutline);
                assert((self@, r) == old(self)@.sync_compute(witness));
                return r;
            }
            self.kind.reset();
            self.points.set(generated);
        }
        let ghost refreshed = old(self)@.refresh(witness);
        assert(self@ == refreshed);
        assert(old(self)@.sync_compute(witness) == refreshed.upload());
        let n: usize = self.points.get().len();
        let r = if !self.points.is_dirty() {
            Ok(ComputeSync::Clean)
        } else if n > MAX_POINTS {
            Err(SyncError::PathTooLong)
        } else {
            proof {
                lemma_sizes_in_range(n as nat);
            }
            let required = point_buffer_size(n);
            let groups = num_compute_workgroups(n);
            match self.gpu {
                Some(gpu) => {
                    proof {
                        lemma_sizes_in_range(gpu.capacity as nat);
                    }
                    if gpu.point_buffer && buffer_fits(point_buffer_size(gpu.capacity), required) {
                        self.points.reset();
                        Ok(ComputeSync::Rewrite { point_bytes: required, workgroups: groups })
                    } else {
                        self.gpu = Some(
                            Gpu {
                                capacity: n,
                                point_buffer: true,
                                uniform_buffer: gpu.uniform_buffer,
                            },
                        );
                        self.points.reset();
                        Ok(
                            ComputeSync::Reallocate {
                                point_bytes: required,
                                vertex_bytes: vertex_buffer_size(n),
                                index_bytes: index_buffer_size(n),
                                workgroups: groups,
                            },
                        )
                    }
                },
                None => vstd::pervasive::unreached(),
            }
        };
        assert((self@, r) == refreshed.upload());
        proof {
            if r is Ok {
                lemma_sizes_monotonic(self@.points.len(), self@.capacity.unwrap());
            }
        }
        r
    }

    /// Brings the uniforms up to date and says what the caller has to do for
    /// them: create them on the first call, rewrite them when transform or
    /// colour changed since the last call, nothing otherwise.
    pub fn update_render_buffers(&mut self) -> (r: RenderSync)
        requires
            old(self)@.attached(),
        ensures
            final(self)@.wf(),
            (final(self)@, r) == old(self)@.sync_render(),
    {
        proof {
            use_type_invariant(&*self);
        }
        match self.gpu {
            Some(gpu) => {
                if !gpu.uniform_buffer {
                    self.transform.reset();
                    self.color.reset();
                    self.gpu = Some(
                        Gpu {
                            capacity: gpu.capacity,
                            point_buffer: gpu.point_buffer,
                            uniform_buffer: true,
                        },
                    );
                    assert(self@ == old(self)@.sync_render().0);
                    RenderSync::Create
                } else {
                    let model = self.transform.reset();
                    let color = self.color.reset();
                    assert(self@ == old(self)@.sync_render().0);
                    if model || color {
                        RenderSync::Rewrite { model, color }
                    } else {
                        RenderSync::Clean
                    }
                }
            },
            None => vstd::pervasive::unreached(),
        }
    }

    /// Workgroups that a dispatch over the cached outline takes.
    pub fn num_compute_workgroups(&self) -> (count: u32)
        requires
            workgroups(self@.points.len()) <= u32::MAX,
        ensures
            count == workgroups(self@.points.len()),
    {
        num_compute_workgroups(self.points.get().len())
    }

    /// Sizes of the vertex and index buffers, and the number of indices that
    /// a draw covers: all that the index buffer holds. Unless the outline is
    /// marked changed, the buffers are large enough for it.
    pub fn get_render_object(&self) -> (object: RenderObject)
        requires
            self@.attached(),
        ensures
            self@.wf(),
            object.vertex_bytes == vertex_bytes(self@.capacity.unwrap()),
            object.index_bytes == index_bytes(self@.capacity.unwrap()),
            object.index_count == index_entries(self@.capacity.unwrap()),
            !self@.points_dirty ==> self@.holds_outline(),
    {
        proof {
            use_type_invariant(self);
        }
        match self.gpu {
            Some(gpu) => {
                proof {
                    lemma_sizes_in_range(gpu.capacity as nat);
                    if !self@.points_dirty {
                        lemma_sizes_monotonic(self@.points.len(), gpu.capacity as nat);
                    }
                }
                let index_bytes = index_buffer_size(gpu.capacity);
                RenderObject {
                    vertex_bytes: vertex_buffer_size(gpu.capacity),
                    index_bytes,
                    index_count: index_count(index_bytes),
                }
            },
            None => vstd::pervasive::unreached(),
        }
    }

    /// Size of the point buffer. Unless the outline is marked changed, the
    /// buffer is large enough for it.
    pub fn get_compute_object(&self) -> (object: ComputeObject)
        requires
            self@.point_buffer,
        ensures
            self@.wf(),
            self@.attached(),
            object.point_bytes == point_bytes(self@.capacity.unwrap()),
            !self@.points_dirty ==> self@.holds_outline(),
    {
        proof {
            use_type_invariant(self);
        }
        match self.gpu {
            Some(gpu) => {
                proof {
                    lemma_sizes_in_range(gpu.capacity as nat);
                    if !self@.points_dirty {
                        lemma_sizes_monotonic(self@.points.len(), gpu.capacity as nat);
                    }
                }
                ComputeObject { point_bytes: point_buffer_size(gpu.capacity) }
            },
            None => vstd::pervasive::unreached(),
        }
    }
}

impl<K, T, C, P> Shape<K, T, C, P> {
    /// Copies outline, transform and colour. A shape whose outline was never
    /// computed has it computed from the parameters for the copy; the shape
    /// itself stays as it is.
    pub fn snapshot(&self) -> (snap: Snapshot<T, C, P>) where
        K: HasPoints<P>,
        T: Copy,
        C: Copy,
        P: Copy,

        ensures
            snap.transform == self@.transform,
            snap.color == self@.color,
            self@.points.len() > 0 ==> snap.points@ == self@.points,
            self@.points.len() == 0 ==> generates(self@.kind, snap.points@),
    {
        let cached = self.points.get();
        let points = if cached.len() == 0 {
            self.kind.get().calc_points()
        } else {
            proof {
                lemma_resample_same_len(cached@);
            }
            resample(cached, cached.len())
        };
        Snapshot { points, transform: *self.transform.get(), color: *self.color.get() }
    }

    /// Sets the shape to a blend of two snapshots with the same number of
    /// points. Point `i` of the outline is what `lerp_point` makes of the two
    /// points at position `i`; transform and colour are what `lerp_transform`
    /// and `lerp_color` make of the two transforms and colours. All three are
    /// marked changed.
    ///
    /// Snapshots that differ in their number of points are a mistake of the
    /// caller: an animation brings its two ends to a common length before it
    /// blends them.
    pub fn interpolate<FP, FT, FC>(
        &mut self,
        a: &Snapshot<T, C, P>,
        b: &Snapshot<T, C, P>,
        lerp_point: FP,
        lerp_transform: FT,
        lerp_color: FC,
    ) where FP: Fn(&P, &P) -> P, FT: FnOnce(&T, &T) -> T, FC: FnOnce(&C, &C) -> C
        requires
            a.points.len() == b.points.len(),
            forall|i: int|
                0 <= i < a.points.len() ==> call_requires(
                    lerp_point,
                    (&#[trigger] a.points[i], &b.points[i]),
                ),
            call_requires(lerp_transform, (&a.transform, &b.transform)),
            call_requires(lerp_color, (&a.color, &b.color)),
        ensures
            final(self)@ == old(self)@.interpolated(
                final(self)@.points,
                final(self)@.transform,
                final(self)@.color,
            ),
            final(self)@.points.len() == a.points.len(),
            forall|i: int|
                0 <= i < final(self)@.points.len() ==> call_ensures(
                    lerp_point,
                    (&a.points[i], &b.points[i]),
                    #[trigger] final(self)@.points[i],
                ),
            call_ensures(lerp_transform, (&a.transform, &b.transform), final(self)@.transform),
            call_ensures(lerp_color, (&a.color, &b.color), final(self)@.color),
            final(self)@.wf(),
    {
        let len: usize = a.points.len();
        let mut blended: Vec<P> = Vec::new();
        let mut i: usize = 0;
        while i < len
            invariant
                i <= len,
                len == a.points.len(),
                len == b.points.len(),
                blended.len() == i,
                forall|k: int|
                    0 <= k < a.points.len() ==> call_requires(
                        lerp_point,
                        (&#[trigger] a.points[k], &b.points[k]),
                    ),
                forall|k: int|
                    0 <= k < i ==> call_ensures(
                        lerp_point,
                        (&a.points[k], &b.points[k]),
                        #[trigger] blended[k],
                    ),
            decreases len - i,
        {
            let p = lerp_point(&a.points[i], &b.points[i]);
            blended.push(p);
            i += 1;
        }
        let transform = lerp_transform(&a.transform, &b.transform);
        let color = lerp_color(&a.color, &b.color);
        proof {
            use_type_invariant(&*self);
        }
        self.points.set(blended);
        self.transform.set(transform);
        self.color.set(color);
    }
}

impl<K: Clone, T: Clone, C: Clone, P: Clone> Clone for Shape<K, T, C, P> {
    /// A copy of the host side of the shape, marks included. The copy is not
    /// attached: buffers are never shared between shapes.
    fn clone(&self) -> (copy: Self)
        ensures
            cloned(self@.kind, copy@.kind),
            cloned(self@.transform, copy@.transform),
            cloned(self@.color, copy@.color),
            copy@.points.len() == self@.points.len(),
            forall|i: int|
                0 <= i < self@.points.len() ==> cloned(self@.points[i], #[trigger] copy@.points[i]),
            copy@.kind_dirty == self@.kind_dirty,
            copy@.transform_dirty == self@.transform_dirty,
            copy@.color_dirty == self@.color_dirty,
            copy@.points_dirty == self@.points_dirty,
            !copy@.attached(),
            copy@.wf(),
    {
        let kind = self.kind.get().clone();
        let transform = self.transform.get().clone();
        let color = self.color.get().clone();
        let points = self.points.get().clone();
        Shape {
            kind: if self.kind.is_dirty() {
                Latch::new_set(kind)
            } else {
                Latch::new_reset(kind)
            },
            transform: if self.transform.is_dirty() {
                Latch::new_set(transform)
            } else {
                Latch::new_reset(transform)
            },
            color: if self.color.is_dirty() {
                Latch::new_set(color)
            } else {
                Latch::new_reset(color)
            },
            points: if self.points.is_dirty() {
                Latch::new_set(points)
            } else {
                Latch::new_reset(points)
            },
            gpu: None,
        }
    }
}

/// Every operation leaves a well-formed state well-formed.
pub proof fn lemma_wf_preserved<K, T, C, P>(
    s: ShapeView<K, T, C, P>,
    kind: K,
    transform: T,
    color: C,
    points: Seq<P>,
)
    requires
        s.wf(),
    ensures
        ShapeView::<K, T, C, P>::fresh(kind, transform, color).wf(),
        s.with_kind(kind).wf(),
        s.with_transform(transform).wf(),
        s.with_color(color).wf(),
        s.with_points(points).wf(),
        s.interpolated(points, transform, color).wf(),
        points.len() <= MAX_POINTS ==> s.attach(points).wf(),
        s.try_attach(points).0.wf(),
        s.release().wf(),
        s.refresh(points).wf(),
        s.attached() ==> s.upload().0.wf(),
        s.attached() ==> s.sync_compute(points).0.wf(),
        s.attached() ==> s.sync_render().0.wf(),
{
}

/// An outline that a shape computed from its parameters and kept is a path:
/// its length is odd and at least three. That holds after every successful
/// attach, and after every successful compute synchronisation that found the
/// parameters changed; the outline kept is the one computed.
pub proof fn lemma_computed_outline_is_path<K, T, C, P>(
    s: ShapeView<K, T, C, P>,
    generated: Seq<P>,
)
    ensures
        s.try_attach(generated).1 is Ok <==> is_path_len(generated.len()) && generated.len()
            <= MAX_POINTS,
        s.try_attach(generated).1 is Ok ==> {
            let after = s.try_attach(generated).0;
            &&& after.points == generated
            &&& after.points.len() % 2 == 1
            &&& after.points.len() >= 3
            &&& !after.points_dirty
            &&& after.capacity == Some(generated.len())
            &&& !after.point_buffer
            &&& !after.uniform_buffer
            &&& after.kind_dirty == s.kind_dirty
        },
        s.try_attach(generated).1 is Err ==> s.try_attach(generated).0 == s,
        s.kind_dirty && s.sync_compute(generated).1 is Ok ==> {
            let after = s.sync_compute(generated).0;
            &&& after.points == generated
            &&& after.points.len() % 2 == 1
            &&& after.points.len() >= 3
        },
        s.kind_dirty && s.sync_compute(generated).1 == Err::<ComputeSync, SyncError>(
            SyncError::InvalidOutline,
        ) ==> s.sync_compute(generated).0 == s,
{
}

/// The compute synchronisation does nothing exactly when neither the
/// parameters nor the outline changed, and then leaves the state as it was.
pub proof fn lemma_compute_sync_idle<K, T, C, P>(s: ShapeView<K, T, C, P>, generated: Seq<P>)
    ensures
        s.sync_compute(generated).1 == Ok::<ComputeSync, SyncError>(ComputeSync::Clean)
            <==> !s.kind_dirty && !s.points_dirty,
        !s.kind_dirty && !s.points_dirty ==> s.sync_compute(generated).0 == s,
{
}

/// What a compute synchronisation does with an outline to upload, be it
/// computed from changed parameters or written. It fails exactly when the
/// outline is longer than [`MAX_POINTS`], or was computed and is no path.
/// Otherwise the outline goes to new buffers exactly when there is no point
/// buffer yet or the outline's byte size lies outside the range from half the
/// size of the point buffer to its full size; else it is written in place and
/// the buffers stay as they are.
pub proof fn lemma_reallocation_rule<K, T, C, P>(s: ShapeView<K, T, C, P>, generated: Seq<P>)
    requires
        s.wf(),
        s.attached(),
        s.kind_dirty || s.points_dirty,
    ensures
        ({
            let outline = if s.kind_dirty {
                generated
            } else {
                s.points
            };
            let current = point_bytes(s.capacity.unwrap());
            let required = point_bytes(outline.len());
            let (after, report) = s.sync_compute(generated);
            &&& report == Err::<ComputeSync, SyncError>(SyncError::PathTooLong) <==> outline.len()
                > MAX_POINTS
            &&& report == Err::<ComputeSync, SyncError>(SyncError::InvalidOutline)
                <==> s.kind_dirty && outline.len() <= MAX_POINTS && !is_path_len(outline.len())
            &&& report is Ok ==> {
                &&& !(report.unwrap() is Clean)
                &&& after.points == outline
                &&& report.unwrap() is Reallocate <==> !s.point_buffer || required < current / 2
                    || required > current
                &&& report.unwrap() is Rewrite <==> s.point_buffer && current / 2 <= required
                    <= current
                &&& report.unwrap() is Rewrite ==> after.capacity == s.capacity
                &&& report.unwrap() is Reallocate ==> after.capacity == Some(outline.len())
                    && after.point_buffer
            }
        }),
{
}

/// The buffers of an attached shape hold every outline that is not marked
/// changed: the vertex, index and point buffers are at least as large as the
/// outline and its tessellation need. After a successful compute
/// synchronisation that is so whatever the synchronisation did, nothing
/// included.
pub proof fn lemma_buffers_hold_outline<K, T, C, P>(s: ShapeView<K, T, C, P>, generated: Seq<P>)
    requires
        s.wf(),
        s.attached(),
    ensures
        !s.points_dirty ==> s.holds_outline(),
        s.sync_compute(generated).1 is Ok ==> s.sync_compute(generated).0.holds_outline()
            && !s.sync_compute(generated).0.points_dirty,
        s.sync_compute(generated).1 is Ok && !(s.sync_compute(generated).1.unwrap() is Clean)
            ==> s.sync_compute(generated).0.point_buffer,
{
    if !s.points_dirty {
        lemma_sizes_monotonic(s.points.len(), s.capacity.unwrap());
    }
    let after = s.sync_compute(generated).0;
    if s.sync_compute(generated).1 is Ok {
        lemma_sizes_monotonic(after.points.len(), after.capacity.unwrap());
    }
}

/// The first synchronisations after a shape was attached. A shape whose
/// parameters are marked changed, as those of every new shape are, gets its
/// point buffer and compute bind group from the first compute
/// synchronisation. A shape whose parameters are not marked is left as it
/// is. Either way the first render synchronisation creates the uniform
/// buffer and the render bind group.
pub proof fn lemma_attach_then_sync<K, T, C, P>(
    s: ShapeView<K, T, C, P>,
    kind: K,
    transform: T,
    color: C,
    attached_with: Seq<P>,
    generated: Seq<P>,
)
    requires
        ShapeView::<K, T, C, P>::rejects(generated) is None,
    ensures
        s.kind_dirty ==> {
            let (after, report) = s.attach(attached_with).sync_compute(generated);
            &&& report is Ok
            &&& report.unwrap() is Reallocate
            &&& after.point_buffer
            &&& after.points == generated
            &&& after.capacity == Some(generated.len())
        },
        !s.kind_dirty ==> s.attach(attached_with).sync_compute(generated) == (
            s.attach(attached_with),
            Ok::<ComputeSync, SyncError>(ComputeSync::Clean),
        ),
        ShapeView::<K, T, C, P>::fresh(kind, transform, color).attach(attached_with).sync_compute(
            generated,
        ).1.unwrap() is Reallocate,
        s.attach(attached_with).sync_render().1 == RenderSync::Create,
        s.attach(attached_with).sync_render().0.uniform_buffer,
{
}

/// A synchronisation that succeeded leaves nothing for the next one: without
/// a write in between, the next one is idle.
pub proof fn lemma_sync_settles<K, T, C, P>(
    s: ShapeView<K, T, C, P>,
    generated: Seq<P>,
    later: Seq<P>,
)
    requires
        s.sync_compute(generated).1 is Ok,
    ensures
        ({
            let after = s.sync_compute(generated).0;
            after.sync_compute(later) == (after, Ok::<ComputeSync, SyncError>(ComputeSync::Clean))
        }),
        ({
            let after = s.sync_render().0;
            after.sync_render() == (after, RenderSync::Clean)
        }),
{
}

/// A written transform is reported by the next render synchronisation and by
/// none after it, and a colour written later is reported alone, without the
/// transform.
pub proof fn lemma_transform_dirty_once<K, T, C, P>(
    s: ShapeView<K, T, C, P>,
    transform: T,
    color: C,
)
    ensures
        ({
            let moved = s.with_transform(transform);
            let (synced, first) = moved.sync_render();
            let (_, second) = synced.sync_render();
            let tinted = synced.with_color(color);
            let (_, third) = tinted.sync_render();
            &&& moved.transform_dirty
            &&& first.model_changed()
            &&& !synced.transform_dirty
            &&& second == RenderSync::Clean
            &&& !tinted.transform_dirty
            &&& third == RenderSync::Rewrite { model: false, color: true }
        }),
{
}

/// Writing one field marks that field alone.
pub proof fn lemma_writes_are_separate<K, T, C, P>(
    s: ShapeView<K, T, C, P>,
    kind: K,
    transform: T,
    color: C,
    points: Seq<P>,
)
    ensures
        s.with_kind(kind).transform_dirty == s.transform_dirty,
        s.with_kind(kind).color_dirty == s.color_dirty,
        s.with_kind(kind).points_dirty == s.points_dirty,
        s.with_transform(transform).kind_dirty == s.kind_dirty,
        s.with_transform(transform).color_dirty == s.color_dirty,
        s.with_transform(transform).points_dirty == s.points_dirty,
        s.with_color(color).kind_dirty == s.kind_dirty,
        s.with_color(color).transform_dirty == s.transform_dirty,
        s.with_color(color).points_dirty == s.points_dirty,
        s.with_points(points).kind_dirty == s.kind_dirty,
        s.with_points(points).transform_dirty == s.transform_dirty,
        s.with_points(points).color_dirty == s.color_dirty,
{
}

} // verus!
