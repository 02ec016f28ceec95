//! The order of the GPU work for one shape in one frame.
//!
//! A path is filled in two passes over the same triangles. The stencil pass
//! writes no colour: every triangle inverts the stencil bit of the pixels it
//! covers, so a pixel ends up set where an odd number of triangles lie over
//! it. The cover pass draws the triangles again and colours the pixels whose
//! bit is set. Before the passes the shape's buffers are brought up to date.
//!
//! The renderer names the work, as a list of [`Command`]s; the caller records
//! it with the GPU library. What the two passes do to a pixel is stated here
//! over the usual arithmetic of the stencil test.

use crate::buffers::index_entries;
use crate::pipeline::Pipeline;
use crate::shape::{
    generates,
    ComputeSync,
    HasPoints,
    RenderSync,
    Shape,
    SyncError,
};
use vstd::prelude::*;

verus! {

/// Bind group slot of the camera in both passes.
pub const CAMERA_GROUP: u32 = 0;

/// Bind group slot of the shape's uniforms in both passes.
pub const OBJECT_GROUP: u32 = 1;

/// The stencil value that marks a pixel as inside the path.
pub const STENCIL_REFERENCE: u32 = 1;

/// The stencil bits that the passes read and write.
pub const STENCIL_MASK: u32 = 1;

/// A comparison for the depth or stencil test.
#[derive(Debug, Clone, Copy, PartialEq, Eq)]
pub enum CompareFunction {
    Less,
    Equal,
    Always,
}

/// What happens to the stencil value of a pixel.
#[derive(Debug, Clone, Copy, PartialEq, Eq)]
pub enum StencilOperation {
    Keep,
    Invert,
}

/// Stencil test and operations for one face of a triangle.
#[derive(Debug, Clone, Copy, PartialEq, Eq)]
pub struct StencilFaceState {
    pub compare: CompareFunction,
    pub fail_op: StencilOperation,
    pub depth_fail_op: StencilOperation,
    pub pass_op: StencilOperation,
}

/// Depth and stencil behaviour of a render pipeline. Both faces of a triangle
/// are treated alike.
#[derive(Debug, Clone, Copy, PartialEq, Eq)]
pub struct DepthStencilState {
    pub depth_write_enabled: bool,
    pub depth_compare: CompareFunction,
    pub stencil: StencilFaceState,
    pub read_mask: u32,
    pub write_mask: u32,
}

/// Depth and stencil behaviour with the depth test that every pipeline of
/// this renderer uses: nearer fragments win.
pub fn depth_stencil(
    depth_write_enabled: bool,
    stencil: StencilFaceState,
    read_mask: u32,
    write_mask: u32,
) -> (state: DepthStencilState)
    ensures
        state == (DepthStencilState {
            depth_write_enabled,
            depth_compare: CompareFunction::Less,
            stencil,
            read_mask,
            write_mask,
        }),
{
    DepthStencilState {
        depth_write_enabled,
        depth_compare: CompareFunction::Less,
        stencil,
        read_mask,
        write_mask,
    }
}

/// What the stencil pipeline does with depth and stencil.
pub open spec fn stencil_state_spec() -> DepthStencilState {
    DepthStencilState {
        depth_write_enabled: false,
        depth_compare: CompareFunction::Less,
        stencil: StencilFaceState {
            compare: CompareFunction::Always,
            fail_op: StencilOperation::Keep,
            depth_fail_op: StencilOperation::Invert,
            pass_op: StencilOperation::Invert,
        },
        read_mask: 1,
        write_mask: 1,
    }
}

/// What the cover pipeline does with depth and stencil.
pub open spec fn cover_state_spec() -> DepthStencilState {
    DepthStencilState {
        depth_write_enabled: true,
        depth_compare: CompareFunction::Less,
        stencil: StencilFaceState {
            compare: CompareFunction::Equal,
            fail_op: StencilOperation::Keep,
            depth_fail_op: StencilOperation::Keep,
            pass_op: StencilOperation::Keep,
        },
        read_mask: 1,
        write_mask: 1,
    }
}

/// Depth and stencil behaviour of the stencil pipeline: the stencil test
/// always passes and every fragment inverts the stencil bit, whether or not
/// it passes the depth test; depth is not written.
pub fn stencil_state() -> (state: DepthStencilState)
    ensures
        state == stencil_state_spec(),
{
    depth_stencil(
        false,
        StencilFaceState {
            compare: CompareFunction::Always,
            fail_op: StencilOperation::Keep,
            depth_fail_op: StencilOperation::Invert,
            pass_op: StencilOperation::Invert,
        },
        STENCIL_MASK,
        STENCIL_MASK,
    )
}

/// Depth and stencil behaviour of the cover pipeline: a fragment passes
/// where the stencil bit equals the reference, the stencil value is kept, and
/// depth is tested and written.
pub fn cover_state() -> (state: DepthStencilState)
    ensures
        state == cover_state_spec(),
{
    depth_stencil(
        true,
        StencilFaceState {
            compare: CompareFunction::Equal,
            fail_op: StencilOperation::Keep,
            depth_fail_op: StencilOperation::Keep,
            pass_op: StencilOperation::Keep,
        },
        STENCIL_MASK,
        STENCIL_MASK,
    )
}

/// The stencil pass changes nothing but the stencil bit, and does so for
/// every fragment; the cover pass leaves the stencil as it finds it and looks
/// at the same bit.
pub proof fn lemma_pass_states()
    ensures
        !stencil_state_spec().depth_write_enabled,
        stencil_state_spec().stencil.compare == CompareFunction::Always,
        stencil_state_spec().stencil.pass_op == StencilOperation::Invert,
        stencil_state_spec().stencil.depth_fail_op == StencilOperation::Invert,
        cover_state_spec().depth_write_enabled,
        cover_state_spec().stencil.compare == CompareFunction::Equal,
        cover_state_spec().stencil.pass_op == StencilOperation::Keep,
        cover_state_spec().stencil.fail_op == StencilOperation::Keep,
        cover_state_spec().stencil.depth_fail_op == StencilOperation::Keep,
        cover_state_spec().read_mask == stencil_state_spec().write_mask,
{
}

/// Whether a fragment passes the stencil test: the reference and the stored
/// value are compared under the read mask. `Less` asks for a reference below
/// the stored value.
pub open spec fn stencil_passes(
    compare: CompareFunction,
    reference: u32,
    value: u32,
    read_mask: u32,
) -> bool {
    match compare {
        CompareFunction::Always => true,
        CompareFunction::Equal => (reference & read_mask) == (value & read_mask),
        CompareFunction::Less => (reference & read_mask) < (value & read_mask),
    }
}

/// The stored value after an operation: `Invert` flips the bits under the
/// write mask and leaves the others.
pub open spec fn stencil_applied(operation: StencilOperation, value: u32, write_mask: u32) -> u32 {
    match operation {
        StencilOperation::Keep => value,
        StencilOperation::Invert => (value & !write_mask) | (!value & write_mask),
    }
}

/// The stored value of a pixel after one fragment was drawn over it with
/// `state`; `depth_passes` says whether the fragment passed the depth test.
pub open spec fn stencil_after_fragment(
    state: DepthStencilState,
    reference: u32,
    value: u32,
    depth_passes: bool,
) -> u32 {
    let operation = if !stencil_passes(state.stencil.compare, reference, value, state.read_mask) {
        state.stencil.fail_op
    } else if !depth_passes {
        state.stencil.depth_fail_op
    } else {
        state.stencil.pass_op
    };
    stencil_applied(operation, value, state.write_mask)
}

/// The stored value of a pixel after a run of fragments was drawn over it,
/// one entry per fragment, starting from `value`.
pub open spec fn stencil_after(
    state: DepthStencilState,
    reference: u32,
    value: u32,
    fragments: Seq<bool>,
) -> u32
    decreases fragments.len(),
{
    if fragments.len() == 0 {
        value
    } else {
        stencil_after_fragment(
            state,
            reference,
            stencil_after(state, reference, value, fragments.drop_last()),
            fragments.last(),
        )
    }
}

/// After the stencil pass, which starts from a cleared stencil, the marked
/// bit of a pixel tells whether an odd number of triangles was drawn over it,
/// whatever the depth test made of them and whatever the reference was.
pub proof fn lemma_stencil_counts_parity(reference: u32, fragments: Seq<bool>)
    ensures
        stencil_after(stencil_state_spec(), reference, 0, fragments) & 1 == fragments.len() % 2,
    decreases fragments.len(),
{
    let state = stencil_state_spec();
    if fragments.len() == 0 {
        assert(0u32 & 1 == 0) by (bit_vector);
    } else {
        let before = stencil_after(state, reference, 0, fragments.drop_last());
        lemma_stencil_counts_parity(reference, fragments.drop_last());
        let after = stencil_after_fragment(state, reference, before, fragments.last());
        assert(after == (before & !1u32) | (!before & 1u32));
        assert(((before & !1u32) | (!before & 1u32)) & 1 == 1 - (before & 1)) by (bit_vector);
        assert(before & 1 == 0 || before & 1 == 1) by (bit_vector);
    }
}

/// The fill is even-odd: the cover pass colours a pixel exactly where an odd
/// number of triangles was drawn over it in the stencil pass, and it leaves
/// the stencil as it found it.
pub proof fn lemma_cover_is_even_odd(fragments: Seq<bool>, value: u32, depth_passes: bool)
    ensures
        stencil_passes(
            cover_state_spec().stencil.compare,
            STENCIL_REFERENCE,
            stencil_after(stencil_state_spec(), STENCIL_REFERENCE, 0, fragments),
            cover_state_spec().read_mask,
        ) <==> fragments.len() % 2 == 1,
        stencil_after_fragment(cover_state_spec(), STENCIL_REFERENCE, value, depth_passes)
            == value,
{
    lemma_stencil_counts_parity(STENCIL_REFERENCE, fragments);
    assert(1u32 & 1 == 1) by (bit_vector);
}

/// One piece of GPU work.
#[derive(Debug, Clone, Copy, PartialEq, Eq)]
pub enum Command {
    /// Create a point buffer filled with the outline, vertex and index
    /// buffers of the given sizes, and the compute bind group over the three.
    Reallocate { point_bytes: u64, vertex_bytes: u64, index_bytes: u64 },
    /// Write the outline into the point buffer that is there.
    WritePoints { point_bytes: u64 },
    /// Run the tessellation kernel over this many workgroups.
    Dispatch { workgroups: u32 },
    /// Create the uniform buffer, filled from transform and colour, and the
    /// render bind group.
    CreateUniforms,
    /// Write the uniform buffer; `model` says that the model matrix has to be
    /// computed anew, `color` that the colour was replaced.
    WriteUniforms { model: bool, color: bool },
    /// The stencil pass: clear the stencil, then draw this many indices with
    /// the stencil pipeline, without colour targets.
    Stencil { indices: u32 },
    /// The cover pass: draw this many indices with the cover pipeline and the
    /// given stencil reference. With `clear`, colour and depth are cleared
    /// first; without, they are kept, so that shapes drawn earlier in the
    /// frame stay and hide what lies behind them.
    Cover { indices: u32, reference: u32, clear: bool },
}

/// The work that brings the point, vertex and index buffers up to date.
pub open spec fn compute_commands(sync: ComputeSync) -> Seq<Command> {
    match sync {
        ComputeSync::Clean => seq![],
        ComputeSync::Rewrite { point_bytes, workgroups } => seq![
            Command::WritePoints { point_bytes },
            Command::Dispatch { workgroups },
        ],
        ComputeSync::Reallocate { point_bytes, vertex_bytes, index_bytes, workgroups } => seq![
            Command::Reallocate { point_bytes, vertex_bytes, index_bytes },
            Command::Dispatch { workgroups },
        ],
    }
}

/// The work that brings the uniform buffer up to date.
pub open spec fn uniform_commands(sync: RenderSync) -> Seq<Command> {
    match sync {
        RenderSync::Clean => seq![],
        RenderSync::Rewrite { model, color } => seq![Command::WriteUniforms { model, color }],
        RenderSync::Create => seq![Command::CreateUniforms],
    }
}

/// The two passes over `indices` indices.
pub open spec fn draw_commands(indices: u32, clear: bool) -> Seq<Command> {
    seq![
        Command::Stencil { indices },
        Command::Cover { indices, reference: STENCIL_REFERENCE, clear },
    ]
}

/// All work for one shape in one frame, in order: points and tessellation,
/// uniforms, stencil pass, cover pass.
pub open spec fn frame_commands(
    compute: ComputeSync,
    uniforms: RenderSync,
    indices: u32,
    clear: bool,
) -> Seq<Command> {
    compute_commands(compute) + uniform_commands(uniforms) + draw_commands(indices, clear)
}

/// Whether the shape at place `position` of the drawing order clears colour
/// and depth before it is drawn: the first one does.
pub fn clears_targets(position: usize) -> (clear: bool)
    ensures
        clear == (position == 0),
{
    position == 0
}

/// The work of a frame ends with the stencil pass followed at once by the
/// cover pass, both over the same indices. The kernel runs exactly when the
/// outline was uploaded, directly after the upload and before anything is
/// drawn. A shape with nothing changed costs the two passes and nothing else.
pub proof fn lemma_frame_order(compute: ComputeSync, uniforms: RenderSync, indices: u32, clear: bool)
    ensures
        ({
            let work = frame_commands(compute, uniforms, indices, clear);
            let n = work.len() as int;
            &&& n >= 2
            &&& work[n - 2] == Command::Stencil { indices }
            &&& work[n - 1] == Command::Cover { indices, reference: 1, clear }
            &&& forall|i: int| 0 <= i < n - 2 ==> !(work[i] is Stencil) && !(work[i] is Cover)
            &&& compute is Clean ==> forall|i: int| 0 <= i < n ==> !(work[i] is Dispatch)
            &&& !(compute is Clean) ==> work[1] is Dispatch && (work[0] is WritePoints
                || work[0] is Reallocate)
            &&& compute is Clean && uniforms is Clean ==> work == draw_commands(indices, clear)
        }),
{
    let work = frame_commands(compute, uniforms, indices, clear);
    assert(compute is Clean && uniforms is Clean ==> work =~= draw_commands(indices, clear));
}

/// The renderer of quadratic-curve paths: the tessellation pipeline and the
/// two render pipelines, as the GPU library built them.
pub struct QBezierRenderer<CP, RP> {
    compute_pipeline: Pipeline<CP>,
    stencil_pipeline: Pipeline<RP>,
    pub render_pipeline: Pipeline<RP>,
}

impl<CP, RP> QBezierRenderer<CP, RP> {
    /// The three pipelines, in the order given to [`QBezierRenderer::new`].
    pub closed spec fn pipelines(&self) -> (Pipeline<CP>, Pipeline<RP>, Pipeline<RP>) {
        (self.compute_pipeline, self.stencil_pipeline, self.render_pipeline)
    }

    /// A renderer over the three pipelines.
    pub fn new(
        compute_pipeline: Pipeline<CP>,
        stencil_pipeline: Pipeline<RP>,
        render_pipeline: Pipeline<RP>,
    ) -> (renderer: Self)
        ensures
            renderer.pipelines() == (compute_pipeline, stencil_pipeline, render_pipeline),
    {
        QBezierRenderer { compute_pipeline, stencil_pipeline, render_pipeline }
    }

    /// The pipeline of the tessellation kernel.
    pub fn compute_pipeline(&self) -> (pipeline: &Pipeline<CP>)
        ensures
            *pipeline == self.pipelines().0,
    {
        &self.compute_pipeline
    }

    /// The pipeline of the stencil pass.
    pub fn stencil_pipeline(&self) -> (pipeline: &Pipeline<RP>)
        ensures
            *pipeline == self.pipelines().1,
    {
        &self.stencil_pipeline
    }

    /// The pipeline of the cover pass.
    pub fn cover_pipeline(&self) -> (pipeline: &Pipeline<RP>)
        ensures
            *pipeline == self.pipelines().2,
    {
        &self.render_pipeline
    }

    /// Index of the bind group layout, within the tessellation pipeline, that
    /// a shape's compute bind group is built against.
    pub fn compute_layout(&self) -> (index: u32)
        ensures
            index == 0,
    {
        0
    }

    /// Index of the bind group layout, within the cover pipeline, that a
    /// shape's render bind group is built against.
    pub fn render_layout(&self) -> (index: u32)
        ensures
            index == OBJECT_GROUP,
    {
        OBJECT_GROUP
    }

    /// Brings the buffers of `shape` up to date and lists the GPU work of
    /// this frame for it.
    ///
    /// The compute synchronisation comes first; if it fails, the error is
    /// returned and the render synchronisation does not take place.
    /// Otherwise the render synchronisation follows, and the list holds the
    /// work that the two call for, then the stencil pass and the cover pass,
    /// both over all the indices that the index buffer holds. The buffers
    /// that the passes read are then large enough for the outline.
    pub fn render<K, T, C, P>(&self, shape: &mut Shape<K, T, C, P>, clear: bool) -> (r: Result<
        Vec<Command>,
        SyncError,
    >) where K: HasPoints<P>
        requires
            old(shape)@.attached(),
        ensures
            final(shape)@.wf(),
            r is Ok ==> final(shape)@.holds_outline(),
            exists|generated: Seq<P>|
                (old(shape)@.kind_dirty ==> generates(old(shape)@.kind, generated)) && ({
                    let (computed, compute) = #[trigger] old(shape)@.sync_compute(generated);
                    match compute {
                        Err(e) => r == Err::<Vec<Command>, SyncError>(e) && final(shape)@
                            == computed,
                        Ok(sync) => {
                            let (rendered, uniforms) = computed.sync_render();
                            &&& final(shape)@ == rendered
                            &&& r is Ok
                            &&& r.unwrap()@ == frame_commands(
                                sync,
                                uniforms,
                                index_entries(rendered.capacity.unwrap()) as u32,
                                clear,
                            )
                        },
                    }
                }),
    {
        let compute = shape.update_compute_buffers();
        let ghost generated: Seq<P> = choose|generated: Seq<P>|
            (old(shape)@.kind_dirty ==> generates(old(shape)@.kind, generated)) && (
                shape@,
                compute,
            ) == #[trigger] old(shape)@.sync_compute(generated);
        let sync = match compute {
            Ok(sync) => sync,
            Err(e) => {
                return Err(e);
            },
        };
        let uniforms = shape.update_render_buffers();
        let object = shape.get_render_object();
        let mut commands: Vec<Command> = Vec::new();
        match sync {
            ComputeSync::Clean => {},
            ComputeSync::Rewrite { point_bytes, workgroups } => {
                commands.push(Command::WritePoints { point_bytes });
                commands.push(Command::Dispatch { workgroups });
            },
            ComputeSync::Reallocate { point_bytes, vertex_bytes, index_bytes, workgroups } => {
                commands.push(Command::Reallocate { point_bytes, vertex_bytes, index_bytes });
                commands.push(Command::Dispatch { workgroups });
            },
        }
        assert(commands@ =~= compute_commands(sync));
        match uniforms {
            RenderSync::Clean => {},
            RenderSync::Rewrite { model, color } => {
                commands.push(Command::WriteUniforms { model, color });
            },
            RenderSync::Create => {
                commands.push(Command::CreateUniforms);
            },
        }
        assert(commands@ =~= compute_commands(sync) + uniform_commands(uniforms));
        commands.push(Command::Stencil { indices: object.index_count });
        commands.push(
            Command::Cover {
                indices: object.index_count,
                reference: STENCIL_REFERENCE,
                clear,
            },
        );
        assert(commands@ =~= frame_commands(sync, uniforms, object.index_count, clear));
        Ok(commands)
    }
}

/// Why a frame could not be shown.
#[derive(Debug, Clone, Copy, PartialEq, Eq)]
pub enum SurfaceError {
    /// The surface did not hand out a frame in time.
    Timeout,
    /// The surface changed and has to be configured again.
    Outdated,
    /// The surface was lost and has to be configured again.
    Lost,
    /// No memory is left.
    OutOfMemory,
}

/// What to do about a frame that could not be shown.
#[derive(Debug, Clone, Copy, PartialEq, Eq)]
pub enum Recovery {
    /// Give the frame up and configure the surface again.
    Reconfigure,
    /// Give the frame up; the next one goes ahead as usual.
    SkipFrame,
    /// Give up altogether.
    Abort,
}

/// What to do about a frame that could not be shown: a lost or outdated
/// surface is configured again, a timeout costs one frame, and running out of
/// memory ends the program.
pub fn recover(error: SurfaceError) -> (recovery: Recovery)
    ensures
        recovery == match error {
            SurfaceError::Timeout => Recovery::SkipFrame,
            SurfaceError::Outdated => Recovery::Reconfigure,
            SurfaceError::Lost => Recovery::Reconfigure,
            SurfaceError::OutOfMemory => Recovery::Abort,
        },
{
    match error {
        SurfaceError::Timeout => Recovery::SkipFrame,
        SurfaceError::Outdated | SurfaceError::Lost => Recovery::Reconfigure,
        SurfaceError::OutOfMemory => Recovery::Abort,
    }
}

/// The size to configure a surface with for a window of the given size: no
/// side is ever zero.
pub fn surface_extent(width: u32, height: u32) -> (extent: (u32, u32))
    ensures
        extent.0 == if width == 0 {
            1
        } else {
            width
        },
        extent.1 == if height == 0 {
            1
        } else {
            height
        },
{
    (
        if width == 0 {
            1
        } else {
            width
        },
        if height == 0 {
            1
        } else {
            height
        },
    )
}

} // verus!
