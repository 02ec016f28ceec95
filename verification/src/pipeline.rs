//! Pipelines and the passes recorded with them.
//!
//! A pipeline is whatever the GPU library hands out (`T`), together with the
//! number of bind groups and vertex buffers it was laid out for. A pass
//! collects what is bound for one use of the pipeline; the position at which
//! something was added is the slot it is bound to.

use vstd::prelude::*;

verus! {

/// Marks a render pipeline under construction that has no vertex layout yet.
pub struct RenderNoVertex;

/// Marks a render pipeline under construction.
pub struct Render;

/// Marks a compute pipeline under construction.
pub struct Compute;

/// A built pipeline and the number of slots of its layout.
pub struct Pipeline<T> {
    pub pipeline: T,
    num_bind_groups: usize,
    num_vertex_buffers: usize,
}

impl<T> Pipeline<T> {
    /// The GPU library's pipeline.
    pub closed spec fn handle(&self) -> T {
        self.pipeline
    }

    /// Number of bind groups of the layout.
    pub closed spec fn bind_group_slots(&self) -> nat {
        self.num_bind_groups as nat
    }

    /// Number of vertex buffers of the layout.
    pub closed spec fn vertex_buffer_slots(&self) -> nat {
        self.num_vertex_buffers as nat
    }

    /// Wraps a built pipeline with the slot counts of its layout.
    pub fn new(pipeline: T, num_bind_groups: usize, num_vertex_buffers: usize) -> (p: Self)
        ensures
            p.handle() == pipeline,
            p.bind_group_slots() == num_bind_groups,
            p.vertex_buffer_slots() == num_vertex_buffers,
    {
        Pipeline { pipeline, num_bind_groups, num_vertex_buffers }
    }

    /// Number of bind groups of the layout.
    pub fn num_bind_groups(&self) -> (n: usize)
        ensures
            n == self.bind_group_slots(),
    {
        self.num_bind_groups
    }

    /// Number of vertex buffers of the layout.
    pub fn num_vertex_buffers(&self) -> (n: usize)
        ensures
            n == self.vertex_buffer_slots(),
    {
        self.num_vertex_buffers
    }

    /// Starts a pass with this pipeline: nothing bound yet.
    pub fn begin_pass<'a, G, B>(&'a self, label: String) -> (pass: PipelinePass<'a, T, G, B>)
        ensures
            pass@ == PassView::<T, G, B>::empty(
                label@,
                self.handle(),
                self.bind_group_slots(),
                self.vertex_buffer_slots(),
            ),
    {
        let pass = PipelinePass {
            label,
            pipeline: &self.pipeline,
            num_bind_groups: self.num_bind_groups,
            num_vertex_buffers: self.num_vertex_buffers,
            bind_groups: Vec::new(),
            vertex_buffers: Vec::new(),
            index_buffer: None,
            stencil_reference: None,
        };
        assert(pass@.bind_groups =~= Seq::empty());
        assert(pass@.vertex_buffers =~= Seq::empty());
        pass
    }
}

/// The abstract state of a [`PipelinePass`].
pub struct PassView<T, G, B> {
    pub label: Seq<char>,
    pub pipeline: T,
    pub bind_group_slots: nat,
    pub vertex_buffer_slots: nat,
    /// Bind groups by slot.
    pub bind_groups: Seq<G>,
    /// Vertex buffers by slot.
    pub vertex_buffers: Seq<B>,
    pub index_buffer: Option<B>,
    pub stencil_reference: Option<u32>,
}

impl<T, G, B> PassView<T, G, B> {
    /// A pass with nothing bound.
    pub open spec fn empty(
        label: Seq<char>,
        pipeline: T,
        bind_group_slots: nat,
        vertex_buffer_slots: nat,
    ) -> Self {
        PassView {
            label,
            pipeline,
            bind_group_slots,
            vertex_buffer_slots,
            bind_groups: Seq::empty(),
            vertex_buffers: Seq::empty(),
            index_buffer: None,
            stencil_reference: None,
        }
    }

    /// Every slot of the layout is filled, and no more.
    pub open spec fn complete(self) -> bool {
        self.bind_groups.len() == self.bind_group_slots && self.vertex_buffers.len()
            == self.vertex_buffer_slots
    }
}

/// What is bound for one use of a pipeline of type `T`: bind groups `G` and
/// buffers `B`.
pub struct PipelinePass<'a, T, G, B> {
    label: String,
    pipeline: &'a T,
    num_bind_groups: usize,
    num_vertex_buffers: usize,
    bind_groups: Vec<&'a G>,
    vertex_buffers: Vec<&'a B>,
    index_buffer: Option<&'a B>,
    stencil_reference: Option<u32>,
}

impl<'a, T, G, B> View for PipelinePass<'a, T, G, B> {
    type V = PassView<T, G, B>;

    closed spec fn view(&self) -> PassView<T, G, B> {
        PassView {
            label: self.label@,
            pipeline: *self.pipeline,
            bind_group_slots: self.num_bind_groups as nat,
            vertex_buffer_slots: self.num_vertex_buffers as nat,
            bind_groups: Seq::new(self.bind_groups.len() as nat, |i: int| *self.bind_groups[i]),
            vertex_buffers: Seq::new(
                self.vertex_buffers.len() as nat,
                |i: int| *self.vertex_buffers[i],
            ),
            index_buffer: match self.index_buffer {
                Some(buffer) => Some(*buffer),
                None => None,
            },
            stencil_reference: self.stencil_reference,
        }
    }
}

impl<'a, T, G, B> PipelinePass<'a, T, G, B> {
    /// Binds `bind_group` to the next free bind group slot.
    pub fn add_bind_group(self, bind_group: &'a G) -> (pass: Self)
        ensures
            pass@ == (PassView { bind_groups: self@.bind_groups.push(*bind_group), ..self@ }),
    {
        let mut pass = self;
        pass.bind_groups.push(bind_group);
        assert(pass@.bind_groups =~= self@.bind_groups.push(*bind_group));
        assert(pass@.vertex_buffers =~= self@.vertex_buffers);
        pass
    }

    /// Binds `vertex_buffer` to the next free vertex buffer slot.
    pub fn add_vertex_buffer(self, vertex_buffer: &'a B) -> (pass: Self)
        ensures
            pass@ == (PassView {
                vertex_buffers: self@.vertex_buffers.push(*vertex_buffer),
                ..self@
            }),
    {
        let mut pass = self;
        pass.vertex_buffers.push(vertex_buffer);
        assert(pass@.vertex_buffers =~= self@.vertex_buffers.push(*vertex_buffer));
        assert(pass@.bind_groups =~= self@.bind_groups);
        pass
    }

    /// Sets the index buffer, in place of any set before.
    pub fn add_index_buffer(self, index_buffer: &'a B) -> (pass: Self)
        ensures
            pass@ == (PassView { index_buffer: Some(*index_buffer), ..self@ }),
    {
        let mut pass = self;
        pass.index_buffer = Some(index_buffer);
        assert(pass@.vertex_buffers =~= self@.vertex_buffers);
        assert(pass@.bind_groups =~= self@.bind_groups);
        pass
    }

    /// Sets the value that the stencil test compares with.
    pub fn set_stencil_reference(self, reference: u32) -> (pass: Self)
        ensures
            pass@ == (PassView { stencil_reference: Some(reference), ..self@ }),
    {
        let mut pass = self;
        pass.stencil_reference = Some(reference);
        assert(pass@.vertex_buffers =~= self@.vertex_buffers);
        assert(pass@.bind_groups =~= self@.bind_groups);
        pass
    }

    /// Whether every slot of the layout is filled, and no more.
    pub fn is_complete(&self) -> (complete: bool)
        ensures
            complete == self@.complete(),
    {
        self.bind_groups.len() == self.num_bind_groups && self.vertex_buffers.len()
            == self.num_vertex_buffers
    }

    /// The label of the pass.
    pub fn label(&self) -> (label: &String)
        ensures
            label@ == self@.label,
    {
        &self.label
    }

    /// The pipeline of the pass.
    pub fn pipeline(&self) -> (pipeline: &'a T)
        ensures
            *pipeline == self@.pipeline,
    {
        self.pipeline
    }

    /// Number of bind groups bound.
    pub fn bind_group_count(&self) -> (n: usize)
        ensures
            n == self@.bind_groups.len(),
    {
        self.bind_groups.len()
    }

    /// The bind group at `slot`.
    pub fn bind_group(&self, slot: usize) -> (bind_group: &'a G)
        requires
            slot < self@.bind_groups.len(),
        ensures
            *bind_group == self@.bind_groups[slot as int],
    {
        self.bind_groups[slot]
    }

    /// Number of vertex buffers bound.
    pub fn vertex_buffer_count(&self) -> (n: usize)
        ensures
            n == self@.vertex_buffers.len(),
    {
        self.vertex_buffers.len()
    }

    /// The vertex buffer at `slot`.
    pub fn vertex_buffer(&self, slot: usize) -> (vertex_buffer: &'a B)
        requires
            slot < self@.vertex_buffers.len(),
        ensures
            *vertex_buffer == self@.vertex_buffers[slot as int],
    {
        self.vertex_buffers[slot]
    }

    /// The index buffer, if one was set.
    pub fn index_buffer(&self) -> (index_buffer: Option<&'a B>)
        ensures
            match index_buffer {
                Some(buffer) => self@.index_buffer == Some(*buffer),
                None => self@.index_buffer is None,
            },
    {
        self.index_buffer
    }

    /// The stencil reference, if one was set.
    pub fn stencil_reference(&self) -> (reference: Option<u32>)
        ensures
            reference == self@.stencil_reference,
    {
        self.stencil_reference
    }
}

} // verus!
