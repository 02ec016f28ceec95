//! Bind group layouts, described entry by entry.
//!
//! The builder numbers the entries in the order in which they are added, so
//! the binding of an entry is its place in the list. The caller hands the
//! finished list to the GPU library.

use vstd::prelude::*;

verus! {

/// Shader stage bit: the vertex stage sees the binding.
pub const STAGE_VERTEX: u32 = 1;

/// Shader stage bit: the fragment stage sees the binding.
pub const STAGE_FRAGMENT: u32 = 2;

/// Shader stage bit: the compute stage sees the binding.
pub const STAGE_COMPUTE: u32 = 4;

/// How a shader uses a buffer.
#[derive(Debug, Clone, Copy, PartialEq, Eq)]
pub enum BufferBindingType {
    Uniform,
    Storage { read_only: bool },
}

/// How a shader uses a sampler.
#[derive(Debug, Clone, Copy, PartialEq, Eq)]
pub enum SamplerBindingType {
    Filtering,
    NonFiltering,
    Comparison,
}

/// What a shader reads from a texture.
#[derive(Debug, Clone, Copy, PartialEq, Eq)]
pub enum TextureSampleType {
    Float { filterable: bool },
    Depth,
    Sint,
    Uint,
}

/// The shape of a texture view.
#[derive(Debug, Clone, Copy, PartialEq, Eq)]
pub enum TextureViewDimension {
    D1,
    D2,
    D2Array,
    Cube,
    CubeArray,
    D3,
}

/// What is bound at an entry.
#[derive(Debug, Clone, Copy, PartialEq, Eq)]
pub enum BindingType {
    Buffer { ty: BufferBindingType, has_dynamic_offset: bool, min_binding_size: Option<u64> },
    Sampler(SamplerBindingType),
    Texture {
        sample_type: TextureSampleType,
        view_dimension: TextureViewDimension,
        multisampled: bool,
    },
}

/// One entry of a bind group layout.
#[derive(Debug, Clone, Copy, PartialEq, Eq)]
pub struct LayoutEntry {
    pub binding: u32,
    /// The shader stages that see the binding, as a set of stage bits.
    pub visibility: u32,
    pub ty: BindingType,
}

/// `entries` with one more entry of type `ty`, bound at the next number.
pub open spec fn with_entry(entries: Seq<LayoutEntry>, visibility: u32, ty: BindingType) -> Seq<
    LayoutEntry,
> {
    entries.push(LayoutEntry { binding: entries.len() as u32, visibility, ty })
}

/// Every entry is bound at its place in the list.
pub open spec fn numbered(entries: Seq<LayoutEntry>) -> bool {
    forall|i: int| 0 <= i < entries.len() ==> (#[trigger] entries[i]).binding == i
}

/// Adding an entry keeps the entries numbered by their places.
pub proof fn lemma_with_entry_numbered(entries: Seq<LayoutEntry>, visibility: u32, ty: BindingType)
    requires
        numbered(entries),
        entries.len() <= u32::MAX,
    ensures
        numbered(with_entry(entries, visibility, ty)),
        with_entry(entries, visibility, ty).len() == entries.len() + 1,
{
}

/// Collects the entries of a bind group layout.
pub struct BindGroupBuilder {
    label: String,
    entries: Vec<LayoutEntry>,
}

impl BindGroupBuilder {
    /// The label of the layout.
    pub closed spec fn label(&self) -> Seq<char> {
        self.label@
    }

    /// The entries added so far.
    pub closed spec fn entries(&self) -> Seq<LayoutEntry> {
        self.entries@
    }

    /// A builder without entries.
    pub fn new(label: String) -> (builder: Self)
        ensures
            builder.label() == label@,
            builder.entries() == Seq::<LayoutEntry>::empty(),
    {
        BindGroupBuilder { label, entries: Vec::new() }
    }

    fn add(self, visibility: u32, ty: BindingType) -> (builder: Self)
        requires
            self.entries().len() <= u32::MAX,
        ensures
            builder.label() == self.label(),
            builder.entries() == with_entry(self.entries(), visibility, ty),
    {
        let mut builder = self;
        let binding = builder.entries.len() as u32;
        builder.entries.push(LayoutEntry { binding, visibility, ty });
        builder
    }

    /// Adds a storage buffer.
    pub fn add_storage_buffer(
        self,
        visibility: u32,
        read_only: bool,
        min_binding_size: Option<u64>,
    ) -> (builder: Self)
        requires
            self.entries().len() <= u32::MAX,
            min_binding_size != Some(0u64),
        ensures
            builder.label() == self.label(),
            builder.entries() == with_entry(
                self.entries(),
                visibility,
                BindingType::Buffer {
                    ty: BufferBindingType::Storage { read_only },
                    has_dynamic_offset: false,
                    min_binding_size,
                },
            ),
    {
        self.add(
            visibility,
            BindingType::Buffer {
                ty: BufferBindingType::Storage { read_only },
                has_dynamic_offset: false,
                min_binding_size,
            },
        )
    }

    /// Adds a uniform buffer.
    pub fn add_uniform_buffer(self, visibility: u32, min_binding_size: Option<u64>) -> (builder:
        Self)
        requires
            self.entries().len() <= u32::MAX,
            min_binding_size != Some(0u64),
        ensures
            builder.label() == self.label(),
            builder.entries() == with_entry(
                self.entries(),
                visibility,
                BindingType::Buffer {
                    ty: BufferBindingType::Uniform,
                    has_dynamic_offset: false,
                    min_binding_size,
                },
            ),
    {
        self.add(
            visibility,
            BindingType::Buffer {
                ty: BufferBindingType::Uniform,
                has_dynamic_offset: false,
                min_binding_size,
            },
        )
    }

    /// Adds a sampler.
    pub fn add_sampler(self, visibility: u32, sampler_binding_type: SamplerBindingType) -> (builder:
        Self)
        requires
            self.entries().len() <= u32::MAX,
        ensures
            builder.label() == self.label(),
            builder.entries() == with_entry(
                self.entries(),
                visibility,
                BindingType::Sampler(sampler_binding_type),
            ),
    {
        self.add(visibility, BindingType::Sampler(sampler_binding_type))
    }

    /// Adds a texture.
    pub fn add_texture(
        self,
        visibility: u32,
        sample_type: TextureSampleType,
        view_dimension: TextureViewDimension,
        multisampled: bool,
    ) -> (builder: Self)
        requires
            self.entries().len() <= u32::MAX,
        ensures
            builder.label() == self.label(),
            builder.entries() == with_entry(
                self.entries(),
                visibility,
                BindingType::Texture { sample_type, view_dimension, multisampled },
            ),
    {
        self.add(visibility, BindingType::Texture { sample_type, view_dimension, multisampled })
    }

    /// Adds a filtering sampler.
    pub fn add_sampler_filterable(self, visibility: u32) -> (builder: Self)
        requires
            self.entries().len() <= u32::MAX,
        ensures
            builder.label() == self.label(),
            builder.entries() == with_entry(
                self.entries(),
                visibility,
                BindingType::Sampler(SamplerBindingType::Filtering),
            ),
    {
        self.add_sampler(visibility, SamplerBindingType::Filtering)
    }

    /// Adds a two-dimensional texture of filterable floats.
    pub fn add_texture_float_filterable_d2(self, visibility: u32, multisampled: bool) -> (builder:
        Self)
        requires
            self.entries().len() <= u32::MAX,
        ensures
            builder.label() == self.label(),
            builder.entries() == with_entry(
                self.entries(),
                visibility,
                BindingType::Texture {
                    sample_type: TextureSampleType::Float { filterable: true },
                    view_dimension: TextureViewDimension::D2,
                    multisampled,
                },
            ),
    {
        self.add_texture(
            visibility,
            TextureSampleType::Float { filterable: true },
            TextureViewDimension::D2,
            multisampled,
        )
    }

    /// Hands out the label and the finished list of entries.
    pub fn build(self) -> (layout: (String, Vec<LayoutEntry>))
        ensures
            layout.0@ == self.label(),
            layout.1@ == self.entries(),
    {
        (self.label, self.entries)
    }
}

/// The binding at which the resource at place `position` of a list of
/// resources is attached.
pub fn attach_binding(position: usize) -> (binding: u32)
    requires
        position <= u32::MAX,
    ensures
        binding == position,
{
    position as u32
}

} // verus!
