//! Vertex-input layout description.
//!
//! A shader's vertex stage reads per-vertex and per-instance attributes.
//! `InputLayout` collects the attribute kinds for both streams and bakes
//! them into the buffer-layout descriptors the pipeline is compiled with:
//! offsets accumulate within each stream, shader locations are numbered
//! consecutively across the vertex stream and then the instance stream.

use vstd::prelude::*;

verus! {

/// Attribute kinds a vertex stream may hold, all backed by 32-bit floats
/// on the device.
#[derive(Clone, Copy, Debug, PartialEq, Eq, Structural)]
pub enum InputType {
    F32,
    Vec2,
    Vec3,
    Vec4,
}

impl InputType {
    /// Size of the attribute in bytes.
    pub open spec fn size_spec(&self) -> u64 {
        match self {
            InputType::F32 => 4,
            InputType::Vec2 => 8,
            InputType::Vec3 => 12,
            InputType::Vec4 => 16,
        }
    }

    /// Size of the attribute in bytes.
    pub fn get_size(&self) -> (n: u64)
        ensures
            n == self.size_spec(),
            4 <= n <= 16,
    {
        match self {
            InputType::F32 => 4,
            InputType::Vec2 => 8,
            InputType::Vec3 => 12,
            InputType::Vec4 => 16,
        }
    }

    /// The device-level format tag of the attribute.
    pub open spec fn format_spec(&self) -> VertexFormat {
        match self {
            InputType::F32 => VertexFormat::Float32,
            InputType::Vec2 => VertexFormat::Float32x2,
            InputType::Vec3 => VertexFormat::Float32x3,
            InputType::Vec4 => VertexFormat::Float32x4,
        }
    }

    /// The device-level format tag of the attribute.
    pub fn get_format(&self) -> (f: VertexFormat)
        ensures
            f == self.format_spec(),
    {
        match self {
            InputType::F32 => VertexFormat::Float32,
            InputType::Vec2 => VertexFormat::Float32x2,
            InputType::Vec3 => VertexFormat::Float32x3,
            InputType::Vec4 => VertexFormat::Float32x4,
        }
    }
}

/// Device-level vertex attribute formats.
#[derive(Clone, Copy, Debug, PartialEq, Eq, Structural)]
pub enum VertexFormat {
    Float32,
    Float32x2,
    Float32x3,
    Float32x4,
}

/// Whether a buffer advances per vertex or per instance.
#[derive(Clone, Copy, Debug, PartialEq, Eq, Structural)]
pub enum VertexStepMode {
    Vertex,
    Instance,
}

/// One attribute within a baked buffer layout.
#[derive(Clone, Copy, Debug, PartialEq, Eq, Structural)]
pub struct VertexAttribute {
    pub offset: u64,
    pub shader_location: u32,
    pub format: VertexFormat,
}

/// A baked description of one vertex buffer: its stride, step mode and
/// attribute list.
#[derive(Clone, Debug, PartialEq)]
pub struct VertexBufferLayout {
    pub array_stride: u64,
    pub step_mode: VertexStepMode,
    pub attributes: Vec<VertexAttribute>,
}

/// The views of a sequence of baked layouts.
pub open spec fn layouts_view(v: Seq<VertexBufferLayout>) -> Seq<VertexBufferLayoutView> {
    v.map_values(|x: VertexBufferLayout| x@)
}

/// Spec-level mirror of [`VertexBufferLayout`].
#[verifier::ext_equal]
pub ghost struct VertexBufferLayoutView {
    pub array_stride: u64,
    pub step_mode: VertexStepMode,
    pub attributes: Seq<VertexAttribute>,
}

impl View for VertexBufferLayout {
    type V = VertexBufferLayoutView;

    open spec fn view(&self) -> VertexBufferLayoutView {
        VertexBufferLayoutView {
            array_stride: self.array_stride,
            step_mode: self.step_mode,
            attributes: self.attributes@,
        }
    }
}

/// Capability of a vertex payload type to describe its own attribute
/// layout.
pub trait GpuDataLayout {
    /// The attribute group matching the type's memory layout.
    fn get_layout() -> InputLayoutGroup;
}

/// Limit on the number of attributes one group may hold.  Real devices cap
/// vertex attributes at a few dozen; this generous bound keeps offset and
/// location arithmetic trivially in range.
pub const MAX_GROUP_INPUTS: usize = 0x10000;

/// An ordered list of attribute kinds for one input stream.
#[derive(Clone, Debug)]
pub struct InputLayoutGroup {
    inputs: Vec<InputType>,
}

/// The summed byte size of a sequence of inputs.
pub open spec fn inputs_size(inputs: Seq<InputType>) -> int
    decreases inputs.len(),
{
    if inputs.len() == 0 {
        0
    } else {
        inputs_size(inputs.drop_last()) + inputs.last().size_spec()
    }
}

/// The attribute list a group bakes to, starting at shader location
/// `start_loc`: offsets accumulate, locations count up.
pub open spec fn baked_attributes(inputs: Seq<InputType>, start_loc: int) -> Seq<VertexAttribute> {
    Seq::new(
        inputs.len(),
        |i: int|
            VertexAttribute {
                offset: inputs_size(inputs.take(i)) as u64,
                shader_location: (start_loc + i) as u32,
                format: inputs[i].format_spec(),
            },
    )
}

proof fn lemma_inputs_size_bounds(inputs: Seq<InputType>)
    ensures
        4 * inputs.len() <= inputs_size(inputs) <= 16 * inputs.len(),
    decreases inputs.len(),
{
    if inputs.len() > 0 {
        lemma_inputs_size_bounds(inputs.drop_last());
    }
}

impl InputLayoutGroup {
    /// The attribute kinds held, in order.
    pub closed spec fn inputs_spec(&self) -> Seq<InputType> {
        self.inputs@
    }

    /// Groups stay small enough that offsets and locations cannot overflow.
    pub closed spec fn wf(&self) -> bool {
        self.inputs@.len() <= MAX_GROUP_INPUTS
    }

    /// An empty group for per-vertex data.
    pub fn new_vertex() -> (g: InputLayoutGroup)
        ensures
            g.inputs_spec() == Seq::<InputType>::empty(),
            g.wf(),
    {
        let g = InputLayoutGroup { inputs: Vec::new() };
        proof {
            assert(g.inputs@ =~= Seq::<InputType>::empty());
        }
        g
    }

    /// An empty group for per-instance data.
    pub fn new_instance() -> (g: InputLayoutGroup)
        ensures
            g.inputs_spec() == Seq::<InputType>::empty(),
            g.wf(),
    {
        let g = InputLayoutGroup { inputs: Vec::new() };
        proof {
            assert(g.inputs@ =~= Seq::<InputType>::empty());
        }
        g
    }

    /// The standard per-vertex group: position, color, uv, normal.
    pub fn new_vertex_standard() -> (g: InputLayoutGroup)
        ensures
            g.inputs_spec() == seq![
                InputType::Vec3,
                InputType::Vec4,
                InputType::Vec2,
                InputType::Vec3,
            ],
            g.wf(),
    {
        let mut inputs: Vec<InputType> = Vec::new();
        inputs.push(InputType::Vec3);
        inputs.push(InputType::Vec4);
        inputs.push(InputType::Vec2);
        inputs.push(InputType::Vec3);
        proof {
            assert(inputs@ =~= seq![
                InputType::Vec3,
                InputType::Vec4,
                InputType::Vec2,
                InputType::Vec3,
            ]);
        }
        InputLayoutGroup { inputs }
    }

    /// Appends one attribute kind.  Returns the group again so that calls
    /// can be chained.
    pub fn add_input(&mut self, input: InputType) -> (r: &mut InputLayoutGroup)
        requires
            old(self).wf(),
            old(self).inputs_spec().len() < MAX_GROUP_INPUTS,
        ensures
            r.inputs_spec() == old(self).inputs_spec().push(input),
            r.wf(),
            *final(self) == *final(r),
    {
        self.inputs.push(input);
        self
    }

    /// How many attribute kinds the group holds.
    pub fn len(&self) -> (n: usize)
        ensures
            n == self.inputs_spec().len(),
    {
        self.inputs.len()
    }

    /// Bakes the group into a buffer layout whose attributes start at
    /// shader location `start_loc`.
    fn bake_layout(&self, step_mode: VertexStepMode, start_loc: u32) -> (r: VertexBufferLayout)
        requires
            self.wf(),
            start_loc + self.inputs_spec().len() <= u32::MAX,
        ensures
            r@ =~= (VertexBufferLayoutView {
                array_stride: inputs_size(self.inputs_spec()) as u64,
                step_mode,
                attributes: baked_attributes(self.inputs_spec(), start_loc as int),
            }),
    {
        let ghost all = self.inputs@;
        let mut attributes: Vec<VertexAttribute> = Vec::new();
        let mut offset: u64 = 0;
        let mut idx: usize = 0;
        proof {
            lemma_inputs_size_bounds(all);
        }
        while idx < self.inputs.len()
            invariant
                self.wf(),
                all == self.inputs@,
                idx <= all.len(),
                start_loc + all.len() <= u32::MAX,
                offset == inputs_size(all.take(idx as int)),
                attributes@ =~= baked_attributes(all, start_loc as int).take(idx as int),
            decreases all.len() - idx,
        {
            let input = self.inputs[idx];
            proof {
                lemma_inputs_size_bounds(all.take(idx as int + 1));
                assert(all.take(idx as int + 1).drop_last() =~= all.take(idx as int));
                assert(all.take(idx as int + 1).last() == all[idx as int]);
            }
            attributes.push(
                VertexAttribute {
                    offset,
                    shader_location: start_loc + (idx as u32),
                    format: input.get_format(),
                },
            );
            offset = offset + input.get_size();
            idx = idx + 1;
            proof {
                assert(attributes@ =~= baked_attributes(all, start_loc as int).take(idx as int));
            }
        }
        proof {
            assert(all.take(all.len() as int) =~= all);
            assert(baked_attributes(all, start_loc as int).take(all.len() as int)
                =~= baked_attributes(all, start_loc as int));
        }
        VertexBufferLayout { array_stride: offset, step_mode, attributes }
    }
}

/// The vertex-input description of a pipeline: an optional per-vertex
/// group and an optional per-instance group.
#[derive(Clone, Debug)]
pub struct InputLayout {
    pub vertex: Option<InputLayoutGroup>,
    pub instance: Option<InputLayoutGroup>,
}

impl InputLayout {
    /// Both groups, where present, are well formed.
    pub open spec fn wf(&self) -> bool {
        &&& (self.vertex matches Some(g) ==> g.wf())
        &&& (self.instance matches Some(g) ==> g.wf())
    }

    /// The attribute kinds of the vertex group, or empty.
    pub open spec fn vertex_inputs(&self) -> Seq<InputType> {
        match self.vertex {
            Some(g) => g.inputs_spec(),
            None => Seq::empty(),
        }
    }

    /// The attribute kinds of the instance group, or empty.
    pub open spec fn instance_inputs(&self) -> Seq<InputType> {
        match self.instance {
            Some(g) => g.inputs_spec(),
            None => Seq::empty(),
        }
    }

    /// The baked buffer layouts: first the vertex group, then the instance
    /// group, with shader locations numbered across both.
    pub open spec fn baked_spec(&self) -> Seq<VertexBufferLayoutView> {
        let vertex_part: Seq<VertexBufferLayoutView> = match self.vertex {
            Some(g) => seq![
                VertexBufferLayoutView {
                    array_stride: inputs_size(g.inputs_spec()) as u64,
                    step_mode: VertexStepMode::Vertex,
                    attributes: baked_attributes(g.inputs_spec(), 0),
                },
            ],
            None => Seq::empty(),
        };
        let start = self.vertex_inputs().len() as int;
        let instance_part: Seq<VertexBufferLayoutView> = match self.instance {
            Some(g) => seq![
                VertexBufferLayoutView {
                    array_stride: inputs_size(g.inputs_spec()) as u64,
                    step_mode: VertexStepMode::Instance,
                    attributes: baked_attributes(g.inputs_spec(), start),
                },
            ],
            None => Seq::empty(),
        };
        vertex_part + instance_part
    }

    /// An empty layout with neither stream described.
    pub fn new() -> (r: InputLayout)
        ensures
            r.vertex is None,
            r.instance is None,
            r.wf(),
    {
        InputLayout { vertex: None, instance: None }
    }

    /// The layout every brush starts with: the standard vertex group and
    /// no instance group.
    pub fn new_vertex_standard() -> (r: InputLayout)
        ensures
            r.vertex matches Some(g) && g.inputs_spec() == seq![
                InputType::Vec3,
                InputType::Vec4,
                InputType::Vec2,
                InputType::Vec3,
            ],
            r.instance is None,
            r.wf(),
    {
        InputLayout { vertex: Some(InputLayoutGroup::new_vertex_standard()), instance: None }
    }

    /// Replaces the per-vertex group.
    pub fn set_vertex_input(&mut self, input: InputLayoutGroup)
        ensures
            *final(self) == (InputLayout { vertex: Some(input), ..*old(self) }),
    {
        self.vertex = Some(input);
    }

    /// Replaces the per-instance group.
    pub fn set_instance_input(&mut self, input: InputLayoutGroup)
        ensures
            *final(self) == (InputLayout { instance: Some(input), ..*old(self) }),
    {
        self.instance = Some(input);
    }

    /// Bakes both groups into buffer layouts.  Two layouts with the same
    /// groups always bake identically: the result is a pure function of
    /// the layout's contents.
    pub fn bake(&self) -> (r: Vec<VertexBufferLayout>)
        requires
            self.wf(),
        ensures
            layouts_view(r@) == self.baked_spec(),
    {
        let mut baked: Vec<VertexBufferLayout> = Vec::new();
        let mut start_loc: u32 = 0;
        if let Some(input) = &self.vertex {
            baked.push(input.bake_layout(VertexStepMode::Vertex, start_loc));
            assert(input.inputs_spec().len() <= MAX_GROUP_INPUTS);
            start_loc = start_loc + (input.len() as u32);
        }
        if let Some(input) = &self.instance {
            baked.push(input.bake_layout(VertexStepMode::Instance, start_loc));
        }
        proof {
            assert(layouts_view(baked@) =~= self.baked_spec());
        }
        baked
    }
}

} // verus!
