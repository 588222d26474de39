use vstd::prelude::*;
use crate::mesh::VERTEX_STRIDE;

verus! {

#[derive(Clone, Copy, Debug, PartialEq, Eq, Structural)]
pub enum VertexInputRate {
    Vertex,
    Instance,
}

/// The format of each vertex attribute: three 32-bit floating-point components.
pub const FORMAT_R32G32B32_SFLOAT: i32 = 106;

#[derive(Clone, Copy, Debug, PartialEq, Eq, Structural)]
pub struct VertexInputBindingDescription {
    pub binding: u32,
    pub stride: u32,
    pub input_rate: VertexInputRate,
}

#[derive(Clone, Copy, Debug, PartialEq, Eq, Structural)]
pub struct VertexInputAttributeDescription {
    pub location: u32,
    pub binding: u32,
    pub format: i32,
    pub offset: u32,
}

/// How the pipeline reads vertices from the bound vertex buffers.
pub struct VertexInputDescription {
    pub binding_descriptions: Vec<VertexInputBindingDescription>,
    pub attribute_descriptions: Vec<VertexInputAttributeDescription>,
}

impl VertexInputDescription {
    fn new() -> (r: Self)
        ensures
            r.binding_descriptions@.len() == 0,
            r.attribute_descriptions@.len() == 0,
    {
        Self { binding_descriptions: Vec::new(), attribute_descriptions: Vec::new() }
    }
}

/// The vertex input of a shader object: one binding and its attributes.
pub struct ShaderBinding {
    pub binding_description: VertexInputBindingDescription,
    pub attribute_descriptions: Vec<VertexInputAttributeDescription>,
}

/// The vertex input bindings of a shader object.
pub struct ShaderLayout {
    pub bindings: Vec<ShaderBinding>,
}

impl ShaderLayout {
    pub fn new() -> (r: Self)
        ensures
            r.bindings@.len() == 0,
    {
        Self { bindings: Vec::new() }
    }
}

pub struct VertexStates;

impl VertexStates {
    /// The layout of mesh vertices: one per-vertex binding of stride
    /// `VERTEX_STRIDE`, and position, normal and color at locations 0, 1, 2
    /// and byte offsets 0, 12, 24.
    pub fn get_mesh_vertex_description() -> (r: VertexInputDescription)
        ensures
            r.binding_descriptions@ == seq![VertexInputBindingDescription {
                binding: 0,
                stride: VERTEX_STRIDE,
                input_rate: VertexInputRate::Vertex,
            }],
            r.attribute_descriptions@ == seq![
                VertexInputAttributeDescription { location: 0, binding: 0, format: FORMAT_R32G32B32_SFLOAT, offset: 0 },
                VertexInputAttributeDescription { location: 1, binding: 0, format: FORMAT_R32G32B32_SFLOAT, offset: 12 },
                VertexInputAttributeDescription { location: 2, binding: 0, format: FORMAT_R32G32B32_SFLOAT, offset: 24 },
            ],
    {
        let binding = VertexInputBindingDescription { binding: 0, stride: VERTEX_STRIDE, input_rate: VertexInputRate::Vertex };
        let mut attributes: Vec<VertexInputAttributeDescription> = Vec::new();
        let mut location: u32 = 0;
        attributes.push(VertexInputAttributeDescription { location, binding: binding.binding, format: FORMAT_R32G32B32_SFLOAT, offset: 0 });
        location = location + 1;
        attributes.push(VertexInputAttributeDescription { location, binding: binding.binding, format: FORMAT_R32G32B32_SFLOAT, offset: 12 });
        location = location + 1;
        attributes.push(VertexInputAttributeDescription { location, binding: binding.binding, format: FORMAT_R32G32B32_SFLOAT, offset: 24 });
        let mut description = VertexInputDescription::new();
        description.attribute_descriptions = attributes;
        description.binding_descriptions.push(binding);
        assert(description.binding_descriptions@ =~= seq![binding]);
        assert(description.attribute_descriptions@ =~= seq![
            VertexInputAttributeDescription { location: 0, binding: 0, format: FORMAT_R32G32B32_SFLOAT, offset: 0 },
            VertexInputAttributeDescription { location: 1, binding: 0, format: FORMAT_R32G32B32_SFLOAT, offset: 12 },
            VertexInputAttributeDescription { location: 2, binding: 0, format: FORMAT_R32G32B32_SFLOAT, offset: 24 },
        ]);
        description
    }
}

} // verus!
