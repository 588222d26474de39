use vstd::prelude::*;
use crate::id::Id;
use crate::mesh::{Float3, Mesh, Vertex};

verus! {

/// One model of a parsed OBJ file: flat arrays of position and normal
/// components (bit patterns of single-precision values, three per vertex)
/// and the triangle indices.
pub struct ObjModel {
    pub positions: Vec<u32>,
    pub normals: Vec<u32>,
    pub indices: Vec<u32>,
}

/// The triple that starts at component `3 * i` of a flat component array.
pub open spec fn triple_at(components: Seq<u32>, i: int) -> Float3 {
    Float3 { x: components[3 * i], y: components[3 * i + 1], z: components[3 * i + 2] }
}

/// How many whole vertices a model describes: one per complete pair of a
/// position triple and a normal triple.
pub open spec fn model_vertex_count(m: &ObjModel) -> nat {
    let p = m.positions@.len() / 3;
    let n = m.normals@.len() / 3;
    if p <= n { p } else { n }
}

/// Vertex `i` of a model; its color repeats the normal.
pub open spec fn model_vertex(m: &ObjModel, i: int) -> Vertex {
    Vertex {
        position: triple_at(m.positions@, i),
        normal: triple_at(m.normals@, i),
        color: triple_at(m.normals@, i),
    }
}

/// Turns parsed OBJ models into meshes.
pub struct ObjectsLoader;

impl ObjectsLoader {
    pub fn new() -> (r: Self) {
        ObjectsLoader
    }

    /// Builds the vertex array of a model: vertex `i` takes the `i`-th
    /// position and normal triples, and the normal again as its color.
    pub fn model_vertices(model: &ObjModel) -> (r: Vec<Vertex>)
        ensures
            r@.len() == model_vertex_count(model),
            forall|i: int| 0 <= i < r@.len() ==> r@[i] == model_vertex(model, i),
    {
        let p = model.positions.len() / 3;
        let n = model.normals.len() / 3;
        let count = if p <= n { p } else { n };
        let mut vertices: Vec<Vertex> = Vec::new();
        let mut i: usize = 0;
        while i < count
            invariant
                count == model_vertex_count(model),
                i <= count,
                vertices@.len() == i,
                forall|k: int| 0 <= k < i ==> vertices@[k] == model_vertex(model, k),
            decreases count - i,
        {
            let pl = model.positions.len();
            let nl = model.normals.len();
            proof {
                assert(3 * i + 2 < pl) by (nonlinear_arith)
                    requires i < pl / 3;
                assert(3 * i + 2 < nl) by (nonlinear_arith)
                    requires i < nl / 3;
            }
            let position = Float3 {
                x: model.positions[3 * i],
                y: model.positions[3 * i + 1],
                z: model.positions[3 * i + 2],
            };
            let normal = Float3 {
                x: model.normals[3 * i],
                y: model.normals[3 * i + 1],
                z: model.normals[3 * i + 2],
            };
            vertices.push(Vertex { position, normal, color: normal });
            i = i + 1;
        }
        vertices
    }

    /// Makes a mesh from the first model of a parsed file. `None` when the
    /// file could not be parsed, holds no model, or has more vertices or
    /// indices than the mesh counts can hold.
    pub fn load_obj_mesh(&self, parsed: &Option<Vec<ObjModel>>, id: Id) -> (r: Option<Mesh>)
        ensures
            r.is_some() <==> (parsed.is_some() && parsed->Some_0@.len() > 0
                && model_vertex_count(&parsed->Some_0@[0]) <= u32::MAX
                && parsed->Some_0@[0].indices@.len() <= u32::MAX),
            r.is_some() ==> ({
                let m = r->Some_0;
                let model = &parsed->Some_0@[0];
                &&& m.wf()
                &&& m.metadata.id == id
                &&& !m.is_uploaded
                &&& m.vertices@.len() == model_vertex_count(model)
                &&& forall|i: int| 0 <= i < m.vertices@.len() ==> m.vertices@[i] == model_vertex(model, i)
                &&& m.indices@ == model.indices@
            }),
    {
        match parsed {
            None => None,
            Some(models) => {
                if models.len() == 0 {
                    return None;
                }
                let model = &models[0];
                let vertices = Self::model_vertices(model);
                if vertices.len() > u32::MAX as usize || model.indices.len() > u32::MAX as usize {
                    return None;
                }
                let indices = model.indices.clone();
                Some(Mesh::new(id, vertices, indices))
            },
        }
    }
}

} // verus!
