use vstd::prelude::*;

use crate::asset_server::{lookup, retrieve_asset, AssetCache, AssetKey, AssetValue};
use crate::gpu::{Command, Primitive, RenderError};

use super::material::{combiner_commands, light_env_commands, resolve_spec, Material};

verus! {

/// Why a shape could not be made.
#[derive(Debug, Clone, Copy, PartialEq, Eq, Structural)]
pub enum ShapeError {
    /// The vertex count does not fit the primitive topology.
    BadVertexCount { primitive: Primitive, vertex_count: usize },
}

/// Whether `n` vertices can be drawn as `p`: a point list needs one, the
/// other topologies three, and a triangle list a whole number of triangles.
pub open spec fn valid_vertex_count(p: Primitive, n: nat) -> bool {
    match p {
        Primitive::Triangles => n >= 3 && n % 3 == 0,
        Primitive::TriangleStrip => n >= 3,
        Primitive::TriangleFan => n >= 3,
        Primitive::GeometryPrim => n >= 1,
    }
}

/// One drawable batch: a material key, a topology, and a vertex buffer that
/// the GPU backend holds under a handle, with its vertex count.
#[derive(Debug)]
pub struct Shape {
    mat: AssetKey<Material>,
    prim_type: Primitive,
    buffer: u32,
    vertex_count: usize,
}

/// The commands that draw `s`: its material's lighting and combiner state,
/// then its buffer and one draw; or the first key that does not resolve.
pub open spec fn shape_commands(m: Map<u64, AssetValue>, s: Shape) -> Result<Seq<Command>, RenderError> {
    match lookup::<Material>(m, s.spec_material().spec_identity()) {
        None => Err(RenderError::MissingAsset { identity: s.spec_material().spec_identity() }),
        Some(mat) => match resolve_spec(m, mat) {
            Err(e) => Err(e),
            Ok(r) => Ok(
                light_env_commands(r) + combiner_commands(r) + seq![
                    Command::AttachBuffer { buffer: s.spec_buffer() },
                    Command::SetAttrInfo { buffer: s.spec_buffer() },
                    Command::DrawArrays {
                        primitive: s.spec_primitive(),
                        vertex_count: s.spec_vertex_count(),
                    },
                ],
            ),
        },
    }
}

impl Shape {
    pub closed spec fn spec_material(&self) -> AssetKey<Material> {
        self.mat
    }

    pub closed spec fn spec_primitive(&self) -> Primitive {
        self.prim_type
    }

    pub closed spec fn spec_buffer(&self) -> u32 {
        self.buffer
    }

    pub closed spec fn spec_vertex_count(&self) -> usize {
        self.vertex_count
    }

    /// A shape's vertex count always fits its topology.
    pub closed spec fn wf(&self) -> bool {
        valid_vertex_count(self.prim_type, self.vertex_count as nat)
    }

    /// A shape drawing `vertex_count` vertices of the buffer `buffer` as
    /// `prim_type`, or an error where the count does not fit the topology.
    pub fn new(mat: AssetKey<Material>, prim_type: Primitive, buffer: u32, vertex_count: usize) -> (r: Result<Self, ShapeError>)
        ensures
            match r {
                Ok(s) => valid_vertex_count(prim_type, vertex_count as nat) && s.wf()
                    && s.spec_material() == mat && s.spec_primitive() == prim_type
                    && s.spec_buffer() == buffer && s.spec_vertex_count() == vertex_count,
                Err(e) => !valid_vertex_count(prim_type, vertex_count as nat) && e == (
                ShapeError::BadVertexCount { primitive: prim_type, vertex_count }),
            },
    {
        let ok = match prim_type {
            Primitive::Triangles => vertex_count >= 3 && vertex_count % 3 == 0,
            Primitive::TriangleStrip => vertex_count >= 3,
            Primitive::TriangleFan => vertex_count >= 3,
            Primitive::GeometryPrim => vertex_count >= 1,
        };
        if ok {
            Ok(Shape { mat, prim_type, buffer, vertex_count })
        } else {
            Err(ShapeError::BadVertexCount { primitive: prim_type, vertex_count })
        }
    }

    pub fn material(&self) -> (r: AssetKey<Material>)
        ensures
            r == self.spec_material(),
    {
        self.mat
    }

    pub fn buffer(&self) -> (r: u32)
        ensures
            r == self.spec_buffer(),
    {
        self.buffer
    }

    /// Appends the commands that draw this shape.
    pub fn draw(&self, cache: &AssetCache, out: &mut Vec<Command>) -> (r: Result<(), RenderError>)
        ensures
            match shape_commands(cache@, *self) {
                Ok(c) => r is Ok && final(out)@ == old(out)@ + c,
                Err(e) => r == Err::<(), RenderError>(e) && final(out)@ == old(out)@,
            },
    {
        let mat = match retrieve_asset(cache, &self.mat) {
            Some(m) => m,
            None => {
                return Err(RenderError::MissingAsset { identity: self.mat.identity() });
            },
        };
        let resolved = match mat.resolve(cache) {
            Ok(r) => r,
            Err(e) => {
                return Err(e);
            },
        };
        let ghost start = out@;
        resolved.set_light_env(out);
        resolved.configure_combiner(out);
        out.push(Command::AttachBuffer { buffer: self.buffer });
        out.push(Command::SetAttrInfo { buffer: self.buffer });
        out.push(Command::DrawArrays { primitive: self.prim_type, vertex_count: self.vertex_count });
        assert(out@ =~= start + (light_env_commands(resolved) + combiner_commands(resolved) + seq![
            Command::AttachBuffer { buffer: self.buffer },
            Command::SetAttrInfo { buffer: self.buffer },
            Command::DrawArrays { primitive: self.prim_type, vertex_count: self.vertex_count },
        ]));
        Ok(())
    }
}

} // verus!
