//! The commands that the library hands to a GPU backend, and the values
//! they carry.

use vstd::prelude::*;

use crate::model::colour::Colour;

verus! {

/// The texture unit that a material's texture is bound to.
pub const TEXTURE_UNIT: i32 = 0;

/// The texture unit that a material's normal map is read from.
pub const NORMAL_UNIT: u8 = 1;

/// The exponent of the specular lookup table when a material sets none
/// (the IEEE-754 single-precision bits of `30.0`).
pub const DEFAULT_SHININESS_BITS: u32 = 0x41F0_0000;

/// A 3-vector of IEEE-754 single-precision bit patterns. The library carries
/// it to the backend without reading it.
#[derive(Debug, Clone, Copy, PartialEq, Eq, Structural)]
pub struct Vec3Bits {
    pub x: u32,
    pub y: u32,
    pub z: u32,
}

/// The three vertex-shader uniform slots, resolved once when the program is
/// loaded.
#[derive(Debug, Clone, Copy, PartialEq, Eq, Structural)]
pub struct Uniforms {
    pub model_matrix: u8,
    pub camera_matrix: u8,
    pub projection_matrix: u8,
}

/// One of the two stereo render targets.
#[derive(Debug, Clone, Copy, PartialEq, Eq, Structural)]
pub enum Eye {
    Left,
    Right,
}

/// What a bound matrix uniform is computed from.
#[derive(Debug, Clone, Copy, PartialEq, Eq, Structural)]
pub enum MatrixSource {
    /// The inverse of `translate(pos) * rotate_y(yaw) * rotate_x(pitch) *
    /// rotate_z(roll)`, where `rot.x` is the yaw, `rot.y` the pitch and
    /// `rot.z` the roll.
    Model { pos: Vec3Bits, rot: Vec3Bits },
    /// The camera matrix of the current frame.
    Camera,
    /// The projection of one eye for the current frame.
    Projection(Eye),
}

/// The primitive topology of a draw.
#[derive(Debug, Clone, Copy, PartialEq, Eq, Structural)]
pub enum Primitive {
    Triangles,
    TriangleStrip,
    TriangleFan,
    GeometryPrim,
}

/// How the lighting unit perturbs normals.
#[derive(Debug, Clone, Copy, PartialEq, Eq, Structural)]
pub enum BumpMode {
    NotUsed,
    AsBump,
}

/// An input of a texture-combiner stage.
#[derive(Debug, Clone, Copy, PartialEq, Eq, Structural)]
pub enum Source {
    FragmentPrimaryColor,
    FragmentSecondaryColor,
    Previous,
    Texture0,
}

/// How a texture-combiner stage combines its inputs.
#[derive(Debug, Clone, Copy, PartialEq, Eq, Structural)]
pub enum CombineFunc {
    Add,
    Modulate,
}

/// The five optional lighting colours of a material.
#[derive(Debug, Clone, Copy, PartialEq, Eq, Structural)]
pub struct LightMaterial {
    pub ambient: Option<Colour>,
    pub diffuse: Option<Colour>,
    pub specular0: Option<Colour>,
    pub specular1: Option<Colour>,
    pub emission: Option<Colour>,
}

/// One operation of the GPU backend, in the order the backend must run it.
#[derive(Debug, Clone, Copy, PartialEq, Eq, Structural)]
pub enum Command {
    /// Bind a matrix to a vertex-shader uniform slot.
    BindUniform { index: u8, matrix: MatrixSource },
    /// Move the scene's light to the light position seen from the camera.
    UpdateLightPosition,
    /// Clear an eye's render target.
    ClearTarget(Eye),
    /// Make an eye's render target the active one.
    SelectTarget(Eye),
    /// Connect the specular lookup table `x ^ exponent`, the exponent given
    /// as single-precision bits.
    ConnectShininessLut { exponent_bits: u32 },
    /// Set the lighting colours of the current material.
    SetMaterial(LightMaterial),
    /// Set how normals are read, and from which texture unit.
    SetNormalMap { mode: BumpMode, unit: u8 },
    /// Bind an uploaded texture to a texture unit.
    BindTexture { handle: u32, unit: i32 },
    /// Reset a texture-combiner stage to its defaults.
    ResetCombiner { stage: u8 },
    /// Configure a texture-combiner stage.
    Combine { stage: u8, first: Source, second: Source, func: CombineFunc },
    /// Attach an uploaded vertex buffer and its attribute layout.
    AttachBuffer { buffer: u32 },
    /// Make the attribute layout of a vertex buffer the active one.
    SetAttrInfo { buffer: u32 },
    /// Draw the attached buffer.
    DrawArrays { primitive: Primitive, vertex_count: usize },
}

/// Why a draw could not be planned.
#[derive(Debug, Clone, Copy, PartialEq, Eq, Structural)]
pub enum RenderError {
    /// A key of the scene does not resolve, in the cache, to a value of its
    /// type.
    MissingAsset { identity: u64 },
}

} // verus!
