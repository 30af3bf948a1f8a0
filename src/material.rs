use vstd::prelude::*;

verus! {

/// Path of the shader source that both stages of the shield material load.
pub const SHADER_ASSET_PATH: &'static str = "shield.wgsl";

/// How a translucent surface is composited over what is already drawn.
#[derive(Clone, Copy, Debug, PartialEq, Eq, Structural)]
pub enum AlphaMode {
    Opaque,
    Blend,
    Premultiplied,
    Add,
    Multiply,
}

/// Where a pipeline stage takes its shader from.
#[derive(Clone, Copy, Debug, PartialEq, Eq)]
pub enum ShaderRef {
    /// The engine's built-in shader for the stage.
    Default,
    /// A shader asset loaded from the given path.
    Path(&'static str),
}

/// A shader-backed translucent surface with no uniform parameters of its own.
/// `alpha_mode` is the blending the scene asks for when it registers the
/// material; the pipeline itself is keyed by the `alpha_mode()` method.
#[derive(Clone, Copy, Debug, PartialEq, Eq, Structural)]
pub struct ShieldMaterial {
    pub alpha_mode: AlphaMode,
}

impl ShieldMaterial {
    /// The vertex stage loads the shield shader.
    pub fn vertex_shader() -> (r: ShaderRef)
        ensures
            r == ShaderRef::Path(SHADER_ASSET_PATH),
    {
        ShaderRef::Path(SHADER_ASSET_PATH)
    }

    /// The fragment stage loads the same shader source as the vertex stage.
    pub fn fragment_shader() -> (r: ShaderRef)
        ensures
            r == ShaderRef::Path(SHADER_ASSET_PATH),
    {
        ShaderRef::Path(SHADER_ASSET_PATH)
    }

    /// The blending that the material reports to the pipeline: standard alpha
    /// blending, whatever mode the material was registered with.
    pub fn alpha_mode(&self) -> (r: AlphaMode)
        ensures
            r == AlphaMode::Blend,
    {
        AlphaMode::Blend
    }
}

} // verus!
