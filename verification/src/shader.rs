//! The shader-compilation collaborator's input validation.
//!
//! Shader source is compiled to bytecode by an external collaborator; the
//! engine's side of that contract is the stage selector, which has exactly
//! two legal values. Anything else is a usage error, fatal to the caller.

use vstd::prelude::*;

verus! {

/// The two pipeline stages the engine compiles shaders for.
#[derive(Clone, Copy, PartialEq, Eq, Structural, Debug)]
pub enum ShaderStage {
    /// The vertex stage; selector value zero.
    Vertex,
    /// The fragment stage; selector value one.
    Fragment,
}

/// The one way a stage selector can be wrong.
#[derive(Clone, Copy, PartialEq, Eq, Structural, Debug)]
pub enum ShaderError {
    /// The selector named neither the vertex nor the fragment stage.
    UnknownStage,
}

/// Maps a stage selector to its stage: zero is the vertex stage, one the
/// fragment stage, and every other value a usage error.
pub fn shader_stage_from_selector(selector: u8) -> (r: Result<ShaderStage, ShaderError>)
    ensures
        selector == 0 ==> r == Ok::<ShaderStage, ShaderError>(ShaderStage::Vertex),
        selector == 1 ==> r == Ok::<ShaderStage, ShaderError>(ShaderStage::Fragment),
        selector >= 2 ==> r == Err::<ShaderStage, ShaderError>(ShaderError::UnknownStage),
{
    if selector == 0 {
        Ok(ShaderStage::Vertex)
    } else if selector == 1 {
        Ok(ShaderStage::Fragment)
    } else {
        Err(ShaderError::UnknownStage)
    }
}

} // verus!
