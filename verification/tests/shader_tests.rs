use render_core::shader::ShaderError;
use render_core::shader::ShaderStage;
use render_core::shader::shader_stage_from_selector;

#[test]
fn selector_zero_is_the_vertex_stage() {
    assert_eq!(shader_stage_from_selector(0), Ok(ShaderStage::Vertex));
}

#[test]
fn selector_one_is_the_fragment_stage() {
    assert_eq!(shader_stage_from_selector(1), Ok(ShaderStage::Fragment));
}

#[test]
fn any_other_selector_is_a_usage_error() {
    assert_eq!(shader_stage_from_selector(2), Err(ShaderError::UnknownStage));
    assert_eq!(shader_stage_from_selector(255), Err(ShaderError::UnknownStage));
}
