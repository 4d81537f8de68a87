use web_sys::WebGl2RenderingContext;
use webgl_util::{
    attrib_upload, checked, created, diagnostic, succeeded, AttribUpload, GlObject, ARRAY_BUFFER,
    ATTRIB_SLOT, COMPILE_STATUS, LINK_STATUS, STATIC_DRAW,
};

#[test]
fn created_buffer_is_returned() {
    assert_eq!(created(Some(7u32), GlObject::Buffer), Ok(7u32));
}

#[test]
fn refused_buffer_names_buffer() {
    assert_eq!(
        created::<u32>(None, GlObject::Buffer),
        Err("Failed to create WebGlBuffer".to_owned())
    );
}

#[test]
fn refused_shader_gives_fallback_message() {
    assert_eq!(
        created::<u32>(None, GlObject::Shader),
        Err("Failed to create WebGlShader".to_owned())
    );
}

#[test]
fn refused_program_gives_fallback_message() {
    assert_eq!(
        created::<u32>(None, GlObject::Program),
        Err("Failed to create WebGlProgram".to_owned())
    );
}

#[test]
fn created_keeps_each_handle() {
    let first = created(Some(1u32), GlObject::Shader);
    let second = created(Some(2u32), GlObject::Shader);
    assert_eq!(first, Ok(1u32));
    assert_eq!(second, Ok(2u32));
    assert_ne!(first, second);
}

#[test]
fn true_status_is_success() {
    assert!(succeeded(Some(true)));
}

#[test]
fn false_status_is_failure() {
    assert!(!succeeded(Some(false)));
}

#[test]
fn non_boolean_status_is_failure() {
    assert!(!succeeded(None));
}

#[test]
fn compile_log_is_reported_as_is() {
    let log = "ERROR: 0:1: 'foo' : syntax error".to_owned();
    assert_eq!(diagnostic(GlObject::Shader, Some(log.clone())), log);
}

#[test]
fn missing_compile_log_gives_generic_text() {
    assert_eq!(
        diagnostic(GlObject::Shader, None),
        "Unknown error creating WebGlShader"
    );
}

#[test]
fn link_log_is_reported_as_is() {
    let log = "ERROR: Varying 'v_uv' not written by vertex shader".to_owned();
    assert_eq!(diagnostic(GlObject::Program, Some(log.clone())), log);
}

#[test]
fn missing_link_log_gives_generic_text() {
    assert_eq!(
        diagnostic(GlObject::Program, None),
        "Unknown error creating WebGlProgram"
    );
}

#[test]
fn empty_link_log_gives_generic_text() {
    assert_eq!(
        diagnostic(GlObject::Program, Some(String::new())),
        "Unknown error creating WebGlProgram"
    );
}

#[test]
fn empty_compile_log_gives_generic_text() {
    assert_eq!(
        diagnostic(GlObject::Shader, Some(String::new())),
        "Unknown error creating WebGlShader"
    );
}

#[test]
fn compiled_shader_is_returned() {
    assert_eq!(checked(5u32, GlObject::Shader, Some(true), None), Ok(5u32));
}

#[test]
fn success_ignores_any_log() {
    let log = Some("WARNING: unused varying".to_owned());
    assert_eq!(checked(9u32, GlObject::Program, Some(true), log), Ok(9u32));
}

#[test]
fn failed_compile_returns_log() {
    let log = "ERROR: 0:3: 'gl_Position' : undeclared identifier".to_owned();
    assert_eq!(
        checked(5u32, GlObject::Shader, Some(false), Some(log.clone())),
        Err(log)
    );
}

#[test]
fn failed_compile_without_log_gives_generic_text() {
    assert_eq!(
        checked(5u32, GlObject::Shader, Some(false), None),
        Err("Unknown error creating WebGlShader".to_owned())
    );
}

#[test]
fn failed_link_returns_log() {
    let log = "ERROR: Missing fragment shader".to_owned();
    assert_eq!(
        checked(9u32, GlObject::Program, Some(false), Some(log.clone())),
        Err(log)
    );
}

#[test]
fn non_boolean_link_status_fails_with_generic_text() {
    assert_eq!(
        checked(9u32, GlObject::Program, None, None),
        Err("Unknown error creating WebGlProgram".to_owned())
    );
}

#[test]
fn gl_constants_match_webgl() {
    assert_eq!(ARRAY_BUFFER, WebGl2RenderingContext::ARRAY_BUFFER);
    assert_eq!(STATIC_DRAW, WebGl2RenderingContext::STATIC_DRAW);
    assert_eq!(COMPILE_STATUS, WebGl2RenderingContext::COMPILE_STATUS);
    assert_eq!(LINK_STATUS, WebGl2RenderingContext::LINK_STATUS);
}

#[test]
fn upload_targets_slot_zero_tightly_packed() {
    let up = attrib_upload(3, WebGl2RenderingContext::FLOAT, false);
    assert_eq!(
        up,
        AttribUpload {
            target: WebGl2RenderingContext::ARRAY_BUFFER,
            usage: WebGl2RenderingContext::STATIC_DRAW,
            index: 0,
            size: 3,
            data_type: WebGl2RenderingContext::FLOAT,
            normalized: false,
            stride: 0,
            offset: 0,
        }
    );
}

#[test]
fn upload_keeps_normalized_integer_layout() {
    let up = attrib_upload(4, WebGl2RenderingContext::UNSIGNED_BYTE, true);
    assert_eq!(up.index, ATTRIB_SLOT);
    assert_eq!(up.size, 4);
    assert_eq!(up.data_type, WebGl2RenderingContext::UNSIGNED_BYTE);
    assert!(up.normalized);
    assert_eq!(up.stride, 0);
    assert_eq!(up.offset, 0);
}

#[test]
fn attributes_go_to_slot_zero() {
    assert_eq!(ATTRIB_SLOT, 0);
}
