//! The WebGL2 calls the helpers make, each behind a wrapper whose contract is
//! taken on trust. What a context creates or reports depends on its state and
//! on the GPU driver, so none of them promises anything of its result.
use vstd::prelude::*;
use web_sys::{WebGl2RenderingContext, WebGlBuffer, WebGlProgram, WebGlShader};

verus! {

#[verifier::external_type_specification]
#[verifier::external_body]
pub struct ExWebGl2RenderingContext(web_sys::WebGl2RenderingContext);

#[verifier::external_type_specification]
#[verifier::external_body]
pub struct ExWebGlBuffer(web_sys::WebGlBuffer);

#[verifier::external_type_specification]
#[verifier::external_body]
pub struct ExWebGlShader(web_sys::WebGlShader);

#[verifier::external_type_specification]
#[verifier::external_body]
pub struct ExWebGlProgram(web_sys::WebGlProgram);

#[verifier::external_type_specification]
#[verifier::external_body]
pub struct ExJsValue(wasm_bindgen::JsValue);

#[verifier::external_type_specification]
#[verifier::external_body]
#[verifier::reject_recursive_types(T)]
pub struct ExObject<T>(js_sys::Object<T>);

/// Relies on WebGl2RenderingContext::create_buffer: a new buffer, or `None`
/// when the context cannot make one.
#[verifier::external_body]
pub(crate) fn create_buffer(ctx: &WebGl2RenderingContext) -> (r: Option<WebGlBuffer>) {
    ctx.create_buffer()
}

/// Relies on WebGl2RenderingContext::bind_buffer: makes `buffer` the context's
/// current buffer for `target`.
#[verifier::external_body]
pub(crate) fn bind_buffer(ctx: &WebGl2RenderingContext, target: u32, buffer: &WebGlBuffer) {
    ctx.bind_buffer(target, Some(buffer))
}

/// Relies on WebGl2RenderingContext::buffer_data_with_array_buffer_view:
/// hands `data` to the backend's `bufferData` for the buffer bound to
/// `target`, with the usage hint `usage`.
#[verifier::external_body]
pub(crate) fn buffer_data(ctx: &WebGl2RenderingContext, target: u32, data: &js_sys::Object, usage: u32) {
    ctx.buffer_data_with_array_buffer_view(target, data, usage)
}

/// Relies on WebGl2RenderingContext::vertex_attrib_pointer_with_i32: points
/// attribute `index` at the current `ARRAY_BUFFER` with the given layout.
#[verifier::external_body]
pub(crate) fn vertex_attrib_pointer(
    ctx: &WebGl2RenderingContext,
    index: u32,
    size: i32,
    data_type: u32,
    normalized: bool,
    stride: i32,
    offset: i32,
) {
    ctx.vertex_attrib_pointer_with_i32(index, size, data_type, normalized, stride, offset)
}

/// Relies on WebGl2RenderingContext::enable_vertex_attrib_array: turns on
/// attribute `index`.
#[verifier::external_body]
pub(crate) fn enable_vertex_attrib_array(ctx: &WebGl2RenderingContext, index: u32) {
    ctx.enable_vertex_attrib_array(index)
}

/// Relies on WebGl2RenderingContext::create_shader: a new shader of the given
/// stage, or `None` when the context cannot make one.
#[verifier::external_body]
pub(crate) fn create_shader(ctx: &WebGl2RenderingContext, shader_type: u32) -> (r: Option<WebGlShader>) {
    ctx.create_shader(shader_type)
}

/// Relies on WebGl2RenderingContext::shader_source: sets the shader's source.
#[verifier::external_body]
pub(crate) fn shader_source(ctx: &WebGl2RenderingContext, shader: &WebGlShader, source: &str) {
    ctx.shader_source(shader, source)
}

/// Relies on WebGl2RenderingContext::compile_shader: runs the compiler.
#[verifier::external_body]
pub(crate) fn compile(ctx: &WebGl2RenderingContext, shader: &WebGlShader) {
    ctx.compile_shader(shader)
}

/// Relies on WebGl2RenderingContext::get_shader_parameter, read by
/// JsValue::as_bool: the boolean the backend answered for `pname`, or `None`
/// where the answer was not a boolean.
#[verifier::external_body]
pub(crate) fn shader_flag(ctx: &WebGl2RenderingContext, shader: &WebGlShader, pname: u32) -> (r: Option<bool>) {
    ctx.get_shader_parameter(shader, pname).as_bool()
}

/// Relies on WebGl2RenderingContext::get_shader_info_log: the compiler's log,
/// if the context has one.
#[verifier::external_body]
pub(crate) fn shader_info_log(ctx: &WebGl2RenderingContext, shader: &WebGlShader) -> (r: Option<String>) {
    ctx.get_shader_info_log(shader)
}

/// Relies on WebGl2RenderingContext::create_program: a new program, or `None`
/// when the context cannot make one.
#[verifier::external_body]
pub(crate) fn create_program(ctx: &WebGl2RenderingContext) -> (r: Option<WebGlProgram>) {
    ctx.create_program()
}

/// Relies on WebGl2RenderingContext::attach_shader: attaches `shader` to
/// `program`.
#[verifier::external_body]
pub(crate) fn attach_shader(ctx: &WebGl2RenderingContext, program: &WebGlProgram, shader: &WebGlShader) {
    ctx.attach_shader(program, shader)
}

/// Relies on WebGl2RenderingContext::link_program: runs the linker.
#[verifier::external_body]
pub(crate) fn link(ctx: &WebGl2RenderingContext, program: &WebGlProgram) {
    ctx.link_program(program)
}

/// Relies on WebGl2RenderingContext::get_program_parameter, read by
/// JsValue::as_bool: the boolean the backend answered for `pname`, or `None`
/// where the answer was not a boolean.
#[verifier::external_body]
pub(crate) fn program_flag(ctx: &WebGl2RenderingContext, program: &WebGlProgram, pname: u32) -> (r: Option<bool>) {
    ctx.get_program_parameter(program, pname).as_bool()
}

/// Relies on WebGl2RenderingContext::get_program_info_log: the linker's log,
/// if the context has one.
#[verifier::external_body]
pub(crate) fn program_info_log(ctx: &WebGl2RenderingContext, program: &WebGlProgram) -> (r: Option<String>) {
    ctx.get_program_info_log(program)
}

} // verus!
