//! The three helpers: attribute upload, shader compile and program link.
use vstd::prelude::*;
use web_sys::{WebGl2RenderingContext, WebGlProgram, WebGlShader};

use crate::backend;
use crate::outcome::{
    checked, created, creation_failure, diagnostic_text, lemma_diagnostic_not_empty, succeeded,
    GlObject,
};

verus! {

/// The attribute slot that `load_attrib` fills.
pub const ATTRIB_SLOT: u32 = 0;

/// WebGL's `ARRAY_BUFFER` binding target, for vertex attribute data.
pub const ARRAY_BUFFER: u32 = 34962;

/// WebGL's `STATIC_DRAW` usage hint: written once, read many times.
pub const STATIC_DRAW: u32 = 35044;

/// WebGL's `COMPILE_STATUS` shader parameter.
pub const COMPILE_STATUS: u32 = 35713;

/// WebGL's `LINK_STATUS` program parameter.
pub const LINK_STATUS: u32 = 35714;

/// Everything `load_attrib` hands the backend besides the context, the
/// buffer and the data: where the buffer is bound, its usage hint, and how
/// the attribute slot reads it.
#[derive(Clone, Copy, Debug, PartialEq, Eq, Structural)]
pub struct AttribUpload {
    pub target: u32,
    pub usage: u32,
    pub index: u32,
    pub size: i32,
    pub data_type: u32,
    pub normalized: bool,
    pub stride: i32,
    pub offset: i32,
}

/// The upload of tightly packed static vertex data into slot 0: the array
/// buffer target, the `STATIC_DRAW` hint, stride 0 and offset 0, with the
/// caller's component count, type and normalization.
pub fn attrib_upload(size: i32, data_type: u32, normalized: bool) -> (r: AttribUpload)
    ensures
        r == (AttribUpload {
            target: ARRAY_BUFFER,
            usage: STATIC_DRAW,
            index: ATTRIB_SLOT,
            size,
            data_type,
            normalized,
            stride: 0,
            offset: 0,
        }),
{
    AttribUpload {
        target: ARRAY_BUFFER,
        usage: STATIC_DRAW,
        index: ATTRIB_SLOT,
        size,
        data_type,
        normalized,
        stride: 0,
        offset: 0,
    }
}

/// Creates a buffer, binds it as the context's `ARRAY_BUFFER`, hands `data`
/// to it with the `STATIC_DRAW` hint, and points attribute slot 0 at it, tightly packed
/// from offset 0, with `size` components of `data_type` per vertex; then
/// enables slot 0. The only failure is a buffer the backend refused to create.
pub fn load_attrib(
    ctx: &WebGl2RenderingContext,
    data: &js_sys::Object,
    size: i32,
    data_type: u32,
    normalized: bool,
) -> (r: Result<(), String>)
    ensures
        r matches Err(e) ==> e@ == creation_failure(GlObject::Buffer),
{
    let buffer = match created(backend::create_buffer(ctx), GlObject::Buffer) {
        Ok(buffer) => buffer,
        Err(e) => return Err(e),
    };
    let up = attrib_upload(size, data_type, normalized);
    backend::bind_buffer(ctx, up.target, &buffer);
    backend::buffer_data(ctx, up.target, data, up.usage);
    backend::vertex_attrib_pointer(
        ctx,
        up.index,
        up.size,
        up.data_type,
        up.normalized,
        up.stride,
        up.offset,
    );
    backend::enable_vertex_attrib_array(ctx, up.index);
    Ok(())
}

/// Compiles `source` as a shader of stage `shader_type`. Returns the shader
/// when its compile status reads `true`; otherwise the compiler's log, or a
/// generic text where it is missing or empty. A shader the backend refused to create
/// gives the creation error.
pub fn compile_shader(ctx: &WebGl2RenderingContext, shader_type: u32, source: &str) -> (r: Result<
    WebGlShader,
    String,
>)
    ensures
        r matches Err(e) ==> (e@ == creation_failure(GlObject::Shader) || (exists|log: Option<
            String,
        >| e@ == diagnostic_text(GlObject::Shader, log))),
        r matches Err(e) ==> e@.len() > 0,
{
    let shader = match created(backend::create_shader(ctx, shader_type), GlObject::Shader) {
        Ok(shader) => shader,
        Err(e) => {
            proof {
                reveal_strlit("Failed to create WebGlShader");
            }
            return Err(e);
        },
    };
    backend::shader_source(ctx, &shader, source);
    backend::compile(ctx, &shader);
    let status = backend::shader_flag(ctx, &shader, COMPILE_STATUS);
    let log = if succeeded(status) {
        None
    } else {
        backend::shader_info_log(ctx, &shader)
    };
    proof {
        lemma_diagnostic_not_empty(GlObject::Shader, log);
    }
    checked(shader, GlObject::Shader, status, log)
}

/// Attaches every shader of `shaders` to a new program and links it. Returns
/// the program when its link status reads `true`; otherwise the linker's
/// log, or a generic text where it is missing or empty. A program the backend refused
/// to create gives the creation error.
pub fn link_program(ctx: &WebGl2RenderingContext, shaders: &[&WebGlShader]) -> (r: Result<
    WebGlProgram,
    String,
>)
    ensures
        r matches Err(e) ==> (e@ == creation_failure(GlObject::Program) || (exists|log: Option<
            String,
        >| e@ == diagnostic_text(GlObject::Program, log))),
        r matches Err(e) ==> e@.len() > 0,
{
    let program = match created(backend::create_program(ctx), GlObject::Program) {
        Ok(program) => program,
        Err(e) => {
            proof {
                reveal_strlit("Failed to create WebGlProgram");
            }
            return Err(e);
        },
    };
    let mut i: usize = 0;
    while i < shaders.len()
        invariant
            i <= shaders@.len(),
        decreases shaders@.len() - i,
    {
        backend::attach_shader(ctx, &program, shaders[i]);
        i = i + 1;
    }
    backend::link(ctx, &program);
    let status = backend::program_flag(ctx, &program, LINK_STATUS);
    let log = if succeeded(status) {
        None
    } else {
        backend::program_info_log(ctx, &program)
    };
    proof {
        lemma_diagnostic_not_empty(GlObject::Program, log);
    }
    checked(program, GlObject::Program, status, log)
}

} // verus!
