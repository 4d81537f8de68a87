//! Small helpers over a WebGL2 context: upload vertex data into an attribute
//! buffer, compile a shader stage, link a program, with the backend's
//! failures turned into error text.
mod backend;
mod gl;
mod outcome;

pub use gl::{
    attrib_upload, compile_shader, link_program, load_attrib, AttribUpload, ARRAY_BUFFER,
    ATTRIB_SLOT, COMPILE_STATUS, LINK_STATUS, STATIC_DRAW,
};
pub use outcome::{checked, created, diagnostic, succeeded, GlObject};
