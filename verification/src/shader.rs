//! Decisions made while building the shader program.
//!
//! Compiling a shader and linking the program each end with a status query
//! and, on failure, an info log whose useful prefix the driver reports.
//! The calls into the graphics driver stay outside the library; what is
//! decided from their answers stands here.

use vstd::prelude::*;

verus! {

/// The driver's enum value for a vertex shader.
pub const VERTEX_SHADER: u32 = 0x8B31;

/// The driver's enum value for a fragment shader.
pub const FRAGMENT_SHADER: u32 = 0x8B30;

/// Status value that a successful compile or link step reports.
pub const STATUS_TRUE: i32 = 1;

/// Name of a shader type, for failure messages. Only the two shader types
/// the renderer uses have a name.
pub fn shader_type_name(shader_type: u32) -> (name: &'static str)
    requires
        shader_type == VERTEX_SHADER || shader_type == FRAGMENT_SHADER,
    ensures
        shader_type == VERTEX_SHADER ==> name@ == "VERTEX_SHADER"@,
        shader_type == FRAGMENT_SHADER ==> name@ == "FRAGMENT_SHADER"@,
{
    if shader_type == VERTEX_SHADER {
        "VERTEX_SHADER"
    } else {
        "FRAGMENT_SHADER"
    }
}

/// Decide a compile or link step from the driver's answers: a successful
/// status keeps the handle; a failed one keeps the info log, cut to the
/// length the driver reported.
pub fn build_step_outcome(handle: u32, status: i32, log_buffer: &[u8], log_length: i32) -> (r:
    Result<u32, Vec<u8>>)
    requires
        0 <= log_length,
        log_length as int <= log_buffer@.len(),
    ensures
        status == STATUS_TRUE ==> (r matches Ok(h) && h == handle),
        status != STATUS_TRUE ==> (r matches Err(log) && log@ == log_buffer@.subrange(
            0,
            log_length as int,
        )),
{
    if status == STATUS_TRUE {
        Ok(handle)
    } else {
        let len = log_length as usize;
        let mut log: Vec<u8> = Vec::new();
        let mut i: usize = 0;
        while i < len
            invariant
                i <= len,
                len <= log_buffer@.len(),
                log@ =~= log_buffer@.subrange(0, i as int),
            decreases len - i,
        {
            log.push(log_buffer[i]);
            i = i + 1;
        }
        Err(log)
    }
}

} // verus!
