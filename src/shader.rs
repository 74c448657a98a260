use vstd::prelude::*;
use wasm_bindgen::JsValue;
use web_sys::{WebGlProgram, WebGlRenderingContext, WebGlShader};

verus! {

#[verifier::external_type_specification]
#[verifier::external_body]
pub struct ExWebGlRenderingContext(WebGlRenderingContext);

#[verifier::external_type_specification]
#[verifier::external_body]
pub struct ExWebGlShader(WebGlShader);

#[verifier::external_type_specification]
#[verifier::external_body]
pub struct ExWebGlProgram(WebGlProgram);

#[verifier::external_type_specification]
#[verifier::external_body]
pub struct ExJsValue(JsValue);

/// Relies on web_sys's `WebGlRenderingContext::create_shader`: a new shader
/// object of the given kind, or `None` when the context cannot make one.
#[verifier::external_body]
fn new_shader(context: &WebGlRenderingContext, kind: u32) -> (r: Option<WebGlShader>) {
    context.create_shader(kind)
}

/// Relies on web_sys's `WebGlRenderingContext::shader_source`: hands the
/// source text to the shader object.
#[verifier::external_body]
fn set_shader_source(context: &WebGlRenderingContext, shader: &WebGlShader, source: &str) {
    context.shader_source(shader, source)
}

/// Relies on web_sys's `WebGlRenderingContext::compile_shader`.
#[verifier::external_body]
fn compile_source(context: &WebGlRenderingContext, shader: &WebGlShader) {
    context.compile_shader(shader)
}

/// Relies on web_sys's `WebGlRenderingContext::get_shader_parameter`, asked
/// for the compile status.
#[verifier::external_body]
fn shader_compile_status(context: &WebGlRenderingContext, shader: &WebGlShader) -> (r: JsValue) {
    context.get_shader_parameter(shader, WebGlRenderingContext::COMPILE_STATUS)
}

/// Relies on web_sys's `WebGlRenderingContext::get_shader_info_log`: the
/// compiler's diagnostic text, if the host gives one.
#[verifier::external_body]
fn shader_log(context: &WebGlRenderingContext, shader: &WebGlShader) -> (r: Option<String>) {
    context.get_shader_info_log(shader)
}

/// Relies on web_sys's `WebGlRenderingContext::create_program`: a new program
/// object, or `None` when the context cannot make one.
#[verifier::external_body]
fn new_program(context: &WebGlRenderingContext) -> (r: Option<WebGlProgram>) {
    context.create_program()
}

/// Relies on web_sys's `WebGlRenderingContext::attach_shader`.
#[verifier::external_body]
fn attach(context: &WebGlRenderingContext, program: &WebGlProgram, shader: &WebGlShader) {
    context.attach_shader(program, shader)
}

/// Relies on web_sys's `WebGlRenderingContext::link_program`.
#[verifier::external_body]
fn link(context: &WebGlRenderingContext, program: &WebGlProgram) {
    context.link_program(program)
}

/// Relies on web_sys's `WebGlRenderingContext::get_program_parameter`, asked
/// for the link status.
#[verifier::external_body]
fn program_link_status(context: &WebGlRenderingContext, program: &WebGlProgram) -> (r: JsValue) {
    context.get_program_parameter(program, WebGlRenderingContext::LINK_STATUS)
}

/// Relies on web_sys's `WebGlRenderingContext::get_program_info_log`: the
/// linker's diagnostic text, if the host gives one.
#[verifier::external_body]
fn program_log(context: &WebGlRenderingContext, program: &WebGlProgram) -> (r: Option<String>) {
    context.get_program_info_log(program)
}

/// Relies on wasm_bindgen's `JsValue::as_bool`: the value if it is a boolean.
#[verifier::external_body]
fn js_bool(v: &JsValue) -> (r: Option<bool>) {
    v.as_bool()
}

/// The text of an error report: the host's diagnostic when it gave a
/// non-empty one, the fallback otherwise.
pub open spec fn diagnostic(log: Option<String>, fallback: Seq<char>) -> Seq<char> {
    match log {
        Some(s) => if s@.len() > 0 { s@ } else { fallback },
        None => fallback,
    }
}

/// Picks the text of an error report from what the host gave; the result is
/// never empty.
pub fn diagnostic_text(log: Option<String>, fallback: &str) -> (r: String)
    requires
        fallback@.len() > 0,
    ensures
        r@ == diagnostic(log, fallback@),
        r@.len() > 0,
{
    match log {
        Some(s) => if s.as_str().is_empty() { fallback.to_owned() } else { s },
        None => fallback.to_owned(),
    }
}

/// Whether a status query reported success: only a boolean `true` does.
pub fn status_ok(status: Option<bool>) -> (r: bool)
    ensures
        r == (status == Some(true)),
{
    match status {
        Some(b) => b,
        None => false,
    }
}

/// Compiles a shader of the given kind from source text. On failure the error
/// carries the compiler's diagnostic, or a fixed message when the host gives
/// none; either way it is not empty.
pub fn compile_shader(context: &WebGlRenderingContext, shader_type: u32, source: &str) -> (r:
    Result<WebGlShader, String>)
    ensures
        r matches Err(m) ==> m@.len() > 0,
{
    let shader = match new_shader(context, shader_type) {
        Some(s) => s,
        None => {
            proof {
                reveal_strlit("Unable to create shader object");
            }
            return Err("Unable to create shader object".to_owned());
        },
    };
    set_shader_source(context, &shader, source);
    compile_source(context, &shader);
    let status = shader_compile_status(context, &shader);
    if status_ok(js_bool(&status)) {
        Ok(shader)
    } else {
        proof {
            reveal_strlit("Unknown error creating shader");
        }
        Err(diagnostic_text(shader_log(context, &shader), "Unknown error creating shader"))
    }
}

/// Links a program from a vertex and a fragment shader. On failure the error
/// carries the linker's diagnostic, or a fixed message when the host gives
/// none; either way it is not empty.
pub fn link_program(
    context: &WebGlRenderingContext,
    vert_shader: &WebGlShader,
    frag_shader: &WebGlShader,
) -> (r: Result<WebGlProgram, String>)
    ensures
        r matches Err(m) ==> m@.len() > 0,
{
    let program = match new_program(context) {
        Some(p) => p,
        None => {
            proof {
                reveal_strlit("Unable to create program object");
            }
            return Err("Unable to create program object".to_owned());
        },
    };
    attach(context, &program, vert_shader);
    attach(context, &program, frag_shader);
    link(context, &program);
    let status = program_link_status(context, &program);
    if status_ok(js_bool(&status)) {
        Ok(program)
    } else {
        proof {
            reveal_strlit("Unknown error creating program object");
        }
        Err(diagnostic_text(program_log(context, &program), "Unknown error creating program object"))
    }
}

} // verus!
