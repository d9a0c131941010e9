//! The GPU program builder's decisions.
//!
//! Compiling and linking happen in the GPU backend at the host boundary;
//! what this module owns is the decision logic: given what the backend
//! reported for a build step — whether an object could be allocated, the
//! boolean status query, and the info log — it decides between a usable
//! handle and a structured error, with the backend's diagnostic carried
//! verbatim (never synthesized, save the documented fallback text when the
//! backend yields no log at all).

use vstd::prelude::*;

verus! {

broadcast use vstd::string::group_string_axioms;

/// Kind tag of a shader source.
#[derive(Clone, Copy, PartialEq, Eq, Structural, Debug)]
pub enum ShaderKind {
    Vertex,
    Fragment,
}

/// An immutable shader source with its kind tag.
pub struct ShaderSource {
    pub kind: ShaderKind,
    pub text: &'static str,
}

/// Structured failure of a GPU program build. Allocation failure is kept
/// distinct from a failed compile or link, which carry the backend's
/// diagnostic text.
#[derive(Debug)]
pub enum ShaderError {
    ResourceCreationFailed,
    CompileFailed(String),
    LinkFailed(String),
}

/// What the GPU backend reported for one build step: the allocated object's
/// handle if any, the status query's boolean (absent when the query did not
/// yield a boolean), and the info log if the backend produced one.
pub struct BuildReport {
    pub created: Option<u32>,
    pub status_ok: Option<bool>,
    pub info_log: Option<String>,
}

/// An owned compiled-shader handle.
#[derive(Clone, Copy, PartialEq, Eq, Structural, Debug)]
pub struct CompiledShader {
    pub handle: u32,
    pub kind: ShaderKind,
}

/// A linked program: its handle, and the shader handles that were attached
/// before linking, in attachment order.
pub struct LinkedProgram {
    pub handle: u32,
    pub attached: Vec<u32>,
}

/// The build step succeeded: an object was allocated and the status query
/// came back `true`.
pub open spec fn report_ok(rep: BuildReport) -> bool {
    rep.created is Some && rep.status_ok == Some(true)
}

/// The diagnostic a failed step carries: the backend's info log when there
/// is one, else the given fallback text.
pub open spec fn diagnostic_of(info_log: Option<String>, fallback: Seq<char>) -> Seq<char> {
    match info_log {
        Some(l) => l@,
        None => fallback,
    }
}

/// Decides the outcome of compiling one shader from the backend's report.
///
/// No object allocated: `ResourceCreationFailed`. Object allocated but the
/// status query did not come back `true` (a missing boolean counts as
/// failure): `CompileFailed` with the backend's log, or the documented
/// fallback text when the backend gave none. Otherwise the compiled
/// shader's handle, tagged with its kind.
pub fn compile_shader(kind: ShaderKind, report: BuildReport) -> (r: Result<
    CompiledShader,
    ShaderError,
>)
    ensures
        report.created is None ==> r == Err::<CompiledShader, ShaderError>(
            ShaderError::ResourceCreationFailed,
        ),
        report.status_ok == Some(true) ==> (report.created matches Some(h) ==> r == Ok::<
            CompiledShader,
            ShaderError,
        >(CompiledShader { handle: h, kind })),
        report.created is Some && report.status_ok != Some(true) ==> (r matches Err(
            ShaderError::CompileFailed(log),
        ) && log@ == diagnostic_of(report.info_log, "Unknown error creating shader"@)),
{
    match report.created {
        None => Err(ShaderError::ResourceCreationFailed),
        Some(h) => {
            let ok: bool = match report.status_ok {
                Some(b) => b,
                None => false,
            };
            if ok {
                Ok(CompiledShader { handle: h, kind })
            } else {
                let log: String = match report.info_log {
                    Some(l) => l,
                    None => "Unknown error creating shader".to_string(),
                };
                Err(ShaderError::CompileFailed(log))
            }
        },
    }
}

/// Decides the outcome of linking a program from the backend's report.
///
/// The shaders are attached in the given order before linking, so the
/// returned program records their handles in exactly that order. No program
/// object: `ResourceCreationFailed`. Link status not `true`: `LinkFailed`
/// with the backend's log or the documented fallback. Otherwise the linked
/// program.
pub fn link_program(shaders: &Vec<CompiledShader>, report: BuildReport) -> (r: Result<
    LinkedProgram,
    ShaderError,
>)
    requires
        shaders@.len() > 0,
    ensures
        report.created is None ==> r == Err::<LinkedProgram, ShaderError>(
            ShaderError::ResourceCreationFailed,
        ),
        report.status_ok == Some(true) ==> (report.created matches Some(h) ==> (r matches Ok(p)
            && p.handle == h && p.attached@ == shaders@.map_values(
            |cs: CompiledShader| cs.handle,
        ))),
        report.created is Some && report.status_ok != Some(true) ==> (r matches Err(
            ShaderError::LinkFailed(log),
        ) && log@ == diagnostic_of(report.info_log, "Unknown error creating program object"@)),
{
    match report.created {
        None => Err(ShaderError::ResourceCreationFailed),
        Some(h) => {
            let ok: bool = match report.status_ok {
                Some(b) => b,
                None => false,
            };
            if ok {
                let mut attached: Vec<u32> = Vec::new();
                let mut i: usize = 0;
                let count: usize = shaders.len();
                while i < count
                    invariant
                        i <= count,
                        count == shaders@.len(),
                        attached@.len() == i,
                        forall|j: int| 0 <= j < i ==> attached@[j] == shaders@[j].handle,
                    decreases count - i,
                {
                    attached.push(shaders[i].handle);
                    i = i + 1;
                }
                proof {
                    assert(attached@ =~= shaders@.map_values(|cs: CompiledShader| cs.handle));
                }
                Ok(LinkedProgram { handle: h, attached })
            } else {
                let log: String = match report.info_log {
                    Some(l) => l,
                    None => "Unknown error creating program object".to_string(),
                };
                Err(ShaderError::LinkFailed(log))
            }
        },
    }
}

/// The built-in vertex shader: forwards position and hands the color on.
pub fn vertex_shader_source() -> (s: ShaderSource)
    ensures
        s.kind == ShaderKind::Vertex,
{
    ShaderSource {
        kind: ShaderKind::Vertex,
        text: "
            precision mediump float;

            attribute vec2 a_position;
            attribute vec3 a_color;

            varying vec3 v_color;

            void main() {
                v_color = a_color;
                gl_Position = vec4(a_position, 0.0, 1.0);
            }
        ",
    }
}

/// The built-in fragment shader: paints the interpolated color.
pub fn fragment_shader_source() -> (s: ShaderSource)
    ensures
        s.kind == ShaderKind::Fragment,
{
    ShaderSource {
        kind: ShaderKind::Fragment,
        text: "
            precision mediump float;

            varying vec3 v_color;

            void main() {
                gl_FragColor = vec4(v_color, 1.0);
            }
        ",
    }
}

} // verus!
