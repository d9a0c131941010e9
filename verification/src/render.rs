//! The frame renderer.
//!
//! The renderer owns the surface size and the bound program, and derives
//! one frame's worth of GPU work from the current scene: an interleaved
//! vertex buffer (position then color, five components per vertex, two
//! triangles per occupied cell) and the fixed command sequence that clears,
//! uploads, lays out the two vertex attributes and issues the triangle
//! draw. The host boundary performs the commands against the real context;
//! deriving them is pure, so a frame whose upload fails draws nothing but
//! perturbs no state.
//!
//! Geometry and colors use exact fixed-point components: `CLIP_ONE` units
//! represent 1.0, in clip coordinates and in color channels alike. The
//! host divides by `CLIP_ONE` on the way into the float-typed GL calls.

use vstd::prelude::*;

use crate::CELL_SIZE;
use crate::scene::{Entity, SceneModel, SceneView};
use crate::shader::{
    BuildReport, CompiledShader, ShaderError, ShaderKind, compile_shader, diagnostic_of,
    link_program, report_ok,
};

verus! {

/// Fixed-point scale: this many units represent 1.0.
pub const CLIP_ONE: i32 = 16384;

/// One GPU operation of a frame, in order. `UploadVertexBuffer` stands for
/// binding the frame's buffer object and uploading the vertex data as a
/// static-draw array buffer; stride and offset are counted in components
/// (the host multiplies by the 4-byte component size).
#[derive(Clone, Copy, PartialEq, Eq, Structural, Debug)]
pub enum GlCommand {
    ClearColorAndDepth,
    UploadVertexBuffer,
    VertexAttribPointer { index: u32, size: u32, stride: u32, offset: u32 },
    EnableVertexAttribArray { index: u32 },
    SetClearColor { red: i32, green: i32, blue: i32, alpha: i32 },
    ClearColorOnly,
    DrawTriangles { vertex_count: u32 },
}

/// Red channel of an entity's block color (solid: gray, light block:
/// yellow, point light: white).
pub open spec fn entity_red(e: Entity) -> int {
    match e {
        Entity::SolidBlock => 8192,
        Entity::LightBlock => 16384,
        Entity::PointLight => 16384,
    }
}

/// Green channel of an entity's block color.
pub open spec fn entity_green(e: Entity) -> int {
    match e {
        Entity::SolidBlock => 8192,
        Entity::LightBlock => 16384,
        Entity::PointLight => 16384,
    }
}

/// Blue channel of an entity's block color.
pub open spec fn entity_blue(e: Entity) -> int {
    match e {
        Entity::SolidBlock => 8192,
        Entity::LightBlock => 4096,
        Entity::PointLight => 16384,
    }
}

/// Horizontal clip coordinate of pixel column `px` on a surface `w` wide.
pub open spec fn clip_x(px: int, w: int) -> int {
    2 * (CLIP_ONE as int) * px / w - CLIP_ONE as int
}

/// Vertical clip coordinate of pixel row `py` on a surface `h` high
/// (canvas y grows downward, clip y upward).
pub open spec fn clip_y(py: int, h: int) -> int {
    CLIP_ONE as int - 2 * (CLIP_ONE as int) * py / h
}

/// The 30 components (6 vertices of 2 position + 3 color components) of
/// the quad covering grid slot `slot`, as two triangles.
pub open spec fn cell_vertex_data(slot: int, e: Entity, cols: int, w: int, h: int) -> Seq<i32> {
    let x = slot % cols;
    let y = slot / cols;
    let x0 = clip_x(x * (CELL_SIZE as int), w) as i32;
    let x1 = clip_x((x + 1) * (CELL_SIZE as int), w) as i32;
    let y0 = clip_y(y * (CELL_SIZE as int), h) as i32;
    let y1 = clip_y((y + 1) * (CELL_SIZE as int), h) as i32;
    let red = entity_red(e) as i32;
    let green = entity_green(e) as i32;
    let blue = entity_blue(e) as i32;
    seq![
        x0, y0, red, green, blue,
        x1, y0, red, green, blue,
        x1, y1, red, green, blue,
        x0, y0, red, green, blue,
        x1, y1, red, green, blue,
        x0, y1, red, green, blue,
    ]
}

/// Vertex components contributed by the first `n` grid slots, in slot
/// order; empty slots contribute nothing.
pub open spec fn vertex_data_upto(
    g: Seq<Option<Entity>>,
    n: int,
    cols: int,
    w: int,
    h: int,
) -> Seq<i32>
    decreases n,
{
    if n <= 0 {
        Seq::empty()
    } else {
        vertex_data_upto(g, n - 1, cols, w, h) + match g[n - 1] {
            Some(e) => cell_vertex_data(n - 1, e, cols, w, h),
            None => Seq::empty(),
        }
    }
}

/// The whole scene's interleaved vertex buffer on a `w` by `h` surface.
pub open spec fn scene_vertex_data(s: SceneView, w: int, h: int) -> Seq<i32> {
    vertex_data_upto(s.grid, s.grid.len() as int, s.cols, w, h)
}

/// The fixed per-frame command sequence around a vertex buffer of
/// `component_count` components: clear, upload, attribute 0 = position
/// (2 components), attribute 1 = color (3 components), tightly interleaved
/// with stride 5, then an opaque black clear color and the triangle draw
/// covering every vertex.
pub open spec fn frame_commands(component_count: int) -> Seq<GlCommand> {
    seq![
        GlCommand::ClearColorAndDepth,
        GlCommand::UploadVertexBuffer,
        GlCommand::VertexAttribPointer { index: 0, size: 2, stride: 5, offset: 0 },
        GlCommand::EnableVertexAttribArray { index: 0 },
        GlCommand::VertexAttribPointer { index: 1, size: 3, stride: 5, offset: 2 },
        GlCommand::EnableVertexAttribArray { index: 1 },
        GlCommand::SetClearColor { red: 0, green: 0, blue: 0, alpha: CLIP_ONE },
        GlCommand::ClearColorOnly,
        GlCommand::DrawTriangles { vertex_count: (component_count / 5) as u32 },
    ]
}

/// Computes `clip_x` on machine integers.
fn clip_x_px(px: u32, w: u32) -> (r: i32)
    requires
        0 < w <= 16384,
        px <= w,
    ensures
        r as int == clip_x(px as int, w as int),
{
    proof {
        assert(2 * (CLIP_ONE as int) * px as int <= 2 * (CLIP_ONE as int) * w as int)
            by (nonlinear_arith)
            requires
                px <= w,
        ;
        vstd::arithmetic::div_mod::lemma_div_is_ordered(
            2 * (CLIP_ONE as int) * px as int,
            2 * (CLIP_ONE as int) * w as int,
            w as int,
        );
        vstd::arithmetic::div_mod::lemma_div_multiples_vanish(
            2 * (CLIP_ONE as int),
            w as int,
        );
        vstd::arithmetic::div_mod::lemma_div_pos_is_pos(
            2 * (CLIP_ONE as int) * px as int,
            w as int,
        );
    }
    let q: u32 = (32768u32 * px) / w;
    (q as i32) - CLIP_ONE
}

/// Computes `clip_y` on machine integers.
fn clip_y_px(py: u32, h: u32) -> (r: i32)
    requires
        0 < h <= 16384,
        py <= h,
    ensures
        r as int == clip_y(py as int, h as int),
{
    proof {
        assert(2 * (CLIP_ONE as int) * py as int <= 2 * (CLIP_ONE as int) * h as int)
            by (nonlinear_arith)
            requires
                py <= h,
        ;
        vstd::arithmetic::div_mod::lemma_div_is_ordered(
            2 * (CLIP_ONE as int) * py as int,
            2 * (CLIP_ONE as int) * h as int,
            h as int,
        );
        vstd::arithmetic::div_mod::lemma_div_multiples_vanish(
            2 * (CLIP_ONE as int),
            h as int,
        );
        vstd::arithmetic::div_mod::lemma_div_pos_is_pos(
            2 * (CLIP_ONE as int) * py as int,
            h as int,
        );
    }
    let q: u32 = (32768u32 * py) / h;
    CLIP_ONE - (q as i32)
}

/// The fixed-point color triple of an entity.
fn entity_color(e: Entity) -> (c: (i32, i32, i32))
    ensures
        c.0 == entity_red(e),
        c.1 == entity_green(e),
        c.2 == entity_blue(e),
{
    match e {
        Entity::SolidBlock => (8192, 8192, 8192),
        Entity::LightBlock => (16384, 16384, 4096),
        Entity::PointLight => (16384, 16384, 16384),
    }
}

/// Appends one vertex: position then color.
fn push_vertex(data: &mut Vec<i32>, x: i32, y: i32, red: i32, green: i32, blue: i32)
    ensures
        final(data)@ == old(data)@ + seq![x, y, red, green, blue],
{
    data.push(x);
    data.push(y);
    data.push(red);
    data.push(green);
    data.push(blue);
    proof {
        assert(data@ =~= old(data)@ + seq![x, y, red, green, blue]);
    }
}

/// Appends the quad of one occupied grid slot.
fn push_cell_vertices(
    data: &mut Vec<i32>,
    slot: usize,
    e: Entity,
    cols: usize,
    w: u32,
    h: u32,
    rows: Ghost<int>,
)
    requires
        0 < w <= 16384,
        0 < h <= 16384,
        0 < cols,
        0 <= rows@,
        slot < cols * rows@,
        cols * (CELL_SIZE as int) <= w,
        rows@ * (CELL_SIZE as int) <= h,
    ensures
        final(data)@ == old(data)@ + cell_vertex_data(slot as int, e, cols as int, w as int, h as int),
{
    let ghost rows: int = rows@;
    let x: usize = slot % cols;
    let y: usize = slot / cols;
    proof {
        vstd::arithmetic::div_mod::lemma_mod_bound(slot as int, cols as int);
        vstd::arithmetic::div_mod::lemma_multiply_divide_lt(slot as int, cols as int, rows);
        vstd::arithmetic::div_mod::lemma_div_pos_is_pos(slot as int, cols as int);
        assert((x + 1) * (CELL_SIZE as int) <= cols as int * (CELL_SIZE as int))
            by (nonlinear_arith)
            requires
                x as int + 1 <= cols as int,
        ;
        assert((y + 1) * (CELL_SIZE as int) <= rows * (CELL_SIZE as int)) by (nonlinear_arith)
            requires
                y as int + 1 <= rows,
        ;
    }
    let px0: u32 = (x as u32) * CELL_SIZE;
    let px1: u32 = px0 + CELL_SIZE;
    let py0: u32 = (y as u32) * CELL_SIZE;
    let py1: u32 = py0 + CELL_SIZE;
    proof {
        assert(px0 as int == x as int * (CELL_SIZE as int));
        assert(py0 as int == y as int * (CELL_SIZE as int));
    }
    let x0: i32 = clip_x_px(px0, w);
    let x1: i32 = clip_x_px(px1, w);
    let y0: i32 = clip_y_px(py0, h);
    let y1: i32 = clip_y_px(py1, h);
    let (red, green, blue) = entity_color(e);
    push_vertex(data, x0, y0, red, green, blue);
    push_vertex(data, x1, y0, red, green, blue);
    push_vertex(data, x1, y1, red, green, blue);
    push_vertex(data, x0, y0, red, green, blue);
    push_vertex(data, x1, y1, red, green, blue);
    push_vertex(data, x0, y1, red, green, blue);
    proof {
        assert(data@ =~= old(data)@ + cell_vertex_data(
            slot as int,
            e,
            cols as int,
            w as int,
            h as int,
        ));
    }
}

/// The live rendering resource: surface size and the bound program.
pub struct RenderState {
    pub width: u32,
    pub height: u32,
    pub program: crate::shader::LinkedProgram,
}

impl RenderState {
    /// The surface is nonempty and small enough that all derived geometry
    /// fits its machine types.
    pub open spec fn wf(&self) -> bool {
        &&& 0 < self.width <= 16384
        &&& 0 < self.height <= 16384
    }

    /// The viewport covers the full surface from the origin.
    pub open spec fn viewport(&self) -> (int, int, int, int) {
        (0, 0, self.width as int, self.height as int)
    }

    /// The viewport rectangle handed to the backend at initialization.
    pub fn viewport_rect(&self) -> (r: (i32, i32, i32, i32))
        requires
            self.wf(),
        ensures
            r.0 == 0,
            r.1 == 0,
            r.2 == self.width as int,
            r.3 == self.height as int,
    {
        (0, 0, self.width as i32, self.height as i32)
    }

    /// Builds the render state from the backend's three build reports,
    /// failing fast: the first failed stage's error is returned and no
    /// partial state is handed out. On success the viewport covers the
    /// full surface and the program holds the vertex then the fragment
    /// shader, attached in that order.
    pub fn initialize(
        width: u32,
        height: u32,
        vert_report: BuildReport,
        frag_report: BuildReport,
        link_report: BuildReport,
    ) -> (r: Result<RenderState, ShaderError>)
        requires
            0 < width <= 16384,
            0 < height <= 16384,
        ensures
            vert_report.created is None ==> r == Err::<RenderState, ShaderError>(
                ShaderError::ResourceCreationFailed,
            ),
            vert_report.created is Some && vert_report.status_ok != Some(true) ==> (r matches Err(
                ShaderError::CompileFailed(log),
            ) && log@ == diagnostic_of(vert_report.info_log, "Unknown error creating shader"@)),
            report_ok(vert_report) && frag_report.created is None ==> r == Err::<
                RenderState,
                ShaderError,
            >(ShaderError::ResourceCreationFailed),
            report_ok(vert_report) && frag_report.created is Some && frag_report.status_ok != Some(
                true,
            ) ==> (r matches Err(ShaderError::CompileFailed(log)) && log@ == diagnostic_of(
                frag_report.info_log,
                "Unknown error creating shader"@,
            )),
            report_ok(vert_report) && report_ok(frag_report) && link_report.created is None ==> r
                == Err::<RenderState, ShaderError>(ShaderError::ResourceCreationFailed),
            report_ok(vert_report) && report_ok(frag_report) && link_report.created is Some
                && link_report.status_ok != Some(true) ==> (r matches Err(
                ShaderError::LinkFailed(log),
            ) && log@ == diagnostic_of(
                link_report.info_log,
                "Unknown error creating program object"@,
            )),
            report_ok(vert_report) && report_ok(frag_report) && report_ok(link_report) ==> (
            r matches Ok(st) && st.wf() && st.width == width && st.height == height
                && st.viewport() == (0int, 0int, width as int, height as int)
                && st.program.attached@.len() == 2 && (link_report.created matches Some(ph)
                ==> st.program.handle == ph) && (vert_report.created matches Some(vh)
                ==> st.program.attached@[0] == vh) && (frag_report.created matches Some(fh)
                ==> st.program.attached@[1] == fh)),
    {
        let vert: CompiledShader = match compile_shader(ShaderKind::Vertex, vert_report) {
            Ok(s) => s,
            Err(e) => { return Err(e) },
        };
        let frag: CompiledShader = match compile_shader(ShaderKind::Fragment, frag_report) {
            Ok(s) => s,
            Err(e) => { return Err(e) },
        };
        let mut shaders: Vec<CompiledShader> = Vec::new();
        shaders.push(vert);
        shaders.push(frag);
        let program = match link_program(&shaders, link_report) {
            Ok(p) => p,
            Err(e) => { return Err(e) },
        };
        Ok(RenderState { width, height, program })
    }

    /// Derives one frame: the scene's vertex buffer and the command
    /// sequence that clears, uploads, lays out the attributes and draws.
    /// Reading state and scene only, it is idempotent and side-effect
    /// free; the host performs the commands.
    pub fn draw(&self, scene: &SceneModel) -> (frame: (Vec<i32>, Vec<GlCommand>))
        requires
            self.wf(),
            scene.wf(),
            scene@.cols * (CELL_SIZE as int) <= self.width as int,
            scene@.rows * (CELL_SIZE as int) <= self.height as int,
        ensures
            frame.0@ == scene_vertex_data(scene@, self.width as int, self.height as int),
            frame.1@ == frame_commands(frame.0@.len() as int),
    {
        let total: usize = scene.grid_len();
        let mut data: Vec<i32> = Vec::new();
        let mut slot: usize = 0;
        while slot < total
            invariant
                slot <= total,
                total == scene@.grid.len(),
                self.wf(),
                scene.wf(),
                scene@.cols * (CELL_SIZE as int) <= self.width as int,
                scene@.rows * (CELL_SIZE as int) <= self.height as int,
                data@ == vertex_data_upto(
                    scene@.grid,
                    slot as int,
                    scene@.cols,
                    self.width as int,
                    self.height as int,
                ),
                data@.len() <= 30 * slot,
            decreases total - slot,
        {
            match scene.entity_at_slot(slot) {
                Some(e) => {
                    proof {
                        assert(scene@.cols > 0) by (nonlinear_arith)
                            requires
                                0 <= scene@.cols,
                                0 <= scene@.rows,
                                slot < scene@.cols * scene@.rows,
                        ;
                    }
                    let cols: usize = scene.cols();
                    push_cell_vertices(
                        &mut data,
                        slot,
                        e,
                        cols,
                        self.width,
                        self.height,
                        Ghost(scene@.rows),
                    );
                },
                None => {},
            }
            proof {
                assert(data@ =~= vertex_data_upto(
                    scene@.grid,
                    slot + 1,
                    scene@.cols,
                    self.width as int,
                    self.height as int,
                ));
            }
            slot = slot + 1;
        }
        proof {
            assert(total <= 4096 * 4096) by (nonlinear_arith)
                requires
                    total == scene@.cols * scene@.rows,
                    0 <= scene@.cols <= 4096,
                    0 <= scene@.rows <= 4096,
            ;
        }
        let component_count: usize = data.len();
        let vertex_count: u32 = (component_count / 5) as u32;
        let mut cmds: Vec<GlCommand> = Vec::new();
        cmds.push(GlCommand::ClearColorAndDepth);
        cmds.push(GlCommand::UploadVertexBuffer);
        cmds.push(GlCommand::VertexAttribPointer { index: 0, size: 2, stride: 5, offset: 0 });
        cmds.push(GlCommand::EnableVertexAttribArray { index: 0 });
        cmds.push(GlCommand::VertexAttribPointer { index: 1, size: 3, stride: 5, offset: 2 });
        cmds.push(GlCommand::EnableVertexAttribArray { index: 1 });
        cmds.push(GlCommand::SetClearColor { red: 0, green: 0, blue: 0, alpha: CLIP_ONE });
        cmds.push(GlCommand::ClearColorOnly);
        cmds.push(GlCommand::DrawTriangles { vertex_count });
        proof {
            assert(cmds@ =~= frame_commands(data@.len() as int));
        }
        (data, cmds)
    }
}

} // verus!
