use block_lighting::editor::{EditMode, Editor, Event};
use block_lighting::render::{GlCommand, RenderState};
use block_lighting::shader::BuildReport;

fn ok_report(handle: u32) -> BuildReport {
    BuildReport { created: Some(handle), status_ok: Some(true), info_log: None }
}

fn initialized(width: u32, height: u32) -> RenderState {
    RenderState::initialize(width, height, ok_report(1), ok_report(2), ok_report(9)).unwrap()
}

#[test]
fn initialize_sets_the_full_surface_viewport() {
    let state = initialized(300, 150);
    assert_eq!(state.viewport_rect(), (0, 0, 300, 150));
    assert_eq!(state.program.handle, 9);
    assert_eq!(state.program.attached, vec![1, 2]);
}

#[test]
fn initialize_fails_fast_on_the_first_bad_stage() {
    let bad = BuildReport {
        created: Some(1),
        status_ok: Some(false),
        info_log: Some("ERROR: bad vertex shader".to_string()),
    };
    let r = RenderState::initialize(300, 150, bad, ok_report(2), ok_report(9));
    match r {
        Err(block_lighting::shader::ShaderError::CompileFailed(log)) => {
            assert_eq!(log, "ERROR: bad vertex shader");
        }
        _ => panic!("expected the vertex compile failure"),
    }
}

#[test]
fn empty_scene_draws_no_vertices() {
    let state = initialized(300, 150);
    let ed = Editor::for_surface(300, 150);
    let (data, cmds) = state.draw(&ed.scene);
    assert!(data.is_empty());
    let expected: Vec<GlCommand> = vec![
        GlCommand::ClearColorAndDepth,
        GlCommand::UploadVertexBuffer,
        GlCommand::VertexAttribPointer { index: 0, size: 2, stride: 5, offset: 0 },
        GlCommand::EnableVertexAttribArray { index: 0 },
        GlCommand::VertexAttribPointer { index: 1, size: 3, stride: 5, offset: 2 },
        GlCommand::EnableVertexAttribArray { index: 1 },
        GlCommand::SetClearColor { red: 0, green: 0, blue: 0, alpha: 16384 },
        GlCommand::ClearColorOnly,
        GlCommand::DrawTriangles { vertex_count: 0 },
    ];
    assert_eq!(cmds, expected);
}

#[test]
fn one_block_draws_one_quad() {
    let state = initialized(300, 150);
    let mut ed = Editor::for_surface(300, 150);
    ed.dispatch(Event::MouseMove { x: 0, y: 0, held: true });
    let (data, cmds) = state.draw(&ed.scene);

    // Cell (0, 0) covers pixels 0..16 in both axes. In fixed-point clip
    // units (16384 per 1.0): x0 = -16384, x1 = 32768 * 16 / 300 - 16384,
    // y0 = 16384, y1 = 16384 - 32768 * 16 / 150, gray color channels.
    let x0: i32 = -16384;
    let x1: i32 = 524288 / 300 - 16384;
    let y0: i32 = 16384;
    let y1: i32 = 16384 - 524288 / 150;
    let g: i32 = 8192;
    let expected: Vec<i32> = vec![
        x0, y0, g, g, g,
        x1, y0, g, g, g,
        x1, y1, g, g, g,
        x0, y0, g, g, g,
        x1, y1, g, g, g,
        x0, y1, g, g, g,
    ];
    assert_eq!(data, expected);
    assert_eq!(cmds[8], GlCommand::DrawTriangles { vertex_count: 6 });
}

#[test]
fn entity_kinds_draw_distinct_colors() {
    let state = initialized(320, 160);
    let mut ed = Editor::for_surface(320, 160);
    ed.dispatch(Event::SelectMode(EditMode::LightBlock));
    ed.dispatch(Event::MouseMove { x: 0, y: 0, held: true });
    let (light, _) = state.draw(&ed.scene);
    ed.dispatch(Event::SelectMode(EditMode::PointLight));
    ed.dispatch(Event::MouseMove { x: 0, y: 0, held: true });
    let (point, _) = state.draw(&ed.scene);
    // Light block: yellow; point light: white.
    assert_eq!(&light[2..5], &[16384, 16384, 4096]);
    assert_eq!(&point[2..5], &[16384, 16384, 16384]);
}

#[test]
fn scenario_full_session() {
    // Initialize with a 300 by 150 surface, select solid-block mode, set
    // the angle from the raw control value "50", then reset.
    let state = initialized(300, 150);
    assert_eq!(state.viewport_rect(), (0, 0, 300, 150));

    let mut ed = Editor::for_surface(300, 150);
    ed.dispatch(Event::SelectMode(EditMode::SolidBlock));
    assert_eq!(ed.mode, EditMode::SolidBlock);

    ed.dispatch(Event::AngleChange(b"50".to_vec()));
    assert_eq!(ed.params.angle_e8, 50_000_000);

    ed.dispatch(Event::MouseMove { x: 100, y: 100, held: true });
    ed.dispatch(Event::Reset);
    assert_eq!(ed.params.angle_e8, 0);
    assert_eq!(ed.scene.get(6, 6), None);
    let (data, _) = state.draw(&ed.scene);
    assert!(data.is_empty());
}
