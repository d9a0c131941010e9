//! The interaction state machine.
//!
//! The editor tracks two independent axes — the active edit mode and the
//! tunable parameters — plus the scene model that edit actions mutate. Every
//! external event is routed through [`Editor::dispatch`], whose effect is
//! pinned down exactly by the spec-level transition function
//! [`editor_step`]; the laws at the end of this module are stated and proved
//! over that function.
//!
//! Parameters are exact fixed-point numbers: a raw control value parses to
//! micros (millionths) of the raw number, and the raw number is divided by
//! 100 to land in the unit interval. Storing the parameter in
//! hundred-millionths of the unit interval therefore makes the stored field
//! numerically equal to the parsed micros value, and the normalization is
//! exact.

use vstd::prelude::*;

use crate::CELL_SIZE;
use crate::control::{parse_control, parse_control_micros};
use crate::scene::{
    Entity, SceneModel, SceneView, cell_in_bounds, cell_index, grid_empty,
    lemma_cell_index_in_range, lemma_cell_index_injective, scene_advanced, scene_cleared,
    scene_place, scene_remove, scene_reset,
};

verus! {

/// The currently active tool. Exactly one is active at a time.
#[derive(Clone, Copy, PartialEq, Eq, Structural, Debug)]
pub enum EditMode {
    SolidBlock,
    LightBlock,
    PointLight,
    Erase,
}

/// The two tunable scalar controls, in hundred-millionths of the unit
/// interval (so a stored value of 50_000_000 reads as 0.5).
#[derive(Clone, Copy, PartialEq, Eq, Structural, Debug)]
pub struct Parameters {
    pub angle_e8: i64,
    pub pointiness_e8: i64,
}

/// The documented initial parameter values: both controls at zero.
pub open spec fn default_parameters() -> Parameters {
    Parameters { angle_e8: 0, pointiness_e8: 0 }
}

/// Builds the initial parameter values.
pub fn initial_parameters() -> (p: Parameters)
    ensures
        p == default_parameters(),
{
    Parameters { angle_e8: 0, pointiness_e8: 0 }
}

/// One external event, as the host boundary delivers it: pointer movement
/// with canvas-local pixel coordinates and the button state, the four
/// mode selections, the two control-value changes carrying the raw input
/// bytes, and the three payload-free actions.
pub enum Event {
    MouseMove { x: u32, y: u32, held: bool },
    SelectMode(EditMode),
    AngleChange(Vec<u8>),
    PointinessChange(Vec<u8>),
    Clear,
    Advance,
    Reset,
}

/// Mathematical model of the whole editor state.
pub struct EditorView {
    pub mode: EditMode,
    pub params: Parameters,
    pub scene: SceneView,
}

/// The exact effect of dispatching one event on the editor state.
///
/// Pointer movement paints (or erases) the targeted cell only while a
/// button is held and the cell lies on the grid; a mode selection replaces
/// the mode unconditionally; a control change replaces its parameter
/// exactly when the raw value parses, and is ignored otherwise; clear
/// empties the scene, advance requests one simulation step, and reset
/// restores parameters and scene to their initial state. Nothing else
/// changes in any case.
pub open spec fn editor_step(v: EditorView, ev: Event) -> EditorView {
    match ev {
        Event::MouseMove { x, y, held } => {
            let cx = x as int / (CELL_SIZE as int);
            let cy = y as int / (CELL_SIZE as int);
            if held && cell_in_bounds(v.scene, cx, cy) {
                match v.mode {
                    EditMode::SolidBlock => EditorView {
                        scene: scene_place(v.scene, cx, cy, Entity::SolidBlock),
                        ..v
                    },
                    EditMode::LightBlock => EditorView {
                        scene: scene_place(v.scene, cx, cy, Entity::LightBlock),
                        ..v
                    },
                    EditMode::PointLight => EditorView {
                        scene: scene_place(v.scene, cx, cy, Entity::PointLight),
                        ..v
                    },
                    EditMode::Erase => EditorView { scene: scene_remove(v.scene, cx, cy), ..v },
                }
            } else {
                v
            }
        },
        Event::SelectMode(m) => EditorView { mode: m, ..v },
        Event::AngleChange(s) => match parse_control(s@) {
            Some(val) => EditorView {
                params: Parameters { angle_e8: val, ..v.params },
                ..v
            },
            None => v,
        },
        Event::PointinessChange(s) => match parse_control(s@) {
            Some(val) => EditorView {
                params: Parameters { pointiness_e8: val, ..v.params },
                ..v
            },
            None => v,
        },
        Event::Clear => EditorView { scene: scene_cleared(v.scene), ..v },
        Event::Advance => EditorView { scene: scene_advanced(v.scene), ..v },
        Event::Reset => EditorView {
            params: default_parameters(),
            scene: scene_reset(v.scene),
            ..v
        },
    }
}

/// The interaction state machine: mode, parameters, and the scene model.
pub struct Editor {
    pub mode: EditMode,
    pub params: Parameters,
    pub scene: SceneModel,
}

impl View for Editor {
    type V = EditorView;

    open spec fn view(&self) -> EditorView {
        EditorView { mode: self.mode, params: self.params, scene: self.scene@ }
    }
}

impl Editor {
    /// The scene model underneath is well formed.
    pub open spec fn wf(&self) -> bool {
        self.scene.wf()
    }

    /// Builds the editor over an empty scene of the given dimensions, in
    /// the documented initial state: solid-block mode, both parameters
    /// zero.
    pub fn new(cols: usize, rows: usize) -> (ed: Editor)
        requires
            cols <= 4096,
            rows <= 4096,
        ensures
            ed.wf(),
            ed@.mode == EditMode::SolidBlock,
            ed@.params == default_parameters(),
            ed@.scene.cols == cols,
            ed@.scene.rows == rows,
            ed@.scene.steps == 0,
            grid_empty(ed@.scene.grid),
    {
        Editor {
            mode: EditMode::SolidBlock,
            params: initial_parameters(),
            scene: SceneModel::new(cols, rows),
        }
    }

    /// Builds the editor for a rendering surface of the given pixel size:
    /// the grid gets one cell per full `CELL_SIZE`-pixel square of the
    /// surface, so every cell lies wholly on the canvas.
    pub fn for_surface(width: u32, height: u32) -> (ed: Editor)
        requires
            0 < width <= 16384,
            0 < height <= 16384,
        ensures
            ed.wf(),
            ed@.mode == EditMode::SolidBlock,
            ed@.params == default_parameters(),
            ed@.scene.cols == width as int / (CELL_SIZE as int),
            ed@.scene.rows == height as int / (CELL_SIZE as int),
            ed@.scene.cols * (CELL_SIZE as int) <= width,
            ed@.scene.rows * (CELL_SIZE as int) <= height,
            ed@.scene.steps == 0,
            grid_empty(ed@.scene.grid),
    {
        let cols: usize = (width / CELL_SIZE) as usize;
        let rows: usize = (height / CELL_SIZE) as usize;
        proof {
            vstd::arithmetic::div_mod::lemma_div_is_ordered(
                width as int,
                16384,
                CELL_SIZE as int,
            );
            vstd::arithmetic::div_mod::lemma_div_is_ordered(
                height as int,
                16384,
                CELL_SIZE as int,
            );
            vstd::arithmetic::div_mod::lemma_fundamental_div_mod(
                width as int,
                CELL_SIZE as int,
            );
            vstd::arithmetic::div_mod::lemma_mod_bound(width as int, CELL_SIZE as int);
            vstd::arithmetic::div_mod::lemma_fundamental_div_mod(
                height as int,
                CELL_SIZE as int,
            );
            vstd::arithmetic::div_mod::lemma_mod_bound(height as int, CELL_SIZE as int);
        }
        Editor::new(cols, rows)
    }

    /// Routes one external event into the state machine.
    pub fn dispatch(&mut self, ev: Event)
        requires
            old(self).wf(),
            ev matches Event::Advance ==> old(self)@.scene.steps < u64::MAX,
        ensures
            final(self).wf(),
            final(self)@ == editor_step(old(self)@, ev),
    {
        match ev {
            Event::MouseMove { x, y, held } => {
                if held {
                    let cx: usize = (x / CELL_SIZE) as usize;
                    let cy: usize = (y / CELL_SIZE) as usize;
                    if cx < self.scene.cols() && cy < self.scene.rows() {
                        match self.mode {
                            EditMode::SolidBlock => self.scene.place(cx, cy, Entity::SolidBlock),
                            EditMode::LightBlock => self.scene.place(cx, cy, Entity::LightBlock),
                            EditMode::PointLight => self.scene.place(cx, cy, Entity::PointLight),
                            EditMode::Erase => self.scene.remove(cx, cy),
                        }
                    }
                }
            },
            Event::SelectMode(m) => {
                self.mode = m;
            },
            Event::AngleChange(s) => {
                match parse_control_micros(&s) {
                    Some(val) => {
                        self.params.angle_e8 = val;
                    },
                    None => {},
                }
            },
            Event::PointinessChange(s) => {
                match parse_control_micros(&s) {
                    Some(val) => {
                        self.params.pointiness_e8 = val;
                    },
                    None => {},
                }
            },
            Event::Clear => {
                self.scene.clear();
            },
            Event::Advance => {
                self.scene.advance_step();
            },
            Event::Reset => {
                self.scene.reset();
                self.params = initial_parameters();
            },
        }
    }
}

/// Selecting a mode sets exactly the selected variant, for each of the four
/// variants, and changes neither the parameters nor the scene.
pub proof fn lemma_mode_select_exact(v: EditorView, m: EditMode)
    ensures
        editor_step(v, Event::SelectMode(m)).mode == m,
        editor_step(v, Event::SelectMode(m)).params == v.params,
        editor_step(v, Event::SelectMode(m)).scene == v.scene,
{
}

/// A parseable control value sets the angle to the parsed raw value over
/// 100 (stored exactly, in hundred-millionths of the unit interval) and
/// touches nothing else; a malformed value changes nothing at all.
pub proof fn lemma_angle_change_exact(v: EditorView, s: Vec<u8>)
    ensures
        parse_control(s@) matches Some(val) ==> editor_step(v, Event::AngleChange(s)) == (
        EditorView { params: Parameters { angle_e8: val, ..v.params }, ..v }),
        parse_control(s@) is None ==> editor_step(v, Event::AngleChange(s)) == v,
{
}

/// The pointiness control obeys the same contract as the angle control,
/// on its own independent field.
pub proof fn lemma_pointiness_change_exact(v: EditorView, s: Vec<u8>)
    ensures
        parse_control(s@) matches Some(val) ==> editor_step(v, Event::PointinessChange(s)) == (
        EditorView { params: Parameters { pointiness_e8: val, ..v.params }, ..v }),
        parse_control(s@) is None ==> editor_step(v, Event::PointinessChange(s)) == v,
{
}

/// A held pointer stroke edits exactly the targeted cell: when the cell
/// under the pointer lies on the grid it takes the active mode's effect
/// (the mode's entity, or emptiness under erase), and every other cell
/// keeps its contents.
pub proof fn lemma_pointer_edits_only_the_target(v: EditorView, x: u32, y: u32, ox: int, oy: int)
    requires
        v.scene.grid.len() == v.scene.cols * v.scene.rows,
        cell_in_bounds(v.scene, ox, oy),
        (ox, oy) != (x as int / (CELL_SIZE as int), y as int / (CELL_SIZE as int)),
    ensures
        editor_step(v, Event::MouseMove { x, y, held: true }).scene.grid[cell_index(
            v.scene,
            ox,
            oy,
        )] == v.scene.grid[cell_index(v.scene, ox, oy)],
        cell_in_bounds(
            v.scene,
            x as int / (CELL_SIZE as int),
            y as int / (CELL_SIZE as int),
        ) ==> editor_step(v, Event::MouseMove { x, y, held: true }).scene.grid[cell_index(
            v.scene,
            x as int / (CELL_SIZE as int),
            y as int / (CELL_SIZE as int),
        )] == (match v.mode {
            EditMode::SolidBlock => Some(Entity::SolidBlock),
            EditMode::LightBlock => Some(Entity::LightBlock),
            EditMode::PointLight => Some(Entity::PointLight),
            EditMode::Erase => None,
        }),
{
    let cx = x as int / (CELL_SIZE as int);
    let cy = y as int / (CELL_SIZE as int);
    lemma_cell_index_in_range(v.scene, ox, oy);
    if cell_in_bounds(v.scene, cx, cy) {
        lemma_cell_index_injective(v.scene, cx, cy, ox, oy);
        lemma_cell_index_in_range(v.scene, cx, cy);
    }
}

/// Reset restores the parameters to their initial values and empties the
/// scene with its step count, while clear empties the scene but leaves the
/// parameters (and the step count) alone; neither touches the mode. With
/// any parameters different from the defaults the two are observably
/// different.
pub proof fn lemma_reset_vs_clear(v: EditorView)
    ensures
        editor_step(v, Event::Reset).params == default_parameters(),
        grid_empty(editor_step(v, Event::Reset).scene.grid),
        editor_step(v, Event::Reset).scene.steps == 0,
        editor_step(v, Event::Reset).mode == v.mode,
        editor_step(v, Event::Clear).params == v.params,
        grid_empty(editor_step(v, Event::Clear).scene.grid),
        editor_step(v, Event::Clear).scene.steps == v.scene.steps,
        editor_step(v, Event::Clear).mode == v.mode,
        v.params != default_parameters() ==> editor_step(v, Event::Clear).params != editor_step(
            v,
            Event::Reset,
        ).params,
{
}

} // verus!
