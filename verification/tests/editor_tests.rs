use block_lighting::editor::{EditMode, Editor, Event, Parameters};
use block_lighting::scene::Entity;

fn angle_event(s: &str) -> Event {
    Event::AngleChange(s.as_bytes().to_vec())
}

fn pointiness_event(s: &str) -> Event {
    Event::PointinessChange(s.as_bytes().to_vec())
}

#[test]
fn mode_select_sets_exactly_the_selected_variant() {
    let modes: Vec<EditMode> = vec![
        EditMode::SolidBlock,
        EditMode::LightBlock,
        EditMode::PointLight,
        EditMode::Erase,
    ];
    for m in modes {
        let mut ed = Editor::for_surface(300, 150);
        ed.dispatch(angle_event("25"));
        let params_before: Parameters = ed.params;
        let steps_before: u64 = ed.scene.steps();
        ed.dispatch(Event::SelectMode(m));
        assert_eq!(ed.mode, m);
        assert_eq!(ed.params, params_before);
        assert_eq!(ed.scene.steps(), steps_before);
        assert_eq!(ed.scene.get(0, 0), None);
    }
}

#[test]
fn angle_change_parses_and_rescales() {
    let mut ed = Editor::for_surface(300, 150);
    ed.dispatch(angle_event("50"));
    // Raw 50 over 100 is 0.5, stored in hundred-millionths.
    assert_eq!(ed.params.angle_e8, 50_000_000);
    ed.dispatch(angle_event("12.5"));
    assert_eq!(ed.params.angle_e8, 12_500_000);
    assert_eq!(ed.params.pointiness_e8, 0);
}

#[test]
fn malformed_angle_keeps_prior_value() {
    let mut ed = Editor::for_surface(300, 150);
    ed.dispatch(angle_event("75"));
    ed.dispatch(angle_event("not a number"));
    assert_eq!(ed.params.angle_e8, 75_000_000);
    ed.dispatch(angle_event(""));
    assert_eq!(ed.params.angle_e8, 75_000_000);
}

#[test]
fn pointiness_is_independent_of_angle() {
    let mut ed = Editor::for_surface(300, 150);
    ed.dispatch(angle_event("30"));
    ed.dispatch(pointiness_event("80"));
    assert_eq!(ed.params.angle_e8, 30_000_000);
    assert_eq!(ed.params.pointiness_e8, 80_000_000);
}

#[test]
fn held_pointer_paints_the_targeted_cell() {
    let mut ed = Editor::for_surface(300, 150);
    ed.dispatch(Event::MouseMove { x: 40, y: 20, held: true });
    assert_eq!(ed.scene.get(2, 1), Some(Entity::SolidBlock));

    ed.dispatch(Event::SelectMode(EditMode::LightBlock));
    ed.dispatch(Event::MouseMove { x: 0, y: 0, held: true });
    assert_eq!(ed.scene.get(0, 0), Some(Entity::LightBlock));

    ed.dispatch(Event::SelectMode(EditMode::PointLight));
    ed.dispatch(Event::MouseMove { x: 40, y: 20, held: true });
    assert_eq!(ed.scene.get(2, 1), Some(Entity::PointLight));

    ed.dispatch(Event::SelectMode(EditMode::Erase));
    ed.dispatch(Event::MouseMove { x: 40, y: 20, held: true });
    assert_eq!(ed.scene.get(2, 1), None);
}

#[test]
fn released_pointer_paints_nothing() {
    let mut ed = Editor::for_surface(300, 150);
    ed.dispatch(Event::MouseMove { x: 40, y: 20, held: false });
    assert_eq!(ed.scene.get(2, 1), None);
}

#[test]
fn out_of_grid_pointer_is_ignored() {
    // 300 by 150 pixels gives an 18 by 9 cell grid; y = 400 lies below it.
    let mut ed = Editor::for_surface(300, 150);
    ed.dispatch(Event::MouseMove { x: 10, y: 400, held: true });
    for y in 0..9usize {
        for x in 0..18usize {
            assert_eq!(ed.scene.get(x, y), None);
        }
    }
}

#[test]
fn advance_requests_a_step_and_keeps_the_grid() {
    let mut ed = Editor::for_surface(300, 150);
    ed.dispatch(Event::MouseMove { x: 0, y: 0, held: true });
    ed.dispatch(Event::Advance);
    ed.dispatch(Event::Advance);
    assert_eq!(ed.scene.steps(), 2);
    assert_eq!(ed.scene.get(0, 0), Some(Entity::SolidBlock));
}

#[test]
fn clear_empties_the_scene_but_keeps_parameters() {
    let mut ed = Editor::for_surface(300, 150);
    ed.dispatch(angle_event("40"));
    ed.dispatch(Event::MouseMove { x: 0, y: 0, held: true });
    ed.dispatch(Event::Advance);
    ed.dispatch(Event::Clear);
    assert_eq!(ed.scene.get(0, 0), None);
    assert_eq!(ed.params.angle_e8, 40_000_000);
    assert_eq!(ed.scene.steps(), 1);
}

#[test]
fn reset_restores_parameters_and_empties_the_scene() {
    let mut ed = Editor::for_surface(300, 150);
    ed.dispatch(angle_event("40"));
    ed.dispatch(pointiness_event("60"));
    ed.dispatch(Event::MouseMove { x: 0, y: 0, held: true });
    ed.dispatch(Event::Advance);
    ed.dispatch(Event::Reset);
    assert_eq!(ed.scene.get(0, 0), None);
    assert_eq!(ed.params.angle_e8, 0);
    assert_eq!(ed.params.pointiness_e8, 0);
    assert_eq!(ed.scene.steps(), 0);
}

#[test]
fn reset_and_clear_differ_on_parameters() {
    let mut a = Editor::for_surface(300, 150);
    let mut b = Editor::for_surface(300, 150);
    a.dispatch(angle_event("40"));
    b.dispatch(angle_event("40"));
    a.dispatch(Event::Clear);
    b.dispatch(Event::Reset);
    assert_ne!(a.params, b.params);
    assert_eq!(a.params.angle_e8, 40_000_000);
    assert_eq!(b.params.angle_e8, 0);
}
