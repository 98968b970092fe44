//! Scenario tests of the generic menu overlay, bound to a start menu and a
//! game-over screen of one application.

use my_library::controller::PhaseController;
use my_library::framework::{GameStatePlugin, OverlayConfig};
use my_library::hooks::HookTable;
use my_library::scene::World;

const MAIN_MENU: u32 = 0;
const FLAPPING: u32 = 1;
const GAME_OVER: u32 = 2;

const OVERLAY_TAG: u32 = 9;
const CAMERA: u32 = 100;
const MAIN_MENU_GRAPHIC: u32 = 101;
const GAME_OVER_GRAPHIC: u32 = 102;
const KEY_P: u32 = 10;
const KEY_M: u32 = 11;
const KEY_Q: u32 = 12;

fn config() -> OverlayConfig {
    OverlayConfig {
        overlay_tag: OVERLAY_TAG,
        camera_kind: CAMERA,
        idle_graphic: MAIN_MENU_GRAPHIC,
        terminal_graphic: GAME_OVER_GRAPHIC,
        start_control: KEY_P,
        back_control: KEY_M,
        quit_control: KEY_Q,
    }
}

fn assemble() -> (HookTable, PhaseController, World) {
    let plugin = GameStatePlugin::new(MAIN_MENU, FLAPPING, GAME_OVER);
    let mut table = HookTable::new();
    plugin.build(&mut table, config());
    (table, PhaseController::new(MAIN_MENU), World::new())
}

fn kinds_with_tag(world: &World, tag: u32) -> Vec<u32> {
    world.objects().iter().filter(|o| o.tag == tag).map(|o| o.kind).collect()
}

#[test]
fn entering_idle_phase_spawns_camera_and_menu_graphic() {
    let (table, mut ctrl, mut world) = assemble();
    ctrl.start(&table, &mut world);
    assert_eq!(kinds_with_tag(&world, OVERLAY_TAG), vec![CAMERA, MAIN_MENU_GRAPHIC]);
    assert_eq!(world.objects().len(), 2); // and nothing else
}

#[test]
fn entering_terminal_phase_spawns_camera_and_game_over_graphic() {
    let (table, mut ctrl, mut world) = assemble();
    ctrl.request(GAME_OVER);
    ctrl.tick(&table, &mut world);
    assert_eq!(ctrl.current(), GAME_OVER);
    assert_eq!(kinds_with_tag(&world, OVERLAY_TAG), vec![CAMERA, GAME_OVER_GRAPHIC]);
}

#[test]
fn exiting_destroys_exactly_the_overlay_objects() {
    let (table, mut ctrl, mut world) = assemble();
    world.spawn(77, 5); // someone else's object
    ctrl.start(&table, &mut world);
    assert_eq!(world.tagged_count(OVERLAY_TAG), 2);
    ctrl.request(FLAPPING);
    ctrl.tick(&table, &mut world);
    assert_eq!(world.tagged_count(OVERLAY_TAG), 0);
    assert_eq!(world.tagged_count(77), 1);
    assert_eq!(world.objects().len(), 1);
}

#[test]
fn start_input_takes_effect_only_on_the_next_tick() {
    let (table, mut ctrl, mut world) = assemble();
    ctrl.start(&table, &mut world);
    assert_eq!(ctrl.current(), MAIN_MENU);
    world.press(KEY_P); // simulate the "start" input
    ctrl.tick(&table, &mut world);
    // The same tick that processed the input does not change the phase.
    assert_eq!(ctrl.current(), MAIN_MENU);
    world.clear_inputs();
    ctrl.tick(&table, &mut world);
    assert_eq!(ctrl.current(), FLAPPING);
    // By now every object of the menu is destroyed.
    assert_eq!(world.tagged_count(OVERLAY_TAG), 0);
    assert_eq!(world.objects().len(), 0);
}

#[test]
fn game_over_screen_returns_to_menu_on_back_input() {
    let (table, mut ctrl, mut world) = assemble();
    ctrl.request(GAME_OVER);
    ctrl.tick(&table, &mut world);
    world.press(KEY_M);
    ctrl.tick(&table, &mut world);
    world.clear_inputs();
    ctrl.tick(&table, &mut world);
    assert_eq!(ctrl.current(), MAIN_MENU);
    assert_eq!(kinds_with_tag(&world, OVERLAY_TAG), vec![CAMERA, MAIN_MENU_GRAPHIC]);
}

#[test]
fn quit_input_requests_process_termination() {
    let (table, mut ctrl, mut world) = assemble();
    ctrl.start(&table, &mut world);
    assert!(!world.exit_requested());
    world.press(KEY_Q);
    ctrl.tick(&table, &mut world);
    assert!(world.exit_requested());
    assert_eq!(ctrl.current(), MAIN_MENU); // termination is the host's to do
}

#[test]
fn inputs_of_the_wrong_phase_are_ignored() {
    let (table, mut ctrl, mut world) = assemble();
    ctrl.start(&table, &mut world);
    world.press(KEY_M); // "back to menu" means nothing on the start menu
    ctrl.tick(&table, &mut world);
    world.clear_inputs();
    ctrl.tick(&table, &mut world);
    assert_eq!(ctrl.current(), MAIN_MENU);
    assert!(!world.exit_requested());
}
