//! Scenario tests of the phase controller and hook table.

use my_library::controller::PhaseController;
use my_library::hooks::{Action, ConfigError, HookTable, Stage};
use my_library::framework::{OverlayConfig, OverlayDescriptor};
use my_library::scene::World;

fn ok(r: Result<(), ConfigError>) {
    assert!(r.is_ok());
}

#[test]
fn tick_without_hooks_changes_nothing() {
    let table = HookTable::new();
    let mut ctrl = PhaseController::new(4);
    let mut world = World::new();
    ctrl.tick(&table, &mut world);
    ctrl.tick(&table, &mut world);
    assert_eq!(ctrl.current(), 4);
    assert_eq!(world.log().len(), 0);
    assert_eq!(world.objects().len(), 0);
    assert!(!world.exit_requested());
}

#[test]
fn self_request_triggers_no_exit_or_enter() {
    let mut table = HookTable::new();
    ok(table.register(1, Stage::Enter, Action::Emit { token: 100 }));
    ok(table.register(1, Stage::Exit, Action::Emit { token: 200 }));
    ok(table.register(1, Stage::Update, Action::Emit { token: 300 }));
    let mut ctrl = PhaseController::new(1);
    let mut world = World::new();
    ctrl.request(1);
    ctrl.tick(&table, &mut world);
    // Only the update hook ran: no enter token, no exit token.
    assert_eq!(world.log(), &vec![300]);
    assert_eq!(ctrl.current(), 1);
}

#[test]
fn transition_sweeps_old_tag_before_entering() {
    let mut table = HookTable::new();
    ok(table.register(1, Stage::Enter, Action::Spawn { tag: 7, kind: 1 }));
    ok(table.register(1, Stage::Exit, Action::Cleanup { tag: 7 }));
    ok(table.register(2, Stage::Enter, Action::Spawn { tag: 8, kind: 2 }));
    let mut ctrl = PhaseController::new(1);
    let mut world = World::new();
    world.spawn(99, 0); // a persistent object with a phase-independent tag
    ctrl.start(&table, &mut world);
    assert_eq!(world.tagged_count(7), 1);
    ctrl.request(2);
    ctrl.tick(&table, &mut world);
    assert_eq!(ctrl.current(), 2);
    assert_eq!(world.tagged_count(7), 0); // everything of the old phase is gone
    assert_eq!(world.tagged_count(8), 1); // the new phase's object is there
    assert_eq!(world.tagged_count(99), 1); // other tags are untouched
}

#[test]
fn update_hooks_run_in_registration_order() {
    let mut table = HookTable::new();
    ok(table.register(1, Stage::Update, Action::Emit { token: 11 }));
    ok(table.register(1, Stage::Update, Action::Emit { token: 22 }));
    ok(table.register(1, Stage::Update, Action::Emit { token: 33 }));
    let mut ctrl = PhaseController::new(1);
    let mut world = World::new();
    ctrl.tick(&table, &mut world);
    assert_eq!(world.log(), &vec![11, 22, 33]);
}

#[test]
fn two_update_hooks_append_tokens_in_order() {
    let mut table = HookTable::new();
    ok(table.register(5, Stage::Update, Action::Emit { token: 1 }));
    ok(table.register(5, Stage::Update, Action::Emit { token: 2 }));
    let mut ctrl = PhaseController::new(5);
    let mut world = World::new();
    ctrl.tick(&table, &mut world);
    assert_eq!(world.log(), &vec![1, 2]);
}

#[test]
fn second_request_wins_and_only_its_enter_hooks_run() {
    let mut table = HookTable::new();
    ok(table.register(5, Stage::Enter, Action::Emit { token: 50 }));
    ok(table.register(6, Stage::Enter, Action::Emit { token: 60 }));
    let mut ctrl = PhaseController::new(1);
    let mut world = World::new();
    ctrl.request(5);
    ctrl.request(6);
    ctrl.tick(&table, &mut world);
    assert_eq!(ctrl.current(), 6);
    // Only the enter hooks of the phase the last request named ran.
    assert_eq!(world.log(), &vec![60]);
}

#[test]
fn transition_waits_for_the_next_tick() {
    let mut table = HookTable::new();
    // The update hook of phase 1 asks for phase 2 on every tick.
    ok(table.register(1, Stage::Update, Action::Request { target: 2 }));
    let mut ctrl = PhaseController::new(1);
    let mut world = World::new();
    ctrl.tick(&table, &mut world);
    // The request was recorded during this tick, not applied within it.
    assert_eq!(ctrl.current(), 1);
    ctrl.tick(&table, &mut world);
    assert_eq!(ctrl.current(), 2);
}

#[test]
fn new_phase_updates_do_not_run_on_the_transition_tick() {
    let mut table = HookTable::new();
    ok(table.register(2, Stage::Enter, Action::Emit { token: 20 }));
    ok(table.register(2, Stage::Update, Action::Emit { token: 21 }));
    let mut ctrl = PhaseController::new(1);
    let mut world = World::new();
    ctrl.request(2);
    ctrl.tick(&table, &mut world);
    // The enter hook ran, the update hook must wait for the next tick.
    assert_eq!(world.log(), &vec![20]);
    ctrl.tick(&table, &mut world);
    assert_eq!(world.log(), &vec![20, 21]);
}

#[test]
fn requests_made_during_a_transition_are_discarded() {
    let mut table = HookTable::new();
    // An enter hook that immediately asks for yet another phase: the
    // request is cleared together with the one the transition honored.
    ok(table.register(2, Stage::Enter, Action::Request { target: 3 }));
    let mut ctrl = PhaseController::new(1);
    let mut world = World::new();
    ctrl.request(2);
    ctrl.tick(&table, &mut world);
    assert_eq!(ctrl.current(), 2);
    ctrl.tick(&table, &mut world);
    assert_eq!(ctrl.current(), 2);
}

#[test]
fn registration_outside_descriptor_is_refused() {
    let desc = OverlayDescriptor { idle_phase: 1, active_phase: 2, terminal_phase: 3 };
    let cfg = OverlayConfig {
        overlay_tag: 9,
        camera_kind: 0,
        idle_graphic: 1,
        terminal_graphic: 2,
        start_control: 10,
        back_control: 11,
        quit_control: 12,
    };
    let mut table = HookTable::new();
    let r = table.register(5, Stage::Enter, Action::OverlayEnter { desc, cfg });
    assert_eq!(r, Err(ConfigError::OverlayOutsideDescriptor));
    assert_eq!(table.len(), 0); // the table was left unchanged
    ok(table.register(1, Stage::Enter, Action::OverlayEnter { desc, cfg }));
    assert_eq!(table.len(), 1);
}

#[test]
fn actions_for_returns_empty_list_not_error() {
    let mut table = HookTable::new();
    ok(table.register(1, Stage::Update, Action::Emit { token: 5 }));
    assert_eq!(table.actions_for(2, Stage::Update).len(), 0);
    assert_eq!(table.actions_for(1, Stage::Exit).len(), 0);
    assert_eq!(table.actions_for(1, Stage::Update), vec![Action::Emit { token: 5 }]);
}

#[test]
fn cleanup_is_idempotent_and_tag_scoped() {
    let mut world = World::new();
    world.spawn(1, 10);
    world.spawn(2, 20);
    world.spawn(1, 11);
    my_library::framework::cleanup(&mut world, 1);
    assert_eq!(world.tagged_count(1), 0);
    assert_eq!(world.tagged_count(2), 1);
    my_library::framework::cleanup(&mut world, 1); // absent objects: a no-op
    assert_eq!(world.tagged_count(1), 0);
    assert_eq!(world.tagged_count(2), 1);
    my_library::framework::cleanup(&mut world, 3); // unknown tag: a no-op
    assert_eq!(world.objects().len(), 1);
}
