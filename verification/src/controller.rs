//! The phase controller: the single owner of the current phase and of the
//! pending transition request. Once per frame the host calls
//! [`PhaseController::tick`], which either applies a pending transition
//! (exit hooks, phase change, enter hooks) or runs the current phase's
//! update hooks; its whole effect equals [`crate::model::spec_tick`].

use vstd::prelude::*;

use crate::hooks::{HookTable, Action, Stage};
use crate::model::{
    apply_action, apply_actions, lemma_apply_actions_push, spec_start, spec_tick, spec_transition,
    after_exit_stage, ModelState,
};
use crate::scene::{World, WorldView};

verus! {

/// What a [`PhaseController`] looks like in contracts.
pub struct ControllerView {
    pub current: u32,
    pub pending: Option<u32>,
}

/// The controller state: which phase is current, and the at-most-one
/// outstanding transition request. Exactly one phase is current at any time,
/// and only [`PhaseController::request`] and [`PhaseController::tick`] ever
/// touch either field.
pub struct PhaseController {
    current: u32,
    pending: Option<u32>,
}

/// The whole application state that a controller and a world make up.
pub open spec fn state_of(c: ControllerView, w: WorldView) -> ModelState {
    ModelState {
        current: c.current,
        pending: c.pending,
        scene: w.scene,
        log: w.log,
        inputs: w.inputs,
        exit: w.exit,
    }
}

impl View for PhaseController {
    type V = ControllerView;

    closed spec fn view(&self) -> ControllerView {
        ControllerView { current: self.current, pending: self.pending }
    }
}

impl PhaseController {
    /// A controller resting in the designated initial phase, with no pending
    /// request.
    pub fn new(initial: u32) -> (c: PhaseController)
        ensures
            c@ == (ControllerView { current: initial, pending: None }),
    {
        PhaseController { current: initial, pending: None }
    }

    /// The presently active phase.
    pub fn current(&self) -> (r: u32)
        ensures
            r == self@.current,
    {
        self.current
    }

    /// Records a pending transition to `next`, to be applied at the next
    /// tick. Callable from within any update action; a new request
    /// overwrites any earlier unapplied one — last write wins, nothing is
    /// queued.
    pub fn request(&mut self, next: u32)
        ensures
            final(self)@ == (ControllerView { current: old(self)@.current, pending: Some(next) }),
    {
        self.pending = Some(next);
    }

    /// Runs one action against the shared world, exactly as the model says.
    fn run_action(&mut self, world: &mut World, a: Action)
        ensures
            state_of(final(self)@, final(world)@) == apply_action(
                state_of(old(self)@, old(world)@),
                a,
            ),
    {
        match a {
            Action::Spawn { tag, kind } => {
                world.spawn(tag, kind);
            },
            Action::Cleanup { tag } => {
                world.despawn_tagged(tag);
            },
            Action::Emit { token } => {
                world.emit(token);
            },
            Action::Request { target } => {
                self.pending = Some(target);
            },
            Action::OverlayEnter { desc, cfg } => {
                world.spawn(cfg.overlay_tag, cfg.camera_kind);
                let graphic = if self.current == desc.idle_phase {
                    cfg.idle_graphic
                } else {
                    cfg.terminal_graphic
                };
                world.spawn(cfg.overlay_tag, graphic);
            },
            Action::OverlayUpdate { desc, cfg } => {
                if self.current == desc.idle_phase {
                    if world.input_active(cfg.start_control) {
                        self.pending = Some(desc.active_phase);
                    } else if world.input_active(cfg.quit_control) {
                        world.request_exit();
                    }
                } else if self.current == desc.terminal_phase {
                    if world.input_active(cfg.back_control) {
                        self.pending = Some(desc.idle_phase);
                    } else if world.input_active(cfg.quit_control) {
                        world.request_exit();
                    }
                }
            },
        }
        proof {
            assert(state_of(self@, world@) =~= apply_action(
                state_of(old(self)@, old(world)@),
                a,
            ));
        }
    }

    /// Runs a list of actions in order, exactly as the model says.
    fn run_actions(&mut self, world: &mut World, acts: &Vec<Action>)
        ensures
            state_of(final(self)@, final(world)@) == apply_actions(
                state_of(old(self)@, old(world)@),
                acts@,
            ),
    {
        let ghost s0 = state_of(self@, world@);
        let mut i: usize = 0;
        while i < acts.len()
            invariant
                i <= acts.len(),
                state_of(self@, world@) == apply_actions(s0, acts@.take(i as int)),
            decreases acts.len() - i,
        {
            proof {
                assert(acts@.take(i + 1) =~= acts@.take(i as int).push(acts@[i as int]));
                lemma_apply_actions_push(s0, acts@.take(i as int), acts@[i as int]);
            }
            let a = acts[i];
            self.run_action(world, a);
            i += 1;
        }
        proof {
            assert(acts@.take(acts@.len() as int) =~= acts@);
        }
    }

    /// Runs the update hooks of the current phase, in registration order.
    fn run_update_stage(&mut self, table: &HookTable, world: &mut World)
        ensures
            state_of(final(self)@, final(world)@) == apply_actions(
                state_of(old(self)@, old(world)@),
                crate::hooks::hooks_of(table@, old(self)@.current, Stage::Update),
            ),
    {
        let cur = self.current;
        let ups = table.actions_for(cur, Stage::Update);
        self.run_actions(world, &ups);
    }

    /// Completes application assembly: runs the enter hooks of the initial
    /// phase once, before the first tick, so that the initial phase is
    /// entered like every later one.
    pub fn start(&mut self, table: &HookTable, world: &mut World)
        requires
            table.wf(),
        ensures
            state_of(final(self)@, final(world)@) == spec_start(
                table@,
                state_of(old(self)@, old(world)@),
            ),
    {
        let cur = self.current;
        let enters = table.actions_for(cur, Stage::Enter);
        self.run_actions(world, &enters);
    }

    /// Advances the controller by one step; invoked exactly once per frame
    /// by the host's scheduler.
    ///
    /// If a transition to a phase other than the current one is pending, the
    /// exit hooks of the old phase run, the phase changes, the enter hooks
    /// of the new phase run, and the pending request is cleared — the new
    /// phase's update hooks do not run within this same tick, and a request
    /// recorded by an exit or enter hook during the transition itself is
    /// discarded with the one just honored. Otherwise the update hooks of
    /// the current phase run. A request for the phase that is already
    /// current triggers no exit and no enter hook. Hook lists run in
    /// registration order; phases with no registered hooks degrade to a
    /// no-op.
    pub fn tick(&mut self, table: &HookTable, world: &mut World)
        requires
            table.wf(),
        ensures
            state_of(final(self)@, final(world)@) == spec_tick(
                table@,
                state_of(old(self)@, old(world)@),
            ),
    {
        let ghost s0 = state_of(self@, world@);
        let pending = self.pending;
        match pending {
            Some(target) => {
                if target != self.current {
                    let cur = self.current;
                    let exits = table.actions_for(cur, Stage::Exit);
                    self.run_actions(world, &exits);
                    proof {
                        assert(state_of(self@, world@) == after_exit_stage(table@, s0));
                    }
                    self.current = target;
                    let enters = table.actions_for(target, Stage::Enter);
                    proof {
                        assert(state_of(self@, world@) =~= (ModelState {
                            current: target,
                            ..after_exit_stage(table@, s0)
                        }));
                    }
                    self.run_actions(world, &enters);
                    self.pending = None;
                    proof {
                        assert(state_of(self@, world@) =~= spec_transition(table@, s0, target));
                    }
                } else {
                    self.run_update_stage(table, world);
                }
            },
            None => {
                self.run_update_stage(table, world);
            },
        }
    }
}

} // verus!
