//! The mathematical model of the engine: what each action does to the
//! application state, and what one controller tick amounts to. The
//! executable engine in [`crate::controller`] is proved to follow this model
//! step by step, and the laws in [`crate::laws`] are proved of the model.

use vstd::prelude::*;

use crate::hooks::{hooks_of, Action, HookEntry, Stage};
use crate::scene::{objects_without, SceneObject};

verus! {

/// The whole observable state of a running application: the current phase,
/// the pending transition request, and the shared world (scene objects, log,
/// activated controls, termination flag).
#[verifier::ext_equal]
pub struct ModelState {
    pub current: u32,
    pub pending: Option<u32>,
    pub scene: Seq<SceneObject>,
    pub log: Seq<u32>,
    pub inputs: Seq<u32>,
    pub exit: bool,
}

/// What one action does to the state. This is the single shared meaning of
/// every hook the engine can run; the overlay hooks are one implementation
/// each, selected purely by the current phase.
pub open spec fn apply_action(s: ModelState, a: Action) -> ModelState {
    match a {
        Action::Spawn { tag, kind } => ModelState {
            scene: s.scene.push(SceneObject { tag, kind }),
            ..s
        },
        Action::Cleanup { tag } => ModelState { scene: objects_without(s.scene, tag), ..s },
        Action::Emit { token } => ModelState { log: s.log.push(token), ..s },
        Action::Request { target } => ModelState { pending: Some(target), ..s },
        Action::OverlayEnter { desc, cfg } => {
            let graphic = if s.current == desc.idle_phase {
                cfg.idle_graphic
            } else {
                cfg.terminal_graphic
            };
            ModelState {
                scene: s.scene.push(SceneObject { tag: cfg.overlay_tag, kind: cfg.camera_kind }).push(
                    SceneObject { tag: cfg.overlay_tag, kind: graphic },
                ),
                ..s
            }
        },
        Action::OverlayUpdate { desc, cfg } => {
            if s.current == desc.idle_phase {
                if s.inputs.contains(cfg.start_control) {
                    ModelState { pending: Some(desc.active_phase), ..s }
                } else if s.inputs.contains(cfg.quit_control) {
                    ModelState { exit: true, ..s }
                } else {
                    s
                }
            } else if s.current == desc.terminal_phase {
                if s.inputs.contains(cfg.back_control) {
                    ModelState { pending: Some(desc.idle_phase), ..s }
                } else if s.inputs.contains(cfg.quit_control) {
                    ModelState { exit: true, ..s }
                } else {
                    s
                }
            } else {
                s
            }
        },
    }
}

/// Running a list of actions, first to last.
pub open spec fn apply_actions(s: ModelState, acts: Seq<Action>) -> ModelState
    decreases acts.len(),
{
    if acts.len() == 0 {
        s
    } else {
        apply_actions(apply_action(s, acts[0]), acts.drop_first())
    }
}

/// Running one more action at the end is one more application step.
pub proof fn lemma_apply_actions_push(s: ModelState, acts: Seq<Action>, a: Action)
    ensures
        apply_actions(s, acts.push(a)) == apply_action(apply_actions(s, acts), a),
    decreases acts.len(),
{
    if acts.len() == 0 {
        reveal_with_fuel(apply_actions, 2);
        assert(acts.push(a)[0] == a);
        assert(acts.push(a).drop_first() =~= Seq::<Action>::empty());
    } else {
        assert(acts.push(a)[0] == acts[0]);
        assert(acts.push(a).drop_first() =~= acts.drop_first().push(a));
        lemma_apply_actions_push(apply_action(s, acts[0]), acts.drop_first(), a);
    }
}

/// Running a concatenation is running the two halves in order.
pub proof fn lemma_apply_actions_concat(s: ModelState, xs: Seq<Action>, ys: Seq<Action>)
    ensures
        apply_actions(s, xs + ys) == apply_actions(apply_actions(s, xs), ys),
    decreases xs.len(),
{
    if xs.len() == 0 {
        assert(xs + ys =~= ys);
    } else {
        assert((xs + ys)[0] == xs[0]);
        assert((xs + ys).drop_first() =~= xs.drop_first() + ys);
        lemma_apply_actions_concat(apply_action(s, xs[0]), xs.drop_first(), ys);
    }
}

/// The state once the exit stage of a transition away from `s.current` has
/// completed: the exit hooks of the old phase have run, in registration
/// order, and nothing else has happened. In particular no enter hook of the
/// target has run yet.
pub open spec fn after_exit_stage(entries: Seq<HookEntry>, s: ModelState) -> ModelState {
    apply_actions(s, hooks_of(entries, s.current, Stage::Exit))
}

/// A full transition to `target`: exit hooks of the old phase, then the
/// phase change, then the enter hooks of the new phase, then the clearing
/// of the pending request — a two-phase commit in which no update hook of
/// the new phase runs within the same tick. The clearing comes last, so a
/// request recorded by an exit or enter hook during the transition itself
/// is discarded with the one just honored.
pub open spec fn spec_transition(entries: Seq<HookEntry>, s: ModelState, target: u32) -> ModelState {
    let switched = ModelState { current: target, ..after_exit_stage(entries, s) };
    let entered = apply_actions(switched, hooks_of(entries, target, Stage::Enter));
    ModelState { pending: None, ..entered }
}

/// One controller tick. A pending request for a phase other than the current
/// one is honored as a transition; otherwise — no request, or a request for
/// the phase that is already current — the update hooks of the current phase
/// run in registration order.
pub open spec fn spec_tick(entries: Seq<HookEntry>, s: ModelState) -> ModelState {
    match s.pending {
        Some(target) => if target != s.current {
            spec_transition(entries, s, target)
        } else {
            apply_actions(s, hooks_of(entries, s.current, Stage::Update))
        },
        None => apply_actions(s, hooks_of(entries, s.current, Stage::Update)),
    }
}

/// Completing application assembly: the enter hooks of the designated
/// initial phase run once, before the first tick.
pub open spec fn spec_start(entries: Seq<HookEntry>, s: ModelState) -> ModelState {
    apply_actions(s, hooks_of(entries, s.current, Stage::Enter))
}

} // verus!
