//! The observable guarantees of the phase-lifecycle controller, stated over
//! the model of [`crate::model`] and proved once and for all. Every law
//! speaks about [`crate::model::spec_tick`], which
//! [`crate::controller::PhaseController::tick`] is proved to implement
//! exactly.

use vstd::prelude::*;

use crate::hooks::{hooks_of, Action, HookEntry, Stage};
use crate::model::{
    after_exit_stage, apply_action, apply_actions, lemma_apply_actions_concat,
    lemma_apply_actions_push, spec_tick, spec_transition, ModelState,
};
use crate::scene::{no_tagged, SceneObject};

verus! {

/// No hook at all is registered for `phase`, at any stage.
pub open spec fn no_hooks_for(entries: Seq<HookEntry>, phase: u32) -> bool {
    forall|stage: Stage| hooks_of(entries, phase, stage) == Seq::<Action>::empty()
}

/// A tick in a phase with no registered hooks performs no observable effect
/// and leaves the current phase unchanged — provided no transition away from
/// the phase is outstanding (a pending request for the current phase itself
/// is harmless).
pub proof fn lemma_tick_without_hooks_is_noop(entries: Seq<HookEntry>, s: ModelState)
    requires
        no_hooks_for(entries, s.current),
        s.pending is None || s.pending == Some(s.current),
    ensures
        spec_tick(entries, s) == s,
{
    assert(hooks_of(entries, s.current, Stage::Update) == Seq::<Action>::empty());
}

/// No run of actions ever changes the current phase: only the controller's
/// own transition step does.
pub proof fn lemma_run_preserves_current(s: ModelState, acts: Seq<Action>)
    ensures
        apply_actions(s, acts).current == s.current,
    decreases acts.len(),
{
    if acts.len() > 0 {
        assert(apply_action(s, acts[0]).current == s.current);
        lemma_run_preserves_current(apply_action(s, acts[0]), acts.drop_first());
    }
}

/// Requesting the phase that is already current triggers no exit and no
/// enter hook: the tick is exactly a run of the current phase's update
/// hooks, as if nothing had been requested, and the current phase stands.
pub proof fn lemma_self_request_triggers_no_transition(entries: Seq<HookEntry>, s: ModelState)
    requires
        s.pending == Some(s.current),
    ensures
        spec_tick(entries, s) == apply_actions(s, hooks_of(entries, s.current, Stage::Update)),
        spec_tick(entries, s).current == s.current,
{
    lemma_run_preserves_current(s, hooks_of(entries, s.current, Stage::Update));
}

/// Whether running `a` can create an object carrying `tag`.
pub open spec fn spawns_tag(a: Action, tag: u32) -> bool {
    ||| a matches Action::Spawn { tag: t, .. } && t == tag
    ||| a matches Action::OverlayEnter { cfg, .. } && cfg.overlay_tag == tag
}

/// An action that does not spawn `tag` cannot bring such an object back.
proof fn lemma_action_preserves_no_tagged(s: ModelState, a: Action, tag: u32)
    requires
        no_tagged(s.scene, tag),
        !spawns_tag(a, tag),
    ensures
        no_tagged(apply_action(s, a).scene, tag),
{
    match a {
        Action::Cleanup { tag: t } => {
            crate::scene::lemma_no_tagged_after_sweep(s.scene, t, tag);
        },
        _ => {},
    }
}

/// A run of actions none of which spawns `tag` cannot bring such an object
/// back either.
proof fn lemma_actions_preserve_no_tagged(s: ModelState, acts: Seq<Action>, tag: u32)
    requires
        no_tagged(s.scene, tag),
        forall|j: int| 0 <= j < acts.len() ==> !spawns_tag(#[trigger] acts[j], tag),
    ensures
        no_tagged(apply_actions(s, acts).scene, tag),
    decreases acts.len(),
{
    if acts.len() > 0 {
        lemma_action_preserves_no_tagged(s, acts[0], tag);
        let rest = acts.drop_first();
        assert forall|j: int| 0 <= j < rest.len() implies !spawns_tag(#[trigger] rest[j], tag) by {
            assert(rest[j] == acts[j + 1]);
        }
        lemma_actions_preserve_no_tagged(apply_action(s, acts[0]), rest, tag);
    }
}

/// After a transition away from phase `s.current` whose exit hooks run the
/// lifecycle sweep of `tag` — and spawn nothing with that tag afterwards —
/// every object carrying `tag` that was alive before the transition is gone
/// the moment the exit stage completes, before any enter hook of the target
/// phase runs.
pub proof fn lemma_exit_stage_sweeps_tag(
    entries: Seq<HookEntry>,
    s: ModelState,
    target: u32,
    tag: u32,
    i: int,
)
    requires
        s.pending == Some(target),
        target != s.current,
        0 <= i < hooks_of(entries, s.current, Stage::Exit).len(),
        hooks_of(entries, s.current, Stage::Exit)[i] == (Action::Cleanup { tag }),
        forall|j: int| i < j < hooks_of(entries, s.current, Stage::Exit).len() ==> !spawns_tag(
            #[trigger] hooks_of(entries, s.current, Stage::Exit)[j],
            tag,
        ),
    ensures
        no_tagged(after_exit_stage(entries, s).scene, tag),
{
    let es = hooks_of(entries, s.current, Stage::Exit);
    assert(es =~= es.take(i + 1) + es.skip(i + 1));
    lemma_apply_actions_concat(s, es.take(i + 1), es.skip(i + 1));
    assert(es.take(i + 1) =~= es.take(i).push(es[i]));
    lemma_apply_actions_push(s, es.take(i), es[i]);
    let swept = apply_action(apply_actions(s, es.take(i)), es[i]);
    crate::scene::lemma_sweep_clears_tag(apply_actions(s, es.take(i)).scene, tag);
    assert(no_tagged(swept.scene, tag));
    let rest = es.skip(i + 1);
    assert forall|j: int| 0 <= j < rest.len() implies !spawns_tag(#[trigger] rest[j], tag) by {
        assert(rest[j] == es[i + 1 + j]);
    }
    lemma_actions_preserve_no_tagged(swept, rest, tag);
}

/// A transition leaves no request outstanding: whatever any hook recorded
/// while it ran, the pending slot is clear once the transition settles.
pub proof fn lemma_transition_clears_request(entries: Seq<HookEntry>, s: ModelState, target: u32)
    requires
        s.pending == Some(target),
        target != s.current,
    ensures
        spec_tick(entries, s).pending is None,
        spec_tick(entries, s).current == target,
{
    lemma_run_preserves_current(
        ModelState { current: target, ..after_exit_stage(entries, s) },
        hooks_of(entries, target, Stage::Enter),
    );
}

/// The tokens that a list of actions emits, in execution order.
pub open spec fn emitted(acts: Seq<Action>) -> Seq<u32>
    decreases acts.len(),
{
    if acts.len() == 0 {
        Seq::empty()
    } else {
        match acts[0] {
            Action::Emit { token } => seq![token] + emitted(acts.drop_first()),
            _ => emitted(acts.drop_first()),
        }
    }
}

/// A run of actions appends to the log exactly the tokens it emits, in
/// execution order; nothing a run does can reorder or erase the log.
pub proof fn lemma_log_grows_in_execution_order(s: ModelState, acts: Seq<Action>)
    ensures
        apply_actions(s, acts).log == s.log + emitted(acts),
    decreases acts.len(),
{
    if acts.len() == 0 {
        assert(s.log + emitted(acts) =~= s.log);
    } else {
        let s1 = apply_action(s, acts[0]);
        lemma_log_grows_in_execution_order(s1, acts.drop_first());
        match acts[0] {
            Action::Emit { token } => {
                assert(s.log.push(token) + emitted(acts.drop_first()) =~= s.log + (seq![token]
                    + emitted(acts.drop_first())));
            },
            _ => {
                assert(s1.log == s.log);
            },
        }
    }
}

/// Hook execution order equals registration order: a tick that runs the
/// current phase's update hooks appends their tokens to the log in exactly
/// the order the hooks were registered.
pub proof fn lemma_update_hooks_run_in_registration_order(entries: Seq<HookEntry>, s: ModelState)
    requires
        s.pending is None || s.pending == Some(s.current),
    ensures
        spec_tick(entries, s).log == s.log + emitted(hooks_of(entries, s.current, Stage::Update)),
{
    lemma_log_grows_in_execution_order(s, hooks_of(entries, s.current, Stage::Update));
}

/// The bindings of [`crate::framework::GameStatePlugin::build`] give the
/// overlay exactly one enter, one update and one exit hook on each of its
/// two phases — the very shape the overlay laws speak of — and the exit
/// hook of either phase is the lifecycle sweep of the overlay's tag.
pub proof fn lemma_overlay_binding_shape(
    desc: crate::framework::OverlayDescriptor,
    cfg: crate::framework::OverlayConfig,
)
    requires
        desc.idle_phase != desc.terminal_phase,
    ensures
        hooks_of(crate::framework::overlay_entries(desc, cfg), desc.idle_phase, Stage::Enter)
            == seq![Action::OverlayEnter { desc, cfg }],
        hooks_of(crate::framework::overlay_entries(desc, cfg), desc.terminal_phase, Stage::Enter)
            == seq![Action::OverlayEnter { desc, cfg }],
        hooks_of(crate::framework::overlay_entries(desc, cfg), desc.idle_phase, Stage::Update)
            == seq![Action::OverlayUpdate { desc, cfg }],
        hooks_of(crate::framework::overlay_entries(desc, cfg), desc.terminal_phase, Stage::Update)
            == seq![Action::OverlayUpdate { desc, cfg }],
        hooks_of(crate::framework::overlay_entries(desc, cfg), desc.idle_phase, Stage::Exit)
            == seq![Action::Cleanup { tag: cfg.overlay_tag }],
        hooks_of(crate::framework::overlay_entries(desc, cfg), desc.terminal_phase, Stage::Exit)
            == seq![Action::Cleanup { tag: cfg.overlay_tag }],
{
    reveal_with_fuel(hooks_of, 8);
    let entries = crate::framework::overlay_entries(desc, cfg);
    assert(entries.drop_last() =~= entries.take(5));
    assert(entries.take(5).drop_last() =~= entries.take(4));
    assert(entries.take(4).drop_last() =~= entries.take(3));
    assert(entries.take(3).drop_last() =~= entries.take(2));
    assert(entries.take(2).drop_last() =~= entries.take(1));
    assert(entries.take(1).drop_last() =~= entries.take(0));
    assert(entries.take(0) =~= Seq::<HookEntry>::empty());
    assert(hooks_of(entries, desc.idle_phase, Stage::Enter) =~= seq![
        Action::OverlayEnter { desc, cfg },
    ]);
    assert(hooks_of(entries, desc.terminal_phase, Stage::Enter) =~= seq![
        Action::OverlayEnter { desc, cfg },
    ]);
    assert(hooks_of(entries, desc.idle_phase, Stage::Update) =~= seq![
        Action::OverlayUpdate { desc, cfg },
    ]);
    assert(hooks_of(entries, desc.terminal_phase, Stage::Update) =~= seq![
        Action::OverlayUpdate { desc, cfg },
    ]);
    assert(hooks_of(entries, desc.idle_phase, Stage::Exit) =~= seq![
        Action::Cleanup { tag: cfg.overlay_tag },
    ]);
    assert(hooks_of(entries, desc.terminal_phase, Stage::Exit) =~= seq![
        Action::Cleanup { tag: cfg.overlay_tag },
    ]);
}

/// Entering an overlay phase spawns exactly one camera and one full-frame
/// graphic, both carrying the overlay's lifecycle tag, the graphic chosen by
/// the entered phase alone: the idle graphic for the idle phase, the
/// terminal graphic for the terminal phase.
pub proof fn lemma_overlay_entry_spawns_camera_and_graphic(
    entries: Seq<HookEntry>,
    s: ModelState,
    target: u32,
    desc: crate::framework::OverlayDescriptor,
    cfg: crate::framework::OverlayConfig,
)
    requires
        s.pending == Some(target),
        target != s.current,
        target == desc.idle_phase || target == desc.terminal_phase,
        hooks_of(entries, target, Stage::Enter) == seq![Action::OverlayEnter { desc, cfg }],
    ensures
        spec_tick(entries, s).scene == after_exit_stage(entries, s).scene.push(
            SceneObject { tag: cfg.overlay_tag, kind: cfg.camera_kind },
        ).push(
            SceneObject {
                tag: cfg.overlay_tag,
                kind: if target == desc.idle_phase {
                    cfg.idle_graphic
                } else {
                    cfg.terminal_graphic
                },
            },
        ),
{
    reveal_with_fuel(apply_actions, 2);
    let switched = ModelState { current: target, ..after_exit_stage(entries, s) };
    let es = hooks_of(entries, target, Stage::Enter);
    assert(es[0] == (Action::OverlayEnter { desc, cfg }));
    assert(es.drop_first() =~= Seq::<Action>::empty());
    assert(spec_transition(entries, s, target).scene == apply_action(switched, es[0]).scene);
}

} // verus!
