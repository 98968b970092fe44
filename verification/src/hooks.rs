//! The phase hook table: the append-only registry mapping each phase to its
//! ordered enter, update and exit actions.

use vstd::prelude::*;

use crate::framework::{OverlayConfig, OverlayDescriptor};

verus! {

/// The stage of a phase's lifecycle that a hook is bound to.
#[derive(Clone, Copy, PartialEq, Eq, Structural, Debug)]
pub enum Stage {
    Enter,
    Update,
    Exit,
}

/// An executable unit bound to a phase and stage. Actions run against the
/// shared [`crate::scene::World`] and the owning
/// [`crate::controller::PhaseController`]; their exact meaning is
/// [`crate::model::apply_action`].
#[derive(Clone, Copy, PartialEq, Eq, Structural, Debug)]
pub enum Action {
    /// Create one scene object carrying lifecycle tag `tag`.
    Spawn { tag: u32, kind: u32 },
    /// Destroy every live scene object carrying `tag`; idempotent, and blind
    /// to every other tag.
    Cleanup { tag: u32 },
    /// Append `token` to the shared log.
    Emit { token: u32 },
    /// Record a pending transition to `target`, overwriting any earlier
    /// pending request; the transition is applied at the next tick.
    Request { target: u32 },
    /// The overlay enter hook, shared verbatim between the idle and the
    /// terminal phase: spawns a camera and the full-frame graphic matching
    /// the entered phase, both carrying the overlay's lifecycle tag.
    OverlayEnter { desc: OverlayDescriptor, cfg: OverlayConfig },
    /// The overlay update hook, shared verbatim between the idle and the
    /// terminal phase: polls the controls activated this tick and requests a
    /// transition or process termination accordingly.
    OverlayUpdate { desc: OverlayDescriptor, cfg: OverlayConfig },
}

/// One registration: an action bound to a phase and stage.
#[derive(Clone, Copy, PartialEq, Eq, Structural, Debug)]
pub struct HookEntry {
    pub phase: u32,
    pub stage: Stage,
    pub action: Action,
}

/// The configuration errors reported at registration time. They are
/// programming-contract violations of the assembling application, never of
/// the running controller.
#[derive(Clone, Copy, PartialEq, Eq, Structural, Debug)]
pub enum ConfigError {
    /// An overlay enter hook was registered for a phase outside its own
    /// descriptor; the overlay must only ever be entered for its idle or its
    /// terminal phase.
    OverlayOutsideDescriptor,
}

/// A registration is well formed when an overlay enter hook is bound only to
/// a phase of its own descriptor.
pub open spec fn entry_ok(e: HookEntry) -> bool {
    e.action matches Action::OverlayEnter { desc, .. } ==> (e.phase == desc.idle_phase
        || e.phase == desc.terminal_phase)
}

/// Every registration of the table is well formed.
pub open spec fn table_ok(entries: Seq<HookEntry>) -> bool {
    forall|i: int| 0 <= i < entries.len() ==> entry_ok(#[trigger] entries[i])
}

/// Whether `e` is registered for `(phase, stage)`.
pub open spec fn selects(e: HookEntry, phase: u32, stage: Stage) -> bool {
    e.phase == phase && e.stage == stage
}

/// The actions registered for `(phase, stage)`, in registration order.
pub open spec fn hooks_of(entries: Seq<HookEntry>, phase: u32, stage: Stage) -> Seq<Action>
    decreases entries.len(),
{
    if entries.len() == 0 {
        Seq::empty()
    } else {
        let init = hooks_of(entries.drop_last(), phase, stage);
        if selects(entries.last(), phase, stage) {
            init.push(entries.last().action)
        } else {
            init
        }
    }
}

/// One step of reading the table front to back while collecting the hooks of
/// `(phase, stage)`.
proof fn lemma_hooks_of_take_step(entries: Seq<HookEntry>, phase: u32, stage: Stage, i: int)
    requires
        0 <= i < entries.len(),
    ensures
        selects(entries[i], phase, stage) ==> hooks_of(entries.take(i + 1), phase, stage)
            == hooks_of(entries.take(i), phase, stage).push(entries[i].action),
        !selects(entries[i], phase, stage) ==> hooks_of(entries.take(i + 1), phase, stage)
            == hooks_of(entries.take(i), phase, stage),
{
    let t = entries.take(i + 1);
    assert(t.len() == i + 1);
    assert(t.last() == entries[i]);
    assert(t.drop_last() =~= entries.take(i));
}

/// The registry mapping each declared phase to its ordered enter, update and
/// exit action lists. Registration is append-only: no removal operation
/// exists, and duplicate registrations are permitted and preserved in order.
pub struct HookTable {
    entries: Vec<HookEntry>,
}

impl View for HookTable {
    type V = Seq<HookEntry>;

    closed spec fn view(&self) -> Seq<HookEntry> {
        self.entries@
    }
}

impl HookTable {
    /// Every registration held so far is well formed; established at
    /// construction and preserved by [`HookTable::register`].
    pub open spec fn wf(&self) -> bool {
        table_ok(self@)
    }

    /// An empty table.
    pub fn new() -> (t: HookTable)
        ensures
            t@ == Seq::<HookEntry>::empty(),
            t.wf(),
    {
        let t = HookTable { entries: Vec::new() };
        proof {
            assert(t@ =~= Seq::<HookEntry>::empty());
        }
        t
    }

    /// Appends `action` to the ordered list for `(phase, stage)`. A
    /// registration that binds an overlay enter hook to a phase outside its
    /// descriptor is a configuration error, reported here and not at tick
    /// time; the table is then left unchanged.
    pub fn register(&mut self, phase: u32, stage: Stage, action: Action) -> (r: Result<
        (),
        ConfigError,
    >)
        ensures
            entry_ok(HookEntry { phase, stage, action }) ==> (r is Ok && final(self)@ == old(
                self,
            )@.push(HookEntry { phase, stage, action })),
            !entry_ok(HookEntry { phase, stage, action }) ==> (r == Err::<(), ConfigError>(
                ConfigError::OverlayOutsideDescriptor,
            ) && final(self)@ == old(self)@),
            old(self).wf() ==> final(self).wf(),
    {
        let ok = match action {
            Action::OverlayEnter { desc, .. } => phase == desc.idle_phase || phase
                == desc.terminal_phase,
            _ => true,
        };
        if ok {
            self.entries.push(HookEntry { phase, stage, action });
            Ok(())
        } else {
            Err(ConfigError::OverlayOutsideDescriptor)
        }
    }

    /// How many registrations the table holds.
    pub fn len(&self) -> (n: usize)
        ensures
            n == self@.len(),
    {
        self.entries.len()
    }

    /// The registered actions for `(phase, stage)`, in registration order; an
    /// empty list, never an error, where none were registered.
    pub fn actions_for(&self, phase: u32, stage: Stage) -> (r: Vec<Action>)
        ensures
            r@ == hooks_of(self@, phase, stage),
    {
        let mut r: Vec<Action> = Vec::new();
        let mut i: usize = 0;
        while i < self.entries.len()
            invariant
                i <= self.entries.len(),
                r@ == hooks_of(self@.take(i as int), phase, stage),
            decreases self.entries.len() - i,
        {
            let e = self.entries[i];
            proof {
                lemma_hooks_of_take_step(self@, phase, stage, i as int);
            }
            if e.phase == phase && e.stage == stage {
                r.push(e.action);
            }
            i += 1;
        }
        proof {
            assert(self@.take(self@.len() as int) =~= self@);
        }
        r
    }
}

} // verus!
