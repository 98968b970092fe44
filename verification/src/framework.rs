//! The reusable menu overlay and its bindings.
//!
//! One overlay implementation serves both the start menu and the end-of-game
//! screen. An [`OverlayDescriptor`] names the three phases the overlay is
//! bound to; an [`OverlayConfig`] names the assets it spawns and the controls
//! it listens for. [`GameStatePlugin`] registers the shared enter, update and
//! exit hooks for the two overlay phases of an application.

use vstd::prelude::*;

use crate::hooks::{Action, HookEntry, HookTable, Stage};
use crate::scene::World;

verus! {

/// The three phases a single overlay implementation is bound to: the phase
/// whose entry shows the idle (start-menu) graphic, the gameplay phase the
/// idle overlay transitions into, and the phase whose entry shows the
/// terminal (game-over) graphic. Created once at application assembly and
/// never mutated.
#[derive(Clone, Copy, PartialEq, Eq, Structural, Debug)]
pub struct OverlayDescriptor {
    pub idle_phase: u32,
    pub active_phase: u32,
    pub terminal_phase: u32,
}

/// What the overlay spawns and listens for: the lifecycle tag of everything
/// it creates, the kinds of the camera and of the two full-frame graphics,
/// and the controls that start the game, return to the menu, and terminate
/// the process.
#[derive(Clone, Copy, PartialEq, Eq, Structural, Debug)]
pub struct OverlayConfig {
    pub overlay_tag: u32,
    pub camera_kind: u32,
    pub idle_graphic: u32,
    pub terminal_graphic: u32,
    pub start_control: u32,
    pub back_control: u32,
    pub quit_control: u32,
}

/// The built-in exit-stage sweep: destroys every live scene object carrying
/// `tag` and nothing else. Idempotent — destroying an already-absent object
/// is a no-op, not an error — and blind to objects of every other tag, also
/// those of a different currently-running phase.
pub fn cleanup(world: &mut World, tag: u32)
    ensures
        final(world)@ == (crate::scene::WorldView {
            scene: crate::scene::objects_without(old(world)@.scene, tag),
            ..old(world)@
        }),
{
    world.despawn_tagged(tag);
}

/// The six registrations that bind one overlay to its two phases.
pub open spec fn overlay_entries(desc: OverlayDescriptor, cfg: OverlayConfig) -> Seq<HookEntry> {
    seq![
        HookEntry {
            phase: desc.idle_phase,
            stage: Stage::Enter,
            action: Action::OverlayEnter { desc, cfg },
        },
        HookEntry {
            phase: desc.idle_phase,
            stage: Stage::Update,
            action: Action::OverlayUpdate { desc, cfg },
        },
        HookEntry {
            phase: desc.idle_phase,
            stage: Stage::Exit,
            action: Action::Cleanup { tag: cfg.overlay_tag },
        },
        HookEntry {
            phase: desc.terminal_phase,
            stage: Stage::Enter,
            action: Action::OverlayEnter { desc, cfg },
        },
        HookEntry {
            phase: desc.terminal_phase,
            stage: Stage::Update,
            action: Action::OverlayUpdate { desc, cfg },
        },
        HookEntry {
            phase: desc.terminal_phase,
            stage: Stage::Exit,
            action: Action::Cleanup { tag: cfg.overlay_tag },
        },
    ]
}

/// Binds the one generic overlay implementation to an application's menu
/// phase and game-over phase. The same enter, update, exit and cleanup hooks
/// are shared verbatim between the two phase bindings; the two differ only
/// by data.
pub struct GameStatePlugin {
    menu_state: u32,
    game_start_state: u32,
    game_end_state: u32,
}

impl GameStatePlugin {
    /// The descriptor this plugin binds the overlay to: the menu phase is
    /// the idle phase, the gameplay phase is what the menu starts, and the
    /// game-over phase is the terminal phase.
    pub closed spec fn descriptor(&self) -> OverlayDescriptor {
        OverlayDescriptor {
            idle_phase: self.menu_state,
            active_phase: self.game_start_state,
            terminal_phase: self.game_end_state,
        }
    }

    /// A plugin for an application whose menu, gameplay and game-over
    /// phases are the three given ones.
    pub fn new(menu_state: u32, game_start_state: u32, game_end_state: u32) -> (p: GameStatePlugin)
        ensures
            p.descriptor() == (OverlayDescriptor {
                idle_phase: menu_state,
                active_phase: game_start_state,
                terminal_phase: game_end_state,
            }),
    {
        GameStatePlugin { menu_state, game_start_state, game_end_state }
    }

    /// Registers the overlay's enter, update and exit hooks for both the
    /// menu phase and the game-over phase, in that order, and nothing else.
    /// Every registration is within the overlay's own descriptor, so none
    /// can be refused.
    pub fn build(&self, table: &mut HookTable, cfg: OverlayConfig)
        ensures
            final(table)@ == old(table)@ + overlay_entries(self.descriptor(), cfg),
            old(table).wf() ==> final(table).wf(),
    {
        let desc = OverlayDescriptor {
            idle_phase: self.menu_state,
            active_phase: self.game_start_state,
            terminal_phase: self.game_end_state,
        };
        let _ = table.register(desc.idle_phase, Stage::Enter, Action::OverlayEnter { desc, cfg });
        let _ = table.register(desc.idle_phase, Stage::Update, Action::OverlayUpdate { desc, cfg });
        let _ = table.register(desc.idle_phase, Stage::Exit, Action::Cleanup {
            tag: cfg.overlay_tag,
        });
        let _ = table.register(desc.terminal_phase, Stage::Enter, Action::OverlayEnter {
            desc,
            cfg,
        });
        let _ = table.register(desc.terminal_phase, Stage::Update, Action::OverlayUpdate {
            desc,
            cfg,
        });
        let _ = table.register(desc.terminal_phase, Stage::Exit, Action::Cleanup {
            tag: cfg.overlay_tag,
        });
        proof {
            assert(table@ =~= old(table)@ + overlay_entries(self.descriptor(), cfg));
        }
    }
}

} // verus!
