//! What happens to a run between fights.
use vstd::prelude::*;

use crate::content::{ModuleId};
use crate::dungeon::{DungeonRun};

verus! {

/// What the modules that act after a won fight did.
#[derive(Clone, Copy, Debug, PartialEq, Eq, Structural)]
pub struct PostVictoryModuleEffects {
    pub nanoforge_healed: i32,
    pub salvage_applied: bool,
    pub recovery_healed: i32,
}

impl Default for PostVictoryModuleEffects {
    fn default() -> (effects: Self)
        ensures
            effects == (PostVictoryModuleEffects { nanoforge_healed: 0, salvage_applied: false, recovery_healed: 0 }),
    {
        PostVictoryModuleEffects { nanoforge_healed: 0, salvage_applied: false, recovery_healed: 0 }
    }
}

/// The seed of the fight in the run's current room: the run seed plus a multiple of the
/// room's id (0 outside a room).
pub fn combat_seed_for_dungeon(dungeon: &DungeonRun) -> (seed: u64)
    ensures
        seed == dungeon.seed.wrapping_add((match dungeon.current_node { Some(id) => id, None => 0usize } as u64).wrapping_mul(
            0x9E37_79B9_7F4A_7C15u64,
        )),
{
    let node = match dungeon.current_node {
        Some(id) => id,
        None => 0,
    };
    let contribution = (node as u64).wrapping_mul(0x9E37_79B9_7F4A_7C15u64);
    dungeon.seed.wrapping_add(contribution)
}

/// Applies the modules that act after a won fight: the Nanoforge heals 2, the Salvage Ledger
/// pays 4 credits, the Recovery Matrix heals 5.
pub fn apply_post_victory_modules(dungeon: &mut DungeonRun) -> (effects: PostVictoryModuleEffects)
    requires
        old(dungeon).numbers_in_range(),
    ensures
        effects.salvage_applied == old(dungeon).modules@.contains(ModuleId::SalvageLedger),
        !old(dungeon).modules@.contains(ModuleId::Nanoforge) ==> effects.nanoforge_healed == 0,
        !old(dungeon).modules@.contains(ModuleId::RecoveryMatrix) ==> effects.recovery_healed == 0,
        final(dungeon).player_hp == old(dungeon).player_hp + effects.nanoforge_healed + effects.recovery_healed,
        final(dungeon).credits == (if effects.salvage_applied { old(dungeon).credits.saturating_add(4) } else { old(dungeon).credits }),
        0 <= effects.nanoforge_healed <= 2,
        0 <= effects.recovery_healed <= 5,
        old(dungeon).player_hp <= old(dungeon).player_max_hp ==> final(dungeon).player_hp <= final(dungeon).player_max_hp,
        final(dungeon).player_max_hp == old(dungeon).player_max_hp,
        final(dungeon).deck == old(dungeon).deck,
        final(dungeon).modules == old(dungeon).modules,
{
    let nanoforge_healed = if dungeon.has_module(ModuleId::Nanoforge) { dungeon.recover_hp(2) } else { 0 };
    let salvage_applied = dungeon.has_module(ModuleId::SalvageLedger);
    if salvage_applied {
        dungeon.credits = dungeon.credits.saturating_add(4);
    }
    let recovery_healed = if dungeon.has_module(ModuleId::RecoveryMatrix) { dungeon.recover_hp(5) } else { 0 };
    PostVictoryModuleEffects { nanoforge_healed, salvage_applied, recovery_healed }
}

} // verus!
