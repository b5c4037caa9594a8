//! Saved runs: the saved forms of a run and the names its values are saved under.
use vstd::prelude::*;

use crate::content::{CardId, EnemyProfileId, EventId, ModuleId, RewardTier, card_slug, resolve_card_slug, spec_card_slug};
use crate::combat::{CombatOutcome, EncounterEnemySetup, EncounterSetup, TurnPhase};
use crate::dungeon::{RoomKind};
use crate::text::{owned, str_eq};

verus! {

/// The save format this library writes and restores.
pub const SAVE_FORMAT_VERSION: u32 = 3;
/// The game version written into saves.
pub const CURRENT_GAME_VERSION: &'static str = "0.1.0";
/// The card a saved deck entry with an unknown name restores as.
pub const DEFAULT_REPLACEMENT_CARD: CardId = CardId::FlareSlash;

#[derive(Clone, Debug, PartialEq, Eq)]
pub struct RunSaveEnvelope {
    pub save_format_version: u32,
    pub game_version: String,
    pub active_state: SavedRunState,
    pub fallback_checkpoint: SavedCheckpoint,
    pub log: Vec<String>,
}

#[derive(Clone, Debug, PartialEq, Eq)]
pub enum SavedRunState {
    MapScreen { dungeon: SavedDungeonRun },
    ModuleSelect { dungeon: SavedDungeonRun, module_select: SavedModuleSelectState },
    LevelIntro { dungeon: SavedDungeonRun },
    Rest { dungeon: SavedDungeonRun },
    Shop { dungeon: SavedDungeonRun, shop: SavedShopState },
    Event { dungeon: SavedDungeonRun, event: SavedEventState },
    Reward { dungeon: SavedDungeonRun, reward: SavedRewardState },
    Combat { dungeon: SavedDungeonRun, combat: SavedCombatState },
}

#[derive(Clone, Debug, PartialEq, Eq)]
pub enum SavedCheckpoint {
    MapScreen { dungeon: SavedDungeonRun },
    ModuleSelect { dungeon: SavedDungeonRun, module_select: SavedModuleSelectState },
    LevelIntro { dungeon: SavedDungeonRun },
    Rest { dungeon: SavedDungeonRun },
    Shop { dungeon: SavedDungeonRun, shop: SavedShopState },
    Event { dungeon: SavedDungeonRun, event: SavedEventState },
    Reward { dungeon: SavedDungeonRun, reward: SavedRewardState },
    EncounterStart { dungeon: SavedDungeonRun, encounter_setup: SavedEncounterSetup, source_deck: Vec<String> },
}

#[derive(Clone, Debug, PartialEq, Eq)]
pub struct SavedDungeonRun {
    pub seed: u64,
    pub current_level: usize,
    pub nodes: Vec<SavedDungeonNode>,
    pub current_node: Option<usize>,
    pub available_nodes: Vec<usize>,
    pub visited_nodes: Vec<usize>,
    pub deck: Vec<String>,
    pub modules: Option<Vec<String>>,
    pub player_hp: i32,
    pub player_max_hp: i32,
    pub credits: u32,
    pub combats_cleared: usize,
    pub elites_cleared: usize,
    pub rests_completed: usize,
    pub bosses_cleared: usize,
}

#[derive(Clone, Debug, PartialEq, Eq)]
pub struct SavedDungeonNode {
    pub id: usize,
    pub depth: usize,
    pub lane: usize,
    pub kind: String,
    pub next: Vec<usize>,
}

#[derive(Clone, Debug, PartialEq, Eq)]
pub struct SavedRewardState {
    pub tier: String,
    pub options: Vec<String>,
    pub followup_completed_run: bool,
    pub seed: u64,
}

#[derive(Clone, Debug, PartialEq, Eq)]
pub struct SavedModuleSelectState {
    pub options: Vec<String>,
    pub seed: u64,
    pub kind: Option<String>,
    pub boss_level: Option<usize>,
}

#[derive(Clone, Debug, PartialEq, Eq)]
pub struct SavedShopState {
    pub offers: Vec<SavedShopOffer>,
    pub seed: u64,
}

#[derive(Clone, Debug, PartialEq, Eq)]
pub struct SavedShopOffer {
    pub card: String,
    pub price: u32,
}

#[derive(Clone, Debug, PartialEq, Eq)]
pub struct SavedEventState {
    pub event: String,
}

#[derive(Clone, Debug, PartialEq, Eq)]
pub struct SavedCombatState {
    pub player: SavedPlayerState,
    pub enemies: Vec<SavedEnemyState>,
    pub deck: SavedDeckState,
    pub phase: String,
    pub turn: u32,
    pub rng_state: u64,
}

#[derive(Clone, Debug, PartialEq, Eq)]
pub struct SavedPlayerState {
    pub fighter: SavedFighterState,
    pub energy: u8,
    pub max_energy: u8,
}

#[derive(Clone, Debug, PartialEq, Eq)]
pub struct SavedEnemyState {
    pub fighter: SavedFighterState,
    pub profile: String,
    pub intent_index: usize,
    pub on_hit_bleed: u8,
}

#[derive(Clone, Copy, Debug, PartialEq, Eq, Structural)]
pub struct SavedFighterState {
    pub hp: i32,
    pub max_hp: i32,
    pub block: i32,
    pub bleed: u8,
    pub focus: i8,
    pub rhythm: i8,
    pub momentum: i8,
}

#[derive(Clone, Debug, PartialEq, Eq)]
pub struct SavedDeckState {
    pub draw_pile: Vec<String>,
    pub hand: Vec<String>,
    pub discard_pile: Vec<String>,
}

#[derive(Clone, Debug, PartialEq, Eq)]
pub struct SavedEncounterSetup {
    pub player_hp: i32,
    pub player_max_hp: i32,
    pub player_max_energy: u8,
    pub enemies: Vec<SavedEncounterEnemyState>,
}

#[derive(Clone, Debug, PartialEq, Eq)]
pub struct SavedEncounterEnemyState {
    pub hp: i32,
    pub max_hp: i32,
    pub block: i32,
    pub profile: String,
    pub intent_index: usize,
    pub on_hit_bleed: u8,
}

impl RunSaveEnvelope {
    /// A save of the current format and game version.
    pub fn new(active_state: SavedRunState, fallback_checkpoint: SavedCheckpoint, log: Vec<String>) -> (envelope: Self)
        ensures
            envelope.save_format_version == SAVE_FORMAT_VERSION,
            envelope.game_version@ == CURRENT_GAME_VERSION@,
            envelope.active_state == active_state,
            envelope.fallback_checkpoint == fallback_checkpoint,
            envelope.log == log,
    {
        RunSaveEnvelope {
            save_format_version: SAVE_FORMAT_VERSION,
            game_version: owned(CURRENT_GAME_VERSION),
            active_state,
            fallback_checkpoint,
            log,
        }
    }
}

/// Why a save's format version is refused.
#[derive(Clone, Copy, Debug, PartialEq, Eq, Structural)]
pub enum SaveVersionError {
    Missing,
    Unsupported(u64),
}

/// Only saves of exactly the current format restore; older snapshots are refused on purpose.
pub fn check_save_format_version(version: Option<u64>) -> (checked: Result<u32, SaveVersionError>)
    ensures
        checked == (match version {
            None => Err(SaveVersionError::Missing),
            Some(v) => if v as u32 == SAVE_FORMAT_VERSION { Ok(SAVE_FORMAT_VERSION) } else { Err(SaveVersionError::Unsupported(v)) },
        }),
{
    match version {
        None => Err(SaveVersionError::Missing),
        Some(v) => {
            #[verifier::truncate]
            let narrowed = v as u32;
            if narrowed == SAVE_FORMAT_VERSION {
                Ok(SAVE_FORMAT_VERSION)
            } else {
                Err(SaveVersionError::Unsupported(v))
            }
        },
    }
}

pub fn serialize_card_id(id: CardId) -> (name: &'static str)
    ensures
        name == spec_card_slug(id),
{
    card_slug(id)
}

pub fn resolve_card_id(name: &str) -> (id: Option<CardId>)
    ensures
        id matches Some(card) ==> spec_card_slug(card)@ == name@,
        id is None ==> forall|card: CardId| spec_card_slug(card)@ != name@,
{
    resolve_card_slug(name)
}

/// The card a saved deck entry restores as: the named card, or the replacement card for an
/// unknown name.
pub fn resolve_deck_card_id(name: &str) -> (id: CardId)
    ensures
        (exists|card: CardId| spec_card_slug(card)@ == name@) ==> spec_card_slug(id)@ == name@,
        !(exists|card: CardId| spec_card_slug(card)@ == name@) ==> id == DEFAULT_REPLACEMENT_CARD,
{
    match resolve_card_id(name) {
        Some(card) => card,
        None => DEFAULT_REPLACEMENT_CARD,
    }
}

/// An encounter enemy as saved.
pub open spec fn spec_saved_enemy(e: EncounterEnemySetup) -> (i32, i32, i32, Seq<char>, usize, u8) {
    (e.hp, e.max_hp, e.block, spec_serialize_enemy_profile(e.profile)@, e.intent_index, e.on_hit_bleed)
}

pub open spec fn saved_enemy_fields(e: SavedEncounterEnemyState) -> (i32, i32, i32, Seq<char>, usize, u8) {
    (e.hp, e.max_hp, e.block, e.profile@, e.intent_index, e.on_hit_bleed)
}

/// An encounter setup as saved: the same numbers, enemies by name.
pub fn save_encounter_setup(setup: EncounterSetup) -> (saved: SavedEncounterSetup)
    ensures
        saved.player_hp == setup.player_hp,
        saved.player_max_hp == setup.player_max_hp,
        saved.player_max_energy == setup.player_max_energy,
        saved.enemies@.len() == setup.enemies@.len(),
        forall|i: int| 0 <= i < setup.enemies@.len() ==> saved_enemy_fields(#[trigger] saved.enemies@[i]) == spec_saved_enemy(setup.enemies@[i]),
{
    let mut enemies: Vec<SavedEncounterEnemyState> = Vec::new();
    let mut i: usize = 0;
    while i < setup.enemies.len()
        invariant
            i <= setup.enemies.len(),
            enemies@.len() == i,
            forall|k: int| 0 <= k < i ==> saved_enemy_fields(#[trigger] enemies@[k]) == spec_saved_enemy(setup.enemies@[k]),
        decreases setup.enemies.len() - i,
    {
        let enemy = setup.enemies[i];
        enemies.push(SavedEncounterEnemyState {
            hp: enemy.hp,
            max_hp: enemy.max_hp,
            block: enemy.block,
            profile: owned(serialize_enemy_profile(enemy.profile)),
            intent_index: enemy.intent_index,
            on_hit_bleed: enemy.on_hit_bleed,
        });
        i = i + 1;
    }
    SavedEncounterSetup {
        player_hp: setup.player_hp,
        player_max_hp: setup.player_max_hp,
        player_max_energy: setup.player_max_energy,
        enemies,
    }
}

/// A saved encounter setup restored; refused when an enemy's name is unknown.
pub fn resolve_encounter_setup(setup: &SavedEncounterSetup) -> (restored: Option<EncounterSetup>)
    ensures
        restored is None <==> exists|i: int| 0 <= i < setup.enemies@.len() && spec_resolve_enemy_profile(#[trigger] setup.enemies@[i].profile@) is None,
        restored matches Some(s) ==> {
            &&& s.player_hp == setup.player_hp
            &&& s.player_max_hp == setup.player_max_hp
            &&& s.player_max_energy == setup.player_max_energy
            &&& s.enemies@.len() == setup.enemies@.len()
            &&& forall|i: int| 0 <= i < s.enemies@.len() ==> {
                let e = #[trigger] s.enemies@[i];
                let saved = setup.enemies@[i];
                &&& e.hp == saved.hp
                &&& e.max_hp == saved.max_hp
                &&& e.block == saved.block
                &&& spec_resolve_enemy_profile(saved.profile@) == Some(e.profile)
                &&& e.intent_index == saved.intent_index
                &&& e.on_hit_bleed == saved.on_hit_bleed
            }
        },
{
    let mut enemies: Vec<EncounterEnemySetup> = Vec::new();
    let mut i: usize = 0;
    while i < setup.enemies.len()
        invariant
            i <= setup.enemies.len(),
            enemies@.len() == i,
            forall|k: int| 0 <= k < i ==> spec_resolve_enemy_profile(#[trigger] setup.enemies@[k].profile@) is Some,
            forall|k: int| 0 <= k < i ==> {
                let e = #[trigger] enemies@[k];
                let saved = setup.enemies@[k];
                &&& e.hp == saved.hp
                &&& e.max_hp == saved.max_hp
                &&& e.block == saved.block
                &&& spec_resolve_enemy_profile(saved.profile@) == Some(e.profile)
                &&& e.intent_index == saved.intent_index
                &&& e.on_hit_bleed == saved.on_hit_bleed
            },
        decreases setup.enemies.len() - i,
    {
        let saved = &setup.enemies[i];
        let profile = match resolve_enemy_profile(saved.profile.as_str()) {
            Some(p) => p,
            None => {
                return None;
            },
        };
        enemies.push(EncounterEnemySetup {
            hp: saved.hp,
            max_hp: saved.max_hp,
            block: saved.block,
            profile,
            intent_index: saved.intent_index,
            on_hit_bleed: saved.on_hit_bleed,
        });
        i = i + 1;
    }
    Some(EncounterSetup {
        player_hp: setup.player_hp,
        player_max_hp: setup.player_max_hp,
        player_max_energy: setup.player_max_energy,
        enemies,
    })
}

/// Saving an encounter setup and restoring it gives the same setup back.
pub proof fn encounter_setup_round_trip(setup: EncounterSetup, saved: SavedEncounterSetup)
    requires
        saved.player_hp == setup.player_hp,
        saved.player_max_hp == setup.player_max_hp,
        saved.player_max_energy == setup.player_max_energy,
        saved.enemies@.len() == setup.enemies@.len(),
        forall|i: int| 0 <= i < setup.enemies@.len() ==> saved_enemy_fields(#[trigger] saved.enemies@[i]) == spec_saved_enemy(setup.enemies@[i]),
    ensures
        forall|i: int| 0 <= i < saved.enemies@.len() ==> spec_resolve_enemy_profile(#[trigger] saved.enemies@[i].profile@)
            == Some(setup.enemies@[i].profile),
{
    assert forall|i: int| 0 <= i < saved.enemies@.len() implies spec_resolve_enemy_profile(#[trigger] saved.enemies@[i].profile@)
        == Some(setup.enemies@[i].profile) by {
        assert(saved_enemy_fields(saved.enemies@[i]) == spec_saved_enemy(setup.enemies@[i]));
        enemy_profile_round_trip(setup.enemies@[i].profile);
    }
}
/// The name a ModuleId is saved under.
pub open spec fn spec_serialize_module_id(value: ModuleId) -> &'static str {
    match value {
        ModuleId::AegisDrive => "aegis_drive",
        ModuleId::TargetingRelay => "targeting_relay",
        ModuleId::Nanoforge => "nanoforge",
        ModuleId::CapacitorBank => "capacitor_bank",
        ModuleId::PrismScope => "prism_scope",
        ModuleId::SalvageLedger => "salvage_ledger",
        ModuleId::OverclockCore => "overclock_core",
        ModuleId::SuppressionField => "suppression_field",
        ModuleId::RecoveryMatrix => "recovery_matrix",
    }
}

pub fn serialize_module_id(value: ModuleId) -> (name: &'static str)
    ensures
        name == spec_serialize_module_id(value),
{
    match value {
        ModuleId::AegisDrive => "aegis_drive",
        ModuleId::TargetingRelay => "targeting_relay",
        ModuleId::Nanoforge => "nanoforge",
        ModuleId::CapacitorBank => "capacitor_bank",
        ModuleId::PrismScope => "prism_scope",
        ModuleId::SalvageLedger => "salvage_ledger",
        ModuleId::OverclockCore => "overclock_core",
        ModuleId::SuppressionField => "suppression_field",
        ModuleId::RecoveryMatrix => "recovery_matrix",
    }
}

/// The ModuleId saved under a name, if any.
pub open spec fn spec_resolve_module_id(name: Seq<char>) -> Option<ModuleId> {
    if name == "aegis_drive"@ {
        Some(ModuleId::AegisDrive)
    } else if name == "targeting_relay"@ {
        Some(ModuleId::TargetingRelay)
    } else if name == "nanoforge"@ {
        Some(ModuleId::Nanoforge)
    } else if name == "capacitor_bank"@ {
        Some(ModuleId::CapacitorBank)
    } else if name == "prism_scope"@ {
        Some(ModuleId::PrismScope)
    } else if name == "salvage_ledger"@ {
        Some(ModuleId::SalvageLedger)
    } else if name == "overclock_core"@ {
        Some(ModuleId::OverclockCore)
    } else if name == "suppression_field"@ {
        Some(ModuleId::SuppressionField)
    } else if name == "recovery_matrix"@ {
        Some(ModuleId::RecoveryMatrix)
    } else {
        None
    }
}

pub fn resolve_module_id(name: &str) -> (value: Option<ModuleId>)
    ensures
        value == spec_resolve_module_id(name@),
{
    if str_eq(name, "aegis_drive") {
        return Some(ModuleId::AegisDrive);
    }
    if str_eq(name, "targeting_relay") {
        return Some(ModuleId::TargetingRelay);
    }
    if str_eq(name, "nanoforge") {
        return Some(ModuleId::Nanoforge);
    }
    if str_eq(name, "capacitor_bank") {
        return Some(ModuleId::CapacitorBank);
    }
    if str_eq(name, "prism_scope") {
        return Some(ModuleId::PrismScope);
    }
    if str_eq(name, "salvage_ledger") {
        return Some(ModuleId::SalvageLedger);
    }
    if str_eq(name, "overclock_core") {
        return Some(ModuleId::OverclockCore);
    }
    if str_eq(name, "suppression_field") {
        return Some(ModuleId::SuppressionField);
    }
    if str_eq(name, "recovery_matrix") {
        return Some(ModuleId::RecoveryMatrix);
    }
    None
}

/// Reading back the saved name of a ModuleId gives the same value.
pub proof fn module_id_round_trip(value: ModuleId)
    ensures
        spec_resolve_module_id(spec_serialize_module_id(value)@) == Some(value),
{
    reveal_strlit("aegis_drive");
    reveal_strlit("targeting_relay");
    reveal_strlit("nanoforge");
    reveal_strlit("capacitor_bank");
    reveal_strlit("prism_scope");
    reveal_strlit("salvage_ledger");
    reveal_strlit("overclock_core");
    reveal_strlit("suppression_field");
    reveal_strlit("recovery_matrix");
    match value {
        ModuleId::AegisDrive => {}
        ModuleId::TargetingRelay => {
            assert("targeting_relay"@.len() != "aegis_drive"@.len());
        }
        ModuleId::Nanoforge => {
            assert("nanoforge"@.len() != "aegis_drive"@.len());
            assert("nanoforge"@.len() != "targeting_relay"@.len());
        }
        ModuleId::CapacitorBank => {
            assert("capacitor_bank"@.len() != "aegis_drive"@.len());
            assert("capacitor_bank"@.len() != "targeting_relay"@.len());
            assert("capacitor_bank"@.len() != "nanoforge"@.len());
        }
        ModuleId::PrismScope => {
            assert("prism_scope"@[0] != "aegis_drive"@[0]);
            assert("prism_scope"@.len() != "targeting_relay"@.len());
            assert("prism_scope"@.len() != "nanoforge"@.len());
            assert("prism_scope"@.len() != "capacitor_bank"@.len());
        }
        ModuleId::SalvageLedger => {
            assert("salvage_ledger"@.len() != "aegis_drive"@.len());
            assert("salvage_ledger"@.len() != "targeting_relay"@.len());
            assert("salvage_ledger"@.len() != "nanoforge"@.len());
            assert("salvage_ledger"@[0] != "capacitor_bank"@[0]);
            assert("salvage_ledger"@.len() != "prism_scope"@.len());
        }
        ModuleId::OverclockCore => {
            assert("overclock_core"@.len() != "aegis_drive"@.len());
            assert("overclock_core"@.len() != "targeting_relay"@.len());
            assert("overclock_core"@.len() != "nanoforge"@.len());
            assert("overclock_core"@[0] != "capacitor_bank"@[0]);
            assert("overclock_core"@.len() != "prism_scope"@.len());
            assert("overclock_core"@[0] != "salvage_ledger"@[0]);
        }
        ModuleId::SuppressionField => {
            assert("suppression_field"@.len() != "aegis_drive"@.len());
            assert("suppression_field"@.len() != "targeting_relay"@.len());
            assert("suppression_field"@.len() != "nanoforge"@.len());
            assert("suppression_field"@.len() != "capacitor_bank"@.len());
            assert("suppression_field"@.len() != "prism_scope"@.len());
            assert("suppression_field"@.len() != "salvage_ledger"@.len());
            assert("suppression_field"@.len() != "overclock_core"@.len());
        }
        ModuleId::RecoveryMatrix => {
            assert("recovery_matrix"@.len() != "aegis_drive"@.len());
            assert("recovery_matrix"@[0] != "targeting_relay"@[0]);
            assert("recovery_matrix"@.len() != "nanoforge"@.len());
            assert("recovery_matrix"@.len() != "capacitor_bank"@.len());
            assert("recovery_matrix"@.len() != "prism_scope"@.len());
            assert("recovery_matrix"@.len() != "salvage_ledger"@.len());
            assert("recovery_matrix"@.len() != "overclock_core"@.len());
            assert("recovery_matrix"@.len() != "suppression_field"@.len());
        }
    }
}

/// The name a EnemyProfileId is saved under.
pub open spec fn spec_serialize_enemy_profile(value: EnemyProfileId) -> &'static str {
    match value {
        EnemyProfileId::ScoutDrone => "scout_drone",
        EnemyProfileId::NeedlerDrone => "needler_drone",
        EnemyProfileId::RampartDrone => "rampart_drone",
        EnemyProfileId::SpineSentry => "spine_sentry",
        EnemyProfileId::PentaCore => "penta_core",
        EnemyProfileId::VoltMantis => "volt_mantis",
        EnemyProfileId::ShardWeaver => "shard_weaver",
        EnemyProfileId::PrismArray => "prism_array",
        EnemyProfileId::GlassBishop => "glass_bishop",
        EnemyProfileId::HexarchCore => "hexarch_core",
        EnemyProfileId::NullRaider => "null_raider",
        EnemyProfileId::RiftStalker => "rift_stalker",
        EnemyProfileId::SiegeSpider => "siege_spider",
        EnemyProfileId::RiftBastion => "rift_bastion",
        EnemyProfileId::HeptarchCore => "heptarch_core",
    }
}

pub fn serialize_enemy_profile(value: EnemyProfileId) -> (name: &'static str)
    ensures
        name == spec_serialize_enemy_profile(value),
{
    match value {
        EnemyProfileId::ScoutDrone => "scout_drone",
        EnemyProfileId::NeedlerDrone => "needler_drone",
        EnemyProfileId::RampartDrone => "rampart_drone",
        EnemyProfileId::SpineSentry => "spine_sentry",
        EnemyProfileId::PentaCore => "penta_core",
        EnemyProfileId::VoltMantis => "volt_mantis",
        EnemyProfileId::ShardWeaver => "shard_weaver",
        EnemyProfileId::PrismArray => "prism_array",
        EnemyProfileId::GlassBishop => "glass_bishop",
        EnemyProfileId::HexarchCore => "hexarch_core",
        EnemyProfileId::NullRaider => "null_raider",
        EnemyProfileId::RiftStalker => "rift_stalker",
        EnemyProfileId::SiegeSpider => "siege_spider",
        EnemyProfileId::RiftBastion => "rift_bastion",
        EnemyProfileId::HeptarchCore => "heptarch_core",
    }
}

/// The EnemyProfileId saved under a name, if any.
pub open spec fn spec_resolve_enemy_profile(name: Seq<char>) -> Option<EnemyProfileId> {
    if name == "scout_drone"@ {
        Some(EnemyProfileId::ScoutDrone)
    } else if name == "needler_drone"@ {
        Some(EnemyProfileId::NeedlerDrone)
    } else if name == "rampart_drone"@ {
        Some(EnemyProfileId::RampartDrone)
    } else if name == "spine_sentry"@ {
        Some(EnemyProfileId::SpineSentry)
    } else if name == "penta_core"@ {
        Some(EnemyProfileId::PentaCore)
    } else if name == "volt_mantis"@ {
        Some(EnemyProfileId::VoltMantis)
    } else if name == "shard_weaver"@ {
        Some(EnemyProfileId::ShardWeaver)
    } else if name == "prism_array"@ {
        Some(EnemyProfileId::PrismArray)
    } else if name == "glass_bishop"@ {
        Some(EnemyProfileId::GlassBishop)
    } else if name == "hexarch_core"@ {
        Some(EnemyProfileId::HexarchCore)
    } else if name == "null_raider"@ {
        Some(EnemyProfileId::NullRaider)
    } else if name == "rift_stalker"@ {
        Some(EnemyProfileId::RiftStalker)
    } else if name == "siege_spider"@ {
        Some(EnemyProfileId::SiegeSpider)
    } else if name == "rift_bastion"@ {
        Some(EnemyProfileId::RiftBastion)
    } else if name == "heptarch_core"@ {
        Some(EnemyProfileId::HeptarchCore)
    } else {
        None
    }
}

pub fn resolve_enemy_profile(name: &str) -> (value: Option<EnemyProfileId>)
    ensures
        value == spec_resolve_enemy_profile(name@),
{
    if str_eq(name, "scout_drone") {
        return Some(EnemyProfileId::ScoutDrone);
    }
    if str_eq(name, "needler_drone") {
        return Some(EnemyProfileId::NeedlerDrone);
    }
    if str_eq(name, "rampart_drone") {
        return Some(EnemyProfileId::RampartDrone);
    }
    if str_eq(name, "spine_sentry") {
        return Some(EnemyProfileId::SpineSentry);
    }
    if str_eq(name, "penta_core") {
        return Some(EnemyProfileId::PentaCore);
    }
    if str_eq(name, "volt_mantis") {
        return Some(EnemyProfileId::VoltMantis);
    }
    if str_eq(name, "shard_weaver") {
        return Some(EnemyProfileId::ShardWeaver);
    }
    if str_eq(name, "prism_array") {
        return Some(EnemyProfileId::PrismArray);
    }
    if str_eq(name, "glass_bishop") {
        return Some(EnemyProfileId::GlassBishop);
    }
    if str_eq(name, "hexarch_core") {
        return Some(EnemyProfileId::HexarchCore);
    }
    if str_eq(name, "null_raider") {
        return Some(EnemyProfileId::NullRaider);
    }
    if str_eq(name, "rift_stalker") {
        return Some(EnemyProfileId::RiftStalker);
    }
    if str_eq(name, "siege_spider") {
        return Some(EnemyProfileId::SiegeSpider);
    }
    if str_eq(name, "rift_bastion") {
        return Some(EnemyProfileId::RiftBastion);
    }
    if str_eq(name, "heptarch_core") {
        return Some(EnemyProfileId::HeptarchCore);
    }
    None
}

/// Reading back the saved name of a EnemyProfileId gives the same value.
pub proof fn enemy_profile_round_trip(value: EnemyProfileId)
    ensures
        spec_resolve_enemy_profile(spec_serialize_enemy_profile(value)@) == Some(value),
{
    reveal_strlit("scout_drone");
    reveal_strlit("needler_drone");
    reveal_strlit("rampart_drone");
    reveal_strlit("spine_sentry");
    reveal_strlit("penta_core");
    reveal_strlit("volt_mantis");
    reveal_strlit("shard_weaver");
    reveal_strlit("prism_array");
    reveal_strlit("glass_bishop");
    reveal_strlit("hexarch_core");
    reveal_strlit("null_raider");
    reveal_strlit("rift_stalker");
    reveal_strlit("siege_spider");
    reveal_strlit("rift_bastion");
    reveal_strlit("heptarch_core");
    match value {
        EnemyProfileId::ScoutDrone => {}
        EnemyProfileId::NeedlerDrone => {
            assert("needler_drone"@.len() != "scout_drone"@.len());
        }
        EnemyProfileId::RampartDrone => {
            assert("rampart_drone"@.len() != "scout_drone"@.len());
            assert("rampart_drone"@[0] != "needler_drone"@[0]);
        }
        EnemyProfileId::SpineSentry => {
            assert("spine_sentry"@.len() != "scout_drone"@.len());
            assert("spine_sentry"@.len() != "needler_drone"@.len());
            assert("spine_sentry"@.len() != "rampart_drone"@.len());
        }
        EnemyProfileId::PentaCore => {
            assert("penta_core"@.len() != "scout_drone"@.len());
            assert("penta_core"@.len() != "needler_drone"@.len());
            assert("penta_core"@.len() != "rampart_drone"@.len());
            assert("penta_core"@.len() != "spine_sentry"@.len());
        }
        EnemyProfileId::VoltMantis => {
            assert("volt_mantis"@[0] != "scout_drone"@[0]);
            assert("volt_mantis"@.len() != "needler_drone"@.len());
            assert("volt_mantis"@.len() != "rampart_drone"@.len());
            assert("volt_mantis"@.len() != "spine_sentry"@.len());
            assert("volt_mantis"@.len() != "penta_core"@.len());
        }
        EnemyProfileId::ShardWeaver => {
            assert("shard_weaver"@.len() != "scout_drone"@.len());
            assert("shard_weaver"@.len() != "needler_drone"@.len());
            assert("shard_weaver"@.len() != "rampart_drone"@.len());
            assert("shard_weaver"@[1] != "spine_sentry"@[1]);
            assert("shard_weaver"@.len() != "penta_core"@.len());
            assert("shard_weaver"@.len() != "volt_mantis"@.len());
        }
        EnemyProfileId::PrismArray => {
            assert("prism_array"@[0] != "scout_drone"@[0]);
            assert("prism_array"@.len() != "needler_drone"@.len());
            assert("prism_array"@.len() != "rampart_drone"@.len());
            assert("prism_array"@.len() != "spine_sentry"@.len());
            assert("prism_array"@.len() != "penta_core"@.len());
            assert("prism_array"@[0] != "volt_mantis"@[0]);
            assert("prism_array"@.len() != "shard_weaver"@.len());
        }
        EnemyProfileId::GlassBishop => {
            assert("glass_bishop"@.len() != "scout_drone"@.len());
            assert("glass_bishop"@.len() != "needler_drone"@.len());
            assert("glass_bishop"@.len() != "rampart_drone"@.len());
            assert("glass_bishop"@[0] != "spine_sentry"@[0]);
            assert("glass_bishop"@.len() != "penta_core"@.len());
            assert("glass_bishop"@.len() != "volt_mantis"@.len());
            assert("glass_bishop"@[0] != "shard_weaver"@[0]);
            assert("glass_bishop"@.len() != "prism_array"@.len());
        }
        EnemyProfileId::HexarchCore => {
            assert("hexarch_core"@.len() != "scout_drone"@.len());
            assert("hexarch_core"@.len() != "needler_drone"@.len());
            assert("hexarch_core"@.len() != "rampart_drone"@.len());
            assert("hexarch_core"@[0] != "spine_sentry"@[0]);
            assert("hexarch_core"@.len() != "penta_core"@.len());
            assert("hexarch_core"@.len() != "volt_mantis"@.len());
            assert("hexarch_core"@[0] != "shard_weaver"@[0]);
            assert("hexarch_core"@.len() != "prism_array"@.len());
            assert("hexarch_core"@[0] != "glass_bishop"@[0]);
        }
        EnemyProfileId::NullRaider => {
            assert("null_raider"@[0] != "scout_drone"@[0]);
            assert("null_raider"@.len() != "needler_drone"@.len());
            assert("null_raider"@.len() != "rampart_drone"@.len());
            assert("null_raider"@.len() != "spine_sentry"@.len());
            assert("null_raider"@.len() != "penta_core"@.len());
            assert("null_raider"@[0] != "volt_mantis"@[0]);
            assert("null_raider"@.len() != "shard_weaver"@.len());
            assert("null_raider"@[0] != "prism_array"@[0]);
            assert("null_raider"@.len() != "glass_bishop"@.len());
            assert("null_raider"@.len() != "hexarch_core"@.len());
        }
        EnemyProfileId::RiftStalker => {
            assert("rift_stalker"@.len() != "scout_drone"@.len());
            assert("rift_stalker"@.len() != "needler_drone"@.len());
            assert("rift_stalker"@.len() != "rampart_drone"@.len());
            assert("rift_stalker"@[0] != "spine_sentry"@[0]);
            assert("rift_stalker"@.len() != "penta_core"@.len());
            assert("rift_stalker"@.len() != "volt_mantis"@.len());
            assert("rift_stalker"@[0] != "shard_weaver"@[0]);
            assert("rift_stalker"@.len() != "prism_array"@.len());
            assert("rift_stalker"@[0] != "glass_bishop"@[0]);
            assert("rift_stalker"@[0] != "hexarch_core"@[0]);
            assert("rift_stalker"@.len() != "null_raider"@.len());
        }
        EnemyProfileId::SiegeSpider => {
            assert("siege_spider"@.len() != "scout_drone"@.len());
            assert("siege_spider"@.len() != "needler_drone"@.len());
            assert("siege_spider"@.len() != "rampart_drone"@.len());
            assert("siege_spider"@[1] != "spine_sentry"@[1]);
            assert("siege_spider"@.len() != "penta_core"@.len());
            assert("siege_spider"@.len() != "volt_mantis"@.len());
            assert("siege_spider"@[1] != "shard_weaver"@[1]);
            assert("siege_spider"@.len() != "prism_array"@.len());
            assert("siege_spider"@[0] != "glass_bishop"@[0]);
            assert("siege_spider"@[0] != "hexarch_core"@[0]);
            assert("siege_spider"@.len() != "null_raider"@.len());
            assert("siege_spider"@[0] != "rift_stalker"@[0]);
        }
        EnemyProfileId::RiftBastion => {
            assert("rift_bastion"@.len() != "scout_drone"@.len());
            assert("rift_bastion"@.len() != "needler_drone"@.len());
            assert("rift_bastion"@.len() != "rampart_drone"@.len());
            assert("rift_bastion"@[0] != "spine_sentry"@[0]);
            assert("rift_bastion"@.len() != "penta_core"@.len());
            assert("rift_bastion"@.len() != "volt_mantis"@.len());
            assert("rift_bastion"@[0] != "shard_weaver"@[0]);
            assert("rift_bastion"@.len() != "prism_array"@.len());
            assert("rift_bastion"@[0] != "glass_bishop"@[0]);
            assert("rift_bastion"@[0] != "hexarch_core"@[0]);
            assert("rift_bastion"@.len() != "null_raider"@.len());
            assert("rift_bastion"@[5] != "rift_stalker"@[5]);
            assert("rift_bastion"@[0] != "siege_spider"@[0]);
        }
        EnemyProfileId::HeptarchCore => {
            assert("heptarch_core"@.len() != "scout_drone"@.len());
            assert("heptarch_core"@[0] != "needler_drone"@[0]);
            assert("heptarch_core"@[0] != "rampart_drone"@[0]);
            assert("heptarch_core"@.len() != "spine_sentry"@.len());
            assert("heptarch_core"@.len() != "penta_core"@.len());
            assert("heptarch_core"@.len() != "volt_mantis"@.len());
            assert("heptarch_core"@.len() != "shard_weaver"@.len());
            assert("heptarch_core"@.len() != "prism_array"@.len());
            assert("heptarch_core"@.len() != "glass_bishop"@.len());
            assert("heptarch_core"@.len() != "hexarch_core"@.len());
            assert("heptarch_core"@.len() != "null_raider"@.len());
            assert("heptarch_core"@.len() != "rift_stalker"@.len());
            assert("heptarch_core"@.len() != "siege_spider"@.len());
            assert("heptarch_core"@.len() != "rift_bastion"@.len());
        }
    }
}

/// The name a RewardTier is saved under.
pub open spec fn spec_serialize_reward_tier(value: RewardTier) -> &'static str {
    match value {
        RewardTier::Combat => "combat",
        RewardTier::Elite => "elite",
        RewardTier::Boss => "boss",
    }
}

pub fn serialize_reward_tier(value: RewardTier) -> (name: &'static str)
    ensures
        name == spec_serialize_reward_tier(value),
{
    match value {
        RewardTier::Combat => "combat",
        RewardTier::Elite => "elite",
        RewardTier::Boss => "boss",
    }
}

/// The RewardTier saved under a name, if any.
pub open spec fn spec_resolve_reward_tier(name: Seq<char>) -> Option<RewardTier> {
    if name == "combat"@ {
        Some(RewardTier::Combat)
    } else if name == "elite"@ {
        Some(RewardTier::Elite)
    } else if name == "boss"@ {
        Some(RewardTier::Boss)
    } else {
        None
    }
}

pub fn resolve_reward_tier(name: &str) -> (value: Option<RewardTier>)
    ensures
        value == spec_resolve_reward_tier(name@),
{
    if str_eq(name, "combat") {
        return Some(RewardTier::Combat);
    }
    if str_eq(name, "elite") {
        return Some(RewardTier::Elite);
    }
    if str_eq(name, "boss") {
        return Some(RewardTier::Boss);
    }
    None
}

/// Reading back the saved name of a RewardTier gives the same value.
pub proof fn reward_tier_round_trip(value: RewardTier)
    ensures
        spec_resolve_reward_tier(spec_serialize_reward_tier(value)@) == Some(value),
{
    reveal_strlit("combat");
    reveal_strlit("elite");
    reveal_strlit("boss");
    match value {
        RewardTier::Combat => {}
        RewardTier::Elite => {
            assert("elite"@.len() != "combat"@.len());
        }
        RewardTier::Boss => {
            assert("boss"@.len() != "combat"@.len());
            assert("boss"@.len() != "elite"@.len());
        }
    }
}

/// The name a EventId is saved under.
pub open spec fn spec_serialize_event_id(value: EventId) -> &'static str {
    match value {
        EventId::SalvageCache => "salvage_cache",
        EventId::RelayTerminal => "relay_terminal",
        EventId::ClinicPod => "clinic_pod",
        EventId::ExchangeConsole => "exchange_console",
        EventId::PrototypeRack => "prototype_rack",
        EventId::CoolingVault => "cooling_vault",
    }
}

pub fn serialize_event_id(value: EventId) -> (name: &'static str)
    ensures
        name == spec_serialize_event_id(value),
{
    match value {
        EventId::SalvageCache => "salvage_cache",
        EventId::RelayTerminal => "relay_terminal",
        EventId::ClinicPod => "clinic_pod",
        EventId::ExchangeConsole => "exchange_console",
        EventId::PrototypeRack => "prototype_rack",
        EventId::CoolingVault => "cooling_vault",
    }
}

/// The EventId saved under a name, if any.
pub open spec fn spec_resolve_event_id(name: Seq<char>) -> Option<EventId> {
    if name == "salvage_cache"@ {
        Some(EventId::SalvageCache)
    } else if name == "relay_terminal"@ {
        Some(EventId::RelayTerminal)
    } else if name == "clinic_pod"@ {
        Some(EventId::ClinicPod)
    } else if name == "exchange_console"@ {
        Some(EventId::ExchangeConsole)
    } else if name == "prototype_rack"@ {
        Some(EventId::PrototypeRack)
    } else if name == "cooling_vault"@ {
        Some(EventId::CoolingVault)
    } else {
        None
    }
}

pub fn resolve_event_id(name: &str) -> (value: Option<EventId>)
    ensures
        value == spec_resolve_event_id(name@),
{
    if str_eq(name, "salvage_cache") {
        return Some(EventId::SalvageCache);
    }
    if str_eq(name, "relay_terminal") {
        return Some(EventId::RelayTerminal);
    }
    if str_eq(name, "clinic_pod") {
        return Some(EventId::ClinicPod);
    }
    if str_eq(name, "exchange_console") {
        return Some(EventId::ExchangeConsole);
    }
    if str_eq(name, "prototype_rack") {
        return Some(EventId::PrototypeRack);
    }
    if str_eq(name, "cooling_vault") {
        return Some(EventId::CoolingVault);
    }
    None
}

/// Reading back the saved name of a EventId gives the same value.
pub proof fn event_id_round_trip(value: EventId)
    ensures
        spec_resolve_event_id(spec_serialize_event_id(value)@) == Some(value),
{
    reveal_strlit("salvage_cache");
    reveal_strlit("relay_terminal");
    reveal_strlit("clinic_pod");
    reveal_strlit("exchange_console");
    reveal_strlit("prototype_rack");
    reveal_strlit("cooling_vault");
    match value {
        EventId::SalvageCache => {}
        EventId::RelayTerminal => {
            assert("relay_terminal"@.len() != "salvage_cache"@.len());
        }
        EventId::ClinicPod => {
            assert("clinic_pod"@.len() != "salvage_cache"@.len());
            assert("clinic_pod"@.len() != "relay_terminal"@.len());
        }
        EventId::ExchangeConsole => {
            assert("exchange_console"@.len() != "salvage_cache"@.len());
            assert("exchange_console"@.len() != "relay_terminal"@.len());
            assert("exchange_console"@.len() != "clinic_pod"@.len());
        }
        EventId::PrototypeRack => {
            assert("prototype_rack"@.len() != "salvage_cache"@.len());
            assert("prototype_rack"@[0] != "relay_terminal"@[0]);
            assert("prototype_rack"@.len() != "clinic_pod"@.len());
            assert("prototype_rack"@.len() != "exchange_console"@.len());
        }
        EventId::CoolingVault => {
            assert("cooling_vault"@[0] != "salvage_cache"@[0]);
            assert("cooling_vault"@.len() != "relay_terminal"@.len());
            assert("cooling_vault"@.len() != "clinic_pod"@.len());
            assert("cooling_vault"@.len() != "exchange_console"@.len());
            assert("cooling_vault"@.len() != "prototype_rack"@.len());
        }
    }
}

/// The name a RoomKind is saved under.
pub open spec fn spec_serialize_room_kind(value: RoomKind) -> &'static str {
    match value {
        RoomKind::Start => "start",
        RoomKind::Combat => "combat",
        RoomKind::Elite => "elite",
        RoomKind::Rest => "rest",
        RoomKind::Shop => "shop",
        RoomKind::Event => "event",
        RoomKind::Boss => "boss",
    }
}

pub fn serialize_room_kind(value: RoomKind) -> (name: &'static str)
    ensures
        name == spec_serialize_room_kind(value),
{
    match value {
        RoomKind::Start => "start",
        RoomKind::Combat => "combat",
        RoomKind::Elite => "elite",
        RoomKind::Rest => "rest",
        RoomKind::Shop => "shop",
        RoomKind::Event => "event",
        RoomKind::Boss => "boss",
    }
}

/// The RoomKind saved under a name, if any.
pub open spec fn spec_resolve_room_kind(name: Seq<char>) -> Option<RoomKind> {
    if name == "start"@ {
        Some(RoomKind::Start)
    } else if name == "combat"@ {
        Some(RoomKind::Combat)
    } else if name == "elite"@ {
        Some(RoomKind::Elite)
    } else if name == "rest"@ {
        Some(RoomKind::Rest)
    } else if name == "shop"@ {
        Some(RoomKind::Shop)
    } else if name == "event"@ {
        Some(RoomKind::Event)
    } else if name == "boss"@ {
        Some(RoomKind::Boss)
    } else {
        None
    }
}

pub fn resolve_room_kind(name: &str) -> (value: Option<RoomKind>)
    ensures
        value == spec_resolve_room_kind(name@),
{
    if str_eq(name, "start") {
        return Some(RoomKind::Start);
    }
    if str_eq(name, "combat") {
        return Some(RoomKind::Combat);
    }
    if str_eq(name, "elite") {
        return Some(RoomKind::Elite);
    }
    if str_eq(name, "rest") {
        return Some(RoomKind::Rest);
    }
    if str_eq(name, "shop") {
        return Some(RoomKind::Shop);
    }
    if str_eq(name, "event") {
        return Some(RoomKind::Event);
    }
    if str_eq(name, "boss") {
        return Some(RoomKind::Boss);
    }
    None
}

/// Reading back the saved name of a RoomKind gives the same value.
pub proof fn room_kind_round_trip(value: RoomKind)
    ensures
        spec_resolve_room_kind(spec_serialize_room_kind(value)@) == Some(value),
{
    reveal_strlit("start");
    reveal_strlit("combat");
    reveal_strlit("elite");
    reveal_strlit("rest");
    reveal_strlit("shop");
    reveal_strlit("event");
    reveal_strlit("boss");
    match value {
        RoomKind::Start => {}
        RoomKind::Combat => {
            assert("combat"@.len() != "start"@.len());
        }
        RoomKind::Elite => {
            assert("elite"@[0] != "start"@[0]);
            assert("elite"@.len() != "combat"@.len());
        }
        RoomKind::Rest => {
            assert("rest"@.len() != "start"@.len());
            assert("rest"@.len() != "combat"@.len());
            assert("rest"@.len() != "elite"@.len());
        }
        RoomKind::Shop => {
            assert("shop"@.len() != "start"@.len());
            assert("shop"@.len() != "combat"@.len());
            assert("shop"@.len() != "elite"@.len());
            assert("shop"@[0] != "rest"@[0]);
        }
        RoomKind::Event => {
            assert("event"@[0] != "start"@[0]);
            assert("event"@.len() != "combat"@.len());
            assert("event"@[1] != "elite"@[1]);
            assert("event"@.len() != "rest"@.len());
            assert("event"@.len() != "shop"@.len());
        }
        RoomKind::Boss => {
            assert("boss"@.len() != "start"@.len());
            assert("boss"@.len() != "combat"@.len());
            assert("boss"@.len() != "elite"@.len());
            assert("boss"@[0] != "rest"@[0]);
            assert("boss"@[0] != "shop"@[0]);
            assert("boss"@.len() != "event"@.len());
        }
    }
}

/// The name a TurnPhase is saved under.
pub open spec fn spec_serialize_turn_phase(value: TurnPhase) -> &'static str {
    match value {
        TurnPhase::PlayerTurn => "player_turn",
        TurnPhase::EnemyTurn => "enemy_turn",
        TurnPhase::Ended(CombatOutcome::Victory) => "ended_victory",
        TurnPhase::Ended(CombatOutcome::Defeat) => "ended_defeat",
    }
}

pub fn serialize_turn_phase(value: TurnPhase) -> (name: &'static str)
    ensures
        name == spec_serialize_turn_phase(value),
{
    match value {
        TurnPhase::PlayerTurn => "player_turn",
        TurnPhase::EnemyTurn => "enemy_turn",
        TurnPhase::Ended(CombatOutcome::Victory) => "ended_victory",
        TurnPhase::Ended(CombatOutcome::Defeat) => "ended_defeat",
    }
}

/// The TurnPhase saved under a name, if any.
pub open spec fn spec_resolve_turn_phase(name: Seq<char>) -> Option<TurnPhase> {
    if name == "player_turn"@ {
        Some(TurnPhase::PlayerTurn)
    } else if name == "enemy_turn"@ {
        Some(TurnPhase::EnemyTurn)
    } else if name == "ended_victory"@ {
        Some(TurnPhase::Ended(CombatOutcome::Victory))
    } else if name == "ended_defeat"@ {
        Some(TurnPhase::Ended(CombatOutcome::Defeat))
    } else {
        None
    }
}

pub fn resolve_turn_phase(name: &str) -> (value: Option<TurnPhase>)
    ensures
        value == spec_resolve_turn_phase(name@),
{
    if str_eq(name, "player_turn") {
        return Some(TurnPhase::PlayerTurn);
    }
    if str_eq(name, "enemy_turn") {
        return Some(TurnPhase::EnemyTurn);
    }
    if str_eq(name, "ended_victory") {
        return Some(TurnPhase::Ended(CombatOutcome::Victory));
    }
    if str_eq(name, "ended_defeat") {
        return Some(TurnPhase::Ended(CombatOutcome::Defeat));
    }
    None
}

/// Reading back the saved name of a TurnPhase gives the same value.
pub proof fn turn_phase_round_trip(value: TurnPhase)
    ensures
        spec_resolve_turn_phase(spec_serialize_turn_phase(value)@) == Some(value),
{
    reveal_strlit("player_turn");
    reveal_strlit("enemy_turn");
    reveal_strlit("ended_victory");
    reveal_strlit("ended_defeat");
    match value {
        TurnPhase::PlayerTurn => {}
        TurnPhase::EnemyTurn => {
            assert("enemy_turn"@.len() != "player_turn"@.len());
        }
        TurnPhase::Ended(CombatOutcome::Victory) => {
            assert("ended_victory"@.len() != "player_turn"@.len());
            assert("ended_victory"@.len() != "enemy_turn"@.len());
        }
        TurnPhase::Ended(CombatOutcome::Defeat) => {
            assert("ended_defeat"@.len() != "player_turn"@.len());
            assert("ended_defeat"@.len() != "enemy_turn"@.len());
            assert("ended_defeat"@.len() != "ended_victory"@.len());
        }
    }
}

} // verus!
