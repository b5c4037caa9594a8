//! The dungeon run: level maps, rooms, rewards and progress between fights.
use vstd::prelude::*;

use crate::content::{CardId, EnemyProfileId, EventChoiceEffect, EventId, Language, ModuleId, event_choice_effect, localized_text, ordered_events_for_level, spec_event_choice_effect, spec_localized_text, spec_ordered_events_for_level, spec_starter_deck, spec_upgraded_card, starter_deck, upgraded_card};
use crate::rng::{XorShift64};
use crate::combat::{DEFAULT_PLAYER_HP, EncounterEnemySetup, EncounterSetup, lemma_swap_multiset};

verus! {

pub const START_HP: i32 = DEFAULT_PLAYER_HP;
pub const REST_HEAL: i32 = 6;
pub const DUNGEON_LEVEL_COUNT: usize = 3;
pub const MAP_COLUMNS: usize = 7;
pub const MAP_REGULAR_DEPTHS: usize = 9;
pub const MAP_MAX_SEGMENT_MERGES: usize = 2;
pub const MAP_MAX_SEGMENTS_WITHOUT_BRIDGE: usize = 1;
pub const MAP_MAX_BRIDGE_SPAN: usize = 2;
pub const COMBAT_CREDITS_REWARD: u32 = 6;
pub const ELITE_CREDITS_REWARD: u32 = 14;
pub const BOSS_CREDITS_REWARD: u32 = 28;

#[derive(Clone, Copy, Debug, PartialEq, Eq, Structural)]
pub enum RoomKind {
    Start,
    Combat,
    Elite,
    Rest,
    Shop,
    Event,
    Boss,
}

#[derive(Clone, Debug, PartialEq, Eq)]
pub struct DungeonNode {
    pub id: usize,
    pub depth: usize,
    pub lane: usize,
    pub kind: RoomKind,
    pub next: Vec<usize>,
}

#[derive(Clone, Debug, PartialEq, Eq)]
pub struct DungeonRun {
    pub seed: u64,
    pub current_level: usize,
    pub nodes: Vec<DungeonNode>,
    pub current_node: Option<usize>,
    pub available_nodes: Vec<usize>,
    pub visited_nodes: Vec<usize>,
    pub deck: Vec<CardId>,
    pub modules: Vec<ModuleId>,
    pub player_hp: i32,
    pub player_max_hp: i32,
    pub credits: u32,
    pub combats_cleared: usize,
    pub elites_cleared: usize,
    pub rests_completed: usize,
    pub bosses_cleared: usize,
}

#[derive(Clone, Copy, Debug, PartialEq, Eq, Structural)]
pub enum DungeonProgress {
    Continue,
    Completed,
}

#[derive(Clone, Debug, PartialEq, Eq)]
pub enum NodeSelection {
    Encounter(EncounterSetup),
    Rest,
    Shop,
    Event(EventId),
}

#[derive(Clone, Copy, Debug, PartialEq, Eq, Structural)]
pub enum EventResolution {
    Credits { hp_lost: i32, credits_gained: u32 },
    Heal { healed: i32 },
    MaxHp { hp_lost: i32, max_hp_gained: i32 },
    Card { hp_lost: i32, card: CardId },
}

#[derive(Clone, Copy, Debug, PartialEq, Eq)]
pub struct LevelBriefing {
    pub codename: &'static str,
    pub summary: &'static str,
    pub combat_enemy: EnemyProfileId,
    pub elite_enemy: EnemyProfileId,
    pub boss_enemy: EnemyProfileId,
}

/// How one level of the dungeon is built and how hard its fights are.
#[derive(Clone, Copy, Debug, PartialEq, Eq)]
pub struct LevelProfile {
    pub briefing: LevelBriefing,
    pub combat_enemy_table: [EnemyProfileId; 2],
    pub elite_enemy_table: [EnemyProfileId; 2],
    pub path_count_min: usize,
    pub path_count_max: usize,
    pub start_lane_window: usize,
    pub safe_combat_depths: usize,
    pub pre_boss_rest_roll: u64,
    pub elite_roll: u64,
    pub rest_roll: u64,
    pub force_elite_min_depth: usize,
    pub force_rest_min_depth: usize,
    pub combat_hp_base: i32,
    pub combat_hp_per_depth: i32,
    pub combat_block: i32,
    pub combat_intent_shift: usize,
    pub elite_hp_base: i32,
    pub elite_hp_per_depth: i32,
    pub elite_block: i32,
    pub boss_hp: i32,
    pub boss_block: i32,
}

/// A level number kept within `1..=DUNGEON_LEVEL_COUNT`.
pub open spec fn clamp_level_spec(level: usize) -> usize {
    if level < 1 { 1 } else if level > DUNGEON_LEVEL_COUNT { DUNGEON_LEVEL_COUNT } else { level }
}

pub fn clamp_dungeon_level(level: usize) -> (clamped: usize)
    ensures
        clamped == clamp_level_spec(level),
{
    if level < 1 { 1 } else if level > DUNGEON_LEVEL_COUNT { DUNGEON_LEVEL_COUNT } else { level }
}

/// Bounds every level profile keeps.
pub open spec fn profile_in_bounds(p: LevelProfile) -> bool {
    &&& 1 <= p.path_count_min <= p.path_count_max <= 3
    &&& 1 <= p.start_lane_window <= MAP_COLUMNS
    &&& p.safe_combat_depths <= 5
    &&& p.force_elite_min_depth <= 10
    &&& p.force_rest_min_depth <= 10
    &&& p.pre_boss_rest_roll <= 1000
    &&& p.elite_roll <= 1000
    &&& p.rest_roll <= 1000
    &&& 0 <= p.combat_hp_base <= 1000
    &&& 0 <= p.combat_hp_per_depth <= 100
    &&& 0 <= p.combat_block <= 100
    &&& p.combat_intent_shift <= 10
    &&& 0 <= p.elite_hp_base <= 1000
    &&& 0 <= p.elite_hp_per_depth <= 100
    &&& 0 <= p.elite_block <= 100
    &&& 0 <= p.boss_hp <= 1000
    &&& 0 <= p.boss_block <= 100
}

pub open spec fn spec_level_profile(level: usize) -> LevelProfile {
    match clamp_level_spec(level) {
        1 => LevelProfile {
            briefing: LevelBriefing {
                codename: "Relay Fringe",
                summary: "Fast scouts probe the outer defenses before the Penta Core punishes greedy turns.",
                combat_enemy: EnemyProfileId::ScoutDrone,
                elite_enemy: EnemyProfileId::RampartDrone,
                boss_enemy: EnemyProfileId::PentaCore,
            },
            combat_enemy_table: [EnemyProfileId::ScoutDrone, EnemyProfileId::NeedlerDrone],
            elite_enemy_table: [EnemyProfileId::RampartDrone, EnemyProfileId::SpineSentry],
            path_count_min: 2,
            path_count_max: 2,
            start_lane_window: 3,
            safe_combat_depths: 3,
            pre_boss_rest_roll: 680,
            elite_roll: 105,
            rest_roll: 340,
            force_elite_min_depth: 4,
            force_rest_min_depth: 5,
            combat_hp_base: 28,
            combat_hp_per_depth: 4,
            combat_block: 0,
            combat_intent_shift: 0,
            elite_hp_base: 44,
            elite_hp_per_depth: 5,
            elite_block: 3,
            boss_hp: 72,
            boss_block: 6,
        },
        2 => LevelProfile {
            briefing: LevelBriefing {
                codename: "Fracture Span",
                summary: "Sharper pressure and exposed openings set up the Hexarch Core's burst turns.",
                combat_enemy: EnemyProfileId::VoltMantis,
                elite_enemy: EnemyProfileId::PrismArray,
                boss_enemy: EnemyProfileId::HexarchCore,
            },
            combat_enemy_table: [EnemyProfileId::VoltMantis, EnemyProfileId::ShardWeaver],
            elite_enemy_table: [EnemyProfileId::PrismArray, EnemyProfileId::GlassBishop],
            path_count_min: 2,
            path_count_max: 3,
            start_lane_window: 4,
            safe_combat_depths: 2,
            pre_boss_rest_roll: 520,
            elite_roll: 155,
            rest_roll: 255,
            force_elite_min_depth: 4,
            force_rest_min_depth: 5,
            combat_hp_base: 34,
            combat_hp_per_depth: 5,
            combat_block: 1,
            combat_intent_shift: 1,
            elite_hp_base: 52,
            elite_hp_per_depth: 6,
            elite_block: 5,
            boss_hp: 88,
            boss_block: 10,
        },
        _ => LevelProfile {
            briefing: LevelBriefing {
                codename: "Null Vault",
                summary: "The final descent leans on sustained pressure before the Heptarch Core closes hard.",
                combat_enemy: EnemyProfileId::NullRaider,
                elite_enemy: EnemyProfileId::SiegeSpider,
                boss_enemy: EnemyProfileId::HeptarchCore,
            },
            combat_enemy_table: [EnemyProfileId::NullRaider, EnemyProfileId::RiftStalker],
            elite_enemy_table: [EnemyProfileId::SiegeSpider, EnemyProfileId::RiftBastion],
            path_count_min: 3,
            path_count_max: 3,
            start_lane_window: 5,
            safe_combat_depths: 1,
            pre_boss_rest_roll: 360,
            elite_roll: 220,
            rest_roll: 180,
            force_elite_min_depth: 3,
            force_rest_min_depth: 5,
            combat_hp_base: 42,
            combat_hp_per_depth: 6,
            combat_block: 2,
            combat_intent_shift: 2,
            elite_hp_base: 64,
            elite_hp_per_depth: 7,
            elite_block: 7,
            boss_hp: 108,
            boss_block: 12,
        },
    }
}

/// The profile of a level (levels outside `1..=3` use the nearest one).
pub fn level_profile(level: usize) -> (profile: LevelProfile)
    ensures
        profile == spec_level_profile(level),
        profile_in_bounds(profile),
{
    match clamp_dungeon_level(level) {
        1 => LevelProfile {
            briefing: LevelBriefing {
                codename: "Relay Fringe",
                summary: "Fast scouts probe the outer defenses before the Penta Core punishes greedy turns.",
                combat_enemy: EnemyProfileId::ScoutDrone,
                elite_enemy: EnemyProfileId::RampartDrone,
                boss_enemy: EnemyProfileId::PentaCore,
            },
            combat_enemy_table: [EnemyProfileId::ScoutDrone, EnemyProfileId::NeedlerDrone],
            elite_enemy_table: [EnemyProfileId::RampartDrone, EnemyProfileId::SpineSentry],
            path_count_min: 2,
            path_count_max: 2,
            start_lane_window: 3,
            safe_combat_depths: 3,
            pre_boss_rest_roll: 680,
            elite_roll: 105,
            rest_roll: 340,
            force_elite_min_depth: 4,
            force_rest_min_depth: 5,
            combat_hp_base: 28,
            combat_hp_per_depth: 4,
            combat_block: 0,
            combat_intent_shift: 0,
            elite_hp_base: 44,
            elite_hp_per_depth: 5,
            elite_block: 3,
            boss_hp: 72,
            boss_block: 6,
        },
        2 => LevelProfile {
            briefing: LevelBriefing {
                codename: "Fracture Span",
                summary: "Sharper pressure and exposed openings set up the Hexarch Core's burst turns.",
                combat_enemy: EnemyProfileId::VoltMantis,
                elite_enemy: EnemyProfileId::PrismArray,
                boss_enemy: EnemyProfileId::HexarchCore,
            },
            combat_enemy_table: [EnemyProfileId::VoltMantis, EnemyProfileId::ShardWeaver],
            elite_enemy_table: [EnemyProfileId::PrismArray, EnemyProfileId::GlassBishop],
            path_count_min: 2,
            path_count_max: 3,
            start_lane_window: 4,
            safe_combat_depths: 2,
            pre_boss_rest_roll: 520,
            elite_roll: 155,
            rest_roll: 255,
            force_elite_min_depth: 4,
            force_rest_min_depth: 5,
            combat_hp_base: 34,
            combat_hp_per_depth: 5,
            combat_block: 1,
            combat_intent_shift: 1,
            elite_hp_base: 52,
            elite_hp_per_depth: 6,
            elite_block: 5,
            boss_hp: 88,
            boss_block: 10,
        },
        _ => LevelProfile {
            briefing: LevelBriefing {
                codename: "Null Vault",
                summary: "The final descent leans on sustained pressure before the Heptarch Core closes hard.",
                combat_enemy: EnemyProfileId::NullRaider,
                elite_enemy: EnemyProfileId::SiegeSpider,
                boss_enemy: EnemyProfileId::HeptarchCore,
            },
            combat_enemy_table: [EnemyProfileId::NullRaider, EnemyProfileId::RiftStalker],
            elite_enemy_table: [EnemyProfileId::SiegeSpider, EnemyProfileId::RiftBastion],
            path_count_min: 3,
            path_count_max: 3,
            start_lane_window: 5,
            safe_combat_depths: 1,
            pre_boss_rest_roll: 360,
            elite_roll: 220,
            rest_roll: 180,
            force_elite_min_depth: 3,
            force_rest_min_depth: 5,
            combat_hp_base: 42,
            combat_hp_per_depth: 6,
            combat_block: 2,
            combat_intent_shift: 2,
            elite_hp_base: 64,
            elite_hp_per_depth: 7,
            elite_block: 7,
            boss_hp: 108,
            boss_block: 12,
        },
    }
}

impl LevelProfile {
    /// A regular fight's enemy hit points at `depth`.
    pub fn combat_hp(self, depth: usize) -> (hp: i32)
        requires
            profile_in_bounds(self),
            depth <= 1000,
        ensures
            hp == self.combat_hp_base + depth * self.combat_hp_per_depth,
            0 <= hp <= 101_000,
    {
        proof {
            assert(depth * self.combat_hp_per_depth <= 1000 * 100) by (nonlinear_arith)
                requires depth <= 1000, 0 <= self.combat_hp_per_depth <= 100;
            assert(depth * self.combat_hp_per_depth >= 0) by (nonlinear_arith)
                requires 0 <= depth, 0 <= self.combat_hp_per_depth;
        }
        self.combat_hp_base + depth as i32 * self.combat_hp_per_depth
    }

    /// An elite fight's enemy hit points at `depth`.
    pub fn elite_hp(self, depth: usize) -> (hp: i32)
        requires
            profile_in_bounds(self),
            depth <= 1000,
        ensures
            hp == self.elite_hp_base + depth * self.elite_hp_per_depth,
            0 <= hp <= 101_000,
    {
        proof {
            assert(depth * self.elite_hp_per_depth <= 1000 * 100) by (nonlinear_arith)
                requires depth <= 1000, 0 <= self.elite_hp_per_depth <= 100;
            assert(depth * self.elite_hp_per_depth >= 0) by (nonlinear_arith)
                requires 0 <= depth, 0 <= self.elite_hp_per_depth;
        }
        self.elite_hp_base + depth as i32 * self.elite_hp_per_depth
    }
}

/// What the briefing of a level says.
pub fn level_briefing(level: usize) -> (briefing: LevelBriefing)
    ensures
        briefing == spec_level_profile(level).briefing,
{
    level_profile(level).briefing
}

/// A level's codename in the given language.
pub fn localized_level_codename(level: usize, language: Language) -> (name: &'static str)
    ensures
        name == (match clamp_level_spec(level) {
            1 => spec_localized_text(language, "Relay Fringe", "Frontera de Relés"),
            2 => spec_localized_text(language, "Fracture Span", "Paso de Fractura"),
            _ => spec_localized_text(language, "Null Vault", "Bóveda Null"),
        }),
{
    match clamp_dungeon_level(level) {
        1 => localized_text(language, "Relay Fringe", "Frontera de Relés"),
        2 => localized_text(language, "Fracture Span", "Paso de Fractura"),
        _ => localized_text(language, "Null Vault", "Bóveda Null"),
    }
}

/// A level's summary in the given language.
pub fn localized_level_summary(level: usize, language: Language) -> (summary: &'static str)
    ensures
        summary == (match clamp_level_spec(level) {
            1 => spec_localized_text(
                language,
                "Fast scouts probe the outer defenses before the Penta Core punishes greedy turns.",
                "Exploradores veloces tantean las defensas exteriores antes de que el Núcleo Penta castigue los turnos codiciosos.",
            ),
            2 => spec_localized_text(
                language,
                "Sharper pressure and exposed openings set up the Hexarch Core's burst turns.",
                "Más presión y aperturas marcadas preparan los turnos explosivos del Núcleo Hexarch.",
            ),
            _ => spec_localized_text(
                language,
                "The final descent leans on sustained pressure before the Heptarch Core closes hard.",
                "El descenso final se apoya en una presión sostenida antes de que el Núcleo Heptarch remate con fuerza.",
            ),
        }),
{
    match clamp_dungeon_level(level) {
        1 => localized_text(
            language,
            "Fast scouts probe the outer defenses before the Penta Core punishes greedy turns.",
            "Exploradores veloces tantean las defensas exteriores antes de que el Núcleo Penta castigue los turnos codiciosos.",
        ),
        2 => localized_text(
            language,
            "Sharper pressure and exposed openings set up the Hexarch Core's burst turns.",
            "Más presión y aperturas marcadas preparan los turnos explosivos del Núcleo Hexarch.",
        ),
        _ => localized_text(
            language,
            "The final descent leans on sustained pressure before the Heptarch Core closes hard.",
            "El descenso final se apoya en una presión sostenida antes de que el Núcleo Heptarch remate con fuerza.",
        ),
    }
}

/// The seed of a level's map: the run seed for the first level, mixed with the level after.
pub open spec fn spec_level_seed(base_seed: u64, level: usize) -> u64 {
    if level <= 1 {
        base_seed
    } else {
        base_seed ^ (level as u64).wrapping_mul(0x9E37_79B9_7F4A_7C15u64) ^ ((level as u64) << 17u64)
    }
}

pub fn level_seed(base_seed: u64, level: usize) -> (seed: u64)
    ensures
        seed == spec_level_seed(base_seed, level),
{
    if level <= 1 {
        base_seed
    } else {
        base_seed ^ (level as u64).wrapping_mul(0x9E37_79B9_7F4A_7C15u64) ^ ((level as u64) << 17u64)
    }
}

pub open spec fn spec_credits_reward(kind: RoomKind) -> u32 {
    match kind {
        RoomKind::Combat => COMBAT_CREDITS_REWARD,
        RoomKind::Elite => ELITE_CREDITS_REWARD,
        RoomKind::Boss => BOSS_CREDITS_REWARD,
        _ => 0,
    }
}

/// The credits a cleared room pays.
pub fn credits_reward_for_room(kind: RoomKind) -> (credits: u32)
    ensures
        credits == spec_credits_reward(kind),
{
    match kind {
        RoomKind::Combat => COMBAT_CREDITS_REWARD,
        RoomKind::Elite => ELITE_CREDITS_REWARD,
        RoomKind::Boss => BOSS_CREDITS_REWARD,
        RoomKind::Start | RoomKind::Rest | RoomKind::Shop | RoomKind::Event => 0,
    }
}

/// `a` comes before `b` in (depth, lane) order.
pub open spec fn pos_before(a: (usize, usize), b: (usize, usize)) -> bool {
    a.0 < b.0 || (a.0 == b.0 && a.1 < b.1)
}

/// `a` comes before `b` in lexicographic order of the four coordinates.
pub open spec fn edge_before(a: (usize, usize, usize, usize), b: (usize, usize, usize, usize)) -> bool {
    a.0 < b.0 || (a.0 == b.0 && (a.1 < b.1 || (a.1 == b.1 && (a.2 < b.2 || (a.2 == b.2 && a.3 < b.3)))))
}

/// Strictly increasing positions: an ordered set.
pub open spec fn positions_sorted(s: Seq<(usize, usize)>) -> bool {
    forall|i: int, j: int| 0 <= i < j < s.len() ==> pos_before(#[trigger] s[i], #[trigger] s[j])
}

/// Strictly increasing edges: an ordered set.
pub open spec fn edges_sorted(s: Seq<(usize, usize, usize, usize)>) -> bool {
    forall|i: int, j: int| 0 <= i < j < s.len() ==> edge_before(#[trigger] s[i], #[trigger] s[j])
}

fn pos_less(a: (usize, usize), b: (usize, usize)) -> (less: bool)
    ensures
        less == pos_before(a, b),
{
    a.0 < b.0 || (a.0 == b.0 && a.1 < b.1)
}

fn edge_less(a: (usize, usize, usize, usize), b: (usize, usize, usize, usize)) -> (less: bool)
    ensures
        less == edge_before(a, b),
{
    a.0 < b.0 || (a.0 == b.0 && (a.1 < b.1 || (a.1 == b.1 && (a.2 < b.2 || (a.2 == b.2 && a.3 < b.3)))))
}

fn same_edge(a: (usize, usize, usize, usize), b: (usize, usize, usize, usize)) -> (same: bool)
    ensures
        same == (a == b),
{
    a.0 == b.0 && a.1 == b.1 && a.2 == b.2 && a.3 == b.3
}

/// Adds a position to an ordered set of positions.
fn insert_position(set: &mut Vec<(usize, usize)>, p: (usize, usize))
    requires
        positions_sorted(old(set)@),
        old(set)@.len() < usize::MAX,
    ensures
        positions_sorted(final(set)@),
        final(set)@.contains(p),
        forall|q: (usize, usize)| #[trigger] final(set)@.contains(q) <==> (old(set)@.contains(q) || q == p),
        forall|i: int| 0 <= i < final(set)@.len() ==> old(set)@.contains(#[trigger] final(set)@[i]) || final(set)@[i] == p,
        final(set)@.len() <= old(set)@.len() + 1,
{
    let mut i: usize = 0;
    while i < set.len()
        invariant
            i <= set.len(),
            set@ == old(set)@,
            forall|k: int| 0 <= k < i ==> pos_before(#[trigger] set@[k], p),
        ensures
            i <= set.len(),
            set@ == old(set)@,
            forall|k: int| 0 <= k < i ==> pos_before(#[trigger] set@[k], p),
            i < set.len() ==> !pos_before(set@[i as int], p),
        decreases set.len() - i,
    {
        if !pos_less(set[i], p) {
            break;
        }
        i = i + 1;
    }
    if i < set.len() && set[i].0 == p.0 && set[i].1 == p.1 {
        proof {
            assert(set@.contains(p));
        }
        return;
    }
    proof {
        assert(i < set@.len() ==> pos_before(p, set@[i as int]));
    }
    set.insert(i, p);
    proof {
        assert(set@[i as int] == p);
        assert forall|k: int| 0 <= k < set@.len() implies old(set)@.contains(#[trigger] set@[k]) || set@[k] == p by {
            if k < i {
                assert(old(set)@[k] == set@[k]);
            } else if k > i {
                assert(old(set)@[k - 1] == set@[k]);
            }
        }
        assert forall|q: (usize, usize)| #[trigger] set@.contains(q) <==> (old(set)@.contains(q) || q == p) by {
            if set@.contains(q) {
                let k = choose|k: int| 0 <= k < set@.len() && set@[k] == q;
                if k < i {
                    assert(old(set)@[k] == q);
                } else if k > i {
                    assert(old(set)@[k - 1] == q);
                }
            }
            if old(set)@.contains(q) {
                let k = choose|k: int| 0 <= k < old(set)@.len() && old(set)@[k] == q;
                if k < i {
                    assert(set@[k] == q);
                } else {
                    assert(set@[k + 1] == q);
                }
            }
        }
        assert forall|a: int, b: int| 0 <= a < b < set@.len() implies pos_before(#[trigger] set@[a], #[trigger] set@[b]) by {
            if b < i {
                assert(set@[a] == old(set)@[a] && set@[b] == old(set)@[b]);
            } else if b == i {
                assert(set@[a] == old(set)@[a]);
            } else if a < i {
                assert(set@[a] == old(set)@[a] && set@[b] == old(set)@[b - 1]);
                assert(pos_before(p, old(set)@[i as int]));
                if b - 1 > i {
                    assert(pos_before(old(set)@[i as int], old(set)@[b - 1]));
                }
            } else if a == i {
                assert(set@[b] == old(set)@[b - 1]);
                if b - 1 > i {
                    assert(pos_before(old(set)@[i as int], old(set)@[b - 1]));
                }
            } else {
                assert(set@[a] == old(set)@[a - 1] && set@[b] == old(set)@[b - 1]);
            }
        }
    }
}

/// Adds an edge to an ordered set of edges.
fn insert_edge(set: &mut Vec<(usize, usize, usize, usize)>, e: (usize, usize, usize, usize))
    requires
        edges_sorted(old(set)@),
        old(set)@.len() < usize::MAX,
    ensures
        edges_sorted(final(set)@),
        final(set)@.contains(e),
        forall|q: (usize, usize, usize, usize)| #[trigger] final(set)@.contains(q) <==> (old(set)@.contains(q) || q == e),
        forall|i: int| 0 <= i < final(set)@.len() ==> old(set)@.contains(#[trigger] final(set)@[i]) || final(set)@[i] == e,
        final(set)@.len() <= old(set)@.len() + 1,
{
    let mut i: usize = 0;
    while i < set.len()
        invariant
            i <= set.len(),
            set@ == old(set)@,
            forall|k: int| 0 <= k < i ==> edge_before(#[trigger] set@[k], e),
        ensures
            i <= set.len(),
            set@ == old(set)@,
            forall|k: int| 0 <= k < i ==> edge_before(#[trigger] set@[k], e),
            i < set.len() ==> !edge_before(set@[i as int], e),
        decreases set.len() - i,
    {
        if !edge_less(set[i], e) {
            break;
        }
        i = i + 1;
    }
    if i < set.len() && same_edge(set[i], e) {
        proof {
            assert(set@.contains(e));
        }
        return;
    }
    proof {
        assert(i < set@.len() ==> edge_before(e, set@[i as int]));
    }
    set.insert(i, e);
    proof {
        assert(set@[i as int] == e);
        assert forall|k: int| 0 <= k < set@.len() implies old(set)@.contains(#[trigger] set@[k]) || set@[k] == e by {
            if k < i {
                assert(old(set)@[k] == set@[k]);
            } else if k > i {
                assert(old(set)@[k - 1] == set@[k]);
            }
        }
        assert forall|q: (usize, usize, usize, usize)| #[trigger] set@.contains(q) <==> (old(set)@.contains(q) || q == e) by {
            if set@.contains(q) {
                let k = choose|k: int| 0 <= k < set@.len() && set@[k] == q;
                if k < i {
                    assert(old(set)@[k] == q);
                } else if k > i {
                    assert(old(set)@[k - 1] == q);
                }
            }
            if old(set)@.contains(q) {
                let k = choose|k: int| 0 <= k < old(set)@.len() && old(set)@[k] == q;
                if k < i {
                    assert(set@[k] == q);
                } else {
                    assert(set@[k + 1] == q);
                }
            }
        }
        assert forall|a: int, b: int| 0 <= a < b < set@.len() implies edge_before(#[trigger] set@[a], #[trigger] set@[b]) by {
            if b < i {
                assert(set@[a] == old(set)@[a] && set@[b] == old(set)@[b]);
            } else if b == i {
                assert(set@[a] == old(set)@[a]);
            } else if a < i {
                assert(set@[a] == old(set)@[a] && set@[b] == old(set)@[b - 1]);
                assert(edge_before(e, old(set)@[i as int]));
                if b - 1 > i {
                    assert(edge_before(old(set)@[i as int], old(set)@[b - 1]));
                }
            } else if a == i {
                assert(set@[b] == old(set)@[b - 1]);
                if b - 1 > i {
                    assert(edge_before(old(set)@[i as int], old(set)@[b - 1]));
                }
            } else {
                assert(set@[a] == old(set)@[a - 1] && set@[b] == old(set)@[b - 1]);
            }
        }
    }
}

/// Whether an ordered set of edges holds `e`.
fn edges_contain(set: &Vec<(usize, usize, usize, usize)>, e: (usize, usize, usize, usize)) -> (found: bool)
    ensures
        found == set@.contains(e),
{
    let mut i: usize = 0;
    while i < set.len()
        invariant
            i <= set.len(),
            forall|k: int| 0 <= k < i ==> #[trigger] set@[k] != e,
        decreases set.len() - i,
    {
        if same_edge(set[i], e) {
            return true;
        }
        i = i + 1;
    }
    false
}

/// `s` is in non-decreasing order.
pub open spec fn usizes_sorted(s: Seq<usize>) -> bool {
    forall|i: int, j: int| 0 <= i < j < s.len() ==> #[trigger] s[i] <= #[trigger] s[j]
}

/// Sorts lanes or ids in increasing order.
fn sort_usizes(v: &mut Vec<usize>)
    ensures
        usizes_sorted(final(v)@),
        final(v)@.to_multiset() == old(v)@.to_multiset(),
        final(v)@.len() == old(v)@.len(),
{
    let n = v.len();
    let mut i: usize = 1;
    proof {
        broadcast use vstd::seq_lib::group_to_multiset_ensures;
    }
    if n == 0 {
        return;
    }
    while i < n
        invariant
            1 <= i <= n,
            v@.len() == n,
            forall|a: int, b: int| 0 <= a < b < i ==> #[trigger] v@[a] <= #[trigger] v@[b],
            v@.to_multiset() == old(v)@.to_multiset(),
        decreases n - i,
    {
        let mut j: usize = i;
        while j > 0 && v[j - 1] > v[j]
            invariant
                0 <= j <= i < n,
                v@.len() == n,
                forall|a: int, b: int| 0 <= a < b <= i && a != j && b != j ==> #[trigger] v@[a] <= #[trigger] v@[b],
                forall|b: int| j < b <= i ==> v@[j as int] < #[trigger] v@[b],
                v@.to_multiset() == old(v)@.to_multiset(),
            decreases j,
        {
            let ghost before = v@;
            let a = v[j - 1];
            let b = v[j];
            v.set(j - 1, b);
            v.set(j, a);
            proof {
                broadcast use vstd::seq_lib::group_to_multiset_ensures;
                assert(v@ == before.update(j - 1, b).update(j as int, a));
                lemma_swap_multiset(before, j - 1, j as int);
            }
            j = j - 1;
        }
        proof {
            assert forall|a: int, b: int| 0 <= a < b < i + 1 implies #[trigger] v@[a] <= #[trigger] v@[b] by {
                if a == j && j > 0 {
                    assert(v@[j - 1] <= v@[j as int]);
                }
                if b == j && a < j - 1 {
                    assert(v@[a] <= v@[j - 1]);
                }
            }
        }
        i = i + 1;
    }
}

/// The sorted distinct values of `v`.
fn sorted_distinct(v: &Vec<usize>) -> (out: Vec<usize>)
    ensures
        forall|i: int, j: int| 0 <= i < j < out@.len() ==> #[trigger] out@[i] < #[trigger] out@[j],
        forall|x: usize| #[trigger] out@.contains(x) <==> v@.contains(x),
{
    let mut sorted: Vec<usize> = Vec::new();
    let mut c: usize = 0;
    while c < v.len()
        invariant
            c <= v.len(),
            sorted@ == v@.subrange(0, c as int),
        decreases v.len() - c,
    {
        sorted.push(v[c]);
        c = c + 1;
        proof {
            assert(sorted@ =~= v@.subrange(0, c as int));
        }
    }
    proof {
        assert(v@.subrange(0, v@.len() as int) =~= v@);
    }
    sort_usizes(&mut sorted);
    proof {
        assert forall|x: usize| sorted@.contains(x) <==> v@.contains(x) by {
            broadcast use vstd::seq_lib::group_to_multiset_ensures;
            assert(sorted@.to_multiset().count(x) == v@.to_multiset().count(x));
        }
    }
    let mut out: Vec<usize> = Vec::new();
    let mut i: usize = 0;
    while i < sorted.len()
        invariant
            i <= sorted.len(),
            usizes_sorted(sorted@),
            forall|a: int, b: int| 0 <= a < b < out@.len() ==> #[trigger] out@[a] < #[trigger] out@[b],
            forall|x: usize| #[trigger] out@.contains(x) <==> exists|k: int| 0 <= k < i && sorted@[k] == x,
            i > 0 ==> out@.len() > 0 && out@.last() == sorted@[i - 1],
            i == 0 ==> out@.len() == 0,
        decreases sorted.len() - i,
    {
        let x = sorted[i];
        let fresh = out.len() == 0 || out[out.len() - 1] != x;
        let ghost before = out@;
        if fresh {
            out.push(x);
        }
        proof {
            assert forall|y: usize| #[trigger] out@.contains(y) <==> exists|k: int| 0 <= k < i + 1 && sorted@[k] == y by {
                if out@.contains(y) {
                    if y != x {
                        let m = choose|m: int| 0 <= m < out@.len() && out@[m] == y;
                        assert(before[m] == y);
                        assert(before.contains(y));
                    } else {
                        assert(sorted@[i as int] == y);
                    }
                }
                if exists|k: int| 0 <= k < i + 1 && sorted@[k] == y {
                    let k = choose|k: int| 0 <= k < i + 1 && sorted@[k] == y;
                    if k < i {
                        assert(before.contains(y));
                        let m = choose|m: int| 0 <= m < before.len() && before[m] == y;
                        assert(out@[m] == y);
                    } else if fresh {
                        assert(out@[out@.len() - 1] == y);
                    } else {
                        assert(out@[out@.len() - 1] == y);
                    }
                }
            }
        }
        i = i + 1;
    }
    proof {
        assert forall|x: usize| #[trigger] out@.contains(x) <==> v@.contains(x) by {
            if sorted@.contains(x) {
                let k = choose|k: int| 0 <= k < sorted@.len() && sorted@[k] == x;
                assert(exists|k: int| 0 <= k < sorted@.len() && sorted@[k] == x);
            }
        }
    }
    out
}

/// `|a - b|`.
pub open spec fn abs_diff_spec(a: usize, b: usize) -> usize {
    if a >= b { (a - b) as usize } else { (b - a) as usize }
}

fn abs_diff(a: usize, b: usize) -> (d: usize)
    ensures
        d == abs_diff_spec(a, b),
{
    if a >= b { a - b } else { b - a }
}

/// Two segments between the same pair of depths cross.
pub open spec fn spec_edges_cross(from_a: usize, to_a: usize, from_b: usize, to_b: usize) -> bool {
    (from_a < from_b && to_a > to_b) || (from_a > from_b && to_a < to_b)
}

pub fn edges_cross(from_a: usize, to_a: usize, from_b: usize, to_b: usize) -> (cross: bool)
    ensures
        cross == spec_edges_cross(from_a, to_a, from_b, to_b),
{
    (from_a < from_b && to_a > to_b) || (from_a > from_b && to_a < to_b)
}

/// The number of distinct lanes a map segment must reach.
pub open spec fn spec_min_segment_target_count(path_count: usize, segment_index: usize) -> usize {
    if path_count <= 1 {
        1
    } else if segment_index == 0 || segment_index + 2 >= MAP_REGULAR_DEPTHS {
        if path_count < 2 { path_count } else { 2 }
    } else {
        2
    }
}

pub fn min_segment_target_count(path_count: usize, segment_index: usize) -> (count: usize)
    requires
        segment_index < MAP_REGULAR_DEPTHS,
    ensures
        count == spec_min_segment_target_count(path_count, segment_index),
{
    if path_count <= 1 {
        1
    } else if segment_index == 0 || segment_index + 2 >= MAP_REGULAR_DEPTHS {
        if path_count < 2 { path_count } else { 2 }
    } else {
        2
    }
}

/// All lanes of `edges` stay on the map.
pub open spec fn lane_edges_on_map(edges: Seq<(usize, usize)>) -> bool {
    forall|i: int| 0 <= i < edges.len() ==> (#[trigger] edges[i]).0 < MAP_COLUMNS && edges[i].1 < MAP_COLUMNS
}

/// The distinct lanes the segment's edges lead to, in increasing order.
fn distinct_target_lanes(existing_edges: &Vec<(usize, usize)>) -> (targets: Vec<usize>)
    ensures
        forall|i: int, j: int| 0 <= i < j < targets@.len() ==> #[trigger] targets@[i] < #[trigger] targets@[j],
        forall|x: usize| #[trigger] targets@.contains(x) <==> exists|k: int| 0 <= k < existing_edges@.len() && existing_edges@[k].1 == x,
{
    let mut lanes: Vec<usize> = Vec::new();
    let mut i: usize = 0;
    while i < existing_edges.len()
        invariant
            i <= existing_edges.len(),
            lanes@.len() == i,
            forall|k: int| 0 <= k < i ==> #[trigger] lanes@[k] == existing_edges@[k].1,
        decreases existing_edges.len() - i,
    {
        lanes.push(existing_edges[i].1);
        i = i + 1;
    }
    let targets = sorted_distinct(&lanes);
    proof {
        assert forall|x: usize| #[trigger] targets@.contains(x) <==> exists|k: int| 0 <= k < existing_edges@.len() && existing_edges@[k].1 == x by {
            if lanes@.contains(x) {
                let k = choose|k: int| 0 <= k < lanes@.len() && lanes@[k] == x;
                assert(existing_edges@[k].1 == x);
            }
            if exists|k: int| 0 <= k < existing_edges@.len() && existing_edges@[k].1 == x {
                let k = choose|k: int| 0 <= k < existing_edges@.len() && existing_edges@[k].1 == x;
                assert(lanes@[k] == x);
            }
        }
    }
    targets
}

/// Picks `count` distinct starting lanes inside a window of `start_lane_window` lanes placed at
/// random, in a random order.
fn distinct_lanes(rng: &mut XorShift64, lane_count: usize, count: usize, start_lane_window: usize) -> (lanes: Vec<usize>)
    requires
        1 <= lane_count <= MAP_COLUMNS,
    ensures
        lanes@.len() == (if count < lane_count { count } else { lane_count }),
        forall|i: int| 0 <= i < lanes@.len() ==> #[trigger] lanes@[i] < lane_count,
        forall|i: int, j: int| 0 <= i < j < lanes@.len() ==> #[trigger] lanes@[i] != #[trigger] lanes@[j],
{
    let take = if count < lane_count { count } else { lane_count };
    let window = if start_lane_window < take { take } else if start_lane_window > lane_count { lane_count } else { start_lane_window };
    let window_start = if lane_count > window { rng.next_index(lane_count - window + 1) } else { 0 };
    let mut lanes: Vec<usize> = Vec::new();
    let mut k: usize = 0;
    while k < window
        invariant
            k <= window <= lane_count,
            window_start + window <= lane_count,
            lanes@.len() == k,
            forall|i: int| 0 <= i < k ==> #[trigger] lanes@[i] == window_start + i,
        decreases window - k,
    {
        lanes.push(window_start + k);
        k = k + 1;
    }
    let mut index: usize = lanes.len();
    while index > 1
        invariant
            0 <= index <= lanes@.len(),
            lanes@.len() == window,
            window <= lane_count,
            forall|i: int| 0 <= i < lanes@.len() ==> #[trigger] lanes@[i] < lane_count,
            forall|i: int, j: int| 0 <= i < j < lanes@.len() ==> #[trigger] lanes@[i] != #[trigger] lanes@[j],
        decreases index,
    {
        index = index - 1;
        let swap_with = rng.next_index(index + 1);
        let a = lanes[index];
        let b = lanes[swap_with];
        lanes.set(index, b);
        lanes.set(swap_with, a);
    }
    lanes.truncate(take);
    lanes
}

/// Among `candidates`, the lane with the lowest score (drift, distance from the centre, a
/// random jitter, bonuses for merging and for new targets) that crosses no existing edge,
/// respects the merge cap when asked to, and is a new target when one is required.
fn choose_best_lane(
    rng: &mut XorShift64,
    current_lane: usize,
    existing_edges: &Vec<(usize, usize)>,
    candidates: &Vec<usize>,
    enforce_merge_cap: bool,
    unique_targets: &Vec<usize>,
    must_claim_new_target: bool,
) -> (best: Option<usize>)
    requires
        current_lane < MAP_COLUMNS,
        forall|i: int| 0 <= i < candidates@.len() ==> #[trigger] candidates@[i] < MAP_COLUMNS,
        existing_edges@.len() <= 1000,
    ensures
        best matches Some(lane) ==> candidates@.contains(lane),
{
    let mut best_lane: Option<usize> = None;
    let mut best_score: u64 = u64::MAX;
    let mut c: usize = 0;
    while c < candidates.len()
        invariant
            c <= candidates.len(),
            current_lane < MAP_COLUMNS,
            existing_edges@.len() <= 1000,
            forall|i: int| 0 <= i < candidates@.len() ==> #[trigger] candidates@[i] < MAP_COLUMNS,
            best_lane matches Some(lane) ==> candidates@.contains(lane),
        decreases candidates.len() - c,
    {
        let lane = candidates[c];
        c = c + 1;
        let mut crosses = false;
        let mut usage: usize = 0;
        let mut e: usize = 0;
        while e < existing_edges.len()
            invariant
                e <= existing_edges.len(),
                existing_edges@.len() <= 1000,
                usage <= e,
            decreases existing_edges.len() - e,
        {
            let (from_lane, to_lane) = existing_edges[e];
            if edges_cross(current_lane, lane, from_lane, to_lane) {
                crosses = true;
            }
            if to_lane == lane {
                usage = usage + 1;
            }
            e = e + 1;
        }
        if crosses {
            continue;
        }
        if enforce_merge_cap && usage >= MAP_MAX_SEGMENT_MERGES {
            continue;
        }
        let mut is_new_target = true;
        let mut t: usize = 0;
        while t < unique_targets.len()
            invariant
                t <= unique_targets.len(),
            decreases unique_targets.len() - t,
        {
            if unique_targets[t] == lane {
                is_new_target = false;
            }
            t = t + 1;
        }
        if must_claim_new_target && !is_new_target {
            continue;
        }
        let drift = abs_diff(current_lane, lane) as u64;
        let center_bias = abs_diff(lane, MAP_COLUMNS / 2) as u64;
        let merge_bonus: u64 = if usage >= 1 { 10 } else { 0 };
        let diversity_bonus: u64 = if is_new_target { 9 } else { 0 };
        let jitter = rng.next_u64() % 17;
        let raw = drift * 8 + center_bias * 4 + jitter;
        let score = raw.saturating_sub(merge_bonus + diversity_bonus);
        if score < best_score {
            best_score = score;
            best_lane = Some(lane);
        }
    }
    best_lane
}

/// The lane a path moves to in the next depth: usually one an earlier path already reached
/// from the same lane, otherwise the best neighbouring lane.
fn choose_next_lane(
    rng: &mut XorShift64,
    current_lane: usize,
    existing_edges: &Vec<(usize, usize)>,
    path_index: usize,
    path_count: usize,
    segment_index: usize,
) -> (next: usize)
    requires
        current_lane < MAP_COLUMNS,
        lane_edges_on_map(existing_edges@),
        existing_edges@.len() <= 1000,
        segment_index < MAP_REGULAR_DEPTHS,
        path_index < path_count,
    ensures
        next < MAP_COLUMNS,
        abs_diff_spec(next, current_lane) <= 1 || exists|k: int| 0 <= k < existing_edges@.len() && existing_edges@[k] == (current_lane, next),
{
    let required_targets = min_segment_target_count(path_count, segment_index);
    let unique_targets = distinct_target_lanes(existing_edges);
    let remaining_paths_after = path_count - (path_index + 1);
    let must_claim_new_target = unique_targets.len() < required_targets
        && remaining_paths_after < required_targets - unique_targets.len();
    let mut from_current: Vec<usize> = Vec::new();
    let mut i: usize = 0;
    while i < existing_edges.len()
        invariant
            i <= existing_edges.len(),
            lane_edges_on_map(existing_edges@),
            from_current@.len() <= i,
            forall|k: int| 0 <= k < from_current@.len() ==> #[trigger] from_current@[k] < MAP_COLUMNS
                && exists|m: int| 0 <= m < existing_edges@.len() && existing_edges@[m] == (current_lane, from_current@[k]),
        decreases existing_edges.len() - i,
    {
        let (from_lane, to_lane) = existing_edges[i];
        if from_lane == current_lane {
            from_current.push(to_lane);
            proof {
                assert(existing_edges@[i as int] == (current_lane, to_lane));
            }
        }
        i = i + 1;
    }
    if !must_claim_new_target && from_current.len() > 0 {
        let reuse = from_current.len() >= 2 || rng.next_u64() % 1000 < 820;
        if reuse {
            let pick = rng.next_index(from_current.len());
            let lane = from_current[pick];
            return lane;
        }
    }
    let mut candidates: Vec<usize> = Vec::new();
    if current_lane > 0 {
        candidates.push(current_lane - 1);
    }
    candidates.push(current_lane);
    if current_lane + 1 < MAP_COLUMNS {
        candidates.push(current_lane + 1);
    }
    proof {
        assert forall|k: int| 0 <= k < candidates@.len() implies #[trigger] candidates@[k] < MAP_COLUMNS
            && abs_diff_spec(candidates@[k], current_lane) <= 1 by {}
    }
    match choose_best_lane(rng, current_lane, existing_edges, &candidates, true, &unique_targets, must_claim_new_target) {
        Some(lane) => lane,
        None => match choose_best_lane(rng, current_lane, existing_edges, &candidates, false, &unique_targets, must_claim_new_target) {
            Some(lane) => lane,
            None => {
                let pick = rng.next_index(candidates.len());
                candidates[pick]
            },
        },
    }
}

/// A possible extra edge between two paths, with its score (lower is better).
#[derive(Clone, Copy, Debug, PartialEq, Eq, Structural)]
pub struct BridgeCandidate {
    pub score: usize,
    pub from_lane: usize,
    pub to_lane: usize,
    pub center_x2: usize,
}

/// An edge goes one depth deeper between lanes on the map, and no deeper than the boss.
pub open spec fn edge_on_map(e: (usize, usize, usize, usize)) -> bool {
    &&& e.2 == e.0 + 1
    &&& e.2 <= MAP_REGULAR_DEPTHS + 1
    &&& e.1 < MAP_COLUMNS
    &&& e.3 < MAP_COLUMNS
}

/// Every edge is on the map.
pub open spec fn edges_on_map(edges: Seq<(usize, usize, usize, usize)>) -> bool {
    forall|i: int| 0 <= i < edges.len() ==> edge_on_map(#[trigger] edges[i])
}

pub proof fn lemma_edges_on_map_insert(old: Seq<(usize, usize, usize, usize)>, new: Seq<(usize, usize, usize, usize)>, e: (usize, usize, usize, usize))
    requires
        edges_on_map(old),
        edge_on_map(e),
        forall|i: int| 0 <= i < new.len() ==> old.contains(#[trigger] new[i]) || new[i] == e,
    ensures
        edges_on_map(new),
{
    assert forall|i: int| 0 <= i < new.len() implies edge_on_map(#[trigger] new[i]) by {
        if new[i] != e {
            assert(old.contains(new[i]));
            let k = choose|k: int| 0 <= k < old.len() && old[k] == new[i];
            assert(old[k] == new[i]);
        }
    }
}

/// Every position lies on the map.
pub open spec fn positions_on_map(positions: Seq<(usize, usize)>) -> bool {
    forall|i: int| 0 <= i < positions.len() ==> (#[trigger] positions[i]).0 <= MAP_REGULAR_DEPTHS + 1 && positions[i].1 < MAP_COLUMNS
}

/// How many of the first `n` edges leave lane `lane` at `depth`.
pub open spec fn edges_leaving(edges: Seq<(usize, usize, usize, usize)>, depth: usize, lane: usize, n: nat) -> nat
    decreases n,
{
    if n == 0 {
        0
    } else {
        edges_leaving(edges, depth, lane, (n - 1) as nat) + if edges[n - 1].0 == depth && edges[n - 1].1 == lane {
            1nat
        } else {
            0nat
        }
    }
}

/// How many of the first `n` edges arrive at lane `lane` of `depth`.
pub open spec fn edges_arriving(edges: Seq<(usize, usize, usize, usize)>, depth: usize, lane: usize, n: nat) -> nat
    decreases n,
{
    if n == 0 {
        0
    } else {
        edges_arriving(edges, depth, lane, (n - 1) as nat) + if edges[n - 1].2 == depth && edges[n - 1].3 == lane {
            1nat
        } else {
            0nat
        }
    }
}

/// One of the first `n` edges from `depth` to the next depth crosses a segment from lane
/// `from` to lane `to`.
pub open spec fn crosses_segment(edges: Seq<(usize, usize, usize, usize)>, depth: usize, from: usize, to: usize, n: int) -> bool {
    exists|k: int|
        0 <= k < n && #[trigger] edges[k].0 == depth && edges[k].2 == depth + 1 && spec_edges_cross(from, to, edges[k].1, edges[k].3)
}

/// A bridge from lane `from` at `depth` to lane `to` one depth deeper may be laid: both ends
/// are rooms, at most two lanes apart, not already linked, the start lane leaves at most once
/// so far, the end lane is reached by at most the merge cap, and it crosses no edge of the
/// segment.
pub open spec fn bridge_allowed(
    depth: usize,
    positions: Seq<(usize, usize)>,
    edges: Seq<(usize, usize, usize, usize)>,
    from: usize,
    to: usize,
) -> bool {
    &&& positions.contains((depth, from))
    &&& positions.contains(((depth + 1) as usize, to))
    &&& abs_diff_spec(from, to) <= MAP_MAX_BRIDGE_SPAN
    &&& !edges.contains((depth, from, (depth + 1) as usize, to))
    &&& edges_leaving(edges, depth, from, edges.len()) < 2
    &&& edges_arriving(edges, (depth + 1) as usize, to, edges.len()) <= MAP_MAX_SEGMENT_MERGES
    &&& !crosses_segment(edges, depth, from, to, edges.len() as int)
}

/// An added bridge links two rooms of adjacent depths at most two lanes apart, from depth 1 on
/// and at least two depths above the deepest room.
pub open spec fn bridge_shape(positions: Seq<(usize, usize)>, e: (usize, usize, usize, usize)) -> bool {
    &&& e.2 == e.0 + 1
    &&& 1 <= e.0
    &&& positions.contains((e.0, e.1))
    &&& positions.contains((e.2, e.3))
    &&& abs_diff_spec(e.1, e.3) <= MAP_MAX_BRIDGE_SPAN
    &&& exists|q: (usize, usize)| #[trigger] positions.contains(q) && q.0 >= e.0 + 2
}

/// The lanes occupied at `depth`, in increasing order.

fn lanes_at_depth(positions: &Vec<(usize, usize)>, depth: usize) -> (lanes: Vec<usize>)
    requires
        positions_on_map(positions@),
    ensures
        forall|i: int| 0 <= i < lanes@.len() ==> #[trigger] lanes@[i] < MAP_COLUMNS,
        forall|i: int| 0 <= i < lanes@.len() ==> positions@.contains((depth, #[trigger] lanes@[i])),
        lanes@.len() <= positions@.len(),
{
    let mut lanes: Vec<usize> = Vec::new();
    let mut i: usize = 0;
    while i < positions.len()
        invariant
            i <= positions.len(),
            positions_on_map(positions@),
            lanes@.len() <= i,
            forall|k: int| 0 <= k < lanes@.len() ==> #[trigger] lanes@[k] < MAP_COLUMNS,
            forall|k: int| 0 <= k < lanes@.len() ==> positions@.contains((depth, #[trigger] lanes@[k])),
        decreases positions.len() - i,
    {
        if positions[i].0 == depth {
            lanes.push(positions[i].1);
            proof {
                assert(positions@[i as int] == (depth, positions@[i as int].1));
            }
        }
        i = i + 1;
    }
    lanes
}

/// Sorts candidates by score, keeping the order of equal scores.
fn sort_candidates_by_score(v: &mut Vec<BridgeCandidate>)
    ensures
        forall|i: int, j: int| 0 <= i < j < final(v)@.len() ==> (#[trigger] final(v)@[i]).score <= (#[trigger] final(v)@[j]).score,
        final(v)@.to_multiset() == old(v)@.to_multiset(),
        final(v)@.len() == old(v)@.len(),
{
    let n = v.len();
    proof {
        broadcast use vstd::seq_lib::group_to_multiset_ensures;
    }
    if n == 0 {
        return;
    }
    let mut i: usize = 1;
    while i < n
        invariant
            1 <= i <= n,
            v@.len() == n,
            forall|a: int, b: int| 0 <= a < b < i ==> (#[trigger] v@[a]).score <= (#[trigger] v@[b]).score,
            v@.to_multiset() == old(v)@.to_multiset(),
        decreases n - i,
    {
        let mut j: usize = i;
        while j > 0 && v[j - 1].score > v[j].score
            invariant
                0 <= j <= i < n,
                v@.len() == n,
                forall|a: int, b: int| 0 <= a < b <= i && a != j && b != j ==> (#[trigger] v@[a]).score <= (#[trigger] v@[b]).score,
                forall|b: int| j < b <= i ==> v@[j as int].score < (#[trigger] v@[b]).score,
                v@.to_multiset() == old(v)@.to_multiset(),
            decreases j,
        {
            let ghost before = v@;
            let a = v[j - 1];
            let b = v[j];
            v.set(j - 1, b);
            v.set(j, a);
            proof {
                assert(v@ == before.update(j - 1, b).update(j as int, a));
                lemma_swap_multiset(before, j - 1, j as int);
            }
            j = j - 1;
        }
        proof {
            assert forall|a: int, b: int| 0 <= a < b < i + 1 implies (#[trigger] v@[a]).score <= (#[trigger] v@[b]).score by {
                if a == j && j > 0 {
                    assert(v@[j - 1].score <= v@[j as int].score);
                }
                if b == j && a < j - 1 {
                    assert(v@[a].score <= v@[j - 1].score);
                }
            }
        }
        i = i + 1;
    }
}

/// The possible bridges from `depth` to `depth + 1`, best first: no lane leaving more than
/// once already, at most two lanes apart, not an existing edge, no lane receiving more than
/// the merge cap, crossing nothing; scored by crowding, span, distance from the centre and
/// from the last bridge, and how recently the lanes were bridged.
fn bridge_candidates(
    depth: usize,
    positions: &Vec<(usize, usize)>,
    raw_edges: &Vec<(usize, usize, usize, usize)>,
    lane_last_bridge_depth: &Vec<Option<usize>>,
    last_bridge_center: Option<usize>,
) -> (candidates: Vec<BridgeCandidate>)
    requires
        depth <= MAP_REGULAR_DEPTHS,
        positions_on_map(positions@),
        positions@.len() <= 100,
        edges_on_map(raw_edges@),
        raw_edges@.len() <= 1000,
        lane_last_bridge_depth@.len() == MAP_COLUMNS,
        last_bridge_center matches Some(c) ==> c <= 2 * MAP_COLUMNS,
    ensures
        forall|i: int| 0 <= i < candidates@.len() ==> {
            let c = #[trigger] candidates@[i];
            &&& c.from_lane < MAP_COLUMNS
            &&& c.to_lane < MAP_COLUMNS
            &&& c.center_x2 == c.from_lane + c.to_lane
            &&& c.score <= 1000
            &&& bridge_allowed(depth, positions@, raw_edges@, c.from_lane, c.to_lane)
        },
        forall|i: int, j: int| 0 <= i < j < candidates@.len() ==> (#[trigger] candidates@[i]).score <= (#[trigger] candidates@[j]).score,
        candidates@.len() <= 100 * 100,
{
    let from_lanes = lanes_at_depth(positions, depth);
    let to_lanes = lanes_at_depth(positions, depth + 1);
    let mut candidates: Vec<BridgeCandidate> = Vec::new();
    let mut f: usize = 0;
    while f < from_lanes.len()
        invariant
            f <= from_lanes.len(),
            from_lanes@.len() <= 100,
            to_lanes@.len() <= 100,
            depth <= MAP_REGULAR_DEPTHS,
            forall|i: int| 0 <= i < from_lanes@.len() ==> #[trigger] from_lanes@[i] < MAP_COLUMNS,
            forall|i: int| 0 <= i < to_lanes@.len() ==> #[trigger] to_lanes@[i] < MAP_COLUMNS,
            forall|i: int| 0 <= i < from_lanes@.len() ==> positions@.contains((depth, #[trigger] from_lanes@[i])),
            forall|i: int| 0 <= i < to_lanes@.len() ==> positions@.contains(((depth + 1) as usize, #[trigger] to_lanes@[i])),
            edges_on_map(raw_edges@),
            raw_edges@.len() <= 1000,
            lane_last_bridge_depth@.len() == MAP_COLUMNS,
            last_bridge_center matches Some(c) ==> c <= 2 * MAP_COLUMNS,
            candidates@.len() <= f * 100,
            forall|i: int| 0 <= i < candidates@.len() ==> {
                let c = #[trigger] candidates@[i];
                &&& c.from_lane < MAP_COLUMNS
                &&& c.to_lane < MAP_COLUMNS
                &&& c.center_x2 == c.from_lane + c.to_lane
                &&& c.score <= 1000
                &&& bridge_allowed(depth, positions@, raw_edges@, c.from_lane, c.to_lane)
            },
        decreases from_lanes.len() - f,
    {
        let from_lane = from_lanes[f];
        f = f + 1;
        let mut outgoing: usize = 0;
        let mut e: usize = 0;
        while e < raw_edges.len()
            invariant
                e <= raw_edges.len(),
                outgoing <= e,
                outgoing == edges_leaving(raw_edges@, depth, from_lane, e as nat),
                depth <= MAP_REGULAR_DEPTHS,
            decreases raw_edges.len() - e,
        {
            if raw_edges[e].0 == depth && raw_edges[e].1 == from_lane {
                outgoing = outgoing + 1;
            }
            e = e + 1;
        }
        if outgoing >= 2 {
            continue;
        }
        let mut t: usize = 0;
        while t < to_lanes.len()
            invariant
                t <= to_lanes.len(),
                to_lanes@.len() <= 100,
                from_lane < MAP_COLUMNS,
                outgoing < 2,
                outgoing == edges_leaving(raw_edges@, depth, from_lane, raw_edges@.len()),
                positions@.contains((depth, from_lane)),
                depth <= MAP_REGULAR_DEPTHS,
                forall|i: int| 0 <= i < to_lanes@.len() ==> #[trigger] to_lanes@[i] < MAP_COLUMNS,
                forall|i: int| 0 <= i < to_lanes@.len() ==> positions@.contains(((depth + 1) as usize, #[trigger] to_lanes@[i])),
                raw_edges@.len() <= 1000,
                lane_last_bridge_depth@.len() == MAP_COLUMNS,
                last_bridge_center matches Some(c) ==> c <= 2 * MAP_COLUMNS,
                candidates@.len() <= f * 100 - 100 + t,
                forall|i: int| 0 <= i < candidates@.len() ==> {
                    let c = #[trigger] candidates@[i];
                    &&& c.from_lane < MAP_COLUMNS
                    &&& c.to_lane < MAP_COLUMNS
                    &&& c.center_x2 == c.from_lane + c.to_lane
                    &&& c.score <= 1000
                    &&& bridge_allowed(depth, positions@, raw_edges@, c.from_lane, c.to_lane)
                },
            decreases to_lanes.len() - t,
        {
            let to_lane = to_lanes[t];
            t = t + 1;
            let span = abs_diff(from_lane, to_lane);
            if span > MAP_MAX_BRIDGE_SPAN {
                continue;
            }
            if edges_contain(raw_edges, (depth, from_lane, depth + 1, to_lane)) {
                continue;
            }
            let mut incoming: usize = 0;
            let mut crosses = false;
            let mut k: usize = 0;
            while k < raw_edges.len()
                invariant
                    k <= raw_edges.len(),
                    incoming <= k,
                    incoming == edges_arriving(raw_edges@, (depth + 1) as usize, to_lane, k as nat),
                    crosses == crosses_segment(raw_edges@, depth, from_lane, to_lane, k as int),
                    depth <= MAP_REGULAR_DEPTHS,
                decreases raw_edges.len() - k,
            {
                let (fd, la, td, lb) = raw_edges[k];
                if td == depth + 1 && lb == to_lane {
                    incoming = incoming + 1;
                }
                if fd == depth && td == depth + 1 && edges_cross(from_lane, to_lane, la, lb) {
                    crosses = true;
                }
                proof {
                    if crosses_segment(raw_edges@, depth, from_lane, to_lane, k + 1) && !crosses_segment(raw_edges@, depth, from_lane, to_lane, k as int) {
                        let w = choose|w: int|
                            0 <= w < k + 1 && #[trigger] raw_edges@[w].0 == depth && raw_edges@[w].2 == depth + 1 && spec_edges_cross(
                                from_lane,
                                to_lane,
                                raw_edges@[w].1,
                                raw_edges@[w].3,
                            );
                        assert(w == k);
                    }
                }
                k = k + 1;
            }
            if incoming > MAP_MAX_SEGMENT_MERGES {
                continue;
            }
            if crosses {
                continue;
            }
            let center_bias = abs_diff(to_lane, MAP_COLUMNS / 2);
            let center_x2 = from_lane + to_lane;
            let repeat_center_penalty: usize = match last_bridge_center {
                Some(last_center) => {
                    let distance = abs_diff(center_x2, last_center);
                    if distance >= 3 { 0 } else { 14 - distance * 6 }
                },
                None => 0,
            };
            let freshness_from: usize = match lane_last_bridge_depth[from_lane] {
                Some(last_depth) => {
                    let age = if depth > last_depth { depth - last_depth } else { 0 };
                    18 / (if age < 1 { 1 } else { age })
                },
                None => 0,
            };
            let freshness_to: usize = match lane_last_bridge_depth[to_lane] {
                Some(last_depth) => {
                    let age = if depth > last_depth { depth - last_depth } else { 0 };
                    18 / (if age < 1 { 1 } else { age })
                },
                None => 0,
            };
            let score = outgoing * 10 + incoming * 8 + span * 6 + center_bias + repeat_center_penalty + freshness_from
                + freshness_to;
            candidates.push(BridgeCandidate { score, from_lane, to_lane, center_x2 });
        }
    }
    let ghost unsorted = candidates@;
    sort_candidates_by_score(&mut candidates);
    proof {
        broadcast use vstd::seq_lib::group_to_multiset_ensures;
        assert forall|i: int| 0 <= i < candidates@.len() implies {
            let c = #[trigger] candidates@[i];
            &&& c.from_lane < MAP_COLUMNS
            &&& c.to_lane < MAP_COLUMNS
            &&& c.center_x2 == c.from_lane + c.to_lane
            &&& c.score <= 1000
            &&& bridge_allowed(depth, positions@, raw_edges@, c.from_lane, c.to_lane)
        } by {
            assert(candidates@.to_multiset().count(candidates@[i]) > 0);
            assert(unsorted.contains(candidates@[i]));
            let w = choose|w: int| 0 <= w < unsorted.len() && unsorted[w] == candidates@[i];
            assert(unsorted[w] == candidates@[i]);
        }
    }
    candidates
}

/// Adds bridges between paths: at most one per segment, never in two segments in a row,
/// always after a segment without one when possible, and sometimes at random.
fn bridge_edges(positions: &Vec<(usize, usize)>, raw_edges: &mut Vec<(usize, usize, usize, usize)>, rng: &mut XorShift64)
    requires
        positions_on_map(positions@),
        positions@.len() <= 100,
        edges_on_map(old(raw_edges)@),
        edges_sorted(old(raw_edges)@),
        old(raw_edges)@.len() <= 900,
    ensures
        edges_on_map(final(raw_edges)@),
        edges_sorted(final(raw_edges)@),
        final(raw_edges)@.len() <= old(raw_edges)@.len() + MAP_REGULAR_DEPTHS,
        forall|e: (usize, usize, usize, usize)| old(raw_edges)@.contains(e) ==> #[trigger] final(raw_edges)@.contains(e),
        forall|e: (usize, usize, usize, usize)|
            #[trigger] final(raw_edges)@.contains(e) && !old(raw_edges)@.contains(e) ==> bridge_shape(positions@, e),
        forall|e1: (usize, usize, usize, usize), e2: (usize, usize, usize, usize)|
            #[trigger] final(raw_edges)@.contains(e1) && !old(raw_edges)@.contains(e1) && #[trigger] final(raw_edges)@.contains(e2)
                && !old(raw_edges)@.contains(e2) && e1.0 == e2.0 ==> e1 == e2,
{
    let mut max_depth: usize = 0;
    let mut p: usize = 0;
    while p < positions.len()
        invariant
            p <= positions.len(),
            positions_on_map(positions@),
            max_depth <= MAP_REGULAR_DEPTHS + 1,
            max_depth > 0 ==> exists|q: (usize, usize)| #[trigger] positions@.contains(q) && q.0 == max_depth,
        decreases positions.len() - p,
    {
        if positions[p].0 > max_depth {
            max_depth = positions[p].0;
            proof {
                assert(positions@.contains(positions@[p as int]));
            }
        }
        p = p + 1;
    }
    let mut segments_without_bridge: usize = 0;
    let mut lane_last_bridge_depth: Vec<Option<usize>> = Vec::new();
    let mut l: usize = 0;
    while l < MAP_COLUMNS
        invariant
            l <= MAP_COLUMNS,
            lane_last_bridge_depth@.len() == l,
        decreases MAP_COLUMNS - l,
    {
        lane_last_bridge_depth.push(None);
        l = l + 1;
    }
    let mut last_bridge_center: Option<usize> = None;
    let mut previous_segment_had_bridge = false;
    let end = if max_depth >= 1 { max_depth - 1 } else { 0 };
    let mut depth: usize = 1;
    while depth < end
        invariant
            1 <= depth,
            end <= MAP_REGULAR_DEPTHS,
            positions_on_map(positions@),
            positions@.len() <= 100,
            edges_on_map(raw_edges@),
            edges_sorted(raw_edges@),
            raw_edges@.len() <= old(raw_edges)@.len() + depth - 1,
            old(raw_edges)@.len() <= 900,
            lane_last_bridge_depth@.len() == MAP_COLUMNS,
            last_bridge_center matches Some(c) ==> c <= 2 * MAP_COLUMNS,
            segments_without_bridge <= depth,
            depth <= end + 1,
            forall|e: (usize, usize, usize, usize)| old(raw_edges)@.contains(e) ==> #[trigger] raw_edges@.contains(e),
            end == (if max_depth >= 1 { (max_depth - 1) as usize } else { 0usize }),
            max_depth > 0 ==> exists|q: (usize, usize)| #[trigger] positions@.contains(q) && q.0 == max_depth,
            forall|e: (usize, usize, usize, usize)|
                #[trigger] raw_edges@.contains(e) && !old(raw_edges)@.contains(e) ==> bridge_shape(positions@, e) && e.0 < depth,
            forall|e1: (usize, usize, usize, usize), e2: (usize, usize, usize, usize)|
                #[trigger] raw_edges@.contains(e1) && !old(raw_edges)@.contains(e1) && #[trigger] raw_edges@.contains(e2)
                    && !old(raw_edges)@.contains(e2) && e1.0 == e2.0 ==> e1 == e2,
        decreases end - depth,
    {
        let candidates = bridge_candidates(depth, positions, raw_edges, &lane_last_bridge_depth, last_bridge_center);
        let next_candidates = bridge_candidates(depth + 1, positions, raw_edges, &lane_last_bridge_depth, last_bridge_center);
        let must_bridge = candidates.len() > 0 && segments_without_bridge >= MAP_MAX_SEGMENTS_WITHOUT_BRIDGE;
        let preserve_window = candidates.len() > 0 && segments_without_bridge >= 1 && next_candidates.len() == 0;
        let threshold: u64 = if segments_without_bridge >= 1 { 520 } else { 220 };
        let should_add_bridge = must_bridge || preserve_window || (candidates.len() > 0 && !previous_segment_had_bridge
            && rng.next_u64() % 1000 < threshold);
        if should_add_bridge {
            let best_score = candidates[0].score;
            let mut best: Vec<BridgeCandidate> = Vec::new();
            best.push(candidates[0]);
            let mut c: usize = 1;
            while c < candidates.len()
                invariant
                    1 <= c <= candidates.len(),
                    best@.len() <= c,
                    best@.len() >= 1,
                    best_score <= 1000,
                    forall|i: int| 0 <= i < candidates@.len() ==> {
                        let x = #[trigger] candidates@[i];
                        &&& x.from_lane < MAP_COLUMNS
                        &&& x.to_lane < MAP_COLUMNS
                        &&& x.center_x2 == x.from_lane + x.to_lane
                        &&& x.score <= 1000
                        &&& bridge_allowed(depth, positions@, raw_edges@, x.from_lane, x.to_lane)
                    },
                    forall|i: int| 0 <= i < best@.len() ==> {
                        let x = #[trigger] best@[i];
                        &&& x.from_lane < MAP_COLUMNS
                        &&& x.to_lane < MAP_COLUMNS
                        &&& x.center_x2 == x.from_lane + x.to_lane
                        &&& bridge_allowed(depth, positions@, raw_edges@, x.from_lane, x.to_lane)
                    },
                decreases candidates.len() - c,
            {
                if candidates[c].score > best_score + 4 {
                    break;
                }
                best.push(candidates[c]);
                c = c + 1;
            }
            let choice = best[rng.next_index(best.len())];
            let ghost before = raw_edges@;
            let ghost added = (depth, choice.from_lane, (depth + 1) as usize, choice.to_lane);
            proof {
                assert(bridge_allowed(depth, positions@, before, choice.from_lane, choice.to_lane));
                let q = choose|q: (usize, usize)| #[trigger] positions@.contains(q) && q.0 == max_depth;
                assert(bridge_shape(positions@, added));
            }
            insert_edge(raw_edges, (depth, choice.from_lane, depth + 1, choice.to_lane));
            proof {
                lemma_edges_on_map_insert(before, raw_edges@, (depth, choice.from_lane, (depth + 1) as usize, choice.to_lane));
                assert(!old(raw_edges)@.contains(added));
                assert forall|e: (usize, usize, usize, usize)|
                    #[trigger] raw_edges@.contains(e) && !old(raw_edges)@.contains(e) implies bridge_shape(positions@, e) && e.0 < depth + 1 by {
                    if e != added {
                        assert(before.contains(e));
                    }
                }
                assert forall|e1: (usize, usize, usize, usize), e2: (usize, usize, usize, usize)|
                    #[trigger] raw_edges@.contains(e1) && !old(raw_edges)@.contains(e1) && #[trigger] raw_edges@.contains(e2)
                        && !old(raw_edges)@.contains(e2) && e1.0 == e2.0 implies e1 == e2 by {
                    if e1 != added {
                        assert(before.contains(e1));
                    }
                    if e2 != added {
                        assert(before.contains(e2));
                    }
                }
            }
            segments_without_bridge = 0;
            previous_segment_had_bridge = true;
            last_bridge_center = Some(choice.center_x2);
            lane_last_bridge_depth.set(choice.from_lane, Some(depth));
            lane_last_bridge_depth.set(choice.to_lane, Some(depth));
        } else {
            segments_without_bridge = segments_without_bridge + 1;
            previous_segment_had_bridge = false;
        }
        depth = depth + 1;
    }
}

/// A generated map's shape: node `i` has id `i`, every link points at an existing node one
/// depth deeper, and node 0 is the start room at depth 0.
pub open spec fn map_well_formed(nodes: Seq<DungeonNode>) -> bool {
    &&& nodes.len() >= 1
    &&& nodes.len() <= 100
    &&& forall|i: int| 0 <= i < nodes.len() ==> (#[trigger] nodes[i]).id == i
    &&& forall|i: int, k: int|
        0 <= i < nodes.len() && 0 <= k < nodes[i].next@.len() ==> {
            let j = #[trigger] nodes[i].next@[k];
            &&& j < nodes.len()
            &&& nodes[j as int].depth == nodes[i].depth + 1
        }
    &&& nodes[0].depth == 0
    &&& nodes[0].kind == RoomKind::Start
}

/// The index of `p` in an ordered set of positions.
fn position_index(positions: &Vec<(usize, usize)>, p: (usize, usize)) -> (index: Option<usize>)
    ensures
        index matches Some(i) ==> i < positions@.len() && positions@[i as int] == p,
        index is None ==> !positions@.contains(p),
{
    let mut i: usize = 0;
    while i < positions.len()
        invariant
            i <= positions.len(),
            forall|k: int| 0 <= k < i ==> #[trigger] positions@[k] != p,
        decreases positions.len() - i,
    {
        if positions[i].0 == p.0 && positions[i].1 == p.1 {
            return Some(i);
        }
        i = i + 1;
    }
    None
}

/// Whether some node leading into `index` has the given kind.
fn parent_has_kind(nexts: &Vec<Vec<usize>>, kinds: &Vec<RoomKind>, index: usize, kind: RoomKind) -> (found: bool)
    requires
        nexts@.len() == kinds@.len(),
{
    let mut j: usize = 0;
    while j < nexts.len()
        invariant
            j <= nexts.len(),
            nexts@.len() == kinds@.len(),
        decreases nexts.len() - j,
    {
        let mut k: usize = 0;
        while k < nexts[j].len()
            invariant
                k <= nexts@[j as int]@.len(),
                j < nexts@.len(),
                nexts@.len() == kinds@.len(),
            decreases nexts@[j as int]@.len() - k,
        {
            if nexts[j][k] == index && kinds[j] == kind {
                return true;
            }
            k = k + 1;
        }
        j = j + 1;
    }
    false
}

/// The nodes in `min_depth..=max_depth` still holding a plain fight.
fn combat_candidates(depths: &Vec<usize>, kinds: &Vec<RoomKind>, min_depth: usize, max_depth: usize) -> (candidates: Vec<usize>)
    requires
        depths@.len() == kinds@.len(),
    ensures
        forall|i: int| 0 <= i < candidates@.len() ==> #[trigger] candidates@[i] < kinds@.len() && kinds@[candidates@[i] as int] == RoomKind::Combat,
        forall|i: int| 0 <= i < candidates@.len() ==> min_depth <= #[trigger] depths@[candidates@[i] as int] <= max_depth,
        candidates@.len() <= kinds@.len(),
        candidates@.len() == 0 ==> forall|i: int|
            0 <= i < kinds@.len() && min_depth <= #[trigger] depths@[i] <= max_depth ==> kinds@[i] != RoomKind::Combat,
        forall|x: int|
            0 <= x < kinds@.len() && min_depth <= #[trigger] depths@[x] <= max_depth && kinds@[x] == RoomKind::Combat
                ==> candidates@.contains(x as usize),
        forall|a: int, b: int| 0 <= a < b < candidates@.len() ==> #[trigger] candidates@[a] < #[trigger] candidates@[b],
{
    let mut candidates: Vec<usize> = Vec::new();
    let mut i: usize = 0;
    while i < depths.len()
        invariant
            i <= depths.len(),
            depths@.len() == kinds@.len(),
            candidates@.len() <= i,
            forall|k: int| 0 <= k < candidates@.len() ==> #[trigger] candidates@[k] < kinds@.len() && kinds@[candidates@[k] as int] == RoomKind::Combat,
            forall|k: int| 0 <= k < candidates@.len() ==> min_depth <= #[trigger] depths@[candidates@[k] as int] <= max_depth,
            candidates@.len() == 0 ==> forall|k: int|
                0 <= k < i && min_depth <= #[trigger] depths@[k] <= max_depth ==> kinds@[k] != RoomKind::Combat,
            forall|x: int|
                0 <= x < i && min_depth <= #[trigger] depths@[x] <= max_depth && kinds@[x] == RoomKind::Combat
                    ==> candidates@.contains(x as usize),
            forall|a: int, b: int| 0 <= a < b < candidates@.len() ==> #[trigger] candidates@[a] < #[trigger] candidates@[b],
            forall|a: int| 0 <= a < candidates@.len() ==> #[trigger] candidates@[a] < i,
        decreases depths.len() - i,
    {
        let ghost before = candidates@;
        if depths[i] >= min_depth && depths[i] <= max_depth && kinds[i] == RoomKind::Combat {
            candidates.push(i);
            proof {
                assert(candidates@[candidates@.len() - 1] == i);
                assert forall|x: int|
                    0 <= x < i && min_depth <= #[trigger] depths@[x] <= max_depth && kinds@[x] == RoomKind::Combat
                        implies candidates@.contains(x as usize) by {
                    let w = choose|w: int| 0 <= w < before.len() && before[w] == x as usize;
                    assert(candidates@[w] == x as usize);
                }
            }
        }
        i = i + 1;
    }
    candidates
}

/// Makes sure a room of the `desired` kind exists in `min_depth..=max_depth`, turning a random
/// plain fight there into one when none does.
fn ensure_kind_present(
    depths: &Vec<usize>,
    kinds: &mut Vec<RoomKind>,
    desired: RoomKind,
    min_depth: usize,
    max_depth: usize,
    rng: &mut XorShift64,
)
    requires
        depths@.len() == old(kinds)@.len(),
    ensures
        final(kinds)@.len() == old(kinds)@.len(),
        forall|i: int| 0 <= i < final(kinds)@.len() ==> #[trigger] final(kinds)@[i] == old(kinds)@[i]
            || (old(kinds)@[i] == RoomKind::Combat && final(kinds)@[i] == desired && min_depth <= depths@[i] <= max_depth),
        kind_present_in(final(kinds)@, depths@, desired, min_depth as int, max_depth as int) || forall|i: int|
            0 <= i < old(kinds)@.len() && min_depth <= #[trigger] depths@[i] <= max_depth ==> old(kinds)@[i] != desired
                && old(kinds)@[i] != RoomKind::Combat,
{
    let mut i: usize = 0;
    while i < depths.len()
        invariant
            i <= depths.len(),
            depths@.len() == kinds@.len(),
            kinds@ == old(kinds)@,
            forall|k: int| 0 <= k < i && min_depth <= #[trigger] depths@[k] <= max_depth ==> kinds@[k] != desired,
        decreases depths.len() - i,
    {
        if kinds[i] == desired && depths[i] >= min_depth && depths[i] <= max_depth {
            return;
        }
        i = i + 1;
    }
    let candidates = combat_candidates(depths, kinds, min_depth, max_depth);
    if candidates.len() == 0 {
        return;
    }
    let choice = rng.next_index(candidates.len());
    let picked = candidates[choice];
    kinds.set(picked, desired);
    proof {
        assert(kinds@[picked as int] == desired);
        assert(min_depth <= depths@[picked as int] <= max_depth);
    }
}

/// Some room in `min_depth..=max_depth` is of kind `kind`.
pub open spec fn kind_present_in(kinds: Seq<RoomKind>, depths: Seq<usize>, kind: RoomKind, min_depth: int, max_depth: int) -> bool {
    exists|i: int| 0 <= i < kinds.len() && #[trigger] kinds[i] == kind && min_depth <= depths[i] <= max_depth
}

/// How many of the first `n` rooms are events.
pub open spec fn events_among(kinds: Seq<RoomKind>, n: nat) -> nat
    decreases n,
{
    if n == 0 {
        0
    } else {
        events_among(kinds, (n - 1) as nat) + if kinds[n - 1] == RoomKind::Event {
            1nat
        } else {
            0nat
        }
    }
}

proof fn lemma_events_among_update(kinds: Seq<RoomKind>, j: int, n: nat)
    requires
        0 <= j < kinds.len(),
        n <= kinds.len(),
        kinds[j] != RoomKind::Event,
    ensures
        events_among(kinds.update(j, RoomKind::Event), n) == events_among(kinds, n) + if j < n {
            1nat
        } else {
            0nat
        },
    decreases n,
{
    if n > 0 {
        lemma_events_among_update(kinds, j, (n - 1) as nat);
    }
}

proof fn lemma_events_among_bound(kinds: Seq<RoomKind>, n: nat)
    ensures
        events_among(kinds, n) <= n,
    decreases n,
{
    if n > 0 {
        lemma_events_among_bound(kinds, (n - 1) as nat);
    }
}

/// Turns random plain fights in `min_depth..=max_depth` into events until there are
/// `desired_count` events or no fight is left to turn.
fn ensure_event_count(
    depths: &Vec<usize>,
    kinds: &mut Vec<RoomKind>,
    desired_count: usize,
    min_depth: usize,
    max_depth: usize,
    rng: &mut XorShift64,
)
    requires
        depths@.len() == old(kinds)@.len(),
    ensures
        final(kinds)@.len() == old(kinds)@.len(),
        forall|i: int| 0 <= i < final(kinds)@.len() ==> #[trigger] final(kinds)@[i] == old(kinds)@[i]
            || (old(kinds)@[i] == RoomKind::Combat && final(kinds)@[i] == RoomKind::Event && min_depth <= depths@[i] <= max_depth),
        events_among(final(kinds)@, final(kinds)@.len()) >= desired_count || forall|i: int|
            0 <= i < final(kinds)@.len() && min_depth <= #[trigger] depths@[i] <= max_depth ==> final(kinds)@[i] != RoomKind::Combat,
{
    let mut current_count: usize = 0;
    let mut i: usize = 0;
    while i < kinds.len()
        invariant
            i <= kinds.len(),
            current_count == events_among(kinds@, i as nat),
            kinds@ == old(kinds)@,
        decreases kinds.len() - i,
    {
        proof {
            lemma_events_among_bound(kinds@, i as nat);
        }
        if kinds[i] == RoomKind::Event {
            current_count = current_count + 1;
        }
        i = i + 1;
    }
    if current_count >= desired_count {
        return;
    }
    let mut candidates = combat_candidates(depths, kinds, min_depth, max_depth);
    let total: usize = kinds.len();
    proof {
        assert forall|a: int, b: int| 0 <= a < candidates@.len() && 0 <= b < candidates@.len() && a != b implies candidates@[a]
            != candidates@[b] by {
            if a < b {
                assert(candidates@[a] < candidates@[b]);
            } else {
                assert(candidates@[b] < candidates@[a]);
            }
        }
    }
    while current_count < desired_count && candidates.len() > 0
        invariant
            kinds@.len() == old(kinds)@.len(),
            forall|i: int| 0 <= i < kinds@.len() ==> #[trigger] kinds@[i] == old(kinds)@[i]
                || (old(kinds)@[i] == RoomKind::Combat && kinds@[i] == RoomKind::Event && min_depth <= depths@[i] <= max_depth),
            forall|i: int| 0 <= i < candidates@.len() ==> #[trigger] candidates@[i] < kinds@.len() && kinds@[candidates@[i] as int] == RoomKind::Combat,
            forall|i: int| 0 <= i < candidates@.len() ==> min_depth <= #[trigger] depths@[candidates@[i] as int] <= max_depth,
            candidates@.no_duplicates(),
            forall|x: int| 0 <= x < kinds@.len() && min_depth <= #[trigger] depths@[x] <= max_depth && kinds@[x]
                == RoomKind::Combat ==> candidates@.contains(x as usize),
            current_count == events_among(kinds@, kinds@.len()),
            depths@.len() == old(kinds)@.len(),
            total == kinds@.len(),
        decreases candidates@.len(),
    {
        let ghost before = kinds@;
        let ghost cands = candidates@;
        let choice = rng.next_index(candidates.len());
        let node_index = candidates.swap_remove(choice);
        proof {
            lemma_events_among_update(before, node_index as int, before.len());
            lemma_events_among_bound(before.update(node_index as int, RoomKind::Event), before.len());
        }
        kinds.set(node_index, RoomKind::Event);
        current_count = current_count + 1;
        proof {
            assert(cands[choice as int] == node_index);
            assert forall|a: int, b: int| 0 <= a < b < candidates@.len() implies candidates@[a] != candidates@[b] by {
                let ia = if a == choice { cands.len() - 1 } else { a };
                let ib = if b == choice { cands.len() - 1 } else { b };
                assert(candidates@[a] == cands[ia]);
                assert(candidates@[b] == cands[ib]);
            }
            assert forall|k: int| 0 <= k < candidates@.len() implies #[trigger] candidates@[k] != node_index by {
                let ik = if k == choice { cands.len() - 1 } else { k };
                assert(candidates@[k] == cands[ik]);
                assert(ik != choice);
            }
            assert forall|x: int| 0 <= x < kinds@.len() && min_depth <= #[trigger] depths@[x] <= max_depth && kinds@[x]
                == RoomKind::Combat implies candidates@.contains(x as usize) by {
                assert(x != node_index);
                assert((x as usize) as int == x);
                assert(x as usize != node_index);
                assert(before[x] == kinds@[x]);
                assert(cands.contains(x as usize));
                let w = choose|w: int| 0 <= w < cands.len() && cands[w] == x as usize;
                assert(w != choice);
                if w != cands.len() - 1 {
                    assert(candidates@[w] == x as usize);
                } else {
                    assert(candidates@[choice as int] == x as usize);
                }
            }
        }
    }
}


/// The greatest depth in a list (0 for none).
pub open spec fn spec_max_depth(depths: Seq<usize>) -> usize
    decreases depths.len(),
{
    if depths.len() == 0 {
        0
    } else {
        let rest = spec_max_depth(depths.drop_last());
        if depths.last() > rest { depths.last() } else { rest }
    }
}

/// The greatest depth is at least every depth, and at most any bound of them all.
pub proof fn lemma_max_depth(depths: Seq<usize>, bound: usize)
    ensures
        forall|i: int| 0 <= i < depths.len() ==> #[trigger] depths[i] <= spec_max_depth(depths),
        (forall|i: int| 0 <= i < depths.len() ==> #[trigger] depths[i] <= bound) ==> spec_max_depth(depths) <= bound,
    decreases depths.len(),
{
    if depths.len() > 0 {
        lemma_max_depth(depths.drop_last(), bound);
        assert forall|i: int| 0 <= i < depths.len() implies #[trigger] depths[i] <= spec_max_depth(depths) by {
            if i < depths.len() - 1 {
                assert(depths.drop_last()[i] == depths[i]);
            }
        }
        if forall|i: int| 0 <= i < depths.len() ==> #[trigger] depths[i] <= bound {
            assert forall|i: int| 0 <= i < depths.drop_last().len() implies #[trigger] depths.drop_last()[i] <= bound by {
                assert(depths.drop_last()[i] == depths[i]);
            }
        }
    }
}

/// The depths of a map's nodes.
pub open spec fn node_depths(nodes: Seq<DungeonNode>) -> Seq<usize> {
    Seq::new(nodes.len(), |i: int| nodes[i].depth)
}

/// The kinds of a map's nodes.
pub open spec fn node_kinds(nodes: Seq<DungeonNode>) -> Seq<RoomKind> {
    Seq::new(nodes.len(), |i: int| nodes[i].kind)
}

/// Where a room of `kind` may stand on a map whose boss depth is `b`: the start alone at depth 0,
/// the boss alone at depth `b`, elites from the profile's elite depth to two before the boss,
/// rests just before the boss or from the profile's rest depth to three before it, shops from the
/// elite depth and events after the safe depths, both up to three before the boss; the depth just
/// before the boss holds only rests and fights.
pub open spec fn room_depth_rule(kind: RoomKind, depth: int, b: int, p: LevelProfile) -> bool {
    &&& (kind == RoomKind::Start <==> depth == 0)
    &&& depth != 0 ==> (kind == RoomKind::Boss <==> depth == b)
    &&& kind == RoomKind::Elite ==> p.force_elite_min_depth <= depth <= b - 2
    &&& kind == RoomKind::Rest ==> depth == b - 1 || p.force_rest_min_depth <= depth <= b - 3
    &&& kind == RoomKind::Shop ==> p.force_elite_min_depth <= depth <= b - 3
    &&& kind == RoomKind::Event ==> p.safe_combat_depths + 1 <= depth <= b - 3
    &&& depth == b - 1 && depth != 0 ==> kind == RoomKind::Rest || kind == RoomKind::Combat
}

/// Every room of a map follows the depth rules for its boss depth `b`.
pub open spec fn rooms_follow_depth_rules(kinds: Seq<RoomKind>, depths: Seq<usize>, b: int, p: LevelProfile) -> bool {
    forall|i: int| 0 <= i < kinds.len() ==> room_depth_rule(#[trigger] kinds[i], depths[i] as int, b, p)
}

/// Gives every room its kind: the start, the boss, a possible rest before the boss, safe
/// fights early, then elites and rests by roll where the rules allow them; then makes sure an
/// elite, a rest, a shop and two events exist.
fn assign_room_kinds(depths: &Vec<usize>, nexts: &Vec<Vec<usize>>, rng: &mut XorShift64, profile: LevelProfile) -> (kinds: Vec<RoomKind>)
    requires
        depths@.len() == nexts@.len(),
        depths@.len() <= 100,
        forall|i: int| 0 <= i < depths@.len() ==> #[trigger] depths@[i] <= MAP_REGULAR_DEPTHS + 1,
        profile_in_bounds(profile),
    ensures
        kinds@.len() == depths@.len(),
        forall|i: int| 0 <= i < kinds@.len() ==> (#[trigger] kinds@[i] == RoomKind::Start <==> depths@[i] == 0),
        rooms_follow_depth_rules(kinds@, depths@, spec_max_depth(depths@) as int, profile),
        elite_guaranteed(kinds@, depths@, spec_max_depth(depths@) as int, profile),
{
    let mut boss_depth: usize = 0;
    let mut i: usize = 0;
    while i < depths.len()
        invariant
            i <= depths.len(),
            forall|k: int| 0 <= k < depths@.len() ==> #[trigger] depths@[k] <= MAP_REGULAR_DEPTHS + 1,
            boss_depth <= MAP_REGULAR_DEPTHS + 1,
            boss_depth == spec_max_depth(depths@.subrange(0, i as int)),
        decreases depths.len() - i,
    {
        proof {
            assert(depths@.subrange(0, i + 1).drop_last() =~= depths@.subrange(0, i as int));
        }
        if depths[i] > boss_depth {
            boss_depth = depths[i];
        }
        i = i + 1;
    }
    proof {
        assert(depths@.subrange(0, depths@.len() as int) =~= depths@);
    }
    let ghost b = boss_depth as int;
    let pre_boss_depth = if boss_depth >= 1 { boss_depth - 1 } else { 0 };
    let mut kinds: Vec<RoomKind> = Vec::new();
    let mut index: usize = 0;
    while index < depths.len()
        invariant
            index <= depths.len(),
            depths@.len() == nexts@.len(),
            kinds@.len() == index,
            boss_depth <= MAP_REGULAR_DEPTHS + 1,
            forall|k: int| 0 <= k < depths@.len() ==> #[trigger] depths@[k] <= MAP_REGULAR_DEPTHS + 1,
            forall|k: int| 0 <= k < index ==> (#[trigger] kinds@[k] == RoomKind::Start <==> depths@[k] == 0),
            b == boss_depth,
            pre_boss_depth == (if boss_depth >= 1 { boss_depth - 1 } else { 0 }),
            forall|k: int| 0 <= k < index ==> room_depth_rule(#[trigger] kinds@[k], depths@[k] as int, b, profile),
        decreases depths.len() - index,
    {
        let depth = depths[index];
        // Parents always sit one depth higher, so their kinds are already final when read here.
        let mut lookup = kinds.clone();
        let mut pad: usize = lookup.len();
        while pad < depths.len()
            invariant
                lookup@.len() == pad,
                pad <= depths@.len(),
            decreases depths.len() - pad,
        {
            lookup.push(RoomKind::Combat);
            pad = pad + 1;
        }
        let kind = if depth == 0 {
            RoomKind::Start
        } else if depth == boss_depth {
            RoomKind::Boss
        } else if depth == pre_boss_depth {
            let parent_has_rest = parent_has_kind(nexts, &lookup, index, RoomKind::Rest);
            let roll = rng.next_u64() % 1000;
            if !parent_has_rest && roll < profile.pre_boss_rest_roll {
                RoomKind::Rest
            } else {
                RoomKind::Combat
            }
        } else if depth <= profile.safe_combat_depths {
            RoomKind::Combat
        } else {
            let parent_has_elite = parent_has_kind(nexts, &lookup, index, RoomKind::Elite);
            let parent_has_rest = parent_has_kind(nexts, &lookup, index, RoomKind::Rest);
            let roll = rng.next_u64() % 1000;
            let allow_elite = depth >= profile.force_elite_min_depth && depth + 2 < boss_depth && !parent_has_elite;
            let allow_rest = depth >= profile.force_rest_min_depth && depth + 3 < boss_depth && !parent_has_rest;
            if allow_elite && roll < profile.elite_roll {
                RoomKind::Elite
            } else if allow_rest && roll < profile.rest_roll {
                RoomKind::Rest
            } else {
                RoomKind::Combat
            }
        };
        kinds.push(kind);
        index = index + 1;
    }
    let top = if pre_boss_depth >= 1 { pre_boss_depth - 1 } else { 0 };
    let top2 = if pre_boss_depth >= 2 { pre_boss_depth - 2 } else { 0 };
    let ghost k0 = kinds@;
    ensure_kind_present(depths, &mut kinds, RoomKind::Elite, profile.force_elite_min_depth, top, rng);
    proof {
        assert forall|k: int| 0 <= k < kinds@.len() implies room_depth_rule(#[trigger] kinds@[k], depths@[k] as int, b, profile) by {
            assert(room_depth_rule(k0[k], depths@[k] as int, b, profile));
        }
    }
    proof {
        assert(elite_guaranteed(kinds@, depths@, b, profile)) by {
            if exists|i: int| 0 <= i < depths@.len() && #[trigger] depths@[i] == b - 2 && b >= 3 && profile.force_elite_min_depth <= b - 2 {
                let i = choose|i: int| 0 <= i < depths@.len() && #[trigger] depths@[i] == b - 2 && b >= 3 && profile.force_elite_min_depth <= b - 2;
                assert(room_depth_rule(k0[i], depths@[i] as int, b, profile));
                assert(k0[i] == RoomKind::Combat || k0[i] == RoomKind::Elite);
                assert(top == b - 2);
            }
        }
    }
    let ghost k1 = kinds@;
    ensure_kind_present(depths, &mut kinds, RoomKind::Rest, profile.force_rest_min_depth, top2, rng);
    proof {
        assert forall|k: int| 0 <= k < kinds@.len() implies room_depth_rule(#[trigger] kinds@[k], depths@[k] as int, b, profile) by {
            assert(room_depth_rule(k1[k], depths@[k] as int, b, profile));
        }
    }
    let ghost k2 = kinds@;
    ensure_kind_present(depths, &mut kinds, RoomKind::Shop, profile.force_elite_min_depth, top2, rng);
    proof {
        assert forall|k: int| 0 <= k < kinds@.len() implies room_depth_rule(#[trigger] kinds@[k], depths@[k] as int, b, profile) by {
            assert(room_depth_rule(k2[k], depths@[k] as int, b, profile));
        }
    }
    let ghost k3 = kinds@;
    ensure_event_count(depths, &mut kinds, 2, profile.safe_combat_depths + 1, top2, rng);
    proof {
        assert forall|k: int| 0 <= k < kinds@.len() implies room_depth_rule(#[trigger] kinds@[k], depths@[k] as int, b, profile) by {
            assert(room_depth_rule(k3[k], depths@[k] as int, b, profile));
        }
        assert(elite_guaranteed(kinds@, depths@, b, profile)) by {
            if exists|i: int| 0 <= i < depths@.len() && #[trigger] depths@[i] == b - 2 && b >= 3 && profile.force_elite_min_depth <= b - 2 {
                assert(elite_guaranteed(k1, depths@, b, profile));
                let j = choose|j: int| 0 <= j < k1.len() && #[trigger] k1[j] == RoomKind::Elite && profile.force_elite_min_depth <= depths@[j] <= b - 2;
                assert(k2[j] == RoomKind::Elite);
                assert(k3[j] == RoomKind::Elite);
                assert(kinds@[j] == RoomKind::Elite);
            }
        }
    }
    kinds
}

/// A map whose rooms reach two depths above the boss, at or below the level's first elite
/// depth, holds an elite in `force_elite_min_depth..=b - 2`.
pub open spec fn elite_guaranteed(kinds: Seq<RoomKind>, depths: Seq<usize>, b: int, p: LevelProfile) -> bool {
    (exists|i: int| 0 <= i < depths.len() && #[trigger] depths[i] == b - 2 && b >= 3 && p.force_elite_min_depth <= b - 2)
        ==> kind_present_in(kinds, depths, RoomKind::Elite, p.force_elite_min_depth as int, b - 2)
}

/// The segment `segment` of a flat list of (segment, from lane, to lane) edges, in order.
fn segment_edges_of(flat: &Vec<(usize, usize, usize)>, segment: usize) -> (edges: Vec<(usize, usize)>)
    requires
        forall|i: int| 0 <= i < flat@.len() ==> (#[trigger] flat@[i]).1 < MAP_COLUMNS && flat@[i].2 < MAP_COLUMNS,
    ensures
        lane_edges_on_map(edges@),
        edges@.len() <= flat@.len(),
{
    let mut edges: Vec<(usize, usize)> = Vec::new();
    let mut i: usize = 0;
    while i < flat.len()
        invariant
            i <= flat.len(),
            edges@.len() <= i,
            lane_edges_on_map(edges@),
            forall|k: int| 0 <= k < flat@.len() ==> (#[trigger] flat@[k]).1 < MAP_COLUMNS && flat@[k].2 < MAP_COLUMNS,
        decreases flat.len() - i,
    {
        let (seg, from_lane, to_lane) = flat[i];
        if seg == segment {
            edges.push((from_lane, to_lane));
        }
        i = i + 1;
    }
    edges
}

/// A way into the position `p`: an edge that ends there from another position of the map.
#[verifier::opaque]
pub open spec fn has_way_in(positions: Seq<(usize, usize)>, edges: Seq<(usize, usize, usize, usize)>, p: (usize, usize)) -> bool {
    exists|e: (usize, usize, usize, usize)| #[trigger] edges.contains(e) && e.2 == p.0 && e.3 == p.1 && positions.contains((e.0, e.1))
}

/// Every room but a start room can be entered from a room one depth above it.
#[verifier::opaque]
pub open spec fn every_room_has_a_way_in(nodes: Seq<DungeonNode>) -> bool {
    forall|j: int|
        0 <= j < nodes.len() && (#[trigger] nodes[j]).depth > 0 ==> exists|i: int|
            0 <= i < nodes.len() && #[trigger] nodes[i].next@.contains(j as usize)
}

/// Room `j` can be reached from the start room in `steps` moves along the map's edges.
pub open spec fn reachable_in(nodes: Seq<DungeonNode>, j: int, steps: nat) -> bool
    decreases steps,
{
    if steps == 0 {
        j == 0
    } else {
        exists|i: int| 0 <= i < nodes.len() && #[trigger] nodes[i].next@.contains(j as usize) && reachable_in(nodes, i, (steps - 1) as nat)
    }
}

/// In a well-formed map where only the start room lies at depth 0 and every deeper room has a
/// way in, every room can be reached from the start in as many moves as its depth.
pub proof fn lemma_rooms_reachable(nodes: Seq<DungeonNode>, d: nat)
    requires
        map_well_formed(nodes),
        every_room_has_a_way_in(nodes),
        forall|j: int| 1 <= j < nodes.len() ==> (#[trigger] nodes[j]).depth > 0,
    ensures
        forall|j: int| 0 <= j < nodes.len() && (#[trigger] nodes[j]).depth == d ==> reachable_in(nodes, j, d),
    decreases d,
{
    reveal(every_room_has_a_way_in);
    if d > 0 {
        lemma_rooms_reachable(nodes, (d - 1) as nat);
        assert forall|j: int| 0 <= j < nodes.len() && (#[trigger] nodes[j]).depth == d implies reachable_in(nodes, j, d) by {
            let i = choose|i: int| 0 <= i < nodes.len() && #[trigger] nodes[i].next@.contains(j as usize);
            let k = choose|k: int| 0 <= k < nodes[i].next@.len() && nodes[i].next@[k] == j as usize;
            assert(nodes[i].next@[k] == j as usize);
            assert(nodes[i].depth == d - 1);
        }
    } else {
        assert forall|j: int| 0 <= j < nodes.len() && (#[trigger] nodes[j]).depth == d implies reachable_in(nodes, j, d) by {
            if j >= 1 {
                assert(nodes[j].depth > 0);
            }
        }
    }
}

/// Ways in stay ways in as positions and edges are added.
proof fn lemma_ways_in_grow(
    pos0: Seq<(usize, usize)>,
    pos1: Seq<(usize, usize)>,
    e0: Seq<(usize, usize, usize, usize)>,
    e1: Seq<(usize, usize, usize, usize)>,
    low: int,
    high: int,
)
    requires
        forall|q: (usize, usize)| #[trigger] pos0.contains(q) ==> pos1.contains(q),
        forall|e: (usize, usize, usize, usize)| #[trigger] e0.contains(e) ==> e1.contains(e),
        forall|q: (usize, usize)| #[trigger] pos0.contains(q) && low <= q.0 <= high ==> has_way_in(pos0, e0, q),
    ensures
        forall|q: (usize, usize)| #[trigger] pos0.contains(q) && low <= q.0 <= high ==> has_way_in(pos1, e1, q),
{
    reveal(has_way_in);
    assert forall|q: (usize, usize)| #[trigger] pos0.contains(q) && low <= q.0 <= high implies has_way_in(pos1, e1, q) by {
        let e = choose|e: (usize, usize, usize, usize)| #[trigger] e0.contains(e) && e.2 == q.0 && e.3 == q.1 && pos0.contains((e.0, e.1));
        assert(e1.contains(e));
        assert(pos1.contains((e.0, e.1)));
    }
}

/// Positions in increasing order are distinct.
proof fn lemma_sorted_positions_distinct(s: Seq<(usize, usize)>, i: int, j: int)
    requires
        positions_sorted(s),
        0 <= i < s.len(),
        0 <= j < s.len(),
        s[i] == s[j],
    ensures
        i == j,
{
    if i < j {
        assert(pos_before(s[i], s[j]));
    } else if j < i {
        assert(pos_before(s[j], s[i]));
    }
}

/// Lays the paths out on the map: the start, the boss, every room of every path, and the
/// edges from the start into each path, along each path, and from each path into the boss.
/// Every room below the start can be entered from a room one depth above it.
#[verifier::rlimit(40)]
#[verifier::spinoff_prover]
fn lay_out_paths(start_lanes: &Vec<usize>, paths: &Vec<Vec<usize>>) -> (laid: (Vec<(usize, usize)>, Vec<(usize, usize, usize, usize)>))
    requires
        1 <= start_lanes@.len() <= 3,
        paths@.len() == start_lanes@.len(),
        forall|i: int| 0 <= i < start_lanes@.len() ==> #[trigger] start_lanes@[i] < MAP_COLUMNS,
        forall|q: int| 0 <= q < paths@.len() ==> (#[trigger] paths@[q])@.len() == MAP_REGULAR_DEPTHS,
        forall|q: int, d: int| 0 <= q < paths@.len() && 0 <= d < MAP_REGULAR_DEPTHS ==> #[trigger] paths@[q]@[d] < MAP_COLUMNS,
        forall|q: int| 0 <= q < paths@.len() ==> (#[trigger] paths@[q])@[0] == start_lanes@[q],
    ensures
        edges_sorted(laid.1@),
        edges_on_map(laid.1@),
        laid.1@.len() <= 33,
        positions_sorted(laid.0@),
        positions_on_map(laid.0@),
        laid.0@.len() <= 29,
        laid.0@.contains((0usize, MAP_COLUMNS / 2)),
        laid.0@.contains(((MAP_REGULAR_DEPTHS + 1) as usize, MAP_COLUMNS / 2)),
        forall|k: int| 0 <= k < laid.0@.len() && (#[trigger] laid.0@[k]).0 == MAP_REGULAR_DEPTHS + 1 ==> laid.0@[k].1 == MAP_COLUMNS / 2,
        forall|k: int| 0 <= k < laid.0@.len() && (#[trigger] laid.0@[k]).0 == 0 ==> laid.0@[k].1 == MAP_COLUMNS / 2,
        forall|q: (usize, usize)| #[trigger] laid.0@.contains(q) && 1 <= q.0 ==> has_way_in(laid.0@, laid.1@, q),
{
    let path_total = start_lanes.len();
    let start_lane = MAP_COLUMNS / 2;
    let boss_depth = MAP_REGULAR_DEPTHS + 1;
    let mut positions: Vec<(usize, usize)> = Vec::new();
    insert_position(&mut positions, (0, start_lane));
    insert_position(&mut positions, (boss_depth, start_lane));
    let mut raw_edges: Vec<(usize, usize, usize, usize)> = Vec::new();
    let mut s: usize = 0;
    while s < path_total
        invariant
            s <= path_total,
            path_total == start_lanes@.len(),
            path_total <= 3,
            forall|i: int| 0 <= i < start_lanes@.len() ==> #[trigger] start_lanes@[i] < MAP_COLUMNS,
            edges_sorted(raw_edges@),
            edges_on_map(raw_edges@),
            raw_edges@.len() <= s,
            start_lane == MAP_COLUMNS / 2,
            forall|t: int| 0 <= t < s ==> raw_edges@.contains((0usize, start_lane, 1usize, #[trigger] start_lanes@[t])),
        decreases path_total - s,
    {
        let ghost before = raw_edges@;
        insert_edge(&mut raw_edges, (0, start_lane, 1, start_lanes[s]));
        proof {
            lemma_edges_on_map_insert(before, raw_edges@, (0usize, start_lane, 1usize, start_lanes@[s as int]));
            assert forall|t: int| 0 <= t < s + 1 implies raw_edges@.contains((0usize, start_lane, 1usize, #[trigger] start_lanes@[t])) by {
                if t < s {
                    assert(before.contains((0usize, start_lane, 1usize, start_lanes@[t])));
                }
            }
        }
        s = s + 1;
    }
    let mut p: usize = 0;
    while p < path_total
        invariant
            p <= path_total,
            path_total <= 3,
            paths@.len() == path_total,
            forall|q: int| 0 <= q < paths@.len() ==> (#[trigger] paths@[q])@.len() == MAP_REGULAR_DEPTHS,
            forall|q: int, d: int| 0 <= q < paths@.len() && 0 <= d < MAP_REGULAR_DEPTHS ==> #[trigger] paths@[q]@[d] < MAP_COLUMNS,
            edges_sorted(raw_edges@),
            edges_on_map(raw_edges@),
            raw_edges@.len() <= 3 + p * 10,
            positions_sorted(positions@),
            positions_on_map(positions@),
            positions@.len() <= 2 + p * 9,
            positions@.contains((0usize, start_lane)),
            positions@.contains((boss_depth, start_lane)),
            forall|k: int| 0 <= k < positions@.len() && (#[trigger] positions@[k]).0 == boss_depth ==> positions@[k].1 == start_lane,
            forall|k: int| 0 <= k < positions@.len() && (#[trigger] positions@[k]).0 == 0 ==> positions@[k].1 == start_lane,
            start_lane == MAP_COLUMNS / 2,
            boss_depth == MAP_REGULAR_DEPTHS + 1,
            path_total == start_lanes@.len(),
            forall|q: int| 0 <= q < paths@.len() ==> (#[trigger] paths@[q])@[0] == start_lanes@[q],
            forall|t: int| 0 <= t < path_total ==> raw_edges@.contains((0usize, start_lane, 1usize, #[trigger] start_lanes@[t])),
            forall|q: (usize, usize)| #[trigger] positions@.contains(q) && 1 <= q.0 <= MAP_REGULAR_DEPTHS ==> has_way_in(positions@, raw_edges@, q),
            p > 0 ==> raw_edges@.contains((MAP_REGULAR_DEPTHS, paths@[0]@[MAP_REGULAR_DEPTHS - 1], boss_depth, start_lane)),
            p > 0 ==> positions@.contains((MAP_REGULAR_DEPTHS, paths@[0]@[MAP_REGULAR_DEPTHS - 1])),
        decreases path_total - p,
    {
        let mut d: usize = 0;
        while d < MAP_REGULAR_DEPTHS
            invariant
                d <= MAP_REGULAR_DEPTHS,
                p < path_total,
                path_total <= 3,
                paths@.len() == path_total,
                paths@[p as int]@.len() == MAP_REGULAR_DEPTHS,
                forall|q: int, e: int| 0 <= q < paths@.len() && 0 <= e < MAP_REGULAR_DEPTHS ==> #[trigger] paths@[q]@[e] < MAP_COLUMNS,
                edges_sorted(raw_edges@),
                edges_on_map(raw_edges@),
                raw_edges@.len() <= 3 + p * 10 + d,
                positions_sorted(positions@),
                positions_on_map(positions@),
                positions@.len() <= 2 + p * 9 + d,
                positions@.contains((0usize, start_lane)),
                positions@.contains((boss_depth, start_lane)),
                forall|k: int| 0 <= k < positions@.len() && (#[trigger] positions@[k]).0 == boss_depth ==> positions@[k].1 == start_lane,
                forall|k: int| 0 <= k < positions@.len() && (#[trigger] positions@[k]).0 == 0 ==> positions@[k].1 == start_lane,
                boss_depth == MAP_REGULAR_DEPTHS + 1,
                start_lane == MAP_COLUMNS / 2,
                path_total == start_lanes@.len(),
                paths@[p as int]@[0] == start_lanes@[p as int],
                raw_edges@.contains((0usize, start_lane, 1usize, start_lanes@[p as int])),
                forall|t: int| 0 <= t < path_total ==> raw_edges@.contains((0usize, start_lane, 1usize, #[trigger] start_lanes@[t])),
                forall|q: (usize, usize)| #[trigger] positions@.contains(q) && 1 <= q.0 <= MAP_REGULAR_DEPTHS ==> has_way_in(positions@, raw_edges@, q),
                0 < d < MAP_REGULAR_DEPTHS ==> raw_edges@.contains((d, paths@[p as int]@[d - 1], (d + 1) as usize, paths@[p as int]@[d as int])),
                0 < d ==> positions@.contains((d, paths@[p as int]@[d - 1])),
                p > 0 ==> raw_edges@.contains((MAP_REGULAR_DEPTHS, paths@[0]@[MAP_REGULAR_DEPTHS - 1], boss_depth, start_lane)),
                p > 0 ==> positions@.contains((MAP_REGULAR_DEPTHS, paths@[0]@[MAP_REGULAR_DEPTHS - 1])),
            decreases MAP_REGULAR_DEPTHS - d,
        {
            let lane = paths[p][d];
            let ghost pos_before_insert = positions@;
            proof {
                if d == 0 {
                    assert(has_way_in(positions@, raw_edges@, (1usize, lane))) by {
                        reveal(has_way_in);
                        assert(raw_edges@.contains((0usize, start_lane, 1usize, lane)));
                    }
                } else {
                    assert(has_way_in(positions@, raw_edges@, ((d + 1) as usize, lane))) by {
                        reveal(has_way_in);
                        assert(raw_edges@.contains((d, paths@[p as int]@[d - 1], (d + 1) as usize, lane)));
                    }
                }
            }
            insert_position(&mut positions, (d + 1, lane));
            proof {
                lemma_ways_in_grow(pos_before_insert, positions@, raw_edges@, raw_edges@, 1, MAP_REGULAR_DEPTHS as int);
                assert forall|q: (usize, usize)| #[trigger] positions@.contains(q) && 1 <= q.0 <= MAP_REGULAR_DEPTHS implies has_way_in(positions@, raw_edges@, q) by {
                    if q != ((d + 1) as usize, lane) {
                        assert(pos_before_insert.contains(q));
                    } else {
                        reveal(has_way_in);
                        let e = choose|e: (usize, usize, usize, usize)| #[trigger] raw_edges@.contains(e) && e.2 == q.0 && e.3 == q.1 && pos_before_insert.contains((e.0, e.1));
                        assert(positions@.contains((e.0, e.1)));
                    }
                }
            }
            if d + 1 < MAP_REGULAR_DEPTHS {
                let next_lane = paths[p][d + 1];
                let ghost before = raw_edges@;
                insert_edge(&mut raw_edges, (d + 1, lane, d + 2, next_lane));
                proof {
                    lemma_edges_on_map_insert(before, raw_edges@, ((d + 1) as usize, lane, (d + 2) as usize, next_lane));
                    lemma_ways_in_grow(positions@, positions@, before, raw_edges@, 1, MAP_REGULAR_DEPTHS as int);
                }
            }
            d = d + 1;
        }
        let last_lane = paths[p][MAP_REGULAR_DEPTHS - 1];
        let ghost before = raw_edges@;
        insert_edge(&mut raw_edges, (MAP_REGULAR_DEPTHS, last_lane, boss_depth, start_lane));
        proof {
            lemma_edges_on_map_insert(before, raw_edges@, (MAP_REGULAR_DEPTHS, last_lane, boss_depth, start_lane));
            lemma_ways_in_grow(positions@, positions@, before, raw_edges@, 1, MAP_REGULAR_DEPTHS as int);
            assert(raw_edges@.contains((0usize, start_lane, 1usize, start_lanes@[p as int])));
            assert forall|t: int| 0 <= t < path_total implies raw_edges@.contains((0usize, start_lane, 1usize, #[trigger] start_lanes@[t])) by {
                assert(before.contains((0usize, start_lane, 1usize, start_lanes@[t])));
            }
        }
        p = p + 1;
    }
    proof {
        assert forall|q: (usize, usize)| #[trigger] positions@.contains(q) && 1 <= q.0 implies has_way_in(positions@, raw_edges@, q) by {
            reveal(has_way_in);
            let k = choose|k: int| 0 <= k < positions@.len() && positions@[k] == q;
            if q.0 > MAP_REGULAR_DEPTHS {
                assert(q.0 == boss_depth);
                assert(q == (boss_depth, start_lane));
                assert(raw_edges@.contains((MAP_REGULAR_DEPTHS, paths@[0]@[MAP_REGULAR_DEPTHS - 1], boss_depth, start_lane)));
            }
        }
    }
    (positions, raw_edges)
}

/// Links the laid-out positions into rooms: room ids follow the order of positions, and each
/// room links to the rooms its position's edges lead to.
#[verifier::spinoff_prover]
fn link_nodes(positions: &Vec<(usize, usize)>, raw_edges: &Vec<(usize, usize, usize, usize)>) -> (linked: (Vec<usize>, Vec<Vec<usize>>))
    requires
        positions_on_map(positions@),
        positions_sorted(positions@),
        positions@.len() <= 100,
        edges_on_map(raw_edges@),
    ensures
        linked.0@.len() == positions@.len(),
        linked.1@.len() == positions@.len(),
        forall|k: int| 0 <= k < positions@.len() ==> #[trigger] linked.0@[k] == positions@[k].0,
        forall|k: int, m: int| 0 <= k < positions@.len() && 0 <= m < linked.1@[k]@.len() ==> {
            let j = #[trigger] linked.1@[k]@[m];
            &&& j < positions@.len()
            &&& positions@[j as int].0 == positions@[k].0 + 1
        },
        forall|k: int, e: (usize, usize, usize, usize), m: int|
            #![trigger raw_edges@.contains(e), linked.1@[k], positions@[m]]
            0 <= k < positions@.len() && raw_edges@.contains(e) && e.0 == positions@[k].0 && e.1 == positions@[k].1 && 0 <= m
                < positions@.len() && positions@[m] == (e.2, e.3) ==> linked.1@[k]@.contains(m as usize),
{
    let count = positions.len();
    let mut depths: Vec<usize> = Vec::new();
    let mut nexts: Vec<Vec<usize>> = Vec::new();
    let mut i: usize = 0;
    while i < count
        invariant
            i <= count,
            count == positions@.len(),
            count <= 100,
            positions_on_map(positions@),
            edges_on_map(raw_edges@),
            depths@.len() == i,
            nexts@.len() == i,
            forall|k: int| 0 <= k < i ==> #[trigger] depths@[k] == positions@[k].0,
            forall|k: int, m: int| 0 <= k < i && 0 <= m < nexts@[k]@.len() ==> {
                let j = #[trigger] nexts@[k]@[m];
                &&& j < count
                &&& positions@[j as int].0 == positions@[k].0 + 1
            },
            positions_sorted(positions@),
            forall|k: int, e: (usize, usize, usize, usize), m: int|
                #![trigger raw_edges@.contains(e), nexts@[k], positions@[m]]
                0 <= k < i && raw_edges@.contains(e) && e.0 == positions@[k].0 && e.1 == positions@[k].1 && 0 <= m < count
                    && positions@[m] == (e.2, e.3) ==> nexts@[k]@.contains(m as usize),
        decreases count - i,
    {
        let here = positions[i];
        let mut next: Vec<usize> = Vec::new();
        let mut e: usize = 0;
        while e < raw_edges.len()
            invariant
                e <= raw_edges.len(),
                i < count,
                count == positions@.len(),
                edges_on_map(raw_edges@),
                here == positions@[i as int],
                next@.len() <= e,
                forall|m: int| 0 <= m < next@.len() ==> {
                    let j = #[trigger] next@[m];
                    &&& j < count
                    &&& positions@[j as int].0 == here.0 + 1
                },
                positions_sorted(positions@),
                forall|x: int, m: int|
                    #![trigger raw_edges@[x], positions@[m]]
                    0 <= x < e && raw_edges@[x].0 == here.0 && raw_edges@[x].1 == here.1 && 0 <= m < count
                        && positions@[m] == (raw_edges@[x].2, raw_edges@[x].3) ==> next@.contains(m as usize),
            decreases raw_edges.len() - e,
        {
            let ghost next_before = next@;
            let (from_depth, from_lane, to_depth, to_lane) = raw_edges[e];
            if from_depth == here.0 && from_lane == here.1 {
                match position_index(&positions, (to_depth, to_lane)) {
                    Some(to_id) => {
                        let mut seen = false;
                        let mut m: usize = 0;
                        while m < next.len()
                            invariant
                                m <= next.len(),
                                seen ==> next@.contains(to_id),
                            decreases next.len() - m,
                        {
                            if next[m] == to_id {
                                seen = true;
                                proof {
                                    assert(next@[m as int] == to_id);
                                }
                            }
                            m = m + 1;
                        }
                        if !seen {
                            next.push(to_id);
                            proof {
                                assert(next@[next@.len() - 1] == to_id);
                            }
                        }
                        proof {
                            assert(next@.contains(to_id));
                            assert forall|m2: int| 0 <= m2 < count && positions@[m2] == (to_depth, to_lane) implies m2 == to_id by {
                                lemma_sorted_positions_distinct(positions@, m2, to_id as int);
                            }
                        }
                    },
                    None => {},
                }
            }
            proof {
                assert forall|v: usize| next_before.contains(v) implies next@.contains(v) by {
                    let w = choose|w: int| 0 <= w < next_before.len() && next_before[w] == v;
                    assert(next@[w] == v);
                }
            }
            e = e + 1;
        }
        proof {
            assert forall|x: int, m: int|
                0 <= x < raw_edges@.len() && raw_edges@[x].0 == here.0 && raw_edges@[x].1 == here.1 && 0 <= m < count
                    && positions@[m] == (raw_edges@[x].2, raw_edges@[x].3) implies next@.contains(m as usize) by {
                assert(positions@[m] == positions@[m]);
            }
        }
        let ghost scanned = next@;
        let ghost unsorted = next@;
        sort_usizes(&mut next);
        proof {
            broadcast use vstd::seq_lib::group_to_multiset_ensures;
            assert forall|m: int| 0 <= m < next@.len() implies {
                let j = #[trigger] next@[m];
                &&& j < count
                &&& positions@[j as int].0 == here.0 + 1
            } by {
                assert(next@.to_multiset().count(next@[m]) > 0);
                assert(unsorted.contains(next@[m]));
            }
            assert forall|v: usize| scanned.contains(v) implies next@.contains(v) by {
                assert(scanned.to_multiset().count(v) > 0);
            }
        }
        let ghost nexts_before = nexts@;
        depths.push(here.0);
        nexts.push(next);
        proof {
            assert forall|k: int, e: (usize, usize, usize, usize), m: int|
                #![trigger raw_edges@.contains(e), nexts@[k], positions@[m]]
                0 <= k < i + 1 && raw_edges@.contains(e) && e.0 == positions@[k].0 && e.1 == positions@[k].1 && 0 <= m < count
                    && positions@[m] == (e.2, e.3) implies nexts@[k]@.contains(m as usize) by {
                if k < i {
                    assert(nexts@[k] == nexts_before[k]);
                } else {
                    let x = choose|x: int| 0 <= x < raw_edges@.len() && raw_edges@[x] == e;
                    assert(raw_edges@[x] == e);
                    assert(scanned.contains(m as usize));
                }
            }
        }
        i = i + 1;
    }
    (depths, nexts)
}

/// Rooms linked from laid-out positions inherit their ways in: every room below the start has
/// a room linking to it, and only the first room lies at depth 0.
#[verifier::spinoff_prover]
#[verifier::rlimit(40)]
proof fn lemma_linked_rooms_have_ways_in(
    nodes: Seq<DungeonNode>,
    positions: Seq<(usize, usize)>,
    raw_edges: Seq<(usize, usize, usize, usize)>,
    nexts: Seq<Vec<usize>>,
)
    requires
        nodes.len() == positions.len(),
        nexts.len() == positions.len(),
        forall|k: int| 0 <= k < nodes.len() ==> (#[trigger] nodes[k]).depth == positions[k].0 && nodes[k].next@ == nexts[k]@,
        positions_sorted(positions),
        positions.contains((0usize, MAP_COLUMNS / 2)),
        forall|k: int| 0 <= k < positions.len() && (#[trigger] positions[k]).0 == 0 ==> positions[k].1 == MAP_COLUMNS / 2,
        forall|q: (usize, usize)| #[trigger] positions.contains(q) && 1 <= q.0 ==> has_way_in(positions, raw_edges, q),
        forall|k: int, e: (usize, usize, usize, usize), m: int|
            #![trigger raw_edges.contains(e), nexts[k], positions[m]]
            0 <= k < positions.len() && raw_edges.contains(e) && e.0 == positions[k].0 && e.1 == positions[k].1 && 0 <= m
                < positions.len() && positions[m] == (e.2, e.3) ==> nexts[k]@.contains(m as usize),
    ensures
        every_room_has_a_way_in(nodes),
        forall|j: int| 1 <= j < nodes.len() ==> (#[trigger] nodes[j]).depth > 0,
{
    reveal(every_room_has_a_way_in);
    assert forall|j: int| 0 <= j < nodes.len() && (#[trigger] nodes[j]).depth > 0 implies exists|i: int|
        0 <= i < nodes.len() && #[trigger] nodes[i].next@.contains(j as usize) by {
        let q = positions[j];
        assert(positions.contains(q));
        assert(has_way_in(positions, raw_edges, q));
        reveal(has_way_in);
        let e = choose|e: (usize, usize, usize, usize)| #[trigger] raw_edges.contains(e) && e.2 == q.0 && e.3 == q.1 && positions.contains((e.0, e.1));
        let i = choose|i: int| 0 <= i < positions.len() && positions[i] == (e.0, e.1);
        assert(nexts[i]@.contains(j as usize));
        assert(nodes[i].next@ == nexts[i]@);
    }
    assert forall|j: int| 1 <= j < nodes.len() implies (#[trigger] nodes[j]).depth > 0 by {
        if nodes[j].depth == 0 {
            assert(positions.contains((0usize, (MAP_COLUMNS / 2))));
            let z = choose|z: int| 0 <= z < positions.len() && positions[z] == (0usize, (MAP_COLUMNS / 2));
            assert(positions[j].0 == 0);
            assert(positions[j] == (0usize, (MAP_COLUMNS / 2)));
            lemma_sorted_positions_distinct(positions, j, z);
            if z > 0 {
                assert(pos_before(positions[0], positions[z]));
                assert(positions[0] == (0usize, (MAP_COLUMNS / 2)));
                lemma_sorted_positions_distinct(positions, 0, z);
            }
        }
    }
}

/// Builds a level's map from its seed: a few paths from the start through nine depths to the
/// boss, joined by bridges, then rooms assigned.
#[verifier::rlimit(80)]
#[verifier::spinoff_prover]
pub fn generate_nodes(seed: u64, level: usize) -> (nodes: Vec<DungeonNode>)
    ensures
        map_well_formed(nodes@),
        spec_max_depth(node_depths(nodes@)) == MAP_REGULAR_DEPTHS + 1,
        rooms_follow_depth_rules(node_kinds(nodes@), node_depths(nodes@), MAP_REGULAR_DEPTHS + 1, spec_level_profile(level)),
        elite_guaranteed(node_kinds(nodes@), node_depths(nodes@), MAP_REGULAR_DEPTHS + 1, spec_level_profile(level)),
        exists|b: int| 0 <= b < nodes@.len() && (#[trigger] nodes@[b]).kind == RoomKind::Boss && nodes@[b].depth == MAP_REGULAR_DEPTHS + 1,
        forall|i: int, j: int| 0 <= i < nodes@.len() && 0 <= j < nodes@.len() && (#[trigger] nodes@[i]).kind == RoomKind::Boss
            && (#[trigger] nodes@[j]).kind == RoomKind::Boss ==> i == j,
        every_room_has_a_way_in(nodes@),
        forall|j: int| 1 <= j < nodes@.len() ==> (#[trigger] nodes@[j]).depth > 0,
        forall|j: int| 0 <= j < nodes@.len() ==> reachable_in(nodes@, j, #[trigger] nodes@[j].depth as nat),
{
    let profile = level_profile(level);
    let start_lane = MAP_COLUMNS / 2;
    let boss_depth = MAP_REGULAR_DEPTHS + 1;
    let mut rng = XorShift64::new(seed ^ 0x5A17_5A17_12D0_4E55u64);
    let spread = profile.path_count_max - profile.path_count_min + 1;
    let path_count = profile.path_count_min + rng.next_index(spread);
    assert(path_count <= 3);
    let mut start_lanes = distinct_lanes(&mut rng, MAP_COLUMNS, path_count, profile.start_lane_window);
    sort_usizes(&mut start_lanes);
    proof {
        broadcast use vstd::seq_lib::group_to_multiset_ensures;
        assert forall|i: int| 0 <= i < start_lanes@.len() implies #[trigger] start_lanes@[i] < MAP_COLUMNS by {
            assert(start_lanes@.to_multiset().count(start_lanes@[i]) > 0);
        }
    }
    let path_total = start_lanes.len();

    let mut flat: Vec<(usize, usize, usize)> = Vec::new();
    let mut paths: Vec<Vec<usize>> = Vec::new();
    let mut path_index: usize = 0;
    while path_index < path_total
        invariant
            path_index <= path_total,
            path_total == start_lanes@.len(),
            path_total <= 3,
            forall|i: int| 0 <= i < start_lanes@.len() ==> #[trigger] start_lanes@[i] < MAP_COLUMNS,
            paths@.len() == path_index,
            flat@.len() <= path_index * MAP_REGULAR_DEPTHS,
            forall|k: int| 0 <= k < flat@.len() ==> (#[trigger] flat@[k]).1 < MAP_COLUMNS && flat@[k].2 < MAP_COLUMNS,
            forall|p: int| 0 <= p < paths@.len() ==> (#[trigger] paths@[p])@.len() == MAP_REGULAR_DEPTHS,
            forall|p: int, d: int| 0 <= p < paths@.len() && 0 <= d < MAP_REGULAR_DEPTHS ==> #[trigger] paths@[p]@[d] < MAP_COLUMNS,
            forall|p: int| 0 <= p < paths@.len() ==> (#[trigger] paths@[p])@[0] == start_lanes@[p],
        decreases path_total - path_index,
    {
        let first_lane = start_lanes[path_index];
        let mut lanes: Vec<usize> = Vec::new();
        lanes.push(first_lane);
        let mut current = first_lane;
        let mut segment: usize = 0;
        while segment < MAP_REGULAR_DEPTHS - 1
            invariant
                segment <= MAP_REGULAR_DEPTHS - 1,
                path_index < path_total,
                path_total <= 3,
                current < MAP_COLUMNS,
                lanes@.len() == segment + 1,
                lanes@[0] == first_lane,
                forall|d: int| 0 <= d < lanes@.len() ==> #[trigger] lanes@[d] < MAP_COLUMNS,
                flat@.len() <= path_index * MAP_REGULAR_DEPTHS + segment,
                forall|k: int| 0 <= k < flat@.len() ==> (#[trigger] flat@[k]).1 < MAP_COLUMNS && flat@[k].2 < MAP_COLUMNS,
            decreases MAP_REGULAR_DEPTHS - 1 - segment,
        {
            let edges = segment_edges_of(&flat, segment);
            let next = choose_next_lane(&mut rng, current, &edges, path_index, path_total, segment);
            flat.push((segment, current, next));
            lanes.push(next);
            current = next;
            segment = segment + 1;
        }
        paths.push(lanes);
        path_index = path_index + 1;
    }

    let (positions, laid_edges) = lay_out_paths(&start_lanes, &paths);
    let mut raw_edges = laid_edges;
    let ghost unbridged = raw_edges@;
    bridge_edges(&positions, &mut raw_edges, &mut rng);
    proof {
        lemma_ways_in_grow(positions@, positions@, unbridged, raw_edges@, 1, (MAP_REGULAR_DEPTHS + 1) as int);
    }

    let (depths, nexts) = link_nodes(&positions, &raw_edges);
    let count = positions.len();
    let kinds = assign_room_kinds(&depths, &nexts, &mut rng, profile);

    let mut nodes: Vec<DungeonNode> = Vec::new();
    let mut n: usize = 0;
    while n < count
        invariant
            n <= count,
            count == positions@.len(),
            depths@.len() == count,
            kinds@.len() == count,
            nexts@.len() == count,
            nodes@.len() == n,
            forall|k: int| 0 <= k < count ==> #[trigger] depths@[k] == positions@[k].0,
            forall|k: int, m: int| 0 <= k < count && 0 <= m < nexts@[k]@.len() ==> {
                let j = #[trigger] nexts@[k]@[m];
                &&& j < count
                &&& positions@[j as int].0 == positions@[k].0 + 1
            },
            forall|k: int| 0 <= k < n ==> {
                let node = #[trigger] nodes@[k];
                &&& node.id == k
                &&& node.depth == depths@[k]
                &&& node.kind == kinds@[k]
                &&& node.next@ == nexts@[k]@
            },
        decreases count - n,
    {
        let next = nexts[n].clone();
        proof {
            assert(next@ =~= nexts@[n as int]@);
        }
        nodes.push(DungeonNode { id: n, depth: depths[n], lane: positions[n].1, kind: kinds[n], next });
        n = n + 1;
    }
    proof {
        assert(node_depths(nodes@) =~= depths@);
        assert(node_kinds(nodes@) =~= kinds@);
        lemma_max_depth(depths@, boss_depth);
        let b = choose|b: int| 0 <= b < positions@.len() && positions@[b] == (boss_depth, start_lane);
        assert(positions@.contains((boss_depth, start_lane)));
        assert(depths@[b] == boss_depth);
        assert(nodes@[b].depth == boss_depth);
        assert forall|i: int, j: int| 0 <= i < nodes@.len() && 0 <= j < nodes@.len() && (#[trigger] nodes@[i]).kind == RoomKind::Boss
            && (#[trigger] nodes@[j]).kind == RoomKind::Boss implies i == j by {
            assert(room_depth_rule(kinds@[i], depths@[i] as int, boss_depth as int, profile));
            assert(room_depth_rule(kinds@[j], depths@[j] as int, boss_depth as int, profile));
            assert(positions@[i] == (boss_depth, start_lane));
            assert(positions@[j] == (boss_depth, start_lane));
            if i < j {
                assert(pos_before(positions@[i], positions@[j]));
            } else if j < i {
                assert(pos_before(positions@[j], positions@[i]));
            }
        }
        assert(room_depth_rule(kinds@[b], depths@[b] as int, boss_depth as int, profile));
        assert(nodes@[b].kind == RoomKind::Boss);
        lemma_linked_rooms_have_ways_in(nodes@, positions@, raw_edges@, nexts@);
        assert forall|j: int| 0 <= j < nodes@.len() implies reachable_in(nodes@, j, #[trigger] nodes@[j].depth as nat) by {
            lemma_rooms_reachable(nodes@, nodes@[j].depth as nat);
        }
    }
    nodes
}

/// The run after a room of `kind` was cleared for the first time: its counter goes up.
pub open spec fn counted_room(kind: RoomKind, combats: usize, elites: usize, rests: usize, bosses: usize) -> (usize, usize, usize, usize) {
    match kind {
        RoomKind::Combat => ((combats + 1) as usize, elites, rests, bosses),
        RoomKind::Elite => (combats, (elites + 1) as usize, rests, bosses),
        RoomKind::Rest => (combats, elites, (rests + 1) as usize, bosses),
        RoomKind::Boss => (combats, elites, rests, (bosses + 1) as usize),
        _ => (combats, elites, rests, bosses),
    }
}

impl DungeonRun {
    /// The run's references all point at existing nodes, node `i` has id `i`, and the level is
    /// one of the dungeon's.
    pub open spec fn structurally_valid(self) -> bool {
        &&& 1 <= self.current_level <= DUNGEON_LEVEL_COUNT
        &&& self.nodes@.len() > 0
        &&& forall|i: int| 0 <= i < self.nodes@.len() ==> (#[trigger] self.nodes@[i]).id == i
        &&& forall|i: int, k: int|
            0 <= i < self.nodes@.len() && 0 <= k < self.nodes@[i].next@.len() ==> #[trigger] self.nodes@[i].next@[k]
                < self.nodes@.len()
        &&& self.current_node matches Some(id) ==> id < self.nodes@.len()
        &&& forall|k: int| 0 <= k < self.available_nodes@.len() ==> #[trigger] self.available_nodes@[k] < self.nodes@.len()
        &&& forall|k: int| 0 <= k < self.visited_nodes@.len() ==> #[trigger] self.visited_nodes@[k] < self.nodes@.len()
    }

    /// Counters and hit points stay far from the limits of their types.
    pub open spec fn numbers_in_range(self) -> bool {
        &&& -1_000_000_000 <= self.player_hp <= 1_000_000_000
        &&& -1_000_000_000 <= self.player_max_hp <= 1_000_000_000
        &&& self.combats_cleared < usize::MAX
        &&& self.elites_cleared < usize::MAX
        &&& self.rests_completed < usize::MAX
        &&& self.bosses_cleared < usize::MAX
    }

    /// Starts a run on the first level with the starter deck and full hit points.
    pub fn new(seed: u64) -> (run: Self)
        ensures
            run.seed == seed,
            run.current_level == 1,
            map_well_formed(run.nodes@),
            run.current_node is None,
            run.available_nodes@ == run.nodes@[0].next@,
            run.visited_nodes@ == seq![0usize],
            run.deck@ == spec_starter_deck(),
            run.modules@.len() == 0,
            run.player_hp == START_HP,
            run.player_max_hp == START_HP,
            run.credits == 0,
            run.combats_cleared == 0,
            run.elites_cleared == 0,
            run.rests_completed == 0,
            run.bosses_cleared == 0,
            run.structurally_valid(),
    {
        let current_level: usize = 1;
        let nodes = generate_nodes(level_seed(seed, current_level), current_level);
        let available_nodes = nodes[0].next.clone();
        proof {
            assert(available_nodes@ =~= nodes@[0].next@);
        }
        let run = DungeonRun {
            seed,
            current_level,
            nodes,
            current_node: None,
            available_nodes,
            visited_nodes: vec![0],
            deck: starter_deck(),
            modules: Vec::new(),
            player_hp: START_HP,
            player_max_hp: START_HP,
            credits: 0,
            combats_cleared: 0,
            elites_cleared: 0,
            rests_completed: 0,
            bosses_cleared: 0,
        };
        proof {
            assert(run.visited_nodes@ =~= seq![0usize]);
        }
        run
    }

    pub fn current_level(&self) -> (level: usize)
        ensures
            level == self.current_level,
    {
        self.current_level
    }

    pub fn total_levels(&self) -> (count: usize)
        ensures
            count == DUNGEON_LEVEL_COUNT,
    {
        DUNGEON_LEVEL_COUNT
    }

    pub fn current_level_briefing(&self) -> (briefing: LevelBriefing)
        ensures
            briefing == spec_level_profile(self.current_level).briefing,
    {
        level_briefing(self.current_level)
    }

    pub fn current_level_profile(&self) -> (profile: LevelProfile)
        ensures
            profile == spec_level_profile(self.current_level),
            profile_in_bounds(profile),
    {
        level_profile(self.current_level)
    }

    /// Moves to another level (clamped to the dungeon's) and rebuilds its map; reports whether
    /// the level changed.
    pub fn debug_set_level(&mut self, level: usize) -> (changed: bool)
        ensures
            changed == (clamp_level_spec(level) != old(self).current_level),
            changed ==> {
                &&& final(self).current_level == clamp_level_spec(level)
                &&& map_well_formed(final(self).nodes@)
                &&& final(self).current_node is None
                &&& final(self).available_nodes@ == final(self).nodes@[0].next@
                &&& final(self).visited_nodes@ == seq![0usize]
            },
            !changed ==> *final(self) == *old(self),
            final(self).seed == old(self).seed,
            final(self).deck == old(self).deck,
            final(self).player_hp == old(self).player_hp,
            final(self).credits == old(self).credits,
    {
        let clamped_level = clamp_dungeon_level(level);
        if clamped_level == self.current_level {
            return false;
        }
        self.current_level = clamped_level;
        self.rebuild_current_level();
        true
    }

    /// Regenerates the current level's map and puts the run at its start.
    pub fn rebuild_current_level(&mut self)
        ensures
            map_well_formed(final(self).nodes@),
            final(self).current_node is None,
            final(self).available_nodes@ == final(self).nodes@[0].next@,
            final(self).visited_nodes@ == seq![0usize],
            final(self).current_level == old(self).current_level,
            final(self).seed == old(self).seed,
            final(self).deck == old(self).deck,
            final(self).modules == old(self).modules,
            final(self).player_hp == old(self).player_hp,
            final(self).player_max_hp == old(self).player_max_hp,
            final(self).credits == old(self).credits,
            final(self).combats_cleared == old(self).combats_cleared,
            final(self).elites_cleared == old(self).elites_cleared,
            final(self).rests_completed == old(self).rests_completed,
            final(self).bosses_cleared == old(self).bosses_cleared,
    {
        self.nodes = generate_nodes(level_seed(self.seed, self.current_level), self.current_level);
        self.current_node = None;
        self.available_nodes = self.nodes[0].next.clone();
        self.visited_nodes = vec![0];
        proof {
            assert(self.available_nodes@ =~= self.nodes@[0].next@);
            assert(self.visited_nodes@ =~= seq![0usize]);
        }
    }

    /// Moves on to the next level.
    fn advance_level(&mut self)
        requires
            old(self).current_level < DUNGEON_LEVEL_COUNT,
        ensures
            final(self).current_level == old(self).current_level + 1,
            map_well_formed(final(self).nodes@),
            final(self).current_node is None,
            final(self).available_nodes@ == final(self).nodes@[0].next@,
            final(self).visited_nodes@ == seq![0usize],
            final(self).seed == old(self).seed,
            final(self).deck == old(self).deck,
            final(self).modules == old(self).modules,
            final(self).player_hp == old(self).player_hp,
            final(self).player_max_hp == old(self).player_max_hp,
            final(self).credits == old(self).credits,
            final(self).combats_cleared == old(self).combats_cleared,
            final(self).elites_cleared == old(self).elites_cleared,
            final(self).rests_completed == old(self).rests_completed,
            final(self).bosses_cleared == old(self).bosses_cleared,
    {
        self.current_level = self.current_level + 1;
        self.rebuild_current_level();
    }

    /// The number of sides of the boss symbol: the level plus four, within 5..=7.
    pub fn boss_symbol_sides(&self) -> (sides: usize)
        requires
            self.current_level <= usize::MAX - 4,
        ensures
            sides == (if self.current_level + 4 < 5 { 5 } else if self.current_level + 4 > 7 { 7 } else { self.current_level + 4 }),
    {
        let raw = self.current_level + 4;
        if raw < 5 { 5 } else if raw > 7 { 7 } else { raw }
    }

    /// The deepest depth of the map (0 for an empty map).
    pub fn max_depth(&self) -> (depth: usize)
        ensures
            forall|i: int| 0 <= i < self.nodes@.len() ==> (#[trigger] self.nodes@[i]).depth <= depth,
            self.nodes@.len() == 0 ==> depth == 0,
            self.nodes@.len() > 0 ==> exists|i: int| 0 <= i < self.nodes@.len() && (#[trigger] self.nodes@[i]).depth == depth,
    {
        let mut depth: usize = 0;
        let mut i: usize = 0;
        while i < self.nodes.len()
            invariant
                i <= self.nodes.len(),
                forall|k: int| 0 <= k < i ==> (#[trigger] self.nodes@[k]).depth <= depth,
                i == 0 ==> depth == 0,
                i > 0 ==> exists|k: int| 0 <= k < i && (#[trigger] self.nodes@[k]).depth == depth,
            decreases self.nodes.len() - i,
        {
            if i == 0 || self.nodes[i].depth > depth {
                depth = self.nodes[i].depth;
            }
            i = i + 1;
        }
        depth
    }

    /// The number of lanes the map spans: one more than its highest lane.
    pub fn lane_count(&self) -> (count: usize)
        requires
            forall|i: int| 0 <= i < self.nodes@.len() ==> (#[trigger] self.nodes@[i]).lane < usize::MAX,
        ensures
            forall|i: int| 0 <= i < self.nodes@.len() ==> (#[trigger] self.nodes@[i]).lane < count,
            self.nodes@.len() == 0 ==> count == 1,
            self.nodes@.len() > 0 ==> exists|i: int| 0 <= i < self.nodes@.len() && (#[trigger] self.nodes@[i]).lane + 1 == count,
    {
        let mut lane: usize = 0;
        let mut i: usize = 0;
        while i < self.nodes.len()
            invariant
                i <= self.nodes.len(),
                forall|k: int| 0 <= k < self.nodes@.len() ==> (#[trigger] self.nodes@[k]).lane < usize::MAX,
                forall|k: int| 0 <= k < i ==> (#[trigger] self.nodes@[k]).lane <= lane,
                i == 0 ==> lane == 0,
                i > 0 ==> exists|k: int| 0 <= k < i && (#[trigger] self.nodes@[k]).lane == lane,
                lane < usize::MAX,
            decreases self.nodes.len() - i,
        {
            if i == 0 || self.nodes[i].lane > lane {
                lane = self.nodes[i].lane;
            }
            i = i + 1;
        }
        lane + 1
    }

    pub fn is_available(&self, node_id: usize) -> (available: bool)
        ensures
            available == self.available_nodes@.contains(node_id),
    {
        contains_id(&self.available_nodes, node_id)
    }

    pub fn is_visited(&self, node_id: usize) -> (visited: bool)
        ensures
            visited == self.visited_nodes@.contains(node_id),
    {
        contains_id(&self.visited_nodes, node_id)
    }

    pub fn node(&self, node_id: usize) -> (node: Option<&DungeonNode>)
        ensures
            node == (if node_id < self.nodes@.len() { Some(&self.nodes@[node_id as int]) } else { None }),
    {
        if node_id < self.nodes.len() {
            Some(&self.nodes[node_id])
        } else {
            None
        }
    }

    /// The kind of the room the run is in, if it is in one that exists.
    pub open spec fn spec_current_room_kind(self) -> Option<RoomKind> {
        match self.current_node {
            Some(id) => if id < self.nodes@.len() { Some(self.nodes@[id as int].kind) } else { None },
            None => None,
        }
    }

    pub fn current_room_kind(&self) -> (kind: Option<RoomKind>)
        ensures
            kind == self.spec_current_room_kind(),
    {
        match self.current_node {
            Some(id) => if id < self.nodes.len() { Some(self.nodes[id].kind) } else { None },
            None => None,
        }
    }

    /// The seed of a room's fight: the level seed plus a multiple of the room id.
    pub fn room_seed_for(&self, node_id: usize) -> (seed: u64)
        requires
            (node_id as int) < u64::MAX,
        ensures
            seed == spec_level_seed(self.seed, self.current_level).wrapping_add(((node_id + 1) as u64).wrapping_mul(0x9E37_79B9_7F4A_7C15u64)),
    {
        let step = (node_id as u64 + 1).wrapping_mul(0x9E37_79B9_7F4A_7C15u64);
        level_seed(self.seed, self.current_level).wrapping_add(step)
    }

    /// The seed of the current room's fight: the level seed plus a multiple of the room id.
    pub fn current_room_seed(&self) -> (seed: Option<u64>)
        requires
            self.current_node matches Some(id) ==> (id as int) < u64::MAX,
        ensures
            seed == (match self.current_node {
                Some(id) => Some(spec_level_seed(self.seed, self.current_level).wrapping_add(
                    ((id + 1) as u64).wrapping_mul(0x9E37_79B9_7F4A_7C15u64),
                )),
                None => None,
            }),
    {
        match self.current_node {
            Some(id) => {
                let step = (id as u64 + 1).wrapping_mul(0x9E37_79B9_7F4A_7C15u64);
                Some(level_seed(self.seed, self.current_level).wrapping_add(step))
            },
            None => None,
        }
    }

    pub fn add_card(&mut self, card: CardId)
        ensures
            final(self).deck@ == old(self).deck@.push(card),
            *final(self) == (DungeonRun { deck: final(self).deck, ..*old(self) }),
    {
        self.deck.push(card);
    }

    /// Adds a module unless the run already has it.
    pub fn add_module(&mut self, module: ModuleId)
        ensures
            final(self).modules@ == (if old(self).modules@.contains(module) { old(self).modules@ } else { old(self).modules@.push(module) }),
            *final(self) == (DungeonRun { modules: final(self).modules, ..*old(self) }),
    {
        if !contains_module(&self.modules, module) {
            self.modules.push(module);
        }
    }

    pub fn has_module(&self, module: ModuleId) -> (has: bool)
        ensures
            has == self.modules@.contains(module),
    {
        contains_module(&self.modules, module)
    }

    /// Heals up to `amount` without going above the maximum; returns the amount healed.
    pub fn recover_hp(&mut self, amount: i32) -> (healed: i32)
        requires
            -1_000_000_000 <= old(self).player_hp <= 1_000_000_000,
            -1_000_000_000 <= old(self).player_max_hp <= 1_000_000_000,
        ensures
            healed == (if amount <= 0 {
                0
            } else {
                let missing = if old(self).player_max_hp - old(self).player_hp < 0 { 0 } else { old(self).player_max_hp - old(self).player_hp };
                if missing < amount { missing } else { amount as int }
            }),
            final(self).player_hp == old(self).player_hp + healed,
            *final(self) == (DungeonRun { player_hp: final(self).player_hp, ..*old(self) }),
    {
        if amount <= 0 {
            return 0;
        }
        let missing = if self.player_max_hp - self.player_hp < 0 { 0 } else { self.player_max_hp - self.player_hp };
        let healed = if missing < amount { missing } else { amount };
        self.player_hp = self.player_hp + healed;
        healed
    }

    /// What a rest heals: the missing hit points, at most six.
    pub open spec fn spec_rest_heal(self) -> int {
        let missing = self.player_max_hp - self.player_hp;
        if missing < 0 { 0 } else if missing > REST_HEAL { REST_HEAL as int } else { missing }
    }

    pub fn rest_heal_amount(&self) -> (heal: i32)
        requires
            self.numbers_in_range(),
        ensures
            heal == self.spec_rest_heal(),
    {
        let missing = self.player_max_hp - self.player_hp;
        if missing < 0 { 0 } else if missing > REST_HEAL { REST_HEAL } else { missing }
    }

    /// The deck positions offered for an upgrade: the first copy of each upgradable card.
    pub fn upgradable_card_indices(&self) -> (indices: Vec<usize>)
        ensures
            forall|k: int| 0 <= k < indices@.len() ==> #[trigger] indices@[k] < self.deck@.len()
                && spec_upgraded_card(self.deck@[indices@[k] as int]) is Some,
            forall|a: int, b: int| 0 <= a < b < indices@.len() ==> #[trigger] indices@[a] < #[trigger] indices@[b]
                && self.deck@[indices@[a] as int] != self.deck@[indices@[b] as int],
            forall|i: int| 0 <= i < self.deck@.len() && spec_upgraded_card(#[trigger] self.deck@[i]) is Some ==> exists|k: int|
                0 <= k < indices@.len() && indices@[k] <= i && self.deck@[indices@[k] as int] == self.deck@[i],
    {
        let mut seen: Vec<CardId> = Vec::new();
        let mut indices: Vec<usize> = Vec::new();
        let mut i: usize = 0;
        while i < self.deck.len()
            invariant
                i <= self.deck.len(),
                seen@.len() == indices@.len(),
                forall|k: int| 0 <= k < indices@.len() ==> #[trigger] indices@[k] < i && seen@[k] == self.deck@[indices@[k] as int]
                    && spec_upgraded_card(seen@[k]) is Some,
                forall|a: int, b: int| 0 <= a < b < indices@.len() ==> #[trigger] indices@[a] < #[trigger] indices@[b]
                    && seen@[a] != seen@[b],
                forall|m: int| 0 <= m < i && spec_upgraded_card(#[trigger] self.deck@[m]) is Some ==> exists|k: int|
                    0 <= k < indices@.len() && indices@[k] <= m && seen@[k] == self.deck@[m],
            decreases self.deck.len() - i,
        {
            let card = self.deck[i];
            let ghost old_seen = seen@;
            let ghost old_idx = indices@;
            let upgradable = upgraded_card(card).is_some();
            let already = contains_card_id(&seen, card);
            if upgradable && !already {
                seen.push(card);
                indices.push(i);
            }
            proof {
                assert forall|a: int, b: int| 0 <= a < b < indices@.len() implies #[trigger] indices@[a] < #[trigger] indices@[b]
                    && seen@[a] != seen@[b] by {
                    if upgradable && !already && b == indices@.len() - 1 {
                        assert(seen@[a] == old_seen[a]);
                        assert(old_seen.contains(old_seen[a]));
                    } else {
                        assert(indices@[a] == old_idx[a] && indices@[b] == old_idx[b]);
                    }
                }
                assert forall|m: int| 0 <= m < i + 1 && spec_upgraded_card(#[trigger] self.deck@[m]) is Some implies exists|k: int|
                    0 <= k < indices@.len() && indices@[k] <= m && seen@[k] == self.deck@[m] by {
                    if m < i {
                        let k = choose|k: int| 0 <= k < old_idx.len() && old_idx[k] <= m && old_seen[k] == self.deck@[m];
                        assert(indices@[k] == old_idx[k] && seen@[k] == old_seen[k]);
                    } else if upgradable && !already {
                        let k = indices@.len() - 1;
                        assert(indices@[k] == i && seen@[k] == card);
                    } else {
                        let k = choose|k: int| 0 <= k < old_seen.len() && old_seen[k] == card;
                        assert(indices@[k] == old_idx[k] && seen@[k] == old_seen[k]);
                    }
                }
            }
            i = i + 1;
        }
        indices
    }

    pub fn can_afford_shop_price(&self, price: u32) -> (affordable: bool)
        ensures
            affordable == (self.credits >= price),
    {
        self.credits >= price
    }

    pub fn resolve_combat_defeat(&mut self, player_hp: i32)
        ensures
            *final(self) == (DungeonRun { player_hp: if player_hp < 0 { 0 } else { player_hp }, ..*old(self) }),
    {
        self.player_hp = if player_hp < 0 { 0 } else { player_hp };
    }

    /// Loses up to `amount` hit points but never the last one; returns the amount lost.
    fn lose_hp_preserving_one(&mut self, amount: i32) -> (lost: i32)
        requires
            -1_000_000_000 <= old(self).player_hp <= 1_000_000_000,
            -1_000_000_000 <= old(self).player_max_hp <= 1_000_000_000,
        ensures
            lost == (if amount <= 0 {
                0
            } else {
                let spare = if old(self).player_hp - 1 < 0 { 0 } else { old(self).player_hp - 1 };
                if spare < amount { spare } else { amount as int }
            }),
            final(self).player_hp == old(self).player_hp - lost,
            *final(self) == (DungeonRun { player_hp: final(self).player_hp, ..*old(self) }),
    {
        if amount <= 0 {
            return 0;
        }
        let spare = if self.player_hp - 1 < 0 { 0 } else { self.player_hp - 1 };
        let lost = if spare < amount { spare } else { amount };
        self.player_hp = self.player_hp - lost;
        lost
    }

    /// Counts a cleared room of `kind`.
    fn record_completed_room(&mut self, room_kind: RoomKind)
        requires
            old(self).numbers_in_range(),
        ensures
            (final(self).combats_cleared, final(self).elites_cleared, final(self).rests_completed, final(self).bosses_cleared)
                == counted_room(room_kind, old(self).combats_cleared, old(self).elites_cleared, old(self).rests_completed, old(self).bosses_cleared),
            *final(self) == (DungeonRun {
                combats_cleared: final(self).combats_cleared,
                elites_cleared: final(self).elites_cleared,
                rests_completed: final(self).rests_completed,
                bosses_cleared: final(self).bosses_cleared,
                ..*old(self)
            }),
    {
        match room_kind {
            RoomKind::Combat => self.combats_cleared = self.combats_cleared + 1,
            RoomKind::Elite => self.elites_cleared = self.elites_cleared + 1,
            RoomKind::Rest => self.rests_completed = self.rests_completed + 1,
            RoomKind::Boss => self.bosses_cleared = self.bosses_cleared + 1,
            RoomKind::Start | RoomKind::Shop | RoomKind::Event => {},
        }
    }

    /// Whether the run's references all point at existing nodes.
    pub fn is_structurally_valid(&self) -> (valid: bool)
        ensures
            valid == self.structurally_valid(),
    {
        if self.current_level == 0 || self.current_level > DUNGEON_LEVEL_COUNT || self.nodes.len() == 0 {
            return false;
        }
        let count = self.nodes.len();
        let mut i: usize = 0;
        while i < count
            invariant
                i <= count,
                count == self.nodes@.len(),
                forall|a: int| 0 <= a < i ==> (#[trigger] self.nodes@[a]).id == a,
                forall|a: int, k: int| 0 <= a < i && 0 <= k < self.nodes@[a].next@.len() ==> #[trigger] self.nodes@[a].next@[k] < count,
            decreases count - i,
        {
            if self.nodes[i].id != i {
                return false;
            }
            let mut k: usize = 0;
            while k < self.nodes[i].next.len()
                invariant
                    k <= self.nodes@[i as int].next@.len(),
                    i < count,
                    count == self.nodes@.len(),
                    forall|m: int| 0 <= m < k ==> #[trigger] self.nodes@[i as int].next@[m] < count,
                decreases self.nodes@[i as int].next@.len() - k,
            {
                if self.nodes[i].next[k] >= count {
                    return false;
                }
                k = k + 1;
            }
            i = i + 1;
        }
        if let Some(id) = self.current_node {
            if id >= count {
                return false;
            }
        }
        if !all_below(&self.available_nodes, count) {
            return false;
        }
        if !all_below(&self.visited_nodes, count) {
            return false;
        }
        true
    }
}

/// Whether every id is below `bound`.
fn all_below(ids: &Vec<usize>, bound: usize) -> (all: bool)
    ensures
        all == forall|k: int| 0 <= k < ids@.len() ==> #[trigger] ids@[k] < bound,
{
    let mut k: usize = 0;
    while k < ids.len()
        invariant
            k <= ids.len(),
            forall|m: int| 0 <= m < k ==> #[trigger] ids@[m] < bound,
        decreases ids.len() - k,
    {
        if ids[k] >= bound {
            return false;
        }
        k = k + 1;
    }
    true
}

fn contains_id(ids: &Vec<usize>, id: usize) -> (found: bool)
    ensures
        found == ids@.contains(id),
{
    let mut k: usize = 0;
    while k < ids.len()
        invariant
            k <= ids.len(),
            forall|m: int| 0 <= m < k ==> #[trigger] ids@[m] != id,
        decreases ids.len() - k,
    {
        if ids[k] == id {
            return true;
        }
        k = k + 1;
    }
    false
}

fn contains_module(modules: &Vec<ModuleId>, module: ModuleId) -> (found: bool)
    ensures
        found == modules@.contains(module),
{
    let mut k: usize = 0;
    while k < modules.len()
        invariant
            k <= modules.len(),
            forall|m: int| 0 <= m < k ==> #[trigger] modules@[m] != module,
        decreases modules.len() - k,
    {
        if modules[k] == module {
            return true;
        }
        k = k + 1;
    }
    false
}

fn contains_card_id(cards: &Vec<CardId>, card: CardId) -> (found: bool)
    ensures
        found == cards@.contains(card),
{
    let mut k: usize = 0;
    while k < cards.len()
        invariant
            k <= cards.len(),
            forall|m: int| 0 <= m < k ==> #[trigger] cards@[m] != card,
        decreases cards.len() - k,
    {
        if cards[k] == card {
            return true;
        }
        k = k + 1;
    }
    false
}

/// Whether a node holds a fight.
pub open spec fn is_fight(kind: RoomKind) -> bool {
    kind == RoomKind::Combat || kind == RoomKind::Elite || kind == RoomKind::Boss
}

/// The seed mixing a node's id, depth and lane with three multipliers.
pub open spec fn spec_node_mix(base: u64, node: (usize, usize, usize), a: u64, b: u64, c: u64) -> u64 {
    base ^ ((node.0 + 1) as u64).wrapping_mul(a) ^ ((node.1 + 1) as u64).wrapping_mul(b) ^ ((node.2 + 1) as u64).wrapping_mul(c)
}

fn node_mix(base: u64, id: usize, depth: usize, lane: usize, a: u64, b: u64, c: u64) -> (mixed: u64)
    requires
        (id as int) < u64::MAX,
        (depth as int) < u64::MAX,
        (lane as int) < u64::MAX,
    ensures
        mixed == spec_node_mix(base, (id, depth, lane), a, b, c),
{
    base ^ (id as u64 + 1).wrapping_mul(a) ^ (depth as u64 + 1).wrapping_mul(b) ^ (lane as u64 + 1).wrapping_mul(c)
}

/// A node's coordinates fit the seed arithmetic.
pub open spec fn node_fits(node: DungeonNode) -> bool {
    &&& (node.id as int) < u64::MAX
    &&& node.depth <= 1000
    &&& (node.lane as int) < u64::MAX
}

/// Event room `i` comes before event room `j` in the order the level's events are dealt:
/// by depth, then lane, then index.
pub open spec fn event_key_before(nodes: Seq<DungeonNode>, i: int, j: int) -> bool {
    nodes[i].depth < nodes[j].depth || (nodes[i].depth == nodes[j].depth && (nodes[i].lane < nodes[j].lane || (
    nodes[i].lane == nodes[j].lane && i < j)))
}

/// How many of the first `n` rooms are event rooms dealt their event before room `j`.
pub open spec fn events_ahead(nodes: Seq<DungeonNode>, j: int, n: nat) -> nat
    decreases n,
{
    if n == 0 {
        0
    } else {
        events_ahead(nodes, j, (n - 1) as nat) + if nodes[n - 1].kind == RoomKind::Event && event_key_before(
            nodes,
            n - 1,
            j,
        ) {
            1nat
        } else {
            0nat
        }
    }
}

impl DungeonRun {
    /// The event a node holds: the first event room in dealing order gets the level's first
    /// event, the second gets the second, and every other node none.
    pub open spec fn spec_event_for_node(self, node_id: usize) -> Option<EventId> {
        if node_id < self.nodes@.len() && self.nodes@[node_id as int].kind == RoomKind::Event {
            let rank = events_ahead(self.nodes@, node_id as int, self.nodes@.len());
            let events = spec_ordered_events_for_level(self.seed, self.current_level);
            if rank == 0 {
                Some(events.0)
            } else if rank == 1 {
                Some(events.1)
            } else {
                None
            }
        } else {
            None
        }
    }
}

/// The number of a level's regular enemies unlocked at `depth`: one, plus one per depth past
/// the safe ones, up to the whole table.
pub open spec fn spec_unlocked_count(profile: LevelProfile, depth: usize) -> usize {
    let past = if depth > profile.safe_combat_depths { depth - profile.safe_combat_depths } else { 0 };
    let count = 1 + past;
    if count > 2 { 2 } else { count as usize }
}

fn unlocked_count(profile: LevelProfile, depth: usize) -> (count: usize)
    requires
        profile_in_bounds(profile),
    ensures
        count == spec_unlocked_count(profile, depth),
        1 <= count <= 2,
{
    let past = if depth > profile.safe_combat_depths { depth - profile.safe_combat_depths } else { 0 };
    if past >= 1 { 2 } else { 1 }
}

impl DungeonRun {
    /// The enemy a node's fight is led by: a regular enemy unlocked at its depth for a fight,
    /// an elite from the level's table for an elite, the level's boss for the boss, and the
    /// level's signature enemy otherwise.
    pub fn encounter_enemy_profile(&self, node: &DungeonNode) -> (enemy: EnemyProfileId)
        requires
            1 <= self.current_level,
            node_fits(*node),
        ensures
            node.kind == RoomKind::Combat ==> {
                let p = spec_level_profile(self.current_level);
                enemy == p.combat_enemy_table[0] || (spec_unlocked_count(p, node.depth) == 2 && enemy == p.combat_enemy_table[1])
            },
            node.kind == RoomKind::Elite ==> enemy == spec_level_profile(self.current_level).elite_enemy_table[0]
                || enemy == spec_level_profile(self.current_level).elite_enemy_table[1],
            node.kind == RoomKind::Boss ==> enemy == spec_level_profile(self.current_level).briefing.boss_enemy,
            !is_fight(node.kind) ==> enemy == spec_level_profile(self.current_level).briefing.combat_enemy,
    {
        let profile = self.current_level_profile();
        match node.kind {
            RoomKind::Combat => {
                let count = unlocked_count(profile, node.depth);
                let mut rng = XorShift64::new(node_mix(
                    level_seed(self.seed, self.current_level),
                    node.id,
                    node.depth,
                    node.lane,
                    0x9E37_79B9_7F4A_7C15u64,
                    0xBF58_476D_1CE4_E5B9u64,
                    0x94D0_49BB_1331_11EBu64,
                ));
                profile.combat_enemy_table[rng.next_index(count)]
            },
            RoomKind::Elite => {
                let mut rng = XorShift64::new(node_mix(
                    level_seed(self.seed, self.current_level),
                    node.id,
                    node.depth,
                    node.lane,
                    0x517C_C1B7_2722_0A95u64,
                    0x94D0_49BB_1331_11EBu64,
                    0xBF58_476D_1CE4_E5B9u64,
                ));
                profile.elite_enemy_table[rng.next_index(2)]
            },
            RoomKind::Boss => profile.briefing.boss_enemy,
            RoomKind::Start | RoomKind::Rest | RoomKind::Shop | RoomKind::Event => profile.briefing.combat_enemy,
        }
    }

    /// Whether a regular fight at this node brings a second enemy (from the elite depth on).
    fn should_spawn_dual_combat(&self, node: &DungeonNode) -> (dual: bool)
        ensures
            dual == (node.depth >= spec_level_profile(self.current_level).force_elite_min_depth),
    {
        let profile = self.current_level_profile();
        node.depth >= profile.force_elite_min_depth
    }

    /// The second enemy of a dual fight: another regular enemy unlocked at this depth, or the
    /// first one again when no other is unlocked.
    fn secondary_combat_enemy_profile(&self, node: &DungeonNode, primary_profile: EnemyProfileId) -> (enemy: EnemyProfileId)
        requires
            node_fits(*node),
        ensures
            enemy == primary_profile || (spec_unlocked_count(spec_level_profile(self.current_level), node.depth) == 2 && (enemy
                == spec_level_profile(self.current_level).combat_enemy_table[0] || enemy == spec_level_profile(
                self.current_level,
            ).combat_enemy_table[1]) && enemy != primary_profile),
    {
        let profile = self.current_level_profile();
        let count = unlocked_count(profile, node.depth);
        if count <= 1 {
            return primary_profile;
        }
        let mut rng = XorShift64::new(node_mix(
            level_seed(self.seed, self.current_level),
            node.id,
            node.depth,
            node.lane,
            0xD2B7_4407_B1CE_6E93u64,
            0x94D0_49BB_1331_11EBu64,
            0x517C_C1B7_2722_0A95u64,
        ));
        let mut candidates: Vec<EnemyProfileId> = Vec::new();
        let mut k: usize = 0;
        while k < count
            invariant
                k <= count <= 2,
                candidates@.len() <= k,
                forall|m: int| 0 <= m < candidates@.len() ==> #[trigger] candidates@[m] != primary_profile && (candidates@[m]
                    == profile.combat_enemy_table[0] || candidates@[m] == profile.combat_enemy_table[1]),
            decreases count - k,
        {
            let candidate = profile.combat_enemy_table[k];
            if candidate != primary_profile {
                candidates.push(candidate);
            }
            k = k + 1;
        }
        if candidates.len() == 0 {
            primary_profile
        } else {
            let pick = rng.next_index(candidates.len());
            candidates[pick]
        }
    }

    /// The enemies of a fight at `node`: a weaker pair for a regular fight from the elite
    /// depth on, otherwise a single enemy.
    fn encounter_enemies_for(
        &self,
        node: &DungeonNode,
        enemy_hp: i32,
        enemy_block: i32,
        enemy_intent_index: usize,
    ) -> (enemies: Vec<EncounterEnemySetup>)
        requires
            1 <= self.current_level,
            node_fits(*node),
            0 <= enemy_hp <= 1_000_000,
            enemy_intent_index < 1000,
        ensures
            1 <= enemies@.len() <= 2,
            enemies@.len() == 2 <==> (node.kind == RoomKind::Combat && node.depth >= spec_level_profile(
                self.current_level,
            ).force_elite_min_depth),
            enemies@.len() == 1 ==> enemies@[0] == (EncounterEnemySetup {
                hp: enemy_hp,
                max_hp: enemy_hp,
                block: enemy_block,
                profile: enemies@[0].profile,
                intent_index: enemy_intent_index % 3,
                on_hit_bleed: 0,
            }),
            enemies@.len() == 2 ==> {
                let primary = if enemy_hp * 7 / 10 < 16 { 16 } else { enemy_hp * 7 / 10 };
                let secondary = if enemy_hp * 11 / 20 < 14 { 14 } else { enemy_hp * 11 / 20 };
                &&& enemies@[0].hp == primary && enemies@[0].max_hp == primary
                &&& enemies@[1].hp == secondary && enemies@[1].max_hp == secondary
                &&& enemies@[0].block == enemy_block
                &&& enemies@[1].block == (if enemy_block == i32::MIN { i32::MIN as int } else { enemy_block - 1 })
                &&& enemies@[0].intent_index == enemy_intent_index % 3
                &&& enemies@[1].intent_index == (enemy_intent_index + 1) % 3
            },
    {
        let primary_profile = self.encounter_enemy_profile(node);
        if node.kind == RoomKind::Combat && self.should_spawn_dual_combat(node) {
            let secondary_profile = self.secondary_combat_enemy_profile(node, primary_profile);
            let primary_hp = if enemy_hp * 7 / 10 < 16 { 16 } else { enemy_hp * 7 / 10 };
            let secondary_hp = if enemy_hp * 11 / 20 < 14 { 14 } else { enemy_hp * 11 / 20 };
            let secondary_block = if enemy_block == i32::MIN { i32::MIN } else { enemy_block - 1 };
            return vec![
                EncounterEnemySetup {
                    hp: primary_hp,
                    max_hp: primary_hp,
                    block: enemy_block,
                    profile: primary_profile,
                    intent_index: enemy_intent_index % 3,
                    on_hit_bleed: 0,
                },
                EncounterEnemySetup {
                    hp: secondary_hp,
                    max_hp: secondary_hp,
                    block: secondary_block,
                    profile: secondary_profile,
                    intent_index: (enemy_intent_index + 1) % 3,
                    on_hit_bleed: 0,
                },
            ];
        }
        vec![EncounterEnemySetup {
            hp: enemy_hp,
            max_hp: enemy_hp,
            block: enemy_block,
            profile: primary_profile,
            intent_index: enemy_intent_index % 3,
            on_hit_bleed: 0,
        }]
    }

    /// The fight a node holds, scaled by the level and the node's depth.
    pub fn encounter_setup_for(&self, node: &DungeonNode) -> (setup: EncounterSetup)
        requires
            1 <= self.current_level,
            node_fits(*node),
        ensures
            setup.player_hp == (if self.player_hp < 1 { 1 } else { self.player_hp }),
            setup.player_max_hp == self.player_max_hp,
            setup.player_max_energy == 3,
            1 <= setup.enemies@.len() <= 2,
    {
        let profile = self.current_level_profile();
        let (enemy_hp, enemy_block, enemy_intent_index) = match node.kind {
            RoomKind::Combat => (
                profile.combat_hp(node.depth),
                profile.combat_block,
                (node.lane % 3 + node.depth % 3 + profile.combat_intent_shift % 3) % 3,
            ),
            RoomKind::Elite => (profile.elite_hp(node.depth), profile.elite_block, 1),
            RoomKind::Boss => (profile.boss_hp, profile.boss_block, 0),
            RoomKind::Start | RoomKind::Rest | RoomKind::Shop | RoomKind::Event => (
                profile.combat_hp_base,
                0,
                profile.combat_intent_shift % 3,
            ),
        };
        EncounterSetup {
            player_hp: if self.player_hp < 1 { 1 } else { self.player_hp },
            player_max_hp: self.player_max_hp,
            player_max_energy: 3,
            enemies: self.encounter_enemies_for(node, enemy_hp, enemy_block, enemy_intent_index),
        }
    }

    /// The fight of the room the run is in, if it holds one.
    pub fn current_encounter_setup(&self) -> (setup: Option<EncounterSetup>)
        requires
            1 <= self.current_level,
            forall|i: int| 0 <= i < self.nodes@.len() ==> node_fits(#[trigger] self.nodes@[i]),
        ensures
            setup is Some <==> (self.spec_current_room_kind() matches Some(kind) && is_fight(kind)),
    {
        match self.current_node {
            Some(id) => {
                if id >= self.nodes.len() {
                    return None;
                }
                let node = &self.nodes[id];
                if node.kind == RoomKind::Combat || node.kind == RoomKind::Elite || node.kind == RoomKind::Boss {
                    Some(self.encounter_setup_for(node))
                } else {
                    None
                }
            },
            None => None,
        }
    }

    /// The event rooms of the map ordered by depth, lane and id.
    pub fn ordered_event_node_ids(&self) -> (ids: Vec<usize>)
        ensures
            forall|k: int| 0 <= k < ids@.len() ==> #[trigger] ids@[k] < self.nodes@.len() && self.nodes@[ids@[k] as int].kind
                == RoomKind::Event,
    {
        let mut keys: Vec<(usize, usize, usize)> = Vec::new();
        let mut i: usize = 0;
        while i < self.nodes.len()
            invariant
                i <= self.nodes.len(),
                forall|k: int| 0 <= k < keys@.len() ==> (#[trigger] keys@[k]).2 < self.nodes@.len() && self.nodes@[keys@[k].2 as int].kind
                    == RoomKind::Event,
            decreases self.nodes.len() - i,
        {
            if self.nodes[i].kind == RoomKind::Event {
                keys.push((self.nodes[i].depth, self.nodes[i].lane, i));
            }
            i = i + 1;
        }
        let n = keys.len();
        let mut a: usize = 1;
        while a < n
            invariant
                keys@.len() == n,
                forall|k: int| 0 <= k < keys@.len() ==> (#[trigger] keys@[k]).2 < self.nodes@.len() && self.nodes@[keys@[k].2 as int].kind
                    == RoomKind::Event,
            decreases n - a,
        {
            let mut j: usize = a;
            while j > 0 && key_less(keys[j], keys[j - 1])
                invariant
                    j <= a < n,
                    keys@.len() == n,
                    forall|k: int| 0 <= k < keys@.len() ==> (#[trigger] keys@[k]).2 < self.nodes@.len() && self.nodes@[keys@[k].2 as int].kind
                        == RoomKind::Event,
                decreases j,
            {
                let x = keys[j - 1];
                let y = keys[j];
                keys.set(j - 1, y);
                keys.set(j, x);
                j = j - 1;
            }
            a = a + 1;
        }
        let mut ids: Vec<usize> = Vec::new();
        let mut k: usize = 0;
        while k < n
            invariant
                k <= n,
                keys@.len() == n,
                ids@.len() == k,
                forall|m: int| 0 <= m < keys@.len() ==> (#[trigger] keys@[m]).2 < self.nodes@.len() && self.nodes@[keys@[m].2 as int].kind
                    == RoomKind::Event,
                forall|m: int| 0 <= m < k ==> #[trigger] ids@[m] == keys@[m].2,
            decreases n - k,
        {
            ids.push(keys[k].2);
            k = k + 1;
        }
        ids
    }

    /// The event a node holds: the level's events are dealt to its event rooms in order.
    pub fn event_for_node(&self, node_id: usize) -> (event: Option<EventId>)
        ensures
            event == self.spec_event_for_node(node_id),
    {
        if node_id >= self.nodes.len() || self.nodes[node_id].kind != RoomKind::Event {
            return None;
        }
        let key = (self.nodes[node_id].depth, self.nodes[node_id].lane, node_id);
        let mut rank: usize = 0;
        let mut i: usize = 0;
        while i < self.nodes.len()
            invariant
                i <= self.nodes@.len(),
                node_id < self.nodes@.len(),
                key == (self.nodes@[node_id as int].depth, self.nodes@[node_id as int].lane, node_id),
                rank <= i,
                rank == events_ahead(self.nodes@, node_id as int, i as nat),
            decreases self.nodes.len() - i,
        {
            let node = &self.nodes[i];
            if node.kind == RoomKind::Event && key_less((node.depth, node.lane, i), key) {
                rank = rank + 1;
            }
            i = i + 1;
        }
        if rank < 2 {
            let events = ordered_events_for_level(self.seed, self.current_level);
            Some(events[rank])
        } else {
            None
        }
    }

    /// What entering a node offers, without checking that it is reachable.
    fn selection_for(&self, node_id: usize) -> (selection: Option<NodeSelection>)
        requires
            1 <= self.current_level,
            forall|i: int| 0 <= i < self.nodes@.len() ==> node_fits(#[trigger] self.nodes@[i]),
        ensures
            node_id >= self.nodes@.len() ==> selection is None,
            node_id < self.nodes@.len() ==> match self.nodes@[node_id as int].kind {
                RoomKind::Start => selection is None,
                RoomKind::Rest => selection == Some(NodeSelection::Rest),
                RoomKind::Shop => selection == Some(NodeSelection::Shop),
                RoomKind::Event => selection == (match self.spec_event_for_node(self.nodes@[node_id as int].id) {
                    Some(e) => Some(NodeSelection::Event(e)),
                    None => None,
                }),
                _ => selection matches Some(NodeSelection::Encounter(_)),
            },
    {
        if node_id >= self.nodes.len() {
            return None;
        }
        let node = &self.nodes[node_id];
        match node.kind {
            RoomKind::Start => None,
            RoomKind::Rest => Some(NodeSelection::Rest),
            RoomKind::Shop => Some(NodeSelection::Shop),
            RoomKind::Event => match self.event_for_node(node.id) {
                Some(event) => Some(NodeSelection::Event(event)),
                None => None,
            },
            RoomKind::Combat | RoomKind::Elite | RoomKind::Boss => Some(NodeSelection::Encounter(self.encounter_setup_for(node))),
        }
    }

    /// Enters an available node; the run moves there when the node offers something.
    pub fn select_node(&mut self, node_id: usize) -> (selection: Option<NodeSelection>)
        requires
            1 <= old(self).current_level,
            forall|i: int| 0 <= i < old(self).nodes@.len() ==> node_fits(#[trigger] old(self).nodes@[i]),
        ensures
            !old(self).available_nodes@.contains(node_id) ==> selection is None,
            selection is Some ==> old(self).available_nodes@.contains(node_id) && node_id < old(self).nodes@.len(),
            old(self).available_nodes@.contains(node_id) && node_id < old(self).nodes@.len() ==> match old(self).nodes@[node_id as int].kind {
                RoomKind::Start => selection is None,
                RoomKind::Rest => selection == Some(NodeSelection::Rest),
                RoomKind::Shop => selection == Some(NodeSelection::Shop),
                RoomKind::Event => selection == (match old(self).spec_event_for_node(old(self).nodes@[node_id as int].id) {
                    Some(e) => Some(NodeSelection::Event(e)),
                    None => None,
                }),
                _ => selection matches Some(NodeSelection::Encounter(_)),
            },
            *final(self) == (if selection is Some { DungeonRun { current_node: Some(node_id), ..*old(self) } } else { *old(self) }),
    {
        if !self.is_available(node_id) {
            return None;
        }
        let selection = self.selection_for(node_id);
        if selection.is_some() {
            self.current_node = Some(node_id);
        }
        selection
    }

    /// Enters any node, reachable or not.
    pub fn debug_select_node(&mut self, node_id: usize) -> (selection: Option<NodeSelection>)
        requires
            1 <= old(self).current_level,
            forall|i: int| 0 <= i < old(self).nodes@.len() ==> node_fits(#[trigger] old(self).nodes@[i]),
        ensures
            selection is Some ==> node_id < old(self).nodes@.len(),
            *final(self) == (if selection is Some { DungeonRun { current_node: Some(node_id), ..*old(self) } } else { *old(self) }),
    {
        let selection = self.selection_for(node_id);
        if selection.is_some() {
            self.current_node = Some(node_id);
        }
        selection
    }
}

fn key_less(a: (usize, usize, usize), b: (usize, usize, usize)) -> (less: bool)
    ensures
        less == (a.0 < b.0 || (a.0 == b.0 && (a.1 < b.1 || (a.1 == b.1 && a.2 < b.2)))),
{
    a.0 < b.0 || (a.0 == b.0 && (a.1 < b.1 || (a.1 == b.1 && a.2 < b.2)))
}


/// The hit points an event takes from a run at `hp`: at most `lose_hp`, leaving at least one.
pub open spec fn run_hp_lost(hp: i32, lose_hp: i32) -> int {
    if lose_hp <= 0 {
        0
    } else {
        let spare = if hp - 1 < 0 { 0 } else { hp - 1 };
        if spare < lose_hp { spare } else { lose_hp as int }
    }
}

/// The hit points healing `amount` gives a run at `hp` of `max_hp`: at most the missing ones.
pub open spec fn run_healed(hp: i32, max_hp: i32, amount: i32) -> int {
    if amount <= 0 {
        0
    } else {
        let missing = if max_hp - hp < 0 { 0 } else { max_hp - hp };
        if missing < amount { missing } else { amount as int }
    }
}

/// What an event choice's effect reports for a run at `hp` of `max_hp`.
pub open spec fn run_event_resolution(effect: EventChoiceEffect, hp: i32, max_hp: i32) -> EventResolution {
    match effect {
        EventChoiceEffect::GainCredits(credits) => EventResolution::Credits { hp_lost: 0, credits_gained: credits },
        EventChoiceEffect::LoseHpGainCredits { lose_hp, gain_credits } => EventResolution::Credits {
            hp_lost: run_hp_lost(hp, lose_hp) as i32,
            credits_gained: gain_credits,
        },
        EventChoiceEffect::Heal(amount) => EventResolution::Heal { healed: run_healed(hp, max_hp, amount) as i32 },
        EventChoiceEffect::LoseHpGainMaxHp { lose_hp, gain_max_hp } => EventResolution::MaxHp {
            hp_lost: run_hp_lost(hp, lose_hp) as i32,
            max_hp_gained: gain_max_hp,
        },
        EventChoiceEffect::AddCard(card) => EventResolution::Card { hp_lost: 0, card },
        EventChoiceEffect::LoseHpAddCard { lose_hp, card } => EventResolution::Card { hp_lost: run_hp_lost(hp, lose_hp) as i32, card },
    }
}

/// A run's hit points, max hit points, credits and deck after an event choice's effect.
pub open spec fn run_after_event(effect: EventChoiceEffect, old: DungeonRun, new: DungeonRun) -> bool {
    match effect {
        EventChoiceEffect::GainCredits(credits) => {
            &&& new.credits == old.credits.saturating_add(credits)
            &&& new.player_hp == old.player_hp
            &&& new.player_max_hp == old.player_max_hp
            &&& new.deck@ == old.deck@
        },
        EventChoiceEffect::LoseHpGainCredits { lose_hp, gain_credits } => {
            &&& new.credits == old.credits.saturating_add(gain_credits)
            &&& new.player_hp == old.player_hp - run_hp_lost(old.player_hp, lose_hp)
            &&& new.player_max_hp == old.player_max_hp
            &&& new.deck@ == old.deck@
        },
        EventChoiceEffect::Heal(amount) => {
            &&& new.credits == old.credits
            &&& new.player_hp == old.player_hp + run_healed(old.player_hp, old.player_max_hp, amount)
            &&& new.player_max_hp == old.player_max_hp
            &&& new.deck@ == old.deck@
        },
        EventChoiceEffect::LoseHpGainMaxHp { lose_hp, gain_max_hp } => {
            let lowered = old.player_hp - run_hp_lost(old.player_hp, lose_hp);
            let max_hp = old.player_max_hp + gain_max_hp;
            &&& new.credits == old.credits
            &&& new.player_max_hp == max_hp
            &&& new.player_hp == (if lowered + gain_max_hp < max_hp { lowered + gain_max_hp } else { max_hp })
            &&& new.deck@ == old.deck@
        },
        EventChoiceEffect::AddCard(card) => {
            &&& new.credits == old.credits
            &&& new.player_hp == old.player_hp
            &&& new.player_max_hp == old.player_max_hp
            &&& new.deck@ == old.deck@.push(card)
        },
        EventChoiceEffect::LoseHpAddCard { lose_hp, card } => {
            &&& new.credits == old.credits
            &&& new.player_hp == old.player_hp - run_hp_lost(old.player_hp, lose_hp)
            &&& new.player_max_hp == old.player_max_hp
            &&& new.deck@ == old.deck@.push(card)
        },
    }
}

/// Leaving the room a run stands in, from `old` to `new` with `progress`: with no room nothing
/// changes; the room is counted on a first visit; a room with exits offers them, the boss of a
/// level before the last opens the next level's map, and the last boss ends the run.
pub open spec fn completes_room(old: DungeonRun, new: DungeonRun, progress: Option<DungeonProgress>) -> bool {
    &&& old.current_node is None ==> progress is None && new == old
    &&& old.current_node matches Some(id) ==> {
        id >= old.nodes@.len() ==> progress is None && new == (DungeonRun { current_node: None, ..old })
    }
    &&& old.current_node matches Some(id) ==> {
        id < old.nodes@.len() ==> {
            let node = old.nodes@[id as int];
            let first_visit = !old.visited_nodes@.contains(id);
            let counts = counted_room(node.kind, old.combats_cleared, old.elites_cleared, old.rests_completed, old.bosses_cleared);
            &&& progress is Some
            &&& new.current_node is None || node.next@.len() == 0
            &&& first_visit ==> (new.combats_cleared, new.elites_cleared, new.rests_completed, new.bosses_cleared) == counts
            &&& !first_visit ==> new.combats_cleared == old.combats_cleared && new.bosses_cleared
                == old.bosses_cleared
            &&& node.next@.len() > 0 ==> {
                &&& progress == Some(DungeonProgress::Continue)
                &&& new.available_nodes@ == node.next@
                &&& new.current_level == old.current_level
                &&& new.nodes == old.nodes
                &&& new.visited_nodes@ == (if first_visit { old.visited_nodes@.push(id) } else { old.visited_nodes@ })
            }
            &&& node.next@.len() == 0 && node.kind == RoomKind::Boss && old.current_level < DUNGEON_LEVEL_COUNT ==> {
                &&& progress == Some(DungeonProgress::Continue)
                &&& new.current_level == old.current_level + 1
                &&& map_well_formed(new.nodes@)
                &&& new.available_nodes@ == new.nodes@[0].next@
                &&& new.visited_nodes@ == seq![0usize]
            }
            &&& node.next@.len() == 0 && !(node.kind == RoomKind::Boss && old.current_level < DUNGEON_LEVEL_COUNT) ==> {
                &&& progress == Some(DungeonProgress::Completed)
                &&& new.available_nodes@.len() == 0
                &&& new.current_level == old.current_level
            }
        }
    }
    &&& new.current_node is None
    &&& new.seed == old.seed
}

impl DungeonRun {
    /// A choice is taken in the run's current room when that room is an event room dealt
    /// `event` and the event has a choice at `choice_index`.
    pub open spec fn event_choice_accepted(self, event: EventId, choice_index: usize) -> bool {
        match self.current_node {
            Some(id) => {
                &&& id < self.nodes@.len()
                &&& self.nodes@[id as int].kind == RoomKind::Event
                &&& self.spec_event_for_node(id) == Some(event)
                &&& spec_event_choice_effect(event, choice_index, self.current_level) is Some
            },
            None => false,
        }
    }

    /// Leaves the current room: the first visit is recorded and counted; the run then moves on
    /// to the room's successors, to the next level after a boss that is not the last, or
    /// finishes. Without a current room there is nothing to leave.
    pub fn complete_current_node(&mut self) -> (progress: Option<DungeonProgress>)
        requires
            old(self).numbers_in_range(),
            old(self).current_level >= 1,
        ensures
            completes_room(*old(self), *final(self), progress),
            old(self).current_node is None ==> progress is None && *final(self) == *old(self),
            old(self).current_node matches Some(id) ==> {
                id >= old(self).nodes@.len() ==> progress is None && *final(self) == (DungeonRun { current_node: None, ..*old(self) })
            },
            old(self).current_node matches Some(id) ==> {
                id < old(self).nodes@.len() ==> {
                    let node = old(self).nodes@[id as int];
                    let first_visit = !old(self).visited_nodes@.contains(id);
                    let counts = counted_room(node.kind, old(self).combats_cleared, old(self).elites_cleared, old(self).rests_completed, old(self).bosses_cleared);
                    &&& progress is Some
                    &&& final(self).current_node is None || node.next@.len() == 0
                    &&& first_visit ==> (final(self).combats_cleared, final(self).elites_cleared, final(self).rests_completed, final(self).bosses_cleared) == counts
                    &&& !first_visit ==> final(self).combats_cleared == old(self).combats_cleared && final(self).bosses_cleared
                        == old(self).bosses_cleared
                    &&& node.next@.len() > 0 ==> {
                        &&& progress == Some(DungeonProgress::Continue)
                        &&& final(self).available_nodes@ == node.next@
                        &&& final(self).current_level == old(self).current_level
                        &&& final(self).nodes == old(self).nodes
                        &&& final(self).visited_nodes@ == (if first_visit { old(self).visited_nodes@.push(id) } else { old(self).visited_nodes@ })
                    }
                    &&& node.next@.len() == 0 && node.kind == RoomKind::Boss && old(self).current_level < DUNGEON_LEVEL_COUNT ==> {
                        &&& progress == Some(DungeonProgress::Continue)
                        &&& final(self).current_level == old(self).current_level + 1
                        &&& map_well_formed(final(self).nodes@)
                        &&& final(self).available_nodes@ == final(self).nodes@[0].next@
                        &&& final(self).visited_nodes@ == seq![0usize]
                    }
                    &&& node.next@.len() == 0 && !(node.kind == RoomKind::Boss && old(self).current_level < DUNGEON_LEVEL_COUNT) ==> {
                        &&& progress == Some(DungeonProgress::Completed)
                        &&& final(self).available_nodes@.len() == 0
                        &&& final(self).current_level == old(self).current_level
                    }
                }
            },
            final(self).current_node is None,
            final(self).seed == old(self).seed,
            final(self).deck == old(self).deck,
            final(self).modules == old(self).modules,
            final(self).player_hp == old(self).player_hp,
            final(self).player_max_hp == old(self).player_max_hp,
            final(self).credits == old(self).credits,
            old(self).structurally_valid() ==> final(self).structurally_valid(),
    {
        let node_id = match self.current_node {
            Some(id) => id,
            None => {
                return None;
            },
        };
        self.current_node = None;
        if node_id >= self.nodes.len() {
            return None;
        }
        let kind = self.nodes[node_id].kind;
        let next = self.nodes[node_id].next.clone();
        proof {
            assert(next@ =~= old(self).nodes@[node_id as int].next@);
        }
        if !self.is_visited(node_id) {
            self.visited_nodes.push(node_id);
            self.record_completed_room(kind);
        }
        if next.len() > 0 {
            self.available_nodes = next;
            return Some(DungeonProgress::Continue);
        }
        if kind == RoomKind::Boss && self.current_level < DUNGEON_LEVEL_COUNT {
            self.advance_level();
            return Some(DungeonProgress::Continue);
        }
        self.available_nodes.clear();
        Some(DungeonProgress::Completed)
    }

    /// The same as leaving the current room, for a run shared by a party.
    pub fn complete_current_room_shared(&mut self) -> (progress: Option<DungeonProgress>)
        requires
            old(self).numbers_in_range(),
            old(self).current_level >= 1,
        ensures
            final(self).current_node is None,
            old(self).current_node is None ==> progress is None && *final(self) == *old(self),
            old(self).current_node matches Some(id) ==> (progress is Some <==> id < old(self).nodes@.len()),
            old(self).structurally_valid() ==> final(self).structurally_valid(),
            final(self).deck == old(self).deck,
            final(self).player_hp == old(self).player_hp,
            final(self).credits == old(self).credits,
    {
        self.complete_current_node()
    }

    /// Rests: heals what a rest heals, then leaves the room.
    pub fn resolve_rest_heal(&mut self) -> (result: Option<(i32, DungeonProgress)>)
        requires
            old(self).numbers_in_range(),
            old(self).current_level >= 1,
        ensures
            final(self).player_hp == old(self).player_hp + old(self).spec_rest_heal(),
            result matches Some((healed, _)) ==> healed == old(self).spec_rest_heal(),
            result is Some <==> (old(self).current_node matches Some(id) && id < old(self).nodes@.len()),
            final(self).current_node is None,
    {
        let healed = self.rest_heal_amount();
        self.player_hp = self.player_hp + healed;
        match self.complete_current_node() {
            Some(progress) => Some((healed, progress)),
            None => None,
        }
    }

    /// Upgrades the deck card at `deck_index`, then leaves the room; an index without an
    /// upgradable card changes nothing.
    pub fn resolve_rest_upgrade(&mut self, deck_index: usize) -> (result: Option<(CardId, CardId, DungeonProgress)>)
        requires
            old(self).numbers_in_range(),
            old(self).current_level >= 1,
        ensures
            (deck_index >= old(self).deck@.len() || spec_upgraded_card(old(self).deck@[deck_index as int]) is None) ==> result is None
                && *final(self) == *old(self),
            deck_index < old(self).deck@.len() ==> (spec_upgraded_card(old(self).deck@[deck_index as int]) matches Some(to) ==> {
                &&& final(self).deck@ == old(self).deck@.update(deck_index as int, to)
                &&& result matches Some((f, t, _)) ==> f == old(self).deck@[deck_index as int] && t == to
                &&& result is Some <==> (old(self).current_node matches Some(id) && id < old(self).nodes@.len())
            }),
    {
        if deck_index >= self.deck.len() {
            return None;
        }
        let from = self.deck[deck_index];
        let to = match upgraded_card(from) {
            Some(card) => card,
            None => {
                return None;
            },
        };
        self.deck.set(deck_index, to);
        match self.complete_current_node() {
            Some(progress) => Some((from, to, progress)),
            None => None,
        }
    }

    /// Buys a card in a shop: pays, adds the card, leaves the room; refused outside a shop or
    /// without the credits.
    pub fn resolve_shop_purchase(&mut self, card: CardId, price: u32) -> (progress: Option<DungeonProgress>)
        requires
            old(self).numbers_in_range(),
            old(self).current_level >= 1,
        ensures
            (old(self).spec_current_room_kind() != Some(RoomKind::Shop) || old(self).credits < price) ==> progress is None
                && *final(self) == *old(self),
            old(self).spec_current_room_kind() == Some(RoomKind::Shop) && old(self).credits >= price ==> {
                &&& progress is Some
                &&& final(self).credits == old(self).credits - price
                &&& final(self).deck@ == old(self).deck@.push(card)
                &&& final(self).current_node is None
                &&& completes_room(DungeonRun { credits: final(self).credits, deck: final(self).deck, ..*old(self) }, *final(self), progress)
            },
    {
        if self.current_room_kind() != Some(RoomKind::Shop) || !self.can_afford_shop_price(price) {
            return None;
        }
        self.credits = self.credits - price;
        self.deck.push(card);
        self.complete_current_node()
    }

    /// Leaves a shop without buying; refused outside a shop.
    pub fn resolve_shop_leave(&mut self) -> (progress: Option<DungeonProgress>)
        requires
            old(self).numbers_in_range(),
            old(self).current_level >= 1,
        ensures
            old(self).spec_current_room_kind() != Some(RoomKind::Shop) ==> progress is None && *final(self) == *old(self),
            old(self).spec_current_room_kind() == Some(RoomKind::Shop) ==> {
                &&& progress is Some
                &&& final(self).credits == old(self).credits
                &&& final(self).deck == old(self).deck
                &&& final(self).current_node is None
            },
    {
        if self.current_room_kind() != Some(RoomKind::Shop) {
            return None;
        }
        self.complete_current_node()
    }

    /// Ends a won fight: keeps the player's hit points (within 0 and the maximum), pays the
    /// room's credits and leaves the room.
    pub fn resolve_combat_victory(&mut self, player_hp: i32) -> (result: Option<(DungeonProgress, u32)>)
        requires
            old(self).numbers_in_range(),
            old(self).current_level >= 1,
            old(self).player_max_hp >= 0,
        ensures
            final(self).player_hp == (if player_hp < 0 { 0 } else if player_hp > old(self).player_max_hp { old(self).player_max_hp } else { player_hp }),
            final(self).credits == old(self).credits.saturating_add(match old(self).spec_current_room_kind() {
                Some(kind) => spec_credits_reward(kind),
                None => 0,
            }),
            result matches Some((_, gained)) ==> gained == (match old(self).spec_current_room_kind() {
                Some(kind) => spec_credits_reward(kind),
                None => 0,
            }),
            result is Some <==> (old(self).current_node matches Some(id) && id < old(self).nodes@.len()),
            final(self).current_node is None,
            final(self).deck == old(self).deck,
            final(self).modules == old(self).modules,
            final(self).player_max_hp == old(self).player_max_hp,
            completes_room(
                DungeonRun { player_hp: final(self).player_hp, credits: final(self).credits, ..*old(self) },
                *final(self),
                match result {
                    Some((progress, _)) => Some(progress),
                    None => None,
                },
            ),
    {
        let credits_gained = match self.current_room_kind() {
            Some(kind) => credits_reward_for_room(kind),
            None => 0,
        };
        self.player_hp = if player_hp < 0 { 0 } else if player_hp > self.player_max_hp { self.player_max_hp } else { player_hp };
        self.credits = self.credits.saturating_add(credits_gained);
        match self.complete_current_node() {
            Some(progress) => Some((progress, credits_gained)),
            None => None,
        }
    }

    /// Applies an event choice's effect to the run's hit points, credits and deck, and reports it.
    #[verifier::spinoff_prover]
    fn apply_event_effect(&mut self, effect: EventChoiceEffect) -> (resolution: EventResolution)
        requires
            -1_000_000_000 <= old(self).player_hp <= 1_000_000_000,
            -1_000_000_000 <= old(self).player_max_hp <= 1_000_000_000,
            match effect {
                EventChoiceEffect::LoseHpGainMaxHp { gain_max_hp, .. } => 0 <= gain_max_hp <= 100,
                _ => true,
            },
        ensures
            resolution == run_event_resolution(effect, old(self).player_hp, old(self).player_max_hp),
            run_after_event(effect, *old(self), *final(self)),
            *final(self) == (DungeonRun {
                player_hp: final(self).player_hp,
                player_max_hp: final(self).player_max_hp,
                credits: final(self).credits,
                deck: final(self).deck,
                ..*old(self)
            }),
    {
        match effect {
            EventChoiceEffect::GainCredits(credits) => {
                self.credits = self.credits.saturating_add(credits);
                EventResolution::Credits { hp_lost: 0, credits_gained: credits }
            },
            EventChoiceEffect::LoseHpGainCredits { lose_hp, gain_credits } => {
                let hp_lost = self.lose_hp_preserving_one(lose_hp);
                self.credits = self.credits.saturating_add(gain_credits);
                EventResolution::Credits { hp_lost, credits_gained: gain_credits }
            },
            EventChoiceEffect::Heal(amount) => {
                let healed = self.recover_hp(amount);
                EventResolution::Heal { healed }
            },
            EventChoiceEffect::LoseHpGainMaxHp { lose_hp, gain_max_hp } => {
                let hp_lost = self.lose_hp_preserving_one(lose_hp);
                self.player_max_hp = self.player_max_hp + gain_max_hp;
                let raised = self.player_hp + gain_max_hp;
                self.player_hp = if raised < self.player_max_hp { raised } else { self.player_max_hp };
                EventResolution::MaxHp { hp_lost, max_hp_gained: gain_max_hp }
            },
            EventChoiceEffect::AddCard(card) => {
                self.deck.push(card);
                EventResolution::Card { hp_lost: 0, card }
            },
            EventChoiceEffect::LoseHpAddCard { lose_hp, card } => {
                let hp_lost = self.lose_hp_preserving_one(lose_hp);
                self.deck.push(card);
                EventResolution::Card { hp_lost, card }
            },
        }
    }

    /// Takes one of the current event's choices and leaves the room; refused outside an event
    /// room, for another event than the room's, or for a choice the event lacks.
    #[verifier::spinoff_prover]
    #[verifier::rlimit(80)]
    pub fn resolve_event_choice(&mut self, event: EventId, choice_index: usize) -> (result: Option<(EventResolution, DungeonProgress)>)
        requires
            old(self).numbers_in_range(),
            old(self).current_level >= 1,
        ensures
            result is None ==> *final(self) == *old(self),
            result is Some <==> old(self).event_choice_accepted(event, choice_index),
            result matches Some((resolution, _)) ==> {
                &&& old(self).spec_current_room_kind() == Some(RoomKind::Event)
                &&& spec_event_choice_effect(event, choice_index, old(self).current_level) matches Some(effect)
                &&& resolution == run_event_resolution(effect, old(self).player_hp, old(self).player_max_hp)
                &&& run_after_event(effect, *old(self), *final(self))
                &&& final(self).current_node is None
            },
            result matches Some((_, progress)) ==> completes_room(
                *old(self),
                DungeonRun {
                    player_hp: old(self).player_hp,
                    player_max_hp: old(self).player_max_hp,
                    credits: old(self).credits,
                    deck: old(self).deck,
                    ..*final(self)
                },
                Some(progress),
            ),
    {
        if self.current_room_kind() != Some(RoomKind::Event) {
            return None;
        }
        let node_id = match self.current_node {
            Some(id) => id,
            None => {
                return None;
            },
        };
        let current_event = match self.event_for_node(node_id) {
            Some(e) => e,
            None => {
                return None;
            },
        };
        if current_event != event {
            return None;
        }
        let effect = match event_choice_effect(current_event, choice_index, self.current_level) {
            Some(effect) => effect,
            None => {
                return None;
            },
        };
        let progress = match self.complete_current_node() {
            Some(progress) => progress,
            None => {
                return None;
            },
        };
        let resolution = self.apply_event_effect(effect);
        Some((resolution, progress))
    }
}

/// The hit points an event's resolution reports as taken.
pub open spec fn resolution_hp_lost(r: EventResolution) -> int {
    match r {
        EventResolution::Credits { hp_lost, .. } => hp_lost as int,
        EventResolution::Heal { .. } => 0,
        EventResolution::MaxHp { hp_lost, .. } => hp_lost as int,
        EventResolution::Card { hp_lost, .. } => hp_lost as int,
    }
}

/// The hit points an event choice's effect asks for.
pub open spec fn effect_hp_cost(effect: EventChoiceEffect) -> int {
    match effect {
        EventChoiceEffect::LoseHpGainCredits { lose_hp, .. } => lose_hp as int,
        EventChoiceEffect::LoseHpGainMaxHp { lose_hp, .. } => lose_hp as int,
        EventChoiceEffect::LoseHpAddCard { lose_hp, .. } => lose_hp as int,
        _ => 0,
    }
}

/// An event choice that costs hit points takes them from the run: all of them when it has more,
/// else all but its last one, and none from a run at one or fewer; the run keeps at least one
/// hit point.
pub proof fn law_run_event_hp_cost(effect: EventChoiceEffect, hp: i32, max_hp: i32)
    requires
        -1_000_000_000 <= hp <= 1_000_000_000,
        effect_hp_cost(effect) >= 0,
    ensures
        0 <= resolution_hp_lost(run_event_resolution(effect, hp, max_hp)) <= effect_hp_cost(effect),
        effect_hp_cost(effect) < hp ==> resolution_hp_lost(run_event_resolution(effect, hp, max_hp)) == effect_hp_cost(effect),
        hp >= 1 ==> hp - resolution_hp_lost(run_event_resolution(effect, hp, max_hp)) >= 1,
        1 <= hp <= effect_hp_cost(effect) ==> hp - resolution_hp_lost(run_event_resolution(effect, hp, max_hp)) == 1,
        hp <= 1 ==> resolution_hp_lost(run_event_resolution(effect, hp, max_hp)) == 0,
{
}

/// The hit points a costly event choice reports are the ones the run loses: after a choice that
/// costs hit points and adds credits or a card, the run has exactly that many fewer.
pub proof fn law_run_event_hp_cost_is_paid(effect: EventChoiceEffect, old: DungeonRun, new: DungeonRun)
    requires
        old.numbers_in_range(),
        effect is LoseHpGainCredits || effect is LoseHpAddCard,
        effect_hp_cost(effect) >= 0,
        run_after_event(effect, old, new),
    ensures
        new.player_hp == old.player_hp - resolution_hp_lost(run_event_resolution(effect, old.player_hp, old.player_max_hp)),
{
}

/// A rest heals the missing hit points, at most six: never past the maximum, and short of it
/// only after healing the full six.
pub proof fn law_rest_heals_up_to_six(run: DungeonRun)
    requires
        run.numbers_in_range(),
    ensures
        0 <= run.spec_rest_heal() <= REST_HEAL,
        run.player_hp <= run.player_max_hp ==> run.player_hp + run.spec_rest_heal() <= run.player_max_hp,
        run.player_hp <= run.player_max_hp ==> run.spec_rest_heal() == REST_HEAL || run.player_hp + run.spec_rest_heal()
            == run.player_max_hp,
        run.player_hp >= run.player_max_hp ==> run.spec_rest_heal() == 0,
{
}

/// A healing event choice heals what it names, never past the maximum: short of the maximum
/// only after healing the full amount, and nothing for a non-positive amount.
pub proof fn law_run_event_heal(hp: i32, max_hp: i32, amount: i32)
    requires
        -1_000_000_000 <= hp <= max_hp <= 1_000_000_000,
    ensures
        0 <= run_healed(hp, max_hp, amount),
        amount > 0 ==> run_healed(hp, max_hp, amount) <= amount,
        hp + run_healed(hp, max_hp, amount) <= max_hp,
        amount > 0 ==> run_healed(hp, max_hp, amount) == amount || hp + run_healed(hp, max_hp, amount) == max_hp,
        amount <= 0 ==> run_healed(hp, max_hp, amount) == 0,
{
}

} // verus!
