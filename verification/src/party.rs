//! A run and its fights played by a party of heroes who share one map.
use vstd::prelude::*;

use crate::content::{CardId, CardTarget, EventChoiceEffect, EventId, ModuleId, event_choice_effect, spec_card_def, spec_card_requirement, spec_event_choice_effect, spec_starter_deck, spec_upgraded_card, starter_deck, upgraded_card};
use crate::rng::{seed_state};
use crate::combat::{Actor, CombatAction, CombatCommand, CombatEvent, CombatModel, CombatOutcome, CombatState, DeckModel, DeckState, EncounterSetup, EnemyState, PlayerState, ResolvedEnemyIntent, TurnPhase, all_enemies_down, axis_of, fighter_wf, lemma_draw_cards_frame, spec_check_outcome, spec_draw_cards, spec_start_enemy_turn, spec_start_player_turn};
use crate::combat_flow::{settled, spec_after_play, spec_applied_modules, spec_new_combat, spec_pay_for_card, spec_play_rejection, spec_process_commands, spec_shared_self_effects, spec_shared_target_effects};
use crate::dungeon::{DUNGEON_LEVEL_COUNT, DungeonNode, DungeonProgress, DungeonRun, EventResolution, NodeSelection, REST_HEAL, RoomKind, START_HP, effect_hp_cost, is_fight, map_well_formed, node_fits, resolution_hp_lost, run_hp_lost, spec_credits_reward, spec_level_seed};
use crate::run_logic::{PostVictoryModuleEffects, apply_post_victory_modules};
use crate::enemy_turn::{resolved_in_bounds, spec_resolved_intent};

verus! {
/// One hero's own part of a run the party shares: deck, modules, hit points and credits.
#[derive(Clone, Debug, PartialEq, Eq)]
pub struct HeroRunState {
    pub deck: Vec<CardId>,
    pub modules: Vec<ModuleId>,
    pub player_hp: i32,
    pub player_max_hp: i32,
    pub credits: u32,
}

/// The part of a run every hero of a party shares: the map and the progress through it.
#[derive(Clone, Debug, PartialEq, Eq)]
pub struct SharedDungeonState {
    pub seed: u64,
    pub current_level: usize,
    pub nodes: Vec<DungeonNode>,
    pub current_node: Option<usize>,
    pub available_nodes: Vec<usize>,
    pub visited_nodes: Vec<usize>,
    pub combats_cleared: usize,
    pub elites_cleared: usize,
    pub rests_completed: usize,
    pub bosses_cleared: usize,
}

/// A run played by a party: one shared map, one hero state per slot.
#[derive(Clone, Debug, PartialEq, Eq)]
pub struct PartyRunState {
    pub shared: SharedDungeonState,
    pub heroes: Vec<HeroRunState>,
}

/// Two nodes hold the same values.
pub open spec fn same_node(a: DungeonNode, b: DungeonNode) -> bool {
    &&& a.id == b.id
    &&& a.depth == b.depth
    &&& a.lane == b.lane
    &&& a.kind == b.kind
    &&& a.next@ == b.next@
}

/// Two maps hold the same nodes in the same order.
pub open spec fn same_nodes(a: Seq<DungeonNode>, b: Seq<DungeonNode>) -> bool {
    &&& a.len() == b.len()
    &&& forall|i: int| 0 <= i < a.len() ==> same_node(#[trigger] a[i], b[i])
}

/// Two shared states hold the same values.
pub open spec fn same_shared(a: SharedDungeonState, b: SharedDungeonState) -> bool {
    &&& a.seed == b.seed
    &&& a.current_level == b.current_level
    &&& same_nodes(a.nodes@, b.nodes@)
    &&& a.current_node == b.current_node
    &&& a.available_nodes@ == b.available_nodes@
    &&& a.visited_nodes@ == b.visited_nodes@
    &&& a.combats_cleared == b.combats_cleared
    &&& a.elites_cleared == b.elites_cleared
    &&& a.rests_completed == b.rests_completed
    &&& a.bosses_cleared == b.bosses_cleared
}

/// `s` is the shared part of the run `d`.
pub open spec fn shares_with(s: SharedDungeonState, d: DungeonRun) -> bool {
    &&& s.seed == d.seed
    &&& s.current_level == d.current_level
    &&& same_nodes(s.nodes@, d.nodes@)
    &&& s.current_node == d.current_node
    &&& s.available_nodes@ == d.available_nodes@
    &&& s.visited_nodes@ == d.visited_nodes@
    &&& s.combats_cleared == d.combats_cleared
    &&& s.elites_cleared == d.elites_cleared
    &&& s.rests_completed == d.rests_completed
    &&& s.bosses_cleared == d.bosses_cleared
}

/// Two runs share the same map and progress.
pub open spec fn same_progress(a: DungeonRun, b: DungeonRun) -> bool {
    &&& a.seed == b.seed
    &&& a.current_level == b.current_level
    &&& same_nodes(a.nodes@, b.nodes@)
    &&& a.current_node == b.current_node
    &&& a.available_nodes@ == b.available_nodes@
    &&& a.visited_nodes@ == b.visited_nodes@
    &&& a.combats_cleared == b.combats_cleared
    &&& a.elites_cleared == b.elites_cleared
    &&& a.rests_completed == b.rests_completed
    &&& a.bosses_cleared == b.bosses_cleared
}

/// `h` is the hero part of the run `d`.
pub open spec fn hero_of(h: HeroRunState, d: DungeonRun) -> bool {
    &&& h.deck@ == d.deck@
    &&& h.modules@ == d.modules@
    &&& h.player_hp == d.player_hp
    &&& h.player_max_hp == d.player_max_hp
    &&& h.credits == d.credits
}

/// Two heroes hold the same values.
pub open spec fn same_hero(a: HeroRunState, b: HeroRunState) -> bool {
    &&& a.deck@ == b.deck@
    &&& a.modules@ == b.modules@
    &&& a.player_hp == b.player_hp
    &&& a.player_max_hp == b.player_max_hp
    &&& a.credits == b.credits
}

/// A hero as every hero starts a run.
pub open spec fn starting_hero(h: HeroRunState) -> bool {
    &&& h.deck@ == spec_starter_deck()
    &&& h.modules@.len() == 0
    &&& h.player_hp == START_HP
    &&& h.player_max_hp == START_HP
    &&& h.credits == 0
}

/// A hero's hit points stay far from the limits of `i32`.
pub open spec fn hero_in_range(h: HeroRunState) -> bool {
    &&& -1_000_000_000 <= h.player_hp <= 1_000_000_000
    &&& 0 <= h.player_max_hp <= 1_000_000_000
}

/// The shared counters can still grow and the shared map is one the run rules accept.
pub open spec fn shared_in_range(s: SharedDungeonState) -> bool {
    &&& s.current_level >= 1
    &&& s.combats_cleared < usize::MAX
    &&& s.elites_cleared < usize::MAX
    &&& s.rests_completed < usize::MAX
    &&& s.bosses_cleared < usize::MAX
    &&& forall|i: int| 0 <= i < s.nodes@.len() ==> node_fits(#[trigger] s.nodes@[i])
}

/// The kind of the room the party is in, if it is in one that exists.
pub open spec fn shared_room_kind(s: SharedDungeonState) -> Option<RoomKind> {
    match s.current_node {
        Some(id) => if id < s.nodes@.len() { Some(s.nodes@[id as int].kind) } else { None },
        None => None,
    }
}

/// What a rest heals a hero: the missing hit points, at most six.
pub open spec fn hero_rest_heal(h: HeroRunState) -> int {
    let missing = h.player_max_hp - h.player_hp;
    if missing < 0 { 0 } else if missing > REST_HEAL { REST_HEAL as int } else { missing }
}

/// The hit points an event may take: `lose_hp`, but never the last one.
pub open spec fn event_hp_lost(hp: i32, lose_hp: i32) -> int {
    let spare = if hp - 1 < 0 { 0 } else { hp - 1 };
    if lose_hp < spare { lose_hp as int } else { spare }
}

/// What healing `amount` gives a hero: at most the missing hit points, nothing for a
/// non-positive amount.
pub open spec fn hero_heal(h: HeroRunState, amount: i32) -> int {
    if amount <= 0 {
        0
    } else {
        let missing = if h.player_max_hp - h.player_hp < 0 { 0 } else { h.player_max_hp - h.player_hp };
        if missing < amount { missing } else { amount as int }
    }
}

/// What an event choice's effect reports for a hero.
pub open spec fn spec_event_resolution(effect: EventChoiceEffect, h: HeroRunState) -> EventResolution {
    match effect {
        EventChoiceEffect::GainCredits(credits) => EventResolution::Credits { hp_lost: 0, credits_gained: credits },
        EventChoiceEffect::LoseHpGainCredits { lose_hp, gain_credits } => EventResolution::Credits {
            hp_lost: event_hp_lost(h.player_hp, lose_hp) as i32,
            credits_gained: gain_credits,
        },
        EventChoiceEffect::Heal(amount) => EventResolution::Heal { healed: hero_heal(h, amount) as i32 },
        EventChoiceEffect::LoseHpGainMaxHp { lose_hp, gain_max_hp } => EventResolution::MaxHp {
            hp_lost: event_hp_lost(h.player_hp, lose_hp) as i32,
            max_hp_gained: gain_max_hp,
        },
        EventChoiceEffect::AddCard(card) => EventResolution::Card { hp_lost: 0, card },
        EventChoiceEffect::LoseHpAddCard { lose_hp, card } => EventResolution::Card {
            hp_lost: event_hp_lost(h.player_hp, lose_hp) as i32,
            card,
        },
    }
}

/// A hero after an event choice's effect.
pub open spec fn hero_after_event(effect: EventChoiceEffect, h: HeroRunState, after: HeroRunState) -> bool {
    &&& after.modules@ == h.modules@
    &&& match effect {
        EventChoiceEffect::GainCredits(credits) => {
            &&& after.credits == h.credits.saturating_add(credits)
            &&& after.player_hp == h.player_hp
            &&& after.player_max_hp == h.player_max_hp
            &&& after.deck@ == h.deck@
        },
        EventChoiceEffect::LoseHpGainCredits { lose_hp, gain_credits } => {
            &&& after.credits == h.credits.saturating_add(gain_credits)
            &&& after.player_hp == h.player_hp - event_hp_lost(h.player_hp, lose_hp)
            &&& after.player_max_hp == h.player_max_hp
            &&& after.deck@ == h.deck@
        },
        EventChoiceEffect::Heal(amount) => {
            &&& after.credits == h.credits
            &&& after.player_hp == h.player_hp + hero_heal(h, amount)
            &&& after.player_max_hp == h.player_max_hp
            &&& after.deck@ == h.deck@
        },
        EventChoiceEffect::LoseHpGainMaxHp { lose_hp, gain_max_hp } => {
            let lowered = h.player_hp - event_hp_lost(h.player_hp, lose_hp);
            let max_hp = h.player_max_hp + gain_max_hp;
            &&& after.credits == h.credits
            &&& after.player_max_hp == max_hp
            &&& after.player_hp == (if lowered + gain_max_hp < max_hp { lowered + gain_max_hp } else { max_hp })
            &&& after.deck@ == h.deck@
        },
        EventChoiceEffect::AddCard(card) => {
            &&& after.credits == h.credits
            &&& after.player_hp == h.player_hp
            &&& after.player_max_hp == h.player_max_hp
            &&& after.deck@ == h.deck@.push(card)
        },
        EventChoiceEffect::LoseHpAddCard { lose_hp, card } => {
            &&& after.credits == h.credits
            &&& after.player_hp == h.player_hp - event_hp_lost(h.player_hp, lose_hp)
            &&& after.player_max_hp == h.player_max_hp
            &&& after.deck@ == h.deck@.push(card)
        },
    }
}

/// A copy of a node.
pub fn copy_node(node: &DungeonNode) -> (copy: DungeonNode)
    ensures
        same_node(copy, *node),
{
    let next = node.next.clone();
    proof {
        assert(next@ =~= node.next@);
    }
    DungeonNode { id: node.id, depth: node.depth, lane: node.lane, kind: node.kind, next }
}

/// A copy of a map.
pub fn copy_nodes(nodes: &Vec<DungeonNode>) -> (copy: Vec<DungeonNode>)
    ensures
        same_nodes(copy@, nodes@),
{
    let mut copy: Vec<DungeonNode> = Vec::new();
    let mut i: usize = 0;
    while i < nodes.len()
        invariant
            i <= nodes.len(),
            copy@.len() == i,
            forall|k: int| 0 <= k < i ==> same_node(#[trigger] copy@[k], nodes@[k]),
        decreases nodes.len() - i,
    {
        copy.push(copy_node(&nodes[i]));
        i = i + 1;
    }
    copy
}

/// Whether two lists of node ids are equal.
pub fn same_ids(a: &Vec<usize>, b: &Vec<usize>) -> (same: bool)
    ensures
        same == (a@ == b@),
{
    if a.len() != b.len() {
        return false;
    }
    let mut i: usize = 0;
    while i < a.len()
        invariant
            i <= a.len(),
            a@.len() == b@.len(),
            forall|k: int| 0 <= k < i ==> a@[k] == b@[k],
        decreases a.len() - i,
    {
        if a[i] != b[i] {
            return false;
        }
        i = i + 1;
    }
    proof {
        assert(a@ =~= b@);
    }
    true
}

/// Whether two maps hold the same nodes.
pub fn same_node_lists(a: &Vec<DungeonNode>, b: &Vec<DungeonNode>) -> (same: bool)
    ensures
        same == same_nodes(a@, b@),
{
    if a.len() != b.len() {
        return false;
    }
    let mut i: usize = 0;
    while i < a.len()
        invariant
            i <= a.len(),
            a@.len() == b@.len(),
            forall|k: int| 0 <= k < i ==> same_node(#[trigger] a@[k], b@[k]),
        decreases a.len() - i,
    {
        let x = &a[i];
        let y = &b[i];
        if x.id != y.id || x.depth != y.depth || x.lane != y.lane || x.kind != y.kind || !same_ids(&x.next, &y.next) {
            return false;
        }
        i = i + 1;
    }
    true
}

/// Whether two runs share the same map and progress.
pub fn same_run_progress(a: &DungeonRun, b: &DungeonRun) -> (same: bool)
    ensures
        same == same_progress(*a, *b),
{
    a.seed == b.seed && a.current_level == b.current_level && same_node_lists(&a.nodes, &b.nodes)
        && a.current_node == b.current_node && same_ids(&a.available_nodes, &b.available_nodes) && same_ids(
        &a.visited_nodes,
        &b.visited_nodes,
    ) && a.combats_cleared == b.combats_cleared && a.elites_cleared == b.elites_cleared && a.rests_completed
        == b.rests_completed && a.bosses_cleared == b.bosses_cleared
}

/// The shared part of a run.
pub fn shared_from_dungeon(dungeon: &DungeonRun) -> (shared: SharedDungeonState)
    ensures
        shares_with(shared, *dungeon),
{
    let available_nodes = dungeon.available_nodes.clone();
    let visited_nodes = dungeon.visited_nodes.clone();
    proof {
        assert(available_nodes@ =~= dungeon.available_nodes@);
        assert(visited_nodes@ =~= dungeon.visited_nodes@);
    }
    SharedDungeonState {
        seed: dungeon.seed,
        current_level: dungeon.current_level,
        nodes: copy_nodes(&dungeon.nodes),
        current_node: dungeon.current_node,
        available_nodes,
        visited_nodes,
        combats_cleared: dungeon.combats_cleared,
        elites_cleared: dungeon.elites_cleared,
        rests_completed: dungeon.rests_completed,
        bosses_cleared: dungeon.bosses_cleared,
    }
}

/// The hero part of a run.
pub fn hero_from_dungeon(dungeon: &DungeonRun) -> (hero: HeroRunState)
    ensures
        hero_of(hero, *dungeon),
{
    let deck = dungeon.deck.clone();
    let modules = dungeon.modules.clone();
    proof {
        assert(deck@ =~= dungeon.deck@);
        assert(modules@ =~= dungeon.modules@);
    }
    HeroRunState {
        deck,
        modules,
        player_hp: dungeon.player_hp,
        player_max_hp: dungeon.player_max_hp,
        credits: dungeon.credits,
    }
}

impl PartyRunState {
    /// The party's shared counters can grow, its map is one the run rules accept and every
    /// hero's hit points are in range.
    pub open spec fn in_range(self) -> bool {
        &&& shared_in_range(self.shared)
        &&& forall|k: int| 0 <= k < self.heroes@.len() ==> hero_in_range(#[trigger] self.heroes@[k])
    }

    /// Only hero `slot` may have changed, and the shared part is untouched.
    pub open spec fn only_hero_changed(self, old: PartyRunState, slot: int) -> bool {
        &&& self.shared == old.shared
        &&& self.heroes@.len() == old.heroes@.len()
        &&& forall|k: int| 0 <= k < old.heroes@.len() && k != slot ==> #[trigger] self.heroes@[k] == old.heroes@[k]
    }

    /// Starts a run for `party_size` heroes (at least one), all with the starting deck and hit
    /// points, on the first level's map.
    pub fn new(seed: u64, party_size: usize) -> (party: Self)
        ensures
            party.heroes@.len() == (if party_size < 1 { 1 } else { party_size as int }),
            forall|k: int| 0 <= k < party.heroes@.len() ==> starting_hero(#[trigger] party.heroes@[k]),
            party.shared.seed == seed,
            party.shared.current_level == 1,
            map_well_formed(party.shared.nodes@),
            party.shared.current_node is None,
            party.shared.available_nodes@ == party.shared.nodes@[0].next@,
            party.shared.visited_nodes@ == seq![0usize],
            party.shared.combats_cleared == 0,
            party.shared.elites_cleared == 0,
            party.shared.rests_completed == 0,
            party.shared.bosses_cleared == 0,
    {
        let dungeon = DungeonRun::new(seed);
        let shared = shared_from_dungeon(&dungeon);
        proof {
            assert forall|i: int| 0 <= i < shared.nodes@.len() implies #[trigger] shared.nodes@[i].id == i && shared.nodes@[i]
                .next@ == dungeon.nodes@[i].next@ by {
                assert(same_node(shared.nodes@[i], dungeon.nodes@[i]));
            }
            assert(same_node(shared.nodes@[0], dungeon.nodes@[0]));
        }
        let count = if party_size < 1 { 1 } else { party_size };
        let mut heroes: Vec<HeroRunState> = Vec::new();
        let mut k: usize = 0;
        while k < count
            invariant
                k <= count,
                heroes@.len() == k,
                dungeon.deck@ == spec_starter_deck(),
                dungeon.modules@.len() == 0,
                dungeon.player_hp == START_HP,
                dungeon.player_max_hp == START_HP,
                dungeon.credits == 0,
                forall|j: int| 0 <= j < k ==> starting_hero(#[trigger] heroes@[j]),
            decreases count - k,
        {
            heroes.push(hero_from_dungeon(&dungeon));
            k = k + 1;
        }
        let party = PartyRunState { shared, heroes };
        proof {
            assert forall|i: int| 0 <= i < party.shared.nodes@.len() implies same_node(#[trigger] party.shared.nodes@[i], dungeon.nodes@[i]) by {}
        }
        party
    }

    pub fn party_size(&self) -> (size: usize)
        ensures
            size == self.heroes@.len(),
    {
        self.heroes.len()
    }

    /// Joins the runs of the heroes of a party; refused when there are none or when any run's
    /// map or progress differs from the first run's.
    pub fn from_dungeons(dungeons: Vec<DungeonRun>) -> (party: Option<Self>)
        ensures
            party is Some <==> (dungeons@.len() > 0 && forall|k: int| 0 <= k < dungeons@.len() ==> same_progress(#[trigger] dungeons@[k], dungeons@[0])),
            party matches Some(p) ==> {
                &&& shares_with(p.shared, dungeons@[0])
                &&& p.heroes@.len() == dungeons@.len()
                &&& forall|k: int| 0 <= k < dungeons@.len() ==> hero_of(#[trigger] p.heroes@[k], dungeons@[k])
            },
    {
        if dungeons.len() == 0 {
            return None;
        }
        let shared = shared_from_dungeon(&dungeons[0]);
        let mut heroes: Vec<HeroRunState> = Vec::new();
        let mut k: usize = 0;
        while k < dungeons.len()
            invariant
                0 < dungeons@.len(),
                k <= dungeons@.len(),
                heroes@.len() == k,
                forall|j: int| 0 <= j < k ==> same_progress(#[trigger] dungeons@[j], dungeons@[0]),
                forall|j: int| 0 <= j < k ==> hero_of(#[trigger] heroes@[j], dungeons@[j]),
            decreases dungeons.len() - k,
        {
            if !same_run_progress(&dungeons[k], &dungeons[0]) {
                return None;
            }
            heroes.push(hero_from_dungeon(&dungeons[k]));
            k = k + 1;
        }
        Some(PartyRunState { shared, heroes })
    }

    pub fn hero(&self, slot: usize) -> (hero: Option<&HeroRunState>)
        ensures
            hero == (if slot < self.heroes@.len() { Some(&self.heroes@[slot as int]) } else { None }),
    {
        if slot < self.heroes.len() {
            Some(&self.heroes[slot])
        } else {
            None
        }
    }

    /// The run as hero `slot` sees it: the shared map and progress with the hero's own deck,
    /// modules, hit points and credits.
    pub fn active_dungeon(&self, slot: usize) -> (dungeon: Option<DungeonRun>)
        ensures
            slot >= self.heroes@.len() ==> dungeon is None,
            slot < self.heroes@.len() ==> (dungeon matches Some(d) && shares_with(self.shared, d) && hero_of(
                self.heroes@[slot as int],
                d,
            )),
    {
        if slot >= self.heroes.len() {
            return None;
        }
        let hero = &self.heroes[slot];
        let available_nodes = self.shared.available_nodes.clone();
        let visited_nodes = self.shared.visited_nodes.clone();
        let deck = hero.deck.clone();
        let modules = hero.modules.clone();
        let nodes = copy_nodes(&self.shared.nodes);
        proof {
            assert(available_nodes@ =~= self.shared.available_nodes@);
            assert(visited_nodes@ =~= self.shared.visited_nodes@);
            assert(deck@ =~= hero.deck@);
            assert(modules@ =~= hero.modules@);
        }
        let d = DungeonRun {
            seed: self.shared.seed,
            current_level: self.shared.current_level,
            nodes,
            current_node: self.shared.current_node,
            available_nodes,
            visited_nodes,
            deck,
            modules,
            player_hp: hero.player_hp,
            player_max_hp: hero.player_max_hp,
            credits: hero.credits,
            combats_cleared: self.shared.combats_cleared,
            elites_cleared: self.shared.elites_cleared,
            rests_completed: self.shared.rests_completed,
            bosses_cleared: self.shared.bosses_cleared,
        };
        proof {
            assert forall|i: int| 0 <= i < self.shared.nodes@.len() implies same_node(#[trigger] self.shared.nodes@[i], d.nodes@[i]) by {
                assert(same_node(d.nodes@[i], self.shared.nodes@[i]));
            }
        }
        Some(d)
    }

    /// Takes over a run played by hero `slot`: the hero's part goes to that hero, the map and
    /// progress become the party's.
    pub fn sync_from_active_dungeon(&mut self, slot: usize, dungeon: &DungeonRun) -> (synced: bool)
        ensures
            synced == (slot < old(self).heroes@.len()),
            !synced ==> *final(self) == *old(self),
            synced ==> {
                &&& shares_with(final(self).shared, *dungeon)
                &&& final(self).heroes@.len() == old(self).heroes@.len()
                &&& hero_of(final(self).heroes@[slot as int], *dungeon)
                &&& forall|k: int| 0 <= k < old(self).heroes@.len() && k != slot ==> #[trigger] final(self).heroes@[k]
                    == old(self).heroes@[k]
            },
    {
        if slot >= self.heroes.len() {
            return false;
        }
        self.heroes.set(slot, hero_from_dungeon(dungeon));
        self.shared = shared_from_dungeon(dungeon);
        true
    }

    pub fn current_level(&self) -> (level: usize)
        ensures
            level == self.shared.current_level,
    {
        self.shared.current_level
    }

    pub fn total_levels(&self) -> (count: usize)
        ensures
            count == DUNGEON_LEVEL_COUNT,
    {
        match self.active_dungeon(0) {
            Some(dungeon) => dungeon.total_levels(),
            None => DUNGEON_LEVEL_COUNT,
        }
    }

    pub fn current_room_kind(&self) -> (kind: Option<RoomKind>)
        ensures
            kind == (if self.heroes@.len() > 0 { shared_room_kind(self.shared) } else { None }),
    {
        match self.active_dungeon(0) {
            Some(dungeon) => dungeon.current_room_kind(),
            None => None,
        }
    }

    /// The seed of the fight in the party's current room.
    pub fn current_room_seed(&self) -> (seed: Option<u64>)
        requires
            self.shared.current_node matches Some(id) ==> (id as int) < u64::MAX,
        ensures
            seed == (if self.heroes@.len() > 0 {
                match self.shared.current_node {
                    Some(id) => Some(spec_level_seed(self.shared.seed, self.shared.current_level).wrapping_add(
                        ((id + 1) as u64).wrapping_mul(0x9E37_79B9_7F4A_7C15u64),
                    )),
                    None => None,
                }
            } else {
                None
            }),
    {
        match self.active_dungeon(0) {
            Some(dungeon) => dungeon.current_room_seed(),
            None => None,
        }
    }

    /// Enters a node for the whole party (any node in debug mode, else an available one).
    pub fn select_node(&mut self, node_id: usize, debug_mode: bool) -> (selection: Option<NodeSelection>)
        requires
            shared_in_range(old(self).shared),
        ensures
            old(self).heroes@.len() == 0 ==> selection is None,
            !debug_mode && !old(self).shared.available_nodes@.contains(node_id) ==> selection is None,
            selection is Some ==> node_id < old(self).shared.nodes@.len(),
            *final(self) == (if selection is Some {
                PartyRunState { shared: SharedDungeonState { current_node: Some(node_id), ..old(self).shared }, ..*old(self) }
            } else {
                *old(self)
            }),
    {
        let mut dungeon = match self.active_dungeon(0) {
            Some(dungeon) => dungeon,
            None => {
                return None;
            },
        };
        proof {
            assert forall|i: int| 0 <= i < dungeon.nodes@.len() implies node_fits(#[trigger] dungeon.nodes@[i]) by {
                assert(same_node(self.shared.nodes@[i], dungeon.nodes@[i]));
                assert(node_fits(self.shared.nodes@[i]));
            }
        }
        let selection = if debug_mode && !dungeon.is_available(node_id) {
            dungeon.debug_select_node(node_id)
        } else {
            dungeon.select_node(node_id)
        };
        if selection.is_some() {
            self.shared.current_node = Some(node_id);
        }
        selection
    }

    /// The fight of the party's current room as hero `slot` meets it.
    pub fn current_encounter_setup(&self, slot: usize) -> (setup: Option<EncounterSetup>)
        requires
            shared_in_range(self.shared),
        ensures
            setup is Some <==> (slot < self.heroes@.len() && (shared_room_kind(self.shared) matches Some(kind) && is_fight(kind))),
    {
        match self.active_dungeon(slot) {
            Some(dungeon) => {
                proof {
                    assert forall|i: int| 0 <= i < dungeon.nodes@.len() implies node_fits(#[trigger] dungeon.nodes@[i]) by {
                        assert(same_node(self.shared.nodes@[i], dungeon.nodes@[i]));
                        assert(node_fits(self.shared.nodes@[i]));
                    }
                }
                dungeon.current_encounter_setup()
            },
            None => None,
        }
    }

    pub fn rest_heal_amount(&self, slot: usize) -> (heal: i32)
        requires
            slot < self.heroes@.len() ==> hero_in_range(self.heroes@[slot as int]),
        ensures
            heal == (if slot < self.heroes@.len() { hero_rest_heal(self.heroes@[slot as int]) } else { 0 }),
    {
        if slot >= self.heroes.len() {
            return 0;
        }
        let hero = &self.heroes[slot];
        let missing = hero.player_max_hp - hero.player_hp;
        if missing < 0 { 0 } else if missing > REST_HEAL { REST_HEAL } else { missing }
    }

    /// The deck positions hero `slot` may upgrade: the first copy of each upgradable card.
    pub fn upgradable_card_indices(&self, slot: usize) -> (indices: Vec<usize>)
        ensures
            slot >= self.heroes@.len() ==> indices@.len() == 0,
            slot < self.heroes@.len() ==> {
                let deck = self.heroes@[slot as int].deck@;
                &&& forall|k: int| 0 <= k < indices@.len() ==> #[trigger] indices@[k] < deck.len() && spec_upgraded_card(
                    deck[indices@[k] as int],
                ) is Some
                &&& forall|a: int, b: int| 0 <= a < b < indices@.len() ==> #[trigger] indices@[a] < #[trigger] indices@[b]
                    && deck[indices@[a] as int] != deck[indices@[b] as int]
                &&& forall|i: int| 0 <= i < deck.len() && spec_upgraded_card(#[trigger] deck[i]) is Some ==> exists|k: int|
                    0 <= k < indices@.len() && indices@[k] <= i && deck[indices@[k] as int] == deck[i]
            },
    {
        match self.active_dungeon(slot) {
            Some(dungeon) => dungeon.upgradable_card_indices(),
            None => Vec::new(),
        }
    }

    pub fn has_module(&self, slot: usize, module: ModuleId) -> (has: bool)
        ensures
            has == (slot < self.heroes@.len() && self.heroes@[slot as int].modules@.contains(module)),
    {
        match self.active_dungeon(slot) {
            Some(dungeon) => dungeon.has_module(module),
            None => false,
        }
    }

    pub fn can_afford_shop_price(&self, slot: usize, price: u32) -> (affordable: bool)
        ensures
            affordable == (slot < self.heroes@.len() && self.heroes@[slot as int].credits >= price),
    {
        match self.active_dungeon(slot) {
            Some(dungeon) => dungeon.can_afford_shop_price(price),
            None => false,
        }
    }

    /// Gives hero `slot` the deck, modules, hit points and credits of a run it played.
    fn update_hero_from_dungeon(&mut self, slot: usize, dungeon: &DungeonRun)
        ensures
            final(self).shared == old(self).shared,
            final(self).heroes@.len() == old(self).heroes@.len(),
            slot < old(self).heroes@.len() ==> hero_of(final(self).heroes@[slot as int], *dungeon),
            slot >= old(self).heroes@.len() ==> final(self).heroes@ == old(self).heroes@,
            forall|k: int| 0 <= k < old(self).heroes@.len() && k != slot ==> #[trigger] final(self).heroes@[k] == old(self).heroes@[k],
    {
        if slot < self.heroes.len() {
            self.heroes.set(slot, hero_from_dungeon(dungeon));
        }
    }

    /// Heals hero `slot` by what a rest heals; refused outside a rest room.
    pub fn apply_rest_heal(&mut self, slot: usize) -> (healed: Option<i32>)
        requires
            slot < old(self).heroes@.len() ==> hero_in_range(old(self).heroes@[slot as int]),
            shared_in_range(old(self).shared),
        ensures
            healed is Some <==> (slot < old(self).heroes@.len() && shared_room_kind(old(self).shared) == Some(RoomKind::Rest)),
            healed is None ==> *final(self) == *old(self),
            healed matches Some(amount) ==> {
                let h = old(self).heroes@[slot as int];
                let after = final(self).heroes@[slot as int];
                &&& amount == hero_rest_heal(h)
                &&& final(self).only_hero_changed(*old(self), slot as int)
                &&& same_hero(after, HeroRunState { player_hp: (h.player_hp + amount) as i32, ..h })
            },
    {
        let mut dungeon = match self.active_dungeon(slot) {
            Some(dungeon) => dungeon,
            None => {
                return None;
            },
        };
        if dungeon.current_room_kind() != Some(RoomKind::Rest) {
            return None;
        }
        let healed = dungeon.rest_heal_amount();
        dungeon.player_hp = dungeon.player_hp + healed;
        self.update_hero_from_dungeon(slot, &dungeon);
        Some(healed)
    }

    /// Upgrades the card at `deck_index` of hero `slot`'s deck; refused outside a rest room or
    /// for a card without an upgrade.
    pub fn apply_rest_upgrade(&mut self, slot: usize, deck_index: usize) -> (upgrade: Option<(CardId, CardId)>)
        ensures
            upgrade is Some <==> (slot < old(self).heroes@.len() && shared_room_kind(old(self).shared) == Some(RoomKind::Rest)
                && deck_index < old(self).heroes@[slot as int].deck@.len() && spec_upgraded_card(
                old(self).heroes@[slot as int].deck@[deck_index as int],
            ) is Some),
            upgrade is None ==> *final(self) == *old(self),
            upgrade matches Some((from, to)) ==> {
                let h = old(self).heroes@[slot as int];
                let after = final(self).heroes@[slot as int];
                &&& from == h.deck@[deck_index as int]
                &&& spec_upgraded_card(from) == Some(to)
                &&& final(self).only_hero_changed(*old(self), slot as int)
                &&& after.deck@ == h.deck@.update(deck_index as int, to)
                &&& after.modules@ == h.modules@
                &&& after.player_hp == h.player_hp
                &&& after.player_max_hp == h.player_max_hp
                &&& after.credits == h.credits
            },
    {
        let mut dungeon = match self.active_dungeon(slot) {
            Some(dungeon) => dungeon,
            None => {
                return None;
            },
        };
        if dungeon.current_room_kind() != Some(RoomKind::Rest) {
            return None;
        }
        if deck_index >= dungeon.deck.len() {
            return None;
        }
        let from = dungeon.deck[deck_index];
        let to = match upgraded_card(from) {
            Some(card) => card,
            None => {
                return None;
            },
        };
        dungeon.deck.set(deck_index, to);
        self.update_hero_from_dungeon(slot, &dungeon);
        Some((from, to))
    }

    /// Hero `slot` buys a card in a shop; refused outside a shop or without the credits.
    pub fn apply_shop_purchase(&mut self, slot: usize, card: CardId, price: u32) -> (bought: bool)
        ensures
            bought == (slot < old(self).heroes@.len() && shared_room_kind(old(self).shared) == Some(RoomKind::Shop)
                && old(self).heroes@[slot as int].credits >= price),
            !bought ==> *final(self) == *old(self),
            bought ==> {
                let h = old(self).heroes@[slot as int];
                let after = final(self).heroes@[slot as int];
                &&& final(self).only_hero_changed(*old(self), slot as int)
                &&& after.deck@ == h.deck@.push(card)
                &&& after.credits == h.credits - price
                &&& after.modules@ == h.modules@
                &&& after.player_hp == h.player_hp
                &&& after.player_max_hp == h.player_max_hp
            },
    {
        let mut dungeon = match self.active_dungeon(slot) {
            Some(dungeon) => dungeon,
            None => {
                return false;
            },
        };
        if dungeon.current_room_kind() != Some(RoomKind::Shop) || !dungeon.can_afford_shop_price(price) {
            return false;
        }
        dungeon.credits = dungeon.credits - price;
        dungeon.deck.push(card);
        self.update_hero_from_dungeon(slot, &dungeon);
        true
    }

    /// Hero `slot` takes a choice of an event; refused outside an event room or for a choice
    /// the event lacks.
    pub fn apply_event_choice(&mut self, slot: usize, event: EventId, choice_index: usize) -> (resolution: Option<EventResolution>)
        requires
            slot < old(self).heroes@.len() ==> hero_in_range(old(self).heroes@[slot as int]),
            shared_in_range(old(self).shared),
        ensures
            resolution is Some <==> (slot < old(self).heroes@.len() && shared_room_kind(old(self).shared) == Some(RoomKind::Event)
                && spec_event_choice_effect(event, choice_index, old(self).shared.current_level) is Some),
            resolution is None ==> *final(self) == *old(self),
            resolution is Some ==> {
                let h = old(self).heroes@[slot as int];
                let effect = spec_event_choice_effect(event, choice_index, old(self).shared.current_level)->0;
                &&& resolution == Some(spec_event_resolution(effect, h))
                &&& final(self).only_hero_changed(*old(self), slot as int)
                &&& hero_after_event(effect, h, final(self).heroes@[slot as int])
            },
    {
        let mut dungeon = match self.active_dungeon(slot) {
            Some(dungeon) => dungeon,
            None => {
                return None;
            },
        };
        if dungeon.current_room_kind() != Some(RoomKind::Event) {
            return None;
        }
        let effect = match event_choice_effect(event, choice_index, dungeon.current_level()) {
            Some(effect) => effect,
            None => {
                return None;
            },
        };
        let ghost h = self.heroes@[slot as int];
        let resolution = match effect {
            EventChoiceEffect::GainCredits(credits) => {
                dungeon.credits = dungeon.credits.saturating_add(credits);
                EventResolution::Credits { hp_lost: 0, credits_gained: credits }
            },
            EventChoiceEffect::LoseHpGainCredits { lose_hp, gain_credits } => {
                let hp_lost = event_hp_loss(dungeon.player_hp, lose_hp);
                dungeon.player_hp = dungeon.player_hp - hp_lost;
                dungeon.credits = dungeon.credits.saturating_add(gain_credits);
                EventResolution::Credits { hp_lost, credits_gained: gain_credits }
            },
            EventChoiceEffect::Heal(amount) => {
                let healed = dungeon.recover_hp(amount);
                EventResolution::Heal { healed }
            },
            EventChoiceEffect::LoseHpGainMaxHp { lose_hp, gain_max_hp } => {
                let hp_lost = event_hp_loss(dungeon.player_hp, lose_hp);
                dungeon.player_hp = dungeon.player_hp - hp_lost;
                dungeon.player_max_hp = dungeon.player_max_hp + gain_max_hp;
                let raised = dungeon.player_hp + gain_max_hp;
                dungeon.player_hp = if raised < dungeon.player_max_hp { raised } else { dungeon.player_max_hp };
                EventResolution::MaxHp { hp_lost, max_hp_gained: gain_max_hp }
            },
            EventChoiceEffect::AddCard(card) => {
                dungeon.deck.push(card);
                EventResolution::Card { hp_lost: 0, card }
            },
            EventChoiceEffect::LoseHpAddCard { lose_hp, card } => {
                let hp_lost = event_hp_loss(dungeon.player_hp, lose_hp);
                dungeon.player_hp = dungeon.player_hp - hp_lost;
                dungeon.deck.push(card);
                EventResolution::Card { hp_lost, card }
            },
        };
        self.update_hero_from_dungeon(slot, &dungeon);
        Some(resolution)
    }

}

/// The hit points an event takes: `lose_hp`, but never the last one.
fn event_hp_loss(hp: i32, lose_hp: i32) -> (lost: i32)
    requires
        hp > i32::MIN,
    ensures
        lost == event_hp_lost(hp, lose_hp),
{
    let spare = if hp - 1 < 0 { 0 } else { hp - 1 };
    if lose_hp < spare { lose_hp } else { spare }
}

impl PartyRunState {
    /// Hero `slot`, to change in place.
    pub fn hero_mut(&mut self, slot: usize) -> (hero: Option<&mut HeroRunState>)
        ensures
            slot >= old(self).heroes@.len() ==> hero is None && *final(self) == *old(self),
            slot < old(self).heroes@.len() ==> hero is Some,
            hero matches Some(h) ==> {
                &&& *h == old(self).heroes@[slot as int]
                &&& final(self).shared == old(self).shared
                &&& final(self).heroes@ == old(self).heroes@.update(slot as int, *final(h))
            },
    {
        if slot < self.heroes.len() {
            Some(&mut self.heroes[slot])
        } else {
            None
        }
    }

    /// Adds a card to hero `slot`'s deck.
    pub fn add_card(&mut self, slot: usize, card: CardId) -> (added: bool)
        ensures
            added == (slot < old(self).heroes@.len()),
            !added ==> *final(self) == *old(self),
            added ==> {
                let h = old(self).heroes@[slot as int];
                let after = final(self).heroes@[slot as int];
                &&& final(self).only_hero_changed(*old(self), slot as int)
                &&& after.deck@ == h.deck@.push(card)
                &&& after == (HeroRunState { deck: after.deck, ..h })
            },
    {
        if slot >= self.heroes.len() {
            return false;
        }
        self.heroes[slot].deck.push(card);
        true
    }

    /// Gives hero `slot` a module it does not have yet; refused when it has it.
    pub fn add_module(&mut self, slot: usize, module: ModuleId) -> (added: bool)
        ensures
            added == (slot < old(self).heroes@.len() && !old(self).heroes@[slot as int].modules@.contains(module)),
            !added ==> *final(self) == *old(self),
            added ==> {
                let h = old(self).heroes@[slot as int];
                let after = final(self).heroes@[slot as int];
                &&& final(self).only_hero_changed(*old(self), slot as int)
                &&& after.modules@ == h.modules@.push(module)
                &&& after == (HeroRunState { modules: after.modules, ..h })
            },
    {
        if slot >= self.heroes.len() {
            return false;
        }
        if contains_module_id(&self.heroes[slot].modules, module) {
            return false;
        }
        self.heroes[slot].modules.push(module);
        true
    }

    /// Records a lost fight for hero `slot`: its hit points become `player_hp` (at least 0).
    pub fn resolve_combat_defeat(&mut self, slot: usize, player_hp: i32) -> (recorded: bool)
        ensures
            recorded == (slot < old(self).heroes@.len()),
            !recorded ==> *final(self) == *old(self),
            recorded ==> {
                &&& final(self).only_hero_changed(*old(self), slot as int)
                &&& final(self).heroes@[slot as int] == (HeroRunState {
                    player_hp: if player_hp < 0 { 0 } else { player_hp },
                    ..old(self).heroes@[slot as int]
                })
            },
    {
        if slot >= self.heroes.len() {
            return false;
        }
        self.heroes[slot].player_hp = if player_hp < 0 { 0 } else { player_hp };
        true
    }

    /// Applies hero `slot`'s after-fight modules.
    pub fn apply_post_victory_modules(&mut self, slot: usize) -> (effects: Option<PostVictoryModuleEffects>)
        requires
            slot < old(self).heroes@.len() ==> hero_in_range(old(self).heroes@[slot as int]),
            shared_in_range(old(self).shared),
        ensures
            effects is Some <==> slot < old(self).heroes@.len(),
            effects is None ==> *final(self) == *old(self),
            effects matches Some(e) ==> {
                let h = old(self).heroes@[slot as int];
                let after = final(self).heroes@[slot as int];
                &&& final(self).only_hero_changed(*old(self), slot as int)
                &&& e.salvage_applied == h.modules@.contains(ModuleId::SalvageLedger)
                &&& !h.modules@.contains(ModuleId::Nanoforge) ==> e.nanoforge_healed == 0
                &&& !h.modules@.contains(ModuleId::RecoveryMatrix) ==> e.recovery_healed == 0
                &&& 0 <= e.nanoforge_healed <= 2
                &&& 0 <= e.recovery_healed <= 5
                &&& after.player_hp == h.player_hp + e.nanoforge_healed + e.recovery_healed
                &&& after.credits == (if e.salvage_applied { h.credits.saturating_add(4) } else { h.credits })
                &&& after.player_max_hp == h.player_max_hp
                &&& after.deck@ == h.deck@
                &&& after.modules@ == h.modules@
            },
    {
        let mut dungeon = match self.active_dungeon(slot) {
            Some(dungeon) => dungeon,
            None => {
                return None;
            },
        };
        let effects = apply_post_victory_modules(&mut dungeon);
        self.update_hero_from_dungeon(slot, &dungeon);
        Some(effects)
    }

    /// Ends a won fight for the whole party: each hero keeps its hit points from
    /// `player_hps` (within 0 and its maximum) and is paid the room's credits, and the party
    /// leaves the room. Refused when the hit points do not match the party or the party is in
    /// no room.
    pub fn resolve_combat_victory_all(&mut self, player_hps: &[i32]) -> (result: Option<(DungeonProgress, u32)>)
        requires
            old(self).in_range(),
        ensures
            result is Some <==> (player_hps@.len() == old(self).heroes@.len() && old(self).heroes@.len() > 0
                && (old(self).shared.current_node matches Some(id) && id < old(self).shared.nodes@.len())),
            result is None ==> *final(self) == *old(self),
            result matches Some((_, gained)) ==> {
                let reward = match shared_room_kind(old(self).shared) {
                    Some(kind) => spec_credits_reward(kind),
                    None => 0,
                };
                &&& gained == reward
                &&& final(self).shared.current_node is None
                &&& final(self).heroes@.len() == old(self).heroes@.len()
                &&& forall|k: int| 0 <= k < old(self).heroes@.len() ==> {
                    let h = old(self).heroes@[k];
                    let hp = player_hps@[k];
                    let after = #[trigger] final(self).heroes@[k];
                    &&& after.player_hp == (if hp < 0 { 0 } else if hp > h.player_max_hp { h.player_max_hp } else { hp })
                    &&& after.credits == h.credits.saturating_add(reward)
                    &&& after.player_max_hp == h.player_max_hp
                    &&& after.deck@ == h.deck@
                    &&& after.modules@ == h.modules@
                }
            },
    {
        if player_hps.len() != self.heroes.len() || self.heroes.len() == 0 {
            return None;
        }
        let before = self.shared_copy();
        let mut progress: Option<DungeonProgress> = None;
        let mut credits_gained: u32 = 0;
        let mut resolved_shared: Option<SharedDungeonState> = None;
        let mut slot: usize = 0;
        while slot < player_hps.len()
            invariant
                slot <= player_hps@.len(),
                slot == 0 ==> *self == *old(self) && progress is None,
                player_hps@.len() == old(self).heroes@.len(),
                old(self).heroes@.len() > 0,
                old(self).in_range(),
                same_shared(before, old(self).shared),
                self.shared == old(self).shared,
                self.heroes@.len() == old(self).heroes@.len(),
                forall|k: int| slot <= k < old(self).heroes@.len() ==> #[trigger] self.heroes@[k] == old(self).heroes@[k],
                slot > 0 ==> (old(self).shared.current_node matches Some(id) && id < old(self).shared.nodes@.len()),
                slot > 0 ==> progress is Some && (resolved_shared matches Some(s) && s.current_node is None),
                slot > 0 ==> credits_gained == (match shared_room_kind(old(self).shared) {
                    Some(kind) => spec_credits_reward(kind),
                    None => 0,
                }),
                forall|k: int| 0 <= k < slot ==> {
                    let h = old(self).heroes@[k];
                    let hp = player_hps@[k];
                    let after = #[trigger] self.heroes@[k];
                    &&& after.player_hp == (if hp < 0 { 0 } else if hp > h.player_max_hp { h.player_max_hp } else { hp })
                    &&& after.credits == h.credits.saturating_add(match shared_room_kind(old(self).shared) {
                        Some(kind) => spec_credits_reward(kind),
                        None => 0,
                    })
                    &&& after.player_max_hp == h.player_max_hp
                    &&& after.deck@ == h.deck@
                    &&& after.modules@ == h.modules@
                },
            decreases player_hps.len() - slot,
        {
            let player_hp = player_hps[slot];
            let mut dungeon = self.dungeon_for(&before, slot);
            proof {
                assert(hero_in_range(old(self).heroes@[slot as int]));
                lemma_room_kind_of_run(before, dungeon);
                lemma_room_kind_same(before, old(self).shared);
            }
            let result = match dungeon.resolve_combat_victory(player_hp) {
                Some(result) => result,
                None => {
                    return None;
                },
            };
            credits_gained = result.1;
            if progress.is_none() {
                progress = Some(result.0);
                resolved_shared = Some(shared_from_dungeon(&dungeon));
            }
            self.update_hero_from_dungeon(slot, &dungeon);
            slot = slot + 1;
        }
        match (resolved_shared, progress) {
            (Some(shared), Some(progress)) => {
                self.shared = shared;
                Some((progress, credits_gained))
            },
            _ => None,
        }
    }

    /// A copy of the shared part.
    fn shared_copy(&self) -> (copy: SharedDungeonState)
        ensures
            same_shared(copy, self.shared),
    {
        let available_nodes = self.shared.available_nodes.clone();
        let visited_nodes = self.shared.visited_nodes.clone();
        proof {
            assert(available_nodes@ =~= self.shared.available_nodes@);
            assert(visited_nodes@ =~= self.shared.visited_nodes@);
        }
        SharedDungeonState {
            seed: self.shared.seed,
            current_level: self.shared.current_level,
            nodes: copy_nodes(&self.shared.nodes),
            current_node: self.shared.current_node,
            available_nodes,
            visited_nodes,
            combats_cleared: self.shared.combats_cleared,
            elites_cleared: self.shared.elites_cleared,
            rests_completed: self.shared.rests_completed,
            bosses_cleared: self.shared.bosses_cleared,
        }
    }

    /// The run hero `slot` plays on a given shared part.
    fn dungeon_for(&self, shared: &SharedDungeonState, slot: usize) -> (dungeon: DungeonRun)
        requires
            slot < self.heroes@.len(),
        ensures
            shares_with(*shared, dungeon),
            hero_of(self.heroes@[slot as int], dungeon),
    {
        let hero = &self.heroes[slot];
        let available_nodes = shared.available_nodes.clone();
        let visited_nodes = shared.visited_nodes.clone();
        let deck = hero.deck.clone();
        let modules = hero.modules.clone();
        let nodes = copy_nodes(&shared.nodes);
        proof {
            assert(available_nodes@ =~= shared.available_nodes@);
            assert(visited_nodes@ =~= shared.visited_nodes@);
            assert(deck@ =~= hero.deck@);
            assert(modules@ =~= hero.modules@);
        }
        let d = DungeonRun {
            seed: shared.seed,
            current_level: shared.current_level,
            nodes,
            current_node: shared.current_node,
            available_nodes,
            visited_nodes,
            deck,
            modules,
            player_hp: hero.player_hp,
            player_max_hp: hero.player_max_hp,
            credits: hero.credits,
            combats_cleared: shared.combats_cleared,
            elites_cleared: shared.elites_cleared,
            rests_completed: shared.rests_completed,
            bosses_cleared: shared.bosses_cleared,
        };
        proof {
            assert forall|i: int| 0 <= i < shared.nodes@.len() implies same_node(#[trigger] shared.nodes@[i], d.nodes@[i]) by {
                assert(same_node(d.nodes@[i], shared.nodes@[i]));
            }
        }
        d
    }

    /// Leaves the party's current room for everyone.
    pub fn complete_current_node_shared(&mut self) -> (progress: Option<DungeonProgress>)
        requires
            old(self).in_range(),
        ensures
            progress is Some <==> (old(self).heroes@.len() > 0 && (old(self).shared.current_node matches Some(id) && id
                < old(self).shared.nodes@.len())),
            progress is None ==> *final(self) == *old(self),
            progress is Some ==> final(self).shared.current_node is None,
            final(self).heroes == old(self).heroes,
    {
        let mut dungeon = match self.active_dungeon(0) {
            Some(dungeon) => dungeon,
            None => {
                return None;
            },
        };
        proof {
            assert(hero_in_range(self.heroes@[0]));
        }
        let progress = match dungeon.complete_current_room_shared() {
            Some(progress) => progress,
            None => {
                return None;
            },
        };
        self.shared = shared_from_dungeon(&dungeon);
        Some(progress)
    }
}

/// A run's current room is the room of its shared part.
pub proof fn lemma_room_kind_of_run(s: SharedDungeonState, d: DungeonRun)
    requires
        shares_with(s, d),
    ensures
        d.spec_current_room_kind() == shared_room_kind(s),
        d.current_node == s.current_node,
        d.nodes@.len() == s.nodes@.len(),
{
    if let Some(id) = s.current_node {
        if id < s.nodes@.len() {
            assert(same_node(s.nodes@[id as int], d.nodes@[id as int]));
        }
    }
}

/// Shared parts with the same values are in the same room.
pub proof fn lemma_room_kind_same(a: SharedDungeonState, b: SharedDungeonState)
    requires
        same_shared(a, b),
    ensures
        shared_room_kind(a) == shared_room_kind(b),
{
    if let Some(id) = a.current_node {
        if id < a.nodes@.len() {
            assert(same_node(a.nodes@[id as int], b.nodes@[id as int]));
        }
    }
}

/// Whether a list of modules holds a module.
fn contains_module_id(modules: &Vec<ModuleId>, module: ModuleId) -> (found: bool)
    ensures
        found == modules@.contains(module),
{
    let mut k: usize = 0;
    while k < modules.len()
        invariant
            k <= modules.len(),
            forall|j: int| 0 <= j < k ==> modules@[j] != module,
        decreases modules.len() - k,
    {
        if modules[k] == module {
            return true;
        }
        k = k + 1;
    }
    false
}

/// Largest block a party fighter may hold when a hero acts: what one player action and one
/// enemy round may add still fits the combat rules' headroom.
pub const PARTY_BLOCK_LIMIT: i32 = 1_999_990_000;

/// One hero's part of a fight the party shares: its fighter, its cards and whether it has
/// ended its turn.
#[derive(Clone, Debug, PartialEq, Eq)]
pub struct HeroCombatState {
    pub player: PlayerState,
    pub deck: DeckState,
    pub ready: bool,
}

/// A fight shared by a party: one hero state per slot against one set of enemies, with one
/// phase, turn and random state.
#[derive(Clone, Debug, PartialEq, Eq)]
pub struct PartyCombatState {
    pub heroes: Vec<HeroCombatState>,
    pub inactive_slots: Vec<bool>,
    pub enemies: Vec<EnemyState>,
    pub phase: TurnPhase,
    pub turn: u32,
    pub rng_state: u64,
}

/// A copy of a hand, draw pile and discard pile.
pub fn copy_deck(deck: &DeckState) -> (copy: DeckState)
    ensures
        copy@ == deck@,
{
    let draw_pile = deck.draw_pile.clone();
    let hand = deck.hand.clone();
    let discard_pile = deck.discard_pile.clone();
    proof {
        assert(draw_pile@ =~= deck.draw_pile@);
        assert(hand@ =~= deck.hand@);
        assert(discard_pile@ =~= deck.discard_pile@);
    }
    DeckState { draw_pile, hand, discard_pile }
}

/// A copy of a list of enemies.
pub fn copy_enemies(enemies: &Vec<EnemyState>) -> (copy: Vec<EnemyState>)
    ensures
        copy@ == enemies@,
{
    let copy = enemies.clone();
    proof {
        assert(copy@ =~= enemies@);
    }
    copy
}

/// Whether two lists of enemies are equal.
pub fn same_enemies(a: &Vec<EnemyState>, b: &Vec<EnemyState>) -> (same: bool)
    ensures
        same == (a@ == b@),
{
    if a.len() != b.len() {
        return false;
    }
    let mut i: usize = 0;
    while i < a.len()
        invariant
            i <= a.len(),
            a@.len() == b@.len(),
            forall|k: int| 0 <= k < i ==> a@[k] == b@[k],
        decreases a.len() - i,
    {
        if a[i] != b[i] {
            return false;
        }
        i = i + 1;
    }
    proof {
        assert(a@ =~= b@);
    }
    true
}

/// Whether two lists of cards are equal.
pub fn same_cards(a: &Vec<CardId>, b: &Vec<CardId>) -> (same: bool)
    ensures
        same == (a@ == b@),
{
    if a.len() != b.len() {
        return false;
    }
    let mut i: usize = 0;
    while i < a.len()
        invariant
            i <= a.len(),
            a@.len() == b@.len(),
            forall|k: int| 0 <= k < i ==> a@[k] == b@[k],
        decreases a.len() - i,
    {
        if a[i] != b[i] {
            return false;
        }
        i = i + 1;
    }
    proof {
        assert(a@ =~= b@);
    }
    true
}

/// Whether two lists of flags are equal.
pub fn same_flags(a: &Vec<bool>, b: &Vec<bool>) -> (same: bool)
    ensures
        same == (a@ == b@),
{
    if a.len() != b.len() {
        return false;
    }
    let mut i: usize = 0;
    while i < a.len()
        invariant
            i <= a.len(),
            a@.len() == b@.len(),
            forall|k: int| 0 <= k < i ==> a@[k] == b@[k],
        decreases a.len() - i,
    {
        if a[i] != b[i] {
            return false;
        }
        i = i + 1;
    }
    proof {
        assert(a@ =~= b@);
    }
    true
}

/// Whether two combats hold the same values.
pub fn same_combat(a: &CombatState, b: &CombatState) -> (same: bool)
    ensures
        same == (a@ == b@),
{
    let same = a.player == b.player && same_enemies(&a.enemies, &b.enemies) && same_cards(&a.deck.draw_pile, &b.deck.draw_pile)
        && same_cards(&a.deck.hand, &b.deck.hand) && same_cards(&a.deck.discard_pile, &b.deck.discard_pile) && a.phase
        == b.phase && a.turn == b.turn && same_flags(&a.announced_enemy_defeats, &b.announced_enemy_defeats)
        && a.rng_state() == b.rng_state();
    proof {
        if same {
            assert(a@.deck =~= b@.deck);
            assert(a@ =~= b@);
        }
    }
    same
}

/// A copy of a combat.
pub fn copy_combat(combat: &CombatState) -> (copy: CombatState)
    ensures
        copy@ == combat@,
{
    let announced = combat.announced_enemy_defeats.clone();
    proof {
        assert(announced@ =~= combat.announced_enemy_defeats@);
    }
    CombatState {
        player: combat.player,
        enemies: copy_enemies(&combat.enemies),
        deck: copy_deck(&combat.deck),
        phase: combat.phase,
        turn: combat.turn,
        announced_enemy_defeats: announced,
        rng: combat.rng,
    }
}

/// Appends `more` to `events`.
pub fn extend_events(events: &mut Vec<CombatEvent>, more: Vec<CombatEvent>)
    ensures
        final(events)@ == old(events)@ + more@,
{
    let mut i: usize = 0;
    while i < more.len()
        invariant
            i <= more.len(),
            events@ == old(events)@ + more@.take(i as int),
        decreases more.len() - i,
    {
        events.push(more[i]);
        i = i + 1;
        proof {
            assert(more@.take(i as int) =~= more@.take(i - 1).push(more@[i - 1]));
        }
    }
    proof {
        assert(more@.take(more@.len() as int) =~= more@);
    }
}

impl PartyCombatState {
    /// Every fighter of the fight is well formed and every enemy's rotation slot is below 3.
    pub open spec fn combat_wf(self) -> bool {
        &&& forall|k: int| 0 <= k < self.heroes@.len() ==> fighter_wf(#[trigger] self.heroes@[k].player.fighter)
        &&& forall|i: int| 0 <= i < self.enemies@.len() ==> fighter_wf(#[trigger] self.enemies@[i].fighter)
        &&& forall|i: int| 0 <= i < self.enemies@.len() ==> (#[trigger] self.enemies@[i]).intent_index < 3
    }

    /// Every fighter's block is at most `limit`.
    pub open spec fn blocks_within(self, limit: int) -> bool {
        &&& forall|k: int| 0 <= k < self.heroes@.len() ==> (#[trigger] self.heroes@[k]).player.fighter.block <= limit
        &&& forall|i: int| 0 <= i < self.enemies@.len() ==> (#[trigger] self.enemies@[i]).fighter.block <= limit
    }

    /// The fight is well formed, its blocks leave the headroom an action needs and its turn
    /// counter can still advance.
    pub open spec fn playable(self) -> bool {
        &&& self.combat_wf()
        &&& self.blocks_within(PARTY_BLOCK_LIMIT as int)
        &&& self.turn + 16 < u32::MAX
    }

    pub open spec fn inactive(self, slot: int) -> bool {
        0 <= slot < self.inactive_slots@.len() && self.inactive_slots@[slot]
    }

    pub open spec fn alive(self, slot: int) -> bool {
        0 <= slot < self.heroes@.len() && self.heroes@[slot].player.fighter.hp > 0
    }

    pub open spec fn active(self, slot: int) -> bool {
        self.alive(slot) && !self.inactive(slot)
    }

    /// Every hero is down or sits out.
    pub open spec fn all_active_dead(self) -> bool {
        forall|k: int| 0 <= k < self.heroes@.len() ==> (#[trigger] self.heroes@[k]).player.fighter.hp <= 0 || self.inactive(k)
    }

    pub open spec fn enemies_dead(self) -> bool {
        all_enemies_down(self.enemies@)
    }

    /// Every living hero that takes part has ended its turn.
    pub open spec fn all_ready(self) -> bool {
        forall|k: int| 0 <= k < self.heroes@.len() && #[trigger] self.active(k) ==> self.heroes@[k].ready
    }

    /// The lowest slot of a living hero that takes part.
    pub open spec fn first_active(self) -> Option<usize> {
        if exists|k: int| 0 <= k < self.heroes@.len() && #[trigger] self.active(k) {
            Some(choose|k: usize| k < self.heroes@.len() && self.active(k as int) && forall|j: int| 0 <= j < k ==> !#[trigger] self.active(j))
        } else {
            None
        }
    }

    /// The fight as hero `slot` sees it.
    pub open spec fn slot_model(self, slot: int) -> CombatModel {
        CombatModel {
            player: self.heroes@[slot].player,
            enemies: self.enemies@,
            deck: self.heroes@[slot].deck@,
            phase: self.phase,
            turn: self.turn,
            announced: Seq::new(self.enemies@.len(), |i: int| self.enemies@[i].fighter.hp <= 0),
            rng: seed_state(self.rng_state),
        }
    }

    /// The fight is over only as the party's state says: won when every enemy is down, lost
    /// when every hero is down or sits out; it is never left in the enemies' turn.
    pub open spec fn phase_consistent(self) -> bool {
        &&& self.phase != TurnPhase::EnemyTurn
        &&& self.phase == TurnPhase::Ended(CombatOutcome::Victory) ==> self.enemies_dead()
        &&& self.phase == TurnPhase::Ended(CombatOutcome::Defeat) ==> self.all_active_dead()
    }

    pub fn hero_count(&self) -> (count: usize)
        ensures
            count == self.heroes@.len(),
    {
        self.heroes.len()
    }

    pub fn hero_is_alive(&self, slot: usize) -> (alive: bool)
        ensures
            alive == self.alive(slot as int),
    {
        slot < self.heroes.len() && self.heroes[slot].player.fighter.hp > 0
    }

    pub fn hero_is_inactive(&self, slot: usize) -> (inactive: bool)
        ensures
            inactive == self.inactive(slot as int),
    {
        slot < self.inactive_slots.len() && self.inactive_slots[slot]
    }

    fn hero_is_active(&self, slot: usize) -> (active: bool)
        ensures
            active == self@.active(slot as int),
            active == self.active(slot as int),
    {
        self.hero_is_alive(slot) && !self.hero_is_inactive(slot)
    }

    /// Brings the sit-out flags to one per hero (new slots take part).
    fn normalize_inactive_slots(&mut self)
        ensures
            final(self).inactive_slots@.len() == old(self).heroes@.len(),
            forall|k: int| 0 <= k < old(self).heroes@.len() ==> #[trigger] final(self).inactive(k) == old(self).inactive(k),
            *final(self) == (PartyCombatState { inactive_slots: final(self).inactive_slots, ..*old(self) }),
    {
        let ghost old_len = self.inactive_slots@.len();
        if self.inactive_slots.len() < self.heroes.len() {
            while self.inactive_slots.len() < self.heroes.len()
                invariant
                    old_len <= self.inactive_slots@.len() <= self.heroes@.len(),
                    old_len == old(self).inactive_slots@.len(),
                    self.heroes == old(self).heroes,
                    forall|k: int| 0 <= k < old_len ==> #[trigger] self.inactive_slots@[k] == old(self).inactive_slots@[k],
                    forall|k: int| old_len <= k < self.inactive_slots@.len() ==> !#[trigger] self.inactive_slots@[k],
                    *self == (PartyCombatState { inactive_slots: self.inactive_slots, ..*old(self) }),
                decreases self.heroes@.len() - self.inactive_slots@.len(),
            {
                self.inactive_slots.push(false);
            }
            proof {
                assert forall|k: int| 0 <= k < old(self).heroes@.len() implies #[trigger] self.inactive(k) == old(self).inactive(k) by {
                    if k >= old_len {
                        assert(!self.inactive_slots@[k]);
                    }
                }
            }
        } else if self.inactive_slots.len() > self.heroes.len() {
            self.inactive_slots.truncate(self.heroes.len());
        }
    }

    /// Lets hero `slot` sit out (or take part again); a hero sitting out counts as having
    /// ended its turn. Reports whether anything changed.
    pub fn set_hero_inactive(&mut self, slot: usize, inactive: bool) -> (changed: bool)
        ensures
            slot >= old(self).heroes@.len() ==> !changed && *final(self) == *old(self),
            slot < old(self).heroes@.len() ==> changed == (old(self).inactive(slot as int) != inactive || (inactive
                && !old(self).heroes@[slot as int].ready)),
            slot < old(self).heroes@.len() ==> final(self).inactive_slots@.len() == old(self).heroes@.len(),
            slot < old(self).heroes@.len() ==> final(self).inactive(slot as int) == inactive,
            slot < old(self).heroes@.len() ==> forall|k: int| 0 <= k < old(self).heroes@.len() && k != slot ==> #[trigger] final(self).inactive(k) == old(self).inactive(k),
            slot < old(self).heroes@.len() ==> final(self).heroes@ == old(self).heroes@.update(slot as int, HeroCombatState {
                ready: inactive || old(self).heroes@[slot as int].ready,
                ..old(self).heroes@[slot as int]
            }),
            final(self).enemies == old(self).enemies,
            final(self).phase == old(self).phase,
            final(self).turn == old(self).turn,
            final(self).rng_state == old(self).rng_state,
    {
        if slot >= self.heroes.len() {
            return false;
        }
        self.normalize_inactive_slots();
        let ghost normalized = *self;
        let changed = self.inactive_slots[slot] != inactive;
        self.inactive_slots.set(slot, inactive);
        proof {
            assert(normalized.inactive(slot as int) == old(self).inactive(slot as int));
        }
        let was_ready = self.heroes[slot].ready;
        if inactive {
            self.heroes[slot].ready = true;
        }
        proof {
            assert forall|k: int| 0 <= k < old(self).heroes@.len() && k != slot implies #[trigger] self.inactive(k) == old(self).inactive(k) by {
                assert(normalized.inactive(k) == old(self).inactive(k));
            }
            assert(self.heroes@ =~= old(self).heroes@.update(slot as int, HeroCombatState {
                ready: inactive || old(self).heroes@[slot as int].ready,
                ..old(self).heroes@[slot as int]
            }));
        }
        changed || (inactive && !was_ready)
    }

    pub fn all_living_active_heroes_ready(&self) -> (ready: bool)
        ensures
            ready == self.all_ready(),
            ready == self@.all_ready(),
    {
        let mut k: usize = 0;
        while k < self.heroes.len()
            invariant
                k <= self.heroes@.len(),
                forall|j: int| 0 <= j < k && #[trigger] self.active(j) ==> self.heroes@[j].ready,
                forall|j: int| 0 <= j < k && #[trigger] self@.active(j) ==> self@.heroes[j].ready,
            decreases self.heroes.len() - k,
        {
            if self.hero_is_active(k) && !self.heroes[k].ready {
                proof {
                    assert(self@.active(k as int) && !self@.heroes[k as int].ready);
                }
                return false;
            }
            k = k + 1;
        }
        true
    }

    fn all_active_heroes_dead(&self) -> (dead: bool)
        ensures
            dead == self@.all_active_dead(),
            dead == self.all_active_dead(),
    {
        let mut k: usize = 0;
        while k < self.heroes.len()
            invariant
                k <= self.heroes@.len(),
                forall|j: int| 0 <= j < k ==> (#[trigger] self.heroes@[j]).player.fighter.hp <= 0 || self.inactive(j),
            decreases self.heroes.len() - k,
        {
            if self.heroes[k].player.fighter.hp > 0 && !self.hero_is_inactive(k) {
                proof {
                    assert(self@.heroes[k as int].player.fighter.hp > 0 && !self@.sits_out(k as int));
                }
                return false;
            }
            k = k + 1;
        }
        true
    }

    fn all_enemies_dead(&self) -> (dead: bool)
        ensures
            dead == self.enemies_dead(),
    {
        let mut i: usize = 0;
        while i < self.enemies.len()
            invariant
                i <= self.enemies@.len(),
                forall|j: int| 0 <= j < i ==> (#[trigger] self.enemies@[j]).fighter.hp <= 0,
            decreases self.enemies.len() - i,
        {
            if self.enemies[i].fighter.hp > 0 {
                return false;
            }
            i = i + 1;
        }
        true
    }

    fn first_active_slot(&self) -> (slot: Option<usize>)
        ensures
            slot == self@.first_active_from(0),
            slot == self.first_active(),
            slot matches Some(k) ==> k < self.heroes@.len() && self.active(k as int),
            slot is None ==> forall|k: int| 0 <= k < self.heroes@.len() ==> !#[trigger] self.active(k),
    {
        let mut k: usize = 0;
        while k < self.heroes.len()
            invariant
                k <= self.heroes@.len(),
                forall|j: int| 0 <= j < k ==> !#[trigger] self.active(j),
                self@.first_active_from(k as nat) == self@.first_active_from(0),
            decreases self.heroes.len() - k,
        {
            if self.hero_is_active(k) {
                proof {
                    let c = choose|c: usize| c < self.heroes@.len() && self.active(c as int) && forall|j: int| 0 <= j < c ==> !#[trigger] self.active(j);
                    assert(self.active(k as int));
                    if c < k {
                        assert(!self.active(c as int));
                    } else if c > k {
                        assert(!self.active(k as int));
                    }
                }
                return Some(k);
            }
            k = k + 1;
        }
        None
    }

    /// Ends the fight when every enemy is down (won) or every hero is down or sits out (lost).
    pub fn check_outcome(&mut self)
        ensures
            final(self)@ == old(self)@.checked(),
            *final(self) == (PartyCombatState {
                phase: if old(self).enemies_dead() {
                    TurnPhase::Ended(CombatOutcome::Victory)
                } else if old(self).all_active_dead() {
                    TurnPhase::Ended(CombatOutcome::Defeat)
                } else {
                    old(self).phase
                },
                ..*old(self)
            }),
    {
        if self.all_enemies_dead() {
            self.phase = TurnPhase::Ended(CombatOutcome::Victory);
        } else if self.all_active_heroes_dead() {
            self.phase = TurnPhase::Ended(CombatOutcome::Defeat);
        }
    }

    /// The fight as hero `slot` sees it, as a combat of its own.
    pub fn view_for_slot(&self, slot: usize) -> (view: Option<CombatState>)
        ensures
            slot < self.heroes@.len() ==> (view matches Some(c) && c@ == self@.view_of(slot as int)),
            slot >= self.heroes@.len() ==> view is None,
            slot < self.heroes@.len() ==> (view matches Some(c) && c@ == self.slot_model(slot as int)),
    {
        if slot >= self.heroes.len() {
            return None;
        }
        let hero = &self.heroes[slot];
        Some(CombatState::from_persisted_parts(
            hero.player,
            copy_enemies(&self.enemies),
            copy_deck(&hero.deck),
            self.phase,
            self.turn,
            self.rng_state,
        ))
    }

    /// Takes hero `slot`'s fighter and cards and the enemies and random state from a combat
    /// it played; the hero stays ready only while standing (always, when it sits out).
    fn apply_combat_view(&mut self, slot: usize, combat: &CombatState)
        ensures
            slot < old(self).heroes@.len() ==> final(self)@ == old(self)@.taking_view(slot as int, combat@),
            final(self).heroes@.len() == old(self).heroes@.len(),
            slot < old(self).heroes@.len() ==> final(self).heroes@[slot as int].player == combat.player
                && final(self).heroes@[slot as int].deck@ == combat.deck@ && final(self).heroes@[slot as int].ready == (if old(
                self,
            ).inactive(slot as int) {
                true
            } else {
                old(self).heroes@[slot as int].ready && combat.player.fighter.hp > 0
            }),
            forall|k: int| 0 <= k < old(self).heroes@.len() && k != slot ==> #[trigger] final(self).heroes@[k] == old(self).heroes@[k],
            final(self).enemies@ == combat.enemies@,
            final(self).rng_state == combat.rng.state,
            final(self).inactive_slots == old(self).inactive_slots,
            final(self).phase == old(self).phase,
            final(self).turn == old(self).turn,
    {
        let inactive = self.hero_is_inactive(slot);
        if slot < self.heroes.len() {
            let ready = if inactive { true } else { self.heroes[slot].ready && combat.player.fighter.hp > 0 };
            let hero = HeroCombatState { player: combat.player, deck: copy_deck(&combat.deck), ready };
            self.heroes.set(slot, hero);
        }
        self.enemies = copy_enemies(&combat.enemies);
        self.rng_state = combat.rng_state();
        proof {
            if slot < old(self).heroes@.len() {
                assert(self@.heroes =~= old(self)@.taking_view(slot as int, combat@).heroes);
            }
        }
    }

    pub fn can_play_card(&self, slot: usize, index: usize) -> (playable: bool)
        ensures
            playable == (slot < self.heroes@.len() && self.phase == TurnPhase::PlayerTurn && {
                let hero = self.heroes@[slot as int];
                &&& index < hero.deck.hand@.len()
                &&& hero.player.energy >= spec_card_def(hero.deck.hand@[index as int]).cost
                &&& match spec_card_requirement(hero.deck.hand@[index as int]) {
                    Some(req) => axis_of(hero.player.fighter.statuses, req.axis) > req.threshold,
                    None => true,
                }
            }),
    {
        match self.view_for_slot(slot) {
            Some(combat) => combat.can_play_card(index),
            None => false,
        }
    }

    pub fn card_requires_enemy(&self, slot: usize, index: usize) -> (aimed: bool)
        ensures
            aimed == (slot < self.heroes@.len() && index < self.heroes@[slot as int].deck.hand@.len() && spec_card_def(
                self.heroes@[slot as int].deck.hand@[index as int],
            ).target == CardTarget::Enemy),
    {
        match self.view_for_slot(slot) {
            Some(combat) => combat.card_requires_enemy(index),
            None => false,
        }
    }

    pub fn card_targets_all_enemies(&self, slot: usize, index: usize) -> (sweeping: bool)
        ensures
            sweeping == (slot < self.heroes@.len() && index < self.heroes@[slot as int].deck.hand@.len() && spec_card_def(
                self.heroes@[slot as int].deck.hand@[index as int],
            ).target == CardTarget::AllEnemies),
    {
        match self.view_for_slot(slot) {
            Some(combat) => combat.card_targets_all_enemies(index),
            None => false,
        }
    }

    pub fn hand_card(&self, slot: usize, index: usize) -> (card: Option<CardId>)
        ensures
            card == (if slot < self.heroes@.len() && index < self.heroes@[slot as int].deck.hand@.len() {
                Some(self.heroes@[slot as int].deck.hand@[index as int])
            } else {
                None
            }),
    {
        if slot >= self.heroes.len() || index >= self.heroes[slot].deck.hand.len() {
            return None;
        }
        Some(self.heroes[slot].deck.hand[index])
    }

    pub fn hand_len(&self, slot: usize) -> (len: usize)
        ensures
            len == (if slot < self.heroes@.len() { self.heroes@[slot as int].deck.hand@.len() } else { 0 }),
    {
        if slot >= self.heroes.len() {
            return 0;
        }
        self.heroes[slot].deck.hand.len()
    }

    pub fn enemy_count(&self) -> (count: usize)
        ensures
            count == self.enemies@.len(),
    {
        self.enemies.len()
    }

    pub fn phase(&self) -> (phase: TurnPhase)
        ensures
            phase == self.phase,
    {
        self.phase
    }

    pub fn outcome(&self) -> (outcome: Option<CombatOutcome>)
        ensures
            outcome == (match self.phase {
                TurnPhase::Ended(o) => Some(o),
                _ => None,
            }),
    {
        match self.phase {
            TurnPhase::Ended(o) => Some(o),
            _ => None,
        }
    }
}

/// The enemy a hero aims at, as a combat target.
/// A hero's combat after it tries to play the card at `hand_index` in its turn: the play's
/// result when the rules accept it, else the outcome check that a refused play still runs.
pub open spec fn spec_play_outcome(m: CombatModel, hand_index: usize, target: Option<Actor>) -> CombatModel {
    match spec_play_rejection(m, hand_index, target) {
        Some(_) => spec_check_outcome(m),
        None => spec_after_play(m, hand_index, target),
    }
}

impl PartyCombatState {
    /// Hero `slot`'s play goes through: it is the heroes' turn, the hero is in the fight and
    /// not ready, and the attempt changes its combat.
    pub open spec fn play_goes_through(self, slot: int, hand_index: usize, target_enemy: Option<usize>) -> bool {
        &&& self.phase == TurnPhase::PlayerTurn
        &&& self.active(slot)
        &&& !self.heroes@[slot].ready
        &&& spec_play_outcome(self.slot_model(slot), hand_index, enemy_target(target_enemy)) != self.slot_model(slot)
    }
}

pub open spec fn enemy_target(target_enemy: Option<usize>) -> Option<Actor> {
    match target_enemy {
        Some(i) => Some(Actor::Enemy(i)),
        None => None,
    }
}

/// A copy of an encounter.
pub fn copy_setup(setup: &EncounterSetup) -> (copy: EncounterSetup)
    ensures
        copy.player_hp == setup.player_hp,
        copy.player_max_hp == setup.player_max_hp,
        copy.player_max_energy == setup.player_max_energy,
        copy.enemies@ == setup.enemies@,
{
    let enemies = setup.enemies.clone();
    proof {
        assert(enemies@ =~= setup.enemies@);
    }
    EncounterSetup {
        player_hp: setup.player_hp,
        player_max_hp: setup.player_max_hp,
        player_max_energy: setup.player_max_energy,
        enemies,
    }
}

/// `count` flags, all unset.
fn unset_flags(count: usize) -> (flags: Vec<bool>)
    ensures
        flags@.len() == count,
        forall|k: int| 0 <= k < count ==> !#[trigger] flags@[k],
{
    let mut flags: Vec<bool> = Vec::new();
    let mut k: usize = 0;
    while k < count
        invariant
            k <= count,
            flags@.len() == k,
            forall|j: int| 0 <= j < k ==> !#[trigger] flags@[j],
        decreases count - k,
    {
        flags.push(false);
        k = k + 1;
    }
    flags
}

/// The start of a player turn keeps the fighter's hit points and the enemies.
proof fn lemma_start_player_turn_keeps(m: CombatModel)
    ensures
        spec_draw_cards(spec_start_player_turn(m), 5).player.fighter.hp == m.player.fighter.hp,
        spec_draw_cards(spec_start_player_turn(m), 5).enemies == m.enemies,
        spec_draw_cards(spec_start_player_turn(m), 5).player.fighter.block <= m.player.fighter.block,
{
    lemma_draw_cards_frame(spec_start_player_turn(m), 5);
}

impl PartyCombatState {
    /// Starts a fight for a party: hero `k` meets `setups[k]` with `source_decks[k]` (the
    /// starter deck when empty), shuffled by its own seed derived from `seed`; the enemies,
    /// turn and random state are shared, then each hero's start-of-combat modules apply.
    /// Refused without heroes or when the three lists differ in length.
    pub fn new(seed: u64, setups: &[EncounterSetup], source_decks: &[Vec<CardId>], modules: &[Vec<ModuleId>]) -> (combat: Option<Self>)
        ensures
            combat is Some <==> (setups@.len() > 0 && source_decks@.len() == setups@.len() && modules@.len() == setups@.len()),
            combat matches Some(c) ==> {
                &&& c.heroes@.len() == setups@.len()
                &&& c.inactive_slots@.len() == setups@.len()
                &&& forall|k: int| 0 <= k < setups@.len() ==> !#[trigger] c.inactive_slots@[k]
                &&& forall|k: int| 0 <= k < setups@.len() ==> !(#[trigger] c.heroes@[k]).ready
                &&& c.combat_wf()
                &&& c.phase == TurnPhase::PlayerTurn
                &&& c.turn == 1
            },
    {
        if setups.len() == 0 || source_decks.len() != setups.len() || modules.len() != setups.len() {
            return None;
        }
        let mut enemies: Vec<EnemyState> = Vec::new();
        let mut heroes: Vec<HeroCombatState> = Vec::new();
        let mut turn: u32 = 1;
        let mut slot: usize = 0;
        while slot < setups.len()
            invariant
                slot <= setups@.len(),
                source_decks@.len() == setups@.len(),
                heroes@.len() == slot,
                turn == 1,
                forall|k: int| 0 <= k < slot ==> fighter_wf(#[trigger] heroes@[k].player.fighter),
                forall|k: int| 0 <= k < slot ==> !(#[trigger] heroes@[k]).ready,
                forall|i: int| 0 <= i < enemies@.len() ==> fighter_wf(#[trigger] enemies@[i].fighter),
                forall|i: int| 0 <= i < enemies@.len() ==> (#[trigger] enemies@[i]).intent_index < 3,
            decreases setups.len() - slot,
        {
            let deck = if source_decks[slot].len() == 0 { starter_deck() } else { source_decks[slot].clone() };
            let mix = (slot as u64).wrapping_add(1).wrapping_mul(0x9E37_79B9_7F4A_7C15u64);
            let (combat, _) = CombatState::new_with_deck(seed ^ mix, copy_setup(&setups[slot]), deck);
            proof {
                lemma_draw_cards_frame(spec_start_player_turn(spec_new_combat(
                    seed ^ mix,
                    setups@[slot as int].player_hp,
                    setups@[slot as int].player_max_hp,
                    setups@[slot as int].player_max_energy,
                    setups@[slot as int].enemies@,
                    deck@,
                )), 5);
            }
            if enemies.len() == 0 {
                enemies = copy_enemies(&combat.enemies);
                turn = combat.turn;
            }
            heroes.push(HeroCombatState { player: combat.player, deck: copy_deck(&combat.deck), ready: false });
            slot = slot + 1;
        }
        let count = heroes.len();
        let mut state = PartyCombatState {
            inactive_slots: unset_flags(count),
            heroes,
            enemies,
            phase: TurnPhase::PlayerTurn,
            turn,
            rng_state: seed ^ 0xBF58_476D_1CE4_E5B9u64,
        };
        let mut k: usize = 0;
        while k < modules.len()
            invariant
                k <= modules@.len(),
                modules@.len() == setups@.len(),
                state.heroes@.len() == setups@.len(),
                state.inactive_slots@.len() == setups@.len(),
                forall|j: int| 0 <= j < setups@.len() ==> !#[trigger] state.inactive_slots@[j],
                forall|j: int| 0 <= j < setups@.len() ==> !(#[trigger] state.heroes@[j]).ready,
                state.combat_wf(),
                state.phase == TurnPhase::PlayerTurn,
                state.turn == 1,
            decreases modules.len() - k,
        {
            state.apply_start_of_combat_modules(k, modules[k].as_slice());
            k = k + 1;
        }
        Some(state)
    }

    /// Joins the views heroes have of one fight; refused without views, when the readiness
    /// flags do not match the views, or when any view's enemies, phase, turn or random state
    /// differ from the first view's.
    pub fn from_views(views: Vec<CombatState>, ready: Vec<bool>) -> (combat: Option<Self>)
        ensures
            combat is Some <==> (views@.len() > 0 && ready@.len() == views@.len() && forall|k: int| 0 <= k < views@.len() ==> {
                &&& (#[trigger] views@[k]).enemies@ == views@[0].enemies@
                &&& views@[k].phase == views@[0].phase
                &&& views@[k].turn == views@[0].turn
                &&& views@[k].rng.state == views@[0].rng.state
            }),
            combat matches Some(c) ==> {
                &&& c.heroes@.len() == views@.len()
                &&& forall|k: int| 0 <= k < views@.len() ==> {
                    &&& (#[trigger] c.heroes@[k]).player == views@[k].player
                    &&& c.heroes@[k].deck@ == views@[k].deck@
                    &&& c.heroes@[k].ready == ready@[k]
                    &&& !c.inactive_slots@[k]
                }
                &&& c.inactive_slots@.len() == views@.len()
                &&& c.enemies@ == views@[0].enemies@
                &&& c.phase == views@[0].phase
                &&& c.turn == views@[0].turn
                &&& c.rng_state == views@[0].rng.state
            },
    {
        if views.len() == 0 || ready.len() != views.len() {
            return None;
        }
        let mut k: usize = 1;
        proof {
            assert(views@[0].enemies@ == views@[0].enemies@);
        }
        while k < views.len()
            invariant
                1 <= k <= views@.len(),
                forall|j: int| 0 <= j < k ==> {
                    &&& (#[trigger] views@[j]).enemies@ == views@[0].enemies@
                    &&& views@[j].phase == views@[0].phase
                    &&& views@[j].turn == views@[0].turn
                    &&& views@[j].rng.state == views@[0].rng.state
                },
            decreases views.len() - k,
        {
            let view = &views[k];
            if !same_enemies(&view.enemies, &views[0].enemies) || view.phase != views[0].phase || view.turn != views[0].turn
                || view.rng_state() != views[0].rng_state() {
                return None;
            }
            k = k + 1;
        }
        let mut heroes: Vec<HeroCombatState> = Vec::new();
        let mut j: usize = 0;
        while j < views.len()
            invariant
                j <= views@.len(),
                ready@.len() == views@.len(),
                heroes@.len() == j,
                forall|i: int| 0 <= i < j ==> {
                    &&& (#[trigger] heroes@[i]).player == views@[i].player
                    &&& heroes@[i].deck@ == views@[i].deck@
                    &&& heroes@[i].ready == ready@[i]
                },
            decreases views.len() - j,
        {
            heroes.push(HeroCombatState { player: views[j].player, deck: copy_deck(&views[j].deck), ready: ready[j] });
            j = j + 1;
        }
        let count = heroes.len();
        Some(PartyCombatState {
            inactive_slots: unset_flags(count),
            heroes,
            enemies: copy_enemies(&views[0].enemies),
            phase: views[0].phase,
            turn: views[0].turn,
            rng_state: views[0].rng_state(),
        })
    }

    /// Applies hero `slot`'s start-of-combat modules to the shared fight; returns those that
    /// did anything.
    pub fn apply_start_of_combat_modules(&mut self, slot: usize, modules: &[ModuleId]) -> (applied: Vec<ModuleId>)
        requires
            old(self).combat_wf(),
        ensures
            final(self).combat_wf(),
            slot >= old(self).heroes@.len() ==> applied@.len() == 0 && *final(self) == *old(self),
            slot < old(self).heroes@.len() ==> {
                let (m, a) = spec_applied_modules(old(self).slot_model(slot as int), modules@);
                &&& applied@ == a
                &&& final(self).heroes@[slot as int].player == m.player
                &&& final(self).heroes@[slot as int].deck@ == m.deck
                &&& final(self).enemies@ == m.enemies
                &&& final(self).rng_state == m.rng
            },
            final(self).heroes@.len() == old(self).heroes@.len(),
            forall|k: int| 0 <= k < old(self).heroes@.len() && k != slot ==> #[trigger] final(self).heroes@[k] == old(self).heroes@[k],
            slot < old(self).heroes@.len() && !old(self).inactive(slot as int) && !old(self).heroes@[slot as int].ready ==> !final(self).heroes@[slot as int].ready,
            final(self).inactive_slots == old(self).inactive_slots,
            final(self).phase == old(self).phase,
            final(self).turn == old(self).turn,
    {
        let mut combat = match self.view_for_slot(slot) {
            Some(combat) => combat,
            None => {
                return Vec::new();
            },
        };
        let applied = combat.apply_start_of_combat_modules(modules);
        self.apply_combat_view(slot, &combat);
        applied
    }

    /// Hero `slot` plays the card at `hand_index` of its hand (aimed at `target_enemy`);
    /// refused outside the heroes' turn, for a hero that is down, sits out or has ended its
    /// turn, and for a play the combat rules refuse. Returns what the play reported.
    pub fn play_card_with_events(&mut self, slot: usize, hand_index: usize, target_enemy: Option<usize>) -> (events: Option<Vec<CombatEvent>>)
        requires
            old(self).playable(),
        ensures
            events is Some <==> old(self).play_goes_through(slot as int, hand_index, target_enemy),
            old(self).active(slot as int) && old(self).phase == TurnPhase::PlayerTurn && (spec_play_rejection(
                old(self).slot_model(slot as int),
                hand_index,
                enemy_target(target_enemy),
            ) is Some) && settled(old(self).slot_model(slot as int)) ==> events is None,
            events is None ==> *final(self) == *old(self),
            events matches Some(ev) ==> {
                let m = old(self).slot_model(slot as int);
                &&& spec_play_rejection(m, hand_index, enemy_target(target_enemy)) is None ==> ev@.len() >= 2 && ev@.subrange(0, 2) == seq![
                    CombatEvent::EnergySpent {
                        amount: spec_card_def(m.deck.hand[hand_index as int]).cost,
                        remaining: spec_pay_for_card(m, hand_index as int).player.energy,
                    },
                    CombatEvent::CardPlayed { card: m.deck.hand[hand_index as int] },
                ]
                &&& final(self).heroes@[slot as int].player == spec_play_outcome(m, hand_index, enemy_target(target_enemy)).player
                &&& final(self).heroes@[slot as int].deck@ == spec_play_outcome(m, hand_index, enemy_target(target_enemy)).deck
                &&& final(self).enemies@ == spec_play_outcome(m, hand_index, enemy_target(target_enemy)).enemies
                &&& final(self).combat_wf()
                &&& final(self).heroes@.len() == old(self).heroes@.len()
                &&& forall|k: int| 0 <= k < old(self).heroes@.len() && k != slot ==> #[trigger] final(self).heroes@[k] == old(self).heroes@[k]
                &&& final(self).inactive_slots == old(self).inactive_slots
                &&& final(self).turn == old(self).turn
                &&& final(self).phase_consistent()
            },
    {
        if !matches!(self.phase, TurnPhase::PlayerTurn) || !self.hero_is_active(slot) {
            return None;
        }
        if self.heroes[slot].ready {
            return None;
        }
        let mut combat = match self.view_for_slot(slot) {
            Some(combat) => combat,
            None => {
                return None;
            },
        };
        let target = match target_enemy {
            Some(i) => Some(Actor::Enemy(i)),
            None => None,
        };
        let before = copy_combat(&combat);
        let events = combat.dispatch(CombatAction::PlayCard { hand_index, target });
        if same_combat(&combat, &before) {
            return None;
        }
        self.apply_combat_view(slot, &combat);
        self.check_outcome();
        Some(events)
    }

    /// Whether hero `slot`'s play went through.
    pub fn play_card(&mut self, slot: usize, hand_index: usize, target_enemy: Option<usize>) -> (played: bool)
        requires
            old(self).playable(),
        ensures
            played <==> old(self).play_goes_through(slot as int, hand_index, target_enemy),
            !played ==> *final(self) == *old(self),
            played ==> {
                let m = old(self).slot_model(slot as int);
                &&& final(self).heroes@[slot as int].player == spec_play_outcome(m, hand_index, enemy_target(target_enemy)).player
                &&& final(self).heroes@[slot as int].deck@ == spec_play_outcome(m, hand_index, enemy_target(target_enemy)).deck
                &&& final(self).enemies@ == spec_play_outcome(m, hand_index, enemy_target(target_enemy)).enemies
                &&& forall|k: int| 0 <= k < old(self).heroes@.len() && k != slot ==> #[trigger] final(self).heroes@[k] == old(self).heroes@[k]
                &&& final(self).combat_wf()
                &&& final(self).phase_consistent()
            },
    {
        self.play_card_with_events(slot, hand_index, target_enemy).is_some()
    }
}

impl PartyCombatState {
    /// How an enemy round leaves the fight: no hero count or sit-out flag changed, every
    /// fighter well formed, the phase consistent, and when the heroes' turn begins again the
    /// turn counter has advanced and exactly the heroes that take part have still to act.
    pub open spec fn after_round(self, old: PartyCombatState) -> bool {
        &&& self.combat_wf()
        &&& self.heroes@.len() == old.heroes@.len()
        &&& self.inactive_slots == old.inactive_slots
        &&& self.phase_consistent()
        &&& self.phase == TurnPhase::PlayerTurn ==> {
            &&& self.turn == old.turn.wrapping_add(1)
            &&& forall|k: int| 0 <= k < self.heroes@.len() ==> (#[trigger] self.heroes@[k]).ready == !self.active(k)
        }
    }

    /// The enemies' round: each living enemy acts on its intent against every hero that takes
    /// part (its own effects once), the enemies end their turn, then every such hero starts
    /// a new turn. The fight ends as soon as every hero is down or sits out, or every enemy
    /// is. `playback_slot` names the hero whose view of the round is reported.
    #[verifier::spinoff_prover]
    #[verifier::rlimit(80)]
    fn resolve_enemy_round_events_for_slot(&mut self, playback_slot: usize) -> (events: Vec<CombatEvent>)
        requires
            old(self).combat_wf(),
            old(self).blocks_within(PARTY_BLOCK_LIMIT + 900),
            old(self).turn + 16 < u32::MAX,
        ensures
            final(self)@ == party_round(old(self)@, playback_slot),
            final(self).after_round(*old(self)),
    {
        let mut events: Vec<CombatEvent> = Vec::new();
        self.phase = TurnPhase::EnemyTurn;
        let ghost p1 = self@;
        proof {
            assert(p1 =~= (PartyModel { phase: TurnPhase::EnemyTurn, ..old(self)@ }));
        }
        let playback_slot = if self.hero_is_active(playback_slot) { Some(playback_slot) } else { self.first_active_slot() };
        let playback_view_slot = match playback_slot {
            Some(s) => Some(s),
            None => self.first_active_slot(),
        };
        if let Some(s) = playback_view_slot {
            if let Some(mut combat) = self.view_for_slot(s) {
                let started = combat.start_enemy_turn_only();
                extend_events(&mut events, started);
                self.enemies = copy_enemies(&combat.enemies);
                proof {
                    assert(self@ =~= (PartyModel { enemies: spec_start_enemy_turn(p1.view_of(s as int)).enemies, ..p1 }));
                }
            }
        }
        let lost = self.enemies_take_turns(playback_slot, &mut events);
        if lost {
            return events;
        }
        self.finish_round(playback_view_slot, playback_slot, &mut events);
        events
    }

    /// Ends the enemies' round once they have acted without winning; `shown` names the hero
    /// whose view reports it.
    #[verifier::spinoff_prover]
    #[verifier::rlimit(60)]
    fn finish_round(&mut self, shown: Option<usize>, playback_slot: Option<usize>, events: &mut Vec<CombatEvent>)
        requires
            old(self).combat_wf(),
            old(self).phase == TurnPhase::EnemyTurn,
            old(self).turn + 16 < u32::MAX,
            shown matches Some(s) ==> s < old(self).heroes@.len(),
            forall|k: int| 0 <= k < old(self).heroes@.len() ==> (#[trigger] old(self).heroes@[k]).player.fighter.block <= PARTY_BLOCK_LIMIT + 900,
            forall|i: int| 0 <= i < old(self).enemies@.len() ==> (#[trigger] old(self).enemies@[i]).fighter.block <= PARTY_BLOCK_LIMIT + 3900,
        ensures
            final(self)@ == party_round_end(old(self)@, shown, old(self).turn),
            final(self).combat_wf(),
            final(self).heroes@.len() == old(self).heroes@.len(),
            final(self).inactive_slots == old(self).inactive_slots,
            final(self).phase_consistent(),
            final(self).phase == TurnPhase::PlayerTurn ==> {
                &&& final(self).turn == old(self).turn.wrapping_add(1)
                &&& forall|k: int| 0 <= k < final(self).heroes@.len() ==> (#[trigger] final(self).heroes@[k]).ready == !final(self).active(k)
            },
    {
        if self.all_active_heroes_dead() {
            self.phase = TurnPhase::Ended(CombatOutcome::Defeat);
            return;
        }
        let ghost p3 = self@;
        if let Some(s) = shown {
            if let Some(mut combat) = self.view_for_slot(s) {
                let ended = combat.apply_enemy_end_turn_only();
                extend_events(events, ended);
                self.enemies = copy_enemies(&combat.enemies);
                proof {
                    assert(seq![
                        CombatCommand::ApplyEndOfTurn(Actor::Enemy(0)),
                        CombatCommand::EndTurn(Actor::Enemy(0)),
                        CombatCommand::CheckOutcome,
                    ] =~= enemy_end_turn_commands());
                    assert(self@ =~= (PartyModel {
                        enemies: spec_process_commands(p3.view_of(s as int), enemy_end_turn_commands()).enemies,
                        ..p3
                    }));
                }
            }
        }
        if self.all_enemies_dead() {
            self.phase = TurnPhase::Ended(CombatOutcome::Victory);
            return;
        }
        let next_turn = self.turn.wrapping_add(1);
        self.phase = TurnPhase::PlayerTurn;
        self.heroes_start_turns(playback_slot, events);
        self.turn = next_turn;
        self.check_outcome();
    }

    /// Every standing enemy acts in slot order while some hero takes part; returns whether that
    /// left no hero standing, which loses the fight.
    #[verifier::spinoff_prover]
    #[verifier::rlimit(60)]
    fn enemies_take_turns(&mut self, playback_slot: Option<usize>, events: &mut Vec<CombatEvent>) -> (lost: bool)
        requires
            old(self).combat_wf(),
            old(self).phase == TurnPhase::EnemyTurn,
            forall|k: int| 0 <= k < old(self).heroes@.len() ==> (#[trigger] old(self).heroes@[k]).player.fighter.block <= PARTY_BLOCK_LIMIT + 900,
            forall|i: int| 0 <= i < old(self).enemies@.len() ==> (#[trigger] old(self).enemies@[i]).fighter.block <= PARTY_BLOCK_LIMIT + 900,
        ensures
            (final(self)@, lost) == party_enemies_act(old(self)@, 0, old(self).enemies@.len()),
            final(self).combat_wf(),
            final(self).heroes@.len() == old(self).heroes@.len(),
            final(self).inactive_slots == old(self).inactive_slots,
            final(self).turn == old(self).turn,
            final(self).enemies@.len() == old(self).enemies@.len(),
            lost ==> final(self).phase == TurnPhase::Ended(CombatOutcome::Defeat) && final(self).all_active_dead(),
            !lost ==> final(self).phase == TurnPhase::EnemyTurn,
            forall|k: int| 0 <= k < final(self).heroes@.len() ==> (#[trigger] final(self).heroes@[k]).player.fighter.block <= PARTY_BLOCK_LIMIT + 900,
            forall|i: int| 0 <= i < final(self).enemies@.len() ==> (#[trigger] final(self).enemies@[i]).fighter.block <= PARTY_BLOCK_LIMIT + 3900,
    {
        let count = self.enemies.len();
        let mut enemy_index: usize = 0;
        while enemy_index < count
            invariant
                count == self.enemies@.len(),
                count == old(self).enemies@.len(),
                enemy_index <= count,
                self.combat_wf(),
                self.heroes@.len() == old(self).heroes@.len(),
                self.inactive_slots == old(self).inactive_slots,
                self.phase == TurnPhase::EnemyTurn,
                self.turn == old(self).turn,
                forall|k: int| 0 <= k < self.heroes@.len() ==> (#[trigger] self.heroes@[k]).player.fighter.block <= PARTY_BLOCK_LIMIT + 900,
                forall|i: int| 0 <= i < count ==> (#[trigger] self.enemies@[i]).fighter.block <= PARTY_BLOCK_LIMIT + 900 + (if i < enemy_index { 3000int } else { 0int }),
                party_enemies_act(self@, enemy_index as nat, count as nat) == party_enemies_act(old(self)@, 0, count as nat),
            decreases count - enemy_index,
        {
            if self.enemies[enemy_index].fighter.hp > 0 {
                if self.first_active_slot().is_none() {
                    enemy_index = count;
                } else {
                    let ghost before_act = *self;
                    let ended = self.enemy_acts(enemy_index, playback_slot, events);
                    if ended {
                        return true;
                    }
                    proof {
                        assert forall|i: int| 0 <= i < count implies (#[trigger] self.enemies@[i]).fighter.block <= PARTY_BLOCK_LIMIT
                            + 900 + (if i < enemy_index + 1 { 3000int } else { 0int }) by {
                            if i != enemy_index {
                                assert(self.enemies@[i] == before_act.enemies@[i]);
                            }
                        }
                    }
                }
            }
            if enemy_index < count {
                enemy_index = enemy_index + 1;
            }
        }
        false
    }

    /// Every hero that stands and takes part starts its turn in its own view and has to act;
    /// every other hero is ready.
    #[verifier::spinoff_prover]
    #[verifier::rlimit(60)]
    fn heroes_start_turns(&mut self, playback_slot: Option<usize>, events: &mut Vec<CombatEvent>)
        requires
            old(self).combat_wf(),
            old(self).phase == TurnPhase::PlayerTurn,
            old(self).turn + 16 < u32::MAX,
            forall|k: int| 0 <= k < old(self).heroes@.len() ==> (#[trigger] old(self).heroes@[k]).player.fighter.block <= PARTY_BLOCK_LIMIT + 900,
            forall|i: int| 0 <= i < old(self).enemies@.len() ==> (#[trigger] old(self).enemies@[i]).fighter.block <= PARTY_BLOCK_LIMIT + 4800,
        ensures
            final(self)@ == party_turn_starts(old(self)@, 0, old(self).heroes@.len()),
            final(self).combat_wf(),
            final(self).heroes@.len() == old(self).heroes@.len(),
            final(self).inactive_slots == old(self).inactive_slots,
            final(self).phase == TurnPhase::PlayerTurn,
            final(self).turn == old(self).turn,
            final(self).enemies@ == old(self).enemies@,
            forall|k: int| 0 <= k < final(self).heroes@.len() ==> (#[trigger] final(self).heroes@[k]).player.fighter.block <= PARTY_BLOCK_LIMIT + 900,
            forall|k: int| 0 <= k < final(self).heroes@.len() ==> (#[trigger] final(self).heroes@[k]).ready == !final(self).active(k),
            forall|k: int| 0 <= k < final(self).heroes@.len() ==> (#[trigger] final(self).heroes@[k]).player.fighter.hp == old(self).heroes@[k].player.fighter.hp,
    {
        let ghost enemies_before = self.enemies@;
        let mut slot: usize = 0;
        while slot < self.heroes.len()
            invariant
                slot <= self.heroes@.len(),
                self.enemies@ == enemies_before,
                enemies_before == old(self).enemies@,
                self.combat_wf(),
                self.heroes@.len() == old(self).heroes@.len(),
                self.inactive_slots == old(self).inactive_slots,
                self.phase == TurnPhase::PlayerTurn,
                self.turn == old(self).turn,
                old(self).turn + 16 < u32::MAX,
                forall|k: int| 0 <= k < self.heroes@.len() ==> (#[trigger] self.heroes@[k]).player.fighter.block <= PARTY_BLOCK_LIMIT + 900,
                forall|i: int| 0 <= i < self.enemies@.len() ==> (#[trigger] self.enemies@[i]).fighter.block <= PARTY_BLOCK_LIMIT + 4800,
                forall|k: int| 0 <= k < slot ==> (#[trigger] self.heroes@[k]).ready == !self.active(k),
                forall|k: int| 0 <= k < self.heroes@.len() ==> (#[trigger] self.heroes@[k]).player.fighter.hp == old(self).heroes@[k].player.fighter.hp,
                party_turn_starts(self@, slot as nat, old(self).heroes@.len()) == party_turn_starts(old(self)@, 0, old(self).heroes@.len()),
            decreases self.heroes@.len() - slot,
        {
            let ghost before = self@;
            if !self.hero_is_active(slot) {
                self.heroes[slot].ready = true;
                proof {
                    assert(self@ =~= before.with_ready(slot as int, true));
                }
            } else {
                let ghost hp_before = self.heroes@[slot as int].player.fighter.hp;
                if let Some(mut combat) = self.view_for_slot(slot) {
                    proof {
                        lemma_start_player_turn_keeps(combat@);
                    }
                    let slot_events = combat.start_player_turn_only();
                    self.apply_combat_view(slot, &combat);
                    let ghost taken = self@;
                    let shown = match playback_slot {
                        Some(p) => p == slot,
                        None => false,
                    };
                    if shown {
                        extend_events(events, slot_events);
                    }
                    self.heroes[slot].ready = false;
                    proof {
                        assert(self.heroes@[slot as int].player.fighter.hp == hp_before);
                        assert(self@ =~= taken.with_ready(slot as int, false));
                    }
                }
            }
            slot = slot + 1;
        }
    }

    /// What an enemy's resolved intent does to every hero that takes part.
    #[verifier::spinoff_prover]
    #[verifier::rlimit(60)]
    fn hit_all_heroes(&mut self, enemy_index: usize, resolved: ResolvedEnemyIntent, playback_slot: Option<usize>, events: &mut Vec<CombatEvent>)
        requires
            old(self).combat_wf(),
            enemy_index < old(self).enemies@.len(),
            old(self).phase == TurnPhase::EnemyTurn,
            resolved_in_bounds(resolved),
            forall|k: int| 0 <= k < old(self).heroes@.len() ==> (#[trigger] old(self).heroes@[k]).player.fighter.block <= PARTY_BLOCK_LIMIT + 900,
        ensures
            final(self)@ == party_hit_heroes(old(self)@, enemy_index as int, resolved, 0, old(self).heroes@.len()),
            final(self).combat_wf(),
            final(self).enemies@ == old(self).enemies@,
            final(self).heroes@.len() == old(self).heroes@.len(),
            final(self).inactive_slots == old(self).inactive_slots,
            final(self).phase == old(self).phase,
            final(self).turn == old(self).turn,
            forall|k: int| 0 <= k < final(self).heroes@.len() ==> (#[trigger] final(self).heroes@[k]).player.fighter.block <= PARTY_BLOCK_LIMIT + 900,
    {
        let ghost enemies_before = self.enemies@;
        let mut slot: usize = 0;
        while slot < self.heroes.len()
            invariant
                enemy_index < self.enemies@.len(),
                self.enemies@ == enemies_before,
                enemies_before == old(self).enemies@,
                self.phase == old(self).phase,
                self.combat_wf(),
                self.heroes@.len() == old(self).heroes@.len(),
                self.inactive_slots == old(self).inactive_slots,
                self.phase == TurnPhase::EnemyTurn,
                self.turn == old(self).turn,
                resolved_in_bounds(resolved),
                forall|k: int| 0 <= k < self.heroes@.len() ==> (#[trigger] self.heroes@[k]).player.fighter.block <= PARTY_BLOCK_LIMIT + 900,
                slot <= self.heroes@.len(),
                party_hit_heroes(self@, enemy_index as int, resolved, slot as nat, old(self).heroes@.len())
                    == party_hit_heroes(old(self)@, enemy_index as int, resolved, 0, old(self).heroes@.len()),
            decreases self.heroes@.len() - slot,
        {
            if self.hero_is_active(slot) {
                if let Some(mut combat) = self.view_for_slot(slot) {
                    let slot_events = combat.apply_multiplayer_enemy_target_effects(enemy_index, resolved);
                    let ghost before_view = *self;
                    self.apply_combat_view(slot, &combat);
                    proof {
                        assert forall|k: int| 0 <= k < self.heroes@.len() implies (#[trigger] self.heroes@[k]).player.fighter.block
                            <= PARTY_BLOCK_LIMIT + 900 by {
                            if k != slot {
                                assert(self.heroes@[k] == before_view.heroes@[k]);
                            }
                        }
                    }
                    let shown = match playback_slot {
                        Some(p) => p == slot,
                        None => false,
                    };
                    if shown {
                        extend_events(events, slot_events);
                    }
                }
            }
            slot = slot + 1;
        }
    }

    /// One living enemy acts on its intent: its hits and debuffs reach every hero that takes
    /// part, then its own effects apply once. Returns whether that left every hero down or
    /// sitting out, which ends the fight as lost.
    #[verifier::spinoff_prover]
    #[verifier::rlimit(60)]
    fn enemy_acts(&mut self, enemy_index: usize, playback_slot: Option<usize>, events: &mut Vec<CombatEvent>) -> (ended: bool)
        requires
            old(self).combat_wf(),
            enemy_index < old(self).enemies@.len(),
            old(self).phase == TurnPhase::EnemyTurn,
            forall|k: int| 0 <= k < old(self).heroes@.len() ==> (#[trigger] old(self).heroes@[k]).player.fighter.block <= PARTY_BLOCK_LIMIT + 900,
            old(self).enemies@[enemy_index as int].fighter.block <= PARTY_BLOCK_LIMIT + 900,
        ensures
            (final(self)@, ended) == party_enemy_acts(old(self)@, enemy_index as int),
            final(self).combat_wf(),
            final(self).heroes@.len() == old(self).heroes@.len(),
            final(self).inactive_slots == old(self).inactive_slots,
            final(self).turn == old(self).turn,
            final(self).enemies@.len() == old(self).enemies@.len(),
            ended ==> final(self).phase == TurnPhase::Ended(CombatOutcome::Defeat) && final(self).all_active_dead(),
            !ended ==> final(self).phase == TurnPhase::EnemyTurn,
            forall|k: int| 0 <= k < final(self).heroes@.len() ==> (#[trigger] final(self).heroes@[k]).player.fighter.block <= PARTY_BLOCK_LIMIT + 900,
            forall|i: int| 0 <= i < old(self).enemies@.len() && i != enemy_index ==> #[trigger] final(self).enemies@[i] == old(self).enemies@[i],
            final(self).enemies@[enemy_index as int].fighter.block <= old(self).enemies@[enemy_index as int].fighter.block + 3000,
    {
        let first_active = match self.first_active_slot() {
            Some(s) => s,
            None => {
                return false;
            },
        };
        let resolved = match self.view_for_slot(first_active) {
            Some(combat) => combat.resolved_enemy_intent(enemy_index),
            None => None,
        };
        let resolved = match resolved {
            Some(r) => r,
            None => {
                return false;
            },
        };
        let consumed_on_hit_bleed = resolved.on_hit_bleed > 0 && resolved.damage > 0;
        self.hit_all_heroes(enemy_index, resolved, playback_slot, events);
        if self.all_active_heroes_dead() {
            self.phase = TurnPhase::Ended(CombatOutcome::Defeat);
            return true;
        }
        let self_effect_slot = match self.first_active_slot() {
            Some(s) => s,
            None => 0,
        };
        let mut combat = match self.view_for_slot(self_effect_slot) {
            Some(combat) => combat,
            None => {
                self.phase = TurnPhase::Ended(CombatOutcome::Defeat);
                return true;
            },
        };
        let own_events = combat.apply_multiplayer_enemy_self_effects(enemy_index, resolved, consumed_on_hit_bleed);
        extend_events(events, own_events);
        let ghost before_view = *self;
        self.apply_combat_view(self_effect_slot, &combat);
        proof {
            assert forall|k: int| 0 <= k < self.heroes@.len() implies (#[trigger] self.heroes@[k]).player.fighter.block
                <= PARTY_BLOCK_LIMIT + 900 by {
                if k != self_effect_slot {
                    assert(self.heroes@[k] == before_view.heroes@[k]);
                }
            }
        }
        false
    }

    /// Runs the enemies' round once every living hero that takes part has ended its turn;
    /// refused outside the heroes' turn or while a hero still has to act.
    pub fn resolve_if_all_living_active_heroes_ready(&mut self, playback_slot: usize) -> (events: Option<Vec<CombatEvent>>)
        requires
            old(self).playable(),
        ensures
            events is Some <==> (old(self).phase == TurnPhase::PlayerTurn && old(self).all_ready()),
            events is None ==> *final(self) == *old(self),
            events is Some ==> final(self)@ == party_round(old(self)@, playback_slot),
            events is Some ==> final(self).after_round(*old(self)),
    {
        if !matches!(self.phase, TurnPhase::PlayerTurn) || !self.all_living_active_heroes_ready() {
            return None;
        }
        Some(self.resolve_enemy_round_events_for_slot(playback_slot))
    }

    /// Hero `slot` ends its turn; once every living hero that takes part has, the enemies'
    /// round runs. Refused outside the heroes' turn and for a hero that is down, sits out or
    /// has already ended its turn.
    #[verifier::spinoff_prover]
    #[verifier::rlimit(60)]
    pub fn ready_hero_with_events(&mut self, slot: usize) -> (events: Option<Vec<CombatEvent>>)
        requires
            old(self).playable(),
        ensures
            events is Some <==> (old(self).phase == TurnPhase::PlayerTurn && old(self).active(slot as int)
                && !old(self).heroes@[slot as int].ready),
            events is None ==> *final(self) == *old(self),
            events is Some ==> final(self)@ == party_ready_hero(old(self)@, slot as int),
            events is Some ==> {
                &&& final(self).combat_wf()
                &&& final(self).heroes@.len() == old(self).heroes@.len()
                &&& final(self).inactive_slots == old(self).inactive_slots
                &&& final(self).phase_consistent()
                &&& final(self).phase != TurnPhase::PlayerTurn || final(self).turn == old(self).turn || final(self).turn
                    == old(self).turn.wrapping_add(1)
            },
    {
        if !matches!(self.phase, TurnPhase::PlayerTurn) || !self.hero_is_active(slot) {
            return None;
        }
        if self.heroes[slot].ready {
            return None;
        }
        let ghost before_ready = self@;
        self.heroes[slot].ready = true;
        let ghost readied = self@;
        proof {
            assert(readied =~= before_ready.with_ready(slot as int, true));
        }
        let mut events: Vec<CombatEvent> = Vec::new();
        if let Some(mut combat) = self.view_for_slot(slot) {
            let ended = combat.apply_player_end_turn_only();
            proof {
                assert(seq![
                    CombatCommand::EndTurn(Actor::Player),
                    CombatCommand::ApplyEndOfTurn(Actor::Player),
                    CombatCommand::CheckOutcome,
                ] =~= player_end_turn_commands());
            }
            extend_events(&mut events, ended);
            let ghost before_view = *self;
            self.apply_combat_view(slot, &combat);
            proof {
                assert forall|k: int| 0 <= k < self.heroes@.len() implies (#[trigger] self.heroes@[k]).player.fighter.block
                    <= PARTY_BLOCK_LIMIT + 900 by {
                    if k != slot {
                        assert(self.heroes@[k] == before_view.heroes@[k]);
                    }
                }
            }
        }
        let ghost before_round = *self;
        if self.all_living_active_heroes_ready() {
            let round = self.resolve_enemy_round_events_for_slot(slot);
            extend_events(&mut events, round);
        }
        Some(events)
    }

    /// Whether hero `slot` could end its turn.
    pub fn ready_hero(&mut self, slot: usize) -> (readied: bool)
        requires
            old(self).playable(),
        ensures
            readied == (old(self).phase == TurnPhase::PlayerTurn && old(self).active(slot as int) && !old(self).heroes@[slot as int].ready),
            !readied ==> *final(self) == *old(self),
            readied ==> final(self)@ == party_ready_hero(old(self)@, slot as int),
            readied ==> final(self).combat_wf() && final(self).phase_consistent(),
    {
        self.ready_hero_with_events(slot).is_some()
    }
}

/// One hero of a shared fight, as values.
#[verifier::ext_equal]
pub struct HeroModel {
    pub player: PlayerState,
    pub deck: DeckModel,
    pub ready: bool,
}

/// A shared fight as values: the heroes, their sit-out flags, the enemies, the phase, the
/// turn and the random state.
#[verifier::ext_equal]
pub struct PartyModel {
    pub heroes: Seq<HeroModel>,
    pub inactive: Seq<bool>,
    pub enemies: Seq<EnemyState>,
    pub phase: TurnPhase,
    pub turn: u32,
    pub rng_state: u64,
}

impl View for PartyCombatState {
    type V = PartyModel;

    open spec fn view(&self) -> PartyModel {
        PartyModel {
            heroes: Seq::new(
                self.heroes@.len(),
                |k: int| HeroModel { player: self.heroes@[k].player, deck: self.heroes@[k].deck@, ready: self.heroes@[k].ready },
            ),
            inactive: self.inactive_slots@,
            enemies: self.enemies@,
            phase: self.phase,
            turn: self.turn,
            rng_state: self.rng_state,
        }
    }
}

impl PartyModel {
    pub open spec fn sits_out(self, k: int) -> bool {
        0 <= k < self.inactive.len() && self.inactive[k]
    }

    /// Hero `k` stands and takes part.
    pub open spec fn active(self, k: int) -> bool {
        0 <= k < self.heroes.len() && self.heroes[k].player.fighter.hp > 0 && !self.sits_out(k)
    }

    /// Every hero is down or sits out.
    pub open spec fn all_active_dead(self) -> bool {
        forall|k: int| 0 <= k < self.heroes.len() ==> (#[trigger] self.heroes[k]).player.fighter.hp <= 0 || self.sits_out(k)
    }

    /// Every hero that stands and takes part has ended its turn.
    pub open spec fn all_ready(self) -> bool {
        forall|k: int| 0 <= k < self.heroes.len() && #[trigger] self.active(k) ==> self.heroes[k].ready
    }

    /// The lowest slot from `k` on of a hero that stands and takes part.
    pub open spec fn first_active_from(self, k: nat) -> Option<usize>
        decreases self.heroes.len() - k,
    {
        if k >= self.heroes.len() {
            None
        } else if self.active(k as int) {
            Some(k as usize)
        } else {
            self.first_active_from(k + 1)
        }
    }

    /// The fight as hero `slot` sees it.
    pub open spec fn view_of(self, slot: int) -> CombatModel {
        CombatModel {
            player: self.heroes[slot].player,
            enemies: self.enemies,
            deck: self.heroes[slot].deck,
            phase: self.phase,
            turn: self.turn,
            announced: Seq::new(self.enemies.len(), |i: int| self.enemies[i].fighter.hp <= 0),
            rng: seed_state(self.rng_state),
        }
    }

    /// The fight once hero `slot` takes back its fighter and cards, and the enemies and the
    /// random state, from a combat `c` it played; it stays ready only while standing (always,
    /// when it sits out).
    pub open spec fn taking_view(self, slot: int, c: CombatModel) -> PartyModel {
        PartyModel {
            heroes: self.heroes.update(
                slot,
                HeroModel {
                    player: c.player,
                    deck: c.deck,
                    ready: if self.sits_out(slot) { true } else { self.heroes[slot].ready && c.player.fighter.hp > 0 },
                },
            ),
            enemies: c.enemies,
            rng_state: c.rng,
            ..self
        }
    }

    /// Hero `k` marked as ready or not.
    pub open spec fn with_ready(self, k: int, ready: bool) -> PartyModel {
        PartyModel { heroes: self.heroes.update(k, HeroModel { ready, ..self.heroes[k] }), ..self }
    }

    /// The fight with its outcome checked: won when every enemy is down, lost when every hero
    /// is down or sits out.
    pub open spec fn checked(self) -> PartyModel {
        PartyModel {
            phase: if all_enemies_down(self.enemies) {
                TurnPhase::Ended(CombatOutcome::Victory)
            } else if self.all_active_dead() {
                TurnPhase::Ended(CombatOutcome::Defeat)
            } else {
                self.phase
            },
            ..self
        }
    }
}

/// Enemy `e`'s resolved intent `r` reaching the heroes from slot `k` on (of the first `n`):
/// each one that stands and takes part plays it out in its own view of the fight.
pub open spec fn party_hit_heroes(p: PartyModel, e: int, r: ResolvedEnemyIntent, k: nat, n: nat) -> PartyModel
    decreases n - k,
{
    if k >= n || k >= p.heroes.len() {
        p
    } else {
        let q = if p.active(k as int) { p.taking_view(k as int, spec_shared_target_effects(p.view_of(k as int), e, r)) } else { p };
        party_hit_heroes(q, e, r, k + 1, n)
    }
}

/// Enemy `e` acting in a shared fight: its resolved intent reaches every hero that takes part,
/// the fight is lost when that leaves none standing, and otherwise its own effects apply once,
/// in the view of the lowest such hero. The flag says whether the fight was lost.
pub open spec fn party_enemy_acts(p: PartyModel, e: int) -> (PartyModel, bool) {
    if p.first_active_from(0) is None {
        (p, false)
    } else {
        let r = spec_resolved_intent(p.enemies[e]);
        let consumed = r.on_hit_bleed > 0 && r.damage > 0;
        let h = party_hit_heroes(p, e, r, 0, p.heroes.len());
        let lost = PartyModel { phase: TurnPhase::Ended(CombatOutcome::Defeat), ..h };
        if h.all_active_dead() {
            (lost, true)
        } else {
            let s: int = match h.first_active_from(0) {
                Some(s) => s as int,
                None => 0,
            };
            if s >= h.heroes.len() {
                (lost, true)
            } else {
                (h.taking_view(s, spec_shared_self_effects(h.view_of(s), e, r, consumed)), false)
            }
        }
    }
}

/// The enemies from slot `i` on (of the first `n`) acting in order, each one that still stands,
/// while some hero takes part; the flag says whether the fight was lost on the way.
pub open spec fn party_enemies_act(p: PartyModel, i: nat, n: nat) -> (PartyModel, bool)
    decreases n - i,
{
    if i >= n || i >= p.enemies.len() {
        (p, false)
    } else if p.enemies[i as int].fighter.hp > 0 {
        if p.first_active_from(0) is None {
            (p, false)
        } else {
            let (q, lost) = party_enemy_acts(p, i as int);
            if lost { (q, true) } else { party_enemies_act(q, i + 1, n) }
        }
    } else {
        party_enemies_act(p, i + 1, n)
    }
}

/// The heroes from slot `k` on (of the first `n`) starting their turn: one that stands and
/// takes part starts it in its own view and has to act; any other is ready.
pub open spec fn party_turn_starts(p: PartyModel, k: nat, n: nat) -> PartyModel
    decreases n - k,
{
    if k >= n || k >= p.heroes.len() {
        p
    } else if !p.active(k as int) {
        party_turn_starts(p.with_ready(k as int, true), k + 1, n)
    } else {
        let c = spec_draw_cards(spec_start_player_turn(p.view_of(k as int)), 5);
        party_turn_starts(p.taking_view(k as int, c).with_ready(k as int, false), k + 1, n)
    }
}

/// The steps that end the enemies' turn.
pub open spec fn enemy_end_turn_commands() -> Seq<CombatCommand> {
    seq![CombatCommand::ApplyEndOfTurn(Actor::Enemy(0)), CombatCommand::EndTurn(Actor::Enemy(0)), CombatCommand::CheckOutcome]
}

/// The end of the enemies' round once they have acted without winning, reported from the view
/// of hero `shown`: lost once no hero stands; otherwise the enemies' turn ends in that view,
/// the fight is won once no enemy stands, and otherwise every hero that takes part starts a
/// new turn, the turn counter moves on from `turn` and the outcome is checked.
pub open spec fn party_round_end(p3: PartyModel, shown: Option<usize>, turn: u32) -> PartyModel {
    if p3.all_active_dead() {
        PartyModel { phase: TurnPhase::Ended(CombatOutcome::Defeat), ..p3 }
    } else {
        let p4 = match shown {
            Some(s) => PartyModel { enemies: spec_process_commands(p3.view_of(s as int), enemy_end_turn_commands()).enemies, ..p3 },
            None => p3,
        };
        if all_enemies_down(p4.enemies) {
            PartyModel { phase: TurnPhase::Ended(CombatOutcome::Victory), ..p4 }
        } else {
            let p5 = party_turn_starts(PartyModel { phase: TurnPhase::PlayerTurn, ..p4 }, 0, p4.heroes.len());
            PartyModel { turn: turn.wrapping_add(1), ..p5 }.checked()
        }
    }
}

/// The hero whose view reports a round: `playback_slot` when it takes part, else the lowest
/// hero that does.
pub open spec fn shown_slot(p: PartyModel, playback_slot: usize) -> Option<usize> {
    if p.active(playback_slot as int) { Some(playback_slot) } else { p.first_active_from(0) }
}

/// The enemies' round of a shared fight, reported from the view of `shown_slot`: the enemies'
/// turn starts in that view, every standing enemy acts in order while some hero takes part,
/// and the round then ends (see `party_round_end`) unless the fight was lost on the way.
pub open spec fn party_round(p: PartyModel, playback_slot: usize) -> PartyModel {
    let p1 = PartyModel { phase: TurnPhase::EnemyTurn, ..p };
    let shown = shown_slot(p1, playback_slot);
    let p2 = match shown {
        Some(s) => PartyModel { enemies: spec_start_enemy_turn(p1.view_of(s as int)).enemies, ..p1 },
        None => p1,
    };
    let (p3, lost) = party_enemies_act(p2, 0, p2.enemies.len());
    if lost { p3 } else { party_round_end(p3, shown, p.turn) }
}

/// The steps that end a hero's turn in its own view.
pub open spec fn player_end_turn_commands() -> Seq<CombatCommand> {
    seq![CombatCommand::EndTurn(Actor::Player), CombatCommand::ApplyEndOfTurn(Actor::Player), CombatCommand::CheckOutcome]
}

/// Hero `slot` ending its turn: it is ready, its turn ends in its own view (its hand is
/// discarded and its statuses tick), and once every hero that stands and takes part is ready
/// the enemies' round runs, reported from that hero's view.
pub open spec fn party_ready_hero(p: PartyModel, slot: int) -> PartyModel {
    let r = p.with_ready(slot, true);
    let q = r.taking_view(slot, spec_process_commands(r.view_of(slot), player_end_turn_commands()));
    if q.all_ready() { party_round(q, slot as usize) } else { q }
}

/// An event choice that costs hit points takes them from the hero: all of them when the hero
/// has more, else all but its last one, and never any from a hero at one or fewer; the hero
/// keeps at least one hit point, and it loses exactly what a single-player run loses.
pub proof fn law_event_hp_cost(effect: EventChoiceEffect, h: HeroRunState)
    requires
        hero_in_range(h),
        effect_hp_cost(effect) >= 0,
    ensures
        0 <= resolution_hp_lost(spec_event_resolution(effect, h)) <= effect_hp_cost(effect),
        effect_hp_cost(effect) < h.player_hp ==> resolution_hp_lost(spec_event_resolution(effect, h)) == effect_hp_cost(effect),
        h.player_hp >= 1 ==> h.player_hp - resolution_hp_lost(spec_event_resolution(effect, h)) >= 1,
        1 <= h.player_hp <= effect_hp_cost(effect) ==> h.player_hp - resolution_hp_lost(spec_event_resolution(effect, h)) == 1,
        h.player_hp <= 1 ==> resolution_hp_lost(spec_event_resolution(effect, h)) == 0,
        resolution_hp_lost(spec_event_resolution(effect, h)) == run_hp_lost(h.player_hp, effect_hp_cost(effect) as i32),
{
}

/// The hit points a costly event choice reports are the ones the hero loses: after a choice
/// that costs hit points and adds credits or a card, the hero has exactly that many fewer.
pub proof fn law_event_hp_cost_is_paid(effect: EventChoiceEffect, h: HeroRunState, after: HeroRunState)
    requires
        hero_in_range(h),
        effect is LoseHpGainCredits || effect is LoseHpAddCard,
        effect_hp_cost(effect) >= 0,
        hero_after_event(effect, h, after),
    ensures
        after.player_hp == h.player_hp - resolution_hp_lost(spec_event_resolution(effect, h)),
{
}

/// A hero's rest heals its missing hit points, at most six: never past its maximum, and short of
/// it only after healing the full six.
pub proof fn law_hero_rest_heals_up_to_six(h: HeroRunState)
    requires
        hero_in_range(h),
    ensures
        0 <= hero_rest_heal(h) <= REST_HEAL,
        h.player_hp <= h.player_max_hp ==> h.player_hp + hero_rest_heal(h) <= h.player_max_hp,
        h.player_hp <= h.player_max_hp ==> hero_rest_heal(h) == REST_HEAL || h.player_hp + hero_rest_heal(h) == h.player_max_hp,
        h.player_hp >= h.player_max_hp ==> hero_rest_heal(h) == 0,
{
}

/// A healing event choice heals the hero what it names, never past its maximum: short of the
/// maximum only after healing the full amount, and nothing for a non-positive amount.
pub proof fn law_hero_event_heal(h: HeroRunState, amount: i32)
    requires
        hero_in_range(h),
        h.player_hp <= h.player_max_hp,
    ensures
        0 <= hero_heal(h, amount),
        amount > 0 ==> hero_heal(h, amount) <= amount,
        h.player_hp + hero_heal(h, amount) <= h.player_max_hp,
        amount > 0 ==> hero_heal(h, amount) == amount || h.player_hp + hero_heal(h, amount) == h.player_max_hp,
        amount <= 0 ==> hero_heal(h, amount) == 0,
{
}

} // verus!
