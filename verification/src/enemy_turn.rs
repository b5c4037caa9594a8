//! How enemies act on their intents.
use vstd::prelude::*;

use crate::content::{EnemyIntent, enemy_intent, spec_enemy_intent};
use crate::combat::{AMOUNT_LIMIT, Actor, CombatEvent, CombatModel, CombatState, EnemyState, FighterState, PLAY_BLOCK_LIMIT, ResolvedEnemyIntent, StatusKind, advances_match, advances_only, appends, fighter_wf, intent_in_bounds, lemma_advances_extend, lemma_appends_trans, lemma_enemy_intent_bounds, lemma_scale_bounds, lemma_set_fighter_frame, lemma_step_frame_trans, scale_axis_value, scale_intent_axis_delta, spec_after_block_gain, spec_enemy_attack, spec_scale_axis_value, spec_scale_damage_amount, spec_scale_intent_axis_delta, spec_status_after, step_frame};

verus! {

/// Changing an enemy's bookkeeping (its primed Bleed or rotation slot) keeps the frame.
pub proof fn lemma_enemy_meta_frame(m: CombatModel, e: int, en: EnemyState)
    requires
        m.wf(),
        0 <= e < m.enemies.len(),
        en.fighter == m.enemies[e].fighter,
        en.intent_index < 3,
    ensures
        step_frame(m, CombatModel { enemies: m.enemies.update(e, en), ..m }, 0, 0),
{
    let n = CombatModel { enemies: m.enemies.update(e, en), ..m };
    assert forall|i: int| 0 <= i < n.enemies.len() implies fighter_wf(#[trigger] n.enemies[i].fighter)
        && n.enemies[i].intent_index < 3 && n.enemies[i].fighter.block <= m.enemies[i].fighter.block + 0
        && n.enemies[i].fighter.hp <= m.enemies[i].fighter.hp by {
        if i != e {
            assert(n.enemies[i] == m.enemies[i]);
        }
    }
}

/// While enemy `e` acts, everything but the player's axes and Bleed, and enemy `e`'s block,
/// axes and primed Bleed, stays as in `origin`.
pub open spec fn acting_frame(origin: CombatModel, m: CombatModel, e: int) -> bool {
    &&& m.deck == origin.deck
    &&& m.rng == origin.rng
    &&& m.player.energy == origin.player.energy
    &&& m.player.max_energy == origin.player.max_energy
    &&& m.player.fighter.hp == origin.player.fighter.hp
    &&& forall|j: int| 0 <= j < origin.enemies.len() && j != e ==> #[trigger] m.enemies[j] == origin.enemies[j]
    &&& m.enemies[e].profile == origin.enemies[e].profile
    &&& m.enemies[e].fighter.hp == origin.enemies[e].fighter.hp
}

/// An enemy's intent with its Momentum scaling applied, as the enemy holds it now.
pub open spec fn spec_resolved_intent(enemy: EnemyState) -> ResolvedEnemyIntent {
    let intent = spec_enemy_intent(enemy.profile, enemy.intent_index);
    let momentum = enemy.fighter.statuses.momentum;
    let prime = spec_scale_axis_value(intent.prime_bleed as i32, momentum);
    let bleed = spec_scale_axis_value(intent.apply_bleed as i32, momentum);
    ResolvedEnemyIntent {
        damage: spec_scale_axis_value(intent.damage, momentum) as i32,
        hits: intent.hits,
        on_hit_bleed: enemy.on_hit_bleed,
        gain_block: spec_scale_axis_value(intent.gain_block, momentum) as i32,
        prime_bleed: (if prime < 0 { 0 } else { prime }) as u8,
        self_focus: spec_scale_intent_axis_delta(intent.spec_self_focus(), momentum),
        self_rhythm: spec_scale_intent_axis_delta(intent.spec_self_rhythm(), momentum),
        self_momentum: spec_scale_intent_axis_delta(intent.spec_self_momentum(), momentum),
        target_focus: spec_scale_intent_axis_delta(intent.spec_target_focus(), momentum),
        target_rhythm: spec_scale_intent_axis_delta(intent.spec_target_rhythm(), momentum),
        target_momentum: spec_scale_intent_axis_delta(intent.spec_target_momentum(), momentum),
        apply_bleed: (if bleed < 0 { 0 } else { bleed }) as u8,
    }
}

/// Bounds on a resolved intent of a well-formed enemy.
pub open spec fn resolved_in_bounds(r: ResolvedEnemyIntent) -> bool {
    &&& 0 <= r.damage <= 60
    &&& r.hits <= 3
    &&& 0 <= r.gain_block <= 60
    &&& r.prime_bleed <= 9
    &&& r.apply_bleed <= 9
}

pub proof fn lemma_resolved_bounds(enemy: EnemyState)
    requires
        fighter_wf(enemy.fighter),
    ensures
        resolved_in_bounds(spec_resolved_intent(enemy)),
{
    let intent = spec_enemy_intent(enemy.profile, enemy.intent_index);
    lemma_enemy_intent_bounds(enemy.profile, enemy.intent_index);
    let momentum = enemy.fighter.statuses.momentum;
    lemma_scale_bounds(intent.damage, momentum);
    lemma_scale_bounds(intent.gain_block, momentum);
    lemma_scale_bounds(intent.prime_bleed as i32, momentum);
    lemma_scale_bounds(intent.apply_bleed as i32, momentum);
}

/// A status change on one fighter.
pub open spec fn spec_status_on(m: CombatModel, actor: Actor, status: StatusKind, amount: i8) -> CombatModel {
    m.set_fighter(actor, FighterState { statuses: spec_status_after(m.fighter(actor).statuses, status, amount), ..m.fighter(actor) })
}

/// Enemy `e`'s hits on the player: up to `hits` hits of `damage` (none when it is not positive),
/// stopping once the player is down.
pub open spec fn spec_enemy_hits(m: CombatModel, e: int, damage: i32, hits: nat) -> CombatModel
    decreases hits,
{
    if hits == 0 || damage <= 0 {
        m
    } else {
        let next = spec_enemy_attack(m, e, damage);
        if next.player.fighter.hp <= 0 { next } else { spec_enemy_hits(next, e, damage, (hits - 1) as nat) }
    }
}

/// Enemy `e`'s own effects: its block, its changes to its own Focus, Rhythm and Momentum (each
/// scaled by `momentum`, the Momentum it acted with), then a newly primed Bleed.
pub open spec fn spec_enemy_own_effects(m: CombatModel, e: int, intent: EnemyIntent, momentum: i8, block: i32, prime: u8) -> CombatModel {
    let actor = Actor::Enemy(e as usize);
    let m = if block > 0 { m.set_fighter(actor, spec_after_block_gain(m.fighter(actor), block)) } else { m };
    let focus = spec_scale_intent_axis_delta(intent.spec_self_focus(), momentum);
    let m = if focus != 0 { spec_status_on(m, actor, StatusKind::Focus, focus) } else { m };
    let rhythm = spec_scale_intent_axis_delta(intent.spec_self_rhythm(), momentum);
    let m = if rhythm != 0 { spec_status_on(m, actor, StatusKind::Rhythm, rhythm) } else { m };
    let own_momentum = spec_scale_intent_axis_delta(intent.spec_self_momentum(), momentum);
    let m = if own_momentum != 0 { spec_status_on(m, actor, StatusKind::Momentum, own_momentum) } else { m };
    if prime > 0 {
        CombatModel { enemies: m.enemies.update(e, EnemyState { on_hit_bleed: prime, ..m.enemies[e] }), ..m }
    } else {
        m
    }
}

/// What enemy `e` inflicts on the player (Focus, Rhythm and Momentum changes scaled by
/// `momentum`, then `bleed` stacks of Bleed), then the advance of its intent rotation.
pub open spec fn spec_enemy_inflicted_effects(m: CombatModel, e: int, intent: EnemyIntent, momentum: i8, bleed: u8) -> CombatModel {
    let focus = spec_scale_intent_axis_delta(intent.spec_target_focus(), momentum);
    let m = if focus != 0 { spec_status_on(m, Actor::Player, StatusKind::Focus, focus) } else { m };
    let rhythm = spec_scale_intent_axis_delta(intent.spec_target_rhythm(), momentum);
    let m = if rhythm != 0 { spec_status_on(m, Actor::Player, StatusKind::Rhythm, rhythm) } else { m };
    let target_momentum = spec_scale_intent_axis_delta(intent.spec_target_momentum(), momentum);
    let m = if target_momentum != 0 { spec_status_on(m, Actor::Player, StatusKind::Momentum, target_momentum) } else { m };
    let m = if bleed > 0 { spec_status_on(m, Actor::Player, StatusKind::Bleed, bleed as i8) } else { m };
    CombatModel {
        enemies: m.enemies.update(e, EnemyState { intent_index: ((m.enemies[e].intent_index + 1) % 3) as usize, ..m.enemies[e] }),
        ..m
    }
}

/// Enemy `e` acting on its current intent, scaled by its Momentum: its hits, and when the player
/// still stands, its own effects and what it inflicts, then its rotation advances.
pub open spec fn spec_enemy_acts(m: CombatModel, e: int) -> CombatModel {
    let enemy = m.enemies[e];
    let intent = spec_enemy_intent(enemy.profile, enemy.intent_index);
    let momentum = enemy.fighter.statuses.momentum;
    let r = spec_resolved_intent(enemy);
    let hit = spec_enemy_hits(m, e, r.damage, r.hits as nat);
    if hit.player.fighter.hp <= 0 {
        hit
    } else {
        spec_enemy_inflicted_effects(
            spec_enemy_own_effects(hit, e, intent, momentum, r.gain_block, r.prime_bleed),
            e,
            intent,
            momentum,
            r.apply_bleed,
        )
    }
}

/// The enemies from slot `i` on (of the first `n`) acting in slot order, each one that still
/// stands when its slot comes, until the player is down.
pub open spec fn spec_enemies_act(m: CombatModel, i: nat, n: nat) -> CombatModel
    decreases n - i,
{
    if i >= n || i >= m.enemies.len() {
        m
    } else if m.enemies[i as int].fighter.hp > 0 {
        let next = spec_enemy_acts(m, i as int);
        if next.player.fighter.hp <= 0 { next } else { spec_enemies_act(next, i + 1, n) }
    } else {
        spec_enemies_act(m, i + 1, n)
    }
}

/// One enemy's turn keeps the rotation advances reported so far true: it changes no other
/// enemy, and it reports an advance only of its own rotation, and only when that took place.
proof fn lemma_advances_step(
    a: Seq<CombatEvent>,
    b: Seq<CombatEvent>,
    from: int,
    origin: CombatModel,
    before: CombatModel,
    after: CombatModel,
    i: usize,
)
    requires
        appends(b, a),
        0 <= from <= a.len(),
        advances_match(a, from, origin, before),
        origin.enemies.len() == before.enemies.len(),
        before.enemies.len() == after.enemies.len(),
        i < origin.enemies.len(),
        before.enemies[i as int].intent_index == origin.enemies[i as int].intent_index,
        forall|k: int| 0 <= k < before.enemies.len() && k != i ==> #[trigger] after.enemies[k] == before.enemies[k],
        advances_only(
            b,
            a.len() as int,
            if after.enemies[i as int].intent_index == ((origin.enemies[i as int].intent_index + 1) % 3) as usize {
                Some(i)
            } else {
                None
            },
        ),
    ensures
        advances_match(b, from, origin, after),
{
    assert forall|j: int| from <= j < a.len() implies b[j] == a[j] by {
        assert(b.subrange(0, a.len() as int)[j] == b[j]);
    }
    assert forall|j: int| from <= j < b.len() implies match #[trigger] b[j] {
        CombatEvent::IntentAdvanced { enemy_index, .. } => enemy_index < origin.enemies.len()
            && enemy_index < after.enemies.len()
            && after.enemies[enemy_index as int].intent_index == ((origin.enemies[enemy_index as int].intent_index + 1)
            % 3) as usize,
        _ => true,
    } by {
        if j < a.len() {
            assert(b[j] == a[j]);
            match a[j] {
                CombatEvent::IntentAdvanced { enemy_index, .. } => {
                    assert(enemy_index != i);
                    assert(after.enemies[enemy_index as int] == before.enemies[enemy_index as int]);
                },
                _ => {},
            }
        }
    }
}

/// Events that report no rotation advance, after an unchanged state, keep the advances
/// reported so far true.
proof fn lemma_advances_match_extend(a: Seq<CombatEvent>, b: Seq<CombatEvent>, from: int, origin: CombatModel, after: CombatModel)
    requires
        appends(b, a),
        0 <= from <= a.len(),
        advances_match(a, from, origin, after),
        advances_only(b, a.len() as int, None),
    ensures
        advances_match(b, from, origin, after),
{
    assert forall|j: int| from <= j < a.len() implies b[j] == a[j] by {
        assert(b.subrange(0, a.len() as int)[j] == b[j]);
    }
}

impl CombatState {
    /// The intent enemy `index` shows, if that slot exists.
    pub fn current_intent(&self, index: usize) -> (intent: Option<EnemyIntent>)
        ensures
            intent == (if index < self.enemies.len() {
                Some(spec_enemy_intent(self.enemies[index as int].profile, self.enemies[index as int].intent_index))
            } else {
                None
            }),
    {
        if index < self.enemies.len() {
            let enemy = self.enemies[index];
            Some(enemy_intent(enemy.profile, enemy.intent_index))
        } else {
            None
        }
    }

    /// The intent enemy `index` shows, with its Momentum scaling applied.
    pub fn resolved_enemy_intent(&self, index: usize) -> (resolved: Option<ResolvedEnemyIntent>)
        requires
            self@.wf(),
        ensures
            resolved == (if index < self.enemies.len() {
                Some(spec_resolved_intent(self.enemies[index as int]))
            } else {
                None
            }),
            resolved matches Some(r) ==> resolved_in_bounds(r),
    {
        if index >= self.enemies.len() {
            return None;
        }
        let enemy = self.enemies[index];
        let intent = enemy_intent(enemy.profile, enemy.intent_index);
        proof {
            lemma_enemy_intent_bounds(enemy.profile, enemy.intent_index);
            lemma_resolved_bounds(enemy);
        }
        let momentum = enemy.fighter.statuses.momentum;
        let prime = scale_axis_value(intent.prime_bleed as i32, momentum);
        let bleed = scale_axis_value(intent.apply_bleed as i32, momentum);
        Some(ResolvedEnemyIntent {
            damage: scale_axis_value(intent.damage, momentum),
            hits: intent.hits,
            on_hit_bleed: enemy.on_hit_bleed,
            gain_block: scale_axis_value(intent.gain_block, momentum),
            prime_bleed: if prime < 0 { 0 } else { prime as u8 },
            self_focus: scale_intent_axis_delta(intent.self_focus(), momentum),
            self_rhythm: scale_intent_axis_delta(intent.self_rhythm(), momentum),
            self_momentum: scale_intent_axis_delta(intent.self_momentum(), momentum),
            target_focus: scale_intent_axis_delta(intent.target_focus(), momentum),
            target_rhythm: scale_intent_axis_delta(intent.target_rhythm(), momentum),
            target_momentum: scale_intent_axis_delta(intent.target_momentum(), momentum),
            apply_bleed: if bleed < 0 { 0 } else { bleed as u8 },
        })
    }

    /// One enemy acts on its intent: its hits (stopping once the player is down), then, if the
    /// player still stands, its block, its own axis changes, a primed Bleed, the changes it
    /// inflicts on the player, and the advance of its rotation.
    pub fn resolve_enemy_intent_at(&mut self, enemy_index: usize, events: &mut Vec<CombatEvent>)
        requires
            old(self)@.wf(),
            enemy_index < old(self).enemies.len(),
            old(self).enemies[enemy_index as int].fighter.block <= PLAY_BLOCK_LIMIT,
        ensures
            final(self)@ == spec_enemy_acts(old(self)@, enemy_index as int),
            step_frame(old(self)@, final(self)@, 0, 300),
            final(self)@.deck == old(self)@.deck,
            final(self)@.rng == old(self)@.rng,
            final(self).player.energy == old(self).player.energy,
            final(self).player.max_energy == old(self).player.max_energy,
            forall|j: int|
                0 <= j < old(self).enemies.len() && j != enemy_index ==> #[trigger] final(self)@.enemies[j]
                    == old(self)@.enemies[j],
            final(self)@.enemies[enemy_index as int].profile == old(self)@.enemies[enemy_index as int].profile,
            final(self)@.enemies[enemy_index as int].fighter.hp == old(self)@.enemies[enemy_index as int].fighter.hp,
            final(self)@.enemies[enemy_index as int].intent_index == (if final(self).player.fighter.hp > 0 {
                ((old(self)@.enemies[enemy_index as int].intent_index + 1) % 3) as usize
            } else {
                old(self)@.enemies[enemy_index as int].intent_index
            }),
            appends(final(events)@, old(events)@),
            advances_only(
                final(events)@,
                old(events)@.len() as int,
                if final(self).player.fighter.hp > 0 { Some(enemy_index) } else { None },
            ),
    {
        let ghost origin = self@;
        let ghost oe = events@;
        let enemy = self.enemies[enemy_index];
        let intent = enemy_intent(enemy.profile, enemy.intent_index);
        proof {
            lemma_enemy_intent_bounds(enemy.profile, enemy.intent_index);
            lemma_scale_bounds(intent.gain_block, enemy.fighter.statuses.momentum);
            assert(oe.subrange(0, oe.len() as int) =~= oe);
        }
        let momentum = enemy.fighter.statuses.momentum;
        let scaled_damage = scale_axis_value(intent.damage, momentum);
        let scaled_block = scale_axis_value(intent.gain_block, momentum);
        let prime = scale_axis_value(intent.prime_bleed as i32, momentum);
        let scaled_prime: u8 = if prime < 0 { 0 } else { prime as u8 };
        let bleed = scale_axis_value(intent.apply_bleed as i32, momentum);
        let scaled_bleed: u8 = if bleed < 0 { 0 } else { bleed as u8 };

        self.enemy_hits(enemy_index, scaled_damage, intent.hits, events);
        if self.player.fighter.hp <= 0 {
            proof {
                assert(step_frame(origin, self@, 0, 300));
            }
            return;
        }
        let ghost mid = self@;
        let ghost mid_events = events@;
        self.enemy_follow_up(enemy_index, intent, momentum, scaled_block, scaled_prime, scaled_bleed, events);
        proof {
            lemma_step_frame_trans(origin, mid, self@, 0, 0, 0, 300);
            lemma_appends_trans(oe, mid_events, events@);
            assert(advances_only(mid_events, oe.len() as int, Some(enemy_index)));
            lemma_advances_extend(mid_events, events@, oe.len() as int, Some(enemy_index));
        }
    }

    /// An enemy's hits on the player, stopping once the player is down.
    fn enemy_hits(&mut self, enemy_index: usize, scaled_damage: i32, hits: u8, events: &mut Vec<CombatEvent>)
        requires
            old(self)@.wf(),
            enemy_index < old(self).enemies.len(),
            -AMOUNT_LIMIT <= scaled_damage <= AMOUNT_LIMIT,
        ensures
            final(self)@ == spec_enemy_hits(old(self)@, enemy_index as int, scaled_damage, hits as nat),
            step_frame(old(self)@, final(self)@, 0, 0),
            final(self)@.deck == old(self)@.deck,
            final(self)@.rng == old(self)@.rng,
            final(self).player.energy == old(self).player.energy,
            final(self).player.max_energy == old(self).player.max_energy,
            forall|j: int|
                0 <= j < old(self).enemies.len() && j != enemy_index ==> #[trigger] final(self)@.enemies[j]
                    == old(self)@.enemies[j],
            final(self)@.enemies[enemy_index as int] == (EnemyState {
                on_hit_bleed: final(self)@.enemies[enemy_index as int].on_hit_bleed,
                ..old(self)@.enemies[enemy_index as int]
            }),
            appends(final(events)@, old(events)@),
            advances_only(final(events)@, old(events)@.len() as int, None),
    {
        let ghost origin = self@;
        let ghost oe = events@;
        let ghost enemy = self@.enemies[enemy_index as int];
        proof {
            assert(oe.subrange(0, oe.len() as int) =~= oe);
        }
        let mut hit: u8 = 0;
        while hit < hits
            invariant_except_break
                spec_enemy_hits(self@, enemy_index as int, scaled_damage, (hits - hit) as nat)
                    == spec_enemy_hits(origin, enemy_index as int, scaled_damage, hits as nat),
            invariant
                step_frame(origin, self@, 0, 0),
                self@.deck == origin.deck,
                self@.rng == origin.rng,
                self.player.energy == origin.player.energy,
                self.player.max_energy == origin.player.max_energy,
                enemy_index < origin.enemies.len(),
                enemy == origin.enemies[enemy_index as int],
                forall|j: int| 0 <= j < origin.enemies.len() && j != enemy_index ==> #[trigger] self@.enemies[j] == origin.enemies[j],
                self@.enemies[enemy_index as int] == (EnemyState { on_hit_bleed: self@.enemies[enemy_index as int].on_hit_bleed, ..enemy }),
                appends(events@, oe),
                advances_only(events@, oe.len() as int, None),
                -AMOUNT_LIMIT <= scaled_damage <= AMOUNT_LIMIT,
                hit <= hits,
            ensures
                self@ == spec_enemy_hits(origin, enemy_index as int, scaled_damage, hits as nat),
            decreases hits - hit,
        {
            if scaled_damage <= 0 {
                break;
            }
            let ghost before = self@;
            let ghost before_events = events@;
            self.enemy_attack(enemy_index, scaled_damage, events);
            proof {
                lemma_step_frame_trans(origin, before, self@, 0, 0, 0, 0);
                lemma_appends_trans(oe, before_events, events@);
                lemma_advances_extend(before_events, events@, oe.len() as int, None);
            }
            if hit + 1 < hits && self.player.fighter.hp <= 0 {
                break;
            }
            hit = hit + 1;
        }
    }

    /// What an enemy does after its hits when the player still stands: its own effects, then
    /// those it inflicts on the player, then the advance of its rotation.
    fn enemy_follow_up(
        &mut self,
        enemy_index: usize,
        intent: EnemyIntent,
        momentum: i8,
        scaled_block: i32,
        scaled_prime: u8,
        scaled_bleed: u8,
        events: &mut Vec<CombatEvent>,
    )
        requires
            old(self)@.wf(),
            enemy_index < old(self).enemies.len(),
            old(self).enemies[enemy_index as int].fighter.block <= PLAY_BLOCK_LIMIT,
            intent_in_bounds(intent),
            -9 <= momentum <= 9,
            0 <= scaled_block <= 60,
        ensures
            final(self)@ == spec_enemy_inflicted_effects(spec_enemy_own_effects(old(self)@, enemy_index as int, intent, momentum, scaled_block, scaled_prime), enemy_index as int, intent, momentum, scaled_bleed),
            step_frame(old(self)@, final(self)@, 0, 300),
            final(self)@.deck == old(self)@.deck,
            final(self)@.rng == old(self)@.rng,
            final(self).player.energy == old(self).player.energy,
            final(self).player.max_energy == old(self).player.max_energy,
            final(self).player.fighter.hp == old(self).player.fighter.hp,
            forall|j: int|
                0 <= j < old(self).enemies.len() && j != enemy_index ==> #[trigger] final(self)@.enemies[j]
                    == old(self)@.enemies[j],
            final(self)@.enemies[enemy_index as int].profile == old(self)@.enemies[enemy_index as int].profile,
            final(self)@.enemies[enemy_index as int].fighter.hp == old(self)@.enemies[enemy_index as int].fighter.hp,
            final(self)@.enemies[enemy_index as int].intent_index == ((old(self)@.enemies[enemy_index as int].intent_index
                + 1) % 3) as usize,
            appends(final(events)@, old(events)@),
            advances_only(final(events)@, old(events)@.len() as int, Some(enemy_index)),
    {
        let ghost origin = self@;
        let ghost oe = events@;
        self.enemy_own_effects(enemy_index, intent, momentum, scaled_block, scaled_prime, events);
        let ghost mid = self@;
        let ghost mid_events = events@;
        self.enemy_inflicted_effects(enemy_index, intent, momentum, scaled_bleed, events);
        proof {
            lemma_step_frame_trans(origin, mid, self@, 0, 300, 0, 0);
            lemma_appends_trans(oe, mid_events, events@);
            assert(advances_only(mid_events, oe.len() as int, Some(enemy_index)));
            lemma_advances_extend(mid_events, events@, oe.len() as int, Some(enemy_index));
        }
    }

    /// An enemy's block, its changes to its own axes and a newly primed Bleed.
    fn enemy_own_effects(
        &mut self,
        enemy_index: usize,
        intent: EnemyIntent,
        momentum: i8,
        scaled_block: i32,
        scaled_prime: u8,
        events: &mut Vec<CombatEvent>,
    )
        requires
            old(self)@.wf(),
            enemy_index < old(self).enemies.len(),
            old(self).enemies[enemy_index as int].fighter.block <= PLAY_BLOCK_LIMIT,
            intent_in_bounds(intent),
            -9 <= momentum <= 9,
            0 <= scaled_block <= 60,
        ensures
            final(self)@ == spec_enemy_own_effects(old(self)@, enemy_index as int, intent, momentum, scaled_block, scaled_prime),
            step_frame(old(self)@, final(self)@, 0, 300),
            acting_frame(old(self)@, final(self)@, enemy_index as int),
            final(self)@.enemies[enemy_index as int].intent_index == old(self)@.enemies[enemy_index as int].intent_index,
            appends(final(events)@, old(events)@),
            advances_only(final(events)@, old(events)@.len() as int, None),
    {
        let ghost origin = self@;
        let ghost oe = events@;
        proof {
            assert(oe.subrange(0, oe.len() as int) =~= oe);
        }
        let enemy_actor = Actor::Enemy(enemy_index);
        if scaled_block > 0 {
            let ghost before_events = events@;
            self.gain_block(enemy_actor, scaled_block, events);
            proof {
                lemma_set_fighter_frame(origin, enemy_actor, self@.fighter(enemy_actor), 0, 300);
                lemma_appends_trans(oe, before_events, events@);
                lemma_advances_extend(before_events, events@, oe.len() as int, None);
                assert forall|j: int| 0 <= j < origin.enemies.len() && j != enemy_index implies #[trigger] self@.enemies[j]
                    == origin.enemies[j] by {}
            }
        } else {
            proof {
                assert(step_frame(origin, self@, 0, 300));
            }
        }
        let self_focus = scale_intent_axis_delta(intent.self_focus(), momentum);
        if self_focus != 0 {
            self.status_step(Ghost(origin), Ghost(oe), enemy_index, enemy_actor, StatusKind::Focus, self_focus, events);
        }
        let self_rhythm = scale_intent_axis_delta(intent.self_rhythm(), momentum);
        if self_rhythm != 0 {
            self.status_step(Ghost(origin), Ghost(oe), enemy_index, enemy_actor, StatusKind::Rhythm, self_rhythm, events);
        }
        let self_momentum = scale_intent_axis_delta(intent.self_momentum(), momentum);
        if self_momentum != 0 {
            self.status_step(Ghost(origin), Ghost(oe), enemy_index, enemy_actor, StatusKind::Momentum, self_momentum, events);
        }
        if scaled_prime > 0 {
            let ghost before = self@;
            let mut primed = self.enemies[enemy_index];
            primed.on_hit_bleed = scaled_prime;
            self.enemies.set(enemy_index, primed);
            let ghost before_events = events@;
            events.push(CombatEvent::EnemyPrimedBleed { enemy_index, amount: scaled_prime });
            proof {
                assert(self@ == CombatModel { enemies: before.enemies.update(enemy_index as int, primed), ..before });
                lemma_enemy_meta_frame(before, enemy_index as int, primed);
                lemma_step_frame_trans(origin, before, self@, 0, 300, 0, 0);
                assert(events@.subrange(0, before_events.len() as int) =~= before_events);
                lemma_appends_trans(oe, before_events, events@);
                lemma_advances_extend(before_events, events@, oe.len() as int, None);
                assert forall|j: int| 0 <= j < origin.enemies.len() && j != enemy_index implies #[trigger] self@.enemies[j]
                    == origin.enemies[j] by {
                    assert(self@.enemies[j] == before.enemies[j]);
                }
            }
        }
    }

    /// The changes an enemy inflicts on the player, and the advance of its rotation.
    fn enemy_inflicted_effects(
        &mut self,
        enemy_index: usize,
        intent: EnemyIntent,
        momentum: i8,
        scaled_bleed: u8,
        events: &mut Vec<CombatEvent>,
    )
        requires
            old(self)@.wf(),
            enemy_index < old(self).enemies.len(),
            intent_in_bounds(intent),
            -9 <= momentum <= 9,
        ensures
            final(self)@ == spec_enemy_inflicted_effects(old(self)@, enemy_index as int, intent, momentum, scaled_bleed),
            step_frame(old(self)@, final(self)@, 0, 0),
            final(self)@.deck == old(self)@.deck,
            final(self)@.rng == old(self)@.rng,
            final(self).player.energy == old(self).player.energy,
            final(self).player.max_energy == old(self).player.max_energy,
            final(self).player.fighter.hp == old(self).player.fighter.hp,
            forall|j: int|
                0 <= j < old(self).enemies.len() && j != enemy_index ==> #[trigger] final(self)@.enemies[j]
                    == old(self)@.enemies[j],
            final(self)@.enemies[enemy_index as int].profile == old(self)@.enemies[enemy_index as int].profile,
            final(self)@.enemies[enemy_index as int].fighter.hp == old(self)@.enemies[enemy_index as int].fighter.hp,
            final(self)@.enemies[enemy_index as int].intent_index == ((old(self)@.enemies[enemy_index as int].intent_index
                + 1) % 3) as usize,
            appends(final(events)@, old(events)@),
            advances_only(final(events)@, old(events)@.len() as int, Some(enemy_index)),
    {
        let ghost origin = self@;
        let ghost oe = events@;
        proof {
            assert(oe.subrange(0, oe.len() as int) =~= oe);
            assert(step_frame(origin, origin, 0, 300));
        }
        let target_focus = scale_intent_axis_delta(intent.target_focus(), momentum);
        if target_focus != 0 {
            self.status_step(Ghost(origin), Ghost(oe), enemy_index, Actor::Player, StatusKind::Focus, target_focus, events);
        }
        let target_rhythm = scale_intent_axis_delta(intent.target_rhythm(), momentum);
        if target_rhythm != 0 {
            self.status_step(Ghost(origin), Ghost(oe), enemy_index, Actor::Player, StatusKind::Rhythm, target_rhythm, events);
        }
        let target_momentum = scale_intent_axis_delta(intent.target_momentum(), momentum);
        if target_momentum != 0 {
            self.status_step(Ghost(origin), Ghost(oe), enemy_index, Actor::Player, StatusKind::Momentum, target_momentum, events);
        }
        if scaled_bleed > 0 {
            #[verifier::truncate]
            let stacks = scaled_bleed as i8;
            self.status_step(Ghost(origin), Ghost(oe), enemy_index, Actor::Player, StatusKind::Bleed, stacks, events);
        }
        let ghost before = self@;
        let mut advanced = self.enemies[enemy_index];
        advanced.intent_index = (advanced.intent_index + 1) % 3;
        self.enemies.set(enemy_index, advanced);
        proof {
            assert(self@ == CombatModel { enemies: before.enemies.update(enemy_index as int, advanced), ..before });
            lemma_enemy_meta_frame(before, enemy_index as int, advanced);
            lemma_step_frame_trans(origin, before, self@, 0, 300, 0, 0);
            assert forall|j: int| 0 <= j < origin.enemies.len() && j != enemy_index implies #[trigger] self@.enemies[j]
                == origin.enemies[j] by {
                assert(self@.enemies[j] == before.enemies[j]);
            }
            assert(before.enemies == origin.enemies);
            assert forall|i: int| 0 <= i < origin.enemies.len() implies #[trigger] self@.enemies[i].fighter.block
                <= origin.enemies[i].fighter.block + 0 by {
                if i != enemy_index {
                    assert(self@.enemies[i] == origin.enemies[i]);
                }
            }
        }
        let next = enemy_intent(advanced.profile, advanced.intent_index);
        let ghost before_events = events@;
        events.push(CombatEvent::IntentAdvanced { enemy_index, intent: next });
        proof {
            assert(events@.subrange(0, before_events.len() as int) =~= before_events);
            lemma_appends_trans(oe, before_events, events@);
            assert(advances_only(before_events, oe.len() as int, Some(enemy_index)));
            lemma_advances_extend(before_events, events@, oe.len() as int, Some(enemy_index));
        }
    }

    /// A status change made while an enemy acts, on the player or on the acting enemy.
    fn status_step(
        &mut self,
        Ghost(origin): Ghost<CombatModel>,
        Ghost(oe): Ghost<Seq<CombatEvent>>,
        enemy_index: usize,
        actor: Actor,
        status: StatusKind,
        amount: i8,
        events: &mut Vec<CombatEvent>,
    )
        requires
            step_frame(origin, old(self)@, 0, 300),
            appends(old(events)@, oe),
            0 <= oe.len(),
            advances_only(old(events)@, oe.len() as int, None),
            enemy_index < origin.enemies.len(),
            actor == Actor::Player || actor == Actor::Enemy(enemy_index),
            acting_frame(origin, old(self)@, enemy_index as int),
        ensures
            advances_only(final(events)@, oe.len() as int, None),
            final(self)@ == spec_status_on(old(self)@, actor, status, amount),
            step_frame(origin, final(self)@, 0, 300),
            appends(final(events)@, oe),
            acting_frame(origin, final(self)@, enemy_index as int),
            final(self)@.enemies[enemy_index as int].intent_index == old(self)@.enemies[enemy_index as int].intent_index,
            actor is Player ==> final(self)@.enemies == old(self)@.enemies,
    {
        let ghost before = self@;
        let ghost before_events = events@;
        self.apply_status(actor, status, amount, events);
        proof {
            assert(events@.subrange(0, before_events.len() as int) =~= before_events);
            lemma_appends_trans(oe, before_events, events@);
            lemma_advances_extend(before_events, events@, oe.len() as int, None);
            lemma_set_fighter_frame(before, actor, self@.fighter(actor), 0, 0);
            lemma_step_frame_trans(origin, before, self@, 0, 300, 0, 0);
            assert forall|j: int| 0 <= j < origin.enemies.len() && j != enemy_index implies #[trigger] self@.enemies[j]
                == origin.enemies[j] by {
                assert(self@.enemies[j] == before.enemies[j]);
            }
        }
    }

    /// Every enemy standing when the turn began acts in slot order, stopping once the player
    /// is down; the enemies' turn then ends.
    pub fn resolve_enemy_intent(&mut self, events: &mut Vec<CombatEvent>)
        requires
            old(self)@.wf(),
            old(self)@.blocks_at_most(PLAY_BLOCK_LIMIT as int),
        ensures
            final(self)@ == spec_enemies_act(old(self)@, 0, old(self)@.enemies.len()),
            step_frame(old(self)@, final(self)@, 0, 300),
            final(self)@.deck == old(self)@.deck,
            final(self)@.rng == old(self)@.rng,
            final(self).player.energy == old(self).player.energy,
            final(self).player.max_energy == old(self).player.max_energy,
            appends(final(events)@, old(events)@),
            advances_match(final(events)@, old(events)@.len() as int, old(self)@, final(self)@),
    {
        let ghost origin = self@;
        let ghost oe = events@;
        proof {
            assert(oe.subrange(0, oe.len() as int) =~= oe);
            assert(step_frame(origin, origin, 0, 300));
        }
        let count = self.enemies.len();
        let mut i: usize = 0;
        while i < count
            invariant_except_break
                spec_enemies_act(self@, i as nat, count as nat) == spec_enemies_act(origin, 0, count as nat),
            invariant
                i <= count,
                count == origin.enemies.len(),
                origin.blocks_at_most(PLAY_BLOCK_LIMIT as int),
                step_frame(origin, self@, 0, 300),
                self@.deck == origin.deck,
                self@.rng == origin.rng,
                self.player.energy == origin.player.energy,
                self.player.max_energy == origin.player.max_energy,
                forall|j: int| i <= j < count ==> #[trigger] self@.enemies[j] == origin.enemies[j],
                appends(events@, oe),
                advances_match(events@, oe.len() as int, origin, self@),
                self@.enemies.len() == count,
            ensures
                self@ == spec_enemies_act(origin, 0, count as nat),
            decreases count - i,
        {
            let alive = self.enemies[i].fighter.hp > 0;
            if alive {
                let ghost before = self@;
                let ghost before_events = events@;
                self.resolve_enemy_intent_at(i, events);
                proof {
                    lemma_appends_trans(oe, before_events, events@);
                    lemma_advances_step(before_events, events@, oe.len() as int, origin, before, self@, i);
                    assert forall|j: int| 0 <= j < count implies #[trigger] self@.enemies[j].fighter.block
                        <= origin.enemies[j].fighter.block + 300 && self@.enemies[j].fighter.hp
                        <= origin.enemies[j].fighter.hp by {
                        if j != i {
                            assert(self@.enemies[j] == before.enemies[j]);
                        }
                    }
                }
            }
            i = i + 1;
            if alive && self.player.fighter.hp <= 0 {
                break;
            }
        }
        let ghost before_events = events@;
        self.end_turn(Actor::Enemy(0), events);
        proof {
            lemma_appends_trans(oe, before_events, events@);
            lemma_advances_match_extend(before_events, events@, oe.len() as int, origin, self@);
        }
    }
}

/// An enemy whose intent primes Bleed arms its next hit: once it has acted and the player still
/// stands, its next hit is set to apply its intent's primed Bleed, scaled by the Momentum it
/// acted with.
pub proof fn law_primed_bleed_arms_the_next_hit(m: CombatModel, e: int)
    requires
        m.wf(),
        0 <= e < m.enemies.len(),
        spec_scale_axis_value(
            spec_enemy_intent(m.enemies[e].profile, m.enemies[e].intent_index).prime_bleed as i32,
            m.enemies[e].fighter.statuses.momentum,
        ) > 0,
        spec_enemy_acts(m, e).player.fighter.hp > 0,
    ensures
        spec_enemy_acts(m, e).enemies[e].on_hit_bleed == spec_scale_axis_value(
            spec_enemy_intent(m.enemies[e].profile, m.enemies[e].intent_index).prime_bleed as i32,
            m.enemies[e].fighter.statuses.momentum,
        ),
{
    let enemy = m.enemies[e];
    let intent = spec_enemy_intent(enemy.profile, enemy.intent_index);
    lemma_enemy_intent_bounds(enemy.profile, enemy.intent_index);
    lemma_scale_bounds(intent.prime_bleed as i32, enemy.fighter.statuses.momentum);
    lemma_resolved_bounds(enemy);
}

/// An enemy's hits change no enemy's fighter, profile or rotation slot.
pub proof fn lemma_enemy_hits_keep_enemies(m: CombatModel, e: int, damage: i32, hits: nat)
    requires
        0 <= e < m.enemies.len(),
    ensures
        spec_enemy_hits(m, e, damage, hits).enemies.len() == m.enemies.len(),
        forall|j: int|
            0 <= j < m.enemies.len() ==> (#[trigger] spec_enemy_hits(m, e, damage, hits).enemies[j]).fighter == m.enemies[j].fighter
                && spec_enemy_hits(m, e, damage, hits).enemies[j].profile == m.enemies[j].profile
                && spec_enemy_hits(m, e, damage, hits).enemies[j].intent_index == m.enemies[j].intent_index,
    decreases hits,
{
    if hits > 0 && damage > 0 {
        let next = spec_enemy_attack(m, e, damage);
        assert(next.enemies.len() == m.enemies.len());
        assert forall|j: int| 0 <= j < m.enemies.len() implies (#[trigger] next.enemies[j]).fighter == m.enemies[j].fighter
            && next.enemies[j].profile == m.enemies[j].profile && next.enemies[j].intent_index == m.enemies[j].intent_index by {}
        if next.player.fighter.hp > 0 {
            lemma_enemy_hits_keep_enemies(next, e, damage, (hits - 1) as nat);
        }
    }
}

/// Each of an enemy's hits takes its Focus-scaled damage from the player's hit points and block
/// together, while the player outlasts them all.
pub proof fn lemma_enemy_hits_add_up(m: CombatModel, e: int, damage: i32, hits: nat)
    requires
        fighter_wf(m.player.fighter),
        0 <= e < m.enemies.len(),
        damage > 0,
        0 <= spec_scale_damage_amount(damage, m.enemies[e].fighter.statuses),
        m.player.fighter.hp > 0,
        m.player.fighter.hp + m.player.fighter.block > hits * spec_scale_damage_amount(damage, m.enemies[e].fighter.statuses),
    ensures
        spec_enemy_hits(m, e, damage, hits).player.fighter.hp > 0,
        spec_enemy_hits(m, e, damage, hits).player.fighter.hp + spec_enemy_hits(m, e, damage, hits).player.fighter.block
            == m.player.fighter.hp + m.player.fighter.block - hits * spec_scale_damage_amount(damage, m.enemies[e].fighter.statuses),
    decreases hits,
{
    let s = spec_scale_damage_amount(damage, m.enemies[e].fighter.statuses);
    if hits > 0 {
        let next = spec_enemy_attack(m, e, damage);
        assert(hits * s == (hits - 1) * s + s) by (nonlinear_arith);
        assert((hits - 1) * s >= 0) by (nonlinear_arith)
            requires
                hits >= 1,
                s >= 0,
        ;
        assert(next.player.fighter.hp + next.player.fighter.block == m.player.fighter.hp + m.player.fighter.block - s);
        assert(next.player.fighter.hp > 0);
        assert(next.enemies[e].fighter == m.enemies[e].fighter);
        assert(spec_enemy_hits(m, e, damage, hits) == spec_enemy_hits(next, e, damage, (hits - 1) as nat));
        lemma_enemy_hits_add_up(next, e, damage, (hits - 1) as nat);
    } else {
        assert(hits * s == 0) by (nonlinear_arith)
            requires
                hits == 0,
        ;
    }
}

/// An enemy's attack takes its whole damage: an intent of `hits` hits of its (Momentum-scaled,
/// then Focus-scaled) damage takes that damage once per hit from the player's hit points and
/// block together, while the player outlasts them all.
pub proof fn law_enemy_attack_lands_every_hit(m: CombatModel, e: int)
    requires
        m.wf(),
        0 <= e < m.enemies.len(),
        spec_scale_axis_value(
            spec_enemy_intent(m.enemies[e].profile, m.enemies[e].intent_index).damage,
            m.enemies[e].fighter.statuses.momentum,
        ) > 0,
        m.player.fighter.hp > 0,
        m.player.fighter.hp + m.player.fighter.block > spec_enemy_intent(m.enemies[e].profile, m.enemies[e].intent_index).hits
            * spec_scale_damage_amount(
            spec_scale_axis_value(
                spec_enemy_intent(m.enemies[e].profile, m.enemies[e].intent_index).damage,
                m.enemies[e].fighter.statuses.momentum,
            ) as i32,
            m.enemies[e].fighter.statuses,
        ),
    ensures
        spec_enemy_acts(m, e).player.fighter.hp + spec_enemy_acts(m, e).player.fighter.block == m.player.fighter.hp
            + m.player.fighter.block - spec_enemy_intent(m.enemies[e].profile, m.enemies[e].intent_index).hits
            * spec_scale_damage_amount(
            spec_scale_axis_value(
                spec_enemy_intent(m.enemies[e].profile, m.enemies[e].intent_index).damage,
                m.enemies[e].fighter.statuses.momentum,
            ) as i32,
            m.enemies[e].fighter.statuses,
        ),
{
    let enemy = m.enemies[e];
    let intent = spec_enemy_intent(enemy.profile, enemy.intent_index);
    lemma_enemy_intent_bounds(enemy.profile, enemy.intent_index);
    lemma_scale_bounds(intent.damage, enemy.fighter.statuses.momentum);
    lemma_resolved_bounds(enemy);
    let d = spec_resolved_intent(enemy).damage;
    lemma_scale_bounds(d, enemy.fighter.statuses.focus);
    lemma_enemy_hits_add_up(m, e, d, intent.hits as nat);
    lemma_enemy_hits_keep_enemies(m, e, d, intent.hits as nat);
}

/// An enemy whose intent gains block gains it: once it has acted and the player still stands,
/// its block has grown by its intent's block gain, scaled by the Momentum it acted with and then
/// by its Rhythm.
pub proof fn law_enemy_gains_its_block(m: CombatModel, e: int)
    requires
        m.wf(),
        0 <= e < m.enemies.len(),
        e <= usize::MAX,
        m.enemies[e].fighter.block <= PLAY_BLOCK_LIMIT,
        spec_enemy_acts(m, e).player.fighter.hp > 0,
    ensures
        ({
            let enemy = m.enemies[e];
            let gain = spec_scale_axis_value(
                spec_enemy_intent(enemy.profile, enemy.intent_index).gain_block,
                enemy.fighter.statuses.momentum,
            );
            let adjusted = spec_scale_axis_value(gain as i32, enemy.fighter.statuses.rhythm);
            spec_enemy_acts(m, e).enemies[e].fighter.block == enemy.fighter.block + (if gain > 0 && adjusted > 0 {
                adjusted
            } else {
                0
            })
        }),
{
    let enemy = m.enemies[e];
    let intent = spec_enemy_intent(enemy.profile, enemy.intent_index);
    lemma_enemy_intent_bounds(enemy.profile, enemy.intent_index);
    lemma_scale_bounds(intent.gain_block, enemy.fighter.statuses.momentum);
    lemma_resolved_bounds(enemy);
    let r = spec_resolved_intent(enemy);
    lemma_scale_bounds(r.gain_block, enemy.fighter.statuses.rhythm);
    lemma_enemy_hits_keep_enemies(m, e, r.damage, r.hits as nat);
    let momentum = enemy.fighter.statuses.momentum;
    let hit = spec_enemy_hits(m, e, r.damage, r.hits as nat);
    assert(hit.enemies[e].fighter == enemy.fighter);
    assert(hit.player.fighter.hp > 0);
    let own = spec_enemy_own_effects(hit, e, intent, momentum, r.gain_block, r.prime_bleed);
    let adjusted = spec_scale_axis_value(r.gain_block, enemy.fighter.statuses.rhythm);
    let actor = Actor::Enemy(e as usize);
    let s1 = if r.gain_block > 0 { hit.set_fighter(actor, spec_after_block_gain(hit.fighter(actor), r.gain_block)) } else { hit };
    assert(s1.enemies[e].fighter.block == enemy.fighter.block + (if r.gain_block > 0 && adjusted > 0 { adjusted } else { 0 }));
    let focus = spec_scale_intent_axis_delta(intent.spec_self_focus(), momentum);
    let s2 = if focus != 0 { spec_status_on(s1, actor, StatusKind::Focus, focus) } else { s1 };
    assert(s2.enemies[e].fighter.block == s1.enemies[e].fighter.block);
    let rhythm = spec_scale_intent_axis_delta(intent.spec_self_rhythm(), momentum);
    let s3 = if rhythm != 0 { spec_status_on(s2, actor, StatusKind::Rhythm, rhythm) } else { s2 };
    assert(s3.enemies[e].fighter.block == s1.enemies[e].fighter.block);
    let own_momentum = spec_scale_intent_axis_delta(intent.spec_self_momentum(), momentum);
    let s4 = if own_momentum != 0 { spec_status_on(s3, actor, StatusKind::Momentum, own_momentum) } else { s3 };
    assert(s4.enemies[e].fighter.block == s1.enemies[e].fighter.block);
    assert(own.enemies[e].fighter.block == enemy.fighter.block + (if r.gain_block > 0 && adjusted > 0 { adjusted } else { 0 }));
    let after = spec_enemy_inflicted_effects(own, e, intent, momentum, r.apply_bleed);
    assert(after == spec_enemy_acts(m, e));
    assert(after.enemies[e].fighter.block == own.enemies[e].fighter.block);
}

/// A primed Bleed lands with the next hit and only once: an enemy attack with a primed Bleed adds
/// it to the player's Bleed (up to the 255 cap) and clears the primer; without one the player's
/// Bleed is untouched.
pub proof fn law_primed_bleed_lands_once(m: CombatModel, e: int, amount: i32)
    requires
        0 <= e < m.enemies.len(),
    ensures
        m.enemies[e].on_hit_bleed > 0 ==> spec_enemy_attack(m, e, amount).enemies[e].on_hit_bleed == 0,
        0 < m.enemies[e].on_hit_bleed <= 127 && m.player.fighter.statuses.bleed + m.enemies[e].on_hit_bleed <= 255
            ==> spec_enemy_attack(m, e, amount).player.fighter.statuses.bleed == m.player.fighter.statuses.bleed
            + m.enemies[e].on_hit_bleed,
        m.enemies[e].on_hit_bleed == 0 ==> spec_enemy_attack(m, e, amount).player.fighter.statuses.bleed
            == m.player.fighter.statuses.bleed,
{
    let b = m.enemies[e].on_hit_bleed;
    if 0 < b <= 127 {
        assert((b as i8) as int == b as int) by (bit_vector)
            requires
                0 < b <= 127u8,
        ;
    }
}

} // verus!
