//! What each card does once it is paid for.
use vstd::prelude::*;

use crate::content::{AxisKind, CardId, spec_card_def};
use crate::combat::{Actor, CombatEvent, CombatModel, CombatState, DeckModel, EnemyState, FighterState, MAX_HAND_CARDS, PLAY_BLOCK_LIMIT, PlayerState, StatusKind, StatusSet, appends, is_alive, lemma_appends_trans, lemma_scale_bounds, lemma_set_fighter_frame, lemma_step_frame_trans, spec_after_block_gain, spec_after_damage, spec_after_piercing, spec_clamp_axis, spec_scale_axis_value, spec_scale_damage_amount, spec_status_after, spec_with_axis, step_frame};

verus! {

/// Progress through one card's effects: the combat `cur` stays in the step frame of `origin`
/// with `used` block added so far, and the events only grew.
pub open spec fn effects_on_track(
    origin: CombatModel,
    origin_events: Seq<CombatEvent>,
    used: int,
    cur: CombatModel,
    cur_events: Seq<CombatEvent>,
) -> bool {
    &&& origin.wf()
    &&& origin.player.fighter.block <= PLAY_BLOCK_LIMIT
    &&& 0 <= used <= 300
    &&& step_frame(origin, cur, used, 0)
    &&& appends(cur_events, origin_events)
    &&& deck_grows(origin.deck, cur.deck)
}

/// A card's effects only add to the deck: the draw pile is untouched, and the hand and the
/// discard pile keep what they held, with created cards after it.
pub open spec fn deck_grows(before: DeckModel, after: DeckModel) -> bool {
    &&& after.draw_pile == before.draw_pile
    &&& after.hand.len() >= before.hand.len()
    &&& after.hand.subrange(0, before.hand.len() as int) == before.hand
    &&& after.discard_pile.len() >= before.discard_pile.len()
    &&& after.discard_pile.subrange(0, before.discard_pile.len() as int) == before.discard_pile
}

pub proof fn lemma_deck_grows_push(before: DeckModel, mid: DeckModel, after: DeckModel, c: CardId)
    requires
        deck_grows(before, mid),
        after.draw_pile == mid.draw_pile,
        after.hand == mid.hand || after.hand == mid.hand.push(c),
        after.discard_pile == mid.discard_pile || after.discard_pile == mid.discard_pile.push(c),
    ensures
        deck_grows(before, after),
{
    assert(after.hand.subrange(0, before.hand.len() as int) =~= mid.hand.subrange(0, before.hand.len() as int));
    assert(after.discard_pile.subrange(0, before.discard_pile.len() as int) =~= mid.discard_pile.subrange(
        0,
        before.discard_pile.len() as int,
    ));
}

/// The living enemies stepped by `g`, the fallen ones left as they are.
pub open spec fn map_living_enemies(enemies: Seq<EnemyState>, g: spec_fn(FighterState) -> FighterState) -> Seq<EnemyState> {
    Seq::new(enemies.len(), |i: int| if is_alive(enemies[i]) { EnemyState { fighter: g(enemies[i].fighter), ..enemies[i] } } else { enemies[i] })
}

/// A card's hit of `amount` on enemy `enemy`, scaled by the player's Focus; block absorbs first.
pub open spec fn spec_fx_hit(m: CombatModel, enemy: usize, amount: i32) -> CombatModel {
    m.set_fighter(
        Actor::Enemy(enemy),
        spec_after_damage(m.fighter(Actor::Enemy(enemy)), spec_scale_damage_amount(amount, m.player.fighter.statuses)),
    )
}

/// `amount` of a status applied to enemy `enemy`.
pub open spec fn spec_fx_enemy_status(m: CombatModel, enemy: usize, status: StatusKind, amount: i8) -> CombatModel {
    m.set_fighter(
        Actor::Enemy(enemy),
        FighterState { statuses: spec_status_after(m.fighter(Actor::Enemy(enemy)).statuses, status, amount), ..m.fighter(Actor::Enemy(enemy)) },
    )
}

/// `amount` of a status applied to the player.
pub open spec fn spec_fx_self_status(m: CombatModel, status: StatusKind, amount: i8) -> CombatModel {
    m.set_fighter(
        Actor::Player,
        FighterState { statuses: spec_status_after(m.player.fighter.statuses, status, amount), ..m.player.fighter },
    )
}

/// `amount` of block for the player, scaled by the player's Rhythm.
pub open spec fn spec_fx_block(m: CombatModel, amount: i32) -> CombatModel {
    m.set_fighter(Actor::Player, spec_after_block_gain(m.player.fighter, amount))
}

/// `amount` of energy for the player, scaled by the player's Momentum, saturating at 255.
pub open spec fn spec_fx_energy(m: CombatModel, amount: u8) -> CombatModel {
    CombatModel {
        player: PlayerState {
            energy: if amount == 0 {
                m.player.energy
            } else {
                let scaled = spec_scale_axis_value(amount as i32, m.player.fighter.statuses.momentum);
                let gain = (if scaled < 0 { 0 } else { scaled }) as u8;
                if m.player.energy as int + gain as int > 255 { 255u8 } else { (m.player.energy + gain) as u8 }
            },
            ..m.player
        },
        ..m
    }
}

/// Enemy `enemy`'s Focus set to zero.
pub open spec fn spec_fx_clear_focus(m: CombatModel, enemy: usize) -> CombatModel {
    m.set_fighter(Actor::Enemy(enemy), spec_with_axis(m.fighter(Actor::Enemy(enemy)), AxisKind::Focus, spec_clamp_axis(0)))
}

/// A created card put in hand (in the discard pile when the hand is full), or straight into the discard pile.
pub open spec fn spec_fx_create(m: CombatModel, card: CardId, into_hand: bool) -> CombatModel {
    CombatModel {
        deck: if into_hand && m.deck.hand.len() < MAX_HAND_CARDS {
            DeckModel { hand: m.deck.hand.push(card), ..m.deck }
        } else {
            DeckModel { discard_pile: m.deck.discard_pile.push(card), ..m.deck }
        },
        ..m
    }
}

/// A hit of `amount` on every living enemy, scaled by the player's Focus (ignoring block when `piercing`).
pub open spec fn spec_fx_hit_all(m: CombatModel, amount: i32, piercing: bool) -> CombatModel {
    let scaled = spec_scale_damage_amount(amount, m.player.fighter.statuses);
    CombatModel {
        enemies: map_living_enemies(
            m.enemies,
            |f: FighterState| if piercing { spec_after_piercing(f, scaled) } else { spec_after_damage(f, scaled) },
        ),
        ..m
    }
}

/// `amount` of a status applied to every living enemy.
pub open spec fn spec_fx_status_all(m: CombatModel, status: StatusKind, amount: i8) -> CombatModel {
    CombatModel {
        enemies: map_living_enemies(
            m.enemies,
            |f: FighterState| FighterState { statuses: spec_status_after(f.statuses, status, amount), ..f },
        ),
        ..m
    }
}

/// Momentum set to zero on the player and every living enemy.
pub open spec fn spec_fx_zero_momentum(m: CombatModel) -> CombatModel {
    CombatModel {
        player: PlayerState { fighter: spec_with_axis(m.player.fighter, AxisKind::Momentum, spec_clamp_axis(0)), ..m.player },
        enemies: map_living_enemies(m.enemies, |f: FighterState| spec_with_axis(f, AxisKind::Momentum, spec_clamp_axis(0))),
        ..m
    }
}

impl CombatState {
    /// A card's hit on one enemy.
    fn fx_hit(
        &mut self,
        Ghost(origin): Ghost<CombatModel>,
        Ghost(oe): Ghost<Seq<CombatEvent>>,
        Ghost(used): Ghost<int>,
        enemy: usize,
        amount: i32,
        events: &mut Vec<CombatEvent>,
    )
        requires
            effects_on_track(origin, oe, used, old(self)@, old(events)@),
            enemy < origin.enemies.len(),
            0 <= amount <= 100,
        ensures
            final(self)@ == spec_fx_hit(old(self)@, enemy, amount),
            effects_on_track(origin, oe, used, final(self)@, final(events)@),
    {
        let ghost before = self@;
        let ghost before_events = events@;
        self.damage_enemy(Actor::Player, enemy, amount, events);
        proof {
            lemma_set_fighter_frame(before, Actor::Enemy(enemy), self@.fighter(Actor::Enemy(enemy)), 0, 0);
            lemma_step_frame_trans(origin, before, self@, used, 0, 0, 0);
            lemma_appends_trans(oe, before_events, events@);
        }
    }

    /// A card's status change on one enemy.
    fn fx_enemy_status(
        &mut self,
        Ghost(origin): Ghost<CombatModel>,
        Ghost(oe): Ghost<Seq<CombatEvent>>,
        Ghost(used): Ghost<int>,
        enemy: usize,
        status: StatusKind,
        amount: i8,
        events: &mut Vec<CombatEvent>,
    )
        requires
            effects_on_track(origin, oe, used, old(self)@, old(events)@),
            enemy < origin.enemies.len(),
        ensures
            final(self)@ == spec_fx_enemy_status(old(self)@, enemy, status, amount),
            effects_on_track(origin, oe, used, final(self)@, final(events)@),
    {
        let ghost before = self@;
        let ghost before_events = events@;
        self.apply_enemy_status(enemy, status, amount, events);
        proof {
            lemma_set_fighter_frame(before, Actor::Enemy(enemy), self@.fighter(Actor::Enemy(enemy)), 0, 0);
            lemma_step_frame_trans(origin, before, self@, used, 0, 0, 0);
            lemma_appends_trans(oe, before_events, events@);
        }
    }

    /// A card's status change on the player.
    fn fx_self_status(
        &mut self,
        Ghost(origin): Ghost<CombatModel>,
        Ghost(oe): Ghost<Seq<CombatEvent>>,
        Ghost(used): Ghost<int>,
        status: StatusKind,
        amount: i8,
        events: &mut Vec<CombatEvent>,
    )
        requires
            effects_on_track(origin, oe, used, old(self)@, old(events)@),
        ensures
            final(self)@ == spec_fx_self_status(old(self)@, status, amount),
            effects_on_track(origin, oe, used, final(self)@, final(events)@),
    {
        let ghost before = self@;
        let ghost before_events = events@;
        self.apply_status(Actor::Player, status, amount, events);
        proof {
            assert(events@.subrange(0, before_events.len() as int) =~= before_events);
            lemma_set_fighter_frame(before, Actor::Player, self@.player.fighter, 0, 0);
            lemma_step_frame_trans(origin, before, self@, used, 0, 0, 0);
            lemma_appends_trans(oe, before_events, events@);
        }
    }

    /// Block a card grants the player.
    fn fx_block(
        &mut self,
        Ghost(origin): Ghost<CombatModel>,
        Ghost(oe): Ghost<Seq<CombatEvent>>,
        Ghost(used): Ghost<int>,
        amount: i32,
        events: &mut Vec<CombatEvent>,
    )
        requires
            effects_on_track(origin, oe, used, old(self)@, old(events)@),
            0 <= amount <= 100,
            used + 3 * amount <= 300,
        ensures
            final(self)@ == spec_fx_block(old(self)@, amount),
            effects_on_track(origin, oe, used + 3 * amount, final(self)@, final(events)@),
    {
        let ghost before = self@;
        let ghost before_events = events@;
        self.gain_block(Actor::Player, amount, events);
        proof {
            lemma_set_fighter_frame(before, Actor::Player, self@.player.fighter, 3 * amount, 0);
            lemma_step_frame_trans(origin, before, self@, used, 0, 3 * amount, 0);
            lemma_appends_trans(oe, before_events, events@);
        }
    }

    /// Energy a card refunds.
    fn fx_energy(
        &mut self,
        Ghost(origin): Ghost<CombatModel>,
        Ghost(oe): Ghost<Seq<CombatEvent>>,
        Ghost(used): Ghost<int>,
        amount: u8,
        events: &Vec<CombatEvent>,
    )
        requires
            effects_on_track(origin, oe, used, old(self)@, events@),
        ensures
            final(self)@ == spec_fx_energy(old(self)@, amount),
            effects_on_track(origin, oe, used, final(self)@, events@),
    {
        self.gain_energy(amount);
    }

    /// A card that zeroes one enemy's Focus.
    fn fx_clear_focus(
        &mut self,
        Ghost(origin): Ghost<CombatModel>,
        Ghost(oe): Ghost<Seq<CombatEvent>>,
        Ghost(used): Ghost<int>,
        enemy: usize,
        events: &mut Vec<CombatEvent>,
    )
        requires
            effects_on_track(origin, oe, used, old(self)@, old(events)@),
            enemy < origin.enemies.len(),
        ensures
            final(self)@ == spec_fx_clear_focus(old(self)@, enemy),
            effects_on_track(origin, oe, used, final(self)@, final(events)@),
    {
        let ghost before = self@;
        let ghost before_events = events@;
        self.set_axis(Actor::Enemy(enemy), AxisKind::Focus, 0, events);
        proof {
            lemma_set_fighter_frame(before, Actor::Enemy(enemy), self@.fighter(Actor::Enemy(enemy)), 0, 0);
            lemma_step_frame_trans(origin, before, self@, used, 0, 0, 0);
            lemma_appends_trans(oe, before_events, events@);
        }
    }

    /// A card that creates a card in hand (or, when `into_hand` is false, in the discard pile).
    fn fx_create(
        &mut self,
        Ghost(origin): Ghost<CombatModel>,
        Ghost(oe): Ghost<Seq<CombatEvent>>,
        Ghost(used): Ghost<int>,
        card: CardId,
        into_hand: bool,
        events: &mut Vec<CombatEvent>,
    )
        requires
            effects_on_track(origin, oe, used, old(self)@, old(events)@),
        ensures
            final(self)@ == spec_fx_create(old(self)@, card, into_hand),
            effects_on_track(origin, oe, used, final(self)@, final(events)@),
    {
        let ghost before_events = events@;
        let ghost mid = self@;
        if into_hand {
            self.create_card_in_hand(card, events);
        } else {
            self.create_card_in_discard(card, events);
        }
        proof {
            assert(events@.subrange(0, before_events.len() as int) =~= before_events);
            lemma_appends_trans(oe, before_events, events@);
            lemma_deck_grows_push(origin.deck, mid.deck, self@.deck, card);
        }
    }

    /// A card's hit on every living enemy.
    fn fx_hit_all(
        &mut self,
        Ghost(origin): Ghost<CombatModel>,
        Ghost(oe): Ghost<Seq<CombatEvent>>,
        Ghost(used): Ghost<int>,
        amount: i32,
        piercing: bool,
        events: &mut Vec<CombatEvent>,
    )
        requires
            effects_on_track(origin, oe, used, old(self)@, old(events)@),
            0 <= amount <= 100,
        ensures
            final(self)@ == spec_fx_hit_all(old(self)@, amount, piercing),
            effects_on_track(origin, oe, used, final(self)@, final(events)@),
    {
        let ghost before = self@;
        let ghost before_events = events@;
        self.damage_all_enemies(Actor::Player, amount, events, piercing);
        proof {
            let scaled = spec_scale_damage_amount(amount, before.player.fighter.statuses);
            assert forall|i: int| 0 <= i < before.enemies.len() implies #[trigger] self@.enemies[i].fighter.block
                <= before.enemies[i].fighter.block + 0 && self@.enemies[i].fighter.hp <= before.enemies[i].fighter.hp by {
                assert(self@.enemies[i] == (if is_alive(before.enemies[i]) {
                    EnemyState {
                        fighter: if piercing {
                            spec_after_piercing(before.enemies[i].fighter, scaled)
                        } else {
                            spec_after_damage(before.enemies[i].fighter, scaled)
                        },
                        ..before.enemies[i]
                    }
                } else {
                    before.enemies[i]
                }));
            }
            assert(step_frame(before, self@, 0, 0));
            lemma_step_frame_trans(origin, before, self@, used, 0, 0, 0);
            lemma_appends_trans(oe, before_events, events@);
            assert(self@.enemies =~= spec_fx_hit_all(before, amount, piercing).enemies);
        }
    }

    /// A card's status change on every living enemy.
    fn fx_status_all(
        &mut self,
        Ghost(origin): Ghost<CombatModel>,
        Ghost(oe): Ghost<Seq<CombatEvent>>,
        Ghost(used): Ghost<int>,
        status: StatusKind,
        amount: i8,
        events: &mut Vec<CombatEvent>,
    )
        requires
            effects_on_track(origin, oe, used, old(self)@, old(events)@),
        ensures
            final(self)@ == spec_fx_status_all(old(self)@, status, amount),
            effects_on_track(origin, oe, used, final(self)@, final(events)@),
    {
        let ghost before = self@;
        let ghost before_events = events@;
        self.apply_status_to_all_enemies(status, amount, events);
        proof {
            assert forall|i: int| 0 <= i < before.enemies.len() implies #[trigger] self@.enemies[i].fighter.block
                <= before.enemies[i].fighter.block + 0 && self@.enemies[i].fighter.hp <= before.enemies[i].fighter.hp by {
                assert(self@.enemies[i] == (if is_alive(before.enemies[i]) {
                    EnemyState {
                        fighter: FighterState {
                            statuses: spec_status_after(before.enemies[i].fighter.statuses, status, amount),
                            ..before.enemies[i].fighter
                        },
                        ..before.enemies[i]
                    }
                } else {
                    before.enemies[i]
                }));
            }
            assert(step_frame(before, self@, 0, 0));
            lemma_step_frame_trans(origin, before, self@, used, 0, 0, 0);
            lemma_appends_trans(oe, before_events, events@);
            assert(self@.enemies =~= spec_fx_status_all(before, status, amount).enemies);
        }
    }

    /// A card that zeroes every fighter's Momentum.
    fn fx_zero_momentum(
        &mut self,
        Ghost(origin): Ghost<CombatModel>,
        Ghost(oe): Ghost<Seq<CombatEvent>>,
        Ghost(used): Ghost<int>,
        events: &mut Vec<CombatEvent>,
    )
        requires
            effects_on_track(origin, oe, used, old(self)@, old(events)@),
        ensures
            final(self)@ == spec_fx_zero_momentum(old(self)@),
            effects_on_track(origin, oe, used, final(self)@, final(events)@),
    {
        let ghost before = self@;
        let ghost before_events = events@;
        self.set_all_momentum(0, events);
        proof {
            assert forall|i: int| 0 <= i < before.enemies.len() implies #[trigger] self@.enemies[i].fighter.block
                <= before.enemies[i].fighter.block + 0 && self@.enemies[i].fighter.hp <= before.enemies[i].fighter.hp by {
                assert(self@.enemies[i] == (if is_alive(before.enemies[i]) {
                    EnemyState {
                        fighter: spec_with_axis(before.enemies[i].fighter, AxisKind::Momentum, spec_clamp_axis(0)),
                        ..before.enemies[i]
                    }
                } else {
                    before.enemies[i]
                }));
            }
            assert(step_frame(before, self@, 0, 0));
            lemma_step_frame_trans(origin, before, self@, used, 0, 0, 0);
            lemma_appends_trans(oe, before_events, events@);
            assert(self@.enemies =~= spec_fx_zero_momentum(before).enemies);
        }
    }
}

impl CombatState {
    /// The effects of the cards FlareSlash to Slipstream, in the order the rules apply
    /// them; the returned count is the draw the card asks for afterwards.
    #[verifier::spinoff_prover]
    #[verifier::rlimit(60)]
    fn card_effects_1(&mut self, card: CardId, target: usize, events: &mut Vec<CombatEvent>) -> (draws: u8)
        requires
            old(self)@.wf(),
            old(self).player.fighter.block <= PLAY_BLOCK_LIMIT,
            spec_card_def(card).target is Enemy ==> target < old(self).enemies.len(),
        ensures
            (final(self)@, draws) == spec_card_effects_1(old(self)@, card, target),
            step_frame(old(self)@, final(self)@, 300, 0),
            appends(final(events)@, old(events)@),
            draws <= 3,
            deck_grows(old(self)@.deck, final(self)@.deck),
    {
        proof {
            reveal(spec_card_effects_1);
        }
        let ghost origin = self@;
        let ghost oe = events@;
        let ghost mut used: int = 0;
        proof {
            assert(oe.subrange(0, oe.len() as int) =~= oe);
            assert(origin.deck.hand.subrange(0, origin.deck.hand.len() as int) =~= origin.deck.hand);
            assert(origin.deck.discard_pile.subrange(0, origin.deck.discard_pile.len() as int) =~= origin.deck.discard_pile);
        }
        let mut draws: u8 = 0;
        match card {
            CardId::FlareSlash => {
                self.fx_hit(Ghost(origin), Ghost(oe), Ghost(used), target, 8, events);
            },
            CardId::FlareSlashPlus => {
                self.fx_hit(Ghost(origin), Ghost(oe), Ghost(used), target, 12, events);
            },
            CardId::GuardStep => {
                self.fx_block(Ghost(origin), Ghost(oe), Ghost(used), 8, events);
                proof { used = used + 3 * 8; }
            },
            CardId::GuardStepPlus => {
                self.fx_block(Ghost(origin), Ghost(oe), Ghost(used), 12, events);
                proof { used = used + 3 * 12; }
            },
            CardId::Slipstream => {
                self.fx_self_status(Ghost(origin), Ghost(oe), Ghost(used), StatusKind::Rhythm, 1, events);
                self.fx_block(Ghost(origin), Ghost(oe), Ghost(used), 3, events);
                proof { used = used + 3 * 3; }
                draws = 1;
            },
            _ => {},
        }
        draws
    }

    /// The effects of the cards SlipstreamPlus to QuickStrike, in the order the rules apply
    /// them; the returned count is the draw the card asks for afterwards.
    #[verifier::spinoff_prover]
    #[verifier::rlimit(60)]
    fn card_effects_2(&mut self, card: CardId, target: usize, events: &mut Vec<CombatEvent>) -> (draws: u8)
        requires
            old(self)@.wf(),
            old(self).player.fighter.block <= PLAY_BLOCK_LIMIT,
            spec_card_def(card).target is Enemy ==> target < old(self).enemies.len(),
        ensures
            (final(self)@, draws) == spec_card_effects_2(old(self)@, card, target),
            step_frame(old(self)@, final(self)@, 300, 0),
            appends(final(events)@, old(events)@),
            draws <= 3,
            deck_grows(old(self)@.deck, final(self)@.deck),
    {
        proof {
            reveal(spec_card_effects_2);
        }
        let ghost origin = self@;
        let ghost oe = events@;
        let ghost mut used: int = 0;
        proof {
            assert(oe.subrange(0, oe.len() as int) =~= oe);
            assert(origin.deck.hand.subrange(0, origin.deck.hand.len() as int) =~= origin.deck.hand);
            assert(origin.deck.discard_pile.subrange(0, origin.deck.discard_pile.len() as int) =~= origin.deck.discard_pile);
        }
        let mut draws: u8 = 0;
        match card {
            CardId::SlipstreamPlus => {
                self.fx_self_status(Ghost(origin), Ghost(oe), Ghost(used), StatusKind::Rhythm, 1, events);
                self.fx_block(Ghost(origin), Ghost(oe), Ghost(used), 6, events);
                proof { used = used + 3 * 6; }
                draws = 1;
            },
            CardId::SunderingArc => {
                self.fx_hit(Ghost(origin), Ghost(oe), Ghost(used), target, 16, events);
                self.fx_enemy_status(Ghost(origin), Ghost(oe), Ghost(used), target, StatusKind::Momentum, -1, events);
            },
            CardId::SunderingArcPlus => {
                self.fx_hit(Ghost(origin), Ghost(oe), Ghost(used), target, 21, events);
                self.fx_enemy_status(Ghost(origin), Ghost(oe), Ghost(used), target, StatusKind::Momentum, -1, events);
            },
            CardId::QuickStrike => {
                self.fx_hit(Ghost(origin), Ghost(oe), Ghost(used), target, 7, events);
                draws = 1;
            },
            _ => {},
        }
        draws
    }

    /// The effects of the cards QuickStrikePlus to SignalTap, in the order the rules apply
    /// them; the returned count is the draw the card asks for afterwards.
    #[verifier::spinoff_prover]
    #[verifier::rlimit(60)]
    fn card_effects_3(&mut self, card: CardId, target: usize, events: &mut Vec<CombatEvent>) -> (draws: u8)
        requires
            old(self)@.wf(),
            old(self).player.fighter.block <= PLAY_BLOCK_LIMIT,
            spec_card_def(card).target is Enemy ==> target < old(self).enemies.len(),
        ensures
            (final(self)@, draws) == spec_card_effects_3(old(self)@, card, target),
            step_frame(old(self)@, final(self)@, 300, 0),
            appends(final(events)@, old(events)@),
            draws <= 3,
            deck_grows(old(self)@.deck, final(self)@.deck),
    {
        proof {
            reveal(spec_card_effects_3);
        }
        let ghost origin = self@;
        let ghost oe = events@;
        let ghost mut used: int = 0;
        proof {
            assert(oe.subrange(0, oe.len() as int) =~= oe);
            assert(origin.deck.hand.subrange(0, origin.deck.hand.len() as int) =~= origin.deck.hand);
            assert(origin.deck.discard_pile.subrange(0, origin.deck.discard_pile.len() as int) =~= origin.deck.discard_pile);
        }
        let mut draws: u8 = 0;
        match card {
            CardId::QuickStrikePlus => {
                self.fx_hit(Ghost(origin), Ghost(oe), Ghost(used), target, 9, events);
                draws = 1;
            },
            CardId::PinpointJab => {
                self.fx_hit(Ghost(origin), Ghost(oe), Ghost(used), target, 7, events);
                self.fx_enemy_status(Ghost(origin), Ghost(oe), Ghost(used), target, StatusKind::Bleed, 1, events);
            },
            CardId::PinpointJabPlus => {
                self.fx_hit(Ghost(origin), Ghost(oe), Ghost(used), target, 9, events);
                self.fx_enemy_status(Ghost(origin), Ghost(oe), Ghost(used), target, StatusKind::Bleed, 1, events);
            },
            CardId::SignalTap => {
                self.fx_enemy_status(Ghost(origin), Ghost(oe), Ghost(used), target, StatusKind::Momentum, -1, events);
                draws = 1;
            },
            _ => {},
        }
        draws
    }

    /// The effects of the cards SignalTapPlus to PressurePoint, in the order the rules apply
    /// them; the returned count is the draw the card asks for afterwards.
    #[verifier::spinoff_prover]
    #[verifier::rlimit(60)]
    fn card_effects_4(&mut self, card: CardId, target: usize, events: &mut Vec<CombatEvent>) -> (draws: u8)
        requires
            old(self)@.wf(),
            old(self).player.fighter.block <= PLAY_BLOCK_LIMIT,
            spec_card_def(card).target is Enemy ==> target < old(self).enemies.len(),
        ensures
            (final(self)@, draws) == spec_card_effects_4(old(self)@, card, target),
            step_frame(old(self)@, final(self)@, 300, 0),
            appends(final(events)@, old(events)@),
            draws <= 3,
            deck_grows(old(self)@.deck, final(self)@.deck),
    {
        proof {
            reveal(spec_card_effects_4);
        }
        let ghost origin = self@;
        let ghost oe = events@;
        let ghost mut used: int = 0;
        proof {
            assert(oe.subrange(0, oe.len() as int) =~= oe);
            assert(origin.deck.hand.subrange(0, origin.deck.hand.len() as int) =~= origin.deck.hand);
            assert(origin.deck.discard_pile.subrange(0, origin.deck.discard_pile.len() as int) =~= origin.deck.discard_pile);
        }
        let mut draws: u8 = 0;
        match card {
            CardId::SignalTapPlus => {
                self.fx_enemy_status(Ghost(origin), Ghost(oe), Ghost(used), target, StatusKind::Momentum, -1, events);
                self.fx_block(Ghost(origin), Ghost(oe), Ghost(used), 5, events);
                proof { used = used + 3 * 5; }
                draws = 1;
            },
            CardId::Reinforce => {
                self.fx_self_status(Ghost(origin), Ghost(oe), Ghost(used), StatusKind::Rhythm, 1, events);
                self.fx_block(Ghost(origin), Ghost(oe), Ghost(used), 13, events);
                proof { used = used + 3 * 13; }
            },
            CardId::ReinforcePlus => {
                self.fx_self_status(Ghost(origin), Ghost(oe), Ghost(used), StatusKind::Rhythm, 2, events);
                self.fx_block(Ghost(origin), Ghost(oe), Ghost(used), 18, events);
                proof { used = used + 3 * 18; }
            },
            CardId::PressurePoint => {
                self.fx_hit(Ghost(origin), Ghost(oe), Ghost(used), target, 5, events);
                self.fx_enemy_status(Ghost(origin), Ghost(oe), Ghost(used), target, StatusKind::Focus, -1, events);
            },
            _ => {},
        }
        draws
    }

    /// The effects of the cards PressurePointPlus to CoverPulsePlus, in the order the rules apply
    /// them; the returned count is the draw the card asks for afterwards.
    #[verifier::spinoff_prover]
    #[verifier::rlimit(60)]
    fn card_effects_5(&mut self, card: CardId, target: usize, events: &mut Vec<CombatEvent>) -> (draws: u8)
        requires
            old(self)@.wf(),
            old(self).player.fighter.block <= PLAY_BLOCK_LIMIT,
            spec_card_def(card).target is Enemy ==> target < old(self).enemies.len(),
        ensures
            (final(self)@, draws) == spec_card_effects_5(old(self)@, card, target),
            step_frame(old(self)@, final(self)@, 300, 0),
            appends(final(events)@, old(events)@),
            draws <= 3,
            deck_grows(old(self)@.deck, final(self)@.deck),
    {
        proof {
            reveal(spec_card_effects_5);
        }
        let ghost origin = self@;
        let ghost oe = events@;
        let ghost mut used: int = 0;
        proof {
            assert(oe.subrange(0, oe.len() as int) =~= oe);
            assert(origin.deck.hand.subrange(0, origin.deck.hand.len() as int) =~= origin.deck.hand);
            assert(origin.deck.discard_pile.subrange(0, origin.deck.discard_pile.len() as int) =~= origin.deck.discard_pile);
        }
        let mut draws: u8 = 0;
        match card {
            CardId::PressurePointPlus => {
                self.fx_hit(Ghost(origin), Ghost(oe), Ghost(used), target, 8, events);
                self.fx_enemy_status(Ghost(origin), Ghost(oe), Ghost(used), target, StatusKind::Focus, -2, events);
            },
            CardId::BurstArray => {
                self.fx_hit(Ghost(origin), Ghost(oe), Ghost(used), target, 4, events);
                if self.enemies[target].fighter.hp > 0 {
                    self.fx_hit(Ghost(origin), Ghost(oe), Ghost(used), target, 4, events);
                }
                if self.enemies[target].fighter.hp > 0 {
                    self.fx_hit(Ghost(origin), Ghost(oe), Ghost(used), target, 4, events);
                }
            },
            CardId::BurstArrayPlus => {
                self.fx_hit(Ghost(origin), Ghost(oe), Ghost(used), target, 5, events);
                if self.enemies[target].fighter.hp > 0 {
                    self.fx_hit(Ghost(origin), Ghost(oe), Ghost(used), target, 5, events);
                }
                if self.enemies[target].fighter.hp > 0 {
                    self.fx_hit(Ghost(origin), Ghost(oe), Ghost(used), target, 5, events);
                }
            },
            CardId::CoverPulse => {
                self.fx_block(Ghost(origin), Ghost(oe), Ghost(used), 10, events);
                proof { used = used + 3 * 10; }
                draws = 1;
            },
            CardId::CoverPulsePlus => {
                self.fx_block(Ghost(origin), Ghost(oe), Ghost(used), 13, events);
                proof { used = used + 3 * 13; }
                draws = 1;
            },
            _ => {},
        }
        draws
    }

    /// The effects of the cards TwinStrike to BarrierFieldPlus, in the order the rules apply
    /// them; the returned count is the draw the card asks for afterwards.
    #[verifier::spinoff_prover]
    #[verifier::rlimit(60)]
    fn card_effects_6(&mut self, card: CardId, target: usize, events: &mut Vec<CombatEvent>) -> (draws: u8)
        requires
            old(self)@.wf(),
            old(self).player.fighter.block <= PLAY_BLOCK_LIMIT,
            spec_card_def(card).target is Enemy ==> target < old(self).enemies.len(),
        ensures
            (final(self)@, draws) == spec_card_effects_6(old(self)@, card, target),
            step_frame(old(self)@, final(self)@, 300, 0),
            appends(final(events)@, old(events)@),
            draws <= 3,
            deck_grows(old(self)@.deck, final(self)@.deck),
    {
        proof {
            reveal(spec_card_effects_6);
        }
        let ghost origin = self@;
        let ghost oe = events@;
        let ghost mut used: int = 0;
        proof {
            assert(oe.subrange(0, oe.len() as int) =~= oe);
            assert(origin.deck.hand.subrange(0, origin.deck.hand.len() as int) =~= origin.deck.hand);
            assert(origin.deck.discard_pile.subrange(0, origin.deck.discard_pile.len() as int) =~= origin.deck.discard_pile);
        }
        let mut draws: u8 = 0;
        match card {
            CardId::TwinStrike => {
                self.fx_hit(Ghost(origin), Ghost(oe), Ghost(used), target, 5, events);
                if self.enemies[target].fighter.hp > 0 {
                    self.fx_hit(Ghost(origin), Ghost(oe), Ghost(used), target, 5, events);
                }
            },
            CardId::TwinStrikePlus => {
                self.fx_hit(Ghost(origin), Ghost(oe), Ghost(used), target, 7, events);
                if self.enemies[target].fighter.hp > 0 {
                    self.fx_hit(Ghost(origin), Ghost(oe), Ghost(used), target, 7, events);
                }
            },
            CardId::BarrierField => {
                self.fx_block(Ghost(origin), Ghost(oe), Ghost(used), 16, events);
                proof { used = used + 3 * 16; }
                self.fx_enemy_status(Ghost(origin), Ghost(oe), Ghost(used), target, StatusKind::Focus, -1, events);
            },
            CardId::BarrierFieldPlus => {
                self.fx_block(Ghost(origin), Ghost(oe), Ghost(used), 21, events);
                proof { used = used + 3 * 21; }
                self.fx_enemy_status(Ghost(origin), Ghost(oe), Ghost(used), target, StatusKind::Focus, -2, events);
            },
            _ => {},
        }
        draws
    }

    /// The effects of the cards TacticalBurst to RazorNetPlus, in the order the rules apply
    /// them; the returned count is the draw the card asks for afterwards.
    #[verifier::spinoff_prover]
    #[verifier::rlimit(60)]
    fn card_effects_7(&mut self, card: CardId, target: usize, events: &mut Vec<CombatEvent>) -> (draws: u8)
        requires
            old(self)@.wf(),
            old(self).player.fighter.block <= PLAY_BLOCK_LIMIT,
            spec_card_def(card).target is Enemy ==> target < old(self).enemies.len(),
        ensures
            (final(self)@, draws) == spec_card_effects_7(old(self)@, card, target),
            step_frame(old(self)@, final(self)@, 300, 0),
            appends(final(events)@, old(events)@),
            draws <= 3,
            deck_grows(old(self)@.deck, final(self)@.deck),
    {
        proof {
            reveal(spec_card_effects_7);
        }
        let ghost origin = self@;
        let ghost oe = events@;
        let ghost mut used: int = 0;
        proof {
            assert(oe.subrange(0, oe.len() as int) =~= oe);
            assert(origin.deck.hand.subrange(0, origin.deck.hand.len() as int) =~= origin.deck.hand);
            assert(origin.deck.discard_pile.subrange(0, origin.deck.discard_pile.len() as int) =~= origin.deck.discard_pile);
        }
        let mut draws: u8 = 0;
        match card {
            CardId::TacticalBurst => {
                self.fx_self_status(Ghost(origin), Ghost(oe), Ghost(used), StatusKind::Focus, 1, events);
                draws = 2;
            },
            CardId::TacticalBurstPlus => {
                self.fx_self_status(Ghost(origin), Ghost(oe), Ghost(used), StatusKind::Focus, 2, events);
                draws = 2;
            },
            CardId::RazorNet => {
                self.fx_hit(Ghost(origin), Ghost(oe), Ghost(used), target, 5, events);
                if self.enemies[target].fighter.hp > 0 {
                    self.fx_hit(Ghost(origin), Ghost(oe), Ghost(used), target, 5, events);
                }
                self.fx_enemy_status(Ghost(origin), Ghost(oe), Ghost(used), target, StatusKind::Bleed, 2, events);
            },
            CardId::RazorNetPlus => {
                self.fx_hit(Ghost(origin), Ghost(oe), Ghost(used), target, 7, events);
                if self.enemies[target].fighter.hp > 0 {
                    self.fx_hit(Ghost(origin), Ghost(oe), Ghost(used), target, 7, events);
                }
                self.fx_enemy_status(Ghost(origin), Ghost(oe), Ghost(used), target, StatusKind::Bleed, 2, events);
            },
            _ => {},
        }
        draws
    }

    /// The effects of the cards FracturePulse to VectorLockPlus, in the order the rules apply
    /// them; the returned count is the draw the card asks for afterwards.
    #[verifier::spinoff_prover]
    #[verifier::rlimit(60)]
    fn card_effects_8(&mut self, card: CardId, target: usize, events: &mut Vec<CombatEvent>) -> (draws: u8)
        requires
            old(self)@.wf(),
            old(self).player.fighter.block <= PLAY_BLOCK_LIMIT,
            spec_card_def(card).target is Enemy ==> target < old(self).enemies.len(),
        ensures
            (final(self)@, draws) == spec_card_effects_8(old(self)@, card, target),
            step_frame(old(self)@, final(self)@, 300, 0),
            appends(final(events)@, old(events)@),
            draws <= 3,
            deck_grows(old(self)@.deck, final(self)@.deck),
    {
        proof {
            reveal(spec_card_effects_8);
        }
        let ghost origin = self@;
        let ghost oe = events@;
        let ghost mut used: int = 0;
        proof {
            assert(oe.subrange(0, oe.len() as int) =~= oe);
            assert(origin.deck.hand.subrange(0, origin.deck.hand.len() as int) =~= origin.deck.hand);
            assert(origin.deck.discard_pile.subrange(0, origin.deck.discard_pile.len() as int) =~= origin.deck.discard_pile);
        }
        let mut draws: u8 = 0;
        match card {
            CardId::FracturePulse => {
                self.fx_hit(Ghost(origin), Ghost(oe), Ghost(used), target, 12, events);
                self.fx_enemy_status(Ghost(origin), Ghost(oe), Ghost(used), target, StatusKind::Bleed, 3, events);
            },
            CardId::FracturePulsePlus => {
                self.fx_hit(Ghost(origin), Ghost(oe), Ghost(used), target, 16, events);
                self.fx_enemy_status(Ghost(origin), Ghost(oe), Ghost(used), target, StatusKind::Bleed, 3, events);
            },
            CardId::VectorLock => {
                self.fx_hit(Ghost(origin), Ghost(oe), Ghost(used), target, 8, events);
                self.fx_enemy_status(Ghost(origin), Ghost(oe), Ghost(used), target, StatusKind::Momentum, -2, events);
                self.fx_block(Ghost(origin), Ghost(oe), Ghost(used), 8, events);
                proof { used = used + 3 * 8; }
            },
            CardId::VectorLockPlus => {
                self.fx_hit(Ghost(origin), Ghost(oe), Ghost(used), target, 11, events);
                self.fx_enemy_status(Ghost(origin), Ghost(oe), Ghost(used), target, StatusKind::Momentum, -2, events);
                self.fx_block(Ghost(origin), Ghost(oe), Ghost(used), 10, events);
                proof { used = used + 3 * 10; }
            },
            _ => {},
        }
        draws
    }

    /// The effects of the cards BreachSignal to ExecutionBeam, in the order the rules apply
    /// them; the returned count is the draw the card asks for afterwards.
    #[verifier::spinoff_prover]
    #[verifier::rlimit(60)]
    fn card_effects_9(&mut self, card: CardId, target: usize, events: &mut Vec<CombatEvent>) -> (draws: u8)
        requires
            old(self)@.wf(),
            old(self).player.fighter.block <= PLAY_BLOCK_LIMIT,
            spec_card_def(card).target is Enemy ==> target < old(self).enemies.len(),
        ensures
            (final(self)@, draws) == spec_card_effects_9(old(self)@, card, target),
            step_frame(old(self)@, final(self)@, 300, 0),
            appends(final(events)@, old(events)@),
            draws <= 3,
            deck_grows(old(self)@.deck, final(self)@.deck),
    {
        proof {
            reveal(spec_card_effects_9);
        }
        let ghost origin = self@;
        let ghost oe = events@;
        let ghost mut used: int = 0;
        proof {
            assert(oe.subrange(0, oe.len() as int) =~= oe);
            assert(origin.deck.hand.subrange(0, origin.deck.hand.len() as int) =~= origin.deck.hand);
            assert(origin.deck.discard_pile.subrange(0, origin.deck.discard_pile.len() as int) =~= origin.deck.discard_pile);
        }
        let mut draws: u8 = 0;
        match card {
            CardId::BreachSignal => {
                self.fx_hit(Ghost(origin), Ghost(oe), Ghost(used), target, 9, events);
                self.fx_enemy_status(Ghost(origin), Ghost(oe), Ghost(used), target, StatusKind::Momentum, -2, events);
                draws = 1;
            },
            CardId::BreachSignalPlus => {
                self.fx_hit(Ghost(origin), Ghost(oe), Ghost(used), target, 12, events);
                self.fx_enemy_status(Ghost(origin), Ghost(oe), Ghost(used), target, StatusKind::Momentum, -2, events);
                draws = 1;
            },
            CardId::AnchorLoop => {
                self.fx_block(Ghost(origin), Ghost(oe), Ghost(used), 22, events);
                proof { used = used + 3 * 22; }
                draws = 2;
            },
            CardId::AnchorLoopPlus => {
                self.fx_block(Ghost(origin), Ghost(oe), Ghost(used), 27, events);
                proof { used = used + 3 * 27; }
                draws = 2;
            },
            CardId::ExecutionBeam => {
                self.fx_hit(Ghost(origin), Ghost(oe), Ghost(used), target, 27, events);
            },
            _ => {},
        }
        draws
    }

    /// The effects of the cards ExecutionBeamPlus to FortressMatrix, in the order the rules apply
    /// them; the returned count is the draw the card asks for afterwards.
    #[verifier::spinoff_prover]
    #[verifier::rlimit(60)]
    fn card_effects_10(&mut self, card: CardId, target: usize, events: &mut Vec<CombatEvent>) -> (draws: u8)
        requires
            old(self)@.wf(),
            old(self).player.fighter.block <= PLAY_BLOCK_LIMIT,
            spec_card_def(card).target is Enemy ==> target < old(self).enemies.len(),
        ensures
            (final(self)@, draws) == spec_card_effects_10(old(self)@, card, target),
            step_frame(old(self)@, final(self)@, 300, 0),
            appends(final(events)@, old(events)@),
            draws <= 3,
            deck_grows(old(self)@.deck, final(self)@.deck),
    {
        proof {
            reveal(spec_card_effects_10);
        }
        let ghost origin = self@;
        let ghost oe = events@;
        let ghost mut used: int = 0;
        proof {
            assert(oe.subrange(0, oe.len() as int) =~= oe);
            assert(origin.deck.hand.subrange(0, origin.deck.hand.len() as int) =~= origin.deck.hand);
            assert(origin.deck.discard_pile.subrange(0, origin.deck.discard_pile.len() as int) =~= origin.deck.discard_pile);
        }
        let mut draws: u8 = 0;
        match card {
            CardId::ExecutionBeamPlus => {
                self.fx_hit(Ghost(origin), Ghost(oe), Ghost(used), target, 35, events);
            },
            CardId::ChainBarrage => {
                self.fx_hit(Ghost(origin), Ghost(oe), Ghost(used), target, 11, events);
                if self.enemies[target].fighter.hp > 0 {
                    self.fx_hit(Ghost(origin), Ghost(oe), Ghost(used), target, 11, events);
                }
                self.fx_enemy_status(Ghost(origin), Ghost(oe), Ghost(used), target, StatusKind::Bleed, 2, events);
            },
            CardId::ChainBarragePlus => {
                self.fx_hit(Ghost(origin), Ghost(oe), Ghost(used), target, 13, events);
                if self.enemies[target].fighter.hp > 0 {
                    self.fx_hit(Ghost(origin), Ghost(oe), Ghost(used), target, 13, events);
                }
                self.fx_enemy_status(Ghost(origin), Ghost(oe), Ghost(used), target, StatusKind::Bleed, 2, events);
            },
            CardId::FortressMatrix => {
                self.fx_block(Ghost(origin), Ghost(oe), Ghost(used), 26, events);
                proof { used = used + 3 * 26; }
                draws = 1;
            },
            _ => {},
        }
        draws
    }

    /// The effects of the cards FortressMatrixPlus to RiftDart, in the order the rules apply
    /// them; the returned count is the draw the card asks for afterwards.
    #[verifier::spinoff_prover]
    #[verifier::rlimit(60)]
    fn card_effects_11(&mut self, card: CardId, target: usize, events: &mut Vec<CombatEvent>) -> (draws: u8)
        requires
            old(self)@.wf(),
            old(self).player.fighter.block <= PLAY_BLOCK_LIMIT,
            spec_card_def(card).target is Enemy ==> target < old(self).enemies.len(),
        ensures
            (final(self)@, draws) == spec_card_effects_11(old(self)@, card, target),
            step_frame(old(self)@, final(self)@, 300, 0),
            appends(final(events)@, old(events)@),
            draws <= 3,
            deck_grows(old(self)@.deck, final(self)@.deck),
    {
        proof {
            reveal(spec_card_effects_11);
        }
        let ghost origin = self@;
        let ghost oe = events@;
        let ghost mut used: int = 0;
        proof {
            assert(oe.subrange(0, oe.len() as int) =~= oe);
            assert(origin.deck.hand.subrange(0, origin.deck.hand.len() as int) =~= origin.deck.hand);
            assert(origin.deck.discard_pile.subrange(0, origin.deck.discard_pile.len() as int) =~= origin.deck.discard_pile);
        }
        let mut draws: u8 = 0;
        match card {
            CardId::FortressMatrixPlus => {
                self.fx_block(Ghost(origin), Ghost(oe), Ghost(used), 32, events);
                proof { used = used + 3 * 32; }
                draws = 1;
            },
            CardId::OverwatchGrid => {
                self.fx_block(Ghost(origin), Ghost(oe), Ghost(used), 29, events);
                proof { used = used + 3 * 29; }
                draws = 2;
            },
            CardId::OverwatchGridPlus => {
                self.fx_block(Ghost(origin), Ghost(oe), Ghost(used), 35, events);
                proof { used = used + 3 * 35; }
                draws = 2;
            },
            CardId::RiftDart => {
                let enemy: usize = target;
                let disrupted = self.axis_value(Actor::Enemy(enemy), AxisKind::Momentum) < 0;
                self.fx_hit(Ghost(origin), Ghost(oe), Ghost(used), enemy, 5, events);
                self.fx_enemy_status(Ghost(origin), Ghost(oe), Ghost(used), enemy, StatusKind::Bleed, 1, events);
                if disrupted {
                    draws = 1;
                }
            },
            _ => {},
        }
        draws
    }

    /// The effects of the cards RiftDartPlus to BraceCircuit, in the order the rules apply
    /// them; the returned count is the draw the card asks for afterwards.
    #[verifier::spinoff_prover]
    #[verifier::rlimit(60)]
    fn card_effects_12(&mut self, card: CardId, target: usize, events: &mut Vec<CombatEvent>) -> (draws: u8)
        requires
            old(self)@.wf(),
            old(self).player.fighter.block <= PLAY_BLOCK_LIMIT,
            spec_card_def(card).target is Enemy ==> target < old(self).enemies.len(),
        ensures
            (final(self)@, draws) == spec_card_effects_12(old(self)@, card, target),
            step_frame(old(self)@, final(self)@, 300, 0),
            appends(final(events)@, old(events)@),
            draws <= 3,
            deck_grows(old(self)@.deck, final(self)@.deck),
    {
        proof {
            reveal(spec_card_effects_12);
        }
        let ghost origin = self@;
        let ghost oe = events@;
        let ghost mut used: int = 0;
        proof {
            assert(oe.subrange(0, oe.len() as int) =~= oe);
            assert(origin.deck.hand.subrange(0, origin.deck.hand.len() as int) =~= origin.deck.hand);
            assert(origin.deck.discard_pile.subrange(0, origin.deck.discard_pile.len() as int) =~= origin.deck.discard_pile);
        }
        let mut draws: u8 = 0;
        match card {
            CardId::RiftDartPlus => {
                let enemy: usize = target;
                let disrupted = self.axis_value(Actor::Enemy(enemy), AxisKind::Momentum) < 0;
                self.fx_hit(Ghost(origin), Ghost(oe), Ghost(used), enemy, 8, events);
                self.fx_enemy_status(Ghost(origin), Ghost(oe), Ghost(used), enemy, StatusKind::Bleed, 1, events);
                if disrupted {
                    draws = 1;
                }
            },
            CardId::MarkPulse => {
                let enemy: usize = target;
                let bleeding = self.has_status(Actor::Enemy(enemy), StatusKind::Bleed);
                self.fx_enemy_status(Ghost(origin), Ghost(oe), Ghost(used), enemy, StatusKind::Momentum, -1, events);
                if bleeding {
                    self.fx_block(Ghost(origin), Ghost(oe), Ghost(used), 6, events);
                    proof { used = used + 3 * 6; }
                }
            },
            CardId::MarkPulsePlus => {
                let enemy: usize = target;
                let bleeding = self.has_status(Actor::Enemy(enemy), StatusKind::Bleed);
                self.fx_enemy_status(Ghost(origin), Ghost(oe), Ghost(used), enemy, StatusKind::Momentum, -1, events);
                if bleeding {
                    self.fx_block(Ghost(origin), Ghost(oe), Ghost(used), 10, events);
                    proof { used = used + 3 * 10; }
                }
            },
            CardId::BraceCircuit => {
                let had_block = self.player.fighter.block > 0;
                self.fx_block(Ghost(origin), Ghost(oe), Ghost(used), 10, events);
                proof { used = used + 3 * 10; }
                if had_block {
                    draws = 1;
                }
            },
            _ => {},
        }
        draws
    }

    /// The effects of the cards BraceCircuitPlus to SeverArcPlus, in the order the rules apply
    /// them; the returned count is the draw the card asks for afterwards.
    #[verifier::spinoff_prover]
    #[verifier::rlimit(60)]
    fn card_effects_13(&mut self, card: CardId, target: usize, events: &mut Vec<CombatEvent>) -> (draws: u8)
        requires
            old(self)@.wf(),
            old(self).player.fighter.block <= PLAY_BLOCK_LIMIT,
            spec_card_def(card).target is Enemy ==> target < old(self).enemies.len(),
        ensures
            (final(self)@, draws) == spec_card_effects_13(old(self)@, card, target),
            step_frame(old(self)@, final(self)@, 300, 0),
            appends(final(events)@, old(events)@),
            draws <= 3,
            deck_grows(old(self)@.deck, final(self)@.deck),
    {
        proof {
            reveal(spec_card_effects_13);
        }
        let ghost origin = self@;
        let ghost oe = events@;
        let ghost mut used: int = 0;
        proof {
            assert(oe.subrange(0, oe.len() as int) =~= oe);
            assert(origin.deck.hand.subrange(0, origin.deck.hand.len() as int) =~= origin.deck.hand);
            assert(origin.deck.discard_pile.subrange(0, origin.deck.discard_pile.len() as int) =~= origin.deck.discard_pile);
        }
        let mut draws: u8 = 0;
        match card {
            CardId::BraceCircuitPlus => {
                let had_block = self.player.fighter.block > 0;
                self.fx_block(Ghost(origin), Ghost(oe), Ghost(used), 13, events);
                proof { used = used + 3 * 13; }
                if had_block {
                    draws = 1;
                }
            },
            CardId::FaultShot => {
                let enemy: usize = target;
                let primed = self.axis_value(Actor::Enemy(enemy), AxisKind::Focus) < 0;
                self.fx_hit(Ghost(origin), Ghost(oe), Ghost(used), enemy, 7, events);
                if primed {
                    self.fx_self_status(Ghost(origin), Ghost(oe), Ghost(used), StatusKind::Focus, 1, events);
                }
            },
            CardId::FaultShotPlus => {
                let enemy: usize = target;
                let primed = self.axis_value(Actor::Enemy(enemy), AxisKind::Focus) < 0;
                self.fx_hit(Ghost(origin), Ghost(oe), Ghost(used), enemy, 9, events);
                if primed {
                    self.fx_self_status(Ghost(origin), Ghost(oe), Ghost(used), StatusKind::Focus, 1, events);
                }
            },
            CardId::SeverArc => {
                let enemy: usize = target;
                let bleeding = self.has_status(Actor::Enemy(enemy), StatusKind::Bleed);
                self.fx_hit(Ghost(origin), Ghost(oe), Ghost(used), enemy, 11, events);
                if bleeding && self.enemies[enemy].fighter.hp > 0 {
                    self.fx_hit(Ghost(origin), Ghost(oe), Ghost(used), enemy, 11, events);
                }
            },
            CardId::SeverArcPlus => {
                let enemy: usize = target;
                let bleeding = self.has_status(Actor::Enemy(enemy), StatusKind::Bleed);
                self.fx_hit(Ghost(origin), Ghost(oe), Ghost(used), enemy, 13, events);
                if bleeding && self.enemies[enemy].fighter.hp > 0 {
                    self.fx_hit(Ghost(origin), Ghost(oe), Ghost(used), enemy, 13, events);
                }
            },
            _ => {},
        }
        draws
    }

    /// The effects of the cards Lockbreaker to CounterLatticePlus, in the order the rules apply
    /// them; the returned count is the draw the card asks for afterwards.
    #[verifier::spinoff_prover]
    #[verifier::rlimit(60)]
    fn card_effects_14(&mut self, card: CardId, target: usize, events: &mut Vec<CombatEvent>) -> (draws: u8)
        requires
            old(self)@.wf(),
            old(self).player.fighter.block <= PLAY_BLOCK_LIMIT,
            spec_card_def(card).target is Enemy ==> target < old(self).enemies.len(),
        ensures
            (final(self)@, draws) == spec_card_effects_14(old(self)@, card, target),
            step_frame(old(self)@, final(self)@, 300, 0),
            appends(final(events)@, old(events)@),
            draws <= 3,
            deck_grows(old(self)@.deck, final(self)@.deck),
    {
        proof {
            reveal(spec_card_effects_14);
        }
        let ghost origin = self@;
        let ghost oe = events@;
        let ghost mut used: int = 0;
        proof {
            assert(oe.subrange(0, oe.len() as int) =~= oe);
            assert(origin.deck.hand.subrange(0, origin.deck.hand.len() as int) =~= origin.deck.hand);
            assert(origin.deck.discard_pile.subrange(0, origin.deck.discard_pile.len() as int) =~= origin.deck.discard_pile);
        }
        let mut draws: u8 = 0;
        match card {
            CardId::Lockbreaker => {
                let enemy: usize = target;
                let disrupted = self.axis_value(Actor::Enemy(enemy), AxisKind::Focus) < 0;
                self.fx_hit(Ghost(origin), Ghost(oe), Ghost(used), enemy, 8, events);
                if disrupted {
                    self.fx_enemy_status(Ghost(origin), Ghost(oe), Ghost(used), enemy, StatusKind::Focus, -1, events);
                    self.fx_block(Ghost(origin), Ghost(oe), Ghost(used), 10, events);
                    proof { used = used + 3 * 10; }
                }
            },
            CardId::LockbreakerPlus => {
                let enemy: usize = target;
                let disrupted = self.axis_value(Actor::Enemy(enemy), AxisKind::Focus) < 0;
                self.fx_hit(Ghost(origin), Ghost(oe), Ghost(used), enemy, 11, events);
                if disrupted {
                    self.fx_enemy_status(Ghost(origin), Ghost(oe), Ghost(used), enemy, StatusKind::Focus, -1, events);
                    self.fx_block(Ghost(origin), Ghost(oe), Ghost(used), 13, events);
                    proof { used = used + 3 * 13; }
                }
            },
            CardId::CounterLattice => {
                let enemy: usize = target;
                let weakened = self.axis_value(Actor::Enemy(enemy), AxisKind::Focus) < 0;
                self.fx_hit(Ghost(origin), Ghost(oe), Ghost(used), enemy, 8, events);
                if weakened {
                    self.fx_energy(Ghost(origin), Ghost(oe), Ghost(used), 1, events);
                }
            },
            CardId::CounterLatticePlus => {
                let enemy: usize = target;
                let weakened = self.axis_value(Actor::Enemy(enemy), AxisKind::Focus) < 0;
                self.fx_hit(Ghost(origin), Ghost(oe), Ghost(used), enemy, 11, events);
                if weakened {
                    self.fx_energy(Ghost(origin), Ghost(oe), Ghost(used), 1, events);
                }
            },
            _ => {},
        }
        draws
    }

    /// The effects of the cards TerminalLoop to ZeroPointPlus, in the order the rules apply
    /// them; the returned count is the draw the card asks for afterwards.
    #[verifier::spinoff_prover]
    #[verifier::rlimit(60)]
    fn card_effects_15(&mut self, card: CardId, target: usize, events: &mut Vec<CombatEvent>) -> (draws: u8)
        requires
            old(self)@.wf(),
            old(self).player.fighter.block <= PLAY_BLOCK_LIMIT,
            spec_card_def(card).target is Enemy ==> target < old(self).enemies.len(),
        ensures
            (final(self)@, draws) == spec_card_effects_15(old(self)@, card, target),
            step_frame(old(self)@, final(self)@, 300, 0),
            appends(final(events)@, old(events)@),
            draws <= 3,
            deck_grows(old(self)@.deck, final(self)@.deck),
    {
        proof {
            reveal(spec_card_effects_15);
        }
        let ghost origin = self@;
        let ghost oe = events@;
        let ghost mut used: int = 0;
        proof {
            assert(oe.subrange(0, oe.len() as int) =~= oe);
            assert(origin.deck.hand.subrange(0, origin.deck.hand.len() as int) =~= origin.deck.hand);
            assert(origin.deck.discard_pile.subrange(0, origin.deck.discard_pile.len() as int) =~= origin.deck.discard_pile);
        }
        let mut draws: u8 = 0;
        match card {
            CardId::TerminalLoop => {
                let enemy: usize = target;
                let bleeding = self.has_status(Actor::Enemy(enemy), StatusKind::Bleed);
                let disrupted = self.axis_value(Actor::Enemy(enemy), AxisKind::Momentum) < 0;
                self.fx_hit(Ghost(origin), Ghost(oe), Ghost(used), enemy, 16, events);
                if bleeding {
                    draws = 1;
                }
                if disrupted {
                    self.fx_self_status(Ghost(origin), Ghost(oe), Ghost(used), StatusKind::Focus, 1, events);
                }
            },
            CardId::TerminalLoopPlus => {
                let enemy: usize = target;
                let bleeding = self.has_status(Actor::Enemy(enemy), StatusKind::Bleed);
                let disrupted = self.axis_value(Actor::Enemy(enemy), AxisKind::Momentum) < 0;
                self.fx_hit(Ghost(origin), Ghost(oe), Ghost(used), enemy, 20, events);
                if bleeding {
                    draws = 1;
                }
                if disrupted {
                    self.fx_self_status(Ghost(origin), Ghost(oe), Ghost(used), StatusKind::Focus, 2, events);
                }
            },
            CardId::ZeroPoint => {
                self.fx_hit(Ghost(origin), Ghost(oe), Ghost(used), target, 13, events);
                self.fx_enemy_status(Ghost(origin), Ghost(oe), Ghost(used), target, StatusKind::Momentum, -2, events);
                draws = 1;
            },
            CardId::ZeroPointPlus => {
                self.fx_hit(Ghost(origin), Ghost(oe), Ghost(used), target, 19, events);
                self.fx_enemy_status(Ghost(origin), Ghost(oe), Ghost(used), target, StatusKind::Momentum, -2, events);
                draws = 1;
            },
            _ => {},
        }
        draws
    }

    /// The effects of the cards ArcSpark to CapacitiveShellPlus, in the order the rules apply
    /// them; the returned count is the draw the card asks for afterwards.
    #[verifier::spinoff_prover]
    #[verifier::rlimit(60)]
    fn card_effects_16(&mut self, card: CardId, target: usize, events: &mut Vec<CombatEvent>) -> (draws: u8)
        requires
            old(self)@.wf(),
            old(self).player.fighter.block <= PLAY_BLOCK_LIMIT,
            spec_card_def(card).target is Enemy ==> target < old(self).enemies.len(),
        ensures
            (final(self)@, draws) == spec_card_effects_16(old(self)@, card, target),
            step_frame(old(self)@, final(self)@, 300, 0),
            appends(final(events)@, old(events)@),
            draws <= 3,
            deck_grows(old(self)@.deck, final(self)@.deck),
    {
        proof {
            reveal(spec_card_effects_16);
        }
        let ghost origin = self@;
        let ghost oe = events@;
        let ghost mut used: int = 0;
        proof {
            assert(oe.subrange(0, oe.len() as int) =~= oe);
            assert(origin.deck.hand.subrange(0, origin.deck.hand.len() as int) =~= origin.deck.hand);
            assert(origin.deck.discard_pile.subrange(0, origin.deck.discard_pile.len() as int) =~= origin.deck.discard_pile);
        }
        let mut draws: u8 = 0;
        match card {
            CardId::ArcSpark => {
                self.fx_hit(Ghost(origin), Ghost(oe), Ghost(used), target, 5, events);
                self.fx_self_status(Ghost(origin), Ghost(oe), Ghost(used), StatusKind::Momentum, 2, events);
            },
            CardId::ArcSparkPlus => {
                self.fx_hit(Ghost(origin), Ghost(oe), Ghost(used), target, 8, events);
                self.fx_self_status(Ghost(origin), Ghost(oe), Ghost(used), StatusKind::Momentum, 3, events);
            },
            CardId::CapacitiveShell => {
                self.fx_block(Ghost(origin), Ghost(oe), Ghost(used), 8, events);
                proof { used = used + 3 * 8; }
                self.fx_self_status(Ghost(origin), Ghost(oe), Ghost(used), StatusKind::Momentum, 2, events);
            },
            CardId::CapacitiveShellPlus => {
                self.fx_block(Ghost(origin), Ghost(oe), Ghost(used), 13, events);
                proof { used = used + 3 * 13; }
                self.fx_self_status(Ghost(origin), Ghost(oe), Ghost(used), StatusKind::Momentum, 3, events);
            },
            _ => {},
        }
        draws
    }

    /// The effects of the cards PrimeRoutine to PulseConverter, in the order the rules apply
    /// them; the returned count is the draw the card asks for afterwards.
    #[verifier::spinoff_prover]
    #[verifier::rlimit(60)]
    fn card_effects_17(&mut self, card: CardId, target: usize, events: &mut Vec<CombatEvent>) -> (draws: u8)
        requires
            old(self)@.wf(),
            old(self).player.fighter.block <= PLAY_BLOCK_LIMIT,
            spec_card_def(card).target is Enemy ==> target < old(self).enemies.len(),
        ensures
            (final(self)@, draws) == spec_card_effects_17(old(self)@, card, target),
            step_frame(old(self)@, final(self)@, 300, 0),
            appends(final(events)@, old(events)@),
            draws <= 3,
            deck_grows(old(self)@.deck, final(self)@.deck),
    {
        proof {
            reveal(spec_card_effects_17);
        }
        let ghost origin = self@;
        let ghost oe = events@;
        let ghost mut used: int = 0;
        proof {
            assert(oe.subrange(0, oe.len() as int) =~= oe);
            assert(origin.deck.hand.subrange(0, origin.deck.hand.len() as int) =~= origin.deck.hand);
            assert(origin.deck.discard_pile.subrange(0, origin.deck.discard_pile.len() as int) =~= origin.deck.discard_pile);
        }
        let mut draws: u8 = 0;
        match card {
            CardId::PrimeRoutine => {
                self.fx_self_status(Ghost(origin), Ghost(oe), Ghost(used), StatusKind::Momentum, 2, events);
                draws = 2;
            },
            CardId::PrimeRoutinePlus => {
                self.fx_self_status(Ghost(origin), Ghost(oe), Ghost(used), StatusKind::Momentum, 3, events);
                draws = 3;
            },
            CardId::Stockpile => {
                self.fx_self_status(Ghost(origin), Ghost(oe), Ghost(used), StatusKind::Momentum, 3, events);
            },
            CardId::StockpilePlus => {
                self.fx_self_status(Ghost(origin), Ghost(oe), Ghost(used), StatusKind::Momentum, 4, events);
            },
            CardId::PulseConverter => {
                self.fx_clear_focus(Ghost(origin), Ghost(oe), Ghost(used), target, events);
            },
            _ => {},
        }
        draws
    }

    /// The effects of the cards PulseConverterPlus to VoltaicDrive, in the order the rules apply
    /// them; the returned count is the draw the card asks for afterwards.
    #[verifier::spinoff_prover]
    #[verifier::rlimit(60)]
    fn card_effects_18(&mut self, card: CardId, target: usize, events: &mut Vec<CombatEvent>) -> (draws: u8)
        requires
            old(self)@.wf(),
            old(self).player.fighter.block <= PLAY_BLOCK_LIMIT,
            spec_card_def(card).target is Enemy ==> target < old(self).enemies.len(),
        ensures
            (final(self)@, draws) == spec_card_effects_18(old(self)@, card, target),
            step_frame(old(self)@, final(self)@, 300, 0),
            appends(final(events)@, old(events)@),
            draws <= 3,
            deck_grows(old(self)@.deck, final(self)@.deck),
    {
        proof {
            reveal(spec_card_effects_18);
        }
        let ghost origin = self@;
        let ghost oe = events@;
        let ghost mut used: int = 0;
        proof {
            assert(oe.subrange(0, oe.len() as int) =~= oe);
            assert(origin.deck.hand.subrange(0, origin.deck.hand.len() as int) =~= origin.deck.hand);
            assert(origin.deck.discard_pile.subrange(0, origin.deck.discard_pile.len() as int) =~= origin.deck.discard_pile);
        }
        let mut draws: u8 = 0;
        match card {
            CardId::PulseConverterPlus => {
                self.fx_clear_focus(Ghost(origin), Ghost(oe), Ghost(used), target, events);
                draws = 1;
            },
            CardId::ReservoirGuard => {
                self.fx_block(Ghost(origin), Ghost(oe), Ghost(used), 16, events);
                proof { used = used + 3 * 16; }
                if self.axis_value(Actor::Player, AxisKind::Momentum) > 1 {
                    self.fx_energy(Ghost(origin), Ghost(oe), Ghost(used), 1, events);
                }
            },
            CardId::ReservoirGuardPlus => {
                self.fx_block(Ghost(origin), Ghost(oe), Ghost(used), 21, events);
                proof { used = used + 3 * 21; }
                if self.axis_value(Actor::Player, AxisKind::Momentum) > 1 {
                    self.fx_energy(Ghost(origin), Ghost(oe), Ghost(used), 1, events);
                }
            },
            CardId::VoltaicDrive => {
                self.fx_hit(Ghost(origin), Ghost(oe), Ghost(used), target, 15, events);
                if self.axis_value(Actor::Player, AxisKind::Momentum) > 1 {
                    draws = 2;
                }
            },
            _ => {},
        }
        draws
    }

    /// The effects of the cards VoltaicDrivePlus to SparkSmith, in the order the rules apply
    /// them; the returned count is the draw the card asks for afterwards.
    #[verifier::spinoff_prover]
    #[verifier::rlimit(60)]
    fn card_effects_19(&mut self, card: CardId, target: usize, events: &mut Vec<CombatEvent>) -> (draws: u8)
        requires
            old(self)@.wf(),
            old(self).player.fighter.block <= PLAY_BLOCK_LIMIT,
            spec_card_def(card).target is Enemy ==> target < old(self).enemies.len(),
        ensures
            (final(self)@, draws) == spec_card_effects_19(old(self)@, card, target),
            step_frame(old(self)@, final(self)@, 300, 0),
            appends(final(events)@, old(events)@),
            draws <= 3,
            deck_grows(old(self)@.deck, final(self)@.deck),
    {
        proof {
            reveal(spec_card_effects_19);
        }
        let ghost origin = self@;
        let ghost oe = events@;
        let ghost mut used: int = 0;
        proof {
            assert(oe.subrange(0, oe.len() as int) =~= oe);
            assert(origin.deck.hand.subrange(0, origin.deck.hand.len() as int) =~= origin.deck.hand);
            assert(origin.deck.discard_pile.subrange(0, origin.deck.discard_pile.len() as int) =~= origin.deck.discard_pile);
        }
        let mut draws: u8 = 0;
        match card {
            CardId::VoltaicDrivePlus => {
                self.fx_hit(Ghost(origin), Ghost(oe), Ghost(used), target, 19, events);
                if self.axis_value(Actor::Player, AxisKind::Momentum) > 1 {
                    draws = 2;
                }
            },
            CardId::StormVault => {
                self.fx_zero_momentum(Ghost(origin), Ghost(oe), Ghost(used), events);
            },
            CardId::StormVaultPlus => {
                self.fx_zero_momentum(Ghost(origin), Ghost(oe), Ghost(used), events);
                draws = 1;
            },
            CardId::SparkSmith => {
                self.fx_create(Ghost(origin), Ghost(oe), Ghost(used), CardId::Spark, true, events);
                draws = 1;
            },
            _ => {},
        }
        draws
    }

    /// The effects of the cards SparkSmithPlus to TracerWeave, in the order the rules apply
    /// them; the returned count is the draw the card asks for afterwards.
    #[verifier::spinoff_prover]
    #[verifier::rlimit(60)]
    fn card_effects_20(&mut self, card: CardId, target: usize, events: &mut Vec<CombatEvent>) -> (draws: u8)
        requires
            old(self)@.wf(),
            old(self).player.fighter.block <= PLAY_BLOCK_LIMIT,
            spec_card_def(card).target is Enemy ==> target < old(self).enemies.len(),
        ensures
            (final(self)@, draws) == spec_card_effects_20(old(self)@, card, target),
            step_frame(old(self)@, final(self)@, 300, 0),
            appends(final(events)@, old(events)@),
            draws <= 3,
            deck_grows(old(self)@.deck, final(self)@.deck),
    {
        proof {
            reveal(spec_card_effects_20);
        }
        let ghost origin = self@;
        let ghost oe = events@;
        let ghost mut used: int = 0;
        proof {
            assert(oe.subrange(0, oe.len() as int) =~= oe);
            assert(origin.deck.hand.subrange(0, origin.deck.hand.len() as int) =~= origin.deck.hand);
            assert(origin.deck.discard_pile.subrange(0, origin.deck.discard_pile.len() as int) =~= origin.deck.discard_pile);
        }
        let mut draws: u8 = 0;
        match card {
            CardId::SparkSmithPlus => {
                self.fx_create(Ghost(origin), Ghost(oe), Ghost(used), CardId::Spark, true, events);
                draws = 2;
            },
            CardId::PatchBay => {
                self.fx_block(Ghost(origin), Ghost(oe), Ghost(used), 10, events);
                proof { used = used + 3 * 10; }
                self.fx_create(Ghost(origin), Ghost(oe), Ghost(used), CardId::Patch, true, events);
            },
            CardId::PatchBayPlus => {
                self.fx_block(Ghost(origin), Ghost(oe), Ghost(used), 13, events);
                proof { used = used + 3 * 13; }
                self.fx_create(Ghost(origin), Ghost(oe), Ghost(used), CardId::Patch, true, events);
            },
            CardId::TracerWeave => {
                self.fx_hit(Ghost(origin), Ghost(oe), Ghost(used), target, 5, events);
                self.fx_create(Ghost(origin), Ghost(oe), Ghost(used), CardId::Tracer, true, events);
            },
            _ => {},
        }
        draws
    }

    /// The effects of the cards TracerWeavePlus to AssemblyLinePlus, in the order the rules apply
    /// them; the returned count is the draw the card asks for afterwards.
    #[verifier::spinoff_prover]
    #[verifier::rlimit(60)]
    fn card_effects_21(&mut self, card: CardId, target: usize, events: &mut Vec<CombatEvent>) -> (draws: u8)
        requires
            old(self)@.wf(),
            old(self).player.fighter.block <= PLAY_BLOCK_LIMIT,
            spec_card_def(card).target is Enemy ==> target < old(self).enemies.len(),
        ensures
            (final(self)@, draws) == spec_card_effects_21(old(self)@, card, target),
            step_frame(old(self)@, final(self)@, 300, 0),
            appends(final(events)@, old(events)@),
            draws <= 3,
            deck_grows(old(self)@.deck, final(self)@.deck),
    {
        proof {
            reveal(spec_card_effects_21);
        }
        let ghost origin = self@;
        let ghost oe = events@;
        let ghost mut used: int = 0;
        proof {
            assert(oe.subrange(0, oe.len() as int) =~= oe);
            assert(origin.deck.hand.subrange(0, origin.deck.hand.len() as int) =~= origin.deck.hand);
            assert(origin.deck.discard_pile.subrange(0, origin.deck.discard_pile.len() as int) =~= origin.deck.discard_pile);
        }
        let mut draws: u8 = 0;
        match card {
            CardId::TracerWeavePlus => {
                self.fx_hit(Ghost(origin), Ghost(oe), Ghost(used), target, 8, events);
                self.fx_create(Ghost(origin), Ghost(oe), Ghost(used), CardId::Tracer, true, events);
            },
            CardId::NeedleNest => {
                self.fx_hit(Ghost(origin), Ghost(oe), Ghost(used), target, 4, events);
                self.fx_create(Ghost(origin), Ghost(oe), Ghost(used), CardId::Needler, true, events);
            },
            CardId::NeedleNestPlus => {
                self.fx_hit(Ghost(origin), Ghost(oe), Ghost(used), target, 7, events);
                self.fx_create(Ghost(origin), Ghost(oe), Ghost(used), CardId::Needler, true, events);
            },
            CardId::AssemblyLine => {
                self.fx_create(Ghost(origin), Ghost(oe), Ghost(used), CardId::Spark, true, events);
                self.fx_create(Ghost(origin), Ghost(oe), Ghost(used), CardId::Patch, true, events);
                draws = 1;
            },
            CardId::AssemblyLinePlus => {
                self.fx_create(Ghost(origin), Ghost(oe), Ghost(used), CardId::Spark, true, events);
                self.fx_create(Ghost(origin), Ghost(oe), Ghost(used), CardId::Patch, true, events);
                draws = 2;
            },
            _ => {},
        }
        draws
    }

    /// The effects of the cards ToolCache to ImprovisedArsenalPlus, in the order the rules apply
    /// them; the returned count is the draw the card asks for afterwards.
    #[verifier::spinoff_prover]
    #[verifier::rlimit(60)]
    fn card_effects_22(&mut self, card: CardId, target: usize, events: &mut Vec<CombatEvent>) -> (draws: u8)
        requires
            old(self)@.wf(),
            old(self).player.fighter.block <= PLAY_BLOCK_LIMIT,
            spec_card_def(card).target is Enemy ==> target < old(self).enemies.len(),
        ensures
            (final(self)@, draws) == spec_card_effects_22(old(self)@, card, target),
            step_frame(old(self)@, final(self)@, 300, 0),
            appends(final(events)@, old(events)@),
            draws <= 3,
            deck_grows(old(self)@.deck, final(self)@.deck),
    {
        proof {
            reveal(spec_card_effects_22);
        }
        let ghost origin = self@;
        let ghost oe = events@;
        let ghost mut used: int = 0;
        proof {
            assert(oe.subrange(0, oe.len() as int) =~= oe);
            assert(origin.deck.hand.subrange(0, origin.deck.hand.len() as int) =~= origin.deck.hand);
            assert(origin.deck.discard_pile.subrange(0, origin.deck.discard_pile.len() as int) =~= origin.deck.discard_pile);
        }
        let mut draws: u8 = 0;
        match card {
            CardId::ToolCache => {
                self.fx_create(Ghost(origin), Ghost(oe), Ghost(used), CardId::Tracer, true, events);
                self.fx_create(Ghost(origin), Ghost(oe), Ghost(used), CardId::Needler, true, events);
                draws = 1;
            },
            CardId::ToolCachePlus => {
                self.fx_create(Ghost(origin), Ghost(oe), Ghost(used), CardId::Tracer, true, events);
                self.fx_create(Ghost(origin), Ghost(oe), Ghost(used), CardId::Needler, true, events);
                draws = 2;
            },
            CardId::ImprovisedArsenal => {
                self.fx_create(Ghost(origin), Ghost(oe), Ghost(used), CardId::Spark, false, events);
                self.fx_create(Ghost(origin), Ghost(oe), Ghost(used), CardId::Patch, false, events);
                self.fx_create(Ghost(origin), Ghost(oe), Ghost(used), CardId::Tracer, false, events);
                self.fx_create(Ghost(origin), Ghost(oe), Ghost(used), CardId::Needler, false, events);
                draws = 1;
            },
            CardId::ImprovisedArsenalPlus => {
                self.fx_create(Ghost(origin), Ghost(oe), Ghost(used), CardId::Spark, false, events);
                self.fx_create(Ghost(origin), Ghost(oe), Ghost(used), CardId::Patch, false, events);
                self.fx_create(Ghost(origin), Ghost(oe), Ghost(used), CardId::Tracer, false, events);
                self.fx_create(Ghost(origin), Ghost(oe), Ghost(used), CardId::Needler, false, events);
                draws = 2;
            },
            _ => {},
        }
        draws
    }

    /// The effects of the cards ForgeStorm to SweepPulsePlus, in the order the rules apply
    /// them; the returned count is the draw the card asks for afterwards.
    #[verifier::spinoff_prover]
    #[verifier::rlimit(60)]
    fn card_effects_23(&mut self, card: CardId, target: usize, events: &mut Vec<CombatEvent>) -> (draws: u8)
        requires
            old(self)@.wf(),
            old(self).player.fighter.block <= PLAY_BLOCK_LIMIT,
            spec_card_def(card).target is Enemy ==> target < old(self).enemies.len(),
        ensures
            (final(self)@, draws) == spec_card_effects_23(old(self)@, card, target),
            step_frame(old(self)@, final(self)@, 300, 0),
            appends(final(events)@, old(events)@),
            draws <= 3,
            deck_grows(old(self)@.deck, final(self)@.deck),
    {
        proof {
            reveal(spec_card_effects_23);
        }
        let ghost origin = self@;
        let ghost oe = events@;
        let ghost mut used: int = 0;
        proof {
            assert(oe.subrange(0, oe.len() as int) =~= oe);
            assert(origin.deck.hand.subrange(0, origin.deck.hand.len() as int) =~= origin.deck.hand);
            assert(origin.deck.discard_pile.subrange(0, origin.deck.discard_pile.len() as int) =~= origin.deck.discard_pile);
        }
        let mut draws: u8 = 0;
        match card {
            CardId::ForgeStorm => {
                self.fx_create(Ghost(origin), Ghost(oe), Ghost(used), CardId::Spark, true, events);
                self.fx_create(Ghost(origin), Ghost(oe), Ghost(used), CardId::Patch, true, events);
                self.fx_create(Ghost(origin), Ghost(oe), Ghost(used), CardId::Tracer, true, events);
                self.fx_create(Ghost(origin), Ghost(oe), Ghost(used), CardId::Needler, true, events);
                draws = 1;
            },
            CardId::ForgeStormPlus => {
                self.fx_create(Ghost(origin), Ghost(oe), Ghost(used), CardId::Spark, true, events);
                self.fx_create(Ghost(origin), Ghost(oe), Ghost(used), CardId::Patch, true, events);
                self.fx_create(Ghost(origin), Ghost(oe), Ghost(used), CardId::Tracer, true, events);
                self.fx_create(Ghost(origin), Ghost(oe), Ghost(used), CardId::Needler, true, events);
                draws = 2;
            },
            CardId::SweepPulse => {
                self.fx_hit_all(Ghost(origin), Ghost(oe), Ghost(used), 5, false, events);
            },
            CardId::SweepPulsePlus => {
                self.fx_hit_all(Ghost(origin), Ghost(oe), Ghost(used), 8, false, events);
            },
            _ => {},
        }
        draws
    }

    /// The effects of the cards DimmingWave to ShrapnelVeilPlus, in the order the rules apply
    /// them; the returned count is the draw the card asks for afterwards.
    #[verifier::spinoff_prover]
    #[verifier::rlimit(60)]
    fn card_effects_24(&mut self, card: CardId, target: usize, events: &mut Vec<CombatEvent>) -> (draws: u8)
        requires
            old(self)@.wf(),
            old(self).player.fighter.block <= PLAY_BLOCK_LIMIT,
            spec_card_def(card).target is Enemy ==> target < old(self).enemies.len(),
        ensures
            (final(self)@, draws) == spec_card_effects_24(old(self)@, card, target),
            step_frame(old(self)@, final(self)@, 300, 0),
            appends(final(events)@, old(events)@),
            draws <= 3,
            deck_grows(old(self)@.deck, final(self)@.deck),
    {
        proof {
            reveal(spec_card_effects_24);
        }
        let ghost origin = self@;
        let ghost oe = events@;
        let ghost mut used: int = 0;
        proof {
            assert(oe.subrange(0, oe.len() as int) =~= oe);
            assert(origin.deck.hand.subrange(0, origin.deck.hand.len() as int) =~= origin.deck.hand);
            assert(origin.deck.discard_pile.subrange(0, origin.deck.discard_pile.len() as int) =~= origin.deck.discard_pile);
        }
        let mut draws: u8 = 0;
        match card {
            CardId::DimmingWave => {
                self.fx_status_all(Ghost(origin), Ghost(oe), Ghost(used), StatusKind::Focus, -1, events);
            },
            CardId::DimmingWavePlus => {
                self.fx_status_all(Ghost(origin), Ghost(oe), Ghost(used), StatusKind::Focus, -2, events);
            },
            CardId::ShrapnelVeil => {
                self.fx_hit_all(Ghost(origin), Ghost(oe), Ghost(used), 3, false, events);
                self.fx_block(Ghost(origin), Ghost(oe), Ghost(used), 6, events);
                proof { used = used + 3 * 6; }
            },
            CardId::ShrapnelVeilPlus => {
                self.fx_hit_all(Ghost(origin), Ghost(oe), Ghost(used), 4, false, events);
                self.fx_block(Ghost(origin), Ghost(oe), Ghost(used), 10, events);
                proof { used = used + 3 * 10; }
            },
            _ => {},
        }
        draws
    }

    /// The effects of the cards ScouringWind to Linebreaker, in the order the rules apply
    /// them; the returned count is the draw the card asks for afterwards.
    #[verifier::spinoff_prover]
    #[verifier::rlimit(60)]
    fn card_effects_25(&mut self, card: CardId, target: usize, events: &mut Vec<CombatEvent>) -> (draws: u8)
        requires
            old(self)@.wf(),
            old(self).player.fighter.block <= PLAY_BLOCK_LIMIT,
            spec_card_def(card).target is Enemy ==> target < old(self).enemies.len(),
        ensures
            (final(self)@, draws) == spec_card_effects_25(old(self)@, card, target),
            step_frame(old(self)@, final(self)@, 300, 0),
            appends(final(events)@, old(events)@),
            draws <= 3,
            deck_grows(old(self)@.deck, final(self)@.deck),
    {
        proof {
            reveal(spec_card_effects_25);
        }
        let ghost origin = self@;
        let ghost oe = events@;
        let ghost mut used: int = 0;
        proof {
            assert(oe.subrange(0, oe.len() as int) =~= oe);
            assert(origin.deck.hand.subrange(0, origin.deck.hand.len() as int) =~= origin.deck.hand);
            assert(origin.deck.discard_pile.subrange(0, origin.deck.discard_pile.len() as int) =~= origin.deck.discard_pile);
        }
        let mut draws: u8 = 0;
        match card {
            CardId::ScouringWind => {
                self.fx_hit_all(Ghost(origin), Ghost(oe), Ghost(used), 8, false, events);
                self.fx_status_all(Ghost(origin), Ghost(oe), Ghost(used), StatusKind::Bleed, 1, events);
            },
            CardId::ScouringWindPlus => {
                self.fx_hit_all(Ghost(origin), Ghost(oe), Ghost(used), 11, false, events);
                self.fx_status_all(Ghost(origin), Ghost(oe), Ghost(used), StatusKind::Bleed, 2, events);
            },
            CardId::CollapsePattern => {
                self.fx_status_all(Ghost(origin), Ghost(oe), Ghost(used), StatusKind::Momentum, -1, events);
                draws = 1;
            },
            CardId::CollapsePatternPlus => {
                self.fx_status_all(Ghost(origin), Ghost(oe), Ghost(used), StatusKind::Momentum, -2, events);
                draws = 1;
            },
            CardId::Linebreaker => {
                self.fx_hit_all(Ghost(origin), Ghost(oe), Ghost(used), 7, true, events);
            },
            _ => {},
        }
        draws
    }

    /// The effects of the cards LinebreakerPlus to SuppressionNet, in the order the rules apply
    /// them; the returned count is the draw the card asks for afterwards.
    #[verifier::spinoff_prover]
    #[verifier::rlimit(60)]
    fn card_effects_26(&mut self, card: CardId, target: usize, events: &mut Vec<CombatEvent>) -> (draws: u8)
        requires
            old(self)@.wf(),
            old(self).player.fighter.block <= PLAY_BLOCK_LIMIT,
            spec_card_def(card).target is Enemy ==> target < old(self).enemies.len(),
        ensures
            (final(self)@, draws) == spec_card_effects_26(old(self)@, card, target),
            step_frame(old(self)@, final(self)@, 300, 0),
            appends(final(events)@, old(events)@),
            draws <= 3,
            deck_grows(old(self)@.deck, final(self)@.deck),
    {
        proof {
            reveal(spec_card_effects_26);
        }
        let ghost origin = self@;
        let ghost oe = events@;
        let ghost mut used: int = 0;
        proof {
            assert(oe.subrange(0, oe.len() as int) =~= oe);
            assert(origin.deck.hand.subrange(0, origin.deck.hand.len() as int) =~= origin.deck.hand);
            assert(origin.deck.discard_pile.subrange(0, origin.deck.discard_pile.len() as int) =~= origin.deck.discard_pile);
        }
        let mut draws: u8 = 0;
        match card {
            CardId::LinebreakerPlus => {
                self.fx_hit_all(Ghost(origin), Ghost(oe), Ghost(used), 9, true, events);
            },
            CardId::NovaCollapse => {
                self.fx_hit_all(Ghost(origin), Ghost(oe), Ghost(used), 12, true, events);
            },
            CardId::NovaCollapsePlus => {
                self.fx_hit_all(Ghost(origin), Ghost(oe), Ghost(used), 16, true, events);
            },
            CardId::SuppressionNet => {
                self.fx_block(Ghost(origin), Ghost(oe), Ghost(used), 13, events);
                proof { used = used + 3 * 13; }
                self.fx_status_all(Ghost(origin), Ghost(oe), Ghost(used), StatusKind::Focus, -1, events);
                self.fx_status_all(Ghost(origin), Ghost(oe), Ghost(used), StatusKind::Momentum, -1, events);
            },
            _ => {},
        }
        draws
    }

    /// The effects of the cards SuppressionNetPlus to HardReset, in the order the rules apply
    /// them; the returned count is the draw the card asks for afterwards.
    #[verifier::spinoff_prover]
    #[verifier::rlimit(60)]
    fn card_effects_27(&mut self, card: CardId, target: usize, events: &mut Vec<CombatEvent>) -> (draws: u8)
        requires
            old(self)@.wf(),
            old(self).player.fighter.block <= PLAY_BLOCK_LIMIT,
            spec_card_def(card).target is Enemy ==> target < old(self).enemies.len(),
        ensures
            (final(self)@, draws) == spec_card_effects_27(old(self)@, card, target),
            step_frame(old(self)@, final(self)@, 300, 0),
            appends(final(events)@, old(events)@),
            draws <= 3,
            deck_grows(old(self)@.deck, final(self)@.deck),
    {
        proof {
            reveal(spec_card_effects_27);
        }
        let ghost origin = self@;
        let ghost oe = events@;
        let ghost mut used: int = 0;
        proof {
            assert(oe.subrange(0, oe.len() as int) =~= oe);
            assert(origin.deck.hand.subrange(0, origin.deck.hand.len() as int) =~= origin.deck.hand);
            assert(origin.deck.discard_pile.subrange(0, origin.deck.discard_pile.len() as int) =~= origin.deck.discard_pile);
        }
        let mut draws: u8 = 0;
        match card {
            CardId::SuppressionNetPlus => {
                self.fx_block(Ghost(origin), Ghost(oe), Ghost(used), 18, events);
                proof { used = used + 3 * 18; }
                self.fx_status_all(Ghost(origin), Ghost(oe), Ghost(used), StatusKind::Focus, -2, events);
                self.fx_status_all(Ghost(origin), Ghost(oe), Ghost(used), StatusKind::Momentum, -1, events);
            },
            CardId::RazorRush => {
                self.fx_hit(Ghost(origin), Ghost(oe), Ghost(used), target, 9, events);
            },
            CardId::RazorRushPlus => {
                self.fx_hit(Ghost(origin), Ghost(oe), Ghost(used), target, 13, events);
            },
            CardId::HardReset => {
                draws = 2;
            },
            _ => {},
        }
        draws
    }

    /// The effects of the cards HardResetPlus to Cauterize, in the order the rules apply
    /// them; the returned count is the draw the card asks for afterwards.
    #[verifier::spinoff_prover]
    #[verifier::rlimit(60)]
    fn card_effects_28(&mut self, card: CardId, target: usize, events: &mut Vec<CombatEvent>) -> (draws: u8)
        requires
            old(self)@.wf(),
            old(self).player.fighter.block <= PLAY_BLOCK_LIMIT,
            spec_card_def(card).target is Enemy ==> target < old(self).enemies.len(),
        ensures
            (final(self)@, draws) == spec_card_effects_28(old(self)@, card, target),
            step_frame(old(self)@, final(self)@, 300, 0),
            appends(final(events)@, old(events)@),
            draws <= 3,
            deck_grows(old(self)@.deck, final(self)@.deck),
    {
        proof {
            reveal(spec_card_effects_28);
        }
        let ghost origin = self@;
        let ghost oe = events@;
        let ghost mut used: int = 0;
        proof {
            assert(oe.subrange(0, oe.len() as int) =~= oe);
            assert(origin.deck.hand.subrange(0, origin.deck.hand.len() as int) =~= origin.deck.hand);
            assert(origin.deck.discard_pile.subrange(0, origin.deck.discard_pile.len() as int) =~= origin.deck.discard_pile);
        }
        let mut draws: u8 = 0;
        match card {
            CardId::HardResetPlus => {
                draws = 3;
            },
            CardId::EmergencyPlating => {
                self.fx_block(Ghost(origin), Ghost(oe), Ghost(used), 19, events);
                proof { used = used + 3 * 19; }
            },
            CardId::EmergencyPlatingPlus => {
                self.fx_block(Ghost(origin), Ghost(oe), Ghost(used), 26, events);
                proof { used = used + 3 * 26; }
            },
            CardId::Cauterize => {
                self.fx_hit(Ghost(origin), Ghost(oe), Ghost(used), target, 7, events);
                self.fx_enemy_status(Ghost(origin), Ghost(oe), Ghost(used), target, StatusKind::Focus, -1, events);
                self.fx_enemy_status(Ghost(origin), Ghost(oe), Ghost(used), target, StatusKind::Rhythm, -1, events);
            },
            _ => {},
        }
        draws
    }

    /// The effects of the cards CauterizePlus to AshenVector, in the order the rules apply
    /// them; the returned count is the draw the card asks for afterwards.
    #[verifier::spinoff_prover]
    #[verifier::rlimit(60)]
    fn card_effects_29(&mut self, card: CardId, target: usize, events: &mut Vec<CombatEvent>) -> (draws: u8)
        requires
            old(self)@.wf(),
            old(self).player.fighter.block <= PLAY_BLOCK_LIMIT,
            spec_card_def(card).target is Enemy ==> target < old(self).enemies.len(),
        ensures
            (final(self)@, draws) == spec_card_effects_29(old(self)@, card, target),
            step_frame(old(self)@, final(self)@, 300, 0),
            appends(final(events)@, old(events)@),
            draws <= 3,
            deck_grows(old(self)@.deck, final(self)@.deck),
    {
        proof {
            reveal(spec_card_effects_29);
        }
        let ghost origin = self@;
        let ghost oe = events@;
        let ghost mut used: int = 0;
        proof {
            assert(oe.subrange(0, oe.len() as int) =~= oe);
            assert(origin.deck.hand.subrange(0, origin.deck.hand.len() as int) =~= origin.deck.hand);
            assert(origin.deck.discard_pile.subrange(0, origin.deck.discard_pile.len() as int) =~= origin.deck.discard_pile);
        }
        let mut draws: u8 = 0;
        match card {
            CardId::CauterizePlus => {
                self.fx_hit(Ghost(origin), Ghost(oe), Ghost(used), target, 9, events);
                self.fx_enemy_status(Ghost(origin), Ghost(oe), Ghost(used), target, StatusKind::Focus, -2, events);
                self.fx_enemy_status(Ghost(origin), Ghost(oe), Ghost(used), target, StatusKind::Rhythm, -1, events);
            },
            CardId::EmberBurst => {
                self.fx_energy(Ghost(origin), Ghost(oe), Ghost(used), 1, events);
                draws = 1;
            },
            CardId::EmberBurstPlus => {
                self.fx_energy(Ghost(origin), Ghost(oe), Ghost(used), 1, events);
                draws = 2;
            },
            CardId::AshenVector => {
                self.fx_hit(Ghost(origin), Ghost(oe), Ghost(used), target, 16, events);
                draws = 1;
            },
            _ => {},
        }
        draws
    }

    /// The effects of the cards AshenVectorPlus to PurgeArrayPlus, in the order the rules apply
    /// them; the returned count is the draw the card asks for afterwards.
    #[verifier::spinoff_prover]
    #[verifier::rlimit(60)]
    fn card_effects_30(&mut self, card: CardId, target: usize, events: &mut Vec<CombatEvent>) -> (draws: u8)
        requires
            old(self)@.wf(),
            old(self).player.fighter.block <= PLAY_BLOCK_LIMIT,
            spec_card_def(card).target is Enemy ==> target < old(self).enemies.len(),
        ensures
            (final(self)@, draws) == spec_card_effects_30(old(self)@, card, target),
            step_frame(old(self)@, final(self)@, 300, 0),
            appends(final(events)@, old(events)@),
            draws <= 3,
            deck_grows(old(self)@.deck, final(self)@.deck),
    {
        proof {
            reveal(spec_card_effects_30);
        }
        let ghost origin = self@;
        let ghost oe = events@;
        let ghost mut used: int = 0;
        proof {
            assert(oe.subrange(0, oe.len() as int) =~= oe);
            assert(origin.deck.hand.subrange(0, origin.deck.hand.len() as int) =~= origin.deck.hand);
            assert(origin.deck.discard_pile.subrange(0, origin.deck.discard_pile.len() as int) =~= origin.deck.discard_pile);
        }
        let mut draws: u8 = 0;
        match card {
            CardId::AshenVectorPlus => {
                self.fx_hit(Ghost(origin), Ghost(oe), Ghost(used), target, 20, events);
                draws = 2;
            },
            CardId::PurgeArray => {
                self.fx_hit_all(Ghost(origin), Ghost(oe), Ghost(used), 9, false, events);
                self.fx_hit_all(Ghost(origin), Ghost(oe), Ghost(used), 9, false, events);
            },
            CardId::PurgeArrayPlus => {
                self.fx_hit_all(Ghost(origin), Ghost(oe), Ghost(used), 12, false, events);
                self.fx_hit_all(Ghost(origin), Ghost(oe), Ghost(used), 12, false, events);
            },
            _ => {},
        }
        draws
    }

    /// The effects of the cards LastProtocol to Spark, in the order the rules apply
    /// them; the returned count is the draw the card asks for afterwards.
    #[verifier::spinoff_prover]
    #[verifier::rlimit(60)]
    fn card_effects_31(&mut self, card: CardId, target: usize, events: &mut Vec<CombatEvent>) -> (draws: u8)
        requires
            old(self)@.wf(),
            old(self).player.fighter.block <= PLAY_BLOCK_LIMIT,
            spec_card_def(card).target is Enemy ==> target < old(self).enemies.len(),
        ensures
            (final(self)@, draws) == spec_card_effects_31(old(self)@, card, target),
            step_frame(old(self)@, final(self)@, 300, 0),
            appends(final(events)@, old(events)@),
            draws <= 3,
            deck_grows(old(self)@.deck, final(self)@.deck),
    {
        proof {
            reveal(spec_card_effects_31);
        }
        let ghost origin = self@;
        let ghost oe = events@;
        let ghost mut used: int = 0;
        proof {
            assert(oe.subrange(0, oe.len() as int) =~= oe);
            assert(origin.deck.hand.subrange(0, origin.deck.hand.len() as int) =~= origin.deck.hand);
            assert(origin.deck.discard_pile.subrange(0, origin.deck.discard_pile.len() as int) =~= origin.deck.discard_pile);
        }
        let mut draws: u8 = 0;
        match card {
            CardId::LastProtocol => {
                self.fx_hit(Ghost(origin), Ghost(oe), Ghost(used), target, 24, events);
                self.fx_energy(Ghost(origin), Ghost(oe), Ghost(used), 1, events);
                draws = 1;
            },
            CardId::LastProtocolPlus => {
                self.fx_hit(Ghost(origin), Ghost(oe), Ghost(used), target, 30, events);
                self.fx_energy(Ghost(origin), Ghost(oe), Ghost(used), 1, events);
                draws = 2;
            },
            CardId::Spark => {
                self.fx_hit(Ghost(origin), Ghost(oe), Ghost(used), target, 5, events);
            },
            _ => {},
        }
        draws
    }

    /// The effects of the cards Patch to Needler, in the order the rules apply
    /// them; the returned count is the draw the card asks for afterwards.
    #[verifier::spinoff_prover]
    #[verifier::rlimit(60)]
    fn card_effects_32(&mut self, card: CardId, target: usize, events: &mut Vec<CombatEvent>) -> (draws: u8)
        requires
            old(self)@.wf(),
            old(self).player.fighter.block <= PLAY_BLOCK_LIMIT,
            spec_card_def(card).target is Enemy ==> target < old(self).enemies.len(),
        ensures
            (final(self)@, draws) == spec_card_effects_32(old(self)@, card, target),
            step_frame(old(self)@, final(self)@, 300, 0),
            appends(final(events)@, old(events)@),
            draws <= 3,
            deck_grows(old(self)@.deck, final(self)@.deck),
    {
        proof {
            reveal(spec_card_effects_32);
        }
        let ghost origin = self@;
        let ghost oe = events@;
        let ghost mut used: int = 0;
        proof {
            assert(oe.subrange(0, oe.len() as int) =~= oe);
            assert(origin.deck.hand.subrange(0, origin.deck.hand.len() as int) =~= origin.deck.hand);
            assert(origin.deck.discard_pile.subrange(0, origin.deck.discard_pile.len() as int) =~= origin.deck.discard_pile);
        }
        let mut draws: u8 = 0;
        match card {
            CardId::Patch => {
                self.fx_block(Ghost(origin), Ghost(oe), Ghost(used), 8, events);
                proof { used = used + 3 * 8; }
            },
            CardId::Tracer => {
                self.fx_enemy_status(Ghost(origin), Ghost(oe), Ghost(used), target, StatusKind::Rhythm, -1, events);
            },
            CardId::Needler => {
                self.fx_hit(Ghost(origin), Ghost(oe), Ghost(used), target, 3, events);
                self.fx_enemy_status(Ghost(origin), Ghost(oe), Ghost(used), target, StatusKind::Bleed, 1, events);
            },
            _ => {},
        }
        draws
    }

    /// Applies the effects of a card that was just paid for; returns the draw it asks for.
    pub fn apply_card_effects(&mut self, card: CardId, target: usize, events: &mut Vec<CombatEvent>) -> (draws: u8)
        requires
            old(self)@.wf(),
            old(self).player.fighter.block <= PLAY_BLOCK_LIMIT,
            spec_card_def(card).target is Enemy ==> target < old(self).enemies.len(),
        ensures
            (final(self)@, draws) == spec_card_effects(old(self)@, card, target),
            step_frame(old(self)@, final(self)@, 300, 0),
            appends(final(events)@, old(events)@),
            draws <= 3,
            deck_grows(old(self)@.deck, final(self)@.deck),
    {
        proof {
            reveal(spec_card_effects);
        }
        match card {
            CardId::FlareSlash | CardId::FlareSlashPlus | CardId::GuardStep | CardId::GuardStepPlus | CardId::Slipstream => self.card_effects_1(card, target, events),
            CardId::SlipstreamPlus | CardId::SunderingArc | CardId::SunderingArcPlus | CardId::QuickStrike => self.card_effects_2(card, target, events),
            CardId::QuickStrikePlus | CardId::PinpointJab | CardId::PinpointJabPlus | CardId::SignalTap => self.card_effects_3(card, target, events),
            CardId::SignalTapPlus | CardId::Reinforce | CardId::ReinforcePlus | CardId::PressurePoint => self.card_effects_4(card, target, events),
            CardId::PressurePointPlus | CardId::BurstArray | CardId::BurstArrayPlus | CardId::CoverPulse | CardId::CoverPulsePlus => self.card_effects_5(card, target, events),
            CardId::TwinStrike | CardId::TwinStrikePlus | CardId::BarrierField | CardId::BarrierFieldPlus => self.card_effects_6(card, target, events),
            CardId::TacticalBurst | CardId::TacticalBurstPlus | CardId::RazorNet | CardId::RazorNetPlus => self.card_effects_7(card, target, events),
            CardId::FracturePulse | CardId::FracturePulsePlus | CardId::VectorLock | CardId::VectorLockPlus => self.card_effects_8(card, target, events),
            CardId::BreachSignal | CardId::BreachSignalPlus | CardId::AnchorLoop | CardId::AnchorLoopPlus | CardId::ExecutionBeam => self.card_effects_9(card, target, events),
            CardId::ExecutionBeamPlus | CardId::ChainBarrage | CardId::ChainBarragePlus | CardId::FortressMatrix => self.card_effects_10(card, target, events),
            CardId::FortressMatrixPlus | CardId::OverwatchGrid | CardId::OverwatchGridPlus | CardId::RiftDart => self.card_effects_11(card, target, events),
            CardId::RiftDartPlus | CardId::MarkPulse | CardId::MarkPulsePlus | CardId::BraceCircuit => self.card_effects_12(card, target, events),
            CardId::BraceCircuitPlus | CardId::FaultShot | CardId::FaultShotPlus | CardId::SeverArc | CardId::SeverArcPlus => self.card_effects_13(card, target, events),
            CardId::Lockbreaker | CardId::LockbreakerPlus | CardId::CounterLattice | CardId::CounterLatticePlus => self.card_effects_14(card, target, events),
            CardId::TerminalLoop | CardId::TerminalLoopPlus | CardId::ZeroPoint | CardId::ZeroPointPlus => self.card_effects_15(card, target, events),
            CardId::ArcSpark | CardId::ArcSparkPlus | CardId::CapacitiveShell | CardId::CapacitiveShellPlus => self.card_effects_16(card, target, events),
            CardId::PrimeRoutine | CardId::PrimeRoutinePlus | CardId::Stockpile | CardId::StockpilePlus | CardId::PulseConverter => self.card_effects_17(card, target, events),
            CardId::PulseConverterPlus | CardId::ReservoirGuard | CardId::ReservoirGuardPlus | CardId::VoltaicDrive => self.card_effects_18(card, target, events),
            CardId::VoltaicDrivePlus | CardId::StormVault | CardId::StormVaultPlus | CardId::SparkSmith => self.card_effects_19(card, target, events),
            CardId::SparkSmithPlus | CardId::PatchBay | CardId::PatchBayPlus | CardId::TracerWeave => self.card_effects_20(card, target, events),
            CardId::TracerWeavePlus | CardId::NeedleNest | CardId::NeedleNestPlus | CardId::AssemblyLine | CardId::AssemblyLinePlus => self.card_effects_21(card, target, events),
            CardId::ToolCache | CardId::ToolCachePlus | CardId::ImprovisedArsenal | CardId::ImprovisedArsenalPlus => self.card_effects_22(card, target, events),
            CardId::ForgeStorm | CardId::ForgeStormPlus | CardId::SweepPulse | CardId::SweepPulsePlus => self.card_effects_23(card, target, events),
            CardId::DimmingWave | CardId::DimmingWavePlus | CardId::ShrapnelVeil | CardId::ShrapnelVeilPlus => self.card_effects_24(card, target, events),
            CardId::ScouringWind | CardId::ScouringWindPlus | CardId::CollapsePattern | CardId::CollapsePatternPlus | CardId::Linebreaker => self.card_effects_25(card, target, events),
            CardId::LinebreakerPlus | CardId::NovaCollapse | CardId::NovaCollapsePlus | CardId::SuppressionNet => self.card_effects_26(card, target, events),
            CardId::SuppressionNetPlus | CardId::RazorRush | CardId::RazorRushPlus | CardId::HardReset => self.card_effects_27(card, target, events),
            CardId::HardResetPlus | CardId::EmergencyPlating | CardId::EmergencyPlatingPlus | CardId::Cauterize => self.card_effects_28(card, target, events),
            CardId::CauterizePlus | CardId::EmberBurst | CardId::EmberBurstPlus | CardId::AshenVector => self.card_effects_29(card, target, events),
            CardId::AshenVectorPlus | CardId::PurgeArray | CardId::PurgeArrayPlus => self.card_effects_30(card, target, events),
            CardId::LastProtocol | CardId::LastProtocolPlus | CardId::Spark => self.card_effects_31(card, target, events),
            CardId::Patch | CardId::Tracer | CardId::Needler => self.card_effects_32(card, target, events),
        }
    }
}

/// The effects of the cards of `card_effects_1`: the combat after them and the draw they ask for.
#[verifier::opaque]
pub open spec fn spec_card_effects_1(m: CombatModel, card: CardId, target: usize) -> (CombatModel, u8) {
    match card {
        CardId::FlareSlash => {
            let d = 0u8;
            let m = spec_fx_hit(m, target, 8i32);
            (m, d)
        },
        CardId::FlareSlashPlus => {
            let d = 0u8;
            let m = spec_fx_hit(m, target, 12i32);
            (m, d)
        },
        CardId::GuardStep => {
            let d = 0u8;
            let m = spec_fx_block(m, 8i32);
            (m, d)
        },
        CardId::GuardStepPlus => {
            let d = 0u8;
            let m = spec_fx_block(m, 12i32);
            (m, d)
        },
        CardId::Slipstream => {
            let d = 0u8;
            let m = spec_fx_self_status(m, StatusKind::Rhythm, 1i8);
            let m = spec_fx_block(m, 3i32);
            let d = 1u8;
            (m, d)
        },
        _ => (m, 0),
    }
}

/// The effects of the cards of `card_effects_2`: the combat after them and the draw they ask for.
#[verifier::opaque]
pub open spec fn spec_card_effects_2(m: CombatModel, card: CardId, target: usize) -> (CombatModel, u8) {
    match card {
        CardId::SlipstreamPlus => {
            let d = 0u8;
            let m = spec_fx_self_status(m, StatusKind::Rhythm, 1i8);
            let m = spec_fx_block(m, 6i32);
            let d = 1u8;
            (m, d)
        },
        CardId::SunderingArc => {
            let d = 0u8;
            let m = spec_fx_hit(m, target, 16i32);
            let m = spec_fx_enemy_status(m, target, StatusKind::Momentum, -1i8);
            (m, d)
        },
        CardId::SunderingArcPlus => {
            let d = 0u8;
            let m = spec_fx_hit(m, target, 21i32);
            let m = spec_fx_enemy_status(m, target, StatusKind::Momentum, -1i8);
            (m, d)
        },
        CardId::QuickStrike => {
            let d = 0u8;
            let m = spec_fx_hit(m, target, 7i32);
            let d = 1u8;
            (m, d)
        },
        _ => (m, 0),
    }
}

/// The effects of the cards of `card_effects_3`: the combat after them and the draw they ask for.
#[verifier::opaque]
pub open spec fn spec_card_effects_3(m: CombatModel, card: CardId, target: usize) -> (CombatModel, u8) {
    match card {
        CardId::QuickStrikePlus => {
            let d = 0u8;
            let m = spec_fx_hit(m, target, 9i32);
            let d = 1u8;
            (m, d)
        },
        CardId::PinpointJab => {
            let d = 0u8;
            let m = spec_fx_hit(m, target, 7i32);
            let m = spec_fx_enemy_status(m, target, StatusKind::Bleed, 1i8);
            (m, d)
        },
        CardId::PinpointJabPlus => {
            let d = 0u8;
            let m = spec_fx_hit(m, target, 9i32);
            let m = spec_fx_enemy_status(m, target, StatusKind::Bleed, 1i8);
            (m, d)
        },
        CardId::SignalTap => {
            let d = 0u8;
            let m = spec_fx_enemy_status(m, target, StatusKind::Momentum, -1i8);
            let d = 1u8;
            (m, d)
        },
        _ => (m, 0),
    }
}

/// The effects of the cards of `card_effects_4`: the combat after them and the draw they ask for.
#[verifier::opaque]
pub open spec fn spec_card_effects_4(m: CombatModel, card: CardId, target: usize) -> (CombatModel, u8) {
    match card {
        CardId::SignalTapPlus => {
            let d = 0u8;
            let m = spec_fx_enemy_status(m, target, StatusKind::Momentum, -1i8);
            let m = spec_fx_block(m, 5i32);
            let d = 1u8;
            (m, d)
        },
        CardId::Reinforce => {
            let d = 0u8;
            let m = spec_fx_self_status(m, StatusKind::Rhythm, 1i8);
            let m = spec_fx_block(m, 13i32);
            (m, d)
        },
        CardId::ReinforcePlus => {
            let d = 0u8;
            let m = spec_fx_self_status(m, StatusKind::Rhythm, 2i8);
            let m = spec_fx_block(m, 18i32);
            (m, d)
        },
        CardId::PressurePoint => {
            let d = 0u8;
            let m = spec_fx_hit(m, target, 5i32);
            let m = spec_fx_enemy_status(m, target, StatusKind::Focus, -1i8);
            (m, d)
        },
        _ => (m, 0),
    }
}

/// The effects of the cards of `card_effects_5`: the combat after them and the draw they ask for.
#[verifier::opaque]
pub open spec fn spec_card_effects_5(m: CombatModel, card: CardId, target: usize) -> (CombatModel, u8) {
    match card {
        CardId::PressurePointPlus => {
            let d = 0u8;
            let m = spec_fx_hit(m, target, 8i32);
            let m = spec_fx_enemy_status(m, target, StatusKind::Focus, -2i8);
            (m, d)
        },
        CardId::BurstArray => {
            let d = 0u8;
            let m = spec_fx_hit(m, target, 4i32);
            let (m, d) = if m.enemies[target as int].fighter.hp > 0 {
                let m = spec_fx_hit(m, target, 4i32);
                (m, d)
            } else {
                (m, d)
            };
            let (m, d) = if m.enemies[target as int].fighter.hp > 0 {
                let m = spec_fx_hit(m, target, 4i32);
                (m, d)
            } else {
                (m, d)
            };
            (m, d)
        },
        CardId::BurstArrayPlus => {
            let d = 0u8;
            let m = spec_fx_hit(m, target, 5i32);
            let (m, d) = if m.enemies[target as int].fighter.hp > 0 {
                let m = spec_fx_hit(m, target, 5i32);
                (m, d)
            } else {
                (m, d)
            };
            let (m, d) = if m.enemies[target as int].fighter.hp > 0 {
                let m = spec_fx_hit(m, target, 5i32);
                (m, d)
            } else {
                (m, d)
            };
            (m, d)
        },
        CardId::CoverPulse => {
            let d = 0u8;
            let m = spec_fx_block(m, 10i32);
            let d = 1u8;
            (m, d)
        },
        CardId::CoverPulsePlus => {
            let d = 0u8;
            let m = spec_fx_block(m, 13i32);
            let d = 1u8;
            (m, d)
        },
        _ => (m, 0),
    }
}

/// The effects of the cards of `card_effects_6`: the combat after them and the draw they ask for.
#[verifier::opaque]
pub open spec fn spec_card_effects_6(m: CombatModel, card: CardId, target: usize) -> (CombatModel, u8) {
    match card {
        CardId::TwinStrike => {
            let d = 0u8;
            let m = spec_fx_hit(m, target, 5i32);
            let (m, d) = if m.enemies[target as int].fighter.hp > 0 {
                let m = spec_fx_hit(m, target, 5i32);
                (m, d)
            } else {
                (m, d)
            };
            (m, d)
        },
        CardId::TwinStrikePlus => {
            let d = 0u8;
            let m = spec_fx_hit(m, target, 7i32);
            let (m, d) = if m.enemies[target as int].fighter.hp > 0 {
                let m = spec_fx_hit(m, target, 7i32);
                (m, d)
            } else {
                (m, d)
            };
            (m, d)
        },
        CardId::BarrierField => {
            let d = 0u8;
            let m = spec_fx_block(m, 16i32);
            let m = spec_fx_enemy_status(m, target, StatusKind::Focus, -1i8);
            (m, d)
        },
        CardId::BarrierFieldPlus => {
            let d = 0u8;
            let m = spec_fx_block(m, 21i32);
            let m = spec_fx_enemy_status(m, target, StatusKind::Focus, -2i8);
            (m, d)
        },
        _ => (m, 0),
    }
}

/// The effects of the cards of `card_effects_7`: the combat after them and the draw they ask for.
#[verifier::opaque]
pub open spec fn spec_card_effects_7(m: CombatModel, card: CardId, target: usize) -> (CombatModel, u8) {
    match card {
        CardId::TacticalBurst => {
            let d = 0u8;
            let m = spec_fx_self_status(m, StatusKind::Focus, 1i8);
            let d = 2u8;
            (m, d)
        },
        CardId::TacticalBurstPlus => {
            let d = 0u8;
            let m = spec_fx_self_status(m, StatusKind::Focus, 2i8);
            let d = 2u8;
            (m, d)
        },
        CardId::RazorNet => {
            let d = 0u8;
            let m = spec_fx_hit(m, target, 5i32);
            let (m, d) = if m.enemies[target as int].fighter.hp > 0 {
                let m = spec_fx_hit(m, target, 5i32);
                (m, d)
            } else {
                (m, d)
            };
            let m = spec_fx_enemy_status(m, target, StatusKind::Bleed, 2i8);
            (m, d)
        },
        CardId::RazorNetPlus => {
            let d = 0u8;
            let m = spec_fx_hit(m, target, 7i32);
            let (m, d) = if m.enemies[target as int].fighter.hp > 0 {
                let m = spec_fx_hit(m, target, 7i32);
                (m, d)
            } else {
                (m, d)
            };
            let m = spec_fx_enemy_status(m, target, StatusKind::Bleed, 2i8);
            (m, d)
        },
        _ => (m, 0),
    }
}

/// The effects of the cards of `card_effects_8`: the combat after them and the draw they ask for.
#[verifier::opaque]
pub open spec fn spec_card_effects_8(m: CombatModel, card: CardId, target: usize) -> (CombatModel, u8) {
    match card {
        CardId::FracturePulse => {
            let d = 0u8;
            let m = spec_fx_hit(m, target, 12i32);
            let m = spec_fx_enemy_status(m, target, StatusKind::Bleed, 3i8);
            (m, d)
        },
        CardId::FracturePulsePlus => {
            let d = 0u8;
            let m = spec_fx_hit(m, target, 16i32);
            let m = spec_fx_enemy_status(m, target, StatusKind::Bleed, 3i8);
            (m, d)
        },
        CardId::VectorLock => {
            let d = 0u8;
            let m = spec_fx_hit(m, target, 8i32);
            let m = spec_fx_enemy_status(m, target, StatusKind::Momentum, -2i8);
            let m = spec_fx_block(m, 8i32);
            (m, d)
        },
        CardId::VectorLockPlus => {
            let d = 0u8;
            let m = spec_fx_hit(m, target, 11i32);
            let m = spec_fx_enemy_status(m, target, StatusKind::Momentum, -2i8);
            let m = spec_fx_block(m, 10i32);
            (m, d)
        },
        _ => (m, 0),
    }
}

/// The effects of the cards of `card_effects_9`: the combat after them and the draw they ask for.
#[verifier::opaque]
pub open spec fn spec_card_effects_9(m: CombatModel, card: CardId, target: usize) -> (CombatModel, u8) {
    match card {
        CardId::BreachSignal => {
            let d = 0u8;
            let m = spec_fx_hit(m, target, 9i32);
            let m = spec_fx_enemy_status(m, target, StatusKind::Momentum, -2i8);
            let d = 1u8;
            (m, d)
        },
        CardId::BreachSignalPlus => {
            let d = 0u8;
            let m = spec_fx_hit(m, target, 12i32);
            let m = spec_fx_enemy_status(m, target, StatusKind::Momentum, -2i8);
            let d = 1u8;
            (m, d)
        },
        CardId::AnchorLoop => {
            let d = 0u8;
            let m = spec_fx_block(m, 22i32);
            let d = 2u8;
            (m, d)
        },
        CardId::AnchorLoopPlus => {
            let d = 0u8;
            let m = spec_fx_block(m, 27i32);
            let d = 2u8;
            (m, d)
        },
        CardId::ExecutionBeam => {
            let d = 0u8;
            let m = spec_fx_hit(m, target, 27i32);
            (m, d)
        },
        _ => (m, 0),
    }
}

/// The effects of the cards of `card_effects_10`: the combat after them and the draw they ask for.
#[verifier::opaque]
pub open spec fn spec_card_effects_10(m: CombatModel, card: CardId, target: usize) -> (CombatModel, u8) {
    match card {
        CardId::ExecutionBeamPlus => {
            let d = 0u8;
            let m = spec_fx_hit(m, target, 35i32);
            (m, d)
        },
        CardId::ChainBarrage => {
            let d = 0u8;
            let m = spec_fx_hit(m, target, 11i32);
            let (m, d) = if m.enemies[target as int].fighter.hp > 0 {
                let m = spec_fx_hit(m, target, 11i32);
                (m, d)
            } else {
                (m, d)
            };
            let m = spec_fx_enemy_status(m, target, StatusKind::Bleed, 2i8);
            (m, d)
        },
        CardId::ChainBarragePlus => {
            let d = 0u8;
            let m = spec_fx_hit(m, target, 13i32);
            let (m, d) = if m.enemies[target as int].fighter.hp > 0 {
                let m = spec_fx_hit(m, target, 13i32);
                (m, d)
            } else {
                (m, d)
            };
            let m = spec_fx_enemy_status(m, target, StatusKind::Bleed, 2i8);
            (m, d)
        },
        CardId::FortressMatrix => {
            let d = 0u8;
            let m = spec_fx_block(m, 26i32);
            let d = 1u8;
            (m, d)
        },
        _ => (m, 0),
    }
}

/// The effects of the cards of `card_effects_11`: the combat after them and the draw they ask for.
#[verifier::opaque]
pub open spec fn spec_card_effects_11(m: CombatModel, card: CardId, target: usize) -> (CombatModel, u8) {
    match card {
        CardId::FortressMatrixPlus => {
            let d = 0u8;
            let m = spec_fx_block(m, 32i32);
            let d = 1u8;
            (m, d)
        },
        CardId::OverwatchGrid => {
            let d = 0u8;
            let m = spec_fx_block(m, 29i32);
            let d = 2u8;
            (m, d)
        },
        CardId::OverwatchGridPlus => {
            let d = 0u8;
            let m = spec_fx_block(m, 35i32);
            let d = 2u8;
            (m, d)
        },
        CardId::RiftDart => {
            let d = 0u8;
            let enemy = target;
            let disrupted = m.axis(Actor::Enemy(enemy), AxisKind::Momentum) < 0;
            let m = spec_fx_hit(m, enemy, 5i32);
            let m = spec_fx_enemy_status(m, enemy, StatusKind::Bleed, 1i8);
            let (m, d) = if disrupted {
                let d = 1u8;
                (m, d)
            } else {
                (m, d)
            };
            (m, d)
        },
        _ => (m, 0),
    }
}

/// The effects of the cards of `card_effects_12`: the combat after them and the draw they ask for.
#[verifier::opaque]
pub open spec fn spec_card_effects_12(m: CombatModel, card: CardId, target: usize) -> (CombatModel, u8) {
    match card {
        CardId::RiftDartPlus => {
            let d = 0u8;
            let enemy = target;
            let disrupted = m.axis(Actor::Enemy(enemy), AxisKind::Momentum) < 0;
            let m = spec_fx_hit(m, enemy, 8i32);
            let m = spec_fx_enemy_status(m, enemy, StatusKind::Bleed, 1i8);
            let (m, d) = if disrupted {
                let d = 1u8;
                (m, d)
            } else {
                (m, d)
            };
            (m, d)
        },
        CardId::MarkPulse => {
            let d = 0u8;
            let enemy = target;
            let bleeding = spec_has_status(m.fighter(Actor::Enemy(enemy)).statuses, StatusKind::Bleed);
            let m = spec_fx_enemy_status(m, enemy, StatusKind::Momentum, -1i8);
            let (m, d) = if bleeding {
                let m = spec_fx_block(m, 6i32);
                (m, d)
            } else {
                (m, d)
            };
            (m, d)
        },
        CardId::MarkPulsePlus => {
            let d = 0u8;
            let enemy = target;
            let bleeding = spec_has_status(m.fighter(Actor::Enemy(enemy)).statuses, StatusKind::Bleed);
            let m = spec_fx_enemy_status(m, enemy, StatusKind::Momentum, -1i8);
            let (m, d) = if bleeding {
                let m = spec_fx_block(m, 10i32);
                (m, d)
            } else {
                (m, d)
            };
            (m, d)
        },
        CardId::BraceCircuit => {
            let d = 0u8;
            let had_block = m.player.fighter.block > 0;
            let m = spec_fx_block(m, 10i32);
            let (m, d) = if had_block {
                let d = 1u8;
                (m, d)
            } else {
                (m, d)
            };
            (m, d)
        },
        _ => (m, 0),
    }
}

/// The effects of the cards of `card_effects_13`: the combat after them and the draw they ask for.
#[verifier::opaque]
pub open spec fn spec_card_effects_13(m: CombatModel, card: CardId, target: usize) -> (CombatModel, u8) {
    match card {
        CardId::BraceCircuitPlus => {
            let d = 0u8;
            let had_block = m.player.fighter.block > 0;
            let m = spec_fx_block(m, 13i32);
            let (m, d) = if had_block {
                let d = 1u8;
                (m, d)
            } else {
                (m, d)
            };
            (m, d)
        },
        CardId::FaultShot => {
            let d = 0u8;
            let enemy = target;
            let primed = m.axis(Actor::Enemy(enemy), AxisKind::Focus) < 0;
            let m = spec_fx_hit(m, enemy, 7i32);
            let (m, d) = if primed {
                let m = spec_fx_self_status(m, StatusKind::Focus, 1i8);
                (m, d)
            } else {
                (m, d)
            };
            (m, d)
        },
        CardId::FaultShotPlus => {
            let d = 0u8;
            let enemy = target;
            let primed = m.axis(Actor::Enemy(enemy), AxisKind::Focus) < 0;
            let m = spec_fx_hit(m, enemy, 9i32);
            let (m, d) = if primed {
                let m = spec_fx_self_status(m, StatusKind::Focus, 1i8);
                (m, d)
            } else {
                (m, d)
            };
            (m, d)
        },
        CardId::SeverArc => {
            let d = 0u8;
            let enemy = target;
            let bleeding = spec_has_status(m.fighter(Actor::Enemy(enemy)).statuses, StatusKind::Bleed);
            let m = spec_fx_hit(m, enemy, 11i32);
            let (m, d) = if bleeding && m.enemies[enemy as int].fighter.hp > 0 {
                let m = spec_fx_hit(m, enemy, 11i32);
                (m, d)
            } else {
                (m, d)
            };
            (m, d)
        },
        CardId::SeverArcPlus => {
            let d = 0u8;
            let enemy = target;
            let bleeding = spec_has_status(m.fighter(Actor::Enemy(enemy)).statuses, StatusKind::Bleed);
            let m = spec_fx_hit(m, enemy, 13i32);
            let (m, d) = if bleeding && m.enemies[enemy as int].fighter.hp > 0 {
                let m = spec_fx_hit(m, enemy, 13i32);
                (m, d)
            } else {
                (m, d)
            };
            (m, d)
        },
        _ => (m, 0),
    }
}

/// The effects of the cards of `card_effects_14`: the combat after them and the draw they ask for.
#[verifier::opaque]
pub open spec fn spec_card_effects_14(m: CombatModel, card: CardId, target: usize) -> (CombatModel, u8) {
    match card {
        CardId::Lockbreaker => {
            let d = 0u8;
            let enemy = target;
            let disrupted = m.axis(Actor::Enemy(enemy), AxisKind::Focus) < 0;
            let m = spec_fx_hit(m, enemy, 8i32);
            let (m, d) = if disrupted {
                let m = spec_fx_enemy_status(m, enemy, StatusKind::Focus, -1i8);
                let m = spec_fx_block(m, 10i32);
                (m, d)
            } else {
                (m, d)
            };
            (m, d)
        },
        CardId::LockbreakerPlus => {
            let d = 0u8;
            let enemy = target;
            let disrupted = m.axis(Actor::Enemy(enemy), AxisKind::Focus) < 0;
            let m = spec_fx_hit(m, enemy, 11i32);
            let (m, d) = if disrupted {
                let m = spec_fx_enemy_status(m, enemy, StatusKind::Focus, -1i8);
                let m = spec_fx_block(m, 13i32);
                (m, d)
            } else {
                (m, d)
            };
            (m, d)
        },
        CardId::CounterLattice => {
            let d = 0u8;
            let enemy = target;
            let weakened = m.axis(Actor::Enemy(enemy), AxisKind::Focus) < 0;
            let m = spec_fx_hit(m, enemy, 8i32);
            let (m, d) = if weakened {
                let m = spec_fx_energy(m, 1u8);
                (m, d)
            } else {
                (m, d)
            };
            (m, d)
        },
        CardId::CounterLatticePlus => {
            let d = 0u8;
            let enemy = target;
            let weakened = m.axis(Actor::Enemy(enemy), AxisKind::Focus) < 0;
            let m = spec_fx_hit(m, enemy, 11i32);
            let (m, d) = if weakened {
                let m = spec_fx_energy(m, 1u8);
                (m, d)
            } else {
                (m, d)
            };
            (m, d)
        },
        _ => (m, 0),
    }
}

/// The effects of the cards of `card_effects_15`: the combat after them and the draw they ask for.
#[verifier::opaque]
pub open spec fn spec_card_effects_15(m: CombatModel, card: CardId, target: usize) -> (CombatModel, u8) {
    match card {
        CardId::TerminalLoop => {
            let d = 0u8;
            let enemy = target;
            let bleeding = spec_has_status(m.fighter(Actor::Enemy(enemy)).statuses, StatusKind::Bleed);
            let disrupted = m.axis(Actor::Enemy(enemy), AxisKind::Momentum) < 0;
            let m = spec_fx_hit(m, enemy, 16i32);
            let (m, d) = if bleeding {
                let d = 1u8;
                (m, d)
            } else {
                (m, d)
            };
            let (m, d) = if disrupted {
                let m = spec_fx_self_status(m, StatusKind::Focus, 1i8);
                (m, d)
            } else {
                (m, d)
            };
            (m, d)
        },
        CardId::TerminalLoopPlus => {
            let d = 0u8;
            let enemy = target;
            let bleeding = spec_has_status(m.fighter(Actor::Enemy(enemy)).statuses, StatusKind::Bleed);
            let disrupted = m.axis(Actor::Enemy(enemy), AxisKind::Momentum) < 0;
            let m = spec_fx_hit(m, enemy, 20i32);
            let (m, d) = if bleeding {
                let d = 1u8;
                (m, d)
            } else {
                (m, d)
            };
            let (m, d) = if disrupted {
                let m = spec_fx_self_status(m, StatusKind::Focus, 2i8);
                (m, d)
            } else {
                (m, d)
            };
            (m, d)
        },
        CardId::ZeroPoint => {
            let d = 0u8;
            let m = spec_fx_hit(m, target, 13i32);
            let m = spec_fx_enemy_status(m, target, StatusKind::Momentum, -2i8);
            let d = 1u8;
            (m, d)
        },
        CardId::ZeroPointPlus => {
            let d = 0u8;
            let m = spec_fx_hit(m, target, 19i32);
            let m = spec_fx_enemy_status(m, target, StatusKind::Momentum, -2i8);
            let d = 1u8;
            (m, d)
        },
        _ => (m, 0),
    }
}

/// The effects of the cards of `card_effects_16`: the combat after them and the draw they ask for.
#[verifier::opaque]
pub open spec fn spec_card_effects_16(m: CombatModel, card: CardId, target: usize) -> (CombatModel, u8) {
    match card {
        CardId::ArcSpark => {
            let d = 0u8;
            let m = spec_fx_hit(m, target, 5i32);
            let m = spec_fx_self_status(m, StatusKind::Momentum, 2i8);
            (m, d)
        },
        CardId::ArcSparkPlus => {
            let d = 0u8;
            let m = spec_fx_hit(m, target, 8i32);
            let m = spec_fx_self_status(m, StatusKind::Momentum, 3i8);
            (m, d)
        },
        CardId::CapacitiveShell => {
            let d = 0u8;
            let m = spec_fx_block(m, 8i32);
            let m = spec_fx_self_status(m, StatusKind::Momentum, 2i8);
            (m, d)
        },
        CardId::CapacitiveShellPlus => {
            let d = 0u8;
            let m = spec_fx_block(m, 13i32);
            let m = spec_fx_self_status(m, StatusKind::Momentum, 3i8);
            (m, d)
        },
        _ => (m, 0),
    }
}

/// The effects of the cards of `card_effects_17`: the combat after them and the draw they ask for.
#[verifier::opaque]
pub open spec fn spec_card_effects_17(m: CombatModel, card: CardId, target: usize) -> (CombatModel, u8) {
    match card {
        CardId::PrimeRoutine => {
            let d = 0u8;
            let m = spec_fx_self_status(m, StatusKind::Momentum, 2i8);
            let d = 2u8;
            (m, d)
        },
        CardId::PrimeRoutinePlus => {
            let d = 0u8;
            let m = spec_fx_self_status(m, StatusKind::Momentum, 3i8);
            let d = 3u8;
            (m, d)
        },
        CardId::Stockpile => {
            let d = 0u8;
            let m = spec_fx_self_status(m, StatusKind::Momentum, 3i8);
            (m, d)
        },
        CardId::StockpilePlus => {
            let d = 0u8;
            let m = spec_fx_self_status(m, StatusKind::Momentum, 4i8);
            (m, d)
        },
        CardId::PulseConverter => {
            let d = 0u8;
            let m = spec_fx_clear_focus(m, target);
            (m, d)
        },
        _ => (m, 0),
    }
}

/// The effects of the cards of `card_effects_18`: the combat after them and the draw they ask for.
#[verifier::opaque]
pub open spec fn spec_card_effects_18(m: CombatModel, card: CardId, target: usize) -> (CombatModel, u8) {
    match card {
        CardId::PulseConverterPlus => {
            let d = 0u8;
            let m = spec_fx_clear_focus(m, target);
            let d = 1u8;
            (m, d)
        },
        CardId::ReservoirGuard => {
            let d = 0u8;
            let m = spec_fx_block(m, 16i32);
            let (m, d) = if m.axis(Actor::Player, AxisKind::Momentum) > 1 {
                let m = spec_fx_energy(m, 1u8);
                (m, d)
            } else {
                (m, d)
            };
            (m, d)
        },
        CardId::ReservoirGuardPlus => {
            let d = 0u8;
            let m = spec_fx_block(m, 21i32);
            let (m, d) = if m.axis(Actor::Player, AxisKind::Momentum) > 1 {
                let m = spec_fx_energy(m, 1u8);
                (m, d)
            } else {
                (m, d)
            };
            (m, d)
        },
        CardId::VoltaicDrive => {
            let d = 0u8;
            let m = spec_fx_hit(m, target, 15i32);
            let (m, d) = if m.axis(Actor::Player, AxisKind::Momentum) > 1 {
                let d = 2u8;
                (m, d)
            } else {
                (m, d)
            };
            (m, d)
        },
        _ => (m, 0),
    }
}

/// The effects of the cards of `card_effects_19`: the combat after them and the draw they ask for.
#[verifier::opaque]
pub open spec fn spec_card_effects_19(m: CombatModel, card: CardId, target: usize) -> (CombatModel, u8) {
    match card {
        CardId::VoltaicDrivePlus => {
            let d = 0u8;
            let m = spec_fx_hit(m, target, 19i32);
            let (m, d) = if m.axis(Actor::Player, AxisKind::Momentum) > 1 {
                let d = 2u8;
                (m, d)
            } else {
                (m, d)
            };
            (m, d)
        },
        CardId::StormVault => {
            let d = 0u8;
            let m = spec_fx_zero_momentum(m);
            (m, d)
        },
        CardId::StormVaultPlus => {
            let d = 0u8;
            let m = spec_fx_zero_momentum(m);
            let d = 1u8;
            (m, d)
        },
        CardId::SparkSmith => {
            let d = 0u8;
            let m = spec_fx_create(m, CardId::Spark, true);
            let d = 1u8;
            (m, d)
        },
        _ => (m, 0),
    }
}

/// The effects of the cards of `card_effects_20`: the combat after them and the draw they ask for.
#[verifier::opaque]
pub open spec fn spec_card_effects_20(m: CombatModel, card: CardId, target: usize) -> (CombatModel, u8) {
    match card {
        CardId::SparkSmithPlus => {
            let d = 0u8;
            let m = spec_fx_create(m, CardId::Spark, true);
            let d = 2u8;
            (m, d)
        },
        CardId::PatchBay => {
            let d = 0u8;
            let m = spec_fx_block(m, 10i32);
            let m = spec_fx_create(m, CardId::Patch, true);
            (m, d)
        },
        CardId::PatchBayPlus => {
            let d = 0u8;
            let m = spec_fx_block(m, 13i32);
            let m = spec_fx_create(m, CardId::Patch, true);
            (m, d)
        },
        CardId::TracerWeave => {
            let d = 0u8;
            let m = spec_fx_hit(m, target, 5i32);
            let m = spec_fx_create(m, CardId::Tracer, true);
            (m, d)
        },
        _ => (m, 0),
    }
}

/// The effects of the cards of `card_effects_21`: the combat after them and the draw they ask for.
#[verifier::opaque]
pub open spec fn spec_card_effects_21(m: CombatModel, card: CardId, target: usize) -> (CombatModel, u8) {
    match card {
        CardId::TracerWeavePlus => {
            let d = 0u8;
            let m = spec_fx_hit(m, target, 8i32);
            let m = spec_fx_create(m, CardId::Tracer, true);
            (m, d)
        },
        CardId::NeedleNest => {
            let d = 0u8;
            let m = spec_fx_hit(m, target, 4i32);
            let m = spec_fx_create(m, CardId::Needler, true);
            (m, d)
        },
        CardId::NeedleNestPlus => {
            let d = 0u8;
            let m = spec_fx_hit(m, target, 7i32);
            let m = spec_fx_create(m, CardId::Needler, true);
            (m, d)
        },
        CardId::AssemblyLine => {
            let d = 0u8;
            let m = spec_fx_create(m, CardId::Spark, true);
            let m = spec_fx_create(m, CardId::Patch, true);
            let d = 1u8;
            (m, d)
        },
        CardId::AssemblyLinePlus => {
            let d = 0u8;
            let m = spec_fx_create(m, CardId::Spark, true);
            let m = spec_fx_create(m, CardId::Patch, true);
            let d = 2u8;
            (m, d)
        },
        _ => (m, 0),
    }
}

/// The effects of the cards of `card_effects_22`: the combat after them and the draw they ask for.
#[verifier::opaque]
pub open spec fn spec_card_effects_22(m: CombatModel, card: CardId, target: usize) -> (CombatModel, u8) {
    match card {
        CardId::ToolCache => {
            let d = 0u8;
            let m = spec_fx_create(m, CardId::Tracer, true);
            let m = spec_fx_create(m, CardId::Needler, true);
            let d = 1u8;
            (m, d)
        },
        CardId::ToolCachePlus => {
            let d = 0u8;
            let m = spec_fx_create(m, CardId::Tracer, true);
            let m = spec_fx_create(m, CardId::Needler, true);
            let d = 2u8;
            (m, d)
        },
        CardId::ImprovisedArsenal => {
            let d = 0u8;
            let m = spec_fx_create(m, CardId::Spark, false);
            let m = spec_fx_create(m, CardId::Patch, false);
            let m = spec_fx_create(m, CardId::Tracer, false);
            let m = spec_fx_create(m, CardId::Needler, false);
            let d = 1u8;
            (m, d)
        },
        CardId::ImprovisedArsenalPlus => {
            let d = 0u8;
            let m = spec_fx_create(m, CardId::Spark, false);
            let m = spec_fx_create(m, CardId::Patch, false);
            let m = spec_fx_create(m, CardId::Tracer, false);
            let m = spec_fx_create(m, CardId::Needler, false);
            let d = 2u8;
            (m, d)
        },
        _ => (m, 0),
    }
}

/// The effects of the cards of `card_effects_23`: the combat after them and the draw they ask for.
#[verifier::opaque]
pub open spec fn spec_card_effects_23(m: CombatModel, card: CardId, target: usize) -> (CombatModel, u8) {
    match card {
        CardId::ForgeStorm => {
            let d = 0u8;
            let m = spec_fx_create(m, CardId::Spark, true);
            let m = spec_fx_create(m, CardId::Patch, true);
            let m = spec_fx_create(m, CardId::Tracer, true);
            let m = spec_fx_create(m, CardId::Needler, true);
            let d = 1u8;
            (m, d)
        },
        CardId::ForgeStormPlus => {
            let d = 0u8;
            let m = spec_fx_create(m, CardId::Spark, true);
            let m = spec_fx_create(m, CardId::Patch, true);
            let m = spec_fx_create(m, CardId::Tracer, true);
            let m = spec_fx_create(m, CardId::Needler, true);
            let d = 2u8;
            (m, d)
        },
        CardId::SweepPulse => {
            let d = 0u8;
            let m = spec_fx_hit_all(m, 5i32, false);
            (m, d)
        },
        CardId::SweepPulsePlus => {
            let d = 0u8;
            let m = spec_fx_hit_all(m, 8i32, false);
            (m, d)
        },
        _ => (m, 0),
    }
}

/// The effects of the cards of `card_effects_24`: the combat after them and the draw they ask for.
#[verifier::opaque]
pub open spec fn spec_card_effects_24(m: CombatModel, card: CardId, target: usize) -> (CombatModel, u8) {
    match card {
        CardId::DimmingWave => {
            let d = 0u8;
            let m = spec_fx_status_all(m, StatusKind::Focus, -1i8);
            (m, d)
        },
        CardId::DimmingWavePlus => {
            let d = 0u8;
            let m = spec_fx_status_all(m, StatusKind::Focus, -2i8);
            (m, d)
        },
        CardId::ShrapnelVeil => {
            let d = 0u8;
            let m = spec_fx_hit_all(m, 3i32, false);
            let m = spec_fx_block(m, 6i32);
            (m, d)
        },
        CardId::ShrapnelVeilPlus => {
            let d = 0u8;
            let m = spec_fx_hit_all(m, 4i32, false);
            let m = spec_fx_block(m, 10i32);
            (m, d)
        },
        _ => (m, 0),
    }
}

/// The effects of the cards of `card_effects_25`: the combat after them and the draw they ask for.
#[verifier::opaque]
pub open spec fn spec_card_effects_25(m: CombatModel, card: CardId, target: usize) -> (CombatModel, u8) {
    match card {
        CardId::ScouringWind => {
            let d = 0u8;
            let m = spec_fx_hit_all(m, 8i32, false);
            let m = spec_fx_status_all(m, StatusKind::Bleed, 1i8);
            (m, d)
        },
        CardId::ScouringWindPlus => {
            let d = 0u8;
            let m = spec_fx_hit_all(m, 11i32, false);
            let m = spec_fx_status_all(m, StatusKind::Bleed, 2i8);
            (m, d)
        },
        CardId::CollapsePattern => {
            let d = 0u8;
            let m = spec_fx_status_all(m, StatusKind::Momentum, -1i8);
            let d = 1u8;
            (m, d)
        },
        CardId::CollapsePatternPlus => {
            let d = 0u8;
            let m = spec_fx_status_all(m, StatusKind::Momentum, -2i8);
            let d = 1u8;
            (m, d)
        },
        CardId::Linebreaker => {
            let d = 0u8;
            let m = spec_fx_hit_all(m, 7i32, true);
            (m, d)
        },
        _ => (m, 0),
    }
}

/// The effects of the cards of `card_effects_26`: the combat after them and the draw they ask for.
#[verifier::opaque]
pub open spec fn spec_card_effects_26(m: CombatModel, card: CardId, target: usize) -> (CombatModel, u8) {
    match card {
        CardId::LinebreakerPlus => {
            let d = 0u8;
            let m = spec_fx_hit_all(m, 9i32, true);
            (m, d)
        },
        CardId::NovaCollapse => {
            let d = 0u8;
            let m = spec_fx_hit_all(m, 12i32, true);
            (m, d)
        },
        CardId::NovaCollapsePlus => {
            let d = 0u8;
            let m = spec_fx_hit_all(m, 16i32, true);
            (m, d)
        },
        CardId::SuppressionNet => {
            let d = 0u8;
            let m = spec_fx_block(m, 13i32);
            let m = spec_fx_status_all(m, StatusKind::Focus, -1i8);
            let m = spec_fx_status_all(m, StatusKind::Momentum, -1i8);
            (m, d)
        },
        _ => (m, 0),
    }
}

/// The effects of the cards of `card_effects_27`: the combat after them and the draw they ask for.
#[verifier::opaque]
pub open spec fn spec_card_effects_27(m: CombatModel, card: CardId, target: usize) -> (CombatModel, u8) {
    match card {
        CardId::SuppressionNetPlus => {
            let d = 0u8;
            let m = spec_fx_block(m, 18i32);
            let m = spec_fx_status_all(m, StatusKind::Focus, -2i8);
            let m = spec_fx_status_all(m, StatusKind::Momentum, -1i8);
            (m, d)
        },
        CardId::RazorRush => {
            let d = 0u8;
            let m = spec_fx_hit(m, target, 9i32);
            (m, d)
        },
        CardId::RazorRushPlus => {
            let d = 0u8;
            let m = spec_fx_hit(m, target, 13i32);
            (m, d)
        },
        CardId::HardReset => {
            let d = 0u8;
            let d = 2u8;
            (m, d)
        },
        _ => (m, 0),
    }
}

/// The effects of the cards of `card_effects_28`: the combat after them and the draw they ask for.
#[verifier::opaque]
pub open spec fn spec_card_effects_28(m: CombatModel, card: CardId, target: usize) -> (CombatModel, u8) {
    match card {
        CardId::HardResetPlus => {
            let d = 0u8;
            let d = 3u8;
            (m, d)
        },
        CardId::EmergencyPlating => {
            let d = 0u8;
            let m = spec_fx_block(m, 19i32);
            (m, d)
        },
        CardId::EmergencyPlatingPlus => {
            let d = 0u8;
            let m = spec_fx_block(m, 26i32);
            (m, d)
        },
        CardId::Cauterize => {
            let d = 0u8;
            let m = spec_fx_hit(m, target, 7i32);
            let m = spec_fx_enemy_status(m, target, StatusKind::Focus, -1i8);
            let m = spec_fx_enemy_status(m, target, StatusKind::Rhythm, -1i8);
            (m, d)
        },
        _ => (m, 0),
    }
}

/// The effects of the cards of `card_effects_29`: the combat after them and the draw they ask for.
#[verifier::opaque]
pub open spec fn spec_card_effects_29(m: CombatModel, card: CardId, target: usize) -> (CombatModel, u8) {
    match card {
        CardId::CauterizePlus => {
            let d = 0u8;
            let m = spec_fx_hit(m, target, 9i32);
            let m = spec_fx_enemy_status(m, target, StatusKind::Focus, -2i8);
            let m = spec_fx_enemy_status(m, target, StatusKind::Rhythm, -1i8);
            (m, d)
        },
        CardId::EmberBurst => {
            let d = 0u8;
            let m = spec_fx_energy(m, 1u8);
            let d = 1u8;
            (m, d)
        },
        CardId::EmberBurstPlus => {
            let d = 0u8;
            let m = spec_fx_energy(m, 1u8);
            let d = 2u8;
            (m, d)
        },
        CardId::AshenVector => {
            let d = 0u8;
            let m = spec_fx_hit(m, target, 16i32);
            let d = 1u8;
            (m, d)
        },
        _ => (m, 0),
    }
}

/// The effects of the cards of `card_effects_30`: the combat after them and the draw they ask for.
#[verifier::opaque]
pub open spec fn spec_card_effects_30(m: CombatModel, card: CardId, target: usize) -> (CombatModel, u8) {
    match card {
        CardId::AshenVectorPlus => {
            let d = 0u8;
            let m = spec_fx_hit(m, target, 20i32);
            let d = 2u8;
            (m, d)
        },
        CardId::PurgeArray => {
            let d = 0u8;
            let m = spec_fx_hit_all(m, 9i32, false);
            let m = spec_fx_hit_all(m, 9i32, false);
            (m, d)
        },
        CardId::PurgeArrayPlus => {
            let d = 0u8;
            let m = spec_fx_hit_all(m, 12i32, false);
            let m = spec_fx_hit_all(m, 12i32, false);
            (m, d)
        },
        _ => (m, 0),
    }
}

/// The effects of the cards of `card_effects_31`: the combat after them and the draw they ask for.
#[verifier::opaque]
pub open spec fn spec_card_effects_31(m: CombatModel, card: CardId, target: usize) -> (CombatModel, u8) {
    match card {
        CardId::LastProtocol => {
            let d = 0u8;
            let m = spec_fx_hit(m, target, 24i32);
            let m = spec_fx_energy(m, 1u8);
            let d = 1u8;
            (m, d)
        },
        CardId::LastProtocolPlus => {
            let d = 0u8;
            let m = spec_fx_hit(m, target, 30i32);
            let m = spec_fx_energy(m, 1u8);
            let d = 2u8;
            (m, d)
        },
        CardId::Spark => {
            let d = 0u8;
            let m = spec_fx_hit(m, target, 5i32);
            (m, d)
        },
        _ => (m, 0),
    }
}

/// The effects of the cards of `card_effects_32`: the combat after them and the draw they ask for.
#[verifier::opaque]
pub open spec fn spec_card_effects_32(m: CombatModel, card: CardId, target: usize) -> (CombatModel, u8) {
    match card {
        CardId::Patch => {
            let d = 0u8;
            let m = spec_fx_block(m, 8i32);
            (m, d)
        },
        CardId::Tracer => {
            let d = 0u8;
            let m = spec_fx_enemy_status(m, target, StatusKind::Rhythm, -1i8);
            (m, d)
        },
        CardId::Needler => {
            let d = 0u8;
            let m = spec_fx_hit(m, target, 3i32);
            let m = spec_fx_enemy_status(m, target, StatusKind::Bleed, 1i8);
            (m, d)
        },
        _ => (m, 0),
    }
}

/// What playing a card does once it is paid for: the combat after its effects, in the order the
/// rules apply them, and the number of cards it then asks to draw.
#[verifier::opaque]
pub open spec fn spec_card_effects(m: CombatModel, card: CardId, target: usize) -> (CombatModel, u8) {
    match card {
        CardId::FlareSlash | CardId::FlareSlashPlus | CardId::GuardStep | CardId::GuardStepPlus | CardId::Slipstream => spec_card_effects_1(m, card, target),
        CardId::SlipstreamPlus | CardId::SunderingArc | CardId::SunderingArcPlus | CardId::QuickStrike => spec_card_effects_2(m, card, target),
        CardId::QuickStrikePlus | CardId::PinpointJab | CardId::PinpointJabPlus | CardId::SignalTap => spec_card_effects_3(m, card, target),
        CardId::SignalTapPlus | CardId::Reinforce | CardId::ReinforcePlus | CardId::PressurePoint => spec_card_effects_4(m, card, target),
        CardId::PressurePointPlus | CardId::BurstArray | CardId::BurstArrayPlus | CardId::CoverPulse | CardId::CoverPulsePlus => spec_card_effects_5(m, card, target),
        CardId::TwinStrike | CardId::TwinStrikePlus | CardId::BarrierField | CardId::BarrierFieldPlus => spec_card_effects_6(m, card, target),
        CardId::TacticalBurst | CardId::TacticalBurstPlus | CardId::RazorNet | CardId::RazorNetPlus => spec_card_effects_7(m, card, target),
        CardId::FracturePulse | CardId::FracturePulsePlus | CardId::VectorLock | CardId::VectorLockPlus => spec_card_effects_8(m, card, target),
        CardId::BreachSignal | CardId::BreachSignalPlus | CardId::AnchorLoop | CardId::AnchorLoopPlus | CardId::ExecutionBeam => spec_card_effects_9(m, card, target),
        CardId::ExecutionBeamPlus | CardId::ChainBarrage | CardId::ChainBarragePlus | CardId::FortressMatrix => spec_card_effects_10(m, card, target),
        CardId::FortressMatrixPlus | CardId::OverwatchGrid | CardId::OverwatchGridPlus | CardId::RiftDart => spec_card_effects_11(m, card, target),
        CardId::RiftDartPlus | CardId::MarkPulse | CardId::MarkPulsePlus | CardId::BraceCircuit => spec_card_effects_12(m, card, target),
        CardId::BraceCircuitPlus | CardId::FaultShot | CardId::FaultShotPlus | CardId::SeverArc | CardId::SeverArcPlus => spec_card_effects_13(m, card, target),
        CardId::Lockbreaker | CardId::LockbreakerPlus | CardId::CounterLattice | CardId::CounterLatticePlus => spec_card_effects_14(m, card, target),
        CardId::TerminalLoop | CardId::TerminalLoopPlus | CardId::ZeroPoint | CardId::ZeroPointPlus => spec_card_effects_15(m, card, target),
        CardId::ArcSpark | CardId::ArcSparkPlus | CardId::CapacitiveShell | CardId::CapacitiveShellPlus => spec_card_effects_16(m, card, target),
        CardId::PrimeRoutine | CardId::PrimeRoutinePlus | CardId::Stockpile | CardId::StockpilePlus | CardId::PulseConverter => spec_card_effects_17(m, card, target),
        CardId::PulseConverterPlus | CardId::ReservoirGuard | CardId::ReservoirGuardPlus | CardId::VoltaicDrive => spec_card_effects_18(m, card, target),
        CardId::VoltaicDrivePlus | CardId::StormVault | CardId::StormVaultPlus | CardId::SparkSmith => spec_card_effects_19(m, card, target),
        CardId::SparkSmithPlus | CardId::PatchBay | CardId::PatchBayPlus | CardId::TracerWeave => spec_card_effects_20(m, card, target),
        CardId::TracerWeavePlus | CardId::NeedleNest | CardId::NeedleNestPlus | CardId::AssemblyLine | CardId::AssemblyLinePlus => spec_card_effects_21(m, card, target),
        CardId::ToolCache | CardId::ToolCachePlus | CardId::ImprovisedArsenal | CardId::ImprovisedArsenalPlus => spec_card_effects_22(m, card, target),
        CardId::ForgeStorm | CardId::ForgeStormPlus | CardId::SweepPulse | CardId::SweepPulsePlus => spec_card_effects_23(m, card, target),
        CardId::DimmingWave | CardId::DimmingWavePlus | CardId::ShrapnelVeil | CardId::ShrapnelVeilPlus => spec_card_effects_24(m, card, target),
        CardId::ScouringWind | CardId::ScouringWindPlus | CardId::CollapsePattern | CardId::CollapsePatternPlus | CardId::Linebreaker => spec_card_effects_25(m, card, target),
        CardId::LinebreakerPlus | CardId::NovaCollapse | CardId::NovaCollapsePlus | CardId::SuppressionNet => spec_card_effects_26(m, card, target),
        CardId::SuppressionNetPlus | CardId::RazorRush | CardId::RazorRushPlus | CardId::HardReset => spec_card_effects_27(m, card, target),
        CardId::HardResetPlus | CardId::EmergencyPlating | CardId::EmergencyPlatingPlus | CardId::Cauterize => spec_card_effects_28(m, card, target),
        CardId::CauterizePlus | CardId::EmberBurst | CardId::EmberBurstPlus | CardId::AshenVector => spec_card_effects_29(m, card, target),
        CardId::AshenVectorPlus | CardId::PurgeArray | CardId::PurgeArrayPlus => spec_card_effects_30(m, card, target),
        CardId::LastProtocol | CardId::LastProtocolPlus | CardId::Spark => spec_card_effects_31(m, card, target),
        CardId::Patch | CardId::Tracer | CardId::Needler => spec_card_effects_32(m, card, target),
    }
}


/// Whether a fighter with statuses `s` has `status` (Bleed stacks, or a nonzero axis).
pub open spec fn spec_has_status(s: StatusSet, status: StatusKind) -> bool {
    match status {
        StatusKind::Bleed => s.bleed > 0,
        StatusKind::Focus => s.focus != 0,
        StatusKind::Rhythm => s.rhythm != 0,
        StatusKind::Momentum => s.momentum != 0,
    }
}

/// Twin Strike strikes its target twice: against a living enemy that outlasts the first hit,
/// the second hit lands too, so the target's hit points and block together drop by the
/// Focus-scaled five damage once for each hit.
pub proof fn law_twin_strike_hits_twice(m: CombatModel, target: usize)
    requires
        m.wf(),
        target < m.enemies.len(),
        m.enemies[target as int].fighter.hp > 0,
        0 <= spec_scale_damage_amount(5, m.player.fighter.statuses),
        m.enemies[target as int].fighter.hp + m.enemies[target as int].fighter.block > 2 * spec_scale_damage_amount(
            5,
            m.player.fighter.statuses,
        ),
    ensures
        spec_card_effects(m, CardId::TwinStrike, target).0.enemies[target as int].fighter.hp + spec_card_effects(
            m,
            CardId::TwinStrike,
            target,
        ).0.enemies[target as int].fighter.block == m.enemies[target as int].fighter.hp + m.enemies[target as int].fighter.block
            - 2 * spec_scale_damage_amount(5, m.player.fighter.statuses),
{
    reveal(spec_card_effects);
    reveal(spec_card_effects_6);
}


/// The cards that strike their target once and do nothing else.
pub open spec fn is_single_strike(card: CardId) -> bool {
    match card {
        CardId::FlareSlash => true,
        CardId::FlareSlashPlus => true,
        CardId::QuickStrike => true,
        CardId::QuickStrikePlus => true,
        CardId::ExecutionBeam => true,
        CardId::ExecutionBeamPlus => true,
        CardId::RazorRush => true,
        CardId::RazorRushPlus => true,
        CardId::AshenVector => true,
        CardId::AshenVectorPlus => true,
        CardId::Spark => true,
        _ => false,
    }
}

/// The damage printed on a single-strike card.
pub open spec fn strike_damage(card: CardId) -> i32 {
    match card {
        CardId::FlareSlash => 8,
        CardId::FlareSlashPlus => 12,
        CardId::QuickStrike => 7,
        CardId::QuickStrikePlus => 9,
        CardId::ExecutionBeam => 27,
        CardId::ExecutionBeamPlus => 35,
        CardId::RazorRush => 9,
        CardId::RazorRushPlus => 13,
        CardId::AshenVector => 16,
        CardId::AshenVectorPlus => 20,
        CardId::Spark => 5,
        _ => 0,
    }
}

/// The cards a single-strike card draws after striking.
pub open spec fn strike_draws(card: CardId) -> u8 {
    match card {
        CardId::FlareSlash => 0,
        CardId::FlareSlashPlus => 0,
        CardId::QuickStrike => 1,
        CardId::QuickStrikePlus => 1,
        CardId::ExecutionBeam => 0,
        CardId::ExecutionBeamPlus => 0,
        CardId::RazorRush => 0,
        CardId::RazorRushPlus => 0,
        CardId::AshenVector => 1,
        CardId::AshenVectorPlus => 2,
        CardId::Spark => 0,
        _ => 0,
    }
}

/// A single-strike card takes its Focus-scaled damage from its target's hit points and block
/// together (all of them when the damage is larger) and draws the cards it names.
#[verifier::spinoff_prover]
#[verifier::rlimit(30)]
pub proof fn law_single_strike_cards(m: CombatModel, card: CardId, target: usize)
    requires
        m.wf(),
        target < m.enemies.len(),
        is_single_strike(card),
        0 <= spec_scale_damage_amount(strike_damage(card), m.player.fighter.statuses),
    ensures
        ({
            let s = spec_scale_damage_amount(strike_damage(card), m.player.fighter.statuses);
            let before = m.enemies[target as int].fighter;
            let after = spec_card_effects(m, card, target);
            &&& after.0.enemies[target as int].fighter.hp + after.0.enemies[target as int].fighter.block == (if before.hp
                + before.block > s {
                before.hp + before.block - s
            } else {
                0
            })
            &&& after.1 == strike_draws(card)
        }),
{
    reveal(spec_card_effects);
    match card {
        CardId::FlareSlash => {
            reveal(spec_card_effects_1);
        },
        CardId::FlareSlashPlus => {
            reveal(spec_card_effects_1);
        },
        CardId::QuickStrike => {
            reveal(spec_card_effects_2);
        },
        CardId::QuickStrikePlus => {
            reveal(spec_card_effects_3);
        },
        CardId::ExecutionBeam => {
            reveal(spec_card_effects_9);
        },
        CardId::ExecutionBeamPlus => {
            reveal(spec_card_effects_10);
        },
        CardId::RazorRush => {
            reveal(spec_card_effects_27);
        },
        CardId::RazorRushPlus => {
            reveal(spec_card_effects_27);
        },
        CardId::AshenVector => {
            reveal(spec_card_effects_29);
        },
        CardId::AshenVectorPlus => {
            reveal(spec_card_effects_30);
        },
        CardId::Spark => {
            reveal(spec_card_effects_31);
        },
        _ => {},
    }
}

/// The cards that only raise the player's block.
pub open spec fn is_plain_guard(card: CardId) -> bool {
    match card {
        CardId::GuardStep => true,
        CardId::GuardStepPlus => true,
        CardId::CoverPulse => true,
        CardId::CoverPulsePlus => true,
        CardId::AnchorLoop => true,
        CardId::AnchorLoopPlus => true,
        CardId::FortressMatrix => true,
        CardId::FortressMatrixPlus => true,
        CardId::OverwatchGrid => true,
        CardId::OverwatchGridPlus => true,
        CardId::EmergencyPlating => true,
        CardId::EmergencyPlatingPlus => true,
        CardId::Patch => true,
        _ => false,
    }
}

/// The block printed on a plain guard card.
pub open spec fn guard_block(card: CardId) -> i32 {
    match card {
        CardId::GuardStep => 8,
        CardId::GuardStepPlus => 12,
        CardId::CoverPulse => 10,
        CardId::CoverPulsePlus => 13,
        CardId::AnchorLoop => 22,
        CardId::AnchorLoopPlus => 27,
        CardId::FortressMatrix => 26,
        CardId::FortressMatrixPlus => 32,
        CardId::OverwatchGrid => 29,
        CardId::OverwatchGridPlus => 35,
        CardId::EmergencyPlating => 19,
        CardId::EmergencyPlatingPlus => 26,
        CardId::Patch => 8,
        _ => 0,
    }
}

/// The cards a plain guard card draws after guarding.
pub open spec fn guard_draws(card: CardId) -> u8 {
    match card {
        CardId::GuardStep => 0,
        CardId::GuardStepPlus => 0,
        CardId::CoverPulse => 1,
        CardId::CoverPulsePlus => 1,
        CardId::AnchorLoop => 2,
        CardId::AnchorLoopPlus => 2,
        CardId::FortressMatrix => 1,
        CardId::FortressMatrixPlus => 1,
        CardId::OverwatchGrid => 2,
        CardId::OverwatchGridPlus => 2,
        CardId::EmergencyPlating => 0,
        CardId::EmergencyPlatingPlus => 0,
        CardId::Patch => 0,
        _ => 0,
    }
}

/// A plain guard card raises the player's block by its printed block scaled by the player's
/// Rhythm (nothing when that rounds to zero) and draws the cards it names.
#[verifier::spinoff_prover]
pub proof fn law_plain_guard_cards(m: CombatModel, card: CardId, target: usize)
    requires
        m.wf(),
        m.player.fighter.block <= PLAY_BLOCK_LIMIT,
        is_plain_guard(card),
    ensures
        ({
            let adjusted = spec_scale_axis_value(guard_block(card), m.player.fighter.statuses.rhythm);
            let after = spec_card_effects(m, card, target);
            &&& after.0.player.fighter.block == m.player.fighter.block + (if adjusted > 0 { adjusted } else { 0 })
            &&& after.1 == guard_draws(card)
        }),
{
    lemma_scale_bounds(guard_block(card), m.player.fighter.statuses.rhythm);
    reveal(spec_card_effects);
    match card {
        CardId::GuardStep => {
            reveal(spec_card_effects_1);
        },
        CardId::GuardStepPlus => {
            reveal(spec_card_effects_1);
        },
        CardId::CoverPulse => {
            reveal(spec_card_effects_5);
        },
        CardId::CoverPulsePlus => {
            reveal(spec_card_effects_5);
        },
        CardId::AnchorLoop => {
            reveal(spec_card_effects_9);
        },
        CardId::AnchorLoopPlus => {
            reveal(spec_card_effects_9);
        },
        CardId::FortressMatrix => {
            reveal(spec_card_effects_10);
        },
        CardId::FortressMatrixPlus => {
            reveal(spec_card_effects_11);
        },
        CardId::OverwatchGrid => {
            reveal(spec_card_effects_11);
        },
        CardId::OverwatchGridPlus => {
            reveal(spec_card_effects_11);
        },
        CardId::EmergencyPlating => {
            reveal(spec_card_effects_28);
        },
        CardId::EmergencyPlatingPlus => {
            reveal(spec_card_effects_28);
        },
        CardId::Patch => {
            reveal(spec_card_effects_32);
        },
        _ => {},
    }
}

/// The cards that strike their target once and then lay one status on it.
pub open spec fn is_marking_strike(card: CardId) -> bool {
    match card {
        CardId::SunderingArc => true,
        CardId::SunderingArcPlus => true,
        CardId::PinpointJab => true,
        CardId::PinpointJabPlus => true,
        CardId::PressurePoint => true,
        CardId::PressurePointPlus => true,
        CardId::FracturePulse => true,
        CardId::FracturePulsePlus => true,
        CardId::BreachSignal => true,
        CardId::BreachSignalPlus => true,
        CardId::ZeroPoint => true,
        CardId::ZeroPointPlus => true,
        CardId::Needler => true,
        _ => false,
    }
}

/// The damage printed on a marking strike.
pub open spec fn marking_damage(card: CardId) -> i32 {
    match card {
        CardId::SunderingArc => 16,
        CardId::SunderingArcPlus => 21,
        CardId::PinpointJab => 7,
        CardId::PinpointJabPlus => 9,
        CardId::PressurePoint => 5,
        CardId::PressurePointPlus => 8,
        CardId::FracturePulse => 12,
        CardId::FracturePulsePlus => 16,
        CardId::BreachSignal => 9,
        CardId::BreachSignalPlus => 12,
        CardId::ZeroPoint => 13,
        CardId::ZeroPointPlus => 19,
        CardId::Needler => 3,
        _ => 0,
    }
}

/// The status a marking strike lays.
pub open spec fn marking_status(card: CardId) -> StatusKind {
    match card {
        CardId::SunderingArc => StatusKind::Momentum,
        CardId::SunderingArcPlus => StatusKind::Momentum,
        CardId::PinpointJab => StatusKind::Bleed,
        CardId::PinpointJabPlus => StatusKind::Bleed,
        CardId::PressurePoint => StatusKind::Focus,
        CardId::PressurePointPlus => StatusKind::Focus,
        CardId::FracturePulse => StatusKind::Bleed,
        CardId::FracturePulsePlus => StatusKind::Bleed,
        CardId::BreachSignal => StatusKind::Momentum,
        CardId::BreachSignalPlus => StatusKind::Momentum,
        CardId::ZeroPoint => StatusKind::Momentum,
        CardId::ZeroPointPlus => StatusKind::Momentum,
        CardId::Needler => StatusKind::Bleed,
        _ => StatusKind::Bleed,
    }
}

/// The stacks of status a marking strike lays.
pub open spec fn marking_stacks(card: CardId) -> i8 {
    match card {
        CardId::SunderingArc => -1i8,
        CardId::SunderingArcPlus => -1i8,
        CardId::PinpointJab => 1i8,
        CardId::PinpointJabPlus => 1i8,
        CardId::PressurePoint => -1i8,
        CardId::PressurePointPlus => -2i8,
        CardId::FracturePulse => 3i8,
        CardId::FracturePulsePlus => 3i8,
        CardId::BreachSignal => -2i8,
        CardId::BreachSignalPlus => -2i8,
        CardId::ZeroPoint => -2i8,
        CardId::ZeroPointPlus => -2i8,
        CardId::Needler => 1i8,
        _ => 0i8,
    }
}

/// The cards a marking strike draws afterwards.
pub open spec fn marking_draws(card: CardId) -> u8 {
    match card {
        CardId::SunderingArc => 0,
        CardId::SunderingArcPlus => 0,
        CardId::PinpointJab => 0,
        CardId::PinpointJabPlus => 0,
        CardId::PressurePoint => 0,
        CardId::PressurePointPlus => 0,
        CardId::FracturePulse => 0,
        CardId::FracturePulsePlus => 0,
        CardId::BreachSignal => 1,
        CardId::BreachSignalPlus => 1,
        CardId::ZeroPoint => 1,
        CardId::ZeroPointPlus => 1,
        CardId::Needler => 0,
        _ => 0,
    }
}

/// A marking strike takes its Focus-scaled damage from its target's hit points and block
/// together (all of them when the damage is larger), then lays its status on the target, and
/// draws the cards it names.
#[verifier::spinoff_prover]
pub proof fn law_marking_strike_cards(m: CombatModel, card: CardId, target: usize)
    requires
        m.wf(),
        target < m.enemies.len(),
        is_marking_strike(card),
        0 <= spec_scale_damage_amount(marking_damage(card), m.player.fighter.statuses),
    ensures
        ({
            let s = spec_scale_damage_amount(marking_damage(card), m.player.fighter.statuses);
            let before = m.enemies[target as int].fighter;
            let after = spec_card_effects(m, card, target);
            &&& after.0.enemies[target as int].fighter.hp + after.0.enemies[target as int].fighter.block == (if before.hp
                + before.block > s {
                before.hp + before.block - s
            } else {
                0
            })
            &&& after.0.enemies[target as int].fighter.statuses == spec_status_after(before.statuses, marking_status(card), marking_stacks(card))
            &&& after.1 == marking_draws(card)
        }),
{
    reveal(spec_card_effects);
    match card {
        CardId::SunderingArc => {
            reveal(spec_card_effects_2);
        },
        CardId::SunderingArcPlus => {
            reveal(spec_card_effects_2);
        },
        CardId::PinpointJab => {
            reveal(spec_card_effects_3);
        },
        CardId::PinpointJabPlus => {
            reveal(spec_card_effects_3);
        },
        CardId::PressurePoint => {
            reveal(spec_card_effects_4);
        },
        CardId::PressurePointPlus => {
            reveal(spec_card_effects_5);
        },
        CardId::FracturePulse => {
            reveal(spec_card_effects_8);
        },
        CardId::FracturePulsePlus => {
            reveal(spec_card_effects_8);
        },
        CardId::BreachSignal => {
            reveal(spec_card_effects_9);
        },
        CardId::BreachSignalPlus => {
            reveal(spec_card_effects_9);
        },
        CardId::ZeroPoint => {
            reveal(spec_card_effects_15);
        },
        CardId::ZeroPointPlus => {
            reveal(spec_card_effects_15);
        },
        CardId::Needler => {
            reveal(spec_card_effects_32);
        },
        _ => {},
    }
}

/// The cards that strike their target twice (the second time only if it still stands), then may lay Bleed.
pub open spec fn is_double_strike(card: CardId) -> bool {
    match card {
        CardId::TwinStrike => true,
        CardId::TwinStrikePlus => true,
        CardId::RazorNet => true,
        CardId::RazorNetPlus => true,
        CardId::ChainBarrage => true,
        CardId::ChainBarragePlus => true,
        _ => false,
    }
}

/// The damage printed on each hit of a double strike.
pub open spec fn double_strike_damage(card: CardId) -> i32 {
    match card {
        CardId::TwinStrike => 5,
        CardId::TwinStrikePlus => 7,
        CardId::RazorNet => 5,
        CardId::RazorNetPlus => 7,
        CardId::ChainBarrage => 11,
        CardId::ChainBarragePlus => 13,
        _ => 0,
    }
}

/// The Bleed a double strike lays after its hits (0 for none).
pub open spec fn double_strike_bleed(card: CardId) -> i8 {
    match card {
        CardId::TwinStrike => 0i8,
        CardId::TwinStrikePlus => 0i8,
        CardId::RazorNet => 2i8,
        CardId::RazorNetPlus => 2i8,
        CardId::ChainBarrage => 2i8,
        CardId::ChainBarragePlus => 2i8,
        _ => 0i8,
    }
}

/// A double strike on a living target that outlasts its first hit lands both hits, so the
/// target's hit points and block together drop by the Focus-scaled damage twice; then it lays its
/// Bleed, and it draws nothing.
#[verifier::spinoff_prover]
#[verifier::rlimit(30)]
pub proof fn law_double_strike_cards(m: CombatModel, card: CardId, target: usize)
    requires
        m.wf(),
        target < m.enemies.len(),
        is_double_strike(card),
        m.enemies[target as int].fighter.hp > 0,
        0 <= spec_scale_damage_amount(double_strike_damage(card), m.player.fighter.statuses),
        m.enemies[target as int].fighter.hp + m.enemies[target as int].fighter.block > 2 * spec_scale_damage_amount(
            double_strike_damage(card),
            m.player.fighter.statuses,
        ),
    ensures
        ({
            let s = spec_scale_damage_amount(double_strike_damage(card), m.player.fighter.statuses);
            let before = m.enemies[target as int].fighter;
            let after = spec_card_effects(m, card, target);
            &&& after.0.enemies[target as int].fighter.hp + after.0.enemies[target as int].fighter.block == before.hp
                + before.block - 2 * s
            &&& after.0.enemies[target as int].fighter.statuses == (if double_strike_bleed(card) > 0 {
                spec_status_after(before.statuses, StatusKind::Bleed, double_strike_bleed(card))
            } else {
                before.statuses
            })
            &&& after.1 == 0
        }),
{
    reveal(spec_card_effects);
    match card {
        CardId::TwinStrike => {
            reveal(spec_card_effects_6);
        },
        CardId::TwinStrikePlus => {
            reveal(spec_card_effects_6);
        },
        CardId::RazorNet => {
            reveal(spec_card_effects_7);
        },
        CardId::RazorNetPlus => {
            reveal(spec_card_effects_7);
        },
        CardId::ChainBarrage => {
            reveal(spec_card_effects_10);
        },
        CardId::ChainBarragePlus => {
            reveal(spec_card_effects_10);
        },
        _ => {},
    }
}

} // verus!
