//! Playing cards, running turns and setting up combats.
use vstd::prelude::*;

use crate::content::{AxisKind, CardId, CardTarget, EnemyProfileId, ModuleId, card_def, card_requirement, enemy_intent, spec_card_def, spec_card_requirement, spec_starter_deck, starter_deck};
use crate::rng::{XorShift64, seed_state};
use crate::combat::{AMOUNT_LIMIT, Actor, BLOCK_HEADROOM, CombatAction, CombatCommand, CombatEvent, CombatModel, CombatOutcome, CombatState, DEFAULT_PLAYER_HP, DeckModel, DeckState, EncounterEnemySetup, EncounterSetup, EnemyState, FighterState, MAX_ENEMIES_PER_ENCOUNTER, PLAY_BLOCK_LIMIT, PlayerState, ResolvedEnemyIntent, StatusKind, StatusSet, TurnPhase, all_enemies_down, appends, axis_of, clamp_axis_value, default_enemies, default_enemy_setup, fighter_wf, is_alive, lemma_appends_trans, lemma_scale_bounds, lemma_set_fighter_frame, lemma_step_frame_trans, saturating_add_i8, scale_axis_value, shuffle, spec_after_block_gain, spec_after_damage, spec_check_outcome, spec_clamp_axis, spec_draw_cards, spec_draw_events, spec_end_of_turn_fighter, spec_saturating_add_i8, spec_scale_axis_value, spec_scale_damage_amount, spec_shuffle, spec_start_enemy_turn, spec_start_player_turn, spec_with_axis, step_frame};
use crate::card_effects::{deck_grows, map_living_enemies, spec_card_effects};
use crate::enemy_turn::{lemma_enemy_meta_frame, lemma_resolved_bounds, spec_enemies_act, spec_enemy_acts, spec_resolved_intent, spec_status_on};

verus! {

/// Why playing the card at `hand_index` against `target` is refused, if it is: outside the
/// player's turn, a slot that holds no card, an axis requirement not met, too little energy,
/// or an aimed card without a living enemy as its target (checked in that order).
pub open spec fn spec_play_rejection(m: CombatModel, hand_index: usize, target: Option<Actor>) -> Option<CombatEvent> {
    if m.phase != TurnPhase::PlayerTurn {
        Some(CombatEvent::InvalidAction { reason: "Cards can only be played on the player turn." })
    } else if hand_index >= m.deck.hand.len() {
        Some(CombatEvent::InvalidAction { reason: "That card is no longer in hand." })
    } else {
        let card = m.deck.hand[hand_index as int];
        let def = spec_card_def(card);
        let unmet = match spec_card_requirement(card) {
            Some(req) => m.axis(Actor::Player, req.axis) <= req.threshold,
            None => false,
        };
        if unmet {
            let req = spec_card_requirement(card).unwrap();
            Some(CombatEvent::RequirementNotMet {
                axis: req.axis,
                threshold: req.threshold,
                actual: m.axis(Actor::Player, req.axis),
            })
        } else if m.player.energy < def.cost {
            Some(CombatEvent::NotEnoughEnergy { needed: def.cost, available: m.player.energy })
        } else if def.target == CardTarget::Enemy && !(match target {
            Some(Actor::Enemy(i)) => m.enemy_alive(i as int),
            _ => false,
        }) {
            Some(CombatEvent::InvalidAction { reason: "Select a living enemy target." })
        } else {
            None
        }
    }
}

/// The combat once the card at `hand_index` is paid for: its cost leaves the player's energy
/// and the card moves from the hand to the top of the discard pile.
pub open spec fn spec_pay_for_card(m: CombatModel, hand_index: int) -> CombatModel {
    let card = m.deck.hand[hand_index];
    CombatModel {
        player: PlayerState { energy: (m.player.energy - spec_card_def(card).cost) as u8, ..m.player },
        deck: DeckModel {
            hand: m.deck.hand.remove(hand_index),
            discard_pile: m.deck.discard_pile.push(card),
            ..m.deck
        },
        ..m
    }
}

/// The enemy an accepted card is aimed at (`0` for a card that aims at no single enemy).
pub open spec fn spec_play_target(card: CardId, target: Option<Actor>) -> usize {
    if spec_card_def(card).target == CardTarget::Enemy {
        match target {
            Some(Actor::Enemy(i)) => i,
            _ => 0,
        }
    } else {
        0
    }
}

/// The combat after an accepted play of the card at `hand_index`: paid for, its effects applied,
/// the cards it asks for drawn, and the outcome checked (unless the fight already ended).
pub open spec fn spec_after_play(m: CombatModel, hand_index: usize, target: Option<Actor>) -> CombatModel {
    let card = m.deck.hand[hand_index as int];
    let (after, draws) = spec_card_effects(spec_pay_for_card(m, hand_index as int), card, spec_play_target(card, target));
    let drawn = if draws > 0 { spec_draw_cards(after, draws as nat) } else { after };
    if drawn.phase is Ended { drawn } else { spec_check_outcome(drawn) }
}

impl CombatState {
    /// Plays the card at `hand_index`. A refused play only reports why; an accepted one pays
    /// the cost, moves the card to the discard pile, reports the payment and the card, applies
    /// the card's effects and returns the draw the card asks for.
    pub fn play_card(&mut self, hand_index: usize, target: Option<Actor>, events: &mut Vec<CombatEvent>) -> (draws: u8)
        requires
            old(self)@.wf(),
            old(self).player.fighter.block <= PLAY_BLOCK_LIMIT,
        ensures
            match spec_play_rejection(old(self)@, hand_index, target) {
                Some(refusal) => {
                    &&& final(self)@ == old(self)@
                    &&& final(events)@ == old(events)@.push(refusal)
                    &&& draws == 0
                },
                None => {
                    let card = old(self)@.deck.hand[hand_index as int];
                    let paid = spec_pay_for_card(old(self)@, hand_index as int);
                    let announced = old(events)@ + seq![
                        CombatEvent::EnergySpent { amount: spec_card_def(card).cost, remaining: paid.player.energy },
                        CombatEvent::CardPlayed { card },
                    ];
                    &&& (final(self)@, draws) == spec_card_effects(paid, card, spec_play_target(card, target))
                    &&& step_frame(paid, final(self)@, 300, 0)
                    &&& appends(final(events)@, announced)
                    &&& draws <= 3
                    &&& deck_grows(paid.deck, final(self)@.deck)
                },
            },
    {
        if self.phase != TurnPhase::PlayerTurn {
            events.push(CombatEvent::InvalidAction { reason: "Cards can only be played on the player turn." });
            return 0;
        }
        if hand_index >= self.deck.hand.len() {
            events.push(CombatEvent::InvalidAction { reason: "That card is no longer in hand." });
            return 0;
        }
        let card = self.deck.hand[hand_index];
        let def = card_def(card);
        if let Some(requirement) = card_requirement(card) {
            let actual = self.axis_value(Actor::Player, requirement.axis);
            if actual <= requirement.threshold {
                events.push(CombatEvent::RequirementNotMet { axis: requirement.axis, threshold: requirement.threshold, actual });
                return 0;
            }
        }
        if self.player.energy < def.cost {
            events.push(CombatEvent::NotEnoughEnergy { needed: def.cost, available: self.player.energy });
            return 0;
        }
        let mut target_enemy: usize = 0;
        if def.target == CardTarget::Enemy {
            match target {
                Some(Actor::Enemy(index)) => {
                    if index < self.enemies.len() && self.enemies[index].fighter.hp > 0 {
                        target_enemy = index;
                    } else {
                        events.push(CombatEvent::InvalidAction { reason: "Select a living enemy target." });
                        return 0;
                    }
                },
                _ => {
                    events.push(CombatEvent::InvalidAction { reason: "Select a living enemy target." });
                    return 0;
                },
            }
        }
        let ghost before = self@;
        self.player.energy = self.player.energy - def.cost;
        self.deck.hand.remove(hand_index);
        self.deck.discard_pile.push(card);
        events.push(CombatEvent::EnergySpent { amount: def.cost, remaining: self.player.energy });
        events.push(CombatEvent::CardPlayed { card });
        proof {
            assert(self@ =~= spec_pay_for_card(before, hand_index as int));
            assert(events@ =~= old(events)@ + seq![
                CombatEvent::EnergySpent { amount: def.cost, remaining: self.player.energy },
                CombatEvent::CardPlayed { card },
            ]);
        }
        let ghost announced = events@;
        let draws = self.apply_card_effects(card, target_enemy, events);
        draws
    }
}

/// Paying for a card spends its cost in energy and moves it from the hand to the top of the
/// discard pile; the draw pile is untouched.
pub proof fn law_paying_for_a_card(m: CombatModel, hand_index: int)
    requires
        0 <= hand_index < m.deck.hand.len(),
        m.player.energy >= spec_card_def(m.deck.hand[hand_index]).cost,
    ensures
        spec_pay_for_card(m, hand_index).player.energy == m.player.energy - spec_card_def(m.deck.hand[hand_index]).cost,
        spec_pay_for_card(m, hand_index).deck.hand.len() == m.deck.hand.len() - 1,
        spec_pay_for_card(m, hand_index).deck.discard_pile.len() == m.deck.discard_pile.len() + 1,
        spec_pay_for_card(m, hand_index).deck.discard_pile.last() == m.deck.hand[hand_index],
        spec_pay_for_card(m, hand_index).deck.draw_pile == m.deck.draw_pile,
{
}

/// A combat whose outcome check has nothing left to do: each enemy's defeat flag says whether
/// it is down, and a combat that goes on still has a standing player and a standing enemy.
pub open spec fn settled(m: CombatModel) -> bool {
    &&& m.announced.len() == m.enemies.len()
    &&& forall|i: int| 0 <= i < m.enemies.len() ==> #[trigger] m.announced[i] == (m.enemies[i].fighter.hp <= 0)
    &&& !(m.phase is Ended) ==> m.player.fighter.hp > 0 && !all_enemies_down(m.enemies)
}

/// `new` keeps the enemy slots of `old` and adds at most `k` block to any fighter.
pub open spec fn block_growth_within(old: CombatModel, new: CombatModel, k: int) -> bool {
    &&& new.enemies.len() == old.enemies.len()
    &&& new.player.fighter.block <= old.player.fighter.block + k
    &&& forall|i: int|
        0 <= i < old.enemies.len() ==> #[trigger] new.enemies[i].fighter.block <= old.enemies[i].fighter.block + k
}

pub proof fn lemma_growth_trans(a: CombatModel, b: CombatModel, c: CombatModel, k1: int, k2: int)
    requires
        block_growth_within(a, b, k1),
        block_growth_within(b, c, k2),
    ensures
        block_growth_within(a, c, k1 + k2),
{
    assert forall|i: int| 0 <= i < a.enemies.len() implies #[trigger] c.enemies[i].fighter.block <= a.enemies[i].fighter.block
        + k1 + k2 by {
        assert(b.enemies[i].fighter.block <= a.enemies[i].fighter.block + k1);
        assert(c.enemies[i].fighter.block <= b.enemies[i].fighter.block + k2);
    }
}

pub proof fn lemma_growth_bound(old: CombatModel, new: CombatModel, k: int, limit: int)
    requires
        old.blocks_at_most(limit),
        block_growth_within(old, new, k),
    ensures
        new.blocks_at_most(limit + k),
{
    assert forall|i: int| 0 <= i < new.enemies.len() implies (#[trigger] new.enemies[i]).fighter.block <= limit + k by {
        assert(new.enemies[i].fighter.block <= old.enemies[i].fighter.block + k);
        assert(old.enemies[i].fighter.block <= limit);
    }
}

pub proof fn lemma_step_frame_growth(old: CombatModel, new: CombatModel, p: int, e: int, k: int)
    requires
        step_frame(old, new, p, e),
        p <= k,
        e <= k,
    ensures
        block_growth_within(old, new, k),
{
    assert forall|i: int| 0 <= i < old.enemies.len() implies #[trigger] new.enemies[i].fighter.block
        <= old.enemies[i].fighter.block + k by {
        assert(new.enemies[i].fighter.block <= old.enemies[i].fighter.block + e);
    }
}

/// On a settled combat the outcome check changes nothing.
pub proof fn lemma_settled_check_outcome(m: CombatModel)
    requires
        settled(m),
        !(m.phase is Ended),
    ensures
        spec_check_outcome(m) == m,
{
    assert(spec_check_outcome(m).announced =~= m.announced);
}

/// What one combat step does to the combat.
pub open spec fn spec_run_command(m: CombatModel, command: CombatCommand) -> CombatModel {
    match command {
        CombatCommand::StartCombat => m,
        CombatCommand::StartTurn(actor) => match actor {
            Actor::Player => spec_draw_cards(spec_start_player_turn(m), 5),
            Actor::Enemy(_) => spec_draw_cards(spec_start_enemy_turn(m), 0),
        },
        CombatCommand::DrawCards(count) => spec_draw_cards(m, count as nat),
        CombatCommand::PlayCard { hand_index, target } => if spec_play_rejection(m, hand_index, target) is Some {
            m
        } else {
            let card = m.deck.hand[hand_index as int];
            let (after, draws) = spec_card_effects(spec_pay_for_card(m, hand_index as int), card, spec_play_target(card, target));
            if draws > 0 { spec_draw_cards(after, draws as nat) } else { after }
        },
        CombatCommand::EndTurn(actor) => match actor {
            Actor::Player => CombatModel {
                deck: DeckModel { hand: Seq::empty(), discard_pile: m.deck.discard_pile + m.deck.hand, ..m.deck },
                ..m
            },
            Actor::Enemy(_) => m,
        },
        CombatCommand::ApplyEndOfTurn(actor) => match actor {
            Actor::Player => m.set_fighter(Actor::Player, spec_end_of_turn_fighter(m.player.fighter)),
            Actor::Enemy(_) => CombatModel { enemies: map_living_enemies(m.enemies, |f: FighterState| spec_end_of_turn_fighter(f)), ..m },
        },
        CombatCommand::ResolveEnemyIntent => spec_enemies_act(m, 0, m.enemies.len()),
        CombatCommand::CheckOutcome => spec_check_outcome(m),
    }
}

/// Steps `i..` run in order until the combat ends: the combat after them, and how many of
/// those run asked for the player's turn to start.
pub open spec fn spec_commands_run(m: CombatModel, commands: Seq<CombatCommand>, i: nat) -> (CombatModel, nat)
    decreases commands.len() - i,
{
    if i >= commands.len() || m.phase is Ended {
        (m, 0)
    } else {
        let next = spec_run_command(m, commands[i as int]);
        let (after, pending) = spec_commands_run(next, commands, i + 1);
        (after, pending + if commands[i as int] is StartCombat { 1nat } else { 0nat })
    }
}

/// `k` starts of the player's turn, stopping once the combat ends.
pub open spec fn spec_player_turn_starts(m: CombatModel, k: nat) -> CombatModel
    decreases k,
{
    if k == 0 || m.phase is Ended {
        m
    } else {
        spec_player_turn_starts(spec_run_command(m, CombatCommand::StartTurn(Actor::Player)), (k - 1) as nat)
    }
}

/// The combat after `commands` are processed: run in order until it ends, then the player's
/// turn starts once for each start of combat among them.
pub open spec fn spec_process_commands(m: CombatModel, commands: Seq<CombatCommand>) -> CombatModel {
    let (after, pending) = spec_commands_run(m, commands, 0);
    spec_player_turn_starts(after, pending)
}

impl CombatState {
    /// Runs one step of a combat; returns whether it asks for the player's turn to start once
    /// the steps already queued are done (only the start of a combat does).
    pub fn run_command(&mut self, command: CombatCommand, events: &mut Vec<CombatEvent>) -> (schedules_player_turn: bool)
        requires
            old(self)@.wf(),
            old(self)@.blocks_at_most(PLAY_BLOCK_LIMIT as int),
            old(self).turn < u32::MAX,
        ensures
            final(self)@ == spec_run_command(old(self)@, command),
            final(self)@.wf(),
            block_growth_within(old(self)@, final(self)@, 300),
            command is StartTurn ==> block_growth_within(old(self)@, final(self)@, 0),
            final(self).turn <= old(self).turn + 1,
            schedules_player_turn == (command is StartCombat),
            appends(final(events)@, old(events)@),
    {
        let ghost before_events = events@;
        match command {
            CombatCommand::StartCombat => {
                events.push(CombatEvent::CombatStarted);
                proof {
                    assert(events@.subrange(0, before_events.len() as int) =~= before_events);
                }
                true
            },
            CombatCommand::StartTurn(actor) => {
                let draws = self.start_turn(actor, events);
                let ghost mid = self@;
                let ghost mid_events = events@;
                self.draw_cards(draws, events);
                proof {
                    lemma_appends_trans(before_events, mid_events, events@);
                    if actor is Enemy {
                        assert forall|i: int| 0 <= i < old(self)@.enemies.len() implies #[trigger] self@.enemies[i].fighter.block
                            <= old(self)@.enemies[i].fighter.block + 0 by {
                            assert(mid.enemies[i] == spec_start_enemy_turn(old(self)@).enemies[i]);
                        }
                    }
                }
                false
            },
            CombatCommand::DrawCards(count) => {
                self.draw_cards(count, events);
                false
            },
            CombatCommand::PlayCard { hand_index, target } => {
                let ghost paid = spec_pay_for_card(old(self)@, hand_index as int);
                let draws = self.play_card(hand_index, target, events);
                let ghost mid = self@;
                let ghost mid_events = events@;
                if draws > 0 {
                    self.draw_cards(draws, events);
                }
                proof {
                    if spec_play_rejection(old(self)@, hand_index, target) is None {
                        lemma_step_frame_growth(paid, mid, 300, 0, 300);
                        let announced = old(events)@ + seq![
                            CombatEvent::EnergySpent { amount: spec_card_def(old(self)@.deck.hand[hand_index as int]).cost, remaining: paid.player.energy },
                            CombatEvent::CardPlayed { card: old(self)@.deck.hand[hand_index as int] },
                        ];
                        assert(announced.subrange(0, before_events.len() as int) =~= before_events);
                        lemma_appends_trans(before_events, announced, mid_events);
                    } else {
                        assert(mid_events.subrange(0, before_events.len() as int) =~= before_events);
                    }
                    if draws > 0 {
                        lemma_appends_trans(before_events, mid_events, events@);
                    }
                }
                false
            },
            CombatCommand::EndTurn(actor) => {
                self.end_turn(actor, events);
                false
            },
            CombatCommand::ApplyEndOfTurn(actor) => {
                self.apply_end_of_turn(actor, events);
                proof {
                    if actor is Enemy {
                        assert forall|i: int| 0 <= i < old(self)@.enemies.len() implies #[trigger] self@.enemies[i].fighter.block
                            <= old(self)@.enemies[i].fighter.block + 300 by {
                            assert(self@.enemies[i] == (if is_alive(old(self)@.enemies[i]) {
                                EnemyState { fighter: spec_end_of_turn_fighter(old(self)@.enemies[i].fighter), ..old(self)@.enemies[i] }
                            } else {
                                old(self)@.enemies[i]
                            }));
                        }
                        assert(self@.enemies =~= map_living_enemies(old(self)@.enemies, |f: FighterState| spec_end_of_turn_fighter(f)));
                    }
                }
                false
            },
            CombatCommand::ResolveEnemyIntent => {
                self.resolve_enemy_intent(events);
                proof {
                    lemma_step_frame_growth(old(self)@, self@, 0, 300, 300);
                }
                false
            },
            CombatCommand::CheckOutcome => {
                self.check_outcome(events);
                false
            },
        }
    }

    /// Runs steps in order until the combat ends; a started combat then begins the player's
    /// turn.
    pub fn process_commands(&mut self, commands: &[CombatCommand]) -> (events: Vec<CombatEvent>)
        requires
            old(self)@.wf(),
            old(self)@.blocks_at_most(BLOCK_HEADROOM as int),
            commands.len() <= 1000,
            old(self).turn + 2 * commands.len() < u32::MAX,
        ensures
            final(self)@ == spec_process_commands(old(self)@, commands@),
            old(self).phase is Ended ==> final(self)@ == old(self)@ && events@.len() == 0,
            final(self)@.wf(),
            final(self)@.enemies.len() == old(self)@.enemies.len(),
            final(self)@.blocks_at_most(BLOCK_HEADROOM + 300 * commands.len()),
            block_growth_within(old(self)@, final(self)@, 300 * commands.len()),
    {
        let mut events: Vec<CombatEvent> = Vec::new();
        let mut pending: usize = 0;
        let mut i: usize = 0;
        while i < commands.len()
            invariant
                i <= commands.len(),
                commands.len() <= 1000,
                self@.wf(),
                self@.enemies.len() == old(self)@.enemies.len(),
                self@.blocks_at_most(BLOCK_HEADROOM + 300 * i),
                block_growth_within(old(self)@, self@, 300 * i),
                self.turn <= old(self).turn + i,
                old(self).turn + 2 * commands.len() < u32::MAX,
                pending <= i,
                old(self).phase is Ended ==> self@ == old(self)@ && events@.len() == 0,
                spec_commands_run(self@, commands@, i as nat).0 == spec_commands_run(old(self)@, commands@, 0).0,
                spec_commands_run(self@, commands@, i as nat).1 + pending == spec_commands_run(old(self)@, commands@, 0).1,
            ensures
                i >= commands.len() || self@.phase is Ended,
            decreases commands.len() - i,
        {
            if matches!(self.phase, TurnPhase::Ended(_)) {
                break;
            }
            let ghost before = self@;
            let scheduled = self.run_command(commands[i], &mut events);
            proof {
                lemma_growth_bound(before, self@, 300, BLOCK_HEADROOM + 300 * i);
                lemma_growth_trans(old(self)@, before, self@, 300 * i, 300);
            }
            if scheduled {
                pending = pending + 1;
            }
            i = i + 1;
        }
        proof {
            assert(spec_commands_run(self@, commands@, i as nat) == (self@, 0nat));
        }
        let mut done: usize = 0;
        while done < pending
            invariant
                done <= pending,
                pending <= commands.len(),
                commands.len() <= 1000,
                self@.wf(),
                self@.enemies.len() == old(self)@.enemies.len(),
                self@.blocks_at_most(BLOCK_HEADROOM + 300 * commands.len()),
                block_growth_within(old(self)@, self@, 300 * commands.len()),
                self.turn <= old(self).turn + commands.len() + done,
                old(self).turn + 2 * commands.len() < u32::MAX,
                old(self).phase is Ended ==> self@ == old(self)@ && events@.len() == 0,
                spec_player_turn_starts(self@, (pending - done) as nat) == spec_process_commands(old(self)@, commands@),
            ensures
                done >= pending || self@.phase is Ended,
            decreases pending - done,
        {
            if matches!(self.phase, TurnPhase::Ended(_)) {
                break;
            }
            let ghost before = self@;
            self.run_command(CombatCommand::StartTurn(Actor::Player), &mut events);
            proof {
                lemma_growth_bound(before, self@, 0, BLOCK_HEADROOM + 300 * commands.len());
                lemma_growth_trans(old(self)@, before, self@, 300 * commands.len(), 0);
            }
            done = done + 1;
        }
        events
    }
}

/// The steps of the player's end of turn through the enemies' turn to the next player turn.
pub open spec fn end_turn_commands() -> Seq<CombatCommand> {
    seq![
        CombatCommand::EndTurn(Actor::Player),
        CombatCommand::ApplyEndOfTurn(Actor::Player),
        CombatCommand::CheckOutcome,
        CombatCommand::StartTurn(Actor::Enemy(0)),
        CombatCommand::ResolveEnemyIntent,
        CombatCommand::ApplyEndOfTurn(Actor::Enemy(0)),
        CombatCommand::CheckOutcome,
        CombatCommand::StartTurn(Actor::Player),
    ]
}

/// The steps of ending the player's turn: the player's cards go to the discard pile and its
/// statuses tick, then the enemies' turn starts, they act and their statuses tick, with the
/// outcome checked after each side, and then the player's next turn starts.
pub open spec fn spec_end_turn_commands() -> Seq<CombatCommand> {
    seq![
        CombatCommand::EndTurn(Actor::Player),
        CombatCommand::ApplyEndOfTurn(Actor::Player),
        CombatCommand::CheckOutcome,
        CombatCommand::StartTurn(Actor::Enemy(0)),
        CombatCommand::ResolveEnemyIntent,
        CombatCommand::ApplyEndOfTurn(Actor::Enemy(0)),
        CombatCommand::CheckOutcome,
        CombatCommand::StartTurn(Actor::Player),
    ]
}

impl CombatState {
    /// Applies a player action. An ended combat ignores it; ending the turn outside the
    /// player's turn is refused; a card play is checked, applied, followed by its draw and an
    /// outcome check; ending the turn runs the enemies' turn and starts the next player turn.
    #[verifier::spinoff_prover]
    #[verifier::rlimit(50)]
    pub fn dispatch(&mut self, action: CombatAction) -> (events: Vec<CombatEvent>)
        requires
            old(self)@.wf(),
            old(self)@.blocks_at_most(BLOCK_HEADROOM as int),
            old(self).turn + 16 < u32::MAX,
        ensures
            old(self).phase is Ended ==> final(self)@ == old(self)@ && events@.len() == 0,
            !(old(self).phase is Ended) && action is EndTurn && old(self).phase != TurnPhase::PlayerTurn ==> {
                &&& final(self)@ == old(self)@
                &&& events@ == seq![CombatEvent::InvalidAction { reason: "Wait for the player turn." }]
            },
            !(old(self).phase is Ended) ==> match action {
                CombatAction::PlayCard { hand_index, target } => match spec_play_rejection(old(self)@, hand_index, target) {
                    Some(refusal) => {
                        &&& final(self)@ == spec_check_outcome(old(self)@)
                        &&& settled(old(self)@) ==> final(self)@ == old(self)@ && events@ == seq![refusal]
                    },
                    None => final(self)@ == spec_after_play(old(self)@, hand_index, target) && events@.len() >= 2
                        && events@.subrange(0, 2) == seq![
                        CombatEvent::EnergySpent {
                            amount: spec_card_def(old(self)@.deck.hand[hand_index as int]).cost,
                            remaining: spec_pay_for_card(old(self)@, hand_index as int).player.energy,
                        },
                        CombatEvent::CardPlayed { card: old(self)@.deck.hand[hand_index as int] },
                    ],
                },
                CombatAction::EndTurn => old(self).phase == TurnPhase::PlayerTurn ==> final(self)@ == spec_process_commands(
                    old(self)@,
                    spec_end_turn_commands(),
                ),
            },
            final(self)@.wf(),
            final(self)@.enemies.len() == old(self)@.enemies.len(),
            final(self)@.blocks_at_most(BLOCK_HEADROOM + 2400),
    {
        if matches!(self.phase, TurnPhase::Ended(_)) {
            return Vec::new();
        }
        match action {
            CombatAction::PlayCard { hand_index, target } => {
                let mut events: Vec<CombatEvent> = Vec::new();
                let ghost start = self@;
                let ghost paid = spec_pay_for_card(start, hand_index as int);
                let draws = self.play_card(hand_index, target, &mut events);
                let ghost played = self@;
                let ghost played_events = events@;
                proof {
                    if spec_play_rejection(start, hand_index, target) is None {
                        lemma_step_frame_growth(paid, played, 300, 0, 300);
                        lemma_growth_bound(start, played, 300, BLOCK_HEADROOM as int);
                    }
                }
                if draws > 0 {
                    self.draw_cards(draws, &mut events);
                }
                let ghost drawn = self@;
                let ghost drawn_events = events@;
                if !matches!(self.phase, TurnPhase::Ended(_)) {
                    self.check_outcome(&mut events);
                }
                proof {
                    if spec_play_rejection(start, hand_index, target) is None {
                        let announced = seq![
                            CombatEvent::EnergySpent {
                                amount: spec_card_def(start.deck.hand[hand_index as int]).cost,
                                remaining: paid.player.energy,
                            },
                            CombatEvent::CardPlayed { card: start.deck.hand[hand_index as int] },
                        ];
                        assert(Seq::<CombatEvent>::empty() + announced =~= announced);
                        if draws > 0 {
                            lemma_appends_trans(played_events, drawn_events, events@);
                        } else {
                            assert(drawn_events == played_events);
                        }
                        assert(events@.subrange(0, played_events.len() as int) == played_events);
                        assert(played_events.subrange(0, 2) == announced);
                        assert(events@.subrange(0, 2) =~= announced);
                    } else {
                        if settled(start) {
                            lemma_settled_check_outcome(start);
                        }
                    }
                }
                events
            },
            CombatAction::EndTurn => {
                if self.phase != TurnPhase::PlayerTurn {
                    return vec![CombatEvent::InvalidAction { reason: "Wait for the player turn." }];
                }
                let commands = vec![
                    CombatCommand::EndTurn(Actor::Player),
                    CombatCommand::ApplyEndOfTurn(Actor::Player),
                    CombatCommand::CheckOutcome,
                    CombatCommand::StartTurn(Actor::Enemy(0)),
                    CombatCommand::ResolveEnemyIntent,
                    CombatCommand::ApplyEndOfTurn(Actor::Enemy(0)),
                    CombatCommand::CheckOutcome,
                    CombatCommand::StartTurn(Actor::Player),
                ];
                proof {
                    assert(commands@ =~= spec_end_turn_commands());
                }
                self.process_commands(commands.as_slice())
            },
        }
    }

    /// Starts the player's turn on its own.
    pub fn start_player_turn_only(&mut self) -> (events: Vec<CombatEvent>)
        requires
            old(self)@.wf(),
            old(self)@.blocks_at_most(BLOCK_HEADROOM as int),
            old(self).turn + 2 < u32::MAX,
        ensures
            old(self).phase is Ended ==> final(self)@ == old(self)@ && events@.len() == 0,
            !(old(self).phase is Ended) ==> final(self)@ == spec_draw_cards(spec_start_player_turn(old(self)@), 5),
            final(self)@.wf(),
    {
        let mut events: Vec<CombatEvent> = Vec::new();
        if matches!(self.phase, TurnPhase::Ended(_)) {
            return events;
        }
        let draws = self.start_turn(Actor::Player, &mut events);
        self.draw_cards(draws, &mut events);
        events
    }

    /// Starts the enemies' turn on its own.
    pub fn start_enemy_turn_only(&mut self) -> (events: Vec<CombatEvent>)
        requires
            old(self)@.wf(),
        ensures
            old(self).phase is Ended ==> final(self)@ == old(self)@ && events@.len() == 0,
            !(old(self).phase is Ended) ==> final(self)@ == spec_start_enemy_turn(old(self)@),
            final(self)@.wf(),
    {
        let mut events: Vec<CombatEvent> = Vec::new();
        if matches!(self.phase, TurnPhase::Ended(_)) {
            return events;
        }
        self.start_turn(Actor::Enemy(0), &mut events);
        events
    }

    /// Ends the player's turn on its own: discards the hand, ticks the player's statuses and
    /// checks the outcome.
    pub fn apply_player_end_turn_only(&mut self) -> (events: Vec<CombatEvent>)
        requires
            old(self)@.wf(),
            old(self)@.blocks_at_most(BLOCK_HEADROOM as int),
            old(self).turn + 6 < u32::MAX,
        ensures
            final(self)@ == spec_process_commands(
                old(self)@,
                seq![CombatCommand::EndTurn(Actor::Player), CombatCommand::ApplyEndOfTurn(Actor::Player), CombatCommand::CheckOutcome],
            ),
            old(self).phase is Ended ==> final(self)@ == old(self)@ && events@.len() == 0,
            final(self)@.wf(),
            final(self)@.enemies.len() == old(self)@.enemies.len(),
            block_growth_within(old(self)@, final(self)@, 900),
    {
        let commands = vec![
            CombatCommand::EndTurn(Actor::Player),
            CombatCommand::ApplyEndOfTurn(Actor::Player),
            CombatCommand::CheckOutcome,
        ];
        proof {
            assert(commands@ =~= seq![
                CombatCommand::EndTurn(Actor::Player),
                CombatCommand::ApplyEndOfTurn(Actor::Player),
                CombatCommand::CheckOutcome,
            ]);
        }
        self.process_commands(commands.as_slice())
    }

    /// Ends the enemies' turn on its own: ticks their statuses, reports the end of their turn
    /// and checks the outcome.
    pub fn apply_enemy_end_turn_only(&mut self) -> (events: Vec<CombatEvent>)
        requires
            old(self)@.wf(),
            old(self)@.blocks_at_most(BLOCK_HEADROOM as int),
            old(self).turn + 6 < u32::MAX,
        ensures
            final(self)@ == spec_process_commands(
                old(self)@,
                seq![CombatCommand::ApplyEndOfTurn(Actor::Enemy(0)), CombatCommand::EndTurn(Actor::Enemy(0)), CombatCommand::CheckOutcome],
            ),
            old(self).phase is Ended ==> final(self)@ == old(self)@ && events@.len() == 0,
            final(self)@.wf(),
            final(self)@.enemies.len() == old(self)@.enemies.len(),
            block_growth_within(old(self)@, final(self)@, 900),
    {
        let commands = vec![
            CombatCommand::ApplyEndOfTurn(Actor::Enemy(0)),
            CombatCommand::EndTurn(Actor::Enemy(0)),
            CombatCommand::CheckOutcome,
        ];
        proof {
            assert(commands@ =~= seq![
                CombatCommand::ApplyEndOfTurn(Actor::Enemy(0)),
                CombatCommand::EndTurn(Actor::Enemy(0)),
                CombatCommand::CheckOutcome,
            ]);
        }
        self.process_commands(commands.as_slice())
    }

    /// Lets one enemy act on its intent against the player, then checks the outcome; a slot
    /// that holds no enemy does nothing before the check.
    pub fn resolve_enemy_intent_for_current_player(&mut self, enemy_index: usize) -> (events: Vec<CombatEvent>)
        requires
            old(self)@.wf(),
            old(self)@.blocks_at_most(PLAY_BLOCK_LIMIT as int),
        ensures
            final(self)@.wf(),
            final(self)@.enemies.len() == old(self)@.enemies.len(),
            enemy_index >= old(self).enemies.len() ==> final(self)@ == spec_check_outcome(old(self)@),
            enemy_index < old(self).enemies.len() ==> final(self)@ == spec_check_outcome(spec_enemy_acts(old(self)@, enemy_index as int)),
    {
        let mut events: Vec<CombatEvent> = Vec::new();
        if enemy_index < self.enemies.len() {
            self.resolve_enemy_intent_at(enemy_index, &mut events);
        }
        self.check_outcome(&mut events);
        events
    }
}

/// `hp` kept within `1..=max(max_hp, 1)`.
pub open spec fn clamp_hp(hp: i32, max_hp: i32) -> i32 {
    let top = if max_hp < 1 { 1i32 } else { max_hp };
    if hp < 1 { 1i32 } else if hp > top { top } else { hp }
}

pub fn clamp_hp_exec(hp: i32, max_hp: i32) -> (clamped: i32)
    ensures
        clamped == clamp_hp(hp, max_hp),
{
    let top = if max_hp < 1 { 1 } else { max_hp };
    if hp < 1 { 1 } else if hp > top { top } else { hp }
}

/// The enemies a setup fights: the default Scout Drone when it names none, and at most two.
pub open spec fn spec_setup_enemies(enemies: Seq<EncounterEnemySetup>) -> Seq<EncounterEnemySetup> {
    let named = if enemies.len() == 0 { seq![default_enemy_setup()] } else { enemies };
    if named.len() > MAX_ENEMIES_PER_ENCOUNTER { named.take(MAX_ENEMIES_PER_ENCOUNTER as int) } else { named }
}

/// An enemy as it enters combat.
pub open spec fn spec_enemy_state(e: EncounterEnemySetup) -> EnemyState {
    EnemyState {
        fighter: FighterState {
            hp: clamp_hp(e.hp, e.max_hp),
            max_hp: if e.max_hp < 1 { 1i32 } else { e.max_hp },
            block: if e.block < 0 { 0i32 } else { e.block },
            statuses: StatusSet { bleed: 0, focus: 0, rhythm: 0, momentum: 0 },
        },
        profile: e.profile,
        intent_index: e.intent_index % 3,
        on_hit_bleed: e.on_hit_bleed,
    }
}

/// A fresh combat before its first turn: the deck (the starter deck when none is given)
/// shuffled into the draw pile, the fighters set up, no defeats announced.
pub open spec fn spec_new_combat(
    seed: u64,
    player_hp: i32,
    player_max_hp: i32,
    player_max_energy: u8,
    enemies: Seq<EncounterEnemySetup>,
    deck: Seq<CardId>,
) -> CombatModel {
    let source = if deck.len() == 0 { spec_starter_deck() } else { deck };
    let shuffled = spec_shuffle(source, seed_state(seed));
    let setups = spec_setup_enemies(enemies);
    CombatModel {
        player: PlayerState {
            fighter: FighterState {
                hp: clamp_hp(player_hp, player_max_hp),
                max_hp: if player_max_hp < 1 { 1i32 } else { player_max_hp },
                block: 0,
                statuses: StatusSet { bleed: 0, focus: 0, rhythm: 0, momentum: 0 },
            },
            energy: 0,
            max_energy: if player_max_energy < 1 { 1u8 } else { player_max_energy },
        },
        enemies: Seq::new(setups.len(), |i: int| spec_enemy_state(setups[i])),
        deck: DeckModel { draw_pile: shuffled.0, hand: Seq::empty(), discard_pile: Seq::empty() },
        phase: TurnPhase::PlayerTurn,
        turn: 0,
        announced: Seq::new(setups.len(), |i: int| false),
        rng: shuffled.1,
    }
}

/// A combat that has started: the first player turn begun and five cards drawn.
pub open spec fn spec_started_combat(m: CombatModel) -> CombatModel {
    spec_draw_cards(spec_start_player_turn(m), 5)
}

/// What starting a combat reports: the start, the player's first turn, then the opening draw.
pub open spec fn spec_combat_start_events(m: CombatModel) -> Seq<CombatEvent> {
    seq![CombatEvent::CombatStarted, CombatEvent::TurnStarted { actor: Actor::Player, turn: 1 }]
        + spec_draw_events(spec_start_player_turn(m), 5)
}

impl CombatState {
    /// Starts the default encounter with the starter deck.
    pub fn new(seed: u64) -> (result: (Self, Vec<CombatEvent>))
        ensures
            result.0@ == spec_started_combat(
                spec_new_combat(seed, DEFAULT_PLAYER_HP, DEFAULT_PLAYER_HP, 3, seq![default_enemy_setup()], Seq::empty()),
            ),
            result.1@ == spec_combat_start_events(
                spec_new_combat(seed, DEFAULT_PLAYER_HP, DEFAULT_PLAYER_HP, 3, seq![default_enemy_setup()], Seq::empty()),
            ),
            result.0@.wf(),
    {
        let setup = EncounterSetup::default();
        CombatState::new_with_setup(seed, setup)
    }

    /// Starts an encounter with the starter deck.
    pub fn new_with_setup(seed: u64, setup: EncounterSetup) -> (result: (Self, Vec<CombatEvent>))
        ensures
            result.0@ == spec_started_combat(
                spec_new_combat(seed, setup.player_hp, setup.player_max_hp, setup.player_max_energy, setup.enemies@, Seq::empty()),
            ),
            result.1@ == spec_combat_start_events(
                spec_new_combat(seed, setup.player_hp, setup.player_max_hp, setup.player_max_energy, setup.enemies@, Seq::empty()),
            ),
            result.0@.wf(),
    {
        let deck = starter_deck();
        let result = CombatState::new_with_deck(seed, setup, deck);
        proof {
            assert(spec_new_combat(seed, setup.player_hp, setup.player_max_hp, setup.player_max_energy, setup.enemies@, spec_starter_deck())
                == spec_new_combat(seed, setup.player_hp, setup.player_max_hp, setup.player_max_energy, setup.enemies@, Seq::empty()));
        }
        result
    }

    /// Starts an encounter with the given deck (the starter deck when it is empty): the deck
    /// is shuffled, the fighters are set up, the combat starts and the first turn draws five.
    pub fn new_with_deck(seed: u64, setup: EncounterSetup, source_deck: Vec<CardId>) -> (result: (Self, Vec<CombatEvent>))
        ensures
            result.0@ == spec_started_combat(
                spec_new_combat(seed, setup.player_hp, setup.player_max_hp, setup.player_max_energy, setup.enemies@, source_deck@),
            ),
            result.1@ == spec_combat_start_events(
                spec_new_combat(seed, setup.player_hp, setup.player_max_hp, setup.player_max_energy, setup.enemies@, source_deck@),
            ),
            result.0@.wf(),
    {
        let mut rng = XorShift64::new(seed);
        let mut draw_pile = if source_deck.len() == 0 { starter_deck() } else { source_deck };
        shuffle(&mut draw_pile, &mut rng);

        let named = if setup.enemies.len() == 0 { default_enemies() } else { setup.enemies };
        let ghost setups = spec_setup_enemies(setup.enemies@);
        let count = if named.len() > MAX_ENEMIES_PER_ENCOUNTER { MAX_ENEMIES_PER_ENCOUNTER } else { named.len() };
        let mut enemies: Vec<EnemyState> = Vec::new();
        let mut announced: Vec<bool> = Vec::new();
        let mut i: usize = 0;
        while i < count
            invariant
                i <= count,
                count <= named.len(),
                setups.len() == count,
                forall|k: int| 0 <= k < count ==> #[trigger] setups[k] == named@[k],
                enemies@.len() == i,
                announced@.len() == i,
                forall|k: int| 0 <= k < i ==> #[trigger] enemies@[k] == spec_enemy_state(setups[k]),
                forall|k: int| 0 <= k < i ==> #[trigger] announced@[k] == false,
            decreases count - i,
        {
            let e = named[i];
            let max_hp = if e.max_hp < 1 { 1 } else { e.max_hp };
            enemies.push(EnemyState {
                fighter: FighterState {
                    hp: clamp_hp_exec(e.hp, e.max_hp),
                    max_hp,
                    block: if e.block < 0 { 0 } else { e.block },
                    statuses: StatusSet { bleed: 0, focus: 0, rhythm: 0, momentum: 0 },
                },
                profile: e.profile,
                intent_index: e.intent_index % 3,
                on_hit_bleed: e.on_hit_bleed,
            });
            announced.push(false);
            i = i + 1;
        }
        let mut state = CombatState {
            player: PlayerState {
                fighter: FighterState {
                    hp: clamp_hp_exec(setup.player_hp, setup.player_max_hp),
                    max_hp: if setup.player_max_hp < 1 { 1 } else { setup.player_max_hp },
                    block: 0,
                    statuses: StatusSet { bleed: 0, focus: 0, rhythm: 0, momentum: 0 },
                },
                energy: 0,
                max_energy: if setup.player_max_energy < 1 { 1 } else { setup.player_max_energy },
            },
            enemies,
            deck: DeckState { draw_pile, hand: Vec::new(), discard_pile: Vec::new() },
            phase: TurnPhase::PlayerTurn,
            turn: 0,
            announced_enemy_defeats: announced,
            rng,
        };
        proof {
            let fresh = spec_new_combat(seed, setup.player_hp, setup.player_max_hp, setup.player_max_energy, setup.enemies@, source_deck@);
            assert(state@.enemies =~= fresh.enemies);
            assert(state@.announced =~= fresh.announced);
            assert(state@.deck =~= fresh.deck);
            assert(state@ =~= fresh);
            assert(state@.wf());
        }
        let ghost fresh = state@;
        let mut events: Vec<CombatEvent> = Vec::new();
        events.push(CombatEvent::CombatStarted);
        let draws = state.start_turn(Actor::Player, &mut events);
        proof {
            assert(events@ =~= seq![CombatEvent::CombatStarted, CombatEvent::TurnStarted { actor: Actor::Player, turn: 1 }]);
        }
        state.draw_cards(draws, &mut events);
        proof {
            assert(events@ =~= spec_combat_start_events(fresh));
        }
        (state, events)
    }

    /// Rebuilds a combat from saved parts; an enemy that is already down counts as announced.
    pub fn from_persisted_parts(
        player: PlayerState,
        enemies: Vec<EnemyState>,
        deck: DeckState,
        phase: TurnPhase,
        turn: u32,
        rng_state: u64,
    ) -> (state: Self)
        ensures
            state@ == (CombatModel {
                player,
                enemies: enemies@,
                deck: deck@,
                phase,
                turn,
                announced: Seq::new(enemies@.len(), |i: int| enemies@[i].fighter.hp <= 0),
                rng: seed_state(rng_state),
            }),
    {
        let mut announced: Vec<bool> = Vec::new();
        let mut i: usize = 0;
        while i < enemies.len()
            invariant
                i <= enemies.len(),
                announced@.len() == i,
                forall|k: int| 0 <= k < i ==> #[trigger] announced@[k] == (enemies@[k].fighter.hp <= 0),
            decreases enemies.len() - i,
        {
            announced.push(enemies[i].fighter.hp <= 0);
            i = i + 1;
        }
        let state = CombatState {
            player,
            enemies,
            deck,
            phase,
            turn,
            announced_enemy_defeats: announced,
            rng: XorShift64::new(rng_state),
        };
        proof {
            assert(state@.announced =~= Seq::new(state@.enemies.len(), |i: int| state@.enemies[i].fighter.hp <= 0));
        }
        state
    }

    pub fn is_player_turn(&self) -> (yes: bool)
        ensures
            yes == (self.phase == TurnPhase::PlayerTurn),
    {
        self.phase == TurnPhase::PlayerTurn
    }

    pub fn outcome(&self) -> (outcome: Option<CombatOutcome>)
        ensures
            outcome == (match self.phase {
                TurnPhase::Ended(o) => Some(o),
                _ => None,
            }),
    {
        match self.phase {
            TurnPhase::Ended(o) => Some(o),
            _ => None,
        }
    }

    pub fn hand_len(&self) -> (len: usize)
        ensures
            len == self.deck.hand@.len(),
    {
        self.deck.hand.len()
    }

    pub fn enemy_count(&self) -> (count: usize)
        ensures
            count == self.enemies@.len(),
    {
        self.enemies.len()
    }

    pub fn enemy(&self, index: usize) -> (enemy: Option<&EnemyState>)
        ensures
            enemy == (if index < self.enemies@.len() { Some(&self.enemies@[index as int]) } else { None }),
    {
        if index < self.enemies.len() {
            Some(&self.enemies[index])
        } else {
            None
        }
    }

    pub fn enemy_profile(&self, index: usize) -> (profile: Option<EnemyProfileId>)
        ensures
            profile == (if index < self.enemies@.len() { Some(self.enemies@[index as int].profile) } else { None }),
    {
        if index < self.enemies.len() {
            Some(self.enemies[index].profile)
        } else {
            None
        }
    }

    pub fn rng_state(&self) -> (state: u64)
        ensures
            state == self.rng.state,
    {
        self.rng.state
    }

    pub fn enemy_is_alive(&self, index: usize) -> (alive: bool)
        ensures
            alive == self@.enemy_alive(index as int),
    {
        index < self.enemies.len() && self.enemies[index].fighter.hp > 0
    }

    pub fn hand_card(&self, index: usize) -> (card: Option<CardId>)
        ensures
            card == (if index < self.deck.hand@.len() { Some(self.deck.hand@[index as int]) } else { None }),
    {
        if index < self.deck.hand.len() {
            Some(self.deck.hand[index])
        } else {
            None
        }
    }

    /// Whether the player's axes meet the card's requirement (cards without one always do).
    pub fn meets_card_requirement(&self, card: CardId) -> (met: bool)
        ensures
            met == (match spec_card_requirement(card) {
                Some(req) => self@.axis(Actor::Player, req.axis) > req.threshold,
                None => true,
            }),
    {
        match card_requirement(card) {
            Some(requirement) => self.axis_value(Actor::Player, requirement.axis) > requirement.threshold,
            None => true,
        }
    }

    /// Whether the card at `index` can be played now: on the player's turn, with the energy
    /// for it and its requirement met.
    pub fn can_play_card(&self, index: usize) -> (playable: bool)
        ensures
            playable == (self.phase == TurnPhase::PlayerTurn && index < self.deck.hand@.len() && {
                let card = self.deck.hand@[index as int];
                &&& self.player.energy >= spec_card_def(card).cost
                &&& match spec_card_requirement(card) {
                    Some(req) => self@.axis(Actor::Player, req.axis) > req.threshold,
                    None => true,
                }
            }),
    {
        if !self.is_player_turn() {
            return false;
        }
        if index >= self.deck.hand.len() {
            return false;
        }
        let card = self.deck.hand[index];
        self.player.energy >= card_def(card).cost && self.meets_card_requirement(card)
    }

    pub fn card_requires_enemy(&self, index: usize) -> (aimed: bool)
        ensures
            aimed == (index < self.deck.hand@.len() && spec_card_def(self.deck.hand@[index as int]).target == CardTarget::Enemy),
    {
        if index < self.deck.hand.len() {
            card_def(self.deck.hand[index]).target == CardTarget::Enemy
        } else {
            false
        }
    }

    pub fn card_targets_all_enemies(&self, index: usize) -> (sweeping: bool)
        ensures
            sweeping == (index < self.deck.hand@.len() && spec_card_def(self.deck.hand@[index as int]).target
                == CardTarget::AllEnemies),
    {
        if index < self.deck.hand.len() {
            card_def(self.deck.hand[index]).target == CardTarget::AllEnemies
        } else {
            false
        }
    }
}

/// `a + b` saturating at the bounds of `i32`.
pub open spec fn spec_saturating_add_i32(a: i32, b: i32) -> i32 {
    let s = a as int + b as int;
    if s > i32::MAX { i32::MAX } else if s < i32::MIN { i32::MIN } else { s as i32 }
}

pub fn saturating_add_i32(a: i32, b: i32) -> (sum: i32)
    ensures
        sum == spec_saturating_add_i32(a, b),
{
    let wide = a as i64 + b as i64;
    if wide > i32::MAX as i64 {
        i32::MAX
    } else if wide < i32::MIN as i64 {
        i32::MIN
    } else {
        wide as i32
    }
}

/// `a + b` saturating at 255.
pub open spec fn spec_saturating_add_u8(a: u8, b: u8) -> u8 {
    if a as int + b as int > 255 { 255u8 } else { (a + b) as u8 }
}

/// Every living enemy with one axis nudged by `delta` (then clamped).
pub open spec fn spec_nudge_living(enemies: Seq<EnemyState>, axis: AxisKind, delta: i8) -> Seq<EnemyState> {
    Seq::new(
        enemies.len(),
        |i: int|
            if enemies[i].fighter.hp > 0 {
                EnemyState {
                    fighter: spec_with_axis(
                        enemies[i].fighter,
                        axis,
                        spec_clamp_axis(spec_saturating_add_i8(axis_of(enemies[i].fighter.statuses, axis), delta) as int),
                    ),
                    ..enemies[i]
                }
            } else {
                enemies[i]
            },
    )
}

pub open spec fn any_enemy_alive(enemies: Seq<EnemyState>) -> bool {
    exists|i: int| 0 <= i < enemies.len() && #[trigger] enemies[i].fighter.hp > 0
}

/// A module's effect when a combat starts, and whether it did anything.
pub open spec fn spec_module_start(m: CombatModel, module: ModuleId) -> (CombatModel, bool) {
    let p = m.player;
    match module {
        ModuleId::AegisDrive => (
            CombatModel {
                player: PlayerState { fighter: FighterState { block: spec_saturating_add_i32(p.fighter.block, 5), ..p.fighter }, ..p },
                ..m
            },
            true,
        ),
        ModuleId::TargetingRelay => (
            m.set_fighter(
                Actor::Player,
                spec_with_axis(p.fighter, AxisKind::Focus, spec_clamp_axis(spec_saturating_add_i8(p.fighter.statuses.focus, 1) as int)),
            ),
            true,
        ),
        ModuleId::CapacitorBank => (
            m.set_fighter(
                Actor::Player,
                spec_with_axis(
                    p.fighter,
                    AxisKind::Momentum,
                    spec_clamp_axis(spec_saturating_add_i8(p.fighter.statuses.momentum, 1) as int),
                ),
            ),
            true,
        ),
        ModuleId::PrismScope => (
            CombatModel { enemies: spec_nudge_living(m.enemies, AxisKind::Rhythm, -1i8), ..m },
            any_enemy_alive(m.enemies),
        ),
        ModuleId::OverclockCore => {
            let max_energy = spec_saturating_add_u8(p.max_energy, 1);
            let raised = spec_saturating_add_u8(p.energy, 1);
            (
                CombatModel {
                    player: PlayerState { max_energy, energy: if raised < max_energy { raised } else { max_energy }, ..p },
                    ..m
                },
                true,
            )
        },
        ModuleId::SuppressionField => (
            CombatModel { enemies: spec_nudge_living(m.enemies, AxisKind::Focus, -1i8), ..m },
            any_enemy_alive(m.enemies),
        ),
        ModuleId::Nanoforge | ModuleId::SalvageLedger | ModuleId::RecoveryMatrix => (m, false),
    }
}

/// The modules, in order, whose start-of-combat effect did something.
pub open spec fn spec_applied_modules(m: CombatModel, modules: Seq<ModuleId>) -> (CombatModel, Seq<ModuleId>)
    decreases modules.len(),
{
    if modules.len() == 0 {
        (m, Seq::empty())
    } else {
        let (before, applied) = spec_applied_modules(m, modules.drop_last());
        let (after, changed) = spec_module_start(before, modules.last());
        (after, if changed { applied.push(modules.last()) } else { applied })
    }
}

/// What an enemy's current intent threatens: its focused damage per hit times the hits, and
/// three per stack of Bleed it would apply or has primed.
pub open spec fn spec_enemy_threat(enemy: EnemyState) -> int {
    let r = spec_resolved_intent(enemy);
    spec_scale_axis_value(r.damage, enemy.fighter.statuses.focus) * r.hits + r.apply_bleed * 3 + r.on_hit_bleed * 3
}

/// The threat of the first `n` enemies, counting only those still standing.
pub open spec fn spec_threat_prefix(enemies: Seq<EnemyState>, n: nat) -> int
    decreases n,
{
    if n == 0 {
        0
    } else {
        spec_threat_prefix(enemies, (n - 1) as nat) + (if enemies[n - 1].fighter.hp > 0 {
            spec_enemy_threat(enemies[n - 1])
        } else {
            0
        })
    }
}

pub proof fn lemma_enemy_threat_bounds(enemy: EnemyState)
    requires
        fighter_wf(enemy.fighter),
    ensures
        0 <= spec_enemy_threat(enemy) <= 1400,
{
    let r = spec_resolved_intent(enemy);
    lemma_resolved_bounds(enemy);
    lemma_scale_bounds(r.damage, enemy.fighter.statuses.focus);
    let d = spec_scale_axis_value(r.damage, enemy.fighter.statuses.focus);
    assert(0 <= d <= 180);
    assert(d * r.hits <= 180 * 3) by (nonlinear_arith)
        requires 0 <= d <= 180, 0 <= r.hits <= 3;
    assert(d * r.hits >= 0) by (nonlinear_arith)
        requires 0 <= d, 0 <= r.hits;
}

pub proof fn lemma_threat_prefix_bounds(enemies: Seq<EnemyState>, n: nat)
    requires
        n <= enemies.len(),
        forall|i: int| 0 <= i < enemies.len() ==> fighter_wf(#[trigger] enemies[i].fighter),
    ensures
        0 <= spec_threat_prefix(enemies, n) <= 1400 * n,
    decreases n,
{
    if n > 0 {
        lemma_threat_prefix_bounds(enemies, (n - 1) as nat);
        lemma_enemy_threat_bounds(enemies[n - 1]);
    }
}

impl CombatState {
    /// Applies a module's start-of-combat effect; returns whether it did anything.
    pub fn apply_module_start_of_combat(&mut self, module: ModuleId) -> (changed: bool)
        requires
            old(self)@.wf(),
        ensures
            (final(self)@, changed) == spec_module_start(old(self)@, module),
    {
        match module {
            ModuleId::AegisDrive => {
                self.player.fighter.block = saturating_add_i32(self.player.fighter.block, 5);
                true
            },
            ModuleId::TargetingRelay => {
                let raised = saturating_add_i8(self.player.fighter.statuses.focus, 1);
                self.player.fighter.statuses.focus = clamp_axis_value(raised);
                true
            },
            ModuleId::CapacitorBank => {
                let raised = saturating_add_i8(self.player.fighter.statuses.momentum, 1);
                self.player.fighter.statuses.momentum = clamp_axis_value(raised);
                true
            },
            ModuleId::PrismScope => self.nudge_living_enemies(AxisKind::Rhythm, -1),
            ModuleId::OverclockCore => {
                let max_energy = if self.player.max_energy == 255 { 255 } else { self.player.max_energy + 1 };
                let raised = if self.player.energy == 255 { 255 } else { self.player.energy + 1 };
                self.player.max_energy = max_energy;
                self.player.energy = if raised < max_energy { raised } else { max_energy };
                true
            },
            ModuleId::SuppressionField => self.nudge_living_enemies(AxisKind::Focus, -1),
            ModuleId::Nanoforge | ModuleId::SalvageLedger | ModuleId::RecoveryMatrix => false,
        }
    }

    /// Nudges one axis of every living enemy; returns whether any enemy was living.
    fn nudge_living_enemies(&mut self, axis: AxisKind, delta: i8) -> (changed: bool)
        ensures
            final(self)@ == (CombatModel { enemies: spec_nudge_living(old(self)@.enemies, axis, delta), ..old(self)@ }),
            changed == any_enemy_alive(old(self)@.enemies),
    {
        let mut changed = false;
        let mut i: usize = 0;
        while i < self.enemies.len()
            invariant
                i <= self.enemies.len(),
                self.enemies.len() == old(self).enemies.len(),
                self@ == (CombatModel { enemies: self@.enemies, ..old(self)@ }),
                forall|k: int|
                    0 <= k < self.enemies.len() ==> #[trigger] self@.enemies[k] == (if k < i {
                        spec_nudge_living(old(self)@.enemies, axis, delta)[k]
                    } else {
                        old(self)@.enemies[k]
                    }),
                changed == exists|k: int| 0 <= k < i && #[trigger] old(self)@.enemies[k].fighter.hp > 0,
            decreases self.enemies.len() - i,
        {
            let mut enemy = self.enemies[i];
            if enemy.fighter.hp > 0 {
                let current = match axis {
                    AxisKind::Focus => enemy.fighter.statuses.focus,
                    AxisKind::Rhythm => enemy.fighter.statuses.rhythm,
                    AxisKind::Momentum => enemy.fighter.statuses.momentum,
                };
                let value = clamp_axis_value(saturating_add_i8(current, delta));
                match axis {
                    AxisKind::Focus => { enemy.fighter.statuses.focus = value; },
                    AxisKind::Rhythm => { enemy.fighter.statuses.rhythm = value; },
                    AxisKind::Momentum => { enemy.fighter.statuses.momentum = value; },
                }
                self.enemies.set(i, enemy);
                changed = true;
            }
            i = i + 1;
        }
        proof {
            assert(self@.enemies =~= spec_nudge_living(old(self)@.enemies, axis, delta));
        }
        changed
    }

    /// Applies the modules' start-of-combat effects in order; returns those that did anything.
    pub fn apply_start_of_combat_modules(&mut self, modules: &[ModuleId]) -> (applied: Vec<ModuleId>)
        requires
            old(self)@.wf(),
        ensures
            (final(self)@, applied@) == spec_applied_modules(old(self)@, modules@),
            final(self)@.wf(),
    {
        let mut applied: Vec<ModuleId> = Vec::new();
        let mut i: usize = 0;
        while i < modules.len()
            invariant
                i <= modules.len(),
                (self@, applied@) == spec_applied_modules(old(self)@, modules@.take(i as int)),
                self@.wf(),
            decreases modules.len() - i,
        {
            proof {
                assert(modules@.take(i as int + 1).drop_last() =~= modules@.take(i as int));
            }
            let module = modules[i];
            if self.apply_module_start_of_combat(module) {
                applied.push(module);
            }
            proof {
                lemma_module_start_wf(spec_applied_modules(old(self)@, modules@.take(i as int)).0, module);
            }
            i = i + 1;
        }
        proof {
            assert(modules@.take(modules@.len() as int) =~= modules@);
        }
        applied
    }

    /// The damage and Bleed the standing enemies threaten with their current intents.
    pub fn expected_enemy_threat(&self) -> (total: i32)
        requires
            self@.wf(),
            self.enemies.len() <= 1_000_000,
        ensures
            total == spec_threat_prefix(self@.enemies, self@.enemies.len()),
    {
        let mut total: i32 = 0;
        let mut i: usize = 0;
        while i < self.enemies.len()
            invariant
                i <= self.enemies.len(),
                self.enemies.len() <= 1_000_000,
                self@.wf(),
                total == spec_threat_prefix(self@.enemies, i as nat),
            decreases self.enemies.len() - i,
        {
            proof {
                lemma_threat_prefix_bounds(self@.enemies, i as nat);
                lemma_threat_prefix_bounds(self@.enemies, (i + 1) as nat);
            }
            let enemy = self.enemies[i];
            if enemy.fighter.hp > 0 {
                let resolved = self.resolved_enemy_intent(i).unwrap();
                proof {
                    lemma_resolved_bounds(enemy);
                    lemma_scale_bounds(resolved.damage, enemy.fighter.statuses.focus);
                }
                let damage = scale_axis_value(resolved.damage, enemy.fighter.statuses.focus);
                proof {
                    assert(damage * resolved.hits <= 180 * 3) by (nonlinear_arith)
                        requires 0 <= damage <= 180, 0 <= resolved.hits <= 3;
                    assert(damage * resolved.hits >= 0) by (nonlinear_arith)
                        requires 0 <= damage, 0 <= resolved.hits;
                }
                total = total + damage * resolved.hits as i32;
                total = total + resolved.apply_bleed as i32 * 3;
                total = total + resolved.on_hit_bleed as i32 * 3;
            }
            i = i + 1;
        }
        total
    }
}

/// A module's start-of-combat effect keeps a combat well formed.
pub proof fn lemma_module_start_wf(m: CombatModel, module: ModuleId)
    requires
        m.wf(),
    ensures
        spec_module_start(m, module).0.wf(),
{
    let n = spec_module_start(m, module).0;
    match module {
        ModuleId::PrismScope | ModuleId::SuppressionField => {
            assert forall|i: int| 0 <= i < n.enemies.len() implies fighter_wf(#[trigger] n.enemies[i].fighter)
                && n.enemies[i].intent_index < 3 by {
                assert(fighter_wf(m.enemies[i].fighter));
            }
        },
        _ => {},
    }
}

/// Bounds on a resolved intent handed in from outside.
pub open spec fn resolved_usable(r: ResolvedEnemyIntent) -> bool {
    &&& -AMOUNT_LIMIT <= r.damage <= AMOUNT_LIMIT
    &&& -AMOUNT_LIMIT <= r.gain_block <= AMOUNT_LIMIT
}

/// A resolved intent's hits on the player in a shared combat: up to `hits` hits of `damage`
/// (none when it is not positive), the first carrying `bleed` stacks of Bleed, stopping once
/// the player is down.
pub open spec fn spec_shared_hits(m: CombatModel, e: int, damage: i32, hits: nat, bleed: u8) -> CombatModel
    decreases hits,
{
    if hits == 0 || damage <= 0 {
        m
    } else {
        let hit = m.set_fighter(
            Actor::Player,
            spec_after_damage(m.player.fighter, spec_scale_damage_amount(damage, m.enemies[e].fighter.statuses)),
        );
        let hit = if bleed > 0 { spec_status_on(hit, Actor::Player, StatusKind::Bleed, bleed as i8) } else { hit };
        if hit.player.fighter.hp <= 0 { hit } else { spec_shared_hits(hit, e, damage, (hits - 1) as nat, 0) }
    }
}

/// What a resolved intent of enemy `e` does to the player in a shared combat: its hits, then,
/// if the player stands, the axis changes and Bleed it inflicts; then the outcome check.
pub open spec fn spec_shared_target_effects(m: CombatModel, e: int, r: ResolvedEnemyIntent) -> CombatModel {
    let m = spec_shared_hits(m, e, r.damage, r.hits as nat, r.on_hit_bleed);
    let m = if m.player.fighter.hp > 0 {
        let m = if r.target_focus != 0 { spec_status_on(m, Actor::Player, StatusKind::Focus, r.target_focus) } else { m };
        let m = if r.target_rhythm != 0 { spec_status_on(m, Actor::Player, StatusKind::Rhythm, r.target_rhythm) } else { m };
        let m = if r.target_momentum != 0 { spec_status_on(m, Actor::Player, StatusKind::Momentum, r.target_momentum) } else { m };
        if r.apply_bleed > 0 { spec_status_on(m, Actor::Player, StatusKind::Bleed, r.apply_bleed as i8) } else { m }
    } else {
        m
    };
    spec_check_outcome(m)
}

/// Enemy `e` with its bookkeeping replaced.
pub open spec fn with_enemy(m: CombatModel, e: int, enemy: EnemyState) -> CombatModel {
    CombatModel { enemies: m.enemies.update(e, enemy), ..m }
}

/// What a resolved intent of enemy `e` does to the enemy itself in a shared combat: a spent
/// primed Bleed cleared, its block, its own axis changes, a new primed Bleed and the advance
/// of its rotation; then the outcome check.
pub open spec fn spec_shared_self_effects(m: CombatModel, e: int, r: ResolvedEnemyIntent, consumed_on_hit_bleed: bool) -> CombatModel {
    let actor = Actor::Enemy(e as usize);
    let m = if consumed_on_hit_bleed { with_enemy(m, e, EnemyState { on_hit_bleed: 0, ..m.enemies[e] }) } else { m };
    let m = if r.gain_block > 0 { m.set_fighter(actor, spec_after_block_gain(m.fighter(actor), r.gain_block)) } else { m };
    let m = if r.self_focus != 0 { spec_status_on(m, actor, StatusKind::Focus, r.self_focus) } else { m };
    let m = if r.self_rhythm != 0 { spec_status_on(m, actor, StatusKind::Rhythm, r.self_rhythm) } else { m };
    let m = if r.self_momentum != 0 { spec_status_on(m, actor, StatusKind::Momentum, r.self_momentum) } else { m };
    let m = if r.prime_bleed > 0 { with_enemy(m, e, EnemyState { on_hit_bleed: r.prime_bleed, ..m.enemies[e] }) } else { m };
    let m = with_enemy(m, e, EnemyState { intent_index: ((m.enemies[e].intent_index + 1) % 3) as usize, ..m.enemies[e] });
    spec_check_outcome(m)
}

impl CombatState {
    /// Applies what a resolved enemy intent does to the player in a shared combat: its hits
    /// (the first carrying the primed Bleed, stopping once the player is down), then, if the
    /// player stands, the axis changes and Bleed it inflicts; then checks the outcome.
    pub fn apply_multiplayer_enemy_target_effects(&mut self, enemy_index: usize, resolved: ResolvedEnemyIntent) -> (events: Vec<CombatEvent>)
        requires
            old(self)@.wf(),
            enemy_index < old(self).enemies.len(),
            resolved_usable(resolved),
        ensures
            final(self)@ == spec_shared_target_effects(old(self)@, enemy_index as int, resolved),
            final(self)@.wf(),
            final(self)@.enemies == old(self)@.enemies,
            final(self)@.deck == old(self)@.deck,
            final(self)@.rng == old(self)@.rng,
            final(self).turn == old(self).turn,
            final(self).player.fighter.block <= old(self).player.fighter.block,
    {
        let mut events: Vec<CombatEvent> = Vec::new();
        let mut on_hit_bleed = resolved.on_hit_bleed;
        let mut hit: u8 = 0;
        while hit < resolved.hits
            invariant_except_break
                hit > 0 ==> on_hit_bleed == 0,
                hit == 0 ==> on_hit_bleed == resolved.on_hit_bleed,
                spec_shared_hits(self@, enemy_index as int, resolved.damage, (resolved.hits - hit) as nat, on_hit_bleed)
                    == spec_shared_hits(old(self)@, enemy_index as int, resolved.damage, resolved.hits as nat, resolved.on_hit_bleed),
            invariant
                self@.wf(),
                self@.enemies == old(self)@.enemies,
                self@.deck == old(self)@.deck,
                self@.rng == old(self)@.rng,
                self@.phase == old(self)@.phase,
                self@.announced == old(self)@.announced,
                self.turn == old(self).turn,
                self.player.fighter.block <= old(self).player.fighter.block,
                enemy_index < self.enemies.len(),
                resolved_usable(resolved),
                hit <= resolved.hits,
            ensures
                self@ == spec_shared_hits(old(self)@, enemy_index as int, resolved.damage, resolved.hits as nat, resolved.on_hit_bleed),
            decreases resolved.hits - hit,
        {
            if resolved.damage <= 0 {
                break;
            }
            self.damage(Actor::Enemy(enemy_index), Actor::Player, resolved.damage, &mut events);
            if on_hit_bleed > 0 {
                #[verifier::truncate]
                let stacks = on_hit_bleed as i8;
                self.apply_status(Actor::Player, StatusKind::Bleed, stacks, &mut events);
                on_hit_bleed = 0;
            }
            if hit + 1 < resolved.hits && self.player.fighter.hp <= 0 {
                break;
            }
            hit = hit + 1;
        }
        if self.player.fighter.hp > 0 {
            if resolved.target_focus != 0 {
                self.apply_status(Actor::Player, StatusKind::Focus, resolved.target_focus, &mut events);
            }
            if resolved.target_rhythm != 0 {
                self.apply_status(Actor::Player, StatusKind::Rhythm, resolved.target_rhythm, &mut events);
            }
            if resolved.target_momentum != 0 {
                self.apply_status(Actor::Player, StatusKind::Momentum, resolved.target_momentum, &mut events);
            }
            if resolved.apply_bleed > 0 {
                #[verifier::truncate]
                let stacks = resolved.apply_bleed as i8;
                self.apply_status(Actor::Player, StatusKind::Bleed, stacks, &mut events);
            }
        }
        self.check_outcome(&mut events);
        events
    }

    /// Applies what a resolved enemy intent does to the enemy itself in a shared combat: a
    /// spent primed Bleed is cleared, then its block, its own axis changes, a new primed Bleed
    /// and the advance of its rotation; then checks the outcome.
    #[verifier::spinoff_prover]
    #[verifier::rlimit(50)]
    pub fn apply_multiplayer_enemy_self_effects(
        &mut self,
        enemy_index: usize,
        resolved: ResolvedEnemyIntent,
        consumed_on_hit_bleed: bool,
    ) -> (events: Vec<CombatEvent>)
        requires
            old(self)@.wf(),
            enemy_index < old(self).enemies.len(),
            old(self).enemies[enemy_index as int].fighter.block <= PLAY_BLOCK_LIMIT,
            resolved_usable(resolved),
            resolved.gain_block <= 1000,
        ensures
            final(self)@ == spec_shared_self_effects(old(self)@, enemy_index as int, resolved, consumed_on_hit_bleed),
            final(self)@.wf(),
            final(self)@.enemies.len() == old(self)@.enemies.len(),
            final(self).player == old(self).player,
            final(self)@.deck == old(self)@.deck,
            final(self)@.rng == old(self)@.rng,
            final(self).turn == old(self).turn,
            forall|j: int|
                0 <= j < old(self).enemies.len() && j != enemy_index ==> #[trigger] final(self)@.enemies[j]
                    == old(self)@.enemies[j],
            final(self)@.enemies[enemy_index as int].intent_index == ((old(self)@.enemies[enemy_index as int].intent_index
                + 1) % 3) as usize,
            final(self)@.enemies[enemy_index as int].fighter.hp == old(self)@.enemies[enemy_index as int].fighter.hp,
            block_growth_within(old(self)@, final(self)@, 3000),
    {
        let mut events: Vec<CombatEvent> = Vec::new();
        let ghost origin = self@;
        proof {
            assert(step_frame(origin, origin, 0, 3000));
        }
        if consumed_on_hit_bleed {
            let mut enemy = self.enemies[enemy_index];
            enemy.on_hit_bleed = 0;
            self.set_enemy_bookkeeping(Ghost(origin), enemy_index, enemy);
        }
        let enemy_actor = Actor::Enemy(enemy_index);
        if resolved.gain_block > 0 {
            let ghost before = self@;
            self.gain_block(enemy_actor, resolved.gain_block, &mut events);
            proof {
                lemma_set_fighter_frame(before, enemy_actor, self@.fighter(enemy_actor), 0, 3000);
                lemma_step_frame_trans(origin, before, self@, 0, 0, 0, 3000);
                assert forall|j: int| 0 <= j < origin.enemies.len() && j != enemy_index implies #[trigger] self@.enemies[j]
                    == origin.enemies[j] by {
                    assert(self@.enemies[j] == before.enemies[j]);
                }
            }
        }
        if resolved.self_focus != 0 {
            self.enemy_self_status(Ghost(origin), enemy_index, StatusKind::Focus, resolved.self_focus, &mut events);
        }
        if resolved.self_rhythm != 0 {
            self.enemy_self_status(Ghost(origin), enemy_index, StatusKind::Rhythm, resolved.self_rhythm, &mut events);
        }
        if resolved.self_momentum != 0 {
            self.enemy_self_status(Ghost(origin), enemy_index, StatusKind::Momentum, resolved.self_momentum, &mut events);
        }
        if resolved.prime_bleed > 0 {
            let mut enemy = self.enemies[enemy_index];
            enemy.on_hit_bleed = resolved.prime_bleed;
            self.set_enemy_bookkeeping(Ghost(origin), enemy_index, enemy);
            events.push(CombatEvent::EnemyPrimedBleed { enemy_index, amount: resolved.prime_bleed });
        }
        let mut enemy = self.enemies[enemy_index];
        enemy.intent_index = (enemy.intent_index + 1) % 3;
        self.set_enemy_bookkeeping(Ghost(origin), enemy_index, enemy);
        let next = enemy_intent(enemy.profile, enemy.intent_index);
        events.push(CombatEvent::IntentAdvanced { enemy_index, intent: next });
        proof {
            lemma_step_frame_growth(origin, self@, 0, 3000, 3000);
        }
        self.check_outcome(&mut events);
        events
    }

    /// Replaces an enemy's bookkeeping (primed Bleed, rotation slot) in a shared-combat step.
    fn set_enemy_bookkeeping(&mut self, Ghost(origin): Ghost<CombatModel>, enemy_index: usize, enemy: EnemyState)
        requires
            step_frame(origin, old(self)@, 0, 3000),
            enemy_index < old(self).enemies.len(),
            enemy.fighter == old(self).enemies[enemy_index as int].fighter,
            enemy.intent_index < 3,
            forall|j: int| 0 <= j < origin.enemies.len() && j != enemy_index ==> #[trigger] old(self)@.enemies[j] == origin.enemies[j],
        ensures
            step_frame(origin, final(self)@, 0, 3000),
            final(self)@ == (CombatModel { enemies: old(self)@.enemies.update(enemy_index as int, enemy), ..old(self)@ }),
            forall|j: int| 0 <= j < origin.enemies.len() && j != enemy_index ==> #[trigger] final(self)@.enemies[j] == origin.enemies[j],
    {
        let ghost before = self@;
        self.enemies.set(enemy_index, enemy);
        proof {
            lemma_enemy_meta_frame(before, enemy_index as int, enemy);
            lemma_step_frame_trans(origin, before, self@, 0, 3000, 0, 0);
            assert forall|j: int| 0 <= j < origin.enemies.len() && j != enemy_index implies #[trigger] self@.enemies[j]
                == origin.enemies[j] by {
                assert(self@.enemies[j] == before.enemies[j]);
            }
        }
    }

    /// An axis change an enemy makes to itself in a shared-combat step.
    fn enemy_self_status(
        &mut self,
        Ghost(origin): Ghost<CombatModel>,
        enemy_index: usize,
        status: StatusKind,
        amount: i8,
        events: &mut Vec<CombatEvent>,
    )
        requires
            step_frame(origin, old(self)@, 0, 3000),
            enemy_index < old(self).enemies.len(),
            forall|j: int| 0 <= j < origin.enemies.len() && j != enemy_index ==> #[trigger] old(self)@.enemies[j] == origin.enemies[j],
        ensures
            final(self)@ == spec_status_on(old(self)@, Actor::Enemy(enemy_index), status, amount),
            step_frame(origin, final(self)@, 0, 3000),
            final(self).player == old(self).player,
            final(self)@.deck == old(self)@.deck,
            final(self)@.rng == old(self)@.rng,
            final(self)@.enemies[enemy_index as int].fighter.hp == old(self)@.enemies[enemy_index as int].fighter.hp,
            final(self)@.enemies[enemy_index as int].intent_index == old(self)@.enemies[enemy_index as int].intent_index,
            final(self)@.enemies[enemy_index as int].profile == old(self)@.enemies[enemy_index as int].profile,
            forall|j: int| 0 <= j < origin.enemies.len() && j != enemy_index ==> #[trigger] final(self)@.enemies[j] == origin.enemies[j],
    {
        let ghost before = self@;
        self.apply_enemy_status(enemy_index, status, amount, events);
        proof {
            lemma_set_fighter_frame(before, Actor::Enemy(enemy_index), self@.fighter(Actor::Enemy(enemy_index)), 0, 0);
            lemma_step_frame_trans(origin, before, self@, 0, 3000, 0, 0);
            assert forall|j: int| 0 <= j < origin.enemies.len() && j != enemy_index implies #[trigger] self@.enemies[j]
                == origin.enemies[j] by {
                assert(self@.enemies[j] == before.enemies[j]);
            }
        }
    }
}

} // verus!
