use mazocarta::combat::{
    Actor, CombatAction, CombatCommand, CombatEvent, CombatOutcome, CombatState, EncounterEnemySetup, EncounterSetup,
    EnemyState, StatusKind, StatusSet, TurnPhase, MAX_HAND_CARDS,
};
use mazocarta::content::{CardId, EnemyProfileId, ModuleId};

const PRIMARY_ENEMY: Actor = Actor::Enemy(0);

fn primary_enemy(state: &CombatState) -> &EnemyState {
    state
        .enemy(0)
        .expect("combat fixture should have a primary enemy")
}

fn primary_enemy_mut(state: &mut CombatState) -> &mut EnemyState {
    state
        .enemies
        .get_mut(0)
        .expect("combat fixture should have a primary enemy")
}

fn set_primary_enemy_intent(
    state: &mut CombatState,
    profile: EnemyProfileId,
    intent_index: usize,
) {
    let enemy = primary_enemy_mut(state);
    enemy.profile = profile;
    enemy.intent_index = intent_index % 3;
}

fn blank_state() -> CombatState {
    let (mut state, _) = CombatState::new(0xACE5);
    state.deck.draw_pile.clear();
    state.deck.hand.clear();
    state.deck.discard_pile.clear();
    state.turn = 1;
    state.phase = TurnPhase::PlayerTurn;
    state.player.energy = 3;
    state.player.fighter.block = 0;
    state.player.fighter.statuses = StatusSet::default();
    primary_enemy_mut(&mut state).fighter.block = 0;
    primary_enemy_mut(&mut state).fighter.statuses = StatusSet::default();
    primary_enemy_mut(&mut state).fighter.hp = 40;
    primary_enemy_mut(&mut state).fighter.max_hp = 40;
    state.player.fighter.hp = 40;
    state.player.fighter.max_hp = 40;
    state
}

#[test]
fn enemy_end_turn_only_emits_turn_ended() {
    let mut state = blank_state();
    state.phase = TurnPhase::EnemyTurn;

    let events = state.apply_enemy_end_turn_only();

    assert!(events.contains(&CombatEvent::TurnEnded {
        actor: Actor::Enemy(0),
    }));
}

#[test]
fn reshuffles_discard_when_draw_pile_is_empty() {
    let mut state = blank_state();
    state.deck.draw_pile = vec![CardId::FlareSlash];
    state.deck.discard_pile = vec![CardId::GuardStep];

    let events = state.process_commands(&[CombatCommand::DrawCards(2)]);

    assert_eq!(state.deck.hand.len(), 2);
    assert!(events.contains(&CombatEvent::Reshuffled));
}

#[test]
fn burns_drawn_cards_once_the_hand_reaches_nine_cards() {
    let mut state = blank_state();
    state.deck.hand = vec![
        CardId::QuickStrike,
        CardId::GuardStep,
        CardId::FlareSlash,
        CardId::PinpointJab,
        CardId::BurstArray,
        CardId::CoverPulse,
        CardId::BarrierField,
        CardId::TacticalBurst,
        CardId::RazorNet,
    ];
    state.deck.draw_pile = vec![CardId::FracturePulse];

    let events = state.process_commands(&[CombatCommand::DrawCards(1)]);

    assert_eq!(state.deck.hand.len(), MAX_HAND_CARDS);
    assert_eq!(state.deck.discard_pile, vec![CardId::FracturePulse]);
    assert!(events.contains(&CombatEvent::CardBurned {
        card: CardId::FracturePulse,
    }));
}

#[test]
fn start_of_combat_modules_use_shared_axis_clamp_limits() {
    let mut state = blank_state();
    state.player.fighter.statuses.focus = 8;
    state.player.fighter.statuses.momentum = 8;
    primary_enemy_mut(&mut state).fighter.statuses.rhythm = -8;
    primary_enemy_mut(&mut state).fighter.statuses.focus = -8;

    let applied = state.apply_start_of_combat_modules(&[
        ModuleId::TargetingRelay,
        ModuleId::CapacitorBank,
        ModuleId::PrismScope,
        ModuleId::SuppressionField,
    ]);

    assert_eq!(
        applied,
        vec![
            ModuleId::TargetingRelay,
            ModuleId::CapacitorBank,
            ModuleId::PrismScope,
            ModuleId::SuppressionField,
        ]
    );
    assert_eq!(state.player.fighter.statuses.focus, 9);
    assert_eq!(state.player.fighter.statuses.momentum, 9);
    assert_eq!(primary_enemy(&state).fighter.statuses.rhythm, -9);
    assert_eq!(primary_enemy(&state).fighter.statuses.focus, -9);
}

#[test]
fn refuses_cards_when_energy_is_too_low() {
    let mut state = blank_state();
    state.deck.hand = vec![CardId::SunderingArc];
    state.player.energy = 1;

    let events = state.dispatch(CombatAction::PlayCard {
        hand_index: 0,
        target: Some(PRIMARY_ENEMY),
    });

    assert_eq!(state.deck.hand, vec![CardId::SunderingArc]);
    assert_eq!(state.player.energy, 1);
    assert!(events.iter().any(|event| matches!(
        event,
        CombatEvent::NotEnoughEnergy {
            needed: 2,
            available: 1
        }
    )));
}

#[test]
fn focus_increases_damage_dealt() {
    let mut state = blank_state();
    state.player.fighter.statuses.focus = 1;

    let mut events = Vec::new();
    state.damage(Actor::Player, PRIMARY_ENEMY, 6, &mut events);

    assert_eq!(primary_enemy(&state).fighter.hp, 33);
    assert!(events.contains(&CombatEvent::DamageDealt {
        source: Actor::Player,
        target: PRIMARY_ENEMY,
        amount: 7,
    }));
}

#[test]
fn negative_focus_reduces_damage_and_decays_at_end_of_turn() {
    let mut state = blank_state();
    state.player.fighter.statuses.focus = -1;

    let mut damage_events = Vec::new();
    state.damage(Actor::Player, PRIMARY_ENEMY, 8, &mut damage_events);

    assert_eq!(primary_enemy(&state).fighter.hp, 33);
    assert!(damage_events.contains(&CombatEvent::DamageDealt {
        source: Actor::Player,
        target: PRIMARY_ENEMY,
        amount: 7,
    }));

    state.process_commands(&[CombatCommand::ApplyEndOfTurn(Actor::Player)]);
    assert_eq!(state.player.fighter.statuses.focus, 0);
}

#[test]
fn focus_scales_each_hit_and_decays_toward_zero() {
    let mut state = blank_state();
    state.player.fighter.statuses.focus = 2;
    state.deck.hand = vec![CardId::BurstArray];

    state.dispatch(CombatAction::PlayCard {
        hand_index: 0,
        target: Some(PRIMARY_ENEMY),
    });

    assert_eq!(primary_enemy(&state).fighter.hp, 25);

    state.process_commands(&[CombatCommand::ApplyEndOfTurn(Actor::Player)]);
    assert_eq!(state.player.fighter.statuses.focus, 1);
}

#[test]
fn axis_values_clamp_to_plus_and_minus_nine() {
    let mut state = blank_state();
    let mut events = Vec::new();

    state.apply_status(Actor::Player, StatusKind::Focus, 12, &mut events);
    state.apply_status(Actor::Player, StatusKind::Rhythm, -12, &mut events);
    state.apply_status(Actor::Player, StatusKind::Momentum, 15, &mut events);

    assert_eq!(state.player.fighter.statuses.focus, 9);
    assert_eq!(state.player.fighter.statuses.rhythm, -9);
    assert_eq!(state.player.fighter.statuses.momentum, 9);
}

#[test]
fn status_applied_event_uses_effective_axis_delta_after_clamp() {
    let mut state = blank_state();
    let mut events = Vec::new();
    state.player.fighter.statuses.focus = 8;

    state.apply_status(Actor::Player, StatusKind::Focus, 3, &mut events);

    assert_eq!(state.player.fighter.statuses.focus, 9);
    assert!(events.contains(&CombatEvent::StatusApplied {
        target: Actor::Player,
        status: StatusKind::Focus,
        amount: 1,
    }));
}

#[test]
fn rhythm_scales_block_gain_from_cards_and_enemy_intents_with_new_curve() {
    let mut state = blank_state();
    state.player.fighter.statuses.rhythm = -1;
    primary_enemy_mut(&mut state).fighter.statuses.rhythm = -1;
    state.deck.hand = vec![CardId::CoverPulse];

    state.dispatch(CombatAction::PlayCard {
        hand_index: 0,
        target: Some(Actor::Player),
    });

    assert_eq!(state.player.fighter.block, 9);

    let mut events = Vec::new();
    state.gain_block(PRIMARY_ENEMY, 8, &mut events);
    assert_eq!(primary_enemy(&state).fighter.block, 7);
    assert!(events.contains(&CombatEvent::BlockGained {
        actor: PRIMARY_ENEMY,
        amount: 7,
    }));
}

#[test]
fn focus_scales_damage_multiplicatively() {
    let mut state = blank_state();
    state.player.fighter.statuses.focus = 2;

    let mut events = Vec::new();
    state.damage(Actor::Player, PRIMARY_ENEMY, 6, &mut events);

    assert_eq!(primary_enemy(&state).fighter.hp, 33);
    assert!(events.contains(&CombatEvent::DamageDealt {
        source: Actor::Player,
        target: PRIMARY_ENEMY,
        amount: 7,
    }));
}

#[test]
fn bleed_still_ignores_focus_rhythm_and_momentum() {
    let mut state = blank_state();
    state.player.fighter.statuses.bleed = 3;
    state.player.fighter.statuses.focus = -2;
    state.player.fighter.statuses.rhythm = 3;
    primary_enemy_mut(&mut state).fighter.statuses.momentum = -2;

    state.process_commands(&[CombatCommand::ApplyEndOfTurn(Actor::Player)]);

    assert_eq!(state.player.fighter.hp, 37);
    assert_eq!(state.player.fighter.statuses.bleed, 2);
}

#[test]
fn bleed_ticks_and_decays_at_end_of_turn() {
    let mut state = blank_state();
    state.player.fighter.statuses.bleed = 2;

    let events = state.process_commands(&[CombatCommand::ApplyEndOfTurn(Actor::Player)]);

    assert_eq!(state.player.fighter.hp, 38);
    assert_eq!(state.player.fighter.statuses.bleed, 1);
    assert!(events.contains(&CombatEvent::StatusTicked {
        actor: Actor::Player,
        status: StatusKind::Bleed,
        amount: 2,
    }));
}

#[test]
fn block_clears_when_the_owner_turn_starts() {
    let mut state = blank_state();
    state.player.fighter.block = 8;
    state.phase = TurnPhase::EnemyTurn;

    let events = state.process_commands(&[CombatCommand::StartTurn(Actor::Player)]);

    assert_eq!(state.player.fighter.block, 0);
    assert!(events.contains(&CombatEvent::BlockCleared {
        actor: Actor::Player,
        amount: 8,
    }));
}

#[test]
fn guard_step_now_only_gains_block() {
    let mut state = blank_state();
    state.deck.hand = vec![CardId::GuardStep];

    state.dispatch(CombatAction::PlayCard {
        hand_index: 0,
        target: None,
    });

    assert_eq!(state.player.fighter.statuses.rhythm, 0);
    assert_eq!(state.player.fighter.block, 8);
}

#[test]
fn pulse_converter_only_needs_rhythm_above_one() {
    let mut state = blank_state();
    state.deck.hand = vec![CardId::PulseConverter];
    state.player.fighter.statuses.rhythm = 1;

    assert!(!state.can_play_card(0));

    state.player.fighter.statuses.rhythm = 2;
    assert!(state.can_play_card(0));
}

#[test]
fn arc_spark_now_grants_two_momentum() {
    let mut state = blank_state();
    state.deck.hand = vec![CardId::ArcSpark];

    state.dispatch(CombatAction::PlayCard {
        hand_index: 0,
        target: Some(PRIMARY_ENEMY),
    });

    assert_eq!(primary_enemy(&state).fighter.hp, 35);
    assert_eq!(state.player.fighter.statuses.momentum, 2);
}

#[test]
fn stockpile_plus_accumulates_momentum_and_scales_next_turn_energy() {
    let mut state = blank_state();
    state.deck.hand = vec![CardId::StockpilePlus];

    state.dispatch(CombatAction::PlayCard {
        hand_index: 0,
        target: None,
    });

    assert_eq!(state.player.fighter.statuses.momentum, 4);

    state.phase = TurnPhase::EnemyTurn;
    state.process_commands(&[CombatCommand::StartTurn(Actor::Player)]);

    assert_eq!(state.player.energy, 4);
}

#[test]
fn enemy_intent_rotates_in_order() {
    let mut state = blank_state();

    set_primary_enemy_intent(&mut state, EnemyProfileId::ScoutDrone, 0);
    primary_enemy_mut(&mut state).intent_index = 1;
    assert_eq!(state.current_intent(0).unwrap().name, "Crossfire");

    primary_enemy_mut(&mut state).intent_index = 2;
    assert_eq!(state.current_intent(0).unwrap().name, "Brace Cycle");

    primary_enemy_mut(&mut state).intent_index = 0;
    assert_eq!(state.current_intent(0).unwrap().name, "Shock Needle");
}

#[test]
fn winning_card_sets_victory() {
    let mut state = blank_state();
    state.deck.hand = vec![CardId::FlareSlash];
    primary_enemy_mut(&mut state).fighter.hp = 6;

    let events = state.dispatch(CombatAction::PlayCard {
        hand_index: 0,
        target: Some(PRIMARY_ENEMY),
    });

    assert_eq!(state.outcome(), Some(CombatOutcome::Victory));
    assert!(events.contains(&CombatEvent::ActorDefeated {
        actor: PRIMARY_ENEMY,
    }));
    assert!(events.contains(&CombatEvent::CombatWon));
}

#[test]
fn custom_deck_is_used_when_starting_encounter() {
    let deck = vec![
        CardId::ExecutionBeam,
        CardId::FortressMatrix,
        CardId::ZeroPoint,
    ];
    let (state, _) =
        CombatState::new_with_deck(0xDEC0, EncounterSetup::default(), deck.clone());

    let total_cards =
        state.deck.draw_pile.len() + state.deck.hand.len() + state.deck.discard_pile.len();
    assert_eq!(total_cards, deck.len());
}

#[test]
fn pinpoint_jab_applies_bleed() {
    let mut state = blank_state();
    state.deck.hand = vec![CardId::PinpointJab];

    state.dispatch(CombatAction::PlayCard {
        hand_index: 0,
        target: Some(PRIMARY_ENEMY),
    });

    assert_eq!(primary_enemy(&state).fighter.hp, 33);
    assert_eq!(primary_enemy(&state).fighter.statuses.bleed, 1);
}

#[test]
fn signal_tap_plus_applies_momentum_draws_and_gains_block() {
    let mut state = blank_state();
    state.deck.hand = vec![CardId::SignalTapPlus];
    state.deck.draw_pile = vec![CardId::FlareSlash];

    state.dispatch(CombatAction::PlayCard {
        hand_index: 0,
        target: Some(PRIMARY_ENEMY),
    });

    assert_eq!(primary_enemy(&state).fighter.statuses.momentum, -1);
    assert_eq!(state.player.fighter.block, 5);
    assert_eq!(state.deck.hand, vec![CardId::FlareSlash]);
}

#[test]
fn pressure_point_applies_focus_loss() {
    let mut state = blank_state();
    state.deck.hand = vec![CardId::PressurePoint];

    state.dispatch(CombatAction::PlayCard {
        hand_index: 0,
        target: Some(PRIMARY_ENEMY),
    });

    assert_eq!(primary_enemy(&state).fighter.hp, 35);
    assert_eq!(primary_enemy(&state).fighter.statuses.focus, -1);
}

#[test]
fn burst_array_hits_three_times() {
    let mut state = blank_state();
    state.deck.hand = vec![CardId::BurstArray];

    state.dispatch(CombatAction::PlayCard {
        hand_index: 0,
        target: Some(PRIMARY_ENEMY),
    });

    assert_eq!(primary_enemy(&state).fighter.hp, 28);
}

#[test]
fn cover_pulse_gains_block_and_draws() {
    let mut state = blank_state();
    state.deck.hand = vec![CardId::CoverPulse];
    state.deck.draw_pile = vec![CardId::GuardStep];

    state.dispatch(CombatAction::PlayCard {
        hand_index: 0,
        target: None,
    });

    assert_eq!(state.player.fighter.block, 10);
    assert_eq!(state.deck.hand, vec![CardId::GuardStep]);
}

#[test]
fn barrier_field_applies_focus_loss_while_gaining_block() {
    let mut state = blank_state();
    state.deck.hand = vec![CardId::BarrierField];

    state.dispatch(CombatAction::PlayCard {
        hand_index: 0,
        target: Some(PRIMARY_ENEMY),
    });

    assert_eq!(state.player.fighter.block, 16);
    assert_eq!(primary_enemy(&state).fighter.statuses.focus, -1);
}

#[test]
fn tactical_burst_draws_and_gains_focus() {
    let mut state = blank_state();
    state.deck.hand = vec![CardId::TacticalBurst];
    state.deck.draw_pile = vec![CardId::GuardStep, CardId::FlareSlash];

    state.dispatch(CombatAction::PlayCard {
        hand_index: 0,
        target: None,
    });

    assert_eq!(state.player.fighter.statuses.focus, 1);
    assert_eq!(state.deck.hand.len(), 2);
    assert!(state.deck.hand.contains(&CardId::GuardStep));
    assert!(state.deck.hand.contains(&CardId::FlareSlash));
}

#[test]
fn razor_net_applies_two_hits_and_bleed() {
    let mut state = blank_state();
    state.deck.hand = vec![CardId::RazorNet];

    state.dispatch(CombatAction::PlayCard {
        hand_index: 0,
        target: Some(PRIMARY_ENEMY),
    });

    assert_eq!(primary_enemy(&state).fighter.hp, 30);
    assert_eq!(primary_enemy(&state).fighter.statuses.bleed, 2);
}

#[test]
fn fracture_pulse_combines_damage_and_bleed() {
    let mut state = blank_state();
    state.deck.hand = vec![CardId::FracturePulse];

    state.dispatch(CombatAction::PlayCard {
        hand_index: 0,
        target: Some(PRIMARY_ENEMY),
    });

    assert_eq!(primary_enemy(&state).fighter.hp, 28);
    assert_eq!(primary_enemy(&state).fighter.statuses.bleed, 3);
}

#[test]
fn vector_lock_combines_damage_momentum_loss_and_block() {
    let mut state = blank_state();
    state.deck.hand = vec![CardId::VectorLock];

    state.dispatch(CombatAction::PlayCard {
        hand_index: 0,
        target: Some(PRIMARY_ENEMY),
    });

    assert_eq!(primary_enemy(&state).fighter.hp, 32);
    assert_eq!(primary_enemy(&state).fighter.statuses.momentum, -2);
    assert_eq!(state.player.fighter.block, 8);
}

#[test]
fn breach_signal_draws_and_applies_momentum_loss() {
    let mut state = blank_state();
    state.deck.hand = vec![CardId::BreachSignal];
    state.deck.draw_pile = vec![CardId::FlareSlash];

    state.dispatch(CombatAction::PlayCard {
        hand_index: 0,
        target: Some(PRIMARY_ENEMY),
    });

    assert_eq!(primary_enemy(&state).fighter.hp, 31);
    assert_eq!(primary_enemy(&state).fighter.statuses.momentum, -2);
    assert_eq!(state.deck.hand, vec![CardId::FlareSlash]);
}

#[test]
fn chain_barrage_hits_twice_and_applies_bleed() {
    let mut state = blank_state();
    state.deck.hand = vec![CardId::ChainBarrage];

    state.dispatch(CombatAction::PlayCard {
        hand_index: 0,
        target: Some(PRIMARY_ENEMY),
    });

    assert_eq!(primary_enemy(&state).fighter.hp, 18);
    assert_eq!(primary_enemy(&state).fighter.statuses.bleed, 2);
}

#[test]
fn overwatch_grid_gains_block_and_draws_two() {
    let mut state = blank_state();
    state.deck.hand = vec![CardId::OverwatchGrid];
    state.deck.draw_pile = vec![CardId::GuardStep, CardId::FlareSlash];

    state.dispatch(CombatAction::PlayCard {
        hand_index: 0,
        target: None,
    });

    assert_eq!(state.player.fighter.block, 29);
    assert_eq!(state.deck.hand.len(), 2);
    assert!(state.deck.hand.contains(&CardId::GuardStep));
    assert!(state.deck.hand.contains(&CardId::FlareSlash));
}

#[test]
fn rift_dart_variants_respect_the_momentum_draw_condition() {
    for (card, primed, expected_hp, expect_draw) in [
        (CardId::RiftDart, false, 35, false),
        (CardId::RiftDart, true, 35, true),
        (CardId::RiftDartPlus, false, 32, false),
        (CardId::RiftDartPlus, true, 32, true),
    ] {
        let mut state = blank_state();
        state.deck.hand = vec![card];
        state.deck.draw_pile = vec![CardId::FlareSlash];
        if primed {
            primary_enemy_mut(&mut state).fighter.statuses.momentum = -1;
        }

        state.dispatch(CombatAction::PlayCard {
            hand_index: 0,
            target: Some(PRIMARY_ENEMY),
        });

        assert_eq!(
            primary_enemy(&state).fighter.hp,
            expected_hp,
            "{card:?} primed={primed}"
        );
        assert_eq!(
            primary_enemy(&state).fighter.statuses.bleed,
            1,
            "{card:?} primed={primed}"
        );
        assert_eq!(
            state.deck.hand,
            if expect_draw {
                vec![CardId::FlareSlash]
            } else {
                Vec::new()
            },
            "{card:?} primed={primed}"
        );
    }
}

#[test]
fn mark_pulse_variants_grant_block_only_against_bleeding_targets() {
    for (card, primed, expected_block) in [
        (CardId::MarkPulse, false, 0),
        (CardId::MarkPulse, true, 6),
        (CardId::MarkPulsePlus, false, 0),
        (CardId::MarkPulsePlus, true, 10),
    ] {
        let mut state = blank_state();
        state.deck.hand = vec![card];
        if primed {
            primary_enemy_mut(&mut state).fighter.statuses.bleed = 1;
        }

        state.dispatch(CombatAction::PlayCard {
            hand_index: 0,
            target: Some(PRIMARY_ENEMY),
        });

        assert_eq!(
            state.player.fighter.block, expected_block,
            "{card:?} primed={primed}"
        );
        assert_eq!(
            primary_enemy(&state).fighter.statuses.momentum,
            -1,
            "{card:?} primed={primed}"
        );
    }
}

#[test]
fn brace_circuit_variants_draw_only_when_block_already_exists() {
    for (card, primed, initial_block, expected_block, expect_draw) in [
        (CardId::BraceCircuit, false, 0, 10, false),
        (CardId::BraceCircuit, true, 2, 12, true),
        (CardId::BraceCircuitPlus, false, 0, 13, false),
        (CardId::BraceCircuitPlus, true, 2, 15, true),
    ] {
        let mut state = blank_state();
        state.deck.hand = vec![card];
        state.deck.draw_pile = vec![CardId::GuardStep];
        state.player.fighter.block = initial_block;

        state.dispatch(CombatAction::PlayCard {
            hand_index: 0,
            target: None,
        });

        assert_eq!(
            state.player.fighter.block, expected_block,
            "{card:?} primed={primed}"
        );
        assert_eq!(
            state.deck.hand,
            if expect_draw {
                vec![CardId::GuardStep]
            } else {
                Vec::new()
            },
            "{card:?} primed={primed}"
        );
    }
}

#[test]
fn fault_shot_variants_gain_focus_only_against_disrupted_targets() {
    for (card, primed, expected_hp, expected_focus) in [
        (CardId::FaultShot, false, 33, 0),
        (CardId::FaultShot, true, 33, 1),
        (CardId::FaultShotPlus, false, 31, 0),
        (CardId::FaultShotPlus, true, 31, 1),
    ] {
        let mut state = blank_state();
        state.deck.hand = vec![card];
        if primed {
            primary_enemy_mut(&mut state).fighter.statuses.focus = -1;
        }

        state.dispatch(CombatAction::PlayCard {
            hand_index: 0,
            target: Some(PRIMARY_ENEMY),
        });

        assert_eq!(
            primary_enemy(&state).fighter.hp,
            expected_hp,
            "{card:?} primed={primed}"
        );
        assert_eq!(
            state.player.fighter.statuses.focus, expected_focus,
            "{card:?} primed={primed}"
        );
    }
}

#[test]
fn sever_arc_variants_hit_twice_only_against_bleeding_targets() {
    for (card, primed, expected_hp) in [
        (CardId::SeverArc, false, 29),
        (CardId::SeverArc, true, 18),
        (CardId::SeverArcPlus, false, 27),
        (CardId::SeverArcPlus, true, 14),
    ] {
        let mut state = blank_state();
        state.deck.hand = vec![card];
        if primed {
            primary_enemy_mut(&mut state).fighter.statuses.bleed = 1;
        }

        state.dispatch(CombatAction::PlayCard {
            hand_index: 0,
            target: Some(PRIMARY_ENEMY),
        });

        assert_eq!(
            primary_enemy(&state).fighter.hp,
            expected_hp,
            "{card:?} primed={primed}"
        );
    }
}

#[test]
fn lockbreaker_variants_convert_focus_disruption_into_more_focus_loss_and_block() {
    for (card, primed, expected_hp, expected_block, expected_focus) in [
        (CardId::Lockbreaker, false, 32, 0, 0),
        (CardId::Lockbreaker, true, 32, 10, -2),
        (CardId::LockbreakerPlus, false, 29, 0, 0),
        (CardId::LockbreakerPlus, true, 29, 13, -2),
    ] {
        let mut state = blank_state();
        state.deck.hand = vec![card];
        if primed {
            primary_enemy_mut(&mut state).fighter.statuses.focus = -1;
        }

        state.dispatch(CombatAction::PlayCard {
            hand_index: 0,
            target: Some(PRIMARY_ENEMY),
        });

        assert_eq!(
            primary_enemy(&state).fighter.hp,
            expected_hp,
            "{card:?} primed={primed}"
        );
        assert_eq!(
            state.player.fighter.block, expected_block,
            "{card:?} primed={primed}"
        );
        assert_eq!(
            primary_enemy(&state).fighter.statuses.focus,
            expected_focus,
            "{card:?} primed={primed}"
        );
    }
}

#[test]
fn counter_lattice_variants_refund_energy_only_against_focus_broken_targets() {
    for (card, primed, expected_hp, expected_energy) in [
        (CardId::CounterLattice, false, 32, 2),
        (CardId::CounterLattice, true, 32, 3),
        (CardId::CounterLatticePlus, false, 29, 2),
        (CardId::CounterLatticePlus, true, 29, 3),
    ] {
        let mut state = blank_state();
        state.deck.hand = vec![card];
        if primed {
            primary_enemy_mut(&mut state).fighter.statuses.focus = -1;
        }

        state.dispatch(CombatAction::PlayCard {
            hand_index: 0,
            target: Some(PRIMARY_ENEMY),
        });

        assert_eq!(
            primary_enemy(&state).fighter.hp,
            expected_hp,
            "{card:?} primed={primed}"
        );
        assert_eq!(
            state.player.energy, expected_energy,
            "{card:?} primed={primed}"
        );
    }
}

#[test]
fn gain_energy_can_round_small_refunds_down_to_zero_under_negative_momentum() {
    let mut state = blank_state();
    state.player.energy = 2;
    state.player.fighter.statuses.momentum = -7;

    state.gain_energy(1);

    assert_eq!(state.player.energy, 2);
}

#[test]
fn terminal_loop_variants_reward_bleed_and_momentum_setup() {
    for (card, primed, expected_hp, expected_focus, expect_draw) in [
        (CardId::TerminalLoop, false, 24, 0, false),
        (CardId::TerminalLoop, true, 24, 1, true),
        (CardId::TerminalLoopPlus, false, 20, 0, false),
        (CardId::TerminalLoopPlus, true, 20, 2, true),
    ] {
        let mut state = blank_state();
        state.deck.hand = vec![card];
        state.deck.draw_pile = vec![CardId::GuardStep];
        if primed {
            primary_enemy_mut(&mut state).fighter.statuses.bleed = 1;
            primary_enemy_mut(&mut state).fighter.statuses.momentum = -1;
        }

        state.dispatch(CombatAction::PlayCard {
            hand_index: 0,
            target: Some(PRIMARY_ENEMY),
        });

        assert_eq!(
            primary_enemy(&state).fighter.hp,
            expected_hp,
            "{card:?} primed={primed}"
        );
        assert_eq!(
            state.player.fighter.statuses.focus, expected_focus,
            "{card:?} primed={primed}"
        );
        assert_eq!(
            state.deck.hand,
            if expect_draw {
                vec![CardId::GuardStep]
            } else {
                Vec::new()
            },
            "{card:?} primed={primed}"
        );
    }
}

#[test]
fn scout_drone_brace_cycle_keeps_focus_gain_under_negative_momentum() {
    let mut state = blank_state();
    set_primary_enemy_intent(&mut state, EnemyProfileId::ScoutDrone, 2);
    primary_enemy_mut(&mut state).fighter.statuses.momentum = -1;

    let mut events = Vec::new();
    state.resolve_enemy_intent(&mut events);

    assert_eq!(primary_enemy(&state).fighter.block, 4);
    assert_eq!(primary_enemy(&state).fighter.statuses.focus, 1);
    assert!(events.contains(&CombatEvent::StatusApplied {
        target: PRIMARY_ENEMY,
        status: StatusKind::Focus,
        amount: 1,
    }));
}


#[test]
fn lethal_multi_hit_intent_stops_before_follow_up_effects() {
    let mut state = blank_state();
    state.player.fighter.hp = 6;
    set_primary_enemy_intent(&mut state, EnemyProfileId::ShardWeaver, 1);

    let mut events = Vec::new();
    state.resolve_enemy_intent(&mut events);

    assert_eq!(state.player.fighter.hp, 0);
    assert_eq!(primary_enemy(&state).fighter.block, 0);
    assert_eq!(primary_enemy(&state).intent_index, 1);
    assert!(
        !events
            .iter()
            .any(|event| matches!(event, CombatEvent::IntentAdvanced { enemy_index: 0, .. }))
    );
}

#[test]
fn shard_weaver_refocus_applies_rhythm_loss() {
    let mut state = blank_state();
    set_primary_enemy_intent(&mut state, EnemyProfileId::ShardWeaver, 2);

    state.resolve_enemy_intent(&mut Vec::new());

    assert_eq!(primary_enemy(&state).fighter.block, 8);
    assert_eq!(state.player.fighter.statuses.rhythm, -1);
}

#[test]
fn one_hero_enemy_resolution_parity_test() {
    let mut single_path = blank_state();
    set_primary_enemy_intent(&mut single_path, EnemyProfileId::ShardWeaver, 1);
    single_path.player.fighter.block = 2;
    primary_enemy_mut(&mut single_path).fighter.statuses.focus = 1;
    primary_enemy_mut(&mut single_path)
        .fighter
        .statuses
        .momentum = 1;
    primary_enemy_mut(&mut single_path).on_hit_bleed = 2;

    let mut split_path = single_path.clone();
    let single_events = single_path.resolve_enemy_intent_for_current_player(0);
    let resolved = split_path
        .resolved_enemy_intent(0)
        .expect("enemy intent should resolve");
    let consumed_on_hit_bleed = resolved.on_hit_bleed > 0 && resolved.damage > 0;
    let mut split_events = split_path.apply_multiplayer_enemy_target_effects(0, resolved);
    split_events.extend(split_path.apply_multiplayer_enemy_self_effects(
        0,
        resolved,
        consumed_on_hit_bleed,
    ));

    assert_eq!(split_events, single_events);
    assert_eq!(split_path, single_path);
}

#[test]
fn anchor_loop_gains_block_and_draws_two() {
    let mut state = blank_state();
    state.deck.hand = vec![CardId::AnchorLoop];
    state.deck.draw_pile = vec![CardId::GuardStep, CardId::FlareSlash];

    state.dispatch(CombatAction::PlayCard {
        hand_index: 0,
        target: None,
    });

    assert_eq!(state.player.fighter.block, 22);
    assert_eq!(state.deck.hand.len(), 2);
    assert!(state.deck.hand.contains(&CardId::GuardStep));
    assert!(state.deck.hand.contains(&CardId::FlareSlash));
}


#[test]
fn pressure_clamp_under_negative_momentum_scales_its_five_damage_and_keeps_focus_loss() {
    let mut state = blank_state();
    set_primary_enemy_intent(&mut state, EnemyProfileId::RampartDrone, 1);
    primary_enemy_mut(&mut state).fighter.statuses.momentum = -1;

    state.resolve_enemy_intent(&mut Vec::new());

    assert_eq!(state.player.fighter.hp, 35);
    assert_eq!(state.player.fighter.statuses.focus, -1);
}

#[test]
fn a_new_combat_reports_its_start_then_the_first_turn_then_five_draws() {
    let (state, events) = CombatState::new(0xACE5);

    assert_eq!(events[0], CombatEvent::CombatStarted);
    assert_eq!(
        events[1],
        CombatEvent::TurnStarted {
            actor: Actor::Player,
            turn: 1,
        }
    );
    let drawn = events
        .iter()
        .filter(|event| matches!(event, CombatEvent::CardDrawn { .. }))
        .count();
    assert_eq!(drawn, 5);
    assert_eq!(state.deck.hand.len(), 5);
}

#[test]
fn a_surviving_enemy_reports_the_advance_of_its_rotation() {
    let mut state = blank_state();
    set_primary_enemy_intent(&mut state, EnemyProfileId::ShardWeaver, 1);

    let mut events = Vec::new();
    state.resolve_enemy_intent(&mut events);

    assert_eq!(primary_enemy(&state).intent_index, 2);
    assert!(events
        .iter()
        .any(|event| matches!(event, CombatEvent::IntentAdvanced { enemy_index: 0, .. })));
}
