use mazocarta::combat::{Actor, CombatEvent, CombatOutcome, CombatState, EncounterEnemySetup, EncounterSetup, TurnPhase};
use mazocarta::content::{starter_deck, CardId, EnemyProfileId, ModuleId};
use mazocarta::dungeon::{DungeonRun, RoomKind};
use mazocarta::party::{PartyCombatState, PartyRunState};

const TEST_SEED: u64 = 0x51A7_C0DE;

fn setup_with_enemy() -> EncounterSetup {
    EncounterSetup {
        player_hp: 24,
        player_max_hp: 24,
        player_max_energy: 3,
        enemies: vec![EncounterEnemySetup {
            hp: 18,
            max_hp: 18,
            block: 0,
            profile: EnemyProfileId::ScoutDrone,
            intent_index: 0,
            on_hit_bleed: 0,
        }],
    }
}

fn setup_with_enemy_profile(profile: EnemyProfileId, intent_index: usize) -> EncounterSetup {
    EncounterSetup {
        player_hp: 24,
        player_max_hp: 24,
        player_max_energy: 3,
        enemies: vec![EncounterEnemySetup {
            hp: 18,
            max_hp: 18,
            block: 0,
            profile,
            intent_index,
            on_hit_bleed: 0,
        }],
    }
}

#[test]
fn party_run_initializes_requested_party_size() {
    let party = PartyRunState::new(TEST_SEED, 3);
    assert_eq!(party.party_size(), 3);
    assert_eq!(party.hero(2).unwrap().player_hp, 32);
}

#[test]
fn from_dungeons_rejects_mismatched_shared_progression() {
    let first = DungeonRun::new(TEST_SEED);
    let mut second = first.clone();
    second.current_level += 1;

    assert!(PartyRunState::from_dungeons(vec![first, second]).is_none());
}

#[test]
fn from_views_rejects_mismatched_shared_combat_state() {
    let (base, _) = CombatState::new_with_setup(TEST_SEED, setup_with_enemy());
    let ready = vec![false, false];
    let mut mismatched_enemies = base.clone();
    mismatched_enemies.enemies[0].fighter.hp -= 1;
    assert!(
        PartyCombatState::from_views(vec![base.clone(), mismatched_enemies], ready.clone())
            .is_none()
    );

    let mut mismatched_phase = base.clone();
    mismatched_phase.phase = TurnPhase::EnemyTurn;
    assert!(
        PartyCombatState::from_views(vec![base.clone(), mismatched_phase], ready.clone())
            .is_none()
    );

    let mut mismatched_turn = base.clone();
    mismatched_turn.turn += 1;
    assert!(
        PartyCombatState::from_views(vec![base.clone(), mismatched_turn], ready.clone())
            .is_none()
    );

    let mismatched_rng = CombatState::from_persisted_parts(
        base.player.clone(),
        base.enemies.clone(),
        base.deck.clone(),
        base.phase,
        base.turn,
        base.rng_state().wrapping_add(1),
    );
    assert!(PartyCombatState::from_views(vec![base, mismatched_rng], ready).is_none());
}

#[test]
fn rest_upgrade_only_applies_in_rest_room() {
    let mut party = PartyRunState::new(TEST_SEED, 1);
    let deck_index = party
        .upgradable_card_indices(0)
        .into_iter()
        .next()
        .expect("starter deck should have an upgrade");

    assert_eq!(party.apply_rest_upgrade(0, deck_index), None);

    party.shared.current_node = Some(0);
    if let Some(node) = party.shared.nodes.get_mut(0) {
        node.kind = RoomKind::Rest;
    }

    assert!(party.apply_rest_upgrade(0, deck_index).is_some());
}

#[test]
fn rest_heal_only_applies_in_rest_room() {
    let mut party = PartyRunState::new(TEST_SEED, 1);
    party.shared.current_node = Some(0);
    if let Some(node) = party.shared.nodes.get_mut(0) {
        node.kind = RoomKind::Combat;
    }
    if let Some(hero) = party.hero_mut(0) {
        hero.player_hp = 20;
    }

    assert_eq!(party.apply_rest_heal(0), None);
    assert_eq!(party.hero(0).unwrap().player_hp, 20);

    if let Some(node) = party.shared.nodes.get_mut(0) {
        node.kind = RoomKind::Rest;
    }

    assert_eq!(party.apply_rest_heal(0), Some(6));
    assert_eq!(party.hero(0).unwrap().player_hp, 26);
}

#[test]
fn rest_and_shop_apply_per_hero_without_touching_other_heroes() {
    let mut party = PartyRunState::new(TEST_SEED, 2);
    party.shared.current_node = Some(5);
    if let Some(hero) = party.hero_mut(0) {
        hero.player_hp = 20;
        hero.credits = 24;
    }
    if let Some(hero) = party.hero_mut(1) {
        hero.player_hp = 18;
        hero.credits = 0;
    }
    if let Some(node) = party.shared.nodes.get_mut(5) {
        node.kind = RoomKind::Rest;
    }
    assert_eq!(party.apply_rest_heal(0), Some(6));
    assert_eq!(party.hero(0).unwrap().player_hp, 26);
    assert_eq!(party.hero(1).unwrap().player_hp, 18);

    if let Some(node) = party.shared.nodes.get_mut(5) {
        node.kind = RoomKind::Shop;
    }
    assert!(party.apply_shop_purchase(0, CardId::QuickStrike, 24));
    assert!(!party.apply_shop_purchase(1, CardId::QuickStrike, 24));
    assert_eq!(party.hero(0).unwrap().credits, 0);
    assert_eq!(party.hero(1).unwrap().credits, 0);
}

#[test]
fn combat_waits_for_all_living_heroes_before_enemy_round() {
    let mut combat = PartyCombatState::new(
        TEST_SEED,
        &[setup_with_enemy(), setup_with_enemy()],
        &[starter_deck(), starter_deck()],
        &[vec![ModuleId::AegisDrive], vec![]],
    )
    .unwrap();

    assert!(matches!(combat.phase(), TurnPhase::PlayerTurn));
    assert!(combat.ready_hero(0));
    assert!(matches!(combat.phase(), TurnPhase::PlayerTurn));
    assert!(!combat.heroes[0].ready || !combat.heroes[1].ready);
    assert!(combat.ready_hero(1));
    assert!(matches!(
        combat.phase(),
        TurnPhase::PlayerTurn | TurnPhase::Ended(_)
    ));
    assert!(!combat.heroes[0].ready);
    assert!(!combat.heroes[1].ready);
}

#[test]
fn combat_defeat_requires_all_heroes_to_fall() {
    let mut combat = PartyCombatState::new(
        TEST_SEED,
        &[setup_with_enemy(), setup_with_enemy()],
        &[starter_deck(), starter_deck()],
        &[vec![], vec![]],
    )
    .unwrap();
    combat.heroes[0].player.fighter.hp = 0;
    combat.check_outcome();
    assert_eq!(combat.outcome(), None);
    combat.heroes[1].player.fighter.hp = 0;
    combat.check_outcome();
    assert_eq!(combat.outcome(), Some(CombatOutcome::Defeat));
}

#[test]
fn enemy_round_damages_all_living_heroes_equally() {
    let setup = setup_with_enemy_profile(EnemyProfileId::ScoutDrone, 0);
    let mut combat = PartyCombatState::new(
        TEST_SEED,
        &[setup.clone(), setup],
        &[starter_deck(), starter_deck()],
        &[vec![], vec![]],
    )
    .unwrap();
    let starting_hp = combat.heroes[0].player.fighter.hp;
    let starting_turn = combat.turn;

    assert!(combat.ready_hero(0));
    let events = combat
        .ready_hero_with_events(1)
        .expect("second ready resolves the enemy round");

    assert_eq!(combat.heroes[0].player.fighter.hp, starting_hp - 5);
    assert_eq!(combat.heroes[1].player.fighter.hp, starting_hp - 5);
    assert_eq!(
        combat.heroes[0].player.fighter.hp,
        combat.heroes[1].player.fighter.hp
    );
    assert_eq!(combat.turn, starting_turn + 1);
    assert_eq!(
        events
            .iter()
            .filter(|event| matches!(
                event,
                CombatEvent::TurnStarted {
                    actor: Actor::Player,
                    turn,
                } if *turn == starting_turn + 1
            ))
            .count(),
        1
    );
}

#[test]
fn inactive_hero_does_not_block_or_take_enemy_turn() {
    let setup = setup_with_enemy_profile(EnemyProfileId::ScoutDrone, 0);
    let mut combat = PartyCombatState::new(
        TEST_SEED,
        &[setup.clone(), setup],
        &[starter_deck(), starter_deck()],
        &[vec![], vec![]],
    )
    .unwrap();
    let active_starting_hp = combat.heroes[0].player.fighter.hp;
    let inactive_starting_hp = combat.heroes[1].player.fighter.hp;

    assert!(combat.set_hero_inactive(1, true));
    assert!(combat.ready_hero(0));

    assert_eq!(combat.heroes[0].player.fighter.hp, active_starting_hp - 5);
    assert_eq!(combat.heroes[1].player.fighter.hp, inactive_starting_hp);
    assert!(!combat.heroes[0].ready);
    assert!(combat.heroes[1].ready);
    assert!(matches!(combat.phase(), TurnPhase::PlayerTurn));
}

#[test]
fn enemy_target_debuffs_apply_to_all_living_heroes() {
    let setup = setup_with_enemy_profile(EnemyProfileId::RampartDrone, 1);
    let mut combat = PartyCombatState::new(
        TEST_SEED,
        &[setup.clone(), setup],
        &[starter_deck(), starter_deck()],
        &[vec![], vec![]],
    )
    .unwrap();

    assert!(combat.ready_hero(0));
    assert!(combat.ready_hero(1));

    assert_eq!(combat.heroes[0].player.fighter.statuses.focus, -1);
    assert_eq!(combat.heroes[1].player.fighter.statuses.focus, -1);
}

