use mazocarta::combat::CombatState;
use mazocarta::content::{ordered_events_for_level, CardId, EnemyProfileId, EventId};
use mazocarta::dungeon::{
    generate_nodes, level_briefing, level_profile, level_seed, DungeonNode, DungeonProgress, DungeonRun, EventResolution,
    NodeSelection, RoomKind, BOSS_CREDITS_REWARD, COMBAT_CREDITS_REWARD, DUNGEON_LEVEL_COUNT, ELITE_CREDITS_REWARD,
    MAP_MAX_SEGMENT_MERGES, START_HP,
};
use std::collections::{BTreeMap, BTreeSet, VecDeque};

const TEST_RUN_SEED: u64 = 0x0BAD_5EED;
const TEST_ALT_RUN_SEED: u64 = 0xDEAD_BEEF;
const TEST_BOSS_COMBAT_SEED_ONE: u64 = 0xD00D_0001;
const TEST_BOSS_COMBAT_SEED_TWO: u64 = 0xD00D_0002;
const TEST_BOSS_COMBAT_SEED_THREE: u64 = 0xD00D_0003;

#[test]
fn generated_map_has_start_and_boss() {
    let run = DungeonRun::new(TEST_RUN_SEED);
    let level_one_profile = level_profile(1);

    assert_eq!(
        run.nodes.first().map(|node| node.kind),
        Some(RoomKind::Start)
    );
    assert!(
        run.nodes
            .iter()
            .any(|node| matches!(node.kind, RoomKind::Boss))
    );
    assert!(!run.available_nodes.is_empty());
    assert!(run.available_nodes.len() >= level_one_profile.path_count_min);
    assert!(run.available_nodes.len() <= level_one_profile.path_count_max);
}

#[test]
fn new_runs_start_with_thirty_two_hp() {
    let run = DungeonRun::new(TEST_RUN_SEED);

    assert_eq!(run.player_hp, START_HP);
    assert_eq!(run.player_max_hp, START_HP);
    assert_eq!(START_HP, 32);
}

#[test]
fn new_runs_start_without_modules_before_the_picker() {
    let run = DungeonRun::new(TEST_RUN_SEED);

    assert!(run.modules.is_empty());
}

#[test]
fn rest_heal_remains_proportional_to_the_lower_starting_hp() {
    let mut run = DungeonRun::new(TEST_RUN_SEED);
    run.player_hp = 20;

    assert_eq!(run.rest_heal_amount(), 6);

    run.player_hp = 29;
    assert_eq!(run.rest_heal_amount(), 3);
}

#[test]
fn generated_edges_only_advance_one_depth() {
    let run = DungeonRun::new(TEST_RUN_SEED);

    for node in &run.nodes {
        for next_id in &node.next {
            let next = &run.nodes[*next_id];
            assert_eq!(next.depth, node.depth + 1);
        }
    }
}

#[test]
fn every_generated_node_is_reachable_from_start() {
    let run = DungeonRun::new(TEST_RUN_SEED);
    let mut seen = BTreeSet::new();
    let mut queue = VecDeque::from([0usize]);
    while let Some(node_id) = queue.pop_front() {
        if !seen.insert(node_id) {
            continue;
        }
        queue.extend(run.nodes[node_id].next.iter().copied());
    }

    assert_eq!(seen.len(), run.nodes.len());
}

#[test]
fn generated_map_has_branching_connections() {
    let run = DungeonRun::new(TEST_RUN_SEED);

    assert!(run.nodes.iter().any(|node| node.next.len() > 1));
}

#[test]
fn generated_map_keeps_outgoing_links_under_control() {
    let run = DungeonRun::new(TEST_RUN_SEED);

    assert!(
        run.nodes
            .iter()
            .filter(|node| !matches!(node.kind, RoomKind::Start))
            .all(|node| node.next.len() <= 2)
    );
}

#[test]
fn rest_upgrade_options_collapse_duplicate_cards() {
    let run = DungeonRun::new(TEST_RUN_SEED);
    let options = run.upgradable_card_indices();

    assert_eq!(options.len(), 4);
}

#[test]
fn resolving_rest_upgrade_replaces_one_card_in_the_deck() {
    let mut run = DungeonRun::new(TEST_RUN_SEED);
    run.nodes = vec![
        DungeonNode {
            id: 0,
            depth: 0,
            lane: 0,
            kind: RoomKind::Start,
            next: vec![1],
        },
        DungeonNode {
            id: 1,
            depth: 1,
            lane: 0,
            kind: RoomKind::Rest,
            next: vec![],
        },
    ];
    run.current_node = Some(1);

    let (from, to, progress) = run.resolve_rest_upgrade(0).unwrap();

    assert_eq!(from, CardId::FlareSlash);
    assert_eq!(to, CardId::FlareSlashPlus);
    assert_eq!(run.deck[0], CardId::FlareSlashPlus);
    assert_eq!(progress, DungeonProgress::Completed);
    assert_eq!(run.rests_completed, 1);
    assert_eq!(
        run.combats_cleared + run.elites_cleared + run.rests_completed + run.bosses_cleared,
        1
    );
}

#[test]
fn combat_victory_increments_run_room_totals() {
    let mut run = DungeonRun::new(TEST_RUN_SEED);
    run.nodes = vec![
        DungeonNode {
            id: 0,
            depth: 0,
            lane: 0,
            kind: RoomKind::Start,
            next: vec![1],
        },
        DungeonNode {
            id: 1,
            depth: 1,
            lane: 0,
            kind: RoomKind::Combat,
            next: vec![],
        },
    ];
    run.current_node = Some(1);

    let (progress, credits_gained) = run.resolve_combat_victory(34).unwrap();

    assert_eq!(progress, DungeonProgress::Completed);
    assert_eq!(credits_gained, COMBAT_CREDITS_REWARD);
    assert_eq!(run.credits, COMBAT_CREDITS_REWARD);
    assert_eq!(run.combats_cleared, 1);
    assert_eq!(
        run.combats_cleared + run.elites_cleared + run.rests_completed + run.bosses_cleared,
        1
    );
}

#[test]
fn debug_select_node_ignores_availability() {
    let mut run = DungeonRun::new(TEST_RUN_SEED);
    let target = run.nodes.last().map(|node| node.id).unwrap();

    assert!(run.select_node(target).is_none());
    assert!(run.debug_select_node(target).is_some());
}

#[test]
fn selecting_an_event_node_returns_the_event_selection() {
    let mut run = DungeonRun::new(TEST_RUN_SEED);
    run.current_level = 2;
    run.nodes = vec![
        DungeonNode {
            id: 0,
            depth: 0,
            lane: 0,
            kind: RoomKind::Start,
            next: vec![1],
        },
        DungeonNode {
            id: 1,
            depth: 3,
            lane: 0,
            kind: RoomKind::Event,
            next: vec![],
        },
    ];
    run.available_nodes = vec![1];

    assert_eq!(
        run.select_node(1),
        Some(NodeSelection::Event(
            ordered_events_for_level(TEST_RUN_SEED, 2)[0]
        ))
    );
    assert_eq!(run.current_room_kind(), Some(RoomKind::Event));
}

#[test]
fn event_nodes_in_the_same_level_map_to_distinct_events() {
    let mut run = DungeonRun::new(TEST_RUN_SEED);
    run.current_level = 3;
    run.nodes = vec![
        DungeonNode {
            id: 0,
            depth: 0,
            lane: 0,
            kind: RoomKind::Start,
            next: vec![1, 2],
        },
        DungeonNode {
            id: 1,
            depth: 3,
            lane: 1,
            kind: RoomKind::Event,
            next: vec![],
        },
        DungeonNode {
            id: 2,
            depth: 5,
            lane: 0,
            kind: RoomKind::Event,
            next: vec![],
        },
    ];

    let ordered_events = ordered_events_for_level(TEST_RUN_SEED, 3);

    assert_eq!(run.event_for_node(1), Some(ordered_events[0]));
    assert_eq!(run.event_for_node(2), Some(ordered_events[1]));
    assert_ne!(run.event_for_node(1), run.event_for_node(2));
}

#[test]
fn selecting_an_unmapped_event_node_does_not_change_current_node() {
    let mut run = DungeonRun::new(TEST_RUN_SEED);
    run.nodes = vec![
        DungeonNode {
            id: 0,
            depth: 0,
            lane: 0,
            kind: RoomKind::Start,
            next: vec![3],
        },
        DungeonNode {
            id: 1,
            depth: 3,
            lane: 0,
            kind: RoomKind::Event,
            next: vec![],
        },
        DungeonNode {
            id: 2,
            depth: 4,
            lane: 0,
            kind: RoomKind::Event,
            next: vec![],
        },
        DungeonNode {
            id: 3,
            depth: 5,
            lane: 0,
            kind: RoomKind::Event,
            next: vec![],
        },
    ];
    run.current_node = Some(0);
    run.available_nodes = vec![3];

    assert_eq!(run.select_node(3), None);
    assert_eq!(run.current_node, Some(0));
}

#[test]
fn debug_selecting_an_unmapped_event_node_does_not_change_current_node() {
    let mut run = DungeonRun::new(TEST_RUN_SEED);
    run.nodes = vec![
        DungeonNode {
            id: 0,
            depth: 0,
            lane: 0,
            kind: RoomKind::Start,
            next: vec![3],
        },
        DungeonNode {
            id: 1,
            depth: 3,
            lane: 0,
            kind: RoomKind::Event,
            next: vec![],
        },
        DungeonNode {
            id: 2,
            depth: 4,
            lane: 0,
            kind: RoomKind::Event,
            next: vec![],
        },
        DungeonNode {
            id: 3,
            depth: 5,
            lane: 0,
            kind: RoomKind::Event,
            next: vec![],
        },
    ];
    run.current_node = Some(0);

    assert_eq!(run.debug_select_node(3), None);
    assert_eq!(run.current_node, Some(0));
}

#[test]
fn selecting_a_shop_node_returns_the_shop_selection() {
    let mut run = DungeonRun::new(TEST_RUN_SEED);
    run.nodes = vec![
        DungeonNode {
            id: 0,
            depth: 0,
            lane: 0,
            kind: RoomKind::Start,
            next: vec![1],
        },
        DungeonNode {
            id: 1,
            depth: 1,
            lane: 0,
            kind: RoomKind::Shop,
            next: vec![],
        },
    ];
    run.available_nodes = vec![1];

    assert_eq!(run.select_node(1), Some(NodeSelection::Shop));
    assert_eq!(run.current_room_kind(), Some(RoomKind::Shop));
}

#[test]
fn risky_event_choices_preserve_one_hp() {
    let mut run = DungeonRun::new(TEST_RUN_SEED);
    run.player_hp = 4;
    run.nodes = vec![
        DungeonNode {
            id: 0,
            depth: 0,
            lane: 0,
            kind: RoomKind::Start,
            next: vec![1],
        },
        DungeonNode {
            id: 1,
            depth: 3,
            lane: 0,
            kind: RoomKind::Event,
            next: vec![],
        },
    ];
    run.current_node = Some(1);

    let (resolution, progress) = run
        .resolve_event_choice(EventId::SalvageCache, 1)
        .expect("event choice should resolve");

    assert_eq!(progress, DungeonProgress::Completed);
    assert_eq!(run.player_hp, 1);
    assert_eq!(run.credits, 28);
    assert_eq!(
        resolution,
        EventResolution::Credits {
            hp_lost: 3,
            credits_gained: 28,
        }
    );
}

#[test]
fn event_choice_rejects_a_mismatched_event_id() {
    let mut run = DungeonRun::new(TEST_RUN_SEED);
    run.player_hp = 20;
    run.current_level = 1;
    run.nodes = vec![
        DungeonNode {
            id: 0,
            depth: 0,
            lane: 0,
            kind: RoomKind::Start,
            next: vec![1],
        },
        DungeonNode {
            id: 1,
            depth: 3,
            lane: 0,
            kind: RoomKind::Event,
            next: vec![],
        },
    ];
    run.current_node = Some(1);
    let wrong_event = ordered_events_for_level(TEST_RUN_SEED, 1)[1];

    assert_eq!(run.resolve_event_choice(wrong_event, 0), None);
    assert_eq!(run.player_hp, 20);
    assert_eq!(run.credits, 0);
    assert_eq!(run.current_node, Some(1));
}

#[test]
fn shop_purchase_spends_credits_and_adds_the_card() {
    let mut run = DungeonRun::new(TEST_RUN_SEED);
    run.credits = 24;
    run.nodes = vec![
        DungeonNode {
            id: 0,
            depth: 0,
            lane: 0,
            kind: RoomKind::Start,
            next: vec![1],
        },
        DungeonNode {
            id: 1,
            depth: 1,
            lane: 0,
            kind: RoomKind::Shop,
            next: vec![],
        },
    ];
    run.current_node = Some(1);
    let initial_deck_len = run.deck.len();

    let progress = run
        .resolve_shop_purchase(CardId::BarrierField, 24)
        .expect("shop purchase should resolve");

    assert_eq!(progress, DungeonProgress::Completed);
    assert_eq!(run.credits, 0);
    assert_eq!(run.deck.len(), initial_deck_len + 1);
    assert_eq!(run.deck.last(), Some(&CardId::BarrierField));
}

#[test]
fn shop_purchase_requires_enough_credits() {
    let mut run = DungeonRun::new(TEST_RUN_SEED);
    run.credits = 15;
    run.nodes = vec![
        DungeonNode {
            id: 0,
            depth: 0,
            lane: 0,
            kind: RoomKind::Start,
            next: vec![1],
        },
        DungeonNode {
            id: 1,
            depth: 1,
            lane: 0,
            kind: RoomKind::Shop,
            next: vec![],
        },
    ];
    run.current_node = Some(1);
    let initial_deck = run.deck.clone();

    assert_eq!(run.resolve_shop_purchase(CardId::BarrierField, 24), None);
    assert_eq!(run.credits, 15);
    assert_eq!(run.deck, initial_deck);
    assert_eq!(run.current_node, Some(1));
}

#[test]
fn leaving_shop_completes_the_node_without_spending_credits() {
    let mut run = DungeonRun::new(TEST_RUN_SEED);
    run.credits = 24;
    run.nodes = vec![
        DungeonNode {
            id: 0,
            depth: 0,
            lane: 0,
            kind: RoomKind::Start,
            next: vec![1],
        },
        DungeonNode {
            id: 1,
            depth: 1,
            lane: 0,
            kind: RoomKind::Shop,
            next: vec![],
        },
    ];
    run.current_node = Some(1);
    let initial_deck = run.deck.clone();

    let progress = run.resolve_shop_leave().expect("shop leave should resolve");

    assert_eq!(progress, DungeonProgress::Completed);
    assert_eq!(run.credits, 24);
    assert_eq!(run.deck, initial_deck);
}

#[test]
fn recover_hp_clamps_to_the_maximum() {
    let mut run = DungeonRun::new(TEST_RUN_SEED);
    run.player_hp = 30;

    assert_eq!(run.recover_hp(3), 2);
    assert_eq!(run.player_hp, 32);
}

#[test]
fn current_room_seed_uses_wrapping_math() {
    let mut run = DungeonRun::new(TEST_RUN_SEED);
    run.current_level = 2;
    run.current_node = Some(1);

    assert_eq!(
        run.current_room_seed(),
        Some(level_seed(run.seed, 2).wrapping_add((2u64).wrapping_mul(0x9E37_79B9_7F4A_7C15)))
    );
}

#[test]
fn boss_completion_advances_to_the_next_level_before_the_final_boss() {
    let mut run = DungeonRun::new(TEST_RUN_SEED);
    run.nodes = vec![
        DungeonNode {
            id: 0,
            depth: 0,
            lane: 3,
            kind: RoomKind::Start,
            next: vec![1],
        },
        DungeonNode {
            id: 1,
            depth: 1,
            lane: 3,
            kind: RoomKind::Boss,
            next: vec![],
        },
    ];
    run.current_node = Some(1);
    run.available_nodes.clear();

    let (progress, credits_gained) = run.resolve_combat_victory(31).unwrap();

    assert_eq!(progress, DungeonProgress::Continue);
    assert_eq!(credits_gained, BOSS_CREDITS_REWARD);
    assert_eq!(run.credits, BOSS_CREDITS_REWARD);
    assert_eq!(run.current_level(), 2);
    assert_eq!(run.player_hp, 31);
    assert_eq!(run.bosses_cleared, 1);
    assert_eq!(
        run.combats_cleared + run.elites_cleared + run.rests_completed + run.bosses_cleared,
        1
    );
    assert_eq!(run.visited_nodes, vec![0]);
    assert!(matches!(
        run.nodes.first().map(|node| node.kind),
        Some(RoomKind::Start)
    ));
    assert!(
        run.nodes
            .iter()
            .any(|node| matches!(node.kind, RoomKind::Boss))
    );
    assert!(!run.available_nodes.is_empty());
}

#[test]
fn final_boss_completion_finishes_the_run() {
    let mut run = DungeonRun::new(TEST_RUN_SEED);
    run.current_level = DUNGEON_LEVEL_COUNT;
    run.nodes = vec![
        DungeonNode {
            id: 0,
            depth: 0,
            lane: 3,
            kind: RoomKind::Start,
            next: vec![1],
        },
        DungeonNode {
            id: 1,
            depth: 1,
            lane: 3,
            kind: RoomKind::Boss,
            next: vec![],
        },
    ];
    run.current_node = Some(1);
    run.available_nodes.clear();

    let (progress, credits_gained) = run.resolve_combat_victory(22).unwrap();

    assert_eq!(progress, DungeonProgress::Completed);
    assert_eq!(credits_gained, BOSS_CREDITS_REWARD);
    assert_eq!(run.credits, BOSS_CREDITS_REWARD);
    assert_eq!(run.current_level(), DUNGEON_LEVEL_COUNT);
    assert!(run.available_nodes.is_empty());
}

#[test]
fn elite_victory_awards_elite_credits() {
    let mut run = DungeonRun::new(TEST_RUN_SEED);
    run.nodes = vec![
        DungeonNode {
            id: 0,
            depth: 0,
            lane: 0,
            kind: RoomKind::Start,
            next: vec![1],
        },
        DungeonNode {
            id: 1,
            depth: 1,
            lane: 0,
            kind: RoomKind::Elite,
            next: vec![],
        },
    ];
    run.current_node = Some(1);

    let (progress, credits_gained) = run.resolve_combat_victory(29).unwrap();

    assert_eq!(progress, DungeonProgress::Completed);
    assert_eq!(credits_gained, ELITE_CREDITS_REWARD);
    assert_eq!(run.credits, ELITE_CREDITS_REWARD);
    assert_eq!(run.elites_cleared, 1);
}

#[test]
fn boss_symbol_sides_follow_the_current_level() {
    let mut run = DungeonRun::new(TEST_RUN_SEED);
    assert_eq!(run.boss_symbol_sides(), 5);
    run.current_level = 2;
    assert_eq!(run.boss_symbol_sides(), 6);
    run.current_level = 3;
    assert_eq!(run.boss_symbol_sides(), 7);
}

#[test]
fn debug_set_level_rebuilds_the_requested_map() {
    let mut run = DungeonRun::new(TEST_RUN_SEED);
    run.current_node = Some(3);
    run.available_nodes.clear();
    run.visited_nodes = vec![0, 1, 3];

    assert!(run.debug_set_level(3));
    assert_eq!(run.current_level(), 3);
    assert_eq!(run.current_node, None);
    assert_eq!(run.visited_nodes, vec![0]);
    assert_eq!(run.nodes, generate_nodes(level_seed(run.seed, 3), 3));
    assert_eq!(
        run.available_nodes,
        run.nodes
            .first()
            .map(|node| node.next.clone())
            .unwrap_or_default()
    );
    assert!(!run.debug_set_level(99));
    assert_eq!(run.current_level(), 3);
}

#[test]
fn level_briefings_define_distinct_enemy_rosters() {
    let level_one = level_briefing(1);
    let level_two = level_briefing(2);
    let level_three = level_briefing(3);

    assert_eq!(level_one.combat_enemy, EnemyProfileId::ScoutDrone);
    assert_eq!(level_two.elite_enemy, EnemyProfileId::PrismArray);
    assert_eq!(level_three.boss_enemy, EnemyProfileId::HeptarchCore);
    assert_ne!(level_one.codename, level_two.codename);
    assert_ne!(level_two.codename, level_three.codename);
    assert!(level_one.summary.contains("greedy turns"));
    assert!(level_two.summary.contains("burst turns"));
    assert!(level_three.summary.contains("closes hard"));
}

#[test]
fn elite_encounters_draw_from_the_act_elite_table() {
    let elite_node = DungeonNode {
        id: 7,
        depth: 5,
        lane: 2,
        kind: RoomKind::Elite,
        next: vec![],
    };

    for level in 1..=3 {
        let mut run = DungeonRun::new(TEST_RUN_SEED + level as u64);
        run.current_level = level;
        let profile = run.current_level_profile();
        let enemy = run.encounter_enemy_profile(&elite_node);

        assert!(profile.elite_enemy_table.contains(&enemy));
    }
}

#[test]
fn elite_encounters_are_deterministic_for_the_same_seed_and_node() {
    let elite_node = DungeonNode {
        id: 7,
        depth: 5,
        lane: 2,
        kind: RoomKind::Elite,
        next: vec![],
    };
    let mut run = DungeonRun::new(TEST_RUN_SEED);
    run.current_level = 2;

    let first = run.encounter_enemy_profile(&elite_node);
    let second = run.encounter_enemy_profile(&elite_node);

    assert_eq!(first, second);
}

#[test]
fn elite_encounters_unlock_multiple_profiles_per_act() {
    let elite_node = DungeonNode {
        id: 7,
        depth: 5,
        lane: 2,
        kind: RoomKind::Elite,
        next: vec![],
    };

    for level in 1..=3 {
        let mut seen = Vec::new();

        for seed in 0..64u64 {
            let mut run = DungeonRun::new(
                seed.wrapping_mul(0xD6E8_FD50_19E3_7C4B)
                    .wrapping_add(level as u64 * 31),
            );
            run.current_level = level;
            let enemy = run.encounter_enemy_profile(&elite_node);
            if !seen.contains(&enemy) {
                seen.push(enemy);
            }
        }

        assert!(
            seen.len() >= 2,
            "level {level} did not produce multiple elite profiles"
        );
    }
}

#[test]
fn early_safe_combats_keep_the_signature_enemy() {
    for level in 1..=3 {
        for seed in 0..32u64 {
            let mut run = DungeonRun::new(
                seed.wrapping_mul(0x9E37_79B9_7F4A_7C15)
                    .wrapping_add(level as u64 * 17),
            );
            run.current_level = level;
            run.rebuild_current_level();
            let profile = run.current_level_profile();

            for node in run
                .nodes
                .iter()
                .filter(|node| matches!(node.kind, RoomKind::Combat))
                .filter(|node| node.depth <= profile.safe_combat_depths)
            {
                assert_eq!(
                    run.encounter_enemy_profile(node),
                    profile.briefing.combat_enemy
                );
            }
        }
    }
}

#[test]
fn later_combats_unlock_multiple_normal_enemy_profiles_per_level() {
    for level in 1..=3 {
        let mut seen = Vec::new();

        for seed in 0..64u64 {
            let mut run = DungeonRun::new(
                seed.wrapping_mul(0xBF58_476D_1CE4_E5B9)
                    .wrapping_add(level as u64 * 29),
            );
            run.current_level = level;
            run.rebuild_current_level();
            let safe_depths = run.current_level_profile().safe_combat_depths;

            for node in run
                .nodes
                .iter()
                .filter(|node| matches!(node.kind, RoomKind::Combat))
                .filter(|node| node.depth > safe_depths)
            {
                let enemy = run.encounter_enemy_profile(node);
                if !seen.contains(&enemy) {
                    seen.push(enemy);
                }
            }
        }

        assert!(
            seen.len() >= 2,
            "level {level} did not unlock multiple normal enemies"
        );
    }
}

#[test]
fn later_normal_combats_spawn_dual_enemy_encounters() {
    for level in 1..=3 {
        let mut run = DungeonRun::new(TEST_ALT_RUN_SEED + level as u64);
        run.current_level = level;
        run.rebuild_current_level();
        let profile = run.current_level_profile();

        let mut saw_dual_encounter = false;
        for node in run
            .nodes
            .iter()
            .filter(|node| matches!(node.kind, RoomKind::Combat))
            .filter(|node| node.depth >= profile.force_elite_min_depth)
        {
            let setup = run.encounter_setup_for(node);
            if setup.enemies.len() == 2 {
                saw_dual_encounter = true;
                assert_ne!(setup.enemies[0].profile, setup.enemies[1].profile);
                assert!(setup.enemies[0].hp >= setup.enemies[1].hp);
            }
        }

        assert!(
            saw_dual_encounter,
            "level {level} did not produce a dual-enemy normal combat"
        );
    }
}

#[test]
fn level_profiles_scale_encounter_difficulty_across_acts() {
    let combat_node = DungeonNode {
        id: 1,
        depth: 4,
        lane: 2,
        kind: RoomKind::Combat,
        next: vec![],
    };
    let elite_node = DungeonNode {
        id: 2,
        depth: 5,
        lane: 2,
        kind: RoomKind::Elite,
        next: vec![],
    };
    let boss_node = DungeonNode {
        id: 3,
        depth: 9,
        lane: 3,
        kind: RoomKind::Boss,
        next: vec![],
    };

    let mut run = DungeonRun::new(TEST_RUN_SEED);
    run.current_level = 1;
    let level_one_combat = run.encounter_setup_for(&combat_node);
    let level_one_elite = run.encounter_setup_for(&elite_node);
    let level_one_boss = run.encounter_setup_for(&boss_node);

    run.current_level = 2;
    let level_two_combat = run.encounter_setup_for(&combat_node);
    let level_two_elite = run.encounter_setup_for(&elite_node);
    let level_two_boss = run.encounter_setup_for(&boss_node);

    run.current_level = 3;
    let level_three_combat = run.encounter_setup_for(&combat_node);
    let level_three_elite = run.encounter_setup_for(&elite_node);
    let level_three_boss = run.encounter_setup_for(&boss_node);

    assert!(level_one_combat.enemies[0].hp < level_two_combat.enemies[0].hp);
    assert!(level_two_combat.enemies[0].hp < level_three_combat.enemies[0].hp);
    assert!(level_one_elite.enemies[0].block < level_two_elite.enemies[0].block);
    assert!(level_two_elite.enemies[0].block < level_three_elite.enemies[0].block);
    assert_eq!(level_one_boss.enemies[0].hp, 72);
    assert_eq!(level_one_boss.enemies[0].block, 6);
    assert_eq!(level_two_boss.enemies[0].hp, 88);
    assert_eq!(level_two_boss.enemies[0].block, 10);
    assert_eq!(level_three_boss.enemies[0].hp, 108);
    assert_eq!(level_three_boss.enemies[0].block, 12);
}

#[test]
fn boss_encounters_open_with_their_signature_patterns() {
    let boss_node = DungeonNode {
        id: 3,
        depth: 9,
        lane: 3,
        kind: RoomKind::Boss,
        next: vec![],
    };
    let mut run = DungeonRun::new(TEST_RUN_SEED);

    run.current_level = 1;
    let (penta_state, _) = CombatState::new_with_setup(
        TEST_BOSS_COMBAT_SEED_ONE,
        run.encounter_setup_for(&boss_node),
    );

    run.current_level = 2;
    let (hex_state, _) = CombatState::new_with_setup(
        TEST_BOSS_COMBAT_SEED_TWO,
        run.encounter_setup_for(&boss_node),
    );

    run.current_level = 3;
    let (hept_state, _) = CombatState::new_with_setup(
        TEST_BOSS_COMBAT_SEED_THREE,
        run.encounter_setup_for(&boss_node),
    );

    assert_eq!(penta_state.current_intent(0).unwrap().name, "Target Prism");
    assert_eq!(hex_state.current_intent(0).unwrap().name, "Hex Shell");
    assert_eq!(
        hept_state.current_intent(0).unwrap().name,
        "Singularity Shell"
    );
}

#[test]
fn later_acts_shift_map_rhythm_toward_more_branches_and_fewer_rests() {
    let mut level_one_openers = 0usize;
    let mut level_three_openers = 0usize;
    let mut level_one_rests = 0usize;
    let mut level_three_rests = 0usize;
    let mut level_one_elites = 0usize;
    let mut level_three_elites = 0usize;

    for seed in 0..64u64 {
        let act_one = generate_nodes(level_seed(seed, 1), 1);
        let act_three = generate_nodes(level_seed(seed, 3), 3);

        level_one_openers += act_one.iter().filter(|node| node.depth == 1).count();
        level_three_openers += act_three.iter().filter(|node| node.depth == 1).count();
        level_one_rests += act_one
            .iter()
            .filter(|node| matches!(node.kind, RoomKind::Rest))
            .count();
        level_three_rests += act_three
            .iter()
            .filter(|node| matches!(node.kind, RoomKind::Rest))
            .count();
        level_one_elites += act_one
            .iter()
            .filter(|node| matches!(node.kind, RoomKind::Elite))
            .count();
        level_three_elites += act_three
            .iter()
            .filter(|node| matches!(node.kind, RoomKind::Elite))
            .count();
    }

    assert!(level_three_openers > level_one_openers);
    assert!(level_three_elites > level_one_elites);
    assert!(level_three_rests < level_one_rests);
}

#[test]
fn generated_maps_include_exactly_one_shop_per_level() {
    for level in 1..=DUNGEON_LEVEL_COUNT {
        for seed in 0..128u64 {
            let nodes = generate_nodes(level_seed(seed, level), level);
            let shops = nodes
                .iter()
                .filter(|node| matches!(node.kind, RoomKind::Shop))
                .count();

            assert_eq!(
                shops, 1,
                "level {level} seed {seed:#x} should have one shop"
            );
        }
    }
}

#[test]
fn generated_maps_include_exactly_two_events_per_level() {
    for level in 1..=DUNGEON_LEVEL_COUNT {
        for seed in 0..128u64 {
            let nodes = generate_nodes(level_seed(seed, level), level);
            let events = nodes
                .iter()
                .filter(|node| matches!(node.kind, RoomKind::Event))
                .count();

            assert_eq!(
                events, 2,
                "level {level} seed {seed:#x} should have two events"
            );
        }
    }
}

#[test]
fn generated_events_stay_in_the_mid_run_combat_band() {
    for level in 1..=DUNGEON_LEVEL_COUNT {
        let profile = level_profile(level);
        for seed in 0..128u64 {
            let nodes = generate_nodes(level_seed(seed, level), level);
            let boss_depth = nodes.iter().map(|node| node.depth).max().unwrap_or(0);
            let pre_boss_depth = boss_depth.saturating_sub(1);
            let events: Vec<_> = nodes
                .iter()
                .filter(|node| matches!(node.kind, RoomKind::Event))
                .collect();

            assert_eq!(
                events.len(),
                2,
                "level {level} seed {seed:#x} should have two events"
            );
            for event in events {
                assert!(
                    event.depth > profile.safe_combat_depths,
                    "level {level} seed {seed:#x} placed event too early at depth {}",
                    event.depth
                );
                assert!(
                    event.depth <= pre_boss_depth.saturating_sub(2),
                    "level {level} seed {seed:#x} placed event too late at depth {}",
                    event.depth
                );
            }
        }
    }
}

#[test]
fn generated_shops_stay_in_the_mid_run_combat_band() {
    for level in 1..=DUNGEON_LEVEL_COUNT {
        let profile = level_profile(level);
        for seed in 0..128u64 {
            let nodes = generate_nodes(level_seed(seed, level), level);
            let boss_depth = nodes.iter().map(|node| node.depth).max().unwrap_or(0);
            let pre_boss_depth = boss_depth.saturating_sub(1);
            let shop = nodes
                .iter()
                .find(|node| matches!(node.kind, RoomKind::Shop))
                .expect("shop should exist");

            assert!(
                shop.depth >= profile.force_elite_min_depth,
                "level {level} seed {seed:#x} placed shop too early at depth {}",
                shop.depth
            );
            assert!(
                shop.depth <= pre_boss_depth.saturating_sub(2),
                "level {level} seed {seed:#x} placed shop too late at depth {}",
                shop.depth
            );
        }
    }
}

#[test]
fn generated_maps_do_not_always_put_rest_before_boss() {
    let has_non_rest_pre_boss = (0..64u64).any(|seed| {
        let run = DungeonRun::new(seed.wrapping_mul(0x94D0_49BB_1331_11EB).wrapping_add(7));
        let pre_boss_depth = run.max_depth().saturating_sub(1);
        run.nodes
            .iter()
            .filter(|node| node.depth == pre_boss_depth)
            .any(|node| !matches!(node.kind, RoomKind::Rest))
    });

    assert!(has_non_rest_pre_boss);
}

#[test]
fn generated_map_keeps_mid_run_width() {
    for seed in 0..128u64 {
        let run = DungeonRun::new(seed.wrapping_mul(0xD6E8_FD50_19E3_7C4B).wrapping_add(11));
        let narrow_mid_depths = (2..run.max_depth().saturating_sub(1))
            .filter(|&depth| run.nodes.iter().filter(|node| node.depth == depth).count() <= 1)
            .count();
        let max_narrow_depths = if run.available_nodes.len() <= 2 { 3 } else { 2 };

        assert!(
            narrow_mid_depths <= max_narrow_depths,
            "seed {seed:#x} collapsed into a narrow mid-map on {narrow_mid_depths} depths"
        );
    }
}

#[test]
fn generated_map_avoids_long_isolated_stretches() {
    for seed in 0..128u64 {
        let run = DungeonRun::new(seed.wrapping_mul(0x9E37_79B9_7F4A_7C15).wrapping_add(17));
        let mut isolated_streak = 0usize;
        let mut max_isolated_streak = 0usize;
        let max_allowed_streak = if run.available_nodes.len() <= 2 { 7 } else { 5 };

        for depth in 1..run.max_depth().saturating_sub(1) {
            if segment_is_isolated(&run, depth) {
                isolated_streak += 1;
                max_isolated_streak = max_isolated_streak.max(isolated_streak);
            } else {
                isolated_streak = 0;
            }
        }

        assert!(
            max_isolated_streak <= max_allowed_streak,
            "seed {seed:#x} produced an isolated streak of {max_isolated_streak}"
        );
    }
}

#[test]
fn generated_map_keeps_segment_density_reasonable() {
    for seed in 0..128u64 {
        let run = DungeonRun::new(seed.wrapping_mul(0xA24B_AED4_963E_E407).wrapping_add(29));

        for depth in 1..run.max_depth().saturating_sub(1) {
            let stats = segment_stats(&run, depth);
            assert!(
                stats.max_incoming <= MAP_MAX_SEGMENT_MERGES + 1,
                "seed {seed:#x} depth {depth} had {} incoming edges into one node",
                stats.max_incoming
            );
            assert!(
                stats.multi_connection_nodes <= 4,
                "seed {seed:#x} depth {depth} had {} busy nodes in one segment",
                stats.multi_connection_nodes
            );
        }
    }
}

#[derive(Clone, Copy, Debug, PartialEq, Eq)]
struct SegmentStats {
    max_incoming: usize,
    multi_connection_nodes: usize,
    multi_lane: bool,
    compact_span: bool,
}

fn segment_is_isolated(run: &DungeonRun, depth: usize) -> bool {
    let stats = segment_stats(run, depth);
    stats.multi_lane && stats.compact_span && stats.multi_connection_nodes == 0
}

fn segment_stats(run: &DungeonRun, depth: usize) -> SegmentStats {
    let from_nodes: Vec<&DungeonNode> = run
        .nodes
        .iter()
        .filter(|node| node.depth == depth)
        .collect();
    let to_nodes: Vec<&DungeonNode> = run
        .nodes
        .iter()
        .filter(|node| node.depth == depth + 1)
        .collect();
    let mut incoming: BTreeMap<usize, usize> = BTreeMap::new();
    let mut multi_outgoing = 0usize;
    let min_lane = from_nodes
        .iter()
        .chain(to_nodes.iter())
        .map(|node| node.lane)
        .min()
        .unwrap_or(0);
    let max_lane = from_nodes
        .iter()
        .chain(to_nodes.iter())
        .map(|node| node.lane)
        .max()
        .unwrap_or(0);

    for node in &from_nodes {
        let outgoing_to_next: Vec<usize> = node
            .next
            .iter()
            .copied()
            .filter(|next_id| run.nodes[*next_id].depth == depth + 1)
            .collect();
        if outgoing_to_next.len() > 1 {
            multi_outgoing += 1;
        }
        for next_id in outgoing_to_next {
            *incoming.entry(next_id).or_default() += 1;
        }
    }

    let max_incoming = incoming.values().copied().max().unwrap_or(0);
    let multi_incoming = incoming.values().filter(|&&count| count > 1).count();
    SegmentStats {
        max_incoming,
        multi_connection_nodes: multi_outgoing + multi_incoming,
        multi_lane: from_nodes.len() >= 2 && to_nodes.len() >= 2,
        compact_span: max_lane.saturating_sub(min_lane) <= 3,
    }
}


#[test]
fn every_generated_room_below_the_start_has_a_way_in() {
    for seed in [TEST_RUN_SEED, TEST_ALT_RUN_SEED, 7u64, 0x1234_5678] {
        for level in 1..=DUNGEON_LEVEL_COUNT {
            let nodes = generate_nodes(level_seed(seed, level), level);
            assert_eq!(nodes[0].depth, 0);
            for (index, node) in nodes.iter().enumerate().skip(1) {
                assert!(node.depth > 0);
                assert!(nodes.iter().any(|parent| parent.next.contains(&index)));
            }
        }
    }
}

#[test]
fn an_event_room_is_dealt_the_event_by_its_place_among_event_rooms() {
    let mut run = DungeonRun::new(TEST_RUN_SEED);
    run.nodes = vec![
        DungeonNode { id: 0, depth: 0, lane: 0, kind: RoomKind::Start, next: vec![1, 2] },
        DungeonNode { id: 1, depth: 3, lane: 4, kind: RoomKind::Event, next: vec![] },
        DungeonNode { id: 2, depth: 3, lane: 1, kind: RoomKind::Event, next: vec![] },
    ];
    let ordered = ordered_events_for_level(TEST_RUN_SEED, 1);

    assert_eq!(run.event_for_node(2), Some(ordered[0]));
    assert_eq!(run.event_for_node(1), Some(ordered[1]));
    assert_eq!(run.event_for_node(0), None);
}
