use mazocarta::combat::{scale_axis_value, CombatState, DeckState, EnemyState, FighterState, PlayerState, StatusSet, TurnPhase};
use mazocarta::content::EnemyProfileId;

const TEST_SEED: u64 = 0xA57A_7001;

fn threat_test_combat(profile: EnemyProfileId, intent_index: usize) -> CombatState {
    CombatState::from_persisted_parts(
        PlayerState {
            fighter: FighterState {
                hp: 20,
                max_hp: 20,
                block: 0,
                statuses: StatusSet::default(),
            },
            energy: 3,
            max_energy: 3,
        },
        vec![EnemyState {
            fighter: FighterState {
                hp: 20,
                max_hp: 20,
                block: 0,
                statuses: StatusSet::default(),
            },
            profile,
            intent_index,
            on_hit_bleed: 0,
        }],
        DeckState {
            draw_pile: Vec::new(),
            hand: Vec::new(),
            discard_pile: Vec::new(),
        },
        TurnPhase::PlayerTurn,
        1,
        TEST_SEED,
    )
}

#[test]
fn expected_enemy_threat_focus_only_affects_damage() {
    let neutral = threat_test_combat(EnemyProfileId::NeedlerDrone, 0);
    let mut boosted = neutral.clone();
    let mut broken = neutral.clone();
    let bleed_threat = |combat: &CombatState| {
        let intent = combat.current_intent(0).expect("needler intent");
        let enemy = &combat.enemies[0];
        scale_axis_value(intent.apply_bleed as i32, enemy.fighter.statuses.momentum) * 3
    };

    boosted.enemies[0].fighter.statuses.focus = 5;
    broken.enemies[0].fighter.statuses.focus = -7;

    assert_eq!(bleed_threat(&neutral), 3);
    assert_eq!(bleed_threat(&boosted), 3);
    assert_eq!(bleed_threat(&broken), 3);
    assert_eq!(neutral.expected_enemy_threat(), 7);
    assert_eq!(boosted.expected_enemy_threat(), 9);
    assert_eq!(broken.expected_enemy_threat(), 5);
}
