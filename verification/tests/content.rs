use mazocarta::content::{
    enemy_sprite_def, enemy_sprite_layer_def_by_code, enemy_sprite_layer_has_pixel, localized_enemy_intent,
    localized_enemy_name, pack_enemy_sprite_rows, EnemySpriteLayerTone,
    all_base_cards, boss_module_choices, card_def, enemy_intent, enemy_name, enemy_profile_level, event_choice_effect,
    event_choice_body, event_pool_for_level, localized_card_description, localized_card_name,
    localized_event_choice_body, localized_event_choice_title, localized_event_flavor, localized_event_title,
    ordered_events_for_level, reward_choices, reward_pool, shop_offers, starter_module_choices,
    upgraded_card, CardId, CardTarget, EnemyProfileId, EventChoiceEffect, EventId, Language, ModuleId, RewardTier,
};

const TEST_PRIMARY_SEED: u64 = 0x0BAD_5EED;
const TEST_ALT_SEED: u64 = 0xDEAD_BEEF;
const TEST_BOSS_REWARD_SEED: u64 = 0xBAAD_F00D;
const TEST_ELITE_REWARD_SEED: u64 = 0xFACE_FEED;
const TEST_SHOP_SEED: u64 = 0xD15C_A11C;

#[test]
fn event_order_is_deterministic_and_non_repeating_within_each_level() {
    for level in 1..=3 {
        let a = ordered_events_for_level(TEST_PRIMARY_SEED, level);
        let b = ordered_events_for_level(TEST_PRIMARY_SEED, level);

        assert_eq!(a, b);
        assert_ne!(a[0], a[1]);
    }
}

#[test]
fn event_pools_are_fixed_per_level() {
    assert_eq!(
        event_pool_for_level(1),
        [EventId::SalvageCache, EventId::RelayTerminal]
    );
    assert_eq!(
        event_pool_for_level(2),
        [EventId::ClinicPod, EventId::ExchangeConsole]
    );
    assert_eq!(
        event_pool_for_level(3),
        [EventId::PrototypeRack, EventId::CoolingVault]
    );
}

#[test]
fn event_choices_scale_with_level() {
    assert_eq!(
        event_choice_effect(EventId::SalvageCache, 0, 1),
        Some(EventChoiceEffect::GainCredits(16))
    );
    assert_eq!(
        event_choice_effect(EventId::SalvageCache, 0, 3),
        Some(EventChoiceEffect::GainCredits(24))
    );
    assert_eq!(
        event_choice_effect(EventId::PrototypeRack, 0, 2),
        Some(EventChoiceEffect::AddCard(CardId::BarrierField))
    );
    assert_eq!(
        event_choice_effect(EventId::PrototypeRack, 1, 3),
        Some(EventChoiceEffect::LoseHpAddCard {
            lose_hp: 5,
            card: CardId::ZeroPoint,
        })
    );
}

#[test]
fn new_event_choices_have_expected_effects() {
    assert_eq!(
        event_choice_effect(EventId::RelayTerminal, 0, 1),
        Some(EventChoiceEffect::AddCard(CardId::CoverPulse))
    );
    assert_eq!(
        event_choice_effect(EventId::RelayTerminal, 1, 3),
        Some(EventChoiceEffect::LoseHpAddCard {
            lose_hp: 4,
            card: CardId::TacticalBurst,
        })
    );
    assert_eq!(
        event_choice_effect(EventId::ExchangeConsole, 0, 2),
        Some(EventChoiceEffect::GainCredits(22))
    );
    assert_eq!(
        event_choice_effect(EventId::ExchangeConsole, 1, 1),
        Some(EventChoiceEffect::LoseHpGainCredits {
            lose_hp: 5,
            gain_credits: 36,
        })
    );
    assert_eq!(
        event_choice_effect(EventId::CoolingVault, 0, 3),
        Some(EventChoiceEffect::Heal(12))
    );
    assert_eq!(
        event_choice_effect(EventId::CoolingVault, 1, 2),
        Some(EventChoiceEffect::LoseHpGainMaxHp {
            lose_hp: 6,
            gain_max_hp: 5,
        })
    );
}


#[test]
fn starter_module_choices_always_include_all_three_modules() {
    let choices = starter_module_choices();
    let mut sorted = choices.clone();
    sorted.sort_by_key(|module| *module as u8);
    sorted.dedup();

    assert_eq!(choices.len(), 3);
    assert_eq!(sorted.len(), 3);
    assert!(sorted.contains(&ModuleId::AegisDrive));
    assert!(sorted.contains(&ModuleId::TargetingRelay));
    assert!(sorted.contains(&ModuleId::Nanoforge));
}

#[test]
fn starter_module_choice_order_is_fixed() {
    let a = starter_module_choices();
    let b = starter_module_choices();

    assert_eq!(
        a,
        vec![
            ModuleId::Nanoforge,
            ModuleId::AegisDrive,
            ModuleId::TargetingRelay,
        ]
    );
    assert_eq!(a, b);
}

#[test]
fn boss_module_choices_offer_three_unique_options_per_boss() {
    let boss_one = boss_module_choices(1);
    let boss_two = boss_module_choices(2);
    let mut boss_one_sorted = boss_one.clone();
    let mut boss_two_sorted = boss_two.clone();
    boss_one_sorted.sort_by_key(|module| *module as u8);
    boss_two_sorted.sort_by_key(|module| *module as u8);
    boss_one_sorted.dedup();
    boss_two_sorted.dedup();

    assert_eq!(boss_one.len(), 3);
    assert_eq!(boss_two.len(), 3);
    assert_eq!(boss_one_sorted.len(), 3);
    assert_eq!(boss_two_sorted.len(), 3);
    assert!(boss_one.iter().all(|module| !boss_two.contains(module)));
}

#[test]
fn combat_rewards_include_the_expanded_staples() {
    let pool = reward_pool(RewardTier::Combat, 1);

    assert!(pool.contains(&CardId::PinpointJab));
    assert!(pool.contains(&CardId::SignalTap));
    assert!(pool.contains(&CardId::BurstArray));
    assert!(pool.contains(&CardId::CoverPulse));
    assert!(pool.contains(&CardId::RiftDart));
    assert!(pool.contains(&CardId::MarkPulse));
    assert!(pool.contains(&CardId::BraceCircuit));
    assert!(pool.contains(&CardId::FaultShot));
}

#[test]
fn boss_rewards_only_offer_boss_cards() {
    let choices = reward_choices(TEST_BOSS_REWARD_SEED, RewardTier::Boss, 3);
    let pool = reward_pool(RewardTier::Boss, 3);

    assert_eq!(choices.len(), 3);
    assert!(pool.contains(&CardId::ExecutionBeam));
    assert!(pool.contains(&CardId::ChainBarrage));
    assert!(pool.contains(&CardId::FortressMatrix));
    assert!(pool.contains(&CardId::OverwatchGrid));
    assert!(pool.contains(&CardId::TerminalLoop));
    assert!(pool.contains(&CardId::ZeroPoint));
    assert!(choices.iter().all(|card| pool.contains(card)));
}

#[test]
fn boss_rewards_vary_across_seeds_once_the_pool_is_expanded() {
    let mut seen = Vec::new();

    for seed in 0..16u64 {
        let choices = reward_choices(
            seed.wrapping_mul(0x9E37_79B9_7F4A_7C15),
            RewardTier::Boss,
            3,
        );
        if !seen.contains(&choices) {
            seen.push(choices);
        }
    }

    assert!(seen.len() > 1);
}

#[test]
fn elite_rewards_are_distinct() {
    let choices = reward_choices(TEST_ELITE_REWARD_SEED, RewardTier::Elite, 2);
    let mut sorted = choices.clone();
    sorted.sort_by_key(|card| *card as u8);
    sorted.dedup();

    assert_eq!(choices.len(), 3);
    assert_eq!(sorted.len(), 3);
}

#[test]
fn elite_rewards_scale_by_level() {
    let act_one_pool = reward_pool(RewardTier::Elite, 1);
    let act_two_pool = reward_pool(RewardTier::Elite, 2);
    let act_three_pool = reward_pool(RewardTier::Elite, 3);

    assert!(act_one_pool.contains(&CardId::RazorNet));
    assert!(act_one_pool.contains(&CardId::FracturePulse));
    assert!(act_one_pool.contains(&CardId::VectorLock));
    assert!(act_one_pool.contains(&CardId::SeverArc));
    assert!(act_one_pool.contains(&CardId::Lockbreaker));
    assert!(act_one_pool.contains(&CardId::CounterLattice));
    assert!(!act_one_pool.contains(&CardId::BreachSignal));
    assert!(!act_one_pool.contains(&CardId::AnchorLoop));

    assert!(act_two_pool.contains(&CardId::RazorNet));
    assert!(act_two_pool.contains(&CardId::FracturePulse));
    assert!(act_two_pool.contains(&CardId::VectorLock));
    assert!(act_two_pool.contains(&CardId::SeverArc));
    assert!(act_two_pool.contains(&CardId::Lockbreaker));
    assert!(act_two_pool.contains(&CardId::CounterLattice));
    assert!(act_two_pool.contains(&CardId::BreachSignal));
    assert!(!act_two_pool.contains(&CardId::AnchorLoop));

    assert!(act_three_pool.contains(&CardId::RazorNet));
    assert!(act_three_pool.contains(&CardId::FracturePulse));
    assert!(act_three_pool.contains(&CardId::VectorLock));
    assert!(act_three_pool.contains(&CardId::SeverArc));
    assert!(act_three_pool.contains(&CardId::Lockbreaker));
    assert!(act_three_pool.contains(&CardId::CounterLattice));
    assert!(act_three_pool.contains(&CardId::BreachSignal));
    assert!(act_three_pool.contains(&CardId::AnchorLoop));
}

#[test]
fn shop_offers_stay_distinct_when_act_one_repeats_elite_tiers() {
    let offers = shop_offers(TEST_SHOP_SEED, 1);
    let mut cards: Vec<_> = offers.iter().map(|offer| offer.card).collect();
    cards.sort_by_key(|card| *card as u8);
    cards.dedup();

    assert_eq!(offers.len(), 3);
    assert_eq!(cards.len(), 3);
    assert_eq!(offers[0].price, 16);
    assert_eq!(offers[1].price, 24);
    assert_eq!(offers[2].price, 24);
}

#[test]
fn later_act_shop_offers_include_boss_cards() {
    let act_two_offers = shop_offers(TEST_BOSS_REWARD_SEED, 2);
    let act_three_offers = shop_offers(TEST_BOSS_REWARD_SEED, 3);
    let boss_pool = reward_pool(RewardTier::Boss, 3);

    assert!(boss_pool.contains(&act_two_offers[2].card));
    assert!(boss_pool.contains(&act_three_offers[2].card));
    assert_eq!(act_two_offers[2].price, 40);
    assert_eq!(act_three_offers[2].price, 40);
}

#[test]
fn base_cards_have_upgrades_but_upgraded_cards_do_not_chain() {
    assert_eq!(
        upgraded_card(CardId::FlareSlash),
        Some(CardId::FlareSlashPlus)
    );
    assert_eq!(
        upgraded_card(CardId::GuardStep),
        Some(CardId::GuardStepPlus)
    );
    assert_eq!(
        upgraded_card(CardId::ZeroPoint),
        Some(CardId::ZeroPointPlus)
    );
    assert_eq!(
        upgraded_card(CardId::PinpointJab),
        Some(CardId::PinpointJabPlus)
    );
    assert_eq!(
        upgraded_card(CardId::FracturePulse),
        Some(CardId::FracturePulsePlus)
    );
    assert_eq!(
        upgraded_card(CardId::ChainBarrage),
        Some(CardId::ChainBarragePlus)
    );
    assert_eq!(upgraded_card(CardId::RiftDart), Some(CardId::RiftDartPlus));
    assert_eq!(
        upgraded_card(CardId::TerminalLoop),
        Some(CardId::TerminalLoopPlus)
    );
    assert_eq!(upgraded_card(CardId::FlareSlashPlus), None);
    assert_eq!(upgraded_card(CardId::ZeroPointPlus), None);
    assert_eq!(upgraded_card(CardId::OverwatchGridPlus), None);
    assert_eq!(upgraded_card(CardId::TerminalLoopPlus), None);
}

#[test]
fn all_base_cards_are_unique_and_exclude_upgraded_variants() {
    let cards = all_base_cards();
    let mut unique_cards = cards.to_vec();
    unique_cards.sort_by_key(|card| *card as u8);
    unique_cards.dedup();

    assert_eq!(cards.len(), 32);
    assert_eq!(unique_cards.len(), cards.len());
    assert!(cards.iter().all(|card| upgraded_card(*card).is_some()));
    assert!(
        cards
            .iter()
            .filter_map(|card| upgraded_card(*card))
            .all(|card| !cards.contains(&card))
    );
}

#[test]
fn expanded_cards_expose_expected_defs() {
    let rift = card_def(CardId::RiftDart);
    let mark = card_def(CardId::MarkPulse);
    let brace = card_def(CardId::BraceCircuit);
    let fault = card_def(CardId::FaultShot);
    let sever = card_def(CardId::SeverArc);
    let lockbreaker = card_def(CardId::Lockbreaker);
    let counter = card_def(CardId::CounterLattice);
    let terminal = card_def(CardId::TerminalLoop);

    assert_eq!(rift.name, "Rift Dart");
    assert_eq!(rift.cost, 1);
    assert_eq!(rift.target, CardTarget::Enemy);
    assert_eq!(mark.cost, 0);
    assert_eq!(
        mark.description,
        "Apply 1 Vulnerable. If target has Bleed, gain 4 Shield."
    );
    assert_eq!(brace.target, CardTarget::SelfOnly);
    assert_eq!(
        brace.description,
        "Gain 6 Shield. If you already have Shield, draw 1."
    );
    assert_eq!(
        fault.description,
        "Deal 5 damage. If target has Weak or Frail, gain Strength 1."
    );
    assert_eq!(sever.cost, 2);
    assert_eq!(sever.target, CardTarget::Enemy);
    assert_eq!(
        lockbreaker.description,
        "Deal 6 damage. If target has Vulnerable, apply Weak 1 and gain 6 Shield."
    );
    assert_eq!(counter.target, CardTarget::Enemy);
    assert_eq!(
        counter.description,
        "Deal 6 damage. If target has Weak, gain 1 Energy."
    );
    assert_eq!(terminal.cost, 2);
    assert_eq!(terminal.target, CardTarget::Enemy);
}


#[test]
fn early_enemy_intents_include_the_new_status_effects() {
    let scout_brace = enemy_intent(EnemyProfileId::ScoutDrone, 2);
    let rampart_clamp = enemy_intent(EnemyProfileId::RampartDrone, 1);
    let shard_refocus = enemy_intent(EnemyProfileId::ShardWeaver, 2);

    assert_eq!(scout_brace.gain_block, 4);
    assert_eq!(scout_brace.gain_strength, 1);
    assert_eq!(scout_brace.summary, "Gain 4 Shield. Gain Strength 1.");

    assert_eq!(rampart_clamp.damage, 5);
    assert_eq!(rampart_clamp.apply_weak, 1);
    assert_eq!(rampart_clamp.apply_expose, 0);
    assert_eq!(rampart_clamp.summary, "Deal 5 damage. Apply Weak 1.");

    assert_eq!(shard_refocus.gain_block, 8);
    assert_eq!(shard_refocus.apply_frail, 1);
    assert_eq!(shard_refocus.summary, "Gain 8 Shield. Apply Frail 1.");
}

#[test]
fn enemy_profiles_expose_distinct_names_and_intents() {
    let act_one = enemy_intent(EnemyProfileId::PentaCore, 0);
    let act_three = enemy_intent(EnemyProfileId::HeptarchCore, 0);
    let elite = enemy_intent(EnemyProfileId::SpineSentry, 0);

    assert_eq!(enemy_name(EnemyProfileId::PentaCore), "Penta Core");
    assert_eq!(enemy_name(EnemyProfileId::HeptarchCore), "Heptarch Core");
    assert_eq!(enemy_name(EnemyProfileId::GlassBishop), "Glass Bishop");
    assert_ne!(act_one.name, act_three.name);
    assert_ne!(act_one.summary, act_three.summary);
    assert_ne!(elite.name, act_one.name);
}

#[test]
fn boss_profiles_have_reworked_rotations() {
    let penta_open = enemy_intent(EnemyProfileId::PentaCore, 0);
    let penta_mid = enemy_intent(EnemyProfileId::PentaCore, 1);
    let penta_close = enemy_intent(EnemyProfileId::PentaCore, 2);
    let hex_open = enemy_intent(EnemyProfileId::HexarchCore, 0);
    let hex_mid = enemy_intent(EnemyProfileId::HexarchCore, 1);
    let hex_close = enemy_intent(EnemyProfileId::HexarchCore, 2);
    let hept_open = enemy_intent(EnemyProfileId::HeptarchCore, 0);
    let hept_mid = enemy_intent(EnemyProfileId::HeptarchCore, 1);
    let hept_close = enemy_intent(EnemyProfileId::HeptarchCore, 2);

    assert_eq!(penta_open.name, "Target Prism");
    assert_eq!(penta_open.damage, 7);
    assert_eq!(penta_open.apply_expose, 1);
    assert_eq!(penta_mid.name, "Penta Bulwark");
    assert_eq!(penta_mid.gain_block, 10);
    assert_eq!(penta_mid.prime_bleed, 2);
    assert_eq!(penta_close.name, "Split Lattice");
    assert_eq!(penta_close.damage, 4);
    assert_eq!(penta_close.hits, 3);

    assert_eq!(hex_open.name, "Hex Shell");
    assert_eq!(hex_open.gain_block, 12);
    assert_eq!(hex_open.apply_expose, 2);
    assert_eq!(hex_mid.name, "Hex Breaker");
    assert_eq!(hex_mid.damage, 15);
    assert_eq!(hex_close.name, "Hex Volley");
    assert_eq!(hex_close.damage, 5);
    assert_eq!(hex_close.hits, 3);

    assert_eq!(hept_open.name, "Singularity Shell");
    assert_eq!(hept_open.gain_block, 16);
    assert_eq!(hept_open.prime_bleed, 3);
    assert_eq!(hept_mid.name, "Array Collapse");
    assert_eq!(hept_mid.damage, 8);
    assert_eq!(hept_mid.hits, 2);
    assert_eq!(hept_mid.apply_expose, 1);
    assert_eq!(hept_close.name, "Crown Breaker");
    assert_eq!(hept_close.damage, 20);
}


#[test]
fn enemy_profiles_map_to_expected_levels() {
    assert_eq!(enemy_profile_level(EnemyProfileId::ScoutDrone), 1);
    assert_eq!(enemy_profile_level(EnemyProfileId::PentaCore), 1);
    assert_eq!(enemy_profile_level(EnemyProfileId::VoltMantis), 2);
    assert_eq!(enemy_profile_level(EnemyProfileId::HexarchCore), 2);
    assert_eq!(enemy_profile_level(EnemyProfileId::NullRaider), 3);
    assert_eq!(enemy_profile_level(EnemyProfileId::HeptarchCore), 3);
}



#[test]
fn new_events_are_localized() {
    assert_eq!(
        localized_event_title(EventId::RelayTerminal, Language::Spanish),
        "Terminal de Relé"
    );
    assert_eq!(
        localized_event_title(EventId::ExchangeConsole, Language::Spanish),
        "Consola de Intercambio"
    );
    assert_eq!(
        localized_event_title(EventId::CoolingVault, Language::Spanish),
        "Bóveda Criogénica"
    );
    assert_eq!(
        localized_event_flavor(EventId::ExchangeConsole, Language::Spanish),
        "Una consola de intercambio aún te deja cambiar piezas útiles por créditos."
    );
    assert_eq!(
        localized_event_choice_title(EventId::RelayTerminal, 0, Language::Spanish),
        Some("Copiar la rutina de escudo")
    );
    assert_eq!(
        localized_event_choice_title(EventId::ExchangeConsole, 1, Language::Spanish),
        Some("Vender la reserva de refrigerante")
    );
    assert_eq!(
        localized_event_choice_title(EventId::CoolingVault, 1, Language::Spanish),
        Some("Aguantar la cámara helada")
    );
    assert_eq!(
        localized_event_choice_body(EventId::RelayTerminal, 1, 2, Language::Spanish),
        Some("Pierde 4 HP. Añade Impulso Táctico a tu mazo.".to_string())
    );
    assert_eq!(
        localized_event_choice_body(EventId::ExchangeConsole, 0, 2, Language::English),
        Some("Gain 22 Credits.".to_string())
    );
}

#[test]
fn expanded_cards_ship_with_english_and_spanish_localization() {
    assert_eq!(
        localized_card_name(CardId::RiftDart, Language::English),
        "Rift Dart"
    );
    assert_eq!(
        localized_card_name(CardId::RiftDart, Language::Spanish),
        "Dardo de Brecha"
    );
    assert_eq!(
        localized_card_name(CardId::CounterLattice, Language::Spanish),
        "Trama de Respuesta"
    );
    assert_eq!(
        localized_card_description(CardId::BraceCircuit, Language::Spanish),
        "Gana 6 de Escudo. Si ya tienes Escudo, roba 1."
    );
    assert_eq!(
        localized_card_description(CardId::CounterLatticePlus, Language::Spanish),
        "Inflige 8 de daño. Si el objetivo tiene Débil, gana 1 de Energía."
    );
    assert_eq!(
        localized_card_description(CardId::TerminalLoopPlus, Language::English),
        "Deal 15 damage. If target has Bleed, draw 1. If target has Vulnerable, gain Strength 2."
    );
}

#[test]
fn event_choice_bodies_spell_out_each_effect() {
    assert_eq!(
        event_choice_body(EventId::SalvageCache, 0, 1),
        Some("Gain 16 Credits.".to_string())
    );
    assert_eq!(
        event_choice_body(EventId::SalvageCache, 1, 3),
        Some("Lose 6 HP. Gain 40 Credits.".to_string())
    );
    assert_eq!(
        event_choice_body(EventId::ClinicPod, 0, 2),
        Some("Recover 10 HP.".to_string())
    );
    assert_eq!(
        event_choice_body(EventId::ClinicPod, 1, 2),
        Some("Lose 5 HP. Gain 4 max HP.".to_string())
    );
    assert_eq!(
        localized_event_choice_body(EventId::CoolingVault, 1, 3, Language::Spanish),
        Some("Pierde 6 HP. Gana 5 de HP máximo.".to_string())
    );
    assert_eq!(
        localized_event_choice_body(EventId::PrototypeRack, 0, 3, Language::Spanish),
        Some(format!("Añade {} a tu mazo.", localized_card_name(CardId::FortressMatrix, Language::Spanish)))
    );
    assert_eq!(event_choice_body(EventId::SalvageCache, 2, 1), None);
    assert_eq!(localized_event_choice_body(EventId::CoolingVault, 7, 1, Language::English), None);
}

const ALL_PROFILES: [EnemyProfileId; 15] = [
    EnemyProfileId::ScoutDrone,
    EnemyProfileId::NeedlerDrone,
    EnemyProfileId::RampartDrone,
    EnemyProfileId::SpineSentry,
    EnemyProfileId::PentaCore,
    EnemyProfileId::VoltMantis,
    EnemyProfileId::ShardWeaver,
    EnemyProfileId::PrismArray,
    EnemyProfileId::GlassBishop,
    EnemyProfileId::HexarchCore,
    EnemyProfileId::NullRaider,
    EnemyProfileId::RiftStalker,
    EnemyProfileId::SiegeSpider,
    EnemyProfileId::RiftBastion,
    EnemyProfileId::HeptarchCore,
];

#[test]
fn enemy_sprite_layer_codes_are_unique() {
    let mut codes = Vec::new();

    for profile in ALL_PROFILES {
        let sprite = enemy_sprite_def(profile);
        codes.extend(sprite.layers.iter().map(|layer| layer.code));
    }

    let total = codes.len();
    codes.sort_unstable();
    codes.dedup();
    assert_eq!(codes.len(), total);
}

#[test]
fn enemy_sprites_are_multilayer_packed_and_resolvable() {
    for profile in ALL_PROFILES {
        let sprite = enemy_sprite_def(profile);
        assert!(sprite.layers.len() >= 2);

        for layer in &sprite.layers {
            let expected_len = (layer.width as usize * layer.height as usize).div_ceil(8);
            assert_eq!(layer.bits.len(), expected_len);
            assert!(layer.bits.iter().any(|&byte| byte != 0));
            assert_eq!(enemy_sprite_layer_def_by_code(layer.code), Some(*layer));
        }
    }
}

#[test]
fn enemy_sprites_have_centered_union_bounds() {
    for profile in ALL_PROFILES {
        let sprite = enemy_sprite_def(profile);
        let mut min_x = sprite.width as i32;
        let mut max_x = -1i32;
        let mut min_y = sprite.height as i32;
        let mut max_y = -1i32;

        for y in 0..sprite.height as usize {
            for x in 0..sprite.width as usize {
                let active = sprite
                    .layers
                    .iter()
                    .any(|layer| enemy_sprite_layer_has_pixel(layer, x, y));
                if !active {
                    continue;
                }
                min_x = min_x.min(x as i32);
                max_x = max_x.max(x as i32);
                min_y = min_y.min(y as i32);
                max_y = max_y.max(y as i32);
            }
        }

        assert!(max_x >= min_x && max_y >= min_y);
        let centered_x = (min_x + max_x + 1) as f32 * 0.5;
        let centered_y = (min_y + max_y + 1) as f32 * 0.5;
        let target_x = sprite.width as f32 * 0.5;
        let target_y = sprite.height as f32 * 0.5;
        assert!((centered_x - target_x).abs() <= 0.5);
        assert!((centered_y - target_y).abs() <= 0.5);
    }
}

#[test]
fn sprite_rows_pack_high_byte_first() {
    let mut rows = [0u16; 16];
    rows[0] = 0x8001;
    rows[15] = 0x1234;
    let bytes = pack_enemy_sprite_rows(rows);
    assert_eq!(bytes[0], 0x80);
    assert_eq!(bytes[1], 0x01);
    assert_eq!(bytes[30], 0x12);
    assert_eq!(bytes[31], 0x34);
    assert!(bytes[2..30].iter().all(|&b| b == 0));
}

#[test]
fn sprite_layer_codes_outside_the_table_resolve_to_nothing() {
    assert_eq!(enemy_sprite_layer_def_by_code(0), None);
    assert_eq!(enemy_sprite_layer_def_by_code(52), None);
    let first = enemy_sprite_layer_def_by_code(1).unwrap();
    assert_eq!(first.code, 1);
    assert_eq!(first.tone, EnemySpriteLayerTone::Base);
    // The scout drone's base layer starts with an empty row, then a two-pixel mast at columns 6 and 7.
    assert_eq!(first.bits[0], 0);
    assert_eq!(first.bits[2], 0x03);
    assert!(enemy_sprite_layer_has_pixel(&first, 6, 1));
    assert!(enemy_sprite_layer_has_pixel(&first, 7, 1));
    assert!(!enemy_sprite_layer_has_pixel(&first, 5, 1));
    assert_eq!(enemy_sprite_def(EnemyProfileId::HeptarchCore).layers.len(), 5);
    assert_eq!(enemy_sprite_def(EnemyProfileId::SpineSentry).layers.len(), 2);
}

#[test]
fn enemy_names_and_intents_are_localized() {
    assert_eq!(localized_enemy_name(EnemyProfileId::ScoutDrone, Language::English), "Scout Drone");
    assert_eq!(localized_enemy_name(EnemyProfileId::ScoutDrone, Language::Spanish), "Dron Explorador");
    let intent = localized_enemy_intent(EnemyProfileId::ScoutDrone, 4, Language::Spanish);
    let plain = enemy_intent(EnemyProfileId::ScoutDrone, 4);
    assert_eq!(intent.name, "Fuego Cruzado");
    assert_eq!(intent.summary, "Inflige 3 de daño dos veces.");
    assert_eq!(intent.damage, plain.damage);
    assert_eq!(intent.hits, plain.hits);
    let english = localized_enemy_intent(EnemyProfileId::HeptarchCore, 2, Language::English);
    assert_eq!(english.name, "Crown Breaker");
    assert_eq!(english.summary, "Deal 20 damage.");
}
