use mazocarta::session::{blank_slot, HeroRuntimeSummary, PartySessionSnapshot, SlotClaimKind, DEFAULT_LOCAL_NAME, MAX_PARTY_SIZE};

#[test]
fn default_session_has_one_local_slot() {
    let session = PartySessionSnapshot::default();
    assert_eq!(session.configured_party_size, 1);
    assert_eq!(session.local_slot, 0);
    assert_eq!(session.captain_slot, 0);
    assert_eq!(session.slots.len(), MAX_PARTY_SIZE);
    assert_eq!(session.slots[0].claim, SlotClaimKind::Local);
    assert!(session.slots[0].connected);
}

#[test]
fn configured_party_size_is_clamped_and_truncates_extra_slots() {
    let mut session = PartySessionSnapshot::new(4);
    session.slots[3].claim = SlotClaimKind::Remote;
    session.slots[3].connected = true;
    session.slots[3].name = "Mia".to_string();
    session.set_configured_party_size(MAX_PARTY_SIZE + 5);
    assert_eq!(session.configured_party_size, MAX_PARTY_SIZE);
    session.set_configured_party_size(1);
    assert_eq!(session.configured_party_size, 1);
    assert_eq!(session.slots[3].claim, SlotClaimKind::Open);
    assert!(session.slots[3].name.is_empty());
}

#[test]
fn shrinking_party_size_preserves_a_connected_local_slot() {
    let mut session = PartySessionSnapshot::new(4);
    session.slots[0] = blank_slot(0);
    session.local_slot = 3;
    session.slots[3].claim = SlotClaimKind::Local;
    session.slots[3].connected = true;
    session.slots[3].name = "Captain".to_string();

    session.set_configured_party_size(1);

    assert_eq!(session.local_slot, 0);
    assert_eq!(session.slots[0].claim, SlotClaimKind::Local);
    assert!(session.slots[0].connected);
    assert_eq!(session.slots[0].name, DEFAULT_LOCAL_NAME);
}

#[test]
fn local_runtime_overlay_updates_local_slot_only() {
    let mut session = PartySessionSnapshot::new(3);
    session.slots[1].claim = SlotClaimKind::Remote;
    session.slots[1].connected = true;
    session.slots[1].name = "Ava".to_string();
    session.update_local_runtime(
        "combat",
        HeroRuntimeSummary {
            in_run: true,
            in_combat: true,
            hp: 27,
            max_hp: 32,
            block: 5,
            alive: true,
        },
    );
    assert_eq!(session.screen, "combat");
    assert_eq!(session.slots[0].hp, 27);
    assert_eq!(session.slots[0].block, 5);
    assert_eq!(session.slots[1].name, "Ava");
}

#[test]
fn sync_remote_slot_claims_and_updates_runtime() {
    let mut session = PartySessionSnapshot::new(3);

    assert!(session.sync_remote_slot(
        1,
        Some("Mia"),
        true,
        true,
        HeroRuntimeSummary {
            in_run: true,
            in_combat: true,
            hp: 21,
            max_hp: 34,
            block: 6,
            alive: true,
        },
    ));

    let slot = session.slot(1).unwrap();
    assert_eq!(slot.claim, SlotClaimKind::Remote);
    assert_eq!(slot.name, "Mia");
    assert!(slot.connected);
    assert!(slot.ready);
    assert_eq!(slot.hp, 21);
    assert_eq!(slot.max_hp, 34);
    assert_eq!(slot.block, 6);
}

#[test]
fn disconnect_remote_slot_keeps_claim_but_marks_not_ready() {
    let mut session = PartySessionSnapshot::new(3);
    session.sync_remote_slot(1, Some("Mia"), true, true, HeroRuntimeSummary::default());

    assert!(session.disconnect_remote_slot(1));

    let slot = session.slot(1).unwrap();
    assert_eq!(slot.claim, SlotClaimKind::Remote);
    assert!(!slot.connected);
    assert!(!slot.ready);
}


#[test]
fn normalize_repairs_a_session_read_from_elsewhere() {
    let mut session = PartySessionSnapshot::new(3);
    session.configured_party_size = 12;
    session.local_slot = 9;
    session.slots.truncate(2);
    session.slots[0].claim = SlotClaimKind::Local;
    session.screen = String::new();
    let session = session.normalize();
    assert_eq!(session.configured_party_size, MAX_PARTY_SIZE);
    assert_eq!(session.local_slot, MAX_PARTY_SIZE - 1);
    assert_eq!(session.slots.len(), MAX_PARTY_SIZE);
    assert_eq!(session.slots[0].claim, SlotClaimKind::Open);
    assert_eq!(session.slots[6].claim, SlotClaimKind::Local);
    assert_eq!(session.slots[6].name, DEFAULT_LOCAL_NAME);
    assert_eq!(session.screen, "boot");
}

#[test]
fn sync_remote_slot_names_unnamed_guests_and_refuses_the_local_slot() {
    let mut session = PartySessionSnapshot::new(3);
    assert!(!session.sync_remote_slot(0, Some("Mia"), true, true, HeroRuntimeSummary::default()));
    assert!(!session.sync_remote_slot(5, Some("Mia"), true, true, HeroRuntimeSummary::default()));
    assert!(session.sync_remote_slot(2, Some("   "), true, false, HeroRuntimeSummary::default()));
    assert_eq!(session.slots[2].name, "Guest 3");
    assert!(!session.sync_remote_slot(2, None, true, false, HeroRuntimeSummary::default()));
    assert!(session.clear_remote_slot(2));
    assert!(!session.clear_remote_slot(2));
    assert!(session.slots[2].name.is_empty());
}

#[test]
fn local_display_name_falls_back_to_the_default() {
    let mut session = PartySessionSnapshot::new(2);
    session.set_local_display_name("  ");
    assert_eq!(session.slots[0].name, DEFAULT_LOCAL_NAME);
    session.set_local_display_name(" Ana ");
    assert_eq!(session.slots[0].name, " Ana ");
}
