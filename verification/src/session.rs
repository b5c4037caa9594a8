//! A party session: its size, its slots and who holds them.
use vstd::prelude::*;

use crate::text::{chars_of, decimal_chars, decimal_text, is_blank, is_blank_text, is_trim_of, owned, str_eq, string_from_chars, trimmed_chars};

verus! {
/// The most heroes a party may have.
pub const MAX_PARTY_SIZE: usize = 7;
/// The party size a new session starts with.
pub const DEFAULT_PARTY_SIZE: usize = 1;
/// The name the local player goes by until it picks one.
pub const DEFAULT_LOCAL_NAME: &'static str = "Player";
/// The name a remote player without one goes by, followed by its slot number.
pub const DEFAULT_REMOTE_NAME: &'static str = "Guest";

/// Who holds a party slot.
#[derive(Clone, Copy, Debug, PartialEq, Eq, Structural)]
pub enum SlotClaimKind {
    Open,
    Local,
    Remote,
}

/// Whether a party slot's hero stands.
#[derive(Clone, Copy, Debug, PartialEq, Eq, Structural)]
pub enum SlotLifeState {
    Alive,
    Dead,
}

/// What the party knows of one slot.
#[derive(Clone, Debug, PartialEq, Eq)]
pub struct PartySlotSnapshot {
    pub slot: usize,
    pub name: String,
    pub claim: SlotClaimKind,
    pub connected: bool,
    pub life: SlotLifeState,
    pub ready: bool,
    pub in_run: bool,
    pub in_combat: bool,
    pub hp: i32,
    pub max_hp: i32,
    pub block: i32,
}

/// What a hero's game reports of itself to the party.
#[derive(Clone, Copy, Debug, PartialEq, Eq, Structural)]
pub struct HeroRuntimeSummary {
    pub in_run: bool,
    pub in_combat: bool,
    pub hp: i32,
    pub max_hp: i32,
    pub block: i32,
    pub alive: bool,
}

impl Default for HeroRuntimeSummary {
    fn default() -> (summary: Self)
        ensures
            summary == (HeroRuntimeSummary { in_run: false, in_combat: false, hp: 0, max_hp: 0, block: 0, alive: true }),
    {
        HeroRuntimeSummary { in_run: false, in_combat: false, hp: 0, max_hp: 0, block: 0, alive: true }
    }
}

/// What a party session shares: its size, who leads, which slot is this player's, the
/// screen shown and every slot.
#[derive(Clone, Debug, PartialEq, Eq)]
pub struct PartySessionSnapshot {
    pub configured_party_size: usize,
    pub captain_slot: usize,
    pub local_slot: usize,
    pub screen: String,
    pub in_run: bool,
    pub slots: Vec<PartySlotSnapshot>,
}

/// A party size within 1 and the maximum.
pub open spec fn clamp_party_size(size: usize) -> usize {
    if size < 1 { 1 } else if size > MAX_PARTY_SIZE { MAX_PARTY_SIZE } else { size }
}

/// An open slot with nothing in it.
pub open spec fn is_blank_slot(s: PartySlotSnapshot, index: int) -> bool {
    &&& s.slot == index
    &&& s.name@.len() == 0
    &&& s.claim == SlotClaimKind::Open
    &&& !s.connected
    &&& s.life == SlotLifeState::Alive
    &&& !s.ready
    &&& !s.in_run
    &&& !s.in_combat
    &&& s.hp == 0
    &&& s.max_hp == 0
    &&& s.block == 0
}

/// Two slots hold the same values.
pub open spec fn same_slot(a: PartySlotSnapshot, b: PartySlotSnapshot) -> bool {
    &&& a.slot == b.slot
    &&& a.name@ == b.name@
    &&& a.claim == b.claim
    &&& a.connected == b.connected
    &&& a.life == b.life
    &&& a.ready == b.ready
    &&& a.in_run == b.in_run
    &&& a.in_combat == b.in_combat
    &&& a.hp == b.hp
    &&& a.max_hp == b.max_hp
    &&& a.block == b.block
}

/// The life state a runtime summary reports.
pub open spec fn life_of(runtime: HeroRuntimeSummary) -> SlotLifeState {
    if runtime.alive { SlotLifeState::Alive } else { SlotLifeState::Dead }
}

/// A slot's name once this player holds it: its own, or the default when blank.
pub open spec fn local_name(name: Seq<char>) -> Seq<char> {
    if is_blank_text(name) { DEFAULT_LOCAL_NAME@ } else { name }
}

/// The local slot after claiming: held locally, connected, named.
pub open spec fn claimed_locally(after: PartySlotSnapshot, before: PartySlotSnapshot) -> bool {
    &&& after.claim == SlotClaimKind::Local
    &&& after.connected
    &&& after.name@ == local_name(before.name@)
    &&& after.life == before.life
    &&& after.ready == before.ready
    &&& after.in_run == before.in_run
    &&& after.in_combat == before.in_combat
    &&& after.hp == before.hp
    &&& after.max_hp == before.max_hp
    &&& after.block == before.block
}

/// A slot other than the local one: a stale local claim is given up.
pub open spec fn released(after: PartySlotSnapshot, before: PartySlotSnapshot) -> bool {
    if before.claim == SlotClaimKind::Local {
        after == (PartySlotSnapshot { claim: SlotClaimKind::Open, connected: false, ..before })
    } else {
        after == before
    }
}

/// An empty slot at `index`.
pub fn blank_slot(index: usize) -> (s: PartySlotSnapshot)
    ensures
        is_blank_slot(s, index as int),
{
    PartySlotSnapshot {
        slot: index,
        name: String::new(),
        claim: SlotClaimKind::Open,
        connected: false,
        life: SlotLifeState::Alive,
        ready: false,
        in_run: false,
        in_combat: false,
        hp: 0,
        max_hp: 0,
        block: 0,
    }
}

/// Whether two slots hold the same values.
pub fn slots_equal(a: &PartySlotSnapshot, b: &PartySlotSnapshot) -> (same: bool)
    ensures
        same == same_slot(*a, *b),
{
    a.slot == b.slot && str_eq(a.name.as_str(), b.name.as_str()) && a.claim == b.claim && a.connected == b.connected
        && a.life == b.life && a.ready == b.ready && a.in_run == b.in_run && a.in_combat == b.in_combat && a.hp == b.hp
        && a.max_hp == b.max_hp && a.block == b.block
}

fn clamp_size(size: usize) -> (clamped: usize)
    ensures
        clamped == clamp_party_size(size),
{
    if size < 1 { 1 } else if size > MAX_PARTY_SIZE { MAX_PARTY_SIZE } else { size }
}

/// The name of a remote slot without one: the default followed by the slot number.
pub fn default_remote_name(slot: usize) -> (name: String)
    requires
        slot < usize::MAX,
    ensures
        name@ == DEFAULT_REMOTE_NAME@ + seq![' '] + decimal_text((slot + 1) as nat),
{
    let mut chars = chars_of(DEFAULT_REMOTE_NAME);
    chars.push(' ');
    let digits = decimal_chars(slot + 1);
    let mut i: usize = 0;
    let ghost prefix = chars@;
    while i < digits.len()
        invariant
            i <= digits@.len(),
            chars@ == prefix + digits@.subrange(0, i as int),
        decreases digits.len() - i,
    {
        chars.push(digits[i]);
        i = i + 1;
        proof {
            assert(chars@ =~= prefix + digits@.subrange(0, i as int));
        }
    }
    proof {
        assert(digits@.subrange(0, digits@.len() as int) =~= digits@);
    }
    string_from_chars(chars.as_slice())
}

impl PartySessionSnapshot {
    /// A session for a party of `configured_party_size` (clamped to 1..=7) with every slot
    /// open but the first, which this player holds.
    pub fn new(configured_party_size: usize) -> (session: Self)
        ensures
            session.configured_party_size == clamp_party_size(configured_party_size),
            session.captain_slot == 0,
            session.local_slot == 0,
            session.screen@ == "boot"@,
            !session.in_run,
            session.slots@.len() == MAX_PARTY_SIZE,
            session.slots@[0] == (PartySlotSnapshot {
                claim: SlotClaimKind::Local,
                connected: true,
                name: session.slots@[0].name,
                ..session.slots@[0]
            }),
            session.slots@[0].name@ == DEFAULT_LOCAL_NAME@,
            session.slots@[0].slot == 0 && session.slots@[0].life == SlotLifeState::Alive && !session.slots@[0].ready
                && !session.slots@[0].in_run && !session.slots@[0].in_combat && session.slots@[0].hp == 0
                && session.slots@[0].max_hp == 0 && session.slots@[0].block == 0,
            forall|i: int| 1 <= i < MAX_PARTY_SIZE ==> is_blank_slot(#[trigger] session.slots@[i], i),
    {
        let mut slots: Vec<PartySlotSnapshot> = Vec::new();
        let mut i: usize = 0;
        while i < MAX_PARTY_SIZE
            invariant
                i <= MAX_PARTY_SIZE,
                slots@.len() == i,
                forall|k: int| 0 <= k < i ==> is_blank_slot(#[trigger] slots@[k], k),
            decreases MAX_PARTY_SIZE - i,
        {
            slots.push(blank_slot(i));
            i = i + 1;
        }
        slots[0].claim = SlotClaimKind::Local;
        slots[0].connected = true;
        slots[0].name = owned(DEFAULT_LOCAL_NAME);
        PartySessionSnapshot {
            configured_party_size: clamp_size(configured_party_size),
            captain_slot: 0,
            local_slot: 0,
            screen: owned("boot"),
            in_run: false,
            slots,
        }
    }
}

impl Default for PartySessionSnapshot {
    fn default() -> (session: Self)
        ensures
            session.configured_party_size == DEFAULT_PARTY_SIZE,
            session.captain_slot == 0,
            session.local_slot == 0,
            session.screen@ == "boot"@,
            !session.in_run,
            session.slots@.len() == MAX_PARTY_SIZE,
            session.slots@[0].claim == SlotClaimKind::Local,
            session.slots@[0].connected,
            session.slots@[0].name@ == DEFAULT_LOCAL_NAME@,
            forall|i: int| 1 <= i < MAX_PARTY_SIZE ==> is_blank_slot(#[trigger] session.slots@[i], i),
    {
        PartySessionSnapshot::new(DEFAULT_PARTY_SIZE)
    }
}

/// The local slot when it was added blank: held locally, connected, with the default name.
pub open spec fn claimed_blank(s: PartySlotSnapshot, index: int) -> bool {
    &&& s.slot == index
    &&& s.name@ == DEFAULT_LOCAL_NAME@
    &&& s.claim == SlotClaimKind::Local
    &&& s.connected
    &&& s.life == SlotLifeState::Alive
    &&& !s.ready
    &&& !s.in_run
    &&& !s.in_combat
    &&& s.hp == 0
    &&& s.max_hp == 0
    &&& s.block == 0
}

/// The remote slot after a sync: held remotely, with the reported connection, readiness and
/// runtime.
pub open spec fn synced_remote(
    after: PartySlotSnapshot,
    before: PartySlotSnapshot,
    connected: bool,
    ready: bool,
    runtime: HeroRuntimeSummary,
) -> bool {
    &&& after.slot == before.slot
    &&& after.claim == SlotClaimKind::Remote
    &&& after.connected == connected
    &&& after.ready == ready
    &&& after.in_run == runtime.in_run
    &&& after.in_combat == runtime.in_combat
    &&& after.hp == runtime.hp
    &&& after.max_hp == runtime.max_hp
    &&& after.block == runtime.block
    &&& after.life == life_of(runtime)
}

/// The four steps of repairing a session's slots give the slots its contract describes.
proof fn lemma_normalized_slots(
    old_slots: Seq<PartySlotSnapshot>,
    fitted: Seq<PartySlotSnapshot>,
    renumbered: Seq<PartySlotSnapshot>,
    blanked: Seq<PartySlotSnapshot>,
    last: Seq<PartySlotSnapshot>,
    conf: int,
    local: int,
)
    requires
        1 <= conf <= MAX_PARTY_SIZE,
        0 <= local < conf,
        fitted.len() == MAX_PARTY_SIZE,
        forall|i: int| 0 <= i < MAX_PARTY_SIZE && i < old_slots.len() ==> #[trigger] fitted[i] == old_slots[i],
        forall|i: int| old_slots.len() <= i < MAX_PARTY_SIZE ==> is_blank_slot(#[trigger] fitted[i], i),
        renumbered.len() == fitted.len(),
        forall|i: int| 0 <= i < fitted.len() && i != local ==> released(
            #[trigger] renumbered[i],
            PartySlotSnapshot { slot: i as usize, ..fitted[i] },
        ),
        forall|i: int| 0 <= i < fitted.len() && i == local ==> #[trigger] renumbered[i] == (PartySlotSnapshot {
            slot: i as usize,
            ..fitted[i]
        }),
        blanked.len() == renumbered.len(),
        forall|i: int| conf <= i < MAX_PARTY_SIZE ==> is_blank_slot(#[trigger] blanked[i], i),
        forall|i: int| 0 <= i < renumbered.len() && !(conf <= i < MAX_PARTY_SIZE) ==> #[trigger] blanked[i] == renumbered[i],
        last.len() == blanked.len(),
        claimed_locally(last[local], blanked[local]),
        last[local].slot == blanked[local].slot,
        forall|i: int| 0 <= i < blanked.len() && i != local ==> #[trigger] last[i] == blanked[i],
    ensures
        last.len() == MAX_PARTY_SIZE,
        forall|i: int| conf <= i < MAX_PARTY_SIZE ==> is_blank_slot(#[trigger] last[i], i),
        forall|i: int| 0 <= i < conf && i < old_slots.len() && i == local ==> claimed_locally(#[trigger] last[i], old_slots[i])
            && last[i].slot == i,
        forall|i: int| 0 <= i < conf && i < old_slots.len() && i != local ==> released(
            #[trigger] last[i],
            PartySlotSnapshot { slot: i as usize, ..old_slots[i] },
        ),
        forall|i: int| 0 <= i < conf && old_slots.len() <= i && i == local ==> claimed_blank(#[trigger] last[i], i),
        forall|i: int| 0 <= i < conf && old_slots.len() <= i && i != local ==> is_blank_slot(#[trigger] last[i], i),
{
    assert forall|i: int| conf <= i < MAX_PARTY_SIZE implies is_blank_slot(#[trigger] last[i], i) by {
        assert(last[i] == blanked[i]);
    }
    assert forall|i: int| 0 <= i < conf && old_slots.len() <= i && i == local implies claimed_blank(#[trigger] last[i], i) by {
        assert(is_blank_slot(fitted[i], i));
        assert(blanked[i] == renumbered[i]);
        assert(is_blank_text(blanked[i].name@));
    }
    assert forall|i: int| 0 <= i < conf && old_slots.len() <= i && i != local implies is_blank_slot(#[trigger] last[i], i) by {
        assert(is_blank_slot(fitted[i], i));
        assert(blanked[i] == renumbered[i]);
        assert(last[i] == blanked[i]);
    }
    assert forall|i: int| 0 <= i < conf && i < old_slots.len() && i == local implies claimed_locally(#[trigger] last[i], old_slots[i])
        && last[i].slot == i by {
        assert(fitted[i] == old_slots[i]);
        assert(blanked[i] == renumbered[i]);
    }
    assert forall|i: int| 0 <= i < conf && i < old_slots.len() && i != local implies released(
        #[trigger] last[i],
        PartySlotSnapshot { slot: i as usize, ..old_slots[i] },
    ) by {
        assert(fitted[i] == old_slots[i]);
        assert(blanked[i] == renumbered[i]);
        assert(last[i] == blanked[i]);
    }
}

/// Exactly seven slots: missing ones are added blank, extra ones dropped.
fn fit_slots(slots: &mut Vec<PartySlotSnapshot>)
    ensures
        final(slots)@.len() == MAX_PARTY_SIZE,
        forall|i: int| 0 <= i < MAX_PARTY_SIZE && i < old(slots)@.len() ==> #[trigger] final(slots)@[i] == old(slots)@[i],
        forall|i: int| old(slots)@.len() <= i < MAX_PARTY_SIZE ==> is_blank_slot(#[trigger] final(slots)@[i], i),
{
    if slots.len() < MAX_PARTY_SIZE {
        while slots.len() < MAX_PARTY_SIZE
            invariant
                old(slots)@.len() <= slots@.len() <= MAX_PARTY_SIZE,
                forall|i: int| 0 <= i < old(slots)@.len() ==> #[trigger] slots@[i] == old(slots)@[i],
                forall|i: int| old(slots)@.len() <= i < slots@.len() ==> is_blank_slot(#[trigger] slots@[i], i),
            decreases MAX_PARTY_SIZE - slots@.len(),
        {
            let n = slots.len();
            slots.push(blank_slot(n));
        }
    } else if slots.len() > MAX_PARTY_SIZE {
        slots.truncate(MAX_PARTY_SIZE);
    }
}

/// Numbers the slots in order; every slot but `local` gives up a local claim.
fn renumber_slots(slots: &mut Vec<PartySlotSnapshot>, local: usize)
    ensures
        final(slots)@.len() == old(slots)@.len(),
        forall|i: int| 0 <= i < old(slots)@.len() && i != local ==> released(
            #[trigger] final(slots)@[i],
            PartySlotSnapshot { slot: i as usize, ..old(slots)@[i] },
        ),
        forall|i: int| 0 <= i < old(slots)@.len() && i == local ==> #[trigger] final(slots)@[i] == (PartySlotSnapshot {
            slot: i as usize,
            ..old(slots)@[i]
        }),
{
    let mut index: usize = 0;
    while index < slots.len()
        invariant
            index <= slots@.len(),
            slots@.len() == old(slots)@.len(),
            forall|i: int| index <= i < slots@.len() ==> #[trigger] slots@[i] == old(slots)@[i],
            forall|i: int| 0 <= i < index && i != local ==> released(
                #[trigger] slots@[i],
                PartySlotSnapshot { slot: i as usize, ..old(slots)@[i] },
            ),
            forall|i: int| 0 <= i < index && i == local ==> #[trigger] slots@[i] == (PartySlotSnapshot {
                slot: i as usize,
                ..old(slots)@[i]
            }),
        decreases slots@.len() - index,
    {
        slots[index].slot = index;
        if index != local && slots[index].claim == SlotClaimKind::Local {
            slots[index].claim = SlotClaimKind::Open;
            slots[index].connected = false;
        }
        index = index + 1;
    }
}

/// Empties every slot from `from` up to the maximum.
fn blank_from(slots: &mut Vec<PartySlotSnapshot>, from: usize)
    requires
        from <= MAX_PARTY_SIZE <= old(slots)@.len(),
    ensures
        final(slots)@.len() == old(slots)@.len(),
        forall|i: int| from <= i < MAX_PARTY_SIZE ==> is_blank_slot(#[trigger] final(slots)@[i], i),
        forall|i: int| 0 <= i < old(slots)@.len() && !(from <= i < MAX_PARTY_SIZE) ==> #[trigger] final(slots)@[i] == old(slots)@[i],
{
    let mut index: usize = from;
    while index < MAX_PARTY_SIZE
        invariant
            from <= index <= MAX_PARTY_SIZE,
            slots@.len() == old(slots)@.len(),
            MAX_PARTY_SIZE <= old(slots)@.len(),
            forall|i: int| from <= i < index ==> is_blank_slot(#[trigger] slots@[i], i),
            forall|i: int| 0 <= i < old(slots)@.len() && !(from <= i < index) ==> #[trigger] slots@[i] == old(slots)@[i],
        decreases MAX_PARTY_SIZE - index,
    {
        slots.set(index, blank_slot(index));
        index = index + 1;
    }
}

/// Claims slot `local` for this player: held locally, connected, named.
fn claim_local(slots: &mut Vec<PartySlotSnapshot>, local: usize)
    requires
        local < old(slots)@.len(),
    ensures
        final(slots)@.len() == old(slots)@.len(),
        claimed_locally(final(slots)@[local as int], old(slots)@[local as int]),
        final(slots)@[local as int].slot == old(slots)@[local as int].slot,
        forall|i: int| 0 <= i < old(slots)@.len() && i != local ==> #[trigger] final(slots)@[i] == old(slots)@[i],
{
    slots[local].claim = SlotClaimKind::Local;
    slots[local].connected = true;
    if is_blank(slots[local].name.as_str()) {
        slots[local].name = owned(DEFAULT_LOCAL_NAME);
    }
}

impl PartySessionSnapshot {
    /// Repairs a session read from elsewhere: the size clamped to 1..=7, the captain and local
    /// slots within it, exactly seven slots numbered in order, slots beyond the size blank,
    /// only the local slot held locally (connected and named), and a screen.
    pub fn normalize(self) -> (s: Self)
        ensures
            s.configured_party_size == clamp_party_size(self.configured_party_size),
            s.captain_slot == (if self.captain_slot < s.configured_party_size { self.captain_slot } else { (s.configured_party_size - 1) as usize }),
            s.local_slot == (if self.local_slot < s.configured_party_size { self.local_slot } else { (s.configured_party_size - 1) as usize }),
            s.in_run == self.in_run,
            s.screen@ == (if self.screen@.len() == 0 { "boot"@ } else { self.screen@ }),
            s.slots@.len() == MAX_PARTY_SIZE,
            forall|i: int| s.configured_party_size <= i < MAX_PARTY_SIZE ==> is_blank_slot(#[trigger] s.slots@[i], i),
            forall|i: int| 0 <= i < s.configured_party_size && i < self.slots@.len() && i == s.local_slot ==> claimed_locally(
                #[trigger] s.slots@[i],
                self.slots@[i],
            ) && s.slots@[i].slot == i,
            forall|i: int| 0 <= i < s.configured_party_size && i < self.slots@.len() && i != s.local_slot ==> released(
                #[trigger] s.slots@[i],
                PartySlotSnapshot { slot: i as usize, ..self.slots@[i] },
            ),
            forall|i: int| 0 <= i < s.configured_party_size && self.slots@.len() <= i && i == s.local_slot ==> claimed_blank(#[trigger] s.slots@[i], i),
            forall|i: int| 0 <= i < s.configured_party_size && self.slots@.len() <= i && i != s.local_slot ==> is_blank_slot(#[trigger] s.slots@[i], i),
    {
        let mut s = self;
        s.configured_party_size = clamp_size(s.configured_party_size);
        let top = s.configured_party_size - 1;
        if s.captain_slot > top {
            s.captain_slot = top;
        }
        if s.local_slot > top {
            s.local_slot = top;
        }
        let ghost old_slots = self.slots@;
        fit_slots(&mut s.slots);
        let ghost fitted = s.slots@;
        renumber_slots(&mut s.slots, s.local_slot);
        let ghost renumbered = s.slots@;
        blank_from(&mut s.slots, s.configured_party_size);
        let ghost blanked = s.slots@;
        claim_local(&mut s.slots, s.local_slot);
        proof {
            lemma_normalized_slots(old_slots, fitted, renumbered, blanked, s.slots@, s.configured_party_size as int, s.local_slot as int);
        }
        if s.screen.as_str().unicode_len() == 0 {
            s.screen = owned("boot");
        }
        s
    }

    /// Changes the party size (clamped to 1..=7): slots beyond it are emptied, the captain and
    /// local slots kept within it, and only the local slot stays held locally.
    pub fn set_configured_party_size(&mut self, size: usize)
        requires
            old(self).slots@.len() >= MAX_PARTY_SIZE,
        ensures
            final(self).configured_party_size == clamp_party_size(size),
            final(self).captain_slot == (if old(self).captain_slot < final(self).configured_party_size { old(self).captain_slot } else { (final(self).configured_party_size - 1) as usize }),
            final(self).local_slot == (if old(self).local_slot < final(self).configured_party_size { old(self).local_slot } else { (final(self).configured_party_size - 1) as usize }),
            final(self).screen == old(self).screen,
            final(self).in_run == old(self).in_run,
            final(self).slots@.len() == old(self).slots@.len(),
            forall|i: int| final(self).configured_party_size <= i < MAX_PARTY_SIZE ==> is_blank_slot(#[trigger] final(self).slots@[i], i),
            forall|i: int| MAX_PARTY_SIZE <= i < old(self).slots@.len() ==> #[trigger] final(self).slots@[i] == old(self).slots@[i],
            forall|i: int| 0 <= i < final(self).configured_party_size && i == final(self).local_slot ==> claimed_locally(
                #[trigger] final(self).slots@[i],
                old(self).slots@[i],
            ) && final(self).slots@[i].slot == old(self).slots@[i].slot,
            forall|i: int| 0 <= i < final(self).configured_party_size && i != final(self).local_slot ==> released(
                #[trigger] final(self).slots@[i],
                old(self).slots@[i],
            ),
    {
        self.configured_party_size = clamp_size(size);
        let top = self.configured_party_size - 1;
        if self.captain_slot > top {
            self.captain_slot = top;
        }
        if self.local_slot > top {
            self.local_slot = top;
        }
        let ghost old_slots = self.slots@;
        let ghost frozen = PartySessionSnapshot { slots: self.slots, ..*self };
        let mut index: usize = self.configured_party_size;
        while index < MAX_PARTY_SIZE
            invariant
                *self == (PartySessionSnapshot { slots: self.slots, ..frozen }),
                1 <= self.configured_party_size <= MAX_PARTY_SIZE,
                self.local_slot < self.configured_party_size,
                self.configured_party_size <= index <= MAX_PARTY_SIZE,
                self.slots@.len() == old_slots.len(),
                old_slots.len() >= MAX_PARTY_SIZE,
                forall|i: int| self.configured_party_size <= i < index ==> is_blank_slot(#[trigger] self.slots@[i], i),
                forall|i: int| 0 <= i < self.configured_party_size ==> #[trigger] self.slots@[i] == old_slots[i],
                forall|i: int| MAX_PARTY_SIZE <= i < old_slots.len() ==> #[trigger] self.slots@[i] == old_slots[i],
            decreases MAX_PARTY_SIZE - index,
        {
            self.slots.set(index, blank_slot(index));
            index = index + 1;
        }
        let local = self.local_slot;
        let mut index: usize = 0;
        while index < self.configured_party_size
            invariant
                *self == (PartySessionSnapshot { slots: self.slots, ..frozen }),
                local < self.configured_party_size,
                index <= self.configured_party_size,
                1 <= self.configured_party_size <= MAX_PARTY_SIZE,
                self.slots@.len() == old_slots.len(),
                old_slots.len() >= MAX_PARTY_SIZE,
                local == self.local_slot,
                forall|i: int| self.configured_party_size <= i < MAX_PARTY_SIZE ==> is_blank_slot(#[trigger] self.slots@[i], i),
                forall|i: int| MAX_PARTY_SIZE <= i < old_slots.len() ==> #[trigger] self.slots@[i] == old_slots[i],
                forall|i: int| index <= i < self.configured_party_size ==> #[trigger] self.slots@[i] == old_slots[i],
                forall|i: int| 0 <= i < index && i != local ==> released(#[trigger] self.slots@[i], old_slots[i]),
                forall|i: int| 0 <= i < index && i == local ==> #[trigger] self.slots@[i] == old_slots[i],
            decreases self.configured_party_size - index,
        {
            if index != local && self.slots[index].claim == SlotClaimKind::Local {
                self.slots[index].claim = SlotClaimKind::Open;
                self.slots[index].connected = false;
            }
            index = index + 1;
        }
        self.slots[local].claim = SlotClaimKind::Local;
        self.slots[local].connected = true;
        if is_blank(self.slots[local].name.as_str()) {
            self.slots[local].name = owned(DEFAULT_LOCAL_NAME);
        }
        proof {
            reveal_strlit("Player");
        }
    }

    /// Names this player: `name`, or the default when it is blank.
    pub fn set_local_display_name(&mut self, name: &str)
        requires
            old(self).local_slot < old(self).slots@.len(),
        ensures
            final(self).slots@[old(self).local_slot as int].name@ == local_name(name@),
            final(self).slots@[old(self).local_slot as int] == (PartySlotSnapshot {
                name: final(self).slots@[old(self).local_slot as int].name,
                ..old(self).slots@[old(self).local_slot as int]
            }),
            final(self).slots@.len() == old(self).slots@.len(),
            forall|i: int| 0 <= i < old(self).slots@.len() && i != old(self).local_slot ==> #[trigger] final(self).slots@[i] == old(self).slots@[i],
            final(self).configured_party_size == old(self).configured_party_size,
            final(self).captain_slot == old(self).captain_slot,
            final(self).local_slot == old(self).local_slot,
            final(self).screen == old(self).screen,
            final(self).in_run == old(self).in_run,
    {
        let local = self.local_slot;
        self.slots[local].name = if is_blank(name) { owned(DEFAULT_LOCAL_NAME) } else { owned(name) };
        proof {
            reveal_strlit("Player");
        }
    }

    /// Slot `slot`, if it is within the party.
    pub fn slot(&self, slot: usize) -> (s: Option<&PartySlotSnapshot>)
        ensures
            s == (if slot < self.slots@.len() && slot < self.configured_party_size { Some(&self.slots@[slot as int]) } else { None }),
    {
        if slot < self.slots.len() && slot < self.configured_party_size {
            Some(&self.slots[slot])
        } else {
            None
        }
    }

    /// Records what a remote player reports of slot `slot`: the slot becomes remotely held with
    /// the reported connection, readiness and runtime, and takes the reported name (trimmed),
    /// or a default one if it has none. Refused outside the party and for the local slot.
    /// Reports whether the slot changed.
    pub fn sync_remote_slot(&mut self, slot: usize, name: Option<&str>, connected: bool, ready: bool, runtime: HeroRuntimeSummary) -> (changed: bool)
        requires
            slot < old(self).configured_party_size ==> slot < old(self).slots@.len(),
        ensures
            slot >= old(self).configured_party_size || slot == old(self).local_slot ==> !changed && *final(self) == *old(self),
            slot < old(self).configured_party_size && slot != old(self).local_slot ==> {
                let before = old(self).slots@[slot as int];
                let after = final(self).slots@[slot as int];
                &&& synced_remote(after, before, connected, ready, runtime)
                &&& (name matches Some(n) && !is_blank_text(n@)) ==> is_trim_of(after.name@, name->0@)
                &&& !(name matches Some(n) && !is_blank_text(n@)) ==> after.name@ == (if is_blank_text(before.name@) {
                    DEFAULT_REMOTE_NAME@ + seq![' '] + decimal_text((slot + 1) as nat)
                } else {
                    before.name@
                })
                &&& changed == !same_slot(after, before)
                &&& final(self).slots@.len() == old(self).slots@.len()
                &&& forall|i: int| 0 <= i < old(self).slots@.len() && i != slot ==> #[trigger] final(self).slots@[i] == old(self).slots@[i]
                &&& final(self).configured_party_size == old(self).configured_party_size
                &&& final(self).local_slot == old(self).local_slot
                &&& final(self).captain_slot == old(self).captain_slot
                &&& final(self).screen == old(self).screen
                &&& final(self).in_run == old(self).in_run
            },
    {
        if slot >= self.configured_party_size || slot == self.local_slot {
            return false;
        }
        let before = &self.slots[slot];
        let new_name = match name {
            Some(text) => {
                let trimmed = trimmed_chars(text);
                if trimmed.len() > 0 {
                    Some(string_from_chars(trimmed.as_slice()))
                } else {
                    None
                }
            },
            None => None,
        };
        let name = match new_name {
            Some(n) => n,
            None => if is_blank(before.name.as_str()) {
                default_remote_name(slot)
            } else {
                owned(before.name.as_str())
            },
        };
        let after = PartySlotSnapshot {
            slot: before.slot,
            name,
            claim: SlotClaimKind::Remote,
            connected,
            life: if runtime.alive { SlotLifeState::Alive } else { SlotLifeState::Dead },
            ready,
            in_run: runtime.in_run,
            in_combat: runtime.in_combat,
            hp: runtime.hp,
            max_hp: runtime.max_hp,
            block: runtime.block,
        };
        let changed = !slots_equal(&after, before);
        self.slots.set(slot, after);
        changed
    }

    /// Marks remote slot `slot` as disconnected and not ready, keeping its claim; refused
    /// outside the party, for the local slot and for a slot not held remotely. Reports
    /// whether the slot changed.
    pub fn disconnect_remote_slot(&mut self, slot: usize) -> (changed: bool)
        ensures
            !(slot < old(self).slots@.len() && slot < old(self).configured_party_size && slot != old(self).local_slot
                && old(self).slots@[slot as int].claim == SlotClaimKind::Remote) ==> !changed && *final(self) == *old(self),
            slot < old(self).slots@.len() && slot < old(self).configured_party_size && slot != old(self).local_slot
                && old(self).slots@[slot as int].claim == SlotClaimKind::Remote ==> {
                &&& final(self).slots@ == old(self).slots@.update(slot as int, PartySlotSnapshot {
                    connected: false,
                    ready: false,
                    ..old(self).slots@[slot as int]
                })
                &&& changed == (old(self).slots@[slot as int].connected || old(self).slots@[slot as int].ready)
                &&& final(self).configured_party_size == old(self).configured_party_size
                &&& final(self).local_slot == old(self).local_slot
                &&& final(self).captain_slot == old(self).captain_slot
                &&& final(self).screen == old(self).screen
                &&& final(self).in_run == old(self).in_run
            },
    {
        if slot >= self.slots.len() {
            return false;
        }
        if slot >= self.configured_party_size || slot == self.local_slot {
            return false;
        }
        if self.slots[slot].claim != SlotClaimKind::Remote {
            return false;
        }
        let changed = self.slots[slot].connected || self.slots[slot].ready;
        self.slots[slot].connected = false;
        self.slots[slot].ready = false;
        proof {
            assert(self.slots@ =~= old(self).slots@.update(slot as int, PartySlotSnapshot {
                connected: false,
                ready: false,
                ..old(self).slots@[slot as int]
            }));
        }
        changed
    }

    /// Empties slot `slot`; refused outside the party and for the local slot. Reports whether
    /// the slot changed.
    pub fn clear_remote_slot(&mut self, slot: usize) -> (changed: bool)
        requires
            slot < old(self).configured_party_size ==> slot < old(self).slots@.len(),
        ensures
            slot >= old(self).configured_party_size || slot == old(self).local_slot ==> !changed && *final(self) == *old(self),
            slot < old(self).configured_party_size && slot != old(self).local_slot ==> {
                &&& changed == !is_blank_slot(old(self).slots@[slot as int], slot as int)
                &&& !changed ==> *final(self) == *old(self)
                &&& is_blank_slot(final(self).slots@[slot as int], slot as int)
                &&& final(self).slots@.len() == old(self).slots@.len()
                &&& forall|i: int| 0 <= i < old(self).slots@.len() && i != slot ==> #[trigger] final(self).slots@[i] == old(self).slots@[i]
                &&& final(self).configured_party_size == old(self).configured_party_size
                &&& final(self).local_slot == old(self).local_slot
                &&& final(self).captain_slot == old(self).captain_slot
                &&& final(self).screen == old(self).screen
                &&& final(self).in_run == old(self).in_run
            },
    {
        if slot >= self.configured_party_size || slot == self.local_slot {
            return false;
        }
        let cleared = blank_slot(slot);
        proof {
            let before = old(self).slots@[slot as int];
            if before.name@.len() == 0 {
                assert(before.name@ =~= cleared.name@);
            }
        }
        if slots_equal(&self.slots[slot], &cleared) {
            return false;
        }
        self.slots.set(slot, cleared);
        true
    }

    /// Records this player's own screen and runtime in the session and its slot.
    pub fn update_local_runtime(&mut self, screen: &str, runtime: HeroRuntimeSummary)
        requires
            old(self).local_slot < old(self).slots@.len(),
        ensures
            final(self).screen@ == screen@,
            final(self).in_run == runtime.in_run,
            final(self).slots@ == old(self).slots@.update(old(self).local_slot as int, PartySlotSnapshot {
                in_run: runtime.in_run,
                in_combat: runtime.in_combat,
                hp: runtime.hp,
                max_hp: runtime.max_hp,
                block: runtime.block,
                life: life_of(runtime),
                ..old(self).slots@[old(self).local_slot as int]
            }),
            final(self).configured_party_size == old(self).configured_party_size,
            final(self).local_slot == old(self).local_slot,
            final(self).captain_slot == old(self).captain_slot,
    {
        self.screen = owned(screen);
        self.in_run = runtime.in_run;
        let local = self.local_slot;
        self.slots[local].in_run = runtime.in_run;
        self.slots[local].in_combat = runtime.in_combat;
        self.slots[local].hp = runtime.hp;
        self.slots[local].max_hp = runtime.max_hp;
        self.slots[local].block = runtime.block;
        self.slots[local].life = if runtime.alive { SlotLifeState::Alive } else { SlotLifeState::Dead };
        proof {
            assert(self.slots@ =~= old(self).slots@.update(old(self).local_slot as int, PartySlotSnapshot {
                in_run: runtime.in_run,
                in_combat: runtime.in_combat,
                hp: runtime.hp,
                max_hp: runtime.max_hp,
                block: runtime.block,
                life: life_of(runtime),
                ..old(self).slots@[old(self).local_slot as int]
            }));
        }
    }
}

} // verus!
