//! The combat rules: turns, cards, damage, block, statuses and enemy intents.
use vstd::prelude::*;

use crate::content::{
    AxisKind, CardId, CardTarget, EnemyIntent, EnemyProfileId, ModuleId, card_def,
    card_requirement, enemy_intent, spec_card_def, spec_card_requirement, spec_enemy_intent,
    starter_deck, spec_starter_deck,
};
use crate::rng::{XorShift64, xorshift_step, index_from_value, seed_state};

verus! {

pub const DEFAULT_PLAYER_HP: i32 = 32;
pub const MAX_ENEMIES_PER_ENCOUNTER: usize = 2;
pub const MAX_HAND_CARDS: usize = 9;
pub const MAX_AXIS_ABS_VALUE: i8 = 9;
pub const AXIS_STEP_UP_BASIS_POINTS: i32 = 11_000;
pub const AXIS_STEP_DOWN_BASIS_POINTS: i32 = 9_000;
/// Largest base amount (damage, block, energy) the scaling curve is applied to.
pub const AMOUNT_LIMIT: i32 = 90_000;
/// Largest block any fighter may hold before an action that can add block to it.
pub const BLOCK_HEADROOM: i32 = 2_000_000_000;

#[derive(Clone, Copy, Debug, PartialEq, Eq, Structural)]
pub enum Actor {
    Player,
    Enemy(usize),
}

impl Actor {
    /// The enemy slot this actor names, if it is an enemy.
    pub fn enemy_index(self) -> (index: Option<usize>)
        ensures
            index == (match self { Actor::Enemy(i) => Some(i), Actor::Player => None }),
    {
        match self {
            Actor::Enemy(index) => Some(index),
            Actor::Player => None,
        }
    }
}

#[derive(Clone, Copy, Debug, PartialEq, Eq, Structural)]
pub enum StatusKind {
    Bleed,
    Focus,
    Rhythm,
    Momentum,
}

#[derive(Clone, Copy, Debug, PartialEq, Eq, Structural)]
pub enum CombatOutcome {
    Victory,
    Defeat,
}

#[derive(Clone, Copy, Debug, PartialEq, Eq, Structural)]
pub enum TurnPhase {
    PlayerTurn,
    EnemyTurn,
    Ended(CombatOutcome),
}

#[derive(Clone, Copy, Debug, PartialEq, Eq, Structural)]
pub struct EncounterEnemySetup {
    pub hp: i32,
    pub max_hp: i32,
    pub block: i32,
    pub profile: EnemyProfileId,
    pub intent_index: usize,
    pub on_hit_bleed: u8,
}

#[derive(Clone, Debug, PartialEq, Eq)]
pub struct EncounterSetup {
    pub player_hp: i32,
    pub player_max_hp: i32,
    pub player_max_energy: u8,
    pub enemies: Vec<EncounterEnemySetup>,
}

/// An enemy's current intent with its Momentum scaling already applied.
#[derive(Clone, Copy, Debug, PartialEq, Eq, Structural)]
pub struct ResolvedEnemyIntent {
    pub damage: i32,
    pub hits: u8,
    pub on_hit_bleed: u8,
    pub gain_block: i32,
    pub prime_bleed: u8,
    pub self_focus: i8,
    pub self_rhythm: i8,
    pub self_momentum: i8,
    pub target_focus: i8,
    pub target_rhythm: i8,
    pub target_momentum: i8,
    pub apply_bleed: u8,
}

/// The single Scout Drone encounter used when no setup is given.
pub open spec fn default_enemy_setup() -> EncounterEnemySetup {
    EncounterEnemySetup {
        hp: 40,
        max_hp: 40,
        block: 0,
        profile: EnemyProfileId::ScoutDrone,
        intent_index: 0,
        on_hit_bleed: 0,
    }
}

pub fn default_enemies() -> (enemies: Vec<EncounterEnemySetup>)
    ensures
        enemies@ == seq![default_enemy_setup()],
{
    let enemies = vec![EncounterEnemySetup {
        hp: 40,
        max_hp: 40,
        block: 0,
        profile: EnemyProfileId::ScoutDrone,
        intent_index: 0,
        on_hit_bleed: 0,
    }];
    proof {
        assert(enemies@ =~= seq![default_enemy_setup()]);
    }
    enemies
}

impl Default for EncounterSetup {
    fn default() -> (setup: Self)
        ensures
            setup.player_hp == DEFAULT_PLAYER_HP,
            setup.player_max_hp == DEFAULT_PLAYER_HP,
            setup.player_max_energy == 3,
            setup.enemies@ == seq![default_enemy_setup()],
    {
        EncounterSetup {
            player_hp: DEFAULT_PLAYER_HP,
            player_max_hp: DEFAULT_PLAYER_HP,
            player_max_energy: 3,
            enemies: default_enemies(),
        }
    }
}

#[derive(Clone, Copy, Debug, PartialEq, Eq, Structural)]
pub struct StatusSet {
    pub bleed: u8,
    pub focus: i8,
    pub rhythm: i8,
    pub momentum: i8,
}

impl Default for StatusSet {
    fn default() -> (statuses: Self)
        ensures
            statuses == (StatusSet { bleed: 0, focus: 0, rhythm: 0, momentum: 0 }),
    {
        StatusSet { bleed: 0, focus: 0, rhythm: 0, momentum: 0 }
    }
}

#[derive(Clone, Copy, Debug, PartialEq, Eq, Structural)]
pub struct FighterState {
    pub hp: i32,
    pub max_hp: i32,
    pub block: i32,
    pub statuses: StatusSet,
}

#[derive(Clone, Copy, Debug, PartialEq, Eq, Structural)]
pub struct PlayerState {
    pub fighter: FighterState,
    pub energy: u8,
    pub max_energy: u8,
}

#[derive(Clone, Copy, Debug, PartialEq, Eq, Structural)]
pub struct EnemyState {
    pub fighter: FighterState,
    pub profile: EnemyProfileId,
    pub intent_index: usize,
    pub on_hit_bleed: u8,
}

#[derive(Clone, Debug, PartialEq, Eq)]
pub struct DeckState {
    pub draw_pile: Vec<CardId>,
    pub hand: Vec<CardId>,
    pub discard_pile: Vec<CardId>,
}

#[derive(Clone, Copy, Debug, PartialEq, Eq, Structural)]
pub enum CombatAction {
    PlayCard { hand_index: usize, target: Option<Actor> },
    EndTurn,
}

#[derive(Clone, Copy, Debug, PartialEq, Eq)]
pub enum CombatEvent {
    CombatStarted,
    TurnStarted { actor: Actor, turn: u32 },
    TurnEnded { actor: Actor },
    CardDrawn { card: CardId },
    CardPlayed { card: CardId },
    CardBurned { card: CardId },
    CardCreated { card: CardId },
    CardsDiscarded { count: usize },
    Reshuffled,
    EnergySpent { amount: u8, remaining: u8 },
    RequirementNotMet { axis: AxisKind, threshold: i8, actual: i8 },
    DamageDealt { source: Actor, target: Actor, amount: i32 },
    BlockGained { actor: Actor, amount: i32 },
    BlockSpent { actor: Actor, amount: i32 },
    BlockCleared { actor: Actor, amount: i32 },
    StatusApplied { target: Actor, status: StatusKind, amount: i8 },
    StatusTicked { actor: Actor, status: StatusKind, amount: u8 },
    ActorDefeated { actor: Actor },
    EnemyPrimedBleed { enemy_index: usize, amount: u8 },
    IntentAdvanced { enemy_index: usize, intent: EnemyIntent },
    NotEnoughEnergy { needed: u8, available: u8 },
    InvalidAction { reason: &'static str },
    CombatWon,
    CombatLost,
}

/// The internal steps an action is broken into.
#[derive(Clone, Copy, Debug, PartialEq, Eq, Structural)]
pub enum CombatCommand {
    StartCombat,
    StartTurn(Actor),
    DrawCards(u8),
    PlayCard { hand_index: usize, target: Option<Actor> },
    EndTurn(Actor),
    ApplyEndOfTurn(Actor),
    ResolveEnemyIntent,
    CheckOutcome,
}

#[derive(Clone, Debug, PartialEq, Eq)]
pub struct CombatState {
    pub player: PlayerState,
    pub enemies: Vec<EnemyState>,
    pub deck: DeckState,
    pub phase: TurnPhase,
    pub turn: u32,
    pub announced_enemy_defeats: Vec<bool>,
    pub rng: XorShift64,
}

/// `x` clamped to the `i32` range (what a saturating `i32` operation yields).
pub open spec fn clamp_i32(x: int) -> int {
    if x > i32::MAX { i32::MAX as int } else if x < i32::MIN { i32::MIN as int } else { x }
}

/// The axis multiplier after `steps` steps of the curve (in basis points, 10 000 = ×1):
/// each step multiplies by 1.1 (`up`) or 0.9, saturating, then rounds toward zero.
pub open spec fn spec_curve_basis_points(steps: nat, up: bool) -> int
    decreases steps,
{
    if steps == 0 {
        10_000
    } else {
        let previous = spec_curve_basis_points((steps - 1) as nat, up);
        let factor: int = if up { 11_000 } else { 9_000 };
        clamp_i32(previous * factor) / 10_000
    }
}

/// The multiplier (basis points) an axis value stands for.
pub open spec fn spec_axis_basis_points(value: i8) -> int {
    if value >= 0 {
        spec_curve_basis_points(value as nat, true)
    } else {
        spec_curve_basis_points((0 - value) as nat, false)
    }
}

proof fn lemma_curve_positive(steps: nat, up: bool)
    ensures
        0 <= spec_curve_basis_points(steps, up) <= i32::MAX / 10_000 + 10_000,
        !up ==> spec_curve_basis_points(steps, up) <= 10_000,
    decreases steps,
{
    if steps > 0 {
        lemma_curve_positive((steps - 1) as nat, up);
        let previous = spec_curve_basis_points((steps - 1) as nat, up);
        let factor: int = if up { 11_000 } else { 9_000 };
        assert(previous * factor >= 0) by (nonlinear_arith)
            requires previous >= 0, factor >= 0;
        if !up {
            assert(previous * 9_000 <= 10_000 * 9_000) by (nonlinear_arith)
                requires previous <= 10_000, previous >= 0;
        }
        let p = clamp_i32(previous * factor);
        assert(0 <= p <= i32::MAX);
    }
}

/// On the clamped axis range the multiplier stays between 0.3871 and 2.3577.
pub proof fn lemma_axis_basis_points_bounds(value: i8)
    requires
        -9 <= value <= 9,
    ensures
        3_871 <= spec_axis_basis_points(value) <= 23_577,
{
    reveal_with_fuel(spec_curve_basis_points, 10);
    assert(spec_curve_basis_points(0, true) == 10_000);
    assert(spec_curve_basis_points(1, true) == 11_000);
    assert(spec_curve_basis_points(2, true) == 12_100);
    assert(spec_curve_basis_points(3, true) == 13_310);
    assert(spec_curve_basis_points(4, true) == 14_641);
    assert(spec_curve_basis_points(5, true) == 16_105);
    assert(spec_curve_basis_points(6, true) == 17_715);
    assert(spec_curve_basis_points(7, true) == 19_486);
    assert(spec_curve_basis_points(8, true) == 21_434);
    assert(spec_curve_basis_points(9, true) == 23_577);
    assert(spec_curve_basis_points(1, false) == 9_000);
    assert(spec_curve_basis_points(2, false) == 8_100);
    assert(spec_curve_basis_points(3, false) == 7_290);
    assert(spec_curve_basis_points(4, false) == 6_561);
    assert(spec_curve_basis_points(5, false) == 5_904);
    assert(spec_curve_basis_points(6, false) == 5_313);
    assert(spec_curve_basis_points(7, false) == 4_781);
    assert(spec_curve_basis_points(8, false) == 4_302);
    assert(spec_curve_basis_points(9, false) == 3_871);
}

/// `a * b` for `i32`, saturating at the type's bounds.
pub fn saturating_mul_i32(a: i32, b: i32) -> (product: i32)
    ensures
        product == clamp_i32(a * b),
{
    proof {
        assert(i32::MIN * i32::MAX <= (a as int) * (b as int) <= i32::MIN * i32::MIN) by (nonlinear_arith)
            requires i32::MIN <= a <= i32::MAX, i32::MIN <= b <= i32::MAX;
    }
    let wide = (a as i64) * (b as i64);
    if wide > i32::MAX as i64 {
        i32::MAX
    } else if wide < i32::MIN as i64 {
        i32::MIN
    } else {
        wide as i32
    }
}

/// The multiplier (basis points) an axis value stands for.
pub fn axis_multiplier_basis_points(value: i8) -> (basis_points: i32)
    ensures
        basis_points == spec_axis_basis_points(value),
{
    let up = value >= 0;
    let steps: u8 = if value >= 0 { value as u8 } else { (0i16 - value as i16) as u8 };
    let mut basis_points: i32 = 10_000;
    let mut done: u8 = 0;
    while done < steps
        invariant
            done <= steps,
            up == (value >= 0),
            steps as int == (if value >= 0 { value as int } else { 0 - value }),
            basis_points == spec_curve_basis_points(done as nat, up),
        decreases steps - done,
    {
        proof {
            lemma_curve_positive(done as nat, up);
        }
        let factor: i32 = if up { AXIS_STEP_UP_BASIS_POINTS } else { AXIS_STEP_DOWN_BASIS_POINTS };
        basis_points = saturating_mul_i32(basis_points, factor) / 10_000;
        done = done + 1;
    }
    basis_points
}

pub open spec fn abs_int(x: int) -> int {
    if x < 0 { -x } else { x }
}

pub open spec fn sign_int(x: int) -> int {
    if x > 0 { 1 } else if x < 0 { -1 } else { 0 }
}

/// `amount` scaled by the axis curve, rounded half away from zero.
pub open spec fn spec_scale_axis_value(amount: i32, axis_value: i8) -> int {
    if amount == 0 {
        0
    } else {
        let magnitude = abs_int(amount as int);
        sign_int(amount as int) * ((magnitude * spec_axis_basis_points(axis_value) + 5_000) / 10_000)
    }
}

pub proof fn lemma_scale_bounds(amount: i32, axis_value: i8)
    requires
        -AMOUNT_LIMIT <= amount <= AMOUNT_LIMIT,
        -9 <= axis_value <= 9,
    ensures
        abs_int(spec_scale_axis_value(amount, axis_value)) <= 3 * abs_int(amount as int),
        abs_int(amount as int) * spec_axis_basis_points(axis_value) + 5_000 <= i32::MAX,
        amount > 0 ==> spec_scale_axis_value(amount, axis_value) >= 0,
        amount < 0 ==> spec_scale_axis_value(amount, axis_value) <= 0,
{
    lemma_axis_basis_points_bounds(axis_value);
    let m = abs_int(amount as int);
    let bp = spec_axis_basis_points(axis_value);
    assert(m * bp <= 90_000 * 23_577) by (nonlinear_arith)
        requires 0 <= m <= 90_000, 0 <= bp <= 23_577;
    assert(m * bp >= 0) by (nonlinear_arith)
        requires 0 <= m, 0 <= bp;
    assert((m * bp + 5_000) / 10_000 <= 3 * m) by (nonlinear_arith)
        requires 0 <= m, 0 <= bp <= 23_577, m * bp >= 0;
}

/// `amount` scaled by the curve of `axis_value` (half away from zero); a small positive
/// amount can round down to 0 under a negative axis.
pub fn scale_axis_value(amount: i32, axis_value: i8) -> (scaled: i32)
    requires
        -AMOUNT_LIMIT <= amount <= AMOUNT_LIMIT,
        -9 <= axis_value <= 9,
    ensures
        scaled == spec_scale_axis_value(amount, axis_value),
        abs_int(scaled as int) <= 3 * abs_int(amount as int),
        amount > 0 ==> scaled >= 0,
        amount < 0 ==> scaled <= 0,
{
    if amount == 0 {
        return 0;
    }
    proof {
        lemma_scale_bounds(amount, axis_value);
        lemma_axis_basis_points_bounds(axis_value);
    }
    let basis_points = axis_multiplier_basis_points(axis_value);
    let magnitude: i32 = if amount < 0 { 0 - amount } else { amount };
    let product = saturating_mul_i32(magnitude, basis_points);
    let scaled = (product + 5_000) / 10_000;
    if amount > 0 { scaled } else { 0 - scaled }
}

/// The value a preview shows for `amount` under an axis value.
pub fn preview_scaled_value(amount: i32, axis_value: i8) -> (scaled: i32)
    requires
        -AMOUNT_LIMIT <= amount <= AMOUNT_LIMIT,
        -9 <= axis_value <= 9,
    ensures
        scaled == spec_scale_axis_value(amount, axis_value),
{
    scale_axis_value(amount, axis_value)
}

/// An intent's axis delta scaled by the enemy's Momentum (truncated to `i8`).
pub open spec fn spec_scale_intent_axis_delta(delta: i8, momentum: i8) -> i8 {
    spec_scale_axis_value(delta as i32, momentum) as i8
}

pub fn scale_intent_axis_delta(delta: i8, momentum: i8) -> (scaled: i8)
    requires
        -9 <= momentum <= 9,
    ensures
        scaled == spec_scale_intent_axis_delta(delta, momentum),
{
    let wide = scale_axis_value(delta as i32, momentum);
    #[verifier::truncate]
    (wide as i8)
}

/// `value` clamped to the axis range `-9..=9`.
pub open spec fn spec_clamp_axis(value: int) -> i8 {
    if value > 9 { 9i8 } else if value < -9 { -9i8 } else { value as i8 }
}

pub fn clamp_axis_value(value: i8) -> (clamped: i8)
    ensures
        clamped == spec_clamp_axis(value as int),
{
    if value > MAX_AXIS_ABS_VALUE {
        MAX_AXIS_ABS_VALUE
    } else if value < -MAX_AXIS_ABS_VALUE {
        -MAX_AXIS_ABS_VALUE
    } else {
        value
    }
}

/// `a + b` for `i8`, saturating at the type's bounds.
pub open spec fn spec_saturating_add_i8(a: i8, b: i8) -> i8 {
    let s = a as int + b as int;
    if s > 127 { 127i8 } else if s < -128 { -128i8 } else { s as i8 }
}

pub fn saturating_add_i8(a: i8, b: i8) -> (sum: i8)
    ensures
        sum == spec_saturating_add_i8(a, b),
{
    let wide = a as i16 + b as i16;
    if wide > 127 {
        127
    } else if wide < -128 {
        -128
    } else {
        wide as i8
    }
}

/// The status kind an axis is tracked as.
pub open spec fn spec_axis_status(axis: AxisKind) -> StatusKind {
    match axis {
        AxisKind::Focus => StatusKind::Focus,
        AxisKind::Rhythm => StatusKind::Rhythm,
        AxisKind::Momentum => StatusKind::Momentum,
    }
}

pub fn axis_status(axis: AxisKind) -> (status: StatusKind)
    ensures
        status == spec_axis_status(axis),
{
    match axis {
        AxisKind::Focus => StatusKind::Focus,
        AxisKind::Rhythm => StatusKind::Rhythm,
        AxisKind::Momentum => StatusKind::Momentum,
    }
}

/// Damage after the attacker's Focus (the defender's statuses do not change it).
pub open spec fn spec_scale_damage_amount(base_amount: i32, attacker: StatusSet) -> int {
    spec_scale_axis_value(base_amount, attacker.focus)
}

pub fn scale_damage_amount(base_amount: i32, attacker: StatusSet, defender: StatusSet) -> (scaled: i32)
    requires
        -AMOUNT_LIMIT <= base_amount <= AMOUNT_LIMIT,
        -9 <= attacker.focus <= 9,
    ensures
        scaled == spec_scale_damage_amount(base_amount, attacker),
        abs_int(scaled as int) <= 3 * abs_int(base_amount as int),
{
    scale_axis_value(base_amount, attacker.focus)
}

/// The three card piles as sequences.
#[verifier::ext_equal]
pub struct DeckModel {
    pub draw_pile: Seq<CardId>,
    pub hand: Seq<CardId>,
    pub discard_pile: Seq<CardId>,
}

impl View for DeckState {
    type V = DeckModel;

    open spec fn view(&self) -> DeckModel {
        DeckModel { draw_pile: self.draw_pile@, hand: self.hand@, discard_pile: self.discard_pile@ }
    }
}

/// A combat as plain values: what every contract of the combat rules speaks of.
#[verifier::ext_equal]
pub struct CombatModel {
    pub player: PlayerState,
    pub enemies: Seq<EnemyState>,
    pub deck: DeckModel,
    pub phase: TurnPhase,
    pub turn: u32,
    pub announced: Seq<bool>,
    pub rng: u64,
}

impl View for CombatState {
    type V = CombatModel;

    open spec fn view(&self) -> CombatModel {
        CombatModel {
            player: self.player,
            enemies: self.enemies@,
            deck: self.deck@,
            phase: self.phase,
            turn: self.turn,
            announced: self.announced_enemy_defeats@,
            rng: self.rng.state,
        }
    }
}

/// Axis values stay in `-9..=9`.
pub open spec fn statuses_wf(s: StatusSet) -> bool {
    &&& -9 <= s.focus <= 9
    &&& -9 <= s.rhythm <= 9
    &&& -9 <= s.momentum <= 9
}

/// A fighter's hit points and block are non-negative and its axes in range.
pub open spec fn fighter_wf(f: FighterState) -> bool {
    &&& f.hp >= 0
    &&& f.block >= 0
    &&& statuses_wf(f.statuses)
}

pub open spec fn axis_of(s: StatusSet, axis: AxisKind) -> i8 {
    match axis {
        AxisKind::Focus => s.focus,
        AxisKind::Rhythm => s.rhythm,
        AxisKind::Momentum => s.momentum,
    }
}

impl CombatModel {
    pub open spec fn valid_actor(self, actor: Actor) -> bool {
        match actor {
            Actor::Player => true,
            Actor::Enemy(i) => i < self.enemies.len(),
        }
    }

    pub open spec fn fighter(self, actor: Actor) -> FighterState {
        match actor {
            Actor::Player => self.player.fighter,
            Actor::Enemy(i) => self.enemies[i as int].fighter,
        }
    }

    pub open spec fn set_fighter(self, actor: Actor, f: FighterState) -> CombatModel {
        match actor {
            Actor::Player => CombatModel { player: PlayerState { fighter: f, ..self.player }, ..self },
            Actor::Enemy(i) => CombatModel {
                enemies: self.enemies.update(i as int, EnemyState { fighter: f, ..self.enemies[i as int] }),
                ..self
            },
        }
    }

    pub open spec fn axis(self, actor: Actor, axis: AxisKind) -> i8 {
        axis_of(self.fighter(actor).statuses, axis)
    }

    pub open spec fn enemy_alive(self, i: int) -> bool {
        0 <= i < self.enemies.len() && self.enemies[i].fighter.hp > 0
    }

    /// The combat's standing invariant: every fighter well formed, one defeat flag per enemy,
    /// every enemy's rotation slot below 3.
    pub open spec fn wf(self) -> bool {
        &&& fighter_wf(self.player.fighter)
        &&& self.announced.len() == self.enemies.len()
        &&& forall|i: int| 0 <= i < self.enemies.len() ==> fighter_wf(#[trigger] self.enemies[i].fighter)
        &&& forall|i: int| 0 <= i < self.enemies.len() ==> (#[trigger] self.enemies[i]).intent_index < 3
    }

    /// Every fighter's block is at most `limit`.
    pub open spec fn blocks_at_most(self, limit: int) -> bool {
        &&& self.player.fighter.block <= limit
        &&& forall|i: int| 0 <= i < self.enemies.len() ==> (#[trigger] self.enemies[i]).fighter.block <= limit
    }
}

/// `new` is `old` with entries appended.
/// What clearing an actor's block reports: the amount cleared, when there was any.
pub open spec fn spec_clear_block_events(actor: Actor, block: i32) -> Seq<CombatEvent> {
    if block > 0 {
        seq![CombatEvent::BlockCleared { actor, amount: block }]
    } else {
        Seq::empty()
    }
}

/// From index `from` on, the only enemy whose rotation `s` reports advancing is `who`
/// (none when `who` is `None`).
pub open spec fn advances_only(s: Seq<CombatEvent>, from: int, who: Option<usize>) -> bool {
    forall|i: int|
        #![trigger s[i]]
        from <= i < s.len() ==> match s[i] {
            CombatEvent::IntentAdvanced { enemy_index, .. } => who == Some(enemy_index),
            _ => true,
        }
}

/// From index `from` on, every rotation advance that `s` reports is one that took place between
/// `before` and `after`.
pub open spec fn advances_match(s: Seq<CombatEvent>, from: int, before: CombatModel, after: CombatModel) -> bool {
    forall|i: int|
        #![trigger s[i]]
        from <= i < s.len() ==> match s[i] {
            CombatEvent::IntentAdvanced { enemy_index, .. } => enemy_index < before.enemies.len()
                && enemy_index < after.enemies.len()
                && after.enemies[enemy_index as int].intent_index == ((before.enemies[enemy_index as int].intent_index + 1)
                % 3) as usize,
            _ => true,
        }
}

pub proof fn lemma_advances_extend(a: Seq<CombatEvent>, b: Seq<CombatEvent>, from: int, who: Option<usize>)
    requires
        appends(b, a),
        0 <= from <= a.len(),
        advances_only(a, from, who),
        advances_only(b, a.len() as int, who),
    ensures
        advances_only(b, from, who),
{
    assert forall|i: int| from <= i < a.len() implies b[i] == a[i] by {
        assert(b.subrange(0, a.len() as int)[i] == b[i]);
    }
}

pub open spec fn appends(new: Seq<CombatEvent>, old: Seq<CombatEvent>) -> bool {
    new.len() >= old.len() && new.subrange(0, old.len() as int) == old
}

pub proof fn lemma_appends_trans(a: Seq<CombatEvent>, b: Seq<CombatEvent>, c: Seq<CombatEvent>)
    requires
        appends(b, a),
        appends(c, b),
    ensures
        appends(c, a),
{
    assert(c.subrange(0, a.len() as int) =~= b.subrange(0, a.len() as int));
}

/// The statuses after applying `amount` of `status`: Bleed stacks (saturating) for positive
/// amounts only; axes add, saturate, then clamp to `-9..=9`.
pub open spec fn spec_status_after(s: StatusSet, status: StatusKind, amount: i8) -> StatusSet {
    match status {
        StatusKind::Bleed => if amount <= 0 {
            s
        } else {
            StatusSet {
                bleed: if s.bleed as int + amount as int > 255 { 255u8 } else { (s.bleed as int + amount as int) as u8 },
                ..s
            }
        },
        StatusKind::Focus => StatusSet { focus: spec_clamp_axis(spec_saturating_add_i8(s.focus, amount) as int), ..s },
        StatusKind::Rhythm => StatusSet { rhythm: spec_clamp_axis(spec_saturating_add_i8(s.rhythm, amount) as int), ..s },
        StatusKind::Momentum => StatusSet { momentum: spec_clamp_axis(spec_saturating_add_i8(s.momentum, amount) as int), ..s },
    }
}

/// The amount a status application reports: the Bleed added, or the axis' actual change.
pub open spec fn spec_status_applied(s: StatusSet, status: StatusKind, amount: i8) -> int {
    let after = spec_status_after(s, status, amount);
    match status {
        StatusKind::Bleed => if amount <= 0 { 0 } else { amount as int },
        StatusKind::Focus => after.focus - s.focus,
        StatusKind::Rhythm => after.rhythm - s.rhythm,
        StatusKind::Momentum => after.momentum - s.momentum,
    }
}

/// A fighter after taking `scaled` damage: block absorbs first, hit points floor at 0.
pub open spec fn spec_after_damage(f: FighterState, scaled: int) -> FighterState {
    if scaled <= 0 {
        f
    } else {
        let absorbed = if f.block < scaled { f.block as int } else { scaled };
        let dealt = scaled - absorbed;
        FighterState {
            block: (f.block - absorbed) as i32,
            hp: if dealt > 0 { (if f.hp - dealt < 0 { 0 } else { f.hp - dealt }) as i32 } else { f.hp },
            ..f
        }
    }
}

/// What a hit of `scaled` (already scaled) from `source` on `target`, a fighter `f`, reports:
/// the block it spends, then the damage that gets through; nothing for a hit that is not positive.
pub open spec fn spec_damage_events(source: Actor, target: Actor, f: FighterState, scaled: int) -> Seq<CombatEvent> {
    if scaled <= 0 {
        Seq::empty()
    } else {
        let absorbed = if f.block < scaled { f.block as int } else { scaled };
        let dealt = scaled - absorbed;
        (if absorbed > 0 { seq![CombatEvent::BlockSpent { actor: target, amount: absorbed as i32 }] } else { Seq::empty() })
            + (if dealt > 0 { seq![CombatEvent::DamageDealt { source, target, amount: dealt as i32 }] } else { Seq::empty() })
    }
}

/// A fighter after damage that ignores block.
pub open spec fn spec_after_piercing(f: FighterState, dealt: int) -> FighterState {
    if dealt <= 0 {
        f
    } else {
        FighterState { hp: (if f.hp - dealt < 0 { 0 } else { f.hp - dealt }) as i32, ..f }
    }
}

/// A fighter after gaining `amount` block scaled by its Rhythm (nothing when that rounds to 0).
pub open spec fn spec_after_block_gain(f: FighterState, amount: i32) -> FighterState {
    let adjusted = spec_scale_axis_value(amount, f.statuses.rhythm);
    if adjusted <= 0 { f } else { FighterState { block: (f.block + adjusted) as i32, ..f } }
}

/// A fighter with one axis replaced.
pub open spec fn spec_with_axis(f: FighterState, axis: AxisKind, value: i8) -> FighterState {
    match axis {
        AxisKind::Focus => FighterState { statuses: StatusSet { focus: value, ..f.statuses }, ..f },
        AxisKind::Rhythm => FighterState { statuses: StatusSet { rhythm: value, ..f.statuses }, ..f },
        AxisKind::Momentum => FighterState { statuses: StatusSet { momentum: value, ..f.statuses }, ..f },
    }
}

/// One step of an axis toward zero.
pub open spec fn spec_decay(value: i8) -> i8 {
    if value > 0 { (value - 1) as i8 } else if value < 0 { (value + 1) as i8 } else { value }
}

/// A fighter's end-of-turn tick: Bleed deals its stacks as damage and loses one stack,
/// then every axis steps toward zero.
pub open spec fn spec_end_of_turn_fighter(f: FighterState) -> FighterState {
    let bled = if f.statuses.bleed > 0 {
        FighterState {
            hp: (if f.hp - f.statuses.bleed < 0 { 0 } else { f.hp - f.statuses.bleed }) as i32,
            statuses: StatusSet { bleed: (f.statuses.bleed - 1) as u8, ..f.statuses },
            ..f
        }
    } else {
        f
    };
    FighterState {
        statuses: StatusSet {
            focus: spec_decay(bled.statuses.focus),
            rhythm: spec_decay(bled.statuses.rhythm),
            momentum: spec_decay(bled.statuses.momentum),
            ..bled.statuses
        },
        ..bled
    }
}

impl CombatState {
    pub fn fighter(&self, actor: Actor) -> (f: FighterState)
        requires
            self@.valid_actor(actor),
        ensures
            f == self@.fighter(actor),
    {
        match actor {
            Actor::Player => self.player.fighter,
            Actor::Enemy(index) => self.enemies[index].fighter,
        }
    }

    pub fn set_fighter(&mut self, actor: Actor, f: FighterState)
        requires
            old(self)@.valid_actor(actor),
        ensures
            final(self)@ == old(self)@.set_fighter(actor, f),
    {
        match actor {
            Actor::Player => {
                self.player.fighter = f;
            },
            Actor::Enemy(index) => {
                let mut enemy = self.enemies[index];
                enemy.fighter = f;
                self.enemies.set(index, enemy);
            },
        }
    }

    /// The actor's current value on an axis.
    pub fn axis_value(&self, actor: Actor, axis: AxisKind) -> (value: i8)
        requires
            self@.valid_actor(actor),
        ensures
            value == self@.axis(actor, axis),
    {
        let statuses = self.fighter(actor).statuses;
        match axis {
            AxisKind::Focus => statuses.focus,
            AxisKind::Rhythm => statuses.rhythm,
            AxisKind::Momentum => statuses.momentum,
        }
    }

    /// Whether the actor currently has the status (Bleed stacks, or a nonzero axis).
    pub fn has_status(&self, actor: Actor, status: StatusKind) -> (present: bool)
        requires
            self@.valid_actor(actor),
        ensures
            present == (match status {
                StatusKind::Bleed => self@.fighter(actor).statuses.bleed > 0,
                StatusKind::Focus => self@.fighter(actor).statuses.focus != 0,
                StatusKind::Rhythm => self@.fighter(actor).statuses.rhythm != 0,
                StatusKind::Momentum => self@.fighter(actor).statuses.momentum != 0,
            }),
    {
        let statuses = self.fighter(actor).statuses;
        match status {
            StatusKind::Bleed => statuses.bleed > 0,
            StatusKind::Focus => statuses.focus != 0,
            StatusKind::Rhythm => statuses.rhythm != 0,
            StatusKind::Momentum => statuses.momentum != 0,
        }
    }

    /// Applies `amount` of a status to the actor and reports the change that took effect.
    pub fn apply_status(&mut self, actor: Actor, status: StatusKind, amount: i8, events: &mut Vec<CombatEvent>)
        requires
            old(self)@.valid_actor(actor),
            statuses_wf(old(self)@.fighter(actor).statuses),
        ensures
            final(self)@ == old(self)@.set_fighter(
                actor,
                FighterState {
                    statuses: spec_status_after(old(self)@.fighter(actor).statuses, status, amount),
                    ..old(self)@.fighter(actor)
                },
            ),
            statuses_wf(final(self)@.fighter(actor).statuses),
            final(events)@ == old(events)@ + (if spec_status_applied(old(self)@.fighter(actor).statuses, status, amount) == 0 {
                Seq::<CombatEvent>::empty()
            } else {
                seq![CombatEvent::StatusApplied {
                    target: actor,
                    status,
                    amount: spec_status_applied(old(self)@.fighter(actor).statuses, status, amount) as i8,
                }]
            }),
            advances_only(final(events)@, old(events)@.len() as int, None),
    {
        let mut f = self.fighter(actor);
        let applied: i8 = match status {
            StatusKind::Bleed => {
                if amount <= 0 {
                    proof {
                        assert(old(events)@ + Seq::<CombatEvent>::empty() =~= old(events)@);
                    }
                    return;
                }
                f.statuses.bleed = f.statuses.bleed.saturating_add(amount as u8);
                amount
            },
            StatusKind::Focus => {
                let previous = f.statuses.focus;
                f.statuses.focus = clamp_axis_value(saturating_add_i8(previous, amount));
                f.statuses.focus - previous
            },
            StatusKind::Rhythm => {
                let previous = f.statuses.rhythm;
                f.statuses.rhythm = clamp_axis_value(saturating_add_i8(previous, amount));
                f.statuses.rhythm - previous
            },
            StatusKind::Momentum => {
                let previous = f.statuses.momentum;
                f.statuses.momentum = clamp_axis_value(saturating_add_i8(previous, amount));
                f.statuses.momentum - previous
            },
        };
        self.set_fighter(actor, f);
        if applied == 0 {
            proof {
                assert(old(events)@ + Seq::<CombatEvent>::empty() =~= old(events)@);
            }
            return;
        }
        events.push(CombatEvent::StatusApplied { target: actor, status, amount: applied });
    }

    pub fn apply_enemy_status(&mut self, enemy_index: usize, status: StatusKind, amount: i8, events: &mut Vec<CombatEvent>)
        requires
            enemy_index < old(self).enemies.len(),
            statuses_wf(old(self).enemies[enemy_index as int].fighter.statuses),
        ensures
            final(self)@ == old(self)@.set_fighter(
                Actor::Enemy(enemy_index),
                FighterState {
                    statuses: spec_status_after(old(self)@.fighter(Actor::Enemy(enemy_index)).statuses, status, amount),
                    ..old(self)@.fighter(Actor::Enemy(enemy_index))
                },
            ),
            appends(final(events)@, old(events)@),
    {
        self.apply_status(Actor::Enemy(enemy_index), status, amount, events);
        proof {
            assert(events@.subrange(0, old(events)@.len() as int) =~= old(events)@);
        }
    }

    /// Sets an axis of the actor to `value` (clamped), reporting the change as a status.
    pub fn set_axis(&mut self, actor: Actor, axis: AxisKind, value: i8, events: &mut Vec<CombatEvent>)
        requires
            old(self)@.valid_actor(actor),
            statuses_wf(old(self)@.fighter(actor).statuses),
        ensures
            final(self)@ == old(self)@.set_fighter(
                actor,
                spec_with_axis(old(self)@.fighter(actor), axis, spec_clamp_axis(value as int)),
            ),
            appends(final(events)@, old(events)@),
    {
        let current = self.axis_value(actor, axis);
        let clamped = clamp_axis_value(value);
        let delta = clamped - current;
        if delta != 0 {
            self.apply_status(actor, axis_status(axis), delta, events);
            proof {
                assert(self@ =~= old(self)@.set_fighter(
                    actor,
                    spec_with_axis(old(self)@.fighter(actor), axis, spec_clamp_axis(value as int)),
                ));
            }
        } else {
            proof {
                assert(old(self)@.set_fighter(actor, old(self)@.fighter(actor)) =~= old(self)@);
                assert(old(self)@.set_fighter(
                    actor,
                    spec_with_axis(old(self)@.fighter(actor), axis, spec_clamp_axis(value as int)),
                ) =~= old(self)@);
            }
        }
        proof {
            assert(events@.subrange(0, old(events)@.len() as int) =~= old(events)@);
        }
    }

    /// Gains block scaled by the actor's Rhythm (nothing when it rounds to 0).
    pub fn gain_block(&mut self, actor: Actor, amount: i32, events: &mut Vec<CombatEvent>)
        requires
            old(self)@.valid_actor(actor),
            fighter_wf(old(self)@.fighter(actor)),
            -AMOUNT_LIMIT <= amount <= AMOUNT_LIMIT,
            old(self)@.fighter(actor).block + 3 * abs_int(amount as int) <= i32::MAX,
        ensures
            final(self)@ == old(self)@.set_fighter(actor, spec_after_block_gain(old(self)@.fighter(actor), amount)),
            fighter_wf(final(self)@.fighter(actor)),
            final(self)@.fighter(actor).block <= old(self)@.fighter(actor).block + 3 * abs_int(amount as int),
            appends(final(events)@, old(events)@),
            advances_only(final(events)@, old(events)@.len() as int, None),
    {
        let mut f = self.fighter(actor);
        let adjusted_amount = scale_axis_value(amount, f.statuses.rhythm);
        if adjusted_amount <= 0 {
            proof {
                assert(old(self)@.set_fighter(actor, old(self)@.fighter(actor)) =~= old(self)@);
                assert(old(events)@.subrange(0, old(events)@.len() as int) =~= old(events)@);
            }
            return;
        }
        f.block = f.block + adjusted_amount;
        self.set_fighter(actor, f);
        events.push(CombatEvent::BlockGained { actor, amount: adjusted_amount });
        proof {
            assert(events@.subrange(0, old(events)@.len() as int) =~= old(events)@);
        }
    }

    /// Removes all of the actor's block.
    pub fn clear_block(&mut self, actor: Actor, events: &mut Vec<CombatEvent>)
        requires
            old(self)@.valid_actor(actor),
        ensures
            final(self)@ == old(self)@.set_fighter(
                actor,
                if old(self)@.fighter(actor).block > 0 {
                    FighterState { block: 0, ..old(self)@.fighter(actor) }
                } else {
                    old(self)@.fighter(actor)
                },
            ),
            final(events)@ == old(events)@ + spec_clear_block_events(actor, old(self)@.fighter(actor).block),
            appends(final(events)@, old(events)@),
            advances_only(final(events)@, old(events)@.len() as int, None),
    {
        let mut f = self.fighter(actor);
        let amount = f.block;
        if amount > 0 {
            f.block = 0;
            self.set_fighter(actor, f);
            events.push(CombatEvent::BlockCleared { actor, amount });
        } else {
            proof {
                assert(old(self)@.set_fighter(actor, old(self)@.fighter(actor)) =~= old(self)@);
            }
        }
        proof {
            assert(events@.subrange(0, old(events)@.len() as int) =~= old(events)@);
            assert(events@ =~= old(events)@ + spec_clear_block_events(actor, old(self)@.fighter(actor).block));
        }
    }

    /// `source` hits `target` for `base_amount` scaled by the source's Focus; block absorbs first.
    pub fn damage(&mut self, source: Actor, target: Actor, base_amount: i32, events: &mut Vec<CombatEvent>)
        requires
            old(self)@.valid_actor(source),
            old(self)@.valid_actor(target),
            statuses_wf(old(self)@.fighter(source).statuses),
            fighter_wf(old(self)@.fighter(target)),
            -AMOUNT_LIMIT <= base_amount <= AMOUNT_LIMIT,
        ensures
            final(self)@ == old(self)@.set_fighter(
                target,
                spec_after_damage(
                    old(self)@.fighter(target),
                    spec_scale_damage_amount(base_amount, old(self)@.fighter(source).statuses),
                ),
            ),
            fighter_wf(final(self)@.fighter(target)),
            final(events)@ == old(events)@ + spec_damage_events(
                source,
                target,
                old(self)@.fighter(target),
                spec_scale_damage_amount(base_amount, old(self)@.fighter(source).statuses),
            ),
            appends(final(events)@, old(events)@),
            advances_only(final(events)@, old(events)@.len() as int, None),
    {
        let attacker_statuses = self.fighter(source).statuses;
        let defender_statuses = self.fighter(target).statuses;
        let scaled_amount = scale_damage_amount(base_amount, attacker_statuses, defender_statuses);
        if scaled_amount <= 0 {
            proof {
                assert(old(self)@.set_fighter(target, old(self)@.fighter(target)) =~= old(self)@);
                assert(old(events)@.subrange(0, old(events)@.len() as int) =~= old(events)@);
            }
            proof {
                assert(events@ =~= old(events)@ + Seq::<CombatEvent>::empty());
            }
            return;
        }
        let mut f = self.fighter(target);
        let absorbed = if f.block < scaled_amount { f.block } else { scaled_amount };
        if absorbed > 0 {
            f.block = f.block - absorbed;
            events.push(CombatEvent::BlockSpent { actor: target, amount: absorbed });
        }
        let dealt = scaled_amount - absorbed;
        if dealt > 0 {
            let remaining = f.hp - dealt;
            f.hp = if remaining < 0 { 0 } else { remaining };
            events.push(CombatEvent::DamageDealt { source, target, amount: dealt });
        }
        self.set_fighter(target, f);
        proof {
            assert(events@.subrange(0, old(events)@.len() as int) =~= old(events)@);
            assert(events@ =~= old(events)@ + spec_damage_events(
                source,
                target,
                old(self)@.fighter(target),
                spec_scale_damage_amount(base_amount, old(self)@.fighter(source).statuses),
            ));
        }
    }

    /// Like `damage`, but block is ignored.
    pub fn damage_piercing(&mut self, source: Actor, target: Actor, base_amount: i32, events: &mut Vec<CombatEvent>)
        requires
            old(self)@.valid_actor(source),
            old(self)@.valid_actor(target),
            statuses_wf(old(self)@.fighter(source).statuses),
            fighter_wf(old(self)@.fighter(target)),
            -AMOUNT_LIMIT <= base_amount <= AMOUNT_LIMIT,
        ensures
            final(self)@ == old(self)@.set_fighter(
                target,
                spec_after_piercing(
                    old(self)@.fighter(target),
                    spec_scale_damage_amount(base_amount, old(self)@.fighter(source).statuses),
                ),
            ),
            fighter_wf(final(self)@.fighter(target)),
            appends(final(events)@, old(events)@),
    {
        let attacker_statuses = self.fighter(source).statuses;
        let defender_statuses = self.fighter(target).statuses;
        let dealt = scale_damage_amount(base_amount, attacker_statuses, defender_statuses);
        if dealt <= 0 {
            proof {
                assert(old(self)@.set_fighter(target, old(self)@.fighter(target)) =~= old(self)@);
                assert(old(events)@.subrange(0, old(events)@.len() as int) =~= old(events)@);
            }
            return;
        }
        let mut f = self.fighter(target);
        let remaining = f.hp - dealt;
        f.hp = if remaining < 0 { 0 } else { remaining };
        self.set_fighter(target, f);
        events.push(CombatEvent::DamageDealt { source, target, amount: dealt });
        proof {
            assert(events@.subrange(0, old(events)@.len() as int) =~= old(events)@);
        }
    }

    pub fn damage_enemy(&mut self, source: Actor, enemy_index: usize, base_amount: i32, events: &mut Vec<CombatEvent>)
        requires
            old(self)@.valid_actor(source),
            enemy_index < old(self).enemies.len(),
            statuses_wf(old(self)@.fighter(source).statuses),
            fighter_wf(old(self)@.fighter(Actor::Enemy(enemy_index))),
            -AMOUNT_LIMIT <= base_amount <= AMOUNT_LIMIT,
        ensures
            final(self)@ == old(self)@.set_fighter(
                Actor::Enemy(enemy_index),
                spec_after_damage(
                    old(self)@.fighter(Actor::Enemy(enemy_index)),
                    spec_scale_damage_amount(base_amount, old(self)@.fighter(source).statuses),
                ),
            ),
            final(events)@ == old(events)@ + spec_damage_events(
                source,
                Actor::Enemy(enemy_index),
                old(self)@.fighter(Actor::Enemy(enemy_index)),
                spec_scale_damage_amount(base_amount, old(self)@.fighter(source).statuses),
            ),
            appends(final(events)@, old(events)@),
    {
        self.damage(source, Actor::Enemy(enemy_index), base_amount, events);
    }

    pub fn damage_enemy_piercing(&mut self, source: Actor, enemy_index: usize, base_amount: i32, events: &mut Vec<CombatEvent>)
        requires
            old(self)@.valid_actor(source),
            enemy_index < old(self).enemies.len(),
            statuses_wf(old(self)@.fighter(source).statuses),
            fighter_wf(old(self)@.fighter(Actor::Enemy(enemy_index))),
            -AMOUNT_LIMIT <= base_amount <= AMOUNT_LIMIT,
        ensures
            final(self)@ == old(self)@.set_fighter(
                Actor::Enemy(enemy_index),
                spec_after_piercing(
                    old(self)@.fighter(Actor::Enemy(enemy_index)),
                    spec_scale_damage_amount(base_amount, old(self)@.fighter(source).statuses),
                ),
            ),
            appends(final(events)@, old(events)@),
    {
        self.damage_piercing(source, Actor::Enemy(enemy_index), base_amount, events);
    }

    /// Damage that ignores block and every status (what Bleed deals).
    pub fn direct_damage(&mut self, actor: Actor, amount: i32, events: &mut Vec<CombatEvent>)
        requires
            old(self)@.valid_actor(actor),
            old(self)@.fighter(actor).hp >= 0,
            0 <= amount <= 255,
        ensures
            final(self)@ == old(self)@.set_fighter(
                actor,
                FighterState {
                    hp: (if old(self)@.fighter(actor).hp - amount < 0 { 0 } else { old(self)@.fighter(actor).hp - amount }) as i32,
                    ..old(self)@.fighter(actor)
                },
            ),
            final(events)@ == old(events)@.push(CombatEvent::DamageDealt { source: actor, target: actor, amount }),
    {
        let mut f = self.fighter(actor);
        let remaining = f.hp - amount;
        f.hp = if remaining < 0 { 0 } else { remaining };
        self.set_fighter(actor, f);
        events.push(CombatEvent::DamageDealt { source: actor, target: actor, amount });
    }

    /// Adds energy scaled by the player's Momentum (a gain of 1 can round down to 0).
    pub fn gain_energy(&mut self, amount: u8)
        requires
            statuses_wf(old(self).player.fighter.statuses),
        ensures
            final(self)@ == (CombatModel {
                player: PlayerState {
                    energy: if amount == 0 {
                        old(self).player.energy
                    } else {
                        let scaled = spec_scale_axis_value(amount as i32, old(self).player.fighter.statuses.momentum);
                        let gain = (if scaled < 0 { 0 } else { scaled }) as u8;
                        if old(self).player.energy as int + gain as int > 255 { 255u8 } else { (old(self).player.energy + gain) as u8 }
                    },
                    ..old(self).player
                },
                ..old(self)@
            }),
    {
        if amount == 0 {
            return;
        }
        let scaled = scale_axis_value(amount as i32, self.player.fighter.statuses.momentum);
        let nonnegative = if scaled < 0 { 0 } else { scaled };
        #[verifier::truncate]
        let gain = nonnegative as u8;
        self.player.energy = self.player.energy.saturating_add(gain);
    }

    /// Moves every card in hand to the discard pile (player) and announces the end of turn.
    pub fn end_turn(&mut self, actor: Actor, events: &mut Vec<CombatEvent>)
        ensures
            match actor {
                Actor::Player => final(self)@ == (CombatModel {
                    deck: DeckModel {
                        hand: Seq::empty(),
                        discard_pile: old(self)@.deck.discard_pile + old(self)@.deck.hand,
                        ..old(self)@.deck
                    },
                    ..old(self)@
                }),
                Actor::Enemy(_) => final(self)@ == old(self)@,
            },
            appends(final(events)@, old(events)@),
            advances_only(final(events)@, old(events)@.len() as int, None),
    {
        match actor {
            Actor::Player => {
                let discard_count = self.deck.hand.len();
                let mut i: usize = 0;
                let ghost old_discard = self.deck.discard_pile@;
                while i < discard_count
                    invariant
                        discard_count == self.deck.hand.len(),
                        i <= discard_count,
                        self@ == (CombatModel {
                            deck: DeckModel { discard_pile: self.deck.discard_pile@, ..old(self)@.deck },
                            ..old(self)@
                        }),
                        self.deck.discard_pile@ == old_discard + self.deck.hand@.subrange(0, i as int),
                    decreases discard_count - i,
                {
                    let card = self.deck.hand[i];
                    self.deck.discard_pile.push(card);
                    proof {
                        assert(self.deck.hand@.subrange(0, i + 1) =~= self.deck.hand@.subrange(0, i as int).push(card));
                    }
                    i = i + 1;
                }
                proof {
                    assert(self.deck.hand@.subrange(0, discard_count as int) =~= self.deck.hand@);
                }
                self.deck.hand = Vec::new();
                events.push(CombatEvent::TurnEnded { actor });
                if discard_count > 0 {
                    events.push(CombatEvent::CardsDiscarded { count: discard_count });
                }
                proof {
                    assert(self@ =~= (CombatModel {
                        deck: DeckModel {
                            hand: Seq::empty(),
                            discard_pile: old(self)@.deck.discard_pile + old(self)@.deck.hand,
                            ..old(self)@.deck
                        },
                        ..old(self)@
                    }));
                }
            },
            Actor::Enemy(_) => {
                events.push(CombatEvent::TurnEnded { actor: Actor::Enemy(0) });
            },
        }
        proof {
            assert(events@.subrange(0, old(events)@.len() as int) =~= old(events)@);
        }
    }

    /// Adds a created card to the hand, or to the discard pile when the hand is full.
    pub fn create_card_in_hand(&mut self, card: CardId, events: &mut Vec<CombatEvent>)
        ensures
            final(self)@ == (CombatModel {
                deck: if old(self).deck.hand.len() >= MAX_HAND_CARDS {
                    DeckModel { discard_pile: old(self)@.deck.discard_pile.push(card), ..old(self)@.deck }
                } else {
                    DeckModel { hand: old(self)@.deck.hand.push(card), ..old(self)@.deck }
                },
                ..old(self)@
            }),
            final(events)@ == old(events)@.push(CombatEvent::CardCreated { card }),
    {
        if self.deck.hand.len() >= MAX_HAND_CARDS {
            self.deck.discard_pile.push(card);
        } else {
            self.deck.hand.push(card);
        }
        events.push(CombatEvent::CardCreated { card });
        proof {
            assert(self@ =~= (CombatModel {
                deck: if old(self).deck.hand.len() >= MAX_HAND_CARDS {
                    DeckModel { discard_pile: old(self)@.deck.discard_pile.push(card), ..old(self)@.deck }
                } else {
                    DeckModel { hand: old(self)@.deck.hand.push(card), ..old(self)@.deck }
                },
                ..old(self)@
            }));
        }
    }

    /// Adds a created card to the discard pile.
    pub fn create_card_in_discard(&mut self, card: CardId, events: &mut Vec<CombatEvent>)
        ensures
            final(self)@ == (CombatModel {
                deck: DeckModel { discard_pile: old(self)@.deck.discard_pile.push(card), ..old(self)@.deck },
                ..old(self)@
            }),
            final(events)@ == old(events)@.push(CombatEvent::CardCreated { card }),
    {
        self.deck.discard_pile.push(card);
        events.push(CombatEvent::CardCreated { card });
        proof {
            assert(self@ =~= (CombatModel {
                deck: DeckModel { discard_pile: old(self)@.deck.discard_pile.push(card), ..old(self)@.deck },
                ..old(self)@
            }));
        }
    }
}

pub open spec fn spec_swap(s: Seq<CardId>, i: int, j: int) -> Seq<CardId> {
    s.update(i, s[j]).update(j, s[i])
}

/// Fisher-Yates from position `index` down to 1: swap each position with a random one at or
/// below it. Yields the shuffled items and the generator state after the draws.
pub open spec fn spec_shuffle_from(items: Seq<CardId>, state: u64, index: nat) -> (Seq<CardId>, u64)
    decreases index,
{
    if index == 0 {
        (items, state)
    } else {
        let next = xorshift_step(state);
        let j = index_from_value(next, (index + 1) as usize);
        spec_shuffle_from(spec_swap(items, index as int, j as int), next, (index - 1) as nat)
    }
}

/// The shuffle of `items` driven by a generator in `state`.
pub open spec fn spec_shuffle(items: Seq<CardId>, state: u64) -> (Seq<CardId>, u64) {
    if items.len() <= 1 { (items, state) } else { spec_shuffle_from(items, state, (items.len() - 1) as nat) }
}

pub proof fn lemma_shuffle_from_len(items: Seq<CardId>, state: u64, index: nat)
    requires
        index < items.len(),
    ensures
        spec_shuffle_from(items, state, index).0.len() == items.len(),
    decreases index,
{
    if index > 0 {
        let next = xorshift_step(state);
        let j = index_from_value(next, (index + 1) as usize);
        lemma_shuffle_from_len(spec_swap(items, index as int, j as int), next, (index - 1) as nat);
    }
}

/// Shuffles `items` in place with `rng`.
pub fn shuffle(items: &mut Vec<CardId>, rng: &mut XorShift64)
    ensures
        (final(items)@, final(rng).state) == spec_shuffle(old(items)@, old(rng).state),
        final(items)@.len() == old(items)@.len(),
{
    let len = items.len();
    if len <= 1 {
        return;
    }
    proof {
        lemma_shuffle_from_len(old(items)@, old(rng).state, (len - 1) as nat);
    }
    let mut index: usize = len - 1;
    while index > 0
        invariant
            items.len() == len,
            len >= 2,
            index < len,
            spec_shuffle_from(items@, rng.state, index as nat) == spec_shuffle(old(items)@, old(rng).state),
        decreases index,
    {
        let swap_with = rng.next_index(index + 1);
        let a = items[index];
        let b = items[swap_with];
        let ghost before = items@;
        items.set(index, b);
        items.set(swap_with, a);
        proof {
            assert(items@ =~= spec_swap(before, index as int, swap_with as int));
        }
        index = index - 1;
    }
}

/// The draw of one card: from the top (end) of the draw pile; when it is empty the discard
/// pile is shuffled into it first. `None` when both piles are empty.
pub open spec fn spec_draw_one(m: CombatModel) -> (CombatModel, Option<CardId>) {
    if m.deck.draw_pile.len() == 0 {
        if m.deck.discard_pile.len() == 0 {
            (m, None)
        } else {
            let (shuffled, state) = spec_shuffle(m.deck.draw_pile + m.deck.discard_pile, m.rng);
            (
                CombatModel {
                    deck: DeckModel { draw_pile: shuffled.drop_last(), discard_pile: Seq::empty(), ..m.deck },
                    rng: state,
                    ..m
                },
                Some(shuffled.last()),
            )
        }
    } else {
        (
            CombatModel { deck: DeckModel { draw_pile: m.deck.draw_pile.drop_last(), ..m.deck }, ..m },
            Some(m.deck.draw_pile.last()),
        )
    }
}

/// Draws `count` cards one at a time; a card drawn into a full hand (9) is burned to the
/// discard pile. Stops early when nothing is left to draw.
pub open spec fn spec_draw_cards(m: CombatModel, count: nat) -> CombatModel
    decreases count,
{
    if count == 0 {
        m
    } else {
        let (after, drawn) = spec_draw_one(m);
        match drawn {
            None => after,
            Some(card) => {
                let placed = if after.deck.hand.len() >= MAX_HAND_CARDS {
                    CombatModel { deck: DeckModel { discard_pile: after.deck.discard_pile.push(card), ..after.deck }, ..after }
                } else {
                    CombatModel { deck: DeckModel { hand: after.deck.hand.push(card), ..after.deck }, ..after }
                };
                spec_draw_cards(placed, (count - 1) as nat)
            },
        }
    }
}

/// Swapping two entries keeps the multiset of a sequence.
pub proof fn lemma_swap_multiset<T>(s: Seq<T>, i: int, j: int)
    requires
        0 <= i < s.len(),
        0 <= j < s.len(),
    ensures
        s.update(i, s[j]).update(j, s[i]).to_multiset() == s.to_multiset(),
{
    broadcast use vstd::seq_lib::group_to_multiset_ensures;
    let t = s.update(i, s[j]);
    assert(t.to_multiset() == s.to_multiset().remove(s[i]).insert(s[j]));
    assert(t.update(j, s[i]).to_multiset() == t.to_multiset().remove(t[j]).insert(s[i]));
    if i == j {
        assert(t.update(j, s[i]) =~= s);
    } else {
        assert(t[j] == s[j]);
        assert(s.to_multiset().remove(s[i]).insert(s[j]).remove(s[j]).insert(s[i]) =~= s.to_multiset());
    }
}

pub proof fn lemma_shuffle_from_keeps_cards(items: Seq<CardId>, state: u64, index: nat)
    requires
        index < items.len(),
    ensures
        spec_shuffle_from(items, state, index).0.to_multiset() == items.to_multiset(),
    decreases index,
{
    if index > 0 {
        let next = xorshift_step(state);
        let j = index_from_value(next, (index + 1) as usize);
        lemma_swap_multiset(items, index as int, j as int);
        lemma_shuffle_from_keeps_cards(spec_swap(items, index as int, j as int), next, (index - 1) as nat);
    }
}

/// Shuffling only reorders: the shuffled pile holds exactly the cards it was given.
pub proof fn shuffle_keeps_cards(items: Seq<CardId>, state: u64)
    ensures
        spec_shuffle(items, state).0.to_multiset() == items.to_multiset(),
{
    if items.len() > 1 {
        lemma_shuffle_from_keeps_cards(items, state, (items.len() - 1) as nat);
    }
}

/// All the cards of a combat's three piles.
pub open spec fn all_cards(d: DeckModel) -> vstd::multiset::Multiset<CardId> {
    d.draw_pile.to_multiset().add(d.hand.to_multiset()).add(d.discard_pile.to_multiset())
}

/// Drawing moves cards between the piles (reshuffling the discard pile into the draw pile
/// when it runs out) but never creates or loses one.
pub proof fn drawing_keeps_cards(m: CombatModel, count: nat)
    ensures
        all_cards(spec_draw_cards(m, count).deck) == all_cards(m.deck),
    decreases count,
{
    broadcast use vstd::seq_lib::group_to_multiset_ensures;
    if count > 0 {
        let (after, drawn) = spec_draw_one(m);
        if m.deck.draw_pile.len() == 0 && m.deck.discard_pile.len() > 0 {
            let joined = m.deck.draw_pile + m.deck.discard_pile;
            shuffle_keeps_cards(joined, m.rng);
            vstd::seq_lib::lemma_multiset_commutative(m.deck.draw_pile, m.deck.discard_pile);
            let shuffled = spec_shuffle(joined, m.rng).0;
            assert(shuffled.len() > 0) by {
                if shuffled.len() == 0 {
                    assert(shuffled.to_multiset().len() == 0);
                    assert(joined.to_multiset().count(m.deck.discard_pile[0]) > 0);
                }
            }
            assert(shuffled =~= shuffled.drop_last().push(shuffled.last()));
        } else if m.deck.draw_pile.len() > 0 {
            assert(m.deck.draw_pile =~= m.deck.draw_pile.drop_last().push(m.deck.draw_pile.last()));
        }
        match drawn {
            None => {},
            Some(card) => {
                let placed = if after.deck.hand.len() >= MAX_HAND_CARDS {
                    CombatModel { deck: DeckModel { discard_pile: after.deck.discard_pile.push(card), ..after.deck }, ..after }
                } else {
                    CombatModel { deck: DeckModel { hand: after.deck.hand.push(card), ..after.deck }, ..after }
                };
                assert(all_cards(placed.deck) =~= all_cards(m.deck));
                drawing_keeps_cards(placed, (count - 1) as nat);
            },
        }
    }
}

/// Only the three card piles and the generator differ.
pub open spec fn same_but_cards(a: CombatModel, b: CombatModel) -> bool {
    &&& a.player == b.player
    &&& a.enemies == b.enemies
    &&& a.phase == b.phase
    &&& a.turn == b.turn
    &&& a.announced == b.announced
}

pub proof fn lemma_draw_cards_frame(m: CombatModel, count: nat)
    ensures
        same_but_cards(spec_draw_cards(m, count), m),
    decreases count,
{
    if count > 0 {
        let (after, drawn) = spec_draw_one(m);
        match drawn {
            None => {},
            Some(card) => {
                let placed = if after.deck.hand.len() >= MAX_HAND_CARDS {
                    CombatModel { deck: DeckModel { discard_pile: after.deck.discard_pile.push(card), ..after.deck }, ..after }
                } else {
                    CombatModel { deck: DeckModel { hand: after.deck.hand.push(card), ..after.deck }, ..after }
                };
                lemma_draw_cards_frame(placed, (count - 1) as nat);
            },
        }
    }
}

/// What taking one card off the draw pile reports: a reshuffle when the discard pile had to
/// be shuffled in.
pub open spec fn spec_draw_one_events(m: CombatModel) -> Seq<CombatEvent> {
    if m.deck.draw_pile.len() == 0 && m.deck.discard_pile.len() > 0 {
        seq![CombatEvent::Reshuffled]
    } else {
        Seq::empty()
    }
}

/// What drawing `count` cards reports: each reshuffle, then each card drawn into the hand, or
/// burned into the discard pile when the hand is full.
pub open spec fn spec_draw_events(m: CombatModel, count: nat) -> Seq<CombatEvent>
    decreases count,
{
    if count == 0 {
        Seq::empty()
    } else {
        let (after, drawn) = spec_draw_one(m);
        match drawn {
            None => spec_draw_one_events(m),
            Some(card) => {
                let full = after.deck.hand.len() >= MAX_HAND_CARDS;
                let placed = if full {
                    CombatModel { deck: DeckModel { discard_pile: after.deck.discard_pile.push(card), ..after.deck }, ..after }
                } else {
                    CombatModel { deck: DeckModel { hand: after.deck.hand.push(card), ..after.deck }, ..after }
                };
                spec_draw_one_events(m) + seq![if full { CombatEvent::CardBurned { card } } else { CombatEvent::CardDrawn { card } }]
                    + spec_draw_events(placed, (count - 1) as nat)
            },
        }
    }
}

impl CombatState {
    /// Takes one card off the draw pile, reshuffling the discard pile in when it is empty.
    pub fn draw_one(&mut self, events: &mut Vec<CombatEvent>) -> (card: Option<CardId>)
        ensures
            (final(self)@, card) == spec_draw_one(old(self)@),
            final(events)@ == old(events)@ + spec_draw_one_events(old(self)@),
            appends(final(events)@, old(events)@),
    {
        if self.deck.draw_pile.len() == 0 {
            if self.deck.discard_pile.len() == 0 {
                proof {
                    assert(events@.subrange(0, old(events)@.len() as int) =~= old(events)@);
                    assert(events@ =~= old(events)@ + spec_draw_one_events(old(self)@));
                }
                return None;
            }
            let mut moved: Vec<CardId> = Vec::new();
            std::mem::swap(&mut moved, &mut self.deck.discard_pile);
            let mut pile: Vec<CardId> = Vec::new();
            std::mem::swap(&mut pile, &mut self.deck.draw_pile);
            pile.append(&mut moved);
            proof {
                assert(pile@ =~= old(self)@.deck.draw_pile + old(self)@.deck.discard_pile);
            }
            shuffle(&mut pile, &mut self.rng);
            self.deck.draw_pile = pile;
            events.push(CombatEvent::Reshuffled);
        }
        let card = self.deck.draw_pile.pop();
        proof {
            assert(events@.subrange(0, old(events)@.len() as int) =~= old(events)@);
            assert(self@ =~= spec_draw_one(old(self)@).0);
            assert(events@ =~= old(events)@ + spec_draw_one_events(old(self)@));
        }
        card
    }

    /// Draws `count` cards.
    pub fn draw_cards(&mut self, count: u8, events: &mut Vec<CombatEvent>)
        ensures
            final(self)@ == spec_draw_cards(old(self)@, count as nat),
            final(events)@ == old(events)@ + spec_draw_events(old(self)@, count as nat),
            same_but_cards(final(self)@, old(self)@),
            appends(final(events)@, old(events)@),
    {
        let mut done: u8 = 0;
        proof {
            assert(events@.subrange(0, old(events)@.len() as int) =~= old(events)@);
            assert(events@ =~= old(events)@);
        }
        while done < count
            invariant
                done <= count,
                spec_draw_cards(self@, (count - done) as nat) == spec_draw_cards(old(self)@, count as nat),
                appends(events@, old(events)@),
                events@ + spec_draw_events(self@, (count - done) as nat) == old(events)@ + spec_draw_events(old(self)@, count as nat),
            ensures
                self@ == spec_draw_cards(old(self)@, count as nat),
                appends(events@, old(events)@),
                events@ == old(events)@ + spec_draw_events(old(self)@, count as nat),
            decreases count - done,
        {
            let ghost before = self@;
            let ghost before_events = events@;
            let drawn = self.draw_one(events);
            proof {
                lemma_appends_trans(old(events)@, before_events, events@);
            }
            match drawn {
                None => {
                    proof {
                        assert(spec_draw_cards(before, (count - done) as nat) == self@);
                        assert(before_events + spec_draw_events(before, (count - done) as nat) =~= events@);
                    }
                    break;
                },
                Some(card) => {
                    let ghost mid_events = events@;
                    if self.deck.hand.len() >= MAX_HAND_CARDS {
                        self.deck.discard_pile.push(card);
                        events.push(CombatEvent::CardBurned { card });
                    } else {
                        self.deck.hand.push(card);
                        events.push(CombatEvent::CardDrawn { card });
                    }
                    proof {
                        assert(events@.subrange(0, mid_events.len() as int) =~= mid_events);
                        lemma_appends_trans(old(events)@, mid_events, events@);
                        assert(before_events + spec_draw_events(before, (count - done) as nat) =~= events@ + spec_draw_events(
                            self@,
                            (count - done - 1) as nat,
                        ));
                    }
                },
            }
            done = done + 1;
        }
        proof {
            lemma_draw_cards_frame(old(self)@, count as nat);
        }
    }
}

/// `new` is `old` with `g` applied to the fighter of every enemy selected by `pick`.
pub open spec fn enemies_mapped(
    old: Seq<EnemyState>,
    new: Seq<EnemyState>,
    pick: spec_fn(EnemyState) -> bool,
    g: spec_fn(FighterState) -> FighterState,
) -> bool {
    &&& new.len() == old.len()
    &&& forall|i: int|
        0 <= i < old.len() ==> #[trigger] new[i] == (if pick(old[i]) {
            EnemyState { fighter: g(old[i].fighter), ..old[i] }
        } else {
            old[i]
        })
}

pub open spec fn is_alive(e: EnemyState) -> bool {
    e.fighter.hp > 0
}

/// Only the enemies' fighters differ.
pub open spec fn same_but_enemy_fighters(a: CombatModel, b: CombatModel) -> bool {
    &&& a.player == b.player
    &&& a.deck == b.deck
    &&& a.phase == b.phase
    &&& a.turn == b.turn
    &&& a.announced == b.announced
    &&& a.rng == b.rng
}

impl CombatState {
    /// Applies the same per-enemy step to every living enemy, in slot order.
    pub fn apply_status_to_all_enemies(&mut self, status: StatusKind, amount: i8, events: &mut Vec<CombatEvent>)
        requires
            old(self)@.wf(),
        ensures
            same_but_enemy_fighters(final(self)@, old(self)@),
            enemies_mapped(
                old(self)@.enemies,
                final(self)@.enemies,
                |e: EnemyState| is_alive(e),
                |f: FighterState| FighterState { statuses: spec_status_after(f.statuses, status, amount), ..f },
            ),
            final(self)@.wf(),
            appends(final(events)@, old(events)@),
    {
        let count = self.enemies.len();
        let mut i: usize = 0;
        proof {
            assert(events@.subrange(0, old(events)@.len() as int) =~= old(events)@);
        }
        while i < count
            invariant
                i <= count,
                count == old(self)@.enemies.len(),
                self@.wf(),
                same_but_enemy_fighters(self@, old(self)@),
                self@.enemies.len() == count,
                forall|k: int| 0 <= k < count ==> #[trigger] self@.enemies[k] == (if k < i && is_alive(old(self)@.enemies[k]) {
                    EnemyState {
                        fighter: FighterState {
                            statuses: spec_status_after(old(self)@.enemies[k].fighter.statuses, status, amount),
                            ..old(self)@.enemies[k].fighter
                        },
                        ..old(self)@.enemies[k]
                    }
                } else {
                    old(self)@.enemies[k]
                }),
                appends(events@, old(events)@),
            decreases count - i,
        {
            if self.enemies[i].fighter.hp > 0 {
                let ghost before_events = events@;
                self.apply_enemy_status(i, status, amount, events);
                proof {
                    lemma_appends_trans(old(events)@, before_events, events@);
                    assert(statuses_wf(spec_status_after(old(self)@.enemies[i as int].fighter.statuses, status, amount)));
                }
            }
            i = i + 1;
        }
    }

    /// Sets the Momentum of the player and of every living enemy to `value` (clamped).
    pub fn set_all_momentum(&mut self, value: i8, events: &mut Vec<CombatEvent>)
        requires
            old(self)@.wf(),
        ensures
            final(self)@.player == (PlayerState {
                fighter: spec_with_axis(old(self)@.player.fighter, AxisKind::Momentum, spec_clamp_axis(value as int)),
                ..old(self)@.player
            }),
            final(self)@.deck == old(self)@.deck,
            final(self)@.phase == old(self)@.phase,
            final(self)@.turn == old(self)@.turn,
            final(self)@.announced == old(self)@.announced,
            final(self)@.rng == old(self)@.rng,
            enemies_mapped(
                old(self)@.enemies,
                final(self)@.enemies,
                |e: EnemyState| is_alive(e),
                |f: FighterState| spec_with_axis(f, AxisKind::Momentum, spec_clamp_axis(value as int)),
            ),
            final(self)@.wf(),
            appends(final(events)@, old(events)@),
    {
        self.set_axis(Actor::Player, AxisKind::Momentum, value, events);
        let ghost after_player = self@;
        let ghost after_player_events = events@;
        let count = self.enemies.len();
        let mut i: usize = 0;
        proof {
            assert(events@.subrange(0, after_player_events.len() as int) =~= after_player_events);
        }
        while i < count
            invariant
                i <= count,
                count == old(self)@.enemies.len(),
                self@.wf(),
                same_but_enemy_fighters(self@, after_player),
                after_player.enemies == old(self)@.enemies,
                self@.enemies.len() == count,
                forall|k: int| 0 <= k < count ==> #[trigger] self@.enemies[k] == (if k < i && is_alive(old(self)@.enemies[k]) {
                    EnemyState {
                        fighter: spec_with_axis(old(self)@.enemies[k].fighter, AxisKind::Momentum, spec_clamp_axis(value as int)),
                        ..old(self)@.enemies[k]
                    }
                } else {
                    old(self)@.enemies[k]
                }),
                appends(events@, after_player_events),
            decreases count - i,
        {
            if self.enemies[i].fighter.hp > 0 {
                let ghost before_events = events@;
                self.set_axis(Actor::Enemy(i), AxisKind::Momentum, value, events);
                proof {
                    lemma_appends_trans(after_player_events, before_events, events@);
                }
            }
            i = i + 1;
        }
        proof {
            lemma_appends_trans(old(events)@, after_player_events, events@);
        }
    }

    /// Damages every living enemy (optionally through block), in slot order.
    pub fn damage_all_enemies(&mut self, source: Actor, amount: i32, events: &mut Vec<CombatEvent>, piercing: bool)
        requires
            old(self)@.wf(),
            source == Actor::Player,
            -AMOUNT_LIMIT <= amount <= AMOUNT_LIMIT,
        ensures
            same_but_enemy_fighters(final(self)@, old(self)@),
            enemies_mapped(
                old(self)@.enemies,
                final(self)@.enemies,
                |e: EnemyState| is_alive(e),
                |f: FighterState| if piercing {
                    spec_after_piercing(f, spec_scale_damage_amount(amount, old(self)@.player.fighter.statuses))
                } else {
                    spec_after_damage(f, spec_scale_damage_amount(amount, old(self)@.player.fighter.statuses))
                },
            ),
            final(self)@.wf(),
            appends(final(events)@, old(events)@),
    {
        let count = self.enemies.len();
        let mut i: usize = 0;
        proof {
            assert(events@.subrange(0, old(events)@.len() as int) =~= old(events)@);
        }
        while i < count
            invariant
                i <= count,
                count == old(self)@.enemies.len(),
                source == Actor::Player,
                -AMOUNT_LIMIT <= amount <= AMOUNT_LIMIT,
                self@.wf(),
                same_but_enemy_fighters(self@, old(self)@),
                self@.enemies.len() == count,
                forall|k: int| 0 <= k < count ==> #[trigger] self@.enemies[k] == (if k < i && is_alive(old(self)@.enemies[k]) {
                    EnemyState {
                        fighter: if piercing {
                            spec_after_piercing(old(self)@.enemies[k].fighter, spec_scale_damage_amount(amount, old(self)@.player.fighter.statuses))
                        } else {
                            spec_after_damage(old(self)@.enemies[k].fighter, spec_scale_damage_amount(amount, old(self)@.player.fighter.statuses))
                        },
                        ..old(self)@.enemies[k]
                    }
                } else {
                    old(self)@.enemies[k]
                }),
                appends(events@, old(events)@),
            decreases count - i,
        {
            if self.enemies[i].fighter.hp > 0 {
                let ghost before_events = events@;
                if piercing {
                    self.damage_enemy_piercing(source, i, amount, events);
                } else {
                    self.damage_enemy(source, i, amount, events);
                }
                proof {
                    lemma_appends_trans(old(events)@, before_events, events@);
                }
            }
            i = i + 1;
        }
    }

    /// End-of-turn tick for one fighter: Bleed damage and decay, then every axis steps toward 0.
    pub fn apply_end_of_turn_to_actor(&mut self, actor: Actor, events: &mut Vec<CombatEvent>)
        requires
            old(self)@.valid_actor(actor),
            fighter_wf(old(self)@.fighter(actor)),
        ensures
            final(self)@ == old(self)@.set_fighter(actor, spec_end_of_turn_fighter(old(self)@.fighter(actor))),
            fighter_wf(final(self)@.fighter(actor)),
            appends(final(events)@, old(events)@),
    {
        let bleed = self.fighter(actor).statuses.bleed;
        if bleed > 0 {
            self.direct_damage(actor, bleed as i32, events);
            let mut f = self.fighter(actor);
            f.statuses.bleed = bleed - 1;
            self.set_fighter(actor, f);
            events.push(CombatEvent::StatusTicked { actor, status: StatusKind::Bleed, amount: bleed });
        }
        let mut f = self.fighter(actor);
        if f.statuses.focus > 0 {
            f.statuses.focus = f.statuses.focus - 1;
        } else if f.statuses.focus < 0 {
            f.statuses.focus = f.statuses.focus + 1;
        }
        if f.statuses.rhythm > 0 {
            f.statuses.rhythm = f.statuses.rhythm - 1;
        } else if f.statuses.rhythm < 0 {
            f.statuses.rhythm = f.statuses.rhythm + 1;
        }
        if f.statuses.momentum > 0 {
            f.statuses.momentum = f.statuses.momentum - 1;
        } else if f.statuses.momentum < 0 {
            f.statuses.momentum = f.statuses.momentum + 1;
        }
        self.set_fighter(actor, f);
        proof {
            assert(self@ =~= old(self)@.set_fighter(actor, spec_end_of_turn_fighter(old(self)@.fighter(actor))));
            assert(events@.subrange(0, old(events)@.len() as int) =~= old(events)@);
        }
    }

    /// End-of-turn ticks for the player, or for every living enemy.
    pub fn apply_end_of_turn(&mut self, actor: Actor, events: &mut Vec<CombatEvent>)
        requires
            old(self)@.wf(),
        ensures
            final(self)@.wf(),
            appends(final(events)@, old(events)@),
            match actor {
                Actor::Player => final(self)@ == old(self)@.set_fighter(
                    Actor::Player,
                    spec_end_of_turn_fighter(old(self)@.player.fighter),
                ),
                Actor::Enemy(_) => same_but_enemy_fighters(final(self)@, old(self)@) && enemies_mapped(
                    old(self)@.enemies,
                    final(self)@.enemies,
                    |e: EnemyState| is_alive(e),
                    |f: FighterState| spec_end_of_turn_fighter(f),
                ),
            },
    {
        match actor {
            Actor::Player => {
                self.apply_end_of_turn_to_actor(actor, events);
            },
            Actor::Enemy(_) => {
                let count = self.enemies.len();
                let mut i: usize = 0;
                proof {
                    assert(events@.subrange(0, old(events)@.len() as int) =~= old(events)@);
                }
                while i < count
                    invariant
                        i <= count,
                        count == old(self)@.enemies.len(),
                        self@.wf(),
                        same_but_enemy_fighters(self@, old(self)@),
                        self@.enemies.len() == count,
                        forall|k: int| 0 <= k < count ==> #[trigger] self@.enemies[k] == (if k < i && is_alive(old(self)@.enemies[k]) {
                            EnemyState { fighter: spec_end_of_turn_fighter(old(self)@.enemies[k].fighter), ..old(self)@.enemies[k] }
                        } else {
                            old(self)@.enemies[k]
                        }),
                        appends(events@, old(events)@),
                    decreases count - i,
                {
                    if self.enemies[i].fighter.hp > 0 {
                        let ghost before_events = events@;
                        self.apply_end_of_turn_to_actor(Actor::Enemy(i), events);
                        proof {
                            lemma_appends_trans(old(events)@, before_events, events@);
                        }
                    }
                    i = i + 1;
                }
            },
        }
    }
}


/// Largest block a fighter may hold before a card or an enemy adds to it.
pub const PLAY_BLOCK_LIMIT: i32 = 2_100_000_000;

/// What every step of a turn except the outcome check leaves alone, and how much block it may
/// add: the combat stays well formed, keeps its enemy slots, phase, turn and defeat flags, no
/// enemy gains hit points, the player gains at most `player_extra` block and each enemy at most
/// `enemy_extra`.
pub open spec fn step_frame(old: CombatModel, new: CombatModel, player_extra: int, enemy_extra: int) -> bool {
    &&& new.wf()
    &&& new.enemies.len() == old.enemies.len()
    &&& new.phase == old.phase
    &&& new.turn == old.turn
    &&& new.announced == old.announced
    &&& new.player.fighter.block <= old.player.fighter.block + player_extra
    &&& forall|i: int|
        0 <= i < old.enemies.len() ==> #[trigger] new.enemies[i].fighter.block <= old.enemies[i].fighter.block
            + enemy_extra
    &&& forall|i: int| 0 <= i < old.enemies.len() ==> #[trigger] new.enemies[i].fighter.hp <= old.enemies[i].fighter.hp
}

pub proof fn lemma_step_frame_trans(a: CombatModel, b: CombatModel, c: CombatModel, p1: int, e1: int, p2: int, e2: int)
    requires
        step_frame(a, b, p1, e1),
        step_frame(b, c, p2, e2),
    ensures
        step_frame(a, c, p1 + p2, e1 + e2),
{
    assert forall|i: int| 0 <= i < a.enemies.len() implies #[trigger] c.enemies[i].fighter.block
        <= a.enemies[i].fighter.block + e1 + e2 by {
        assert(b.enemies[i].fighter.block <= a.enemies[i].fighter.block + e1);
        assert(c.enemies[i].fighter.block <= b.enemies[i].fighter.block + e2);
    }
    assert forall|i: int| 0 <= i < a.enemies.len() implies #[trigger] c.enemies[i].fighter.hp
        <= a.enemies[i].fighter.hp by {
        assert(b.enemies[i].fighter.hp <= a.enemies[i].fighter.hp);
        assert(c.enemies[i].fighter.hp <= b.enemies[i].fighter.hp);
    }
}

/// Replacing one fighter by a well-formed one that has no more hit points keeps the frame.
pub proof fn lemma_set_fighter_frame(m: CombatModel, actor: Actor, f: FighterState, p: int, e: int)
    requires
        m.wf(),
        m.valid_actor(actor),
        fighter_wf(f),
        actor is Player ==> f.block <= m.player.fighter.block + p,
        actor is Enemy ==> f.block <= m.fighter(actor).block + e && f.hp <= m.fighter(actor).hp,
        p >= 0,
        e >= 0,
    ensures
        step_frame(m, m.set_fighter(actor, f), p, e),
{
    let n = m.set_fighter(actor, f);
    match actor {
        Actor::Player => {
            assert forall|i: int| 0 <= i < m.enemies.len() implies #[trigger] n.enemies[i].fighter.block
                <= m.enemies[i].fighter.block + e by {}
        },
        Actor::Enemy(k) => {
            assert forall|i: int| 0 <= i < n.enemies.len() implies fighter_wf(#[trigger] n.enemies[i].fighter) by {
                if i != k {
                    assert(n.enemies[i] == m.enemies[i]);
                }
            }
            assert forall|i: int| 0 <= i < n.enemies.len() implies (#[trigger] n.enemies[i]).intent_index < 3 by {
                if i != k {
                    assert(n.enemies[i] == m.enemies[i]);
                }
            }
            assert forall|i: int| 0 <= i < m.enemies.len() implies #[trigger] n.enemies[i].fighter.block
                <= m.enemies[i].fighter.block + e by {
                if i != k {
                    assert(n.enemies[i] == m.enemies[i]);
                }
            }
            assert forall|i: int| 0 <= i < m.enemies.len() implies #[trigger] n.enemies[i].fighter.hp
                <= m.enemies[i].fighter.hp by {
                if i != k {
                    assert(n.enemies[i] == m.enemies[i]);
                }
            }
        },
    }
}

/// Every enemy is down.
pub open spec fn all_enemies_down(enemies: Seq<EnemyState>) -> bool {
    forall|i: int| 0 <= i < enemies.len() ==> #[trigger] enemies[i].fighter.hp <= 0
}

/// The outcome check: every fallen enemy is flagged as announced; the combat is lost when the
/// player is down, won when every enemy is, and otherwise goes on.
pub open spec fn spec_check_outcome(m: CombatModel) -> CombatModel {
    CombatModel {
        announced: Seq::new(m.announced.len(), |i: int| m.announced[i] || m.enemies[i].fighter.hp <= 0),
        phase: if m.player.fighter.hp <= 0 {
            TurnPhase::Ended(CombatOutcome::Defeat)
        } else if all_enemies_down(m.enemies) {
            TurnPhase::Ended(CombatOutcome::Victory)
        } else {
            m.phase
        },
        ..m
    }
}

/// A fighter whose block is gone.
pub open spec fn cleared_block(f: FighterState) -> FighterState {
    if f.block > 0 { FighterState { block: 0, ..f } } else { f }
}

/// The energy a player turn starts with: the maximum scaled by Momentum, at least 1, kept to
/// its low byte.
pub open spec fn spec_turn_energy(max_energy: u8, momentum: i8) -> u8 {
    let scaled = spec_scale_axis_value(max_energy as i32, momentum);
    (if scaled < 1 { 1 } else { scaled }) as u8
}

/// The start of the player's turn: block cleared, turn counted, energy refilled.
pub open spec fn spec_start_player_turn(m: CombatModel) -> CombatModel {
    CombatModel {
        player: PlayerState {
            fighter: cleared_block(m.player.fighter),
            energy: spec_turn_energy(m.player.max_energy, m.player.fighter.statuses.momentum),
            ..m.player
        },
        turn: (m.turn + 1) as u32,
        phase: TurnPhase::PlayerTurn,
        ..m
    }
}

/// The start of the enemies' turn: every enemy's block cleared.
pub open spec fn spec_start_enemy_turn(m: CombatModel) -> CombatModel {
    CombatModel {
        enemies: Seq::new(m.enemies.len(), |i: int| EnemyState { fighter: cleared_block(m.enemies[i].fighter), ..m.enemies[i] }),
        phase: TurnPhase::EnemyTurn,
        ..m
    }
}

/// Bounds every intent of the content tables keeps.
pub open spec fn intent_in_bounds(intent: EnemyIntent) -> bool {
    &&& 0 <= intent.damage <= 20
    &&& intent.hits <= 3
    &&& 0 <= intent.gain_block <= 20
    &&& intent.gain_strength <= 3
    &&& intent.prime_bleed <= 3
    &&& intent.apply_expose <= 3
    &&& intent.apply_weak <= 3
    &&& intent.apply_frail <= 3
    &&& intent.apply_bleed <= 3
}

pub proof fn lemma_enemy_intent_bounds(profile: EnemyProfileId, index: usize)
    ensures
        intent_in_bounds(spec_enemy_intent(profile, index)),
{
    let slot = index % 3;
    assert(slot == 0 || slot == 1 || slot == 2);
}

/// The player after an enemy hit: the hit's damage, then any primed Bleed.
pub open spec fn spec_enemy_attack(m: CombatModel, enemy_index: int, amount: i32) -> CombatModel {
    let hit = m.set_fighter(
        Actor::Player,
        spec_after_damage(m.player.fighter, spec_scale_damage_amount(amount, m.enemies[enemy_index].fighter.statuses)),
    );
    let bleed = m.enemies[enemy_index].on_hit_bleed;
    if bleed > 0 {
        CombatModel {
            enemies: hit.enemies.update(enemy_index, EnemyState { on_hit_bleed: 0, ..hit.enemies[enemy_index] }),
            player: PlayerState {
                fighter: FighterState {
                    statuses: spec_status_after(hit.player.fighter.statuses, StatusKind::Bleed, bleed as i8),
                    ..hit.player.fighter
                },
                ..hit.player
            },
            ..hit
        }
    } else {
        hit
    }
}

/// The defeats of enemies among the first `n` slots that are down and not yet announced, in
/// slot order.
pub open spec fn defeat_announcements(m: CombatModel, n: nat) -> Seq<CombatEvent>
    decreases n,
{
    if n == 0 {
        Seq::empty()
    } else {
        let i = (n - 1) as int;
        defeat_announcements(m, (n - 1) as nat) + if m.enemies[i].fighter.hp <= 0 && !m.announced[i] {
            seq![CombatEvent::ActorDefeated { actor: Actor::Enemy(i as usize) }]
        } else {
            Seq::<CombatEvent>::empty()
        }
    }
}

/// What an outcome check reports: each fallen enemy not announced before, in slot order; then
/// the player's defeat and the lost combat, or else the won combat once every enemy is down.
pub open spec fn spec_check_outcome_events(m: CombatModel) -> Seq<CombatEvent> {
    defeat_announcements(m, m.enemies.len()) + if m.player.fighter.hp <= 0 {
        seq![CombatEvent::ActorDefeated { actor: Actor::Player }, CombatEvent::CombatLost]
    } else if all_enemies_down(m.enemies) {
        seq![CombatEvent::CombatWon]
    } else {
        Seq::<CombatEvent>::empty()
    }
}

impl CombatState {
    /// Whether every enemy is down.
    pub fn all_enemies_defeated(&self) -> (down: bool)
        ensures
            down == all_enemies_down(self@.enemies),
    {
        let mut i: usize = 0;
        while i < self.enemies.len()
            invariant
                i <= self.enemies.len(),
                forall|k: int| 0 <= k < i ==> #[trigger] self@.enemies[k].fighter.hp <= 0,
            decreases self.enemies.len() - i,
        {
            if self.enemies[i].fighter.hp > 0 {
                return false;
            }
            i = i + 1;
        }
        true
    }

    /// Announces fallen enemies and ends the combat when a side is down.
    pub fn check_outcome(&mut self, events: &mut Vec<CombatEvent>)
        requires
            old(self)@.wf(),
        ensures
            final(self)@ == spec_check_outcome(old(self)@),
            final(events)@ == old(events)@ + spec_check_outcome_events(old(self)@),
            final(self)@.wf(),
            appends(final(events)@, old(events)@),
            spec_check_outcome(old(self)@) == old(self)@ && !(old(self).phase is Ended) ==> final(events)@ == old(events)@,
    {
        let count = self.enemies.len();
        let mut i: usize = 0;
        proof {
            assert(events@.subrange(0, old(events)@.len() as int) =~= old(events)@);
        }
        while i < count
            invariant
                i <= count,
                count == old(self)@.enemies.len(),
                self@ == (CombatModel { announced: self@.announced, ..old(self)@ }),
                self@.announced.len() == count,
                old(self)@.announced.len() == count,
                forall|k: int|
                    0 <= k < count ==> #[trigger] self@.announced[k] == (if k < i {
                        old(self)@.announced[k] || old(self)@.enemies[k].fighter.hp <= 0
                    } else {
                        old(self)@.announced[k]
                    }),
                appends(events@, old(events)@),
                spec_check_outcome(old(self)@) == old(self)@ ==> events@ == old(events)@,
                events@ == old(events)@ + defeat_announcements(old(self)@, i as nat),
            decreases count - i,
        {
            proof {
                assert(defeat_announcements(old(self)@, (i + 1) as nat) == defeat_announcements(old(self)@, i as nat) + if old(self)@.enemies[i as int].fighter.hp <= 0
                    && !old(self)@.announced[i as int] {
                    seq![CombatEvent::ActorDefeated { actor: Actor::Enemy(i) }]
                } else {
                    Seq::<CombatEvent>::empty()
                });
            }
            let is_dead = self.enemies[i].fighter.hp <= 0;
            let already = self.announced_enemy_defeats[i];
            if is_dead && !already {
                proof {
                    if spec_check_outcome(old(self)@) == old(self)@ {
                        assert(self@.enemies[i as int] == old(self)@.enemies[i as int]);
                        assert(old(self)@.enemies[i as int].fighter.hp <= 0);
                        assert(self@.announced[i as int] == old(self)@.announced[i as int]);
                        assert(spec_check_outcome(old(self)@).announced[i as int] == (old(self)@.announced[i as int]
                            || old(self)@.enemies[i as int].fighter.hp <= 0));
                        assert(false);
                    }
                }
                self.announced_enemy_defeats.set(i, true);
                let ghost before = events@;
                events.push(CombatEvent::ActorDefeated { actor: Actor::Enemy(i) });
                proof {
                    assert(events@.subrange(0, before.len() as int) =~= before);
                    lemma_appends_trans(old(events)@, before, events@);
                }
            }
            proof {
                assert(events@ =~= old(events)@ + defeat_announcements(old(self)@, (i + 1) as nat));
            }
            i = i + 1;
        }
        proof {
            assert(self@.announced =~= spec_check_outcome(old(self)@).announced);
        }
        let ghost announced = events@;
        if self.player.fighter.hp <= 0 {
            self.phase = TurnPhase::Ended(CombatOutcome::Defeat);
            let ghost before = events@;
            events.push(CombatEvent::ActorDefeated { actor: Actor::Player });
            events.push(CombatEvent::CombatLost);
            proof {
                assert(events@.subrange(0, before.len() as int) =~= before);
                lemma_appends_trans(old(events)@, before, events@);
                assert(events@ =~= old(events)@ + spec_check_outcome_events(old(self)@));
            }
            return;
        }
        if self.all_enemies_defeated() {
            self.phase = TurnPhase::Ended(CombatOutcome::Victory);
            let ghost before = events@;
            events.push(CombatEvent::CombatWon);
            proof {
                assert(events@.subrange(0, before.len() as int) =~= before);
                lemma_appends_trans(old(events)@, before, events@);
                assert(events@ =~= old(events)@ + spec_check_outcome_events(old(self)@));
            }
        } else {
            proof {
                assert(events@ =~= old(events)@ + spec_check_outcome_events(old(self)@));
            }
        }
    }

    /// Starts a turn. A player turn clears the player's block, counts the turn, refills energy
    /// and asks for a five-card draw (the returned count); an enemy turn clears every enemy's
    /// block.
    pub fn start_turn(&mut self, actor: Actor, events: &mut Vec<CombatEvent>) -> (draws: u8)
        requires
            old(self)@.wf(),
            actor is Player ==> old(self).turn < u32::MAX,
        ensures
            final(self)@ == (match actor {
                Actor::Player => spec_start_player_turn(old(self)@),
                Actor::Enemy(_) => spec_start_enemy_turn(old(self)@),
            }),
            final(self)@.wf(),
            draws == (if actor is Player { 5u8 } else { 0u8 }),
            actor is Player ==> final(events)@ == old(events)@ + spec_clear_block_events(actor, old(self).player.fighter.block)
                + seq![CombatEvent::TurnStarted { actor, turn: (old(self).turn + 1) as u32 }],
            appends(final(events)@, old(events)@),
    {
        match actor {
            Actor::Player => {
                self.clear_block(actor, events);
                self.turn = self.turn + 1;
                self.phase = TurnPhase::PlayerTurn;
                let scaled = scale_axis_value(self.player.max_energy as i32, self.player.fighter.statuses.momentum);
                let at_least_one = if scaled < 1 { 1 } else { scaled };
                #[verifier::truncate]
                let energy = at_least_one as u8;
                self.player.energy = energy;
                let ghost before = events@;
                events.push(CombatEvent::TurnStarted { actor, turn: self.turn });
                proof {
                    assert(events@.subrange(0, before.len() as int) =~= before);
                    lemma_appends_trans(old(events)@, before, events@);
                    assert(self@ =~= spec_start_player_turn(old(self)@));
                    assert(events@ =~= old(events)@ + spec_clear_block_events(actor, old(self).player.fighter.block)
                        + seq![CombatEvent::TurnStarted { actor, turn: self.turn }]);
                }
                5
            },
            Actor::Enemy(_) => {
                let count = self.enemies.len();
                let mut i: usize = 0;
                proof {
                    assert(events@.subrange(0, old(events)@.len() as int) =~= old(events)@);
                }
                while i < count
                    invariant
                        i <= count,
                        count == old(self)@.enemies.len(),
                        self@ == (CombatModel { enemies: self@.enemies, ..old(self)@ }),
                        self@.enemies.len() == count,
                        forall|k: int|
                            0 <= k < count ==> #[trigger] self@.enemies[k] == (if k < i {
                                EnemyState { fighter: cleared_block(old(self)@.enemies[k].fighter), ..old(self)@.enemies[k] }
                            } else {
                                old(self)@.enemies[k]
                            }),
                        appends(events@, old(events)@),
                    decreases count - i,
                {
                    let ghost before = events@;
                    self.clear_block(Actor::Enemy(i), events);
                    proof {
                        lemma_appends_trans(old(events)@, before, events@);
                    }
                    i = i + 1;
                }
                self.phase = TurnPhase::EnemyTurn;
                let ghost before = events@;
                events.push(CombatEvent::TurnStarted { actor: Actor::Enemy(0), turn: self.turn });
                proof {
                    assert(events@.subrange(0, before.len() as int) =~= before);
                    lemma_appends_trans(old(events)@, before, events@);
                    assert(self@.enemies =~= spec_start_enemy_turn(old(self)@).enemies);
                    assert(self@ =~= spec_start_enemy_turn(old(self)@));
                }
                0
            },
        }
    }

    /// One enemy hit on the player; a primed Bleed rides along on the first hit and is spent.
    pub fn enemy_attack(&mut self, enemy_index: usize, amount: i32, events: &mut Vec<CombatEvent>)
        requires
            old(self)@.wf(),
            enemy_index < old(self).enemies.len(),
            -AMOUNT_LIMIT <= amount <= AMOUNT_LIMIT,
        ensures
            final(self)@ == spec_enemy_attack(old(self)@, enemy_index as int, amount),
            step_frame(old(self)@, final(self)@, 0, 0),
            final(self)@.deck == old(self)@.deck,
            final(self)@.rng == old(self)@.rng,
            final(self).player.energy == old(self).player.energy,
            forall|j: int| 0 <= j < old(self).enemies.len() && j != enemy_index ==> #[trigger] final(self)@.enemies[j] == old(self)@.enemies[j],
            final(self)@.enemies[enemy_index as int] == (EnemyState { on_hit_bleed: final(self)@.enemies[enemy_index as int].on_hit_bleed, ..old(self)@.enemies[enemy_index as int] }),
            appends(final(events)@, old(events)@),
            advances_only(final(events)@, old(events)@.len() as int, None),
    {
        self.damage(Actor::Enemy(enemy_index), Actor::Player, amount, events);
        proof {
            lemma_set_fighter_frame(old(self)@, Actor::Player, self@.player.fighter, 0, 0);
        }
        let bleed = self.enemies[enemy_index].on_hit_bleed;
        if bleed > 0 {
            let ghost mid = self@;
            let ghost mid_events = events@;
            let mut enemy = self.enemies[enemy_index];
            enemy.on_hit_bleed = 0;
            self.enemies.set(enemy_index, enemy);
            #[verifier::truncate]
            let stacks = bleed as i8;
            self.apply_status(Actor::Player, StatusKind::Bleed, stacks, events);
            proof {
                assert(events@.subrange(0, mid_events.len() as int) =~= mid_events);
                lemma_appends_trans(old(events)@, mid_events, events@);
                lemma_advances_extend(mid_events, events@, old(events)@.len() as int, None);
                assert(self@.enemies =~= spec_enemy_attack(old(self)@, enemy_index as int, amount).enemies);
                assert(self@ =~= spec_enemy_attack(old(self)@, enemy_index as int, amount));
                assert forall|i: int| 0 <= i < self@.enemies.len() implies fighter_wf(#[trigger] self@.enemies[i].fighter) by {
                    assert(self@.enemies[i].fighter == mid.enemies[i].fighter);
                }
                assert forall|i: int| 0 <= i < self@.enemies.len() implies (#[trigger] self@.enemies[i]).intent_index < 3 by {
                    assert(self@.enemies[i].intent_index == mid.enemies[i].intent_index);
                }
                assert forall|i: int| 0 <= i < old(self)@.enemies.len() implies #[trigger] self@.enemies[i].fighter.block
                    <= old(self)@.enemies[i].fighter.block + 0 by {
                    assert(self@.enemies[i].fighter == mid.enemies[i].fighter);
                }
                assert forall|i: int| 0 <= i < old(self)@.enemies.len() implies #[trigger] self@.enemies[i].fighter.hp
                    <= old(self)@.enemies[i].fighter.hp by {
                    assert(self@.enemies[i].fighter == mid.enemies[i].fighter);
                }
            }
        }
    }
}

} // verus!
