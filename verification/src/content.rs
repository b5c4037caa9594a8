//! Game content: cards, modules, enemies, events, and the seeded reward and
//! shop rolls built from them.
use vstd::prelude::*;

use crate::text::{decimal_text, push_decimal, push_signed_decimal, push_str_chars, signed_decimal_text, str_eq, string_from_chars};

verus! {

/// Who a card is aimed at when played.
#[derive(Clone, Copy, Debug, PartialEq, Eq, Structural)]
pub enum CardTarget {
    Enemy,
    SelfOnly,
    AllEnemies,
}

/// The three signed combat axes.
#[derive(Clone, Copy, Debug, PartialEq, Eq, Structural)]
pub enum AxisKind {
    Focus,
    Rhythm,
    Momentum,
}

/// A card that can only be played while the player's axis is strictly above `threshold`.
#[derive(Clone, Copy, Debug, PartialEq, Eq, Structural)]
pub struct CardRequirement {
    pub axis: AxisKind,
    pub threshold: i8,
}

#[derive(Clone, Copy, Debug, PartialEq, Eq)]
pub struct CardDef {
    pub id: CardId,
    pub name: &'static str,
    pub cost: u8,
    pub target: CardTarget,
    pub description: &'static str,
}

#[derive(Clone, Copy, Debug, PartialEq, Eq, Structural)]
pub enum RewardTier {
    Combat,
    Elite,
    Boss,
}

#[derive(Clone, Copy, Debug, PartialEq, Eq, Structural)]
pub struct ShopOffer {
    pub card: CardId,
    pub price: u32,
}

#[derive(Clone, Copy, Debug, PartialEq, Eq, Structural)]
pub enum EventId {
    SalvageCache,
    RelayTerminal,
    ClinicPod,
    ExchangeConsole,
    PrototypeRack,
    CoolingVault,
}

#[derive(Clone, Copy, Debug, PartialEq, Eq)]
pub struct EventDef {
    pub id: EventId,
    pub title: &'static str,
    pub flavor: &'static str,
}

#[derive(Clone, Copy, Debug, PartialEq, Eq, Structural)]
pub enum EventChoiceEffect {
    GainCredits(u32),
    LoseHpGainCredits { lose_hp: i32, gain_credits: u32 },
    Heal(i32),
    LoseHpGainMaxHp { lose_hp: i32, gain_max_hp: i32 },
    AddCard(CardId),
    LoseHpAddCard { lose_hp: i32, card: CardId },
}

#[derive(Clone, Copy, Debug, PartialEq, Eq, Structural)]
pub enum ModuleId {
    AegisDrive,
    TargetingRelay,
    Nanoforge,
    CapacitorBank,
    PrismScope,
    SalvageLedger,
    OverclockCore,
    SuppressionField,
    RecoveryMatrix,
}

#[derive(Clone, Copy, Debug, PartialEq, Eq)]
pub struct ModuleDef {
    pub id: ModuleId,
    pub name: &'static str,
    pub description: &'static str,
}

#[derive(Clone, Copy, Debug, PartialEq, Eq, Structural)]
pub enum EnemyProfileId {
    ScoutDrone,
    NeedlerDrone,
    RampartDrone,
    SpineSentry,
    PentaCore,
    VoltMantis,
    ShardWeaver,
    PrismArray,
    GlassBishop,
    HexarchCore,
    NullRaider,
    RiftStalker,
    SiegeSpider,
    RiftBastion,
    HeptarchCore,
}

/// One step of an enemy's three-step rotation.
///
/// Strength raises the enemy's own Focus; Weak, Frail and Vulnerable lower the
/// target's Focus, Rhythm and Momentum respectively.
#[derive(Clone, Copy, Debug, PartialEq, Eq)]
pub struct EnemyIntent {
    pub name: &'static str,
    pub summary: &'static str,
    pub damage: i32,
    pub hits: u8,
    pub gain_block: i32,
    pub gain_strength: u8,
    pub prime_bleed: u8,
    pub apply_expose: u8,
    pub apply_weak: u8,
    pub apply_frail: u8,
    pub apply_bleed: u8,
}

/// A status stack count read as a signed axis amount (saturating at `i8::MAX`).
pub open spec fn stack_as_axis(n: u8) -> i8 {
    if n > 127 { 127i8 } else { n as i8 }
}

pub fn stack_to_axis(n: u8) -> (amount: i8)
    ensures
        amount == stack_as_axis(n),
        0 <= amount,
{
    if n > 127 { 127 } else { n as i8 }
}

impl EnemyIntent {
    /// Focus the enemy grants itself.
    pub open spec fn spec_self_focus(self) -> i8 {
        stack_as_axis(self.gain_strength)
    }

    /// Focus change the intent inflicts on its target.
    pub open spec fn spec_target_focus(self) -> i8 {
        (0 - stack_as_axis(self.apply_weak)) as i8
    }

    /// Rhythm change the intent inflicts on its target.
    pub open spec fn spec_target_rhythm(self) -> i8 {
        (0 - stack_as_axis(self.apply_frail)) as i8
    }

    /// Momentum change the intent inflicts on its target.
    pub open spec fn spec_target_momentum(self) -> i8 {
        (0 - stack_as_axis(self.apply_expose)) as i8
    }

    /// Rhythm the enemy grants itself (no current intent does).
    pub open spec fn spec_self_rhythm(self) -> i8 {
        0
    }

    /// Momentum the enemy grants itself (no current intent does).
    pub open spec fn spec_self_momentum(self) -> i8 {
        0
    }

    pub fn self_rhythm(&self) -> (amount: i8)
        ensures
            amount == self.spec_self_rhythm(),
    {
        0
    }

    pub fn self_momentum(&self) -> (amount: i8)
        ensures
            amount == self.spec_self_momentum(),
    {
        0
    }

    pub fn self_focus(&self) -> (amount: i8)
        ensures
            amount == self.spec_self_focus(),
    {
        stack_to_axis(self.gain_strength)
    }

    pub fn target_focus(&self) -> (amount: i8)
        ensures
            amount == self.spec_target_focus(),
    {
        0 - stack_to_axis(self.apply_weak)
    }

    pub fn target_rhythm(&self) -> (amount: i8)
        ensures
            amount == self.spec_target_rhythm(),
    {
        0 - stack_to_axis(self.apply_frail)
    }

    pub fn target_momentum(&self) -> (amount: i8)
        ensures
            amount == self.spec_target_momentum(),
    {
        0 - stack_to_axis(self.apply_expose)
    }
}

#[derive(Clone, Copy, Debug, PartialEq, Eq, Structural)]
pub enum Language {
    English,
    Spanish,
}

impl Language {
    /// Language for a host-provided code: 1 is Spanish, anything else English.
    pub fn from_code(code: u32) -> (language: Self)
        ensures
            language == (if code == 1 { Language::Spanish } else { Language::English }),
    {
        match code {
            1 => Language::Spanish,
            _ => Language::English,
        }
    }

    /// Host code of the language (English 0, Spanish 1).
    pub fn code(self) -> (code: u32)
        ensures
            code == (match self { Language::English => 0u32, Language::Spanish => 1u32 }),
    {
        match self {
            Language::English => 0,
            Language::Spanish => 1,
        }
    }
}

impl Default for Language {
    fn default() -> (language: Self)
        ensures
            language == Language::English,
    {
        Language::English
    }
}

/// The text for the given language.
pub open spec fn spec_localized_text<'a>(language: Language, english: &'a str, spanish: &'a str) -> &'a str {
    match language {
        Language::English => english,
        Language::Spanish => spanish,
    }
}

/// Picks the text for the given language.
pub fn localized_text<'a>(language: Language, english: &'a str, spanish: &'a str) -> (text: &'a str)
    ensures
        text == spec_localized_text(language, english, spanish),
{
    match language {
        Language::English => english,
        Language::Spanish => spanish,
    }
}

/// The axis requirement a card has, if any.
pub open spec fn spec_card_requirement(card: CardId) -> Option<CardRequirement> {
    match card {
        CardId::PulseConverter | CardId::PulseConverterPlus => Some(
            CardRequirement { axis: AxisKind::Rhythm, threshold: 1 },
        ),
        _ => None,
    }
}

/// The axis requirement a card has, if any.
pub fn card_requirement(card: CardId) -> (requirement: Option<CardRequirement>)
    ensures
        requirement == spec_card_requirement(card),
{
    match card {
        CardId::PulseConverter | CardId::PulseConverterPlus => Some(
            CardRequirement { axis: AxisKind::Rhythm, threshold: 1 },
        ),
        _ => None,
    }
}

/// Every card that can appear in a deck, in catalogue order.
#[derive(Clone, Copy, Debug, PartialEq, Eq, Structural)]
pub enum CardId {
    FlareSlash,
    FlareSlashPlus,
    GuardStep,
    GuardStepPlus,
    Slipstream,
    SlipstreamPlus,
    QuickStrike,
    QuickStrikePlus,
    PinpointJab,
    PinpointJabPlus,
    SignalTap,
    SignalTapPlus,
    Reinforce,
    ReinforcePlus,
    PressurePoint,
    PressurePointPlus,
    BurstArray,
    BurstArrayPlus,
    CoverPulse,
    CoverPulsePlus,
    SunderingArc,
    SunderingArcPlus,
    TwinStrike,
    TwinStrikePlus,
    BarrierField,
    BarrierFieldPlus,
    TacticalBurst,
    TacticalBurstPlus,
    RazorNet,
    RazorNetPlus,
    FracturePulse,
    FracturePulsePlus,
    VectorLock,
    VectorLockPlus,
    BreachSignal,
    BreachSignalPlus,
    AnchorLoop,
    AnchorLoopPlus,
    ExecutionBeam,
    ExecutionBeamPlus,
    ChainBarrage,
    ChainBarragePlus,
    FortressMatrix,
    FortressMatrixPlus,
    OverwatchGrid,
    OverwatchGridPlus,
    RiftDart,
    RiftDartPlus,
    MarkPulse,
    MarkPulsePlus,
    BraceCircuit,
    BraceCircuitPlus,
    FaultShot,
    FaultShotPlus,
    SeverArc,
    SeverArcPlus,
    Lockbreaker,
    LockbreakerPlus,
    CounterLattice,
    CounterLatticePlus,
    TerminalLoop,
    TerminalLoopPlus,
    ZeroPoint,
    ZeroPointPlus,
    ArcSpark,
    ArcSparkPlus,
    CapacitiveShell,
    CapacitiveShellPlus,
    PrimeRoutine,
    PrimeRoutinePlus,
    Stockpile,
    StockpilePlus,
    PulseConverter,
    PulseConverterPlus,
    ReservoirGuard,
    ReservoirGuardPlus,
    VoltaicDrive,
    VoltaicDrivePlus,
    StormVault,
    StormVaultPlus,
    SparkSmith,
    SparkSmithPlus,
    PatchBay,
    PatchBayPlus,
    TracerWeave,
    TracerWeavePlus,
    NeedleNest,
    NeedleNestPlus,
    AssemblyLine,
    AssemblyLinePlus,
    ToolCache,
    ToolCachePlus,
    ImprovisedArsenal,
    ImprovisedArsenalPlus,
    ForgeStorm,
    ForgeStormPlus,
    SweepPulse,
    SweepPulsePlus,
    DimmingWave,
    DimmingWavePlus,
    ShrapnelVeil,
    ShrapnelVeilPlus,
    ScouringWind,
    ScouringWindPlus,
    CollapsePattern,
    CollapsePatternPlus,
    Linebreaker,
    LinebreakerPlus,
    NovaCollapse,
    NovaCollapsePlus,
    SuppressionNet,
    SuppressionNetPlus,
    RazorRush,
    RazorRushPlus,
    HardReset,
    HardResetPlus,
    EmergencyPlating,
    EmergencyPlatingPlus,
    Cauterize,
    CauterizePlus,
    EmberBurst,
    EmberBurstPlus,
    AshenVector,
    AshenVectorPlus,
    PurgeArray,
    PurgeArrayPlus,
    LastProtocol,
    LastProtocolPlus,
    Spark,
    Patch,
    Tracer,
    Needler,
}

/// The card's static definition (its English name and text, cost and targeting).
pub open spec fn spec_card_def(id: CardId) -> CardDef {
    match id {
        CardId::FlareSlash => CardDef { id, name: "Strike", cost: 1, target: CardTarget::Enemy, description: "Deal 6 damage." },
        CardId::FlareSlashPlus => CardDef { id, name: "Strike+", cost: 1, target: CardTarget::Enemy, description: "Deal 9 damage." },
        CardId::GuardStep => CardDef { id, name: "Defend", cost: 1, target: CardTarget::SelfOnly, description: "Gain 5 Shield." },
        CardId::GuardStepPlus => CardDef { id, name: "Defend+", cost: 1, target: CardTarget::SelfOnly, description: "Gain 8 Shield." },
        CardId::Slipstream => CardDef { id, name: "Reposition", cost: 0, target: CardTarget::SelfOnly, description: "Draw 1. Gain 2 Shield." },
        CardId::SlipstreamPlus => CardDef { id, name: "Reposition+", cost: 0, target: CardTarget::SelfOnly, description: "Draw 1. Gain 4 Shield." },
        CardId::QuickStrike => CardDef { id, name: "Quick Strike", cost: 1, target: CardTarget::Enemy, description: "Deal 5 damage. Draw 1." },
        CardId::QuickStrikePlus => CardDef { id, name: "Quick Strike+", cost: 1, target: CardTarget::Enemy, description: "Deal 7 damage. Draw 1." },
        CardId::PinpointJab => CardDef { id, name: "Pinpoint Jab", cost: 1, target: CardTarget::Enemy, description: "Deal 5 damage. Apply Bleed 1." },
        CardId::PinpointJabPlus => CardDef { id, name: "Pinpoint Jab+", cost: 1, target: CardTarget::Enemy, description: "Deal 7 damage. Apply Bleed 1." },
        CardId::SignalTap => CardDef { id, name: "Signal Tap", cost: 0, target: CardTarget::Enemy, description: "Apply 1 Vulnerable. Draw 1." },
        CardId::SignalTapPlus => CardDef { id, name: "Signal Tap+", cost: 0, target: CardTarget::Enemy, description: "Apply 1 Vulnerable. Draw 1. Gain 3 Shield." },
        CardId::Reinforce => CardDef { id, name: "Reinforce", cost: 1, target: CardTarget::SelfOnly, description: "Gain 8 Shield." },
        CardId::ReinforcePlus => CardDef { id, name: "Reinforce+", cost: 1, target: CardTarget::SelfOnly, description: "Gain 11 Shield." },
        CardId::PressurePoint => CardDef { id, name: "Pressure Point", cost: 1, target: CardTarget::Enemy, description: "Deal 4 damage. Apply Weak 1." },
        CardId::PressurePointPlus => CardDef { id, name: "Pressure Point+", cost: 1, target: CardTarget::Enemy, description: "Deal 6 damage. Apply Weak 2." },
        CardId::BurstArray => CardDef { id, name: "Burst Array", cost: 1, target: CardTarget::Enemy, description: "Deal 3 damage three times." },
        CardId::BurstArrayPlus => CardDef { id, name: "Burst Array+", cost: 1, target: CardTarget::Enemy, description: "Deal 4 damage three times." },
        CardId::CoverPulse => CardDef { id, name: "Cover Pulse", cost: 1, target: CardTarget::SelfOnly, description: "Gain 6 Shield. Draw 1." },
        CardId::CoverPulsePlus => CardDef { id, name: "Cover Pulse+", cost: 1, target: CardTarget::SelfOnly, description: "Gain 8 Shield. Draw 1." },
        CardId::SunderingArc => CardDef { id, name: "Precise Strike", cost: 2, target: CardTarget::Enemy, description: "Deal 12 damage. Apply 1 Vulnerable." },
        CardId::SunderingArcPlus => CardDef { id, name: "Precise Strike+", cost: 2, target: CardTarget::Enemy, description: "Deal 16 damage. Apply 1 Vulnerable." },
        CardId::TwinStrike => CardDef { id, name: "Twin Strike", cost: 1, target: CardTarget::Enemy, description: "Deal 4 damage twice." },
        CardId::TwinStrikePlus => CardDef { id, name: "Twin Strike+", cost: 1, target: CardTarget::Enemy, description: "Deal 5 damage twice." },
        CardId::BarrierField => CardDef { id, name: "Barrier Field", cost: 1, target: CardTarget::Enemy, description: "Gain 10 Shield. Apply Frail 1." },
        CardId::BarrierFieldPlus => CardDef { id, name: "Barrier Field+", cost: 1, target: CardTarget::Enemy, description: "Gain 13 Shield. Apply Frail 2." },
        CardId::TacticalBurst => CardDef { id, name: "Tactical Burst", cost: 1, target: CardTarget::SelfOnly, description: "Draw 2. Gain Strength 1." },
        CardId::TacticalBurstPlus => CardDef { id, name: "Tactical Burst+", cost: 1, target: CardTarget::SelfOnly, description: "Draw 2. Gain Strength 2." },
        CardId::RazorNet => CardDef { id, name: "Razor Net", cost: 1, target: CardTarget::Enemy, description: "Deal 4 damage twice. Apply Bleed 2." },
        CardId::RazorNetPlus => CardDef { id, name: "Razor Net+", cost: 1, target: CardTarget::Enemy, description: "Deal 5 damage twice. Apply Bleed 2." },
        CardId::FracturePulse => CardDef { id, name: "Fracture Pulse", cost: 2, target: CardTarget::Enemy, description: "Deal 9 damage. Apply Bleed 3." },
        CardId::FracturePulsePlus => CardDef { id, name: "Fracture Pulse+", cost: 2, target: CardTarget::Enemy, description: "Deal 12 damage. Apply Bleed 3." },
        CardId::VectorLock => CardDef { id, name: "Vector Lock", cost: 1, target: CardTarget::Enemy, description: "Deal 6 damage. Apply 2 Vulnerable. Gain 5 Shield." },
        CardId::VectorLockPlus => CardDef { id, name: "Vector Lock+", cost: 1, target: CardTarget::Enemy, description: "Deal 8 damage. Apply 2 Vulnerable. Gain 6 Shield." },
        CardId::BreachSignal => CardDef { id, name: "Breach Signal", cost: 1, target: CardTarget::Enemy, description: "Deal 7 damage. Draw 1. Apply 2 Vulnerable." },
        CardId::BreachSignalPlus => CardDef { id, name: "Breach Signal+", cost: 1, target: CardTarget::Enemy, description: "Deal 9 damage. Draw 1. Apply 2 Vulnerable." },
        CardId::AnchorLoop => CardDef { id, name: "Anchor Loop", cost: 2, target: CardTarget::SelfOnly, description: "Gain 14 Shield. Draw 2." },
        CardId::AnchorLoopPlus => CardDef { id, name: "Anchor Loop+", cost: 2, target: CardTarget::SelfOnly, description: "Gain 17 Shield. Draw 2." },
        CardId::ExecutionBeam => CardDef { id, name: "Execution Beam", cost: 3, target: CardTarget::Enemy, description: "Deal 20 damage." },
        CardId::ExecutionBeamPlus => CardDef { id, name: "Execution Beam+", cost: 3, target: CardTarget::Enemy, description: "Deal 26 damage." },
        CardId::ChainBarrage => CardDef { id, name: "Chain Barrage", cost: 2, target: CardTarget::Enemy, description: "Deal 8 damage twice. Apply Bleed 2." },
        CardId::ChainBarragePlus => CardDef { id, name: "Chain Barrage+", cost: 2, target: CardTarget::Enemy, description: "Deal 10 damage twice. Apply Bleed 2." },
        CardId::FortressMatrix => CardDef { id, name: "Fortress Matrix", cost: 2, target: CardTarget::SelfOnly, description: "Gain 16 Shield. Draw 1." },
        CardId::FortressMatrixPlus => CardDef { id, name: "Fortress Matrix+", cost: 2, target: CardTarget::SelfOnly, description: "Gain 20 Shield. Draw 1." },
        CardId::OverwatchGrid => CardDef { id, name: "Overwatch Grid", cost: 2, target: CardTarget::SelfOnly, description: "Gain 18 Shield. Draw 2." },
        CardId::OverwatchGridPlus => CardDef { id, name: "Overwatch Grid+", cost: 2, target: CardTarget::SelfOnly, description: "Gain 22 Shield. Draw 2." },
        CardId::RiftDart => CardDef { id, name: "Rift Dart", cost: 1, target: CardTarget::Enemy, description: "Deal 4 damage. Apply Bleed 1. If target has Vulnerable, draw 1." },
        CardId::RiftDartPlus => CardDef { id, name: "Rift Dart+", cost: 1, target: CardTarget::Enemy, description: "Deal 6 damage. Apply Bleed 1. If target has Vulnerable, draw 1." },
        CardId::MarkPulse => CardDef { id, name: "Mark Pulse", cost: 0, target: CardTarget::Enemy, description: "Apply 1 Vulnerable. If target has Bleed, gain 4 Shield." },
        CardId::MarkPulsePlus => CardDef { id, name: "Mark Pulse+", cost: 0, target: CardTarget::Enemy, description: "Apply 1 Vulnerable. If target has Bleed, gain 6 Shield." },
        CardId::BraceCircuit => CardDef { id, name: "Brace Circuit", cost: 1, target: CardTarget::SelfOnly, description: "Gain 6 Shield. If you already have Shield, draw 1." },
        CardId::BraceCircuitPlus => CardDef { id, name: "Brace Circuit+", cost: 1, target: CardTarget::SelfOnly, description: "Gain 8 Shield. If you already have Shield, draw 1." },
        CardId::FaultShot => CardDef { id, name: "Fault Shot", cost: 1, target: CardTarget::Enemy, description: "Deal 5 damage. If target has Weak or Frail, gain Strength 1." },
        CardId::FaultShotPlus => CardDef { id, name: "Fault Shot+", cost: 1, target: CardTarget::Enemy, description: "Deal 7 damage. If target has Weak or Frail, gain Strength 1." },
        CardId::SeverArc => CardDef { id, name: "Sever Arc", cost: 2, target: CardTarget::Enemy, description: "Deal 8 damage. If target has Bleed, deal 8 damage again." },
        CardId::SeverArcPlus => CardDef { id, name: "Sever Arc+", cost: 2, target: CardTarget::Enemy, description: "Deal 10 damage. If target has Bleed, deal 10 damage again." },
        CardId::Lockbreaker => CardDef { id, name: "Lockbreaker", cost: 1, target: CardTarget::Enemy, description: "Deal 6 damage. If target has Vulnerable, apply Weak 1 and gain 6 Shield." },
        CardId::LockbreakerPlus => CardDef { id, name: "Lockbreaker+", cost: 1, target: CardTarget::Enemy, description: "Deal 8 damage. If target has Vulnerable, apply Weak 1 and gain 8 Shield." },
        CardId::CounterLattice => CardDef { id, name: "Counter Lattice", cost: 1, target: CardTarget::Enemy, description: "Deal 6 damage. If target has Weak, gain 1 Energy." },
        CardId::CounterLatticePlus => CardDef { id, name: "Counter Lattice+", cost: 1, target: CardTarget::Enemy, description: "Deal 8 damage. If target has Weak, gain 1 Energy." },
        CardId::TerminalLoop => CardDef { id, name: "Terminal Loop", cost: 2, target: CardTarget::Enemy, description: "Deal 12 damage. If target has Bleed, draw 1. If target has Vulnerable, gain Strength 1." },
        CardId::TerminalLoopPlus => CardDef { id, name: "Terminal Loop+", cost: 2, target: CardTarget::Enemy, description: "Deal 15 damage. If target has Bleed, draw 1. If target has Vulnerable, gain Strength 2." },
        CardId::ZeroPoint => CardDef { id, name: "Zero Point", cost: 2, target: CardTarget::Enemy, description: "Deal 10 damage. Draw 1. Apply 2 Vulnerable." },
        CardId::ZeroPointPlus => CardDef { id, name: "Zero Point+", cost: 2, target: CardTarget::Enemy, description: "Deal 14 damage. Draw 1. Apply 2 Vulnerable." },
        CardId::ArcSpark => CardDef { id, name: "Arc Spark", cost: 1, target: CardTarget::Enemy, description: "Deal 5 damage. Gain 2 Momentum." },
        CardId::ArcSparkPlus => CardDef { id, name: "Arc Spark+", cost: 1, target: CardTarget::Enemy, description: "Deal 8 damage. Gain 3 Momentum." },
        CardId::CapacitiveShell => CardDef { id, name: "Capacitive Shell", cost: 1, target: CardTarget::SelfOnly, description: "Gain 8 Shield. Gain 2 Momentum." },
        CardId::CapacitiveShellPlus => CardDef { id, name: "Capacitive Shell+", cost: 1, target: CardTarget::SelfOnly, description: "Gain 13 Shield. Gain 3 Momentum." },
        CardId::PrimeRoutine => CardDef { id, name: "Prime Routine", cost: 1, target: CardTarget::SelfOnly, description: "Gain 2 Momentum. Draw 2." },
        CardId::PrimeRoutinePlus => CardDef { id, name: "Prime Routine+", cost: 1, target: CardTarget::SelfOnly, description: "Gain 3 Momentum. Draw 3." },
        CardId::Stockpile => CardDef { id, name: "Stockpile", cost: 1, target: CardTarget::SelfOnly, description: "Gain 3 Momentum." },
        CardId::StockpilePlus => CardDef { id, name: "Stockpile+", cost: 1, target: CardTarget::SelfOnly, description: "Gain 4 Momentum." },
        CardId::PulseConverter => CardDef { id, name: "Pulse Converter", cost: 0, target: CardTarget::Enemy, description: "Requires Rhythm above 1. Set the target's Focus to 0." },
        CardId::PulseConverterPlus => CardDef { id, name: "Pulse Converter+", cost: 0, target: CardTarget::Enemy, description: "Requires Rhythm above 1. Set the target's Focus to 0. Draw 1." },
        CardId::ReservoirGuard => CardDef { id, name: "Reservoir Guard", cost: 2, target: CardTarget::SelfOnly, description: "Gain 16 Shield. If Momentum is above 1, gain 1 Energy." },
        CardId::ReservoirGuardPlus => CardDef { id, name: "Reservoir Guard+", cost: 2, target: CardTarget::SelfOnly, description: "Gain 21 Shield. If Momentum is above 1, gain 1 Energy." },
        CardId::VoltaicDrive => CardDef { id, name: "Voltaic Drive", cost: 2, target: CardTarget::Enemy, description: "Deal 15 damage. If Momentum is above 1, draw 2." },
        CardId::VoltaicDrivePlus => CardDef { id, name: "Voltaic Drive+", cost: 2, target: CardTarget::Enemy, description: "Deal 19 damage. If Momentum is above 1, draw 2." },
        CardId::StormVault => CardDef { id, name: "Storm Vault", cost: 1, target: CardTarget::SelfOnly, description: "Set every fighter's Momentum to 0." },
        CardId::StormVaultPlus => CardDef { id, name: "Storm Vault+", cost: 1, target: CardTarget::SelfOnly, description: "Set every fighter's Momentum to 0. Draw 1." },
        CardId::SparkSmith => CardDef { id, name: "Spark Smith", cost: 1, target: CardTarget::SelfOnly, description: "Create a Spark in hand. Draw 1." },
        CardId::SparkSmithPlus => CardDef { id, name: "Spark Smith+", cost: 1, target: CardTarget::SelfOnly, description: "Create a Spark in hand. Draw 2." },
        CardId::PatchBay => CardDef { id, name: "Patch Bay", cost: 1, target: CardTarget::SelfOnly, description: "Gain 10 Shield. Create a Patch in hand." },
        CardId::PatchBayPlus => CardDef { id, name: "Patch Bay+", cost: 1, target: CardTarget::SelfOnly, description: "Gain 13 Shield. Create a Patch in hand." },
        CardId::TracerWeave => CardDef { id, name: "Tracer Weave", cost: 1, target: CardTarget::Enemy, description: "Deal 5 damage. Create a Tracer in hand." },
        CardId::TracerWeavePlus => CardDef { id, name: "Tracer Weave+", cost: 1, target: CardTarget::Enemy, description: "Deal 8 damage. Create a Tracer in hand." },
        CardId::NeedleNest => CardDef { id, name: "Needle Nest", cost: 1, target: CardTarget::Enemy, description: "Deal 4 damage. Create a Needler in hand." },
        CardId::NeedleNestPlus => CardDef { id, name: "Needle Nest+", cost: 1, target: CardTarget::Enemy, description: "Deal 7 damage. Create a Needler in hand." },
        CardId::AssemblyLine => CardDef { id, name: "Assembly Line", cost: 1, target: CardTarget::SelfOnly, description: "Create a Spark and a Patch in hand. Draw 1." },
        CardId::AssemblyLinePlus => CardDef { id, name: "Assembly Line+", cost: 1, target: CardTarget::SelfOnly, description: "Create a Spark and a Patch in hand. Draw 2." },
        CardId::ToolCache => CardDef { id, name: "Tool Cache", cost: 1, target: CardTarget::SelfOnly, description: "Create a Tracer and a Needler in hand. Draw 1." },
        CardId::ToolCachePlus => CardDef { id, name: "Tool Cache+", cost: 1, target: CardTarget::SelfOnly, description: "Create a Tracer and a Needler in hand. Draw 2." },
        CardId::ImprovisedArsenal => CardDef { id, name: "Improvised Arsenal", cost: 1, target: CardTarget::SelfOnly, description: "Shuffle a Spark, Patch, Tracer and Needler into your discard pile. Draw 1." },
        CardId::ImprovisedArsenalPlus => CardDef { id, name: "Improvised Arsenal+", cost: 1, target: CardTarget::SelfOnly, description: "Shuffle a Spark, Patch, Tracer and Needler into your discard pile. Draw 2." },
        CardId::ForgeStorm => CardDef { id, name: "Forge Storm", cost: 2, target: CardTarget::SelfOnly, description: "Create a Spark, Patch, Tracer and Needler in hand. Draw 1." },
        CardId::ForgeStormPlus => CardDef { id, name: "Forge Storm+", cost: 2, target: CardTarget::SelfOnly, description: "Create a Spark, Patch, Tracer and Needler in hand. Draw 2." },
        CardId::SweepPulse => CardDef { id, name: "Sweep Pulse", cost: 1, target: CardTarget::AllEnemies, description: "Deal 5 damage to all enemies." },
        CardId::SweepPulsePlus => CardDef { id, name: "Sweep Pulse+", cost: 1, target: CardTarget::AllEnemies, description: "Deal 8 damage to all enemies." },
        CardId::DimmingWave => CardDef { id, name: "Dimming Wave", cost: 1, target: CardTarget::AllEnemies, description: "All enemies lose 1 Focus." },
        CardId::DimmingWavePlus => CardDef { id, name: "Dimming Wave+", cost: 1, target: CardTarget::AllEnemies, description: "All enemies lose 2 Focus." },
        CardId::ShrapnelVeil => CardDef { id, name: "Shrapnel Veil", cost: 1, target: CardTarget::AllEnemies, description: "Deal 3 damage to all enemies. Gain 6 Shield." },
        CardId::ShrapnelVeilPlus => CardDef { id, name: "Shrapnel Veil+", cost: 1, target: CardTarget::AllEnemies, description: "Deal 4 damage to all enemies. Gain 10 Shield." },
        CardId::ScouringWind => CardDef { id, name: "Scouring Wind", cost: 2, target: CardTarget::AllEnemies, description: "Deal 8 damage to all enemies. Apply Bleed 1 to all enemies." },
        CardId::ScouringWindPlus => CardDef { id, name: "Scouring Wind+", cost: 2, target: CardTarget::AllEnemies, description: "Deal 11 damage to all enemies. Apply Bleed 2 to all enemies." },
        CardId::CollapsePattern => CardDef { id, name: "Collapse Pattern", cost: 1, target: CardTarget::AllEnemies, description: "All enemies lose 1 Momentum. Draw 1." },
        CardId::CollapsePatternPlus => CardDef { id, name: "Collapse Pattern+", cost: 1, target: CardTarget::AllEnemies, description: "All enemies lose 2 Momentum. Draw 1." },
        CardId::Linebreaker => CardDef { id, name: "Linebreaker", cost: 1, target: CardTarget::AllEnemies, description: "Deal 7 piercing damage to all enemies." },
        CardId::LinebreakerPlus => CardDef { id, name: "Linebreaker+", cost: 1, target: CardTarget::AllEnemies, description: "Deal 9 piercing damage to all enemies." },
        CardId::NovaCollapse => CardDef { id, name: "Nova Collapse", cost: 2, target: CardTarget::AllEnemies, description: "Deal 12 piercing damage to all enemies." },
        CardId::NovaCollapsePlus => CardDef { id, name: "Nova Collapse+", cost: 2, target: CardTarget::AllEnemies, description: "Deal 16 piercing damage to all enemies." },
        CardId::SuppressionNet => CardDef { id, name: "Suppression Net", cost: 2, target: CardTarget::AllEnemies, description: "Gain 13 Shield. All enemies lose 1 Focus and 1 Momentum." },
        CardId::SuppressionNetPlus => CardDef { id, name: "Suppression Net+", cost: 2, target: CardTarget::AllEnemies, description: "Gain 18 Shield. All enemies lose 2 Focus and 1 Momentum." },
        CardId::RazorRush => CardDef { id, name: "Razor Rush", cost: 0, target: CardTarget::Enemy, description: "Deal 9 damage." },
        CardId::RazorRushPlus => CardDef { id, name: "Razor Rush+", cost: 0, target: CardTarget::Enemy, description: "Deal 13 damage." },
        CardId::HardReset => CardDef { id, name: "Hard Reset", cost: 0, target: CardTarget::SelfOnly, description: "Draw 2." },
        CardId::HardResetPlus => CardDef { id, name: "Hard Reset+", cost: 0, target: CardTarget::SelfOnly, description: "Draw 3." },
        CardId::EmergencyPlating => CardDef { id, name: "Emergency Plating", cost: 2, target: CardTarget::SelfOnly, description: "Gain 19 Shield." },
        CardId::EmergencyPlatingPlus => CardDef { id, name: "Emergency Plating+", cost: 2, target: CardTarget::SelfOnly, description: "Gain 26 Shield." },
        CardId::Cauterize => CardDef { id, name: "Cauterize", cost: 1, target: CardTarget::Enemy, description: "Deal 7 damage. The target loses 1 Focus and 1 Rhythm." },
        CardId::CauterizePlus => CardDef { id, name: "Cauterize+", cost: 1, target: CardTarget::Enemy, description: "Deal 9 damage. The target loses 2 Focus and 1 Rhythm." },
        CardId::EmberBurst => CardDef { id, name: "Ember Burst", cost: 0, target: CardTarget::SelfOnly, description: "Gain 1 Energy. Draw 1." },
        CardId::EmberBurstPlus => CardDef { id, name: "Ember Burst+", cost: 0, target: CardTarget::SelfOnly, description: "Gain 1 Energy. Draw 2." },
        CardId::AshenVector => CardDef { id, name: "Ashen Vector", cost: 2, target: CardTarget::Enemy, description: "Deal 16 damage. Draw 1." },
        CardId::AshenVectorPlus => CardDef { id, name: "Ashen Vector+", cost: 2, target: CardTarget::Enemy, description: "Deal 20 damage. Draw 2." },
        CardId::PurgeArray => CardDef { id, name: "Purge Array", cost: 2, target: CardTarget::AllEnemies, description: "Deal 9 damage to all enemies twice." },
        CardId::PurgeArrayPlus => CardDef { id, name: "Purge Array+", cost: 2, target: CardTarget::AllEnemies, description: "Deal 12 damage to all enemies twice." },
        CardId::LastProtocol => CardDef { id, name: "Last Protocol", cost: 3, target: CardTarget::Enemy, description: "Deal 24 damage. Gain 1 Energy. Draw 1." },
        CardId::LastProtocolPlus => CardDef { id, name: "Last Protocol+", cost: 3, target: CardTarget::Enemy, description: "Deal 30 damage. Gain 1 Energy. Draw 2." },
        CardId::Spark => CardDef { id, name: "Spark", cost: 0, target: CardTarget::Enemy, description: "Deal 5 damage." },
        CardId::Patch => CardDef { id, name: "Patch", cost: 0, target: CardTarget::SelfOnly, description: "Gain 8 Shield." },
        CardId::Tracer => CardDef { id, name: "Tracer", cost: 0, target: CardTarget::Enemy, description: "The target loses 1 Rhythm." },
        CardId::Needler => CardDef { id, name: "Needler", cost: 0, target: CardTarget::Enemy, description: "Deal 3 damage. Apply Bleed 1." },
    }
}

/// Static definition of a card.
pub fn card_def(id: CardId) -> (def: CardDef)
    ensures
        def == spec_card_def(id),
{
    match id {
        CardId::FlareSlash => CardDef { id, name: "Strike", cost: 1, target: CardTarget::Enemy, description: "Deal 6 damage." },
        CardId::FlareSlashPlus => CardDef { id, name: "Strike+", cost: 1, target: CardTarget::Enemy, description: "Deal 9 damage." },
        CardId::GuardStep => CardDef { id, name: "Defend", cost: 1, target: CardTarget::SelfOnly, description: "Gain 5 Shield." },
        CardId::GuardStepPlus => CardDef { id, name: "Defend+", cost: 1, target: CardTarget::SelfOnly, description: "Gain 8 Shield." },
        CardId::Slipstream => CardDef { id, name: "Reposition", cost: 0, target: CardTarget::SelfOnly, description: "Draw 1. Gain 2 Shield." },
        CardId::SlipstreamPlus => CardDef { id, name: "Reposition+", cost: 0, target: CardTarget::SelfOnly, description: "Draw 1. Gain 4 Shield." },
        CardId::QuickStrike => CardDef { id, name: "Quick Strike", cost: 1, target: CardTarget::Enemy, description: "Deal 5 damage. Draw 1." },
        CardId::QuickStrikePlus => CardDef { id, name: "Quick Strike+", cost: 1, target: CardTarget::Enemy, description: "Deal 7 damage. Draw 1." },
        CardId::PinpointJab => CardDef { id, name: "Pinpoint Jab", cost: 1, target: CardTarget::Enemy, description: "Deal 5 damage. Apply Bleed 1." },
        CardId::PinpointJabPlus => CardDef { id, name: "Pinpoint Jab+", cost: 1, target: CardTarget::Enemy, description: "Deal 7 damage. Apply Bleed 1." },
        CardId::SignalTap => CardDef { id, name: "Signal Tap", cost: 0, target: CardTarget::Enemy, description: "Apply 1 Vulnerable. Draw 1." },
        CardId::SignalTapPlus => CardDef { id, name: "Signal Tap+", cost: 0, target: CardTarget::Enemy, description: "Apply 1 Vulnerable. Draw 1. Gain 3 Shield." },
        CardId::Reinforce => CardDef { id, name: "Reinforce", cost: 1, target: CardTarget::SelfOnly, description: "Gain 8 Shield." },
        CardId::ReinforcePlus => CardDef { id, name: "Reinforce+", cost: 1, target: CardTarget::SelfOnly, description: "Gain 11 Shield." },
        CardId::PressurePoint => CardDef { id, name: "Pressure Point", cost: 1, target: CardTarget::Enemy, description: "Deal 4 damage. Apply Weak 1." },
        CardId::PressurePointPlus => CardDef { id, name: "Pressure Point+", cost: 1, target: CardTarget::Enemy, description: "Deal 6 damage. Apply Weak 2." },
        CardId::BurstArray => CardDef { id, name: "Burst Array", cost: 1, target: CardTarget::Enemy, description: "Deal 3 damage three times." },
        CardId::BurstArrayPlus => CardDef { id, name: "Burst Array+", cost: 1, target: CardTarget::Enemy, description: "Deal 4 damage three times." },
        CardId::CoverPulse => CardDef { id, name: "Cover Pulse", cost: 1, target: CardTarget::SelfOnly, description: "Gain 6 Shield. Draw 1." },
        CardId::CoverPulsePlus => CardDef { id, name: "Cover Pulse+", cost: 1, target: CardTarget::SelfOnly, description: "Gain 8 Shield. Draw 1." },
        CardId::SunderingArc => CardDef { id, name: "Precise Strike", cost: 2, target: CardTarget::Enemy, description: "Deal 12 damage. Apply 1 Vulnerable." },
        CardId::SunderingArcPlus => CardDef { id, name: "Precise Strike+", cost: 2, target: CardTarget::Enemy, description: "Deal 16 damage. Apply 1 Vulnerable." },
        CardId::TwinStrike => CardDef { id, name: "Twin Strike", cost: 1, target: CardTarget::Enemy, description: "Deal 4 damage twice." },
        CardId::TwinStrikePlus => CardDef { id, name: "Twin Strike+", cost: 1, target: CardTarget::Enemy, description: "Deal 5 damage twice." },
        CardId::BarrierField => CardDef { id, name: "Barrier Field", cost: 1, target: CardTarget::Enemy, description: "Gain 10 Shield. Apply Frail 1." },
        CardId::BarrierFieldPlus => CardDef { id, name: "Barrier Field+", cost: 1, target: CardTarget::Enemy, description: "Gain 13 Shield. Apply Frail 2." },
        CardId::TacticalBurst => CardDef { id, name: "Tactical Burst", cost: 1, target: CardTarget::SelfOnly, description: "Draw 2. Gain Strength 1." },
        CardId::TacticalBurstPlus => CardDef { id, name: "Tactical Burst+", cost: 1, target: CardTarget::SelfOnly, description: "Draw 2. Gain Strength 2." },
        CardId::RazorNet => CardDef { id, name: "Razor Net", cost: 1, target: CardTarget::Enemy, description: "Deal 4 damage twice. Apply Bleed 2." },
        CardId::RazorNetPlus => CardDef { id, name: "Razor Net+", cost: 1, target: CardTarget::Enemy, description: "Deal 5 damage twice. Apply Bleed 2." },
        CardId::FracturePulse => CardDef { id, name: "Fracture Pulse", cost: 2, target: CardTarget::Enemy, description: "Deal 9 damage. Apply Bleed 3." },
        CardId::FracturePulsePlus => CardDef { id, name: "Fracture Pulse+", cost: 2, target: CardTarget::Enemy, description: "Deal 12 damage. Apply Bleed 3." },
        CardId::VectorLock => CardDef { id, name: "Vector Lock", cost: 1, target: CardTarget::Enemy, description: "Deal 6 damage. Apply 2 Vulnerable. Gain 5 Shield." },
        CardId::VectorLockPlus => CardDef { id, name: "Vector Lock+", cost: 1, target: CardTarget::Enemy, description: "Deal 8 damage. Apply 2 Vulnerable. Gain 6 Shield." },
        CardId::BreachSignal => CardDef { id, name: "Breach Signal", cost: 1, target: CardTarget::Enemy, description: "Deal 7 damage. Draw 1. Apply 2 Vulnerable." },
        CardId::BreachSignalPlus => CardDef { id, name: "Breach Signal+", cost: 1, target: CardTarget::Enemy, description: "Deal 9 damage. Draw 1. Apply 2 Vulnerable." },
        CardId::AnchorLoop => CardDef { id, name: "Anchor Loop", cost: 2, target: CardTarget::SelfOnly, description: "Gain 14 Shield. Draw 2." },
        CardId::AnchorLoopPlus => CardDef { id, name: "Anchor Loop+", cost: 2, target: CardTarget::SelfOnly, description: "Gain 17 Shield. Draw 2." },
        CardId::ExecutionBeam => CardDef { id, name: "Execution Beam", cost: 3, target: CardTarget::Enemy, description: "Deal 20 damage." },
        CardId::ExecutionBeamPlus => CardDef { id, name: "Execution Beam+", cost: 3, target: CardTarget::Enemy, description: "Deal 26 damage." },
        CardId::ChainBarrage => CardDef { id, name: "Chain Barrage", cost: 2, target: CardTarget::Enemy, description: "Deal 8 damage twice. Apply Bleed 2." },
        CardId::ChainBarragePlus => CardDef { id, name: "Chain Barrage+", cost: 2, target: CardTarget::Enemy, description: "Deal 10 damage twice. Apply Bleed 2." },
        CardId::FortressMatrix => CardDef { id, name: "Fortress Matrix", cost: 2, target: CardTarget::SelfOnly, description: "Gain 16 Shield. Draw 1." },
        CardId::FortressMatrixPlus => CardDef { id, name: "Fortress Matrix+", cost: 2, target: CardTarget::SelfOnly, description: "Gain 20 Shield. Draw 1." },
        CardId::OverwatchGrid => CardDef { id, name: "Overwatch Grid", cost: 2, target: CardTarget::SelfOnly, description: "Gain 18 Shield. Draw 2." },
        CardId::OverwatchGridPlus => CardDef { id, name: "Overwatch Grid+", cost: 2, target: CardTarget::SelfOnly, description: "Gain 22 Shield. Draw 2." },
        CardId::RiftDart => CardDef { id, name: "Rift Dart", cost: 1, target: CardTarget::Enemy, description: "Deal 4 damage. Apply Bleed 1. If target has Vulnerable, draw 1." },
        CardId::RiftDartPlus => CardDef { id, name: "Rift Dart+", cost: 1, target: CardTarget::Enemy, description: "Deal 6 damage. Apply Bleed 1. If target has Vulnerable, draw 1." },
        CardId::MarkPulse => CardDef { id, name: "Mark Pulse", cost: 0, target: CardTarget::Enemy, description: "Apply 1 Vulnerable. If target has Bleed, gain 4 Shield." },
        CardId::MarkPulsePlus => CardDef { id, name: "Mark Pulse+", cost: 0, target: CardTarget::Enemy, description: "Apply 1 Vulnerable. If target has Bleed, gain 6 Shield." },
        CardId::BraceCircuit => CardDef { id, name: "Brace Circuit", cost: 1, target: CardTarget::SelfOnly, description: "Gain 6 Shield. If you already have Shield, draw 1." },
        CardId::BraceCircuitPlus => CardDef { id, name: "Brace Circuit+", cost: 1, target: CardTarget::SelfOnly, description: "Gain 8 Shield. If you already have Shield, draw 1." },
        CardId::FaultShot => CardDef { id, name: "Fault Shot", cost: 1, target: CardTarget::Enemy, description: "Deal 5 damage. If target has Weak or Frail, gain Strength 1." },
        CardId::FaultShotPlus => CardDef { id, name: "Fault Shot+", cost: 1, target: CardTarget::Enemy, description: "Deal 7 damage. If target has Weak or Frail, gain Strength 1." },
        CardId::SeverArc => CardDef { id, name: "Sever Arc", cost: 2, target: CardTarget::Enemy, description: "Deal 8 damage. If target has Bleed, deal 8 damage again." },
        CardId::SeverArcPlus => CardDef { id, name: "Sever Arc+", cost: 2, target: CardTarget::Enemy, description: "Deal 10 damage. If target has Bleed, deal 10 damage again." },
        CardId::Lockbreaker => CardDef { id, name: "Lockbreaker", cost: 1, target: CardTarget::Enemy, description: "Deal 6 damage. If target has Vulnerable, apply Weak 1 and gain 6 Shield." },
        CardId::LockbreakerPlus => CardDef { id, name: "Lockbreaker+", cost: 1, target: CardTarget::Enemy, description: "Deal 8 damage. If target has Vulnerable, apply Weak 1 and gain 8 Shield." },
        CardId::CounterLattice => CardDef { id, name: "Counter Lattice", cost: 1, target: CardTarget::Enemy, description: "Deal 6 damage. If target has Weak, gain 1 Energy." },
        CardId::CounterLatticePlus => CardDef { id, name: "Counter Lattice+", cost: 1, target: CardTarget::Enemy, description: "Deal 8 damage. If target has Weak, gain 1 Energy." },
        CardId::TerminalLoop => CardDef { id, name: "Terminal Loop", cost: 2, target: CardTarget::Enemy, description: "Deal 12 damage. If target has Bleed, draw 1. If target has Vulnerable, gain Strength 1." },
        CardId::TerminalLoopPlus => CardDef { id, name: "Terminal Loop+", cost: 2, target: CardTarget::Enemy, description: "Deal 15 damage. If target has Bleed, draw 1. If target has Vulnerable, gain Strength 2." },
        CardId::ZeroPoint => CardDef { id, name: "Zero Point", cost: 2, target: CardTarget::Enemy, description: "Deal 10 damage. Draw 1. Apply 2 Vulnerable." },
        CardId::ZeroPointPlus => CardDef { id, name: "Zero Point+", cost: 2, target: CardTarget::Enemy, description: "Deal 14 damage. Draw 1. Apply 2 Vulnerable." },
        CardId::ArcSpark => CardDef { id, name: "Arc Spark", cost: 1, target: CardTarget::Enemy, description: "Deal 5 damage. Gain 2 Momentum." },
        CardId::ArcSparkPlus => CardDef { id, name: "Arc Spark+", cost: 1, target: CardTarget::Enemy, description: "Deal 8 damage. Gain 3 Momentum." },
        CardId::CapacitiveShell => CardDef { id, name: "Capacitive Shell", cost: 1, target: CardTarget::SelfOnly, description: "Gain 8 Shield. Gain 2 Momentum." },
        CardId::CapacitiveShellPlus => CardDef { id, name: "Capacitive Shell+", cost: 1, target: CardTarget::SelfOnly, description: "Gain 13 Shield. Gain 3 Momentum." },
        CardId::PrimeRoutine => CardDef { id, name: "Prime Routine", cost: 1, target: CardTarget::SelfOnly, description: "Gain 2 Momentum. Draw 2." },
        CardId::PrimeRoutinePlus => CardDef { id, name: "Prime Routine+", cost: 1, target: CardTarget::SelfOnly, description: "Gain 3 Momentum. Draw 3." },
        CardId::Stockpile => CardDef { id, name: "Stockpile", cost: 1, target: CardTarget::SelfOnly, description: "Gain 3 Momentum." },
        CardId::StockpilePlus => CardDef { id, name: "Stockpile+", cost: 1, target: CardTarget::SelfOnly, description: "Gain 4 Momentum." },
        CardId::PulseConverter => CardDef { id, name: "Pulse Converter", cost: 0, target: CardTarget::Enemy, description: "Requires Rhythm above 1. Set the target's Focus to 0." },
        CardId::PulseConverterPlus => CardDef { id, name: "Pulse Converter+", cost: 0, target: CardTarget::Enemy, description: "Requires Rhythm above 1. Set the target's Focus to 0. Draw 1." },
        CardId::ReservoirGuard => CardDef { id, name: "Reservoir Guard", cost: 2, target: CardTarget::SelfOnly, description: "Gain 16 Shield. If Momentum is above 1, gain 1 Energy." },
        CardId::ReservoirGuardPlus => CardDef { id, name: "Reservoir Guard+", cost: 2, target: CardTarget::SelfOnly, description: "Gain 21 Shield. If Momentum is above 1, gain 1 Energy." },
        CardId::VoltaicDrive => CardDef { id, name: "Voltaic Drive", cost: 2, target: CardTarget::Enemy, description: "Deal 15 damage. If Momentum is above 1, draw 2." },
        CardId::VoltaicDrivePlus => CardDef { id, name: "Voltaic Drive+", cost: 2, target: CardTarget::Enemy, description: "Deal 19 damage. If Momentum is above 1, draw 2." },
        CardId::StormVault => CardDef { id, name: "Storm Vault", cost: 1, target: CardTarget::SelfOnly, description: "Set every fighter's Momentum to 0." },
        CardId::StormVaultPlus => CardDef { id, name: "Storm Vault+", cost: 1, target: CardTarget::SelfOnly, description: "Set every fighter's Momentum to 0. Draw 1." },
        CardId::SparkSmith => CardDef { id, name: "Spark Smith", cost: 1, target: CardTarget::SelfOnly, description: "Create a Spark in hand. Draw 1." },
        CardId::SparkSmithPlus => CardDef { id, name: "Spark Smith+", cost: 1, target: CardTarget::SelfOnly, description: "Create a Spark in hand. Draw 2." },
        CardId::PatchBay => CardDef { id, name: "Patch Bay", cost: 1, target: CardTarget::SelfOnly, description: "Gain 10 Shield. Create a Patch in hand." },
        CardId::PatchBayPlus => CardDef { id, name: "Patch Bay+", cost: 1, target: CardTarget::SelfOnly, description: "Gain 13 Shield. Create a Patch in hand." },
        CardId::TracerWeave => CardDef { id, name: "Tracer Weave", cost: 1, target: CardTarget::Enemy, description: "Deal 5 damage. Create a Tracer in hand." },
        CardId::TracerWeavePlus => CardDef { id, name: "Tracer Weave+", cost: 1, target: CardTarget::Enemy, description: "Deal 8 damage. Create a Tracer in hand." },
        CardId::NeedleNest => CardDef { id, name: "Needle Nest", cost: 1, target: CardTarget::Enemy, description: "Deal 4 damage. Create a Needler in hand." },
        CardId::NeedleNestPlus => CardDef { id, name: "Needle Nest+", cost: 1, target: CardTarget::Enemy, description: "Deal 7 damage. Create a Needler in hand." },
        CardId::AssemblyLine => CardDef { id, name: "Assembly Line", cost: 1, target: CardTarget::SelfOnly, description: "Create a Spark and a Patch in hand. Draw 1." },
        CardId::AssemblyLinePlus => CardDef { id, name: "Assembly Line+", cost: 1, target: CardTarget::SelfOnly, description: "Create a Spark and a Patch in hand. Draw 2." },
        CardId::ToolCache => CardDef { id, name: "Tool Cache", cost: 1, target: CardTarget::SelfOnly, description: "Create a Tracer and a Needler in hand. Draw 1." },
        CardId::ToolCachePlus => CardDef { id, name: "Tool Cache+", cost: 1, target: CardTarget::SelfOnly, description: "Create a Tracer and a Needler in hand. Draw 2." },
        CardId::ImprovisedArsenal => CardDef { id, name: "Improvised Arsenal", cost: 1, target: CardTarget::SelfOnly, description: "Shuffle a Spark, Patch, Tracer and Needler into your discard pile. Draw 1." },
        CardId::ImprovisedArsenalPlus => CardDef { id, name: "Improvised Arsenal+", cost: 1, target: CardTarget::SelfOnly, description: "Shuffle a Spark, Patch, Tracer and Needler into your discard pile. Draw 2." },
        CardId::ForgeStorm => CardDef { id, name: "Forge Storm", cost: 2, target: CardTarget::SelfOnly, description: "Create a Spark, Patch, Tracer and Needler in hand. Draw 1." },
        CardId::ForgeStormPlus => CardDef { id, name: "Forge Storm+", cost: 2, target: CardTarget::SelfOnly, description: "Create a Spark, Patch, Tracer and Needler in hand. Draw 2." },
        CardId::SweepPulse => CardDef { id, name: "Sweep Pulse", cost: 1, target: CardTarget::AllEnemies, description: "Deal 5 damage to all enemies." },
        CardId::SweepPulsePlus => CardDef { id, name: "Sweep Pulse+", cost: 1, target: CardTarget::AllEnemies, description: "Deal 8 damage to all enemies." },
        CardId::DimmingWave => CardDef { id, name: "Dimming Wave", cost: 1, target: CardTarget::AllEnemies, description: "All enemies lose 1 Focus." },
        CardId::DimmingWavePlus => CardDef { id, name: "Dimming Wave+", cost: 1, target: CardTarget::AllEnemies, description: "All enemies lose 2 Focus." },
        CardId::ShrapnelVeil => CardDef { id, name: "Shrapnel Veil", cost: 1, target: CardTarget::AllEnemies, description: "Deal 3 damage to all enemies. Gain 6 Shield." },
        CardId::ShrapnelVeilPlus => CardDef { id, name: "Shrapnel Veil+", cost: 1, target: CardTarget::AllEnemies, description: "Deal 4 damage to all enemies. Gain 10 Shield." },
        CardId::ScouringWind => CardDef { id, name: "Scouring Wind", cost: 2, target: CardTarget::AllEnemies, description: "Deal 8 damage to all enemies. Apply Bleed 1 to all enemies." },
        CardId::ScouringWindPlus => CardDef { id, name: "Scouring Wind+", cost: 2, target: CardTarget::AllEnemies, description: "Deal 11 damage to all enemies. Apply Bleed 2 to all enemies." },
        CardId::CollapsePattern => CardDef { id, name: "Collapse Pattern", cost: 1, target: CardTarget::AllEnemies, description: "All enemies lose 1 Momentum. Draw 1." },
        CardId::CollapsePatternPlus => CardDef { id, name: "Collapse Pattern+", cost: 1, target: CardTarget::AllEnemies, description: "All enemies lose 2 Momentum. Draw 1." },
        CardId::Linebreaker => CardDef { id, name: "Linebreaker", cost: 1, target: CardTarget::AllEnemies, description: "Deal 7 piercing damage to all enemies." },
        CardId::LinebreakerPlus => CardDef { id, name: "Linebreaker+", cost: 1, target: CardTarget::AllEnemies, description: "Deal 9 piercing damage to all enemies." },
        CardId::NovaCollapse => CardDef { id, name: "Nova Collapse", cost: 2, target: CardTarget::AllEnemies, description: "Deal 12 piercing damage to all enemies." },
        CardId::NovaCollapsePlus => CardDef { id, name: "Nova Collapse+", cost: 2, target: CardTarget::AllEnemies, description: "Deal 16 piercing damage to all enemies." },
        CardId::SuppressionNet => CardDef { id, name: "Suppression Net", cost: 2, target: CardTarget::AllEnemies, description: "Gain 13 Shield. All enemies lose 1 Focus and 1 Momentum." },
        CardId::SuppressionNetPlus => CardDef { id, name: "Suppression Net+", cost: 2, target: CardTarget::AllEnemies, description: "Gain 18 Shield. All enemies lose 2 Focus and 1 Momentum." },
        CardId::RazorRush => CardDef { id, name: "Razor Rush", cost: 0, target: CardTarget::Enemy, description: "Deal 9 damage." },
        CardId::RazorRushPlus => CardDef { id, name: "Razor Rush+", cost: 0, target: CardTarget::Enemy, description: "Deal 13 damage." },
        CardId::HardReset => CardDef { id, name: "Hard Reset", cost: 0, target: CardTarget::SelfOnly, description: "Draw 2." },
        CardId::HardResetPlus => CardDef { id, name: "Hard Reset+", cost: 0, target: CardTarget::SelfOnly, description: "Draw 3." },
        CardId::EmergencyPlating => CardDef { id, name: "Emergency Plating", cost: 2, target: CardTarget::SelfOnly, description: "Gain 19 Shield." },
        CardId::EmergencyPlatingPlus => CardDef { id, name: "Emergency Plating+", cost: 2, target: CardTarget::SelfOnly, description: "Gain 26 Shield." },
        CardId::Cauterize => CardDef { id, name: "Cauterize", cost: 1, target: CardTarget::Enemy, description: "Deal 7 damage. The target loses 1 Focus and 1 Rhythm." },
        CardId::CauterizePlus => CardDef { id, name: "Cauterize+", cost: 1, target: CardTarget::Enemy, description: "Deal 9 damage. The target loses 2 Focus and 1 Rhythm." },
        CardId::EmberBurst => CardDef { id, name: "Ember Burst", cost: 0, target: CardTarget::SelfOnly, description: "Gain 1 Energy. Draw 1." },
        CardId::EmberBurstPlus => CardDef { id, name: "Ember Burst+", cost: 0, target: CardTarget::SelfOnly, description: "Gain 1 Energy. Draw 2." },
        CardId::AshenVector => CardDef { id, name: "Ashen Vector", cost: 2, target: CardTarget::Enemy, description: "Deal 16 damage. Draw 1." },
        CardId::AshenVectorPlus => CardDef { id, name: "Ashen Vector+", cost: 2, target: CardTarget::Enemy, description: "Deal 20 damage. Draw 2." },
        CardId::PurgeArray => CardDef { id, name: "Purge Array", cost: 2, target: CardTarget::AllEnemies, description: "Deal 9 damage to all enemies twice." },
        CardId::PurgeArrayPlus => CardDef { id, name: "Purge Array+", cost: 2, target: CardTarget::AllEnemies, description: "Deal 12 damage to all enemies twice." },
        CardId::LastProtocol => CardDef { id, name: "Last Protocol", cost: 3, target: CardTarget::Enemy, description: "Deal 24 damage. Gain 1 Energy. Draw 1." },
        CardId::LastProtocolPlus => CardDef { id, name: "Last Protocol+", cost: 3, target: CardTarget::Enemy, description: "Deal 30 damage. Gain 1 Energy. Draw 2." },
        CardId::Spark => CardDef { id, name: "Spark", cost: 0, target: CardTarget::Enemy, description: "Deal 5 damage." },
        CardId::Patch => CardDef { id, name: "Patch", cost: 0, target: CardTarget::SelfOnly, description: "Gain 8 Shield." },
        CardId::Tracer => CardDef { id, name: "Tracer", cost: 0, target: CardTarget::Enemy, description: "The target loses 1 Rhythm." },
        CardId::Needler => CardDef { id, name: "Needler", cost: 0, target: CardTarget::Enemy, description: "Deal 3 damage. Apply Bleed 1." },
    }
}

/// The upgraded form of a card, if it has one (upgrades never chain).
pub open spec fn spec_upgraded_card(id: CardId) -> Option<CardId> {
    match id {
        CardId::FlareSlash => Some(CardId::FlareSlashPlus),
        CardId::GuardStep => Some(CardId::GuardStepPlus),
        CardId::Slipstream => Some(CardId::SlipstreamPlus),
        CardId::QuickStrike => Some(CardId::QuickStrikePlus),
        CardId::PinpointJab => Some(CardId::PinpointJabPlus),
        CardId::SignalTap => Some(CardId::SignalTapPlus),
        CardId::Reinforce => Some(CardId::ReinforcePlus),
        CardId::PressurePoint => Some(CardId::PressurePointPlus),
        CardId::BurstArray => Some(CardId::BurstArrayPlus),
        CardId::CoverPulse => Some(CardId::CoverPulsePlus),
        CardId::SunderingArc => Some(CardId::SunderingArcPlus),
        CardId::TwinStrike => Some(CardId::TwinStrikePlus),
        CardId::BarrierField => Some(CardId::BarrierFieldPlus),
        CardId::TacticalBurst => Some(CardId::TacticalBurstPlus),
        CardId::RazorNet => Some(CardId::RazorNetPlus),
        CardId::FracturePulse => Some(CardId::FracturePulsePlus),
        CardId::VectorLock => Some(CardId::VectorLockPlus),
        CardId::BreachSignal => Some(CardId::BreachSignalPlus),
        CardId::AnchorLoop => Some(CardId::AnchorLoopPlus),
        CardId::ExecutionBeam => Some(CardId::ExecutionBeamPlus),
        CardId::ChainBarrage => Some(CardId::ChainBarragePlus),
        CardId::FortressMatrix => Some(CardId::FortressMatrixPlus),
        CardId::OverwatchGrid => Some(CardId::OverwatchGridPlus),
        CardId::RiftDart => Some(CardId::RiftDartPlus),
        CardId::MarkPulse => Some(CardId::MarkPulsePlus),
        CardId::BraceCircuit => Some(CardId::BraceCircuitPlus),
        CardId::FaultShot => Some(CardId::FaultShotPlus),
        CardId::SeverArc => Some(CardId::SeverArcPlus),
        CardId::Lockbreaker => Some(CardId::LockbreakerPlus),
        CardId::CounterLattice => Some(CardId::CounterLatticePlus),
        CardId::TerminalLoop => Some(CardId::TerminalLoopPlus),
        CardId::ZeroPoint => Some(CardId::ZeroPointPlus),
        CardId::ArcSpark => Some(CardId::ArcSparkPlus),
        CardId::CapacitiveShell => Some(CardId::CapacitiveShellPlus),
        CardId::PrimeRoutine => Some(CardId::PrimeRoutinePlus),
        CardId::Stockpile => Some(CardId::StockpilePlus),
        CardId::PulseConverter => Some(CardId::PulseConverterPlus),
        CardId::ReservoirGuard => Some(CardId::ReservoirGuardPlus),
        CardId::VoltaicDrive => Some(CardId::VoltaicDrivePlus),
        CardId::StormVault => Some(CardId::StormVaultPlus),
        CardId::SparkSmith => Some(CardId::SparkSmithPlus),
        CardId::PatchBay => Some(CardId::PatchBayPlus),
        CardId::TracerWeave => Some(CardId::TracerWeavePlus),
        CardId::NeedleNest => Some(CardId::NeedleNestPlus),
        CardId::AssemblyLine => Some(CardId::AssemblyLinePlus),
        CardId::ToolCache => Some(CardId::ToolCachePlus),
        CardId::ImprovisedArsenal => Some(CardId::ImprovisedArsenalPlus),
        CardId::ForgeStorm => Some(CardId::ForgeStormPlus),
        CardId::SweepPulse => Some(CardId::SweepPulsePlus),
        CardId::DimmingWave => Some(CardId::DimmingWavePlus),
        CardId::ShrapnelVeil => Some(CardId::ShrapnelVeilPlus),
        CardId::ScouringWind => Some(CardId::ScouringWindPlus),
        CardId::CollapsePattern => Some(CardId::CollapsePatternPlus),
        CardId::Linebreaker => Some(CardId::LinebreakerPlus),
        CardId::NovaCollapse => Some(CardId::NovaCollapsePlus),
        CardId::SuppressionNet => Some(CardId::SuppressionNetPlus),
        CardId::RazorRush => Some(CardId::RazorRushPlus),
        CardId::HardReset => Some(CardId::HardResetPlus),
        CardId::EmergencyPlating => Some(CardId::EmergencyPlatingPlus),
        CardId::Cauterize => Some(CardId::CauterizePlus),
        CardId::EmberBurst => Some(CardId::EmberBurstPlus),
        CardId::AshenVector => Some(CardId::AshenVectorPlus),
        CardId::PurgeArray => Some(CardId::PurgeArrayPlus),
        CardId::LastProtocol => Some(CardId::LastProtocolPlus),
        _ => None,
    }
}

/// The upgraded form of a card, if it has one.
pub fn upgraded_card(id: CardId) -> (upgraded: Option<CardId>)
    ensures
        upgraded == spec_upgraded_card(id),
{
    match id {
        CardId::FlareSlash => Some(CardId::FlareSlashPlus),
        CardId::GuardStep => Some(CardId::GuardStepPlus),
        CardId::Slipstream => Some(CardId::SlipstreamPlus),
        CardId::QuickStrike => Some(CardId::QuickStrikePlus),
        CardId::PinpointJab => Some(CardId::PinpointJabPlus),
        CardId::SignalTap => Some(CardId::SignalTapPlus),
        CardId::Reinforce => Some(CardId::ReinforcePlus),
        CardId::PressurePoint => Some(CardId::PressurePointPlus),
        CardId::BurstArray => Some(CardId::BurstArrayPlus),
        CardId::CoverPulse => Some(CardId::CoverPulsePlus),
        CardId::SunderingArc => Some(CardId::SunderingArcPlus),
        CardId::TwinStrike => Some(CardId::TwinStrikePlus),
        CardId::BarrierField => Some(CardId::BarrierFieldPlus),
        CardId::TacticalBurst => Some(CardId::TacticalBurstPlus),
        CardId::RazorNet => Some(CardId::RazorNetPlus),
        CardId::FracturePulse => Some(CardId::FracturePulsePlus),
        CardId::VectorLock => Some(CardId::VectorLockPlus),
        CardId::BreachSignal => Some(CardId::BreachSignalPlus),
        CardId::AnchorLoop => Some(CardId::AnchorLoopPlus),
        CardId::ExecutionBeam => Some(CardId::ExecutionBeamPlus),
        CardId::ChainBarrage => Some(CardId::ChainBarragePlus),
        CardId::FortressMatrix => Some(CardId::FortressMatrixPlus),
        CardId::OverwatchGrid => Some(CardId::OverwatchGridPlus),
        CardId::RiftDart => Some(CardId::RiftDartPlus),
        CardId::MarkPulse => Some(CardId::MarkPulsePlus),
        CardId::BraceCircuit => Some(CardId::BraceCircuitPlus),
        CardId::FaultShot => Some(CardId::FaultShotPlus),
        CardId::SeverArc => Some(CardId::SeverArcPlus),
        CardId::Lockbreaker => Some(CardId::LockbreakerPlus),
        CardId::CounterLattice => Some(CardId::CounterLatticePlus),
        CardId::TerminalLoop => Some(CardId::TerminalLoopPlus),
        CardId::ZeroPoint => Some(CardId::ZeroPointPlus),
        CardId::ArcSpark => Some(CardId::ArcSparkPlus),
        CardId::CapacitiveShell => Some(CardId::CapacitiveShellPlus),
        CardId::PrimeRoutine => Some(CardId::PrimeRoutinePlus),
        CardId::Stockpile => Some(CardId::StockpilePlus),
        CardId::PulseConverter => Some(CardId::PulseConverterPlus),
        CardId::ReservoirGuard => Some(CardId::ReservoirGuardPlus),
        CardId::VoltaicDrive => Some(CardId::VoltaicDrivePlus),
        CardId::StormVault => Some(CardId::StormVaultPlus),
        CardId::SparkSmith => Some(CardId::SparkSmithPlus),
        CardId::PatchBay => Some(CardId::PatchBayPlus),
        CardId::TracerWeave => Some(CardId::TracerWeavePlus),
        CardId::NeedleNest => Some(CardId::NeedleNestPlus),
        CardId::AssemblyLine => Some(CardId::AssemblyLinePlus),
        CardId::ToolCache => Some(CardId::ToolCachePlus),
        CardId::ImprovisedArsenal => Some(CardId::ImprovisedArsenalPlus),
        CardId::ForgeStorm => Some(CardId::ForgeStormPlus),
        CardId::SweepPulse => Some(CardId::SweepPulsePlus),
        CardId::DimmingWave => Some(CardId::DimmingWavePlus),
        CardId::ShrapnelVeil => Some(CardId::ShrapnelVeilPlus),
        CardId::ScouringWind => Some(CardId::ScouringWindPlus),
        CardId::CollapsePattern => Some(CardId::CollapsePatternPlus),
        CardId::Linebreaker => Some(CardId::LinebreakerPlus),
        CardId::NovaCollapse => Some(CardId::NovaCollapsePlus),
        CardId::SuppressionNet => Some(CardId::SuppressionNetPlus),
        CardId::RazorRush => Some(CardId::RazorRushPlus),
        CardId::HardReset => Some(CardId::HardResetPlus),
        CardId::EmergencyPlating => Some(CardId::EmergencyPlatingPlus),
        CardId::Cauterize => Some(CardId::CauterizePlus),
        CardId::EmberBurst => Some(CardId::EmberBurstPlus),
        CardId::AshenVector => Some(CardId::AshenVectorPlus),
        CardId::PurgeArray => Some(CardId::PurgeArrayPlus),
        CardId::LastProtocol => Some(CardId::LastProtocolPlus),
        _ => None,
    }
}

/// Position of the card in the catalogue (the card's ordinal).
pub open spec fn spec_card_ordinal(id: CardId) -> u64 {
    match id {
        CardId::FlareSlash => 0,
        CardId::FlareSlashPlus => 1,
        CardId::GuardStep => 2,
        CardId::GuardStepPlus => 3,
        CardId::Slipstream => 4,
        CardId::SlipstreamPlus => 5,
        CardId::QuickStrike => 6,
        CardId::QuickStrikePlus => 7,
        CardId::PinpointJab => 8,
        CardId::PinpointJabPlus => 9,
        CardId::SignalTap => 10,
        CardId::SignalTapPlus => 11,
        CardId::Reinforce => 12,
        CardId::ReinforcePlus => 13,
        CardId::PressurePoint => 14,
        CardId::PressurePointPlus => 15,
        CardId::BurstArray => 16,
        CardId::BurstArrayPlus => 17,
        CardId::CoverPulse => 18,
        CardId::CoverPulsePlus => 19,
        CardId::SunderingArc => 20,
        CardId::SunderingArcPlus => 21,
        CardId::TwinStrike => 22,
        CardId::TwinStrikePlus => 23,
        CardId::BarrierField => 24,
        CardId::BarrierFieldPlus => 25,
        CardId::TacticalBurst => 26,
        CardId::TacticalBurstPlus => 27,
        CardId::RazorNet => 28,
        CardId::RazorNetPlus => 29,
        CardId::FracturePulse => 30,
        CardId::FracturePulsePlus => 31,
        CardId::VectorLock => 32,
        CardId::VectorLockPlus => 33,
        CardId::BreachSignal => 34,
        CardId::BreachSignalPlus => 35,
        CardId::AnchorLoop => 36,
        CardId::AnchorLoopPlus => 37,
        CardId::ExecutionBeam => 38,
        CardId::ExecutionBeamPlus => 39,
        CardId::ChainBarrage => 40,
        CardId::ChainBarragePlus => 41,
        CardId::FortressMatrix => 42,
        CardId::FortressMatrixPlus => 43,
        CardId::OverwatchGrid => 44,
        CardId::OverwatchGridPlus => 45,
        CardId::RiftDart => 46,
        CardId::RiftDartPlus => 47,
        CardId::MarkPulse => 48,
        CardId::MarkPulsePlus => 49,
        CardId::BraceCircuit => 50,
        CardId::BraceCircuitPlus => 51,
        CardId::FaultShot => 52,
        CardId::FaultShotPlus => 53,
        CardId::SeverArc => 54,
        CardId::SeverArcPlus => 55,
        CardId::Lockbreaker => 56,
        CardId::LockbreakerPlus => 57,
        CardId::CounterLattice => 58,
        CardId::CounterLatticePlus => 59,
        CardId::TerminalLoop => 60,
        CardId::TerminalLoopPlus => 61,
        CardId::ZeroPoint => 62,
        CardId::ZeroPointPlus => 63,
        CardId::ArcSpark => 64,
        CardId::ArcSparkPlus => 65,
        CardId::CapacitiveShell => 66,
        CardId::CapacitiveShellPlus => 67,
        CardId::PrimeRoutine => 68,
        CardId::PrimeRoutinePlus => 69,
        CardId::Stockpile => 70,
        CardId::StockpilePlus => 71,
        CardId::PulseConverter => 72,
        CardId::PulseConverterPlus => 73,
        CardId::ReservoirGuard => 74,
        CardId::ReservoirGuardPlus => 75,
        CardId::VoltaicDrive => 76,
        CardId::VoltaicDrivePlus => 77,
        CardId::StormVault => 78,
        CardId::StormVaultPlus => 79,
        CardId::SparkSmith => 80,
        CardId::SparkSmithPlus => 81,
        CardId::PatchBay => 82,
        CardId::PatchBayPlus => 83,
        CardId::TracerWeave => 84,
        CardId::TracerWeavePlus => 85,
        CardId::NeedleNest => 86,
        CardId::NeedleNestPlus => 87,
        CardId::AssemblyLine => 88,
        CardId::AssemblyLinePlus => 89,
        CardId::ToolCache => 90,
        CardId::ToolCachePlus => 91,
        CardId::ImprovisedArsenal => 92,
        CardId::ImprovisedArsenalPlus => 93,
        CardId::ForgeStorm => 94,
        CardId::ForgeStormPlus => 95,
        CardId::SweepPulse => 96,
        CardId::SweepPulsePlus => 97,
        CardId::DimmingWave => 98,
        CardId::DimmingWavePlus => 99,
        CardId::ShrapnelVeil => 100,
        CardId::ShrapnelVeilPlus => 101,
        CardId::ScouringWind => 102,
        CardId::ScouringWindPlus => 103,
        CardId::CollapsePattern => 104,
        CardId::CollapsePatternPlus => 105,
        CardId::Linebreaker => 106,
        CardId::LinebreakerPlus => 107,
        CardId::NovaCollapse => 108,
        CardId::NovaCollapsePlus => 109,
        CardId::SuppressionNet => 110,
        CardId::SuppressionNetPlus => 111,
        CardId::RazorRush => 112,
        CardId::RazorRushPlus => 113,
        CardId::HardReset => 114,
        CardId::HardResetPlus => 115,
        CardId::EmergencyPlating => 116,
        CardId::EmergencyPlatingPlus => 117,
        CardId::Cauterize => 118,
        CardId::CauterizePlus => 119,
        CardId::EmberBurst => 120,
        CardId::EmberBurstPlus => 121,
        CardId::AshenVector => 122,
        CardId::AshenVectorPlus => 123,
        CardId::PurgeArray => 124,
        CardId::PurgeArrayPlus => 125,
        CardId::LastProtocol => 126,
        CardId::LastProtocolPlus => 127,
        CardId::Spark => 128,
        CardId::Patch => 129,
        CardId::Tracer => 130,
        CardId::Needler => 131,
    }
}

/// Position of the card in the catalogue.
pub fn card_ordinal(id: CardId) -> (ordinal: u64)
    ensures
        ordinal == spec_card_ordinal(id),
        ordinal < 132,
{
    match id {
        CardId::FlareSlash => 0,
        CardId::FlareSlashPlus => 1,
        CardId::GuardStep => 2,
        CardId::GuardStepPlus => 3,
        CardId::Slipstream => 4,
        CardId::SlipstreamPlus => 5,
        CardId::QuickStrike => 6,
        CardId::QuickStrikePlus => 7,
        CardId::PinpointJab => 8,
        CardId::PinpointJabPlus => 9,
        CardId::SignalTap => 10,
        CardId::SignalTapPlus => 11,
        CardId::Reinforce => 12,
        CardId::ReinforcePlus => 13,
        CardId::PressurePoint => 14,
        CardId::PressurePointPlus => 15,
        CardId::BurstArray => 16,
        CardId::BurstArrayPlus => 17,
        CardId::CoverPulse => 18,
        CardId::CoverPulsePlus => 19,
        CardId::SunderingArc => 20,
        CardId::SunderingArcPlus => 21,
        CardId::TwinStrike => 22,
        CardId::TwinStrikePlus => 23,
        CardId::BarrierField => 24,
        CardId::BarrierFieldPlus => 25,
        CardId::TacticalBurst => 26,
        CardId::TacticalBurstPlus => 27,
        CardId::RazorNet => 28,
        CardId::RazorNetPlus => 29,
        CardId::FracturePulse => 30,
        CardId::FracturePulsePlus => 31,
        CardId::VectorLock => 32,
        CardId::VectorLockPlus => 33,
        CardId::BreachSignal => 34,
        CardId::BreachSignalPlus => 35,
        CardId::AnchorLoop => 36,
        CardId::AnchorLoopPlus => 37,
        CardId::ExecutionBeam => 38,
        CardId::ExecutionBeamPlus => 39,
        CardId::ChainBarrage => 40,
        CardId::ChainBarragePlus => 41,
        CardId::FortressMatrix => 42,
        CardId::FortressMatrixPlus => 43,
        CardId::OverwatchGrid => 44,
        CardId::OverwatchGridPlus => 45,
        CardId::RiftDart => 46,
        CardId::RiftDartPlus => 47,
        CardId::MarkPulse => 48,
        CardId::MarkPulsePlus => 49,
        CardId::BraceCircuit => 50,
        CardId::BraceCircuitPlus => 51,
        CardId::FaultShot => 52,
        CardId::FaultShotPlus => 53,
        CardId::SeverArc => 54,
        CardId::SeverArcPlus => 55,
        CardId::Lockbreaker => 56,
        CardId::LockbreakerPlus => 57,
        CardId::CounterLattice => 58,
        CardId::CounterLatticePlus => 59,
        CardId::TerminalLoop => 60,
        CardId::TerminalLoopPlus => 61,
        CardId::ZeroPoint => 62,
        CardId::ZeroPointPlus => 63,
        CardId::ArcSpark => 64,
        CardId::ArcSparkPlus => 65,
        CardId::CapacitiveShell => 66,
        CardId::CapacitiveShellPlus => 67,
        CardId::PrimeRoutine => 68,
        CardId::PrimeRoutinePlus => 69,
        CardId::Stockpile => 70,
        CardId::StockpilePlus => 71,
        CardId::PulseConverter => 72,
        CardId::PulseConverterPlus => 73,
        CardId::ReservoirGuard => 74,
        CardId::ReservoirGuardPlus => 75,
        CardId::VoltaicDrive => 76,
        CardId::VoltaicDrivePlus => 77,
        CardId::StormVault => 78,
        CardId::StormVaultPlus => 79,
        CardId::SparkSmith => 80,
        CardId::SparkSmithPlus => 81,
        CardId::PatchBay => 82,
        CardId::PatchBayPlus => 83,
        CardId::TracerWeave => 84,
        CardId::TracerWeavePlus => 85,
        CardId::NeedleNest => 86,
        CardId::NeedleNestPlus => 87,
        CardId::AssemblyLine => 88,
        CardId::AssemblyLinePlus => 89,
        CardId::ToolCache => 90,
        CardId::ToolCachePlus => 91,
        CardId::ImprovisedArsenal => 92,
        CardId::ImprovisedArsenalPlus => 93,
        CardId::ForgeStorm => 94,
        CardId::ForgeStormPlus => 95,
        CardId::SweepPulse => 96,
        CardId::SweepPulsePlus => 97,
        CardId::DimmingWave => 98,
        CardId::DimmingWavePlus => 99,
        CardId::ShrapnelVeil => 100,
        CardId::ShrapnelVeilPlus => 101,
        CardId::ScouringWind => 102,
        CardId::ScouringWindPlus => 103,
        CardId::CollapsePattern => 104,
        CardId::CollapsePatternPlus => 105,
        CardId::Linebreaker => 106,
        CardId::LinebreakerPlus => 107,
        CardId::NovaCollapse => 108,
        CardId::NovaCollapsePlus => 109,
        CardId::SuppressionNet => 110,
        CardId::SuppressionNetPlus => 111,
        CardId::RazorRush => 112,
        CardId::RazorRushPlus => 113,
        CardId::HardReset => 114,
        CardId::HardResetPlus => 115,
        CardId::EmergencyPlating => 116,
        CardId::EmergencyPlatingPlus => 117,
        CardId::Cauterize => 118,
        CardId::CauterizePlus => 119,
        CardId::EmberBurst => 120,
        CardId::EmberBurstPlus => 121,
        CardId::AshenVector => 122,
        CardId::AshenVectorPlus => 123,
        CardId::PurgeArray => 124,
        CardId::PurgeArrayPlus => 125,
        CardId::LastProtocol => 126,
        CardId::LastProtocolPlus => 127,
        CardId::Spark => 128,
        CardId::Patch => 129,
        CardId::Tracer => 130,
        CardId::Needler => 131,
    }
}

/// The name a card is saved under.
pub open spec fn spec_card_slug(id: CardId) -> &'static str {
    match id {
        CardId::FlareSlash => "flare_slash",
        CardId::FlareSlashPlus => "flare_slash_plus",
        CardId::GuardStep => "guard_step",
        CardId::GuardStepPlus => "guard_step_plus",
        CardId::Slipstream => "slipstream",
        CardId::SlipstreamPlus => "slipstream_plus",
        CardId::QuickStrike => "quick_strike",
        CardId::QuickStrikePlus => "quick_strike_plus",
        CardId::PinpointJab => "pinpoint_jab",
        CardId::PinpointJabPlus => "pinpoint_jab_plus",
        CardId::SignalTap => "signal_tap",
        CardId::SignalTapPlus => "signal_tap_plus",
        CardId::Reinforce => "reinforce",
        CardId::ReinforcePlus => "reinforce_plus",
        CardId::PressurePoint => "pressure_point",
        CardId::PressurePointPlus => "pressure_point_plus",
        CardId::BurstArray => "burst_array",
        CardId::BurstArrayPlus => "burst_array_plus",
        CardId::CoverPulse => "cover_pulse",
        CardId::CoverPulsePlus => "cover_pulse_plus",
        CardId::SunderingArc => "sundering_arc",
        CardId::SunderingArcPlus => "sundering_arc_plus",
        CardId::TwinStrike => "twin_strike",
        CardId::TwinStrikePlus => "twin_strike_plus",
        CardId::BarrierField => "barrier_field",
        CardId::BarrierFieldPlus => "barrier_field_plus",
        CardId::TacticalBurst => "tactical_burst",
        CardId::TacticalBurstPlus => "tactical_burst_plus",
        CardId::RazorNet => "razor_net",
        CardId::RazorNetPlus => "razor_net_plus",
        CardId::FracturePulse => "fracture_pulse",
        CardId::FracturePulsePlus => "fracture_pulse_plus",
        CardId::VectorLock => "vector_lock",
        CardId::VectorLockPlus => "vector_lock_plus",
        CardId::BreachSignal => "breach_signal",
        CardId::BreachSignalPlus => "breach_signal_plus",
        CardId::AnchorLoop => "anchor_loop",
        CardId::AnchorLoopPlus => "anchor_loop_plus",
        CardId::ExecutionBeam => "execution_beam",
        CardId::ExecutionBeamPlus => "execution_beam_plus",
        CardId::ChainBarrage => "chain_barrage",
        CardId::ChainBarragePlus => "chain_barrage_plus",
        CardId::FortressMatrix => "fortress_matrix",
        CardId::FortressMatrixPlus => "fortress_matrix_plus",
        CardId::OverwatchGrid => "overwatch_grid",
        CardId::OverwatchGridPlus => "overwatch_grid_plus",
        CardId::RiftDart => "rift_dart",
        CardId::RiftDartPlus => "rift_dart_plus",
        CardId::MarkPulse => "mark_pulse",
        CardId::MarkPulsePlus => "mark_pulse_plus",
        CardId::BraceCircuit => "brace_circuit",
        CardId::BraceCircuitPlus => "brace_circuit_plus",
        CardId::FaultShot => "fault_shot",
        CardId::FaultShotPlus => "fault_shot_plus",
        CardId::SeverArc => "sever_arc",
        CardId::SeverArcPlus => "sever_arc_plus",
        CardId::Lockbreaker => "lockbreaker",
        CardId::LockbreakerPlus => "lockbreaker_plus",
        CardId::CounterLattice => "counter_lattice",
        CardId::CounterLatticePlus => "counter_lattice_plus",
        CardId::TerminalLoop => "terminal_loop",
        CardId::TerminalLoopPlus => "terminal_loop_plus",
        CardId::ZeroPoint => "zero_point",
        CardId::ZeroPointPlus => "zero_point_plus",
        CardId::ArcSpark => "arc_spark",
        CardId::ArcSparkPlus => "arc_spark_plus",
        CardId::CapacitiveShell => "capacitive_shell",
        CardId::CapacitiveShellPlus => "capacitive_shell_plus",
        CardId::PrimeRoutine => "prime_routine",
        CardId::PrimeRoutinePlus => "prime_routine_plus",
        CardId::Stockpile => "stockpile",
        CardId::StockpilePlus => "stockpile_plus",
        CardId::PulseConverter => "pulse_converter",
        CardId::PulseConverterPlus => "pulse_converter_plus",
        CardId::ReservoirGuard => "reservoir_guard",
        CardId::ReservoirGuardPlus => "reservoir_guard_plus",
        CardId::VoltaicDrive => "voltaic_drive",
        CardId::VoltaicDrivePlus => "voltaic_drive_plus",
        CardId::StormVault => "storm_vault",
        CardId::StormVaultPlus => "storm_vault_plus",
        CardId::SparkSmith => "spark_smith",
        CardId::SparkSmithPlus => "spark_smith_plus",
        CardId::PatchBay => "patch_bay",
        CardId::PatchBayPlus => "patch_bay_plus",
        CardId::TracerWeave => "tracer_weave",
        CardId::TracerWeavePlus => "tracer_weave_plus",
        CardId::NeedleNest => "needle_nest",
        CardId::NeedleNestPlus => "needle_nest_plus",
        CardId::AssemblyLine => "assembly_line",
        CardId::AssemblyLinePlus => "assembly_line_plus",
        CardId::ToolCache => "tool_cache",
        CardId::ToolCachePlus => "tool_cache_plus",
        CardId::ImprovisedArsenal => "improvised_arsenal",
        CardId::ImprovisedArsenalPlus => "improvised_arsenal_plus",
        CardId::ForgeStorm => "forge_storm",
        CardId::ForgeStormPlus => "forge_storm_plus",
        CardId::SweepPulse => "sweep_pulse",
        CardId::SweepPulsePlus => "sweep_pulse_plus",
        CardId::DimmingWave => "dimming_wave",
        CardId::DimmingWavePlus => "dimming_wave_plus",
        CardId::ShrapnelVeil => "shrapnel_veil",
        CardId::ShrapnelVeilPlus => "shrapnel_veil_plus",
        CardId::ScouringWind => "scouring_wind",
        CardId::ScouringWindPlus => "scouring_wind_plus",
        CardId::CollapsePattern => "collapse_pattern",
        CardId::CollapsePatternPlus => "collapse_pattern_plus",
        CardId::Linebreaker => "linebreaker",
        CardId::LinebreakerPlus => "linebreaker_plus",
        CardId::NovaCollapse => "nova_collapse",
        CardId::NovaCollapsePlus => "nova_collapse_plus",
        CardId::SuppressionNet => "suppression_net",
        CardId::SuppressionNetPlus => "suppression_net_plus",
        CardId::RazorRush => "razor_rush",
        CardId::RazorRushPlus => "razor_rush_plus",
        CardId::HardReset => "hard_reset",
        CardId::HardResetPlus => "hard_reset_plus",
        CardId::EmergencyPlating => "emergency_plating",
        CardId::EmergencyPlatingPlus => "emergency_plating_plus",
        CardId::Cauterize => "cauterize",
        CardId::CauterizePlus => "cauterize_plus",
        CardId::EmberBurst => "ember_burst",
        CardId::EmberBurstPlus => "ember_burst_plus",
        CardId::AshenVector => "ashen_vector",
        CardId::AshenVectorPlus => "ashen_vector_plus",
        CardId::PurgeArray => "purge_array",
        CardId::PurgeArrayPlus => "purge_array_plus",
        CardId::LastProtocol => "last_protocol",
        CardId::LastProtocolPlus => "last_protocol_plus",
        CardId::Spark => "spark",
        CardId::Patch => "patch",
        CardId::Tracer => "tracer",
        CardId::Needler => "needler",
    }
}

pub fn card_slug(id: CardId) -> (slug: &'static str)
    ensures
        slug == spec_card_slug(id),
{
    match id {
        CardId::FlareSlash => "flare_slash",
        CardId::FlareSlashPlus => "flare_slash_plus",
        CardId::GuardStep => "guard_step",
        CardId::GuardStepPlus => "guard_step_plus",
        CardId::Slipstream => "slipstream",
        CardId::SlipstreamPlus => "slipstream_plus",
        CardId::QuickStrike => "quick_strike",
        CardId::QuickStrikePlus => "quick_strike_plus",
        CardId::PinpointJab => "pinpoint_jab",
        CardId::PinpointJabPlus => "pinpoint_jab_plus",
        CardId::SignalTap => "signal_tap",
        CardId::SignalTapPlus => "signal_tap_plus",
        CardId::Reinforce => "reinforce",
        CardId::ReinforcePlus => "reinforce_plus",
        CardId::PressurePoint => "pressure_point",
        CardId::PressurePointPlus => "pressure_point_plus",
        CardId::BurstArray => "burst_array",
        CardId::BurstArrayPlus => "burst_array_plus",
        CardId::CoverPulse => "cover_pulse",
        CardId::CoverPulsePlus => "cover_pulse_plus",
        CardId::SunderingArc => "sundering_arc",
        CardId::SunderingArcPlus => "sundering_arc_plus",
        CardId::TwinStrike => "twin_strike",
        CardId::TwinStrikePlus => "twin_strike_plus",
        CardId::BarrierField => "barrier_field",
        CardId::BarrierFieldPlus => "barrier_field_plus",
        CardId::TacticalBurst => "tactical_burst",
        CardId::TacticalBurstPlus => "tactical_burst_plus",
        CardId::RazorNet => "razor_net",
        CardId::RazorNetPlus => "razor_net_plus",
        CardId::FracturePulse => "fracture_pulse",
        CardId::FracturePulsePlus => "fracture_pulse_plus",
        CardId::VectorLock => "vector_lock",
        CardId::VectorLockPlus => "vector_lock_plus",
        CardId::BreachSignal => "breach_signal",
        CardId::BreachSignalPlus => "breach_signal_plus",
        CardId::AnchorLoop => "anchor_loop",
        CardId::AnchorLoopPlus => "anchor_loop_plus",
        CardId::ExecutionBeam => "execution_beam",
        CardId::ExecutionBeamPlus => "execution_beam_plus",
        CardId::ChainBarrage => "chain_barrage",
        CardId::ChainBarragePlus => "chain_barrage_plus",
        CardId::FortressMatrix => "fortress_matrix",
        CardId::FortressMatrixPlus => "fortress_matrix_plus",
        CardId::OverwatchGrid => "overwatch_grid",
        CardId::OverwatchGridPlus => "overwatch_grid_plus",
        CardId::RiftDart => "rift_dart",
        CardId::RiftDartPlus => "rift_dart_plus",
        CardId::MarkPulse => "mark_pulse",
        CardId::MarkPulsePlus => "mark_pulse_plus",
        CardId::BraceCircuit => "brace_circuit",
        CardId::BraceCircuitPlus => "brace_circuit_plus",
        CardId::FaultShot => "fault_shot",
        CardId::FaultShotPlus => "fault_shot_plus",
        CardId::SeverArc => "sever_arc",
        CardId::SeverArcPlus => "sever_arc_plus",
        CardId::Lockbreaker => "lockbreaker",
        CardId::LockbreakerPlus => "lockbreaker_plus",
        CardId::CounterLattice => "counter_lattice",
        CardId::CounterLatticePlus => "counter_lattice_plus",
        CardId::TerminalLoop => "terminal_loop",
        CardId::TerminalLoopPlus => "terminal_loop_plus",
        CardId::ZeroPoint => "zero_point",
        CardId::ZeroPointPlus => "zero_point_plus",
        CardId::ArcSpark => "arc_spark",
        CardId::ArcSparkPlus => "arc_spark_plus",
        CardId::CapacitiveShell => "capacitive_shell",
        CardId::CapacitiveShellPlus => "capacitive_shell_plus",
        CardId::PrimeRoutine => "prime_routine",
        CardId::PrimeRoutinePlus => "prime_routine_plus",
        CardId::Stockpile => "stockpile",
        CardId::StockpilePlus => "stockpile_plus",
        CardId::PulseConverter => "pulse_converter",
        CardId::PulseConverterPlus => "pulse_converter_plus",
        CardId::ReservoirGuard => "reservoir_guard",
        CardId::ReservoirGuardPlus => "reservoir_guard_plus",
        CardId::VoltaicDrive => "voltaic_drive",
        CardId::VoltaicDrivePlus => "voltaic_drive_plus",
        CardId::StormVault => "storm_vault",
        CardId::StormVaultPlus => "storm_vault_plus",
        CardId::SparkSmith => "spark_smith",
        CardId::SparkSmithPlus => "spark_smith_plus",
        CardId::PatchBay => "patch_bay",
        CardId::PatchBayPlus => "patch_bay_plus",
        CardId::TracerWeave => "tracer_weave",
        CardId::TracerWeavePlus => "tracer_weave_plus",
        CardId::NeedleNest => "needle_nest",
        CardId::NeedleNestPlus => "needle_nest_plus",
        CardId::AssemblyLine => "assembly_line",
        CardId::AssemblyLinePlus => "assembly_line_plus",
        CardId::ToolCache => "tool_cache",
        CardId::ToolCachePlus => "tool_cache_plus",
        CardId::ImprovisedArsenal => "improvised_arsenal",
        CardId::ImprovisedArsenalPlus => "improvised_arsenal_plus",
        CardId::ForgeStorm => "forge_storm",
        CardId::ForgeStormPlus => "forge_storm_plus",
        CardId::SweepPulse => "sweep_pulse",
        CardId::SweepPulsePlus => "sweep_pulse_plus",
        CardId::DimmingWave => "dimming_wave",
        CardId::DimmingWavePlus => "dimming_wave_plus",
        CardId::ShrapnelVeil => "shrapnel_veil",
        CardId::ShrapnelVeilPlus => "shrapnel_veil_plus",
        CardId::ScouringWind => "scouring_wind",
        CardId::ScouringWindPlus => "scouring_wind_plus",
        CardId::CollapsePattern => "collapse_pattern",
        CardId::CollapsePatternPlus => "collapse_pattern_plus",
        CardId::Linebreaker => "linebreaker",
        CardId::LinebreakerPlus => "linebreaker_plus",
        CardId::NovaCollapse => "nova_collapse",
        CardId::NovaCollapsePlus => "nova_collapse_plus",
        CardId::SuppressionNet => "suppression_net",
        CardId::SuppressionNetPlus => "suppression_net_plus",
        CardId::RazorRush => "razor_rush",
        CardId::RazorRushPlus => "razor_rush_plus",
        CardId::HardReset => "hard_reset",
        CardId::HardResetPlus => "hard_reset_plus",
        CardId::EmergencyPlating => "emergency_plating",
        CardId::EmergencyPlatingPlus => "emergency_plating_plus",
        CardId::Cauterize => "cauterize",
        CardId::CauterizePlus => "cauterize_plus",
        CardId::EmberBurst => "ember_burst",
        CardId::EmberBurstPlus => "ember_burst_plus",
        CardId::AshenVector => "ashen_vector",
        CardId::AshenVectorPlus => "ashen_vector_plus",
        CardId::PurgeArray => "purge_array",
        CardId::PurgeArrayPlus => "purge_array_plus",
        CardId::LastProtocol => "last_protocol",
        CardId::LastProtocolPlus => "last_protocol_plus",
        CardId::Spark => "spark",
        CardId::Patch => "patch",
        CardId::Tracer => "tracer",
        CardId::Needler => "needler",
    }
}

/// The card saved under a name, if any.
pub fn resolve_card_slug(slug: &str) -> (card: Option<CardId>)
    ensures
        card matches Some(id) ==> spec_card_slug(id)@ == slug@,
        card is None ==> forall|id: CardId| spec_card_slug(id)@ != slug@,
{
    if str_eq(slug, "flare_slash") {
        return Some(CardId::FlareSlash);
    }
    if str_eq(slug, "flare_slash_plus") {
        return Some(CardId::FlareSlashPlus);
    }
    if str_eq(slug, "guard_step") {
        return Some(CardId::GuardStep);
    }
    if str_eq(slug, "guard_step_plus") {
        return Some(CardId::GuardStepPlus);
    }
    if str_eq(slug, "slipstream") {
        return Some(CardId::Slipstream);
    }
    if str_eq(slug, "slipstream_plus") {
        return Some(CardId::SlipstreamPlus);
    }
    if str_eq(slug, "quick_strike") {
        return Some(CardId::QuickStrike);
    }
    if str_eq(slug, "quick_strike_plus") {
        return Some(CardId::QuickStrikePlus);
    }
    if str_eq(slug, "pinpoint_jab") {
        return Some(CardId::PinpointJab);
    }
    if str_eq(slug, "pinpoint_jab_plus") {
        return Some(CardId::PinpointJabPlus);
    }
    if str_eq(slug, "signal_tap") {
        return Some(CardId::SignalTap);
    }
    if str_eq(slug, "signal_tap_plus") {
        return Some(CardId::SignalTapPlus);
    }
    if str_eq(slug, "reinforce") {
        return Some(CardId::Reinforce);
    }
    if str_eq(slug, "reinforce_plus") {
        return Some(CardId::ReinforcePlus);
    }
    if str_eq(slug, "pressure_point") {
        return Some(CardId::PressurePoint);
    }
    if str_eq(slug, "pressure_point_plus") {
        return Some(CardId::PressurePointPlus);
    }
    if str_eq(slug, "burst_array") {
        return Some(CardId::BurstArray);
    }
    if str_eq(slug, "burst_array_plus") {
        return Some(CardId::BurstArrayPlus);
    }
    if str_eq(slug, "cover_pulse") {
        return Some(CardId::CoverPulse);
    }
    if str_eq(slug, "cover_pulse_plus") {
        return Some(CardId::CoverPulsePlus);
    }
    if str_eq(slug, "sundering_arc") {
        return Some(CardId::SunderingArc);
    }
    if str_eq(slug, "sundering_arc_plus") {
        return Some(CardId::SunderingArcPlus);
    }
    if str_eq(slug, "twin_strike") {
        return Some(CardId::TwinStrike);
    }
    if str_eq(slug, "twin_strike_plus") {
        return Some(CardId::TwinStrikePlus);
    }
    if str_eq(slug, "barrier_field") {
        return Some(CardId::BarrierField);
    }
    if str_eq(slug, "barrier_field_plus") {
        return Some(CardId::BarrierFieldPlus);
    }
    if str_eq(slug, "tactical_burst") {
        return Some(CardId::TacticalBurst);
    }
    if str_eq(slug, "tactical_burst_plus") {
        return Some(CardId::TacticalBurstPlus);
    }
    if str_eq(slug, "razor_net") {
        return Some(CardId::RazorNet);
    }
    if str_eq(slug, "razor_net_plus") {
        return Some(CardId::RazorNetPlus);
    }
    if str_eq(slug, "fracture_pulse") {
        return Some(CardId::FracturePulse);
    }
    if str_eq(slug, "fracture_pulse_plus") {
        return Some(CardId::FracturePulsePlus);
    }
    if str_eq(slug, "vector_lock") {
        return Some(CardId::VectorLock);
    }
    if str_eq(slug, "vector_lock_plus") {
        return Some(CardId::VectorLockPlus);
    }
    if str_eq(slug, "breach_signal") {
        return Some(CardId::BreachSignal);
    }
    if str_eq(slug, "breach_signal_plus") {
        return Some(CardId::BreachSignalPlus);
    }
    if str_eq(slug, "anchor_loop") {
        return Some(CardId::AnchorLoop);
    }
    if str_eq(slug, "anchor_loop_plus") {
        return Some(CardId::AnchorLoopPlus);
    }
    if str_eq(slug, "execution_beam") {
        return Some(CardId::ExecutionBeam);
    }
    if str_eq(slug, "execution_beam_plus") {
        return Some(CardId::ExecutionBeamPlus);
    }
    if str_eq(slug, "chain_barrage") {
        return Some(CardId::ChainBarrage);
    }
    if str_eq(slug, "chain_barrage_plus") {
        return Some(CardId::ChainBarragePlus);
    }
    if str_eq(slug, "fortress_matrix") {
        return Some(CardId::FortressMatrix);
    }
    if str_eq(slug, "fortress_matrix_plus") {
        return Some(CardId::FortressMatrixPlus);
    }
    if str_eq(slug, "overwatch_grid") {
        return Some(CardId::OverwatchGrid);
    }
    if str_eq(slug, "overwatch_grid_plus") {
        return Some(CardId::OverwatchGridPlus);
    }
    if str_eq(slug, "rift_dart") {
        return Some(CardId::RiftDart);
    }
    if str_eq(slug, "rift_dart_plus") {
        return Some(CardId::RiftDartPlus);
    }
    if str_eq(slug, "mark_pulse") {
        return Some(CardId::MarkPulse);
    }
    if str_eq(slug, "mark_pulse_plus") {
        return Some(CardId::MarkPulsePlus);
    }
    if str_eq(slug, "brace_circuit") {
        return Some(CardId::BraceCircuit);
    }
    if str_eq(slug, "brace_circuit_plus") {
        return Some(CardId::BraceCircuitPlus);
    }
    if str_eq(slug, "fault_shot") {
        return Some(CardId::FaultShot);
    }
    if str_eq(slug, "fault_shot_plus") {
        return Some(CardId::FaultShotPlus);
    }
    if str_eq(slug, "sever_arc") {
        return Some(CardId::SeverArc);
    }
    if str_eq(slug, "sever_arc_plus") {
        return Some(CardId::SeverArcPlus);
    }
    if str_eq(slug, "lockbreaker") {
        return Some(CardId::Lockbreaker);
    }
    if str_eq(slug, "lockbreaker_plus") {
        return Some(CardId::LockbreakerPlus);
    }
    if str_eq(slug, "counter_lattice") {
        return Some(CardId::CounterLattice);
    }
    if str_eq(slug, "counter_lattice_plus") {
        return Some(CardId::CounterLatticePlus);
    }
    if str_eq(slug, "terminal_loop") {
        return Some(CardId::TerminalLoop);
    }
    if str_eq(slug, "terminal_loop_plus") {
        return Some(CardId::TerminalLoopPlus);
    }
    if str_eq(slug, "zero_point") {
        return Some(CardId::ZeroPoint);
    }
    if str_eq(slug, "zero_point_plus") {
        return Some(CardId::ZeroPointPlus);
    }
    if str_eq(slug, "arc_spark") {
        return Some(CardId::ArcSpark);
    }
    if str_eq(slug, "arc_spark_plus") {
        return Some(CardId::ArcSparkPlus);
    }
    if str_eq(slug, "capacitive_shell") {
        return Some(CardId::CapacitiveShell);
    }
    if str_eq(slug, "capacitive_shell_plus") {
        return Some(CardId::CapacitiveShellPlus);
    }
    if str_eq(slug, "prime_routine") {
        return Some(CardId::PrimeRoutine);
    }
    if str_eq(slug, "prime_routine_plus") {
        return Some(CardId::PrimeRoutinePlus);
    }
    if str_eq(slug, "stockpile") {
        return Some(CardId::Stockpile);
    }
    if str_eq(slug, "stockpile_plus") {
        return Some(CardId::StockpilePlus);
    }
    if str_eq(slug, "pulse_converter") {
        return Some(CardId::PulseConverter);
    }
    if str_eq(slug, "pulse_converter_plus") {
        return Some(CardId::PulseConverterPlus);
    }
    if str_eq(slug, "reservoir_guard") {
        return Some(CardId::ReservoirGuard);
    }
    if str_eq(slug, "reservoir_guard_plus") {
        return Some(CardId::ReservoirGuardPlus);
    }
    if str_eq(slug, "voltaic_drive") {
        return Some(CardId::VoltaicDrive);
    }
    if str_eq(slug, "voltaic_drive_plus") {
        return Some(CardId::VoltaicDrivePlus);
    }
    if str_eq(slug, "storm_vault") {
        return Some(CardId::StormVault);
    }
    if str_eq(slug, "storm_vault_plus") {
        return Some(CardId::StormVaultPlus);
    }
    if str_eq(slug, "spark_smith") {
        return Some(CardId::SparkSmith);
    }
    if str_eq(slug, "spark_smith_plus") {
        return Some(CardId::SparkSmithPlus);
    }
    if str_eq(slug, "patch_bay") {
        return Some(CardId::PatchBay);
    }
    if str_eq(slug, "patch_bay_plus") {
        return Some(CardId::PatchBayPlus);
    }
    if str_eq(slug, "tracer_weave") {
        return Some(CardId::TracerWeave);
    }
    if str_eq(slug, "tracer_weave_plus") {
        return Some(CardId::TracerWeavePlus);
    }
    if str_eq(slug, "needle_nest") {
        return Some(CardId::NeedleNest);
    }
    if str_eq(slug, "needle_nest_plus") {
        return Some(CardId::NeedleNestPlus);
    }
    if str_eq(slug, "assembly_line") {
        return Some(CardId::AssemblyLine);
    }
    if str_eq(slug, "assembly_line_plus") {
        return Some(CardId::AssemblyLinePlus);
    }
    if str_eq(slug, "tool_cache") {
        return Some(CardId::ToolCache);
    }
    if str_eq(slug, "tool_cache_plus") {
        return Some(CardId::ToolCachePlus);
    }
    if str_eq(slug, "improvised_arsenal") {
        return Some(CardId::ImprovisedArsenal);
    }
    if str_eq(slug, "improvised_arsenal_plus") {
        return Some(CardId::ImprovisedArsenalPlus);
    }
    if str_eq(slug, "forge_storm") {
        return Some(CardId::ForgeStorm);
    }
    if str_eq(slug, "forge_storm_plus") {
        return Some(CardId::ForgeStormPlus);
    }
    if str_eq(slug, "sweep_pulse") {
        return Some(CardId::SweepPulse);
    }
    if str_eq(slug, "sweep_pulse_plus") {
        return Some(CardId::SweepPulsePlus);
    }
    if str_eq(slug, "dimming_wave") {
        return Some(CardId::DimmingWave);
    }
    if str_eq(slug, "dimming_wave_plus") {
        return Some(CardId::DimmingWavePlus);
    }
    if str_eq(slug, "shrapnel_veil") {
        return Some(CardId::ShrapnelVeil);
    }
    if str_eq(slug, "shrapnel_veil_plus") {
        return Some(CardId::ShrapnelVeilPlus);
    }
    if str_eq(slug, "scouring_wind") {
        return Some(CardId::ScouringWind);
    }
    if str_eq(slug, "scouring_wind_plus") {
        return Some(CardId::ScouringWindPlus);
    }
    if str_eq(slug, "collapse_pattern") {
        return Some(CardId::CollapsePattern);
    }
    if str_eq(slug, "collapse_pattern_plus") {
        return Some(CardId::CollapsePatternPlus);
    }
    if str_eq(slug, "linebreaker") {
        return Some(CardId::Linebreaker);
    }
    if str_eq(slug, "linebreaker_plus") {
        return Some(CardId::LinebreakerPlus);
    }
    if str_eq(slug, "nova_collapse") {
        return Some(CardId::NovaCollapse);
    }
    if str_eq(slug, "nova_collapse_plus") {
        return Some(CardId::NovaCollapsePlus);
    }
    if str_eq(slug, "suppression_net") {
        return Some(CardId::SuppressionNet);
    }
    if str_eq(slug, "suppression_net_plus") {
        return Some(CardId::SuppressionNetPlus);
    }
    if str_eq(slug, "razor_rush") {
        return Some(CardId::RazorRush);
    }
    if str_eq(slug, "razor_rush_plus") {
        return Some(CardId::RazorRushPlus);
    }
    if str_eq(slug, "hard_reset") {
        return Some(CardId::HardReset);
    }
    if str_eq(slug, "hard_reset_plus") {
        return Some(CardId::HardResetPlus);
    }
    if str_eq(slug, "emergency_plating") {
        return Some(CardId::EmergencyPlating);
    }
    if str_eq(slug, "emergency_plating_plus") {
        return Some(CardId::EmergencyPlatingPlus);
    }
    if str_eq(slug, "cauterize") {
        return Some(CardId::Cauterize);
    }
    if str_eq(slug, "cauterize_plus") {
        return Some(CardId::CauterizePlus);
    }
    if str_eq(slug, "ember_burst") {
        return Some(CardId::EmberBurst);
    }
    if str_eq(slug, "ember_burst_plus") {
        return Some(CardId::EmberBurstPlus);
    }
    if str_eq(slug, "ashen_vector") {
        return Some(CardId::AshenVector);
    }
    if str_eq(slug, "ashen_vector_plus") {
        return Some(CardId::AshenVectorPlus);
    }
    if str_eq(slug, "purge_array") {
        return Some(CardId::PurgeArray);
    }
    if str_eq(slug, "purge_array_plus") {
        return Some(CardId::PurgeArrayPlus);
    }
    if str_eq(slug, "last_protocol") {
        return Some(CardId::LastProtocol);
    }
    if str_eq(slug, "last_protocol_plus") {
        return Some(CardId::LastProtocolPlus);
    }
    if str_eq(slug, "spark") {
        return Some(CardId::Spark);
    }
    if str_eq(slug, "patch") {
        return Some(CardId::Patch);
    }
    if str_eq(slug, "tracer") {
        return Some(CardId::Tracer);
    }
    if str_eq(slug, "needler") {
        return Some(CardId::Needler);
    }
    None
}
/// The intent an enemy of the given profile shows at the given rotation slot (taken modulo 3).
pub open spec fn spec_enemy_intent(profile: EnemyProfileId, index: usize) -> EnemyIntent {
    match (profile, index % 3) {
        (EnemyProfileId::ScoutDrone, 0) => EnemyIntent { name: "Shock Needle", summary: "Deal 5 damage.", damage: 5, hits: 1, gain_block: 0, gain_strength: 0, prime_bleed: 0, apply_expose: 0, apply_weak: 0, apply_frail: 0, apply_bleed: 0 },
        (EnemyProfileId::ScoutDrone, 1) => EnemyIntent { name: "Crossfire", summary: "Deal 3 damage twice.", damage: 3, hits: 2, gain_block: 0, gain_strength: 0, prime_bleed: 0, apply_expose: 0, apply_weak: 0, apply_frail: 0, apply_bleed: 0 },
        (EnemyProfileId::ScoutDrone, _) => EnemyIntent { name: "Brace Cycle", summary: "Gain 4 Shield. Gain Strength 1.", damage: 0, hits: 0, gain_block: 4, gain_strength: 1, prime_bleed: 0, apply_expose: 0, apply_weak: 0, apply_frail: 0, apply_bleed: 0 },
        (EnemyProfileId::NeedlerDrone, 0) => EnemyIntent { name: "Needle Tap", summary: "Deal 4 damage. Apply Bleed 1.", damage: 4, hits: 1, gain_block: 0, gain_strength: 0, prime_bleed: 0, apply_expose: 0, apply_weak: 0, apply_frail: 0, apply_bleed: 1 },
        (EnemyProfileId::NeedlerDrone, 1) => EnemyIntent { name: "Split Sting", summary: "Deal 2 damage three times.", damage: 2, hits: 3, gain_block: 0, gain_strength: 0, prime_bleed: 0, apply_expose: 0, apply_weak: 0, apply_frail: 0, apply_bleed: 0 },
        (EnemyProfileId::NeedlerDrone, _) => EnemyIntent { name: "Stabilize", summary: "Gain 4 Shield.", damage: 0, hits: 0, gain_block: 4, gain_strength: 0, prime_bleed: 0, apply_expose: 0, apply_weak: 0, apply_frail: 0, apply_bleed: 0 },
        (EnemyProfileId::RampartDrone, 0) => EnemyIntent { name: "Ram Plate", summary: "Deal 8 damage.", damage: 8, hits: 1, gain_block: 0, gain_strength: 0, prime_bleed: 0, apply_expose: 0, apply_weak: 0, apply_frail: 0, apply_bleed: 0 },
        (EnemyProfileId::RampartDrone, 1) => EnemyIntent { name: "Pressure Clamp", summary: "Deal 5 damage. Apply Weak 1.", damage: 5, hits: 1, gain_block: 0, gain_strength: 0, prime_bleed: 0, apply_expose: 0, apply_weak: 1, apply_frail: 0, apply_bleed: 0 },
        (EnemyProfileId::RampartDrone, _) => EnemyIntent { name: "Reinforce Wall", summary: "Gain 8 Shield. Next hit applies Bleed 2.", damage: 0, hits: 0, gain_block: 8, gain_strength: 0, prime_bleed: 2, apply_expose: 0, apply_weak: 0, apply_frail: 0, apply_bleed: 0 },
        (EnemyProfileId::SpineSentry, 0) => EnemyIntent { name: "Spine Rack", summary: "Deal 4 damage twice. Apply Bleed 1.", damage: 4, hits: 2, gain_block: 0, gain_strength: 0, prime_bleed: 0, apply_expose: 0, apply_weak: 0, apply_frail: 0, apply_bleed: 1 },
        (EnemyProfileId::SpineSentry, 1) => EnemyIntent { name: "Target Lock", summary: "Deal 7 damage. Apply 1 Vulnerable.", damage: 7, hits: 1, gain_block: 0, gain_strength: 0, prime_bleed: 0, apply_expose: 1, apply_weak: 0, apply_frail: 0, apply_bleed: 0 },
        (EnemyProfileId::SpineSentry, _) => EnemyIntent { name: "Quill Plating", summary: "Gain 9 Shield.", damage: 0, hits: 0, gain_block: 9, gain_strength: 0, prime_bleed: 0, apply_expose: 0, apply_weak: 0, apply_frail: 0, apply_bleed: 0 },
        (EnemyProfileId::PentaCore, 0) => EnemyIntent { name: "Target Prism", summary: "Deal 7 damage. Apply 1 Vulnerable.", damage: 7, hits: 1, gain_block: 0, gain_strength: 0, prime_bleed: 0, apply_expose: 1, apply_weak: 0, apply_frail: 0, apply_bleed: 0 },
        (EnemyProfileId::PentaCore, 1) => EnemyIntent { name: "Penta Bulwark", summary: "Gain 10 Shield. Next hit applies Bleed 2.", damage: 0, hits: 0, gain_block: 10, gain_strength: 0, prime_bleed: 2, apply_expose: 0, apply_weak: 0, apply_frail: 0, apply_bleed: 0 },
        (EnemyProfileId::PentaCore, _) => EnemyIntent { name: "Split Lattice", summary: "Deal 4 damage three times.", damage: 4, hits: 3, gain_block: 0, gain_strength: 0, prime_bleed: 0, apply_expose: 0, apply_weak: 0, apply_frail: 0, apply_bleed: 0 },
        (EnemyProfileId::VoltMantis, 0) => EnemyIntent { name: "Arc Cut", summary: "Deal 8 damage.", damage: 8, hits: 1, gain_block: 0, gain_strength: 0, prime_bleed: 0, apply_expose: 0, apply_weak: 0, apply_frail: 0, apply_bleed: 0 },
        (EnemyProfileId::VoltMantis, 1) => EnemyIntent { name: "Arc Lash", summary: "Deal 4 damage twice.", damage: 4, hits: 2, gain_block: 0, gain_strength: 0, prime_bleed: 0, apply_expose: 0, apply_weak: 0, apply_frail: 0, apply_bleed: 0 },
        (EnemyProfileId::VoltMantis, _) => EnemyIntent { name: "Charge Shell", summary: "Gain 7 Shield.", damage: 0, hits: 0, gain_block: 7, gain_strength: 0, prime_bleed: 0, apply_expose: 0, apply_weak: 0, apply_frail: 0, apply_bleed: 0 },
        (EnemyProfileId::ShardWeaver, 0) => EnemyIntent { name: "Glass Cut", summary: "Deal 6 damage. Apply 1 Vulnerable.", damage: 6, hits: 1, gain_block: 0, gain_strength: 0, prime_bleed: 0, apply_expose: 1, apply_weak: 0, apply_frail: 0, apply_bleed: 0 },
        (EnemyProfileId::ShardWeaver, 1) => EnemyIntent { name: "Mirror Volley", summary: "Deal 3 damage twice. Gain 4 Shield.", damage: 3, hits: 2, gain_block: 4, gain_strength: 0, prime_bleed: 0, apply_expose: 0, apply_weak: 0, apply_frail: 0, apply_bleed: 0 },
        (EnemyProfileId::ShardWeaver, _) => EnemyIntent { name: "Refocus", summary: "Gain 8 Shield. Apply Frail 1.", damage: 0, hits: 0, gain_block: 8, gain_strength: 0, prime_bleed: 0, apply_expose: 0, apply_weak: 0, apply_frail: 1, apply_bleed: 0 },
        (EnemyProfileId::PrismArray, 0) => EnemyIntent { name: "Prism Bite", summary: "Deal 7 damage. Apply 1 Vulnerable.", damage: 7, hits: 1, gain_block: 0, gain_strength: 0, prime_bleed: 0, apply_expose: 1, apply_weak: 0, apply_frail: 0, apply_bleed: 0 },
        (EnemyProfileId::PrismArray, 1) => EnemyIntent { name: "Ion Salvo", summary: "Deal 5 damage twice.", damage: 5, hits: 2, gain_block: 0, gain_strength: 0, prime_bleed: 0, apply_expose: 0, apply_weak: 0, apply_frail: 0, apply_bleed: 0 },
        (EnemyProfileId::PrismArray, _) => EnemyIntent { name: "Prism Guard", summary: "Gain 10 Shield.", damage: 0, hits: 0, gain_block: 10, gain_strength: 0, prime_bleed: 0, apply_expose: 0, apply_weak: 0, apply_frail: 0, apply_bleed: 0 },
        (EnemyProfileId::GlassBishop, 0) => EnemyIntent { name: "Shatter Beam", summary: "Deal 8 damage. Apply 1 Vulnerable.", damage: 8, hits: 1, gain_block: 0, gain_strength: 0, prime_bleed: 0, apply_expose: 1, apply_weak: 0, apply_frail: 0, apply_bleed: 0 },
        (EnemyProfileId::GlassBishop, 1) => EnemyIntent { name: "Split Halo", summary: "Deal 5 damage twice. Gain 4 Shield.", damage: 5, hits: 2, gain_block: 4, gain_strength: 0, prime_bleed: 0, apply_expose: 0, apply_weak: 0, apply_frail: 0, apply_bleed: 0 },
        (EnemyProfileId::GlassBishop, _) => EnemyIntent { name: "Faceted Ward", summary: "Gain 10 Shield. Apply Bleed 1.", damage: 0, hits: 0, gain_block: 10, gain_strength: 0, prime_bleed: 0, apply_expose: 0, apply_weak: 0, apply_frail: 0, apply_bleed: 1 },
        (EnemyProfileId::HexarchCore, 0) => EnemyIntent { name: "Hex Shell", summary: "Gain 12 Shield. Apply 2 Vulnerable.", damage: 0, hits: 0, gain_block: 12, gain_strength: 0, prime_bleed: 0, apply_expose: 2, apply_weak: 0, apply_frail: 0, apply_bleed: 0 },
        (EnemyProfileId::HexarchCore, 1) => EnemyIntent { name: "Hex Breaker", summary: "Deal 15 damage.", damage: 15, hits: 1, gain_block: 0, gain_strength: 0, prime_bleed: 0, apply_expose: 0, apply_weak: 0, apply_frail: 0, apply_bleed: 0 },
        (EnemyProfileId::HexarchCore, _) => EnemyIntent { name: "Hex Volley", summary: "Deal 5 damage three times.", damage: 5, hits: 3, gain_block: 0, gain_strength: 0, prime_bleed: 0, apply_expose: 0, apply_weak: 0, apply_frail: 0, apply_bleed: 0 },
        (EnemyProfileId::NullRaider, 0) => EnemyIntent { name: "Null Shot", summary: "Deal 10 damage.", damage: 10, hits: 1, gain_block: 0, gain_strength: 0, prime_bleed: 0, apply_expose: 0, apply_weak: 0, apply_frail: 0, apply_bleed: 0 },
        (EnemyProfileId::NullRaider, 1) => EnemyIntent { name: "Chain Burst", summary: "Deal 5 damage twice.", damage: 5, hits: 2, gain_block: 0, gain_strength: 0, prime_bleed: 0, apply_expose: 0, apply_weak: 0, apply_frail: 0, apply_bleed: 0 },
        (EnemyProfileId::NullRaider, _) => EnemyIntent { name: "Null Guard", summary: "Gain 9 Shield.", damage: 0, hits: 0, gain_block: 9, gain_strength: 0, prime_bleed: 0, apply_expose: 0, apply_weak: 0, apply_frail: 0, apply_bleed: 0 },
        (EnemyProfileId::RiftStalker, 0) => EnemyIntent { name: "Rift Claw", summary: "Deal 9 damage. Apply Bleed 1.", damage: 9, hits: 1, gain_block: 0, gain_strength: 0, prime_bleed: 0, apply_expose: 0, apply_weak: 0, apply_frail: 0, apply_bleed: 1 },
        (EnemyProfileId::RiftStalker, 1) => EnemyIntent { name: "Rend Salvo", summary: "Deal 5 damage twice.", damage: 5, hits: 2, gain_block: 0, gain_strength: 0, prime_bleed: 0, apply_expose: 0, apply_weak: 0, apply_frail: 0, apply_bleed: 0 },
        (EnemyProfileId::RiftStalker, _) => EnemyIntent { name: "Lock Anchor", summary: "Gain 10 Shield. Apply 1 Vulnerable.", damage: 0, hits: 0, gain_block: 10, gain_strength: 0, prime_bleed: 0, apply_expose: 1, apply_weak: 0, apply_frail: 0, apply_bleed: 0 },
        (EnemyProfileId::SiegeSpider, 0) => EnemyIntent { name: "Bulwark Hammer", summary: "Deal 11 damage.", damage: 11, hits: 1, gain_block: 0, gain_strength: 0, prime_bleed: 0, apply_expose: 0, apply_weak: 0, apply_frail: 0, apply_bleed: 0 },
        (EnemyProfileId::SiegeSpider, 1) => EnemyIntent { name: "Lock Volley", summary: "Deal 6 damage twice.", damage: 6, hits: 2, gain_block: 0, gain_strength: 0, prime_bleed: 0, apply_expose: 0, apply_weak: 0, apply_frail: 0, apply_bleed: 0 },
        (EnemyProfileId::SiegeSpider, _) => EnemyIntent { name: "Bulwark Seal", summary: "Gain 12 Shield. Apply 1 Vulnerable.", damage: 0, hits: 0, gain_block: 12, gain_strength: 0, prime_bleed: 0, apply_expose: 1, apply_weak: 0, apply_frail: 0, apply_bleed: 0 },
        (EnemyProfileId::RiftBastion, 0) => EnemyIntent { name: "Grav Hammer", summary: "Deal 12 damage.", damage: 12, hits: 1, gain_block: 0, gain_strength: 0, prime_bleed: 0, apply_expose: 0, apply_weak: 0, apply_frail: 0, apply_bleed: 0 },
        (EnemyProfileId::RiftBastion, 1) => EnemyIntent { name: "Collapse Grid", summary: "Deal 6 damage twice. Apply 1 Vulnerable.", damage: 6, hits: 2, gain_block: 0, gain_strength: 0, prime_bleed: 0, apply_expose: 1, apply_weak: 0, apply_frail: 0, apply_bleed: 0 },
        (EnemyProfileId::RiftBastion, _) => EnemyIntent { name: "Anchor Field", summary: "Gain 12 Shield. Next hit applies Bleed 3.", damage: 0, hits: 0, gain_block: 12, gain_strength: 0, prime_bleed: 3, apply_expose: 0, apply_weak: 0, apply_frail: 0, apply_bleed: 0 },
        (EnemyProfileId::HeptarchCore, 0) => EnemyIntent { name: "Singularity Shell", summary: "Gain 16 Shield. Next hit applies Bleed 3.", damage: 0, hits: 0, gain_block: 16, gain_strength: 0, prime_bleed: 3, apply_expose: 0, apply_weak: 0, apply_frail: 0, apply_bleed: 0 },
        (EnemyProfileId::HeptarchCore, 1) => EnemyIntent { name: "Array Collapse", summary: "Deal 8 damage twice. Apply 1 Vulnerable.", damage: 8, hits: 2, gain_block: 0, gain_strength: 0, prime_bleed: 0, apply_expose: 1, apply_weak: 0, apply_frail: 0, apply_bleed: 0 },
        (EnemyProfileId::HeptarchCore, _) => EnemyIntent { name: "Crown Breaker", summary: "Deal 20 damage.", damage: 20, hits: 1, gain_block: 0, gain_strength: 0, prime_bleed: 0, apply_expose: 0, apply_weak: 0, apply_frail: 0, apply_bleed: 0 },
    }
}

/// The intent an enemy shows at rotation slot `index` (taken modulo 3).
pub fn enemy_intent(profile: EnemyProfileId, index: usize) -> (intent: EnemyIntent)
    ensures
        intent == spec_enemy_intent(profile, index),
{
    let slot = index % 3;
    match (profile, slot) {
        (EnemyProfileId::ScoutDrone, 0) => EnemyIntent { name: "Shock Needle", summary: "Deal 5 damage.", damage: 5, hits: 1, gain_block: 0, gain_strength: 0, prime_bleed: 0, apply_expose: 0, apply_weak: 0, apply_frail: 0, apply_bleed: 0 },
        (EnemyProfileId::ScoutDrone, 1) => EnemyIntent { name: "Crossfire", summary: "Deal 3 damage twice.", damage: 3, hits: 2, gain_block: 0, gain_strength: 0, prime_bleed: 0, apply_expose: 0, apply_weak: 0, apply_frail: 0, apply_bleed: 0 },
        (EnemyProfileId::ScoutDrone, _) => EnemyIntent { name: "Brace Cycle", summary: "Gain 4 Shield. Gain Strength 1.", damage: 0, hits: 0, gain_block: 4, gain_strength: 1, prime_bleed: 0, apply_expose: 0, apply_weak: 0, apply_frail: 0, apply_bleed: 0 },
        (EnemyProfileId::NeedlerDrone, 0) => EnemyIntent { name: "Needle Tap", summary: "Deal 4 damage. Apply Bleed 1.", damage: 4, hits: 1, gain_block: 0, gain_strength: 0, prime_bleed: 0, apply_expose: 0, apply_weak: 0, apply_frail: 0, apply_bleed: 1 },
        (EnemyProfileId::NeedlerDrone, 1) => EnemyIntent { name: "Split Sting", summary: "Deal 2 damage three times.", damage: 2, hits: 3, gain_block: 0, gain_strength: 0, prime_bleed: 0, apply_expose: 0, apply_weak: 0, apply_frail: 0, apply_bleed: 0 },
        (EnemyProfileId::NeedlerDrone, _) => EnemyIntent { name: "Stabilize", summary: "Gain 4 Shield.", damage: 0, hits: 0, gain_block: 4, gain_strength: 0, prime_bleed: 0, apply_expose: 0, apply_weak: 0, apply_frail: 0, apply_bleed: 0 },
        (EnemyProfileId::RampartDrone, 0) => EnemyIntent { name: "Ram Plate", summary: "Deal 8 damage.", damage: 8, hits: 1, gain_block: 0, gain_strength: 0, prime_bleed: 0, apply_expose: 0, apply_weak: 0, apply_frail: 0, apply_bleed: 0 },
        (EnemyProfileId::RampartDrone, 1) => EnemyIntent { name: "Pressure Clamp", summary: "Deal 5 damage. Apply Weak 1.", damage: 5, hits: 1, gain_block: 0, gain_strength: 0, prime_bleed: 0, apply_expose: 0, apply_weak: 1, apply_frail: 0, apply_bleed: 0 },
        (EnemyProfileId::RampartDrone, _) => EnemyIntent { name: "Reinforce Wall", summary: "Gain 8 Shield. Next hit applies Bleed 2.", damage: 0, hits: 0, gain_block: 8, gain_strength: 0, prime_bleed: 2, apply_expose: 0, apply_weak: 0, apply_frail: 0, apply_bleed: 0 },
        (EnemyProfileId::SpineSentry, 0) => EnemyIntent { name: "Spine Rack", summary: "Deal 4 damage twice. Apply Bleed 1.", damage: 4, hits: 2, gain_block: 0, gain_strength: 0, prime_bleed: 0, apply_expose: 0, apply_weak: 0, apply_frail: 0, apply_bleed: 1 },
        (EnemyProfileId::SpineSentry, 1) => EnemyIntent { name: "Target Lock", summary: "Deal 7 damage. Apply 1 Vulnerable.", damage: 7, hits: 1, gain_block: 0, gain_strength: 0, prime_bleed: 0, apply_expose: 1, apply_weak: 0, apply_frail: 0, apply_bleed: 0 },
        (EnemyProfileId::SpineSentry, _) => EnemyIntent { name: "Quill Plating", summary: "Gain 9 Shield.", damage: 0, hits: 0, gain_block: 9, gain_strength: 0, prime_bleed: 0, apply_expose: 0, apply_weak: 0, apply_frail: 0, apply_bleed: 0 },
        (EnemyProfileId::PentaCore, 0) => EnemyIntent { name: "Target Prism", summary: "Deal 7 damage. Apply 1 Vulnerable.", damage: 7, hits: 1, gain_block: 0, gain_strength: 0, prime_bleed: 0, apply_expose: 1, apply_weak: 0, apply_frail: 0, apply_bleed: 0 },
        (EnemyProfileId::PentaCore, 1) => EnemyIntent { name: "Penta Bulwark", summary: "Gain 10 Shield. Next hit applies Bleed 2.", damage: 0, hits: 0, gain_block: 10, gain_strength: 0, prime_bleed: 2, apply_expose: 0, apply_weak: 0, apply_frail: 0, apply_bleed: 0 },
        (EnemyProfileId::PentaCore, _) => EnemyIntent { name: "Split Lattice", summary: "Deal 4 damage three times.", damage: 4, hits: 3, gain_block: 0, gain_strength: 0, prime_bleed: 0, apply_expose: 0, apply_weak: 0, apply_frail: 0, apply_bleed: 0 },
        (EnemyProfileId::VoltMantis, 0) => EnemyIntent { name: "Arc Cut", summary: "Deal 8 damage.", damage: 8, hits: 1, gain_block: 0, gain_strength: 0, prime_bleed: 0, apply_expose: 0, apply_weak: 0, apply_frail: 0, apply_bleed: 0 },
        (EnemyProfileId::VoltMantis, 1) => EnemyIntent { name: "Arc Lash", summary: "Deal 4 damage twice.", damage: 4, hits: 2, gain_block: 0, gain_strength: 0, prime_bleed: 0, apply_expose: 0, apply_weak: 0, apply_frail: 0, apply_bleed: 0 },
        (EnemyProfileId::VoltMantis, _) => EnemyIntent { name: "Charge Shell", summary: "Gain 7 Shield.", damage: 0, hits: 0, gain_block: 7, gain_strength: 0, prime_bleed: 0, apply_expose: 0, apply_weak: 0, apply_frail: 0, apply_bleed: 0 },
        (EnemyProfileId::ShardWeaver, 0) => EnemyIntent { name: "Glass Cut", summary: "Deal 6 damage. Apply 1 Vulnerable.", damage: 6, hits: 1, gain_block: 0, gain_strength: 0, prime_bleed: 0, apply_expose: 1, apply_weak: 0, apply_frail: 0, apply_bleed: 0 },
        (EnemyProfileId::ShardWeaver, 1) => EnemyIntent { name: "Mirror Volley", summary: "Deal 3 damage twice. Gain 4 Shield.", damage: 3, hits: 2, gain_block: 4, gain_strength: 0, prime_bleed: 0, apply_expose: 0, apply_weak: 0, apply_frail: 0, apply_bleed: 0 },
        (EnemyProfileId::ShardWeaver, _) => EnemyIntent { name: "Refocus", summary: "Gain 8 Shield. Apply Frail 1.", damage: 0, hits: 0, gain_block: 8, gain_strength: 0, prime_bleed: 0, apply_expose: 0, apply_weak: 0, apply_frail: 1, apply_bleed: 0 },
        (EnemyProfileId::PrismArray, 0) => EnemyIntent { name: "Prism Bite", summary: "Deal 7 damage. Apply 1 Vulnerable.", damage: 7, hits: 1, gain_block: 0, gain_strength: 0, prime_bleed: 0, apply_expose: 1, apply_weak: 0, apply_frail: 0, apply_bleed: 0 },
        (EnemyProfileId::PrismArray, 1) => EnemyIntent { name: "Ion Salvo", summary: "Deal 5 damage twice.", damage: 5, hits: 2, gain_block: 0, gain_strength: 0, prime_bleed: 0, apply_expose: 0, apply_weak: 0, apply_frail: 0, apply_bleed: 0 },
        (EnemyProfileId::PrismArray, _) => EnemyIntent { name: "Prism Guard", summary: "Gain 10 Shield.", damage: 0, hits: 0, gain_block: 10, gain_strength: 0, prime_bleed: 0, apply_expose: 0, apply_weak: 0, apply_frail: 0, apply_bleed: 0 },
        (EnemyProfileId::GlassBishop, 0) => EnemyIntent { name: "Shatter Beam", summary: "Deal 8 damage. Apply 1 Vulnerable.", damage: 8, hits: 1, gain_block: 0, gain_strength: 0, prime_bleed: 0, apply_expose: 1, apply_weak: 0, apply_frail: 0, apply_bleed: 0 },
        (EnemyProfileId::GlassBishop, 1) => EnemyIntent { name: "Split Halo", summary: "Deal 5 damage twice. Gain 4 Shield.", damage: 5, hits: 2, gain_block: 4, gain_strength: 0, prime_bleed: 0, apply_expose: 0, apply_weak: 0, apply_frail: 0, apply_bleed: 0 },
        (EnemyProfileId::GlassBishop, _) => EnemyIntent { name: "Faceted Ward", summary: "Gain 10 Shield. Apply Bleed 1.", damage: 0, hits: 0, gain_block: 10, gain_strength: 0, prime_bleed: 0, apply_expose: 0, apply_weak: 0, apply_frail: 0, apply_bleed: 1 },
        (EnemyProfileId::HexarchCore, 0) => EnemyIntent { name: "Hex Shell", summary: "Gain 12 Shield. Apply 2 Vulnerable.", damage: 0, hits: 0, gain_block: 12, gain_strength: 0, prime_bleed: 0, apply_expose: 2, apply_weak: 0, apply_frail: 0, apply_bleed: 0 },
        (EnemyProfileId::HexarchCore, 1) => EnemyIntent { name: "Hex Breaker", summary: "Deal 15 damage.", damage: 15, hits: 1, gain_block: 0, gain_strength: 0, prime_bleed: 0, apply_expose: 0, apply_weak: 0, apply_frail: 0, apply_bleed: 0 },
        (EnemyProfileId::HexarchCore, _) => EnemyIntent { name: "Hex Volley", summary: "Deal 5 damage three times.", damage: 5, hits: 3, gain_block: 0, gain_strength: 0, prime_bleed: 0, apply_expose: 0, apply_weak: 0, apply_frail: 0, apply_bleed: 0 },
        (EnemyProfileId::NullRaider, 0) => EnemyIntent { name: "Null Shot", summary: "Deal 10 damage.", damage: 10, hits: 1, gain_block: 0, gain_strength: 0, prime_bleed: 0, apply_expose: 0, apply_weak: 0, apply_frail: 0, apply_bleed: 0 },
        (EnemyProfileId::NullRaider, 1) => EnemyIntent { name: "Chain Burst", summary: "Deal 5 damage twice.", damage: 5, hits: 2, gain_block: 0, gain_strength: 0, prime_bleed: 0, apply_expose: 0, apply_weak: 0, apply_frail: 0, apply_bleed: 0 },
        (EnemyProfileId::NullRaider, _) => EnemyIntent { name: "Null Guard", summary: "Gain 9 Shield.", damage: 0, hits: 0, gain_block: 9, gain_strength: 0, prime_bleed: 0, apply_expose: 0, apply_weak: 0, apply_frail: 0, apply_bleed: 0 },
        (EnemyProfileId::RiftStalker, 0) => EnemyIntent { name: "Rift Claw", summary: "Deal 9 damage. Apply Bleed 1.", damage: 9, hits: 1, gain_block: 0, gain_strength: 0, prime_bleed: 0, apply_expose: 0, apply_weak: 0, apply_frail: 0, apply_bleed: 1 },
        (EnemyProfileId::RiftStalker, 1) => EnemyIntent { name: "Rend Salvo", summary: "Deal 5 damage twice.", damage: 5, hits: 2, gain_block: 0, gain_strength: 0, prime_bleed: 0, apply_expose: 0, apply_weak: 0, apply_frail: 0, apply_bleed: 0 },
        (EnemyProfileId::RiftStalker, _) => EnemyIntent { name: "Lock Anchor", summary: "Gain 10 Shield. Apply 1 Vulnerable.", damage: 0, hits: 0, gain_block: 10, gain_strength: 0, prime_bleed: 0, apply_expose: 1, apply_weak: 0, apply_frail: 0, apply_bleed: 0 },
        (EnemyProfileId::SiegeSpider, 0) => EnemyIntent { name: "Bulwark Hammer", summary: "Deal 11 damage.", damage: 11, hits: 1, gain_block: 0, gain_strength: 0, prime_bleed: 0, apply_expose: 0, apply_weak: 0, apply_frail: 0, apply_bleed: 0 },
        (EnemyProfileId::SiegeSpider, 1) => EnemyIntent { name: "Lock Volley", summary: "Deal 6 damage twice.", damage: 6, hits: 2, gain_block: 0, gain_strength: 0, prime_bleed: 0, apply_expose: 0, apply_weak: 0, apply_frail: 0, apply_bleed: 0 },
        (EnemyProfileId::SiegeSpider, _) => EnemyIntent { name: "Bulwark Seal", summary: "Gain 12 Shield. Apply 1 Vulnerable.", damage: 0, hits: 0, gain_block: 12, gain_strength: 0, prime_bleed: 0, apply_expose: 1, apply_weak: 0, apply_frail: 0, apply_bleed: 0 },
        (EnemyProfileId::RiftBastion, 0) => EnemyIntent { name: "Grav Hammer", summary: "Deal 12 damage.", damage: 12, hits: 1, gain_block: 0, gain_strength: 0, prime_bleed: 0, apply_expose: 0, apply_weak: 0, apply_frail: 0, apply_bleed: 0 },
        (EnemyProfileId::RiftBastion, 1) => EnemyIntent { name: "Collapse Grid", summary: "Deal 6 damage twice. Apply 1 Vulnerable.", damage: 6, hits: 2, gain_block: 0, gain_strength: 0, prime_bleed: 0, apply_expose: 1, apply_weak: 0, apply_frail: 0, apply_bleed: 0 },
        (EnemyProfileId::RiftBastion, _) => EnemyIntent { name: "Anchor Field", summary: "Gain 12 Shield. Next hit applies Bleed 3.", damage: 0, hits: 0, gain_block: 12, gain_strength: 0, prime_bleed: 3, apply_expose: 0, apply_weak: 0, apply_frail: 0, apply_bleed: 0 },
        (EnemyProfileId::HeptarchCore, 0) => EnemyIntent { name: "Singularity Shell", summary: "Gain 16 Shield. Next hit applies Bleed 3.", damage: 0, hits: 0, gain_block: 16, gain_strength: 0, prime_bleed: 3, apply_expose: 0, apply_weak: 0, apply_frail: 0, apply_bleed: 0 },
        (EnemyProfileId::HeptarchCore, 1) => EnemyIntent { name: "Array Collapse", summary: "Deal 8 damage twice. Apply 1 Vulnerable.", damage: 8, hits: 2, gain_block: 0, gain_strength: 0, prime_bleed: 0, apply_expose: 1, apply_weak: 0, apply_frail: 0, apply_bleed: 0 },
        (EnemyProfileId::HeptarchCore, _) => EnemyIntent { name: "Crown Breaker", summary: "Deal 20 damage.", damage: 20, hits: 1, gain_block: 0, gain_strength: 0, prime_bleed: 0, apply_expose: 0, apply_weak: 0, apply_frail: 0, apply_bleed: 0 },
    }
}

/// The 32 base cards that can be found as rewards (none of them an upgrade).
pub open spec fn spec_base_cards() -> Seq<CardId> {
    seq![
        CardId::FlareSlash, CardId::GuardStep, CardId::Slipstream, CardId::QuickStrike,
        CardId::PinpointJab, CardId::SignalTap, CardId::Reinforce, CardId::PressurePoint,
        CardId::BurstArray, CardId::CoverPulse, CardId::SunderingArc, CardId::TwinStrike,
        CardId::BarrierField, CardId::TacticalBurst, CardId::RazorNet, CardId::FracturePulse,
        CardId::VectorLock, CardId::BreachSignal, CardId::AnchorLoop, CardId::ExecutionBeam,
        CardId::ChainBarrage, CardId::FortressMatrix, CardId::OverwatchGrid, CardId::ZeroPoint,
        CardId::RiftDart, CardId::MarkPulse, CardId::BraceCircuit, CardId::FaultShot,
        CardId::SeverArc, CardId::Lockbreaker, CardId::CounterLattice, CardId::TerminalLoop,
    ]
}

/// The base-card catalogue.
pub fn all_base_cards() -> (cards: Vec<CardId>)
    ensures
        cards@ == spec_base_cards(),
{
    let cards = vec![
        CardId::FlareSlash, CardId::GuardStep, CardId::Slipstream, CardId::QuickStrike,
        CardId::PinpointJab, CardId::SignalTap, CardId::Reinforce, CardId::PressurePoint,
        CardId::BurstArray, CardId::CoverPulse, CardId::SunderingArc, CardId::TwinStrike,
        CardId::BarrierField, CardId::TacticalBurst, CardId::RazorNet, CardId::FracturePulse,
        CardId::VectorLock, CardId::BreachSignal, CardId::AnchorLoop, CardId::ExecutionBeam,
        CardId::ChainBarrage, CardId::FortressMatrix, CardId::OverwatchGrid, CardId::ZeroPoint,
        CardId::RiftDart, CardId::MarkPulse, CardId::BraceCircuit, CardId::FaultShot,
        CardId::SeverArc, CardId::Lockbreaker, CardId::CounterLattice, CardId::TerminalLoop,
    ];
    proof {
        assert(cards@ =~= spec_base_cards());
    }
    cards
}

/// The twelve-card deck every run starts with.
pub open spec fn spec_starter_deck() -> Seq<CardId> {
    seq![
        CardId::FlareSlash, CardId::FlareSlash, CardId::FlareSlash, CardId::FlareSlash,
        CardId::FlareSlash, CardId::GuardStep, CardId::GuardStep, CardId::GuardStep,
        CardId::GuardStep, CardId::Slipstream, CardId::Slipstream, CardId::SunderingArc,
    ]
}

/// Five Strikes, four Defends, two Repositions and a Sundering Arc.
pub fn starter_deck() -> (deck: Vec<CardId>)
    ensures
        deck@ == spec_starter_deck(),
{
    let deck = vec![
        CardId::FlareSlash, CardId::FlareSlash, CardId::FlareSlash, CardId::FlareSlash,
        CardId::FlareSlash, CardId::GuardStep, CardId::GuardStep, CardId::GuardStep,
        CardId::GuardStep, CardId::Slipstream, CardId::Slipstream, CardId::SunderingArc,
    ];
    proof {
        assert(deck@ =~= spec_starter_deck());
    }
    deck
}

pub open spec fn spec_module_def(id: ModuleId) -> ModuleDef {
    match id {
        ModuleId::AegisDrive => ModuleDef { id, name: "Aegis Drive", description: "Start each combat with 5 Shield." },
        ModuleId::TargetingRelay => ModuleDef { id, name: "Targeting Relay", description: "Start each combat by applying Vulnerable 1 to the enemy." },
        ModuleId::Nanoforge => ModuleDef { id, name: "Nanoforge", description: "After each victory, recover 3 HP." },
        ModuleId::CapacitorBank => ModuleDef { id, name: "Capacitor Bank", description: "Start each combat with Strength 1." },
        ModuleId::PrismScope => ModuleDef { id, name: "Prism Scope", description: "Start each combat by applying Vulnerable 1 to all enemies." },
        ModuleId::SalvageLedger => ModuleDef { id, name: "Salvage Ledger", description: "After each victory, gain 4 additional Credits." },
        ModuleId::OverclockCore => ModuleDef { id, name: "Overclock Core", description: "Start each combat with 1 extra Energy." },
        ModuleId::SuppressionField => ModuleDef { id, name: "Suppression Field", description: "Start each combat by applying Weak 1 to all enemies." },
        ModuleId::RecoveryMatrix => ModuleDef { id, name: "Recovery Matrix", description: "After each victory, recover 5 HP." },
    }
}

/// Static definition of a module.
pub fn module_def(id: ModuleId) -> (def: ModuleDef)
    ensures
        def == spec_module_def(id),
{
    match id {
        ModuleId::AegisDrive => ModuleDef { id, name: "Aegis Drive", description: "Start each combat with 5 Shield." },
        ModuleId::TargetingRelay => ModuleDef { id, name: "Targeting Relay", description: "Start each combat by applying Vulnerable 1 to the enemy." },
        ModuleId::Nanoforge => ModuleDef { id, name: "Nanoforge", description: "After each victory, recover 3 HP." },
        ModuleId::CapacitorBank => ModuleDef { id, name: "Capacitor Bank", description: "Start each combat with Strength 1." },
        ModuleId::PrismScope => ModuleDef { id, name: "Prism Scope", description: "Start each combat by applying Vulnerable 1 to all enemies." },
        ModuleId::SalvageLedger => ModuleDef { id, name: "Salvage Ledger", description: "After each victory, gain 4 additional Credits." },
        ModuleId::OverclockCore => ModuleDef { id, name: "Overclock Core", description: "Start each combat with 1 extra Energy." },
        ModuleId::SuppressionField => ModuleDef { id, name: "Suppression Field", description: "Start each combat by applying Weak 1 to all enemies." },
        ModuleId::RecoveryMatrix => ModuleDef { id, name: "Recovery Matrix", description: "After each victory, recover 5 HP." },
    }
}

/// The module a run falls back to when no starter module was picked.
pub fn default_starter_module() -> (module: ModuleId)
    ensures
        module == ModuleId::AegisDrive,
{
    ModuleId::AegisDrive
}

pub open spec fn spec_starter_module_choices() -> Seq<ModuleId> {
    seq![ModuleId::Nanoforge, ModuleId::AegisDrive, ModuleId::TargetingRelay]
}

/// The three starter modules, in their fixed offer order.
pub fn starter_module_choices() -> (choices: Vec<ModuleId>)
    ensures
        choices@ == spec_starter_module_choices(),
{
    let choices = vec![ModuleId::Nanoforge, ModuleId::AegisDrive, ModuleId::TargetingRelay];
    proof {
        assert(choices@ =~= spec_starter_module_choices());
    }
    choices
}

/// The three modules offered after beating the boss of `boss_level` (levels clamp to 1..=2).
pub open spec fn spec_boss_module_choices(boss_level: usize) -> Seq<ModuleId> {
    if boss_level <= 1 {
        seq![ModuleId::CapacitorBank, ModuleId::PrismScope, ModuleId::SalvageLedger]
    } else {
        seq![ModuleId::OverclockCore, ModuleId::SuppressionField, ModuleId::RecoveryMatrix]
    }
}

pub fn boss_module_choices(boss_level: usize) -> (choices: Vec<ModuleId>)
    ensures
        choices@ == spec_boss_module_choices(boss_level),
{
    let choices = if boss_level <= 1 {
        vec![ModuleId::CapacitorBank, ModuleId::PrismScope, ModuleId::SalvageLedger]
    } else {
        vec![ModuleId::OverclockCore, ModuleId::SuppressionField, ModuleId::RecoveryMatrix]
    };
    proof {
        assert(choices@ =~= spec_boss_module_choices(boss_level));
    }
    choices
}

/// The cards a reward or shop of the given tier draws from (levels clamp to 1..=3).
pub open spec fn spec_reward_pool(tier: RewardTier, level: usize) -> Seq<CardId> {
    match tier {
        RewardTier::Combat => seq![
            CardId::FlareSlash, CardId::GuardStep, CardId::Slipstream, CardId::QuickStrike,
            CardId::PinpointJab, CardId::SignalTap, CardId::Reinforce, CardId::PressurePoint,
            CardId::BurstArray, CardId::CoverPulse, CardId::RiftDart, CardId::MarkPulse,
            CardId::BraceCircuit, CardId::FaultShot,
        ],
        RewardTier::Elite => if level <= 1 {
            seq![
                CardId::SunderingArc, CardId::TwinStrike, CardId::BarrierField, CardId::TacticalBurst,
                CardId::RazorNet, CardId::FracturePulse, CardId::VectorLock, CardId::SeverArc,
                CardId::Lockbreaker, CardId::CounterLattice,
            ]
        } else if level == 2 {
            seq![
                CardId::SunderingArc, CardId::TwinStrike, CardId::BarrierField, CardId::TacticalBurst,
                CardId::RazorNet, CardId::FracturePulse, CardId::VectorLock, CardId::SeverArc,
                CardId::Lockbreaker, CardId::CounterLattice, CardId::BreachSignal,
            ]
        } else {
            seq![
                CardId::SunderingArc, CardId::TwinStrike, CardId::BarrierField, CardId::TacticalBurst,
                CardId::RazorNet, CardId::FracturePulse, CardId::VectorLock, CardId::SeverArc,
                CardId::Lockbreaker, CardId::CounterLattice, CardId::BreachSignal, CardId::AnchorLoop,
            ]
        },
        RewardTier::Boss => seq![
            CardId::ExecutionBeam, CardId::ChainBarrage, CardId::FortressMatrix,
            CardId::OverwatchGrid, CardId::TerminalLoop, CardId::ZeroPoint,
        ],
    }
}

/// The reward pool of a tier at a level.
pub fn reward_pool(tier: RewardTier, level: usize) -> (pool: Vec<CardId>)
    ensures
        pool@ == spec_reward_pool(tier, level),
        pool.len() >= 6,
{
    let pool = match tier {
        RewardTier::Combat => vec![
            CardId::FlareSlash, CardId::GuardStep, CardId::Slipstream, CardId::QuickStrike,
            CardId::PinpointJab, CardId::SignalTap, CardId::Reinforce, CardId::PressurePoint,
            CardId::BurstArray, CardId::CoverPulse, CardId::RiftDart, CardId::MarkPulse,
            CardId::BraceCircuit, CardId::FaultShot,
        ],
        RewardTier::Elite => if level <= 1 {
            vec![
                CardId::SunderingArc, CardId::TwinStrike, CardId::BarrierField, CardId::TacticalBurst,
                CardId::RazorNet, CardId::FracturePulse, CardId::VectorLock, CardId::SeverArc,
                CardId::Lockbreaker, CardId::CounterLattice,
            ]
        } else if level == 2 {
            vec![
                CardId::SunderingArc, CardId::TwinStrike, CardId::BarrierField, CardId::TacticalBurst,
                CardId::RazorNet, CardId::FracturePulse, CardId::VectorLock, CardId::SeverArc,
                CardId::Lockbreaker, CardId::CounterLattice, CardId::BreachSignal,
            ]
        } else {
            vec![
                CardId::SunderingArc, CardId::TwinStrike, CardId::BarrierField, CardId::TacticalBurst,
                CardId::RazorNet, CardId::FracturePulse, CardId::VectorLock, CardId::SeverArc,
                CardId::Lockbreaker, CardId::CounterLattice, CardId::BreachSignal, CardId::AnchorLoop,
            ]
        },
        RewardTier::Boss => vec![
            CardId::ExecutionBeam, CardId::ChainBarrage, CardId::FortressMatrix,
            CardId::OverwatchGrid, CardId::TerminalLoop, CardId::ZeroPoint,
        ],
    };
    proof {
        assert(pool@ =~= spec_reward_pool(tier, level));
    }
    pool
}

/// The tiers of the three shop slots at a level (levels clamp to 1..=3).
pub open spec fn spec_shop_offer_tiers(level: usize) -> Seq<RewardTier> {
    if level <= 1 {
        seq![RewardTier::Combat, RewardTier::Elite, RewardTier::Elite]
    } else if level == 2 {
        seq![RewardTier::Combat, RewardTier::Elite, RewardTier::Boss]
    } else {
        seq![RewardTier::Elite, RewardTier::Elite, RewardTier::Boss]
    }
}

pub fn shop_offer_tiers(level: usize) -> (tiers: Vec<RewardTier>)
    ensures
        tiers@ == spec_shop_offer_tiers(level),
{
    let tiers = if level <= 1 {
        vec![RewardTier::Combat, RewardTier::Elite, RewardTier::Elite]
    } else if level == 2 {
        vec![RewardTier::Combat, RewardTier::Elite, RewardTier::Boss]
    } else {
        vec![RewardTier::Elite, RewardTier::Elite, RewardTier::Boss]
    };
    proof {
        assert(tiers@ =~= spec_shop_offer_tiers(level));
    }
    tiers
}

pub open spec fn spec_shop_price_for_tier(tier: RewardTier) -> u32 {
    match tier {
        RewardTier::Combat => 16,
        RewardTier::Elite => 24,
        RewardTier::Boss => 40,
    }
}

/// Shop price of a card of the given tier.
pub fn shop_price_for_tier(tier: RewardTier) -> (price: u32)
    ensures
        price == spec_shop_price_for_tier(tier),
{
    match tier {
        RewardTier::Combat => 16,
        RewardTier::Elite => 24,
        RewardTier::Boss => 40,
    }
}

/// SplitMix64-style finaliser shared by the reward and event rolls.
pub open spec fn spec_mix64(value: u64) -> u64 {
    let a = value ^ (value >> 30u64);
    let b = a.wrapping_mul(0xBF58_476D_1CE4_E5B9u64);
    let c = b ^ (b >> 27u64);
    let d = c.wrapping_mul(0x94D0_49BB_1331_11EBu64);
    d ^ (d >> 31u64)
}

pub fn mix64(value: u64) -> (mixed: u64)
    ensures
        mixed == spec_mix64(value),
{
    let mut x = value;
    x = x ^ (x >> 30u64);
    x = x.wrapping_mul(0xBF58_476D_1CE4_E5B9u64);
    x = x ^ (x >> 27u64);
    x = x.wrapping_mul(0x94D0_49BB_1331_11EBu64);
    x ^ (x >> 31u64)
}

/// The key a card is ranked by in a reward roll with the given seed.
pub open spec fn spec_reward_roll_key(seed: u64, card: CardId) -> u64 {
    spec_mix64(seed ^ ((spec_card_ordinal(card) + 1) as u64).wrapping_mul(0x9E37_79B9_7F4A_7C15u64))
}

pub fn reward_roll_key(seed: u64, card: CardId) -> (key: u64)
    ensures
        key == spec_reward_roll_key(seed, card),
{
    let ordinal = card_ordinal(card);
    mix64(seed ^ (ordinal + 1).wrapping_mul(0x9E37_79B9_7F4A_7C15u64))
}

/// `i` comes before `j` when ranking by `keys`: smaller key first, earlier position on ties.
pub open spec fn ranks_before(keys: Seq<u64>, i: int, j: int) -> bool {
    keys[i] < keys[j] || (keys[i] == keys[j] && i < j)
}

/// `order` lists the `min(k, keys.len())` positions of `keys` that rank first, in rank order
/// (what a stable sort by key followed by truncation to `k` yields).
pub open spec fn is_ranked_prefix(keys: Seq<u64>, order: Seq<usize>, k: nat) -> bool {
    &&& order.len() == (if k < keys.len() { k } else { keys.len() })
    &&& forall|a: int| 0 <= a < order.len() ==> (#[trigger] order[a] as int) < keys.len()
    &&& forall|a: int, b: int|
        0 <= a < b < order.len() ==> ranks_before(keys, order[a] as int, order[b] as int)
    &&& forall|a: int, j: int|
        0 <= a < order.len() && 0 <= j < keys.len() && !order.contains(j as usize)
            ==> ranks_before(keys, order[a] as int, j)
}

/// The positions of the `k` first-ranked keys, in rank order.
pub fn ranked_prefix(keys: &Vec<u64>, k: usize) -> (order: Vec<usize>)
    ensures
        is_ranked_prefix(keys@, order@, k as nat),
{
    let n = keys.len();
    let target = if k < n { k } else { n };
    let mut remaining: Vec<usize> = Vec::new();
    let mut i: usize = 0;
    while i < n
        invariant
            i <= n,
            n == keys.len(),
            remaining.len() == i,
            forall|a: int| 0 <= a < i ==> remaining[a] == a,
        decreases n - i,
    {
        remaining.push(i);
        i = i + 1;
    }
    let mut order: Vec<usize> = Vec::new();
    proof {
        assert forall|j: usize| j < n implies remaining@.contains(j) by {
            assert(remaining[j as int] == j);
        }
    }
    while order.len() < target
        invariant
            n == keys.len(),
            target <= n,
            order.len() <= target,
            remaining.len() + order.len() == n,
            forall|a: int| 0 <= a < remaining.len() ==> (#[trigger] remaining[a] as int) < n,
            forall|a: int, b: int|
                0 <= a < b < remaining.len() ==> remaining[a] != remaining[b],
            forall|a: int| 0 <= a < order.len() ==> (#[trigger] order[a] as int) < n,
            forall|j: usize|
                j < n ==> (#[trigger] remaining@.contains(j) <==> !order@.contains(j)),
            forall|a: int, b: int|
                0 <= a < b < order.len() ==> ranks_before(keys@, order[a] as int, order[b] as int),
            forall|a: int, r: int|
                0 <= a < order.len() && 0 <= r < remaining.len() ==> ranks_before(
                    keys@,
                    order[a] as int,
                    remaining[r] as int,
                ),
        decreases target - order.len(),
    {
        let mut best: usize = 0;
        let mut j: usize = 1;
        while j < remaining.len()
            invariant
                n == keys.len(),
                0 < remaining.len(),
                forall|a: int| 0 <= a < remaining.len() ==> (#[trigger] remaining[a] as int) < n,
                forall|a: int, b: int|
                    0 <= a < b < remaining.len() ==> remaining[a] != remaining[b],
                1 <= j <= remaining.len(),
                best < j,
                forall|m: int|
                    0 <= m < j && m != best ==> ranks_before(
                        keys@,
                        remaining[best as int] as int,
                        remaining[m] as int,
                    ),
            decreases remaining.len() - j,
        {
            let candidate = remaining[j];
            let current = remaining[best];
            if keys[candidate] < keys[current] || (keys[candidate] == keys[current]
                && candidate < current) {
                best = j;
            }
            j = j + 1;
        }
        let ghost old_order = order@;
        let ghost old_remaining = remaining@;
        let chosen = remaining.remove(best);
        order.push(chosen);
        proof {
            assert forall|a: int, b: int| 0 <= a < b < remaining.len() implies remaining[a]
                != remaining[b] by {
                let oa = if a < best { a } else { a + 1 };
                let ob = if b < best { b } else { b + 1 };
                assert(remaining[a] == old_remaining[oa]);
                assert(remaining[b] == old_remaining[ob]);
            }
            assert forall|a: int, b: int| 0 <= a < b < order.len() implies ranks_before(
                keys@,
                order[a] as int,
                order[b] as int,
            ) by {
                if b == order.len() - 1 {
                    assert(old_remaining[best as int] == chosen);
                }
            }
            assert forall|a: int, r: int|
                0 <= a < order.len() && 0 <= r < remaining.len() implies ranks_before(
                keys@,
                order[a] as int,
                remaining[r] as int,
            ) by {
                if r < best {
                    assert(remaining[r] == old_remaining[r]);
                } else {
                    assert(remaining[r] == old_remaining[r + 1]);
                }
                if a == order.len() - 1 {
                    if r < best {
                        assert(r != best);
                    } else {
                        assert(r + 1 != best);
                    }
                }
            }
            assert forall|j: usize| j < n implies (remaining@.contains(j)
                <==> !order@.contains(j)) by {
                if remaining@.contains(j) {
                    let r = choose|r: int| 0 <= r < remaining.len() && remaining[r] == j;
                    if r < best {
                        assert(old_remaining[r] == j);
                    } else {
                        assert(old_remaining[r + 1] == j);
                    }
                    assert(old_remaining.contains(j));
                    assert(!old_order.contains(j));
                    assert(order@ == old_order.push(chosen));
                    if order@.contains(j) {
                        let q = choose|q: int| 0 <= q < order.len() && order[q] == j;
                        if q < old_order.len() {
                            assert(old_order[q] == j);
                        } else {
                            // the chosen element ranks strictly before every other remaining one,
                            // so it cannot still be among them
                            assert(ranks_before(keys@, chosen as int, j as int));
                        }
                    }
                } else {
                    if old_remaining.contains(j) {
                        let r = choose|r: int|
                            0 <= r < old_remaining.len() && old_remaining[r] == j;
                        if r < best {
                            assert(remaining[r] == j);
                        } else if r > best {
                            assert(remaining[r - 1] == j);
                        } else {
                            assert(order[order.len() - 1] == j);
                        }
                    } else {
                        assert(old_order.contains(j));
                        let q = choose|q: int| 0 <= q < old_order.len() && old_order[q] == j;
                        assert(order[q] == j);
                    }
                }
            }
        }
    }
    proof {
        assert forall|a: int, j: int|
            0 <= a < order.len() && 0 <= j < keys.len() && !order@.contains(j as usize) implies ranks_before(
            keys@,
            order[a] as int,
            j,
        ) by {
            assert(remaining@.contains(j as usize));
            let r = choose|r: int| 0 <= r < remaining.len() && remaining[r] == j as usize;
        }
    }
    order
}


/// The reward-roll keys of the cards of `pool` under `seed`.
pub open spec fn spec_roll_keys(seed: u64, pool: Seq<CardId>) -> Seq<u64> {
    pool.map_values(|card: CardId| spec_reward_roll_key(seed, card))
}

/// The cards of `pool` at the positions `order`.
pub open spec fn cards_at(pool: Seq<CardId>, order: Seq<usize>) -> Seq<CardId> {
    order.map_values(|i: usize| pool[i as int])
}

/// Roll keys of a pool, computed position by position.
pub fn roll_keys(seed: u64, pool: &Vec<CardId>) -> (keys: Vec<u64>)
    ensures
        keys@ == spec_roll_keys(seed, pool@),
{
    let mut keys: Vec<u64> = Vec::new();
    let mut i: usize = 0;
    while i < pool.len()
        invariant
            i <= pool.len(),
            keys.len() == i,
            forall|a: int| 0 <= a < i ==> keys[a] == spec_reward_roll_key(seed, pool[a]),
        decreases pool.len() - i,
    {
        keys.push(reward_roll_key(seed, pool[i]));
        i = i + 1;
    }
    proof {
        assert(keys@ =~= spec_roll_keys(seed, pool@));
    }
    keys
}

/// The cards of `pool` at the positions `order`.
pub fn pick_cards(pool: &Vec<CardId>, order: &Vec<usize>) -> (cards: Vec<CardId>)
    requires
        forall|a: int| 0 <= a < order.len() ==> (#[trigger] order[a] as int) < pool.len(),
    ensures
        cards@ == cards_at(pool@, order@),
{
    let mut cards: Vec<CardId> = Vec::new();
    let mut i: usize = 0;
    while i < order.len()
        invariant
            i <= order.len(),
            cards.len() == i,
            forall|a: int| 0 <= a < order.len() ==> (#[trigger] order[a] as int) < pool.len(),
            forall|a: int| 0 <= a < i ==> cards[a] == pool[order[a] as int],
        decreases order.len() - i,
    {
        cards.push(pool[order[i]]);
        i = i + 1;
    }
    proof {
        assert(cards@ =~= cards_at(pool@, order@));
    }
    cards
}

/// Three cards of the tier's pool: the ones whose roll keys under `seed` rank first,
/// in rank order.
pub fn reward_choices(seed: u64, tier: RewardTier, level: usize) -> (cards: Vec<CardId>)
    ensures
        cards.len() == 3,
        exists|order: Seq<usize>|
            is_ranked_prefix(spec_roll_keys(seed, spec_reward_pool(tier, level)), order, 3)
                && cards@ == cards_at(spec_reward_pool(tier, level), order),
{
    let pool = reward_pool(tier, level);
    let keys = roll_keys(seed, &pool);
    let order = ranked_prefix(&keys, 3);
    let cards = pick_cards(&pool, &order);
    cards
}

/// The first card of `ranked` that is not in `chosen`, if any.
pub open spec fn first_unchosen(ranked: Seq<CardId>, chosen: Seq<CardId>) -> Option<CardId>
    decreases ranked.len(),
{
    if ranked.len() == 0 {
        None
    } else if !chosen.contains(ranked[0]) {
        Some(ranked[0])
    } else {
        first_unchosen(ranked.drop_first(), chosen)
    }
}

/// The card a shop slot offers: the best-ranked card not offered yet, or the best-ranked
/// card when every card of the pool is already on offer.
pub open spec fn shop_pick(ranked: Seq<CardId>, chosen: Seq<CardId>) -> CardId {
    match first_unchosen(ranked, chosen) {
        Some(card) => card,
        None => ranked[0],
    }
}

/// The seed of shop slot `index`.
pub open spec fn spec_shop_slot_seed(seed: u64, index: usize) -> u64 {
    seed ^ ((index + 1) as u64).wrapping_mul(0xD6E8_FD50_19E3_7C4Bu64)
}

fn contains_card(cards: &Vec<CardId>, card: CardId) -> (found: bool)
    ensures
        found == cards@.contains(card),
{
    let mut i: usize = 0;
    while i < cards.len()
        invariant
            i <= cards.len(),
            forall|a: int| 0 <= a < i ==> cards[a] != card,
        decreases cards.len() - i,
    {
        if cards[i] == card {
            return true;
        }
        i = i + 1;
    }
    false
}

/// The shop pick among `ranked` (non-empty) given the cards already chosen.
pub fn pick_shop_card(ranked: &Vec<CardId>, chosen: &Vec<CardId>) -> (card: CardId)
    requires
        ranked.len() > 0,
    ensures
        card == shop_pick(ranked@, chosen@),
{
    let mut i: usize = 0;
    proof {
        assert(ranked@.skip(0) =~= ranked@);
    }
    while i < ranked.len()
        invariant
            i <= ranked.len(),
            ranked.len() > 0,
            first_unchosen(ranked@, chosen@) == first_unchosen(ranked@.skip(i as int), chosen@),
        decreases ranked.len() - i,
    {
        proof {
            assert(ranked@.skip(i as int).drop_first() =~= ranked@.skip(i + 1));
        }
        if !contains_card(chosen, ranked[i]) {
            return ranked[i];
        }
        i = i + 1;
    }
    proof {
        assert(ranked@.skip(i as int).len() == 0);
    }
    ranked[0]
}

/// Shop slot `i` of `offers` holds the tier's best-ranked card under the slot seed that the
/// earlier slots do not already offer.
pub open spec fn shop_slot_matches(seed: u64, level: usize, offers: Seq<ShopOffer>, i: int) -> bool {
    let pool = spec_reward_pool(spec_shop_offer_tiers(level)[i], level);
    exists|order: Seq<usize>|
        #[trigger] is_ranked_prefix(
            spec_roll_keys(spec_shop_slot_seed(seed, i as usize), pool),
            order,
            pool.len(),
        ) && offers[i].card == shop_pick(
            cards_at(pool, order),
            offers.take(i).map_values(|offer: ShopOffer| offer.card),
        )
}

/// The three shop offers of a level: per slot, the slot tier's best-ranked card under the
/// slot's seed that is not already on offer, priced by tier.
pub fn shop_offers(seed: u64, level: usize) -> (offers: Vec<ShopOffer>)
    ensures
        offers.len() == 3,
        forall|i: int|
            0 <= i < 3 ==> (#[trigger] offers[i]).price == spec_shop_price_for_tier(
                spec_shop_offer_tiers(level)[i],
            ),
        forall|i: int|
            0 <= i < 3 ==> shop_slot_matches(seed, level, offers@, i),
{
    let tiers = shop_offer_tiers(level);
    let mut chosen: Vec<CardId> = Vec::new();
    let mut offers: Vec<ShopOffer> = Vec::new();
    let mut index: usize = 0;
    while index < 3
        invariant
            index <= 3,
            tiers@ == spec_shop_offer_tiers(level),
            offers.len() == index,
            chosen@ == offers@.map_values(|offer: ShopOffer| offer.card),
            forall|i: int|
                0 <= i < index ==> (#[trigger] offers[i]).price == spec_shop_price_for_tier(
                    spec_shop_offer_tiers(level)[i],
                ),
            forall|i: int|
                0 <= i < index ==> shop_slot_matches(seed, level, offers@, i),
        decreases 3 - index,
    {
        let tier = tiers[index];
        let offer_seed = seed ^ (index as u64 + 1).wrapping_mul(0xD6E8_FD50_19E3_7C4Bu64);
        let pool = reward_pool(tier, level);
        let keys = roll_keys(offer_seed, &pool);
        let order = ranked_prefix(&keys, pool.len());
        let ranked = pick_cards(&pool, &order);
        let card = pick_shop_card(&ranked, &chosen);
        let ghost old_offers = offers@;
        let offer = ShopOffer { card, price: shop_price_for_tier(tier) };
        offers.push(offer);
        chosen.push(card);
        proof {
            assert(old_offers.take(index as int) =~= old_offers);
            assert(offers@.take(index as int) =~= old_offers);
            assert(chosen@ =~= offers@.map_values(|offer: ShopOffer| offer.card));
            assert forall|i: int|
                0 <= i < index + 1 implies shop_slot_matches(seed, level, offers@, i) by {
                if i < index {
                    assert(offers[i] == old_offers[i]);
                    assert(offers@.take(i) =~= old_offers.take(i));
                    assert(shop_slot_matches(seed, level, old_offers, i));
                } else {
                    assert(offers@.take(i) =~= old_offers);
                    assert(order@.len() == pool@.len());
                    assert(is_ranked_prefix(
                        spec_roll_keys(spec_shop_slot_seed(seed, i as usize), pool@),
                        order@,
                        pool@.len(),
                    ));
                }
            }
        }
        index = index + 1;
    }
    offers
}

pub open spec fn spec_event_def(id: EventId) -> EventDef {
    match id {
        EventId::SalvageCache => EventDef { id, title: "Salvage Cache", flavor: "A drift crate hums beneath a half-collapsed service gantry." },
        EventId::RelayTerminal => EventDef { id, title: "Relay Terminal", flavor: "A damaged relay terminal still shows a few readable combat routines." },
        EventId::ClinicPod => EventDef { id, title: "Clinic Pod", flavor: "An intact med pod still cycles a pale diagnostic glow." },
        EventId::ExchangeConsole => EventDef { id, title: "Exchange Console", flavor: "An exchange console still lets you trade useful parts for credits." },
        EventId::PrototypeRack => EventDef { id, title: "Prototype Rack", flavor: "A sealed rack flickers between proven gear and live-fire prototypes." },
        EventId::CoolingVault => EventDef { id, title: "Cooling Vault", flavor: "A cooling vault is still running, though the temperature controls are unstable." },
    }
}

/// Static definition of an event.
pub fn event_def(id: EventId) -> (def: EventDef)
    ensures
        def == spec_event_def(id),
{
    match id {
        EventId::SalvageCache => EventDef { id, title: "Salvage Cache", flavor: "A drift crate hums beneath a half-collapsed service gantry." },
        EventId::RelayTerminal => EventDef { id, title: "Relay Terminal", flavor: "A damaged relay terminal still shows a few readable combat routines." },
        EventId::ClinicPod => EventDef { id, title: "Clinic Pod", flavor: "An intact med pod still cycles a pale diagnostic glow." },
        EventId::ExchangeConsole => EventDef { id, title: "Exchange Console", flavor: "An exchange console still lets you trade useful parts for credits." },
        EventId::PrototypeRack => EventDef { id, title: "Prototype Rack", flavor: "A sealed rack flickers between proven gear and live-fire prototypes." },
        EventId::CoolingVault => EventDef { id, title: "Cooling Vault", flavor: "A cooling vault is still running, though the temperature controls are unstable." },
    }
}

/// The English title of option `choice_index` of an event (each event has options 0 and 1).
pub open spec fn spec_event_choice_title(event: EventId, choice_index: usize) -> Option<&'static str> {
    match (event, choice_index) {
        (EventId::SalvageCache, 0) => Some("Take the clean parts"),
        (EventId::SalvageCache, 1) => Some("Cut the safety seals"),
        (EventId::RelayTerminal, 0) => Some("Copy the shield routine"),
        (EventId::RelayTerminal, 1) => Some("Pull the attack routine"),
        (EventId::ClinicPod, 0) => Some("Run the recovery cycle"),
        (EventId::ClinicPod, 1) => Some("Overclock the chassis"),
        (EventId::ExchangeConsole, 0) => Some("Sell the spare plating"),
        (EventId::ExchangeConsole, 1) => Some("Sell the coolant reserve"),
        (EventId::PrototypeRack, 0) => Some("Take the stable shell"),
        (EventId::PrototypeRack, 1) => Some("Take the live prototype"),
        (EventId::CoolingVault, 0) => Some("Rest by the coolant vent"),
        (EventId::CoolingVault, 1) => Some("Endure the freezing chamber"),
        _ => None,
    }
}

/// The English title of an event's choice, if the event has that choice.
pub fn event_choice_title(event: EventId, choice_index: usize) -> (title: Option<&'static str>)
    ensures
        title == spec_event_choice_title(event, choice_index),
        title.is_some() <==> choice_index < 2,
{
    match (event, choice_index) {
        (EventId::SalvageCache, 0) => Some("Take the clean parts"),
        (EventId::SalvageCache, 1) => Some("Cut the safety seals"),
        (EventId::RelayTerminal, 0) => Some("Copy the shield routine"),
        (EventId::RelayTerminal, 1) => Some("Pull the attack routine"),
        (EventId::ClinicPod, 0) => Some("Run the recovery cycle"),
        (EventId::ClinicPod, 1) => Some("Overclock the chassis"),
        (EventId::ExchangeConsole, 0) => Some("Sell the spare plating"),
        (EventId::ExchangeConsole, 1) => Some("Sell the coolant reserve"),
        (EventId::PrototypeRack, 0) => Some("Take the stable shell"),
        (EventId::PrototypeRack, 1) => Some("Take the live prototype"),
        (EventId::CoolingVault, 0) => Some("Rest by the coolant vent"),
        (EventId::CoolingVault, 1) => Some("Endure the freezing chamber"),
        _ => None,
    }
}

/// The level an event is resolved at, clamped to 1..=3.
pub open spec fn clamp_level(level: usize) -> usize {
    if level < 1 { 1 } else if level > 3 { 3 } else { level }
}

/// What choosing option `choice_index` of `event` does at `level` (levels clamp to 1..=3).
pub open spec fn spec_event_choice_effect(event: EventId, choice_index: usize, level: usize) -> Option<EventChoiceEffect> {
    let level = clamp_level(level);
    match (event, choice_index) {
        (EventId::SalvageCache, 0) => Some(EventChoiceEffect::GainCredits(if level == 1 { 16 } else if level == 2 { 20 } else { 24 })),
        (EventId::SalvageCache, 1) => Some(EventChoiceEffect::LoseHpGainCredits { lose_hp: 6, gain_credits: if level == 1 { 28 } else if level == 2 { 34 } else { 40 } }),
        (EventId::RelayTerminal, 0) => Some(EventChoiceEffect::AddCard(CardId::CoverPulse)),
        (EventId::RelayTerminal, 1) => Some(EventChoiceEffect::LoseHpAddCard { lose_hp: 4, card: CardId::TacticalBurst }),
        (EventId::ClinicPod, 0) => Some(EventChoiceEffect::Heal(if level == 1 { 8 } else if level == 2 { 10 } else { 12 })),
        (EventId::ClinicPod, 1) => Some(EventChoiceEffect::LoseHpGainMaxHp { lose_hp: 5, gain_max_hp: 4 }),
        (EventId::ExchangeConsole, 0) => Some(EventChoiceEffect::GainCredits(22)),
        (EventId::ExchangeConsole, 1) => Some(EventChoiceEffect::LoseHpGainCredits { lose_hp: 5, gain_credits: 36 }),
        (EventId::PrototypeRack, 0) => Some(EventChoiceEffect::AddCard(if level == 1 { CardId::CoverPulse } else if level == 2 { CardId::BarrierField } else { CardId::FortressMatrix })),
        (EventId::PrototypeRack, 1) => Some(EventChoiceEffect::LoseHpAddCard { lose_hp: 5, card: if level == 1 { CardId::TacticalBurst } else if level == 2 { CardId::VectorLock } else { CardId::ZeroPoint } }),
        (EventId::CoolingVault, 0) => Some(EventChoiceEffect::Heal(12)),
        (EventId::CoolingVault, 1) => Some(EventChoiceEffect::LoseHpGainMaxHp { lose_hp: 6, gain_max_hp: 5 }),
        _ => None,
    }
}

/// What an event choice does at a level.
pub fn event_choice_effect(event: EventId, choice_index: usize, level: usize) -> (effect: Option<EventChoiceEffect>)
    ensures
        effect == spec_event_choice_effect(event, choice_index, level),
{
    let level = if level < 1 { 1 } else if level > 3 { 3 } else { level };
    match (event, choice_index) {
        (EventId::SalvageCache, 0) => Some(EventChoiceEffect::GainCredits(if level == 1 { 16 } else if level == 2 { 20 } else { 24 })),
        (EventId::SalvageCache, 1) => Some(EventChoiceEffect::LoseHpGainCredits { lose_hp: 6, gain_credits: if level == 1 { 28 } else if level == 2 { 34 } else { 40 } }),
        (EventId::RelayTerminal, 0) => Some(EventChoiceEffect::AddCard(CardId::CoverPulse)),
        (EventId::RelayTerminal, 1) => Some(EventChoiceEffect::LoseHpAddCard { lose_hp: 4, card: CardId::TacticalBurst }),
        (EventId::ClinicPod, 0) => Some(EventChoiceEffect::Heal(if level == 1 { 8 } else if level == 2 { 10 } else { 12 })),
        (EventId::ClinicPod, 1) => Some(EventChoiceEffect::LoseHpGainMaxHp { lose_hp: 5, gain_max_hp: 4 }),
        (EventId::ExchangeConsole, 0) => Some(EventChoiceEffect::GainCredits(22)),
        (EventId::ExchangeConsole, 1) => Some(EventChoiceEffect::LoseHpGainCredits { lose_hp: 5, gain_credits: 36 }),
        (EventId::PrototypeRack, 0) => Some(EventChoiceEffect::AddCard(if level == 1 { CardId::CoverPulse } else if level == 2 { CardId::BarrierField } else { CardId::FortressMatrix })),
        (EventId::PrototypeRack, 1) => Some(EventChoiceEffect::LoseHpAddCard { lose_hp: 5, card: if level == 1 { CardId::TacticalBurst } else if level == 2 { CardId::VectorLock } else { CardId::ZeroPoint } }),
        (EventId::CoolingVault, 0) => Some(EventChoiceEffect::Heal(12)),
        (EventId::CoolingVault, 1) => Some(EventChoiceEffect::LoseHpGainMaxHp { lose_hp: 6, gain_max_hp: 5 }),
        _ => None,
    }
}

/// The two events of a level (levels clamp to 1..=3).
pub open spec fn spec_event_pool_for_level(level: usize) -> (EventId, EventId) {
    let level = clamp_level(level);
    if level == 1 {
        (EventId::SalvageCache, EventId::RelayTerminal)
    } else if level == 2 {
        (EventId::ClinicPod, EventId::ExchangeConsole)
    } else {
        (EventId::PrototypeRack, EventId::CoolingVault)
    }
}

pub fn event_pool_for_level(level: usize) -> (events: [EventId; 2])
    ensures
        events[0] == spec_event_pool_for_level(level).0,
        events[1] == spec_event_pool_for_level(level).1,
{
    let level = if level < 1 { 1 } else if level > 3 { 3 } else { level };
    if level == 1 {
        [EventId::SalvageCache, EventId::RelayTerminal]
    } else if level == 2 {
        [EventId::ClinicPod, EventId::ExchangeConsole]
    } else {
        [EventId::PrototypeRack, EventId::CoolingVault]
    }
}

pub open spec fn spec_event_ordinal(event: EventId) -> u64 {
    match event {
        EventId::SalvageCache => 0,
        EventId::RelayTerminal => 1,
        EventId::ClinicPod => 2,
        EventId::ExchangeConsole => 3,
        EventId::PrototypeRack => 4,
        EventId::CoolingVault => 5,
    }
}

pub fn event_ordinal(event: EventId) -> (ordinal: u64)
    ensures
        ordinal == spec_event_ordinal(event),
        ordinal < 6,
{
    match event {
        EventId::SalvageCache => 0,
        EventId::RelayTerminal => 1,
        EventId::ClinicPod => 2,
        EventId::ExchangeConsole => 3,
        EventId::PrototypeRack => 4,
        EventId::CoolingVault => 5,
    }
}

/// The key an event is ranked by when ordering a level's events under `seed`.
pub open spec fn spec_event_roll_key(seed: u64, event: EventId) -> u64 {
    spec_mix64(seed ^ ((spec_event_ordinal(event) + 1) as u64).wrapping_mul(0x517C_C1B7_2722_0A95u64))
}

pub fn event_roll_key(seed: u64, event: EventId) -> (key: u64)
    ensures
        key == spec_event_roll_key(seed, event),
{
    let ordinal = event_ordinal(event);
    mix64(seed ^ (ordinal + 1).wrapping_mul(0x517C_C1B7_2722_0A95u64))
}

/// The level's two events in the order the map hands them out: by roll key, the pool's
/// first event first on ties.
pub open spec fn spec_ordered_events_for_level(seed: u64, level: usize) -> (EventId, EventId) {
    let (a, b) = spec_event_pool_for_level(level);
    if spec_event_roll_key(seed, b) < spec_event_roll_key(seed, a) { (b, a) } else { (a, b) }
}

pub fn ordered_events_for_level(seed: u64, level: usize) -> (events: [EventId; 2])
    ensures
        events[0] == spec_ordered_events_for_level(seed, level).0,
        events[1] == spec_ordered_events_for_level(seed, level).1,
{
    let pool = event_pool_for_level(level);
    let first = pool[0];
    let second = pool[1];
    if event_roll_key(seed, second) < event_roll_key(seed, first) {
        [second, first]
    } else {
        [first, second]
    }
}

pub open spec fn spec_enemy_name(profile: EnemyProfileId) -> &'static str {
    match profile {
        EnemyProfileId::ScoutDrone => "Scout Drone",
        EnemyProfileId::NeedlerDrone => "Needler Drone",
        EnemyProfileId::RampartDrone => "Rampart Drone",
        EnemyProfileId::SpineSentry => "Spine Sentry",
        EnemyProfileId::PentaCore => "Penta Core",
        EnemyProfileId::VoltMantis => "Volt Mantis",
        EnemyProfileId::ShardWeaver => "Shard Weaver",
        EnemyProfileId::PrismArray => "Prism Array",
        EnemyProfileId::GlassBishop => "Glass Bishop",
        EnemyProfileId::HexarchCore => "Hexarch Core",
        EnemyProfileId::NullRaider => "Null Raider",
        EnemyProfileId::RiftStalker => "Rift Stalker",
        EnemyProfileId::SiegeSpider => "Siege Spider",
        EnemyProfileId::RiftBastion => "Rift Bastion",
        EnemyProfileId::HeptarchCore => "Heptarch Core",
    }
}

/// English name of an enemy profile.
pub fn enemy_name(profile: EnemyProfileId) -> (name: &'static str)
    ensures
        name == spec_enemy_name(profile),
{
    match profile {
        EnemyProfileId::ScoutDrone => "Scout Drone",
        EnemyProfileId::NeedlerDrone => "Needler Drone",
        EnemyProfileId::RampartDrone => "Rampart Drone",
        EnemyProfileId::SpineSentry => "Spine Sentry",
        EnemyProfileId::PentaCore => "Penta Core",
        EnemyProfileId::VoltMantis => "Volt Mantis",
        EnemyProfileId::ShardWeaver => "Shard Weaver",
        EnemyProfileId::PrismArray => "Prism Array",
        EnemyProfileId::GlassBishop => "Glass Bishop",
        EnemyProfileId::HexarchCore => "Hexarch Core",
        EnemyProfileId::NullRaider => "Null Raider",
        EnemyProfileId::RiftStalker => "Rift Stalker",
        EnemyProfileId::SiegeSpider => "Siege Spider",
        EnemyProfileId::RiftBastion => "Rift Bastion",
        EnemyProfileId::HeptarchCore => "Heptarch Core",
    }
}

/// The dungeon level an enemy profile belongs to.
pub open spec fn spec_enemy_profile_level(profile: EnemyProfileId) -> usize {
    match profile {
        EnemyProfileId::ScoutDrone | EnemyProfileId::NeedlerDrone | EnemyProfileId::RampartDrone
        | EnemyProfileId::SpineSentry | EnemyProfileId::PentaCore => 1,
        EnemyProfileId::VoltMantis | EnemyProfileId::ShardWeaver | EnemyProfileId::PrismArray
        | EnemyProfileId::GlassBishop | EnemyProfileId::HexarchCore => 2,
        _ => 3,
    }
}

pub fn enemy_profile_level(profile: EnemyProfileId) -> (level: usize)
    ensures
        level == spec_enemy_profile_level(profile),
{
    match profile {
        EnemyProfileId::ScoutDrone | EnemyProfileId::NeedlerDrone | EnemyProfileId::RampartDrone
        | EnemyProfileId::SpineSentry | EnemyProfileId::PentaCore => 1,
        EnemyProfileId::VoltMantis | EnemyProfileId::ShardWeaver | EnemyProfileId::PrismArray
        | EnemyProfileId::GlassBishop | EnemyProfileId::HexarchCore => 2,
        _ => 3,
    }
}


/// Upgrades do not chain: an upgraded card has no further upgrade.
pub proof fn upgrades_do_not_chain(card: CardId)
    ensures
        spec_upgraded_card(card) matches Some(upgraded) ==> spec_upgraded_card(upgraded) is None,
{
}
/// A card's name in a language (cards without a translation keep their name).
pub open spec fn spec_localized_card_name(id: CardId, language: Language) -> &'static str {
    match id {
        CardId::FlareSlash => spec_localized_text(language, "Strike", "Golpe"),
        CardId::FlareSlashPlus => spec_localized_text(language, "Strike+", "Golpe+"),
        CardId::GuardStep => spec_localized_text(language, "Defend", "Defensa"),
        CardId::GuardStepPlus => spec_localized_text(language, "Defend+", "Defensa+"),
        CardId::Slipstream => spec_localized_text(language, "Reposition", "Reposición"),
        CardId::SlipstreamPlus => spec_localized_text(language, "Reposition+", "Reposición+"),
        CardId::QuickStrike => spec_localized_text(language, "Quick Strike", "Golpe Veloz"),
        CardId::QuickStrikePlus => spec_localized_text(language, "Quick Strike+", "Golpe Veloz+"),
        CardId::PinpointJab => spec_localized_text(language, "Pinpoint Jab", "Golpe Certero"),
        CardId::PinpointJabPlus => spec_localized_text(language, "Pinpoint Jab+", "Golpe Certero+"),
        CardId::SignalTap => spec_localized_text(language, "Signal Tap", "Pulso de Señal"),
        CardId::SignalTapPlus => spec_localized_text(language, "Signal Tap+", "Pulso de Señal+"),
        CardId::Reinforce => spec_localized_text(language, "Reinforce", "Refuerzo"),
        CardId::ReinforcePlus => spec_localized_text(language, "Reinforce+", "Refuerzo+"),
        CardId::PressurePoint => spec_localized_text(language, "Pressure Point", "Punto de Presión"),
        CardId::PressurePointPlus => spec_localized_text(language, "Pressure Point+", "Punto de Presión+"),
        CardId::BurstArray => spec_localized_text(language, "Burst Array", "Ráfaga en Serie"),
        CardId::BurstArrayPlus => spec_localized_text(language, "Burst Array+", "Ráfaga en Serie+"),
        CardId::CoverPulse => spec_localized_text(language, "Cover Pulse", "Pulso de Cobertura"),
        CardId::CoverPulsePlus => spec_localized_text(language, "Cover Pulse+", "Pulso de Cobertura+"),
        CardId::SunderingArc => spec_localized_text(language, "Precise Strike", "Golpe Preciso"),
        CardId::SunderingArcPlus => spec_localized_text(language, "Precise Strike+", "Golpe Preciso+"),
        CardId::TwinStrike => spec_localized_text(language, "Twin Strike", "Golpe Doble"),
        CardId::TwinStrikePlus => spec_localized_text(language, "Twin Strike+", "Golpe Doble+"),
        CardId::BarrierField => spec_localized_text(language, "Barrier Field", "Campo de Barrera"),
        CardId::BarrierFieldPlus => spec_localized_text(language, "Barrier Field+", "Campo de Barrera+"),
        CardId::TacticalBurst => spec_localized_text(language, "Tactical Burst", "Impulso Táctico"),
        CardId::TacticalBurstPlus => spec_localized_text(language, "Tactical Burst+", "Impulso Táctico+"),
        CardId::RazorNet => spec_localized_text(language, "Razor Net", "Red Cortante"),
        CardId::RazorNetPlus => spec_localized_text(language, "Razor Net+", "Red Cortante+"),
        CardId::FracturePulse => spec_localized_text(language, "Fracture Pulse", "Pulso de Fractura"),
        CardId::FracturePulsePlus => spec_localized_text(language, "Fracture Pulse+", "Pulso de Fractura+"),
        CardId::VectorLock => spec_localized_text(language, "Vector Lock", "Bloqueo Vectorial"),
        CardId::VectorLockPlus => spec_localized_text(language, "Vector Lock+", "Bloqueo Vectorial+"),
        CardId::BreachSignal => spec_localized_text(language, "Breach Signal", "Señal de Brecha"),
        CardId::BreachSignalPlus => spec_localized_text(language, "Breach Signal+", "Señal de Brecha+"),
        CardId::AnchorLoop => spec_localized_text(language, "Anchor Loop", "Bucle de Anclaje"),
        CardId::AnchorLoopPlus => spec_localized_text(language, "Anchor Loop+", "Bucle de Anclaje+"),
        CardId::ExecutionBeam => spec_localized_text(language, "Execution Beam", "Rayo de Ejecución"),
        CardId::ExecutionBeamPlus => spec_localized_text(language, "Execution Beam+", "Rayo de Ejecución+"),
        CardId::ChainBarrage => spec_localized_text(language, "Chain Barrage", "Andanada en Cadena"),
        CardId::ChainBarragePlus => spec_localized_text(language, "Chain Barrage+", "Andanada en Cadena+"),
        CardId::FortressMatrix => spec_localized_text(language, "Fortress Matrix", "Matriz de Fortaleza"),
        CardId::FortressMatrixPlus => spec_localized_text(language, "Fortress Matrix+", "Matriz de Fortaleza+"),
        CardId::OverwatchGrid => spec_localized_text(language, "Overwatch Grid", "Red de Vigilancia"),
        CardId::OverwatchGridPlus => spec_localized_text(language, "Overwatch Grid+", "Red de Vigilancia+"),
        CardId::RiftDart => spec_localized_text(language, "Rift Dart", "Dardo de Brecha"),
        CardId::RiftDartPlus => spec_localized_text(language, "Rift Dart+", "Dardo de Brecha+"),
        CardId::MarkPulse => spec_localized_text(language, "Mark Pulse", "Pulso de Marca"),
        CardId::MarkPulsePlus => spec_localized_text(language, "Mark Pulse+", "Pulso de Marca+"),
        CardId::BraceCircuit => spec_localized_text(language, "Brace Circuit", "Circuito de Refuerzo"),
        CardId::BraceCircuitPlus => spec_localized_text(language, "Brace Circuit+", "Circuito de Refuerzo+"),
        CardId::FaultShot => spec_localized_text(language, "Fault Shot", "Disparo de Falla"),
        CardId::FaultShotPlus => spec_localized_text(language, "Fault Shot+", "Disparo de Falla+"),
        CardId::SeverArc => spec_localized_text(language, "Sever Arc", "Arco de Corte"),
        CardId::SeverArcPlus => spec_localized_text(language, "Sever Arc+", "Arco de Corte+"),
        CardId::Lockbreaker => spec_localized_text(language, "Lockbreaker", "Rompebloqueo"),
        CardId::LockbreakerPlus => spec_localized_text(language, "Lockbreaker+", "Rompebloqueo+"),
        CardId::CounterLattice => spec_localized_text(language, "Counter Lattice", "Trama de Respuesta"),
        CardId::CounterLatticePlus => spec_localized_text(language, "Counter Lattice+", "Trama de Respuesta+"),
        CardId::TerminalLoop => spec_localized_text(language, "Terminal Loop", "Bucle Terminal"),
        CardId::TerminalLoopPlus => spec_localized_text(language, "Terminal Loop+", "Bucle Terminal+"),
        CardId::ZeroPoint => spec_localized_text(language, "Zero Point", "Punto Cero"),
        CardId::ZeroPointPlus => spec_localized_text(language, "Zero Point+", "Punto Cero+"),
        _ => spec_card_def(id).name,
    }
}

pub fn localized_card_name(id: CardId, language: Language) -> (text: &'static str)
    ensures
        text == spec_localized_card_name(id, language),
{
    match id {
        CardId::FlareSlash => localized_text(language, "Strike", "Golpe"),
        CardId::FlareSlashPlus => localized_text(language, "Strike+", "Golpe+"),
        CardId::GuardStep => localized_text(language, "Defend", "Defensa"),
        CardId::GuardStepPlus => localized_text(language, "Defend+", "Defensa+"),
        CardId::Slipstream => localized_text(language, "Reposition", "Reposición"),
        CardId::SlipstreamPlus => localized_text(language, "Reposition+", "Reposición+"),
        CardId::QuickStrike => localized_text(language, "Quick Strike", "Golpe Veloz"),
        CardId::QuickStrikePlus => localized_text(language, "Quick Strike+", "Golpe Veloz+"),
        CardId::PinpointJab => localized_text(language, "Pinpoint Jab", "Golpe Certero"),
        CardId::PinpointJabPlus => localized_text(language, "Pinpoint Jab+", "Golpe Certero+"),
        CardId::SignalTap => localized_text(language, "Signal Tap", "Pulso de Señal"),
        CardId::SignalTapPlus => localized_text(language, "Signal Tap+", "Pulso de Señal+"),
        CardId::Reinforce => localized_text(language, "Reinforce", "Refuerzo"),
        CardId::ReinforcePlus => localized_text(language, "Reinforce+", "Refuerzo+"),
        CardId::PressurePoint => localized_text(language, "Pressure Point", "Punto de Presión"),
        CardId::PressurePointPlus => localized_text(language, "Pressure Point+", "Punto de Presión+"),
        CardId::BurstArray => localized_text(language, "Burst Array", "Ráfaga en Serie"),
        CardId::BurstArrayPlus => localized_text(language, "Burst Array+", "Ráfaga en Serie+"),
        CardId::CoverPulse => localized_text(language, "Cover Pulse", "Pulso de Cobertura"),
        CardId::CoverPulsePlus => localized_text(language, "Cover Pulse+", "Pulso de Cobertura+"),
        CardId::SunderingArc => localized_text(language, "Precise Strike", "Golpe Preciso"),
        CardId::SunderingArcPlus => localized_text(language, "Precise Strike+", "Golpe Preciso+"),
        CardId::TwinStrike => localized_text(language, "Twin Strike", "Golpe Doble"),
        CardId::TwinStrikePlus => localized_text(language, "Twin Strike+", "Golpe Doble+"),
        CardId::BarrierField => localized_text(language, "Barrier Field", "Campo de Barrera"),
        CardId::BarrierFieldPlus => localized_text(language, "Barrier Field+", "Campo de Barrera+"),
        CardId::TacticalBurst => localized_text(language, "Tactical Burst", "Impulso Táctico"),
        CardId::TacticalBurstPlus => localized_text(language, "Tactical Burst+", "Impulso Táctico+"),
        CardId::RazorNet => localized_text(language, "Razor Net", "Red Cortante"),
        CardId::RazorNetPlus => localized_text(language, "Razor Net+", "Red Cortante+"),
        CardId::FracturePulse => localized_text(language, "Fracture Pulse", "Pulso de Fractura"),
        CardId::FracturePulsePlus => localized_text(language, "Fracture Pulse+", "Pulso de Fractura+"),
        CardId::VectorLock => localized_text(language, "Vector Lock", "Bloqueo Vectorial"),
        CardId::VectorLockPlus => localized_text(language, "Vector Lock+", "Bloqueo Vectorial+"),
        CardId::BreachSignal => localized_text(language, "Breach Signal", "Señal de Brecha"),
        CardId::BreachSignalPlus => localized_text(language, "Breach Signal+", "Señal de Brecha+"),
        CardId::AnchorLoop => localized_text(language, "Anchor Loop", "Bucle de Anclaje"),
        CardId::AnchorLoopPlus => localized_text(language, "Anchor Loop+", "Bucle de Anclaje+"),
        CardId::ExecutionBeam => localized_text(language, "Execution Beam", "Rayo de Ejecución"),
        CardId::ExecutionBeamPlus => localized_text(language, "Execution Beam+", "Rayo de Ejecución+"),
        CardId::ChainBarrage => localized_text(language, "Chain Barrage", "Andanada en Cadena"),
        CardId::ChainBarragePlus => localized_text(language, "Chain Barrage+", "Andanada en Cadena+"),
        CardId::FortressMatrix => localized_text(language, "Fortress Matrix", "Matriz de Fortaleza"),
        CardId::FortressMatrixPlus => localized_text(language, "Fortress Matrix+", "Matriz de Fortaleza+"),
        CardId::OverwatchGrid => localized_text(language, "Overwatch Grid", "Red de Vigilancia"),
        CardId::OverwatchGridPlus => localized_text(language, "Overwatch Grid+", "Red de Vigilancia+"),
        CardId::RiftDart => localized_text(language, "Rift Dart", "Dardo de Brecha"),
        CardId::RiftDartPlus => localized_text(language, "Rift Dart+", "Dardo de Brecha+"),
        CardId::MarkPulse => localized_text(language, "Mark Pulse", "Pulso de Marca"),
        CardId::MarkPulsePlus => localized_text(language, "Mark Pulse+", "Pulso de Marca+"),
        CardId::BraceCircuit => localized_text(language, "Brace Circuit", "Circuito de Refuerzo"),
        CardId::BraceCircuitPlus => localized_text(language, "Brace Circuit+", "Circuito de Refuerzo+"),
        CardId::FaultShot => localized_text(language, "Fault Shot", "Disparo de Falla"),
        CardId::FaultShotPlus => localized_text(language, "Fault Shot+", "Disparo de Falla+"),
        CardId::SeverArc => localized_text(language, "Sever Arc", "Arco de Corte"),
        CardId::SeverArcPlus => localized_text(language, "Sever Arc+", "Arco de Corte+"),
        CardId::Lockbreaker => localized_text(language, "Lockbreaker", "Rompebloqueo"),
        CardId::LockbreakerPlus => localized_text(language, "Lockbreaker+", "Rompebloqueo+"),
        CardId::CounterLattice => localized_text(language, "Counter Lattice", "Trama de Respuesta"),
        CardId::CounterLatticePlus => localized_text(language, "Counter Lattice+", "Trama de Respuesta+"),
        CardId::TerminalLoop => localized_text(language, "Terminal Loop", "Bucle Terminal"),
        CardId::TerminalLoopPlus => localized_text(language, "Terminal Loop+", "Bucle Terminal+"),
        CardId::ZeroPoint => localized_text(language, "Zero Point", "Punto Cero"),
        CardId::ZeroPointPlus => localized_text(language, "Zero Point+", "Punto Cero+"),
        _ => card_def(id).name,
    }
}

/// A card's description in a language (cards without a translation keep their description).
pub open spec fn spec_localized_card_description(id: CardId, language: Language) -> &'static str {
    match id {
        CardId::FlareSlash => spec_localized_text(language, "Deal 6 damage.", "Inflige 6 de daño."),
        CardId::FlareSlashPlus => spec_localized_text(language, "Deal 9 damage.", "Inflige 9 de daño."),
        CardId::GuardStep => spec_localized_text(language, "Gain 5 Shield.", "Gana 5 de Escudo."),
        CardId::GuardStepPlus => spec_localized_text(language, "Gain 8 Shield.", "Gana 8 de Escudo."),
        CardId::Slipstream => spec_localized_text(language, "Draw 1. Gain 2 Shield.", "Roba 1. Gana 2 de Escudo."),
        CardId::SlipstreamPlus => spec_localized_text(language, "Draw 1. Gain 4 Shield.", "Roba 1. Gana 4 de Escudo."),
        CardId::QuickStrike => spec_localized_text(language, "Deal 5 damage. Draw 1.", "Inflige 5 de daño. Roba 1."),
        CardId::QuickStrikePlus => spec_localized_text(language, "Deal 7 damage. Draw 1.", "Inflige 7 de daño. Roba 1."),
        CardId::PinpointJab => spec_localized_text(language, "Deal 5 damage. Apply Bleed 1.", "Inflige 5 de daño. Aplica Sangrado 1."),
        CardId::PinpointJabPlus => spec_localized_text(language, "Deal 7 damage. Apply Bleed 1.", "Inflige 7 de daño. Aplica Sangrado 1."),
        CardId::SignalTap => spec_localized_text(language, "Apply 1 Vulnerable. Draw 1.", "Aplica Vulnerable 1. Roba 1."),
        CardId::SignalTapPlus => spec_localized_text(language, "Apply 1 Vulnerable. Draw 1. Gain 3 Shield.", "Aplica Vulnerable 1. Roba 1. Gana 3 de Escudo."),
        CardId::Reinforce => spec_localized_text(language, "Gain 8 Shield.", "Gana 8 de Escudo."),
        CardId::ReinforcePlus => spec_localized_text(language, "Gain 11 Shield.", "Gana 11 de Escudo."),
        CardId::PressurePoint => spec_localized_text(language, "Deal 4 damage. Apply Weak 1.", "Inflige 4 de daño. Aplica Débil 1."),
        CardId::PressurePointPlus => spec_localized_text(language, "Deal 6 damage. Apply Weak 2.", "Inflige 6 de daño. Aplica Débil 2."),
        CardId::BurstArray => spec_localized_text(language, "Deal 3 damage three times.", "Inflige 3 de daño tres veces."),
        CardId::BurstArrayPlus => spec_localized_text(language, "Deal 4 damage three times.", "Inflige 4 de daño tres veces."),
        CardId::CoverPulse => spec_localized_text(language, "Gain 6 Shield. Draw 1.", "Gana 6 de Escudo. Roba 1."),
        CardId::CoverPulsePlus => spec_localized_text(language, "Gain 8 Shield. Draw 1.", "Gana 8 de Escudo. Roba 1."),
        CardId::SunderingArc => spec_localized_text(language, "Deal 12 damage. Apply 1 Vulnerable.", "Inflige 12 de daño. Aplica Vulnerable 1."),
        CardId::SunderingArcPlus => spec_localized_text(language, "Deal 16 damage. Apply 1 Vulnerable.", "Inflige 16 de daño. Aplica Vulnerable 1."),
        CardId::TwinStrike => spec_localized_text(language, "Deal 4 damage twice.", "Inflige 4 de daño dos veces."),
        CardId::TwinStrikePlus => spec_localized_text(language, "Deal 5 damage twice.", "Inflige 5 de daño dos veces."),
        CardId::BarrierField => spec_localized_text(language, "Gain 10 Shield. Apply Frail 1.", "Gana 10 de Escudo. Aplica Frágil 1."),
        CardId::BarrierFieldPlus => spec_localized_text(language, "Gain 13 Shield. Apply Frail 2.", "Gana 13 de Escudo. Aplica Frágil 2."),
        CardId::TacticalBurst => spec_localized_text(language, "Draw 2. Gain Strength 1.", "Roba 2. Gana Fuerza 1."),
        CardId::TacticalBurstPlus => spec_localized_text(language, "Draw 2. Gain Strength 2.", "Roba 2. Gana Fuerza 2."),
        CardId::RazorNet => spec_localized_text(language, "Deal 4 damage twice. Apply Bleed 2.", "Inflige 4 de daño dos veces. Aplica Sangrado 2."),
        CardId::RazorNetPlus => spec_localized_text(language, "Deal 5 damage twice. Apply Bleed 2.", "Inflige 5 de daño dos veces. Aplica Sangrado 2."),
        CardId::FracturePulse => spec_localized_text(language, "Deal 9 damage. Apply Bleed 3.", "Inflige 9 de daño. Aplica Sangrado 3."),
        CardId::FracturePulsePlus => spec_localized_text(language, "Deal 12 damage. Apply Bleed 3.", "Inflige 12 de daño. Aplica Sangrado 3."),
        CardId::VectorLock => spec_localized_text(language, "Deal 6 damage. Apply 2 Vulnerable. Gain 5 Shield.", "Inflige 6 de daño. Aplica Vulnerable 2. Gana 5 de Escudo."),
        CardId::VectorLockPlus => spec_localized_text(language, "Deal 8 damage. Apply 2 Vulnerable. Gain 6 Shield.", "Inflige 8 de daño. Aplica Vulnerable 2. Gana 6 de Escudo."),
        CardId::BreachSignal => spec_localized_text(language, "Deal 7 damage. Draw 1. Apply 2 Vulnerable.", "Inflige 7 de daño. Roba 1. Aplica Vulnerable 2."),
        CardId::BreachSignalPlus => spec_localized_text(language, "Deal 9 damage. Draw 1. Apply 2 Vulnerable.", "Inflige 9 de daño. Roba 1. Aplica Vulnerable 2."),
        CardId::AnchorLoop => spec_localized_text(language, "Gain 14 Shield. Draw 2.", "Gana 14 de Escudo. Roba 2."),
        CardId::AnchorLoopPlus => spec_localized_text(language, "Gain 17 Shield. Draw 2.", "Gana 17 de Escudo. Roba 2."),
        CardId::ExecutionBeam => spec_localized_text(language, "Deal 20 damage.", "Inflige 20 de daño."),
        CardId::ExecutionBeamPlus => spec_localized_text(language, "Deal 26 damage.", "Inflige 26 de daño."),
        CardId::ChainBarrage => spec_localized_text(language, "Deal 8 damage twice. Apply Bleed 2.", "Inflige 8 de daño dos veces. Aplica Sangrado 2."),
        CardId::ChainBarragePlus => spec_localized_text(language, "Deal 10 damage twice. Apply Bleed 2.", "Inflige 10 de daño dos veces. Aplica Sangrado 2."),
        CardId::FortressMatrix => spec_localized_text(language, "Gain 16 Shield. Draw 1.", "Gana 16 de Escudo. Roba 1."),
        CardId::FortressMatrixPlus => spec_localized_text(language, "Gain 20 Shield. Draw 1.", "Gana 20 de Escudo. Roba 1."),
        CardId::OverwatchGrid => spec_localized_text(language, "Gain 18 Shield. Draw 2.", "Gana 18 de Escudo. Roba 2."),
        CardId::OverwatchGridPlus => spec_localized_text(language, "Gain 22 Shield. Draw 2.", "Gana 22 de Escudo. Roba 2."),
        CardId::RiftDart => spec_localized_text(language, "Deal 4 damage. Apply Bleed 1. If target has Vulnerable, draw 1.", "Inflige 4 de daño. Aplica Sangrado 1. Si el objetivo tiene Vulnerable, roba 1."),
        CardId::RiftDartPlus => spec_localized_text(language, "Deal 6 damage. Apply Bleed 1. If target has Vulnerable, draw 1.", "Inflige 6 de daño. Aplica Sangrado 1. Si el objetivo tiene Vulnerable, roba 1."),
        CardId::MarkPulse => spec_localized_text(language, "Apply 1 Vulnerable. If target has Bleed, gain 4 Shield.", "Aplica Vulnerable 1. Si el objetivo tiene Sangrado, gana 4 de Escudo."),
        CardId::MarkPulsePlus => spec_localized_text(language, "Apply 1 Vulnerable. If target has Bleed, gain 6 Shield.", "Aplica Vulnerable 1. Si el objetivo tiene Sangrado, gana 6 de Escudo."),
        CardId::BraceCircuit => spec_localized_text(language, "Gain 6 Shield. If you already have Shield, draw 1.", "Gana 6 de Escudo. Si ya tienes Escudo, roba 1."),
        CardId::BraceCircuitPlus => spec_localized_text(language, "Gain 8 Shield. If you already have Shield, draw 1.", "Gana 8 de Escudo. Si ya tienes Escudo, roba 1."),
        CardId::FaultShot => spec_localized_text(language, "Deal 5 damage. If target has Weak or Frail, gain Strength 1.", "Inflige 5 de daño. Si el objetivo tiene Débil o Frágil, gana Fuerza 1."),
        CardId::FaultShotPlus => spec_localized_text(language, "Deal 7 damage. If target has Weak or Frail, gain Strength 1.", "Inflige 7 de daño. Si el objetivo tiene Débil o Frágil, gana Fuerza 1."),
        CardId::SeverArc => spec_localized_text(language, "Deal 8 damage. If target has Bleed, deal 8 damage again.", "Inflige 8 de daño. Si el objetivo tiene Sangrado, inflige 8 de daño otra vez."),
        CardId::SeverArcPlus => spec_localized_text(language, "Deal 10 damage. If target has Bleed, deal 10 damage again.", "Inflige 10 de daño. Si el objetivo tiene Sangrado, inflige 10 de daño otra vez."),
        CardId::Lockbreaker => spec_localized_text(language, "Deal 6 damage. If target has Vulnerable, apply Weak 1 and gain 6 Shield.", "Inflige 6 de daño. Si el objetivo tiene Vulnerable, aplica Débil 1 y gana 6 de Escudo."),
        CardId::LockbreakerPlus => spec_localized_text(language, "Deal 8 damage. If target has Vulnerable, apply Weak 1 and gain 8 Shield.", "Inflige 8 de daño. Si el objetivo tiene Vulnerable, aplica Débil 1 y gana 8 de Escudo."),
        CardId::CounterLattice => spec_localized_text(language, "Deal 6 damage. If target has Weak, gain 1 Energy.", "Inflige 6 de daño. Si el objetivo tiene Débil, gana 1 de Energía."),
        CardId::CounterLatticePlus => spec_localized_text(language, "Deal 8 damage. If target has Weak, gain 1 Energy.", "Inflige 8 de daño. Si el objetivo tiene Débil, gana 1 de Energía."),
        CardId::TerminalLoop => spec_localized_text(language, "Deal 12 damage. If target has Bleed, draw 1. If target has Vulnerable, gain Strength 1.", "Inflige 12 de daño. Si el objetivo tiene Sangrado, roba 1. Si el objetivo tiene Vulnerable, gana Fuerza 1."),
        CardId::TerminalLoopPlus => spec_localized_text(language, "Deal 15 damage. If target has Bleed, draw 1. If target has Vulnerable, gain Strength 2.", "Inflige 15 de daño. Si el objetivo tiene Sangrado, roba 1. Si el objetivo tiene Vulnerable, gana Fuerza 2."),
        CardId::ZeroPoint => spec_localized_text(language, "Deal 10 damage. Draw 1. Apply 2 Vulnerable.", "Inflige 10 de daño. Roba 1. Aplica Vulnerable 2."),
        CardId::ZeroPointPlus => spec_localized_text(language, "Deal 14 damage. Draw 1. Apply 2 Vulnerable.", "Inflige 14 de daño. Roba 1. Aplica Vulnerable 2."),
        _ => spec_card_def(id).description,
    }
}

pub fn localized_card_description(id: CardId, language: Language) -> (text: &'static str)
    ensures
        text == spec_localized_card_description(id, language),
{
    match id {
        CardId::FlareSlash => localized_text(language, "Deal 6 damage.", "Inflige 6 de daño."),
        CardId::FlareSlashPlus => localized_text(language, "Deal 9 damage.", "Inflige 9 de daño."),
        CardId::GuardStep => localized_text(language, "Gain 5 Shield.", "Gana 5 de Escudo."),
        CardId::GuardStepPlus => localized_text(language, "Gain 8 Shield.", "Gana 8 de Escudo."),
        CardId::Slipstream => localized_text(language, "Draw 1. Gain 2 Shield.", "Roba 1. Gana 2 de Escudo."),
        CardId::SlipstreamPlus => localized_text(language, "Draw 1. Gain 4 Shield.", "Roba 1. Gana 4 de Escudo."),
        CardId::QuickStrike => localized_text(language, "Deal 5 damage. Draw 1.", "Inflige 5 de daño. Roba 1."),
        CardId::QuickStrikePlus => localized_text(language, "Deal 7 damage. Draw 1.", "Inflige 7 de daño. Roba 1."),
        CardId::PinpointJab => localized_text(language, "Deal 5 damage. Apply Bleed 1.", "Inflige 5 de daño. Aplica Sangrado 1."),
        CardId::PinpointJabPlus => localized_text(language, "Deal 7 damage. Apply Bleed 1.", "Inflige 7 de daño. Aplica Sangrado 1."),
        CardId::SignalTap => localized_text(language, "Apply 1 Vulnerable. Draw 1.", "Aplica Vulnerable 1. Roba 1."),
        CardId::SignalTapPlus => localized_text(language, "Apply 1 Vulnerable. Draw 1. Gain 3 Shield.", "Aplica Vulnerable 1. Roba 1. Gana 3 de Escudo."),
        CardId::Reinforce => localized_text(language, "Gain 8 Shield.", "Gana 8 de Escudo."),
        CardId::ReinforcePlus => localized_text(language, "Gain 11 Shield.", "Gana 11 de Escudo."),
        CardId::PressurePoint => localized_text(language, "Deal 4 damage. Apply Weak 1.", "Inflige 4 de daño. Aplica Débil 1."),
        CardId::PressurePointPlus => localized_text(language, "Deal 6 damage. Apply Weak 2.", "Inflige 6 de daño. Aplica Débil 2."),
        CardId::BurstArray => localized_text(language, "Deal 3 damage three times.", "Inflige 3 de daño tres veces."),
        CardId::BurstArrayPlus => localized_text(language, "Deal 4 damage three times.", "Inflige 4 de daño tres veces."),
        CardId::CoverPulse => localized_text(language, "Gain 6 Shield. Draw 1.", "Gana 6 de Escudo. Roba 1."),
        CardId::CoverPulsePlus => localized_text(language, "Gain 8 Shield. Draw 1.", "Gana 8 de Escudo. Roba 1."),
        CardId::SunderingArc => localized_text(language, "Deal 12 damage. Apply 1 Vulnerable.", "Inflige 12 de daño. Aplica Vulnerable 1."),
        CardId::SunderingArcPlus => localized_text(language, "Deal 16 damage. Apply 1 Vulnerable.", "Inflige 16 de daño. Aplica Vulnerable 1."),
        CardId::TwinStrike => localized_text(language, "Deal 4 damage twice.", "Inflige 4 de daño dos veces."),
        CardId::TwinStrikePlus => localized_text(language, "Deal 5 damage twice.", "Inflige 5 de daño dos veces."),
        CardId::BarrierField => localized_text(language, "Gain 10 Shield. Apply Frail 1.", "Gana 10 de Escudo. Aplica Frágil 1."),
        CardId::BarrierFieldPlus => localized_text(language, "Gain 13 Shield. Apply Frail 2.", "Gana 13 de Escudo. Aplica Frágil 2."),
        CardId::TacticalBurst => localized_text(language, "Draw 2. Gain Strength 1.", "Roba 2. Gana Fuerza 1."),
        CardId::TacticalBurstPlus => localized_text(language, "Draw 2. Gain Strength 2.", "Roba 2. Gana Fuerza 2."),
        CardId::RazorNet => localized_text(language, "Deal 4 damage twice. Apply Bleed 2.", "Inflige 4 de daño dos veces. Aplica Sangrado 2."),
        CardId::RazorNetPlus => localized_text(language, "Deal 5 damage twice. Apply Bleed 2.", "Inflige 5 de daño dos veces. Aplica Sangrado 2."),
        CardId::FracturePulse => localized_text(language, "Deal 9 damage. Apply Bleed 3.", "Inflige 9 de daño. Aplica Sangrado 3."),
        CardId::FracturePulsePlus => localized_text(language, "Deal 12 damage. Apply Bleed 3.", "Inflige 12 de daño. Aplica Sangrado 3."),
        CardId::VectorLock => localized_text(language, "Deal 6 damage. Apply 2 Vulnerable. Gain 5 Shield.", "Inflige 6 de daño. Aplica Vulnerable 2. Gana 5 de Escudo."),
        CardId::VectorLockPlus => localized_text(language, "Deal 8 damage. Apply 2 Vulnerable. Gain 6 Shield.", "Inflige 8 de daño. Aplica Vulnerable 2. Gana 6 de Escudo."),
        CardId::BreachSignal => localized_text(language, "Deal 7 damage. Draw 1. Apply 2 Vulnerable.", "Inflige 7 de daño. Roba 1. Aplica Vulnerable 2."),
        CardId::BreachSignalPlus => localized_text(language, "Deal 9 damage. Draw 1. Apply 2 Vulnerable.", "Inflige 9 de daño. Roba 1. Aplica Vulnerable 2."),
        CardId::AnchorLoop => localized_text(language, "Gain 14 Shield. Draw 2.", "Gana 14 de Escudo. Roba 2."),
        CardId::AnchorLoopPlus => localized_text(language, "Gain 17 Shield. Draw 2.", "Gana 17 de Escudo. Roba 2."),
        CardId::ExecutionBeam => localized_text(language, "Deal 20 damage.", "Inflige 20 de daño."),
        CardId::ExecutionBeamPlus => localized_text(language, "Deal 26 damage.", "Inflige 26 de daño."),
        CardId::ChainBarrage => localized_text(language, "Deal 8 damage twice. Apply Bleed 2.", "Inflige 8 de daño dos veces. Aplica Sangrado 2."),
        CardId::ChainBarragePlus => localized_text(language, "Deal 10 damage twice. Apply Bleed 2.", "Inflige 10 de daño dos veces. Aplica Sangrado 2."),
        CardId::FortressMatrix => localized_text(language, "Gain 16 Shield. Draw 1.", "Gana 16 de Escudo. Roba 1."),
        CardId::FortressMatrixPlus => localized_text(language, "Gain 20 Shield. Draw 1.", "Gana 20 de Escudo. Roba 1."),
        CardId::OverwatchGrid => localized_text(language, "Gain 18 Shield. Draw 2.", "Gana 18 de Escudo. Roba 2."),
        CardId::OverwatchGridPlus => localized_text(language, "Gain 22 Shield. Draw 2.", "Gana 22 de Escudo. Roba 2."),
        CardId::RiftDart => localized_text(language, "Deal 4 damage. Apply Bleed 1. If target has Vulnerable, draw 1.", "Inflige 4 de daño. Aplica Sangrado 1. Si el objetivo tiene Vulnerable, roba 1."),
        CardId::RiftDartPlus => localized_text(language, "Deal 6 damage. Apply Bleed 1. If target has Vulnerable, draw 1.", "Inflige 6 de daño. Aplica Sangrado 1. Si el objetivo tiene Vulnerable, roba 1."),
        CardId::MarkPulse => localized_text(language, "Apply 1 Vulnerable. If target has Bleed, gain 4 Shield.", "Aplica Vulnerable 1. Si el objetivo tiene Sangrado, gana 4 de Escudo."),
        CardId::MarkPulsePlus => localized_text(language, "Apply 1 Vulnerable. If target has Bleed, gain 6 Shield.", "Aplica Vulnerable 1. Si el objetivo tiene Sangrado, gana 6 de Escudo."),
        CardId::BraceCircuit => localized_text(language, "Gain 6 Shield. If you already have Shield, draw 1.", "Gana 6 de Escudo. Si ya tienes Escudo, roba 1."),
        CardId::BraceCircuitPlus => localized_text(language, "Gain 8 Shield. If you already have Shield, draw 1.", "Gana 8 de Escudo. Si ya tienes Escudo, roba 1."),
        CardId::FaultShot => localized_text(language, "Deal 5 damage. If target has Weak or Frail, gain Strength 1.", "Inflige 5 de daño. Si el objetivo tiene Débil o Frágil, gana Fuerza 1."),
        CardId::FaultShotPlus => localized_text(language, "Deal 7 damage. If target has Weak or Frail, gain Strength 1.", "Inflige 7 de daño. Si el objetivo tiene Débil o Frágil, gana Fuerza 1."),
        CardId::SeverArc => localized_text(language, "Deal 8 damage. If target has Bleed, deal 8 damage again.", "Inflige 8 de daño. Si el objetivo tiene Sangrado, inflige 8 de daño otra vez."),
        CardId::SeverArcPlus => localized_text(language, "Deal 10 damage. If target has Bleed, deal 10 damage again.", "Inflige 10 de daño. Si el objetivo tiene Sangrado, inflige 10 de daño otra vez."),
        CardId::Lockbreaker => localized_text(language, "Deal 6 damage. If target has Vulnerable, apply Weak 1 and gain 6 Shield.", "Inflige 6 de daño. Si el objetivo tiene Vulnerable, aplica Débil 1 y gana 6 de Escudo."),
        CardId::LockbreakerPlus => localized_text(language, "Deal 8 damage. If target has Vulnerable, apply Weak 1 and gain 8 Shield.", "Inflige 8 de daño. Si el objetivo tiene Vulnerable, aplica Débil 1 y gana 8 de Escudo."),
        CardId::CounterLattice => localized_text(language, "Deal 6 damage. If target has Weak, gain 1 Energy.", "Inflige 6 de daño. Si el objetivo tiene Débil, gana 1 de Energía."),
        CardId::CounterLatticePlus => localized_text(language, "Deal 8 damage. If target has Weak, gain 1 Energy.", "Inflige 8 de daño. Si el objetivo tiene Débil, gana 1 de Energía."),
        CardId::TerminalLoop => localized_text(language, "Deal 12 damage. If target has Bleed, draw 1. If target has Vulnerable, gain Strength 1.", "Inflige 12 de daño. Si el objetivo tiene Sangrado, roba 1. Si el objetivo tiene Vulnerable, gana Fuerza 1."),
        CardId::TerminalLoopPlus => localized_text(language, "Deal 15 damage. If target has Bleed, draw 1. If target has Vulnerable, gain Strength 2.", "Inflige 15 de daño. Si el objetivo tiene Sangrado, roba 1. Si el objetivo tiene Vulnerable, gana Fuerza 2."),
        CardId::ZeroPoint => localized_text(language, "Deal 10 damage. Draw 1. Apply 2 Vulnerable.", "Inflige 10 de daño. Roba 1. Aplica Vulnerable 2."),
        CardId::ZeroPointPlus => localized_text(language, "Deal 14 damage. Draw 1. Apply 2 Vulnerable.", "Inflige 14 de daño. Roba 1. Aplica Vulnerable 2."),
        _ => card_def(id).description,
    }
}

/// A module's name in a language.
pub open spec fn spec_localized_module_name(id: ModuleId, language: Language) -> &'static str {
    match id {
        ModuleId::AegisDrive => spec_localized_text(language, "Aegis Drive", "Aegis Drive"),
        ModuleId::TargetingRelay => spec_localized_text(language, "Targeting Relay", "Relé de Apuntamiento"),
        ModuleId::Nanoforge => spec_localized_text(language, "Nanoforge", "Nanoforge"),
        ModuleId::CapacitorBank => spec_localized_text(language, "Capacitor Bank", "Banco de Capacitores"),
        ModuleId::PrismScope => spec_localized_text(language, "Prism Scope", "Visor Prisma"),
        ModuleId::SalvageLedger => spec_localized_text(language, "Salvage Ledger", "Registro de Chatarra"),
        ModuleId::OverclockCore => spec_localized_text(language, "Overclock Core", "Núcleo Overclock"),
        ModuleId::SuppressionField => spec_localized_text(language, "Suppression Field", "Campo de Supresión"),
        ModuleId::RecoveryMatrix => spec_localized_text(language, "Recovery Matrix", "Matriz de Recuperación"),
    }
}

pub fn localized_module_name(id: ModuleId, language: Language) -> (text: &'static str)
    ensures
        text == spec_localized_module_name(id, language),
{
    match id {
        ModuleId::AegisDrive => localized_text(language, "Aegis Drive", "Aegis Drive"),
        ModuleId::TargetingRelay => localized_text(language, "Targeting Relay", "Relé de Apuntamiento"),
        ModuleId::Nanoforge => localized_text(language, "Nanoforge", "Nanoforge"),
        ModuleId::CapacitorBank => localized_text(language, "Capacitor Bank", "Banco de Capacitores"),
        ModuleId::PrismScope => localized_text(language, "Prism Scope", "Visor Prisma"),
        ModuleId::SalvageLedger => localized_text(language, "Salvage Ledger", "Registro de Chatarra"),
        ModuleId::OverclockCore => localized_text(language, "Overclock Core", "Núcleo Overclock"),
        ModuleId::SuppressionField => localized_text(language, "Suppression Field", "Campo de Supresión"),
        ModuleId::RecoveryMatrix => localized_text(language, "Recovery Matrix", "Matriz de Recuperación"),
    }
}

/// A module's description in a language.
pub open spec fn spec_localized_module_description(id: ModuleId, language: Language) -> &'static str {
    match id {
        ModuleId::AegisDrive => spec_localized_text(language, spec_module_def(id).description, "Comienzas cada combate con 5 de Escudo."),
        ModuleId::TargetingRelay => spec_localized_text(language, spec_module_def(id).description, "Al comienzo de cada combate, aplica Vulnerable 1 al primer enemigo."),
        ModuleId::Nanoforge => spec_localized_text(language, spec_module_def(id).description, "Tras cada victoria, recupera 3 HP."),
        ModuleId::CapacitorBank => spec_localized_text(language, spec_module_def(id).description, "Comienzas cada combate con Fuerza 1."),
        ModuleId::PrismScope => spec_localized_text(language, spec_module_def(id).description, "Al comienzo de cada combate, aplica Vulnerable 1 a todos los enemigos."),
        ModuleId::SalvageLedger => spec_localized_text(language, spec_module_def(id).description, "Tras cada victoria, gana 4 Créditos adicionales."),
        ModuleId::OverclockCore => spec_localized_text(language, spec_module_def(id).description, "Comienzas cada combate con 1 de Energía extra."),
        ModuleId::SuppressionField => spec_localized_text(language, spec_module_def(id).description, "Al comienzo de cada combate, aplica Débil 1 a todos los enemigos."),
        ModuleId::RecoveryMatrix => spec_localized_text(language, spec_module_def(id).description, "Tras cada victoria, recupera 5 HP."),
    }
}

pub fn localized_module_description(id: ModuleId, language: Language) -> (text: &'static str)
    ensures
        text == spec_localized_module_description(id, language),
{
    let english = module_def(id).description;
    match id {
        ModuleId::AegisDrive => localized_text(language, english, "Comienzas cada combate con 5 de Escudo."),
        ModuleId::TargetingRelay => localized_text(language, english, "Al comienzo de cada combate, aplica Vulnerable 1 al primer enemigo."),
        ModuleId::Nanoforge => localized_text(language, english, "Tras cada victoria, recupera 3 HP."),
        ModuleId::CapacitorBank => localized_text(language, english, "Comienzas cada combate con Fuerza 1."),
        ModuleId::PrismScope => localized_text(language, english, "Al comienzo de cada combate, aplica Vulnerable 1 a todos los enemigos."),
        ModuleId::SalvageLedger => localized_text(language, english, "Tras cada victoria, gana 4 Créditos adicionales."),
        ModuleId::OverclockCore => localized_text(language, english, "Comienzas cada combate con 1 de Energía extra."),
        ModuleId::SuppressionField => localized_text(language, english, "Al comienzo de cada combate, aplica Débil 1 a todos los enemigos."),
        ModuleId::RecoveryMatrix => localized_text(language, english, "Tras cada victoria, recupera 5 HP."),
    }
}

/// An event's title in a language.
pub open spec fn spec_localized_event_title(id: EventId, language: Language) -> &'static str {
    match id {
        EventId::SalvageCache => spec_localized_text(language, "Salvage Cache", "Alijo de Chatarra"),
        EventId::RelayTerminal => spec_localized_text(language, "Relay Terminal", "Terminal de Relé"),
        EventId::ClinicPod => spec_localized_text(language, "Clinic Pod", "Cápsula Clínica"),
        EventId::ExchangeConsole => spec_localized_text(language, "Exchange Console", "Consola de Intercambio"),
        EventId::PrototypeRack => spec_localized_text(language, "Prototype Rack", "Bastidor de Prototipos"),
        EventId::CoolingVault => spec_localized_text(language, "Cooling Vault", "Bóveda Criogénica"),
    }
}

pub fn localized_event_title(id: EventId, language: Language) -> (text: &'static str)
    ensures
        text == spec_localized_event_title(id, language),
{
    match id {
        EventId::SalvageCache => localized_text(language, "Salvage Cache", "Alijo de Chatarra"),
        EventId::RelayTerminal => localized_text(language, "Relay Terminal", "Terminal de Relé"),
        EventId::ClinicPod => localized_text(language, "Clinic Pod", "Cápsula Clínica"),
        EventId::ExchangeConsole => localized_text(language, "Exchange Console", "Consola de Intercambio"),
        EventId::PrototypeRack => localized_text(language, "Prototype Rack", "Bastidor de Prototipos"),
        EventId::CoolingVault => localized_text(language, "Cooling Vault", "Bóveda Criogénica"),
    }
}

/// An event's flavor text in a language.
pub open spec fn spec_localized_event_flavor(id: EventId, language: Language) -> &'static str {
    match id {
        EventId::SalvageCache => spec_localized_text(language, "A drift crate hums beneath a half-collapsed service gantry.", "Un contenedor a la deriva zumba bajo una pasarela de servicio medio derrumbada."),
        EventId::RelayTerminal => spec_localized_text(language, "A damaged relay terminal still shows a few readable combat routines.", "Un terminal de relé dañado aún muestra algunas rutinas de combate legibles."),
        EventId::ClinicPod => spec_localized_text(language, "An intact med pod still cycles a pale diagnostic glow.", "Una cápsula médica intacta aún emite un tenue resplandor de diagnóstico."),
        EventId::ExchangeConsole => spec_localized_text(language, "An exchange console still lets you trade useful parts for credits.", "Una consola de intercambio aún te deja cambiar piezas útiles por créditos."),
        EventId::PrototypeRack => spec_localized_text(language, "A sealed rack flickers between proven gear and live-fire prototypes.", "Un bastidor sellado alterna entre equipo probado y prototipos de fuego real."),
        EventId::CoolingVault => spec_localized_text(language, "A cooling vault is still running, though the temperature controls are unstable.", "Una bóveda de enfriamiento aún funciona, aunque los controles de temperatura son inestables."),
    }
}

pub fn localized_event_flavor(id: EventId, language: Language) -> (text: &'static str)
    ensures
        text == spec_localized_event_flavor(id, language),
{
    match id {
        EventId::SalvageCache => localized_text(language, "A drift crate hums beneath a half-collapsed service gantry.", "Un contenedor a la deriva zumba bajo una pasarela de servicio medio derrumbada."),
        EventId::RelayTerminal => localized_text(language, "A damaged relay terminal still shows a few readable combat routines.", "Un terminal de relé dañado aún muestra algunas rutinas de combate legibles."),
        EventId::ClinicPod => localized_text(language, "An intact med pod still cycles a pale diagnostic glow.", "Una cápsula médica intacta aún emite un tenue resplandor de diagnóstico."),
        EventId::ExchangeConsole => localized_text(language, "An exchange console still lets you trade useful parts for credits.", "Una consola de intercambio aún te deja cambiar piezas útiles por créditos."),
        EventId::PrototypeRack => localized_text(language, "A sealed rack flickers between proven gear and live-fire prototypes.", "Un bastidor sellado alterna entre equipo probado y prototipos de fuego real."),
        EventId::CoolingVault => localized_text(language, "A cooling vault is still running, though the temperature controls are unstable.", "Una bóveda de enfriamiento aún funciona, aunque los controles de temperatura son inestables."),
    }
}

/// The title of an event's choice in a language, if the event has that choice.
pub open spec fn spec_localized_event_choice_title(event: EventId, choice_index: usize, language: Language) -> Option<&'static str> {
    match (event, choice_index) {
        (EventId::SalvageCache, 0) => Some(spec_localized_text(language, "Take the clean parts", "Tomar las piezas útiles")),
        (EventId::SalvageCache, 1) => Some(spec_localized_text(language, "Cut the safety seals", "Abrir los sellos de seguridad")),
        (EventId::RelayTerminal, 0) => Some(spec_localized_text(language, "Copy the shield routine", "Copiar la rutina de escudo")),
        (EventId::RelayTerminal, 1) => Some(spec_localized_text(language, "Pull the attack routine", "Extraer la rutina de ataque")),
        (EventId::ClinicPod, 0) => Some(spec_localized_text(language, "Run the recovery cycle", "Activar el ciclo de recuperación")),
        (EventId::ClinicPod, 1) => Some(spec_localized_text(language, "Overclock the chassis", "Sobrecargar el armazón")),
        (EventId::ExchangeConsole, 0) => Some(spec_localized_text(language, "Sell the spare plating", "Vender las placas sobrantes")),
        (EventId::ExchangeConsole, 1) => Some(spec_localized_text(language, "Sell the coolant reserve", "Vender la reserva de refrigerante")),
        (EventId::PrototypeRack, 0) => Some(spec_localized_text(language, "Take the stable shell", "Tomar el armazón estable")),
        (EventId::PrototypeRack, 1) => Some(spec_localized_text(language, "Take the live prototype", "Tomar el prototipo en pruebas")),
        (EventId::CoolingVault, 0) => Some(spec_localized_text(language, "Rest by the coolant vent", "Descansar junto al conducto frío")),
        (EventId::CoolingVault, 1) => Some(spec_localized_text(language, "Endure the freezing chamber", "Aguantar la cámara helada")),
        _ => None,
    }
}

pub fn localized_event_choice_title(event: EventId, choice_index: usize, language: Language) -> (title: Option<&'static str>)
    ensures
        title == spec_localized_event_choice_title(event, choice_index, language),
        language == Language::English ==> title == spec_event_choice_title(event, choice_index),
{
    match (event, choice_index) {
        (EventId::SalvageCache, 0) => Some(localized_text(language, "Take the clean parts", "Tomar las piezas útiles")),
        (EventId::SalvageCache, 1) => Some(localized_text(language, "Cut the safety seals", "Abrir los sellos de seguridad")),
        (EventId::RelayTerminal, 0) => Some(localized_text(language, "Copy the shield routine", "Copiar la rutina de escudo")),
        (EventId::RelayTerminal, 1) => Some(localized_text(language, "Pull the attack routine", "Extraer la rutina de ataque")),
        (EventId::ClinicPod, 0) => Some(localized_text(language, "Run the recovery cycle", "Activar el ciclo de recuperación")),
        (EventId::ClinicPod, 1) => Some(localized_text(language, "Overclock the chassis", "Sobrecargar el armazón")),
        (EventId::ExchangeConsole, 0) => Some(localized_text(language, "Sell the spare plating", "Vender las placas sobrantes")),
        (EventId::ExchangeConsole, 1) => Some(localized_text(language, "Sell the coolant reserve", "Vender la reserva de refrigerante")),
        (EventId::PrototypeRack, 0) => Some(localized_text(language, "Take the stable shell", "Tomar el armazón estable")),
        (EventId::PrototypeRack, 1) => Some(localized_text(language, "Take the live prototype", "Tomar el prototipo en pruebas")),
        (EventId::CoolingVault, 0) => Some(localized_text(language, "Rest by the coolant vent", "Descansar junto al conducto frío")),
        (EventId::CoolingVault, 1) => Some(localized_text(language, "Endure the freezing chamber", "Aguantar la cámara helada")),
        _ => None,
    }
}

/// A card with its name and description in a language.
pub fn localized_card_def(id: CardId, language: Language) -> (def: CardDef)
    ensures
        def == (CardDef { name: spec_localized_card_name(id, language), description: spec_localized_card_description(id, language), ..spec_card_def(id) }),
{
    let mut def = card_def(id);
    def.name = localized_card_name(id, language);
    def.description = localized_card_description(id, language);
    def
}

/// A module with its name and description in a language.
pub fn localized_module_def(id: ModuleId, language: Language) -> (def: ModuleDef)
    ensures
        def == (ModuleDef { name: spec_localized_module_name(id, language), description: spec_localized_module_description(id, language), ..spec_module_def(id) }),
{
    let mut def = module_def(id);
    def.name = localized_module_name(id, language);
    def.description = localized_module_description(id, language);
    def
}

/// An event with its title and flavor text in a language.
pub fn localized_event_def(id: EventId, language: Language) -> (def: EventDef)
    ensures
        def == (EventDef { title: spec_localized_event_title(id, language), flavor: spec_localized_event_flavor(id, language), ..spec_event_def(id) }),
{
    let mut def = event_def(id);
    def.title = localized_event_title(id, language);
    def.flavor = localized_event_flavor(id, language);
    def
}


/// The card an event choice adds, if it adds one.
pub open spec fn effect_card(effect: EventChoiceEffect) -> Option<CardId> {
    match effect {
        EventChoiceEffect::AddCard(card) => Some(card),
        EventChoiceEffect::LoseHpAddCard { card, .. } => Some(card),
        _ => None,
    }
}

/// The text that tells what an event choice does, in `language`, with `card_name` for the card it adds.
pub open spec fn effect_body_text(effect: EventChoiceEffect, language: Language, card_name: Seq<char>) -> Seq<char> {
    match effect {
        EventChoiceEffect::GainCredits(credits) => match language {
            Language::English => "Gain "@ + decimal_text(credits as nat) + " Credits."@,
            Language::Spanish => "Gana "@ + decimal_text(credits as nat) + " Créditos."@,
        },
        EventChoiceEffect::LoseHpGainCredits { lose_hp, gain_credits } => match language {
            Language::English => "Lose "@ + signed_decimal_text(lose_hp as int) + " HP. Gain "@
                + decimal_text(gain_credits as nat) + " Credits."@,
            Language::Spanish => "Pierde "@ + signed_decimal_text(lose_hp as int) + " HP. Gana "@
                + decimal_text(gain_credits as nat) + " Créditos."@,
        },
        EventChoiceEffect::Heal(amount) => match language {
            Language::English => "Recover "@ + signed_decimal_text(amount as int) + " HP."@,
            Language::Spanish => "Recupera "@ + signed_decimal_text(amount as int) + " HP."@,
        },
        EventChoiceEffect::LoseHpGainMaxHp { lose_hp, gain_max_hp } => match language {
            Language::English => "Lose "@ + signed_decimal_text(lose_hp as int) + " HP. Gain "@
                + signed_decimal_text(gain_max_hp as int) + " max HP."@,
            Language::Spanish => "Pierde "@ + signed_decimal_text(lose_hp as int) + " HP. Gana "@
                + signed_decimal_text(gain_max_hp as int) + " de HP máximo."@,
        },
        EventChoiceEffect::AddCard(_) => match language {
            Language::English => "Add "@ + card_name + " to your deck."@,
            Language::Spanish => "Añade "@ + card_name + " a tu mazo."@,
        },
        EventChoiceEffect::LoseHpAddCard { lose_hp, .. } => match language {
            Language::English => "Lose "@ + signed_decimal_text(lose_hp as int) + " HP. Add "@ + card_name
                + " to your deck."@,
            Language::Spanish => "Pierde "@ + signed_decimal_text(lose_hp as int) + " HP. Añade "@ + card_name
                + " a tu mazo."@,
        },
    }
}

/// The English text of an event choice, naming its card as the card list does.
pub open spec fn spec_event_choice_body(effect: EventChoiceEffect) -> Seq<char> {
    let name = match effect_card(effect) {
        Some(card) => spec_card_def(card).name@,
        None => Seq::empty(),
    };
    effect_body_text(effect, Language::English, name)
}

/// The text of an event choice in `language`, naming its card in that language.
pub open spec fn spec_localized_event_choice_body(effect: EventChoiceEffect, language: Language) -> Seq<char> {
    let name = match effect_card(effect) {
        Some(card) => spec_localized_card_name(card, language)@,
        None => Seq::empty(),
    };
    effect_body_text(effect, language, name)
}

/// Writes the text of an effect.
fn effect_body(effect: EventChoiceEffect, language: Language, card_name: &str) -> (body: String)
    ensures
        body@ == effect_body_text(effect, language, card_name@),
{
    let english = match language {
        Language::English => true,
        Language::Spanish => false,
    };
    let mut chars: Vec<char> = Vec::new();
    match effect {
        EventChoiceEffect::GainCredits(credits) => {
            push_str_chars(&mut chars, if english { "Gain " } else { "Gana " });
            push_decimal(&mut chars, credits);
            push_str_chars(&mut chars, if english { " Credits." } else { " Créditos." });
        },
        EventChoiceEffect::LoseHpGainCredits { lose_hp, gain_credits } => {
            push_str_chars(&mut chars, if english { "Lose " } else { "Pierde " });
            push_signed_decimal(&mut chars, lose_hp);
            push_str_chars(&mut chars, if english { " HP. Gain " } else { " HP. Gana " });
            push_decimal(&mut chars, gain_credits);
            push_str_chars(&mut chars, if english { " Credits." } else { " Créditos." });
        },
        EventChoiceEffect::Heal(amount) => {
            push_str_chars(&mut chars, if english { "Recover " } else { "Recupera " });
            push_signed_decimal(&mut chars, amount);
            push_str_chars(&mut chars, " HP.");
        },
        EventChoiceEffect::LoseHpGainMaxHp { lose_hp, gain_max_hp } => {
            push_str_chars(&mut chars, if english { "Lose " } else { "Pierde " });
            push_signed_decimal(&mut chars, lose_hp);
            push_str_chars(&mut chars, if english { " HP. Gain " } else { " HP. Gana " });
            push_signed_decimal(&mut chars, gain_max_hp);
            push_str_chars(&mut chars, if english { " max HP." } else { " de HP máximo." });
        },
        EventChoiceEffect::AddCard(_) => {
            push_str_chars(&mut chars, if english { "Add " } else { "Añade " });
            push_str_chars(&mut chars, card_name);
            push_str_chars(&mut chars, if english { " to your deck." } else { " a tu mazo." });
        },
        EventChoiceEffect::LoseHpAddCard { lose_hp, .. } => {
            push_str_chars(&mut chars, if english { "Lose " } else { "Pierde " });
            push_signed_decimal(&mut chars, lose_hp);
            push_str_chars(&mut chars, if english { " HP. Add " } else { " HP. Añade " });
            push_str_chars(&mut chars, card_name);
            push_str_chars(&mut chars, if english { " to your deck." } else { " a tu mazo." });
        },
    }
    proof {
        assert(chars@ =~= effect_body_text(effect, language, card_name@));
    }
    string_from_chars(chars.as_slice())
}

/// What an event choice does, in English, at a level; `None` for an option the event lacks.
pub fn event_choice_body(event: EventId, choice_index: usize, level: usize) -> (body: Option<String>)
    ensures
        match spec_event_choice_effect(event, choice_index, level) {
            None => body is None,
            Some(effect) => body is Some && body->0@ == spec_event_choice_body(effect),
        },
{
    match event_choice_effect(event, choice_index, level) {
        None => None,
        Some(effect) => {
            let name = match effect {
                EventChoiceEffect::AddCard(card) => card_def(card).name,
                EventChoiceEffect::LoseHpAddCard { card, .. } => card_def(card).name,
                _ => "",
            };
            Some(effect_body(effect, Language::English, name))
        },
    }
}

/// What an event choice does, in `language`, at a level; `None` for an option the event lacks.
pub fn localized_event_choice_body(event: EventId, choice_index: usize, level: usize, language: Language) -> (body: Option<String>)
    ensures
        match spec_event_choice_effect(event, choice_index, level) {
            None => body is None,
            Some(effect) => body is Some && body->0@ == spec_localized_event_choice_body(effect, language),
        },
{
    match event_choice_effect(event, choice_index, level) {
        None => None,
        Some(effect) => {
            let name = match effect {
                EventChoiceEffect::AddCard(card) => localized_card_name(card, language),
                EventChoiceEffect::LoseHpAddCard { card, .. } => localized_card_name(card, language),
                _ => "",
            };
            Some(effect_body(effect, language, name))
        },
    }
}

/// The name of an enemy in `language`.
pub open spec fn spec_localized_enemy_name(profile: EnemyProfileId, language: Language) -> &'static str {
    match profile {
        EnemyProfileId::ScoutDrone => spec_localized_text(language, "Scout Drone", "Dron Explorador"),
        EnemyProfileId::NeedlerDrone => spec_localized_text(language, "Needler Drone", "Dron Aguijón"),
        EnemyProfileId::RampartDrone => spec_localized_text(language, "Rampart Drone", "Dron Bastión"),
        EnemyProfileId::SpineSentry => spec_localized_text(language, "Spine Sentry", "Centinela de Púas"),
        EnemyProfileId::PentaCore => spec_localized_text(language, "Penta Core", "Núcleo Penta"),
        EnemyProfileId::VoltMantis => spec_localized_text(language, "Volt Mantis", "Mantis de Voltaje"),
        EnemyProfileId::ShardWeaver => spec_localized_text(language, "Shard Weaver", "Tejedor de Fragmentos"),
        EnemyProfileId::PrismArray => spec_localized_text(language, "Prism Array", "Matriz Prisma"),
        EnemyProfileId::GlassBishop => spec_localized_text(language, "Glass Bishop", "Obispo de Vidrio"),
        EnemyProfileId::HexarchCore => spec_localized_text(language, "Hexarch Core", "Núcleo Hexarch"),
        EnemyProfileId::NullRaider => spec_localized_text(language, "Null Raider", "Asaltante Null"),
        EnemyProfileId::RiftStalker => spec_localized_text(language, "Rift Stalker", "Acechador de la Grieta"),
        EnemyProfileId::SiegeSpider => spec_localized_text(language, "Siege Spider", "Araña de Asedio"),
        EnemyProfileId::RiftBastion => spec_localized_text(language, "Rift Bastion", "Bastión de la Grieta"),
        EnemyProfileId::HeptarchCore => spec_localized_text(language, "Heptarch Core", "Núcleo Heptarch"),
    }
}

pub fn localized_enemy_name(profile: EnemyProfileId, language: Language) -> (name: &'static str)
    ensures
        name == spec_localized_enemy_name(profile, language),
{
    match profile {
        EnemyProfileId::ScoutDrone => localized_text(language, "Scout Drone", "Dron Explorador"),
        EnemyProfileId::NeedlerDrone => localized_text(language, "Needler Drone", "Dron Aguijón"),
        EnemyProfileId::RampartDrone => localized_text(language, "Rampart Drone", "Dron Bastión"),
        EnemyProfileId::SpineSentry => localized_text(language, "Spine Sentry", "Centinela de Púas"),
        EnemyProfileId::PentaCore => localized_text(language, "Penta Core", "Núcleo Penta"),
        EnemyProfileId::VoltMantis => localized_text(language, "Volt Mantis", "Mantis de Voltaje"),
        EnemyProfileId::ShardWeaver => localized_text(language, "Shard Weaver", "Tejedor de Fragmentos"),
        EnemyProfileId::PrismArray => localized_text(language, "Prism Array", "Matriz Prisma"),
        EnemyProfileId::GlassBishop => localized_text(language, "Glass Bishop", "Obispo de Vidrio"),
        EnemyProfileId::HexarchCore => localized_text(language, "Hexarch Core", "Núcleo Hexarch"),
        EnemyProfileId::NullRaider => localized_text(language, "Null Raider", "Asaltante Null"),
        EnemyProfileId::RiftStalker => localized_text(language, "Rift Stalker", "Acechador de la Grieta"),
        EnemyProfileId::SiegeSpider => localized_text(language, "Siege Spider", "Araña de Asedio"),
        EnemyProfileId::RiftBastion => localized_text(language, "Rift Bastion", "Bastión de la Grieta"),
        EnemyProfileId::HeptarchCore => localized_text(language, "Heptarch Core", "Núcleo Heptarch"),
    }
}

/// The name and summary of an enemy's intent in `language`, by profile and slot of its three-intent cycle.
pub open spec fn spec_localized_intent_text(profile: EnemyProfileId, slot: usize, language: Language) -> (&'static str, &'static str) {
    match (profile, slot) {
        (EnemyProfileId::ScoutDrone, 0) => (spec_localized_text(language, "Shock Needle", "Aguja de Choque"), spec_localized_text(language, "Deal 5 damage.", "Inflige 5 de daño.")),
        (EnemyProfileId::ScoutDrone, 1) => (spec_localized_text(language, "Crossfire", "Fuego Cruzado"), spec_localized_text(language, "Deal 3 damage twice.", "Inflige 3 de daño dos veces.")),
        (EnemyProfileId::ScoutDrone, _) => (spec_localized_text(language, "Brace Cycle", "Ciclo de Refuerzo"), spec_localized_text(language, "Gain 4 Shield. Gain Strength 1.", "Gana 4 de Escudo. Gana Fuerza 1.")),
        (EnemyProfileId::NeedlerDrone, 0) => (spec_localized_text(language, "Needle Tap", "Toque de Aguijón"), spec_localized_text(language, "Deal 4 damage. Apply Bleed 1.", "Inflige 4 de daño. Aplica Sangrado 1.")),
        (EnemyProfileId::NeedlerDrone, 1) => (spec_localized_text(language, "Split Sting", "Picadura Múltiple"), spec_localized_text(language, "Deal 2 damage three times.", "Inflige 2 de daño tres veces.")),
        (EnemyProfileId::NeedlerDrone, _) => (spec_localized_text(language, "Stabilize", "Estabilizar"), spec_localized_text(language, "Gain 4 Shield.", "Gana 4 de Escudo.")),
        (EnemyProfileId::RampartDrone, 0) => (spec_localized_text(language, "Ram Plate", "Placa de Choque"), spec_localized_text(language, "Deal 8 damage.", "Inflige 8 de daño.")),
        (EnemyProfileId::RampartDrone, 1) => (spec_localized_text(language, "Pressure Clamp", "Mordaza de Presión"), spec_localized_text(language, "Deal 5 damage. Apply Weak 1.", "Inflige 5 de daño. Aplica Débil 1.")),
        (EnemyProfileId::RampartDrone, _) => (spec_localized_text(language, "Reinforce Wall", "Muro Reforzado"), spec_localized_text(language, "Gain 8 Shield. Next hit applies Bleed 2.", "Gana 8 de Escudo. El siguiente golpe aplica Sangrado 2.")),
        (EnemyProfileId::SpineSentry, 0) => (spec_localized_text(language, "Spine Rack", "Bastidor de Púas"), spec_localized_text(language, "Deal 4 damage twice. Apply Bleed 1.", "Inflige 4 de daño dos veces. Aplica Sangrado 1.")),
        (EnemyProfileId::SpineSentry, 1) => (spec_localized_text(language, "Target Lock", "Fijación de Blanco"), spec_localized_text(language, "Deal 7 damage. Apply 1 Vulnerable.", "Inflige 7 de daño. Aplica Vulnerable 1.")),
        (EnemyProfileId::SpineSentry, _) => (spec_localized_text(language, "Quill Plating", "Blindaje de Púas"), spec_localized_text(language, "Gain 9 Shield.", "Gana 9 de Escudo.")),
        (EnemyProfileId::PentaCore, 0) => (spec_localized_text(language, "Target Prism", "Prisma de Fijación"), spec_localized_text(language, "Deal 7 damage. Apply 1 Vulnerable.", "Inflige 7 de daño. Aplica Vulnerable 1.")),
        (EnemyProfileId::PentaCore, 1) => (spec_localized_text(language, "Penta Bulwark", "Baluarte Penta"), spec_localized_text(language, "Gain 10 Shield. Next hit applies Bleed 2.", "Gana 10 de Escudo. El siguiente golpe aplica Sangrado 2.")),
        (EnemyProfileId::PentaCore, _) => (spec_localized_text(language, "Split Lattice", "Trama Fragmentada"), spec_localized_text(language, "Deal 4 damage three times.", "Inflige 4 de daño tres veces.")),
        (EnemyProfileId::VoltMantis, 0) => (spec_localized_text(language, "Arc Cut", "Corte de Arco"), spec_localized_text(language, "Deal 8 damage.", "Inflige 8 de daño.")),
        (EnemyProfileId::VoltMantis, 1) => (spec_localized_text(language, "Arc Lash", "Látigo de Arco"), spec_localized_text(language, "Deal 4 damage twice.", "Inflige 4 de daño dos veces.")),
        (EnemyProfileId::VoltMantis, _) => (spec_localized_text(language, "Charge Shell", "Caparazón de Carga"), spec_localized_text(language, "Gain 7 Shield.", "Gana 7 de Escudo.")),
        (EnemyProfileId::ShardWeaver, 0) => (spec_localized_text(language, "Glass Cut", "Corte de Vidrio"), spec_localized_text(language, "Deal 6 damage. Apply 1 Vulnerable.", "Inflige 6 de daño. Aplica Vulnerable 1.")),
        (EnemyProfileId::ShardWeaver, 1) => (spec_localized_text(language, "Mirror Volley", "Andanada Reflejada"), spec_localized_text(language, "Deal 3 damage twice. Gain 4 Shield.", "Inflige 3 de daño dos veces. Gana 4 de Escudo.")),
        (EnemyProfileId::ShardWeaver, _) => (spec_localized_text(language, "Refocus", "Reenfocar"), spec_localized_text(language, "Gain 8 Shield. Apply Frail 1.", "Gana 8 de Escudo. Aplica Frágil 1.")),
        (EnemyProfileId::PrismArray, 0) => (spec_localized_text(language, "Prism Bite", "Mordida Prisma"), spec_localized_text(language, "Deal 7 damage. Apply 1 Vulnerable.", "Inflige 7 de daño. Aplica Vulnerable 1.")),
        (EnemyProfileId::PrismArray, 1) => (spec_localized_text(language, "Ion Salvo", "Salva Iónica"), spec_localized_text(language, "Deal 5 damage twice.", "Inflige 5 de daño dos veces.")),
        (EnemyProfileId::PrismArray, _) => (spec_localized_text(language, "Prism Guard", "Guardia Prismática"), spec_localized_text(language, "Gain 10 Shield.", "Gana 10 de Escudo.")),
        (EnemyProfileId::GlassBishop, 0) => (spec_localized_text(language, "Shatter Beam", "Rayo Astillado"), spec_localized_text(language, "Deal 8 damage. Apply 1 Vulnerable.", "Inflige 8 de daño. Aplica Vulnerable 1.")),
        (EnemyProfileId::GlassBishop, 1) => (spec_localized_text(language, "Split Halo", "Halo Partido"), spec_localized_text(language, "Deal 5 damage twice. Gain 4 Shield.", "Inflige 5 de daño dos veces. Gana 4 de Escudo.")),
        (EnemyProfileId::GlassBishop, _) => (spec_localized_text(language, "Faceted Ward", "Barrera Facetada"), spec_localized_text(language, "Gain 10 Shield. Apply Bleed 1.", "Gana 10 de Escudo. Aplica Sangrado 1.")),
        (EnemyProfileId::HexarchCore, 0) => (spec_localized_text(language, "Hex Shell", "Coraza Hex"), spec_localized_text(language, "Gain 12 Shield. Apply 2 Vulnerable.", "Gana 12 de Escudo. Aplica Vulnerable 2.")),
        (EnemyProfileId::HexarchCore, 1) => (spec_localized_text(language, "Hex Breaker", "Ruptor Hex"), spec_localized_text(language, "Deal 15 damage.", "Inflige 15 de daño.")),
        (EnemyProfileId::HexarchCore, _) => (spec_localized_text(language, "Hex Volley", "Andanada Hex"), spec_localized_text(language, "Deal 5 damage three times.", "Inflige 5 de daño tres veces.")),
        (EnemyProfileId::NullRaider, 0) => (spec_localized_text(language, "Null Shot", "Disparo Null"), spec_localized_text(language, "Deal 10 damage.", "Inflige 10 de daño.")),
        (EnemyProfileId::NullRaider, 1) => (spec_localized_text(language, "Chain Burst", "Ráfaga en Cadena"), spec_localized_text(language, "Deal 5 damage twice.", "Inflige 5 de daño dos veces.")),
        (EnemyProfileId::NullRaider, _) => (spec_localized_text(language, "Null Guard", "Guardia Null"), spec_localized_text(language, "Gain 9 Shield.", "Gana 9 de Escudo.")),
        (EnemyProfileId::RiftStalker, 0) => (spec_localized_text(language, "Rift Claw", "Garra de la Grieta"), spec_localized_text(language, "Deal 9 damage. Apply Bleed 1.", "Inflige 9 de daño. Aplica Sangrado 1.")),
        (EnemyProfileId::RiftStalker, 1) => (spec_localized_text(language, "Rend Salvo", "Salva Desgarradora"), spec_localized_text(language, "Deal 5 damage twice.", "Inflige 5 de daño dos veces.")),
        (EnemyProfileId::RiftStalker, _) => (spec_localized_text(language, "Lock Anchor", "Ancla de Fijación"), spec_localized_text(language, "Gain 10 Shield. Apply 1 Vulnerable.", "Gana 10 de Escudo. Aplica Vulnerable 1.")),
        (EnemyProfileId::SiegeSpider, 0) => (spec_localized_text(language, "Bulwark Hammer", "Martillo Baluarte"), spec_localized_text(language, "Deal 11 damage.", "Inflige 11 de daño.")),
        (EnemyProfileId::SiegeSpider, 1) => (spec_localized_text(language, "Lock Volley", "Andanada de Fijación"), spec_localized_text(language, "Deal 6 damage twice.", "Inflige 6 de daño dos veces.")),
        (EnemyProfileId::SiegeSpider, _) => (spec_localized_text(language, "Bulwark Seal", "Sello Baluarte"), spec_localized_text(language, "Gain 12 Shield. Apply 1 Vulnerable.", "Gana 12 de Escudo. Aplica Vulnerable 1.")),
        (EnemyProfileId::RiftBastion, 0) => (spec_localized_text(language, "Grav Hammer", "Martillo Gravitatorio"), spec_localized_text(language, "Deal 12 damage.", "Inflige 12 de daño.")),
        (EnemyProfileId::RiftBastion, 1) => (spec_localized_text(language, "Collapse Grid", "Malla de Colapso"), spec_localized_text(language, "Deal 6 damage twice. Apply 1 Vulnerable.", "Inflige 6 de daño dos veces. Aplica Vulnerable 1.")),
        (EnemyProfileId::RiftBastion, _) => (spec_localized_text(language, "Anchor Field", "Campo de Anclaje"), spec_localized_text(language, "Gain 12 Shield. Next hit applies Bleed 3.", "Gana 12 de Escudo. El siguiente golpe aplica Sangrado 3.")),
        (EnemyProfileId::HeptarchCore, 0) => (spec_localized_text(language, "Singularity Shell", "Coraza de Singularidad"), spec_localized_text(language, "Gain 16 Shield. Next hit applies Bleed 3.", "Gana 16 de Escudo. El siguiente golpe aplica Sangrado 3.")),
        (EnemyProfileId::HeptarchCore, 1) => (spec_localized_text(language, "Array Collapse", "Colapso de Matriz"), spec_localized_text(language, "Deal 8 damage twice. Apply 1 Vulnerable.", "Inflige 8 de daño dos veces. Aplica Vulnerable 1.")),
        (EnemyProfileId::HeptarchCore, _) => (spec_localized_text(language, "Crown Breaker", "Quebracoronas"), spec_localized_text(language, "Deal 20 damage.", "Inflige 20 de daño.")),
    }
}

/// An enemy's intent with its name and summary in `language`.
pub fn localized_enemy_intent(profile: EnemyProfileId, index: usize, language: Language) -> (intent: EnemyIntent)
    ensures
        intent == (EnemyIntent {
            name: spec_localized_intent_text(profile, index % 3, language).0,
            summary: spec_localized_intent_text(profile, index % 3, language).1,
            ..spec_enemy_intent(profile, index)
        }),
{
    let mut intent = enemy_intent(profile, index);
    let slot = index % 3;
    let translated = match (profile, slot) {
        (EnemyProfileId::ScoutDrone, 0) => (localized_text(language, "Shock Needle", "Aguja de Choque"), localized_text(language, "Deal 5 damage.", "Inflige 5 de daño.")),
        (EnemyProfileId::ScoutDrone, 1) => (localized_text(language, "Crossfire", "Fuego Cruzado"), localized_text(language, "Deal 3 damage twice.", "Inflige 3 de daño dos veces.")),
        (EnemyProfileId::ScoutDrone, _) => (localized_text(language, "Brace Cycle", "Ciclo de Refuerzo"), localized_text(language, "Gain 4 Shield. Gain Strength 1.", "Gana 4 de Escudo. Gana Fuerza 1.")),
        (EnemyProfileId::NeedlerDrone, 0) => (localized_text(language, "Needle Tap", "Toque de Aguijón"), localized_text(language, "Deal 4 damage. Apply Bleed 1.", "Inflige 4 de daño. Aplica Sangrado 1.")),
        (EnemyProfileId::NeedlerDrone, 1) => (localized_text(language, "Split Sting", "Picadura Múltiple"), localized_text(language, "Deal 2 damage three times.", "Inflige 2 de daño tres veces.")),
        (EnemyProfileId::NeedlerDrone, _) => (localized_text(language, "Stabilize", "Estabilizar"), localized_text(language, "Gain 4 Shield.", "Gana 4 de Escudo.")),
        (EnemyProfileId::RampartDrone, 0) => (localized_text(language, "Ram Plate", "Placa de Choque"), localized_text(language, "Deal 8 damage.", "Inflige 8 de daño.")),
        (EnemyProfileId::RampartDrone, 1) => (localized_text(language, "Pressure Clamp", "Mordaza de Presión"), localized_text(language, "Deal 5 damage. Apply Weak 1.", "Inflige 5 de daño. Aplica Débil 1.")),
        (EnemyProfileId::RampartDrone, _) => (localized_text(language, "Reinforce Wall", "Muro Reforzado"), localized_text(language, "Gain 8 Shield. Next hit applies Bleed 2.", "Gana 8 de Escudo. El siguiente golpe aplica Sangrado 2.")),
        (EnemyProfileId::SpineSentry, 0) => (localized_text(language, "Spine Rack", "Bastidor de Púas"), localized_text(language, "Deal 4 damage twice. Apply Bleed 1.", "Inflige 4 de daño dos veces. Aplica Sangrado 1.")),
        (EnemyProfileId::SpineSentry, 1) => (localized_text(language, "Target Lock", "Fijación de Blanco"), localized_text(language, "Deal 7 damage. Apply 1 Vulnerable.", "Inflige 7 de daño. Aplica Vulnerable 1.")),
        (EnemyProfileId::SpineSentry, _) => (localized_text(language, "Quill Plating", "Blindaje de Púas"), localized_text(language, "Gain 9 Shield.", "Gana 9 de Escudo.")),
        (EnemyProfileId::PentaCore, 0) => (localized_text(language, "Target Prism", "Prisma de Fijación"), localized_text(language, "Deal 7 damage. Apply 1 Vulnerable.", "Inflige 7 de daño. Aplica Vulnerable 1.")),
        (EnemyProfileId::PentaCore, 1) => (localized_text(language, "Penta Bulwark", "Baluarte Penta"), localized_text(language, "Gain 10 Shield. Next hit applies Bleed 2.", "Gana 10 de Escudo. El siguiente golpe aplica Sangrado 2.")),
        (EnemyProfileId::PentaCore, _) => (localized_text(language, "Split Lattice", "Trama Fragmentada"), localized_text(language, "Deal 4 damage three times.", "Inflige 4 de daño tres veces.")),
        (EnemyProfileId::VoltMantis, 0) => (localized_text(language, "Arc Cut", "Corte de Arco"), localized_text(language, "Deal 8 damage.", "Inflige 8 de daño.")),
        (EnemyProfileId::VoltMantis, 1) => (localized_text(language, "Arc Lash", "Látigo de Arco"), localized_text(language, "Deal 4 damage twice.", "Inflige 4 de daño dos veces.")),
        (EnemyProfileId::VoltMantis, _) => (localized_text(language, "Charge Shell", "Caparazón de Carga"), localized_text(language, "Gain 7 Shield.", "Gana 7 de Escudo.")),
        (EnemyProfileId::ShardWeaver, 0) => (localized_text(language, "Glass Cut", "Corte de Vidrio"), localized_text(language, "Deal 6 damage. Apply 1 Vulnerable.", "Inflige 6 de daño. Aplica Vulnerable 1.")),
        (EnemyProfileId::ShardWeaver, 1) => (localized_text(language, "Mirror Volley", "Andanada Reflejada"), localized_text(language, "Deal 3 damage twice. Gain 4 Shield.", "Inflige 3 de daño dos veces. Gana 4 de Escudo.")),
        (EnemyProfileId::ShardWeaver, _) => (localized_text(language, "Refocus", "Reenfocar"), localized_text(language, "Gain 8 Shield. Apply Frail 1.", "Gana 8 de Escudo. Aplica Frágil 1.")),
        (EnemyProfileId::PrismArray, 0) => (localized_text(language, "Prism Bite", "Mordida Prisma"), localized_text(language, "Deal 7 damage. Apply 1 Vulnerable.", "Inflige 7 de daño. Aplica Vulnerable 1.")),
        (EnemyProfileId::PrismArray, 1) => (localized_text(language, "Ion Salvo", "Salva Iónica"), localized_text(language, "Deal 5 damage twice.", "Inflige 5 de daño dos veces.")),
        (EnemyProfileId::PrismArray, _) => (localized_text(language, "Prism Guard", "Guardia Prismática"), localized_text(language, "Gain 10 Shield.", "Gana 10 de Escudo.")),
        (EnemyProfileId::GlassBishop, 0) => (localized_text(language, "Shatter Beam", "Rayo Astillado"), localized_text(language, "Deal 8 damage. Apply 1 Vulnerable.", "Inflige 8 de daño. Aplica Vulnerable 1.")),
        (EnemyProfileId::GlassBishop, 1) => (localized_text(language, "Split Halo", "Halo Partido"), localized_text(language, "Deal 5 damage twice. Gain 4 Shield.", "Inflige 5 de daño dos veces. Gana 4 de Escudo.")),
        (EnemyProfileId::GlassBishop, _) => (localized_text(language, "Faceted Ward", "Barrera Facetada"), localized_text(language, "Gain 10 Shield. Apply Bleed 1.", "Gana 10 de Escudo. Aplica Sangrado 1.")),
        (EnemyProfileId::HexarchCore, 0) => (localized_text(language, "Hex Shell", "Coraza Hex"), localized_text(language, "Gain 12 Shield. Apply 2 Vulnerable.", "Gana 12 de Escudo. Aplica Vulnerable 2.")),
        (EnemyProfileId::HexarchCore, 1) => (localized_text(language, "Hex Breaker", "Ruptor Hex"), localized_text(language, "Deal 15 damage.", "Inflige 15 de daño.")),
        (EnemyProfileId::HexarchCore, _) => (localized_text(language, "Hex Volley", "Andanada Hex"), localized_text(language, "Deal 5 damage three times.", "Inflige 5 de daño tres veces.")),
        (EnemyProfileId::NullRaider, 0) => (localized_text(language, "Null Shot", "Disparo Null"), localized_text(language, "Deal 10 damage.", "Inflige 10 de daño.")),
        (EnemyProfileId::NullRaider, 1) => (localized_text(language, "Chain Burst", "Ráfaga en Cadena"), localized_text(language, "Deal 5 damage twice.", "Inflige 5 de daño dos veces.")),
        (EnemyProfileId::NullRaider, _) => (localized_text(language, "Null Guard", "Guardia Null"), localized_text(language, "Gain 9 Shield.", "Gana 9 de Escudo.")),
        (EnemyProfileId::RiftStalker, 0) => (localized_text(language, "Rift Claw", "Garra de la Grieta"), localized_text(language, "Deal 9 damage. Apply Bleed 1.", "Inflige 9 de daño. Aplica Sangrado 1.")),
        (EnemyProfileId::RiftStalker, 1) => (localized_text(language, "Rend Salvo", "Salva Desgarradora"), localized_text(language, "Deal 5 damage twice.", "Inflige 5 de daño dos veces.")),
        (EnemyProfileId::RiftStalker, _) => (localized_text(language, "Lock Anchor", "Ancla de Fijación"), localized_text(language, "Gain 10 Shield. Apply 1 Vulnerable.", "Gana 10 de Escudo. Aplica Vulnerable 1.")),
        (EnemyProfileId::SiegeSpider, 0) => (localized_text(language, "Bulwark Hammer", "Martillo Baluarte"), localized_text(language, "Deal 11 damage.", "Inflige 11 de daño.")),
        (EnemyProfileId::SiegeSpider, 1) => (localized_text(language, "Lock Volley", "Andanada de Fijación"), localized_text(language, "Deal 6 damage twice.", "Inflige 6 de daño dos veces.")),
        (EnemyProfileId::SiegeSpider, _) => (localized_text(language, "Bulwark Seal", "Sello Baluarte"), localized_text(language, "Gain 12 Shield. Apply 1 Vulnerable.", "Gana 12 de Escudo. Aplica Vulnerable 1.")),
        (EnemyProfileId::RiftBastion, 0) => (localized_text(language, "Grav Hammer", "Martillo Gravitatorio"), localized_text(language, "Deal 12 damage.", "Inflige 12 de daño.")),
        (EnemyProfileId::RiftBastion, 1) => (localized_text(language, "Collapse Grid", "Malla de Colapso"), localized_text(language, "Deal 6 damage twice. Apply 1 Vulnerable.", "Inflige 6 de daño dos veces. Aplica Vulnerable 1.")),
        (EnemyProfileId::RiftBastion, _) => (localized_text(language, "Anchor Field", "Campo de Anclaje"), localized_text(language, "Gain 12 Shield. Next hit applies Bleed 3.", "Gana 12 de Escudo. El siguiente golpe aplica Sangrado 3.")),
        (EnemyProfileId::HeptarchCore, 0) => (localized_text(language, "Singularity Shell", "Coraza de Singularidad"), localized_text(language, "Gain 16 Shield. Next hit applies Bleed 3.", "Gana 16 de Escudo. El siguiente golpe aplica Sangrado 3.")),
        (EnemyProfileId::HeptarchCore, 1) => (localized_text(language, "Array Collapse", "Colapso de Matriz"), localized_text(language, "Deal 8 damage twice. Apply 1 Vulnerable.", "Inflige 8 de daño dos veces. Aplica Vulnerable 1.")),
        (EnemyProfileId::HeptarchCore, _) => (localized_text(language, "Crown Breaker", "Quebracoronas"), localized_text(language, "Deal 20 damage.", "Inflige 20 de daño.")),
    };
    intent.name = translated.0;
    intent.summary = translated.1;
    intent
}

/// How a sprite layer is tinted.
#[derive(Clone, Copy, Debug, PartialEq, Eq, Structural)]
pub enum EnemySpriteLayerTone {
    Base,
    DetailA,
    DetailB,
    DetailC,
    DetailD,
    DetailE,
}

/// One layer of an enemy's 16×16 sprite: its code, size, tint and packed pixels (one bit a pixel, row by
/// row, the highest bit of a byte leftmost).
#[derive(Clone, Copy, Debug, PartialEq, Eq)]
pub struct EnemySpriteLayerDef {
    pub code: u8,
    pub width: u8,
    pub height: u8,
    pub tone: EnemySpriteLayerTone,
    pub bits: [u8; 32],
}

/// An enemy's sprite: its size and its layers, drawn in order.
#[derive(Clone, Debug, PartialEq, Eq)]
pub struct EnemySpriteDef {
    pub width: u8,
    pub height: u8,
    pub layers: Vec<EnemySpriteLayerDef>,
}

pub const ENEMY_SPRITE_WIDTH: u8 = 16;

pub const ENEMY_SPRITE_HEIGHT: u8 = 16;

/// The codes that name sprite layers.
pub open spec fn is_sprite_layer_code(code: u8) -> bool {
    1 <= code <= 51
}

/// The pixel rows of the sprite layer with a code (the leftmost pixel in the highest bit).
pub open spec fn spec_sprite_layer_rows(code: u8) -> Seq<u16> {
    match code {
        1 => seq![0x0000, 0x0300, 0x0780, 0x0cc0, 0x1860, 0x1ff0, 0x3fd8, 0x3798, 0x1f90, 0x0fc0, 0x00c0, 0x0060, 0x00c0, 0x0180, 0x0000, 0x0000],
        2 => seq![0x0000, 0x0000, 0x0000, 0x0300, 0x0780, 0x0000, 0x0020, 0x0860, 0x0060, 0x0000, 0x0000, 0x0000, 0x0000, 0x0000, 0x0000, 0x0000],
        3 => seq![0x0000, 0x0000, 0x0000, 0x0000, 0x0000, 0x0000, 0x0000, 0x0000, 0x0000, 0x0000, 0x0c00, 0x1800, 0x0000, 0x0000, 0x0000, 0x0000],
        4 => seq![0x0000, 0x0000, 0x0060, 0x00e0, 0x01a0, 0x01e0, 0x0ff0, 0x07e0, 0x03c0, 0x03c0, 0x0660, 0x07e0, 0x03c0, 0x0260, 0x0430, 0x0000],
        5 => seq![0x0000, 0x0000, 0x0000, 0x0000, 0x0040, 0x0000, 0x0000, 0x0000, 0x0000, 0x0000, 0x0180, 0x0000, 0x0000, 0x0000, 0x0000, 0x0000],
        6 => seq![0x0040, 0x0060, 0x0080, 0x0000, 0x0000, 0x0000, 0x0000, 0x0000, 0x0000, 0x0000, 0x0000, 0x0000, 0x0000, 0x0000, 0x0000, 0x0000],
        7 => seq![0x0000, 0x07e0, 0x0c30, 0x1818, 0x1818, 0x1818, 0x1818, 0x1818, 0x1818, 0x1818, 0x0c30, 0x07e0, 0x0000, 0x03c0, 0x0660, 0x0000],
        8 => seq![0x0000, 0x0000, 0x03c0, 0x0420, 0x0000, 0x0000, 0x0180, 0x0000, 0x0000, 0x0420, 0x03c0, 0x0000, 0x0000, 0x0000, 0x0000, 0x0000],
        9 => seq![0x0ff0, 0x1818, 0x300c, 0x23c4, 0x27e4, 0x27e4, 0x2664, 0x27e4, 0x27e4, 0x23c4, 0x300c, 0x1818, 0x0ff0, 0x0000, 0x0000, 0x0000],
        10 => seq![0x0100, 0x0380, 0x06c0, 0x0c20, 0x1c30, 0x3b38, 0x73cc, 0x3b38, 0x1c30, 0x0c20, 0x06c0, 0x2388, 0x67cc, 0x26c8, 0x06c0, 0x0c60],
        11 => seq![0x0000, 0x0000, 0x0100, 0x03c0, 0x03c0, 0x04c0, 0x0c30, 0x04c0, 0x03c0, 0x03c0, 0x0100, 0x0000, 0x0000, 0x0000, 0x0000, 0x0000],
        12 => seq![0x0000, 0x0180, 0x0240, 0x0420, 0x0c30, 0x1818, 0x300c, 0x300c, 0x300c, 0x300c, 0x300c, 0x381c, 0x0ff0, 0x0660, 0x0000, 0x0000],
        13 => seq![0x0000, 0x0000, 0x0000, 0x0000, 0x0180, 0x03c0, 0x0660, 0x0660, 0x07e0, 0x03c0, 0x0180, 0x0000, 0x0000, 0x0000, 0x0000, 0x0000],
        14 => seq![0x0000, 0x0000, 0x0000, 0x03c0, 0x0420, 0x0c30, 0x0810, 0x0810, 0x0810, 0x0810, 0x0660, 0x03c0, 0x0000, 0x0000, 0x0000, 0x0000],
        15 => seq![0x0000, 0x0180, 0x0180, 0x0420, 0x0000, 0x2004, 0x0000, 0x0180, 0x4002, 0x0000, 0x1008, 0x0000, 0x0810, 0x0420, 0x0180, 0x0000],
        16 => seq![0x0000, 0x0000, 0x0000, 0x0810, 0x0ce0, 0x0c30, 0x0420, 0x0660, 0x03c0, 0x0180, 0x0180, 0x0180, 0x0240, 0x0420, 0x0810, 0x0000],
        17 => seq![0x0000, 0x0000, 0x0000, 0x0000, 0x0300, 0x03c0, 0x03c0, 0x0180, 0x0000, 0x0000, 0x0000, 0x0000, 0x0000, 0x0000, 0x0000, 0x0000],
        18 => seq![0x0000, 0x0810, 0x1c30, 0x3660, 0x1010, 0x0000, 0x0000, 0x1800, 0x300c, 0x6006, 0x2002, 0x0000, 0x0000, 0x0000, 0x0000, 0x0000],
        19 => seq![0x0000, 0x0008, 0x0030, 0x0060, 0x2004, 0x1818, 0x0810, 0x3000, 0x000c, 0x0810, 0x1818, 0x2004, 0x0600, 0x0c00, 0x1000, 0x0000],
        20 => seq![0x0000, 0x1000, 0x0c00, 0x0600, 0x03c0, 0x0660, 0x0660, 0x0c30, 0x0c30, 0x0660, 0x0660, 0x03c0, 0x0060, 0x0030, 0x0008, 0x0000],
        21 => seq![0x0000, 0x0000, 0x0000, 0x0000, 0x0000, 0x0180, 0x0180, 0x03c0, 0x03c0, 0x0180, 0x0180, 0x0000, 0x0000, 0x0000, 0x0000, 0x0000],
        22 => seq![0x0000, 0x0000, 0x0000, 0x0180, 0x03c0, 0x0180, 0x0000, 0x0180, 0x03c0, 0x06e0, 0x03c0, 0x0180, 0x0000, 0x0000, 0x0000, 0x0000],
        23 => seq![0x0000, 0x0180, 0x03c0, 0x0660, 0x0c30, 0x0660, 0x0280, 0x0660, 0x0c30, 0x1818, 0x0c30, 0x0660, 0x03c0, 0x0180, 0x0000, 0x0000],
        24 => seq![0x0000, 0x0000, 0x0000, 0x0000, 0x0000, 0x0000, 0x0100, 0x0000, 0x0000, 0x0100, 0x0000, 0x0000, 0x0000, 0x0000, 0x0000, 0x0000],
        25 => seq![0x0000, 0x0000, 0x0000, 0x0000, 0x0000, 0x0100, 0x0380, 0x07c0, 0x03c0, 0x03c0, 0x03c0, 0x03c0, 0x0000, 0x0000, 0x0000, 0x0000],
        26 => seq![0x0100, 0x0380, 0x0380, 0x0380, 0x0000, 0x0000, 0x0000, 0x0000, 0x0000, 0x0000, 0x0000, 0x0000, 0x0000, 0x0000, 0x0000, 0x0000],
        27 => seq![0x0000, 0x0000, 0x0440, 0x0440, 0x0380, 0x06c0, 0x0c60, 0x0800, 0x0420, 0x0020, 0x0420, 0x0c30, 0x0ff0, 0x0660, 0x0c30, 0x0000],
        28 => seq![0x0000, 0x03c0, 0x0660, 0x0c30, 0x1818, 0x300c, 0x300c, 0x300c, 0x300c, 0x300c, 0x1818, 0x0c30, 0x0660, 0x03c0, 0x0000, 0x0000],
        29 => seq![0x0000, 0x0000, 0x0000, 0x0000, 0x03c0, 0x0660, 0x0c30, 0x0c30, 0x0c30, 0x0c30, 0x0660, 0x03c0, 0x0000, 0x0000, 0x0000, 0x0000],
        30 => seq![0x0000, 0x0000, 0x03c0, 0x0660, 0x0c30, 0x1818, 0x1008, 0x1008, 0x1818, 0x1818, 0x0c30, 0x0660, 0x03c0, 0x0000, 0x0000, 0x0000],
        31 => seq![0x0000, 0x0000, 0x0000, 0x0000, 0x0000, 0x0180, 0x03c0, 0x0660, 0x03c0, 0x0180, 0x0000, 0x0000, 0x0000, 0x0000, 0x0100, 0x0000],
        32 => seq![0x0000, 0x0780, 0x0c20, 0x1810, 0x3b18, 0x3208, 0x3428, 0x3818, 0x3438, 0x3218, 0x1830, 0x0fe0, 0x0760, 0x0c30, 0x0000, 0x0000],
        33 => seq![0x0000, 0x0000, 0x0000, 0x0000, 0x0000, 0x0000, 0x0180, 0x03c0, 0x0180, 0x0000, 0x0000, 0x0000, 0x0000, 0x0000, 0x0000, 0x0000],
        34 => seq![0x0000, 0x0000, 0x03c0, 0x07e0, 0x0420, 0x0c30, 0x0810, 0x0000, 0x0800, 0x0c20, 0x0400, 0x0000, 0x0000, 0x0000, 0x0000, 0x0000],
        35 => seq![0x0000, 0x0000, 0x0000, 0x0000, 0x00c0, 0x01c0, 0x0240, 0x0420, 0x0240, 0x01c0, 0x03c0, 0x0000, 0x0000, 0x0000, 0x0000, 0x0000],
        36 => seq![0x0000, 0x0000, 0x0000, 0x0000, 0x0030, 0x0078, 0x00f8, 0x00f0, 0x00e0, 0x00e0, 0x00c0, 0x00c0, 0x0000, 0x0000, 0x0000, 0x0000],
        37 => seq![0x0000, 0x0000, 0x0000, 0x0180, 0x03c0, 0x0700, 0x0c00, 0x1800, 0x1800, 0x0c00, 0x0700, 0x0100, 0x0000, 0x0000, 0x0000, 0x0000],
        38 => seq![0x0000, 0x0180, 0x07e0, 0x0e70, 0x1c00, 0x3800, 0x3000, 0x2000, 0x2000, 0x3000, 0x1800, 0x0e00, 0x0780, 0x0180, 0x0000, 0x0000],
        39 => seq![0x0000, 0x0000, 0x0000, 0x0000, 0x0000, 0x0080, 0x0300, 0x0700, 0x0700, 0x0300, 0x0000, 0x0000, 0x0000, 0x0000, 0x0000, 0x0000],
        40 => seq![0x0000, 0x8001, 0x4812, 0x2424, 0x1428, 0x0990, 0x07e0, 0x05a0, 0x07e0, 0x0990, 0x1428, 0x2244, 0x4422, 0x8811, 0x1008, 0x0000],
        41 => seq![0x0000, 0x0000, 0x0000, 0x0000, 0x0000, 0x0180, 0x03c0, 0x0240, 0x03c0, 0x0240, 0x0180, 0x0080, 0x0000, 0x0000, 0x0000, 0x0000],
        42 => seq![0x0000, 0x8001, 0x4812, 0x2424, 0x1428, 0x0bd0, 0x0660, 0x03c0, 0x0660, 0x0bd0, 0x1008, 0x2004, 0x4422, 0x0810, 0x0000, 0x0000],
        43 => seq![0x0000, 0x07e0, 0x0c30, 0x1818, 0x300c, 0x300c, 0x300c, 0x300c, 0x300c, 0x300c, 0x300c, 0x1818, 0x0ff0, 0x0660, 0x0000, 0x0000],
        44 => seq![0x0000, 0x0000, 0x0000, 0x0000, 0x0000, 0x00c0, 0x0180, 0x0300, 0x0600, 0x0300, 0x0000, 0x0000, 0x0000, 0x0000, 0x0000, 0x0000],
        45 => seq![0x0000, 0x07e0, 0x1ff8, 0x381c, 0x33cc, 0x63c6, 0x6666, 0x6666, 0x6666, 0x6666, 0x6666, 0x67e6, 0x33cc, 0x381c, 0x1ff8, 0x0000],
        46 => seq![0x0000, 0x0000, 0x0000, 0x0000, 0x03c0, 0x03c0, 0x0300, 0x0240, 0x00c0, 0x03c0, 0x0000, 0x0000, 0x0000, 0x0000, 0x0000, 0x0000],
        47 => seq![0x0000, 0x0100, 0x0ff0, 0x1808, 0x3084, 0x2004, 0x6006, 0x6002, 0x6006, 0x2004, 0x3084, 0x1808, 0x0ff0, 0x0100, 0x0000, 0x0000],
        48 => seq![0x0000, 0x0000, 0x0000, 0x0000, 0x0360, 0x0410, 0x0810, 0x0810, 0x0810, 0x0410, 0x0360, 0x0000, 0x0000, 0x0000, 0x0000, 0x0000],
        49 => seq![0x0000, 0x0000, 0x0000, 0x07f0, 0x0c18, 0x1808, 0x1008, 0x100c, 0x1008, 0x1808, 0x0c18, 0x07f0, 0x0000, 0x0000, 0x0000, 0x0000],
        50 => seq![0x0000, 0x0000, 0x0000, 0x0000, 0x0000, 0x03e0, 0x07e0, 0x0660, 0x07e0, 0x03e0, 0x0000, 0x0000, 0x0000, 0x0000, 0x0000, 0x0000],
        51 => seq![0x0100, 0x0ee0, 0x1008, 0x2004, 0x0000, 0x4002, 0x0000, 0x8180, 0x0000, 0x4002, 0x0000, 0x2004, 0x1008, 0x0ee0, 0x0100, 0x0000],
        _ => Seq::empty(),
    }
}

/// The tint of the sprite layer with a code.
pub open spec fn spec_sprite_layer_tone(code: u8) -> EnemySpriteLayerTone {
    match code {
        1 => EnemySpriteLayerTone::Base,
        2 => EnemySpriteLayerTone::DetailB,
        3 => EnemySpriteLayerTone::DetailE,
        4 => EnemySpriteLayerTone::Base,
        5 => EnemySpriteLayerTone::DetailA,
        6 => EnemySpriteLayerTone::DetailC,
        7 => EnemySpriteLayerTone::Base,
        8 => EnemySpriteLayerTone::DetailE,
        9 => EnemySpriteLayerTone::DetailB,
        10 => EnemySpriteLayerTone::Base,
        11 => EnemySpriteLayerTone::DetailC,
        12 => EnemySpriteLayerTone::Base,
        13 => EnemySpriteLayerTone::DetailC,
        14 => EnemySpriteLayerTone::DetailE,
        15 => EnemySpriteLayerTone::DetailA,
        16 => EnemySpriteLayerTone::Base,
        17 => EnemySpriteLayerTone::DetailC,
        18 => EnemySpriteLayerTone::DetailE,
        19 => EnemySpriteLayerTone::Base,
        20 => EnemySpriteLayerTone::DetailA,
        21 => EnemySpriteLayerTone::DetailC,
        22 => EnemySpriteLayerTone::Base,
        23 => EnemySpriteLayerTone::DetailC,
        24 => EnemySpriteLayerTone::DetailE,
        25 => EnemySpriteLayerTone::Base,
        26 => EnemySpriteLayerTone::DetailE,
        27 => EnemySpriteLayerTone::DetailC,
        28 => EnemySpriteLayerTone::Base,
        29 => EnemySpriteLayerTone::DetailA,
        30 => EnemySpriteLayerTone::DetailE,
        31 => EnemySpriteLayerTone::DetailC,
        32 => EnemySpriteLayerTone::Base,
        33 => EnemySpriteLayerTone::DetailE,
        34 => EnemySpriteLayerTone::DetailC,
        35 => EnemySpriteLayerTone::DetailD,
        36 => EnemySpriteLayerTone::Base,
        37 => EnemySpriteLayerTone::DetailE,
        38 => EnemySpriteLayerTone::DetailC,
        39 => EnemySpriteLayerTone::DetailD,
        40 => EnemySpriteLayerTone::Base,
        41 => EnemySpriteLayerTone::DetailC,
        42 => EnemySpriteLayerTone::DetailE,
        43 => EnemySpriteLayerTone::Base,
        44 => EnemySpriteLayerTone::DetailE,
        45 => EnemySpriteLayerTone::DetailD,
        46 => EnemySpriteLayerTone::DetailC,
        47 => EnemySpriteLayerTone::Base,
        48 => EnemySpriteLayerTone::DetailA,
        49 => EnemySpriteLayerTone::DetailE,
        50 => EnemySpriteLayerTone::DetailC,
        51 => EnemySpriteLayerTone::DetailD,
        _ => EnemySpriteLayerTone::Base,
    }
}

/// The code of the first layer of a profile's sprite; its layers have consecutive codes.
pub open spec fn spec_sprite_first_code(profile: EnemyProfileId) -> u8 {
    match profile {
        EnemyProfileId::ScoutDrone => 1,
        EnemyProfileId::NeedlerDrone => 4,
        EnemyProfileId::RampartDrone => 7,
        EnemyProfileId::SpineSentry => 10,
        EnemyProfileId::PentaCore => 12,
        EnemyProfileId::VoltMantis => 16,
        EnemyProfileId::ShardWeaver => 19,
        EnemyProfileId::PrismArray => 22,
        EnemyProfileId::GlassBishop => 25,
        EnemyProfileId::HexarchCore => 28,
        EnemyProfileId::NullRaider => 32,
        EnemyProfileId::RiftStalker => 36,
        EnemyProfileId::SiegeSpider => 40,
        EnemyProfileId::RiftBastion => 43,
        EnemyProfileId::HeptarchCore => 47,
    }
}

/// How many layers a profile's sprite has.
pub open spec fn spec_sprite_layer_count(profile: EnemyProfileId) -> u8 {
    match profile {
        EnemyProfileId::ScoutDrone => 3,
        EnemyProfileId::NeedlerDrone => 3,
        EnemyProfileId::RampartDrone => 3,
        EnemyProfileId::SpineSentry => 2,
        EnemyProfileId::PentaCore => 4,
        EnemyProfileId::VoltMantis => 3,
        EnemyProfileId::ShardWeaver => 3,
        EnemyProfileId::PrismArray => 3,
        EnemyProfileId::GlassBishop => 3,
        EnemyProfileId::HexarchCore => 4,
        EnemyProfileId::NullRaider => 4,
        EnemyProfileId::RiftStalker => 4,
        EnemyProfileId::SiegeSpider => 3,
        EnemyProfileId::RiftBastion => 4,
        EnemyProfileId::HeptarchCore => 5,
    }
}

/// Rows packed into bytes, two a row, the high byte first.
pub open spec fn packed_rows(rows: Seq<u16>) -> Seq<u8> {
    Seq::new(2 * rows.len(), |i: int| if i % 2 == 0 { (rows[i / 2] / 256) as u8 } else { (rows[i / 2] % 256) as u8 })
}

/// `layer` is the sprite layer with code `code`.
pub open spec fn is_sprite_layer(layer: EnemySpriteLayerDef, code: u8) -> bool {
    &&& layer.code == code
    &&& layer.width == ENEMY_SPRITE_WIDTH
    &&& layer.height == ENEMY_SPRITE_HEIGHT
    &&& layer.tone == spec_sprite_layer_tone(code)
    &&& layer.bits@ == packed_rows(spec_sprite_layer_rows(code))
}

/// Packs sixteen rows of sixteen pixels into 32 bytes.
pub fn pack_enemy_sprite_rows(rows: [u16; 16]) -> (bytes: [u8; 32])
    ensures
        bytes@ == packed_rows(rows@),
{
    let mut bytes = [0u8; 32];
    let mut index: usize = 0;
    while index < 16
        invariant
            index <= 16,
            bytes@.len() == 32,
            rows@.len() == 16,
            forall|j: int| 0 <= j < 2 * index ==> bytes@[j] == #[trigger] packed_rows(rows@)[j],
        decreases 16 - index,
    {
        let row = rows[index];
        let high = (row >> 8) as u8;
        let low = (row & 0xff) as u8;
        assert(high == row / 256 && low == row % 256) by (bit_vector)
            requires
                high == (row >> 8) as u8,
                low == (row & 0xff) as u8,
        ;
        bytes[index * 2] = high;
        bytes[index * 2 + 1] = low;
        index = index + 1;
    }
    proof {
        assert(bytes@ =~= packed_rows(rows@));
    }
    bytes
}

fn sprite_layer_rows(code: u8) -> (rows: [u16; 16])
    requires
        is_sprite_layer_code(code),
    ensures
        rows@ == spec_sprite_layer_rows(code),
{
    match code {
        1 => [0x0000, 0x0300, 0x0780, 0x0cc0, 0x1860, 0x1ff0, 0x3fd8, 0x3798, 0x1f90, 0x0fc0, 0x00c0, 0x0060, 0x00c0, 0x0180, 0x0000, 0x0000],
        2 => [0x0000, 0x0000, 0x0000, 0x0300, 0x0780, 0x0000, 0x0020, 0x0860, 0x0060, 0x0000, 0x0000, 0x0000, 0x0000, 0x0000, 0x0000, 0x0000],
        3 => [0x0000, 0x0000, 0x0000, 0x0000, 0x0000, 0x0000, 0x0000, 0x0000, 0x0000, 0x0000, 0x0c00, 0x1800, 0x0000, 0x0000, 0x0000, 0x0000],
        4 => [0x0000, 0x0000, 0x0060, 0x00e0, 0x01a0, 0x01e0, 0x0ff0, 0x07e0, 0x03c0, 0x03c0, 0x0660, 0x07e0, 0x03c0, 0x0260, 0x0430, 0x0000],
        5 => [0x0000, 0x0000, 0x0000, 0x0000, 0x0040, 0x0000, 0x0000, 0x0000, 0x0000, 0x0000, 0x0180, 0x0000, 0x0000, 0x0000, 0x0000, 0x0000],
        6 => [0x0040, 0x0060, 0x0080, 0x0000, 0x0000, 0x0000, 0x0000, 0x0000, 0x0000, 0x0000, 0x0000, 0x0000, 0x0000, 0x0000, 0x0000, 0x0000],
        7 => [0x0000, 0x07e0, 0x0c30, 0x1818, 0x1818, 0x1818, 0x1818, 0x1818, 0x1818, 0x1818, 0x0c30, 0x07e0, 0x0000, 0x03c0, 0x0660, 0x0000],
        8 => [0x0000, 0x0000, 0x03c0, 0x0420, 0x0000, 0x0000, 0x0180, 0x0000, 0x0000, 0x0420, 0x03c0, 0x0000, 0x0000, 0x0000, 0x0000, 0x0000],
        9 => [0x0ff0, 0x1818, 0x300c, 0x23c4, 0x27e4, 0x27e4, 0x2664, 0x27e4, 0x27e4, 0x23c4, 0x300c, 0x1818, 0x0ff0, 0x0000, 0x0000, 0x0000],
        10 => [0x0100, 0x0380, 0x06c0, 0x0c20, 0x1c30, 0x3b38, 0x73cc, 0x3b38, 0x1c30, 0x0c20, 0x06c0, 0x2388, 0x67cc, 0x26c8, 0x06c0, 0x0c60],
        11 => [0x0000, 0x0000, 0x0100, 0x03c0, 0x03c0, 0x04c0, 0x0c30, 0x04c0, 0x03c0, 0x03c0, 0x0100, 0x0000, 0x0000, 0x0000, 0x0000, 0x0000],
        12 => [0x0000, 0x0180, 0x0240, 0x0420, 0x0c30, 0x1818, 0x300c, 0x300c, 0x300c, 0x300c, 0x300c, 0x381c, 0x0ff0, 0x0660, 0x0000, 0x0000],
        13 => [0x0000, 0x0000, 0x0000, 0x0000, 0x0180, 0x03c0, 0x0660, 0x0660, 0x07e0, 0x03c0, 0x0180, 0x0000, 0x0000, 0x0000, 0x0000, 0x0000],
        14 => [0x0000, 0x0000, 0x0000, 0x03c0, 0x0420, 0x0c30, 0x0810, 0x0810, 0x0810, 0x0810, 0x0660, 0x03c0, 0x0000, 0x0000, 0x0000, 0x0000],
        15 => [0x0000, 0x0180, 0x0180, 0x0420, 0x0000, 0x2004, 0x0000, 0x0180, 0x4002, 0x0000, 0x1008, 0x0000, 0x0810, 0x0420, 0x0180, 0x0000],
        16 => [0x0000, 0x0000, 0x0000, 0x0810, 0x0ce0, 0x0c30, 0x0420, 0x0660, 0x03c0, 0x0180, 0x0180, 0x0180, 0x0240, 0x0420, 0x0810, 0x0000],
        17 => [0x0000, 0x0000, 0x0000, 0x0000, 0x0300, 0x03c0, 0x03c0, 0x0180, 0x0000, 0x0000, 0x0000, 0x0000, 0x0000, 0x0000, 0x0000, 0x0000],
        18 => [0x0000, 0x0810, 0x1c30, 0x3660, 0x1010, 0x0000, 0x0000, 0x1800, 0x300c, 0x6006, 0x2002, 0x0000, 0x0000, 0x0000, 0x0000, 0x0000],
        19 => [0x0000, 0x0008, 0x0030, 0x0060, 0x2004, 0x1818, 0x0810, 0x3000, 0x000c, 0x0810, 0x1818, 0x2004, 0x0600, 0x0c00, 0x1000, 0x0000],
        20 => [0x0000, 0x1000, 0x0c00, 0x0600, 0x03c0, 0x0660, 0x0660, 0x0c30, 0x0c30, 0x0660, 0x0660, 0x03c0, 0x0060, 0x0030, 0x0008, 0x0000],
        21 => [0x0000, 0x0000, 0x0000, 0x0000, 0x0000, 0x0180, 0x0180, 0x03c0, 0x03c0, 0x0180, 0x0180, 0x0000, 0x0000, 0x0000, 0x0000, 0x0000],
        22 => [0x0000, 0x0000, 0x0000, 0x0180, 0x03c0, 0x0180, 0x0000, 0x0180, 0x03c0, 0x06e0, 0x03c0, 0x0180, 0x0000, 0x0000, 0x0000, 0x0000],
        23 => [0x0000, 0x0180, 0x03c0, 0x0660, 0x0c30, 0x0660, 0x0280, 0x0660, 0x0c30, 0x1818, 0x0c30, 0x0660, 0x03c0, 0x0180, 0x0000, 0x0000],
        24 => [0x0000, 0x0000, 0x0000, 0x0000, 0x0000, 0x0000, 0x0100, 0x0000, 0x0000, 0x0100, 0x0000, 0x0000, 0x0000, 0x0000, 0x0000, 0x0000],
        25 => [0x0000, 0x0000, 0x0000, 0x0000, 0x0000, 0x0100, 0x0380, 0x07c0, 0x03c0, 0x03c0, 0x03c0, 0x03c0, 0x0000, 0x0000, 0x0000, 0x0000],
        26 => [0x0100, 0x0380, 0x0380, 0x0380, 0x0000, 0x0000, 0x0000, 0x0000, 0x0000, 0x0000, 0x0000, 0x0000, 0x0000, 0x0000, 0x0000, 0x0000],
        27 => [0x0000, 0x0000, 0x0440, 0x0440, 0x0380, 0x06c0, 0x0c60, 0x0800, 0x0420, 0x0020, 0x0420, 0x0c30, 0x0ff0, 0x0660, 0x0c30, 0x0000],
        28 => [0x0000, 0x03c0, 0x0660, 0x0c30, 0x1818, 0x300c, 0x300c, 0x300c, 0x300c, 0x300c, 0x1818, 0x0c30, 0x0660, 0x03c0, 0x0000, 0x0000],
        29 => [0x0000, 0x0000, 0x0000, 0x0000, 0x03c0, 0x0660, 0x0c30, 0x0c30, 0x0c30, 0x0c30, 0x0660, 0x03c0, 0x0000, 0x0000, 0x0000, 0x0000],
        30 => [0x0000, 0x0000, 0x03c0, 0x0660, 0x0c30, 0x1818, 0x1008, 0x1008, 0x1818, 0x1818, 0x0c30, 0x0660, 0x03c0, 0x0000, 0x0000, 0x0000],
        31 => [0x0000, 0x0000, 0x0000, 0x0000, 0x0000, 0x0180, 0x03c0, 0x0660, 0x03c0, 0x0180, 0x0000, 0x0000, 0x0000, 0x0000, 0x0100, 0x0000],
        32 => [0x0000, 0x0780, 0x0c20, 0x1810, 0x3b18, 0x3208, 0x3428, 0x3818, 0x3438, 0x3218, 0x1830, 0x0fe0, 0x0760, 0x0c30, 0x0000, 0x0000],
        33 => [0x0000, 0x0000, 0x0000, 0x0000, 0x0000, 0x0000, 0x0180, 0x03c0, 0x0180, 0x0000, 0x0000, 0x0000, 0x0000, 0x0000, 0x0000, 0x0000],
        34 => [0x0000, 0x0000, 0x03c0, 0x07e0, 0x0420, 0x0c30, 0x0810, 0x0000, 0x0800, 0x0c20, 0x0400, 0x0000, 0x0000, 0x0000, 0x0000, 0x0000],
        35 => [0x0000, 0x0000, 0x0000, 0x0000, 0x00c0, 0x01c0, 0x0240, 0x0420, 0x0240, 0x01c0, 0x03c0, 0x0000, 0x0000, 0x0000, 0x0000, 0x0000],
        36 => [0x0000, 0x0000, 0x0000, 0x0000, 0x0030, 0x0078, 0x00f8, 0x00f0, 0x00e0, 0x00e0, 0x00c0, 0x00c0, 0x0000, 0x0000, 0x0000, 0x0000],
        37 => [0x0000, 0x0000, 0x0000, 0x0180, 0x03c0, 0x0700, 0x0c00, 0x1800, 0x1800, 0x0c00, 0x0700, 0x0100, 0x0000, 0x0000, 0x0000, 0x0000],
        38 => [0x0000, 0x0180, 0x07e0, 0x0e70, 0x1c00, 0x3800, 0x3000, 0x2000, 0x2000, 0x3000, 0x1800, 0x0e00, 0x0780, 0x0180, 0x0000, 0x0000],
        39 => [0x0000, 0x0000, 0x0000, 0x0000, 0x0000, 0x0080, 0x0300, 0x0700, 0x0700, 0x0300, 0x0000, 0x0000, 0x0000, 0x0000, 0x0000, 0x0000],
        40 => [0x0000, 0x8001, 0x4812, 0x2424, 0x1428, 0x0990, 0x07e0, 0x05a0, 0x07e0, 0x0990, 0x1428, 0x2244, 0x4422, 0x8811, 0x1008, 0x0000],
        41 => [0x0000, 0x0000, 0x0000, 0x0000, 0x0000, 0x0180, 0x03c0, 0x0240, 0x03c0, 0x0240, 0x0180, 0x0080, 0x0000, 0x0000, 0x0000, 0x0000],
        42 => [0x0000, 0x8001, 0x4812, 0x2424, 0x1428, 0x0bd0, 0x0660, 0x03c0, 0x0660, 0x0bd0, 0x1008, 0x2004, 0x4422, 0x0810, 0x0000, 0x0000],
        43 => [0x0000, 0x07e0, 0x0c30, 0x1818, 0x300c, 0x300c, 0x300c, 0x300c, 0x300c, 0x300c, 0x300c, 0x1818, 0x0ff0, 0x0660, 0x0000, 0x0000],
        44 => [0x0000, 0x0000, 0x0000, 0x0000, 0x0000, 0x00c0, 0x0180, 0x0300, 0x0600, 0x0300, 0x0000, 0x0000, 0x0000, 0x0000, 0x0000, 0x0000],
        45 => [0x0000, 0x07e0, 0x1ff8, 0x381c, 0x33cc, 0x63c6, 0x6666, 0x6666, 0x6666, 0x6666, 0x6666, 0x67e6, 0x33cc, 0x381c, 0x1ff8, 0x0000],
        46 => [0x0000, 0x0000, 0x0000, 0x0000, 0x03c0, 0x03c0, 0x0300, 0x0240, 0x00c0, 0x03c0, 0x0000, 0x0000, 0x0000, 0x0000, 0x0000, 0x0000],
        47 => [0x0000, 0x0100, 0x0ff0, 0x1808, 0x3084, 0x2004, 0x6006, 0x6002, 0x6006, 0x2004, 0x3084, 0x1808, 0x0ff0, 0x0100, 0x0000, 0x0000],
        48 => [0x0000, 0x0000, 0x0000, 0x0000, 0x0360, 0x0410, 0x0810, 0x0810, 0x0810, 0x0410, 0x0360, 0x0000, 0x0000, 0x0000, 0x0000, 0x0000],
        49 => [0x0000, 0x0000, 0x0000, 0x07f0, 0x0c18, 0x1808, 0x1008, 0x100c, 0x1008, 0x1808, 0x0c18, 0x07f0, 0x0000, 0x0000, 0x0000, 0x0000],
        50 => [0x0000, 0x0000, 0x0000, 0x0000, 0x0000, 0x03e0, 0x07e0, 0x0660, 0x07e0, 0x03e0, 0x0000, 0x0000, 0x0000, 0x0000, 0x0000, 0x0000],
        _ => [0x0100, 0x0ee0, 0x1008, 0x2004, 0x0000, 0x4002, 0x0000, 0x8180, 0x0000, 0x4002, 0x0000, 0x2004, 0x1008, 0x0ee0, 0x0100, 0x0000],
    }
}

fn sprite_layer_tone(code: u8) -> (tone: EnemySpriteLayerTone)
    ensures
        tone == spec_sprite_layer_tone(code),
{
    match code {
        1 => EnemySpriteLayerTone::Base,
        2 => EnemySpriteLayerTone::DetailB,
        3 => EnemySpriteLayerTone::DetailE,
        4 => EnemySpriteLayerTone::Base,
        5 => EnemySpriteLayerTone::DetailA,
        6 => EnemySpriteLayerTone::DetailC,
        7 => EnemySpriteLayerTone::Base,
        8 => EnemySpriteLayerTone::DetailE,
        9 => EnemySpriteLayerTone::DetailB,
        10 => EnemySpriteLayerTone::Base,
        11 => EnemySpriteLayerTone::DetailC,
        12 => EnemySpriteLayerTone::Base,
        13 => EnemySpriteLayerTone::DetailC,
        14 => EnemySpriteLayerTone::DetailE,
        15 => EnemySpriteLayerTone::DetailA,
        16 => EnemySpriteLayerTone::Base,
        17 => EnemySpriteLayerTone::DetailC,
        18 => EnemySpriteLayerTone::DetailE,
        19 => EnemySpriteLayerTone::Base,
        20 => EnemySpriteLayerTone::DetailA,
        21 => EnemySpriteLayerTone::DetailC,
        22 => EnemySpriteLayerTone::Base,
        23 => EnemySpriteLayerTone::DetailC,
        24 => EnemySpriteLayerTone::DetailE,
        25 => EnemySpriteLayerTone::Base,
        26 => EnemySpriteLayerTone::DetailE,
        27 => EnemySpriteLayerTone::DetailC,
        28 => EnemySpriteLayerTone::Base,
        29 => EnemySpriteLayerTone::DetailA,
        30 => EnemySpriteLayerTone::DetailE,
        31 => EnemySpriteLayerTone::DetailC,
        32 => EnemySpriteLayerTone::Base,
        33 => EnemySpriteLayerTone::DetailE,
        34 => EnemySpriteLayerTone::DetailC,
        35 => EnemySpriteLayerTone::DetailD,
        36 => EnemySpriteLayerTone::Base,
        37 => EnemySpriteLayerTone::DetailE,
        38 => EnemySpriteLayerTone::DetailC,
        39 => EnemySpriteLayerTone::DetailD,
        40 => EnemySpriteLayerTone::Base,
        41 => EnemySpriteLayerTone::DetailC,
        42 => EnemySpriteLayerTone::DetailE,
        43 => EnemySpriteLayerTone::Base,
        44 => EnemySpriteLayerTone::DetailE,
        45 => EnemySpriteLayerTone::DetailD,
        46 => EnemySpriteLayerTone::DetailC,
        47 => EnemySpriteLayerTone::Base,
        48 => EnemySpriteLayerTone::DetailA,
        49 => EnemySpriteLayerTone::DetailE,
        50 => EnemySpriteLayerTone::DetailC,
        51 => EnemySpriteLayerTone::DetailD,
        _ => EnemySpriteLayerTone::Base,
    }
}

fn sprite_layer(code: u8) -> (layer: EnemySpriteLayerDef)
    requires
        is_sprite_layer_code(code),
    ensures
        is_sprite_layer(layer, code),
{
    EnemySpriteLayerDef {
        code,
        width: ENEMY_SPRITE_WIDTH,
        height: ENEMY_SPRITE_HEIGHT,
        tone: sprite_layer_tone(code),
        bits: pack_enemy_sprite_rows(sprite_layer_rows(code)),
    }
}

/// The sprite layer with a code, if one has it.
pub fn enemy_sprite_layer_def_by_code(code: u8) -> (layer: Option<EnemySpriteLayerDef>)
    ensures
        layer is Some <==> is_sprite_layer_code(code),
        layer matches Some(l) ==> is_sprite_layer(l, code),
{
    if 1 <= code && code <= 51 {
        Some(sprite_layer(code))
    } else {
        None
    }
}

fn sprite_first_code(profile: EnemyProfileId) -> (code: u8)
    ensures
        code == spec_sprite_first_code(profile),
{
    match profile {
        EnemyProfileId::ScoutDrone => 1,
        EnemyProfileId::NeedlerDrone => 4,
        EnemyProfileId::RampartDrone => 7,
        EnemyProfileId::SpineSentry => 10,
        EnemyProfileId::PentaCore => 12,
        EnemyProfileId::VoltMantis => 16,
        EnemyProfileId::ShardWeaver => 19,
        EnemyProfileId::PrismArray => 22,
        EnemyProfileId::GlassBishop => 25,
        EnemyProfileId::HexarchCore => 28,
        EnemyProfileId::NullRaider => 32,
        EnemyProfileId::RiftStalker => 36,
        EnemyProfileId::SiegeSpider => 40,
        EnemyProfileId::RiftBastion => 43,
        EnemyProfileId::HeptarchCore => 47,
    }
}

fn sprite_layer_count(profile: EnemyProfileId) -> (count: u8)
    ensures
        count == spec_sprite_layer_count(profile),
{
    match profile {
        EnemyProfileId::ScoutDrone => 3,
        EnemyProfileId::NeedlerDrone => 3,
        EnemyProfileId::RampartDrone => 3,
        EnemyProfileId::SpineSentry => 2,
        EnemyProfileId::PentaCore => 4,
        EnemyProfileId::VoltMantis => 3,
        EnemyProfileId::ShardWeaver => 3,
        EnemyProfileId::PrismArray => 3,
        EnemyProfileId::GlassBishop => 3,
        EnemyProfileId::HexarchCore => 4,
        EnemyProfileId::NullRaider => 4,
        EnemyProfileId::RiftStalker => 4,
        EnemyProfileId::SiegeSpider => 3,
        EnemyProfileId::RiftBastion => 4,
        EnemyProfileId::HeptarchCore => 5,
    }
}

/// An enemy's sprite: 16×16, with the layers whose codes run on from its first code.
pub fn enemy_sprite_def(profile: EnemyProfileId) -> (sprite: EnemySpriteDef)
    ensures
        sprite.width == ENEMY_SPRITE_WIDTH,
        sprite.height == ENEMY_SPRITE_HEIGHT,
        sprite.layers@.len() == spec_sprite_layer_count(profile),
        forall|i: int|
            0 <= i < sprite.layers@.len() ==> is_sprite_layer(
                #[trigger] sprite.layers@[i],
                (spec_sprite_first_code(profile) + i) as u8,
            ),
{
    let first = sprite_first_code(profile);
    let count = sprite_layer_count(profile);
    let mut layers: Vec<EnemySpriteLayerDef> = Vec::new();
    let mut i: u8 = 0;
    while i < count
        invariant
            i <= count,
            first == spec_sprite_first_code(profile),
            count == spec_sprite_layer_count(profile),
            first + count <= 52,
            first >= 1,
            layers@.len() == i,
            forall|j: int| 0 <= j < i ==> is_sprite_layer(#[trigger] layers@[j], (first + j) as u8),
        decreases count - i,
    {
        layers.push(sprite_layer(first + i));
        i = i + 1;
    }
    EnemySpriteDef { width: ENEMY_SPRITE_WIDTH, height: ENEMY_SPRITE_HEIGHT, layers }
}

/// Whether the pixel at column `x`, row `y` of the packed `bits` of a `width`-wide layer is set.
pub open spec fn spec_layer_has_pixel(bits: Seq<u8>, width: u8, x: int, y: int) -> bool {
    let index = y * width + x;
    (bits[index / 8] & (0x80u8 >> ((index % 8) as u8))) != 0
}

/// Whether a layer has the pixel at column `x`, row `y`.
pub fn enemy_sprite_layer_has_pixel(layer: &EnemySpriteLayerDef, x: usize, y: usize) -> (set: bool)
    requires
        y * layer.width + x < 8 * layer.bits@.len(),
    ensures
        set == spec_layer_has_pixel(layer.bits@, layer.width, x as int, y as int),
{
    let width = layer.width as usize;
    assert(y * width <= y * width + x);
    let bit_index = y * width + x;
    let byte = layer.bits[bit_index / 8];
    let shift = (bit_index % 8) as u8;
    let mask: u8 = 0x80u8 >> shift;
    (byte & mask) != 0
}

/// Layers of different profiles' sprites have different codes.
pub proof fn sprite_layer_codes_are_unique(a: EnemyProfileId, b: EnemyProfileId, i: int, j: int)
    requires
        a != b,
        0 <= i < spec_sprite_layer_count(a),
        0 <= j < spec_sprite_layer_count(b),
    ensures
        spec_sprite_first_code(a) + i != spec_sprite_first_code(b) + j,
{
}

} // verus!
