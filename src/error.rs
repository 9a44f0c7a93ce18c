//! Errors of the replay engine.
use vstd::prelude::*;

use crate::card::CardName;
use crate::effect::EffectName;
use crate::signal::SignalName;

verus! {

#[derive(Clone, Copy, PartialEq, Eq, Structural, Debug)]
pub enum Error {
    RuntimeNotSet(u16),
    EmptySignalTarget,
    Internal,
    InvalidRuntimeType,
    TransformOnlyForEffect,
    EffectInvalidSignal(EffectName),
    EffectInvalidOverlay(EffectName),
    EffectInvalidParameter(EffectName),
    EffectUnexpectedZeroCountdown(EffectName),
    EffectInvalidParent(EffectName),
    CardInvaidSignal(CardName, SignalName),
    CardInvalidConfig(CardName, usize),
    CardInvalidAwake(CardName),
    CardInvalidConfigExile(CardName),
    CardInvalidSignalValue(CardName),
    CardAwakeInsufficient(CardName),
    CardCannotChangeAwake(CardName),
    CardCannotSpell(CardName),
    CardInvalidImplementationSignal(CardName),
    UnexpectedCardSelectionCount(CardName),
    CardCreateFailed,
    PlayerRuntimeNotSet,
    PlayerEnergyInsufficient,
    PlayerInvalidSignalValue(SignalName),
    PlayerInvalidSignal(SignalName),
    PlayerCardNotFound,
    PlayerEffectNotFound,
    PlayerSorceryNotFound,
    PlayerHandholdExceeded,
    PlayerLevelNotFound(u8),
    PlayerExisted,
    PlayerInvalidPattern,
    EnemyRuntimeNotSet,
    EnemyExisted,
    EnemyNotDead,
    EnemyLevelNotFound,
    EnemyInvalidSignal(SignalName),
    EnemyInvalidSignalValue(SignalName),
    EnemyStateCheckFailed,
    EnemyEffectNotFound,
    EnemyActionNotSetup,
    ActionCreateFailed,
    BattleInvalidSignal,
    BattleInvalidSignalValue,
    BattleAlreadyStarted,
    BattleEffectAlreadySetup,
    BattleEffectNotFound,
    BattleNotStarted,
    SystemInvalidSignalType(SignalName),
    SystemNoBattleLoot,
    SystemExceededLoot,
    SystemInvalidSignalHistory,
    SystemInvalidCardSelection,
    SystemCardSelectionInProgress,
    SystemCardSelectionWait,
    SystemCardSelectionNotWait,
    SystemCardSelectionExceeded,
    SystemInsufficientActionPoint,
    SystemBattleInProgress,
    /// The signal loop handled more signals than one pass may.
    SystemSignalLimitExceeded,
}

} // verus!
