//! Optional records of what happened during a replay, for display.
use vstd::prelude::*;

verus! {

#[derive(Clone, Copy, PartialEq, Eq, Structural, Debug)]
pub enum LogName {
    InitPlayer,
    BattleOver,
    GameOver,
    EnterBattle,
    PlayerTurn,
    EnemyTurn,
    AddEnemy,
    RemoveEnemy,
    Damage,
    Heal,
    HpChange,
    MaxHpChange,
    AttackChange,
    DefenseChange,
    SpiritChange,
    BlockChange,
    ShieldChange,
    BuffPointChange,
    EnergyChange,
    EnergyMaxChange,
    CardCostChange,
    CardTargetChange,
    CardAwakeChange,
    CardExileChange,
    AddBuff,
    RemoveBuff,
    BuffApplied,
    AddCard,
    CardMove,
    DeckReset,
    LootCards,
    LootGold,
    AddAction,
    ClearActions,
    SelectCards,
    ActionPointChange,
}

/// One record: what happened, an optional value, and to whom.
#[derive(Clone, Copy, PartialEq, Eq, Structural, Debug)]
pub struct Log {
    pub name: LogName,
    pub value: Option<u16>,
    pub recipient: Option<u16>,
}

} // verus!
