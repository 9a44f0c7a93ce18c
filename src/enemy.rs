//! Enemy templates and the enemies rolled from them.
use vstd::prelude::*;

use crate::effect::Effect;
use crate::effect::EffectConfig;
use crate::value::ValueType;

verus! {

pub enum ActionConfig {
    Attack(ValueType),
    MultipleAttack(ValueType, ValueType),
    Defense(ValueType),
    Shield(ValueType),
    Effect(EffectConfig),
    SummonCreature(EnemyLevel, u8),
    AddAttack(ValueType),
    AddDefense(ValueType),
    AddShield(ValueType),
    AddEffect(EffectConfig),
}

/// Difficulty of a battle and of the enemies in it.
#[derive(Clone, Copy, PartialEq, Eq, Structural, Debug)]
pub enum EnemyLevel {
    Easy,
    Normal,
    Hard,
}

impl EnemyLevel {
    /// The level of a wire tag: 0 easy, 1 normal, 2 hard.
    pub fn from_u8(value: u8) -> (r: Option<EnemyLevel>)
        ensures
            r == (if value == 0 {
                Some(EnemyLevel::Easy)
            } else if value == 1 {
                Some(EnemyLevel::Normal)
            } else if value == 2 {
                Some(EnemyLevel::Hard)
            } else {
                None::<EnemyLevel>
            }),
    {
        match value {
            0 => Some(EnemyLevel::Easy),
            1 => Some(EnemyLevel::Normal),
            2 => Some(EnemyLevel::Hard),
            _ => None,
        }
    }
}

pub struct WeightedActionConfig {
    pub action: ActionConfig,
    pub weight: u16,
    pub amount: Option<u8>,
    pub tweakers: Vec<WeightTweaker>,
}

#[derive(Clone, Copy, PartialEq, Eq, Structural, Debug)]
pub enum Condition {
    WithBorn,
    HpDown,
    HpPercent70,
    HpPercent50,
    HpPercent30,
    ShieldBroken,
    Effected,
    PartnerDead,
}

#[derive(Clone, Copy, PartialEq, Eq, Structural, Debug)]
pub struct WeightTweaker {
    pub condition: Condition,
    pub threshold: u8,
    pub weight: u16,
}

#[derive(Clone, Copy, PartialEq, Eq, Structural, Debug)]
pub enum EnemyName {
    Goblin,
    Orc,
    Troll,
    Dragon,
    Demon,
    Angel,
    God,
}

pub struct EnemyConfig {
    pub version: u8,
    pub name: EnemyName,
    pub level: EnemyLevel,
    pub hp: ValueType,
    pub gold: ValueType,
    pub attack: ValueType,
    pub defense: ValueType,
    pub spirit: ValueType,
    pub powerup_threshold: ValueType,
    pub actions: Vec<WeightedActionConfig>,
}

pub struct EnemyPool {
    pub inner: Vec<EnemyConfig>,
}

pub struct Enemy {
    pub seed: u64,
    pub name: EnemyName,
    pub level: EnemyLevel,
    pub hp: u16,
    pub gold: u16,
    pub attack: u8,
    pub defense: u8,
    pub spirit: u8,
    pub powerup_threshold: u8,
    pub actions: Vec<WeightedActionConfig>,
}

pub enum Action {
    UseAttack(u8),
    UseMultipleAttack(u8, u8),
    UseDefense(u8),
    UseShield(u8),
    UseEffect(Effect),
    SummonCreature(EnemyLevel, u8),
    AddEnemyAttack(u8),
    AddEnemyDefense(u8),
    AddEnemeyShield(u8),
    AddEnemeyEffect(Effect),
}

/// An action of an enemy with its current weight, how often it was used, and
/// how often each condition (in the order of `Condition`) was met.
pub struct WeightedAction {
    pub raw: WeightedActionConfig,
    pub weight: u16,
    pub use_count: u8,
    pub condition_hit: [u8; 8],
}

} // verus!
