//! The player operations that a session log records and a replay executes.
use vstd::prelude::*;

use crate::enemy::EnemyLevel;

verus! {

/// One replayable player action.
pub enum GameOperation {
    StartGame,
    StartBattle(EnemyLevel),
    RoundOver,
    SpellCard(u16, Option<u16>),
    SelectCard(Vec<u16>),
    HealHp,
    DestroyCard,
}

/// The ordered log of one session's operations.
pub struct GameOperationSet {
    pub operations: Vec<GameOperation>,
}

impl GameOperationSet {
    pub fn new(operations: Vec<GameOperation>) -> (r: Self)
        ensures
            r.operations@ == operations@,
    {
        Self { operations }
    }
}

/// Tag of an operation in its framed form.
#[derive(Clone, Copy, PartialEq, Eq, Structural, Debug)]
pub enum OperationType {
    StartGame,
    StartBattle,
    RoundOver,
    SpellCard,
    SelectCard,
    HealHp,
    DestroyCard,
}

impl OperationType {
    /// The tag that a byte names, in declaration order from zero.
    pub fn from_u8(value: u8) -> (r: Option<OperationType>)
        ensures
            r is None <==> value > 6,
            value == 0 ==> r == Some(OperationType::StartGame),
            value == 1 ==> r == Some(OperationType::StartBattle),
            value == 2 ==> r == Some(OperationType::RoundOver),
            value == 3 ==> r == Some(OperationType::SpellCard),
            value == 4 ==> r == Some(OperationType::SelectCard),
            value == 5 ==> r == Some(OperationType::HealHp),
            value == 6 ==> r == Some(OperationType::DestroyCard),
    {
        match value {
            0 => Some(OperationType::StartGame),
            1 => Some(OperationType::StartBattle),
            2 => Some(OperationType::RoundOver),
            3 => Some(OperationType::SpellCard),
            4 => Some(OperationType::SelectCard),
            5 => Some(OperationType::HealHp),
            6 => Some(OperationType::DestroyCard),
            _ => None,
        }
    }
}

/// An operation as a tag and its still-encoded parameters.
pub struct Operation {
    pub flag: OperationType,
    pub payload: Vec<u8>,
}

pub struct StartBattleParameters {
    pub enemy_level: EnemyLevel,
}

pub struct SpellCardParameters {
    pub card_runtime_id: u16,
    pub target_runtime_id: Option<u16>,
}

pub struct SelectCardParameters {
    pub card_runtime_id_set: Vec<u16>,
}

} // verus!
