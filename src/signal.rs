//! Signals: the typed events that drive entity reactions during a replay.
use vstd::prelude::*;

use crate::card::Card;
use crate::dna::DNA;
use crate::effect::Effect;
use crate::enemy::EnemyLevel;
use crate::player::Player;

verus! {

#[derive(Clone, Copy, PartialEq, Eq, Structural, Debug)]
pub enum SignalName {
    Skip,
    InitBattle,
    BattleOver,
    InitPlayer,
    EnemyTurn,
    AddCard,
    SpellCard,
    ChangeRealHp,
    ChangeHp,
    SelectCardFromDeck,
    SelectCardFromExile,
    SelectCardFromGrave,
    SelectCardFromLoot,
    SelectCardFromHand,
}

pub enum SignalValue {
    RuntimeIdArray(Vec<u16>),
    RuntimeId(u16),
    Positive(u16),
    Negative(u16),
    Effect(Effect),
    EnemyLevel(EnemyLevel, u8),
    Player(Player, u16, Vec<DNA>),
    Card(Card),
    Empty,
}

pub struct Signal {
    pub name: SignalName,
    pub value: SignalValue,
    pub transformed: bool,
    pub source_runtime_id: u16,
    pub target_runtime_ids: Vec<u16>,
}

/// A copy of a list of runtime ids.
pub fn copy_ids(ids: &Vec<u16>) -> (r: Vec<u16>)
    ensures
        r@ == ids@,
{
    let mut r: Vec<u16> = Vec::new();
    let mut i: usize = 0;
    while i < ids.len()
        invariant
            i <= ids@.len(),
            r@ == ids@.subrange(0, i as int),
        decreases ids@.len() - i,
    {
        r.push(ids[i]);
        i = i + 1;
        assert(r@ == ids@.subrange(0, i as int));
    }
    assert(ids@.subrange(0, ids@.len() as int) == ids@);
    r
}

/// Two payloads carry the same values.
pub open spec fn same_value(a: SignalValue, b: SignalValue) -> bool {
    match (a, b) {
        (SignalValue::RuntimeIdArray(x), SignalValue::RuntimeIdArray(y)) => x@ == y@,
        (SignalValue::Player(p, ap, d), SignalValue::Player(q, aq, e)) => p == q && ap == aq && d@ == e@,
        _ => a == b,
    }
}

/// Two signals carry the same values.
pub open spec fn same_signal(a: Signal, b: Signal) -> bool {
    &&& a.name == b.name
    &&& same_value(a.value, b.value)
    &&& a.transformed == b.transformed
    &&& a.source_runtime_id == b.source_runtime_id
    &&& a.target_runtime_ids@ == b.target_runtime_ids@
}

impl Signal {
    /// A copy of the signal.
    pub fn copy(&self) -> (r: Signal)
        ensures
            same_signal(r, *self),
    {
        let value = match &self.value {
            SignalValue::RuntimeIdArray(ids) => SignalValue::RuntimeIdArray(copy_ids(ids)),
            SignalValue::RuntimeId(id) => SignalValue::RuntimeId(*id),
            SignalValue::Positive(v) => SignalValue::Positive(*v),
            SignalValue::Negative(v) => SignalValue::Negative(*v),
            SignalValue::Effect(e) => SignalValue::Effect(*e),
            SignalValue::EnemyLevel(l, v) => SignalValue::EnemyLevel(*l, *v),
            SignalValue::Player(p, ap, dnas) => SignalValue::Player(*p, *ap, crate::dna::copy_dnas(dnas)),
            SignalValue::Card(c) => SignalValue::Card(c.clone()),
            SignalValue::Empty => SignalValue::Empty,
        };
        Signal {
            name: self.name,
            value,
            transformed: self.transformed,
            source_runtime_id: self.source_runtime_id,
            target_runtime_ids: copy_ids(&self.target_runtime_ids),
        }
    }

    pub fn is_target(&self, runtime_id: u16) -> (r: bool)
        ensures
            r == self.target_runtime_ids@.contains(runtime_id),
    {
        let mut i: usize = 0;
        while i < self.target_runtime_ids.len()
            invariant
                i <= self.target_runtime_ids@.len(),
                forall|j: int| 0 <= j < i ==> self.target_runtime_ids@[j] != runtime_id,
            decreases self.target_runtime_ids@.len() - i,
        {
            if self.target_runtime_ids[i] == runtime_id {
                return true;
            }
            i = i + 1;
        }
        false
    }
}

} // verus!
