//! Status-effect templates and the effects rolled from them.
use vstd::prelude::*;

use crate::card::seed_byte;
use crate::card::le_byte;
use crate::value::ValueType;

verus! {

/// Names of the effects that the behaviour registry knows.
#[derive(Clone, Copy, PartialEq, Eq, Structural, Debug)]
pub enum EffectName {
    ExtraDamage,
}

pub struct EffectConfig {
    pub name: EffectName,
    pub trap: bool,
    pub owner_source: Option<bool>,
    pub owner_target: Option<bool>,
    pub value: Option<ValueType>,
    pub countdown: Option<ValueType>,
}

impl EffectConfig {
    pub open spec fn wf(self) -> bool {
        &&& (self.value matches Some(v) ==> v.wf())
        &&& (self.countdown matches Some(v) ==> v.wf())
    }
}

#[derive(Clone, Copy, PartialEq, Eq, Structural, Debug)]
pub struct Effect {
    pub name: EffectName,
    pub trap: bool,
    pub owner_source: Option<bool>,
    pub owner_target: Option<bool>,
    pub value: Option<u8>,
    pub countdown: Option<u8>,
}

/// An optional attribute rolled with one seed byte.
pub open spec fn rolled_opt(v: Option<ValueType>, seed: u8) -> Option<u8> {
    match v {
        Some(x) => Some(x.rolled(seed) as u8),
        None => None,
    }
}

pub fn roulette_effect(effect: EffectConfig, seed: u64) -> (r: Effect)
    requires
        effect.wf(),
    ensures
        r == (Effect {
            name: effect.name,
            trap: effect.trap,
            owner_source: effect.owner_source,
            owner_target: effect.owner_target,
            value: rolled_opt(effect.value, seed_byte(seed, 0)),
            countdown: rolled_opt(effect.countdown, seed_byte(seed, 1)),
        }),
{
    let value = match &effect.value {
        Some(v) => Some(v.value_u8(le_byte(seed, 0))),
        None => None,
    };
    let countdown = match &effect.countdown {
        Some(v) => Some(v.value_u8(le_byte(seed, 1))),
        None => None,
    };
    Effect {
        name: effect.name,
        trap: effect.trap,
        owner_source: effect.owner_source,
        owner_target: effect.owner_target,
        value,
        countdown,
    }
}

} // verus!
