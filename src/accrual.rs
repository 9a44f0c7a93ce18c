//! Action-point accrual: by elapsed ledger height, and by payment.
use vstd::prelude::*;

use crate::global::GameConfig;
use crate::global::MAX_ACTION_POINT;

verus! {

/// `x`, held at `MAX_ACTION_POINT`.
pub open spec fn clamped(x: int) -> u16 {
    if x > MAX_ACTION_POINT {
        MAX_ACTION_POINT
    } else {
        x as u16
    }
}

/// Points earned over the ledger height elapsed between two headers: one per
/// `blocks_per_point` blocks.
pub open spec fn block_step(blocks_per_point: u8, old_height: u64, tip_height: u64) -> u16 {
    if tip_height <= old_height {
        0
    } else {
        clamped((tip_height - old_height) / blocks_per_point as int)
    }
}

/// Points bought by the capacity that a transaction adds.
pub open spec fn ckb_step(price: u64, inputs_capacity: int, outputs_capacity: int) -> u16 {
    if outputs_capacity <= inputs_capacity {
        0
    } else {
        clamped((outputs_capacity - inputs_capacity) / price as int)
    }
}

/// The action points after a step: the sum, held at `MAX_ACTION_POINT`.
pub open spec fn accrued(before: u16, step: int) -> u16 {
    clamped(before + step)
}

/// The points earned between the header of an old cell and the tip header.
pub fn action_point_block_step(config: &GameConfig, old_height: u64, tip_height: u64) -> (r: u16)
    requires
        config.wf(),
    ensures
        r == block_step(config.block_per_action_point, old_height, tip_height),
{
    if tip_height <= old_height {
        return 0;
    }
    let step = (tip_height - old_height) / config.block_per_action_point as u64;
    if step > MAX_ACTION_POINT as u64 {
        MAX_ACTION_POINT
    } else {
        step as u16
    }
}

/// The points bought by the capacity that outputs hold beyond inputs.
pub fn action_point_ckb_step(config: &GameConfig, inputs_capacity: u128, outputs_capacity: u128) -> (r: u16)
    requires
        config.wf(),
    ensures
        r == ckb_step(config.ckb_per_action_point, inputs_capacity as int, outputs_capacity as int),
{
    if outputs_capacity <= inputs_capacity {
        return 0;
    }
    let step = (outputs_capacity - inputs_capacity) / config.ckb_per_action_point as u128;
    if step > MAX_ACTION_POINT as u128 {
        MAX_ACTION_POINT
    } else {
        step as u16
    }
}

/// The action points that a record holding `before` must hold after a step.
pub fn accrue(before: u16, step: u32) -> (r: u16)
    ensures
        r == accrued(before, step as int),
{
    let sum = before as u64 + step as u64;
    if sum > MAX_ACTION_POINT as u64 {
        MAX_ACTION_POINT
    } else {
        sum as u16
    }
}

/// The total of some capacities.
pub fn sum_capacities(capacities: &Vec<u64>) -> (r: u128)
    ensures
        r == capacity_total(capacities@),
{
    let mut total: u128 = 0;
    let mut i: usize = 0;
    while i < capacities.len()
        invariant
            i <= capacities@.len(),
            total == capacity_total(capacities@.subrange(0, i as int)),
            total <= i * (u64::MAX as int),
        decreases capacities@.len() - i,
    {
        assert(capacities@.subrange(0, i as int + 1).drop_last() == capacities@.subrange(0, i as int));
        assert(total + capacities@[i as int] <= (i + 1) * (u64::MAX as int)) by (nonlinear_arith)
            requires
                total <= i * (u64::MAX as int),
                capacities@[i as int] <= u64::MAX,
        ;
        assert((i + 1) * (u64::MAX as int) <= (usize::MAX as int + 1) * (u64::MAX as int)) by (nonlinear_arith)
            requires
                i < usize::MAX,
        ;
        total = total + capacities[i] as u128;
        i = i + 1;
    }
    assert(capacities@.subrange(0, capacities@.len() as int) == capacities@);
    total
}

/// The sum of a sequence of capacities.
pub open spec fn capacity_total(s: Seq<u64>) -> int
    decreases s.len(),
{
    if s.len() == 0 {
        0
    } else {
        capacity_total(s.drop_last()) + s.last()
    }
}

/// After any step the action points equal the clamped sum, and never exceed the maximum.
pub proof fn lemma_accrual_clamped(before: u16, step: nat)
    ensures
        accrued(before, step as int) as int == if before + step > MAX_ACTION_POINT {
            MAX_ACTION_POINT as int
        } else {
            before + step
        },
        accrued(before, step as int) <= MAX_ACTION_POINT,
{
}

} // verus!
