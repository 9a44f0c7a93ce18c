//! Token issuance: issued tokens must match the rise in hunted gold.
use vstd::prelude::*;

use crate::codec::le_value;
use crate::global::GameGlobal;
use crate::global::ScriptError;
use crate::global::TOKEN_DECIMAL;
use crate::validate::Step;

verus! {

/// The token amount of a cell: its first 16 data bytes, little-endian; none if shorter.
pub open spec fn cell_amount(data: Seq<u8>) -> int {
    if data.len() < 16 {
        0
    } else {
        le_value(data.subrange(0, 16))
    }
}

/// The amounts of some cells added up, held at the largest `u128`.
pub open spec fn token_total(cells: Seq<Vec<u8>>) -> u128
    decreases cells.len(),
{
    if cells.len() == 0 {
        0
    } else {
        let sum = token_total(cells.drop_last()) + cell_amount(cells.last()@);
        if sum > u128::MAX {
            u128::MAX
        } else {
            sum as u128
        }
    }
}

/// The total token amount of some cells.
pub fn calculate_token_amount(cells: &Vec<Vec<u8>>) -> (r: u128)
    ensures
        r == token_total(cells@),
{
    let mut total: u128 = 0;
    let mut i: usize = 0;
    while i < cells.len()
        invariant
            i <= cells@.len(),
            total == token_total(cells@.subrange(0, i as int)),
        decreases cells@.len() - i,
    {
        assert(cells@.subrange(0, i as int + 1).drop_last() == cells@.subrange(0, i as int));
        let amount: u128 = if cells[i].len() < 16 {
            0
        } else {
            crate::codec::read_le(cells[i].as_slice(), 0, 16)
        };
        total = total.saturating_add(amount);
        i = i + 1;
    }
    assert(cells@.subrange(0, cells@.len() as int) == cells@);
    total
}

/// The verdict on a token issuance.
pub open spec fn issue_outcome(
    old: Option<GameGlobal>,
    new: Option<GameGlobal>,
    input_cells: Seq<Vec<u8>>,
    output_cells: Seq<Vec<u8>>,
) -> Result<(), ScriptError> {
    match (old, new) {
        (Some(o), Some(n)) => {
            let issued = if token_total(output_cells) > token_total(input_cells) {
                token_total(output_cells) - token_total(input_cells)
            } else {
                0
            };
            let gold = if n.pve_hunted_gold > o.pve_hunted_gold {
                n.pve_hunted_gold - o.pve_hunted_gold
            } else {
                0
            };
            if issued != gold * TOKEN_DECIMAL {
                Err(ScriptError::InvalidTokenIssueAmount)
            } else {
                Ok(())
            }
        },
        _ => Err(ScriptError::BadGameGlobalIterationMode),
    }
}

pub struct CheckTokenIssuePattern {}

impl CheckTokenIssuePattern {
    /// The tokens issued (output total minus input total) must equal the rise of
    /// hunted gold, scaled by the token's decimal factor, exactly.
    pub fn verify(
        old: &Option<GameGlobal>,
        new: &Option<GameGlobal>,
        input_cells: &Vec<Vec<u8>>,
        output_cells: &Vec<Vec<u8>>,
    ) -> (r: Result<(), ScriptError>)
        ensures
            r == issue_outcome(*old, *new, input_cells@, output_cells@),
    {
        let (old, new) = match (old, new) {
            (Some(old), Some(new)) => (old, new),
            _ => {
                return Err(ScriptError::BadGameGlobalIterationMode);
            },
        };
        let old_token_amount = calculate_token_amount(input_cells);
        let new_token_amount = calculate_token_amount(output_cells);
        let token_issue_amount = new_token_amount.saturating_sub(old_token_amount);
        let expected = new.pve_hunted_gold.saturating_sub(old.pve_hunted_gold);
        if token_issue_amount != expected as u128 * TOKEN_DECIMAL {
            return Err(ScriptError::InvalidTokenIssueAmount);
        }
        Ok(())
    }
}

pub struct CreateTokenIssuerCell {}

impl CreateTokenIssuerCell {
    /// A new issuer has an empty args payload and comes with exactly one global record.
    pub fn verify(args_payload: &Vec<u8>, game_global_count: usize) -> (r: Result<Option<Step>, ScriptError>)
        ensures
            args_payload@.len() != 0 ==> r == Err::<Option<Step>, ScriptError>(ScriptError::BrokenTokenIssueArgs),
            args_payload@.len() == 0 && game_global_count != 1 ==> r == Err::<Option<Step>, ScriptError>(
                ScriptError::IssuerGlobalNotPaired,
            ),
            args_payload@.len() == 0 && game_global_count == 1 ==> r == Ok::<Option<Step>, ScriptError>(None),
    {
        if args_payload.len() != 0 {
            return Err(ScriptError::BrokenTokenIssueArgs);
        }
        if game_global_count != 1 {
            return Err(ScriptError::IssuerGlobalNotPaired);
        }
        Ok(None)
    }
}

pub struct CreateGameGlobalCell {}

impl CreateGameGlobalCell {
    /// A new global record starts at zero, comes with exactly one token issuer,
    /// and its args payload is its type id.
    pub fn verify(
        game_data: &Option<GameGlobal>,
        token_issuer_count: usize,
        args_payload: &Vec<u8>,
        type_id: &[u8; 32],
    ) -> (r: Result<Option<Step>, ScriptError>)
        ensures
            game_data is None ==> r == Err::<Option<Step>, ScriptError>(ScriptError::GameDataNotFound),
            game_data matches Some(g) ==> {
                &&& g != GameGlobal::zero() ==> r == Err::<Option<Step>, ScriptError>(
                    ScriptError::GameDataUnexpected,
                )
                &&& g == GameGlobal::zero() && token_issuer_count != 1 ==> r == Err::<Option<Step>, ScriptError>(
                    ScriptError::IssuerGlobalNotPaired,
                )
                &&& g == GameGlobal::zero() && token_issuer_count == 1 && args_payload@ != type_id@ ==> r
                    == Err::<Option<Step>, ScriptError>(ScriptError::BrokenGlobalDataArgs)
                &&& g == GameGlobal::zero() && token_issuer_count == 1 && args_payload@ == type_id@ ==> r
                    == Ok::<Option<Step>, ScriptError>(None)
            },
    {
        let game_data = match game_data {
            None => {
                return Err(ScriptError::GameDataNotFound);
            },
            Some(g) => g,
        };
        let zero = GameGlobal::default();
        if *game_data != zero {
            return Err(ScriptError::GameDataUnexpected);
        }
        if token_issuer_count != 1 {
            return Err(ScriptError::IssuerGlobalNotPaired);
        }
        if !crate::spore::bytes_eq(args_payload.as_slice(), type_id.as_slice()) {
            return Err(ScriptError::BrokenGlobalDataArgs);
        }
        Ok(None)
    }
}

} // verus!
