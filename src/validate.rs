//! Validation steps: which step a transaction's shape calls for, and the
//! checks of each step on values that the ledger supplies.
use vstd::prelude::*;

use crate::accrual::accrue;
use crate::codec::decode_game_global;
use crate::codec::decode_pve_session;
use crate::codec::fields_fit;
use crate::codec::global_of;
use crate::codec::is_session_of;
use crate::codec::session_sizes;
use crate::accrual::accrued;
use crate::accrual::action_point_block_step;
use crate::accrual::action_point_ckb_step;
use crate::accrual::block_step;
use crate::accrual::capacity_total;
use crate::accrual::ckb_step;
use crate::accrual::sum_capacities;
use crate::global::GameConfig;
use crate::global::GameGlobal;
use crate::global::PveSession;
use crate::global::ScriptError;
use crate::global::ScriptType;
use crate::global::MAX_ACTION_POINT;
use crate::hash::ckb_blake2b;
use crate::hash::content_hash;
use crate::spore::bytes_eq;
use crate::system::PveSystemRuntime;
use crate::context::GameStatistics;
use crate::enemy::EnemyLevel;
use crate::error::Error;
use crate::player::PlayerConfig;
use crate::rng::seed_state;
use crate::system::destroy_card_outcome;
use crate::system::heal_hp_outcome;
use crate::system::round_over_outcome;
use crate::system::select_card_outcome;
use crate::system::spell_card_outcome;
use crate::system::start_battle_outcome;
use crate::system::start_game_outcome;
use crate::system::CardSelection;
use crate::system::SessionSummary;
use crate::system::settles;
use crate::dna::copy_dnas;
use crate::dna::DNA;
use crate::operation::GameOperation;
use crate::player::PlayerPool;
use crate::signal::copy_ids;

verus! {

/// The next validation step of a transaction.
#[derive(Clone, Copy, PartialEq, Eq, Structural, Debug)]
pub enum Step {
    CreateGameGlobalCell,
    AnalyzeIteration,
    CreateTokenIssuerCell,
    CheckTokenIssuePattern,
    ActionPointCharge,
    PveSessionCreate,
    PveSessionBurn,
    PvpSessionResolve,
    PveUpdate,
    PveSettlement,
    PvpSettlement,
    SporeCardsLockupChecker,
    SporeCardsRedeemChecker,
}

/// Which cells of a transaction the running script governs, and the facts
/// about companion cells that the dispatch needs.
pub struct TransactionShape {
    /// The running script's args: a type tag, then a payload.
    pub script_args: Vec<u8>,
    /// Inputs and outputs whose type script is the running script.
    pub type_inputs: usize,
    pub type_outputs: usize,
    /// Inputs and outputs whose lock script is the running script.
    pub lock_inputs: usize,
    pub lock_outputs: usize,
    /// A cell whose type hash is the whole payload is both consumed and produced.
    pub global_updated: bool,
    /// The same for the first 32 bytes of the payload, and for the rest.
    pub first_global_updated: bool,
    pub second_global_updated: bool,
    /// The first session input has a type script, and it is an xUDT.
    pub session_typed: bool,
    pub session_xudt_typed: bool,
}

/// The step that a shape calls for; `Ok(None)` accepts the transaction.
pub open spec fn root_outcome(shape: TransactionShape) -> Result<Option<Step>, ScriptError> {
    let args = shape.script_args@;
    if args.len() == 0 {
        Err(ScriptError::ScriptArgsUnexpected)
    } else if args[0] > 3 {
        Err(ScriptError::UnknownScriptType)
    } else if args[0] == 0 || args[0] == 1 {
        let bad = if args[0] == 0 {
            ScriptError::BadGameGlobalInitMode
        } else {
            ScriptError::BadTokenIssueMode
        };
        if shape.type_inputs > 1 || shape.type_outputs > 1 {
            Err(bad)
        } else if shape.type_inputs == 0 && shape.type_outputs == 1 {
            Ok(Some(if args[0] == 0 { Step::CreateGameGlobalCell } else { Step::CreateTokenIssuerCell }))
        } else if shape.type_inputs == 1 && shape.type_outputs == 1 {
            Ok(Some(if args[0] == 0 { Step::AnalyzeIteration } else { Step::CheckTokenIssuePattern }))
        } else if shape.type_inputs == 1 && shape.type_outputs == 0 {
            Ok(None)
        } else {
            Err(bad)
        }
    } else if args[0] == 2 {
        if shape.lock_outputs == 1 && (shape.lock_inputs != 1 || shape.global_updated) {
            Err(ScriptError::BadPveUpdateMode)
        } else if shape.lock_outputs != 1 && (shape.lock_inputs != 1 || shape.lock_outputs != 0
            || !shape.global_updated) {
            Err(ScriptError::BadPveSettlementMode)
        } else if !shape.session_typed {
            Err(ScriptError::PveSessionMustBeTyped)
        } else if shape.lock_outputs == 1 {
            Ok(Some(Step::PveUpdate))
        } else {
            Ok(Some(Step::PveSettlement))
        }
    } else {
        if shape.lock_inputs != 1 || shape.lock_outputs != 0 || args.len() < 33 || !shape.first_global_updated
            || !shape.second_global_updated {
            Err(ScriptError::BadPvpSettlementMode)
        } else if !shape.session_xudt_typed {
            Err(ScriptError::PvpSessionNotXudtTyped)
        } else {
            Ok(Some(Step::PvpSettlement))
        }
    }
}

pub struct Root {}

impl Root {
    /// Picks the validation step from the script type and where the running
    /// script appears among inputs and outputs.
    pub fn verify(shape: &TransactionShape) -> (r: Result<Option<Step>, ScriptError>)
        ensures
            r == root_outcome(*shape),
    {
        if shape.script_args.len() == 0 {
            return Err(ScriptError::ScriptArgsUnexpected);
        }
        let script_type = ScriptType::from_u8(shape.script_args[0])?;
        match script_type {
            ScriptType::GameData | ScriptType::TokenIssuer => {
                let is_global = shape.script_args[0] == 0;
                let bad = if is_global {
                    ScriptError::BadGameGlobalInitMode
                } else {
                    ScriptError::BadTokenIssueMode
                };
                if shape.type_inputs > 1 || shape.type_outputs > 1 {
                    return Err(bad);
                }
                match (shape.type_inputs == 1, shape.type_outputs == 1) {
                    (false, true) => Ok(
                        Some(
                            if is_global {
                                Step::CreateGameGlobalCell
                            } else {
                                Step::CreateTokenIssuerCell
                            },
                        ),
                    ),
                    (true, true) => Ok(
                        Some(
                            if is_global {
                                Step::AnalyzeIteration
                            } else {
                                Step::CheckTokenIssuePattern
                            },
                        ),
                    ),
                    (true, false) => Ok(None),
                    (false, false) => Err(bad),
                }
            },
            ScriptType::PveSession => {
                if shape.lock_outputs == 1 {
                    if shape.lock_inputs != 1 || shape.global_updated {
                        return Err(ScriptError::BadPveUpdateMode);
                    }
                } else {
                    if shape.lock_inputs != 1 || shape.lock_outputs != 0 || !shape.global_updated {
                        return Err(ScriptError::BadPveSettlementMode);
                    }
                }
                if !shape.session_typed {
                    return Err(ScriptError::PveSessionMustBeTyped);
                }
                if shape.lock_outputs == 1 {
                    Ok(Some(Step::PveUpdate))
                } else {
                    Ok(Some(Step::PveSettlement))
                }
            },
            ScriptType::PvpSession => {
                if shape.lock_inputs != 1 || shape.lock_outputs != 0 || shape.script_args.len() < 33
                    || !shape.first_global_updated || !shape.second_global_updated {
                    return Err(ScriptError::BadPvpSettlementMode);
                }
                if !shape.session_xudt_typed {
                    return Err(ScriptError::PvpSessionNotXudtTyped);
                }
                Ok(Some(Step::PvpSettlement))
            },
        }
    }
}

/// The transition that a pair of global records shows.
pub open spec fn iteration_outcome(old: Option<GameGlobal>, new: Option<GameGlobal>) -> Result<Step, ScriptError> {
    match (old, new) {
        (Some(o), Some(n)) => if n.action_point > MAX_ACTION_POINT {
            Err(ScriptError::ActionPointOverflow)
        } else if o.action_point < n.action_point && o.pvp_win_count == n.pvp_win_count && o.pvp_lose_count
            == n.pvp_lose_count && o.pve_count == n.pve_count {
            Ok(Step::ActionPointCharge)
        } else if o.pve_count == n.pve_count && o.pvp_win_count == n.pvp_win_count && o.pvp_lose_count
            == n.pvp_lose_count && n.action_point == 0 {
            Ok(Step::PveSessionCreate)
        } else if o.pve_count + 1 == n.pve_count {
            Ok(Step::PveSessionBurn)
        } else if o.pvp_win_count + 1 == n.pvp_win_count || o.pvp_lose_count + 1 == n.pvp_lose_count {
            Ok(Step::PvpSessionResolve)
        } else {
            Err(ScriptError::BadGameGlobalIterationMode)
        },
        _ => Err(ScriptError::BadGameGlobalIterationMode),
    }
}

pub struct AnalyzeIteration {}

impl AnalyzeIteration {
    /// Classifies a change of the global record; a change that fits no pattern is refused.
    pub fn verify(old: &Option<GameGlobal>, new: &Option<GameGlobal>) -> (r: Result<Step, ScriptError>)
        ensures
            r == iteration_outcome(*old, *new),
    {
        let (old, new) = match (old, new) {
            (Some(old), Some(new)) => (old, new),
            _ => {
                return Err(ScriptError::BadGameGlobalIterationMode);
            },
        };
        if new.action_point > MAX_ACTION_POINT {
            return Err(ScriptError::ActionPointOverflow);
        }
        if old.action_point_charge_mode(new) {
            return Ok(Step::ActionPointCharge);
        }
        if old.pve_session_create_mode(new) {
            return Ok(Step::PveSessionCreate);
        }
        if old.pve_session_settlement_mode(new) {
            return Ok(Step::PveSessionBurn);
        }
        if old.pvp_session_settlement_mode(new) {
            return Ok(Step::PvpSessionResolve);
        }
        Err(ScriptError::BadGameGlobalIterationMode)
    }
}

/// The verdict on a purchase of action points.
pub open spec fn charge_outcome(
    config: GameConfig,
    old: Option<GameGlobal>,
    new: Option<GameGlobal>,
    old_height: Option<u64>,
    tip_height: Option<u64>,
    inputs: Seq<u64>,
    outputs: Seq<u64>,
) -> Result<(), ScriptError> {
    match (old, new) {
        (Some(o), Some(n)) => if !o.spec_pve_equal(n) || !o.spec_pvp_equal(n) {
            Err(ScriptError::GameDataUnexpectedChanged)
        } else {
            match (old_height, tip_height) {
                (Some(oh), Some(th)) => {
                    let step = block_step(config.block_per_action_point, oh, th) + ckb_step(
                        config.ckb_per_action_point,
                        capacity_total(inputs),
                        capacity_total(outputs),
                    );
                    if n.action_point != accrued(o.action_point, step) {
                        Err(ScriptError::ActionPointUnexpectedChanged)
                    } else {
                        Ok(())
                    }
                },
                _ => Err(ScriptError::HeaderNotSet),
            }
        },
        _ => Err(ScriptError::BadGameGlobalIterationMode),
    }
}

pub struct ActionPointCharge {}

impl ActionPointCharge {
    /// Only the action points may change, and by exactly the accrual formula:
    /// earned by elapsed height plus bought by added capacity, held at the maximum.
    pub fn verify(
        config: &GameConfig,
        old: &Option<GameGlobal>,
        new: &Option<GameGlobal>,
        old_height: Option<u64>,
        tip_height: Option<u64>,
        input_capacities: &Vec<u64>,
        output_capacities: &Vec<u64>,
    ) -> (r: Result<(), ScriptError>)
        requires
            config.wf(),
        ensures
            r == charge_outcome(*config, *old, *new, old_height, tip_height, input_capacities@, output_capacities@),
    {
        let (old, new) = match (old, new) {
            (Some(old), Some(new)) => (old, new),
            _ => {
                return Err(ScriptError::BadGameGlobalIterationMode);
            },
        };
        if !old.pve_equal(new) || !old.pvp_equal(new) {
            return Err(ScriptError::GameDataUnexpectedChanged);
        }
        let (old_height, tip_height) = match (old_height, tip_height) {
            (Some(o), Some(t)) => (o, t),
            _ => {
                return Err(ScriptError::HeaderNotSet);
            },
        };
        let block = action_point_block_step(config, old_height, tip_height);
        let bought = action_point_ckb_step(config, sum_capacities(input_capacities), sum_capacities(output_capacities));
        let expected = accrue(old.action_point, block as u32 + bought as u32);
        if new.action_point != expected {
            return Err(ScriptError::ActionPointUnexpectedChanged);
        }
        Ok(())
    }
}

/// An output cell as the payment check sees it.
pub struct OutputCell {
    /// The serialized lock script.
    pub lock: Vec<u8>,
    /// Whether the cell has a type script.
    pub typed: bool,
    pub capacity: u64,
}

/// Whether a lock is one of the payee locks.
pub open spec fn is_payee(config: GameConfig, lock: Seq<u8>) -> bool {
    exists|i: int| 0 <= i < config.protocol_payee_scripts@.len() && config.protocol_payee_scripts@[i]@ == lock
}

/// What untyped outputs to payee locks receive, over the first `n` outputs.
pub open spec fn payee_total(config: GameConfig, outputs: Seq<OutputCell>) -> int
    decreases outputs.len(),
{
    if outputs.len() == 0 {
        0
    } else {
        let last = outputs.last();
        payee_total(config, outputs.drop_last()) + if !last.typed && is_payee(config, last.lock@) {
            last.capacity as int
        } else {
            0
        }
    }
}

/// Whether a lock is one of the payee locks.
fn payee_lock(config: &GameConfig, lock: &Vec<u8>) -> (r: bool)
    ensures
        r == is_payee(*config, lock@),
{
    let mut i: usize = 0;
    while i < config.protocol_payee_scripts.len()
        invariant
            i <= config.protocol_payee_scripts@.len(),
            forall|j: int| 0 <= j < i ==> config.protocol_payee_scripts@[j]@ != lock@,
        decreases config.protocol_payee_scripts@.len() - i,
    {
        if bytes_eq(config.protocol_payee_scripts[i].as_slice(), lock.as_slice()) {
            return true;
        }
        i = i + 1;
    }
    false
}

/// The capacity that untyped outputs to payee locks receive.
pub fn payee_received(config: &GameConfig, outputs: &Vec<OutputCell>) -> (r: u128)
    ensures
        r == payee_total(*config, outputs@),
{
    let mut total: u128 = 0;
    let mut i: usize = 0;
    while i < outputs.len()
        invariant
            i <= outputs@.len(),
            total == payee_total(*config, outputs@.subrange(0, i as int)),
            total <= i * (u64::MAX as int),
        decreases outputs@.len() - i,
    {
        assert(outputs@.subrange(0, i as int + 1).drop_last() == outputs@.subrange(0, i as int));
        assert((i + 1) * (u64::MAX as int) <= (usize::MAX as int + 1) * (u64::MAX as int)) by (nonlinear_arith)
            requires
                i < usize::MAX,
        ;
        let output = &outputs[i];
        if !output.typed && payee_lock(config, &output.lock) {
            total = total + output.capacity as u128;
        }
        assert(total <= (i + 1) * (u64::MAX as int)) by (nonlinear_arith)
            requires
                total <= i * (u64::MAX as int) + u64::MAX,
        ;
        i = i + 1;
    }
    assert(outputs@.subrange(0, outputs@.len() as int) == outputs@);
    total
}

/// Whether a digest equals the hash committed in a session.
pub fn check_material_hash(digest: &[u8; 32], session: &PveSession) -> (r: Result<(), ScriptError>)
    ensures
        r == (if digest@ == session.material_hash@ {
            Ok::<(), ScriptError>(())
        } else {
            Err::<(), ScriptError>(ScriptError::MaterialHashMismatch)
        }),
{
    if bytes_eq(digest.as_slice(), session.material_hash.as_slice()) {
        Ok(())
    } else {
        Err(ScriptError::MaterialHashMismatch)
    }
}

/// The verdict on the materials that a witness carries for a session.
pub open spec fn materials_outcome(input_type: Option<Vec<u8>>, session: PveSession) -> Result<(), ScriptError> {
    match input_type {
        None => Err(ScriptError::WitnessInputTypeNotSet),
        Some(m) => if ckb_blake2b(m@) == session.material_hash@ {
            Ok(())
        } else {
            Err(ScriptError::MaterialHashMismatch)
        },
    }
}

/// The witness must carry the materials, and their content hash must be the committed one.
pub fn verify_materials(input_type: &Option<Vec<u8>>, session: &PveSession) -> (r: Result<(), ScriptError>)
    ensures
        r == materials_outcome(*input_type, *session),
{
    match input_type {
        None => Err(ScriptError::WitnessInputTypeNotSet),
        Some(materials) => {
            let digest = content_hash(materials.as_slice());
            check_material_hash(&digest, session)
        },
    }
}

/// Everything that a session creation is checked against.
pub struct SessionCreation {
    /// How many outputs are new session cells of this script.
    pub session_cells: usize,
    pub session: PveSession,
    pub outputs: Vec<OutputCell>,
    pub old_global: Option<GameGlobal>,
    pub new_global: Option<GameGlobal>,
    pub old_height: Option<u64>,
    pub tip_height: Option<u64>,
    pub witness_input_type: Option<Vec<u8>>,
}

/// The verdict on a session creation, up to the hash check.
pub open spec fn creation_outcome(config: GameConfig, c: SessionCreation) -> Result<Step, ScriptError> {
    let level = c.session.player_level;
    let costs = config.player_level_ckb_costs@;
    if c.session_cells != 1 {
        Err(ScriptError::BadPveCreationMode)
    } else if level >= costs.len() {
        Err(ScriptError::PlayerLevelOutOfRange)
    } else if costs[level as int] > 0 && payee_total(config, c.outputs@) < costs[level as int] {
        Err(ScriptError::PvePaymentNotEnough)
    } else {
        match (c.old_global, c.new_global) {
            (Some(o), Some(n)) => if !o.spec_pve_equal(n) || !o.spec_pvp_equal(n) {
                Err(ScriptError::GameDataUnexpectedChanged)
            } else {
                match (c.old_height, c.tip_height) {
                    (Some(oh), Some(th)) => if n.action_point != 0 || c.session.action_point != accrued(
                        o.action_point,
                        block_step(config.block_per_action_point, oh, th) as int,
                    ) {
                        Err(ScriptError::ActionPointUnexpectedChanged)
                    } else {
                        match materials_outcome(c.witness_input_type, c.session) {
                            Ok(_) => Ok(Step::SporeCardsLockupChecker),
                            Err(e) => Err(e),
                        }
                    },
                    _ => Err(ScriptError::HeaderNotSet),
                }
            },
            _ => Err(ScriptError::BadGameGlobalIterationMode),
        }
    }
}

pub struct PveSessionCreate {}

impl PveSessionCreate {
    /// One new session cell; payment for its level; the global record keeps its
    /// counters and hands all its accrued action points to the session; the
    /// witness materials hash to the session's committed hash.
    pub fn verify(config: &GameConfig, creation: &SessionCreation) -> (r: Result<Step, ScriptError>)
        requires
            config.wf(),
        ensures
            r == creation_outcome(*config, *creation),
    {
        if creation.session_cells != 1 {
            return Err(ScriptError::BadPveCreationMode);
        }
        let session = &creation.session;
        let payment_threshold = config.player_level_cost(session.player_level)?;
        if payment_threshold > 0 {
            let received = payee_received(config, &creation.outputs);
            if received < payment_threshold as u128 {
                return Err(ScriptError::PvePaymentNotEnough);
            }
        }
        let (old, new) = match (&creation.old_global, &creation.new_global) {
            (Some(old), Some(new)) => (old, new),
            _ => {
                return Err(ScriptError::BadGameGlobalIterationMode);
            },
        };
        if !old.pve_equal(new) || !old.pvp_equal(new) {
            return Err(ScriptError::GameDataUnexpectedChanged);
        }
        let (old_height, tip_height) = match (creation.old_height, creation.tip_height) {
            (Some(o), Some(t)) => (o, t),
            _ => {
                return Err(ScriptError::HeaderNotSet);
            },
        };
        let step = action_point_block_step(config, old_height, tip_height);
        let expected_action_point = accrue(old.action_point, step as u32);
        if new.action_point != 0 || session.action_point != expected_action_point {
            return Err(ScriptError::ActionPointUnexpectedChanged);
        }
        verify_materials(&creation.witness_input_type, session)?;
        Ok(Step::SporeCardsLockupChecker)
    }
}

pub struct PveSessionBurn {}

impl PveSessionBurn {
    /// Exactly one session cell of this script is consumed, and none is produced.
    pub fn verify(session_inputs: usize, session_outputs: usize) -> (r: Result<Option<Step>, ScriptError>)
        ensures
            r == (if session_inputs != 1 || session_outputs != 0 {
                Err::<Option<Step>, ScriptError>(ScriptError::BadPveSettlementMode)
            } else {
                Ok::<Option<Step>, ScriptError>(None)
            }),
    {
        if session_inputs != 1 {
            return Err(ScriptError::BadPveSettlementMode);
        }
        if session_outputs != 0 {
            return Err(ScriptError::BadPveSettlementMode);
        }
        Ok(None)
    }
}

pub struct PveSessionResolve {}

impl PveSessionResolve {
    /// Exactly one session cell of this script is consumed.
    pub fn verify(session_inputs: usize) -> (r: Result<Option<Step>, ScriptError>)
        ensures
            r == (if session_inputs != 1 {
                Err::<Option<Step>, ScriptError>(ScriptError::BadPveSettlementMode)
            } else {
                Ok::<Option<Step>, ScriptError>(None)
            }),
    {
        if session_inputs != 1 {
            return Err(ScriptError::BadPveSettlementMode);
        }
        Ok(None)
    }
}

pub struct PveUpdate {}

impl PveUpdate {
    /// A checkpoint mid-session: the replay must not be over, and an archive must follow.
    pub fn verify(game: &PveSystemRuntime, archive_output: &Vec<u8>) -> (r: Result<Option<Step>, ScriptError>)
        ensures
            r == (if game.spec_game_over() || archive_output@.len() == 0 {
                Err::<Option<Step>, ScriptError>(ScriptError::BadPveUpdateMode)
            } else {
                Ok::<Option<Step>, ScriptError>(None)
            }),
    {
        if game.game_over() || archive_output.len() == 0 {
            return Err(ScriptError::BadPveUpdateMode);
        }
        Ok(None)
    }
}

/// The verdict on a settlement, given the replay's final summary.
pub open spec fn settlement_outcome(
    game_over: bool,
    action_point: u16,
    gold: u16,
    stats: crate::context::GameStatistics,
    archive_output: Seq<u8>,
    old: Option<GameGlobal>,
    new: Option<GameGlobal>,
) -> Result<Step, ScriptError> {
    if !game_over || archive_output.len() != 0 {
        Err(ScriptError::BadPveSettlementMode)
    } else {
        match (old, new) {
            (Some(o), Some(n)) => if !o.spec_pvp_equal(n) {
                Err(ScriptError::GameDataUnexpectedChanged)
            } else if n.action_point != action_point || !o.spec_statistics_equal(n, stats) || n.pve_hunted_gold
                != o.pve_hunted_gold + gold {
                Err(ScriptError::GameplayDataUnexpectedChanged)
            } else {
                Ok(Step::SporeCardsRedeemChecker)
            },
            _ => Err(ScriptError::BadGameGlobalIterationMode),
        }
    }
}

pub struct PveSettlement {}

impl PveSettlement {
    /// The replay must be over; the global record must show the replay's action
    /// points, its statistics added to the old counters, and its gold added.
    pub fn verify(
        game: &PveSystemRuntime,
        archive_output: &Vec<u8>,
        old: &Option<GameGlobal>,
        new: &Option<GameGlobal>,
    ) -> (r: Result<Step, ScriptError>)
        ensures
            r == settlement_outcome(
                game.spec_game_over(),
                game.spec_action_point(),
                game.spec_gold(),
                game.spec_statistics(),
                archive_output@,
                *old,
                *new,
            ),
    {
        if !game.game_over() || archive_output.len() != 0 {
            return Err(ScriptError::BadPveSettlementMode);
        }
        let (old, new) = match (old, new) {
            (Some(old), Some(new)) => (old, new),
            _ => {
                return Err(ScriptError::BadGameGlobalIterationMode);
            },
        };
        if !old.pvp_equal(new) {
            return Err(ScriptError::GameDataUnexpectedChanged);
        }
        if new.action_point != game.get_action_point() || !old.statistics_equal(new, game.statistics())
            || new.pve_hunted_gold as u64 != old.pve_hunted_gold as u64 + game.get_gold() as u64 {
            return Err(ScriptError::GameplayDataUnexpectedChanged);
        }
        Ok(Step::SporeCardsRedeemChecker)
    }
}

/// The summary of a session engine that was just seeded.
pub open spec fn session_start(seed: u64) -> SessionSummary {
    SessionSummary {
        rng: seed_state(seed),
        action_point: 0,
        statistics: GameStatistics::zero(),
        selection: CardSelection::none(),
        player: None,
        battle: false,
    }
}

/// What one recorded operation does to a session's summary.
pub open spec fn operation_outcome(
    t: Seq<PlayerConfig>,
    session: PveSession,
    s: SessionSummary,
    op: GameOperation,
) -> Result<SessionSummary, Error> {
    match op {
        GameOperation::StartGame => start_game_outcome(t, s, session.player_level, session.action_point),
        GameOperation::StartBattle(level) => start_battle_outcome(s, level),
        GameOperation::RoundOver => round_over_outcome(s),
        GameOperation::SpellCard(card, _) => spell_card_outcome(s, card),
        GameOperation::SelectCard(ids) => select_card_outcome(s, ids@.len()),
        GameOperation::HealHp => heal_hp_outcome(s),
        GameOperation::DestroyCard => destroy_card_outcome(s),
    }
}

/// Replays operations in order from a summary: the first failing operation's
/// error, or the summary after the last.
pub open spec fn replay_outcome(
    t: Seq<PlayerConfig>,
    session: PveSession,
    s: SessionSummary,
    ops: Seq<GameOperation>,
) -> Result<SessionSummary, Error>
    decreases ops.len(),
{
    if ops.len() == 0 {
        Ok(s)
    } else {
        match operation_outcome(t, session, s, ops[0]) {
            Err(e) => Err(e),
            Ok(next) => replay_outcome(t, session, next, ops.drop_first()),
        }
    }
}

/// Starting a game, starting an easy battle, then playing card 7 fails: card 7
/// is never in the pool. The error is the card's absence unless starting the
/// game already failed.
pub proof fn lemma_missing_card_rejected(t: Seq<PlayerConfig>, session: PveSession, seed: u64)
    ensures
        replay_outcome(
            t,
            session,
            session_start(seed),
            seq![GameOperation::StartGame, GameOperation::StartBattle(EnemyLevel::Easy), GameOperation::SpellCard(7, None)],
        ) is Err,
        start_game_outcome(t, session_start(seed), session.player_level, session.action_point) is Ok ==> replay_outcome(
            t,
            session,
            session_start(seed),
            seq![GameOperation::StartGame, GameOperation::StartBattle(EnemyLevel::Easy), GameOperation::SpellCard(7, None)],
        ) == Err::<SessionSummary, Error>(Error::RuntimeNotSet(7)),
{
    let ops = seq![GameOperation::StartGame, GameOperation::StartBattle(EnemyLevel::Easy), GameOperation::SpellCard(7, None)];
    assert(ops.drop_first() =~= seq![GameOperation::StartBattle(EnemyLevel::Easy), GameOperation::SpellCard(7, None)]);
    assert(ops.drop_first().drop_first() =~= seq![GameOperation::SpellCard(7, None)]);
    assert(ops.drop_first().drop_first().drop_first() =~= Seq::<GameOperation>::empty());
    reveal_with_fuel(replay_outcome, 4);
}

impl PveUpdate {
    /// Replays a session's recorded operations, in order, on a fresh engine seeded
    /// with `seed`; the first operation that fails rejects the replay with its
    /// error. The result is a function of the inputs: the seed, the session,
    /// the player templates and the operations.
    pub fn replay_operations(
        seed: u64,
        session: &PveSession,
        player_pool: PlayerPool,
        operations: &Vec<GameOperation>,
        gameplay_cards: &Vec<DNA>,
    ) -> (r: Result<PveSystemRuntime, ScriptError>)
        requires
            player_pool.wf(),
        ensures
            replay_outcome(player_pool.inner@, *session, session_start(seed), operations@) matches Err(e) ==> r
                == Err::<PveSystemRuntime, ScriptError>(ScriptError::Gameplay(e)),
            replay_outcome(player_pool.inner@, *session, session_start(seed), operations@) matches Ok(s) ==> (r matches Ok(
                game,
            ) && {
                &&& game.wf()
                &&& game.summary() == s
                &&& game.spec_action_point() == s.action_point
                &&& game.spec_statistics() == s.statistics
                &&& game.spec_gold() == 0
                &&& !game.spec_game_over()
                &&& game.spec_operations().len() == operations@.len()
            }),
    {
        let ghost t = player_pool.inner@;
        let mut game = match PveSystemRuntime::new(seed, player_pool) {
            Ok(game) => game,
            Err(e) => {
                return Err(ScriptError::Gameplay(e));
            },
        };
        assert(operations@.subrange(0, operations@.len() as int) == operations@);
        let mut k: usize = 0;
        while k < operations.len()
            invariant
                k <= operations@.len(),
                game.plain(),
                game.wf(),
                game.templates() == t,
                t == player_pool.inner@,
                game.spec_operations().len() == k,
                replay_outcome(t, *session, session_start(seed), operations@) == replay_outcome(
                    t,
                    *session,
                    game.summary(),
                    operations@.subrange(k as int, operations@.len() as int),
                ),
            decreases operations@.len() - k,
        {
            let ghost rest = operations@.subrange(k as int, operations@.len() as int);
            assert(rest[0] == operations@[k as int]);
            assert(rest.drop_first() =~= operations@.subrange(k + 1, operations@.len() as int));
            let ghost s0 = game.summary();
            let ghost step = operation_outcome(t, *session, s0, operations@[k as int]);
            assert(replay_outcome(t, *session, s0, rest) == match step {
                Err(e) => Err(e),
                Ok(next) => replay_outcome(t, *session, next, rest.drop_first()),
            });
            let result = match &operations[k] {
                GameOperation::StartGame => game.start_game(
                    session.player_level,
                    session.action_point,
                    copy_dnas(gameplay_cards),
                ),
                GameOperation::StartBattle(enemy_level) => game.start_battle(*enemy_level, session.version),
                GameOperation::RoundOver => game.round_over(),
                GameOperation::SpellCard(card_runtime_id, target_runtime_id) => game.spell_card(
                    *card_runtime_id,
                    *target_runtime_id,
                ),
                GameOperation::SelectCard(card_runtime_id_set) => game.select_card(copy_ids(card_runtime_id_set)),
                GameOperation::HealHp => game.heal_hp(),
                GameOperation::DestroyCard => game.destroy_card(),
            };
            proof {
                assert(settles(game, result, step, t));
            }
            if let Err(e) = result {
                return Err(ScriptError::Gameplay(e));
            }
            k = k + 1;
        }
        proof {
            game.lemma_summary_parts();
            assert(operations@.subrange(k as int, operations@.len() as int) =~= Seq::<GameOperation>::empty());
        }
        Ok(game)
    }
}

/// The first of the global records that some cells hold; every one must decode.
pub fn game_data_from(cells: &Vec<Vec<u8>>) -> (r: Result<Option<GameGlobal>, ScriptError>)
    ensures
        (exists|i: int| 0 <= i < cells@.len() && (#[trigger] global_of(cells@[i]@)) is None) ==> r == Err::<
            Option<GameGlobal>,
            ScriptError,
        >(ScriptError::BrokenGameGlobalMolecule),
        (forall|i: int| 0 <= i < cells@.len() ==> (#[trigger] global_of(cells@[i]@)) is Some) ==> r == Ok::<
            Option<GameGlobal>,
            ScriptError,
        >(if cells@.len() == 0 { None } else { global_of(cells@[0]@) }),
{
    let mut first: Option<GameGlobal> = None;
    let mut i: usize = 0;
    while i < cells.len()
        invariant
            i <= cells@.len(),
            forall|j: int| 0 <= j < i ==> (#[trigger] global_of(cells@[j]@)) is Some,
            first == (if i == 0 { None } else { global_of(cells@[0]@) }),
        decreases cells@.len() - i,
    {
        match decode_game_global(cells[i].as_slice()) {
            None => {
                return Err(ScriptError::BrokenGameGlobalMolecule);
            },
            Some(global) => {
                if i == 0 {
                    first = Some(global);
                }
            },
        }
        i = i + 1;
    }
    Ok(first)
}

/// Decodes the session record of a session cell.
pub fn session_data_from(data: &Vec<u8>) -> (r: Result<PveSession, ScriptError>)
    ensures
        r is Err <==> !fields_fit(data@, session_sizes()),
        r is Err ==> r == Err::<PveSession, ScriptError>(ScriptError::BrokenPveSessionMolecule),
        r matches Ok(s) ==> is_session_of(data@, s),
{
    match decode_pve_session(data.as_slice()) {
        Some(session) => Ok(session),
        None => Err(ScriptError::BrokenPveSessionMolecule),
    }
}

/// Witness materials are accepted exactly when their content hash is the hash
/// that the session committed to; any other content is a hash mismatch.
pub proof fn lemma_material_binding(materials: Vec<u8>, session: PveSession)
    ensures
        materials_outcome(Some(materials), session) is Ok <==> ckb_blake2b(materials@) == session.material_hash@,
        ckb_blake2b(materials@) != session.material_hash@ ==> materials_outcome(Some(materials), session)
            == Err::<(), ScriptError>(ScriptError::MaterialHashMismatch),
{
}

/// The verdict on replaying a session from its witness: the session record must
/// be there, the materials must hash to its committed hash and decode, and the
/// recorded operations must replay.
pub open spec fn witness_outcome(
    t: Seq<PlayerConfig>,
    seed: u64,
    session: Option<PveSession>,
    input_type: Option<Vec<u8>>,
    gameplay_cards: Option<Vec<DNA>>,
    ops: Seq<GameOperation>,
) -> Result<SessionSummary, ScriptError> {
    match session {
        None => Err(ScriptError::BadPveSettlementMode),
        Some(sd) => match materials_outcome(input_type, sd) {
            Err(e) => Err(e),
            Ok(_) => match gameplay_cards {
                None => Err(ScriptError::BrokenPveSessionMaterialsMolecule),
                Some(_) => match replay_outcome(t, sd, session_start(seed), ops) {
                    Err(e) => Err(ScriptError::Gameplay(e)),
                    Ok(s) => Ok(s),
                },
            },
        },
    }
}

impl PveUpdate {
    /// Checks a session's witness and replays its operations: the session record
    /// must be known, the materials (the witness's input field) must hash to the
    /// committed hash, their claimed cards must have decoded, and then the
    /// operations replay from the session's seed.
    pub fn run_session_game(
        seed: u64,
        session: &Option<PveSession>,
        input_type: &Option<Vec<u8>>,
        gameplay_cards: &Option<Vec<DNA>>,
        player_pool: PlayerPool,
        operations: &Vec<GameOperation>,
    ) -> (r: Result<PveSystemRuntime, ScriptError>)
        requires
            player_pool.wf(),
        ensures
            witness_outcome(player_pool.inner@, seed, *session, *input_type, *gameplay_cards, operations@) matches Err(e)
                ==> r == Err::<PveSystemRuntime, ScriptError>(e),
            witness_outcome(player_pool.inner@, seed, *session, *input_type, *gameplay_cards, operations@) matches Ok(s)
                ==> (r matches Ok(game) && {
                &&& game.wf()
                &&& game.summary() == s
                &&& game.spec_action_point() == s.action_point
                &&& game.spec_statistics() == s.statistics
                &&& game.spec_gold() == 0
                &&& !game.spec_game_over()
            }),
    {
        let session = match session {
            None => {
                return Err(ScriptError::BadPveSettlementMode);
            },
            Some(session) => session,
        };
        verify_materials(input_type, session)?;
        let cards = match gameplay_cards {
            None => {
                return Err(ScriptError::BrokenPveSessionMaterialsMolecule);
            },
            Some(cards) => cards,
        };
        PveUpdate::replay_operations(seed, session, player_pool, operations, cards)
    }
}

} // verus!
