//! Ledger-resident records, validation configuration, and the transition
//! predicates between two global records.
use vstd::prelude::*;

use crate::context::GameStatistics;
use crate::error::Error;

verus! {

/// Upper bound of a player's action points.
pub const MAX_ACTION_POINT: u16 = 100;

/// Smallest units in one CKB.
pub const CKB_DECIMAL: u64 = 100_000_000;

/// Smallest units of the issued token in one hunted gold.
pub const TOKEN_DECIMAL: u128 = 100_000_000;

/// The first byte of a script's args: which kind of cell the script governs.
#[derive(Clone, Copy, PartialEq, Eq, Structural, Debug)]
pub enum ScriptType {
    GameData,
    TokenIssuer,
    PveSession,
    PvpSession,
}

impl ScriptType {
    /// The script type of a tag byte, in declaration order from zero.
    pub fn from_u8(value: u8) -> (r: Result<ScriptType, ScriptError>)
        ensures
            value == 0 ==> r == Ok::<ScriptType, ScriptError>(ScriptType::GameData),
            value == 1 ==> r == Ok::<ScriptType, ScriptError>(ScriptType::TokenIssuer),
            value == 2 ==> r == Ok::<ScriptType, ScriptError>(ScriptType::PveSession),
            value == 3 ==> r == Ok::<ScriptType, ScriptError>(ScriptType::PvpSession),
            value > 3 ==> r == Err::<ScriptType, ScriptError>(ScriptError::UnknownScriptType),
    {
        match value {
            0 => Ok(ScriptType::GameData),
            1 => Ok(ScriptType::TokenIssuer),
            2 => Ok(ScriptType::PveSession),
            3 => Ok(ScriptType::PvpSession),
            _ => Err(ScriptError::UnknownScriptType),
        }
    }

    pub fn to_u8(self) -> (r: u8)
        ensures
            r == match self {
                ScriptType::GameData => 0u8,
                ScriptType::TokenIssuer => 1u8,
                ScriptType::PveSession => 2u8,
                ScriptType::PvpSession => 3u8,
            },
    {
        match self {
            ScriptType::GameData => 0,
            ScriptType::TokenIssuer => 1,
            ScriptType::PveSession => 2,
            ScriptType::PvpSession => 3,
        }
    }
}

/// Why a transaction is rejected.
#[derive(Clone, Copy, PartialEq, Eq, Structural, Debug)]
pub enum ScriptError {
    UnknownScriptType,
    UnknownOperation,
    ScriptArgsUnexpected,
    TipHeaderNotSet,
    HeaderNotSet,
    WitnessOutputTypeNotSet,
    WitnessInputTypeNotSet,
    PlayerLevelOutOfRange,
    PvePaymentNotEnough,
    BadGameGlobalInitMode,
    BadGameGlobalIterationMode,
    BadTokenIssueMode,
    BadPveCreationMode,
    BadPveSettlementMode,
    BadPveUpdateMode,
    BadRedeemMode,
    BadPvpSettlementMode,
    BadSporeLockupMode,
    BrokenGameGlobalMolecule,
    BrokenTokenIssueArgs,
    BrokenGlobalDataArgs,
    BrokenSporeDataMolecule,
    BrokenPveSessionMolecule,
    BrokenPveSessionMaterialsMolecule,
    BrokenOperationsBytes,
    IssuerGlobalNotPaired,
    PveSessionMustBeTyped,
    PvpSessionNotXudtTyped,
    RedeemSporeTypeNotFound,
    RedeemPeriodNotEnough,
    SporeCannotBeBurned,
    GameDataNotFound,
    GameDataUnexpected,
    GameplaySporeNotInCelldep,
    GameplaySporeClusterIdUnexpected,
    GameplaySporeDnaUnexpected,
    GameDataUnexpectedChanged,
    GameplayDataUnexpectedChanged,
    ActionPointOverflow,
    ActionPointUnexpectedChanged,
    GlobalDataNotInCelldep,
    GlobalOwnerProxyNotFound,
    InvalidTokenIssueAmount,
    MaterialHashMismatch,
    CardsDnaSetMismatchFromCelldep,
    CardsDnaSetMismatchFromDefault,
    /// The replay engine failed while replaying the recorded operations.
    Gameplay(Error),
}

/// The global record: action points and the cumulative PvE and PvP counters.
#[derive(Clone, Copy, PartialEq, Eq, Structural, Debug)]
pub struct GameGlobal {
    pub action_point: u16,
    pub pve_count: u16,
    pub pve_hunted_gold: u32,
    pub pve_easy_mode_count: u16,
    pub pve_killed_enemy_count: u16,
    pub pve_normal_mode_count: u16,
    pub pve_hard_mode_count: u16,
    pub pve_casued_damage: u32,
    pub pve_sufferred_damage: u32,
    pub pve_blocked_damage: u32,
    pub pve_healed_hp: u32,
    pub pvp_win_count: u16,
    pub pvp_lose_count: u16,
    pub pvp_looted_gold: u128,
    pub pvp_stolen_gold: u128,
}

impl Default for GameGlobal {
    fn default() -> (r: Self)
        ensures
            r == GameGlobal::zero(),
    {
        GameGlobal {
            action_point: 0,
            pve_count: 0,
            pve_hunted_gold: 0,
            pve_easy_mode_count: 0,
            pve_killed_enemy_count: 0,
            pve_normal_mode_count: 0,
            pve_hard_mode_count: 0,
            pve_casued_damage: 0,
            pve_sufferred_damage: 0,
            pve_blocked_damage: 0,
            pve_healed_hp: 0,
            pvp_win_count: 0,
            pvp_lose_count: 0,
            pvp_looted_gold: 0,
            pvp_stolen_gold: 0,
        }
    }
}

impl GameGlobal {
    pub open spec fn zero() -> GameGlobal {
        GameGlobal {
            action_point: 0,
            pve_count: 0,
            pve_hunted_gold: 0,
            pve_easy_mode_count: 0,
            pve_killed_enemy_count: 0,
            pve_normal_mode_count: 0,
            pve_hard_mode_count: 0,
            pve_casued_damage: 0,
            pve_sufferred_damage: 0,
            pve_blocked_damage: 0,
            pve_healed_hp: 0,
            pvp_win_count: 0,
            pvp_lose_count: 0,
            pvp_looted_gold: 0,
            pvp_stolen_gold: 0,
        }
    }

    pub open spec fn spec_pve_equal(self, other: GameGlobal) -> bool {
        &&& self.pve_count == other.pve_count
        &&& self.pve_hunted_gold == other.pve_hunted_gold
        &&& self.pve_killed_enemy_count == other.pve_killed_enemy_count
        &&& self.pve_easy_mode_count == other.pve_easy_mode_count
        &&& self.pve_normal_mode_count == other.pve_normal_mode_count
        &&& self.pve_hard_mode_count == other.pve_hard_mode_count
        &&& self.pve_casued_damage == other.pve_casued_damage
        &&& self.pve_sufferred_damage == other.pve_sufferred_damage
        &&& self.pve_blocked_damage == other.pve_blocked_damage
        &&& self.pve_healed_hp == other.pve_healed_hp
    }

    pub open spec fn spec_pvp_equal(self, other: GameGlobal) -> bool {
        &&& self.pvp_win_count == other.pvp_win_count
        &&& self.pvp_lose_count == other.pvp_lose_count
        &&& self.pvp_looted_gold == other.pvp_looted_gold
        &&& self.pvp_stolen_gold == other.pvp_stolen_gold
    }

    /// `other` holds the counters of `self` plus those of a finished session.
    pub open spec fn spec_statistics_equal(self, other: GameGlobal, stats: GameStatistics) -> bool {
        &&& other.pve_easy_mode_count == self.pve_easy_mode_count + stats.easy_mode_count
        &&& other.pve_normal_mode_count == self.pve_normal_mode_count + stats.normal_mode_count
        &&& other.pve_hard_mode_count == self.pve_hard_mode_count + stats.hard_mode_count
        &&& other.pve_casued_damage == self.pve_casued_damage + stats.casued_damage
        &&& other.pve_blocked_damage == self.pve_blocked_damage + stats.blocked_damage
        &&& other.pve_healed_hp == self.pve_healed_hp + stats.healed_hp
        &&& other.pve_sufferred_damage == self.pve_sufferred_damage + stats.sufferred_damage
        &&& other.pve_killed_enemy_count == self.pve_killed_enemy_count + stats.killed_enemy_count
    }

    /// Action points rose, and neither the session nor the PvP counts moved.
    pub fn action_point_charge_mode(&self, next: &Self) -> (r: bool)
        ensures
            r == (self.action_point < next.action_point && self.pvp_win_count == next.pvp_win_count
                && self.pvp_lose_count == next.pvp_lose_count && self.pve_count == next.pve_count),
    {
        self.action_point < next.action_point && self.pvp_win_count == next.pvp_win_count
            && self.pvp_lose_count == next.pvp_lose_count && self.pve_count == next.pve_count
    }

    /// No count moved and all action points left the global record.
    pub fn pve_session_create_mode(&self, next: &Self) -> (r: bool)
        ensures
            r == (self.pve_count == next.pve_count && self.pvp_win_count == next.pvp_win_count
                && self.pvp_lose_count == next.pvp_lose_count && next.action_point == 0),
    {
        self.pve_count == next.pve_count && self.pvp_win_count == next.pvp_win_count
            && self.pvp_lose_count == next.pvp_lose_count && next.action_point == 0
    }

    /// Exactly one more PvE session was settled.
    pub fn pve_session_settlement_mode(&self, next: &Self) -> (r: bool)
        ensures
            r == (self.pve_count + 1 == next.pve_count),
    {
        self.pve_count as u32 + 1 == next.pve_count as u32
    }

    /// Exactly one more PvP win, or one more PvP loss.
    pub fn pvp_session_settlement_mode(&self, next: &Self) -> (r: bool)
        ensures
            r == (self.pvp_win_count + 1 == next.pvp_win_count || self.pvp_lose_count + 1
                == next.pvp_lose_count),
    {
        self.pvp_win_count as u32 + 1 == next.pvp_win_count as u32 || self.pvp_lose_count as u32 + 1
            == next.pvp_lose_count as u32
    }

    pub fn pve_equal(&self, other: &Self) -> (r: bool)
        ensures
            r == self.spec_pve_equal(*other),
    {
        self.pve_count == other.pve_count && self.pve_hunted_gold == other.pve_hunted_gold
            && self.pve_killed_enemy_count == other.pve_killed_enemy_count && self.pve_easy_mode_count
            == other.pve_easy_mode_count && self.pve_normal_mode_count == other.pve_normal_mode_count
            && self.pve_hard_mode_count == other.pve_hard_mode_count && self.pve_casued_damage
            == other.pve_casued_damage && self.pve_sufferred_damage == other.pve_sufferred_damage
            && self.pve_blocked_damage == other.pve_blocked_damage && self.pve_healed_hp == other.pve_healed_hp
    }

    pub fn pvp_equal(&self, other: &Self) -> (r: bool)
        ensures
            r == self.spec_pvp_equal(*other),
    {
        self.pvp_win_count == other.pvp_win_count && self.pvp_lose_count == other.pvp_lose_count
            && self.pvp_looted_gold == other.pvp_looted_gold && self.pvp_stolen_gold == other.pvp_stolen_gold
    }

    /// Whether `other`'s PvE counters are `self`'s plus the session statistics, each exactly.
    pub fn statistics_equal(&self, other: &Self, stats: &GameStatistics) -> (r: bool)
        ensures
            r == self.spec_statistics_equal(*other, *stats),
    {
        other.pve_easy_mode_count as u32 == self.pve_easy_mode_count as u32 + stats.easy_mode_count as u32
            && other.pve_normal_mode_count as u32 == self.pve_normal_mode_count as u32
            + stats.normal_mode_count as u32 && other.pve_hard_mode_count as u32 == self.pve_hard_mode_count
            as u32 + stats.hard_mode_count as u32 && other.pve_casued_damage as u64
            == self.pve_casued_damage as u64 + stats.casued_damage as u64 && other.pve_blocked_damage as u64
            == self.pve_blocked_damage as u64 + stats.blocked_damage as u64 && other.pve_healed_hp as u64
            == self.pve_healed_hp as u64 + stats.healed_hp as u64 && other.pve_sufferred_damage as u64
            == self.pve_sufferred_damage as u64 + stats.sufferred_damage as u64
            && other.pve_killed_enemy_count as u32 == self.pve_killed_enemy_count as u32
            + stats.killed_enemy_count as u32
    }
}

/// The session record: action points carried into the session, the player's
/// level, and the hash that binds the session's materials.
#[derive(Clone, Copy, Debug)]
pub struct PveSession {
    pub version: u8,
    pub action_point: u16,
    pub player_level: u8,
    pub material_hash: [u8; 32],
}

/// The parameters of validation.
pub struct GameConfig {
    /// Serialized lock scripts that payments must go to.
    pub protocol_payee_scripts: Vec<Vec<u8>>,
    /// Blocks of elapsed ledger height that earn one action point.
    pub block_per_action_point: u8,
    /// Price, in smallest CKB units, of one purchased action point.
    pub ckb_per_action_point: u64,
    /// Price of a session, by player level.
    pub player_level_ckb_costs: Vec<u64>,
    /// Clusters whose spores count as game cards.
    pub dob_card_clusters: Vec<[u8; 32]>,
    /// Card identities that a player may claim without holding them on the ledger.
    pub default_gameplay_cards: Vec<crate::dna::DNA>,
}

impl GameConfig {
    pub open spec fn wf(&self) -> bool {
        self.ckb_per_action_point > 0 && self.block_per_action_point > 0
    }

    /// The price of a session for a player level.
    pub fn player_level_cost(&self, level: u8) -> (r: Result<u64, ScriptError>)
        ensures
            level < self.player_level_ckb_costs@.len() ==> r == Ok::<u64, ScriptError>(
                self.player_level_ckb_costs@[level as int],
            ),
            level >= self.player_level_ckb_costs@.len() ==> r == Err::<u64, ScriptError>(
                ScriptError::PlayerLevelOutOfRange,
            ),
    {
        if (level as usize) < self.player_level_ckb_costs.len() {
            Ok(self.player_level_ckb_costs[level as usize])
        } else {
            Err(ScriptError::PlayerLevelOutOfRange)
        }
    }

    /// Whether a spore's cluster is one of the card clusters.
    pub fn is_valid_cluster(&self, spore_data: &crate::spore::SporeData) -> (r: bool)
        ensures
            r == crate::spore::in_card_cluster(*self, *spore_data),
    {
        match &spore_data.cluster_id {
            None => false,
            Some(cluster_id) => {
                let mut i: usize = 0;
                while i < self.dob_card_clusters.len()
                    invariant
                        i <= self.dob_card_clusters@.len(),
                        spore_data.cluster_id == Some(*cluster_id),
                        forall|j: int| 0 <= j < i ==> self.dob_card_clusters@[j]@ != cluster_id@,
                    decreases self.dob_card_clusters@.len() - i,
                {
                    let candidate: &[u8; 32] = &self.dob_card_clusters[i];
                    if crate::spore::bytes_eq(candidate.as_slice(), cluster_id.as_slice()) {
                        assert(0 <= i < self.dob_card_clusters@.len() && self.dob_card_clusters@[i as int]@ == cluster_id@);
                        return true;
                    }
                    i = i + 1;
                }
                false
            },
        }
    }
}

/// The card cluster of the test network.
pub open spec fn testnet_cluster() -> Seq<u8> {
    seq![
        0x53u8, 0x26, 0x97, 0xf3, 0x9c, 0x3c, 0xa0, 0x3b, 0xd3, 0x3b, 0x30, 0x93, 0x2b, 0xa5, 0xf4, 0xbb,
        0x11, 0x31, 0x6d, 0x12, 0x0a, 0xf6, 0x86, 0xcd, 0x87, 0x02, 0x03, 0x44, 0x55, 0x1d, 0xce, 0x43,
    ]
}

/// The serialized payee lock of a local test chain.
pub open spec fn native_payee() -> Seq<u8> {
    seq![
        54u8, 0, 0, 0, 16, 0, 0, 0, 48, 0, 0, 0, 49, 0, 0, 0, 230, 131, 176, 65, 57, 52, 71, 104, 52,
        132, 153, 194, 62, 177, 50, 109, 90, 82, 214, 219, 0, 108, 13, 47, 236, 224, 10, 131, 31,
        54, 96, 215, 2, 1, 0, 0, 0, 0,
    ]
}

/// The serialized payee lock of the test network.
pub open spec fn testnet_payee() -> Seq<u8> {
    seq![
        73u8, 0, 0, 0, 16, 0, 0, 0, 48, 0, 0, 0, 49, 0, 0, 0, 155, 215, 224, 111, 62, 207, 75, 224, 242,
        252, 210, 24, 139, 35, 241, 185, 252, 200, 142, 93, 75, 101, 168, 99, 123, 23, 114, 59, 189,
        163, 204, 232, 1, 20, 0, 0, 0, 148, 15, 4, 172, 228, 186, 159, 46, 89, 239, 26, 26, 246, 249,
        157, 158, 234, 37, 202, 141,
    ]
}

impl Default for GameConfig {
    fn default() -> (r: Self)
        ensures
            r.wf(),
            r.block_per_action_point == 20,
            r.ckb_per_action_point == 10 * CKB_DECIMAL,
            r.player_level_ckb_costs@ == seq![0u64, 0u64, (500 * CKB_DECIMAL) as u64, (1000 * CKB_DECIMAL) as u64],
            r.dob_card_clusters@.len() == 2,
            r.dob_card_clusters@[0]@ == Seq::new(32, |i: int| 0u8),
            r.dob_card_clusters@[1]@ == testnet_cluster(),
            r.protocol_payee_scripts@.len() == 2,
            r.protocol_payee_scripts@[0]@ == native_payee(),
            r.protocol_payee_scripts@[1]@ == testnet_payee(),
            r.default_gameplay_cards@.len() == 0,
    {
        let mut dob_card_clusters: Vec<[u8; 32]> = Vec::new();
        // native test cluster
        dob_card_clusters.push([0u8; 32]);
        // testnet cluster
        dob_card_clusters.push(
            [
                0x53, 0x26, 0x97, 0xf3, 0x9c, 0x3c, 0xa0, 0x3b, 0xd3, 0x3b, 0x30, 0x93, 0x2b, 0xa5, 0xf4, 0xbb,
                0x11, 0x31, 0x6d, 0x12, 0x0a, 0xf6, 0x86, 0xcd, 0x87, 0x02, 0x03, 0x44, 0x55, 0x1d, 0xce, 0x43,
            ],
        );
        let mut protocol_payee_scripts: Vec<Vec<u8>> = Vec::new();
        // native test payee
        protocol_payee_scripts.push(
            vec![
                54, 0, 0, 0, 16, 0, 0, 0, 48, 0, 0, 0, 49, 0, 0, 0, 230, 131, 176, 65, 57, 52, 71, 104, 52,
                132, 153, 194, 62, 177, 50, 109, 90, 82, 214, 219, 0, 108, 13, 47, 236, 224, 10, 131, 31,
                54, 96, 215, 2, 1, 0, 0, 0, 0,
            ],
        );
        // testnet payee
        protocol_payee_scripts.push(
            vec![
                73, 0, 0, 0, 16, 0, 0, 0, 48, 0, 0, 0, 49, 0, 0, 0, 155, 215, 224, 111, 62, 207, 75, 224, 242,
                252, 210, 24, 139, 35, 241, 185, 252, 200, 142, 93, 75, 101, 168, 99, 123, 23, 114, 59, 189,
                163, 204, 232, 1, 20, 0, 0, 0, 148, 15, 4, 172, 228, 186, 159, 46, 89, 239, 26, 26, 246, 249,
                157, 158, 234, 37, 202, 141,
            ],
        );
        let mut player_level_ckb_costs: Vec<u64> = Vec::new();
        player_level_ckb_costs.push(0);
        player_level_ckb_costs.push(0);
        player_level_ckb_costs.push(500 * CKB_DECIMAL);
        player_level_ckb_costs.push(1000 * CKB_DECIMAL);
        assert(player_level_ckb_costs@ =~= seq![0u64, 0u64, (500 * CKB_DECIMAL) as u64, (1000 * CKB_DECIMAL) as u64]);
        assert(dob_card_clusters@[0]@ =~= Seq::new(32, |i: int| 0u8));
        assert(dob_card_clusters@[1]@ =~= testnet_cluster());
        assert(protocol_payee_scripts@[0]@ =~= native_payee());
        assert(protocol_payee_scripts@[1]@ =~= testnet_payee());
        GameConfig {
            protocol_payee_scripts,
            block_per_action_point: 20,
            ckb_per_action_point: 10 * CKB_DECIMAL,
            player_level_ckb_costs,
            dob_card_clusters,
            default_gameplay_cards: Vec::new(),
        }
    }
}

} // verus!
