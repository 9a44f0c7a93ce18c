use ckb_game::accrual::{accrue, action_point_block_step, action_point_ckb_step, sum_capacities};
use ckb_game::codec::{decode_game_global, decode_pve_session};
use ckb_game::context::GameStatistics;
use ckb_game::dna::{check_spore_cards, DNA};
use ckb_game::global::{GameConfig, GameGlobal, PveSession, ScriptError, ScriptType, MAX_ACTION_POINT};
use ckb_game::operation::GameOperation;
use ckb_game::player::{PlayerConfig, PlayerPool};
use ckb_game::spore::{collect_dnas, DobGlobalStatistics, Script, SporeCardsLockupChecker, SporeData};
use ckb_game::token::{calculate_token_amount, CheckTokenIssuePattern, CreateGameGlobalCell, CreateTokenIssuerCell};
use ckb_game::validate::{
    check_material_hash, game_data_from, payee_received, session_data_from, verify_materials, ActionPointCharge,
    AnalyzeIteration, OutputCell, PveSessionBurn, PveSessionCreate, PveSettlement, PveUpdate, Root, SessionCreation,
    Step, TransactionShape,
};
use ckb_game::value::ValueType;

fn ckb_hash(data: &[u8]) -> [u8; 32] {
    let mut hasher = blake2b_ref::Blake2bBuilder::new(32).personal(b"ckb-default-hash").build();
    hasher.update(data);
    let mut out = [0u8; 32];
    hasher.finalize(&mut out);
    out
}

fn table(parts: Vec<Vec<u8>>) -> Vec<u8> {
    let header = 4 * (parts.len() + 1);
    let total: usize = header + parts.iter().map(|p| p.len()).sum::<usize>();
    let mut out = (total as u32).to_le_bytes().to_vec();
    let mut offset = header;
    for p in &parts {
        out.extend((offset as u32).to_le_bytes());
        offset += p.len();
    }
    for p in parts {
        out.extend(p);
    }
    out
}

fn global(action_point: u16, pve_count: u16, hunted: u32) -> GameGlobal {
    GameGlobal { action_point, pve_count, pve_hunted_gold: hunted, ..GameGlobal::default() }
}

fn global_bytes(g: &GameGlobal) -> Vec<u8> {
    table(vec![
        g.action_point.to_le_bytes().to_vec(),
        g.pve_count.to_le_bytes().to_vec(),
        g.pve_hunted_gold.to_le_bytes().to_vec(),
        g.pve_easy_mode_count.to_le_bytes().to_vec(),
        g.pve_killed_enemy_count.to_le_bytes().to_vec(),
        g.pve_normal_mode_count.to_le_bytes().to_vec(),
        g.pve_hard_mode_count.to_le_bytes().to_vec(),
        g.pve_casued_damage.to_le_bytes().to_vec(),
        g.pve_sufferred_damage.to_le_bytes().to_vec(),
        g.pve_blocked_damage.to_le_bytes().to_vec(),
        g.pve_healed_hp.to_le_bytes().to_vec(),
        g.pvp_win_count.to_le_bytes().to_vec(),
        g.pvp_lose_count.to_le_bytes().to_vec(),
        g.pvp_looted_gold.to_le_bytes().to_vec(),
        g.pvp_stolen_gold.to_le_bytes().to_vec(),
    ])
}

fn shape(args: Vec<u8>, type_io: (usize, usize), lock_io: (usize, usize), updated: bool) -> TransactionShape {
    TransactionShape {
        script_args: args,
        type_inputs: type_io.0,
        type_outputs: type_io.1,
        lock_inputs: lock_io.0,
        lock_outputs: lock_io.1,
        global_updated: updated,
        first_global_updated: updated,
        second_global_updated: updated,
        session_typed: true,
        session_xudt_typed: true,
    }
}

fn dna(b: u8) -> DNA {
    [b; 16]
}

fn session(action_point: u16, level: u8, hash: [u8; 32]) -> PveSession {
    PveSession { version: 1, action_point, player_level: level, material_hash: hash }
}

fn creation(old_ap: u16, new_ap: u16, session_ap: u16, old_height: u64, tip_height: u64, materials: &[u8]) -> SessionCreation {
    let mut old = global(old_ap, 2, 0);
    old.pvp_win_count = 1;
    let mut new = old;
    new.action_point = new_ap;
    SessionCreation {
        session_cells: 1,
        session: session(session_ap, 1, ckb_hash(materials)),
        outputs: vec![],
        old_global: Some(old),
        new_global: Some(new),
        old_height: Some(old_height),
        tip_height: Some(tip_height),
        witness_input_type: Some(materials.to_vec()),
    }
}

#[test]
fn dispatch_by_script_type_and_shape() {
    assert!(matches!(Root::verify(&shape(vec![], (0, 1), (0, 0), false)), Err(ScriptError::ScriptArgsUnexpected)));
    assert!(matches!(Root::verify(&shape(vec![9], (0, 1), (0, 0), false)), Err(ScriptError::UnknownScriptType)));
    assert_eq!(Root::verify(&shape(vec![0], (0, 1), (0, 0), false)), Ok(Some(Step::CreateGameGlobalCell)));
    assert_eq!(Root::verify(&shape(vec![0], (1, 1), (0, 0), false)), Ok(Some(Step::AnalyzeIteration)));
    assert_eq!(Root::verify(&shape(vec![0], (1, 0), (0, 0), false)), Ok(None));
    assert_eq!(Root::verify(&shape(vec![0], (2, 1), (0, 0), false)), Err(ScriptError::BadGameGlobalInitMode));
    assert_eq!(Root::verify(&shape(vec![1], (0, 1), (0, 0), false)), Ok(Some(Step::CreateTokenIssuerCell)));
    assert_eq!(Root::verify(&shape(vec![1], (1, 1), (0, 0), false)), Ok(Some(Step::CheckTokenIssuePattern)));
    assert_eq!(Root::verify(&shape(vec![1], (1, 2), (0, 0), false)), Err(ScriptError::BadTokenIssueMode));
    assert_eq!(Root::verify(&shape(vec![2], (0, 0), (1, 1), false)), Ok(Some(Step::PveUpdate)));
    assert_eq!(Root::verify(&shape(vec![2], (0, 0), (1, 1), true)), Err(ScriptError::BadPveUpdateMode));
    assert_eq!(Root::verify(&shape(vec![2], (0, 0), (1, 0), true)), Ok(Some(Step::PveSettlement)));
    assert_eq!(Root::verify(&shape(vec![2], (0, 0), (1, 0), false)), Err(ScriptError::BadPveSettlementMode));
    let mut untyped = shape(vec![2], (0, 0), (1, 0), true);
    untyped.session_typed = false;
    assert_eq!(Root::verify(&untyped), Err(ScriptError::PveSessionMustBeTyped));
    assert_eq!(Root::verify(&shape(vec![3; 65], (0, 0), (1, 0), true)), Ok(Some(Step::PvpSettlement)));
    assert_eq!(Root::verify(&shape(vec![3; 10], (0, 0), (1, 0), true)), Err(ScriptError::BadPvpSettlementMode));
    assert_eq!(ScriptType::from_u8(2), Ok(ScriptType::PveSession));
    assert_eq!(ScriptType::PvpSession.to_u8(), 3);
}

#[test]
fn iteration_patterns() {
    let old = global(10, 2, 0);
    assert_eq!(AnalyzeIteration::verify(&Some(old), &Some(global(15, 2, 0))), Ok(Step::ActionPointCharge));
    assert_eq!(AnalyzeIteration::verify(&Some(old), &Some(global(0, 2, 0))), Ok(Step::PveSessionCreate));
    assert_eq!(AnalyzeIteration::verify(&Some(old), &Some(global(3, 3, 0))), Ok(Step::PveSessionBurn));
    let mut pvp = old;
    pvp.pvp_lose_count = 1;
    pvp.action_point = 4;
    assert_eq!(AnalyzeIteration::verify(&Some(old), &Some(pvp)), Ok(Step::PvpSessionResolve));
    assert_eq!(AnalyzeIteration::verify(&Some(old), &Some(global(5, 2, 0))), Err(ScriptError::BadGameGlobalIterationMode));
    assert_eq!(AnalyzeIteration::verify(&Some(old), &Some(global(101, 2, 0))), Err(ScriptError::ActionPointOverflow));
    assert_eq!(AnalyzeIteration::verify(&None, &Some(old)), Err(ScriptError::BadGameGlobalIterationMode));
}

#[test]
fn accrual_is_clamped() {
    assert_eq!(accrue(50, 20), 70);
    assert_eq!(accrue(95, 10), MAX_ACTION_POINT);
    assert_eq!(accrue(100, 0), 100);
    let config = GameConfig::default();
    assert_eq!(action_point_block_step(&config, 1000, 1220), 11);
    assert_eq!(action_point_block_step(&config, 1000, 1239), 11);
    assert_eq!(action_point_block_step(&config, 1220, 1000), 0);
    assert_eq!(action_point_block_step(&config, 0, u64::MAX), MAX_ACTION_POINT);
    assert_eq!(action_point_ckb_step(&config, 100, 100 + 35 * 100_000_000), 3);
    assert_eq!(action_point_ckb_step(&config, 500, 100), 0);
    assert_eq!(sum_capacities(&vec![u64::MAX, u64::MAX]), 2 * (u64::MAX as u128));
}

#[test]
fn action_point_charge_follows_the_formula() {
    let config = GameConfig::default();
    let old = global(10, 2, 0);
    let ins = vec![100u64];
    let outs = vec![100u64 + 20 * 100_000_000];
    assert_eq!(ActionPointCharge::verify(&config, &Some(old), &Some(global(17, 2, 0)), Some(100), Some(200), &ins, &outs), Ok(()));
    assert_eq!(
        ActionPointCharge::verify(&config, &Some(old), &Some(global(16, 2, 0)), Some(100), Some(200), &ins, &outs),
        Err(ScriptError::ActionPointUnexpectedChanged)
    );
    assert_eq!(
        ActionPointCharge::verify(&config, &Some(old), &Some(global(17, 3, 0)), Some(100), Some(200), &ins, &outs),
        Err(ScriptError::GameDataUnexpectedChanged)
    );
    assert_eq!(
        ActionPointCharge::verify(&config, &Some(old), &Some(global(17, 2, 0)), None, Some(200), &ins, &outs),
        Err(ScriptError::HeaderNotSet)
    );
}

#[test]
fn session_creation_scenario() {
    let config = GameConfig::default();
    let materials = b"materials of one session";
    // from 50 points no elapsed height gives 41: the claim is refused
    for tip in [1000u64, 1001, 1100] {
        assert_eq!(
            PveSessionCreate::verify(&config, &creation(50, 0, 41, 1000, tip, materials)),
            Err(ScriptError::ActionPointUnexpectedChanged)
        );
    }
    // from 30 points, 220 blocks (11 points) give exactly 41
    assert_eq!(PveSessionCreate::verify(&config, &creation(30, 0, 41, 1000, 1220, materials)), Ok(Step::SporeCardsLockupChecker));
    assert_eq!(
        PveSessionCreate::verify(&config, &creation(30, 0, 41, 1000, 1240, materials)),
        Err(ScriptError::ActionPointUnexpectedChanged)
    );
    assert_eq!(
        PveSessionCreate::verify(&config, &creation(30, 1, 41, 1000, 1220, materials)),
        Err(ScriptError::ActionPointUnexpectedChanged)
    );
    let mut moved = creation(30, 0, 41, 1000, 1220, materials);
    moved.new_global.as_mut().unwrap().pvp_win_count = 2;
    assert_eq!(PveSessionCreate::verify(&config, &moved), Err(ScriptError::GameDataUnexpectedChanged));
    let mut two = creation(30, 0, 41, 1000, 1220, materials);
    two.session_cells = 2;
    assert_eq!(PveSessionCreate::verify(&config, &two), Err(ScriptError::BadPveCreationMode));
}

#[test]
fn session_creation_payment() {
    let config = GameConfig::default();
    let payee = config.protocol_payee_scripts[0].clone();
    let mut paid = creation(30, 0, 41, 1000, 1220, b"m");
    paid.session.player_level = 2;
    paid.outputs = vec![OutputCell { lock: payee.clone(), typed: false, capacity: 300 * 100_000_000 }];
    assert_eq!(PveSessionCreate::verify(&config, &paid), Err(ScriptError::PvePaymentNotEnough));
    paid.outputs.push(OutputCell { lock: payee.clone(), typed: false, capacity: 200 * 100_000_000 });
    paid.outputs.push(OutputCell { lock: payee.clone(), typed: true, capacity: 900 * 100_000_000 });
    paid.outputs.push(OutputCell { lock: vec![1, 2, 3], typed: false, capacity: 900 * 100_000_000 });
    assert_eq!(payee_received(&config, &paid.outputs), 500 * 100_000_000);
    assert_eq!(PveSessionCreate::verify(&config, &paid), Ok(Step::SporeCardsLockupChecker));
    paid.session.player_level = 4;
    assert_eq!(PveSessionCreate::verify(&config, &paid), Err(ScriptError::PlayerLevelOutOfRange));
    assert_eq!(config.player_level_cost(3), Ok(1000 * 100_000_000));
}

#[test]
fn material_hash_binding() {
    let materials = b"dna and archives".to_vec();
    let committed = session(1, 1, ckb_hash(&materials));
    assert_eq!(verify_materials(&Some(materials.clone()), &committed), Ok(()));
    for i in 0..materials.len() {
        let mut mutated = materials.clone();
        mutated[i] ^= 0x01;
        assert_eq!(verify_materials(&Some(mutated), &committed), Err(ScriptError::MaterialHashMismatch));
    }
    assert_eq!(verify_materials(&None, &committed), Err(ScriptError::WitnessInputTypeNotSet));
    assert_eq!(check_material_hash(&ckb_hash(&materials), &committed), Ok(()));
    assert_eq!(check_material_hash(&[0u8; 32], &committed), Err(ScriptError::MaterialHashMismatch));
}

#[test]
fn dna_reconciliation_is_a_multiset_match() {
    let defaults = vec![dna(7), dna(8)];
    assert_eq!(check_spore_cards(&vec![dna(1), dna(1)], vec![dna(1), dna(2)], &defaults), Err(ScriptError::CardsDnaSetMismatchFromCelldep));
    assert_eq!(check_spore_cards(&vec![dna(1), dna(1)], vec![dna(1), dna(1)], &defaults), Ok(()));
    assert_eq!(check_spore_cards(&vec![dna(3)], vec![dna(1), dna(2), dna(7)], &defaults), Err(ScriptError::CardsDnaSetMismatchFromCelldep));
    assert_eq!(check_spore_cards(&vec![dna(1)], vec![dna(1), dna(7), dna(8)], &defaults), Ok(()));
    assert_eq!(check_spore_cards(&vec![dna(1)], vec![dna(1), dna(7), dna(7)], &defaults), Err(ScriptError::CardsDnaSetMismatchFromDefault));
    assert_eq!(check_spore_cards(&vec![], vec![], &vec![]), Ok(()));
}

#[test]
fn spore_dna_from_hex_content() {
    let spore = |content: &[u8], cluster: Option<Vec<u8>>| SporeData { content_type: vec![], content: content.to_vec(), cluster_id: cluster };
    let s = spore(b"00112233445566778899AaBbCcDdEeFf", Some(vec![0u8; 32]));
    let expected: DNA = [0x00, 0x11, 0x22, 0x33, 0x44, 0x55, 0x66, 0x77, 0x88, 0x99, 0xaa, 0xbb, 0xcc, 0xdd, 0xee, 0xff];
    assert_eq!(s.dna(), Some(expected));
    assert_eq!(spore(b"0011", None).dna(), None);
    assert_eq!(spore(b"001", None).dna(), None);
    assert_eq!(spore(b"zz112233445566778899aabbccddeeff", None).dna(), None);
    let config = GameConfig::default();
    assert!(config.is_valid_cluster(&s));
    assert!(!config.is_valid_cluster(&spore(b"", Some(vec![1u8; 32]))));
    assert!(!config.is_valid_cluster(&spore(b"", None)));
    let bad_cluster = spore(b"00112233445566778899aabbccddeeff", Some(vec![1u8; 32]));
    let bad_dna = spore(b"0011", Some(vec![0u8; 32]));
    assert_eq!(collect_dnas(&config, &vec![bad_dna, bad_cluster]), Err(ScriptError::GameplaySporeClusterIdUnexpected));
    let bad_dna = spore(b"0011", Some(vec![0u8; 32]));
    assert_eq!(collect_dnas(&config, &vec![bad_dna]), Err(ScriptError::GameplaySporeDnaUnexpected));
    let good = spore(b"00112233445566778899aabbccddeeff", Some(vec![0u8; 32]));
    assert_eq!(SporeCardsLockupChecker::verify(&config, &vec![good], vec![expected]), Ok(None));
    let good = spore(b"00112233445566778899aabbccddeeff", Some(vec![0u8; 32]));
    assert_eq!(SporeCardsLockupChecker::verify(&config, &vec![good], vec![dna(1)]), Err(ScriptError::CardsDnaSetMismatchFromCelldep));
}

#[test]
fn token_issuance_scenario() {
    let amount = |v: u128| v.to_le_bytes().to_vec();
    let old = Some(global(0, 0, 100));
    let new = Some(global(0, 0, 130));
    let ins = vec![amount(1000)];
    assert_eq!(CheckTokenIssuePattern::verify(&old, &new, &ins, &vec![amount(1000 + 30 * 100_000_000)]), Ok(()));
    assert_eq!(
        CheckTokenIssuePattern::verify(&old, &new, &ins, &vec![amount(1000), amount(30 * 100_000_000)]),
        Ok(())
    );
    assert_eq!(
        CheckTokenIssuePattern::verify(&old, &new, &ins, &vec![amount(1001 + 30 * 100_000_000)]),
        Err(ScriptError::InvalidTokenIssueAmount)
    );
    assert_eq!(
        CheckTokenIssuePattern::verify(&old, &new, &ins, &vec![amount(1000 + 29 * 100_000_000)]),
        Err(ScriptError::InvalidTokenIssueAmount)
    );
    assert_eq!(CheckTokenIssuePattern::verify(&None, &new, &ins, &ins), Err(ScriptError::BadGameGlobalIterationMode));
    let mut long = amount(5);
    long.extend([9, 9, 9]);
    assert_eq!(calculate_token_amount(&vec![long, vec![1, 2, 3], amount(u128::MAX)]), u128::MAX);
    assert_eq!(calculate_token_amount(&vec![amount(0x0102_0304_0506_0708_090a_0b0c_0d0e_0f10)]), 0x0102_0304_0506_0708_090a_0b0c_0d0e_0f10);
}

#[test]
fn creation_of_global_and_issuer() {
    let type_id = [5u8; 32];
    assert_eq!(CreateGameGlobalCell::verify(&Some(GameGlobal::default()), 1, &vec![5u8; 32], &type_id), Ok(None));
    assert_eq!(CreateGameGlobalCell::verify(&None, 1, &vec![5u8; 32], &type_id), Err(ScriptError::GameDataNotFound));
    assert_eq!(CreateGameGlobalCell::verify(&Some(global(1, 0, 0)), 1, &vec![5u8; 32], &type_id), Err(ScriptError::GameDataUnexpected));
    assert_eq!(CreateGameGlobalCell::verify(&Some(GameGlobal::default()), 2, &vec![5u8; 32], &type_id), Err(ScriptError::IssuerGlobalNotPaired));
    assert_eq!(CreateGameGlobalCell::verify(&Some(GameGlobal::default()), 1, &vec![6u8; 32], &type_id), Err(ScriptError::BrokenGlobalDataArgs));
    assert_eq!(CreateTokenIssuerCell::verify(&vec![], 1), Ok(None));
    assert_eq!(CreateTokenIssuerCell::verify(&vec![1], 1), Err(ScriptError::BrokenTokenIssueArgs));
    assert_eq!(CreateTokenIssuerCell::verify(&vec![], 0), Err(ScriptError::IssuerGlobalNotPaired));
}

#[test]
fn records_decode_from_tables() {
    let mut g = global(41, 2, 0x0102_0304);
    g.pvp_looted_gold = u128::MAX - 3;
    g.pve_healed_hp = 77;
    let bytes = global_bytes(&g);
    assert_eq!(bytes.len(), 64 + 68);
    assert_eq!(decode_game_global(&bytes), Some(g));
    assert_eq!(decode_game_global(&bytes[..bytes.len() - 1]), None);
    let mut short_field = bytes.clone();
    short_field[8] = short_field[8] + 1;
    assert_eq!(decode_game_global(&short_field), None);
    assert_eq!(game_data_from(&vec![bytes.clone(), global_bytes(&GameGlobal::default())]), Ok(Some(g)));
    assert_eq!(game_data_from(&vec![]), Ok(None));
    assert_eq!(game_data_from(&vec![bytes.clone(), vec![1, 2, 3]]), Err(ScriptError::BrokenGameGlobalMolecule));
    let s = table(vec![vec![1], 300u16.to_le_bytes().to_vec(), vec![2], vec![9u8; 32]]);
    let decoded = decode_pve_session(&s).unwrap();
    assert_eq!(decoded.version, 1);
    assert_eq!(decoded.action_point, 300);
    assert_eq!(decoded.player_level, 2);
    assert_eq!(decoded.material_hash, [9u8; 32]);
    let extra = table(vec![vec![1], 300u16.to_le_bytes().to_vec(), vec![2], vec![9u8; 32], vec![4, 4]]);
    assert!(decode_pve_session(&extra).is_some());
    let wrong = table(vec![vec![1], vec![1, 1, 1], vec![2], vec![9u8; 32]]);
    assert!(decode_pve_session(&wrong).is_none());
    assert!(matches!(session_data_from(&wrong), Err(ScriptError::BrokenPveSessionMolecule)));
}

#[test]
fn settlement_and_update_checks() {
    let pool = PlayerPool {
        inner: vec![PlayerConfig {
            level: 1,
            hp: ValueType::Fixed(100),
            energy: 3,
            attack: ValueType::Fixed(1),
            defense: ValueType::Fixed(1),
            spirit: ValueType::Fixed(1),
            initial_handhold_capacity: 5,
            initial_deck_capacity: 20,
            initial_equipment_capacity: 1,
            initial_sorcery_capacity: 1,
            max_handhold_capacity: 8,
            max_equipment_capacity: 2,
            max_sorcery_capacity: 2,
            heal_action_point: 1,
            discard_action_point: 1,
            easy_action_point: 1,
            normal_action_point: 1,
            hard_action_point: 1,
        }],
    };
    let s = session(12, 1, [0u8; 32]);
    let game = PveUpdate::replay_operations(3, &s, pool, &vec![GameOperation::StartGame], &vec![]).ok().unwrap();
    assert_eq!(PveUpdate::verify(&game, &vec![1]), Ok(None));
    assert_eq!(PveUpdate::verify(&game, &vec![]), Err(ScriptError::BadPveUpdateMode));
    let old = Some(global(0, 2, 0));
    let new = Some(global(12, 3, 0));
    assert_eq!(PveSettlement::verify(&game, &vec![], &old, &new), Err(ScriptError::BadPveSettlementMode));
    assert_eq!(PveSessionBurn::verify(1, 0), Ok(None));
    assert_eq!(PveSessionBurn::verify(1, 1), Err(ScriptError::BadPveSettlementMode));
    assert_eq!(PveSessionBurn::verify(0, 0), Err(ScriptError::BadPveSettlementMode));
}

#[test]
fn statistics_must_add_up() {
    let mut old = global(0, 2, 0);
    old.pve_easy_mode_count = 4;
    let mut new = old;
    new.pve_easy_mode_count = 6;
    new.pve_casued_damage = 9;
    let stats = GameStatistics { easy_mode_count: 2, casued_damage: 9, ..GameStatistics::default() };
    assert!(old.statistics_equal(&new, &stats));
    let short = GameStatistics { easy_mode_count: 1, casued_damage: 9, ..GameStatistics::default() };
    assert!(!old.statistics_equal(&new, &short));
    assert!(old.pvp_equal(&new));
    assert!(!old.pve_equal(&new));
    assert!(old.pve_session_settlement_mode(&global(0, 3, 0)));
    assert!(!global(0, u16::MAX, 0).pve_session_settlement_mode(&global(0, 0, 0)));
}

#[test]
fn payments_to_the_protocol_payee() {
    let payee = || Script { code_hash: [1u8; 32], hash_type: 1, args: vec![9] };
    let stats = DobGlobalStatistics {
        protocol_payee: payee(),
        protocol_owner_hash: [0u8; 32],
        blindbox_cluster_id: [0u8; 32],
        card_cluster_id: [0u8; 32],
        global_unboxed_count: 0,
        ckb_base: 0,
        ckb_increase_per_unbox: 0,
    };
    let other = Script { code_hash: [1u8; 32], hash_type: 0, args: vec![9] };
    let outputs = vec![(payee(), 5u64), (other, 100), (payee(), u64::MAX)];
    assert_eq!(stats.get_ckb_payment(&outputs), 5 + u64::MAX as u128);
    assert_eq!(stats.get_ckb_payment(&vec![]), 0);
}

#[test]
fn session_resolution_and_celldep_cards() {
    assert_eq!(ckb_game::validate::PveSessionResolve::verify(1), Ok(None));
    assert_eq!(ckb_game::validate::PveSessionResolve::verify(2), Err(ScriptError::BadPveSettlementMode));
    let config = GameConfig { default_gameplay_cards: vec![dna(3)], ..GameConfig::default() };
    let spore = SporeData { content_type: vec![], content: b"01010101010101010101010101010101".to_vec(), cluster_id: Some(vec![0u8; 32]) };
    assert_eq!(ckb_game::spore::PveSessionCardsChecker::verify(&config, &vec![spore], vec![dna(1), dna(3)]), Ok(None));
    let spore = SporeData { content_type: vec![], content: b"01010101010101010101010101010101".to_vec(), cluster_id: Some(vec![0u8; 32]) };
    assert_eq!(
        ckb_game::spore::PveSessionCardsChecker::verify(&config, &vec![spore], vec![dna(1), dna(4)]),
        Err(ScriptError::CardsDnaSetMismatchFromDefault)
    );
}

#[test]
fn type_id_hashes_input_and_index() {
    let input = vec![7u8; 44];
    let mut data = input.clone();
    data.extend(3u64.to_le_bytes());
    assert_eq!(ckb_game::hash::type_id(&input, 3), ckb_hash(&data));
    assert_ne!(ckb_game::hash::type_id(&input, 3), ckb_game::hash::type_id(&input, 4));
}
