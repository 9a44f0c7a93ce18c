use ckb_game::card::{instance_card_by_seed, get_card_template_by_name, AwakeConfig, AwakeTrigger, Card, CardCategory, CardConfig, CardName, CardPool, CardTarget};
use ckb_game::context::Context;
use ckb_game::effect::{roulette_effect, Effect, EffectConfig, EffectName};
use ckb_game::enemy::{Enemy, EnemyLevel, EnemyName};
use ckb_game::entity::{Attack, CardRuntime, EffectRuntime, EnemyRuntime, ExtraDamage};
use ckb_game::error::Error;
use ckb_game::global::{PveSession, ScriptError};
use ckb_game::operation::{GameOperation, GameOperationSet, OperationType};
use ckb_game::player::{roulette_player, PlayerConfig, PlayerPool};
use ckb_game::rng::RandGenerator;
use ckb_game::runtime::{Runtime, RuntimePool, RuntimeType, PLAYER_RUNTIME_ID};
use ckb_game::signal::{Signal, SignalName, SignalValue};
use ckb_game::system::{CardSelection, CardSelectionSource, PveSystemRuntime};
use ckb_game::validate::PveUpdate;
use ckb_game::value::ValueType;

fn player_config(level: u8, hp: u16, heal: u8, discard: u8) -> PlayerConfig {
    PlayerConfig {
        level,
        hp: ValueType::Fixed(hp),
        energy: 3,
        attack: ValueType::Random(1, 5),
        defense: ValueType::Fixed(2),
        spirit: ValueType::Fixed(1),
        initial_handhold_capacity: 5,
        initial_deck_capacity: 20,
        initial_equipment_capacity: 1,
        initial_sorcery_capacity: 1,
        max_handhold_capacity: 8,
        max_equipment_capacity: 2,
        max_sorcery_capacity: 2,
        heal_action_point: heal,
        discard_action_point: discard,
        easy_action_point: 1,
        normal_action_point: 2,
        hard_action_point: 3,
    }
}

fn pool() -> PlayerPool {
    PlayerPool { inner: vec![player_config(1, 100, 4, 3), player_config(2, 150, 5, 5)] }
}

fn effect(id: u16, value: u8) -> Runtime {
    Runtime::Effect(EffectRuntime {
        raw: Effect {
            name: EffectName::ExtraDamage,
            trap: false,
            owner_source: None,
            owner_target: None,
            value: Some(value),
            countdown: Some(1),
        },
        runtime_id: id,
        parent_runtime_id: PLAYER_RUNTIME_ID,
        value,
        countdown: 1,
    })
}

fn enemy(id: u16, hp: u16) -> Runtime {
    Runtime::Enemy(EnemyRuntime {
        raw: Enemy {
            seed: 0,
            name: EnemyName::Goblin,
            level: EnemyLevel::Easy,
            hp,
            gold: 3,
            attack: 1,
            defense: 1,
            spirit: 1,
            powerup_threshold: 1,
            actions: vec![],
        },
        runtime_id: id,
        hp,
        attack: 1,
        defense: 1,
        spirit: 1,
        block: 0,
        shield: 0,
        action_pool: vec![],
        active_actions: vec![],
        active_effects: vec![],
    })
}

fn attack_card(value_0: u8) -> Card {
    Card {
        seed: 0,
        name: CardName::Attack,
        golden: false,
        target: CardTarget::Enemy,
        cost: 1,
        exile: false,
        awake: None,
        category: CardCategory::Attack,
        description: String::from("Deal {} damage"),
        value_0,
        value_1: 0,
    }
}

fn spell(value: SignalValue, targets: Vec<u16>) -> Signal {
    Signal {
        name: SignalName::SpellCard,
        value,
        transformed: false,
        source_runtime_id: 3,
        target_runtime_ids: targets,
    }
}

fn hit(source: u16, damage: u16, target: u16) -> Signal {
    Signal {
        name: SignalName::ChangeHp,
        value: SignalValue::Negative(damage),
        transformed: false,
        source_runtime_id: source,
        target_runtime_ids: vec![target],
    }
}

#[test]
fn generator_stream_is_fixed() {
    let mut g = RandGenerator::new(42);
    assert_eq!(g.next_u64(), 0x56ce4ab7719ba3a0);
    assert_eq!(g.next_u64(), 0xc841eb53ebbb2dda);
    assert_eq!(g.next_u64(), 0xca466be0c9980276);
}

#[test]
fn generator_zero_seed_is_remapped() {
    let mut zero = RandGenerator::new(0);
    let mut fixed = RandGenerator::new(0x1234_5678_9abc_def0);
    assert_eq!(zero.next_u64(), 0xb7fb0288c5ee4339);
    assert_eq!(fixed.next_u64(), 0xb7fb0288c5ee4339);
    assert_eq!(zero.next_u64(), 0x42fef730e71e2254);
}

#[test]
fn value_rolls_and_fixed_values() {
    assert_eq!(ValueType::Random(10, 20).value_u16(25), 15);
    assert_eq!(ValueType::Random(10, 20).value_u16(9), 19);
    assert_eq!(ValueType::Fixed(7).value_u16(200), 7);
    assert_eq!(ValueType::Fixed(300).value_u8(0), 44);
}

#[test]
fn card_rolled_from_seed_bytes() {
    let config = CardConfig {
        version: 1,
        name: CardName::Attack,
        rarity: 1,
        exile: false,
        cost: ValueType::Random(1, 4),
        awake: Some(AwakeConfig { awake_type: AwakeTrigger::Damage, value: ValueType::Random(0, 10) }),
        category: CardCategory::Attack,
        target: CardTarget::Enemy,
        description: String::from("Deal {} damage"),
        value_0: Some(ValueType::Fixed(6)),
        value_1: None,
    };
    let card = instance_card_by_seed(&config, 0x0000_0000_0403_0201);
    assert_eq!(card.cost, 2);
    assert_eq!(card.awake.unwrap().value, 2);
    assert_eq!(card.value_0, 6);
    assert_eq!(card.value_1, 0);
    assert_eq!(card.seed, 0x0403_0201);
    assert_eq!(card.description, "Deal 6 damage");
    assert!(!card.golden);
    let pool = CardPool { inner: vec![config] };
    assert!(get_card_template_by_name(&pool, CardName::Attack).is_some());
    assert!(get_card_template_by_name(&CardPool { inner: vec![] }, CardName::Attack).is_none());
}

#[test]
fn effect_rolled_from_seed_bytes() {
    let config = EffectConfig {
        name: EffectName::ExtraDamage,
        trap: true,
        owner_source: Some(true),
        owner_target: None,
        value: Some(ValueType::Random(2, 5)),
        countdown: Some(ValueType::Fixed(3)),
    };
    let e = roulette_effect(config, 0x0000_0000_0000_0107);
    assert_eq!(e.value, Some(3));
    assert_eq!(e.countdown, Some(3));
    assert!(e.trap);
}

#[test]
fn player_rolled_from_first_template_of_level() {
    let p = roulette_player(&pool(), 2, 0x0000_0000_0000_0300).unwrap();
    assert_eq!(p.level, 2);
    assert_eq!(p.hp, 150);
    assert_eq!(p.attack, 4);
    assert!(roulette_player(&pool(), 9, 1).is_none());
}

#[test]
fn pool_keeps_ids_unique_and_ascending() {
    let mut rp = RuntimePool::new();
    rp.insert(effect(12, 1));
    rp.insert(enemy(7, 5));
    rp.insert(effect(9, 2));
    rp.insert(effect(12, 4));
    assert_eq!(rp.collect_runtime_ids(RuntimeType::Effect), vec![9, 12]);
    assert_eq!(rp.collect_runtime_ids(RuntimeType::Enemy), vec![7]);
    assert_eq!(rp.collect_runtimes(RuntimeType::Effect).len(), 2);
    assert!(matches!(rp.get(&12), Ok(Runtime::Effect(e)) if e.value == 4));
    assert!(matches!(rp.get(&5), Err(Error::RuntimeNotSet(5))));
    assert!(matches!(rp.remove(&9), Ok(r) if r.runtime_id() == 9));
    assert!(matches!(rp.remove(&9), Err(Error::RuntimeNotSet(9))));
    assert!(matches!(rp.get(&7).unwrap().player(), Err(Error::InvalidRuntimeType)));
    assert!(rp.get(&7).unwrap().enemy().is_ok());
}

#[test]
fn attack_card_hits_the_enemy_it_is_played_on() {
    let mut ctx = Context::new(1);
    ctx.runtimes.insert(enemy(20, 9));
    let card = CardRuntime { raw: attack_card(6), parent_runtime_id: 3, runtime_id: 30, cost: 1, exile: false, awake: 0 };
    let play = spell(SignalValue::RuntimeId(20), vec![30]);
    let out = Attack {}.run(&play, &card, &ctx).unwrap();
    assert_eq!(out.len(), 1);
    assert!(matches!(out[0].value, SignalValue::Negative(6)));
    assert_eq!(out[0].target_runtime_ids, vec![20]);
    assert_eq!(out[0].source_runtime_id, 30);
    let elsewhere = spell(SignalValue::RuntimeId(20), vec![31]);
    assert!(Attack {}.run(&elsewhere, &card, &ctx).unwrap().is_empty());
    let missing = spell(SignalValue::RuntimeId(99), vec![30]);
    assert!(matches!(Attack {}.run(&missing, &card, &ctx), Err(Error::RuntimeNotSet(99))));
    let untargeted = spell(SignalValue::Empty, vec![30]);
    assert!(matches!(Attack {}.run(&untargeted, &card, &ctx), Err(Error::CardInvalidImplementationSignal(CardName::Attack))));
    assert!(matches!(card.param_value(1), Ok(0)));
    assert!(matches!(card.param_value(2), Err(Error::CardInvalidConfig(CardName::Attack, 2))));
}

#[test]
fn extra_damage_adds_and_saturates() {
    let ctx = Context::new(1);
    let e = match effect(10, 5) {
        Runtime::Effect(e) => e,
        _ => unreachable!(),
    };
    let out = ExtraDamage {}.transform(&hit(1, 7, 20), &e, &ctx).unwrap();
    assert!(matches!(out[0].value, SignalValue::Negative(12)));
    assert!(out[0].transformed);
    assert_eq!(out[0].source_runtime_id, 10);
    let out = ExtraDamage {}.transform(&hit(1, 65534, 20), &e, &ctx).unwrap();
    assert!(matches!(out[0].value, SignalValue::Negative(65535)));
    let heal = Signal { name: SignalName::ChangeRealHp, ..hit(1, 7, 20) };
    assert!(ExtraDamage {}.transform(&heal, &e, &ctx).unwrap().is_empty());
}

#[test]
fn effects_apply_in_ascending_id_order() {
    let mut game = PveSystemRuntime::new(5, pool()).ok().unwrap();
    game.add_runtime(effect(11, 2)).unwrap();
    game.add_runtime(effect(10, 5)).unwrap();
    game.run_signal(hit(1, 5, 20)).unwrap();
    assert_eq!(game.signal_history().len(), 1);
    let history = game.signal_history().get(&0).unwrap();
    assert_eq!(history.len(), 2);
    assert_eq!(history[0].source_runtime_id, 10);
    assert!(matches!(history[0].value, SignalValue::Negative(10)));
    assert_eq!(history[1].source_runtime_id, 11);
    assert!(matches!(history[1].value, SignalValue::Negative(7)));
    assert!(history.iter().all(|s| s.transformed));
}

#[test]
fn reserved_ids_cannot_be_added() {
    let mut game = PveSystemRuntime::new(5, pool()).ok().unwrap();
    assert!(matches!(game.add_runtime(effect(1, 1)), Err(Error::InvalidRuntimeType)));
    assert!(matches!(game.add_runtime(effect(3, 1)), Err(Error::InvalidRuntimeType)));
}

#[test]
fn signal_loop_is_bounded() {
    let mut game = PveSystemRuntime::new(5, pool()).ok().unwrap();
    game.set_signal_limit(12);
    for id in 0..11u16 {
        game.add_runtime(effect(100 + id, 1)).unwrap();
    }
    // one hit and the eleven hits that replace it: within the bound
    game.run_signal(hit(1, 5, 20)).unwrap();
    game.add_runtime(effect(200, 1)).unwrap();
    // one hit and twelve replacements: over the bound
    assert!(matches!(game.run_signal(hit(1, 5, 20)), Err(Error::SystemSignalLimitExceeded)));
}

#[test]
fn session_operations_and_action_points() {
    let mut game = PveSystemRuntime::new(5, pool()).ok().unwrap();
    assert!(matches!(game.heal_hp(), Err(Error::RuntimeNotSet(3))));
    assert!(matches!(game.start_game(9, 10, vec![]), Err(Error::PlayerLevelNotFound(9))));
    game.start_game(1, 10, vec![]).unwrap();
    assert!(matches!(game.start_game(1, 10, vec![]), Err(Error::PlayerExisted)));
    assert_eq!(game.get_action_point(), 10);
    game.heal_hp().unwrap();
    assert_eq!(game.get_action_point(), 6);
    game.heal_hp().unwrap();
    assert_eq!(game.get_action_point(), 2);
    assert!(matches!(game.heal_hp(), Err(Error::SystemInsufficientActionPoint)));
    assert_eq!(game.get_gold(), 0);
    assert!(!game.game_over());
    assert_eq!(game.operations().len(), 7);
}

#[test]
fn destroy_waits_for_selection() {
    let mut game = PveSystemRuntime::new(5, pool()).ok().unwrap();
    game.start_game(1, 10, vec![]).unwrap();
    game.destroy_card().unwrap();
    assert_eq!(game.get_action_point(), 7);
    assert!(matches!(game.heal_hp(), Err(Error::SystemCardSelectionWait)));
    assert!(matches!(game.round_over(), Err(Error::SystemCardSelectionWait)));
    assert!(matches!(game.destroy_card(), Err(Error::SystemCardSelectionWait)));
    assert!(matches!(game.select_card(vec![40, 41]), Err(Error::SystemCardSelectionExceeded)));
    game.select_card(vec![40]).unwrap();
    assert!(matches!(game.select_card(vec![40]), Err(Error::SystemCardSelectionNotWait)));
    game.round_over().unwrap();
}

#[test]
fn battles_are_counted_by_level() {
    let mut game = PveSystemRuntime::new(5, pool()).ok().unwrap();
    game.start_game(1, 10, vec![]).unwrap();
    game.start_battle(EnemyLevel::Easy, 1).unwrap();
    game.start_battle(EnemyLevel::Easy, 1).unwrap();
    game.start_battle(EnemyLevel::Hard, 1).unwrap();
    let stats = game.statistics();
    assert_eq!(stats.easy_mode_count, 2);
    assert_eq!(stats.normal_mode_count, 0);
    assert_eq!(stats.hard_mode_count, 1);
}

#[test]
fn battle_in_progress_blocks_heal() {
    let mut game = PveSystemRuntime::new(5, pool()).ok().unwrap();
    game.start_game(1, 10, vec![]).unwrap();
    game.add_runtime(enemy(20, 9)).unwrap();
    game.start_battle(EnemyLevel::Normal, 1).unwrap();
    assert!(matches!(game.heal_hp(), Err(Error::SystemBattleInProgress)));
    assert!(matches!(game.destroy_card(), Err(Error::SystemBattleInProgress)));
    assert!(matches!(game.start_battle(EnemyLevel::Normal, 1), Err(Error::BattleAlreadyStarted)));
}

#[test]
fn card_selection_signals() {
    let ask = Signal {
        name: SignalName::SelectCardFromGrave,
        value: SignalValue::Positive(2),
        transformed: false,
        source_runtime_id: 30,
        target_runtime_ids: vec![1],
    };
    let selection = CardSelection::from_signal(&ask).unwrap();
    assert_eq!(selection.source, CardSelectionSource::Grave);
    assert_eq!(selection.count, 2);
    assert!(selection.wait_selection(false));
    let answer = selection.to_signal(vec![5, 6]).unwrap();
    assert_eq!(answer.name, SignalName::SelectCardFromGrave);
    assert_eq!(answer.target_runtime_ids, vec![30]);
    let loot = CardSelection { source: CardSelectionSource::Loot, source_runtime_id: 1, count: 1 };
    assert!(!loot.wait_selection(false));
    assert!(loot.wait_selection(true));
    assert!(!CardSelection::default().wait_selection(true));
    assert!(matches!(CardSelection::default().to_signal(vec![]), Err(Error::SystemInvalidCardSelection)));
    let wrong = Signal { name: SignalName::ChangeHp, ..ask };
    assert!(matches!(CardSelection::from_signal(&wrong), Err(Error::SystemInvalidCardSelection)));
    assert!(wrong.is_target(1));
    assert!(!wrong.is_target(2));
}

#[test]
fn operation_tags() {
    assert_eq!(OperationType::from_u8(3), Some(OperationType::SpellCard));
    assert_eq!(OperationType::from_u8(7), None);
    assert_eq!(EnemyLevel::from_u8(2), Some(EnemyLevel::Hard));
    assert_eq!(EnemyLevel::from_u8(3), None);
    let set = GameOperationSet::new(vec![GameOperation::StartGame, GameOperation::RoundOver]);
    assert_eq!(set.operations.len(), 2);
}

#[test]
fn replay_of_missing_card_is_rejected() {
    let session = PveSession { version: 1, action_point: 10, player_level: 1, material_hash: [0u8; 32] };
    let ops = vec![GameOperation::StartGame, GameOperation::StartBattle(EnemyLevel::Easy), GameOperation::SpellCard(7, None)];
    let result = PveUpdate::replay_operations(9, &session, pool(), &ops, &vec![]);
    assert!(matches!(result, Err(ScriptError::Gameplay(Error::RuntimeNotSet(7)))));
}

#[test]
fn replays_are_deterministic() {
    let session = PveSession { version: 1, action_point: 20, player_level: 2, material_hash: [0u8; 32] };
    let ops = vec![
        GameOperation::StartGame,
        GameOperation::StartBattle(EnemyLevel::Hard),
        GameOperation::HealHp,
        GameOperation::DestroyCard,
        GameOperation::SelectCard(vec![44]),
        GameOperation::StartBattle(EnemyLevel::Easy),
    ];
    let a = PveUpdate::replay_operations(77, &session, pool(), &ops, &vec![]).ok().unwrap();
    let b = PveUpdate::replay_operations(77, &session, pool(), &ops, &vec![]).ok().unwrap();
    assert_eq!(a.get_action_point(), b.get_action_point());
    assert_eq!(a.get_action_point(), 10);
    assert_eq!(a.get_gold(), b.get_gold());
    assert_eq!(a.game_over(), b.game_over());
    assert_eq!(*a.statistics(), *b.statistics());
    assert_eq!(a.statistics().hard_mode_count, 1);
    assert_eq!(a.statistics().easy_mode_count, 1);
}

#[test]
fn descriptions_take_nonzero_values() {
    let mut card = attack_card(6);
    card.descripted();
    assert_eq!(card.description, "Deal 6 damage");
    let mut card = Card { description: String::from("A{}B{}C"), value_0: 0, value_1: 123, ..attack_card(0) };
    card.descripted();
    assert_eq!(card.description, "A123BC");
    let mut card = Card { description: String::from("Hit"), value_0: 5, ..attack_card(0) };
    card.descripted();
    assert_eq!(card.description, "Hit5");
    let mut card = Card { description: String::from("A{}B"), value_0: 7, value_1: 80, ..attack_card(0) };
    card.descripted();
    assert_eq!(card.description, "A7B80");
    let mut card = Card { description: String::from("{{}}"), value_0: 0, value_1: 0, ..attack_card(0) };
    card.descripted();
    assert_eq!(card.description, "{}");
}

#[test]
fn witness_replay_checks_materials_first() {
    let materials = b"materials".to_vec();
    let mut hasher = blake2b_ref::Blake2bBuilder::new(32).personal(b"ckb-default-hash").build();
    hasher.update(&materials);
    let mut hash = [0u8; 32];
    hasher.finalize(&mut hash);
    let session = PveSession { version: 1, action_point: 10, player_level: 1, material_hash: hash };
    let ops = vec![GameOperation::StartGame, GameOperation::HealHp];
    let game = PveUpdate::run_session_game(4, &Some(session), &Some(materials.clone()), &Some(vec![]), pool(), &ops).ok().unwrap();
    assert_eq!(game.get_action_point(), 6);
    let mut other = materials.clone();
    other[0] ^= 1;
    assert!(matches!(
        PveUpdate::run_session_game(4, &Some(session), &Some(other), &Some(vec![]), pool(), &ops),
        Err(ScriptError::MaterialHashMismatch)
    ));
    assert!(matches!(PveUpdate::run_session_game(4, &None, &Some(materials.clone()), &Some(vec![]), pool(), &ops), Err(ScriptError::BadPveSettlementMode)));
    assert!(matches!(PveUpdate::run_session_game(4, &Some(session), &None, &Some(vec![]), pool(), &ops), Err(ScriptError::WitnessInputTypeNotSet)));
    assert!(matches!(PveUpdate::run_session_game(4, &Some(session), &Some(materials), &None, pool(), &ops), Err(ScriptError::BrokenPveSessionMaterialsMolecule)));
}

#[test]
fn logging_is_a_switch() {
    let mut game = PveSystemRuntime::new(5, pool()).ok().unwrap();
    game.start_game(1, 20, vec![]).unwrap();
    game.heal_hp().unwrap();
    assert!(game.logs().is_empty());
    game.set_logging(true);
    game.heal_hp().unwrap();
    game.destroy_card().unwrap();
    let logs = game.logs();
    assert_eq!(logs.len(), 3);
    assert_eq!(logs[0].name, ckb_game::log::LogName::ActionPointChange);
    assert_eq!(logs[0].value, Some(12));
    assert_eq!(logs[1].name, ckb_game::log::LogName::SelectCards);
    assert!(game.logs().is_empty());
}

#[test]
fn descriptions_without_room_take_values_at_the_end() {
    let mut card = Card { description: String::from("Hit"), value_0: 5, value_1: 6, ..attack_card(0) };
    card.descripted();
    assert_eq!(card.description, "Hit56");
}
