//! Replay context: generator, statistics, entity pool, signal queue and history.
use vstd::prelude::*;

use std::collections::BTreeMap;

use crate::enemy::EnemyLevel;
use crate::rng::seed_state;
use crate::rng::RandGenerator;
use crate::runtime::RuntimePool;
use crate::runtime::COUNTERPARTY_RUNTIME_ID;
use crate::signal::Signal;

verus! {

/// Counters accumulated over the lifetime of one session engine.
#[derive(Clone, Copy, PartialEq, Eq, Structural, Debug)]
pub struct GameStatistics {
    pub easy_mode_count: u16,
    pub normal_mode_count: u16,
    pub hard_mode_count: u16,
    pub killed_enemy_count: u16,
    pub casued_damage: u16,
    pub sufferred_damage: u16,
    pub blocked_damage: u16,
    pub healed_hp: u16,
}

impl GameStatistics {
    pub open spec fn zero() -> GameStatistics {
        GameStatistics {
            easy_mode_count: 0,
            normal_mode_count: 0,
            hard_mode_count: 0,
            killed_enemy_count: 0,
            casued_damage: 0,
            sufferred_damage: 0,
            blocked_damage: 0,
            healed_hp: 0,
        }
    }
}

impl Default for GameStatistics {
    fn default() -> (r: Self)
        ensures
            r == GameStatistics::zero(),
    {
        GameStatistics {
            easy_mode_count: 0,
            normal_mode_count: 0,
            hard_mode_count: 0,
            killed_enemy_count: 0,
            casued_damage: 0,
            sufferred_damage: 0,
            blocked_damage: 0,
            healed_hp: 0,
        }
    }
}

pub struct Context {
    pub rng: RandGenerator,
    pub statistics: GameStatistics,
    pub runtimes: RuntimePool,
    pub runtime_id: u16,
    pub battle_count: u8,
    pub current_battle_round: u8,
    pub battle_level: Option<EnemyLevel>,
    pub signals: Vec<Signal>,
    pub signal_history: BTreeMap<u8, Vec<Signal>>,
    pub delete_runtime_history: Vec<u16>,
}

/// `new` differs from `old` at most by signals appended to the queue.
pub open spec fn only_queue_grew(old: Context, new: Context) -> bool {
    &&& new.rng == old.rng
    &&& new.statistics == old.statistics
    &&& new.runtimes == old.runtimes
    &&& new.runtime_id == old.runtime_id
    &&& new.battle_count == old.battle_count
    &&& new.current_battle_round == old.current_battle_round
    &&& new.battle_level == old.battle_level
    &&& new.signal_history == old.signal_history
    &&& new.delete_runtime_history == old.delete_runtime_history
    &&& old.signals@.len() <= new.signals@.len()
    &&& new.signals@.subrange(0, old.signals@.len() as int) == old.signals@
}

/// A context that did not change only grew its queue (by nothing).
pub proof fn lemma_unchanged_grew(c: Context)
    ensures
        only_queue_grew(c, c),
{
    assert(c.signals@.subrange(0, c.signals@.len() as int) =~= c.signals@);
}

impl Context {
    pub fn new(seed: u64) -> (r: Self)
        ensures
            r.rng.state() == seed_state(seed),
            r.statistics == GameStatistics::zero(),
            r.runtimes.entries() == Seq::<crate::runtime::Runtime>::empty(),
            r.runtime_id == COUNTERPARTY_RUNTIME_ID,
            r.battle_count == 0,
            r.current_battle_round == 0,
            r.battle_level is None,
            r.signals@.len() == 0,
            r.signal_history@ == Map::<u8, Vec<Signal>>::empty(),
            r.delete_runtime_history@.len() == 0,
    {
        Context {
            rng: RandGenerator::new(seed),
            statistics: GameStatistics::default(),
            runtimes: RuntimePool::new(),
            runtime_id: COUNTERPARTY_RUNTIME_ID,
            battle_count: 0,
            current_battle_round: 0,
            battle_level: None,
            signals: Vec::new(),
            signal_history: BTreeMap::new(),
            delete_runtime_history: Vec::new(),
        }
    }

    pub fn battle_running(&self) -> (r: bool)
        ensures
            r == self.battle_level is Some,
    {
        self.battle_level.is_some()
    }

    pub fn battle_level(&self) -> (r: Option<EnemyLevel>)
        ensures
            r == self.battle_level,
    {
        self.battle_level
    }

    pub fn clear_battle_level(&mut self)
        ensures
            *final(self) == (Context { battle_level: None, ..*old(self) }),
    {
        self.battle_level = None;
    }

    pub fn set_battle_level(&mut self, level: EnemyLevel)
        ensures
            *final(self) == (Context { battle_level: Some(level), ..*old(self) }),
    {
        self.battle_level = Some(level);
    }

    /// Every signal applied so far in the current battle, by round.
    pub fn get_history_signals(&self) -> (r: &BTreeMap<u8, Vec<Signal>>)
        ensures
            r == &self.signal_history,
    {
        &self.signal_history
    }

    /// Appends a signal to the back of the queue.
    pub fn signal(&mut self, signal: Signal)
        ensures
            final(self).signals@ == old(self).signals@.push(signal),
            *final(self) == (Context { signals: final(self).signals, ..*old(self) }),
    {
        self.signals.push(signal);
    }

    /// Appends signals to the back of the queue, in their order.
    pub fn signal_all(&mut self, signals: Vec<Signal>)
        ensures
            final(self).signals@ == old(self).signals@ + signals@,
            only_queue_grew(*old(self), *final(self)),
            *final(self) == (Context { signals: final(self).signals, ..*old(self) }),
    {
        let mut rest = signals;
        while rest.len() > 0
            invariant
                self.signals@ + rest@ == old(self).signals@ + signals@,
                *self == (Context { signals: self.signals, ..*old(self) }),
            decreases rest@.len(),
        {
            let ghost before = rest@;
            let s = rest.remove(0);
            self.signals.push(s);
            assert(self.signals@ + rest@ =~= old(self).signals@ + signals@) by {
                assert(before =~= seq![s] + rest@);
            }
        }
        assert(self.signals@ + rest@ =~= self.signals@);
        assert(self.signals@.subrange(0, old(self).signals@.len() as int) =~= old(self).signals@);
    }

    /// Takes the signal at the front of the queue.
    pub fn pop_signal(&mut self) -> (r: Option<Signal>)
        ensures
            old(self).signals@.len() == 0 ==> r is None && *final(self) == *old(self),
            old(self).signals@.len() > 0 ==> r == Some(old(self).signals@[0]) && final(self).signals@
                == old(self).signals@.drop_first(),
            *final(self) == (Context { signals: final(self).signals, ..*old(self) }),
    {
        if self.signals.len() == 0 {
            return None;
        }
        Some(self.signals.remove(0))
    }

    /// Records a signal as applied in the current round, after those applied before it.
    pub fn applied_signal(&mut self, signal: Signal)
        ensures
            final(self).signal_history@.dom() == old(self).signal_history@.dom().insert(old(self).current_battle_round),
            final(self).signal_history@[old(self).current_battle_round]@ == (if old(self).signal_history@.contains_key(
                old(self).current_battle_round,
            ) {
                old(self).signal_history@[old(self).current_battle_round]@
            } else {
                Seq::<Signal>::empty()
            }).push(signal),
            final(self).signal_history@.remove(old(self).current_battle_round) == old(self).signal_history@.remove(
                old(self).current_battle_round,
            ),
            *final(self) == (Context { signal_history: final(self).signal_history, ..*old(self) }),
    {
        broadcast use vstd::std_specs::btree::group_btree_axioms, vstd::laws_cmp::group_laws_cmp;

        let round = self.current_battle_round;
        let mut list = match self.signal_history.remove(&round) {
            Some(list) => list,
            None => Vec::new(),
        };
        list.push(signal);
        self.signal_history.insert(round, list);
        assert(self.signal_history@.remove(round) =~= old(self).signal_history@.remove(round));
        assert(self.signal_history@.dom() =~= old(self).signal_history@.dom().insert(round));
    }

    /// Hands out the ids queued for deletion and empties that queue.
    pub fn dump_history_delete_runtimes(&mut self) -> (r: Vec<u16>)
        ensures
            r@ == old(self).delete_runtime_history@,
            final(self).delete_runtime_history@.len() == 0,
            *final(self) == (Context {
                delete_runtime_history: final(self).delete_runtime_history,
                ..*old(self)
            }),
    {
        let mut dumped: Vec<u16> = Vec::new();
        std::mem::swap(&mut dumped, &mut self.delete_runtime_history);
        dumped
    }

    /// Resets the round-scoped state for the next battle.
    pub fn clear(&mut self)
        ensures
            final(self).current_battle_round == 0,
            final(self).battle_level is None,
            final(self).signals@.len() == 0,
            final(self).signal_history@ == Map::<u8, Vec<Signal>>::empty(),
            final(self).delete_runtime_history@.len() == 0,
            final(self).rng == old(self).rng,
            final(self).statistics == old(self).statistics,
            final(self).runtimes == old(self).runtimes,
            final(self).runtime_id == old(self).runtime_id,
            final(self).battle_count == old(self).battle_count,
    {
        self.current_battle_round = 0;
        self.battle_level = None;
        self.signals = Vec::new();
        self.signal_history = BTreeMap::new();
        self.delete_runtime_history = Vec::new();
    }
}

} // verus!
