//! Player templates and the player rolled for a session.
use vstd::prelude::*;

use crate::card::seed_byte;
use crate::card::le_byte;
use crate::value::ValueType;

verus! {

pub struct PlayerConfig {
    pub level: u8,
    pub hp: ValueType,
    pub energy: u8,
    pub attack: ValueType,
    pub defense: ValueType,
    pub spirit: ValueType,
    pub initial_handhold_capacity: u8,
    pub initial_deck_capacity: u8,
    pub initial_equipment_capacity: u8,
    pub initial_sorcery_capacity: u8,
    pub max_handhold_capacity: u8,
    pub max_equipment_capacity: u8,
    pub max_sorcery_capacity: u8,
    pub heal_action_point: u8,
    pub discard_action_point: u8,
    pub easy_action_point: u8,
    pub normal_action_point: u8,
    pub hard_action_point: u8,
}

impl PlayerConfig {
    pub open spec fn wf(self) -> bool {
        self.hp.wf() && self.attack.wf() && self.defense.wf() && self.spirit.wf()
    }
}

pub struct PlayerPool {
    pub inner: Vec<PlayerConfig>,
}

impl PlayerPool {
    pub open spec fn wf(self) -> bool {
        forall|i: int| 0 <= i < self.inner@.len() ==> #[trigger] self.inner@[i].wf()
    }
}

#[derive(Clone, Copy, PartialEq, Eq, Structural, Debug)]
pub struct Player {
    pub level: u8,
    pub hp: u16,
    pub energy: u8,
    pub attack: u8,
    pub defense: u8,
    pub spirit: u8,
    pub initial_handhold_capacity: u8,
    pub initial_deck_capacity: u8,
    pub initial_equipment_capacity: u8,
    pub initial_sorcery_capacity: u8,
    pub max_handhold_capacity: u8,
    pub max_equipment_capacity: u8,
    pub max_sorcery_capacity: u8,
    pub heal_action_point: u8,
    pub discard_action_point: u8,
    pub easy_action_point: u8,
    pub normal_action_point: u8,
    pub hard_action_point: u8,
}

/// The player that `seed` rolls from template `t`.
pub open spec fn rolled_player(t: PlayerConfig, seed: u64) -> Player {
    Player {
        level: t.level,
        hp: t.hp.rolled(seed_byte(seed, 0)),
        energy: t.energy,
        attack: t.attack.rolled(seed_byte(seed, 1)) as u8,
        defense: t.defense.rolled(seed_byte(seed, 2)) as u8,
        spirit: t.spirit.rolled(seed_byte(seed, 3)) as u8,
        initial_handhold_capacity: t.initial_handhold_capacity,
        initial_deck_capacity: t.initial_deck_capacity,
        initial_equipment_capacity: t.initial_equipment_capacity,
        initial_sorcery_capacity: t.initial_sorcery_capacity,
        max_handhold_capacity: t.max_handhold_capacity,
        max_equipment_capacity: t.max_equipment_capacity,
        max_sorcery_capacity: t.max_sorcery_capacity,
        heal_action_point: t.heal_action_point,
        discard_action_point: t.discard_action_point,
        easy_action_point: t.easy_action_point,
        normal_action_point: t.normal_action_point,
        hard_action_point: t.hard_action_point,
    }
}

/// The player that `seed` rolls from the first template at `level`, if any.
pub open spec fn rolled_from_pool(pool: Seq<PlayerConfig>, level: u8, seed: u64) -> Option<Player> {
    if exists|i: int| 0 <= i < pool.len() && pool[i].level == level {
        let i = choose|i: int|
            0 <= i < pool.len() && pool[i].level == level && forall|j: int| 0 <= j < i ==> pool[j].level != level;
        Some(rolled_player(pool[i], seed))
    } else {
        None
    }
}

/// Rolls the player of `player_level` from the first template of that level.
pub fn roulette_player(player_pool: &PlayerPool, player_level: u8, seed: u64) -> (r: Option<Player>)
    requires
        player_pool.wf(),
    ensures
        r is None <==> forall|i: int|
            0 <= i < player_pool.inner@.len() ==> player_pool.inner@[i].level != player_level,
        r matches Some(p) ==> exists|i: int|
            0 <= i < player_pool.inner@.len() && player_pool.inner@[i].level == player_level
                && (forall|j: int| 0 <= j < i ==> player_pool.inner@[j].level != player_level)
                && p == rolled_player(player_pool.inner@[i], seed),
        r == rolled_from_pool(player_pool.inner@, player_level, seed),
{
    let mut i: usize = 0;
    while i < player_pool.inner.len()
        invariant
            i <= player_pool.inner@.len(),
            player_pool.wf(),
            forall|j: int| 0 <= j < i ==> player_pool.inner@[j].level != player_level,
        decreases player_pool.inner@.len() - i,
    {
        let t = &player_pool.inner[i];
        if t.level == player_level {
            assert(player_pool.inner@[i as int].wf());
            proof {
                let pool = player_pool.inner@;
                let k = choose|k: int|
                    0 <= k < pool.len() && pool[k].level == player_level && forall|j: int| 0 <= j < k ==> pool[j].level != player_level;
                if k < i {
                } else if k > i {
                    assert(pool[i as int].level != player_level);
                }
                assert(k == i);
            }
            return Some(Player {
                level: t.level,
                hp: t.hp.value_u16(le_byte(seed, 0)),
                energy: t.energy,
                attack: t.attack.value_u8(le_byte(seed, 1)),
                defense: t.defense.value_u8(le_byte(seed, 2)),
                spirit: t.spirit.value_u8(le_byte(seed, 3)),
                initial_handhold_capacity: t.initial_handhold_capacity,
                initial_deck_capacity: t.initial_deck_capacity,
                initial_equipment_capacity: t.initial_equipment_capacity,
                initial_sorcery_capacity: t.initial_sorcery_capacity,
                max_handhold_capacity: t.max_handhold_capacity,
                max_equipment_capacity: t.max_equipment_capacity,
                max_sorcery_capacity: t.max_sorcery_capacity,
                heal_action_point: t.heal_action_point,
                discard_action_point: t.discard_action_point,
                easy_action_point: t.easy_action_point,
                normal_action_point: t.normal_action_point,
                hard_action_point: t.hard_action_point,
            });
        }
        i = i + 1;
    }
    None
}

} // verus!
