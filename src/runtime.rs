//! The entity pool: every runtime entity of a replay, keyed by its runtime id.
use vstd::prelude::*;

use crate::entity::CardRuntime;
use crate::entity::EffectRuntime;
use crate::entity::EnemyRuntime;
use crate::entity::PlayerRuntime;
use crate::entity::PveBattleRuntime;
use crate::error::Error;

verus! {

pub const SYSTEM_RUNTIME_ID: u16 = 1;

pub const BATTLE_RUNTIME_ID: u16 = 2;

pub const PLAYER_RUNTIME_ID: u16 = 3;

pub const COUNTERPARTY_RUNTIME_ID: u16 = 4;

#[derive(Clone, Copy, PartialEq, Eq, Structural, Debug)]
pub enum RuntimeType {
    Card,
    Enemy,
    Player,
    Effect,
    PveBattle,
}

pub enum Runtime {
    Card(CardRuntime),
    Enemy(EnemyRuntime),
    Player(PlayerRuntime),
    Effect(EffectRuntime),
    PveBattle(PveBattleRuntime),
}

impl Runtime {
    /// The id under which the pool keeps this entity.
    pub open spec fn id(self) -> u16 {
        match self {
            Runtime::Card(card) => card.runtime_id,
            Runtime::Enemy(enemy) => enemy.runtime_id,
            Runtime::Player(player) => player.runtime_id,
            Runtime::Effect(effect) => effect.runtime_id,
            Runtime::PveBattle(_) => BATTLE_RUNTIME_ID,
        }
    }

    pub open spec fn kind(self) -> RuntimeType {
        match self {
            Runtime::Card(_) => RuntimeType::Card,
            Runtime::Enemy(_) => RuntimeType::Enemy,
            Runtime::Player(_) => RuntimeType::Player,
            Runtime::Effect(_) => RuntimeType::Effect,
            Runtime::PveBattle(_) => RuntimeType::PveBattle,
        }
    }

    pub fn runtime_id(&self) -> (r: u16)
        ensures
            r == self.id(),
    {
        match self {
            Runtime::Card(card) => card.runtime_id,
            Runtime::Enemy(enemy) => enemy.runtime_id,
            Runtime::Player(player) => player.runtime_id,
            Runtime::Effect(effect) => effect.runtime_id,
            Runtime::PveBattle(_) => BATTLE_RUNTIME_ID,
        }
    }

    pub fn runtime_type(&self) -> (r: RuntimeType)
        ensures
            r == self.kind(),
    {
        match self {
            Runtime::Card(_) => RuntimeType::Card,
            Runtime::Enemy(_) => RuntimeType::Enemy,
            Runtime::Player(_) => RuntimeType::Player,
            Runtime::Effect(_) => RuntimeType::Effect,
            Runtime::PveBattle(_) => RuntimeType::PveBattle,
        }
    }

    pub fn player(&self) -> (r: Result<&PlayerRuntime, Error>)
        ensures
            r is Err <==> !(*self is Player),
            r is Err ==> r == Err::<&PlayerRuntime, Error>(Error::InvalidRuntimeType),
            r matches Ok(p) ==> *self == Runtime::Player(*p),
    {
        match self {
            Runtime::Player(player) => Ok(player),
            _ => Err(Error::InvalidRuntimeType),
        }
    }

    pub fn enemy(&self) -> (r: Result<&EnemyRuntime, Error>)
        ensures
            r is Err <==> !(*self is Enemy),
            r is Err ==> r == Err::<&EnemyRuntime, Error>(Error::InvalidRuntimeType),
            r matches Ok(e) ==> *self == Runtime::Enemy(*e),
    {
        match self {
            Runtime::Enemy(enemy) => Ok(enemy),
            _ => Err(Error::InvalidRuntimeType),
        }
    }

    pub fn pve_battle(&self) -> (r: Result<&PveBattleRuntime, Error>)
        ensures
            r is Err <==> !(*self is PveBattle),
            r is Err ==> r == Err::<&PveBattleRuntime, Error>(Error::InvalidRuntimeType),
            r matches Ok(b) ==> *self == Runtime::PveBattle(*b),
    {
        match self {
            Runtime::PveBattle(battle) => Ok(battle),
            _ => Err(Error::InvalidRuntimeType),
        }
    }

    pub fn effect(&self) -> (r: Result<&EffectRuntime, Error>)
        ensures
            r is Err <==> !(*self is Effect),
            r is Err ==> r == Err::<&EffectRuntime, Error>(Error::InvalidRuntimeType),
            r matches Ok(e) ==> *self == Runtime::Effect(*e),
    {
        match self {
            Runtime::Effect(effect) => Ok(effect),
            _ => Err(Error::InvalidRuntimeType),
        }
    }
}

/// Entries whose ids strictly ascend: each id occurs once, in ascending order.
pub open spec fn ascending_ids(s: Seq<Runtime>) -> bool {
    forall|i: int, j: int| 0 <= i < j < s.len() ==> s[i].id() < s[j].id()
}

/// The ids of the entries of kind `t`, in the order of the entries.
pub open spec fn ids_of_kind(s: Seq<Runtime>, t: RuntimeType) -> Seq<u16>
    decreases s.len(),
{
    if s.len() == 0 {
        Seq::empty()
    } else {
        let rest = ids_of_kind(s.drop_last(), t);
        if s.last().kind() == t {
            rest.push(s.last().id())
        } else {
            rest
        }
    }
}

/// The pool: a map from runtime id to entity, kept as entries in ascending id order.
pub struct RuntimePool {
    pool: Vec<Runtime>,
}

impl RuntimePool {
    pub closed spec fn entries(&self) -> Seq<Runtime> {
        self.pool@
    }

    pub open spec fn wf(&self) -> bool {
        ascending_ids(self.entries())
    }

    pub open spec fn has(&self, id: u16) -> bool {
        exists|i: int| 0 <= i < self.entries().len() && #[trigger] self.entries()[i].id() == id
    }

    pub fn new() -> (r: Self)
        ensures
            r.entries() == Seq::<Runtime>::empty(),
            r.wf(),
    {
        RuntimePool { pool: Vec::new() }
    }

    /// Puts `runtime` under its own id, in place of any entity held there.
    pub fn insert(&mut self, runtime: Runtime)
        requires
            old(self).wf(),
        ensures
            final(self).wf(),
            old(self).has(runtime.id()) ==> exists|i: int|
                0 <= i < old(self).entries().len() && old(self).entries()[i].id() == runtime.id()
                    && final(self).entries() == old(self).entries().update(i, runtime),
            !old(self).has(runtime.id()) ==> exists|i: int|
                0 <= i <= old(self).entries().len() && final(self).entries()
                    == old(self).entries().insert(i, runtime)
                    && (forall|j: int| 0 <= j < i ==> #[trigger] old(self).entries()[j].id() < runtime.id())
                    && (forall|j: int| i <= j < old(self).entries().len() ==> #[trigger] old(self).entries()[j].id() > runtime.id()),
    {
        let id = runtime.runtime_id();
        let mut i: usize = 0;
        while i < self.pool.len() && self.pool[i].runtime_id() < id
            invariant
                i <= self.pool@.len(),
                forall|j: int| 0 <= j < i ==> #[trigger] self.pool@[j].id() < id,
            decreases self.pool@.len() - i,
        {
            i = i + 1;
        }
        if i < self.pool.len() && self.pool[i].runtime_id() == id {
            let ghost before = self.pool@;
            self.pool.remove(i);
            self.pool.insert(i, runtime);
            assert(self.pool@ =~= before.update(i as int, runtime));
        } else {
            proof {
                assert forall|j: int| i <= j < self.entries().len() implies #[trigger] self.entries()[j].id() >= id by {
                    if j > i {
                        assert(self.pool@[i as int].id() < self.pool@[j].id());
                    }
                }
                if self.has(id) {
                    let k = choose|k: int| 0 <= k < self.entries().len() && #[trigger] self.entries()[k].id() == id;
                    if k < i {
                    } else if k > i {
                        assert(self.pool@[i as int].id() < self.pool@[k].id());
                    }
                }
            }
            self.pool.insert(i, runtime);
        }
    }

    pub fn get(&self, id: &u16) -> (r: Result<&Runtime, Error>)
        ensures
            r is Err <==> !self.has(*id),
            r is Err ==> r == Err::<&Runtime, Error>(Error::RuntimeNotSet(*id)),
            r matches Ok(x) ==> x.id() == *id && exists|i: int|
                0 <= i < self.entries().len() && self.entries()[i] == *x,
    {
        let mut i: usize = 0;
        while i < self.pool.len()
            invariant
                i <= self.pool@.len(),
                forall|j: int| 0 <= j < i ==> #[trigger] self.pool@[j].id() != *id,
            decreases self.pool@.len() - i,
        {
            if self.pool[i].runtime_id() == *id {
                assert(self.entries()[i as int].id() == *id);
                return Ok(&self.pool[i]);
            }
            i = i + 1;
        }
        Err(Error::RuntimeNotSet(*id))
    }

    pub fn remove(&mut self, id: &u16) -> (r: Result<Runtime, Error>)
        requires
            old(self).wf(),
        ensures
            final(self).wf(),
            r is Err <==> !old(self).has(*id),
            r is Err ==> r == Err::<Runtime, Error>(Error::RuntimeNotSet(*id)) && final(self).entries()
                == old(self).entries(),
            r matches Ok(x) ==> x.id() == *id && exists|i: int|
                0 <= i < old(self).entries().len() && old(self).entries()[i] == x
                    && final(self).entries() == old(self).entries().remove(i),
    {
        let mut i: usize = 0;
        while i < self.pool.len()
            invariant
                i <= self.pool@.len(),
                forall|j: int| 0 <= j < i ==> #[trigger] self.pool@[j].id() != *id,
                self.pool@ == old(self).pool@,
                ascending_ids(self.pool@),
            decreases self.pool@.len() - i,
        {
            if self.pool[i].runtime_id() == *id {
                assert(self.entries()[i as int].id() == *id);
                let ghost before = self.pool@;
                let x = self.pool.remove(i);
                assert(ascending_ids(self.pool@)) by {
                    assert forall|a: int, b: int| 0 <= a < b < self.pool@.len() implies
                        self.pool@[a].id() < self.pool@[b].id() by {
                        let a0 = if a < i { a } else { a + 1 };
                        let b0 = if b < i { b } else { b + 1 };
                        assert(self.pool@[a] == before[a0]);
                        assert(self.pool@[b] == before[b0]);
                    }
                }
                assert(old(self).entries()[i as int] == x);
                assert(self.entries() == old(self).entries().remove(i as int));
                return Ok(x);
            }
            i = i + 1;
        }
        Err(Error::RuntimeNotSet(*id))
    }

    /// Ids of the entities of one kind, in ascending order.
    pub fn collect_runtime_ids(&self, runtime_type: RuntimeType) -> (r: Vec<u16>)
        ensures
            r@ == ids_of_kind(self.entries(), runtime_type),
    {
        let mut r: Vec<u16> = Vec::new();
        let mut i: usize = 0;
        while i < self.pool.len()
            invariant
                i <= self.pool@.len(),
                r@ == ids_of_kind(self.pool@.subrange(0, i as int), runtime_type),
            decreases self.pool@.len() - i,
        {
            let ghost prefix = self.pool@.subrange(0, i as int + 1);
            assert(prefix.drop_last() == self.pool@.subrange(0, i as int));
            if self.pool[i].runtime_type() == runtime_type {
                r.push(self.pool[i].runtime_id());
            }
            i = i + 1;
        }
        assert(self.pool@.subrange(0, self.pool@.len() as int) == self.pool@);
        r
    }

    /// The entities of one kind, in ascending id order.
    pub fn collect_runtimes(&self, runtime_type: RuntimeType) -> (r: Vec<&Runtime>)
        ensures
            r@.len() == ids_of_kind(self.entries(), runtime_type).len(),
            forall|k: int| 0 <= k < r@.len() ==> {
                &&& (#[trigger] r@[k]).kind() == runtime_type
                &&& r@[k].id() == ids_of_kind(self.entries(), runtime_type)[k]
                &&& exists|i: int| 0 <= i < self.entries().len() && self.entries()[i] == *r@[k]
            },
    {
        let mut r: Vec<&Runtime> = Vec::new();
        let mut i: usize = 0;
        while i < self.pool.len()
            invariant
                i <= self.pool@.len(),
                r@.len() == ids_of_kind(self.pool@.subrange(0, i as int), runtime_type).len(),
                forall|k: int| 0 <= k < r@.len() ==> {
                    &&& (#[trigger] r@[k]).kind() == runtime_type
                    &&& r@[k].id() == ids_of_kind(self.pool@.subrange(0, i as int), runtime_type)[k]
                    &&& exists|j: int| 0 <= j < self.entries().len() && self.entries()[j] == *r@[k]
                },
            decreases self.pool@.len() - i,
        {
            let ghost prefix = self.pool@.subrange(0, i as int + 1);
            assert(prefix.drop_last() == self.pool@.subrange(0, i as int));
            if self.pool[i].runtime_type() == runtime_type {
                let ghost j = i as int;
                r.push(&self.pool[i]);
                assert(self.entries()[j] == *r@[r@.len() - 1]);
            }
            i = i + 1;
        }
        assert(self.pool@.subrange(0, self.pool@.len() as int) == self.pool@);
        r
    }
}

/// No entry of kind `t` means no ids of kind `t`.
pub proof fn lemma_no_kind_no_ids(s: Seq<Runtime>, t: RuntimeType)
    requires
        forall|i: int| 0 <= i < s.len() ==> (#[trigger] s[i]).kind() != t,
    ensures
        ids_of_kind(s, t) == Seq::<u16>::empty(),
    decreases s.len(),
{
    if s.len() > 0 {
        lemma_no_kind_no_ids(s.drop_last(), t);
    }
}

/// Taking an entry out and putting it back where its id belongs restores the pool.
pub proof fn lemma_reinsert(e: Seq<Runtime>, i: int, j: int)
    requires
        ascending_ids(e),
        0 <= i < e.len(),
        0 <= j <= e.len() - 1,
        forall|k: int| 0 <= k < j ==> #[trigger] e.remove(i)[k].id() < e[i].id(),
        forall|k: int| j <= k < e.len() - 1 ==> #[trigger] e.remove(i)[k].id() > e[i].id(),
    ensures
        e.remove(i).insert(j, e[i]) == e,
{
    let r = e.remove(i);
    if j < i {
        assert(r[j].id() > e[i].id());
        assert(r[j] == e[j]);
        assert(e[j].id() < e[i].id());
    } else if j > i {
        assert(r[j - 1].id() < e[i].id());
        assert(r[j - 1] == e[j]);
        assert(e[i].id() < e[j].id());
    }
    assert(r.insert(j, e[i]) =~= e);
}

/// Every entry of kind `t` has its id among the ids of that kind.
pub proof fn lemma_kind_in_ids(s: Seq<Runtime>, i: int, t: RuntimeType)
    requires
        0 <= i < s.len(),
        s[i].kind() == t,
    ensures
        ids_of_kind(s, t).contains(s[i].id()),
    decreases s.len(),
{
    if i == s.len() - 1 {
        assert(ids_of_kind(s, t).last() == s[i].id());
    } else {
        assert(s.drop_last()[i] == s[i]);
        lemma_kind_in_ids(s.drop_last(), i, t);
        let k = choose|k: int| 0 <= k < ids_of_kind(s.drop_last(), t).len() && ids_of_kind(s.drop_last(), t)[k] == s[i].id();
        if s.last().kind() == t {
            assert(ids_of_kind(s, t)[k] == s[i].id());
        }
    }
}

/// Removing the entry at `i` drops exactly its id, in a pool with ascending ids,
/// and keeps only entries that were there.
pub proof fn lemma_remove_has(e: Seq<Runtime>, i: int, x: u16)
    requires
        ascending_ids(e),
        0 <= i < e.len(),
    ensures
        crate::drain::held(e.remove(i), x) <==> (crate::drain::held(e, x) && x != e[i].id()),
        forall|j: int| 0 <= j < e.remove(i).len() ==> e.contains(#[trigger] e.remove(i)[j]),
{
    let r = e.remove(i);
    if crate::drain::held(r, x) {
        let j = choose|j: int| 0 <= j < r.len() && #[trigger] r[j].id() == x;
        if j < i {
            assert(r[j] == e[j]);
            assert(e[j].id() < e[i].id());
        } else {
            assert(r[j] == e[j + 1]);
            assert(e[i].id() < e[j + 1].id());
        }
    }
    if crate::drain::held(e, x) && x != e[i].id() {
        let j = choose|j: int| 0 <= j < e.len() && #[trigger] e[j].id() == x;
        if j < i {
            assert(r[j] == e[j]);
        } else {
            assert(j != i);
            assert(r[j - 1] == e[j]);
        }
    }
    assert forall|j: int| 0 <= j < r.len() implies e.contains(#[trigger] r[j]) by {
        if j < i {
            assert(e[j] == r[j]);
        } else {
            assert(e[j + 1] == r[j]);
        }
    }
}

} // verus!
