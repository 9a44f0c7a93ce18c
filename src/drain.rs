//! The signal loop as a function on values: what a drain of the queue
//! records, in order, for a given pool, queue and step budget.
use vstd::prelude::*;

use crate::card::Card;
use crate::dna::DNA;
use crate::effect::Effect;
use crate::enemy::EnemyLevel;
use crate::entity::is_enemy_in;
use crate::entity::saturated_sum;
use crate::entity::CardRuntime;
use crate::entity::EffectRuntime;
use crate::error::Error;
use crate::player::Player;
use crate::runtime::ids_of_kind;
use crate::runtime::Runtime;
use crate::runtime::RuntimeType;
use crate::runtime::BATTLE_RUNTIME_ID;
use crate::runtime::PLAYER_RUNTIME_ID;
use crate::runtime::SYSTEM_RUNTIME_ID;
use crate::signal::Signal;
use crate::signal::SignalName;
use crate::signal::SignalValue;

verus! {

/// A signal payload as values.
pub enum ValueView {
    RuntimeIdArray(Seq<u16>),
    RuntimeId(u16),
    Positive(u16),
    Negative(u16),
    Effect(Effect),
    EnemyLevel(EnemyLevel, u8),
    Player(Player, u16, Seq<DNA>),
    Card(Card),
    Empty,
}

/// A signal as values.
pub struct SignalView {
    pub name: SignalName,
    pub value: ValueView,
    pub transformed: bool,
    pub source: u16,
    pub targets: Seq<u16>,
}

pub open spec fn value_view(v: SignalValue) -> ValueView {
    match v {
        SignalValue::RuntimeIdArray(ids) => ValueView::RuntimeIdArray(ids@),
        SignalValue::RuntimeId(id) => ValueView::RuntimeId(id),
        SignalValue::Positive(x) => ValueView::Positive(x),
        SignalValue::Negative(x) => ValueView::Negative(x),
        SignalValue::Effect(e) => ValueView::Effect(e),
        SignalValue::EnemyLevel(l, x) => ValueView::EnemyLevel(l, x),
        SignalValue::Player(p, ap, d) => ValueView::Player(p, ap, d@),
        SignalValue::Card(c) => ValueView::Card(c),
        SignalValue::Empty => ValueView::Empty,
    }
}

pub open spec fn view(s: Signal) -> SignalView {
    SignalView {
        name: s.name,
        value: value_view(s.value),
        transformed: s.transformed,
        source: s.source_runtime_id,
        targets: s.target_runtime_ids@,
    }
}

pub open spec fn views(q: Seq<Signal>) -> Seq<SignalView> {
    q.map_values(|s: Signal| view(s))
}

pub open spec fn out_view(r: Result<Vec<Signal>, Error>) -> Result<Seq<SignalView>, Error> {
    match r {
        Ok(v) => Ok(views(v@)),
        Err(e) => Err(e),
    }
}

/// Whether the pool holds an entity under `id`.
pub open spec fn held(e: Seq<Runtime>, id: u16) -> bool {
    exists|i: int| 0 <= i < e.len() && #[trigger] e[i].id() == id
}

/// Where the pool holds `id`.
pub open spec fn index_of(e: Seq<Runtime>, id: u16) -> int {
    choose|i: int| 0 <= i < e.len() && #[trigger] e[i].id() == id
}

/// What the attack card emits for a signal, with `e` the pool without the card.
pub open spec fn attack_out(c: CardRuntime, s: SignalView, e: Seq<Runtime>) -> Result<Seq<SignalView>, Error> {
    if !(s.targets.contains(c.runtime_id) && s.name == SignalName::SpellCard && c.parent_runtime_id == s.source) {
        Ok(Seq::empty())
    } else {
        match s.value {
            ValueView::RuntimeId(t) => if !held(e, t) {
                Err(Error::RuntimeNotSet(t))
            } else if !is_enemy_in(e, t) {
                Err(Error::InvalidRuntimeType)
            } else {
                Ok(
                    seq![
                        SignalView {
                            name: SignalName::ChangeHp,
                            value: ValueView::Negative(c.raw.value_0 as u16),
                            transformed: false,
                            source: c.runtime_id,
                            targets: seq![t],
                        },
                    ],
                )
            },
            _ => Err(Error::CardInvalidImplementationSignal(c.raw.name)),
        }
    }
}

/// What the extra-damage effect puts in place of a signal.
pub open spec fn effect_out(f: EffectRuntime, s: SignalView) -> Seq<SignalView> {
    match s.value {
        ValueView::Negative(d) => if s.name == SignalName::ChangeHp {
            seq![
                SignalView {
                    name: SignalName::ChangeHp,
                    value: ValueView::Negative(saturated_sum(d, f.value)),
                    transformed: true,
                    source: f.runtime_id,
                    targets: s.targets,
                },
            ]
        } else {
            Seq::empty()
        },
        _ => Seq::empty(),
    }
}

/// What an entity emits when a signal reaches it; `rest` is the pool without it.
pub open spec fn entity_out(r: Runtime, s: SignalView, rest: Seq<Runtime>) -> Result<Seq<SignalView>, Error> {
    match r {
        Runtime::Card(c) => attack_out(c, s, rest),
        _ => Ok(Seq::empty()),
    }
}

/// What an entity puts in place of a signal; only effects may.
pub open spec fn entity_transform(r: Runtime, s: SignalView) -> Result<Seq<SignalView>, Error> {
    match r {
        Runtime::Effect(f) => Ok(effect_out(f, s)),
        _ => Err(Error::TransformOnlyForEffect),
    }
}

/// The replacements of a signal by the entities under `ids`, in that order.
pub open spec fn transform_out(e: Seq<Runtime>, ids: Seq<u16>, s: SignalView) -> Result<Seq<SignalView>, Error>
    decreases ids.len(),
{
    if ids.len() == 0 {
        Ok(Seq::empty())
    } else if !held(e, ids[0]) {
        Err(Error::RuntimeNotSet(ids[0]))
    } else {
        match entity_transform(e[index_of(e, ids[0])], s) {
            Err(x) => Err(x),
            Ok(o) => match transform_out(e, ids.drop_first(), s) {
                Err(x) => Err(x),
                Ok(o2) => Ok(o + o2),
            },
        }
    }
}

/// The order of delivery: cards, enemies, effects (each by ascending id), then
/// the battle, the player and the system.
pub open spec fn delivery_ids(e: Seq<Runtime>) -> Seq<u16> {
    ids_of_kind(e, RuntimeType::Card) + ids_of_kind(e, RuntimeType::Enemy) + ids_of_kind(e, RuntimeType::Effect)
        + seq![BATTLE_RUNTIME_ID, PLAYER_RUNTIME_ID, SYSTEM_RUNTIME_ID]
}

/// What the entity under `id` emits when a signal reaches it; nothing for the
/// system or for an id that the pool does not hold.
pub open spec fn deliver_to(e: Seq<Runtime>, id: u16, s: SignalView) -> Result<Seq<SignalView>, Error> {
    if id == SYSTEM_RUNTIME_ID || !held(e, id) {
        Ok(Seq::empty())
    } else {
        entity_out(e[index_of(e, id)], s, e.remove(index_of(e, id)))
    }
}

/// What the entities under `ids` emit, in that order, when a signal reaches them;
/// an id that the pool does not hold is passed over.
pub open spec fn deliver_out(e: Seq<Runtime>, ids: Seq<u16>, s: SignalView) -> Result<Seq<SignalView>, Error>
    decreases ids.len(),
{
    if ids.len() == 0 {
        Ok(Seq::empty())
    } else {
        match deliver_to(e, ids[0], s) {
            Err(x) => Err(x),
            Ok(o) => match deliver_out(e, ids.drop_first(), s) {
                Err(x) => Err(x),
                Ok(o2) => Ok(o + o2),
            },
        }
    }
}

/// Drains a queue for a pool with at most `fuel` more signals handled: pops the
/// head; if not yet transformed, the effects (ascending id) may replace it,
/// their replacements joining the tail; otherwise, unless it is a skip, it is
/// recorded and delivered, and what it provokes joins the tail. The result is
/// the recorded signals, in order.
pub open spec fn drain(e: Seq<Runtime>, q: Seq<SignalView>, fuel: nat) -> Result<Seq<SignalView>, Error>
    decreases fuel,
{
    if q.len() == 0 {
        Ok(Seq::empty())
    } else if fuel == 0 {
        Err(Error::SystemSignalLimitExceeded)
    } else {
        let head = q[0];
        let rest = q.drop_first();
        let replaced = if head.transformed {
            Ok(Seq::<SignalView>::empty())
        } else {
            transform_out(e, ids_of_kind(e, RuntimeType::Effect), head)
        };
        match replaced {
            Err(x) => Err(x),
            Ok(outs) => if outs.len() > 0 {
                drain(e, rest + outs, (fuel - 1) as nat)
            } else {
                let s = SignalView { transformed: true, ..head };
                if s.name == SignalName::Skip {
                    drain(e, rest, (fuel - 1) as nat)
                } else {
                    match deliver_out(e, delivery_ids(e), s) {
                        Err(x) => Err(x),
                        Ok(o) => match drain(e, rest + o, (fuel - 1) as nat) {
                            Err(x) => Err(x),
                            Ok(h) => Ok(seq![s] + h),
                        },
                    }
                }
            },
        }
    }
}

/// The recorded signals of one round, as values.
pub open spec fn round_history(h: Map<u8, Vec<Signal>>, round: u8) -> Seq<SignalView> {
    if h.contains_key(round) {
        views(h[round]@)
    } else {
        Seq::empty()
    }
}

/// Prepends what was already recorded to a drain's outcome.
pub open spec fn after(done: Seq<SignalView>, r: Result<Seq<SignalView>, Error>) -> Result<Seq<SignalView>, Error> {
    match r {
        Ok(h) => Ok(done + h),
        Err(x) => Err(x),
    }
}

/// In a pool with ascending ids, the index of an entry's id is that entry's index.
pub proof fn lemma_index_of(e: Seq<Runtime>, i: int)
    requires
        crate::runtime::ascending_ids(e),
        0 <= i < e.len(),
    ensures
        held(e, e[i].id()),
        index_of(e, e[i].id()) == i,
{
    let j = index_of(e, e[i].id());
    if j < i {
        assert(e[j].id() < e[i].id());
    } else if j > i {
        assert(e[i].id() < e[j].id());
    }
}

/// Copies carry the same view.
pub proof fn lemma_same_view(a: Signal, b: Signal)
    requires
        crate::signal::same_signal(a, b),
    ensures
        view(a) == view(b),
{
}

/// With no cards in the pool, delivering a signal provokes nothing.
pub proof fn lemma_no_cards_no_output(e: Seq<Runtime>, ids: Seq<u16>, s: SignalView)
    requires
        forall|i: int| 0 <= i < e.len() ==> !((#[trigger] e[i]) is Card),
    ensures
        deliver_out(e, ids, s) == Ok::<Seq<SignalView>, Error>(Seq::empty()),
    decreases ids.len(),
{
    if ids.len() > 0 {
        lemma_no_cards_no_output(e, ids.drop_first(), s);
        if ids[0] != SYSTEM_RUNTIME_ID && held(e, ids[0]) {
            let i = index_of(e, ids[0]);
            assert(!(e[i] is Card));
        }
        assert(Seq::<SignalView>::empty() + Seq::<SignalView>::empty() =~= Seq::<SignalView>::empty());
    }
}

/// Two effects that both react to a hit apply in ascending id order: with no
/// cards in the pool and effects under ids `a < b` only, draining one hit not
/// yet transformed records the replacement of `a`, then that of `b`, and
/// nothing else; the hit itself is neither recorded nor delivered.
pub proof fn lemma_effects_in_id_order(e: Seq<Runtime>, s: SignalView, a: u16, b: u16, fuel: nat)
    requires
        forall|i: int| 0 <= i < e.len() ==> !((#[trigger] e[i]) is Card),
        ids_of_kind(e, RuntimeType::Effect) == seq![a, b],
        a < b,
        held(e, a),
        held(e, b),
        e[index_of(e, a)] is Effect,
        e[index_of(e, b)] is Effect,
        !s.transformed,
        s.name == SignalName::ChangeHp,
        s.value is Negative,
        fuel >= 3,
    ensures
        drain(e, seq![s], fuel) == Ok::<Seq<SignalView>, Error>(
            effect_out(e[index_of(e, a)]->Effect_0, s) + effect_out(e[index_of(e, b)]->Effect_0, s),
        ),
        effect_out(e[index_of(e, a)]->Effect_0, s).len() == 1,
        effect_out(e[index_of(e, b)]->Effect_0, s).len() == 1,
        effect_out(e[index_of(e, a)]->Effect_0, s)[0].source == e[index_of(e, a)]->Effect_0.runtime_id,
{
    let fa = e[index_of(e, a)]->Effect_0;
    let fb = e[index_of(e, b)]->Effect_0;
    let oa = effect_out(fa, s);
    let ob = effect_out(fb, s);
    let ids = seq![a, b];
    assert(ids.drop_first() =~= seq![b]);
    assert(seq![b].drop_first() =~= Seq::<u16>::empty());
    assert(seq![b][0] == b);
    assert(ids[0] == a);
    assert(transform_out(e, Seq::<u16>::empty(), s) == Ok::<Seq<SignalView>, Error>(Seq::empty()));
    assert(entity_transform(e[index_of(e, b)], s) == Ok::<Seq<SignalView>, Error>(ob));
    assert(entity_transform(e[index_of(e, a)], s) == Ok::<Seq<SignalView>, Error>(oa));
    assert(transform_out(e, seq![b], s) == Ok::<Seq<SignalView>, Error>(ob + Seq::<SignalView>::empty()));
    assert(ob + Seq::<SignalView>::empty() =~= ob);
    assert(transform_out(e, ids, s) == Ok::<Seq<SignalView>, Error>(oa + ob));
    let q1 = seq![s].drop_first() + (oa + ob);
    assert(q1 =~= seq![oa[0], ob[0]]);
    assert(drain(e, seq![s], fuel) == drain(e, q1, (fuel - 1) as nat));
    lemma_no_cards_no_output(e, delivery_ids(e), oa[0]);
    lemma_no_cards_no_output(e, delivery_ids(e), ob[0]);
    assert(SignalView { transformed: true, ..oa[0] } == oa[0]);
    assert(SignalView { transformed: true, ..ob[0] } == ob[0]);
    let q2 = q1.drop_first() + Seq::<SignalView>::empty();
    assert(q2 =~= seq![ob[0]]);
    let q3 = q2.drop_first() + Seq::<SignalView>::empty();
    assert(q3 =~= Seq::<SignalView>::empty());
    assert(drain(e, q3, (fuel - 3) as nat) == Ok::<Seq<SignalView>, Error>(Seq::empty()));
    assert(drain(e, q2, (fuel - 2) as nat) == Ok::<Seq<SignalView>, Error>(seq![ob[0]] + Seq::<SignalView>::empty()));
    assert(seq![ob[0]] + Seq::<SignalView>::empty() =~= seq![ob[0]]);
    assert(drain(e, q1, (fuel - 1) as nat) == Ok::<Seq<SignalView>, Error>(seq![oa[0]] + seq![ob[0]]));
    assert(seq![oa[0]] + seq![ob[0]] =~= oa + ob);
}

} // verus!
