//! Runtime entities and the behaviour registry that cards and effects dispatch through.
use vstd::prelude::*;

use std::collections::BTreeMap;

use crate::card::Card;
use crate::card::CardName;
use crate::context::lemma_unchanged_grew;
use crate::drain::attack_out;
use crate::drain::effect_out;
use crate::drain::entity_out;
use crate::drain::entity_transform;
use crate::drain::out_view;
use crate::drain::view;
use crate::drain::views;
use crate::drain::SignalView;
use crate::context::only_queue_grew;
use crate::context::Context;
use crate::effect::Effect;
use crate::effect::EffectName;
use crate::enemy::Action;
use crate::enemy::Enemy;
use crate::enemy::WeightedAction;
use crate::error::Error;
use crate::player::Player;
use crate::runtime::Runtime;
use crate::runtime::RuntimeType;
use crate::signal::copy_ids;
use crate::signal::Signal;
use crate::signal::SignalName;
use crate::signal::SignalValue;

verus! {

pub struct CardRuntime {
    pub raw: Card,
    pub parent_runtime_id: u16,
    pub runtime_id: u16,
    pub cost: u8,
    pub exile: bool,
    pub awake: u8,
}

pub struct PlayerRuntime {
    pub raw: Player,
    pub runtime_id: u16,
    pub energy: u8,
    pub hp: u16,
    pub attack: u8,
    pub defense: u8,
    pub spirit: u8,
    pub block: u16,
    pub shield: u16,
    pub equipment_cards: Vec<u16>,
    pub sorcery_cards: Vec<u16>,
    pub handhold_cards: Vec<u16>,
    pub deck_cards: Vec<u16>,
    pub grave_cards: Vec<u16>,
    pub exile_cards: Vec<u16>,
    pub active_effects: Vec<u16>,
}

pub struct EnemyRuntime {
    pub raw: Enemy,
    pub runtime_id: u16,
    pub hp: u16,
    pub attack: u8,
    pub defense: u8,
    pub spirit: u8,
    pub block: u16,
    pub shield: u16,
    pub action_pool: Vec<WeightedAction>,
    pub active_actions: Vec<Action>,
    pub active_effects: Vec<u16>,
}

pub struct EffectRuntime {
    pub raw: Effect,
    pub runtime_id: u16,
    pub parent_runtime_id: u16,
    pub value: u8,
    pub countdown: u8,
}

pub struct PveBattleRuntime {
    pub enemies_action_flag: BTreeMap<u16, bool>,
    pub active_effects: Vec<u16>,
}

/// The signal plays this card, targets it, and comes from the card's owner.
pub open spec fn spelled_by_owner(signal: Signal, card: CardRuntime) -> bool {
    &&& signal.target_runtime_ids@.contains(card.runtime_id)
    &&& signal.name == SignalName::SpellCard
    &&& card.parent_runtime_id == signal.source_runtime_id
}

/// The guard that every card behaviour applies before it reacts.
pub fn spelled_from_player(signal: &Signal, card: &CardRuntime) -> (r: bool)
    ensures
        r == spelled_by_owner(*signal, *card),
{
    signal.is_target(card.runtime_id) && signal.name == SignalName::SpellCard
        && card.parent_runtime_id == signal.source_runtime_id
}

impl CardRuntime {
    /// Lets the card's behaviour react to a signal; what it emits joins the queue.
    pub fn run(&mut self, signal: &Signal, ctx: &mut Context) -> (r: Result<(), Error>)
        requires
            old(ctx).runtimes.wf(),
        ensures
            *final(self) == *old(self),
            only_queue_grew(*old(ctx), *final(ctx)),
            match attack_out(*old(self), view(*signal), old(ctx).runtimes.entries()) {
                Err(x) => r == Err::<(), Error>(x),
                Ok(o) => r is Ok && views(final(ctx).signals@) == views(old(ctx).signals@) + o,
            },
    {
        let implementation = CardFactory::create_implementation(&self.raw.name);
        match implementation.run(signal, self, ctx) {
            Ok(signals) => {
                let ghost before = ctx.signals@;
                let ghost added = signals@;
                ctx.signal_all(signals);
                assert(views(ctx.signals@) =~= views(before) + views(added));
                Ok(())
            },
            Err(e) => {
                proof {
                    lemma_unchanged_grew(*ctx);
                }
                Err(e)
            },
        }
    }

    /// The rolled attribute in slot `offset` (0 or 1).
    pub fn param_value(&self, offset: usize) -> (r: Result<u16, Error>)
        ensures
            offset == 0 ==> r == Ok::<u16, Error>(self.raw.value_0 as u16),
            offset == 1 ==> r == Ok::<u16, Error>(self.raw.value_1 as u16),
            offset > 1 ==> r == Err::<u16, Error>(Error::CardInvalidConfig(self.raw.name, offset)),
    {
        match offset {
            0 => Ok(self.raw.value_0 as u16),
            1 => Ok(self.raw.value_1 as u16),
            _ => Err(Error::CardInvalidConfig(self.raw.name, offset)),
        }
    }
}

/// Whether the pool holds an enemy under `id`.
pub open spec fn is_enemy_in(entries: Seq<Runtime>, id: u16) -> bool {
    exists|i: int| 0 <= i < entries.len() && entries[i].id() == id && entries[i] is Enemy
}

/// Deals the card's first attribute as damage to the single enemy it is played on.
pub struct Attack {}

impl Attack {
    pub fn run(&self, signal: &Signal, card: &CardRuntime, ctx: &Context) -> (r: Result<Vec<Signal>, Error>)
        requires
            ctx.runtimes.wf(),
        ensures
            !spelled_by_owner(*signal, *card) ==> (r matches Ok(v) && v@.len() == 0),
            spelled_by_owner(*signal, *card) && !(signal.value is RuntimeId) ==> r == Err::<Vec<Signal>, Error>(
                Error::CardInvalidImplementationSignal(card.raw.name),
            ),
            spelled_by_owner(*signal, *card) ==> (signal.value matches SignalValue::RuntimeId(e) ==> {
                &&& !ctx.runtimes.has(e) ==> r == Err::<Vec<Signal>, Error>(Error::RuntimeNotSet(e))
                &&& ctx.runtimes.has(e) && !is_enemy_in(ctx.runtimes.entries(), e) ==> r == Err::<
                    Vec<Signal>,
                    Error,
                >(Error::InvalidRuntimeType)
                &&& is_enemy_in(ctx.runtimes.entries(), e) ==> (r matches Ok(v) && v@.len() == 1 && {
                    let s = v@[0];
                    &&& s.name == SignalName::ChangeHp
                    &&& s.value == SignalValue::Negative(card.raw.value_0 as u16)
                    &&& !s.transformed
                    &&& s.source_runtime_id == card.runtime_id
                    &&& s.target_runtime_ids@ == seq![e]
                })
            }),
            out_view(r) == attack_out(*card, view(*signal), ctx.runtimes.entries()),
    {
        if !spelled_from_player(signal, card) {
            assert(views(Seq::<Signal>::empty()) =~= Seq::<SignalView>::empty());
            return Ok(Vec::new());
        }
        let enemy_runtime_id = match signal.value {
            SignalValue::RuntimeId(id) => id,
            _ => {
                return Err(Error::CardInvalidImplementationSignal(card.raw.name));
            },
        };
        let found = ctx.runtimes.get(&enemy_runtime_id)?;
        let enemy = match found.enemy() {
            Ok(enemy) => enemy,
            Err(e) => {
                proof {
                    if is_enemy_in(ctx.runtimes.entries(), enemy_runtime_id) {
                        let i = choose|i: int|
                            0 <= i < ctx.runtimes.entries().len() && ctx.runtimes.entries()[i].id()
                                == enemy_runtime_id && ctx.runtimes.entries()[i] is Enemy;
                        let j = choose|j: int|
                            0 <= j < ctx.runtimes.entries().len() && ctx.runtimes.entries()[j] == *found;
                        if i < j {
                            assert(ctx.runtimes.entries()[i].id() < ctx.runtimes.entries()[j].id());
                        } else if j < i {
                            assert(ctx.runtimes.entries()[j].id() < ctx.runtimes.entries()[i].id());
                        }
                    }
                }
                return Err(e);
            },
        };
        let damage = card.param_value(0)?;
        let mut targets: Vec<u16> = Vec::new();
        targets.push(enemy.runtime_id);
        let mut out: Vec<Signal> = Vec::new();
        out.push(
            Signal {
                name: SignalName::ChangeHp,
                value: SignalValue::Negative(damage),
                transformed: false,
                source_runtime_id: card.runtime_id,
                target_runtime_ids: targets,
            },
        );
        assert(out@[0].target_runtime_ids@ =~= seq![enemy_runtime_id]);
        assert(views(out@) =~= seq![view(out@[0])]);
        Ok(out)
    }
}

/// The behaviours that cards can have, one per card name.
pub enum CardImplementation {
    Attack(Attack),
}

impl CardImplementation {
    pub fn run(&self, signal: &Signal, card: &CardRuntime, ctx: &Context) -> (r: Result<Vec<Signal>, Error>)
        requires
            ctx.runtimes.wf(),
        ensures
            *self is Attack ==> out_view(r) == attack_out(*card, view(*signal), ctx.runtimes.entries()),
    {
        match self {
            CardImplementation::Attack(attack) => attack.run(signal, card, ctx),
        }
    }
}

pub struct CardFactory {}

impl CardFactory {
    /// The behaviour registered for a card name.
    pub fn create_implementation(card_name: &CardName) -> (r: CardImplementation)
        ensures
            *card_name == CardName::Attack ==> r == CardImplementation::Attack(Attack {}),
    {
        match card_name {
            CardName::Attack => CardImplementation::Attack(Attack {}),
        }
    }
}

/// The value of `damage + extra`, held at the largest `u16`.
pub open spec fn saturated_sum(damage: u16, extra: u8) -> u16 {
    if damage + extra > u16::MAX {
        u16::MAX
    } else {
        (damage + extra) as u16
    }
}

/// The reaction of an effect that does nothing.
pub fn _default_run(_signal: &Signal, _effect: &EffectRuntime) -> (r: Result<Vec<Signal>, Error>)
    ensures
        r matches Ok(v) && v@.len() == 0,
{
    Ok(Vec::new())
}

/// Hands on the signals that a feature produced in place of the one it saw.
pub fn default_transform(
    signals: Vec<Signal>,
    _signal: &Signal,
    _effect: &EffectRuntime,
    _ctx: &Context,
) -> (r: Result<Vec<Signal>, Error>)
    ensures
        r matches Ok(v) && v@ == signals@,
{
    Ok(signals)
}

/// Adds the effect's value to the damage of every hit it sees.
pub struct ExtraDamage {}

impl ExtraDamage {
    pub fn transform(&self, signal: &Signal, effect: &EffectRuntime, ctx: &Context) -> (r: Result<
        Vec<Signal>,
        Error,
    >)
        ensures
            (signal.name != SignalName::ChangeHp || !(signal.value is Negative)) ==> (r matches Ok(v)
                && v@.len() == 0),
            signal.name == SignalName::ChangeHp ==> (signal.value matches SignalValue::Negative(d) ==> (r matches Ok(v)
                && v@.len() == 1 && {
                let s = v@[0];
                &&& s.name == SignalName::ChangeHp
                &&& s.value == SignalValue::Negative(saturated_sum(d, effect.value))
                &&& s.transformed
                &&& s.source_runtime_id == effect.runtime_id
                &&& s.target_runtime_ids@ == signal.target_runtime_ids@
            })),
            out_view(r) == Ok::<Seq<SignalView>, Error>(effect_out(*effect, view(*signal))),
    {
        assert(views(Seq::<Signal>::empty()) =~= Seq::<SignalView>::empty());
        if signal.name != SignalName::ChangeHp {
            return Ok(Vec::new());
        }
        let damage = match signal.value {
            SignalValue::Negative(damage) => damage,
            _ => {
                return Ok(Vec::new());
            },
        };
        let damage = if damage as u32 + effect.value as u32 > u16::MAX as u32 {
            u16::MAX
        } else {
            damage + effect.value as u16
        };
        let mut out: Vec<Signal> = Vec::new();
        out.push(
            Signal {
                name: SignalName::ChangeHp,
                value: SignalValue::Negative(damage),
                transformed: true,
                source_runtime_id: effect.runtime_id,
                target_runtime_ids: copy_ids(&signal.target_runtime_ids),
            },
        );
        assert(views(out@) =~= seq![view(out@[0])]);
        default_transform(out, signal, effect, ctx)
    }
}

/// The features that effects can have, one per effect name.
pub enum EffectFeature {
    ExtraDamage(ExtraDamage),
}

pub struct EffectFactory {}

impl EffectFactory {
    /// The feature registered for an effect name.
    pub fn create_feature(effect_name: &EffectName) -> (r: EffectFeature)
        ensures
            *effect_name == EffectName::ExtraDamage ==> r == EffectFeature::ExtraDamage(ExtraDamage {}),
    {
        match effect_name {
            EffectName::ExtraDamage => EffectFeature::ExtraDamage(ExtraDamage {}),
        }
    }
}

impl EffectRuntime {
    pub fn run(&mut self, _signal: &Signal, _ctx: &mut Context) -> (r: Result<(), Error>)
        ensures
            *final(self) == *old(self),
            *final(_ctx) == *old(_ctx),
            r is Ok,
    {
        Ok(())
    }

    /// Lets the effect's feature replace a signal by zero or more others.
    pub fn transform(&self, signal: &Signal, ctx: &Context) -> (r: Result<Vec<Signal>, Error>)
        ensures
            out_view(r) == Ok::<Seq<SignalView>, Error>(effect_out(*self, view(*signal))),
    {
        match EffectFactory::create_feature(&self.raw.name) {
            EffectFeature::ExtraDamage(feature) => feature.transform(signal, self, ctx),
        }
    }
}

impl EnemyRuntime {
    pub fn run(&mut self, _signal: &Signal, _ctx: &mut Context) -> (r: Result<(), Error>)
        ensures
            *final(self) == *old(self),
            *final(_ctx) == *old(_ctx),
            r is Ok,
    {
        Ok(())
    }
}

impl PlayerRuntime {
    pub fn run(&mut self, _signal: &Signal, _ctx: &mut Context) -> (r: Result<(), Error>)
        ensures
            *final(self) == *old(self),
            *final(_ctx) == *old(_ctx),
            r is Ok,
    {
        Ok(())
    }
}

impl PveBattleRuntime {
    pub fn run(&mut self, _signal: &Signal, _ctx: &mut Context) -> (r: Result<(), Error>)
        ensures
            *final(self) == *old(self),
            *final(_ctx) == *old(_ctx),
            r is Ok,
    {
        Ok(())
    }
}

impl Runtime {
    /// Delivers a signal to the entity.
    pub fn run(&mut self, signal: &Signal, ctx: &mut Context) -> (r: Result<(), Error>)
        requires
            old(ctx).runtimes.wf(),
        ensures
            *final(self) == *old(self),
            only_queue_grew(*old(ctx), *final(ctx)),
            !(*old(self) is Card) ==> *final(ctx) == *old(ctx) && r is Ok,
            match entity_out(*old(self), view(*signal), old(ctx).runtimes.entries()) {
                Err(x) => r == Err::<(), Error>(x),
                Ok(o) => r is Ok && views(final(ctx).signals@) == views(old(ctx).signals@) + o,
            },
    {
        proof {
            lemma_unchanged_grew(*ctx);
        }
        match self {
            Runtime::Effect(v) => v.run(signal, ctx),
            Runtime::Player(v) => v.run(signal, ctx),
            Runtime::Card(v) => v.run(signal, ctx),
            Runtime::Enemy(v) => v.run(signal, ctx),
            Runtime::PveBattle(v) => v.run(signal, ctx),
        }
    }

    /// Lets an effect entity rewrite a signal; other entities cannot.
    pub fn transform(&self, signal: &Signal, ctx: &Context) -> (r: Result<Vec<Signal>, Error>)
        ensures
            !(*self is Effect) ==> r == Err::<Vec<Signal>, Error>(Error::TransformOnlyForEffect),
            out_view(r) == entity_transform(*self, view(*signal)),
    {
        match self {
            Runtime::Effect(v) => v.transform(signal, ctx),
            _ => Err(Error::TransformOnlyForEffect),
        }
    }
}

} // verus!
