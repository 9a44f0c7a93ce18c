//! The session engine: player operations, each driving the signal loop to a fixed point.
use vstd::prelude::*;

use crate::context::Context;
use crate::context::GameStatistics;
use crate::dna::copy_dnas;
use crate::dna::DNA;
use crate::enemy::EnemyLevel;
use crate::entity::PlayerRuntime;
use crate::entity::PveBattleRuntime;
use crate::error::Error;
use crate::log::Log;
use crate::log::LogName;
use crate::operation::GameOperation;
use crate::player::roulette_player;
use crate::player::rolled_from_pool;
use crate::player::Player;
use crate::player::PlayerConfig;
use crate::player::PlayerPool;
use crate::rng::scramble;
use crate::rng::xorshift;
use crate::drain::after;
use crate::drain::deliver_out;
use crate::drain::delivery_ids;
use crate::drain::drain;
use crate::drain::transform_out;
use crate::drain::view;
use crate::drain::views;
use crate::drain::SignalView;
use crate::runtime::ids_of_kind;
use crate::runtime::Runtime;
use crate::runtime::RuntimePool;
use crate::runtime::RuntimeType;
use crate::runtime::BATTLE_RUNTIME_ID;
use crate::runtime::PLAYER_RUNTIME_ID;
use crate::runtime::SYSTEM_RUNTIME_ID;
use crate::signal::copy_ids;
use crate::signal::Signal;
use crate::signal::SignalName;
use crate::signal::SignalValue;

verus! {

/// Most signals that one drain of the queue may handle.
pub const MAX_SIGNAL_STEPS: u32 = 4096;

#[derive(Clone, Copy, PartialEq, Eq, Structural, Debug)]
pub enum CardSelectionSource {
    NoSelection,
    Deck,
    Loot,
    Grave,
    Exile,
    Hand,
}

/// A pending request for the player to pick cards from a zone.
#[derive(Clone, Copy, PartialEq, Eq, Structural, Debug)]
pub struct CardSelection {
    pub source: CardSelectionSource,
    pub source_runtime_id: u16,
    pub count: usize,
}

impl CardSelection {
    pub open spec fn none() -> CardSelection {
        CardSelection { source: CardSelectionSource::NoSelection, source_runtime_id: SYSTEM_RUNTIME_ID, count: 0 }
    }

    /// Whether the selection blocks other operations (loot counts only if asked).
    pub open spec fn waits(self, include_loot: bool) -> bool {
        if include_loot {
            self.source != CardSelectionSource::NoSelection
        } else {
            self.source == CardSelectionSource::Deck || self.source == CardSelectionSource::Exile
                || self.source == CardSelectionSource::Grave || self.source == CardSelectionSource::Hand
        }
    }

    /// The zone that a selection signal names, if it names one.
    pub open spec fn source_of(name: SignalName) -> Option<CardSelectionSource> {
        match name {
            SignalName::SelectCardFromDeck => Some(CardSelectionSource::Deck),
            SignalName::SelectCardFromLoot => Some(CardSelectionSource::Loot),
            SignalName::SelectCardFromGrave => Some(CardSelectionSource::Grave),
            SignalName::SelectCardFromExile => Some(CardSelectionSource::Exile),
            SignalName::SelectCardFromHand => Some(CardSelectionSource::Hand),
            _ => None,
        }
    }

    /// The selection signal that answers a selection from a zone.
    pub open spec fn name_of(source: CardSelectionSource) -> Option<SignalName> {
        match source {
            CardSelectionSource::Deck => Some(SignalName::SelectCardFromDeck),
            CardSelectionSource::Loot => Some(SignalName::SelectCardFromLoot),
            CardSelectionSource::Grave => Some(SignalName::SelectCardFromGrave),
            CardSelectionSource::Exile => Some(SignalName::SelectCardFromExile),
            CardSelectionSource::Hand => Some(SignalName::SelectCardFromHand),
            CardSelectionSource::NoSelection => None,
        }
    }

    pub fn default() -> (r: Self)
        ensures
            r == CardSelection::none(),
    {
        CardSelection { source: CardSelectionSource::NoSelection, source_runtime_id: SYSTEM_RUNTIME_ID, count: 0 }
    }

    pub fn from_signal(signal: &Signal) -> (r: Result<Self, Error>)
        ensures
            (CardSelection::source_of(signal.name) is None || !(signal.value is Positive)) ==> r
                == Err::<CardSelection, Error>(Error::SystemInvalidCardSelection),
            CardSelection::source_of(signal.name) matches Some(source) ==> (signal.value matches SignalValue::Positive(
                count,
            ) ==> r == Ok::<CardSelection, Error>(
                CardSelection { source, source_runtime_id: signal.source_runtime_id, count: count as usize },
            )),
    {
        let source = match signal.name {
            SignalName::SelectCardFromDeck => CardSelectionSource::Deck,
            SignalName::SelectCardFromLoot => CardSelectionSource::Loot,
            SignalName::SelectCardFromGrave => CardSelectionSource::Grave,
            SignalName::SelectCardFromExile => CardSelectionSource::Exile,
            SignalName::SelectCardFromHand => CardSelectionSource::Hand,
            _ => {
                return Err(Error::SystemInvalidCardSelection);
            },
        };
        let count = match signal.value {
            SignalValue::Positive(count) => count,
            _ => {
                return Err(Error::SystemInvalidCardSelection);
            },
        };
        Ok(Self { source, source_runtime_id: signal.source_runtime_id, count: count as usize })
    }

    pub fn wait_selection(&self, include_loot: bool) -> (r: bool)
        ensures
            r == self.waits(include_loot),
    {
        if include_loot {
            !matches!(self.source, CardSelectionSource::NoSelection)
        } else {
            matches!(
                self.source,
                CardSelectionSource::Deck | CardSelectionSource::Exile | CardSelectionSource::Grave
                    | CardSelectionSource::Hand
            )
        }
    }

    /// The signal that hands the chosen ids back to whoever asked for them.
    pub fn to_signal(self, runtime_ids: Vec<u16>) -> (r: Result<Signal, Error>)
        ensures
            CardSelection::name_of(self.source) is None ==> r == Err::<Signal, Error>(
                Error::SystemInvalidCardSelection,
            ),
            CardSelection::name_of(self.source) matches Some(name) ==> (r matches Ok(s) && {
                &&& s.name == name
                &&& s.value == SignalValue::RuntimeIdArray(runtime_ids)
                &&& !s.transformed
                &&& s.source_runtime_id == SYSTEM_RUNTIME_ID
                &&& s.target_runtime_ids@ == seq![self.source_runtime_id]
            }),
    {
        let name = match self.source {
            CardSelectionSource::Deck => SignalName::SelectCardFromDeck,
            CardSelectionSource::Loot => SignalName::SelectCardFromLoot,
            CardSelectionSource::Grave => SignalName::SelectCardFromGrave,
            CardSelectionSource::Exile => SignalName::SelectCardFromExile,
            CardSelectionSource::Hand => SignalName::SelectCardFromHand,
            CardSelectionSource::NoSelection => {
                return Err(Error::SystemInvalidCardSelection);
            },
        };
        let mut targets: Vec<u16> = Vec::new();
        targets.push(self.source_runtime_id);
        assert(targets@ =~= seq![self.source_runtime_id]);
        Ok(
            Signal {
                name,
                value: SignalValue::RuntimeIdArray(runtime_ids),
                transformed: false,
                source_runtime_id: SYSTEM_RUNTIME_ID,
                target_runtime_ids: targets,
            },
        )
    }
}

/// The pool holds `p` as its player entity.
pub open spec fn holds_player(pool: RuntimePool, p: PlayerRuntime) -> bool {
    exists|i: int|
        0 <= i < pool.entries().len() && pool.entries()[i] == Runtime::Player(p) && p.runtime_id
            == PLAYER_RUNTIME_ID
}

/// Whether the pool's entity under the player id is a player.
pub open spec fn player_present(pool: RuntimePool) -> bool {
    exists|p: PlayerRuntime| holds_player(pool, p)
}

/// Only player and battle entities are in the pool, the player under the player id.
pub open spec fn only_player_and_battle(e: Seq<Runtime>) -> bool {
    forall|i: int|
        0 <= i < e.len() ==> ((#[trigger] e[i]) is Player && e[i].id() == PLAYER_RUNTIME_ID) || e[i] is PveBattle
}

/// Two contexts agree on everything but the signal history and the queue.
pub open spec fn same_state(a: Context, b: Context) -> bool {
    &&& a.rng == b.rng
    &&& a.statistics == b.statistics
    &&& a.runtimes.entries() == b.runtimes.entries()
    &&& a.battle_level == b.battle_level
    &&& a.current_battle_round == b.current_battle_round
    &&& a.delete_runtime_history@ == b.delete_runtime_history@
}

/// What a replay has built up, in a state where no entity reacts to signals:
/// the generator, action points, statistics, the pending selection, the player
/// (if the game started) and whether a battle entity exists.
#[derive(Clone, Copy, PartialEq, Eq, Structural, Debug)]
pub struct SessionSummary {
    pub rng: u64,
    pub action_point: u16,
    pub statistics: GameStatistics,
    pub selection: CardSelection,
    pub player: Option<Player>,
    pub battle: bool,
}

/// The rolled player held in a pool of players and battles, if any.
pub open spec fn player_of(e: Seq<Runtime>) -> Option<Player> {
    if exists|i: int| 0 <= i < e.len() && (#[trigger] e[i]) is Player {
        let i = choose|i: int| 0 <= i < e.len() && (#[trigger] e[i]) is Player;
        Some(e[i]->Player_0.raw)
    } else {
        None
    }
}

/// The player of such a pool is the one at any player entry.
pub proof fn lemma_player_of(e: Seq<Runtime>, i: int)
    requires
        crate::runtime::ascending_ids(e),
        only_player_and_battle(e),
        0 <= i < e.len(),
        e[i] is Player,
    ensures
        player_of(e) == Some(e[i]->Player_0.raw),
{
    let k = choose|k: int| 0 <= k < e.len() && (#[trigger] e[k]) is Player;
    if k < i {
        assert(e[k].id() < e[i].id());
    } else if k > i {
        assert(e[i].id() < e[k].id());
    }
}

/// The outcome that an operation has on a summary.
pub open spec fn settles(new: PveSystemRuntime, r: Result<(), Error>, outcome: Result<SessionSummary, Error>, t: Seq<PlayerConfig>) -> bool {
    match outcome {
        Ok(s) => r is Ok && new.plain() && new.summary() == s && new.templates() == t,
        Err(e) => r == Err::<(), Error>(e),
    }
}

pub open spec fn start_game_outcome(t: Seq<PlayerConfig>, s: SessionSummary, level: u8, action_point: u16) -> Result<SessionSummary, Error> {
    if s.selection.waits(false) {
        Err(Error::SystemCardSelectionWait)
    } else if s.player is Some {
        Err(Error::PlayerExisted)
    } else {
        match rolled_from_pool(t, level, scramble(xorshift(s.rng))) {
            None => Err(Error::PlayerLevelNotFound(level)),
            Some(p) => Ok(SessionSummary { rng: xorshift(s.rng), action_point, player: Some(p), ..s }),
        }
    }
}

pub open spec fn start_battle_outcome(s: SessionSummary, level: EnemyLevel) -> Result<SessionSummary, Error> {
    if s.selection.waits(false) {
        Err(Error::SystemCardSelectionWait)
    } else {
        Ok(SessionSummary { statistics: counted_battle(s.statistics, level), battle: true, ..s })
    }
}

pub open spec fn round_over_outcome(s: SessionSummary) -> Result<SessionSummary, Error> {
    if s.selection.waits(false) {
        Err(Error::SystemCardSelectionWait)
    } else {
        Ok(s)
    }
}

pub open spec fn spell_card_outcome(s: SessionSummary, card: u16) -> Result<SessionSummary, Error> {
    if s.selection.waits(false) {
        Err(Error::SystemCardSelectionWait)
    } else if !((card == PLAYER_RUNTIME_ID && s.player is Some) || (card == BATTLE_RUNTIME_ID && s.battle)) {
        Err(Error::RuntimeNotSet(card))
    } else {
        Ok(s)
    }
}

pub open spec fn select_card_outcome(s: SessionSummary, n: nat) -> Result<SessionSummary, Error> {
    if !s.selection.waits(true) {
        Err(Error::SystemCardSelectionNotWait)
    } else if s.selection.count < n {
        Err(Error::SystemCardSelectionExceeded)
    } else {
        Ok(SessionSummary { selection: CardSelection::none(), ..s })
    }
}

pub open spec fn heal_hp_outcome(s: SessionSummary) -> Result<SessionSummary, Error> {
    if s.selection.waits(false) {
        Err(Error::SystemCardSelectionWait)
    } else {
        match s.player {
            None => Err(Error::RuntimeNotSet(PLAYER_RUNTIME_ID)),
            Some(p) => if s.action_point < p.heal_action_point {
                Err(Error::SystemInsufficientActionPoint)
            } else {
                Ok(SessionSummary { action_point: (s.action_point - p.heal_action_point) as u16, ..s })
            },
        }
    }
}

pub open spec fn destroy_card_outcome(s: SessionSummary) -> Result<SessionSummary, Error> {
    if s.selection.waits(false) {
        Err(Error::SystemCardSelectionWait)
    } else {
        match s.player {
            None => Err(Error::RuntimeNotSet(PLAYER_RUNTIME_ID)),
            Some(p) => if s.action_point < p.discard_action_point {
                Err(Error::SystemInsufficientActionPoint)
            } else {
                Ok(
                    SessionSummary {
                        action_point: (s.action_point - p.discard_action_point) as u16,
                        selection: CardSelection {
                            source: CardSelectionSource::Deck,
                            source_runtime_id: SYSTEM_RUNTIME_ID,
                            count: 1,
                        },
                        ..s
                    },
                )
            },
        }
    }
}

/// Putting a battle, or the player under its id, into a pool of players and
/// battles keeps it one, keeps every entry under another id, and adds nothing else.
pub proof fn lemma_insert_plain(e: Seq<Runtime>, e2: Seq<Runtime>, x: Runtime, i: int)
    requires
        only_player_and_battle(e),
        x is PveBattle || (x is Player && x.id() == PLAYER_RUNTIME_ID),
        0 <= i <= e.len(),
        (i < e.len() && e[i].id() == x.id() && e2 == e.update(i, x)) || e2 == e.insert(i, x),
    ensures
        only_player_and_battle(e2),
        exists|j: int| 0 <= j < e2.len() && e2[j] == x,
        forall|k: int| 0 <= k < e.len() && e[k].id() != x.id() ==> exists|j: int| 0 <= j < e2.len() && e2[j] == #[trigger] e[k],
        forall|j: int| 0 <= j < e2.len() && #[trigger] e2[j] != x ==> exists|k: int| 0 <= k < e.len() && e[k] == e2[j],
{
    if i < e.len() && e[i].id() == x.id() && e2 == e.update(i, x) {
        assert(e2[i] == x);
        assert forall|k: int| 0 <= k < e.len() && e[k].id() != x.id() implies exists|j: int| 0 <= j < e2.len() && e2[j] == #[trigger] e[k] by {
            assert(e2[k] == e[k]);
        }
        assert forall|j: int| 0 <= j < e2.len() && #[trigger] e2[j] != x implies exists|k: int| 0 <= k < e.len() && e[k] == e2[j] by {
            assert(e[j] == e2[j]);
        }
    } else {
        assert(e2[i] == x);
        assert forall|k: int| 0 <= k < e.len() && e[k].id() != x.id() implies exists|j: int| 0 <= j < e2.len() && e2[j] == #[trigger] e[k] by {
            if k < i {
                assert(e2[k] == e[k]);
            } else {
                assert(e2[k + 1] == e[k]);
            }
        }
        assert forall|j: int| 0 <= j < e2.len() && #[trigger] e2[j] != x implies exists|k: int| 0 <= k < e.len() && e[k] == e2[j] by {
            if j < i {
                assert(e[j] == e2[j]);
            } else {
                assert(e[j - 1] == e2[j]);
            }
        }
    }
}

/// Putting a battle into a pool of players and battles keeps its player.
#[verifier::spinoff_prover]
#[verifier::rlimit(60)]
pub proof fn lemma_after_insert_battle(e: Seq<Runtime>, e2: Seq<Runtime>, x: Runtime)
    requires
        crate::runtime::ascending_ids(e),
        crate::runtime::ascending_ids(e2),
        only_player_and_battle(e),
        x is PveBattle,
        (exists|i: int| 0 <= i < e.len() && e[i].id() == x.id() && e2 == e.update(i, x)) || (exists|i: int|
            0 <= i <= e.len() && e2 == e.insert(i, x)),
    ensures
        only_player_and_battle(e2),
        exists|j: int| 0 <= j < e2.len() && e2[j] == x,
        player_of(e2) == player_of(e),
{
    let i = if exists|i: int| 0 <= i < e.len() && e[i].id() == x.id() && e2 == e.update(i, x) {
        choose|i: int| 0 <= i < e.len() && e[i].id() == x.id() && e2 == e.update(i, x)
    } else {
        choose|i: int| 0 <= i <= e.len() && e2 == e.insert(i, x)
    };
    lemma_insert_plain(e, e2, x, i);
    if player_of(e) is Some {
        let k = choose|k: int| 0 <= k < e.len() && (#[trigger] e[k]) is Player;
        lemma_player_of(e, k);
        assert(e[k].id() != x.id());
        let j2 = choose|j2: int| 0 <= j2 < e2.len() && e2[j2] == e[k];
        lemma_player_of(e2, j2);
    } else {
        assert forall|m: int| 0 <= m < e2.len() implies !((#[trigger] e2[m]) is Player) by {
            if e2[m] != x {
                let k = choose|k: int| 0 <= k < e.len() && e[k] == e2[m];
                assert(!(e[k] is Player));
            }
        }
    }
}

/// Inserting a battle or the player keeps a pool of players and battles one.
pub proof fn lemma_insert_keeps_kinds(e: Seq<Runtime>, i: int, x: Runtime)
    requires
        only_player_and_battle(e),
        x is PveBattle || (x is Player && x.id() == PLAYER_RUNTIME_ID),
        0 <= i <= e.len(),
    ensures
        only_player_and_battle(e.insert(i, x)),
{
    assert forall|m: int| 0 <= m < e.insert(i, x).len() implies ((#[trigger] e.insert(i, x)[m]) is Player
        && e.insert(i, x)[m].id() == PLAYER_RUNTIME_ID) || e.insert(i, x)[m] is PveBattle by {
        if m < i {
            assert(e.insert(i, x)[m] == e[m]);
        } else if m > i {
            assert(e.insert(i, x)[m] == e[m - 1]);
        }
    }
}

/// Whether some entry has id `id`.
pub open spec fn holds_id(e: Seq<Runtime>, id: u16) -> bool {
    exists|k: int| 0 <= k < e.len() && #[trigger] e[k].id() == id
}

/// Inserting an entry under another id keeps whether `id` is held.
pub proof fn lemma_insert_keeps_id(e: Seq<Runtime>, i: int, x: Runtime, id: u16)
    requires
        0 <= i <= e.len(),
        x.id() != id,
    ensures
        holds_id(e.insert(i, x), id) == holds_id(e, id),
{
    if holds_id(e, id) {
        let k = choose|k: int| 0 <= k < e.len() && #[trigger] e[k].id() == id;
        if k < i {
            assert(e.insert(i, x)[k] == e[k]);
        } else {
            assert(e.insert(i, x)[k + 1] == e[k]);
        }
    }
    if holds_id(e.insert(i, x), id) {
        let m = choose|m: int| 0 <= m < e.insert(i, x).len() && #[trigger] e.insert(i, x)[m].id() == id;
        if m < i {
            assert(e.insert(i, x)[m] == e[m]);
        } else if m > i {
            assert(e.insert(i, x)[m] == e[m - 1]);
        }
    }
}

/// The signal that heals the player by 30% of its maximal hit points.
pub open spec fn heal_view(p: PlayerRuntime) -> SignalView {
    SignalView {
        name: SignalName::ChangeRealHp,
        value: crate::drain::ValueView::Positive((p.raw.hp * 3 / 10) as u16),
        transformed: false,
        source: SYSTEM_RUNTIME_ID,
        targets: seq![PLAYER_RUNTIME_ID],
    }
}

/// The signal that hands chosen ids to whoever asked for a selection.
pub open spec fn selection_view(sel: CardSelection, ids: Seq<u16>) -> SignalView {
    SignalView {
        name: CardSelection::name_of(sel.source).unwrap(),
        value: crate::drain::ValueView::RuntimeIdArray(ids),
        transformed: false,
        source: SYSTEM_RUNTIME_ID,
        targets: seq![sel.source_runtime_id],
    }
}

/// The engine of one session: it owns the pool and context, and replays operations.
pub struct PveSystemRuntime {
    ctx: Context,
    player_pool: PlayerPool,
    game_over: bool,
    gold: u16,
    action_point: u16,
    card_selection: CardSelection,
    operations: Vec<GameOperation>,
    signal_limit: u32,
    logging: bool,
    logs: Vec<Log>,
}

impl PveSystemRuntime {
    pub closed spec fn wf(&self) -> bool {
        self.ctx.runtimes.wf() && self.player_pool.wf()
    }

    /// No entity reacts to signals, no battle runs, and nothing was won or lost.
    pub closed spec fn plain(&self) -> bool {
        &&& self.wf()
        &&& self.quiet()
        &&& self.ctx.battle_level is None
        &&& !self.game_over
        &&& self.gold == 0
    }

    pub closed spec fn summary(&self) -> SessionSummary {
        SessionSummary {
            rng: self.ctx.rng.state(),
            action_point: self.action_point,
            statistics: self.ctx.statistics,
            selection: self.card_selection,
            player: player_of(self.ctx.runtimes.entries()),
            battle: self.ctx.runtimes.has(BATTLE_RUNTIME_ID),
        }
    }

    pub closed spec fn templates(&self) -> Seq<PlayerConfig> {
        self.player_pool.inner@
    }

    pub closed spec fn context(&self) -> Context {
        self.ctx
    }

    pub closed spec fn spec_action_point(&self) -> u16 {
        self.action_point
    }

    pub closed spec fn spec_gold(&self) -> u16 {
        self.gold
    }

    pub closed spec fn spec_game_over(&self) -> bool {
        self.game_over
    }

    pub closed spec fn spec_statistics(&self) -> GameStatistics {
        self.ctx.statistics
    }

    pub closed spec fn selection(&self) -> CardSelection {
        self.card_selection
    }

    pub closed spec fn spec_operations(&self) -> Seq<GameOperation> {
        self.operations@
    }

    /// Most signals that one drain of the queue may handle.
    pub closed spec fn spec_signal_limit(&self) -> u32 {
        self.signal_limit
    }

    /// Turns the records of action-point changes and card selections on or off.
    pub fn set_logging(&mut self, on: bool)
        ensures
            final(self).spec_logging() == on,
            final(self).wf() == old(self).wf(),
            final(self).plain() == old(self).plain(),
            final(self).summary() == old(self).summary(),
            final(self).templates() == old(self).templates(),
            PveSystemRuntime::kept_summary(old(self), final(self)),
            final(self).context() == old(self).context(),
            final(self).spec_operations() == old(self).spec_operations(),
    {
        self.logging = on;
    }

    pub closed spec fn spec_logging(&self) -> bool {
        self.logging
    }

    /// Hands out the records made so far and forgets them.
    pub fn logs(&mut self) -> (r: Vec<Log>)
        ensures
            final(self).wf() == old(self).wf(),
            final(self).plain() == old(self).plain(),
            final(self).summary() == old(self).summary(),
            final(self).templates() == old(self).templates(),
            PveSystemRuntime::kept_summary(old(self), final(self)),
            final(self).context() == old(self).context(),
            final(self).spec_operations() == old(self).spec_operations(),
    {
        let mut logs: Vec<Log> = Vec::new();
        std::mem::swap(&mut logs, &mut self.logs);
        logs
    }

    /// Records an entry when logging is on.
    fn log(&mut self, entry: Log)
        ensures
            *final(self) == (PveSystemRuntime { logs: final(self).logs, ..*old(self) }),
    {
        if self.logging {
            self.logs.push(entry);
        }
    }

    /// Sets the most signals that one drain of the queue may handle; a drain
    /// that would handle more fails with `SystemSignalLimitExceeded`.
    pub fn set_signal_limit(&mut self, limit: u32)
        ensures
            final(self).spec_signal_limit() == limit,
            final(self).wf() == old(self).wf(),
            PveSystemRuntime::kept_summary(old(self), final(self)),
            final(self).context() == old(self).context(),
            final(self).spec_operations() == old(self).spec_operations(),
    {
        self.signal_limit = limit;
    }

    /// Gold, game-over flag, action points, statistics and selection are as in `old`.
    pub open spec fn kept_summary(old: &PveSystemRuntime, new: &PveSystemRuntime) -> bool {
        &&& new.spec_gold() == old.spec_gold()
        &&& new.spec_game_over() == old.spec_game_over()
        &&& new.spec_action_point() == old.spec_action_point()
        &&& new.spec_statistics() == old.spec_statistics()
        &&& new.selection() == old.selection()
    }

    pub fn new(seed: u64, player_pool: PlayerPool) -> (r: Result<Self, Error>)
        requires
            player_pool.wf(),
        ensures
            r matches Ok(s) && {
                &&& s.wf()
                &&& !s.spec_game_over()
                &&& s.spec_gold() == 0
                &&& s.spec_action_point() == 0
                &&& s.spec_statistics() == GameStatistics::zero()
                &&& s.selection() == CardSelection::none()
                &&& s.spec_operations().len() == 0
                &&& s.context().rng.state() == crate::rng::seed_state(seed)
                &&& s.context().runtimes.entries().len() == 0
                &&& s.context().battle_level is None
                &&& s.spec_signal_limit() == MAX_SIGNAL_STEPS
                &&& s.plain()
                &&& s.templates() == player_pool.inner@
                &&& s.summary() == (SessionSummary {
                    rng: crate::rng::seed_state(seed),
                    action_point: 0,
                    statistics: GameStatistics::zero(),
                    selection: CardSelection::none(),
                    player: None,
                    battle: false,
                })
            },
    {
        Ok(
            Self {
                ctx: Context::new(seed),
                player_pool,
                game_over: false,
                gold: 0,
                action_point: 0,
                card_selection: CardSelection::default(),
                operations: Vec::new(),
                signal_limit: MAX_SIGNAL_STEPS,
                logging: false,
                logs: Vec::new(),
            },
        )
    }

    pub fn game_over(&self) -> (r: bool)
        ensures
            r == self.spec_game_over(),
    {
        self.game_over
    }

    pub fn get_gold(&self) -> (r: u16)
        ensures
            r == self.spec_gold(),
    {
        self.gold
    }

    pub fn get_action_point(&self) -> (r: u16)
        ensures
            r == self.spec_action_point(),
    {
        self.action_point
    }

    pub fn statistics(&self) -> (r: &GameStatistics)
        ensures
            *r == self.spec_statistics(),
    {
        &self.ctx.statistics
    }

    /// The operations invoked so far, in order, failed ones included.
    pub fn operations(&self) -> (r: &Vec<GameOperation>)
        ensures
            r@ == self.spec_operations(),
    {
        &self.operations
    }

    /// The signals applied in the current battle, in the order they were delivered.
    pub fn signal_history(&self) -> (r: &std::collections::BTreeMap<u8, Vec<Signal>>)
        ensures
            r@ == self.context().signal_history@,
    {
        self.ctx.get_history_signals()
    }

    /// Adds an entity to the pool under its own id; the reserved ids of the
    /// system and the player are refused.
    pub fn add_runtime(&mut self, runtime: Runtime) -> (r: Result<(), Error>)
        requires
            old(self).wf(),
        ensures
            final(self).wf(),
            PveSystemRuntime::kept_summary(old(self), final(self)),
            (runtime.id() == SYSTEM_RUNTIME_ID || runtime.id() == PLAYER_RUNTIME_ID) <==> r is Err,
            r is Err ==> r == Err::<(), Error>(Error::InvalidRuntimeType),
            r is Ok ==> final(self).context().runtimes.has(runtime.id()),
    {
        let id = runtime.runtime_id();
        if id == SYSTEM_RUNTIME_ID || id == PLAYER_RUNTIME_ID {
            return Err(Error::InvalidRuntimeType);
        }
        self.ctx.runtimes.insert(runtime);
        proof {
            let e = self.ctx.runtimes.entries();
            let o = old(self).ctx.runtimes.entries();
            if o.len() < e.len() {
                let i = choose|i: int| 0 <= i <= o.len() && e == o.insert(i, runtime);
                assert(e[i].id() == id);
            } else {
                let i = choose|i: int| 0 <= i < o.len() && o[i].id() == id && e == o.update(i, runtime);
                assert(e[i].id() == id);
            }
        }
        Ok(())
    }

    pub fn start_game(&mut self, player_level: u8, player_action_point: u16, gameplay_cards: Vec<DNA>) -> (r:
        Result<(), Error>)
        requires
            old(self).wf(),
        ensures
            final(self).wf(),
            final(self).spec_operations() == old(self).spec_operations().push(GameOperation::StartGame),
            old(self).selection().waits(false) ==> r == Err::<(), Error>(Error::SystemCardSelectionWait)
                && PveSystemRuntime::kept_summary(old(self), final(self)) && final(self).context() == old(self).context(),
            !old(self).selection().waits(false) && old(self).context().runtimes.has(PLAYER_RUNTIME_ID) ==> r
                == Err::<(), Error>(Error::PlayerExisted),
            old(self).plain() ==> settles(
                *final(self),
                r,
                start_game_outcome(old(self).templates(), old(self).summary(), player_level, player_action_point),
                old(self).templates(),
            ),
            r is Ok ==> {
                &&& final(self).spec_action_point() == player_action_point
                &&& final(self).spec_gold() == old(self).spec_gold()
                &&& final(self).spec_game_over() == old(self).spec_game_over()
                &&& final(self).spec_statistics() == old(self).spec_statistics()
                &&& final(self).selection() == old(self).selection()
            },
    {
        self.operations.push(GameOperation::StartGame);
        if self.card_selection.wait_selection(false) {
            return Err(Error::SystemCardSelectionWait);
        }
        proof {
            if self.plain() {
                self.lemma_plain_pool(PLAYER_RUNTIME_ID);
            }
        }
        if self.ctx.runtimes.get(&PLAYER_RUNTIME_ID).is_ok() {
            return Err(Error::PlayerExisted);
        }
        let seed = self.ctx.rng.next_u64();
        let player = match roulette_player(&self.player_pool, player_level, seed) {
            Some(player) => player,
            None => {
                return Err(Error::PlayerLevelNotFound(player_level));
            },
        };
        let player_runtime = Runtime::Player(
                PlayerRuntime {
                    raw: player,
                    runtime_id: PLAYER_RUNTIME_ID,
                    energy: player.energy,
                    hp: player.hp,
                    attack: player.attack,
                    defense: player.defense,
                    spirit: player.spirit,
                    block: 0,
                    shield: 0,
                    equipment_cards: Vec::new(),
                    sorcery_cards: Vec::new(),
                    handhold_cards: Vec::new(),
                    deck_cards: Vec::new(),
                    grave_cards: Vec::new(),
                    exile_cards: Vec::new(),
                    active_effects: Vec::new(),
                },
            );
        let ghost x = player_runtime;
        let ghost e = self.ctx.runtimes.entries();
        self.ctx.runtimes.insert(player_runtime);
        proof {
            if old(self).plain() {
                let i = choose|i: int|
                    0 <= i <= e.len() && self.ctx.runtimes.entries() == e.insert(i, x)
                        && (forall|j: int| 0 <= j < i ==> #[trigger] e[j].id() < x.id())
                        && (forall|j: int| i <= j < e.len() ==> #[trigger] e[j].id() > x.id());
                lemma_insert_keeps_kinds(e, i, x);
                lemma_insert_keeps_id(e, i, x, BATTLE_RUNTIME_ID);
                lemma_player_of(self.ctx.runtimes.entries(), i);
            }
        }
        self.action_point = player_action_point;
        let mut system_target: Vec<u16> = Vec::new();
        system_target.push(SYSTEM_RUNTIME_ID);
        self.run_signal(
            Signal {
                name: SignalName::InitPlayer,
                value: SignalValue::Player(player, player_action_point, copy_dnas(&gameplay_cards)),
                transformed: false,
                source_runtime_id: SYSTEM_RUNTIME_ID,
                target_runtime_ids: system_target,
            },
        )?;
        let card_runtime_ids = self.ctx.runtimes.collect_runtime_ids(RuntimeType::Card);
        self.run_signal(
            Signal {
                name: SignalName::AddCard,
                value: SignalValue::Empty,
                transformed: false,
                source_runtime_id: SYSTEM_RUNTIME_ID,
                target_runtime_ids: card_runtime_ids,
            },
        )
    }

    pub fn start_battle(&mut self, enemy_level: EnemyLevel, version: u8) -> (r: Result<(), Error>)
        requires
            old(self).wf(),
        ensures
            final(self).wf(),
            final(self).spec_operations() == old(self).spec_operations().push(
                GameOperation::StartBattle(enemy_level),
            ),
            old(self).selection().waits(false) ==> r == Err::<(), Error>(Error::SystemCardSelectionWait)
                && PveSystemRuntime::kept_summary(old(self), final(self)) && final(self).context() == old(self).context(),
            !old(self).selection().waits(false) && old(self).context().battle_level is Some ==> r == Err::<
                (),
                Error,
            >(Error::BattleAlreadyStarted) && PveSystemRuntime::kept_summary(old(self), final(self))
                && final(self).context() == old(self).context(),
            old(self).plain() ==> settles(
                *final(self),
                r,
                start_battle_outcome(old(self).summary(), enemy_level),
                old(self).templates(),
            ),
            r is Ok ==> {
                &&& final(self).spec_action_point() == old(self).spec_action_point()
                &&& final(self).spec_gold() == old(self).spec_gold()
                &&& final(self).spec_game_over() == old(self).spec_game_over()
                &&& final(self).selection() == old(self).selection()
                &&& final(self).spec_statistics() == counted_battle(old(self).spec_statistics(), enemy_level)
            },
    {
        self.operations.push(GameOperation::StartBattle(enemy_level));
        if self.card_selection.wait_selection(false) {
            return Err(Error::SystemCardSelectionWait);
        }
        if self.ctx.battle_running() {
            return Err(Error::BattleAlreadyStarted);
        }
        match enemy_level {
            EnemyLevel::Easy => {
                self.ctx.statistics.easy_mode_count = self.ctx.statistics.easy_mode_count.saturating_add(1);
            },
            EnemyLevel::Normal => {
                self.ctx.statistics.normal_mode_count = self.ctx.statistics.normal_mode_count.saturating_add(1);
            },
            EnemyLevel::Hard => {
                self.ctx.statistics.hard_mode_count = self.ctx.statistics.hard_mode_count.saturating_add(1);
            },
        }
        self.ctx.set_battle_level(enemy_level);
        let battle = Runtime::PveBattle(
            PveBattleRuntime { enemies_action_flag: std::collections::BTreeMap::new(), active_effects: Vec::new() },
        );
        let ghost x = battle;
        let ghost e = self.ctx.runtimes.entries();
        self.ctx.runtimes.insert(battle);
        proof {
            if old(self).plain() {
                lemma_after_insert_battle(e, self.ctx.runtimes.entries(), x);
                let j = choose|j: int| 0 <= j < self.ctx.runtimes.entries().len() && self.ctx.runtimes.entries()[j] == x;
                assert(self.ctx.runtimes.entries()[j].id() == BATTLE_RUNTIME_ID);
            }
        }
        let mut targets: Vec<u16> = Vec::new();
        targets.push(BATTLE_RUNTIME_ID);
        targets.push(SYSTEM_RUNTIME_ID);
        self.run_signal(
            Signal {
                name: SignalName::InitBattle,
                value: SignalValue::EnemyLevel(enemy_level, version),
                transformed: false,
                source_runtime_id: SYSTEM_RUNTIME_ID,
                target_runtime_ids: targets,
            },
        )
    }

    pub fn round_over(&mut self) -> (r: Result<(), Error>)
        requires
            old(self).wf(),
        ensures
            final(self).wf(),
            final(self).spec_operations() == old(self).spec_operations().push(GameOperation::RoundOver),
            old(self).selection().waits(false) ==> r == Err::<(), Error>(Error::SystemCardSelectionWait)
                && PveSystemRuntime::kept_summary(old(self), final(self)) && final(self).context() == old(self).context(),
            r is Ok ==> PveSystemRuntime::kept_summary(old(self), final(self)),
            old(self).plain() ==> settles(*final(self), r, round_over_outcome(old(self).summary()), old(self).templates()),
    {
        self.operations.push(GameOperation::RoundOver);
        if self.card_selection.wait_selection(false) {
            return Err(Error::SystemCardSelectionWait);
        }
        let mut targets: Vec<u16> = Vec::new();
        targets.push(BATTLE_RUNTIME_ID);
        self.run_signal(
            Signal {
                name: SignalName::EnemyTurn,
                value: SignalValue::Empty,
                transformed: false,
                source_runtime_id: SYSTEM_RUNTIME_ID,
                target_runtime_ids: targets,
            },
        )
    }

    pub fn spell_card(&mut self, card_runtime_id: u16, target_runtime_id: Option<u16>) -> (r: Result<(), Error>)
        requires
            old(self).wf(),
        ensures
            final(self).wf(),
            final(self).spec_operations() == old(self).spec_operations().push(
                GameOperation::SpellCard(card_runtime_id, target_runtime_id),
            ),
            old(self).selection().waits(false) ==> r == Err::<(), Error>(Error::SystemCardSelectionWait),
            !old(self).selection().waits(false) && !old(self).context().runtimes.has(card_runtime_id) ==> r
                == Err::<(), Error>(Error::RuntimeNotSet(card_runtime_id)),
            r is Ok ==> PveSystemRuntime::kept_summary(old(self), final(self)),
            old(self).plain() ==> settles(
                *final(self),
                r,
                spell_card_outcome(old(self).summary(), card_runtime_id),
                old(self).templates(),
            ),
    {
        proof {
            if self.plain() {
                self.lemma_plain_pool(card_runtime_id);
            }
        }
        self.operations.push(GameOperation::SpellCard(card_runtime_id, target_runtime_id));
        if self.card_selection.wait_selection(false) {
            return Err(Error::SystemCardSelectionWait);
        }
        self.ctx.runtimes.get(&card_runtime_id)?;
        let value = match target_runtime_id {
            Some(target) => SignalValue::RuntimeId(target),
            None => SignalValue::Empty,
        };
        let mut targets: Vec<u16> = Vec::new();
        targets.push(PLAYER_RUNTIME_ID);
        self.run_signal(
            Signal {
                name: SignalName::SpellCard,
                value,
                transformed: false,
                source_runtime_id: card_runtime_id,
                target_runtime_ids: targets,
            },
        )
    }

    pub fn select_card(&mut self, runtime_ids: Vec<u16>) -> (r: Result<(), Error>)
        requires
            old(self).wf(),
        ensures
            final(self).wf(),
            final(self).spec_operations().len() == old(self).spec_operations().len() + 1,
            final(self).spec_operations().last() matches GameOperation::SelectCard(ids) && ids@ == runtime_ids@,
            !old(self).selection().waits(true) ==> r == Err::<(), Error>(Error::SystemCardSelectionNotWait)
                && PveSystemRuntime::kept_summary(old(self), final(self)) && final(self).context() == old(self).context(),
            r is Ok && (old(self).context().battle_level is None || final(self).context().battle_level is Some) ==> (drain(
                old(self).context().runtimes.entries(),
                views(old(self).context().signals@).push(selection_view(old(self).selection(), runtime_ids@)),
                old(self).spec_signal_limit() as nat,
            ) matches Ok(h) && crate::drain::round_history(
                final(self).context().signal_history@,
                old(self).context().current_battle_round,
            ) == crate::drain::round_history(old(self).context().signal_history@, old(self).context().current_battle_round)
                + h),
            old(self).selection().waits(true) && old(self).selection().count < runtime_ids@.len() ==> r
                == Err::<(), Error>(Error::SystemCardSelectionExceeded) && PveSystemRuntime::kept_summary(
                old(self),
                final(self),
            ) && final(self).context() == old(self).context(),
            old(self).plain() ==> settles(
                *final(self),
                r,
                select_card_outcome(old(self).summary(), runtime_ids@.len()),
                old(self).templates(),
            ),
            r is Ok ==> {
                &&& final(self).selection() == CardSelection::none()
                &&& final(self).spec_action_point() == old(self).spec_action_point()
                &&& final(self).spec_gold() == old(self).spec_gold()
                &&& final(self).spec_game_over() == old(self).spec_game_over()
                &&& final(self).spec_statistics() == old(self).spec_statistics()
            },
    {
        self.operations.push(GameOperation::SelectCard(copy_ids(&runtime_ids)));
        if !self.card_selection.wait_selection(true) {
            return Err(Error::SystemCardSelectionNotWait);
        }
        if self.card_selection.count < runtime_ids.len() {
            return Err(Error::SystemCardSelectionExceeded);
        }
        let ghost ids = runtime_ids@;
        let signal = self.card_selection.to_signal(runtime_ids)?;
        assert(view(signal) == selection_view(old(self).card_selection, ids));
        self.card_selection = CardSelection::default();
        assert(views(self.ctx.signals@.push(signal)) =~= views(old(self).ctx.signals@).push(view(signal)));
        self.run_signal(signal)
    }

    /// The player entity, or the error that a lookup of it gives.
    fn player_runtime(&self) -> (r: Result<&PlayerRuntime, Error>)
        requires
            self.wf(),
        ensures
            r matches Ok(p) ==> holds_player(self.ctx.runtimes, *p),
            r is Err <==> !player_present(self.ctx.runtimes),
            !self.ctx.runtimes.has(PLAYER_RUNTIME_ID) ==> r == Err::<&PlayerRuntime, Error>(
                Error::RuntimeNotSet(PLAYER_RUNTIME_ID),
            ),
            self.ctx.runtimes.has(PLAYER_RUNTIME_ID) && r is Err ==> r == Err::<&PlayerRuntime, Error>(
                Error::InvalidRuntimeType,
            ),
    {
        let found = match self.ctx.runtimes.get(&PLAYER_RUNTIME_ID) {
            Ok(found) => found,
            Err(e) => {
                proof {
                    if player_present(self.ctx.runtimes) {
                        let p = choose|p: PlayerRuntime| holds_player(self.ctx.runtimes, p);
                        let i = choose|i: int|
                            0 <= i < self.ctx.runtimes.entries().len() && self.ctx.runtimes.entries()[i]
                                == Runtime::Player(p) && p.runtime_id == PLAYER_RUNTIME_ID;
                        assert(self.ctx.runtimes.entries()[i].id() == PLAYER_RUNTIME_ID);
                    }
                }
                return Err(e);
            },
        };
        match found.player() {
            Ok(p) => Ok(p),
            Err(e) => {
                proof {
                    if player_present(self.ctx.runtimes) {
                        let p = choose|p: PlayerRuntime| holds_player(self.ctx.runtimes, p);
                        let i = choose|i: int|
                            0 <= i < self.ctx.runtimes.entries().len() && self.ctx.runtimes.entries()[i]
                                == Runtime::Player(p) && p.runtime_id == PLAYER_RUNTIME_ID;
                        let j = choose|j: int|
                            0 <= j < self.ctx.runtimes.entries().len() && self.ctx.runtimes.entries()[j] == *found;
                        if i < j {
                            assert(self.ctx.runtimes.entries()[i].id() < self.ctx.runtimes.entries()[j].id());
                        } else if j < i {
                            assert(self.ctx.runtimes.entries()[j].id() < self.ctx.runtimes.entries()[i].id());
                        }
                    }
                }
                Err(e)
            },
        }
    }
}

/// Statistics after one more battle of the given level was started.
pub open spec fn counted_battle(s: GameStatistics, level: EnemyLevel) -> GameStatistics {
    match level {
        EnemyLevel::Easy => GameStatistics { easy_mode_count: s.easy_mode_count.saturating_add(1), ..s },
        EnemyLevel::Normal => GameStatistics { normal_mode_count: s.normal_mode_count.saturating_add(1), ..s },
        EnemyLevel::Hard => GameStatistics { hard_mode_count: s.hard_mode_count.saturating_add(1), ..s },
    }
}

impl PveSystemRuntime {
    /// Everything but the context's pool, queue, history and battle state is as in `old`.
    pub closed spec fn frame(old: &PveSystemRuntime, new: &PveSystemRuntime) -> bool {
        &&& new.gold == old.gold
        &&& new.game_over == old.game_over
        &&& new.action_point == old.action_point
        &&& new.card_selection == old.card_selection
        &&& new.ctx.statistics == old.ctx.statistics
        &&& new.operations == old.operations
        &&& new.player_pool == old.player_pool
        &&& new.signal_limit == old.signal_limit
    }

    pub fn heal_hp(&mut self) -> (r: Result<(), Error>)
        requires
            old(self).wf(),
        ensures
            final(self).wf(),
            final(self).spec_operations() == old(self).spec_operations().push(GameOperation::HealHp),
            old(self).context().battle_level is Some ==> r == Err::<(), Error>(Error::SystemBattleInProgress)
                && PveSystemRuntime::kept_summary(old(self), final(self)) && final(self).context() == old(self).context(),
            old(self).plain() ==> settles(*final(self), r, heal_hp_outcome(old(self).summary()), old(self).templates()),
            old(self).context().battle_level is None && old(self).selection().waits(false) ==> r == Err::<
                (),
                Error,
            >(Error::SystemCardSelectionWait) && PveSystemRuntime::kept_summary(old(self), final(self))
                && final(self).context() == old(self).context(),
            old(self).context().battle_level is None && !old(self).selection().waits(false) && !player_present(
                old(self).context().runtimes,
            ) ==> r is Err && PveSystemRuntime::kept_summary(old(self), final(self)) && final(self).context()
                == old(self).context(),
            forall|p: PlayerRuntime|
                #![trigger holds_player(old(self).context().runtimes, p)]
                old(self).context().battle_level is None && !old(self).selection().waits(false) && holds_player(
                    old(self).context().runtimes,
                    p,
                ) && old(self).spec_action_point() < p.raw.heal_action_point ==> r == Err::<(), Error>(
                    Error::SystemInsufficientActionPoint,
                ) && PveSystemRuntime::kept_summary(old(self), final(self)) && final(self).context()
                    == old(self).context(),
            r is Ok ==> exists|p: PlayerRuntime|
                #![trigger holds_player(old(self).context().runtimes, p)]
                holds_player(old(self).context().runtimes, p) && final(self).spec_action_point()
                    == old(self).spec_action_point() - p.raw.heal_action_point && (drain(
                    old(self).context().runtimes.entries(),
                    views(old(self).context().signals@).push(heal_view(p)),
                    old(self).spec_signal_limit() as nat,
                ) matches Ok(h) && crate::drain::round_history(
                    final(self).context().signal_history@,
                    old(self).context().current_battle_round,
                ) == crate::drain::round_history(old(self).context().signal_history@, old(self).context().current_battle_round)
                    + h),
            r is Ok ==> {
                &&& final(self).spec_gold() == old(self).spec_gold()
                &&& final(self).spec_game_over() == old(self).spec_game_over()
                &&& final(self).spec_statistics() == old(self).spec_statistics()
                &&& final(self).selection() == old(self).selection()
            },
    {
        proof {
            if self.plain() {
                self.lemma_plain_pool(PLAYER_RUNTIME_ID);
            }
        }
        self.operations.push(GameOperation::HealHp);
        if self.ctx.battle_running() {
            return Err(Error::SystemBattleInProgress);
        }
        if self.card_selection.wait_selection(false) {
            return Err(Error::SystemCardSelectionWait);
        }
        let player = self.player_runtime()?;
        proof {
            assert forall|p: PlayerRuntime| #[trigger] holds_player(self.ctx.runtimes, p) implies p == *player by {
                self.lemma_one_player(p, *player);
            }
        }
        let ghost pw = *player;
        let cost = player.raw.heal_action_point as u16;
        // 30% of the maximal hit points
        let healing = (player.raw.hp as u32 * 3 / 10) as u16;
        if self.action_point < cost {
            return Err(Error::SystemInsufficientActionPoint);
        }
        self.action_point = self.action_point - cost;
        let action_point = self.action_point;
        self.log(Log { name: LogName::ActionPointChange, value: Some(action_point), recipient: Some(SYSTEM_RUNTIME_ID) });
        let mut targets: Vec<u16> = Vec::new();
        targets.push(PLAYER_RUNTIME_ID);
        let heal = Signal {
            name: SignalName::ChangeRealHp,
            value: SignalValue::Positive(healing),
            transformed: false,
            source_runtime_id: SYSTEM_RUNTIME_ID,
            target_runtime_ids: targets,
        };
        assert(targets@ =~= seq![PLAYER_RUNTIME_ID]);
        assert(view(heal) == heal_view(pw));
        assert(holds_player(old(self).ctx.runtimes, pw));
        assert(views(self.ctx.signals@.push(heal)) =~= views(old(self).ctx.signals@).push(view(heal)));
        self.run_signal(heal)
    }

    pub fn destroy_card(&mut self) -> (r: Result<(), Error>)
        requires
            old(self).wf(),
        ensures
            final(self).wf(),
            final(self).spec_operations() == old(self).spec_operations().push(GameOperation::DestroyCard),
            old(self).context().battle_level is Some ==> r == Err::<(), Error>(Error::SystemBattleInProgress)
                && PveSystemRuntime::kept_summary(old(self), final(self)) && final(self).context() == old(self).context(),
            forall|p: PlayerRuntime|
                #![trigger holds_player(old(self).context().runtimes, p)]
                old(self).context().battle_level is None && !old(self).selection().waits(false) && holds_player(
                    old(self).context().runtimes,
                    p,
                ) && old(self).spec_action_point() >= p.raw.discard_action_point ==> r is Ok,
            old(self).plain() ==> settles(*final(self), r, destroy_card_outcome(old(self).summary()), old(self).templates()),
            r is Err ==> PveSystemRuntime::kept_summary(old(self), final(self)) && final(self).context()
                == old(self).context(),
            old(self).context().battle_level is None && old(self).selection().waits(false) ==> r == Err::<
                (),
                Error,
            >(Error::SystemCardSelectionWait) && PveSystemRuntime::kept_summary(old(self), final(self))
                && final(self).context() == old(self).context(),
            old(self).context().battle_level is None && !old(self).selection().waits(false) && !player_present(
                old(self).context().runtimes,
            ) ==> r is Err,
            forall|p: PlayerRuntime|
                #![trigger holds_player(old(self).context().runtimes, p)]
                old(self).context().battle_level is None && !old(self).selection().waits(false) && holds_player(
                    old(self).context().runtimes,
                    p,
                ) && old(self).spec_action_point() < p.raw.discard_action_point ==> r == Err::<(), Error>(
                    Error::SystemInsufficientActionPoint,
                ),
            r is Ok ==> exists|p: PlayerRuntime|
                #![trigger holds_player(old(self).context().runtimes, p)]
                holds_player(old(self).context().runtimes, p) && final(self).spec_action_point()
                    == old(self).spec_action_point() - p.raw.discard_action_point,
            r is Ok ==> {
                &&& final(self).selection() == (CardSelection {
                    source: CardSelectionSource::Deck,
                    source_runtime_id: SYSTEM_RUNTIME_ID,
                    count: 1,
                })
                &&& final(self).spec_gold() == old(self).spec_gold()
                &&& final(self).spec_game_over() == old(self).spec_game_over()
                &&& final(self).spec_statistics() == old(self).spec_statistics()
            },
    {
        proof {
            if self.plain() {
                self.lemma_plain_pool(PLAYER_RUNTIME_ID);
            }
        }
        self.operations.push(GameOperation::DestroyCard);
        if self.ctx.battle_running() {
            return Err(Error::SystemBattleInProgress);
        }
        if self.card_selection.wait_selection(false) {
            return Err(Error::SystemCardSelectionWait);
        }
        let mut targets: Vec<u16> = Vec::new();
        targets.push(SYSTEM_RUNTIME_ID);
        let signal = Signal {
            name: SignalName::SelectCardFromDeck,
            value: SignalValue::Positive(1),
            transformed: false,
            source_runtime_id: SYSTEM_RUNTIME_ID,
            target_runtime_ids: targets,
        };
        let selection = CardSelection::from_signal(&signal)?;
        let player = self.player_runtime()?;
        proof {
            assert forall|p: PlayerRuntime| #[trigger] holds_player(self.ctx.runtimes, p) implies p == *player by {
                self.lemma_one_player(p, *player);
            }
        }
        let action_point_decrease = player.raw.discard_action_point;
        if self.action_point < action_point_decrease as u16 {
            return Err(Error::SystemInsufficientActionPoint);
        }
        self.card_selection = selection;
        self.action_point = self.action_point - action_point_decrease as u16;
        self.log(Log { name: LogName::SelectCards, value: Some(SYSTEM_RUNTIME_ID), recipient: Some(PLAYER_RUNTIME_ID) });
        let action_point = self.action_point;
        self.log(Log { name: LogName::ActionPointChange, value: Some(action_point), recipient: Some(SYSTEM_RUNTIME_ID) });
        Ok(())
    }

    /// At most one player entity is held under the player id.
    proof fn lemma_one_player(&self, p: PlayerRuntime, q: PlayerRuntime)
        requires
            self.wf(),
            holds_player(self.ctx.runtimes, p),
            holds_player(self.ctx.runtimes, q),
        ensures
            p == q,
    {
        let e = self.ctx.runtimes.entries();
        let i = choose|i: int| 0 <= i < e.len() && e[i] == Runtime::Player(p) && p.runtime_id == PLAYER_RUNTIME_ID;
        let j = choose|j: int| 0 <= j < e.len() && e[j] == Runtime::Player(q) && q.runtime_id == PLAYER_RUNTIME_ID;
        if i < j {
            assert(e[i].id() < e[j].id());
        } else if j < i {
            assert(e[j].id() < e[i].id());
        }
    }

    /// The summary's counters are the engine's.
    pub proof fn lemma_summary_parts(&self)
        ensures
            self.summary().action_point == self.spec_action_point(),
            self.summary().statistics == self.spec_statistics(),
            self.plain() ==> self.spec_gold() == 0 && !self.spec_game_over(),
    {
    }

    /// In a plain engine the pool holds an id exactly when the summary says so,
    /// and the player entity is the summary's player.
    proof fn lemma_plain_pool(&self, c: u16)
        requires
            self.plain(),
        ensures
            self.ctx.runtimes.has(c) <==> ((c == PLAYER_RUNTIME_ID && player_of(self.ctx.runtimes.entries()) is Some)
                || (c == BATTLE_RUNTIME_ID && self.ctx.runtimes.has(BATTLE_RUNTIME_ID))),
            player_present(self.ctx.runtimes) <==> player_of(self.ctx.runtimes.entries()) is Some,
            forall|p: PlayerRuntime| #[trigger] holds_player(self.ctx.runtimes, p) ==> player_of(self.ctx.runtimes.entries()) == Some(p.raw),
    {
        let e = self.ctx.runtimes.entries();
        assert forall|p: PlayerRuntime| #[trigger] holds_player(self.ctx.runtimes, p) implies player_of(e) == Some(p.raw) by {
            let i = choose|i: int| 0 <= i < e.len() && e[i] == Runtime::Player(p) && p.runtime_id == PLAYER_RUNTIME_ID;
            lemma_player_of(e, i);
        }
        if player_of(e) is Some {
            let i = choose|i: int| 0 <= i < e.len() && (#[trigger] e[i]) is Player;
            assert(e[i].id() == PLAYER_RUNTIME_ID);
            assert(holds_player(self.ctx.runtimes, e[i]->Player_0));
        }
        if self.ctx.runtimes.has(c) {
            let i = choose|i: int| 0 <= i < e.len() && #[trigger] e[i].id() == c;
            if e[i] is Player {
                assert(e[i] is Player);
            }
        }
        if c == PLAYER_RUNTIME_ID && player_of(e) is Some {
            let i = choose|i: int| 0 <= i < e.len() && (#[trigger] e[i]) is Player;
            assert(e[i].id() == c);
        }
    }

    /// Pushes a signal and drives the loop to its fixed point. With only a
    /// player and a battle in the pool (nothing that reacts), it succeeds, the
    /// pool and generator stay as they were, and any battle is over.
    pub fn run_signal(&mut self, signal: Signal) -> (r: Result<(), Error>)
        requires
            old(self).wf(),
        ensures
            final(self).wf(),
            final(self).spec_operations() == old(self).spec_operations(),
            r is Ok ==> PveSystemRuntime::kept_summary(old(self), final(self)),
            r is Ok ==> final(self).context().signals@.len() == 0,
            old(self).quiet() ==> {
                &&& r is Ok
                &&& final(self).quiet()
                &&& final(self).context().runtimes.entries() == old(self).context().runtimes.entries()
                &&& final(self).context().rng == old(self).context().rng
                &&& final(self).context().battle_level is None
                &&& PveSystemRuntime::frame(old(self), final(self))
            },
            drain(
                old(self).context().runtimes.entries(),
                views(old(self).context().signals@.push(signal)),
                old(self).spec_signal_limit() as nat,
            ) matches Err(x) ==> r == Err::<(), Error>(x),
            r is Ok && (old(self).context().battle_level is None || final(self).context().battle_level is Some) ==> (drain(
                old(self).context().runtimes.entries(),
                views(old(self).context().signals@.push(signal)),
                old(self).spec_signal_limit() as nat,
            ) matches Ok(h) && crate::drain::round_history(
                final(self).context().signal_history@,
                old(self).context().current_battle_round,
            ) == crate::drain::round_history(old(self).context().signal_history@, old(self).context().current_battle_round)
                + h),
            r is Ok ==> forall|x: u16|
                #[trigger] old(self).context().delete_runtime_history@.contains(x) ==> !crate::drain::held(
                    final(self).context().runtimes.entries(),
                    x,
                ),
            r is Ok ==> forall|x: u16|
                #[trigger] crate::drain::held(final(self).context().runtimes.entries(), x) ==> crate::drain::held(
                    old(self).context().runtimes.entries(),
                    x,
                ),
            r is Ok && final(self).context().battle_level is Some ==> exists|i: int|
                0 <= i < final(self).context().runtimes.entries().len()
                    && (#[trigger] final(self).context().runtimes.entries()[i]) is Enemy
                    && final(self).context().runtimes.entries()[i]->Enemy_0.hp != 0,
            r is Ok && old(self).context().battle_level is Some && final(self).context().battle_level is None ==> {
                &&& forall|i: int|
                    0 <= i < final(self).context().runtimes.entries().len()
                        ==> !((#[trigger] final(self).context().runtimes.entries()[i]) is Enemy)
                &&& final(self).context().signal_history@ == Map::<u8, Vec<Signal>>::empty()
                &&& final(self).context().current_battle_round == 0
            },
    {
        let ghost v = view(signal);
        self.ctx.signal(signal);
        assert(self.ctx.delete_runtime_history == old(self).ctx.delete_runtime_history);
        assert(views(self.ctx.signals@) =~= views(old(self).ctx.signals@).push(v));
        assert(views(old(self).ctx.signals@.push(signal)) =~= views(old(self).ctx.signals@).push(v));
        self.run()
    }

    /// Nothing in the pool reacts to signals, the queue is empty, no deletion is
    /// pending, and a drain may handle at least one signal.
    pub closed spec fn quiet(&self) -> bool {
        &&& only_player_and_battle(self.ctx.runtimes.entries())
        &&& self.ctx.signals@.len() == 0
        &&& self.ctx.delete_runtime_history@.len() == 0
        &&& self.signal_limit >= 1
    }

    /// Lets every effect, in ascending id order, replace a signal not yet transformed.
    /// `None` means that some effect replaced it and its replacements joined the queue.
    fn transform_signal(&mut self, signal: Signal) -> (r: Result<Option<Signal>, Error>)
        requires
            old(self).wf(),
        ensures
            final(self).wf(),
            PveSystemRuntime::frame(old(self), final(self)),
            same_state(old(self).ctx, final(self).ctx),
            final(self).ctx.signal_history == old(self).ctx.signal_history,
            old(self).ctx.signals@.len() <= final(self).ctx.signals@.len(),
            final(self).ctx.signals@.subrange(0, old(self).ctx.signals@.len() as int) == old(self).ctx.signals@,
            r matches Ok(Some(s)) ==> s == (Signal { transformed: true, ..signal }),
            signal.transformed ==> r == Ok::<Option<Signal>, Error>(Some(signal)) && final(self).ctx
                == old(self).ctx,
            (forall|i: int|
                0 <= i < old(self).ctx.runtimes.entries().len() ==> !((#[trigger] old(self).ctx.runtimes.entries()[i]) is Effect))
                ==> r == Ok::<Option<Signal>, Error>(Some(Signal { transformed: true, ..signal }))
                && final(self).ctx == old(self).ctx,
            !signal.transformed ==> match transform_out(
                old(self).ctx.runtimes.entries(),
                ids_of_kind(old(self).ctx.runtimes.entries(), RuntimeType::Effect),
                view(signal),
            ) {
                Err(x) => r == Err::<Option<Signal>, Error>(x),
                Ok(outs) => if outs.len() > 0 {
                    r == Ok::<Option<Signal>, Error>(None) && views(final(self).ctx.signals@) == views(
                        old(self).ctx.signals@,
                    ) + outs
                } else {
                    r == Ok::<Option<Signal>, Error>(Some(Signal { transformed: true, ..signal }))
                        && final(self).ctx.signals@ == old(self).ctx.signals@
                },
            },
    {
        if signal.transformed {
            return Ok(Some(signal));
        }
        let mut transformed = false;
        let ids = self.ctx.runtimes.collect_runtime_ids(RuntimeType::Effect);
        let ghost no_effects = forall|i: int|
            0 <= i < old(self).ctx.runtimes.entries().len() ==> !((#[trigger] old(self).ctx.runtimes.entries()[i]) is Effect);
        proof {
            if no_effects {
                crate::runtime::lemma_no_kind_no_ids(self.ctx.runtimes.entries(), RuntimeType::Effect);
            }
        }
        let ghost e = old(self).ctx.runtimes.entries();
        let ghost sv = view(signal);
        let ghost acc: Seq<SignalView> = Seq::empty();
        assert(ids@.subrange(0, ids@.len() as int) =~= ids@);
        assert(views(old(self).ctx.signals@) + acc =~= views(old(self).ctx.signals@));
        let mut k: usize = 0;
        while k < ids.len()
            invariant
                self.wf(),
                PveSystemRuntime::frame(old(self), self),
                same_state(old(self).ctx, self.ctx),
                e == old(self).ctx.runtimes.entries(),
                sv == view(signal),
                ids@ == ids_of_kind(e, RuntimeType::Effect),
                k <= ids@.len(),
                transform_out(e, ids@, sv) == after(acc, transform_out(e, ids@.subrange(k as int, ids@.len() as int), sv)),
                views(self.ctx.signals@) == views(old(self).ctx.signals@) + acc,
                transformed == (acc.len() > 0),
                !transformed ==> self.ctx.signals@ == old(self).ctx.signals@,
                self.ctx.signal_history == old(self).ctx.signal_history,
                old(self).ctx.signals@.len() <= self.ctx.signals@.len(),
                self.ctx.signals@.subrange(0, old(self).ctx.signals@.len() as int) == old(self).ctx.signals@,
                no_effects ==> ids@.len() == 0 && self.ctx == old(self).ctx && !transformed,
                no_effects == (forall|i: int|
                    0 <= i < old(self).ctx.runtimes.entries().len() ==> !((#[trigger] old(self).ctx.runtimes.entries()[i]) is Effect)),
                !signal.transformed,
            decreases ids@.len() - k,
        {
            let ghost rest = ids@.subrange(k as int, ids@.len() as int);
            assert(rest[0] == ids@[k as int]);
            assert(rest.drop_first() =~= ids@.subrange(k + 1, ids@.len() as int));
            let effect = self.ctx.runtimes.get(&ids[k])?;
            proof {
                let i = choose|i: int| 0 <= i < e.len() && e[i] == *effect;
                crate::drain::lemma_index_of(e, i);
            }
            let produced = effect.transform(&signal, &self.ctx)?;
            if produced.len() > 0 {
                transformed = true;
            }
            let ghost before = self.ctx.signals@;
            proof {
                let tail = transform_out(e, ids@.subrange(k + 1, ids@.len() as int), sv);
                assert(transform_out(e, rest, sv) == after(views(produced@), tail));
                match tail {
                    Ok(h) => {
                        assert(acc + views(produced@) + h =~= acc + (views(produced@) + h));
                    },
                    Err(_) => {},
                }
                acc = acc + views(produced@);
            }
            assert(views(before + produced@) =~= views(before) + views(produced@));
            self.ctx.signal_all(produced);
            proof {
                if !transformed {
                    assert(produced@.len() == 0);
                    assert(self.ctx.signals@ =~= before);
                }
            }
            assert(self.ctx.signals@.subrange(0, old(self).ctx.signals@.len() as int) =~= old(self).ctx.signals@) by {
                assert(before.subrange(0, old(self).ctx.signals@.len() as int) == old(self).ctx.signals@);
            }
            k = k + 1;
        }
        proof {
            if !transformed {
                assert(self.ctx.signals@.subrange(0, old(self).ctx.signals@.len() as int) == old(self).ctx.signals@);
            }
        }
        if transformed {
            Ok(None)
        } else {
            let mut signal = signal;
            signal.transformed = true;
            Ok(Some(signal))
        }
    }

    /// Delivers a signal to the entity under one id (the system's reaction is none).
    fn deliver_one(&mut self, runtime_id: u16, signal: &Signal) -> (r: Result<(), Error>)
        requires
            old(self).wf(),
        ensures
            final(self).wf(),
            PveSystemRuntime::frame(old(self), final(self)),
            final(self).ctx.signal_history == old(self).ctx.signal_history,
            match crate::drain::deliver_to(old(self).ctx.runtimes.entries(), runtime_id, view(*signal)) {
                Err(x) => r == Err::<(), Error>(x),
                Ok(o) => r is Ok && views(final(self).ctx.signals@) == views(old(self).ctx.signals@) + o && same_state(
                    old(self).ctx,
                    final(self).ctx,
                ),
            },
            only_player_and_battle(old(self).ctx.runtimes.entries()) ==> r is Ok && final(self).ctx.signals
                == old(self).ctx.signals && crate::drain::deliver_to(old(self).ctx.runtimes.entries(), runtime_id, view(*signal))
                == Ok::<Seq<SignalView>, Error>(Seq::empty()),
    {
        let ghost e = old(self).ctx.runtimes.entries();
        let ghost sv = view(*signal);
        if runtime_id == SYSTEM_RUNTIME_ID {
            assert(views(self.ctx.signals@) + Seq::<SignalView>::empty() =~= views(self.ctx.signals@));
            return self.run_self(signal);
        }
        match self.ctx.runtimes.remove(&runtime_id) {
            Err(_) => {
                assert(views(self.ctx.signals@) + Seq::<SignalView>::empty() =~= views(self.ctx.signals@));
                Ok(())
            },
            Ok(runtime) => {
                let ghost i = choose|i: int| 0 <= i < e.len() && e[i] == runtime && self.ctx.runtimes.entries() == e.remove(i);
                proof {
                    crate::drain::lemma_index_of(e, i);
                }
                let mut runtime = runtime;
                runtime.run(signal, &mut self.ctx)?;
                proof {
                    assert forall|k2: int| 0 <= k2 < e.remove(i).len() implies #[trigger] e.remove(i)[k2].id() != runtime.id() by {
                        if k2 < i {
                            assert(e[k2].id() < e[i].id());
                        } else {
                            assert(e[i].id() < e[k2 + 1].id());
                        }
                    }
                    if only_player_and_battle(e) {
                        assert(e[i] is Player || e[i] is PveBattle);
                        assert(views(self.ctx.signals@) + Seq::<SignalView>::empty() =~= views(self.ctx.signals@));
                    }
                }
                self.ctx.runtimes.insert(runtime);
                proof {
                    let j = choose|j: int|
                        0 <= j <= e.remove(i).len() && self.ctx.runtimes.entries() == e.remove(i).insert(j, runtime)
                            && (forall|m: int| 0 <= m < j ==> #[trigger] e.remove(i)[m].id() < runtime.id())
                            && (forall|m: int| j <= m < e.remove(i).len() ==> #[trigger] e.remove(i)[m].id() > runtime.id());
                    crate::runtime::lemma_reinsert(e, i, j);
                }
                Ok(())
            },
        }
    }

    /// Delivers a signal to the cards, enemies and effects (each in ascending id
    /// order), then to the battle, the player and the system; what each emits
    /// joins the queue in that order.
    fn deliver(&mut self, signal: &Signal) -> (r: Result<(), Error>)
        requires
            old(self).wf(),
        ensures
            final(self).wf(),
            PveSystemRuntime::frame(old(self), final(self)),
            final(self).ctx.signal_history == old(self).ctx.signal_history,
            match deliver_out(old(self).ctx.runtimes.entries(), delivery_ids(old(self).ctx.runtimes.entries()), view(*signal)) {
                Err(x) => r == Err::<(), Error>(x),
                Ok(o) => r is Ok && views(final(self).ctx.signals@) == views(old(self).ctx.signals@) + o && same_state(
                    old(self).ctx,
                    final(self).ctx,
                ),
            },
            only_player_and_battle(old(self).ctx.runtimes.entries()) ==> r is Ok && same_state(old(self).ctx, final(self).ctx)
                && final(self).ctx.signals == old(self).ctx.signals,
    {
        let ghost quiet_pool = only_player_and_battle(old(self).ctx.runtimes.entries());
        let ghost e = old(self).ctx.runtimes.entries();
        let ghost sv = view(*signal);
        proof {
            if quiet_pool {
                crate::runtime::lemma_no_kind_no_ids(e, RuntimeType::Card);
                crate::runtime::lemma_no_kind_no_ids(e, RuntimeType::Enemy);
                crate::runtime::lemma_no_kind_no_ids(e, RuntimeType::Effect);
            }
        }
        let mut ids = self.ctx.runtimes.collect_runtime_ids(RuntimeType::Card);
        let mut enemies = self.ctx.runtimes.collect_runtime_ids(RuntimeType::Enemy);
        ids.append(&mut enemies);
        let mut effects = self.ctx.runtimes.collect_runtime_ids(RuntimeType::Effect);
        ids.append(&mut effects);
        ids.push(BATTLE_RUNTIME_ID);
        ids.push(PLAYER_RUNTIME_ID);
        ids.push(SYSTEM_RUNTIME_ID);
        assert(ids@ =~= delivery_ids(e));
        let ghost acc: Seq<SignalView> = Seq::empty();
        assert(ids@.subrange(0, ids@.len() as int) =~= ids@);
        assert(views(old(self).ctx.signals@) + acc =~= views(old(self).ctx.signals@));
        let mut k: usize = 0;
        while k < ids.len()
            invariant
                self.wf(),
                PveSystemRuntime::frame(old(self), self),
                e == old(self).ctx.runtimes.entries(),
                sv == view(*signal),
                ids@ == delivery_ids(e),
                k <= ids@.len(),
                same_state(old(self).ctx, self.ctx),
                self.ctx.signal_history == old(self).ctx.signal_history,
                deliver_out(e, ids@, sv) == after(acc, deliver_out(e, ids@.subrange(k as int, ids@.len() as int), sv)),
                views(self.ctx.signals@) == views(old(self).ctx.signals@) + acc,
                quiet_pool ==> self.ctx.signals == old(self).ctx.signals && acc.len() == 0,
                quiet_pool == only_player_and_battle(e),
            decreases ids@.len() - k,
        {
            let ghost rest = ids@.subrange(k as int, ids@.len() as int);
            assert(rest[0] == ids@[k as int]);
            assert(rest.drop_first() =~= ids@.subrange(k + 1, ids@.len() as int));
            let ghost tail = deliver_out(e, rest.drop_first(), sv);
            let ghost here = crate::drain::deliver_to(e, ids@[k as int], sv);
            let ghost before = self.ctx.signals@;
            self.deliver_one(ids[k], signal)?;
            proof {
                let o = here.unwrap();
                assert(deliver_out(e, rest, sv) == after(o, tail));
                match tail {
                    Ok(h) => {
                        assert(acc + o + h =~= acc + (o + h));
                    },
                    Err(_) => {},
                }
                acc = acc + o;
                if quiet_pool {
                    assert(o =~= Seq::<SignalView>::empty());
                }
            }
            k = k + 1;
        }
        Ok(())
    }

    /// Drains the queue in FIFO order: each signal is transformed, then, unless it
    /// is a skip, recorded in the current round's history and delivered.
    fn run_queue(&mut self) -> (r: Result<(), Error>)
        requires
            old(self).wf(),
        ensures
            final(self).wf(),
            PveSystemRuntime::frame(old(self), final(self)),
            r is Ok ==> final(self).ctx.signals@.len() == 0,
            only_player_and_battle(old(self).ctx.runtimes.entries()) && old(self).ctx.signals@.len() <= 1
                && old(self).signal_limit >= 1 ==> r is Ok && same_state(old(self).ctx, final(self).ctx),
            final(self).ctx.signal_history@.remove(old(self).ctx.current_battle_round) == old(self).ctx.signal_history@.remove(
                old(self).ctx.current_battle_round,
            ),
            match drain(old(self).ctx.runtimes.entries(), views(old(self).ctx.signals@), old(self).signal_limit as nat) {
                Err(x) => r == Err::<(), Error>(x),
                Ok(h) => r is Ok && same_state(old(self).ctx, final(self).ctx) && crate::drain::round_history(
                    final(self).ctx.signal_history@,
                    old(self).ctx.current_battle_round,
                ) == crate::drain::round_history(old(self).ctx.signal_history@, old(self).ctx.current_battle_round) + h,
            },
    {
        let ghost e = old(self).ctx.runtimes.entries();
        let ghost round = old(self).ctx.current_battle_round;
        let ghost limit = old(self).signal_limit as nat;
        let ghost done: Seq<SignalView> = Seq::empty();
        assert(crate::drain::round_history(old(self).ctx.signal_history@, round) + done =~= crate::drain::round_history(
            old(self).ctx.signal_history@,
            round,
        ));
        let ghost calm = only_player_and_battle(old(self).ctx.runtimes.entries()) && old(self).ctx.signals@.len() <= 1
            && old(self).signal_limit >= 1;
        let mut steps: u32 = 0;
        loop
            invariant
                self.wf(),
                PveSystemRuntime::frame(old(self), self),
                steps <= self.signal_limit,
                calm == (only_player_and_battle(old(self).ctx.runtimes.entries()) && old(self).ctx.signals@.len() <= 1
                    && old(self).signal_limit >= 1),
                calm ==> only_player_and_battle(self.ctx.runtimes.entries()) && same_state(old(self).ctx, self.ctx)
                    && self.ctx.signals@.len() <= 1 && (self.ctx.signals@.len() == 1 ==> steps == 0)
                    && self.signal_limit >= 1,
                e == old(self).ctx.runtimes.entries(),
                round == old(self).ctx.current_battle_round,
                limit == old(self).signal_limit as nat,
                same_state(old(self).ctx, self.ctx),
                self.ctx.signal_history@.remove(round) == old(self).ctx.signal_history@.remove(round),
                drain(e, views(old(self).ctx.signals@), limit) == after(done, drain(e, views(self.ctx.signals@), (limit - steps) as nat)),
                crate::drain::round_history(self.ctx.signal_history@, round) == crate::drain::round_history(
                    old(self).ctx.signal_history@,
                    round,
                ) + done,
            decreases self.signal_limit - steps,
        {
            if self.ctx.signals.len() == 0 {
                proof {
                    assert(views(self.ctx.signals@) =~= Seq::<SignalView>::empty());
                    assert(done + Seq::<SignalView>::empty() =~= done);
                }
                return Ok(());
            }
            if steps >= self.signal_limit {
                return Err(Error::SystemSignalLimitExceeded);
            }
            let ghost q = self.ctx.signals@;
            let ghost fuel = (limit - steps) as nat;
            assert(views(q)[0] == view(q[0]));
            assert(views(q).drop_first() =~= views(q.drop_first()));
            steps = steps + 1;
            let signal = match self.ctx.pop_signal() {
                Some(signal) => signal,
                None => {
                    return Ok(());
                },
            };
            let ghost head = view(signal);
            let signal = match self.transform_signal(signal)? {
                Some(signal) => signal,
                None => {
                    proof {
                        let outs = transform_out(e, ids_of_kind(e, RuntimeType::Effect), head).unwrap();
                        assert(views(q.drop_first()) + outs == views(self.ctx.signals@));
                    }
                    continue ;
                },
            };
            assert(view(signal) == (SignalView { transformed: true, ..head }));
            if signal.name == SignalName::Skip {
                continue ;
            }
            let copy = signal.copy();
            proof {
                crate::drain::lemma_same_view(copy, signal);
            }
            let ghost hist_before = self.ctx.signal_history@;
            self.ctx.applied_signal(copy);
            proof {
                assert(self.ctx.signal_history@.remove(round) =~= old(self).ctx.signal_history@.remove(round)) by {
                    assert(self.ctx.signal_history@.remove(round) == hist_before.remove(round));
                }
                assert(views(self.ctx.signal_history@[round]@) =~= crate::drain::round_history(hist_before, round).push(
                    view(signal),
                ));
            }
            let ghost rest_view = views(self.ctx.signals@);
            self.deliver(&signal)?;
            proof {
                let o = deliver_out(e, delivery_ids(e), view(signal)).unwrap();
                let tail = drain(e, rest_view + o, (fuel - 1) as nat);
                match tail {
                    Ok(h) => {
                        assert(done + (seq![view(signal)] + h) =~= (done + seq![view(signal)]) + h);
                    },
                    Err(_) => {},
                }
                assert(crate::drain::round_history(self.ctx.signal_history@, round) =~= crate::drain::round_history(
                    old(self).ctx.signal_history@,
                    round,
                ) + (done + seq![view(signal)]));
                done = done + seq![view(signal)];
            }
        }
    }

    /// Removes the entities under the given ids; an id not in the pool is an error.
    fn remove_ids(&mut self, ids: &Vec<u16>) -> (r: Result<(), Error>)
        requires
            old(self).wf(),
        ensures
            final(self).wf(),
            PveSystemRuntime::frame(old(self), final(self)),
            final(self).ctx == (Context { runtimes: final(self).ctx.runtimes, ..old(self).ctx }),
            ids@.len() == 0 ==> r is Ok && final(self).ctx == old(self).ctx,
            r is Ok ==> forall|x: u16|
                #[trigger] crate::drain::held(final(self).ctx.runtimes.entries(), x) <==> (crate::drain::held(
                    old(self).ctx.runtimes.entries(),
                    x,
                ) && !ids@.contains(x)),
            r is Ok ==> forall|j: int|
                0 <= j < final(self).ctx.runtimes.entries().len() ==> old(self).ctx.runtimes.entries().contains(
                    #[trigger] final(self).ctx.runtimes.entries()[j],
                ),
    {
        let ghost e0 = old(self).ctx.runtimes.entries();
        proof {
            assert(ids@.subrange(0, 0) =~= Seq::<u16>::empty());
            assert forall|j: int| 0 <= j < e0.len() implies e0.contains(#[trigger] e0[j]) by {
                assert(e0[j] == e0[j]);
            }
        }
        let mut k: usize = 0;
        while k < ids.len()
            invariant
                self.wf(),
                PveSystemRuntime::frame(old(self), self),
                self.ctx == (Context { runtimes: self.ctx.runtimes, ..old(self).ctx }),
                e0 == old(self).ctx.runtimes.entries(),
                k <= ids@.len(),
                ids@.len() == 0 ==> self.ctx == old(self).ctx,
                forall|x: u16|
                    #[trigger] crate::drain::held(self.ctx.runtimes.entries(), x) <==> (crate::drain::held(e0, x)
                        && !ids@.subrange(0, k as int).contains(x)),
                forall|j: int| 0 <= j < self.ctx.runtimes.entries().len() ==> e0.contains(#[trigger] self.ctx.runtimes.entries()[j]),
            decreases ids@.len() - k,
        {
            let ghost e = self.ctx.runtimes.entries();
            let id = ids[k];
            let removed = self.ctx.runtimes.remove(&id)?;
            proof {
                let i = choose|i: int| 0 <= i < e.len() && e[i] == removed && self.ctx.runtimes.entries() == e.remove(i);
                assert(ids@.subrange(0, k + 1) =~= ids@.subrange(0, k as int).push(id));
                assert(removed.id() == id);
                assert forall|x: u16| #[trigger] crate::drain::held(self.ctx.runtimes.entries(), x) <==> (crate::drain::held(e0, x)
                    && !ids@.subrange(0, k + 1).contains(x)) by {
                    crate::runtime::lemma_remove_has(e, i, x);
                    vstd::seq_lib::lemma_seq_contains_after_push(ids@.subrange(0, k as int), id, x);
                }
                crate::runtime::lemma_remove_has(e, i, 0);
                assert forall|j: int| 0 <= j < self.ctx.runtimes.entries().len() implies e0.contains(
                    #[trigger] self.ctx.runtimes.entries()[j],
                ) by {
                    assert(e.contains(e.remove(i)[j]));
                    let k2 = choose|k2: int| 0 <= k2 < e.len() && e[k2] == self.ctx.runtimes.entries()[j];
                    assert(e0.contains(e[k2]));
                }
            }
            k = k + 1;
        }
        assert(ids@.subrange(0, k as int) =~= ids@);
        Ok(())
    }

    /// Removes the entities queued for deletion.
    fn remove_deleted(&mut self) -> (r: Result<(), Error>)
        requires
            old(self).wf(),
        ensures
            final(self).wf(),
            PveSystemRuntime::frame(old(self), final(self)),
            final(self).ctx.signals@ == old(self).ctx.signals@,
            final(self).ctx.signal_history == old(self).ctx.signal_history,
            final(self).ctx.delete_runtime_history@.len() == 0,
            final(self).ctx.battle_level == old(self).ctx.battle_level,
            final(self).ctx.current_battle_round == old(self).ctx.current_battle_round,
            final(self).ctx.rng == old(self).ctx.rng,
            final(self).ctx.statistics == old(self).ctx.statistics,
            old(self).ctx.delete_runtime_history@.len() == 0 ==> r is Ok && same_state(old(self).ctx, final(self).ctx),
            r is Ok ==> forall|x: u16|
                #[trigger] crate::drain::held(final(self).ctx.runtimes.entries(), x) <==> (crate::drain::held(
                    old(self).ctx.runtimes.entries(),
                    x,
                ) && !old(self).ctx.delete_runtime_history@.contains(x)),
            r is Ok ==> forall|j: int|
                0 <= j < final(self).ctx.runtimes.entries().len() ==> old(self).ctx.runtimes.entries().contains(
                    #[trigger] final(self).ctx.runtimes.entries()[j],
                ),
    {
        let ids = self.ctx.dump_history_delete_runtimes();
        proof {
            if ids@.len() == 0 {
                assert(self.ctx.delete_runtime_history@ =~= old(self).ctx.delete_runtime_history@);
            }
        }
        self.remove_ids(&ids)
    }

    /// Whether every enemy in the pool is out of hit points.
    fn enemies_defeated(&self) -> (r: Result<bool, Error>)
        ensures
            (forall|i: int| 0 <= i < self.ctx.runtimes.entries().len() ==> !((#[trigger] self.ctx.runtimes.entries()[i]) is Enemy))
                ==> r == Ok::<bool, Error>(true),
            r == Ok::<bool, Error>(false) ==> exists|i: int|
                0 <= i < self.ctx.runtimes.entries().len() && (#[trigger] self.ctx.runtimes.entries()[i]) is Enemy
                    && self.ctx.runtimes.entries()[i]->Enemy_0.hp != 0,
    {
        let ghost none = forall|i: int| 0 <= i < self.ctx.runtimes.entries().len() ==> !((#[trigger] self.ctx.runtimes.entries()[i]) is Enemy);
        proof {
            if none {
                crate::runtime::lemma_no_kind_no_ids(self.ctx.runtimes.entries(), RuntimeType::Enemy);
            }
        }
        let enemies = self.ctx.runtimes.collect_runtimes(RuntimeType::Enemy);
        let mut k: usize = 0;
        while k < enemies.len()
            invariant
                none ==> enemies@.len() == 0,
                none == (forall|i: int| 0 <= i < self.ctx.runtimes.entries().len() ==> !((#[trigger] self.ctx.runtimes.entries()[i]) is Enemy)),
                forall|m: int| 0 <= m < enemies@.len() ==> {
                    &&& (#[trigger] enemies@[m]).kind() == RuntimeType::Enemy
                    &&& exists|i: int| 0 <= i < self.ctx.runtimes.entries().len() && self.ctx.runtimes.entries()[i] == *enemies@[m]
                },
            decreases enemies@.len() - k,
        {
            let enemy = enemies[k].enemy()?;
            if enemy.hp != 0 {
                proof {
                    let i = choose|i: int| 0 <= i < self.ctx.runtimes.entries().len() && self.ctx.runtimes.entries()[i] == *enemies@[k as int];
                    assert(self.ctx.runtimes.entries()[i] is Enemy);
                }
                return Ok(false);
            }
            k = k + 1;
        }
        Ok(true)
    }

    /// Drives the loop to its fixed point (see `drain`), removes the entities
    /// queued for deletion, then clears a battle whose enemies are all dead: it
    /// announces the battle's end, removes the enemies and resets the round state.
    #[verifier::rlimit(60)]
    fn run(&mut self) -> (r: Result<(), Error>)
        requires
            old(self).wf(),
        ensures
            final(self).wf(),
            PveSystemRuntime::frame(old(self), final(self)),
            r is Ok ==> final(self).ctx.signals@.len() == 0,
            r is Ok ==> final(self).ctx.delete_runtime_history@.len() == 0,
            only_player_and_battle(old(self).ctx.runtimes.entries()) && old(self).ctx.signals@.len() <= 1
                && old(self).ctx.delete_runtime_history@.len() == 0 && old(self).signal_limit >= 1 ==> {
                &&& r is Ok
                &&& final(self).ctx.runtimes.entries() == old(self).ctx.runtimes.entries()
                &&& final(self).ctx.rng == old(self).ctx.rng
                &&& final(self).ctx.statistics == old(self).ctx.statistics
                &&& final(self).ctx.battle_level is None
            },
            drain(old(self).ctx.runtimes.entries(), views(old(self).ctx.signals@), old(self).signal_limit as nat) matches Err(x)
                ==> r == Err::<(), Error>(x),
            r is Ok ==> forall|x: u16|
                #[trigger] old(self).ctx.delete_runtime_history@.contains(x) ==> !crate::drain::held(
                    final(self).ctx.runtimes.entries(),
                    x,
                ),
            r is Ok ==> forall|x: u16|
                #[trigger] crate::drain::held(final(self).ctx.runtimes.entries(), x) ==> crate::drain::held(
                    old(self).ctx.runtimes.entries(),
                    x,
                ),
            r is Ok && final(self).ctx.battle_level is Some ==> final(self).ctx.battle_level == old(self).ctx.battle_level
                && exists|i: int|
                0 <= i < final(self).ctx.runtimes.entries().len() && (#[trigger] final(self).ctx.runtimes.entries()[i]) is Enemy
                    && final(self).ctx.runtimes.entries()[i]->Enemy_0.hp != 0,
            r is Ok && (old(self).ctx.battle_level is None || final(self).ctx.battle_level is Some) ==> (drain(
                old(self).ctx.runtimes.entries(),
                views(old(self).ctx.signals@),
                old(self).signal_limit as nat,
            ) matches Ok(h) && crate::drain::round_history(final(self).ctx.signal_history@, old(self).ctx.current_battle_round)
                == crate::drain::round_history(old(self).ctx.signal_history@, old(self).ctx.current_battle_round) + h),
            r is Ok && old(self).ctx.battle_level is None ==> final(self).ctx.battle_level is None,
            r is Ok && old(self).ctx.battle_level is Some && final(self).ctx.battle_level is None ==> {
                &&& forall|i: int|
                    0 <= i < final(self).ctx.runtimes.entries().len() ==> !((#[trigger] final(self).ctx.runtimes.entries()[i]) is Enemy)
                &&& final(self).ctx.signal_history@ == Map::<u8, Vec<Signal>>::empty()
                &&& final(self).ctx.current_battle_round == 0
            },
    {
        let ghost pre = only_player_and_battle(old(self).ctx.runtimes.entries()) && old(self).ctx.signals@.len() <= 1
            && old(self).ctx.delete_runtime_history@.len() == 0 && old(self).signal_limit >= 1;
        self.run_queue()?;
        self.remove_deleted()?;
        let ghost after_first = *self;
        if let Some(battle_level) = self.ctx.battle_level() {
            if self.enemies_defeated()? {
                self.ctx.clear_battle_level();
                let mut target_runtime_ids = self.ctx.runtimes.collect_runtime_ids(RuntimeType::Card);
                let mut effects = self.ctx.runtimes.collect_runtime_ids(RuntimeType::Effect);
                target_runtime_ids.append(&mut effects);
                target_runtime_ids.push(SYSTEM_RUNTIME_ID);
                target_runtime_ids.push(BATTLE_RUNTIME_ID);
                target_runtime_ids.push(PLAYER_RUNTIME_ID);
                self.ctx.signal(
                    Signal {
                        name: SignalName::BattleOver,
                        value: SignalValue::EnemyLevel(battle_level, 0),
                        transformed: true,
                        source_runtime_id: SYSTEM_RUNTIME_ID,
                        target_runtime_ids,
                    },
                );
                self.run_queue()?;
                self.remove_deleted()?;
                let dead_enemies = self.ctx.runtimes.collect_runtime_ids(RuntimeType::Enemy);
                let ghost e2 = self.ctx.runtimes.entries();
                proof {
                    if only_player_and_battle(e2) {
                        crate::runtime::lemma_no_kind_no_ids(e2, RuntimeType::Enemy);
                    }
                }
                self.remove_ids(&dead_enemies)?;
                proof {
                    assert forall|i: int|
                        0 <= i < self.ctx.runtimes.entries().len() implies !((#[trigger] self.ctx.runtimes.entries()[i]) is Enemy) by {
                        let f = self.ctx.runtimes.entries();
                        if f[i] is Enemy {
                            assert(e2.contains(f[i]));
                            let m = choose|m: int| 0 <= m < e2.len() && e2[m] == f[i];
                            crate::runtime::lemma_kind_in_ids(e2, m, RuntimeType::Enemy);
                            assert(crate::drain::held(f, f[i].id()));
                        }
                    }
                }
                self.ctx.clear();
            }
        }
        Ok(())
    }

    /// The system's own reaction to a delivered signal: none.
    fn run_self(&mut self, _signal: &Signal) -> (r: Result<(), Error>)
        ensures
            *final(self) == *old(self),
            r is Ok,
    {
        Ok(())
    }
}

} // verus!
