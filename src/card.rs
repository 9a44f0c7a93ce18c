//! Card templates and the cards rolled from them.
use vstd::prelude::*;
use vstd::string::*;

use crate::value::ValueType;

verus! {

#[derive(Clone, Copy, PartialEq, Eq, Structural, Debug)]
pub enum CardCategory {
    Attack,
    Defense,
    Spirit,
    Recover,
    Skill,
    Trap,
    Sorcery,
    Equipment,
}

#[derive(Clone, Copy, PartialEq, Eq, Structural, Debug)]
pub enum CardTarget {
    Player,
    Enemy,
    Entity,
    RandomEnemy,
    AllEnemies,
    AllEntities,
}

/// Names of the cards that the behaviour registry knows.
#[derive(Clone, Copy, PartialEq, Eq, Structural, Debug)]
pub enum CardName {
    Attack,
}

#[derive(Clone, Copy, PartialEq, Eq, Structural, Debug)]
pub enum AwakeTrigger {
    Cost,
    Damage,
    Hurt,
    Round,
}

pub struct AwakeConfig {
    pub awake_type: AwakeTrigger,
    pub value: ValueType,
}

pub struct CardConfig {
    pub version: u8,
    pub name: CardName,
    pub rarity: u8,
    pub exile: bool,
    pub cost: ValueType,
    pub awake: Option<AwakeConfig>,
    pub category: CardCategory,
    pub target: CardTarget,
    pub description: String,
    pub value_0: Option<ValueType>,
    pub value_1: Option<ValueType>,
}

impl Clone for AwakeConfig {
    fn clone(&self) -> (r: Self)
        ensures
            r == *self,
    {
        AwakeConfig { awake_type: self.awake_type, value: self.value.clone() }
    }
}

/// Copies an optional value, keeping it equal to the original.
fn clone_value(v: &Option<ValueType>) -> (r: Option<ValueType>)
    ensures
        r == *v,
{
    match v {
        Some(x) => Some(x.clone()),
        None => None,
    }
}

impl Clone for CardConfig {
    fn clone(&self) -> (r: Self)
        ensures
            r == *self,
    {
        let awake = match &self.awake {
            Some(a) => Some(a.clone()),
            None => None,
        };
        CardConfig {
            version: self.version,
            name: self.name,
            rarity: self.rarity,
            exile: self.exile,
            cost: self.cost.clone(),
            awake,
            category: self.category,
            target: self.target,
            description: self.description.clone(),
            value_0: clone_value(&self.value_0),
            value_1: clone_value(&self.value_1),
        }
    }
}

/// The rolled value of an optional attribute; an absent one is zero.
pub open spec fn rolled_or_zero(v: Option<ValueType>, seed: u8) -> u8 {
    match v {
        Some(x) => x.rolled(seed) as u8,
        None => 0,
    }
}

impl CardConfig {
    /// Every rolled range of the template is non-empty.
    pub open spec fn wf(self) -> bool {
        &&& self.cost.wf()
        &&& (self.awake matches Some(a) ==> a.value.wf())
        &&& (self.value_0 matches Some(v) ==> v.wf())
        &&& (self.value_1 matches Some(v) ==> v.wf())
    }
}

pub struct CardPool {
    pub inner: Vec<CardConfig>,
}

#[derive(Clone, Copy, PartialEq, Eq, Structural, Debug)]
pub struct Awake {
    pub awake_type: AwakeTrigger,
    pub value: u8,
}

pub struct Card {
    pub seed: u64,
    pub name: CardName,
    pub golden: bool,
    pub target: CardTarget,
    pub cost: u8,
    pub exile: bool,
    pub awake: Option<Awake>,
    pub category: CardCategory,
    pub description: String,
    pub value_0: u8,
    pub value_1: u8,
}

impl Clone for Card {
    fn clone(&self) -> (r: Self)
        ensures
            r == *self,
    {
        Card {
            seed: self.seed,
            name: self.name,
            golden: self.golden,
            target: self.target,
            cost: self.cost,
            exile: self.exile,
            awake: self.awake,
            category: self.category,
            description: self.description.clone(),
            value_0: self.value_0,
            value_1: self.value_1,
        }
    }
}

/// The decimal digits of a number.
pub open spec fn decimal(n: u8) -> Seq<char>
    decreases n,
{
    let digit = seq!['0', '1', '2', '3', '4', '5', '6', '7', '8', '9'][(n % 10) as int];
    if n < 10 {
        seq![digit]
    } else {
        decimal((n / 10) as u8).push(digit)
    }
}

/// Whether a text starts with the placeholder `{}`.
pub open spec fn at_hole(s: Seq<char>) -> bool {
    s.len() >= 2 && s[0] == '{' && s[1] == '}'
}

/// How many placeholders `{}` a text holds, read left to right without overlap.
pub open spec fn hole_count(s: Seq<char>) -> nat
    decreases s.len(),
{
    if s.len() == 0 {
        0
    } else if at_hole(s) {
        hole_count(s.subrange(2, s.len() as int)) + 1
    } else {
        hole_count(s.drop_first())
    }
}

/// The fills one after another.
pub open spec fn joined(fills: Seq<Seq<char>>) -> Seq<char>
    decreases fills.len(),
{
    if fills.len() == 0 {
        Seq::empty()
    } else {
        fills[0] + joined(fills.drop_first())
    }
}

/// The text with each placeholder replaced by the next of `fills`; placeholders
/// beyond the fills vanish, and fills beyond the placeholders go at the end.
pub open spec fn filled(s: Seq<char>, fills: Seq<Seq<char>>) -> Seq<char>
    decreases s.len(),
{
    if s.len() == 0 {
        joined(fills)
    } else if at_hole(s) {
        (if fills.len() > 0 {
            fills[0]
        } else {
            Seq::<char>::empty()
        }) + filled(s.subrange(2, s.len() as int), if fills.len() > 0 { fills.drop_first() } else { fills })
    } else {
        seq![s[0]] + filled(s.drop_first(), fills)
    }
}

/// The card's non-zero attribute values, in slot order, as decimal text.
pub open spec fn value_fills(value_0: u8, value_1: u8) -> Seq<Seq<char>> {
    let first = if value_0 > 0 { seq![decimal(value_0)] } else { Seq::empty() };
    if value_1 > 0 {
        first.push(decimal(value_1))
    } else {
        first
    }
}

/// Appends the decimal digits of `n`.
fn append_decimal(out: &mut String, n: u8)
    ensures
        final(out)@ == old(out)@ + decimal(n),
{
    let digits = "0123456789";
    proof {
        reveal_strlit("0123456789");
    }
    if n >= 100 {
        out.append(digits.substring_char((n / 100) as usize, (n / 100) as usize + 1));
    }
    if n >= 10 {
        out.append(digits.substring_char((n / 10 % 10) as usize, (n / 10 % 10) as usize + 1));
    }
    out.append(digits.substring_char((n % 10) as usize, (n % 10) as usize + 1));
    proof {
        let d = seq!['0', '1', '2', '3', '4', '5', '6', '7', '8', '9'];
        if n >= 100 {
            assert(decimal((n / 10) as u8) == decimal((n / 100) as u8).push(d[(n / 10 % 10) as int]));
            assert(decimal((n / 100) as u8) == seq![d[(n / 100) as int]]);
        } else if n >= 10 {
            assert(decimal((n / 10) as u8) == seq![d[(n / 10) as int]]);
        }
    }
}

/// `filled` over a suffix, written as the remaining work of a left-to-right pass.
proof fn lemma_filled_step(s: Seq<char>, i: int, fills: Seq<Seq<char>>)
    requires
        0 <= i < s.len(),
    ensures
        at_hole(s.subrange(i, s.len() as int)) ==> filled(s.subrange(i, s.len() as int), fills) == (if fills.len()
            > 0 {
            fills[0]
        } else {
            Seq::<char>::empty()
        }) + filled(s.subrange(i + 2, s.len() as int), if fills.len() > 0 { fills.drop_first() } else { fills }),
        !at_hole(s.subrange(i, s.len() as int)) ==> filled(s.subrange(i, s.len() as int), fills) == seq![s[i]]
            + filled(s.subrange(i + 1, s.len() as int), fills),
        at_hole(s.subrange(i, s.len() as int)) ==> hole_count(s.subrange(i, s.len() as int)) == hole_count(
            s.subrange(i + 2, s.len() as int),
        ) + 1,
        !at_hole(s.subrange(i, s.len() as int)) ==> hole_count(s.subrange(i, s.len() as int)) == hole_count(
            s.subrange(i + 1, s.len() as int),
        ),
{
    let t = s.subrange(i, s.len() as int);
    if t.len() >= 2 {
        assert(t.subrange(2, t.len() as int) =~= s.subrange(i + 2, s.len() as int));
    }
    assert(t.drop_first() =~= s.subrange(i + 1, s.len() as int));
}

impl Card {
    /// Fills the description's placeholders with the card's non-zero attribute values.
    pub fn descripted(&mut self)
        ensures
            final(self).description@ == filled(
                old(self).description@,
                value_fills(old(self).value_0, old(self).value_1),
            ),
            *final(self) == (Card { description: final(self).description, ..*old(self) }),
    {
        let ghost text = self.description@;
        let ghost all_fills = value_fills(self.value_0, self.value_1);
        let mut pending: Vec<u8> = Vec::new();
        if self.value_0 > 0 {
            pending.push(self.value_0);
        }
        if self.value_1 > 0 {
            pending.push(self.value_1);
        }
        let n = self.description.as_str().unicode_len();
        let mut out = String::new();
        let mut used: usize = 0;
        let mut i: usize = 0;
        assert(all_fills.len() == pending@.len());
        assert(text.subrange(0, n as int) =~= text);
        assert(all_fills.subrange(0, all_fills.len() as int) =~= all_fills);
        assert(out@ + filled(text, all_fills) =~= filled(text, all_fills));
        while i < n
            invariant
                n == text.len(),
                text == self.description@,
                i <= n,
                used <= pending@.len() <= 2,
                all_fills.len() == pending@.len(),
                forall|k: int| 0 <= k < pending@.len() ==> #[trigger] all_fills[k] == decimal(pending@[k]),
                filled(text, all_fills) == out@ + filled(text.subrange(i as int, n as int), all_fills.subrange(used as int, all_fills.len() as int)),
            decreases n - i,
        {
            let ghost rest = all_fills.subrange(used as int, all_fills.len() as int);
            proof {
                lemma_filled_step(text, i as int, rest);
            }
            let hole = i + 1 < n && self.description.as_str().get_char(i) == '{'
                && self.description.as_str().get_char(i + 1) == '}';
            assert(hole == at_hole(text.subrange(i as int, n as int)));
            if hole {
                if used < pending.len() {
                    append_decimal(&mut out, pending[used]);
                    assert(rest.drop_first() =~= all_fills.subrange(used + 1, all_fills.len() as int));
                    used = used + 1;
                }
                i = i + 2;
            } else {
                out.append(self.description.as_str().substring_char(i, i + 1));
                assert(text.subrange(i as int, i + 1) =~= seq![text[i as int]]);
                i = i + 1;
            }
        }
        assert(text.subrange(n as int, n as int) =~= Seq::<char>::empty());
        while used < pending.len()
            invariant
                used <= pending@.len() <= 2,
                all_fills.len() == pending@.len(),
                forall|k: int| 0 <= k < pending@.len() ==> #[trigger] all_fills[k] == decimal(pending@[k]),
                filled(text, all_fills) == out@ + joined(all_fills.subrange(used as int, all_fills.len() as int)),
            decreases pending@.len() - used,
        {
            let ghost rest = all_fills.subrange(used as int, all_fills.len() as int);
            assert(rest.drop_first() =~= all_fills.subrange(used + 1, all_fills.len() as int));
            assert(joined(rest) == rest[0] + joined(rest.drop_first()));
            append_decimal(&mut out, pending[used]);
            used = used + 1;
        }
        assert(all_fills.subrange(used as int, all_fills.len() as int) =~= Seq::<Seq<char>>::empty());
        assert(out@ + joined(Seq::<Seq<char>>::empty()) =~= out@);
        self.description = out;
    }
}

/// Byte `k` of the little-endian encoding of `seed`.
pub open spec fn seed_byte(seed: u64, k: u64) -> u8 {
    ((seed >> (8 * k)) & 0xff) as u8
}

/// Byte `k` of the little-endian encoding of `seed`.
pub fn le_byte(seed: u64, k: u64) -> (r: u8)
    requires
        k < 8,
    ensures
        r == seed_byte(seed, k),
{
    ((seed >> (8 * k)) & 0xff) as u8
}

/// The card that `seed` rolls from `card`, before its description is filled in.
pub open spec fn rolled_card_fields(card: CardConfig, seed: u64, r: Card) -> bool {
    &&& r.seed == seed
    &&& r.name == card.name
    &&& !r.golden
    &&& r.target == card.target
    &&& r.cost == card.cost.rolled(seed_byte(seed, 0)) as u8
    &&& r.exile == card.exile
    &&& r.awake == (match card.awake {
        Some(a) => Some(Awake { awake_type: a.awake_type, value: a.value.rolled(seed_byte(seed, 1)) as u8 }),
        None => None,
    })
    &&& r.category == card.category
    &&& r.value_0 == rolled_or_zero(card.value_0, seed_byte(seed, 2))
    &&& r.value_1 == rolled_or_zero(card.value_1, seed_byte(seed, 3))
}

pub fn instance_card_by_seed(card: &CardConfig, seed: u64) -> (r: Card)
    requires
        card.wf(),
    ensures
        rolled_card_fields(*card, seed, r),
        r.description@ == filled(card.description@, value_fills(r.value_0, r.value_1)),
{
    let awake = match &card.awake {
        Some(a) => Some(Awake { awake_type: a.awake_type, value: a.value.value_u8(le_byte(seed, 1)) }),
        None => None,
    };
    let value_0 = match &card.value_0 {
        Some(v) => v.value_u8(le_byte(seed, 2)),
        None => 0,
    };
    let value_1 = match &card.value_1 {
        Some(v) => v.value_u8(le_byte(seed, 3)),
        None => 0,
    };
    let mut instance = Card {
        seed,
        name: card.name,
        golden: false,
        target: card.target,
        cost: card.cost.value_u8(le_byte(seed, 0)),
        exile: card.exile,
        awake,
        category: card.category,
        description: card.description.clone(),
        value_0,
        value_1,
    };
    instance.descripted();
    instance
}

/// The first template of the pool with the given name, if any.
pub fn get_card_template_by_name(card_pool: &CardPool, name: CardName) -> (r: Option<CardConfig>)
    ensures
        r is None <==> forall|i: int| 0 <= i < card_pool.inner@.len() ==> card_pool.inner@[i].name != name,
        r matches Some(c) ==> exists|i: int|
            0 <= i < card_pool.inner@.len() && card_pool.inner@[i] == c && c.name == name
                && forall|j: int| 0 <= j < i ==> card_pool.inner@[j].name != name,
{
    let mut i: usize = 0;
    while i < card_pool.inner.len()
        invariant
            i <= card_pool.inner@.len(),
            forall|j: int| 0 <= j < i ==> card_pool.inner@[j].name != name,
        decreases card_pool.inner@.len() - i,
    {
        if card_pool.inner[i].name == name {
            return Some(card_pool.inner[i].clone());
        }
        i = i + 1;
    }
    None
}

} // verus!
