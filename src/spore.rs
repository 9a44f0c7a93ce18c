//! Spore cells: the ledger collectibles that carry card DNA.
use vstd::prelude::*;

use crate::dna::check_spore_cards;
use crate::dna::reconcile_outcome;
use crate::dna::DNA;
use crate::dna::DNA_LEN;
use crate::global::GameConfig;
use crate::global::ScriptError;
use crate::validate::Step;

verus! {

/// The value of an ASCII hex digit, either case.
pub open spec fn hex_digit(c: u8) -> Option<u8> {
    if 48 <= c <= 57 {
        Some((c - 48) as u8)
    } else if 97 <= c <= 102 {
        Some((c - 97 + 10) as u8)
    } else if 65 <= c <= 70 {
        Some((c - 65 + 10) as u8)
    } else {
        None
    }
}

/// The bytes that a hex text spells, two digits per byte, high digit first;
/// `None` for an odd length or a non-digit.
pub open spec fn hex_decoded(s: Seq<u8>) -> Option<Seq<u8>> {
    if s.len() % 2 != 0 || exists|i: int| 0 <= i < s.len() && (#[trigger] hex_digit(s[i])) is None {
        None
    } else {
        Some(
            Seq::new(
                (s.len() / 2) as nat,
                |i: int| (hex_digit(s[2 * i]).unwrap() * 16 + hex_digit(s[2 * i + 1]).unwrap()) as u8,
            ),
        )
    }
}

/// Relies on hex::decode: an even number of hex digits (either case) decodes to
/// one byte per pair, high digit first; anything else is an error.
#[verifier::external_body]
fn decode_hex(data: &[u8]) -> (r: Option<Vec<u8>>)
    ensures
        r is None <==> hex_decoded(data@) is None,
        r matches Some(v) ==> hex_decoded(data@) == Some(v@),
{
    hex::decode(data).ok()
}

/// Whether two byte strings are equal.
pub fn bytes_eq(a: &[u8], b: &[u8]) -> (r: bool)
    ensures
        r == (a@ == b@),
{
    if a.len() != b.len() {
        return false;
    }
    let mut i: usize = 0;
    while i < a.len()
        invariant
            i <= a@.len(),
            a@.len() == b@.len(),
            forall|j: int| 0 <= j < i ==> a@[j] == b@[j],
        decreases a@.len() - i,
    {
        if a[i] != b[i] {
            return false;
        }
        i = i + 1;
    }
    assert(a@ =~= b@);
    true
}

/// The data of a spore cell.
pub struct SporeData {
    pub content_type: Vec<u8>,
    pub content: Vec<u8>,
    pub cluster_id: Option<Vec<u8>>,
}

impl SporeData {
    /// The card identity that the content spells in hex, if it spells exactly one.
    pub fn dna(&self) -> (r: Option<DNA>)
        ensures
            r is None <==> !(hex_decoded(self.content@) matches Some(b) && b.len() == DNA_LEN),
            r matches Some(d) ==> hex_decoded(self.content@) == Some(d@),
    {
        let decoded = decode_hex(self.content.as_slice())?;
        if decoded.len() != DNA_LEN {
            return None;
        }
        let mut dna: DNA = [0u8; DNA_LEN];
        let mut i: usize = 0;
        while i < DNA_LEN
            invariant
                decoded@.len() == DNA_LEN,
                i <= DNA_LEN,
                forall|j: int| 0 <= j < i ==> dna@[j] == decoded@[j],
            decreases DNA_LEN - i,
        {
            dna[i] = decoded[i];
            i = i + 1;
        }
        assert(dna@ =~= decoded@);
        Some(dna)
    }
}

/// The witness-carried materials of a session: the claimed card identities and
/// the engine archives around the session.
pub struct PveSessionMaterials {
    pub dna_collection: Vec<DNA>,
    pub archive_input: Vec<u8>,
    pub archive_output: Vec<u8>,
}

/// A script, as its three parts.
pub struct Script {
    pub code_hash: [u8; 32],
    pub hash_type: u8,
    pub args: Vec<u8>,
}

impl Script {
    pub open spec fn same(self, other: Script) -> bool {
        self.code_hash@ == other.code_hash@ && self.hash_type == other.hash_type && self.args@ == other.args@
    }

    /// Whether two scripts agree in code hash, hash type and args.
    pub fn eq(&self, other: &Script) -> (r: bool)
        ensures
            r == self.same(*other),
    {
        bytes_eq(self.code_hash.as_slice(), other.code_hash.as_slice()) && self.hash_type == other.hash_type
            && bytes_eq(self.args.as_slice(), other.args.as_slice())
    }
}

/// A spore cell's card identity, or the reason it has none: its cluster is not a
/// card cluster, or its content does not spell one DNA.
pub open spec fn spore_dna(config: GameConfig, s: SporeData) -> Option<Seq<u8>> {
    match hex_decoded(s.content@) {
        Some(b) => if b.len() == DNA_LEN { Some(b) } else { None },
        None => None,
    }
}

/// Whether a spore belongs to one of the card clusters.
pub open spec fn in_card_cluster(config: GameConfig, s: SporeData) -> bool {
    s.cluster_id matches Some(id) && exists|i: int|
        0 <= i < config.dob_card_clusters@.len() && config.dob_card_clusters@[i]@ == id@
}

/// The card identities of the spores that the ledger provides. Every spore must
/// be of a card cluster (checked over all spores first), then every one must
/// spell a DNA.
pub fn collect_dnas(config: &GameConfig, spores: &Vec<SporeData>) -> (r: Result<Vec<DNA>, ScriptError>)
    ensures
        (exists|i: int| 0 <= i < spores@.len() && !in_card_cluster(*config, #[trigger] spores@[i])) ==> r
            == Err::<Vec<DNA>, ScriptError>(ScriptError::GameplaySporeClusterIdUnexpected),
        (forall|i: int| 0 <= i < spores@.len() ==> in_card_cluster(*config, #[trigger] spores@[i])) && (exists|
            i: int,
        | 0 <= i < spores@.len() && (#[trigger] spore_dna(*config, spores@[i])) is None) ==> r == Err::<
            Vec<DNA>,
            ScriptError,
        >(ScriptError::GameplaySporeDnaUnexpected),
        (forall|i: int| 0 <= i < spores@.len() ==> in_card_cluster(*config, #[trigger] spores@[i])) && (forall|
            i: int,
        | 0 <= i < spores@.len() ==> (#[trigger] spore_dna(*config, spores@[i])) is Some) ==> r is Ok,
        r matches Ok(v) ==> v@.len() == spores@.len() && forall|i: int|
            0 <= i < v@.len() ==> #[trigger] spore_dna(*config, spores@[i]) == Some(v@[i]@),
{
    let mut i: usize = 0;
    while i < spores.len()
        invariant
            i <= spores@.len(),
            forall|j: int| 0 <= j < i ==> in_card_cluster(*config, #[trigger] spores@[j]),
        decreases spores@.len() - i,
    {
        if !config.is_valid_cluster(&spores[i]) {
            return Err(ScriptError::GameplaySporeClusterIdUnexpected);
        }
        i = i + 1;
    }
    let mut dnas: Vec<DNA> = Vec::new();
    let mut k: usize = 0;
    while k < spores.len()
        invariant
            k <= spores@.len(),
            dnas@.len() == k,
            forall|j: int| 0 <= j < spores@.len() ==> in_card_cluster(*config, #[trigger] spores@[j]),
            forall|j: int| 0 <= j < k ==> #[trigger] spore_dna(*config, spores@[j]) == Some(dnas@[j]@),
        decreases spores@.len() - k,
    {
        match spores[k].dna() {
            Some(dna) => dnas.push(dna),
            None => {
                assert(spore_dna(*config, spores@[k as int]) is None);
                return Err(ScriptError::GameplaySporeDnaUnexpected);
            },
        }
        k = k + 1;
    }
    Ok(dnas)
}

/// The verdict on the spores that a step sees: every spore must be of a card
/// cluster, then spell a DNA; their DNA must then reconcile with the claimed
/// collection and the default catalog.
pub open spec fn cards_outcome(config: GameConfig, spores: Seq<SporeData>, claimed: Seq<DNA>) -> Result<
    Option<Step>,
    ScriptError,
> {
    if exists|i: int| 0 <= i < spores.len() && !in_card_cluster(config, #[trigger] spores[i]) {
        Err(ScriptError::GameplaySporeClusterIdUnexpected)
    } else if exists|i: int| 0 <= i < spores.len() && (#[trigger] spore_dna(config, spores[i])) is None {
        Err(ScriptError::GameplaySporeDnaUnexpected)
    } else {
        let provided = Seq::new(spores.len(), |i: int| dna_of(spore_dna(config, spores[i]).unwrap()));
        match reconcile_outcome(provided, claimed, config.default_gameplay_cards@) {
            Ok(_) => Ok(None),
            Err(e) => Err(e),
        }
    }
}

/// The DNA whose bytes are `b` (of DNA length).
pub open spec fn dna_of(b: Seq<u8>) -> DNA {
    choose|d: DNA| d@ == b
}

/// Checks the spores of `spores` against the claimed collection.
fn check_spores(config: &GameConfig, spores: &Vec<SporeData>, gameplay_cards: Vec<DNA>) -> (r: Result<
    Option<Step>,
    ScriptError,
>)
    ensures
        r == cards_outcome(*config, spores@, gameplay_cards@),
{
    let provided = collect_dnas(config, spores)?;
    proof {
        let want = Seq::new(spores@.len(), |i: int| dna_of(spore_dna(*config, spores@[i]).unwrap()));
        assert forall|i: int| 0 <= i < provided@.len() implies provided@[i] == want[i] by {
            assert(spore_dna(*config, spores@[i]) == Some(provided@[i]@));
            let d = dna_of(provided@[i]@);
            assert(d@ == provided@[i]@);
            assert(d =~= provided@[i]);
        }
        assert(provided@ =~= want);
    }
    check_spore_cards(&provided, gameplay_cards, &config.default_gameplay_cards)?;
    Ok(None)
}

/// The spores that a new session locks up carry card identities that the claimed
/// collection (and then the default catalog) accounts for.
pub struct SporeCardsLockupChecker {}

impl SporeCardsLockupChecker {
    pub fn verify(config: &GameConfig, spores: &Vec<SporeData>, gameplay_cards: Vec<DNA>) -> (r: Result<
        Option<Step>,
        ScriptError,
    >)
        ensures
            r == cards_outcome(*config, spores@, gameplay_cards@),
    {
        check_spores(config, spores, gameplay_cards)
    }
}

/// The spores that a settled session releases carry card identities that the
/// claimed collection (and then the default catalog) accounts for.
pub struct SporeCardsRedeemChecker {}

impl SporeCardsRedeemChecker {
    pub fn verify(config: &GameConfig, spores: &Vec<SporeData>, gameplay_cards: Vec<DNA>) -> (r: Result<
        Option<Step>,
        ScriptError,
    >)
        ensures
            r == cards_outcome(*config, spores@, gameplay_cards@),
    {
        check_spores(config, spores, gameplay_cards)
    }
}

/// Parameters of the blind-box and card collections, and the payee of the protocol.
pub struct DobGlobalStatistics {
    pub protocol_payee: Script,
    pub protocol_owner_hash: [u8; 32],
    pub blindbox_cluster_id: [u8; 32],
    pub card_cluster_id: [u8; 32],
    pub global_unboxed_count: u32,
    pub ckb_base: u64,
    pub ckb_increase_per_unbox: u64,
}

/// What outputs locked by `payee` hold in all.
pub open spec fn paid_to(payee: Script, outputs: Seq<(Script, u64)>) -> int
    decreases outputs.len(),
{
    if outputs.len() == 0 {
        0
    } else {
        paid_to(payee, outputs.drop_last()) + if outputs.last().0.same(payee) {
            outputs.last().1 as int
        } else {
            0
        }
    }
}

impl DobGlobalStatistics {
    /// The capacity that outputs (lock and capacity each) pay to the protocol payee.
    pub fn get_ckb_payment(&self, outputs: &Vec<(Script, u64)>) -> (r: u128)
        ensures
            r == paid_to(self.protocol_payee, outputs@),
    {
        let mut total: u128 = 0;
        let mut i: usize = 0;
        while i < outputs.len()
            invariant
                i <= outputs@.len(),
                total == paid_to(self.protocol_payee, outputs@.subrange(0, i as int)),
                total <= i * (u64::MAX as int),
            decreases outputs@.len() - i,
        {
            assert(outputs@.subrange(0, i as int + 1).drop_last() == outputs@.subrange(0, i as int));
            assert((i + 1) * (u64::MAX as int) <= (usize::MAX as int + 1) * (u64::MAX as int)) by (nonlinear_arith)
                requires
                    i < usize::MAX,
            ;
            if outputs[i].0.eq(&self.protocol_payee) {
                total = total + outputs[i].1 as u128;
            }
            assert(total <= (i + 1) * (u64::MAX as int)) by (nonlinear_arith)
                requires
                    total <= i * (u64::MAX as int) + u64::MAX,
            ;
            i = i + 1;
        }
        assert(outputs@.subrange(0, outputs@.len() as int) == outputs@);
        total
    }
}

/// The card identities of the spores held in cell deps are accounted for by the
/// claimed collection (and then the default catalog).
pub struct PveSessionCardsChecker {}

impl PveSessionCardsChecker {
    pub fn verify(config: &GameConfig, spores: &Vec<SporeData>, gameplay_cards: Vec<DNA>) -> (r: Result<
        Option<Step>,
        ScriptError,
    >)
        ensures
            r == cards_outcome(*config, spores@, gameplay_cards@),
    {
        check_spores(config, spores, gameplay_cards)
    }
}

} // verus!
