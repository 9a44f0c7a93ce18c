//! Card identities (DNA) and their reconciliation against claimed collections.
use vstd::prelude::*;
use vstd::seq_lib::lemma_multiset_commutative;
use vstd::seq_lib::to_multiset_build;
use vstd::seq_lib::to_multiset_contains;
use vstd::seq_lib::to_multiset_remove;

use crate::global::ScriptError;

verus! {

/// Length in bytes of a card's DNA.
pub const DNA_LEN: usize = 16;

/// The fixed-size identifier that binds a ledger collectible to a card identity.
pub type DNA = [u8; DNA_LEN];

/// Whether two DNA values are equal.
pub fn dna_eq(a: &DNA, b: &DNA) -> (r: bool)
    ensures
        r == (*a == *b),
{
    let mut i: usize = 0;
    while i < DNA_LEN
        invariant
            i <= DNA_LEN,
            forall|j: int| 0 <= j < i ==> a@[j] == b@[j],
        decreases DNA_LEN - i,
    {
        if a[i] != b[i] {
            return false;
        }
        i = i + 1;
    }
    assert(*a =~= *b);
    true
}

/// A copy of a list of DNA values.
pub fn copy_dnas(v: &Vec<DNA>) -> (r: Vec<DNA>)
    ensures
        r@ == v@,
{
    let mut r: Vec<DNA> = Vec::new();
    let mut i: usize = 0;
    while i < v.len()
        invariant
            i <= v@.len(),
            r@ == v@.subrange(0, i as int),
        decreases v@.len() - i,
    {
        r.push(v[i]);
        i = i + 1;
        assert(r@ == v@.subrange(0, i as int));
    }
    assert(v@.subrange(0, v@.len() as int) == v@);
    r
}

/// Where `x` first occurs in `v`, if anywhere.
pub fn position_of(v: &Vec<DNA>, x: &DNA) -> (r: Option<usize>)
    ensures
        r matches Some(k) ==> k < v@.len() && v@[k as int] == *x,
        r is None ==> !v@.contains(*x),
{
    let mut k: usize = 0;
    while k < v.len()
        invariant
            k <= v@.len(),
            forall|j: int| 0 <= j < k ==> v@[j] != *x,
        decreases v@.len() - k,
    {
        if dna_eq(&v[k], x) {
            return Some(k);
        }
        k = k + 1;
    }
    None
}

/// Each entry of `items` can be matched with its own entry of `pool`.
pub open spec fn fits_in(items: Seq<DNA>, pool: Seq<DNA>) -> bool {
    items.to_multiset().subset_of(pool.to_multiset())
}

/// What `claimed` has left once `provided` took its entries fits in `defaults`.
pub open spec fn leftover_fits(provided: Seq<DNA>, claimed: Seq<DNA>, defaults: Seq<DNA>) -> bool {
    forall|v: DNA|
        claimed.to_multiset().count(v) - provided.to_multiset().count(v) <= #[trigger] defaults.to_multiset().count(
            v,
        )
}

/// The verdict on the card identities of a session.
pub open spec fn reconcile_outcome(provided: Seq<DNA>, claimed: Seq<DNA>, defaults: Seq<DNA>) -> Result<
    (),
    ScriptError,
> {
    if !fits_in(provided, claimed) {
        Err(ScriptError::CardsDnaSetMismatchFromCelldep)
    } else if !leftover_fits(provided, claimed, defaults) {
        Err(ScriptError::CardsDnaSetMismatchFromDefault)
    } else {
        Ok(())
    }
}

/// A prefix of a sequence holds no more of any value than the whole.
proof fn lemma_prefix_count(s: Seq<DNA>, k: int, v: DNA)
    requires
        0 <= k <= s.len(),
    ensures
        s.subrange(0, k).to_multiset().count(v) <= s.to_multiset().count(v),
{
    let a = s.subrange(0, k);
    let b = s.subrange(k, s.len() as int);
    assert(s == a + b);
    lemma_multiset_commutative(a, b);
}

/// Matches every entry of `items` with its own entry of `pool`, and returns
/// what `pool` has left, or `None` when some entry finds no match.
fn consume_all(items: &Vec<DNA>, pool: Vec<DNA>) -> (r: Option<Vec<DNA>>)
    ensures
        r is Some <==> fits_in(items@, pool@),
        r matches Some(rest) ==> forall|v: DNA|
            #[trigger] rest@.to_multiset().count(v) + items@.to_multiset().count(v) == pool@.to_multiset().count(v),
{
    broadcast use vstd::seq_lib::group_to_multiset_ensures, vstd::multiset::group_multiset_axioms;

    let ghost original = pool@;
    let mut remaining = pool;
    let mut i: usize = 0;
    assert(items@.subrange(0, 0) =~= Seq::<DNA>::empty());
    while i < items.len()
        invariant
            i <= items@.len(),
            original == pool@,
            forall|v: DNA|
                #[trigger] remaining@.to_multiset().count(v) + items@.subrange(0, i as int).to_multiset().count(v)
                    == original.to_multiset().count(v),
        decreases items@.len() - i,
    {
        let x = items[i];
        let ghost prefix = items@.subrange(0, i as int);
        proof {
            assert(items@.subrange(0, i as int + 1) == prefix.push(x));
            to_multiset_build(prefix, x);
        }
        match position_of(&remaining, &x) {
            Some(k) => {
                let ghost before = remaining@;
                proof {
                    to_multiset_remove(before, k as int);
                    to_multiset_contains(before, x);
                    assert(before.contains(x));
                }
                remaining.remove(k);
                assert forall|v: DNA|
                    #[trigger] remaining@.to_multiset().count(v) + items@.subrange(0, i as int + 1).to_multiset().count(v)
                        == original.to_multiset().count(v) by {
                    assert(before.to_multiset().count(v) + prefix.to_multiset().count(v) == original.to_multiset().count(v));
                }
            },
            None => {
                proof {
                    to_multiset_contains(remaining@, x);
                    lemma_prefix_count(items@, i as int + 1, x);
                    assert(remaining@.to_multiset().count(x) + prefix.to_multiset().count(x) == original.to_multiset().count(x));
                    assert(items@.to_multiset().count(x) > original.to_multiset().count(x));
                    assert(!fits_in(items@, original));
                }
                return None;
            },
        }
        i = i + 1;
    }
    assert(items@.subrange(0, items@.len() as int) == items@);
    assert forall|v: DNA| items@.to_multiset().count(v) <= #[trigger] original.to_multiset().count(v) by {
        assert(remaining@.to_multiset().count(v) + items@.subrange(0, i as int).to_multiset().count(v)
            == original.to_multiset().count(v));
    }
    Some(remaining)
}

/// Checks the card identities of a session: each DNA that the ledger provides
/// takes one matching entry of the claimed collection (entries are not reused),
/// and every claimed entry left over must take one entry of the default catalog.
pub fn check_spore_cards(provided: &Vec<DNA>, claimed: Vec<DNA>, defaults: &Vec<DNA>) -> (r: Result<
    (),
    ScriptError,
>)
    ensures
        r == reconcile_outcome(provided@, claimed@, defaults@),
{
    let ghost claimed_view = claimed@;
    let rest = match consume_all(provided, claimed) {
        None => {
            return Err(ScriptError::CardsDnaSetMismatchFromCelldep);
        },
        Some(rest) => rest,
    };
    let fits = consume_all(&rest, copy_dnas(defaults));
    proof {
        assert forall|v: DNA| #[trigger] rest@.to_multiset().count(v) == claimed_view.to_multiset().count(v)
            - provided@.to_multiset().count(v) by {
            assert(rest@.to_multiset().count(v) + provided@.to_multiset().count(v) == claimed_view.to_multiset().count(v));
        }
        if fits_in(rest@, defaults@) {
            assert forall|v: DNA|
                claimed_view.to_multiset().count(v) - provided@.to_multiset().count(v)
                    <= #[trigger] defaults@.to_multiset().count(v) by {
                assert(rest@.to_multiset().count(v) <= defaults@.to_multiset().count(v));
            }
        } else {
            let v = choose|v: DNA| !(rest@.to_multiset().count(v) <= defaults@.to_multiset().count(v));
            assert(!(claimed_view.to_multiset().count(v) - provided@.to_multiset().count(v)
                <= defaults@.to_multiset().count(v)));
        }
    }
    match fits {
        None => Err(ScriptError::CardsDnaSetMismatchFromDefault),
        Some(_) => Ok(()),
    }
}

/// A DNA that the ledger provides more often than the claimed collection holds
/// it makes the check fail, whatever else matches: duplicates on the ledger
/// each need their own claimed entry.
pub proof fn lemma_unmatched_dna_rejected(provided: Seq<DNA>, claimed: Seq<DNA>, defaults: Seq<DNA>, x: DNA)
    requires
        provided.to_multiset().count(x) > claimed.to_multiset().count(x),
    ensures
        reconcile_outcome(provided, claimed, defaults) == Err::<(), ScriptError>(
            ScriptError::CardsDnaSetMismatchFromCelldep,
        ),
{
}

/// A ledger DNA with no claimed entry at all makes the check fail.
pub proof fn lemma_absent_dna_rejected(provided: Seq<DNA>, claimed: Seq<DNA>, defaults: Seq<DNA>, x: DNA)
    requires
        provided.contains(x),
        !claimed.contains(x),
    ensures
        reconcile_outcome(provided, claimed, defaults) == Err::<(), ScriptError>(
            ScriptError::CardsDnaSetMismatchFromCelldep,
        ),
{
    to_multiset_contains(provided, x);
    to_multiset_contains(claimed, x);
}

} // verus!
