//! Decoding of the ledger records, framed as molecule tables: a little-endian
//! `u32` total size, one `u32` offset per field, then the fields; each field
//! here is a fixed-width little-endian integer or byte array.
use vstd::prelude::*;

use crate::global::GameGlobal;
use crate::global::PveSession;

verus! {

/// The number that bytes spell in little-endian order.
pub open spec fn le_value(s: Seq<u8>) -> int
    decreases s.len(),
{
    if s.len() == 0 {
        0
    } else {
        s[0] + 256 * le_value(s.drop_first())
    }
}

pub open spec fn pow256(n: nat) -> int
    decreases n,
{
    if n == 0 {
        1
    } else {
        256 * pow256((n - 1) as nat)
    }
}

proof fn lemma_pow256_le(a: nat, b: nat)
    requires
        a <= b,
    ensures
        pow256(a) <= pow256(b),
    decreases b,
{
    if a < b {
        lemma_pow256_le(a, (b - 1) as nat);
        lemma_pow256_pos((b - 1) as nat);
    }
}

proof fn lemma_pow256_pos(a: nat)
    ensures
        pow256(a) >= 1,
    decreases a,
{
    if a > 0 {
        lemma_pow256_pos((a - 1) as nat);
    }
}

/// The little-endian `u32` at byte `i`.
pub open spec fn u32_at(d: Seq<u8>, i: int) -> int {
    d[i] + 256 * d[i + 1] + 65536 * d[i + 2] + 16777216 * d[i + 3]
}

/// How many fields the table's header lists.
pub open spec fn field_count(d: Seq<u8>) -> int {
    u32_at(d, 4) / 4 - 1
}

/// Where field `i` starts; the end of the data for `i == field_count(d)`.
pub open spec fn field_start(d: Seq<u8>, i: int) -> int {
    if i == field_count(d) {
        d.len() as int
    } else {
        u32_at(d, 4 + 4 * i)
    }
}

/// The header is sound: the total size is the data's length, the first offset
/// is a multiple of four past the size, and the offsets ascend within the data.
pub open spec fn well_framed(d: Seq<u8>) -> bool {
    &&& d.len() >= 8
    &&& u32_at(d, 0) == d.len()
    &&& u32_at(d, 4) % 4 == 0
    &&& u32_at(d, 4) >= 8
    &&& u32_at(d, 4) <= d.len()
    &&& forall|i: int|
        1 <= i < field_count(d) ==> field_start(d, i - 1) <= #[trigger] field_start(d, i) <= d.len()
}

/// A well-framed table with at least as many fields as `sizes`, each of the given width.
pub open spec fn fields_fit(d: Seq<u8>, sizes: Seq<int>) -> bool {
    &&& well_framed(d)
    &&& field_count(d) >= sizes.len()
    &&& forall|i: int| 0 <= i < sizes.len() ==> field_start(d, i + 1) - field_start(d, i) == #[trigger] sizes[i]
}

/// The bytes of field `i`.
pub open spec fn field(d: Seq<u8>, i: int) -> Seq<u8> {
    d.subrange(field_start(d, i), field_start(d, i + 1))
}

/// The little-endian `u32` at byte `i`.
fn read_u32(d: &[u8], i: usize) -> (r: u64)
    requires
        i + 4 <= d@.len(),
    ensures
        r == u32_at(d@, i as int),
        r < 0x1_0000_0000,
{
    d[i] as u64 + 256 * d[i + 1] as u64 + 65536 * d[i + 2] as u64 + 16777216 * d[i + 3] as u64
}

/// The number that `len` bytes from `start` spell, little-endian.
pub(crate) fn read_le(d: &[u8], start: usize, len: usize) -> (r: u128)
    requires
        len <= 16,
        start + len <= d@.len(),
    ensures
        r == le_value(d@.subrange(start as int, start + len)),
        r < pow256(len as nat),
{
    proof {
        reveal_with_fuel(pow256, 17);
        assert(pow256(16) == u128::MAX + 1);
    }
    let n = d.len();
    let end = start + len;
    let mut acc: u128 = 0;
    let mut k: usize = end;
    assert(d@.subrange(end as int, end as int) =~= Seq::<u8>::empty());
    while k > start
        invariant
            start <= k <= end,
            end == start + len,
            len <= 16,
            end <= d@.len(),
            acc == le_value(d@.subrange(k as int, end as int)),
            acc < pow256((end - k) as nat),
            pow256(16) == u128::MAX + 1,
        decreases k - start,
    {
        k = k - 1;
        let b = d[k];
        proof {
            assert(d@.subrange(k as int, end as int).drop_first() =~= d@.subrange(k as int + 1, end as int));
            assert(pow256((end - k) as nat) == 256 * pow256((end - k - 1) as nat));
            assert(acc * 256 + b < 256 * pow256((end - k - 1) as nat)) by (nonlinear_arith)
                requires
                    acc < pow256((end - k - 1) as nat),
                    b < 256,
            ;
            lemma_pow256_le((end - k) as nat, 16);
        }
        acc = acc * 256 + b as u128;
    }
    acc
}

/// The starts of the first `sizes.len()` fields and the end of the last, if the
/// table is well framed and those fields have the given widths.
fn frame_fields(d: &[u8], sizes: &Vec<usize>) -> (r: Option<Vec<usize>>)
    ensures
        r is Some <==> fields_fit(d@, sizes@.map_values(|s: usize| s as int)),
        r matches Some(starts) ==> starts@.len() == sizes@.len() + 1 && forall|i: int|
            0 <= i <= sizes@.len() ==> #[trigger] starts@[i] == field_start(d@, i),
{
    let ghost want = sizes@.map_values(|s: usize| s as int);
    if d.len() < 8 {
        return None;
    }
    let total = read_u32(d, 0);
    if total != d.len() as u64 {
        return None;
    }
    let first = read_u32(d, 4);
    if first % 4 != 0 || first < 8 || first > total {
        return None;
    }
    let count = (first / 4 - 1) as usize;
    // every offset must stay within the data and not fall below the one before
    let mut i: usize = 1;
    while i < count
        invariant
            1 <= i,
            count == field_count(d@),
            first == u32_at(d@, 4),
            4 + 4 * count == first,
            first <= d@.len(),
            forall|j: int| 1 <= j < i && j < count ==> field_start(d@, j - 1) <= #[trigger] field_start(d@, j) <= d@.len(),
        decreases count - i,
    {
        let prev = read_u32(d, 4 + 4 * (i - 1));
        let cur = read_u32(d, 4 + 4 * i);
        assert(prev == field_start(d@, i - 1));
        assert(cur == field_start(d@, i as int));
        if prev > cur || cur > d.len() as u64 {
            assert(!(field_start(d@, i - 1) <= field_start(d@, i as int) <= d@.len()));
            return None;
        }
        i = i + 1;
    }
    if count < sizes.len() {
        return None;
    }
    let mut starts: Vec<usize> = Vec::new();
    starts.push(first as usize);
    let mut k: usize = 0;
    while k < sizes.len()
        invariant
            well_framed(d@),
            count == field_count(d@),
            count >= sizes@.len(),
            want == sizes@.map_values(|s: usize| s as int),
            k <= sizes@.len(),
            starts@.len() == k + 1,
            forall|j: int| 0 <= j <= k ==> #[trigger] starts@[j] == field_start(d@, j),
            forall|j: int| 0 <= j < k ==> field_start(d@, j + 1) - field_start(d@, j) == #[trigger] want[j],
        decreases sizes@.len() - k,
    {
        let next: usize = if k + 1 == count {
            d.len()
        } else {
            read_u32(d, 4 + 4 * (k + 1)) as usize
        };
        assert(next == field_start(d@, k + 1));
        assert(want[k as int] == sizes@[k as int] as int);
        proof {
            if k + 1 < count {
                assert(field_start(d@, k as int) <= field_start(d@, k + 1));
            } else if k >= 1 {
                assert(field_start(d@, k - 1) <= field_start(d@, k as int) <= d@.len());
            }
        }
        if next < starts[k] || next - starts[k] != sizes[k] {
            return None;
        }
        starts.push(next);
        k = k + 1;
    }
    Some(starts)
}

/// Widths of the global record's fields, in order.
pub open spec fn global_sizes() -> Seq<int> {
    seq![2, 2, 4, 2, 2, 2, 2, 4, 4, 4, 4, 2, 2, 16, 16]
}

/// The global record that bytes encode, if they encode one.
pub open spec fn global_of(d: Seq<u8>) -> Option<GameGlobal> {
    if fields_fit(d, global_sizes()) {
        Some(
            GameGlobal {
                action_point: le_value(field(d, 0)) as u16,
                pve_count: le_value(field(d, 1)) as u16,
                pve_hunted_gold: le_value(field(d, 2)) as u32,
                pve_easy_mode_count: le_value(field(d, 3)) as u16,
                pve_killed_enemy_count: le_value(field(d, 4)) as u16,
                pve_normal_mode_count: le_value(field(d, 5)) as u16,
                pve_hard_mode_count: le_value(field(d, 6)) as u16,
                pve_casued_damage: le_value(field(d, 7)) as u32,
                pve_sufferred_damage: le_value(field(d, 8)) as u32,
                pve_blocked_damage: le_value(field(d, 9)) as u32,
                pve_healed_hp: le_value(field(d, 10)) as u32,
                pvp_win_count: le_value(field(d, 11)) as u16,
                pvp_lose_count: le_value(field(d, 12)) as u16,
                pvp_looted_gold: le_value(field(d, 13)) as u128,
                pvp_stolen_gold: le_value(field(d, 14)) as u128,
            },
        )
    } else {
        None
    }
}

/// Field `i` of a table whose fields fit `sizes` lies within the data.
proof fn lemma_field_in_bounds(d: Seq<u8>, sizes: Seq<int>, i: int)
    requires
        fields_fit(d, sizes),
        0 <= i < sizes.len(),
    ensures
        0 <= field_start(d, i),
        field_start(d, i) + sizes[i] == field_start(d, i + 1),
        field_start(d, i + 1) <= d.len(),
{
    if i + 1 < field_count(d) {
        assert(field_start(d, i) <= field_start(d, i + 1) <= d.len());
    }
}

/// Reads field `i` (of width `len`) as a little-endian number.
fn read_field(d: &[u8], starts: &Vec<usize>, i: usize, len: usize, sizes: Ghost<Seq<int>>) -> (r: u128)
    requires
        fields_fit(d@, sizes@),
        i < sizes@.len(),
        sizes@[i as int] == len,
        len <= 16,
        starts@.len() == sizes@.len() + 1,
        forall|j: int| 0 <= j <= sizes@.len() ==> #[trigger] starts@[j] == field_start(d@, j),
    ensures
        r == le_value(field(d@, i as int)),
{
    proof {
        lemma_field_in_bounds(d@, sizes@, i as int);
        assert(starts@[i as int] == field_start(d@, i as int));
        assert(starts@[i + 1] == field_start(d@, i + 1));
    }
    read_le(d, starts[i], len)
}

/// Decodes a global record.
pub fn decode_game_global(data: &[u8]) -> (r: Option<GameGlobal>)
    ensures
        r == global_of(data@),
{
    let mut sizes: Vec<usize> = Vec::new();
    sizes.push(2);
    sizes.push(2);
    sizes.push(4);
    sizes.push(2);
    sizes.push(2);
    sizes.push(2);
    sizes.push(2);
    sizes.push(4);
    sizes.push(4);
    sizes.push(4);
    sizes.push(4);
    sizes.push(2);
    sizes.push(2);
    sizes.push(16);
    sizes.push(16);
    let ghost want = global_sizes();
    assert(sizes@.map_values(|s: usize| s as int) =~= want);
    let starts = frame_fields(data, &sizes)?;
    let g = Ghost(want);
    Some(
        GameGlobal {
            action_point: read_field(data, &starts, 0, 2, g) as u16,
            pve_count: read_field(data, &starts, 1, 2, g) as u16,
            pve_hunted_gold: read_field(data, &starts, 2, 4, g) as u32,
            pve_easy_mode_count: read_field(data, &starts, 3, 2, g) as u16,
            pve_killed_enemy_count: read_field(data, &starts, 4, 2, g) as u16,
            pve_normal_mode_count: read_field(data, &starts, 5, 2, g) as u16,
            pve_hard_mode_count: read_field(data, &starts, 6, 2, g) as u16,
            pve_casued_damage: read_field(data, &starts, 7, 4, g) as u32,
            pve_sufferred_damage: read_field(data, &starts, 8, 4, g) as u32,
            pve_blocked_damage: read_field(data, &starts, 9, 4, g) as u32,
            pve_healed_hp: read_field(data, &starts, 10, 4, g) as u32,
            pvp_win_count: read_field(data, &starts, 11, 2, g) as u16,
            pvp_lose_count: read_field(data, &starts, 12, 2, g) as u16,
            pvp_looted_gold: read_field(data, &starts, 13, 16, g),
            pvp_stolen_gold: read_field(data, &starts, 14, 16, g),
        },
    )
}

/// Widths of the session record's fields, in order.
pub open spec fn session_sizes() -> Seq<int> {
    seq![1, 2, 1, 32]
}

/// `s` is the session record that bytes encode.
pub open spec fn is_session_of(d: Seq<u8>, s: PveSession) -> bool {
    &&& fields_fit(d, session_sizes())
    &&& s.version == le_value(field(d, 0)) as u8
    &&& s.action_point == le_value(field(d, 1)) as u16
    &&& s.player_level == le_value(field(d, 2)) as u8
    &&& s.material_hash@ == field(d, 3)
}

/// The 32 bytes from `start`.
fn copy_hash(data: &[u8], start: usize) -> (r: [u8; 32])
    requires
        start + 32 <= data@.len(),
    ensures
        r@ == data@.subrange(start as int, start + 32),
{
    let n = data.len();
    let mut material_hash = [0u8; 32];
    let mut i: usize = 0;
    while i < 32
        invariant
            i <= 32,
            n == data@.len(),
            start + 32 <= n,
            forall|j: int| 0 <= j < i ==> material_hash@[j] == data@[start + j],
        decreases 32 - i,
    {
        material_hash[i] = data[start + i];
        i = i + 1;
    }
    assert(material_hash@ =~= data@.subrange(start as int, start + 32));
    material_hash
}

/// Decodes a session record.
pub fn decode_pve_session(data: &[u8]) -> (r: Option<PveSession>)
    ensures
        r is Some <==> fields_fit(data@, session_sizes()),
        r matches Some(s) ==> is_session_of(data@, s),
{
    let mut sizes: Vec<usize> = Vec::new();
    sizes.push(1);
    sizes.push(2);
    sizes.push(1);
    sizes.push(32);
    let ghost want = session_sizes();
    assert(sizes@.map_values(|s: usize| s as int) =~= want);
    let starts = frame_fields(data, &sizes)?;
    let g = Ghost(want);
    let version = read_field(data, &starts, 0, 1, g) as u8;
    let action_point = read_field(data, &starts, 1, 2, g) as u16;
    let player_level = read_field(data, &starts, 2, 1, g) as u8;
    proof {
        lemma_field_in_bounds(data@, want, 3);
        assert(starts@[3] == field_start(data@, 3));
    }
    let material_hash = copy_hash(data, starts[3]);
    assert(material_hash@ =~= field(data@, 3));
    Some(PveSession { version, action_point, player_level, material_hash })
}

} // verus!
