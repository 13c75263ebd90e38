//! The fixed permutation table and the hash from integer lattice points to
//! gradient-table slots.
use vstd::prelude::*;

verus! {

/// Number of slots in the permutation table and in every gradient table.
pub const TABLE_SIZE: usize = 256;

/// A fixed pseudo-random permutation of 0..256, shared by every generator.
pub const PERMUTATION_TABLE: [u8; 256] = [
    151, 160, 137, 91, 90, 15, 131, 13, 201, 95, 96, 53, 194, 233, 7, 225,
    140, 36, 103, 30, 69, 142, 8, 99, 37, 240, 21, 10, 23, 190, 6, 148,
    247, 120, 234, 75, 0, 26, 197, 62, 94, 252, 219, 203, 117, 35, 11, 32,
    57, 177, 33, 88, 237, 149, 56, 87, 174, 20, 125, 136, 171, 168, 68, 175,
    74, 165, 71, 134, 139, 48, 27, 166, 77, 146, 158, 231, 83, 111, 229, 122,
    60, 211, 133, 230, 220, 105, 92, 41, 55, 46, 245, 40, 244, 102, 143, 54,
    65, 25, 63, 161, 1, 216, 80, 73, 209, 76, 132, 187, 208, 89, 18, 169,
    200, 196, 135, 130, 116, 188, 159, 86, 164, 100, 109, 198, 173, 186, 3, 64,
    52, 217, 226, 250, 124, 123, 5, 202, 38, 147, 118, 126, 255, 82, 85, 212,
    207, 206, 59, 227, 47, 16, 58, 17, 182, 189, 28, 42, 223, 183, 170, 213,
    119, 248, 152, 2, 44, 154, 163, 70, 221, 153, 101, 155, 167, 43, 172, 9,
    129, 22, 39, 253, 19, 98, 108, 110, 79, 113, 224, 232, 178, 185, 112, 104,
    218, 246, 97, 228, 251, 34, 242, 193, 238, 210, 144, 12, 191, 179, 162, 241,
    81, 51, 145, 235, 249, 14, 239, 107, 49, 192, 214, 31, 181, 199, 106, 157,
    184, 84, 204, 176, 115, 121, 50, 45, 127, 4, 150, 254, 138, 236, 205, 93,
    222, 114, 67, 29, 24, 72, 243, 141, 128, 195, 78, 66, 215, 61, 156, 180,
];

/// The inverse of `PERMUTATION_TABLE`: entry `v` is the index that holds `v`.
pub const INVERSE_TABLE: [u8; 256] = [
    36, 100, 163, 126, 233, 134, 30, 14, 22, 175, 27, 46, 203, 7, 213, 5,
    149, 151, 110, 180, 57, 26, 177, 28, 244, 97, 37, 70, 154, 243, 19, 219,
    47, 50, 197, 45, 17, 24, 136, 178, 91, 87, 155, 173, 164, 231, 89, 148,
    69, 216, 230, 209, 128, 11, 95, 88, 54, 48, 150, 146, 80, 253, 39, 98,
    127, 96, 251, 242, 62, 20, 167, 66, 245, 103, 64, 35, 105, 72, 250, 184,
    102, 208, 141, 76, 225, 142, 119, 55, 51, 109, 4, 3, 86, 239, 40, 9,
    10, 194, 181, 23, 121, 170, 93, 18, 191, 85, 222, 215, 182, 122, 183, 77,
    190, 185, 241, 228, 116, 44, 138, 160, 33, 229, 79, 133, 132, 58, 139, 232,
    248, 176, 115, 6, 106, 82, 67, 114, 59, 2, 236, 68, 16, 247, 21, 94,
    202, 210, 73, 137, 31, 53, 234, 0, 162, 169, 165, 171, 254, 223, 74, 118,
    1, 99, 206, 166, 120, 65, 71, 172, 61, 111, 158, 60, 174, 124, 56, 63,
    227, 49, 188, 205, 255, 220, 152, 157, 224, 189, 125, 107, 117, 153, 29, 204,
    217, 199, 12, 249, 113, 38, 123, 221, 112, 8, 135, 43, 226, 238, 145, 144,
    108, 104, 201, 81, 143, 159, 218, 252, 101, 129, 192, 42, 84, 168, 240, 156,
    186, 15, 130, 147, 195, 78, 83, 75, 187, 13, 34, 211, 237, 52, 200, 214,
    25, 207, 198, 246, 92, 90, 193, 32, 161, 212, 131, 196, 41, 179, 235, 140,
];

/// The permutation table as a sequence.
pub open spec fn perm() -> Seq<u8> {
    PERMUTATION_TABLE@
}

/// The table slot that the lattice point `(x, y)` hashes to: the row `y` is
/// hashed first, the column `x` is added to that hash, and the sum is hashed
/// again, each index taken modulo 256 whatever its sign.
pub open spec fn lattice_slot_of(x: int, y: int) -> int {
    perm()[(perm()[y % 256] + x) % 256] as int
}

/// The first `n` entries of `INVERSE_TABLE` are sent back to their own index
/// by the permutation table.
spec fn inverse_holds_below(n: nat) -> bool
    decreases n,
{
    if n == 0 {
        true
    } else {
        &&& perm()[INVERSE_TABLE@[n - 1] as int] == n - 1
        &&& inverse_holds_below((n - 1) as nat)
    }
}

proof fn lemma_inverse_holds_below(n: nat, v: int)
    requires
        inverse_holds_below(n),
        0 <= v < n,
    ensures
        perm()[INVERSE_TABLE@[v] as int] == v,
    decreases n,
{
    if v < n - 1 {
        lemma_inverse_holds_below((n - 1) as nat, v);
    }
}

/// The permutation table is onto: every byte value is held at some index,
/// the one that `INVERSE_TABLE` gives.
pub proof fn lemma_perm_onto(v: int)
    requires
        0 <= v < 256,
    ensures
        0 <= INVERSE_TABLE@[v] < 256,
        perm()[INVERSE_TABLE@[v] as int] == v,
{
    reveal_with_fuel(inverse_holds_below, 17);
    assert(inverse_holds_below(16));
    assert(inverse_holds_below(32));
    assert(inverse_holds_below(48));
    assert(inverse_holds_below(64));
    assert(inverse_holds_below(80));
    assert(inverse_holds_below(96));
    assert(inverse_holds_below(112));
    assert(inverse_holds_below(128));
    assert(inverse_holds_below(144));
    assert(inverse_holds_below(160));
    assert(inverse_holds_below(176));
    assert(inverse_holds_below(192));
    assert(inverse_holds_below(208));
    assert(inverse_holds_below(224));
    assert(inverse_holds_below(240));
    assert(inverse_holds_below(256));
    lemma_inverse_holds_below(256, v);
}

/// Adding `x` or its residue modulo 256 lands on the same residue.
pub proof fn lemma_add_residue(a: int, x: int)
    ensures
        (a + x % 256) % 256 == (a + x) % 256,
{
    vstd::arithmetic::div_mod::lemma_fundamental_div_mod(x, 256);
    vstd::arithmetic::div_mod::lemma_mod_multiples_vanish(x / 256, a + x % 256, 256);
}

/// Lattice hashing is periodic with period 256 on each axis, whatever the
/// sign of the coordinates: a point, the point 256 columns to its right and
/// the point 256 rows below it hash to one slot, and that slot lies in the
/// table.
pub proof fn lemma_slot_periodic(x: int, y: int)
    ensures
        0 <= lattice_slot_of(x, y) < 256,
        lattice_slot_of(x + 256, y) == lattice_slot_of(x, y),
        lattice_slot_of(x, y + 256) == lattice_slot_of(x, y),
{
    vstd::arithmetic::div_mod::lemma_mod_add_multiples_vanish(y, 256);
    let row = perm()[y % 256] as int;
    vstd::arithmetic::div_mod::lemma_mod_add_multiples_vanish(row + x, 256);
    assert(row + (x + 256) == (row + x) + 256);
}

/// The low byte of `v` as a table index: `v` modulo 256, for either sign.
pub(crate) fn low_byte(v: i32) -> (r: usize)
    ensures
        r < 256,
        r as int == v as int % 256,
{
    let u: u32 = #[verifier::truncate] (v as u32);
    let b: u32 = u & 0xFF;
    assert(u & 0xFF == u % 256) by (bit_vector);
    assert(u as int == if v >= 0 { v as int } else { v as int + 0x1_0000_0000 }) by (bit_vector)
        requires
            u == #[verifier::truncate] (v as u32),
    ;
    proof {
        if v < 0 {
            assert((v as int + 0x1_0000_0000) % 256 == v as int % 256) by {
                vstd::arithmetic::div_mod::lemma_mod_multiples_vanish(0x100_0000, v as int, 256);
            }
        }
    }
    b as usize
}

/// Hashes the lattice point `(x, y)` to a gradient-table slot.
pub fn lattice_slot(x: i32, y: i32) -> (r: u8)
    ensures
        r as int == lattice_slot_of(x as int, y as int),
{
    let row: u8 = PERMUTATION_TABLE[low_byte(y)];
    proof {
        lemma_add_residue(row as int, x as int);
    }
    column_slot(row, low_byte(x))
}

/// Adds the residue `xb` of a column to the hash `row` of a lattice row and
/// hashes the sum, modulo 256.
pub(crate) fn column_slot(row: u8, xb: usize) -> (r: u8)
    requires
        xb <= 256,
    ensures
        r as int == perm()[(row as int + xb as int) % 256],
{
    let sum: usize = row as usize + xb;
    let idx: usize = sum & 0xFF;
    assert(sum & 0xFF == sum % 256) by (bit_vector);
    PERMUTATION_TABLE[idx]
}

} // verus!
