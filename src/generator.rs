//! A noise generator: a gradient table drawn at random once, then only read.
//!
//! Slot `s` of the table holds a direction index `k`, which stands for the
//! unit vector at angle `2 * pi * k / 256`. Every table holds each of the 256
//! directions exactly once; only their order differs between generators.
use crate::lattice::{
    column_slot, lattice_slot_of, lemma_add_residue, lemma_perm_onto, low_byte, perm,
    INVERSE_TABLE, PERMUTATION_TABLE, TABLE_SIZE,
};
use rand::seq::SliceRandom;
use vstd::prelude::*;

verus! {

/// The 256 directions in ascending order: slot `i` holds direction `i`.
pub open spec fn ascending_directions() -> Seq<u8> {
    Seq::new(256, |i: int| i as u8)
}

/// A gradient table: 256 slots that hold every direction exactly once.
pub open spec fn is_gradient_table(t: Seq<u8>) -> bool {
    &&& t.len() == 256
    &&& t.to_multiset() == ascending_directions().to_multiset()
}

/// The direction that table `t` assigns to the lattice point `(x, y)`.
pub open spec fn corner_direction_of(t: Seq<u8>, x: int, y: int) -> u8 {
    t[lattice_slot_of(x, y)]
}

/// Generators whose gradient tables differ make different noise fields: some
/// lattice point of row 0, among its first 256 columns, gets a different
/// gradient direction from each of them.
pub proof fn lemma_distinct_tables_distinct_fields(a: &Perlin2, b: &Perlin2)
    requires
        a.wf(),
        b.wf(),
        a@ != b@,
    ensures
        exists|x: int|
            0 <= x < 256 && #[trigger] corner_direction_of(a@, x, 0) != corner_direction_of(
                b@,
                x,
                0,
            ),
{
    assert(exists|s: int| 0 <= s < 256 && a@[s] != b@[s]) by {
        if forall|s: int| 0 <= s < 256 ==> a@[s] == b@[s] {
            assert(a@ =~= b@);
        }
    }
    let s = choose|s: int| 0 <= s < 256 && a@[s] != b@[s];
    lemma_perm_onto(s);
    let j = INVERSE_TABLE@[s] as int;
    let x = (j - 151) % 256;
    assert(perm()[0] == 151);
    lemma_add_residue(151, j - 151);
    vstd::arithmetic::div_mod::lemma_small_mod(j as nat, 256);
    assert(lattice_slot_of(x, 0) == s);
    assert(corner_direction_of(a@, x, 0) != corner_direction_of(b@, x, 0));
}

/// Relies on rand's `SliceRandom::shuffle`: it only swaps elements of the
/// vector, in an order drawn from `rng`, so length and contents are kept.
#[verifier::external_body]
fn shuffle_directions<R: rand::Rng>(v: &mut Vec<u8>, rng: &mut R)
    ensures
        final(v)@.len() == old(v)@.len(),
        final(v)@.to_multiset() == old(v)@.to_multiset(),
{
    v.shuffle(rng);
}

/// The gradient directions of the four corners of one lattice cell.
#[derive(Clone, Copy, Debug, PartialEq, Eq, Structural)]
pub struct CellDirections {
    pub top_left: u8,
    pub top_right: u8,
    pub bottom_left: u8,
    pub bottom_right: u8,
}

/// A two-dimensional Perlin noise generator, made of its gradient table.
pub struct Perlin2 {
    grads: Vec<u8>,
}

impl View for Perlin2 {
    type V = Seq<u8>;

    closed spec fn view(&self) -> Seq<u8> {
        self.grads@
    }
}

impl Perlin2 {
    /// Holds when the generator's table is a gradient table.
    pub open spec fn wf(&self) -> bool {
        is_gradient_table(self@)
    }

    /// Builds a generator: the 256 evenly spaced directions, put in an order
    /// drawn from `rng`.
    pub fn new<R: rand::Rng>(rng: &mut R) -> (r: Self)
        ensures
            r.wf(),
    {
        let mut grads: Vec<u8> = Vec::with_capacity(TABLE_SIZE);
        let mut i: usize = 0;
        while i < TABLE_SIZE
            invariant
                i <= TABLE_SIZE,
                grads@ == ascending_directions().take(i as int),
            decreases TABLE_SIZE - i,
        {
            grads.push(i as u8);
            i += 1;
            assert(grads@ =~= ascending_directions().take(i as int));
        }
        assert(grads@ =~= ascending_directions());
        shuffle_directions(&mut grads, rng);
        Perlin2 { grads }
    }

    /// The direction held in table slot `slot`.
    pub fn direction(&self, slot: u8) -> (r: u8)
        requires
            self.wf(),
        ensures
            r == self@[slot as int],
    {
        self.grads[slot as usize]
    }

    /// The direction that this generator assigns to the lattice point `(x, y)`.
    pub fn corner_direction(&self, x: i32, y: i32) -> (r: u8)
        requires
            self.wf(),
        ensures
            r == corner_direction_of(self@, x as int, y as int),
    {
        let slot: u8 = crate::lattice::lattice_slot(x, y);
        self.grads[slot as usize]
    }

    /// The directions at the four corners of the lattice cell whose top-left
    /// corner is `(left_x, top_y)`: its right column is `left_x + 1` and its
    /// bottom row `top_y + 1`, taken modulo 256 like every lattice index.
    pub fn cell_directions(&self, left_x: i32, top_y: i32) -> (r: CellDirections)
        requires
            self.wf(),
        ensures
            r.top_left == corner_direction_of(self@, left_x as int, top_y as int),
            r.top_right == corner_direction_of(self@, left_x + 1, top_y as int),
            r.bottom_left == corner_direction_of(self@, left_x as int, top_y + 1),
            r.bottom_right == corner_direction_of(self@, left_x + 1, top_y + 1),
    {
        let left: usize = low_byte(left_x);
        let top: usize = low_byte(top_y);
        let bottom: usize = if top == 255 { 0 } else { top + 1 };
        proof {
            lemma_add_residue(1, top_y as int);
            if top < 255 {
                vstd::arithmetic::div_mod::lemma_small_mod(top as nat + 1, 256);
            }
        }
        let top_row: u8 = PERMUTATION_TABLE[top];
        let bottom_row: u8 = PERMUTATION_TABLE[bottom];
        proof {
            lemma_add_residue(top_row as int, left_x as int);
            lemma_add_residue(top_row as int + 1, left_x as int);
            lemma_add_residue(bottom_row as int, left_x as int);
            lemma_add_residue(bottom_row as int + 1, left_x as int);
        }
        let tl: u8 = column_slot(top_row, left);
        let tr: u8 = column_slot(top_row, left + 1);
        let bl: u8 = column_slot(bottom_row, left);
        let br: u8 = column_slot(bottom_row, left + 1);
        CellDirections {
            top_left: self.grads[tl as usize],
            top_right: self.grads[tr as usize],
            bottom_left: self.grads[bl as usize],
            bottom_right: self.grads[br as usize],
        }
    }
}

} // verus!
