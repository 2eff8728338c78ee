//! The integer lattice around a sample point: the corners of the unit hypercube
//! that holds the point, numbered so that bit `axis` of a corner's index is the
//! corner's offset along `axis`.

use vstd::prelude::*;
use vstd::arithmetic::div_mod::{lemma_div_denominator, lemma_fundamental_div_mod};
use vstd::arithmetic::power2::{pow2, lemma2_to64, lemma_pow2_pos, lemma_pow2_unfold};
use vstd::bits::{lemma_usize_pow2_no_overflow, lemma_usize_shl_is_mul};
use crate::config::{ConfigError, DimensionMismatchError, PerlinNoise};

verus! {

/// Number of corners of a lattice cell in `dimensions` dimensions.
pub open spec fn corner_count(dimensions: nat) -> nat {
    pow2(dimensions)
}

/// Offset of corner number `corner` along `axis`: bit `axis` of the number.
pub open spec fn corner_offset(corner: nat, axis: nat) -> nat {
    (corner / pow2(axis)) % 2
}

/// The offset vector of corner number `corner` in `dimensions` dimensions.
pub open spec fn corner_offsets(corner: nat, dimensions: nat) -> Seq<u64> {
    Seq::new(dimensions, |axis: int| corner_offset(corner, axis as nat) as u64)
}

/// A vector of zeros and ones.
pub open spec fn is_offset_vector(offsets: Seq<u64>) -> bool {
    forall|axis: int| 0 <= axis < offsets.len() ==> offsets[axis] == 0 || offsets[axis] == 1
}

/// The number of the corner with the given offsets: the offsets read as binary
/// digits, least significant first.
pub open spec fn corner_number(offsets: Seq<u64>) -> nat
    decreases offsets.len(),
{
    if offsets.len() == 0 {
        0
    } else {
        offsets[0] as nat + 2 * corner_number(offsets.drop_first())
    }
}

/// The lattice point at corner number `corner` of the cell whose lowest corner is
/// `base`. Meaningful where no coordinate leaves the range of `i64`, which
/// `corner_fits` states.
pub open spec fn lattice_corner(base: Seq<i64>, corner: nat) -> Seq<i64> {
    Seq::new(base.len(), |axis: int| (base[axis] + corner_offset(corner, axis as nat)) as i64)
}

/// Corner number `corner` of the cell at `base` has all its coordinates in `i64`.
pub open spec fn corner_fits(base: Seq<i64>, corner: nat) -> bool {
    forall|axis: int|
        0 <= axis < base.len() ==> base[axis] + #[trigger] corner_offset(corner, axis as nat)
            <= i64::MAX
}

/// Every corner of the cell at `base` has all its coordinates in `i64`.
pub open spec fn cell_fits(base: Seq<i64>) -> bool {
    forall|axis: int| 0 <= axis < base.len() ==> #[trigger] base[axis] < i64::MAX
}

/// Halving a corner number moves every offset down by one axis.
pub proof fn lemma_offset_of_half(corner: nat, axis: nat)
    ensures
        corner_offset(corner, axis + 1) == corner_offset(corner / 2, axis),
        corner_offset(corner, 0) == corner % 2,
{
    lemma_pow2_pos(axis);
    lemma_pow2_unfold(axis + 1);
    lemma_div_denominator(corner as int, 2, pow2(axis) as int);
    lemma2_to64();
}

/// Two different corner numbers below `2^dimensions` differ in some offset.
pub proof fn lemma_differing_axis(first: nat, second: nat, dimensions: nat) -> (axis: nat)
    requires
        first < corner_count(dimensions),
        second < corner_count(dimensions),
        first != second,
    ensures
        axis < dimensions,
        corner_offset(first, axis) != corner_offset(second, axis),
    decreases dimensions,
{
    if dimensions == 0 {
        lemma2_to64();
        0
    } else {
        lemma_pow2_unfold(dimensions);
        lemma_offset_of_half(first, 0);
        lemma_offset_of_half(second, 0);
        if first % 2 != second % 2 {
            0
        } else {
            lemma_fundamental_div_mod(first as int, 2);
            lemma_fundamental_div_mod(second as int, 2);
            let below = lemma_differing_axis(first / 2, second / 2, (dimensions - 1) as nat);
            lemma_offset_of_half(first, below);
            lemma_offset_of_half(second, below);
            below + 1
        }
    }
}

/// No two corners of a cell have the same offset vector.
pub proof fn lemma_corner_offsets_distinct(first: nat, second: nat, dimensions: nat)
    requires
        first < corner_count(dimensions),
        second < corner_count(dimensions),
        first != second,
    ensures
        corner_offsets(first, dimensions) != corner_offsets(second, dimensions),
{
    let axis = lemma_differing_axis(first, second, dimensions);
    assert(corner_offsets(first, dimensions)[axis as int] == corner_offset(first, axis) as u64);
    assert(corner_offsets(second, dimensions)[axis as int] == corner_offset(second, axis) as u64);
}

/// Every offset vector is a vector of zeros and ones of the cell's dimensionality.
pub proof fn lemma_corner_offsets_binary(corner: nat, dimensions: nat)
    ensures
        corner_offsets(corner, dimensions).len() == dimensions,
        is_offset_vector(corner_offsets(corner, dimensions)),
{
}

/// Every vector of zeros and ones is the offset vector of exactly the corner
/// whose number it spells in binary, and that number is below the corner count.
pub proof fn lemma_offsets_are_enumerated(offsets: Seq<u64>)
    requires
        is_offset_vector(offsets),
    ensures
        corner_number(offsets) < corner_count(offsets.len()),
        corner_offsets(corner_number(offsets), offsets.len()) == offsets,
    decreases offsets.len(),
{
    let number = corner_number(offsets);
    if offsets.len() == 0 {
        lemma2_to64();
        assert(corner_offsets(number, 0) =~= offsets);
    } else {
        let rest = offsets.drop_first();
        assert(is_offset_vector(rest)) by {
            assert forall|axis: int| 0 <= axis < rest.len() implies rest[axis] == 0 || rest[axis]
                == 1 by {
                assert(rest[axis] == offsets[axis + 1]);
            }
        }
        lemma_offsets_are_enumerated(rest);
        lemma_pow2_unfold(offsets.len());
        assert(number / 2 == corner_number(rest) && number % 2 == offsets[0]);
        assert forall|axis: int| 0 <= axis < offsets.len() implies corner_offsets(
            number,
            offsets.len(),
        )[axis] == offsets[axis] by {
            if axis == 0 {
                lemma_offset_of_half(number, 0);
            } else {
                lemma_offset_of_half(number, (axis - 1) as nat);
                assert(corner_offsets(corner_number(rest), rest.len())[axis - 1] == rest[axis - 1]);
            }
        }
        assert(corner_offsets(number, offsets.len()) =~= offsets);
    }
}

/// The enumeration of a cell's corners is complete and free of repetition: the
/// offset vectors of the corner numbers below `2^dimensions` are pairwise
/// different vectors of zeros and ones, and every such vector of length
/// `dimensions` is among them.
pub proof fn lemma_enumeration_complete(dimensions: nat)
    requires
        dimensions >= 1,
    ensures
        forall|corner: nat|
            corner < corner_count(dimensions) ==> {
                &&& (#[trigger] corner_offsets(corner, dimensions)).len() == dimensions
                &&& is_offset_vector(corner_offsets(corner, dimensions))
            },
        forall|first: nat, second: nat|
            first < corner_count(dimensions) && second < corner_count(dimensions) && first
                != second ==> #[trigger] corner_offsets(first, dimensions) != #[trigger] corner_offsets(
                second,
                dimensions,
            ),
        forall|offsets: Seq<u64>|
            offsets.len() == dimensions && #[trigger] is_offset_vector(offsets) ==> exists|
                corner: nat,
            |
                corner < corner_count(dimensions) && #[trigger] corner_offsets(corner, dimensions)
                    == offsets,
{
    assert forall|first: nat, second: nat|
        first < corner_count(dimensions) && second < corner_count(dimensions) && first
            != second implies #[trigger] corner_offsets(first, dimensions) != #[trigger] corner_offsets(
        second,
        dimensions,
    ) by {
        lemma_corner_offsets_distinct(first, second, dimensions);
    }
    assert forall|offsets: Seq<u64>|
        offsets.len() == dimensions && #[trigger] is_offset_vector(offsets) implies exists|
        corner: nat,
    |
        corner < corner_count(dimensions) && #[trigger] corner_offsets(corner, dimensions)
            == offsets by {
        lemma_offsets_are_enumerated(offsets);
        assert(corner_offsets(corner_number(offsets), dimensions) == offsets);
    }
}

/// The offset vector of one corner. A dimensionality of zero is refused: a cell
/// without axes has no corners to speak of.
pub fn unit_corner(corner: u64, dimensions: usize) -> (outcome: Result<Vec<u64>, ConfigError>)
    ensures
        dimensions == 0 ==> outcome == Err::<Vec<u64>, ConfigError>(ConfigError::Dimensionality),
        dimensions >= 1 ==> outcome is Ok && outcome->Ok_0@ == corner_offsets(
            corner as nat,
            dimensions as nat,
        ),
{
    if dimensions == 0 {
        return Err(ConfigError::Dimensionality);
    }
    let mut offsets: Vec<u64> = Vec::new();
    let mut rest: u64 = corner;
    let mut axis: usize = 0;
    proof {
        lemma2_to64();
    }
    while axis < dimensions
        invariant
            axis <= dimensions,
            offsets.len() == axis,
            rest == corner as nat / pow2(axis as nat),
            forall|a: int|
                0 <= a < axis ==> offsets[a] == corner_offset(corner as nat, a as nat) as u64,
        decreases dimensions - axis,
    {
        proof {
            lemma_pow2_pos(axis as nat);
            lemma_pow2_unfold((axis + 1) as nat);
            lemma_div_denominator(corner as int, pow2(axis as nat) as int, 2);
        }
        offsets.push(rest % 2);
        rest = rest / 2;
        axis += 1;
    }
    assert(offsets@ =~= corner_offsets(corner as nat, dimensions as nat));
    Ok(offsets)
}

/// The offset vectors of all corners of a cell, in the order of their numbers.
/// A dimensionality of zero is refused, and so is one for which the corners
/// cannot be counted in a `usize`.
pub fn enumerate_corners(dimensions: usize) -> (outcome: Result<Vec<Vec<u64>>, ConfigError>)
    ensures
        1 <= dimensions < usize::BITS ==> outcome is Ok,
        !(1 <= dimensions < usize::BITS) ==> outcome == Err::<Vec<Vec<u64>>, ConfigError>(
            ConfigError::Dimensionality,
        ),
        outcome matches Ok(corners) ==> {
            &&& corners.len() == corner_count(dimensions as nat)
            &&& forall|corner: int|
                0 <= corner < corners.len() ==> (#[trigger] corners[corner])@ == corner_offsets(
                    corner as nat,
                    dimensions as nat,
                )
            &&& forall|corner: int|
                0 <= corner < corners.len() ==> (#[trigger] corners[corner])@.len() == dimensions
                    && is_offset_vector(corners[corner]@)
            &&& forall|first: int, second: int|
                0 <= first < corners.len() && 0 <= second < corners.len() && first != second ==> (
                #[trigger] corners[first])@ != (#[trigger] corners[second])@
            &&& forall|offsets: Seq<u64>|
                offsets.len() == dimensions && #[trigger] is_offset_vector(offsets) ==> 0
                    <= corner_number(offsets) < corners.len() && corners[corner_number(
                    offsets,
                ) as int]@ == offsets
        },
{
    let count = match count_corners(dimensions) {
        Ok(count) => count,
        Err(fault) => {
            return Err(fault);
        },
    };
    let mut corners: Vec<Vec<u64>> = Vec::new();
    let mut corner: usize = 0;
    while corner < count
        invariant
            dimensions >= 1,
            corner <= count,
            corners.len() == corner,
            forall|c: int|
                0 <= c < corner ==> (#[trigger] corners[c])@ == corner_offsets(
                    c as nat,
                    dimensions as nat,
                ),
        decreases count - corner,
    {
        corners.push(unit_corner(corner as u64, dimensions).unwrap());
        corner += 1;
    }
    proof {
        assert forall|first: int, second: int|
            0 <= first < corners.len() && 0 <= second < corners.len() && first
                != second implies (#[trigger] corners[first])@ != (#[trigger] corners[second])@ by {
            lemma_corner_offsets_distinct(first as nat, second as nat, dimensions as nat);
        }
        assert forall|offsets: Seq<u64>|
            offsets.len() == dimensions && #[trigger] is_offset_vector(offsets) implies 0
                <= corner_number(offsets) < corners.len() && corners[corner_number(
            offsets,
        ) as int]@ == offsets by {
            lemma_offsets_are_enumerated(offsets);
        }
    }
    Ok(corners)
}

/// The number of corners of a cell. A dimensionality of zero is refused, and so
/// is one for which the corners cannot be counted in a `usize`.
pub fn count_corners(dimensions: usize) -> (outcome: Result<usize, ConfigError>)
    ensures
        1 <= dimensions < usize::BITS ==> outcome == Ok::<usize, ConfigError>(
            corner_count(dimensions as nat) as usize,
        ) && corner_count(dimensions as nat) <= usize::MAX,
        !(1 <= dimensions < usize::BITS) ==> outcome == Err::<usize, ConfigError>(
            ConfigError::Dimensionality,
        ),
{
    if dimensions < 1 || dimensions >= usize::BITS as usize {
        return Err(ConfigError::Dimensionality);
    }
    proof {
        lemma_usize_pow2_no_overflow(dimensions as nat);
        lemma_usize_shl_is_mul(1, dimensions);
    }
    Ok(1usize << dimensions)
}

/// The lattice point at corner number `corner` of the cell at `base`. A base
/// without coordinates is refused: there is no cell in zero dimensions.
pub fn calc_corner_coords(base: &[i64], corner: u64) -> (outcome: Result<Vec<i64>, ConfigError>)
    requires
        corner_fits(base@, corner as nat),
    ensures
        base.len() == 0 ==> outcome == Err::<Vec<i64>, ConfigError>(ConfigError::Dimensionality),
        base.len() >= 1 ==> outcome is Ok && outcome->Ok_0@ == lattice_corner(
            base@,
            corner as nat,
        ),
        outcome matches Ok(coords) ==> forall|axis: int|
            0 <= axis < base.len() ==> #[trigger] coords[axis] == base[axis] || coords[axis]
                == base[axis] + 1,
{
    if base.len() == 0 {
        return Err(ConfigError::Dimensionality);
    }
    let mut coords: Vec<i64> = Vec::new();
    let mut rest: u64 = corner;
    let mut axis: usize = 0;
    proof {
        lemma2_to64();
    }
    while axis < base.len()
        invariant
            axis <= base.len(),
            coords.len() == axis,
            rest == corner as nat / pow2(axis as nat),
            corner_fits(base@, corner as nat),
            forall|a: int| 0 <= a < axis ==> coords[a] == lattice_corner(base@, corner as nat)[a],
        decreases base.len() - axis,
    {
        proof {
            lemma_pow2_pos(axis as nat);
            lemma_pow2_unfold((axis + 1) as nat);
            lemma_div_denominator(corner as int, pow2(axis as nat) as int, 2);
            assert(rest % 2 == corner_offset(corner as nat, axis as nat));
        }
        let step: i64 = (rest % 2) as i64;
        coords.push(base[axis] + step);
        rest = rest / 2;
        axis += 1;
    }
    assert(coords@ =~= lattice_corner(base@, corner as nat));
    Ok(coords)
}

impl PerlinNoise {
    /// All corners of the lattice cell whose lowest corner is `base`, in the
    /// order of their numbers. `base` must have the configured dimensionality.
    pub fn lattice_corners(&self, base: &[i64]) -> (outcome: Result<
        Vec<Vec<i64>>,
        DimensionMismatchError,
    >)
        requires
            cell_fits(base@),
        ensures
            base.len() == self@.dimensions ==> outcome is Ok,
            base.len() != self@.dimensions ==> outcome == Err::<
                Vec<Vec<i64>>,
                DimensionMismatchError,
            >(DimensionMismatchError { expected: self@.dimensions, found: base.len() }),
            outcome matches Ok(corners) ==> {
                &&& corners.len() == corner_count(base.len() as nat)
                &&& forall|corner: int|
                    0 <= corner < corners.len() ==> (#[trigger] corners[corner])@ == lattice_corner(
                        base@,
                        corner as nat,
                    )
            },
    {
        let dimensions = self.get_dimensions();
        if base.len() != dimensions {
            return Err(DimensionMismatchError { expected: dimensions, found: base.len() });
        }
        let count = count_corners(dimensions).unwrap();
        let mut corners: Vec<Vec<i64>> = Vec::new();
        let mut corner: usize = 0;
        while corner < count
            invariant
                base.len() >= 1,
                corner <= count,
                corners.len() == corner,
                cell_fits(base@),
                forall|c: int|
                    0 <= c < corner ==> (#[trigger] corners[c])@ == lattice_corner(base@, c as nat),
            decreases count - corner,
        {
            corners.push(calc_corner_coords(base, corner as u64).unwrap());
            corner += 1;
        }
        Ok(corners)
    }
}

} // verus!
