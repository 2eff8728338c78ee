//! What a lattice corner contributes: a gradient vector with one hashed component
//! per axis, or a single hashed scalar, and the squared length by which a
//! gradient is brought to unit length.

use vstd::prelude::*;
use crate::config::{DimensionMismatchError, NoiseKernel, PerlinNoise};
use crate::hashing::{hash_point, point_hash};
use crate::lattice::{calc_corner_coords, cell_fits, corner_count, count_corners, lattice_corner};

verus! {

/// Largest magnitude of a gradient component.
pub const MAX_COMPONENT: i64 = 255;

/// Largest magnitude of a value-kernel scalar.
pub const MAX_SCALAR: i64 = 127;

/// A 64-bit hash read as a two's-complement number.
pub open spec fn as_signed(hash: u64) -> int {
    if hash < 0x8000_0000_0000_0000 {
        hash as int
    } else {
        hash - 0x1_0000_0000_0000_0000
    }
}

/// The gradient component that a hash stands for: the remainder of the signed
/// hash on division by 256 with the quotient rounded toward zero, so that it has
/// the sign of the hash and lies between -255 and 255.
pub open spec fn hash_component(hash: u64) -> int {
    let signed = as_signed(hash);
    if signed >= 0 {
        signed % 256
    } else {
        -((-signed) % 256)
    }
}

/// The scalar that a hash stands for: the hash reduced modulo 255 and moved to
/// the symmetric range from -127 to 127.
pub open spec fn hash_scalar(hash: u64) -> int {
    hash % 255 - 127
}

/// The gradient vector at lattice point `point` under `seed`: for each axis the
/// component of the point's hash for that axis.
pub open spec fn gradient_at(seed: u64, point: Seq<i64>) -> Seq<i64> {
    Seq::new(point.len(), |axis: int| hash_component(point_hash(seed, point, axis as nat)) as i64)
}

/// The scalar at lattice point `point` under `seed`, taken from the point's hash
/// for the first axis.
pub open spec fn scalar_at(seed: u64, point: Seq<i64>) -> i64 {
    hash_scalar(point_hash(seed, point, 0)) as i64
}

/// What one corner contributes, as a mathematical value.
pub enum SampleValue {
    Vector(Seq<i64>),
    Scalar(i64),
}

/// What one corner contributes: a gradient vector before normalisation, or a
/// scalar.
#[derive(Clone, Debug, PartialEq, Eq)]
pub enum GradientSample {
    Vector(Vec<i64>),
    Scalar(i64),
}

impl View for GradientSample {
    type V = SampleValue;

    open spec fn view(&self) -> SampleValue {
        match self {
            GradientSample::Vector(components) => SampleValue::Vector(components@),
            GradientSample::Scalar(scalar) => SampleValue::Scalar(*scalar),
        }
    }
}

/// The sample at lattice point `point` under `seed` for the given kernel.
pub open spec fn sample_at(seed: u64, kernel: NoiseKernel, point: Seq<i64>) -> SampleValue {
    match kernel {
        NoiseKernel::Gradient => SampleValue::Vector(gradient_at(seed, point)),
        NoiseKernel::Value => SampleValue::Scalar(scalar_at(seed, point)),
    }
}

/// A vector whose components all lie between -255 and 255.
pub open spec fn components_in_range(components: Seq<i64>) -> bool {
    forall|axis: int|
        0 <= axis < components.len() ==> -MAX_COMPONENT <= #[trigger] components[axis]
            <= MAX_COMPONENT
}

/// A sample within the range that the kernels produce: every component of a
/// vector between -255 and 255, a scalar between -127 and 127.
pub open spec fn in_kernel_range(sample: SampleValue) -> bool {
    match sample {
        SampleValue::Vector(components) => components_in_range(components),
        SampleValue::Scalar(scalar) => -MAX_SCALAR <= scalar <= MAX_SCALAR,
    }
}

/// A sample whose squared magnitude, if it is a vector, fits in a `u64`.
pub open spec fn has_squared_length(sample: SampleValue) -> bool {
    sample matches SampleValue::Vector(components) ==> squared_magnitude(components) <= u64::MAX
}

/// Sum of the squares of the components.
pub open spec fn squared_magnitude(components: Seq<i64>) -> int
    decreases components.len(),
{
    if components.len() == 0 {
        0
    } else {
        squared_magnitude(components.drop_last()) + components.last() * components.last()
    }
}

/// Every sample that the kernels produce lies in the kernel range.
pub proof fn lemma_sample_in_range(seed: u64, kernel: NoiseKernel, point: Seq<i64>)
    ensures
        in_kernel_range(sample_at(seed, kernel, point)),
{
}

/// What a field reads from the lattice is settled by its seed, its kernel and the
/// lattice point alone: two fields that agree in seed and kernel sample every
/// corner of every cell alike, whatever their octave count, octave scale and
/// interpolation, and so do two evaluations of one field.
pub proof fn lemma_samples_are_determined(
    first: PerlinNoise,
    second: PerlinNoise,
    base: Seq<i64>,
    corner: nat,
)
    requires
        first@.seed == second@.seed,
        first@.kernel == second@.kernel,
    ensures
        sample_at(first@.seed, first@.kernel, lattice_corner(base, corner)) == sample_at(
            second@.seed,
            second@.kernel,
            lattice_corner(base, corner),
        ),
{
}

/// A squared magnitude is never negative, and it is zero exactly when every
/// component is zero: the one case in which a vector has no direction.
pub proof fn lemma_zero_magnitude(components: Seq<i64>)
    ensures
        squared_magnitude(components) >= 0,
        squared_magnitude(components) == 0 <==> forall|axis: int|
            0 <= axis < components.len() ==> components[axis] == 0,
    decreases components.len(),
{
    if components.len() > 0 {
        let front = components.drop_last();
        let last = components.last();
        lemma_zero_magnitude(front);
        assert(last * last >= 0 && (last * last == 0 <==> last == 0)) by (nonlinear_arith);
        if squared_magnitude(components) == 0 {
            assert forall|axis: int| 0 <= axis < components.len() implies components[axis]
                == 0 by {
                if axis < front.len() {
                    assert(front[axis] == components[axis]);
                }
            }
        } else {
            if last == 0 {
                let axis = choose|axis: int| 0 <= axis < front.len() && front[axis] != 0;
                assert(components[axis] == front[axis]);
            }
        }
    }
}

/// The squared magnitude grows with every component taken in.
pub proof fn lemma_magnitude_grows(components: Seq<i64>, taken: int)
    requires
        0 <= taken <= components.len(),
    ensures
        0 <= squared_magnitude(components.take(taken)) <= squared_magnitude(components),
    decreases components.len() - taken,
{
    lemma_zero_magnitude(components.take(taken));
    if taken < components.len() {
        lemma_magnitude_grows(components, taken + 1);
        let longer = components.take(taken + 1);
        assert(longer.drop_last() =~= components.take(taken));
        assert(longer.last() * longer.last() >= 0) by (nonlinear_arith);
    } else {
        assert(components.take(taken) =~= components);
    }
}

/// The squared magnitude of a vector within the kernel range is at most 255
/// squared for each component.
pub proof fn lemma_magnitude_bound(components: Seq<i64>)
    requires
        components_in_range(components),
    ensures
        squared_magnitude(components) <= 65025 * components.len(),
    decreases components.len(),
{
    if components.len() > 0 {
        let front = components.drop_last();
        let last = components.last();
        assert(components_in_range(front)) by {
            assert forall|axis: int| 0 <= axis < front.len() implies -MAX_COMPONENT
                <= #[trigger] front[axis] <= MAX_COMPONENT by {
                assert(front[axis] == components[axis]);
            }
        }
        lemma_magnitude_bound(front);
        assert(last * last <= 65025) by (nonlinear_arith)
            requires
                -255 <= last <= 255,
        ;
    }
}

/// The gradient component that `hash` stands for.
pub fn gradient_component(hash: u64) -> (component: i64)
    ensures
        component == hash_component(hash),
        -MAX_COMPONENT <= component <= MAX_COMPONENT,
{
    let signed: i64 = #[verifier::truncate] (hash as i64);
    assert(signed == as_signed(hash)) by {
        assert(hash < 0x8000_0000_0000_0000 ==> (hash as i64) == hash) by (bit_vector);
        assert(hash >= 0x8000_0000_0000_0000 ==> (hash as i64) == hash - 0x1_0000_0000_0000_0000)
            by (bit_vector);
    }
    signed % 256
}

/// The value-kernel scalar that `hash` stands for.
pub fn value_scalar(hash: u64) -> (scalar: i64)
    ensures
        scalar == hash_scalar(hash),
        -MAX_SCALAR <= scalar <= MAX_SCALAR,
{
    (hash % 255) as i64 - 127
}

/// Builds the sample of one lattice point: for the gradient kernel a vector with
/// one component per axis, each from a hash of its own; for the value kernel a
/// scalar from the hash for the first axis.
pub fn build_gradient(seed: u64, kernel: NoiseKernel, point: &[i64]) -> (sample: GradientSample)
    requires
        1 <= point.len() < 64,
    ensures
        sample@ == sample_at(seed, kernel, point@),
        in_kernel_range(sample@),
        has_squared_length(sample@),
{
    match kernel {
        NoiseKernel::Gradient => {
            let mut components: Vec<i64> = Vec::new();
            let mut axis: usize = 0;
            while axis < point.len()
                invariant
                    axis <= point.len() < 64,
                    components.len() == axis,
                    forall|a: int|
                        0 <= a < axis ==> components[a] == gradient_at(seed, point@)[a],
                decreases point.len() - axis,
            {
                components.push(gradient_component(hash_point(seed, point, axis)));
                axis += 1;
            }
            assert(components@ =~= gradient_at(seed, point@));
            proof {
                lemma_magnitude_bound(components@);
            }
            GradientSample::Vector(components)
        },
        NoiseKernel::Value => GradientSample::Scalar(value_scalar(hash_point(seed, point, 0))),
    }
}

/// Sum of the squares of the components, or `None` where the sum does not fit
/// in a `u64`.
pub fn squared_length(components: &[i64]) -> (total: Option<u64>)
    ensures
        squared_magnitude(components@) <= u64::MAX ==> total == Some(
            squared_magnitude(components@) as u64,
        ),
        squared_magnitude(components@) > u64::MAX ==> total is None,
{
    let mut sum: u64 = 0;
    let mut axis: usize = 0;
    assert(components@.take(0) =~= Seq::<i64>::empty());
    while axis < components.len()
        invariant
            axis <= components.len(),
            sum == squared_magnitude(components@.take(axis as int)),
        decreases components.len() - axis,
    {
        let component: i128 = components[axis] as i128;
        assert(0 <= component * component <= 0x4000_0000_0000_0000_0000_0000_0000_0000)
            by (nonlinear_arith)
            requires
                -0x8000_0000_0000_0000 <= component <= 0x7FFF_FFFF_FFFF_FFFF,
        ;
        let square: i128 = component * component;
        proof {
            let longer = components@.take(axis + 1);
            assert(longer.drop_last() =~= components@.take(axis as int));
            assert(longer.last() == components[axis as int]);
            lemma_magnitude_grows(components@, axis + 1);
        }
        if square > (u64::MAX - sum) as i128 {
            return None;
        }
        sum = sum + square as u64;
        axis += 1;
    }
    assert(components@.take(axis as int) =~= components@);
    Some(sum)
}

impl PerlinNoise {
    /// The samples of all corners of the lattice cell whose lowest corner is
    /// `base`, in the order of the corner numbers, for the configured seed and
    /// kernel. `base` must have the configured dimensionality.
    pub fn sample_lattice(&self, base: &[i64]) -> (outcome: Result<
        Vec<GradientSample>,
        DimensionMismatchError,
    >)
        requires
            cell_fits(base@),
        ensures
            base.len() == self@.dimensions ==> outcome is Ok,
            base.len() != self@.dimensions ==> outcome == Err::<
                Vec<GradientSample>,
                DimensionMismatchError,
            >(DimensionMismatchError { expected: self@.dimensions, found: base.len() }),
            outcome matches Ok(samples) ==> {
                &&& samples.len() == corner_count(base.len() as nat)
                &&& forall|corner: int|
                    0 <= corner < samples.len() ==> (#[trigger] samples[corner])@ == sample_at(
                        self@.seed,
                        self@.kernel,
                        lattice_corner(base@, corner as nat),
                    )
                &&& forall|corner: int|
                    0 <= corner < samples.len() ==> in_kernel_range((#[trigger] samples[corner])@)
                &&& forall|corner: int|
                    0 <= corner < samples.len() ==> has_squared_length(
                        (#[trigger] samples[corner])@,
                    )
            },
    {
        let dimensions = self.get_dimensions();
        if base.len() != dimensions {
            return Err(DimensionMismatchError { expected: dimensions, found: base.len() });
        }
        let seed = self.get_seed();
        let kernel = self.get_kernel();
        let count = count_corners(dimensions).unwrap();
        let mut samples: Vec<GradientSample> = Vec::new();
        let mut corner: usize = 0;
        while corner < count
            invariant
                corner <= count,
                samples.len() == corner,
                1 <= base.len() < 64,
                cell_fits(base@),
                seed == self@.seed,
                kernel == self@.kernel,
                forall|c: int|
                    0 <= c < corner ==> (#[trigger] samples[c])@ == sample_at(
                        seed,
                        kernel,
                        lattice_corner(base@, c as nat),
                    ),
                forall|c: int| 0 <= c < corner ==> in_kernel_range((#[trigger] samples[c])@),
                forall|c: int| 0 <= c < corner ==> has_squared_length((#[trigger] samples[c])@),
            decreases count - corner,
        {
            let point = calc_corner_coords(base, corner as u64).unwrap();
            samples.push(build_gradient(seed, kernel, point.as_slice()));
            corner += 1;
        }
        Ok(samples)
    }
}

} // verus!
