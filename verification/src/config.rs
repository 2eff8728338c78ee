//! Configuration of a noise field: what is fixed before any point is evaluated,
//! and the checks that every evaluation makes before it computes anything.

use vstd::prelude::*;
use crate::seed::random_seed;

verus! {

/// Bit pattern of the double-precision number 1.0.
pub const UNIT_SCALE: u64 = 0x3FF0_0000_0000_0000;

/// Bit pattern of double-precision positive infinity: the largest pattern that is
/// neither negative nor a NaN.
pub const INFINITY_BITS: u64 = 0x7FF0_0000_0000_0000;

/// Why a configuration was refused. When several parameters are invalid the first
/// one in the order dimensionality, octave count, octave scale is reported.
#[derive(Clone, Copy, Debug, PartialEq, Eq, Structural)]
pub enum ConfigError {
    /// The dimensionality is zero, or so large that the corners of a lattice cell
    /// cannot be counted in a `usize`.
    Dimensionality,
    /// The octave count is zero.
    OctaveCount,
    /// The octave scale is not a number greater than zero.
    OctaveScale,
}

/// A coordinate sequence does not fit the configured dimensionality: `found`
/// numbers stand where `expected` are needed.
#[derive(Clone, Copy, Debug, PartialEq, Eq, Structural)]
pub struct DimensionMismatchError {
    pub expected: usize,
    pub found: usize,
}

/// How two neighbouring corner values are blended along one axis.
#[derive(Clone, Copy, Debug, PartialEq, Eq, Structural)]
pub enum Interpolation {
    /// Straight blend `a + t (b - a)`.
    Linear,
    /// Blend with the weight eased by `t^3 (6 t^2 - 15 t + 10)`.
    Smootherstep,
}

/// What a lattice corner contributes to the field.
#[derive(Clone, Copy, Debug, PartialEq, Eq, Structural)]
pub enum NoiseKernel {
    /// A pseudo-random vector, combined with the offset to the sample point.
    Gradient,
    /// A pseudo-random scalar, interpolated directly.
    Value,
}

/// True when `bits`, read as a double-precision number, is greater than zero:
/// the sign bit is clear, the number is not zero and it is not a NaN.
pub open spec fn is_positive_scale(bits: u64) -> bool {
    0 < bits <= INFINITY_BITS
}

/// One snapshot of a field's parameters. The octave scale is carried as the bit
/// pattern of a double-precision number, so that a snapshot is plain integer data.
#[derive(Clone, Copy, Debug, PartialEq, Eq, Structural)]
pub struct NoiseConfig {
    pub dimensions: usize,
    pub octave_count: u32,
    pub octave_scale: u64,
    pub seed: u64,
    pub interpolation: Interpolation,
    pub kernel: NoiseKernel,
}

impl NoiseConfig {
    /// The first invalid parameter, if there is one.
    pub open spec fn fault(self) -> Option<ConfigError> {
        if self.dimensions < 1 || self.dimensions >= usize::BITS {
            Some(ConfigError::Dimensionality)
        } else if self.octave_count < 1 {
            Some(ConfigError::OctaveCount)
        } else if !is_positive_scale(self.octave_scale) {
            Some(ConfigError::OctaveScale)
        } else {
            None
        }
    }

    /// A snapshot from which a field can be built.
    pub open spec fn valid(self) -> bool {
        &&& 1 <= self.dimensions < usize::BITS
        &&& self.octave_count >= 1
        &&& is_positive_scale(self.octave_scale)
    }

    /// Checks the parameters in the order dimensionality, octave count, octave scale.
    pub fn validate(&self) -> (outcome: Result<(), ConfigError>)
        ensures
            outcome is Ok <==> self.valid(),
            match self.fault() {
                Some(fault) => outcome == Err::<(), ConfigError>(fault),
                None => outcome is Ok,
            },
    {
        if self.dimensions < 1 || self.dimensions >= usize::BITS as usize {
            Err(ConfigError::Dimensionality)
        } else if self.octave_count < 1 {
            Err(ConfigError::OctaveCount)
        } else if self.octave_scale == 0 || self.octave_scale > INFINITY_BITS {
            Err(ConfigError::OctaveScale)
        } else {
            Ok(())
        }
    }
}

/// A noise field: a valid configuration, around which the evaluation is a pure
/// function of the sample point.
#[derive(Clone, Copy, Debug)]
pub struct PerlinNoise {
    config: NoiseConfig,
}

impl View for PerlinNoise {
    type V = NoiseConfig;

    closed spec fn view(&self) -> NoiseConfig {
        self.config
    }
}

impl PerlinNoise {
    #[verifier::type_invariant]
    spec fn holds_valid_config(&self) -> bool {
        self.config.valid()
    }

    /// Builds a field from explicit parameters, or says which one is invalid.
    pub fn new(
        dimensions: usize,
        num_octaves: u32,
        octave_scale: u64,
        seed: u64,
        interpolation: Interpolation,
        kernel: NoiseKernel,
    ) -> (built: Result<PerlinNoise, ConfigError>)
        ensures
            ({
                let wanted = NoiseConfig {
                    dimensions,
                    octave_count: num_octaves,
                    octave_scale,
                    seed,
                    interpolation,
                    kernel,
                };
                match wanted.fault() {
                    Some(fault) => built == Err::<PerlinNoise, ConfigError>(fault),
                    None => built is Ok && built->Ok_0@ == wanted,
                }
            }),
    {
        let config = NoiseConfig {
            dimensions,
            octave_count: num_octaves,
            octave_scale,
            seed,
            interpolation,
            kernel,
        };
        match config.validate() {
            Ok(()) => Ok(PerlinNoise { config }),
            Err(fault) => Err(fault),
        }
    }

    /// A field with the default kernels (smootherstep blending of gradient
    /// corners) and the given seed.
    pub fn multi_octave_with_seed(
        dimensions: usize,
        num_octaves: u32,
        octave_scale: u64,
        seed: u64,
    ) -> (built: Result<PerlinNoise, ConfigError>)
        ensures
            ({
                let wanted = default_config(dimensions, num_octaves, octave_scale, seed);
                match wanted.fault() {
                    Some(fault) => built == Err::<PerlinNoise, ConfigError>(fault),
                    None => built is Ok && built->Ok_0@ == wanted,
                }
            }),
    {
        PerlinNoise::new(
            dimensions,
            num_octaves,
            octave_scale,
            seed,
            Interpolation::Smootherstep,
            NoiseKernel::Gradient,
        )
    }

    /// A field of one octave at scale 1.0, with the default kernels and the
    /// given seed.
    pub fn single_octave_with_seed(dimensions: usize, seed: u64) -> (built: Result<
        PerlinNoise,
        ConfigError,
    >)
        ensures
            1 <= dimensions < usize::BITS ==> built is Ok && built->Ok_0@ == default_config(
                dimensions,
                1,
                UNIT_SCALE,
                seed,
            ),
            !(1 <= dimensions < usize::BITS) ==> built == Err::<PerlinNoise, ConfigError>(
                ConfigError::Dimensionality,
            ),
    {
        PerlinNoise::multi_octave_with_seed(dimensions, 1, UNIT_SCALE, seed)
    }

    /// As [`PerlinNoise::new`], with a seed drawn once from the thread's random
    /// number generator. Nothing is promised of the seed; the other parameters
    /// are checked and kept as given.
    pub fn new_with_random_seed(
        dimensions: usize,
        num_octaves: u32,
        octave_scale: u64,
        interpolation: Interpolation,
        kernel: NoiseKernel,
    ) -> (built: Result<PerlinNoise, ConfigError>)
        ensures
            ({
                let wanted = NoiseConfig {
                    dimensions,
                    octave_count: num_octaves,
                    octave_scale,
                    seed: 0,
                    interpolation,
                    kernel,
                };
                match wanted.fault() {
                    Some(fault) => built == Err::<PerlinNoise, ConfigError>(fault),
                    None => built is Ok && same_but_seed(built->Ok_0@, wanted),
                }
            }),
    {
        let seed = random_seed();
        PerlinNoise::new(dimensions, num_octaves, octave_scale, seed, interpolation, kernel)
    }

    /// As [`PerlinNoise::multi_octave_with_seed`], with a seed drawn once from
    /// the thread's random number generator. Nothing is promised of the seed;
    /// the other parameters are checked and kept as given.
    pub fn multi_octave(dimensions: usize, num_octaves: u32, octave_scale: u64) -> (built: Result<
        PerlinNoise,
        ConfigError,
    >)
        ensures
            ({
                let wanted = default_config(dimensions, num_octaves, octave_scale, 0);
                match wanted.fault() {
                    Some(fault) => built == Err::<PerlinNoise, ConfigError>(fault),
                    None => built is Ok && same_but_seed(built->Ok_0@, wanted),
                }
            }),
    {
        PerlinNoise::new_with_random_seed(
            dimensions,
            num_octaves,
            octave_scale,
            Interpolation::Smootherstep,
            NoiseKernel::Gradient,
        )
    }

    /// As [`PerlinNoise::single_octave_with_seed`], with a seed drawn once from
    /// the thread's random number generator.
    pub fn single_octave(dimensions: usize) -> (built: Result<PerlinNoise, ConfigError>)
        ensures
            1 <= dimensions < usize::BITS ==> built is Ok && same_but_seed(
                built->Ok_0@,
                default_config(dimensions, 1, UNIT_SCALE, 0),
            ),
            !(1 <= dimensions < usize::BITS) ==> built == Err::<PerlinNoise, ConfigError>(
                ConfigError::Dimensionality,
            ),
    {
        PerlinNoise::multi_octave(dimensions, 1, UNIT_SCALE)
    }

    /// The configuration in force, which is always a valid one.
    pub fn config(&self) -> (snapshot: NoiseConfig)
        ensures
            snapshot == self@,
            snapshot.valid(),
    {
        proof {
            use_type_invariant(self);
        }
        self.config
    }

    pub fn get_dimensions(&self) -> (dimensions: usize)
        ensures
            dimensions == self@.dimensions,
            1 <= dimensions < usize::BITS,
    {
        proof {
            use_type_invariant(self);
        }
        self.config.dimensions
    }

    pub fn get_num_octaves(&self) -> (num_octaves: u32)
        ensures
            num_octaves == self@.octave_count,
            num_octaves >= 1,
    {
        proof {
            use_type_invariant(self);
        }
        self.config.octave_count
    }

    /// The octave scale, as the bit pattern of a double-precision number.
    pub fn get_octave_scale(&self) -> (octave_scale: u64)
        ensures
            octave_scale == self@.octave_scale,
            is_positive_scale(octave_scale),
    {
        proof {
            use_type_invariant(self);
        }
        self.config.octave_scale
    }

    pub fn get_seed(&self) -> (seed: u64)
        ensures
            seed == self@.seed,
    {
        self.config.seed
    }

    pub fn get_interpolation(&self) -> (interpolation: Interpolation)
        ensures
            interpolation == self@.interpolation,
    {
        self.config.interpolation
    }

    pub fn get_kernel(&self) -> (kernel: NoiseKernel)
        ensures
            kernel == self@.kernel,
    {
        self.config.kernel
    }

    /// Replaces the octave count. A count of zero is refused and leaves the
    /// field as it was.
    pub fn set_num_octaves(&mut self, num_octaves: u32) -> (outcome: Result<(), ConfigError>)
        ensures
            num_octaves >= 1 ==> outcome is Ok && final(self)@ == (NoiseConfig {
                octave_count: num_octaves,
                ..old(self)@
            }),
            num_octaves < 1 ==> outcome == Err::<(), ConfigError>(ConfigError::OctaveCount)
                && final(self)@ == old(self)@,
    {
        proof {
            use_type_invariant(&*self);
        }
        if num_octaves < 1 {
            Err(ConfigError::OctaveCount)
        } else {
            self.config.octave_count = num_octaves;
            Ok(())
        }
    }

    /// Replaces the octave scale, given as the bit pattern of a double-precision
    /// number. A scale that is not greater than zero is refused and leaves the
    /// field as it was.
    pub fn set_octave_scale(&mut self, octave_scale: u64) -> (outcome: Result<(), ConfigError>)
        ensures
            is_positive_scale(octave_scale) ==> outcome is Ok && final(self)@ == (NoiseConfig {
                octave_scale,
                ..old(self)@
            }),
            !is_positive_scale(octave_scale) ==> outcome == Err::<(), ConfigError>(
                ConfigError::OctaveScale,
            ) && final(self)@ == old(self)@,
    {
        proof {
            use_type_invariant(&*self);
        }
        if octave_scale == 0 || octave_scale > INFINITY_BITS {
            Err(ConfigError::OctaveScale)
        } else {
            self.config.octave_scale = octave_scale;
            Ok(())
        }
    }

    /// Replaces the seed. Every seed is valid.
    pub fn set_seed(&mut self, new_seed: u64)
        ensures
            final(self)@ == (NoiseConfig { seed: new_seed, ..old(self)@ }),
    {
        proof {
            use_type_invariant(&*self);
        }
        self.config.seed = new_seed;
    }

    /// Accepts a sample point of exactly the configured dimensionality.
    pub fn check_coordinate(&self, len: usize) -> (outcome: Result<(), DimensionMismatchError>)
        ensures
            len == self@.dimensions ==> outcome is Ok,
            len != self@.dimensions ==> outcome == Err::<(), DimensionMismatchError>(
                DimensionMismatchError { expected: self@.dimensions, found: len },
            ),
    {
        if len == self.config.dimensions {
            Ok(())
        } else {
            Err(DimensionMismatchError { expected: self.config.dimensions, found: len })
        }
    }

    /// Number of sample points in a flat batch of `flat_len` numbers that the
    /// caller groups by `dimensions`. The grouping must be the configured one, and
    /// the batch must end on a group boundary; otherwise the error tells what was
    /// found in place of the configured dimensionality: the caller's grouping, or
    /// the length of the incomplete last group.
    pub fn batch_points(&self, flat_len: usize, dimensions: usize) -> (outcome: Result<
        usize,
        DimensionMismatchError,
    >)
        ensures
            outcome == batch_outcome(self@.dimensions, flat_len, dimensions),
    {
        let expected = self.get_dimensions();
        if dimensions != expected {
            Err(DimensionMismatchError { expected, found: dimensions })
        } else if flat_len % expected != 0 {
            Err(DimensionMismatchError { expected, found: flat_len % expected })
        } else {
            Ok(flat_len / expected)
        }
    }
}

/// The configuration that the constructors without kernel arguments ask for.
pub open spec fn default_config(
    dimensions: usize,
    num_octaves: u32,
    octave_scale: u64,
    seed: u64,
) -> NoiseConfig {
    NoiseConfig {
        dimensions,
        octave_count: num_octaves,
        octave_scale,
        seed,
        interpolation: Interpolation::Smootherstep,
        kernel: NoiseKernel::Gradient,
    }
}

/// Two configurations that differ at most in their seed.
pub open spec fn same_but_seed(a: NoiseConfig, b: NoiseConfig) -> bool {
    a == (NoiseConfig { seed: a.seed, ..b })
}

/// What a batch of `flat_len` numbers grouped by `dimensions` amounts to for a
/// field of dimensionality `configured`, where `configured` is at least one.
pub open spec fn batch_outcome(configured: usize, flat_len: usize, dimensions: usize) -> Result<
    usize,
    DimensionMismatchError,
> {
    if dimensions != configured {
        Err(DimensionMismatchError { expected: configured, found: dimensions })
    } else if flat_len % configured != 0 {
        Err(DimensionMismatchError { expected: configured, found: (flat_len % configured) as usize })
    } else {
        Ok((flat_len / configured) as usize)
    }
}

} // verus!
