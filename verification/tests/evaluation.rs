use perlin_noise::gradient::{
    gradient_component, squared_length, value_scalar, GradientSample, MAX_SCALAR,
};
use perlin_noise::hashing::hash_point;
use perlin_noise::{DimensionMismatchError, Interpolation, NoiseKernel, PerlinNoise};

// The floating-point half of an evaluation, around the library's lattice samples.

const OCTAVE_PHASE: f64 = std::f64::consts::PI * 100.0;

fn smootherstep(t: f64) -> f64 {
    t * t * t * (t * (t * 6.0 - 15.0) + 10.0)
}

fn blend(kind: Interpolation, start: f64, stop: f64, weight: f64) -> f64 {
    match kind {
        Interpolation::Linear => start + weight * (stop - start),
        Interpolation::Smootherstep => start + smootherstep(weight) * (stop - start),
    }
}

fn normalize(components: &[i64]) -> Vec<f64> {
    let squared = squared_length(components).expect("components of a sample are small");
    if squared == 0 {
        return vec![0.0; components.len()];
    }
    let magnitude = (squared as f64).sqrt();
    components.iter().map(|component| *component as f64 / magnitude).collect()
}

fn corner_value(sample: &GradientSample, corner: &[i64], point: &[f64]) -> f64 {
    match sample {
        GradientSample::Scalar(scalar) => *scalar as f64,
        GradientSample::Vector(components) => normalize(components)
            .iter()
            .zip(corner.iter().zip(point))
            .map(|(component, (corner, coordinate))| component * (coordinate - *corner as f64))
            .sum(),
    }
}

fn octave_value(noise: &PerlinNoise, point: &[f64]) -> Result<f64, DimensionMismatchError> {
    let base: Vec<i64> = point.iter().map(|coordinate| coordinate.floor() as i64).collect();
    assert!(base.iter().all(|coordinate| *coordinate < i64::MAX), "coordinate out of range");
    let samples = noise.sample_lattice(&base)?;
    let corners = noise.lattice_corners(&base)?;
    let mut values: Vec<f64> = samples
        .iter()
        .zip(&corners)
        .map(|(sample, corner)| corner_value(sample, corner, point))
        .collect();
    for coordinate in point {
        let weight = coordinate - coordinate.floor();
        values = values
            .chunks(2)
            .map(|pair| blend(noise.get_interpolation(), pair[0], pair[1], weight))
            .collect();
    }
    Ok(values[0])
}

fn corner_reach(noise: &PerlinNoise) -> f64 {
    match noise.get_kernel() {
        NoiseKernel::Gradient => (noise.get_dimensions() as f64).sqrt(),
        NoiseKernel::Value => MAX_SCALAR as f64,
    }
}

fn evaluate(noise: &PerlinNoise, coordinate: &[f64]) -> Result<f64, DimensionMismatchError> {
    noise.check_coordinate(coordinate.len())?;
    let scale = f64::from_bits(noise.get_octave_scale());
    let mut sum = 0.0;
    let mut amplitudes = 0.0;
    for octave in 0..noise.get_num_octaves() {
        let amplitude = scale.powi(octave as i32);
        let point: Vec<f64> = coordinate
            .iter()
            .map(|coordinate| coordinate / amplitude + OCTAVE_PHASE * octave as f64)
            .collect();
        sum += octave_value(noise, &point)? * amplitude;
        amplitudes += amplitude;
    }
    Ok(sum / (amplitudes * corner_reach(noise)))
}

fn evaluate_batch(
    noise: &PerlinNoise,
    flat: &[f64],
    dimensions: usize,
) -> Result<Vec<f64>, DimensionMismatchError> {
    let points = noise.batch_points(flat.len(), dimensions)?;
    let values: Result<Vec<f64>, DimensionMismatchError> =
        flat.chunks(dimensions).map(|coordinate| evaluate(noise, coordinate)).collect();
    let values = values?;
    assert_eq!(values.len(), points);
    Ok(values)
}

fn field(
    dimensions: usize,
    octaves: u32,
    scale: f64,
    seed: u64,
    interpolation: Interpolation,
    kernel: NoiseKernel,
) -> PerlinNoise {
    PerlinNoise::new(dimensions, octaves, scale.to_bits(), seed, interpolation, kernel).unwrap()
}

fn grid(side: usize, step: f64) -> Vec<f64> {
    let mut flat = Vec::new();
    for row in 0..side {
        for column in 0..side {
            flat.push(column as f64 * step);
            flat.push(row as f64 * step);
        }
    }
    flat
}

#[test]
fn a_lattice_point_takes_the_value_of_its_own_corner() {
    let noise = PerlinNoise::single_octave_with_seed(1, 42).unwrap();
    let value = evaluate(&noise, &[2.0]).unwrap();
    let gradient = normalize(&[gradient_component(hash_point(42, &[2], 0))]);
    assert_eq!(value, gradient[0] * (2.0 - 2.0));
    assert_eq!(value, 0.0);
}

#[test]
fn a_lattice_point_of_the_value_kernel_takes_the_scalar_of_its_corner() {
    let noise = field(1, 1, 1.0, 42, Interpolation::Smootherstep, NoiseKernel::Value);
    let value = evaluate(&noise, &[2.0]).unwrap();
    let scalar = value_scalar(hash_point(42, &[2], 0));
    assert_eq!(value, scalar as f64 / 127.0);
    let next = evaluate(&noise, &[3.0]).unwrap();
    assert_eq!(next, value_scalar(hash_point(42, &[3], 0)) as f64 / 127.0);
}

#[test]
fn a_batch_over_a_grid_agrees_with_single_evaluations() {
    let noise = PerlinNoise::multi_octave_with_seed(2, 3, 0.5f64.to_bits(), 7).unwrap();
    let flat = grid(10, 1.0);
    let values = evaluate_batch(&noise, &flat, 2).unwrap();
    assert_eq!(values.len(), 100);
    for (index, value) in values.iter().enumerate() {
        assert!((-1.05..=1.05).contains(value), "value {value} at {index}");
        let alone = evaluate(&noise, &flat[2 * index..2 * index + 2]).unwrap();
        assert_eq!(alone.to_bits(), value.to_bits());
    }
    assert!(values.iter().any(|value| *value != 0.0));
}

#[test]
fn a_batch_of_the_wrong_shape_is_rejected() {
    let noise = PerlinNoise::multi_octave_with_seed(2, 3, 0.5f64.to_bits(), 7).unwrap();
    assert_eq!(
        evaluate_batch(&noise, &[0.5; 6], 3),
        Err(DimensionMismatchError { expected: 2, found: 3 })
    );
    assert_eq!(
        evaluate_batch(&noise, &[0.5; 5], 2),
        Err(DimensionMismatchError { expected: 2, found: 1 })
    );
    assert_eq!(
        evaluate(&noise, &[0.5, 0.5, 0.5]),
        Err(DimensionMismatchError { expected: 2, found: 3 })
    );
}

#[test]
fn evaluations_repeat_bit_for_bit() {
    for kernel in [NoiseKernel::Gradient, NoiseKernel::Value] {
        let noise = field(3, 4, 0.5, 2024, Interpolation::Smootherstep, kernel);
        let twin = field(3, 4, 0.5, 2024, Interpolation::Smootherstep, kernel);
        for step in 0..50 {
            let point = [step as f64 * 0.37 - 4.0, step as f64 * 0.11, 7.5 - step as f64 * 0.2];
            let first = evaluate(&noise, &point).unwrap();
            assert_eq!(first.to_bits(), evaluate(&noise, &point).unwrap().to_bits());
            assert_eq!(first.to_bits(), evaluate(&twin, &point).unwrap().to_bits());
        }
    }
}

#[test]
fn values_stay_within_the_unit_range() {
    for dimensions in 1..=4usize {
        for kernel in [NoiseKernel::Gradient, NoiseKernel::Value] {
            for interpolation in [Interpolation::Linear, Interpolation::Smootherstep] {
                let noise = field(dimensions, 4, 0.5, 31, interpolation, kernel);
                for step in 0..200 {
                    let point: Vec<f64> = (0..dimensions)
                        .map(|axis| (step as f64 * 0.173 + axis as f64 * 1.9) * 1.7 - 20.0)
                        .collect();
                    let value = evaluate(&noise, &point).unwrap();
                    assert!((-1.05..=1.05).contains(&value), "{value} at {point:?}");
                }
            }
        }
    }
}

#[test]
fn the_field_is_continuous_across_a_lattice_boundary() {
    for kernel in [NoiseKernel::Gradient, NoiseKernel::Value] {
        let noise = field(1, 1, 1.0, 5, Interpolation::Smootherstep, kernel);
        let mut previous = evaluate(&noise, &[1.9]).unwrap();
        let mut moved = false;
        for step in 1..=200 {
            let value = evaluate(&noise, &[1.9 + step as f64 * 0.001]).unwrap();
            assert!((value - previous).abs() < 0.01, "jump from {previous} to {value}");
            moved = moved || value != previous;
            previous = value;
        }
        assert!(moved);
    }
}

#[test]
fn the_field_is_continuous_below_zero() {
    let noise = field(2, 2, 0.5, 5, Interpolation::Smootherstep, NoiseKernel::Gradient);
    let mut previous = evaluate(&noise, &[-0.1, -3.3]).unwrap();
    for step in 1..=200 {
        let value = evaluate(&noise, &[-0.1 + step as f64 * 0.001, -3.3]).unwrap();
        assert!((value - previous).abs() < 0.02, "jump from {previous} to {value}");
        previous = value;
    }
}

#[test]
fn the_seed_changes_the_field() {
    let first = PerlinNoise::single_octave_with_seed(2, 1).unwrap();
    let second = PerlinNoise::single_octave_with_seed(2, 2).unwrap();
    let differs = (0..64).any(|step| {
        let point = [step as f64 * 0.31 + 0.5, step as f64 * 0.17 + 0.25];
        evaluate(&first, &point).unwrap() != evaluate(&second, &point).unwrap()
    });
    assert!(differs);
}

#[test]
fn another_octave_moves_the_value_by_its_amplitude_at_most() {
    let scale: f64 = 0.5;
    for octaves in 1..6u32 {
        let fewer = field(2, octaves, scale, 13, Interpolation::Smootherstep, NoiseKernel::Gradient);
        let more =
            field(2, octaves + 1, scale, 13, Interpolation::Smootherstep, NoiseKernel::Gradient);
        let mut largest: f64 = 0.0;
        for step in 0..400 {
            let point = [step as f64 * 0.0731, 9.0 - step as f64 * 0.0419];
            let change = evaluate(&more, &point).unwrap() - evaluate(&fewer, &point).unwrap();
            largest = largest.max(change.abs());
        }
        assert!(largest <= 2.0 * scale.powi(octaves as i32), "{largest} after {octaves}");
        assert!(largest > 0.0);
    }
}

#[test]
fn a_vector_without_direction_stays_the_zero_vector() {
    assert_eq!(normalize(&[0, 0, 0]), vec![0.0, 0.0, 0.0]);
    let unit = normalize(&[3, -4]);
    assert_eq!(unit, vec![0.6, -0.8]);
}
