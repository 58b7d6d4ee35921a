use msg_noise::prelude::{Noise, NoiseSource};
use noise::NoiseFn;

/// Coordinate step between samples: the generators' default coordinate scale.
const STEP: f64 = 0.008;

/// The primitive of `noise` sampled at `n` points along the x axis.
fn row(noise: &Noise, n: i32) -> Vec<f64> {
    (0..n)
        .map(|i| noise.generator().get([i as f64 * STEP, 0.0]))
        .collect()
}

fn count_different(a: &[f64], b: &[f64]) -> usize {
    a.iter().zip(b.iter()).filter(|(x, y)| x != y).count()
}

#[test]
fn seeded_noise_is_deterministic() {
    let source1 = NoiseSource::new(12345);
    let source2 = NoiseSource::new(12345);

    let noise1 = source1.create(0xABCD);
    let noise2 = source2.create(0xABCD);

    assert_eq!(noise1.seed(), noise2.seed());
    assert_eq!(row(&noise1, 10), row(&noise2, 10));
}

#[test]
fn different_seeds_produce_different_noise() {
    let source1 = NoiseSource::new(12345);
    let source2 = NoiseSource::new(54321);

    let noise1 = source1.create(0xABCD);
    let noise2 = source2.create(0xABCD);

    assert_ne!(noise1.seed(), noise2.seed());
    assert_ne!(row(&noise1, 10), row(&noise2, 10));
}

#[test]
fn different_keys_produce_different_noise() {
    let source = NoiseSource::new(12345);

    let noise1 = source.create(0x0001);
    let noise2 = source.create(0x0002);

    assert_ne!(row(&noise1, 10), row(&noise2, 10));
}

#[test]
fn reseed_changes_noise() {
    let mut source = NoiseSource::new(12345);
    let noise1 = source.create(0xABCD);
    let values1 = row(&noise1, 5);

    source.reseed(54321);
    let noise2 = source.create(0xABCD);
    let values2 = row(&noise2, 5);

    assert_ne!(values1, values2);
}

#[test]
fn noise_source_factory_creates_deterministic_noise() {
    let source = NoiseSource::new(12345);

    let noise1 = source.create(0x5445_5252);
    let noise2 = source.create(0x5445_5252);

    let values1 = row(&noise1, 10);
    let values2 = row(&noise2, 10);
    for i in 0..10 {
        assert_eq!(values1[i], values2[i], "Values should match at i={}", i);
    }
}

#[test]
fn noise_source_different_keys_produce_different_noise() {
    let source = NoiseSource::new(12345);

    let noise1 = source.create(0x0001);
    let noise2 = source.create(0x0002);

    let different_count = count_different(&row(&noise1, 10), &row(&noise2, 10));
    assert!(
        different_count > 8,
        "Expected most values to differ, but only {} out of 10 were different",
        different_count
    );
}

#[test]
fn noise_source_salted_creates_unique_layers() {
    let source = NoiseSource::new(12345);

    let layer1 = source.create_salted(0x5445_5252, 1);
    let layer2 = source.create_salted(0x5445_5252, 2);

    let different_count = count_different(&row(&layer1, 10), &row(&layer2, 10));
    assert!(
        different_count > 8,
        "Expected most values to differ with different salts"
    );
}

#[test]
fn noise_reseed_changes_output() {
    let mut source = NoiseSource::new(12345);
    let noise1 = source.create(0xABCD);
    let values1 = row(&noise1, 10);

    source.reseed(54321);
    let noise2 = source.create(0xABCD);
    let values2 = row(&noise2, 10);

    assert_ne!(values1, values2, "Reseeding should change noise values");
}
