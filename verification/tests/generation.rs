use chaos_game::colour::ColourType;
use chaos_game::fixed::{lerp, FP_ONE};
use chaos_game::generator::{FractalGenerator, GenerateError};
use chaos_game::picker::{ProgressSink, SeededPicker, SilentProgress, VertexPicker};
use chaos_game::rules::Rule;
use chaos_game::types::{FractalSettings, Vec2};
use rand::rngs::StdRng;
use rand::{Rng, SeedableRng};

struct StdPicker(StdRng);

impl VertexPicker for StdPicker {
    fn pick(&mut self, bound: usize) -> usize {
        self.0.random_range(0..bound)
    }
}

struct CountingProgress {
    calls: u64,
    last: u64,
}

impl ProgressSink for CountingProgress {
    fn report(&mut self, iteration: u64) {
        self.calls += 1;
        self.last = iteration;
    }
}

fn settings(rule: Rule) -> FractalSettings {
    FractalSettings::new(3, FP_ONE / 2, ColourType::White, 0, rule)
}

#[test]
fn generation_is_reproducible_with_a_seeded_picker() {
    let generator = FractalGenerator::new(settings(Rule::Default), 16, 3, FP_ONE as u64).unwrap();
    let first = generator.generate(&mut SeededPicker::new(42), &mut SilentProgress {}).unwrap();
    let second = generator.generate(&mut SeededPicker::new(42), &mut SilentProgress {}).unwrap();
    assert_eq!(first, second);
}

#[test]
fn accepted_indices_and_points_replay_exactly() {
    // Replaying the rejection sampling and interpolation with the same
    // seeded source yields the same accepted indices and running points.
    let generator = FractalGenerator::new(settings(Rule::Default), 16, 3, FP_ONE as u64).unwrap();
    let mut runs: Vec<Vec<(usize, i64, i64)>> = Vec::new();
    for _ in 0..2 {
        let mut picker = SeededPicker::new(42);
        let mut point = Vec2::new(0, 0);
        let mut run: Vec<(usize, i64, i64)> = Vec::new();
        for _ in 0..3 {
            let vertex = generator
                .select_vertex(&mut picker, &std::collections::VecDeque::new())
                .unwrap();
            point = Vec2::new(
                lerp(point.x, vertex.pos.x, FP_ONE / 2),
                lerp(point.y, vertex.pos.y, FP_ONE / 2),
            );
            run.push((vertex.index, point.x, point.y));
        }
        runs.push(run);
    }
    assert_eq!(runs[0], runs[1]);
}

#[test]
fn generation_is_reproducible_with_a_seeded_standard_generator() {
    let generator = FractalGenerator::new(settings(Rule::Star), 16, 500, FP_ONE as u64).unwrap();
    let first = generator
        .generate(&mut StdPicker(StdRng::seed_from_u64(7)), &mut SilentProgress {})
        .unwrap();
    let second = generator
        .generate(&mut StdPicker(StdRng::seed_from_u64(7)), &mut SilentProgress {})
        .unwrap();
    assert_eq!(first, second);
}

#[test]
fn generate_returns_three_channels_per_pixel() {
    let generator =
        FractalGenerator::new(settings(Rule::Default), 8, 100, FP_ONE as u64).unwrap();
    let buffer = generator.generate(&mut SeededPicker::new(1), &mut SilentProgress {}).unwrap();
    assert_eq!(buffer.len(), 3 * 8 * 8);
}

#[test]
fn generate_reports_progress_once_per_iteration() {
    let generator =
        FractalGenerator::new(settings(Rule::Default), 8, 250, FP_ONE as u64).unwrap();
    let mut progress = CountingProgress { calls: 0, last: 0 };
    generator.generate(&mut SeededPicker::new(5), &mut progress).unwrap();
    assert_eq!(progress.calls, 250);
    assert_eq!(progress.last, 249);
}

#[test]
fn unsatisfiable_rule_is_reported() {
    // A one-sided polygon under the no-repeats rule: after the first
    // acceptance the only candidate always repeats, so the sampler gives
    // up instead of hanging.
    let one_sided = FractalSettings::new(1, FP_ONE / 2, ColourType::White, 0, Rule::NoRepeats);
    let generator = FractalGenerator::new(one_sided, 8, 2, FP_ONE as u64).unwrap();
    let result = generator.generate(&mut SeededPicker::new(3), &mut SilentProgress {});
    assert_eq!(result, Err(GenerateError::RuleUnsatisfiable));
}

#[test]
fn thread_picker_stays_below_the_bound() {
    let mut picker = chaos_game::picker::ThreadPicker::new();
    for bound in 1..10usize {
        for _ in 0..100 {
            assert!(picker.pick(bound) < bound);
        }
    }
    // A bound of one leaves a single possible draw.
    assert_eq!(picker.pick(1), 0);
}

#[test]
fn vector_arithmetic_is_componentwise() {
    let a = Vec2::new(3 * FP_ONE, -2 * FP_ONE);
    let b = Vec2::new(FP_ONE, FP_ONE);
    assert_eq!(a.add(b), Vec2::new(4 * FP_ONE, -FP_ONE));
    assert_eq!(a.sub(b), Vec2::new(2 * FP_ONE, -3 * FP_ONE));
    assert_eq!(a.neg(), Vec2::new(-3 * FP_ONE, 2 * FP_ONE));
    assert_eq!(a.scale(FP_ONE / 2), Vec2::new(3 * FP_ONE / 2, -FP_ONE));
    assert_eq!(Vec2::default(), Vec2::new(0, 0));
}

#[test]
fn interpolation_moves_by_the_given_fraction() {
    assert_eq!(lerp(0, FP_ONE, FP_ONE / 2), FP_ONE / 2);
    assert_eq!(lerp(0, FP_ONE, 0), 0);
    assert_eq!(lerp(0, FP_ONE, FP_ONE), FP_ONE);
    assert_eq!(lerp(FP_ONE, -FP_ONE, FP_ONE / 2), 0);
    assert_eq!(lerp(-FP_ONE, 0, FP_ONE / 4), -3 * FP_ONE / 4);
}
