use pbrt::stratification::draw_uniform;
use pbrt::stratification::draw_uniform_pair;
use pbrt::stratification::stratified_1d_from_words;
use pbrt::stratification::stratified_2d_from_words;
use pbrt::stratification::uniform_pair_from_words;
use pbrt::stratification::floor_sqrt_exec;
use pbrt::stratification::generate_stratified_1d_samples;
use pbrt::stratification::generate_stratified_2d_samples;
use pbrt::stratification::jitter_from_word;
use pbrt::stratification::StratumSample;
use rand::rngs::StdRng;
use rand::seq::SliceRandom;
use rand::Rng;
use rand::SeedableRng;

fn value(s: &StratumSample) -> f32 {
    let unit = 1.0 / (s.strata as f32);
    ((s.index as f32) + (s.jitter as f32) * (1.0 / 16_777_216.0)) * unit
}

#[test]
fn floor_sqrt_values() {
    let cases = [(0usize, 0usize), (1, 1), (2, 1), (3, 1), (4, 2), (8, 2), (9, 3), (15, 3), (16, 4), (99, 9), (100, 10)];
    for (n, s) in cases {
        assert_eq!(floor_sqrt_exec(n), s);
    }
    for n in 0usize..5000 {
        assert_eq!(floor_sqrt_exec(n), (n as f32).sqrt() as usize);
    }
    assert_eq!(floor_sqrt_exec(usize::MAX), (1usize << (usize::BITS / 2)) - 1);
}

#[test]
fn jitter_matches_rand_f32() {
    let mut ours = StdRng::seed_from_u64(3);
    let mut reference = ours.clone();
    for _ in 0..1000 {
        let sample = draw_uniform(&mut ours);
        let expected: f32 = reference.random::<f32>();
        assert_eq!((sample.index, sample.strata), (0, 1));
        assert!(sample.jitter < 1 << 24);
        assert_eq!(value(&sample), expected);
        let (x, y) = draw_uniform_pair(&mut ours);
        let expected_x: f32 = reference.random::<f32>();
        let expected_y: f32 = reference.random::<f32>();
        assert_eq!((value(&x), value(&y)), (expected_x, expected_y));
    }
}

#[test]
fn stratified_1d_samples_match_float_reference() {
    for size in [0usize, 1, 5, 64] {
        let mut ours = StdRng::seed_from_u64(11);
        let mut reference = ours.clone();
        let samples = generate_stratified_1d_samples(size, &mut ours);
        assert_eq!(samples.len(), size);
        let unit = 1.0 / (size as f32);
        for (idx, s) in samples.iter().enumerate() {
            assert_eq!(s.index, idx);
            assert_eq!(s.strata, size);
            let expected = ((idx as f32) + reference.random::<f32>()) * unit;
            assert_eq!(value(s), expected);
        }
    }
}

fn reference_2d(size: usize, rng: &mut StdRng) -> Vec<(f32, f32)> {
    fn generate(size: usize, rng: &mut StdRng) -> Vec<(f32, f32)> {
        let sqrt_size = (size as f32).sqrt() as usize;
        let mut samples = vec![];
        let unit = 1.0 / (sqrt_size as f32);
        for idx_x in 0..sqrt_size {
            for idx_y in 0..sqrt_size {
                let x = ((idx_x as f32) + rng.random::<f32>()) * unit;
                let y = ((idx_y as f32) + rng.random::<f32>()) * unit;
                samples.push((x, y));
            }
        }
        if size != sqrt_size * sqrt_size {
            samples.append(&mut generate(size - sqrt_size * sqrt_size, rng));
        }
        samples
    }
    let mut samples = generate(size, rng);
    samples.shuffle(rng);
    samples
}

#[test]
fn stratified_2d_samples_match_float_reference() {
    for size in [0usize, 1, 2, 3, 10, 16, 50, 257] {
        let mut ours = StdRng::seed_from_u64(size as u64 + 5);
        let mut reference = ours.clone();
        let samples = generate_stratified_2d_samples(size, &mut ours);
        let expected = reference_2d(size, &mut reference);
        assert_eq!(samples.len(), size);
        for (s, e) in samples.iter().zip(expected.iter()) {
            assert_eq!((value(&s.0), value(&s.1)), *e);
        }
    }
}

#[test]
fn stratified_2d_cells_cover_the_grids() {
    let mut rng = StdRng::seed_from_u64(1);
    // 10 samples: a 3 by 3 grid, then a single cell.
    let samples = generate_stratified_2d_samples(10, &mut rng);
    let mut cells: Vec<(usize, usize, usize)> =
        samples.iter().map(|(x, y)| (x.index, y.index, x.strata)).collect();
    cells.sort();
    let mut expected = vec![(0, 0, 1)];
    for x in 0..3 {
        for y in 0..3 {
            expected.push((x, y, 3));
        }
    }
    expected.sort();
    assert_eq!(cells, expected);
    for (x, y) in &samples {
        assert_eq!(x.strata, y.strata);
    }
}

#[test]
fn stratified_2d_samples_are_shuffled() {
    let mut rng = StdRng::seed_from_u64(9);
    let samples = generate_stratified_2d_samples(100, &mut rng);
    let cells: Vec<(usize, usize)> = samples.iter().map(|(x, y)| (x.index, y.index)).collect();
    let swept: Vec<(usize, usize)> = (0..10).flat_map(|x| (0..10).map(move |y| (x, y))).collect();
    assert_ne!(cells, swept);
}

#[test]
fn jitter_from_word_takes_top_bits() {
    assert_eq!(jitter_from_word(0), 0);
    assert_eq!(jitter_from_word(0xff), 0);
    assert_eq!(jitter_from_word(0x100), 1);
    assert_eq!(jitter_from_word(0x1234_5678), 0x12_3456);
    assert_eq!(jitter_from_word(u32::MAX), 0xff_ffff);
}

#[test]
fn uniform_pair_takes_x_from_first_word() {
    let (x, y) = uniform_pair_from_words(0x0000_0100, 0xffff_ffff);
    assert_eq!((x.index, x.strata, x.jitter), (0, 1, 1));
    assert_eq!((y.index, y.strata, y.jitter), (0, 1, 0xff_ffff));
}

#[test]
fn stratified_1d_from_words_jitters_each_stratum() {
    let words = vec![0x0000_0000u32, 0x1234_5678, 0xffff_ffff];
    let samples = stratified_1d_from_words(&words);
    let got: Vec<(usize, usize, u32)> = samples.iter().map(|s| (s.index, s.strata, s.jitter)).collect();
    assert_eq!(got, vec![(0, 3, 0), (1, 3, 0x12_3456), (2, 3, 0xff_ffff)]);
}

#[test]
fn stratified_2d_from_words_sweeps_the_grids() {
    // 5 samples: a 2 by 2 grid swept row by row, then a single cell; words
    // are taken two per cell, x first.
    let words: Vec<u32> = (1..=10u32).map(|w| w << 8).collect();
    let cells = stratified_2d_from_words(5, &words);
    let got: Vec<(usize, usize, usize, u32, u32)> = cells
        .iter()
        .map(|(x, y)| (x.index, y.index, x.strata, x.jitter, y.jitter))
        .collect();
    assert_eq!(
        got,
        vec![(0, 0, 2, 1, 2), (0, 1, 2, 3, 4), (1, 0, 2, 5, 6), (1, 1, 2, 7, 8), (0, 0, 1, 9, 10)]
    );
    for (x, y) in &cells {
        assert_eq!(x.strata, y.strata);
    }
}
