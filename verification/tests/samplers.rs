use pbrt::samplers::random::RandomSampler;
use pbrt::samplers::stratified::StratifiedSampler;
use pbrt::stratification::generate_stratified_1d_samples;
use rand::rngs::StdRng;
use rand::SeedableRng;

#[test]
fn stratified_sampler_is_uniform_before_preprocess() {
    let mut sampler = StratifiedSampler::new(3).unwrap();
    for _ in 0..10 {
        let s = sampler.get_1d_sample();
        assert_eq!((s.index, s.strata), (0, 1));
        assert!(s.jitter < 1 << 24);
        let (x, y) = sampler.get_2d_sample();
        assert_eq!((x.index, x.strata, y.index, y.strata), (0, 1, 0, 1));
    }
}

#[test]
fn stratified_sampler_rounds_follow_the_table() {
    let dimensions = 3;
    let n = 4;
    let mut sampler = StratifiedSampler::new(dimensions).unwrap();
    sampler.preprocess(n).unwrap();
    assert_eq!(sampler.current_round(), 0);
    let mut cells_per_dimension = vec![vec![]; dimensions];
    for round in 0..n {
        for _ in 0..dimensions {
            let s = sampler.get_1d_sample();
            assert_eq!((s.index, s.strata), (round, n));
        }
        // The round's dimensions are used up: uniform draws follow.
        let s = sampler.get_1d_sample();
        assert_eq!((s.index, s.strata), (0, 1));
        for d in 0..dimensions {
            let (x, y) = sampler.get_2d_sample();
            assert_eq!((x.strata, y.strata), (2, 2));
            cells_per_dimension[d].push((x.index, y.index));
        }
        let (x, _) = sampler.get_2d_sample();
        assert_eq!(x.strata, 1);
        sampler.update_round();
        assert_eq!(sampler.current_round(), round + 1);
    }
    // Past the last round every draw is uniform.
    assert_eq!(sampler.get_1d_sample().strata, 1);
    for mut cells in cells_per_dimension {
        cells.sort();
        assert_eq!(cells, vec![(0, 0), (0, 1), (1, 0), (1, 1)]);
    }
}

#[test]
fn stratified_sampler_fork_starts_fresh() {
    let mut sampler = StratifiedSampler::new(2).unwrap();
    sampler.preprocess(9).unwrap();
    let mut forked = sampler.fork().unwrap();
    assert_eq!(forked.current_round(), usize::MAX);
    assert_eq!(forked.get_1d_sample().strata, 1);
    forked.preprocess(9).unwrap();
    assert_eq!(forked.get_1d_sample().strata, 9);
}

#[test]
fn random_sampler_draws_uniform_samples() {
    let mut sampler = RandomSampler::new().unwrap();
    sampler.preprocess(4).unwrap();
    sampler.update_round();
    let mut forked = sampler.fork().unwrap();
    for _ in 0..100 {
        let s = forked.get_1d_sample();
        assert_eq!((s.index, s.strata), (0, 1));
        assert!(s.jitter < 1 << 24);
        let (x, y) = sampler.get_2d_sample();
        assert_eq!((x.strata, y.strata), (1, 1));
    }
}

#[test]
fn stratified_sampler_with_seeded_generator() {
    let mut sampler = StratifiedSampler::with_rng(StdRng::seed_from_u64(4), 2);
    assert_eq!(sampler.current_round(), usize::MAX);
    assert_eq!(sampler.get_1d_sample().strata, 1);
    let mut reference = StdRng::seed_from_u64(21);
    sampler.preprocess_with(StdRng::seed_from_u64(21), 5);
    // The first dimension's one-dimensional samples are the first draws.
    let expected = generate_stratified_1d_samples(5, &mut reference);
    for round in 0..5 {
        let s = sampler.get_1d_sample();
        assert_eq!(s, expected[round]);
        sampler.update_round();
    }
}
