use pbrt::renderer::column_jobs;
use pbrt::renderer::column_pixels;
use pbrt::renderer::shuffled_columns;
use rand::rngs::StdRng;
use rand::seq::SliceRandom;
use rand::SeedableRng;

#[test]
fn column_jobs_hold_every_column_once() {
    for width in [0usize, 1, 2, 17, 640] {
        let mut jobs = column_jobs(width).unwrap();
        assert_eq!(jobs.len(), width);
        jobs.sort();
        assert_eq!(jobs, (0..width).collect::<Vec<usize>>());
    }
}

#[test]
fn column_jobs_are_shuffled() {
    // The chance that 1000 columns come out in order is nil.
    let jobs = column_jobs(1000).unwrap();
    assert_ne!(jobs, (0..1000).collect::<Vec<usize>>());
}

#[test]
fn column_pixels_top_to_bottom() {
    assert_eq!(column_pixels(3, 4), vec![(0, 3), (1, 3), (2, 3), (3, 3)]);
    assert_eq!(column_pixels(9, 0), Vec::<(usize, usize)>::new());
}

#[test]
fn shuffled_columns_match_rand_shuffle() {
    let mut rng = StdRng::seed_from_u64(8);
    let mut reference = rng.clone();
    let jobs = shuffled_columns(50, &mut rng);
    let mut expected: Vec<usize> = (0..50).collect();
    expected.shuffle(&mut reference);
    assert_eq!(jobs, expected);
}
