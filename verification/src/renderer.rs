//! How the renderer hands out its work: the image is rendered column by
//! column, from a shared list of the columns in random order, and a column is
//! rendered pixel by pixel from top to bottom.
use vstd::prelude::*;
use crate::random_source::os_seeded_rng;
use crate::random_source::shuffle_with_std_rng;
use crate::random_source::EntropyUnavailable;
use rand::rngs::StdRng;

verus! {

/// The columns of an image `width` pixels wide, in order.
pub open spec fn all_columns(width: nat) -> Seq<usize> {
    Seq::new(width, |i: int| i as usize)
}

/// The job list of an image `width` pixels wide: every column once, in an
/// order drawn from a generator seeded by the operating system
/// (`shuffled_columns`), or `EntropyUnavailable` when the operating system
/// cannot seed one.
pub fn column_jobs(width: usize) -> (jobs: Result<Vec<usize>, EntropyUnavailable>)
    ensures
        jobs matches Ok(jobs) ==> jobs@.len() == width && jobs@.to_multiset() == all_columns(
            width as nat,
        ).to_multiset(),
{
    match os_seeded_rng() {
        Ok(rng) => {
            let mut rng = rng;
            Ok(shuffled_columns(width, &mut rng))
        },
        Err(e) => Err(e),
    }
}

/// The columns `0..width` in an order drawn from `rng`.
pub fn shuffled_columns(width: usize, rng: &mut StdRng) -> (jobs: Vec<usize>)
    ensures
        jobs@.len() == width,
        jobs@.to_multiset() == all_columns(width as nat).to_multiset(),
{
    let mut jobs: Vec<usize> = Vec::new();
    let mut x: usize = 0;
    while x < width
        invariant
            x <= width,
            jobs@ == all_columns(x as nat),
        decreases width - x,
    {
        jobs.push(x);
        x = x + 1;
        assert(jobs@ =~= all_columns(x as nat));
    }
    shuffle_with_std_rng(&mut jobs, rng);
    jobs
}

/// The job list holds every column of the image exactly once, and nothing
/// else: whatever order the shuffle picked, each column is rendered once.
pub proof fn lemma_column_jobs_cover(jobs: Seq<usize>, width: nat)
    requires
        jobs.to_multiset() == all_columns(width).to_multiset(),
        width <= usize::MAX,
    ensures
        forall|x: usize| #[trigger] jobs.to_multiset().count(x) == if x < width {
            1nat
        } else {
            0nat
        },
    decreases width,
{
    broadcast use vstd::seq_lib::group_to_multiset_ensures;
    broadcast use vstd::multiset::group_multiset_axioms;

    if width == 0 {
        assert(all_columns(0) =~= Seq::<usize>::empty());
        assert(all_columns(0).to_multiset() =~= vstd::multiset::Multiset::<usize>::empty());
    } else {
        let w = (width - 1) as nat;
        assert(all_columns(width) =~= all_columns(w).push(w as usize));
        lemma_column_jobs_cover(all_columns(w), w);
        assert forall|x: usize| #[trigger] jobs.to_multiset().count(x) == if x < width {
            1nat
        } else {
            0nat
        } by {
            assert(all_columns(width).to_multiset() =~= all_columns(w).to_multiset().insert(
                w as usize,
            ));
            assert(all_columns(w).to_multiset().count(x) == if x < w {
                1nat
            } else {
                0nat
            });
            if x == w {
                assert(all_columns(width).to_multiset().count(x) == all_columns(w).to_multiset().count(x) + 1);
            } else {
                assert(all_columns(width).to_multiset().count(x) == all_columns(w).to_multiset().count(x));
            }
        }
    }
}

/// The pixels of column `x` of an image `height` pixels tall, top to bottom,
/// each as `(y, x)`.
pub fn column_pixels(x: usize, height: usize) -> (pixels: Vec<(usize, usize)>)
    ensures
        pixels@ == Seq::new(height as nat, |y: int| (y as usize, x)),
{
    let mut pixels: Vec<(usize, usize)> = Vec::new();
    let mut y: usize = 0;
    while y < height
        invariant
            y <= height,
            pixels@ == Seq::new(y as nat, |i: int| (i as usize, x)),
        decreases height - y,
    {
        pixels.push((y, x));
        y = y + 1;
        assert(pixels@ =~= Seq::new(y as nat, |i: int| (i as usize, x)));
    }
    pixels
}

} // verus!
