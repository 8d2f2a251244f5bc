//! A sampler that, for every pixel, stratifies each sample dimension over the
//! pixel's samples: in dimension `d`, the `r`-th sample of the pixel lies in
//! the `r`-th stratum (one dimension) or in one cell of a set of square grids
//! that together hold one cell per sample (two dimensions).
use vstd::prelude::*;
use rand::rngs::StdRng;
use crate::random_source::os_seeded_rng;
use crate::random_source::EntropyUnavailable;
use crate::stratification::positions;
use crate::stratification::cell_position;
use crate::stratification::is_stratified_1d;
use crate::stratification::is_stratified_2d;
use crate::stratification::cell_wf;
use crate::stratification::draw_uniform_logged;
use crate::stratification::draw_uniform_pair_logged;
use crate::stratification::draw_word_pairs;
use crate::stratification::draw_words;
use crate::stratification::draws_one;
use crate::stratification::draws_pair;
use crate::stratification::cell_of;
use crate::stratification::cells_from_words;
use crate::stratification::lemma_map_values_to_multiset;
use crate::stratification::stratified_1d_from_words;
use crate::stratification::stratified_1d_of;
use crate::stratification::stratified_2d_from_words;
use crate::random_source::shuffle_with_std_rng;
use crate::stratification::generate_stratified_1d_samples;
use crate::stratification::generate_stratified_2d_samples;
use crate::stratification::square_layout;
use crate::stratification::floor_sqrt;
use crate::stratification::lemma_floor_sqrt;
use crate::stratification::lemma_square_block_cell_once;
use crate::stratification::lemma_square_layout;
use crate::stratification::square_block;
use crate::stratification::Sample2D;
use crate::stratification::StratumSample;
use crate::stratification::JITTER_RANGE;

verus! {

/// The sampler's state: the samples of the current pixel, one row per round
/// (sample) of the pixel and one column per dimension, and the cursor that
/// says which round and which dimension comes next.
pub struct StratifiedSampler {
    rng: StdRng,
    dimensions: usize,
    round: usize,
    dimension_1d: usize,
    dimension_2d: usize,
    samples_1d: Vec<Vec<StratumSample>>,
    samples_2d: Vec<Vec<Sample2D>>,
    drawn: Ghost<Seq<u32>>,
}

/// Column `d` of a table: entry `d` of every row.
pub open spec fn column<T>(table: Seq<Seq<T>>, d: int) -> Seq<T> {
    Seq::new(table.len(), |r: int| table[r][d])
}

/// A table of `rounds` rows of `dimensions` entries each.
pub open spec fn is_table<T>(table: Seq<Seq<T>>, rounds: nat, dimensions: nat) -> bool {
    &&& table.len() == rounds
    &&& forall|r: int| 0 <= r < rounds ==> (#[trigger] table[r]).len() == dimensions
}

/// Every column of a one-dimensional table of `n` rounds puts round `r` in
/// stratum `r` of `n`.
pub open spec fn stratified_1d_table(table: Seq<Seq<StratumSample>>, n: nat, dimensions: nat) -> bool {
    &&& is_table(table, n, dimensions)
    &&& forall|r: int, d: int|
        0 <= r < n && 0 <= d < dimensions ==> {
            let s = #[trigger] table[r][d];
            s.index == r && s.strata == n && s.jitter < JITTER_RANGE
        }
}

/// Every column of a two-dimensional table of `n` rounds holds the cells of
/// `square_layout(n)`, each once, in some order.
pub open spec fn stratified_2d_table(table: Seq<Seq<Sample2D>>, n: nat, dimensions: nat) -> bool {
    &&& is_table(table, n, dimensions)
    &&& forall|d: int|
        0 <= d < dimensions ==> positions(#[trigger] column(table, d)).to_multiset()
            == square_layout(n).to_multiset()
    &&& forall|r: int, d: int| 0 <= r < n && 0 <= d < dimensions ==> cell_wf(#[trigger] table[r][d])
}

/// A sample's value scaled by `strata * 2^24`: the sample stands for
/// `scaled_value(s) / (s.strata * 2^24)`.
pub open spec fn scaled_value(s: StratumSample) -> int {
    s.index * JITTER_RANGE + s.jitter
}

/// In every dimension of a pixel's one-dimensional table, round `r` draws
/// from stratum `r` of `n`: its value lies in `[r / n, (r + 1) / n)`. So over
/// the `n` rounds each stratum of `[0, 1)` is drawn from exactly once.
pub proof fn lemma_1d_round_in_own_stratum(
    table: Seq<Seq<StratumSample>>,
    n: nat,
    dimensions: nat,
    d: int,
    r: int,
)
    requires
        stratified_1d_table(table, n, dimensions),
        0 <= d < dimensions,
        0 <= r < n,
    ensures
        column(table, d).len() == n,
        column(table, d)[r].strata == n,
        r * JITTER_RANGE <= scaled_value(column(table, d)[r]) < (r + 1) * JITTER_RANGE,
        forall|q: int|
            0 <= q < n && #[trigger] column(table, d)[q].index == column(table, d)[r].index
                ==> q == r,
{
    assert(table[r][d].index == r);
    assert forall|q: int|
        0 <= q < n && #[trigger] column(table, d)[q].index == column(table, d)[r].index implies q
        == r by {
        assert(table[q][d].index == q);
    }
}

/// In every dimension of a pixel's two-dimensional table, each sample lies in
/// `[0, 1) x [0, 1)`, and each cell of the largest grid that fits (`m` by
/// `m` with `m = floor_sqrt(n)`) holds at least one of the pixel's `n`
/// samples; exactly one when `n == m * m`.
pub proof fn lemma_2d_dimension_covers_grid(
    table: Seq<Seq<Sample2D>>,
    n: nat,
    dimensions: nat,
    d: int,
    i: nat,
    j: nat,
)
    requires
        stratified_2d_table(table, n, dimensions),
        0 <= d < dimensions,
        i < floor_sqrt(n),
        j < floor_sqrt(n),
    ensures
        positions(column(table, d)).to_multiset().count((i, j, floor_sqrt(n))) >= 1,
        floor_sqrt(n) * floor_sqrt(n) == n ==> positions(column(table, d)).to_multiset().count(
            (i, j, floor_sqrt(n)),
        ) == 1,
        forall|r: int|
            0 <= r < n ==> {
                let c = #[trigger] column(table, d)[r];
                &&& c.0.index < c.0.strata
                &&& c.1.index < c.1.strata
                &&& scaled_value(c.0) < c.0.strata * JITTER_RANGE
                &&& scaled_value(c.1) < c.1.strata * JITTER_RANGE
            },
{
    broadcast use vstd::seq_lib::group_to_multiset_ensures;
    broadcast use vstd::multiset::group_multiset_axioms;

    let m = floor_sqrt(n);
    lemma_floor_sqrt(n);
    lemma_square_layout(n);
    lemma_square_block_cell_once(m, i, j);
    let layout = square_layout(n);
    if m * m >= n {
        assert(layout == square_block(m));
    } else {
        let rest = square_layout((n - m * m) as nat);
        assert(layout == square_block(m) + rest);
        vstd::seq_lib::lemma_multiset_commutative(square_block(m), rest);
    }
    let col = column(table, d);
    assert forall|r: int| 0 <= r < n implies {
        let c = #[trigger] col[r];
        &&& c.0.index < c.0.strata
        &&& c.1.index < c.1.strata
        &&& scaled_value(c.0) < c.0.strata * JITTER_RANGE
        &&& scaled_value(c.1) < c.1.strata * JITTER_RANGE
    } by {
        let c = col[r];
        assert(cell_wf(table[r][d]));
        assert(positions(col)[r] == cell_position(c));
        assert(positions(col).to_multiset().count(cell_position(c)) > 0);
        assert(layout.contains(cell_position(c)));
        let q = choose|q: int| 0 <= q < layout.len() && layout[q] == cell_position(c);
        assert(layout[q].0 < layout[q].2 && layout[q].1 < layout[q].2);
        assert(scaled_value(c.0) < c.0.strata * JITTER_RANGE) by (nonlinear_arith)
            requires
                c.0.index < c.0.strata,
                c.0.jitter < JITTER_RANGE,
        ;
        assert(scaled_value(c.1) < c.1.strata * JITTER_RANGE) by (nonlinear_arith)
            requires
                c.1.index < c.1.strata,
                c.1.jitter < JITTER_RANGE,
        ;
    }
}

/// After `preprocess(n)`, `k < n` calls of `update_round` and fewer than
/// `dimensions` one-dimensional draws in the round, the next
/// `get_1d_sample` returns a table entry (not a uniform draw), and that entry
/// lies in stratum `k` of `n`: its value is in `[k / n, (k + 1) / n)`.
pub proof fn lemma_next_1d_sample_in_round_stratum(sampler: StratifiedSampler, n: nat)
    requires
        stratified_1d_table(sampler.table_1d(), n, sampler.dimensions() as nat),
        sampler.round() < n,
        sampler.dimension_1d() < sampler.dimensions(),
    ensures
        ({
            let t = sampler.table_1d();
            let r = sampler.round() as int;
            let k = sampler.dimension_1d() as int;
            &&& r < t.len() && k < t[r].len()
            &&& t[r][k].index == r && t[r][k].strata == n
            &&& r * JITTER_RANGE <= scaled_value(t[r][k]) < (r + 1) * JITTER_RANGE
        }),
{
    let t = sampler.table_1d();
    let r = sampler.round() as int;
    let k = sampler.dimension_1d() as int;
    assert(t[r].len() == sampler.dimensions());
    assert(t[r][k].index == r);
}

/// The words from which dimension `e` of a pixel's one-dimensional table is
/// made, when the pixel's words start at `start` of the record.
pub open spec fn dimension_words_1d(drawn: Seq<u32>, start: int, n: int, e: int) -> Seq<u32> {
    drawn.subrange(start + 3 * n * e, start + 3 * n * e + n)
}

/// The words from which dimension `e` of a pixel's two-dimensional table is
/// made, when the pixel's words start at `start` of the record.
pub open spec fn dimension_words_2d(drawn: Seq<u32>, start: int, n: int, e: int) -> Seq<u32> {
    drawn.subrange(start + 3 * n * e + n, start + 3 * n * e + 3 * n)
}

/// The two-dimensional samples that `2 n` words give before shuffling: the
/// cells of `square_layout(n)` in order, cell `i` jittered by words `2 i`
/// (`x`) and `2 i + 1` (`y`).
pub open spec fn swept_2d(n: nat, words: Seq<u32>) -> Seq<Sample2D> {
    Seq::new(
        square_layout(n).len(),
        |i: int| cell_of(square_layout(n)[i], words[2 * i], words[2 * i + 1]),
    )
}

/// Draws one dimension's sets for a pixel of `n` samples: `n` words for the
/// one-dimensional set, then `2 n` words for the two-dimensional set, which
/// is then shuffled with the same generator. Returns both sets and the
/// words, in the order drawn.
fn draw_dimension(n: usize, rng: &mut StdRng) -> (result: (
    Vec<StratumSample>,
    Vec<Sample2D>,
    Ghost<Seq<u32>>,
))
    ensures
        result.2@.len() == 3 * n,
        result.0@ == stratified_1d_of(result.2@.subrange(0, n as int)),
        is_stratified_1d(result.0@, n as nat),
        result.1@.to_multiset() == swept_2d(n as nat, result.2@.subrange(n as int, 3 * n)).to_multiset(),
        is_stratified_2d(result.1@, n as nat),
{
    let words_1d = draw_words(n, rng);
    let samples_1d = stratified_1d_from_words(&words_1d);
    let words_2d = draw_word_pairs(n, rng);
    let mut samples_2d = stratified_2d_from_words(n, &words_2d);
    let ghost swept = samples_2d@;
    proof {
        lemma_square_layout(n as nat);
        assert(swept =~= swept_2d(n as nat, words_2d@));
    }
    shuffle_with_std_rng(&mut samples_2d, rng);
    let ghost block = words_1d@ + words_2d@;
    proof {
        broadcast use vstd::seq_lib::group_to_multiset_ensures;

        assert(block.subrange(0, n as int) =~= words_1d@);
        assert(block.subrange(n as int, 3 * n) =~= words_2d@);
        lemma_map_values_to_multiset(samples_2d@, swept, |c: Sample2D| cell_position(c));
        assert(positions(samples_2d@) == samples_2d@.map_values(|c: Sample2D| cell_position(c)));
        assert(positions(swept) == swept.map_values(|c: Sample2D| cell_position(c)));
        assert forall|i: int| 0 <= i < samples_2d@.len() implies cell_wf(#[trigger] samples_2d@[i]) by {
            assert(samples_2d@.to_multiset().count(samples_2d@[i]) > 0);
            assert(swept.contains(samples_2d@[i]));
            let j = choose|j: int| 0 <= j < swept.len() && swept[j] == samples_2d@[i];
            assert(cell_wf(swept[j]));
        }
    }
    (samples_1d, samples_2d, Ghost(block))
}

/// Each dimension of a pixel gets its own one-dimensional set: after
/// `preprocess_with`, round `r` of dimension `e` lies in stratum `r` of `n`
/// and is jittered by the top 24 bits of word `3 n e + r` of the words the
/// pixel drew. Two different dimensions take their jitter for a round from two
/// different words, so they agree only where those words do.
pub proof fn lemma_dimension_1d_from_own_words(
    sampler: StratifiedSampler,
    n: nat,
    start: int,
    r: int,
    e: int,
    f: int,
)
    requires
        sampler.pixel_drawn_from(n, start),
        stratified_1d_table(sampler.table_1d(), n, sampler.dimensions() as nat),
        0 <= start,
        0 <= r < n,
        0 <= e < sampler.dimensions(),
        0 <= f < sampler.dimensions(),
    ensures
        sampler.table_1d()[r][e].index == r,
        sampler.table_1d()[r][e].strata == n,
        sampler.table_1d()[r][e].jitter == sampler.drawn()[start + 3 * n * e + r] >> 8u32,
        e != f ==> start + 3 * n * e + r != start + 3 * n * f + r,
        (sampler.table_1d()[r][e] == sampler.table_1d()[r][f]) <==> (sampler.drawn()[start + 3
            * n * e + r] >> 8u32 == sampler.drawn()[start + 3 * n * f + r] >> 8u32),
{
    let t = sampler.table_1d();
    let drawn = sampler.drawn();
    assert(column(t, e) == stratified_1d_of(dimension_words_1d(drawn, start, n as int, e)));
    assert(column(t, f) == stratified_1d_of(dimension_words_1d(drawn, start, n as int, f)));
    assert(column(t, e)[r] == t[r][e]);
    assert(column(t, f)[r] == t[r][f]);
    assert(3 * n * e + n <= 3 * n * sampler.dimensions()) by (nonlinear_arith)
        requires
            0 <= e < sampler.dimensions(),
    ;
    assert(3 * n * f + n <= 3 * n * sampler.dimensions()) by (nonlinear_arith)
        requires
            0 <= f < sampler.dimensions(),
    ;
    assert(3 * n * e >= 0 && 3 * n * f >= 0) by (nonlinear_arith)
        requires
            e >= 0,
            f >= 0,
    ;
    if e != f {
        assert(3 * n * e != 3 * n * f || n == 0) by (nonlinear_arith)
            requires
                e != f,
        ;
    }
}

/// Each dimension of a pixel gets its own two-dimensional set: after
/// `preprocess_with`, the sample of round `r` in dimension `e` is one of the
/// cells of `square_layout(n)`, jittered by the two words that dimension `e`
/// drew for that cell (words `3 n e + n + 2 i` and `3 n e + n + 2 i + 1` of
/// the pixel's words for cell `i`), `x` by the first and `y` by the second.
pub proof fn lemma_dimension_2d_from_own_words(
    sampler: StratifiedSampler,
    n: nat,
    start: int,
    r: int,
    e: int,
)
    requires
        sampler.pixel_drawn_from(n, start),
        stratified_2d_table(sampler.table_2d(), n, sampler.dimensions() as nat),
        0 <= start,
        0 <= r < n,
        0 <= e < sampler.dimensions(),
    ensures
        exists|i: int|
            0 <= i < n && #[trigger] sampler.table_2d()[r][e] == cell_of(
                square_layout(n)[i],
                sampler.drawn()[start + 3 * n * e + n + 2 * i],
                sampler.drawn()[start + 3 * n * e + n + 2 * i + 1],
            ),
{
    broadcast use vstd::seq_lib::group_to_multiset_ensures;

    let t = sampler.table_2d();
    let drawn = sampler.drawn();
    let words = dimension_words_2d(drawn, start, n as int, e);
    let col = column(t, e);
    lemma_square_layout(n);
    assert(col.to_multiset() == swept_2d(n, words).to_multiset());
    assert(col[r] == t[r][e]);
    assert(col.to_multiset().count(col[r]) > 0);
    assert(swept_2d(n, words).contains(col[r]));
    let i = choose|i: int| 0 <= i < swept_2d(n, words).len() && swept_2d(n, words)[i] == col[r];
    assert(3 * n * e + 3 * n <= 3 * n * sampler.dimensions()) by (nonlinear_arith)
        requires
            0 <= e < sampler.dimensions(),
    ;
    assert(3 * n * e >= 0) by (nonlinear_arith)
        requires
            e >= 0,
    ;
    assert(words[2 * i] == drawn[start + 3 * n * e + n + 2 * i]);
    assert(words[2 * i + 1] == drawn[start + 3 * n * e + n + 2 * i + 1]);
    assert(t[r][e] == cell_of(
        square_layout(n)[i],
        drawn[start + 3 * n * e + n + 2 * i],
        drawn[start + 3 * n * e + n + 2 * i + 1],
    ));
}

/// A call on a stratified sampler that moves its cursor.
#[derive(Clone, Copy, Debug, PartialEq, Eq, Structural)]
pub enum SamplerCall {
    UpdateRound,
    Get1d,
    Get2d,
}

/// `after` is what `call` leaves of `before`: the tables and dimensions are
/// kept; `UpdateRound` starts the next round at dimension 0; a draw moves its
/// dimension on by one when it takes a table entry and leaves it otherwise.
pub open spec fn call_step(call: SamplerCall, before: StratifiedSampler, after: StratifiedSampler) -> bool {
    &&& after.dimensions() == before.dimensions()
    &&& after.table_1d() == before.table_1d()
    &&& after.table_2d() == before.table_2d()
    &&& match call {
        SamplerCall::UpdateRound => {
            &&& after.round() == before.round() + 1
            &&& after.dimension_1d() == 0
            &&& after.dimension_2d() == 0
        },
        SamplerCall::Get1d => {
            let t = before.table_1d();
            let r = before.round() as int;
            let k = before.dimension_1d() as int;
            &&& after.round() == before.round()
            &&& after.dimension_2d() == before.dimension_2d()
            &&& after.dimension_1d() == if r < t.len() && k < t[r].len() {
                k + 1
            } else {
                k
            }
        },
        SamplerCall::Get2d => {
            let t = before.table_2d();
            let r = before.round() as int;
            let k = before.dimension_2d() as int;
            &&& after.round() == before.round()
            &&& after.dimension_1d() == before.dimension_1d()
            &&& after.dimension_2d() == if r < t.len() && k < t[r].len() {
                k + 1
            } else {
                k
            }
        },
    }
}

/// The number of `UpdateRound` calls in `calls`.
pub open spec fn rounds_started(calls: Seq<SamplerCall>) -> nat
    decreases calls.len(),
{
    if calls.len() == 0 {
        0
    } else {
        rounds_started(calls.drop_last()) + if calls.last() == SamplerCall::UpdateRound {
            1nat
        } else {
            0nat
        }
    }
}

/// Along any sequence of calls after `preprocess(n)` (the states the calls
/// pass through are `states`), the tables stay the stratified ones, the round
/// is the number of `update_round` calls so far, and, while that round is
/// below `n`: the next `get_1d_sample` with dimensions left takes the table
/// entry of this round, which lies in stratum `round` of `n`; the next
/// `get_2d_sample` with dimensions left takes entry `round` of its
/// dimension's column, and that column covers the pixel's grids
/// (`lemma_2d_dimension_covers_grid`).
pub proof fn lemma_pixel_calls(
    states: Seq<StratifiedSampler>,
    calls: Seq<SamplerCall>,
    n: nat,
    dimensions: usize,
)
    requires
        states.len() == calls.len() + 1,
        states[0].starts_pixel(n, dimensions),
        forall|i: int| 0 <= i < calls.len() ==> call_step(#[trigger] calls[i], states[i], states[i + 1]),
    ensures
        ({
            let last = states.last();
            let r = last.round() as int;
            &&& last.dimensions() == dimensions
            &&& last.round() == rounds_started(calls)
            &&& last.table_1d() == states[0].table_1d()
            &&& last.table_2d() == states[0].table_2d()
            &&& stratified_1d_table(last.table_1d(), n, dimensions as nat)
            &&& stratified_2d_table(last.table_2d(), n, dimensions as nat)
            &&& last.dimension_1d() <= dimensions
            &&& last.dimension_2d() <= dimensions
            &&& r < n && last.dimension_1d() < dimensions ==> {
                let t = last.table_1d();
                let k = last.dimension_1d() as int;
                &&& r < t.len() && k < t[r].len()
                &&& t[r][k].index == r && t[r][k].strata == n
                &&& r * JITTER_RANGE <= scaled_value(t[r][k]) < (r + 1) * JITTER_RANGE
            }
            &&& r < n && last.dimension_2d() < dimensions ==> {
                let t = last.table_2d();
                let k = last.dimension_2d() as int;
                &&& r < t.len() && k < t[r].len()
                &&& t[r][k] == column(t, k)[r]
            }
        }),
    decreases calls.len(),
{
    if calls.len() > 0 {
        let m = calls.len() - 1;
        let prefix_states = states.subrange(0, m + 1);
        let prefix_calls = calls.drop_last();
        assert forall|i: int| 0 <= i < prefix_calls.len() implies call_step(
            #[trigger] prefix_calls[i],
            prefix_states[i],
            prefix_states[i + 1],
        ) by {
            assert(prefix_calls[i] == calls[i]);
            assert(call_step(calls[i], states[i], states[i + 1]));
        }
        lemma_pixel_calls(prefix_states, prefix_calls, n, dimensions);
        assert(prefix_states.last() == states[m]);
        assert(call_step(calls[m], states[m], states[m + 1]));
        assert(states.last() == states[m + 1]);
        let prev = states[m];
        let t1 = prev.table_1d();
        let t2 = prev.table_2d();
        if prev.round() < t1.len() {
            assert(t1[prev.round() as int].len() == dimensions);
        }
        if prev.round() < t2.len() {
            assert(t2[prev.round() as int].len() == dimensions);
        }
    }
    let last = states.last();
    let r = last.round() as int;
    if r < n && last.dimension_1d() < dimensions {
        let t = last.table_1d();
        let k = last.dimension_1d() as int;
        assert(t[r].len() == dimensions);
        assert(t[r][k].index == r);
    }
    if r < n && last.dimension_2d() < dimensions {
        let t = last.table_2d();
        assert(t[r].len() == dimensions);
    }
}

impl StratifiedSampler {
    /// The number of dimensions that each round holds stratified samples for.
    pub closed spec fn dimensions(&self) -> usize {
        self.dimensions
    }

    /// The generator that uniform draws come from.
    pub closed spec fn generator(&self) -> StdRng {
        self.rng
    }

    /// The words this sampler has drawn from its generators so far, in order.
    pub closed spec fn drawn(&self) -> Seq<u32> {
        self.drawn@
    }

    /// The round (sample of the current pixel) that the next draw belongs to.
    pub closed spec fn round(&self) -> usize {
        self.round
    }

    /// The dimension that the next one-dimensional draw of the round takes.
    pub closed spec fn dimension_1d(&self) -> usize {
        self.dimension_1d
    }

    /// The dimension that the next two-dimensional draw of the round takes.
    pub closed spec fn dimension_2d(&self) -> usize {
        self.dimension_2d
    }

    /// The one-dimensional samples of the pixel, by round then dimension.
    pub closed spec fn table_1d(&self) -> Seq<Seq<StratumSample>> {
        self.samples_1d@.map_values(|row: Vec<StratumSample>| row@)
    }

    /// The two-dimensional samples of the pixel, by round then dimension.
    pub closed spec fn table_2d(&self) -> Seq<Seq<Sample2D>> {
        self.samples_2d@.map_values(|row: Vec<Sample2D>| row@)
    }

    /// A sampler that holds no samples yet: until `preprocess` is called every
    /// draw is uniform. Its generator is seeded from the operating system;
    /// when that fails the result is `EntropyUnavailable`.
    pub fn new(dimensions: usize) -> (sampler: Result<Self, EntropyUnavailable>)
        ensures
            sampler matches Ok(s) ==> s.is_fresh(dimensions),
    {
        match os_seeded_rng() {
            Ok(rng) => Ok(StratifiedSampler::with_rng(rng, dimensions)),
            Err(e) => Err(e),
        }
    }

    /// A sampler that holds no samples yet and draws uniform samples from
    /// `rng` until `preprocess` is called.
    pub fn with_rng(rng: StdRng, dimensions: usize) -> (sampler: Self)
        ensures
            sampler.is_fresh(dimensions),
            sampler.generator() == rng,
            sampler.drawn() == Seq::<u32>::empty(),
    {
        let mut samples_2d: Vec<Vec<Sample2D>> = Vec::new();
        samples_2d.push(Vec::new());
        let sampler = StratifiedSampler {
            rng,
            dimensions,
            round: usize::MAX,
            dimension_1d: usize::MAX,
            dimension_2d: usize::MAX,
            samples_1d: Vec::new(),
            samples_2d,
            drawn: Ghost(Seq::empty()),
        };
        assert(sampler.table_1d() =~= Seq::<Seq<StratumSample>>::empty());
        assert(sampler.table_2d() =~= seq![Seq::<Sample2D>::empty()]);
        sampler
    }

    /// The state of a sampler that holds no samples yet.
    pub open spec fn is_fresh(&self, dimensions: usize) -> bool {
        &&& self.dimensions() == dimensions
        &&& self.round() == usize::MAX
        &&& self.dimension_1d() == usize::MAX
        &&& self.dimension_2d() == usize::MAX
        &&& self.table_1d() == Seq::<Seq<StratumSample>>::empty()
        &&& self.table_2d() == seq![Seq::<Sample2D>::empty()]
    }

    /// A new sampler for another thread: fresh, with the same dimensions, or
    /// `EntropyUnavailable` when its generator cannot be seeded.
    pub fn fork(&self) -> (sampler: Result<Self, EntropyUnavailable>)
        ensures
            sampler matches Ok(s) ==> s.is_fresh(self.dimensions()),
    {
        StratifiedSampler::new(self.dimensions)
    }

    /// The round (sample of the current pixel) that the next draw belongs to.
    pub fn current_round(&self) -> (round: usize)
        ensures
            round == self.round(),
    {
        self.round
    }

    /// Draws the stratified samples of a pixel with `samples_per_pixel`
    /// samples, from a generator freshly seeded by the operating system, and
    /// starts its first round. When the operating system cannot seed a
    /// generator the sampler is left as it was.
    pub fn preprocess(&mut self, samples_per_pixel: usize) -> (outcome: Result<(), EntropyUnavailable>)
        ensures
            outcome is Err ==> *final(self) == *old(self),
            outcome is Ok ==> final(self).starts_pixel(samples_per_pixel as nat, old(self).dimensions()),
            outcome is Ok ==> final(self).drawn().subrange(0, old(self).drawn().len() as int)
                == old(self).drawn(),
            outcome is Ok ==> final(self).pixel_drawn_from(
                samples_per_pixel as nat,
                old(self).drawn().len() as int,
            ),
    {
        match os_seeded_rng() {
            Ok(rng) => {
                self.preprocess_with(rng, samples_per_pixel);
                Ok(())
            },
            Err(e) => Err(e),
        }
    }

    /// The state right after the stratified samples of a pixel with `n`
    /// samples were drawn: `dimensions` kept, the first round and dimensions
    /// next, and every dimension stratified over the `n` rounds.
    pub open spec fn starts_pixel(&self, n: nat, dimensions: usize) -> bool {
        &&& self.dimensions() == dimensions
        &&& self.round() == 0
        &&& self.dimension_1d() == 0
        &&& self.dimension_2d() == 0
        &&& stratified_1d_table(self.table_1d(), n, dimensions as nat)
        &&& stratified_2d_table(self.table_2d(), n, dimensions as nat)
    }

    /// The pixel's tables were drawn from the words `start..` of the record:
    /// for each dimension `e` in turn, `n` words of which its one-dimensional
    /// column is made (the `r`-th word jitters round `r`), then `2 n` words
    /// from which its two-dimensional column was made and shuffled.
    pub open spec fn pixel_drawn_from(&self, n: nat, start: int) -> bool {
        &&& self.drawn().len() == start + 3 * n * self.dimensions()
        &&& forall|e: int|
            0 <= e < self.dimensions() ==> #[trigger] column(self.table_1d(), e) == stratified_1d_of(
                dimension_words_1d(self.drawn(), start, n as int, e),
            )
        &&& forall|e: int|
            0 <= e < self.dimensions() ==> (#[trigger] column(self.table_2d(), e)).to_multiset()
                == swept_2d(n, dimension_words_2d(self.drawn(), start, n as int, e)).to_multiset()
    }

    /// Draws the stratified samples of a pixel with `samples_per_pixel`
    /// samples from `rng` (for each dimension in turn, first its
    /// one-dimensional then its two-dimensional samples), keeps `rng` as the
    /// sampler's generator, and starts the pixel's first round.
    pub fn preprocess_with(&mut self, rng: StdRng, samples_per_pixel: usize)
        ensures
            final(self).starts_pixel(samples_per_pixel as nat, old(self).dimensions()),
            final(self).drawn().subrange(0, old(self).drawn().len() as int) == old(self).drawn(),
            final(self).pixel_drawn_from(samples_per_pixel as nat, old(self).drawn().len() as int),
    {
        let n = samples_per_pixel;
        let dimensions = self.dimensions;
        let mut rng = rng;
        let ghost start = self.drawn@.len() as int;
        let ghost mut log = self.drawn@;
        let mut columns_1d: Vec<Vec<StratumSample>> = Vec::new();
        let mut columns_2d: Vec<Vec<Sample2D>> = Vec::new();
        let mut d: usize = 0;
        while d < dimensions
            invariant
                d <= dimensions,
                start == old(self).drawn().len(),
                log.len() == start + 3 * n * d,
                log.subrange(0, start) == old(self).drawn(),
                columns_1d@.len() == d,
                columns_2d@.len() == d,
                forall|e: int| 0 <= e < d ==> is_stratified_1d(#[trigger] columns_1d@[e]@, n as nat),
                forall|e: int| 0 <= e < d ==> is_stratified_2d(#[trigger] columns_2d@[e]@, n as nat),
                forall|e: int|
                    0 <= e < d ==> (#[trigger] columns_1d@[e])@ == stratified_1d_of(
                        dimension_words_1d(log, start, n as int, e),
                    ),
                forall|e: int|
                    0 <= e < d ==> (#[trigger] columns_2d@[e])@.to_multiset() == swept_2d(
                        n as nat,
                        dimension_words_2d(log, start, n as int, e),
                    ).to_multiset(),
            decreases dimensions - d,
        {
            let (samples_1d, samples_2d, block) = draw_dimension(n, &mut rng);
            let ghost before = log;
            proof {
                log = log + block@;
                assert(3 * n * (d + 1) == 3 * n * d + 3 * n) by (nonlinear_arith);
                assert(log.subrange(0, start) =~= before.subrange(0, start));
                assert forall|e: int| 0 <= e < d implies #[trigger] dimension_words_1d(log, start, n as int, e)
                    == dimension_words_1d(before, start, n as int, e)
                    && dimension_words_2d(log, start, n as int, e) == dimension_words_2d(
                    before,
                    start,
                    n as int,
                    e,
                ) by {
                    assert(3 * n * e + 3 * n <= 3 * n * d) by (nonlinear_arith)
                        requires
                            e < d,
                            0 <= e,
                    ;
                    assert(3 * n * e >= 0) by (nonlinear_arith)
                        requires
                            e >= 0,
                    ;
                    assert(dimension_words_1d(log, start, n as int, e) =~= dimension_words_1d(
                        before,
                        start,
                        n as int,
                        e,
                    ));
                    assert(dimension_words_2d(log, start, n as int, e) =~= dimension_words_2d(
                        before,
                        start,
                        n as int,
                        e,
                    ));
                }
                assert(dimension_words_1d(log, start, n as int, d as int) =~= block@.subrange(
                    0,
                    n as int,
                ));
                assert(dimension_words_2d(log, start, n as int, d as int) =~= block@.subrange(
                    n as int,
                    3 * n,
                ));
            }
            let ghost old_columns_2d = columns_2d@;
            columns_1d.push(samples_1d);
            columns_2d.push(samples_2d);
            proof {
                assert forall|e: int| 0 <= e <= d implies (#[trigger] columns_2d@[e])@.to_multiset()
                    == swept_2d(n as nat, dimension_words_2d(log, start, n as int, e)).to_multiset() by {
                    if e < d {
                        assert(columns_2d@[e] == old_columns_2d[e]);
                        assert(dimension_words_1d(log, start, n as int, e) == dimension_words_1d(
                            before,
                            start,
                            n as int,
                            e,
                        ));
                    }
                }
            }
            d = d + 1;
        }
        let mut rows_1d: Vec<Vec<StratumSample>> = Vec::new();
        let mut rows_2d: Vec<Vec<Sample2D>> = Vec::new();
        let mut r: usize = 0;
        while r < n
            invariant
                r <= n,
                columns_1d@.len() == dimensions,
                columns_2d@.len() == dimensions,
                forall|e: int| 0 <= e < dimensions ==> is_stratified_1d(#[trigger] columns_1d@[e]@, n as nat),
                forall|e: int| 0 <= e < dimensions ==> is_stratified_2d(#[trigger] columns_2d@[e]@, n as nat),
                rows_1d@.len() == r,
                rows_2d@.len() == r,
                forall|q: int| 0 <= q < r ==> (#[trigger] rows_1d@[q])@.len() == dimensions,
                forall|q: int| 0 <= q < r ==> (#[trigger] rows_2d@[q])@.len() == dimensions,
                forall|q: int, e: int|
                    0 <= q < r && 0 <= e < dimensions ==> #[trigger] rows_1d@[q]@[e]
                        == columns_1d@[e]@[q],
                forall|q: int, e: int|
                    0 <= q < r && 0 <= e < dimensions ==> #[trigger] rows_2d@[q]@[e]
                        == columns_2d@[e]@[q],
            decreases n - r,
        {
            let mut row_1d: Vec<StratumSample> = Vec::new();
            let mut row_2d: Vec<Sample2D> = Vec::new();
            let mut e: usize = 0;
            while e < dimensions
                invariant
                    r < n,
                    e <= dimensions,
                    columns_1d@.len() == dimensions,
                    columns_2d@.len() == dimensions,
                    forall|f: int| 0 <= f < dimensions ==> is_stratified_1d(#[trigger] columns_1d@[f]@, n as nat),
                    forall|f: int| 0 <= f < dimensions ==> is_stratified_2d(#[trigger] columns_2d@[f]@, n as nat),
                    row_1d@.len() == e,
                    row_2d@.len() == e,
                    forall|f: int| 0 <= f < e ==> #[trigger] row_1d@[f] == columns_1d@[f]@[r as int],
                    forall|f: int| 0 <= f < e ==> #[trigger] row_2d@[f] == columns_2d@[f]@[r as int],
                decreases dimensions - e,
            {
                row_1d.push(columns_1d[e][r]);
                row_2d.push(columns_2d[e][r]);
                e = e + 1;
            }
            rows_1d.push(row_1d);
            rows_2d.push(row_2d);
            r = r + 1;
        }
        self.rng = rng;
        self.round = 0;
        self.dimension_1d = 0;
        self.dimension_2d = 0;
        self.samples_1d = rows_1d;
        self.samples_2d = rows_2d;
        self.drawn = Ghost(log);
        proof {
            let t1 = self.table_1d();
            let t2 = self.table_2d();
            assert forall|dd: int| 0 <= dd < dimensions implies #[trigger] column(t1, dd)
                == stratified_1d_of(dimension_words_1d(log, start, n as int, dd)) by {
                assert(column(t1, dd) =~= columns_1d@[dd]@);
            }
            assert forall|dd: int| 0 <= dd < dimensions implies (#[trigger] column(t2, dd)).to_multiset()
                == swept_2d(n as nat, dimension_words_2d(log, start, n as int, dd)).to_multiset() by {
                assert(column(t2, dd) =~= columns_2d@[dd]@);
            }
            assert forall|dd: int| 0 <= dd < dimensions implies positions(#[trigger] column(t2, dd)).to_multiset()
                == square_layout(n as nat).to_multiset() by {
                assert(column(t2, dd) =~= columns_2d@[dd]@);
                assert(is_stratified_2d(columns_2d@[dd]@, n as nat));
            }
            assert forall|rr: int, dd: int| 0 <= rr < n && 0 <= dd < dimensions implies {
                let s = #[trigger] t1[rr][dd];
                s.index == rr && s.strata == n && s.jitter < JITTER_RANGE
            } by {
                assert(t1[rr][dd] == columns_1d@[dd]@[rr]);
                assert(is_stratified_1d(columns_1d@[dd]@, n as nat));
            }
            assert forall|rr: int, dd: int| 0 <= rr < n && 0 <= dd < dimensions implies cell_wf(
                #[trigger] t2[rr][dd],
            ) by {
                assert(t2[rr][dd] == columns_2d@[dd]@[rr]);
                assert(is_stratified_2d(columns_2d@[dd]@, n as nat));
            }
        }
    }

    /// Moves on to the next round (sample) of the pixel, starting again at its
    /// first dimension.
    pub fn update_round(&mut self)
        requires
            old(self).round() < usize::MAX,
        ensures
            final(self).round() == old(self).round() + 1,
            final(self).dimension_1d() == 0,
            final(self).dimension_2d() == 0,
            final(self).dimensions() == old(self).dimensions(),
            final(self).table_1d() == old(self).table_1d(),
            final(self).table_2d() == old(self).table_2d(),
            final(self).generator() == old(self).generator(),
            final(self).drawn() == old(self).drawn(),
            call_step(SamplerCall::UpdateRound, *old(self), *final(self)),
    {
        self.round = self.round + 1;
        self.dimension_1d = 0;
        self.dimension_2d = 0;
    }

    /// The next one-dimensional sample of the round: the table's entry for
    /// this round and dimension, or a uniform draw once the round's
    /// dimensions (or the pixel's rounds) are used up.
    pub fn get_1d_sample(&mut self) -> (sample: StratumSample)
        ensures
            final(self).round() == old(self).round(),
            final(self).dimension_2d() == old(self).dimension_2d(),
            final(self).dimensions() == old(self).dimensions(),
            final(self).table_1d() == old(self).table_1d(),
            final(self).table_2d() == old(self).table_2d(),
            ({
                let t = old(self).table_1d();
                let r = old(self).round() as int;
                let k = old(self).dimension_1d() as int;
                if r < t.len() && k < t[r].len() {
                    sample == t[r][k] && final(self).dimension_1d() == k + 1
                        && final(self).generator() == old(self).generator()
                        && final(self).drawn() == old(self).drawn()
                } else {
                    sample.is_uniform() && final(self).dimension_1d() == k
                        && draws_one(old(self).drawn(), final(self).drawn(), sample)
                }
            }),
            call_step(SamplerCall::Get1d, *old(self), *final(self)),
    {
        if self.round >= self.samples_1d.len() || self.dimension_1d
            >= self.samples_1d[self.round].len() {
            let (sample, drawn) = draw_uniform_logged(&mut self.rng, self.drawn);
            self.drawn = drawn;
            return sample;
        }
        let sample = self.samples_1d[self.round][self.dimension_1d];
        self.dimension_1d = self.dimension_1d + 1;
        sample
    }

    /// The next two-dimensional sample of the round: the table's entry for
    /// this round and dimension, or two uniform draws (`x` first) once the
    /// round's dimensions (or the pixel's rounds) are used up.
    pub fn get_2d_sample(&mut self) -> (sample: Sample2D)
        ensures
            final(self).round() == old(self).round(),
            final(self).dimension_1d() == old(self).dimension_1d(),
            final(self).dimensions() == old(self).dimensions(),
            final(self).table_1d() == old(self).table_1d(),
            final(self).table_2d() == old(self).table_2d(),
            ({
                let t = old(self).table_2d();
                let r = old(self).round() as int;
                let k = old(self).dimension_2d() as int;
                if r < t.len() && k < t[r].len() {
                    sample == t[r][k] && final(self).dimension_2d() == k + 1
                        && final(self).generator() == old(self).generator()
                        && final(self).drawn() == old(self).drawn()
                } else {
                    sample.0.is_uniform() && sample.1.is_uniform() && final(self).dimension_2d() == k
                        && draws_pair(old(self).drawn(), final(self).drawn(), sample)
                }
            }),
            call_step(SamplerCall::Get2d, *old(self), *final(self)),
    {
        if self.round >= self.samples_2d.len() || self.dimension_2d
            >= self.samples_2d[self.round].len() {
            let (sample, drawn) = draw_uniform_pair_logged(&mut self.rng, self.drawn);
            self.drawn = drawn;
            return sample;
        }
        let sample = self.samples_2d[self.round][self.dimension_2d];
        self.dimension_2d = self.dimension_2d + 1;
        sample
    }
}

} // verus!
