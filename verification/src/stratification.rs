//! Stratified sample sets. A sample in `[0, 1)` is kept exactly as the
//! stratum it falls in and the 24 random bits that place it inside that
//! stratum: its value is `(index + jitter / 2^24) / strata`, which is what the
//! renderer computes in `f32` from these integers.
use vstd::prelude::*;
use rand::rngs::StdRng;
use crate::random_source::shuffle_with_std_rng;
use crate::random_source::std_rng_next_u32;
use vstd::arithmetic::div_mod::lemma_fundamental_div_mod;
use vstd::arithmetic::div_mod::lemma_fundamental_div_mod_converse;

verus! {

/// One more than the largest jitter: a jitter holds 24 random bits.
pub const JITTER_RANGE: u32 = 0x100_0000;

/// A one-dimensional sample: stratum `index` of `strata` equal strata of
/// `[0, 1)`, displaced inside it by `jitter / 2^24` of the stratum's width.
#[derive(Clone, Copy, Debug, PartialEq, Eq, Structural)]
pub struct StratumSample {
    pub index: usize,
    pub strata: usize,
    pub jitter: u32,
}

/// A two-dimensional sample: one stratum per axis.
pub type Sample2D = (StratumSample, StratumSample);

impl StratumSample {
    /// A draw that covers all of `[0, 1)`: the single stratum of one.
    pub open spec fn is_uniform(self) -> bool {
        self.index == 0 && self.strata == 1 && self.jitter < JITTER_RANGE
    }
}

/// The jitter that a word drawn from the generator gives: its top 24 bits,
/// the ones `rand` turns into an `f32` in `[0, 1)`.
pub fn jitter_from_word(word: u32) -> (jitter: u32)
    ensures
        jitter == word >> 8u32,
        jitter < JITTER_RANGE,
{
    let jitter = word >> 8u32;
    assert(jitter < 0x100_0000) by (bit_vector)
        requires
            jitter == word >> 8u32,
    ;
    jitter
}

/// The uniform sample that a word drawn from the generator gives: the single
/// stratum of one, jittered by the word's top 24 bits.
pub open spec fn uniform_of(word: u32) -> StratumSample {
    StratumSample { index: 0, strata: 1, jitter: word >> 8u32 }
}

/// The uniform sample that a word drawn from the generator gives.
pub fn uniform_from_word(word: u32) -> (sample: StratumSample)
    ensures
        sample == uniform_of(word),
        sample.is_uniform(),
{
    StratumSample { index: 0, strata: 1, jitter: jitter_from_word(word) }
}

/// The two-dimensional uniform sample that two consecutive words drawn from
/// the generator give: the first word places `x`, the second `y`.
pub fn uniform_pair_from_words(first: u32, second: u32) -> (sample: Sample2D)
    ensures
        sample.0 == uniform_of(first),
        sample.1 == uniform_of(second),
        sample.0.is_uniform(),
        sample.1.is_uniform(),
{
    (uniform_from_word(first), uniform_from_word(second))
}

/// A uniform sample over all of `[0, 1)`: `uniform_from_word` of the
/// generator's next word. Which word comes depends on the generator.
pub fn draw_uniform(rng: &mut StdRng) -> (sample: StratumSample)
    ensures
        sample.is_uniform(),
{
    let word = std_rng_next_u32(rng);
    uniform_from_word(word)
}

/// A two-dimensional uniform sample: `uniform_pair_from_words` of the
/// generator's next two words. Which words come depends on the generator.
pub fn draw_uniform_pair(rng: &mut StdRng) -> (sample: Sample2D)
    ensures
        sample.0.is_uniform(),
        sample.1.is_uniform(),
{
    let first = std_rng_next_u32(rng);
    let second = std_rng_next_u32(rng);
    uniform_pair_from_words(first, second)
}

/// `after` is the record `before` of the words drawn so far, followed by
/// one more word, and `sample` is the uniform sample that word gives.
pub open spec fn draws_one(before: Seq<u32>, after: Seq<u32>, sample: StratumSample) -> bool {
    &&& after.len() == before.len() + 1
    &&& after.subrange(0, before.len() as int) == before
    &&& sample == uniform_of(after[before.len() as int])
}

/// `after` is the record `before` of the words drawn so far, followed by two
/// more words; `sample` places `x` by the first of them and `y` by the second.
pub open spec fn draws_pair(before: Seq<u32>, after: Seq<u32>, sample: Sample2D) -> bool {
    &&& after.len() == before.len() + 2
    &&& after.subrange(0, before.len() as int) == before
    &&& sample.0 == uniform_of(after[before.len() as int])
    &&& sample.1 == uniform_of(after[before.len() as int + 1])
}

/// A two-dimensional uniform draw takes its two axes from two consecutive
/// words of the generator, `x` from the first and `y` from the second: each
/// axis's jitter is the top 24 bits of its own word, and the two axes agree
/// only when those two words agree in their top 24 bits. So `y` is not a copy
/// of `x`: the point lands off the diagonal whenever the words differ there.
pub proof fn lemma_pair_from_consecutive_words(before: Seq<u32>, after: Seq<u32>, sample: Sample2D)
    requires
        draws_pair(before, after, sample),
    ensures
        sample.0.jitter == after[before.len() as int] >> 8u32,
        sample.1.jitter == after[before.len() as int + 1] >> 8u32,
        sample.0.is_uniform() && sample.1.is_uniform(),
        (sample.0 == sample.1) <==> (after[before.len() as int] >> 8u32 == after[before.len() as int + 1]
            >> 8u32),
        after.subrange(0, before.len() as int) == before,
{
    lemma_word_jitter(after[before.len() as int]);
    lemma_word_jitter(after[before.len() as int + 1]);
}

/// A uniform draw that also records the word it took.
pub(crate) fn draw_uniform_logged(rng: &mut StdRng, log: Ghost<Seq<u32>>) -> (result: (
    StratumSample,
    Ghost<Seq<u32>>,
))
    ensures
        draws_one(log@, result.1@, result.0),
        result.0.is_uniform(),
{
    let word = std_rng_next_u32(rng);
    let sample = uniform_from_word(word);
    let ghost after = log@.push(word);
    assert(after.subrange(0, log@.len() as int) =~= log@);
    (sample, Ghost(after))
}

/// A two-dimensional uniform draw that also records the two words it took.
pub(crate) fn draw_uniform_pair_logged(rng: &mut StdRng, log: Ghost<Seq<u32>>) -> (result: (
    Sample2D,
    Ghost<Seq<u32>>,
))
    ensures
        draws_pair(log@, result.1@, result.0),
        result.0.0.is_uniform(),
        result.0.1.is_uniform(),
{
    let first = std_rng_next_u32(rng);
    let second = std_rng_next_u32(rng);
    let sample = uniform_pair_from_words(first, second);
    let ghost after = log@.push(first).push(second);
    assert(after.subrange(0, log@.len() as int) =~= log@);
    (sample, Ghost(after))
}

/// The next `count` words of the generator, in the order drawn.
pub(crate) fn draw_words(count: usize, rng: &mut StdRng) -> (words: Vec<u32>)
    ensures
        words@.len() == count,
{
    let mut words: Vec<u32> = Vec::new();
    let mut i: usize = 0;
    while i < count
        invariant
            i <= count,
            words@.len() == i,
        decreases count - i,
    {
        words.push(std_rng_next_u32(rng));
        i = i + 1;
    }
    words
}

/// The next `2 * pairs` words of the generator, in the order drawn.
pub(crate) fn draw_word_pairs(pairs: usize, rng: &mut StdRng) -> (words: Vec<u32>)
    ensures
        words@.len() == 2 * pairs,
{
    let mut words: Vec<u32> = Vec::new();
    let mut i: usize = 0;
    while i < pairs
        invariant
            i <= pairs,
            words@.len() == 2 * i,
        decreases pairs - i,
    {
        words.push(std_rng_next_u32(rng));
        words.push(std_rng_next_u32(rng));
        i = i + 1;
    }
    words
}

/// Every word's top 24 bits make a jitter.
proof fn lemma_word_jitter(word: u32)
    ensures
        word >> 8u32 < JITTER_RANGE,
{
    assert(word >> 8u32 < 0x100_0000) by (bit_vector);
}

/// `n` samples of `[0, 1)`, the `i`-th one in the `i`-th of `n` strata.
pub open spec fn is_stratified_1d(samples: Seq<StratumSample>, n: nat) -> bool {
    &&& samples.len() == n
    &&& forall|i: int|
        0 <= i < n ==> #[trigger] samples[i].index == i && samples[i].strata == n
            && samples[i].jitter < JITTER_RANGE
}

/// The one-dimensional samples that the words drawn from the generator give:
/// the `i`-th lies in stratum `i` of as many strata as there are words,
/// jittered by the top 24 bits of the `i`-th word.
pub open spec fn stratified_1d_of(words: Seq<u32>) -> Seq<StratumSample> {
    Seq::new(
        words.len(),
        |i: int| StratumSample { index: i as usize, strata: words.len() as usize, jitter: words[i] >> 8u32 },
    )
}

/// Builds `stratified_1d_of(words)`.
pub fn stratified_1d_from_words(words: &Vec<u32>) -> (samples: Vec<StratumSample>)
    ensures
        samples@ == stratified_1d_of(words@),
        is_stratified_1d(samples@, words@.len()),
{
    let size = words.len();
    let mut samples: Vec<StratumSample> = Vec::new();
    let mut idx: usize = 0;
    while idx < size
        invariant
            size == words@.len(),
            idx <= size,
            samples@ == stratified_1d_of(words@).subrange(0, idx as int),
        decreases size - idx,
    {
        samples.push(StratumSample { index: idx, strata: size, jitter: jitter_from_word(words[idx]) });
        idx = idx + 1;
        assert(samples@ =~= stratified_1d_of(words@).subrange(0, idx as int));
    }
    assert(samples@ =~= stratified_1d_of(words@));
    proof {
        assert forall|i: int| 0 <= i < size implies #[trigger] samples@[i].index == i
            && samples@[i].strata == size && samples@[i].jitter < JITTER_RANGE by {
            lemma_word_jitter(words@[i]);
        }
    }
    samples
}

/// `size` samples of `[0, 1)`, the `i`-th one in the `i`-th of `size` strata:
/// `stratified_1d_from_words` of the generator's next `size` words.
pub fn generate_stratified_1d_samples(size: usize, rng: &mut StdRng) -> (samples: Vec<
    StratumSample,
>)
    ensures
        is_stratified_1d(samples@, size as nat),
{
    let words = draw_words(size, rng);
    stratified_1d_from_words(&words)
}

/// The integer square root: the largest `s` with `s * s <= n`.
pub open spec fn floor_sqrt(n: nat) -> nat
    decreases n,
{
    if n == 0 {
        0
    } else {
        let r = floor_sqrt((n - 1) as nat);
        if (r + 1) * (r + 1) <= n {
            r + 1
        } else {
            r
        }
    }
}

/// `floor_sqrt(n)` is the one `s` with `s * s <= n < (s + 1) * (s + 1)`.
pub proof fn lemma_floor_sqrt(n: nat)
    ensures
        floor_sqrt(n) * floor_sqrt(n) <= n,
        n < (floor_sqrt(n) + 1) * (floor_sqrt(n) + 1),
        n > 0 ==> floor_sqrt(n) >= 1,
    decreases n,
{
    if n > 0 {
        lemma_floor_sqrt((n - 1) as nat);
        let r = floor_sqrt((n - 1) as nat);
        if (r + 1) * (r + 1) <= n {
            assert(floor_sqrt(n) == r + 1);
            assert(n < (r + 2) * (r + 2)) by (nonlinear_arith)
                requires
                    n - 1 < (r + 1) * (r + 1),
            ;
            assert(n < (floor_sqrt(n) + 1) * (floor_sqrt(n) + 1));
        } else {
            assert(floor_sqrt(n) == r);
            assert(r * r <= n);
            assert(n > 0 ==> r >= 1) by (nonlinear_arith)
                requires
                    n >= 1,
                    !((r + 1) * (r + 1) <= n),
                    r * r <= n - 1,
                    n - 1 < (r + 1) * (r + 1),
                    n - 1 > 0 ==> r >= 1,
            ;
        }
    } else {
        assert(floor_sqrt(0) == 0);
        assert(0 < (floor_sqrt(n) + 1) * (floor_sqrt(n) + 1));
    }
}

/// Two integer square roots of the same number are equal.
proof fn lemma_floor_sqrt_unique(n: nat, a: nat, b: nat)
    requires
        a * a <= n < (a + 1) * (a + 1),
        b * b <= n < (b + 1) * (b + 1),
    ensures
        a == b,
{
    if a < b {
        assert((a + 1) * (a + 1) <= b * b) by (nonlinear_arith)
            requires
                a + 1 <= b,
        ;
    } else if b < a {
        assert((b + 1) * (b + 1) <= a * a) by (nonlinear_arith)
            requires
                b + 1 <= a,
        ;
    }
}

/// Computes `floor_sqrt(n)`, which is also what `(n as f32).sqrt() as usize`
/// gives for every `n` below `2^24`.
pub fn floor_sqrt_exec(n: usize) -> (s: usize)
    ensures
        s == floor_sqrt(n as nat),
        s * s <= n,
{
    let mut s: usize = 0;
    assert(s < usize::MAX);
    while s + 1 <= n / (s + 1)
        invariant
            s * s <= n,
            s <= n,
            s < usize::MAX,
        decreases n - s,
    {
        assert((s + 1) * (s + 1) <= n) by (nonlinear_arith)
            requires
                s + 1 <= (n as int) / (s + 1),
        ;
        assert(s + 1 <= n) by (nonlinear_arith)
            requires
                (s + 1) * (s + 1) <= n,
        ;
        s = s + 1;
        assert(s < usize::MAX) by (nonlinear_arith)
            requires
                s * s <= n,
                n <= usize::MAX,
                s >= 1,
        ;
    }
    assert(n < (s + 1) * (s + 1)) by (nonlinear_arith)
        requires
            s + 1 > (n as int) / (s + 1),
    ;
    proof {
        lemma_floor_sqrt(n as nat);
        lemma_floor_sqrt_unique(n as nat, s as nat, floor_sqrt(n as nat));
    }
    s
}

/// The cells of an `s` by `s` grid, row by row: `(x, y, s)` for `x` and `y`
/// below `s`, `x` varying slowest.
pub open spec fn square_block(s: nat) -> Seq<(nat, nat, nat)> {
    Seq::new(s * s, |i: int| ((i / (s as int)) as nat, (i % (s as int)) as nat, s))
}

/// Every cell of an `s` by `s` grid occurs exactly once in its sweep.
pub proof fn lemma_square_block_cell_once(s: nat, i: nat, j: nat)
    requires
        i < s,
        j < s,
    ensures
        square_block(s).to_multiset().count((i, j, s)) == 1,
{
    broadcast use vstd::seq_lib::group_to_multiset_ensures;

    let b = square_block(s);
    assert forall|p: int, q: int| 0 <= p < b.len() && 0 <= q < b.len() && p != q implies b[p]
        != b[q] by {
        lemma_fundamental_div_mod(p, s as int);
        lemma_fundamental_div_mod(q, s as int);
    }
    assert(b.no_duplicates());
    b.lemma_multiset_has_no_duplicates();
    let idx = i * s + j;
    assert(idx < s * s) by (nonlinear_arith)
        requires
            i < s,
            j < s,
            idx == i * s + j,
    ;
    lemma_fundamental_div_mod_converse(idx as int, s as int, i as int, j as int);
    assert(b[idx as int] == (i, j, s));
    assert(b.contains((i, j, s)));
}

/// The cells of a set of `n` two-dimensional samples: the largest square grid
/// that fits in `n`, then the cells for what is left of `n`.
pub open spec fn square_layout(n: nat) -> Seq<(nat, nat, nat)>
    decreases n,
{
    if n == 0 {
        Seq::empty()
    } else {
        let s = floor_sqrt(n);
        proof {
            lemma_floor_sqrt(n);
            assert(s <= s * s) by (nonlinear_arith)
                requires
                    s >= 1,
            ;
        }
        if s * s >= n {
            square_block(s)
        } else {
            square_block(s) + square_layout((n - s * s) as nat)
        }
    }
}

/// Where a two-dimensional sample lies: its stratum on each axis and the
/// number of strata per axis.
pub open spec fn cell_position(c: Sample2D) -> (nat, nat, nat) {
    (c.0.index as nat, c.1.index as nat, c.0.strata as nat)
}

/// The cells that a sequence of two-dimensional samples lie in.
pub open spec fn positions(cells: Seq<Sample2D>) -> Seq<(nat, nat, nat)> {
    cells.map_values(|c: Sample2D| cell_position(c))
}

/// `n` two-dimensional samples that hold the cells of `square_layout(n)`,
/// each once, in some order.
pub open spec fn is_stratified_2d(samples: Seq<Sample2D>, n: nat) -> bool {
    &&& samples.len() == n
    &&& positions(samples).to_multiset() == square_layout(n).to_multiset()
    &&& forall|i: int| 0 <= i < samples.len() ==> cell_wf(#[trigger] samples[i])
}

/// Both axes of the sample share one grid and each jitter holds 24 bits.
pub open spec fn cell_wf(c: Sample2D) -> bool {
    &&& c.0.strata == c.1.strata
    &&& c.0.jitter < JITTER_RANGE
    &&& c.1.jitter < JITTER_RANGE
}

/// A set of `n` two-dimensional samples has `n` cells, each inside its grid.
pub proof fn lemma_square_layout(n: nat)
    ensures
        square_layout(n).len() == n,
        forall|i: int|
            0 <= i < n ==> #[trigger] square_layout(n)[i].0 < square_layout(n)[i].2
                && square_layout(n)[i].1 < square_layout(n)[i].2 && square_layout(n)[i].2 <= n,
    decreases n,
{
    if n > 0 {
        let s = floor_sqrt(n);
        lemma_floor_sqrt(n);
        assert forall|i: int| 0 <= i < s * s implies #[trigger] square_block(s)[i].0 < s
            && square_block(s)[i].1 < s by {
            assert((i / (s as int)) < s) by (nonlinear_arith)
                requires
                    0 <= i < s * s,
                    s >= 1,
            ;
            assert(0 <= (i % (s as int)) < s) by (nonlinear_arith)
                requires
                    s >= 1,
            ;
            assert(i / (s as int) >= 0) by (nonlinear_arith)
                requires
                    0 <= i,
                    s >= 1,
            ;
        }
        assert(s * s >= 1) by (nonlinear_arith)
            requires
                s >= 1,
        ;
        let layout = square_layout(n);
        let block = square_block(s);
        if s * s < n {
            let rest = square_layout((n - s * s) as nat);
            lemma_square_layout((n - s * s) as nat);
            assert(layout == block + rest);
            assert(s <= s * s) by (nonlinear_arith)
                requires
                    s >= 1,
            ;
            assert forall|i: int| 0 <= i < n implies #[trigger] layout[i].0 < layout[i].2
                && layout[i].1 < layout[i].2 && layout[i].2 <= n by {
                if i < s * s {
                    assert(layout[i] == block[i]);
                } else {
                    assert(layout[i] == rest[i - s * s]);
                }
            }
        } else {
            assert(layout == block);
            assert(s <= s * s) by (nonlinear_arith)
                requires
                    s >= 1,
            ;
            assert forall|i: int| 0 <= i < n implies #[trigger] layout[i].0 < layout[i].2
                && layout[i].1 < layout[i].2 && layout[i].2 <= n by {
                assert(layout[i] == block[i]);
            }
        }
    } else {
        assert(square_layout(n).len() == 0);
    }
}

/// The sample that a cell of a layout and two words drawn from the
/// generator give: the cell's strata on each axis, jittered by the top 24 bits
/// of the first word on `x` and of the second on `y`.
pub open spec fn cell_of(p: (nat, nat, nat), word_x: u32, word_y: u32) -> Sample2D {
    (
        StratumSample { index: p.0 as usize, strata: p.2 as usize, jitter: word_x >> 8u32 },
        StratumSample { index: p.1 as usize, strata: p.2 as usize, jitter: word_y >> 8u32 },
    )
}

/// The samples are the cells of `layout` in order, the `i`-th jittered by
/// words `start + 2 i` (on `x`) and `start + 2 i + 1` (on `y`).
pub open spec fn cells_from_words(
    cells: Seq<Sample2D>,
    layout: Seq<(nat, nat, nat)>,
    words: Seq<u32>,
    start: int,
) -> bool {
    &&& cells.len() == layout.len()
    &&& forall|i: int|
        0 <= i < cells.len() ==> #[trigger] cells[i] == cell_of(
            layout[i],
            words[start + 2 * i],
            words[start + 2 * i + 1],
        )
}

/// The cells of `size` two-dimensional samples in the order the grids are
/// swept, jittered by the words from `start` on, two per cell.
fn square_cells_from_words(size: usize, words: &Vec<u32>, start: usize) -> (cells: Vec<Sample2D>)
    requires
        start + 2 * size <= words@.len(),
    ensures
        cells_from_words(cells@, square_layout(size as nat), words@, start as int),
    decreases size,
{
    let s = floor_sqrt_exec(size);
    proof {
        lemma_floor_sqrt(size as nat);
        lemma_square_layout(size as nat);
    }
    let ghost block = square_block(s as nat);
    let word_count = words.len();
    let mut cells: Vec<Sample2D> = Vec::new();
    let mut pos: usize = start;
    let mut idx_x: usize = 0;
    while idx_x < s
        invariant
            idx_x <= s,
            s * s <= size,
            start + 2 * size <= words@.len(),
            word_count == words@.len(),
            block == square_block(s as nat),
            cells@.len() == idx_x * s,
            pos == start + 2 * cells@.len(),
            forall|i: int|
                0 <= i < cells@.len() ==> #[trigger] cells@[i] === cell_of(
                    block[i],
                    words@[start + 2 * i],
                    words@[start + 2 * i + 1],
                ),
        decreases s - idx_x,
    {
        let mut idx_y: usize = 0;
        while idx_y < s
            invariant
                idx_x < s,
                idx_y <= s,
                s * s <= size,
                start + 2 * size <= words@.len(),
                word_count == words@.len(),
                block == square_block(s as nat),
                cells@.len() == idx_x * s + idx_y,
                pos == start + 2 * cells@.len(),
                forall|i: int|
                    0 <= i < cells@.len() ==> #[trigger] cells@[i] === cell_of(
                        block[i],
                        words@[start + 2 * i],
                        words@[start + 2 * i + 1],
                    ),
            decreases s - idx_y,
        {
            proof {
                let i = idx_x * s + idx_y;
                assert(i < s * s) by (nonlinear_arith)
                    requires
                        idx_x < s,
                        idx_y < s,
                        i == idx_x * s + idx_y,
                ;
                lemma_fundamental_div_mod_converse(i, s as int, idx_x as int, idx_y as int);
                assert(block[i] == (idx_x as nat, idx_y as nat, s as nat));
                assert(pos + 2 <= word_count);
            }
            let cell = (
                StratumSample { index: idx_x, strata: s, jitter: jitter_from_word(words[pos]) },
                StratumSample { index: idx_y, strata: s, jitter: jitter_from_word(words[pos + 1]) },
            );
            cells.push(cell);
            pos = pos + 2;
            idx_y = idx_y + 1;
        }
        assert(idx_x * s + s == (idx_x + 1) * s) by (nonlinear_arith);
        idx_x = idx_x + 1;
    }
    assert(cells@.len() == block.len());
    if size != s * s {
        proof {
            assert(s * s >= 1) by (nonlinear_arith)
                requires
                    s >= 1,
            ;
        }
        let mut rest = square_cells_from_words(size - s * s, words, pos);
        let ghost first = cells@;
        let ghost rest_cells = rest@;
        cells.append(&mut rest);
        proof {
            let rest_layout = square_layout((size - s * s) as nat);
            assert(square_layout(size as nat) == block + rest_layout);
            assert forall|i: int| 0 <= i < cells@.len() implies #[trigger] cells@[i]
                === cell_of(
                square_layout(size as nat)[i],
                words@[start + 2 * i],
                words@[start + 2 * i + 1],
            ) by {
                if i < first.len() {
                    assert(cells@[i] == first[i]);
                } else {
                    let j = i - first.len();
                    assert(cells@[i] == rest_cells[j]);
                    assert(rest_cells[j] == cell_of(
                        rest_layout[j],
                        words@[pos + 2 * j],
                        words@[pos + 2 * j + 1],
                    ));
                    assert(square_layout(size as nat)[i] == rest_layout[j]);
                }
            }
        }
    } else {
        proof {
            if size > 0 {
                assert(square_layout(size as nat) == block);
            } else {
                assert(block.len() == 0);
                assert(square_layout(size as nat) =~= block);
            }
        }
    }
    cells
}

/// The two-dimensional samples that words drawn from the generator give,
/// before shuffling: the cells of `square_layout(words.len() / 2)` in order,
/// each jittered by the next two words (`x` first).
pub fn stratified_2d_from_words(size: usize, words: &Vec<u32>) -> (cells: Vec<Sample2D>)
    requires
        words@.len() == 2 * size,
    ensures
        cells_from_words(cells@, square_layout(size as nat), words@, 0),
        is_stratified_2d(cells@, size as nat),
{
    let cells = square_cells_from_words(size, words, 0);
    proof {
        lemma_square_layout(size as nat);
        let layout = square_layout(size as nat);
        assert forall|i: int| 0 <= i < cells@.len() implies cell_wf(#[trigger] cells@[i]) by {
            lemma_word_jitter(words@[2 * i]);
            lemma_word_jitter(words@[2 * i + 1]);
        }
        assert forall|i: int| 0 <= i < cells@.len() implies #[trigger] positions(cells@)[i]
            == layout[i] by {
            assert(layout[i].0 < layout[i].2);
            assert(layout[i].2 <= size);
        }
        assert(positions(cells@) =~= layout);
    }
    cells
}

/// `size` two-dimensional samples: a square grid of strata as large as fits,
/// then grids for what is left, each cell jittered by two words of the
/// generator (`stratified_2d_from_words`), the whole set then shuffled with
/// the same generator.
pub fn generate_stratified_2d_samples(size: usize, rng: &mut StdRng) -> (samples: Vec<Sample2D>)
    ensures
        is_stratified_2d(samples@, size as nat),
{
    let words = draw_word_pairs(size, rng);
    let mut samples = stratified_2d_from_words(size, &words);
    let ghost swept = samples@;
    shuffle_with_std_rng(&mut samples, rng);
    proof {
        broadcast use vstd::seq_lib::group_to_multiset_ensures;

        lemma_map_values_to_multiset(samples@, swept, |c: Sample2D| cell_position(c));
        assert(positions(samples@) == samples@.map_values(|c: Sample2D| cell_position(c)));
        assert(positions(swept) == swept.map_values(|c: Sample2D| cell_position(c)));
        assert forall|i: int| 0 <= i < samples@.len() implies cell_wf(#[trigger] samples@[i]) by {
            assert(samples@.to_multiset().count(samples@[i]) > 0);
            assert(swept.contains(samples@[i]));
            let j = choose|j: int| 0 <= j < swept.len() && swept[j] == samples@[i];
            assert(cell_wf(swept[j]));
        }
    }
    samples
}

/// Two sequences that hold the same items, each as often, still do after the
/// same function is applied to every item.
pub proof fn lemma_map_values_to_multiset<A, B>(a: Seq<A>, b: Seq<A>, f: spec_fn(A) -> B)
    requires
        a.to_multiset() == b.to_multiset(),
    ensures
        a.map_values(f).to_multiset() == b.map_values(f).to_multiset(),
    decreases a.len(),
{
    broadcast use vstd::seq_lib::group_to_multiset_ensures;
    broadcast use vstd::multiset::group_multiset_axioms;

    if a.len() == 0 {
        assert(a.to_multiset().len() == 0);
        assert(b.to_multiset().len() == 0);
        assert(b.len() == 0);
        assert(a.map_values(f) =~= Seq::<B>::empty());
        assert(b.map_values(f) =~= Seq::<B>::empty());
    } else {
        let x = a.last();
        let a1 = a.drop_last();
        assert(a =~= a1.push(x));
        assert(a.to_multiset().count(x) > 0);
        assert(b.contains(x));
        let j = choose|j: int| 0 <= j < b.len() && b[j] == x;
        let b1 = b.remove(j);
        assert(b1.to_multiset() =~= a1.to_multiset());
        lemma_map_values_to_multiset(a1, b1, f);
        assert(a.map_values(f) =~= a1.map_values(f).push(f(x)));
        assert(b1.map_values(f) =~= b.map_values(f).remove(j));
        assert(b.map_values(f)[j] == f(x));
        assert(b.map_values(f).to_multiset() =~= b1.map_values(f).to_multiset().insert(f(x)));
    }
}

} // verus!
