# pbrt

The verified core of a small physically based renderer, written in Verus.

- `src/stratification.rs`: stratified sample sets in one and two dimensions,
  kept as exact integers (stratum, number of strata, 24 random bits).
- `src/samplers/`: the uniform and the stratified sampler.
- `src/renderer.rs`: the column job list and the pixels of a column.
- `src/progress.rs`: the decisions of the progress reporter.
- `src/time_format.rs`: the text of a duration.
- `src/configuration.rs`, `src/configurations.rs`: descriptions of the test
  scenes, with every constant kept as an exact fraction.
- `src/random_source.rs`: the contracts relied on for `rand`.
- `app/`: threads, printing, and everything computed in `f32`.
