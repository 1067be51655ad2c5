# agi4

Verified core of the AGI/4 attestation runner: the conjunct evaluators, the
cross-conjunct consistency check, the verdict table, the source adapters'
conversion of upstream records into evidence, the decisions of the fetchers
(retry and backoff, cache location and freshness) and the Markdown report.

Measurements are held in millionths of their unit (a fraction of one, or
hours), so every threshold of the specification is an exact integer and every
comparison is exact.

Layout:

- `src/` — the library, verified with Verus. `laws.rs` states the properties
  that relate the evaluators, the consistency check and the verdict table.
- `tests/` — the test suite.
- `app/` — the command-line program: argument handling, reading fixture
  directories and verdict files, JSON in and out, HTTP requests and the
  on-disk cache.
