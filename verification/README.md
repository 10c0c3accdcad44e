# hisab-mimamsa

A theoretical physics engine (relativity, cosmology, quantum field theory and
unified-field bridge models) split into two parts:

- `src/` — the library checked by Verus: the classifications used across the
  engine (interval, geodesic, metric, field, particle and cosmic-phase kinds),
  the QCD asymptotic-freedom criterion, the FFT grid rule of the position-space
  propagator, and the Scale 3 counting rules (sign elements and modalities,
  planet weights, weighted element/modality/house tallies, dominant category).
- `app/` — the floating-point physics built on those rules, the serde forms of
  the library's enums, and the logging set-up.
- `tests/` — tests of the library's functions.
