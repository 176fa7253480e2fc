# mypaint_rs

A MyPaint-style brush engine whose integer core is verified with Verus.

- `src/` is the verified library:
  - `dab_mask` decodes run-length encoded dab masks and proves where the
    covered pixels lie;
  - `brush_modes` holds the blend modes over premultiplied 16-bit RGBA
    buffers (normal, eraser, lock alpha, posterize, color and the pigment
    modes), the ClipColor arithmetic and the integer colour sums; the
    floating-point parts of a mode are handed in as a function;
  - `brush_json` checks the header of a JSON brush file (parsed by
    serde_json behind one trusted wrapper) and decides which error refuses it;
  - `brush_settings` holds the tables of settings, inputs and states, with
    lookup by name and by index;
  - `mapping` holds the curve table of a setting mapping;
  - `rng_seed` computes the seeding schedule of the random generator;
  - `smudge` selects smudge buckets and records their use.
- `app/` holds what computes in floating point (the brush engine itself,
  colour-space conversions, spectral mixing, the random generator, curve
  evaluation, loading the floating-point setting values of a brush file)
  and the C interface, built on the library.
- `tests/` runs the library on concrete values.
