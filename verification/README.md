# rav1d kernels

Verified pixel-processing kernels of an AV1 video decoder, written in Verus:
every public function carries a contract that states what it returns or
writes, and Verus proves it, along with freedom from overflow and
out-of-bounds access.

Pixels of all bit depths (8, 10 and 12 bits per component) are held as `u16`;
a plane is a flat buffer, an offset and a row stride in pixels.

Modules under `src/`:

- `bitdepth`, `intops`, `plane`, `tables`: bit depth constants, integer
  helpers, rectangle bookkeeping of planes (`rect_written` describes a block
  write), and format tables.
- `cdef`, `cdef_dir`, `cdef_dsp`: the constrained directional enhancement
  filter, its direction search, and the table of its kernels.
- `mc`, `compound`, `warp`, `emu_edge`, `mc_dsp`: motion compensation
  (8-tap and bilinear interpolation, scaled or not), compound prediction and
  blending, affine warping and row resampling, edge emulation of reference
  blocks, and the table of these kernels by filter combination.
- `cdf`, `cdf_default_mode`, `cdf_default_coef`, `cdf_default_mv`,
  `cdf_thread`: the adaptive symbol probabilities of the entropy decoder,
  their default values, how they are carried from frame to frame, and the
  per-frame context that holds or shares them.

Laws that relate several calls are public proof functions named `lemma_*`
(for instance `lemma_cdf_update_idempotent`, `lemma_compound_same_prediction`,
`lemma_mc_integer_position`, `lemma_find_dir_transpose`). The default
probability tables are described by closed predicates (`is_default_*`), which
the `lemma_default_*` proof functions unfold.

The interpolation filter tables (sub-pixel, warp and resampling filters) are
parameters of the kernels that use them.

`tests/` runs the kernels on concrete inputs.
