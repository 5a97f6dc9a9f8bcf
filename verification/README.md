# syrillian_engine

The logic of the Syrillian engine that does not need a GPU, with contracts
checked by Verus:

- `src/shadergen/` — material node graphs, their dependency order, and their
  translation into WGSL shader text; the PBR material, its pins and the
  graph its pins are bound into.
- `src/render/` — decisions of the renderer: post-process routing and its
  chain state, shadow-map layer assignment and the light registry, meshlet
  layout and draw ranges, per-material draw plans, particle chunking and
  dispatch, post-process dispatch plans, uniform binding slots, texture
  layouts, shader activation and message names.
- `src/scene/` — glTF import: bone names and hierarchy, primitive vertex
  ranges, triangle indices and texture pixel conversion.
- `src/engine_args.rs`, `src/animation.rs`, `src/prefabs.rs`, `src/text.rs` —
  command-line option values, clip selection and channel binding, prefab
  names and the text helpers the rest is stated over.

`app/` holds what needs the GPU API or the process environment: the
command-line parser, conversions to `wgpu` types, and the recording of the
library's dispatch and upload plans. `tests/` exercises the library.
