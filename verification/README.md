# yakui (verified core)

Layout bookkeeping, the `Absolute` widget and the wgpu renderer's decisions
of the yakui GUI toolkit, written in Verus with their behaviour stated in
contracts and proved.

- `src/` is the verified library:
  - `id`: widget ids as packed generational-arena index bits.
  - `arena`, `layout_store`: thunderdome's `Arena` seen as a finite map from
    index bits to values, and the trusted wrappers of its methods.
  - `layout`: the layout DOM's nodes and clip stacks, and the decision of
    what a widget's layout does to the event-interest registry.
  - `positions`: which widget is placed next, and against which parent, when
    positions are resolved breadth first.
  - `geometry`, `absolute`: rectangles and alignment carried opaquely, and the
    `Absolute` widget's properties and flow.
  - `pipeline_cache`, `draw`, `mesh`, `textures`, `texture_sync`: the
    renderer's pipeline reuse, scissor rectangles and draw steps, vertex and
    index gathering, texture lookup, and managed-texture syncing.
- `app/` holds what works on floats or on the GPU: viewport scaling, position
  resolution, the `Absolute` layout, pipeline creation and the render pass.
