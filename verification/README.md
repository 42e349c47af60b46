# prim

A help-page renderer's model, verified with Verus.

- `src/` is the verified library: packed ARGB colours (`color`), the render error
  (`error`), the flex layout settings (`layout`), the renderer's options (`options`)
  and the binding-side options with their conversions to and from the renderer's
  (`node`), together with the round-trip laws of those conversions.
- `app/` holds what runs on skia and napi: drawing, text measurement, fonts, the
  f32 flex layout, and the Node.js entry point. It expects the bundled font at
  `app/fonts/DouyinSansBold.ttf`.
- `tests/` exercises the library on concrete values.
