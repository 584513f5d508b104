# clipper_sys

Polygon data for the Clipper polygon-clipping engine, with machine-checked
contracts.

- `src/clipper.rs`: vertices, paths, polygons and polygon collections as owned
  values, the numeric codes of the clipping parameters, and structural
  equality (`==`) with its exact meaning over the mathematical model.
- `src/text.rs`: integers under the `Debug` integer options (sign, width,
  fill, alignment, zero padding), bracketed lists in compact and pretty form.
- `src/debug.rs`: the `Debug`-style renderers, compact (`{:?}`) and pretty
  (`{:#?}`); each states exactly the text it appends.
- `src/laws.rs`: equality is an equivalence, agrees position by position, and
  equal values render to the same text in both forms.
- `app/`: the calls into the C++ engine through its C ABI, and
  `std::fmt::Debug` on top of the renderers, reading the formatter's options.
