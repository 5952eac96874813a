# sand_components

Typed building blocks for Minecraft Java Edition datapacks, written in Verus:
resource locations and registry identifiers, tags, recipes, loot tables,
predicates, painting and pig variants, and the raw JSON/SNBT escape hatches.
Every component validates its fields before export and renders into a small
JSON model (`json::JsonValue`); contracts state what each builder records,
which input each validation refuses and with which error, and the exact JSON
each component renders.

Layout:

- `src/` — the verified library. `keyed` holds the text-ordered maps used
  for entity effects and raw fields; `float` carries floating-point values as
  IEEE 754 bit patterns; `version` models the target game version's
  capabilities.
- `tests/` — the test suite, run against the compiled library.
- `app/` — the `serde` side: conversions between `JsonValue` and
  `serde_json::Value`, `f64`/`f32` entry points, and `Serialize` adapters.
