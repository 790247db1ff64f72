# cod1

The game rules of a small elemental FPS, written in Verus and proved against
their contracts.

- `src/` — the verified library: element reactions and mutual-exclusion
  rules (`element`, `combat`), the backpack, supply table, pickups, reloading
  and firing (`inventory`), the interact menu (`interact`), the pre-match
  loadout (`loadout`), supply crates (`supply_crate`), the item wheel
  (`wheel`), overlay state (`panels`) and game modes (`menu`). Tunable
  numbers of the YAML table are carried as `f32` bit patterns; the library
  decides which row applies and never computes on them.
- `app/` — plain Rust around it: locating and parsing the YAML table, turning
  bit patterns back into `f32`, and the floating-point parts (penalty falloff,
  healing caps, camera/map math, settings, wheel timing).
- `tests/` — tests of the library.
