# space_crystals

Verified game rules of the Space Crystals real-time strategy game, written in
Verus: unit archetypes and unit data, structure production queues and the
Syndicate tunnel network, grid placement and the GDO build area, A*
pathfinding with proved least-cost results, fog of war, selection and control
groups, combat targeting and the attack cycle, and the resource economy.

- `src/` is the library; every function carries a contract that Verus proves.
  Properties that span several functions stand as public proof functions
  named `law_*`.
- `tests/` runs the library on concrete scenarios.
- `app/` is a small headless start-up program: it lays out the map and the
  starting structures and holds the floating-point helpers (timing, geometry,
  damage) that the verified library does not model. Rendering and input of
  the game engine are not part of this crate.
