# game_core

The rules of a small multiplayer top-down shooter (Bevy + lightyear + avian2d),
written in Verus and proved against their contracts.

- `src/protocol.rs`: player animation states, animation tables, world
  configuration, scores, health, input actions.
- `src/shared/constants.rs`: network settings, health values, the per-tick
  animation state machine and the character sheet layout.
- `src/shared/world_generator.rs`: the procedural world: land grid, 8-neighbour
  blob masks, the 47-entry blob tileset table, the tile layout of a world, and
  text drawings of grids and masks.
- `src/render.rs`: sprite animation stepping and the score display text.
- `src/server.rs`: the server's world, bullet hits, item pickups and predicted
  hits.
- `app/`: the Bevy application (plugins, systems, networking, physics,
  rendering, Perlin noise), which calls the library for every decision above.
- `tests/`: tests of the library on concrete values.
