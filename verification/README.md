# nba_raycaster

A small first-person basketball game drawn with a Wolfenstein-style
raycaster: walk through three court mazes and score every hoop.

- `src/` is the game logic, verified with Verus: the map grid, the three
  level layouts (proved to be closed in by walls, with the start and every
  hoop on open floor), hoop scoring, the screen state machine, music scene
  selection, the cell stepping of rays and the integer layout of the 3D
  view, the minimap, the HUD and the menus.
- `app/` is the program around it: the raylib window, keyboard, textures,
  audio, and everything computed in floating point (player movement, ray
  distances, floor casting, texture filtering, confetti).
- `tests/` runs the library on concrete values.
