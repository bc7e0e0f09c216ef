# um_game_of_life

Cellular automata for a Metal playground on Apple Silicon: Conway's Game of
Life with fading cells, and a multi-species Physarum slime mould.

The library under `src/` is verified with Verus:

| Module | Contents |
|--------|----------|
| `game_of_life` | row-major indexing, wrapped neighbour counts, one generation step, seed patterns and rotated gliders |
| `life_laws` | properties of the rules: empty grids stay empty, the step commutes with translation on the torus, at most eight neighbours, placing is idempotent, ... |
| `cli` | command-line options (`--mode`, `--seed`, `--wallpaper`) and seeding the grid centre |
| `frame_loop` | speed selection, redraw scheduling and double-buffer roles of the frame loop |
| `physarum` | integer layout of the trail map: plane sizes, deposit offsets, wrapped blur neighbours, species of each agent |
| `spawn` | random glider spawning through `rand` |

`app/` holds the program around it: window and event loop (`winit`), Metal
device, pipelines and buffers (`metal`), desktop-wallpaper mode (`objc2`),
the SIGTERM handler (`libc`), and the floating-point Physarum reference
kernels, which call the library for every trail-map offset. It needs the
Metal shader sources under `app/shaders/`.
