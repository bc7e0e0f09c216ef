//! Cellular automata on a toroidal grid: Conway's Game of Life with fading
//! cells, seed patterns and glider spawning, the integer layout of the
//! Physarum trail map, command-line parsing and the frame-loop decisions.

pub mod game_of_life;
pub mod life_laws;
pub mod cli;
pub mod frame_loop;
pub mod physarum;
pub mod spawn;
