//! Game logic of Rustic Yellow: save data layout, work RAM layout, keypad,
//! cartridge bank controller, and the game's home routines run on a model
//! of the processor, each with its contract.

pub mod bytes;
pub mod cpu;
pub mod game;
pub mod game_state;
pub mod gpu;
pub mod keypad;
pub mod mbc5;
pub mod save_state;
pub mod saves;
pub mod serial;
pub mod sound2;
