pub mod hram;
pub mod wram;
