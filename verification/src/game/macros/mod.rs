pub mod coords;
pub mod farcall;
pub mod predef;
pub mod scripts;
