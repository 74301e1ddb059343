pub mod game;
pub mod input;
pub mod utility;
