pub mod cell;
pub mod grid;
pub mod life;
pub mod life_old;
pub mod rules;
pub mod patterns;
pub mod editor;
pub mod runner;
