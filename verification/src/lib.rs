pub mod control;
pub mod entities;
pub mod text;
pub mod ui;
pub mod world;
