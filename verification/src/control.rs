pub mod events;
pub mod save;
pub mod states;
