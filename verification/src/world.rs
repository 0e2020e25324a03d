pub mod manager;
pub mod time;
pub mod weather;
