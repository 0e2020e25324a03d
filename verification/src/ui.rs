pub mod display;
pub mod menu;
pub mod popup;
pub mod screen;
pub mod style;
pub mod viewport;
pub mod widgets;
