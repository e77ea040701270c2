//! The components: what each remembers and decides, and how it looks.

pub mod avatar;
pub mod button;
pub mod dropdown;
pub mod heading;
pub mod input;
pub mod modal;
pub mod table;
pub mod tooltip;
