//! Building blocks of a browser component library: the pixel geometry that
//! attaches tooltips and dropdowns to their trigger, the gesture and dismissal
//! rules of floating panels, the looks of the components, and the generator of
//! the icon constant registry.

pub mod button;
pub mod components;
pub mod generator;
pub mod icons;
pub mod naming;
pub mod panel;
pub mod position;
pub mod registry;
pub mod text;
