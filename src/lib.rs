//! Control core of a split keyboard that also emulates a mouse: the
//! inter-half link codec, coordinate routing, matrix scanning, the mouse
//! engine, USB report arbitration and display redraw suppression.

pub mod codec;
pub mod mouse;
pub mod scanner;
pub mod router;
pub mod layout;
pub mod keyboard;
pub mod oled;
