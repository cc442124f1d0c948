//! Platform logic of a GTK 4 backend for a windowing library: the keysym
//! tables of the keyboard, the drag-and-drop bookkeeping and the data
//! conversions that drag-and-drop needs, and the layout of window icons.

pub mod dnd;
pub mod icon;
pub mod keysym;
pub mod keysyms;
pub mod text;
