//! Core data of a rhythm-game client: its settings, where they are kept, and
//! the coordinates of its graphics.
//!
//! Nothing here touches the file system. A caller reads and writes files and
//! tells the functions of [`data`] and [`savedir`] what it found; they answer
//! with the value to use and with what remains to be done.

pub mod chart;
pub mod data;
pub mod graphics;
pub mod path;
pub mod savedir;
