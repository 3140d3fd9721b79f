//! The decision logic of a GUI shell that embeds a terminal text editor and
//! shows PDF and image files in viewer tabs.

pub mod input;
pub mod color;
pub mod text;
pub mod cells;
pub mod pixels;
pub mod viewer;
pub mod paths;
pub mod editor;
pub mod rpc;
