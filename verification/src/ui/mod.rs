//! The interface on the device.
pub mod answers;
pub mod canvas;
pub mod labels;
pub mod laws;
pub mod layout;
pub mod palette;
pub mod panels;
pub mod pixels;
pub mod replies;
pub mod scenery;
pub mod screen;
pub mod settings;
pub mod state;
pub mod system;
pub mod tick;
pub mod timing;
pub mod touch;
