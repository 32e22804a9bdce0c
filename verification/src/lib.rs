pub mod console;
pub mod devices;
pub mod panel;
pub mod selection;
pub mod settings;
pub mod text;
