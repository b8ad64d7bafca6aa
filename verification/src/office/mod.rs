pub mod editor;
pub mod excel;
pub mod powerpoint;
pub mod runner;
pub mod sandbox;
pub mod types;
pub mod undo;
pub mod word;

pub use editor::{OfficeAvailability, OfficeEditor};
