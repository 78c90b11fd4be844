//! What the display layer can ask of the library.

pub mod agents;
