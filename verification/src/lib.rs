//! The decision logic of a screenshot grabber: hotkey settings and their
//! validation, the pressed/released key tracker that fires hotkeys, the
//! selection state driven by the mouse, and the naming of saved images.
pub mod keys;
pub mod laws;
pub mod naming;
pub mod selection;
pub mod shortcuts;
pub mod state;
