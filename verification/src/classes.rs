//! The per-class event surfaces: one trait per engine class, each method
//! awaiting one named event that the class exposes. Every method is thin
//! glue over the one-shot awaitable adapter; the capability requirement on
//! the receiver's class tag is what makes the named event one the source
//! actually exposes.

pub mod animated_sprite;
pub mod audio;
pub mod base_button;
pub mod canvas_item;
pub mod control;
pub mod node;
pub mod scene_tree;
pub mod timer;
pub mod tween;
pub mod viewport;
