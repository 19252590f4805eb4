//! One import for the per-class event surfaces and the wait primitives.

pub use crate::classes::animated_sprite::AnimatedSpriteExt as _;
pub use crate::classes::audio::AudioStreamPlayerExt as _;
pub use crate::classes::base_button::BaseButtonExt as _;
pub use crate::classes::canvas_item::CanvasItemExt as _;
pub use crate::classes::control::ControlExt as _;
pub use crate::classes::node::Node3DExt as _;
pub use crate::classes::node::NodeExt as _;
pub use crate::classes::scene_tree::SceneTreeExt as _;
pub use crate::classes::timer::TimerExt as _;
pub use crate::classes::tween::TweenExt as _;
pub use crate::classes::viewport::ViewportExt as _;

pub use crate::wait::{wait, wait_ex};
