//! The plugin group of a small 3D scene viewer, with its registration order
//! stated and proved.
//!
//! [`plugins::TestDefaultPlugins`] registers the engine plugins that are always
//! present and hands back the feature-dependent ones that are to follow them.
//! [`order`] says what the group stands for under given engine features, and
//! [`group`] holds the few calls into the engine's plugin group builder whose
//! contracts are taken on trust.

pub mod group;
pub mod kind;
pub mod order;
pub mod plugins;
