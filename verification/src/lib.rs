//! Runtime core of a wireless split-keyboard node: the memory arena, the two
//! priority tiers, the latest-value event channel, the rendering loop and
//! the bridge between the status rasterizer and the display transport.

pub mod arena;
pub mod boot;
pub mod bridge;
pub mod caption;
pub mod channel;
pub mod color;
pub mod event;
pub mod fault;
pub mod frame;
pub mod keymap;
pub mod render;
pub mod scale;
pub mod screen;
pub mod tier;
