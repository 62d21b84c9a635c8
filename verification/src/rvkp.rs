//! The render side: meshes, the surface view and the frame presenter.

pub mod mesh;
pub mod presenter;
pub mod view;
pub mod vk_impl;
