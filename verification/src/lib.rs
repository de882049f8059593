//! Equirectangular panoramas as six-layer cubemap textures.

pub mod convert;
pub mod cubemap;
pub mod format;
pub mod manager;
pub mod sample;

pub use cubemap::{convert, cubemap_from_equirectangular, ConvertError, Image};
pub use manager::{apply_equirect, EquirectManager};
