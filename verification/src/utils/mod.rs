//! Textures for GoldSrc: images of at most 256 colours.

pub mod constants;
pub mod img_stuffs;
