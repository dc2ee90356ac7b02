//! The limits and colours of GoldSrc textures.

use vstd::prelude::*;

verus! {

/// The longest side of a texture, in pixels.
pub const MAX_GOLDSRC_TEXTURE_SIZE: u32 = 512;

/// How many colours a palette holds when full.
pub const PALETTE_SIZE: usize = 256;

/// The palette entry that the engine draws as transparent.
pub const TRANSPARENT_INDEX: u8 = 255;

/// The colour that fills the unused entries of a palette.
pub const PALETTE_PAD_COLOR: [u8; 3] = [0, 0, 0];

/// The colour of the transparent entry.
pub const PALETTE_TRANSPARENT_COLOR: [u8; 3] = [0, 0, 255];

} // verus!
