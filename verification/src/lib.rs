//! Turns Source engine models into GoldSrc models: the decisions of the
//! conversion job, the names of the files it makes, the texture
//! container's data model, and images of 256 colours.

pub mod path;
pub mod s2g;
pub mod text;
pub mod utils;
pub mod vtf;
