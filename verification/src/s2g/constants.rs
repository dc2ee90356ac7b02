//! The fixed names of the conversion: tool binaries, file extensions and the
//! suffix that marks what the conversion made.

use vstd::prelude::*;

verus! {

/// The model compiler, in the directory of binaries.
pub const STUDIOMDL_BINARY: &'static str = "studiomdl.exe";

/// The model decompiler, in the directory of binaries.
pub const CROWBAR_BINARY: &'static str = "crowbar.exe";

/// The directory of the texture converter, in the directory of binaries.
pub const NO_VTF_FOLDER: &'static str = "no_vtf";

/// The texture converter on Windows.
pub const NO_VTF_BINARY_WINDOWS: &'static str = "no_vtf.exe";

/// The texture converter elsewhere.
pub const NO_VTF_BINARY: &'static str = "no_vtf";

/// How many triangles a GoldSrc mesh holds at most.
pub const MAX_TRIANGLE: usize = 4080;

/// What is added to a stem to name a converted file.
pub const GOLDSRC_SUFFIX: &'static str = "_goldsrc";

/// Extension of a compiled model.
pub const MDL_EXTENSION: &'static str = "mdl";

/// Extension of the vertex data that goes with a compiled model.
pub const VVD_EXTENSION: &'static str = "vvd";

/// Extension of the mesh strips that go with a compiled model.
pub const VTX_EXTENSION: &'static str = "vtx";

/// Extension of a model descriptor.
pub const QC_EXTENSION: &'static str = "qc";

/// Extension of a mesh file.
pub const SMD_EXTENSION: &'static str = "smd";

/// The heading of what the compile stage logs, written as it stands: the
/// braces are part of the text.
pub const COMPILE_HEADING: &'static str = "Compiling {} models: \n";

/// The name under which every converted animation is registered.
pub const IDLE_SEQUENCE: &'static str = "idle";

/// What the body made from piece `i` of a mesh is called, before `i`.
pub const BODY_NAME: &'static str = "studio";

} // verus!
