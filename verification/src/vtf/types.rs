//! The data of a texture container: the parts of its header that carry no
//! fractions, its resources, and its images by mipmap, frame and face.

use vstd::prelude::*;

verus! {

/// The image data of a container, as it lies in the file.
pub type ImageData = Vec<u8>;

/// What the header adds from version 7.2 on.
#[derive(Debug, Clone)]
pub struct Header72 {
    pub depth: u16,
}

/// What the header adds from version 7.3 on.
#[derive(Debug, Clone)]
pub struct Header73 {
    pub num_resources: u32,
}

/// An entry of the resource table.
#[derive(Debug, Clone)]
pub struct ResourceEntry {
    pub tag: ResourceEntryTag,
    pub flags: u8,
    pub offset: u32,
}

/// What a resource is, as its three-byte tag says.
#[derive(Debug, Clone, Copy, PartialEq, Eq, Structural)]
pub enum ResourceEntryTag {
    LowRes,
    HighRes,
    AnimatedParticleSheet,
    CRC,
    TextureLODControl,
    ExtendedVTF,
    KeyValues,
}

/// Why three bytes are no tag.
#[derive(Debug, Clone, Copy, PartialEq, Eq, Structural)]
pub enum TagError {
    /// They are not three: this many instead.
    Length(usize),
    /// They are three, and no tag is written so.
    Unknown,
}

/// The tag that `bytes` spell, if any.
pub open spec fn tag_of(bytes: Seq<u8>) -> Option<ResourceEntryTag> {
    if bytes == seq![0x01u8, 0u8, 0u8] {
        Some(ResourceEntryTag::LowRes)
    } else if bytes == seq![0x30u8, 0u8, 0u8] {
        Some(ResourceEntryTag::HighRes)
    } else if bytes == seq![0x10u8, 0u8, 0u8] {
        Some(ResourceEntryTag::AnimatedParticleSheet)
    } else if bytes == seq![0x43u8, 0x52u8, 0x43u8] {
        Some(ResourceEntryTag::CRC)
    } else if bytes == seq![0x4cu8, 0x4fu8, 0x44u8] {
        Some(ResourceEntryTag::TextureLODControl)
    } else if bytes == seq![0x54u8, 0x53u8, 0x4fu8] {
        Some(ResourceEntryTag::ExtendedVTF)
    } else if bytes == seq![0x4bu8, 0x56u8, 0x44u8] {
        Some(ResourceEntryTag::KeyValues)
    } else {
        None
    }
}

fn spells(value: &[u8], a: u8, b: u8, c: u8) -> (yes: bool)
    requires
        value.len() == 3,
    ensures
        yes == (value@ == seq![a, b, c]),
{
    let yes = value[0] == a && value[1] == b && value[2] == c;
    assert(yes ==> value@ =~= seq![a, b, c]);
    assert(!yes ==> value@[0] != seq![a, b, c][0] || value@[1] != seq![a, b, c][1] || value@[2]
        != seq![a, b, c][2]);
    yes
}

impl ResourceEntryTag {
    /// The tag that the three bytes of `value` spell: `01 00 00` for the
    /// low resolution image, `30 00 00` for the high resolution image,
    /// `10 00 00` for the particle sheet, and the letters `CRC`, `LOD`,
    /// `TSO` and `KVD`. Any other bytes are no tag.
    pub fn try_from(value: &[u8]) -> (r: Result<ResourceEntryTag, TagError>)
        ensures
            value.len() != 3 ==> r == Err::<ResourceEntryTag, TagError>(
                TagError::Length(value.len()),
            ),
            value.len() == 3 ==> r == match tag_of(value@) {
                Some(tag) => Ok::<ResourceEntryTag, TagError>(tag),
                None => Err(TagError::Unknown),
            },
    {
        if value.len() != 3 {
            return Err(TagError::Length(value.len()));
        }
        if spells(value, 0x01, 0, 0) {
            Ok(ResourceEntryTag::LowRes)
        } else if spells(value, 0x30, 0, 0) {
            Ok(ResourceEntryTag::HighRes)
        } else if spells(value, 0x10, 0, 0) {
            Ok(ResourceEntryTag::AnimatedParticleSheet)
        } else if spells(value, 0x43, 0x52, 0x43) {
            Ok(ResourceEntryTag::CRC)
        } else if spells(value, 0x4c, 0x4f, 0x44) {
            Ok(ResourceEntryTag::TextureLODControl)
        } else if spells(value, 0x54, 0x53, 0x4f) {
            Ok(ResourceEntryTag::ExtendedVTF)
        } else if spells(value, 0x4b, 0x56, 0x44) {
            Ok(ResourceEntryTag::KeyValues)
        } else {
            Err(TagError::Unknown)
        }
    }
}

impl TagError {
    /// The failure in words.
    pub fn message(&self) -> (text: String)
        ensures
            text@ == match *self {
                TagError::Length(n) => "invalid slice length "@ + crate::text::decimal(n as nat)
                    + " instead of 3"@,
                TagError::Unknown => "invalid resource entry tag"@,
            },
    {
        match self {
            TagError::Length(n) => {
                let mut text = String::from_str("invalid slice length ");
                text.append(crate::text::decimal_string(*n).as_str());
                text.append(" instead of 3");
                text
            },
            TagError::Unknown => String::from_str("invalid resource entry tag"),
        }
    }
}

/// The flags of a texture, each one bit of the header's flag word.
#[derive(Debug, Clone, Copy, PartialEq, Eq, Structural)]
pub enum VtfFlag {
    TextureflagsPointsample,
    TextureflagsTrilinear,
    TextureflagsClamps,
    TextureflagsClampt,
    TextureflagsAnisotropic,
    TextureflagsHintDxt5,
    TextureflagsPwlCorrected,
    TextureflagsNormal,
    TextureflagsNomip,
    TextureflagsNolod,
    TextureflagsAllMips,
    TextureflagsProcedural,
    TextureflagsOnebitalpha,
    TextureflagsEightbitalpha,
    TextureflagsEnvmap,
    TextureflagsRendertarget,
    TextureflagsDepthrendertarget,
    TextureflagsNodebugoverride,
    TextureflagsSinglecopy,
    TextureflagsPreSrgb,
    TextureflagsUnused00100000,
    TextureflagsUnused00200000,
    TextureflagsUnused00400000,
    TextureflagsNodepthbuffer,
    TextureflagsUnused01000000,
    TextureflagsClampu,
    TextureflagsVertextexture,
    TextureflagsSsbump,
    TextureflagsUnused10000000,
    TextureflagsBorder,
    TextureflagsUnused40000000,
    TextureflagsUnused80000000,
}

/// The bit of the flag word that stands for `flag`.
pub open spec fn flag_bit(flag: VtfFlag) -> u32 {
    match flag {
        VtfFlag::TextureflagsPointsample => 0x00000001,
        VtfFlag::TextureflagsTrilinear => 0x00000002,
        VtfFlag::TextureflagsClamps => 0x00000004,
        VtfFlag::TextureflagsClampt => 0x00000008,
        VtfFlag::TextureflagsAnisotropic => 0x00000010,
        VtfFlag::TextureflagsHintDxt5 => 0x00000020,
        VtfFlag::TextureflagsPwlCorrected => 0x00000040,
        VtfFlag::TextureflagsNormal => 0x00000080,
        VtfFlag::TextureflagsNomip => 0x00000100,
        VtfFlag::TextureflagsNolod => 0x00000200,
        VtfFlag::TextureflagsAllMips => 0x00000400,
        VtfFlag::TextureflagsProcedural => 0x00000800,
        VtfFlag::TextureflagsOnebitalpha => 0x00001000,
        VtfFlag::TextureflagsEightbitalpha => 0x00002000,
        VtfFlag::TextureflagsEnvmap => 0x00004000,
        VtfFlag::TextureflagsRendertarget => 0x00008000,
        VtfFlag::TextureflagsDepthrendertarget => 0x00010000,
        VtfFlag::TextureflagsNodebugoverride => 0x00020000,
        VtfFlag::TextureflagsSinglecopy => 0x00040000,
        VtfFlag::TextureflagsPreSrgb => 0x00080000,
        VtfFlag::TextureflagsUnused00100000 => 0x00100000,
        VtfFlag::TextureflagsUnused00200000 => 0x00200000,
        VtfFlag::TextureflagsUnused00400000 => 0x00400000,
        VtfFlag::TextureflagsNodepthbuffer => 0x00800000,
        VtfFlag::TextureflagsUnused01000000 => 0x01000000,
        VtfFlag::TextureflagsClampu => 0x02000000,
        VtfFlag::TextureflagsVertextexture => 0x04000000,
        VtfFlag::TextureflagsSsbump => 0x08000000,
        VtfFlag::TextureflagsUnused10000000 => 0x10000000,
        VtfFlag::TextureflagsBorder => 0x20000000,
        VtfFlag::TextureflagsUnused40000000 => 0x40000000,
        VtfFlag::TextureflagsUnused80000000 => 0x80000000,
    }
}

impl VtfFlag {
    /// The bit of the flag word that stands for the flag.
    pub fn bits(self) -> (bits: u32)
        ensures
            bits == flag_bit(self),
    {
        match self {
            VtfFlag::TextureflagsPointsample => 0x00000001,
            VtfFlag::TextureflagsTrilinear => 0x00000002,
            VtfFlag::TextureflagsClamps => 0x00000004,
            VtfFlag::TextureflagsClampt => 0x00000008,
            VtfFlag::TextureflagsAnisotropic => 0x00000010,
            VtfFlag::TextureflagsHintDxt5 => 0x00000020,
            VtfFlag::TextureflagsPwlCorrected => 0x00000040,
            VtfFlag::TextureflagsNormal => 0x00000080,
            VtfFlag::TextureflagsNomip => 0x00000100,
            VtfFlag::TextureflagsNolod => 0x00000200,
            VtfFlag::TextureflagsAllMips => 0x00000400,
            VtfFlag::TextureflagsProcedural => 0x00000800,
            VtfFlag::TextureflagsOnebitalpha => 0x00001000,
            VtfFlag::TextureflagsEightbitalpha => 0x00002000,
            VtfFlag::TextureflagsEnvmap => 0x00004000,
            VtfFlag::TextureflagsRendertarget => 0x00008000,
            VtfFlag::TextureflagsDepthrendertarget => 0x00010000,
            VtfFlag::TextureflagsNodebugoverride => 0x00020000,
            VtfFlag::TextureflagsSinglecopy => 0x00040000,
            VtfFlag::TextureflagsPreSrgb => 0x00080000,
            VtfFlag::TextureflagsUnused00100000 => 0x00100000,
            VtfFlag::TextureflagsUnused00200000 => 0x00200000,
            VtfFlag::TextureflagsUnused00400000 => 0x00400000,
            VtfFlag::TextureflagsNodepthbuffer => 0x00800000,
            VtfFlag::TextureflagsUnused01000000 => 0x01000000,
            VtfFlag::TextureflagsClampu => 0x02000000,
            VtfFlag::TextureflagsVertextexture => 0x04000000,
            VtfFlag::TextureflagsSsbump => 0x08000000,
            VtfFlag::TextureflagsUnused10000000 => 0x10000000,
            VtfFlag::TextureflagsBorder => 0x20000000,
            VtfFlag::TextureflagsUnused40000000 => 0x40000000,
            VtfFlag::TextureflagsUnused80000000 => 0x80000000,
        }
    }
}

/// One image of a container: its format as the header numbers it, its
/// size in pixels, and its data as they lie in the file.
#[derive(Debug, Clone)]
pub struct VtfImage {
    pub format: i32,
    pub width: u32,
    pub height: u32,
    pub bytes: ImageData,
}

/// A resource of a container.
#[derive(Debug, Clone)]
pub enum Resource {
    LowRes(VtfImage),
    HighRes(VtfHighResImage),
    AnimatedParticleSheet,
    CRC,
    TextureLODControl,
    ExtendedVTF,
    KeyValues,
}

/// The high resolution image: its mipmaps, the full-size one last.
#[derive(Debug, Clone)]
pub struct VtfHighResImage {
    pub mipmaps: Vec<MipMap>,
}

/// One size of the image: its frames in order.
#[derive(Debug, Clone)]
pub struct MipMap {
    pub frames: Vec<Frame>,
}

/// One frame: its faces in order.
#[derive(Debug, Clone)]
pub struct Frame {
    pub faces: Vec<Face>,
}

/// One face of a frame.
#[derive(Debug, Clone)]
pub struct Face {
    pub image: VtfImage,
}

/// Why a high resolution image has no full-size picture.
#[derive(Debug, Clone, Copy, PartialEq, Eq, Structural)]
pub enum NoImage {
    NoMipmaps,
    NoFrames,
    NoFaces,
}

impl NoImage {
    /// The failure in words.
    pub fn message(&self) -> (text: String)
        ensures
            text@ == match *self {
                NoImage::NoMipmaps => "no mipmaps"@,
                NoImage::NoFrames => "no frames"@,
                NoImage::NoFaces => "no faces"@,
            },
    {
        match self {
            NoImage::NoMipmaps => String::from_str("no mipmaps"),
            NoImage::NoFrames => String::from_str("no frames"),
            NoImage::NoFaces => String::from_str("no faces"),
        }
    }
}

impl VtfHighResImage {
    /// The full-size picture: the first face of the first frame of the
    /// last mipmap. Fails where there is no mipmap, where the last mipmap
    /// has no frame, or where its first frame has no face.
    pub fn get_high_res_image(&self) -> (r: Result<&VtfImage, NoImage>)
        ensures
            self.mipmaps@.len() == 0 ==> r == Err::<&VtfImage, NoImage>(NoImage::NoMipmaps),
            self.mipmaps@.len() > 0 && self.mipmaps@.last().frames@.len() == 0 ==> r == Err::<
                &VtfImage,
                NoImage,
            >(NoImage::NoFrames),
            self.mipmaps@.len() > 0 && self.mipmaps@.last().frames@.len() > 0
                && self.mipmaps@.last().frames@[0].faces@.len() == 0 ==> r == Err::<
                &VtfImage,
                NoImage,
            >(NoImage::NoFaces),
            self.mipmaps@.len() > 0 && self.mipmaps@.last().frames@.len() > 0
                && self.mipmaps@.last().frames@[0].faces@.len() > 0 ==> r == Ok::<
                &VtfImage,
                NoImage,
            >(&self.mipmaps@.last().frames@[0].faces@[0].image),
    {
        if self.mipmaps.len() == 0 {
            return Err(NoImage::NoMipmaps);
        }
        let mipmap = &self.mipmaps[self.mipmaps.len() - 1];
        if mipmap.frames.len() == 0 {
            return Err(NoImage::NoFrames);
        }
        let frame = &mipmap.frames[0];
        if frame.faces.len() == 0 {
            return Err(NoImage::NoFaces);
        }
        Ok(&frame.faces[0].image)
    }
}

/// The data of a container up to version 7.2.
#[derive(Debug, Clone)]
pub struct Vtf72Data {
    pub low_res: VtfImage,
    pub high_res: VtfHighResImage,
}

/// The data of a container from version 7.3 on: its resources.
pub type Vtf73Data = Vec<Resource>;

/// The data of a container.
#[derive(Debug, Clone)]
pub enum VtfData {
    Vtf72(Vtf72Data),
    Vtf73(Vtf73Data),
}

} // verus!
