use gchimp::vtf::types::{
    Face, Frame, MipMap, NoImage, ResourceEntryTag, TagError, VtfFlag, VtfHighResImage, VtfImage,
};

fn image(tag: u8) -> VtfImage {
    VtfImage { format: 13, width: 2, height: 1, bytes: vec![tag, tag] }
}

fn frame(tags: &[u8]) -> Frame {
    Frame { faces: tags.iter().map(|t| Face { image: image(*t) }).collect() }
}

#[test]
fn tags_are_read_from_three_bytes() {
    assert_eq!(ResourceEntryTag::try_from(&[0x01, 0, 0]), Ok(ResourceEntryTag::LowRes));
    assert_eq!(ResourceEntryTag::try_from(&[0x30, 0, 0]), Ok(ResourceEntryTag::HighRes));
    assert_eq!(
        ResourceEntryTag::try_from(&[0x10, 0, 0]),
        Ok(ResourceEntryTag::AnimatedParticleSheet)
    );
    assert_eq!(ResourceEntryTag::try_from(b"CRC"), Ok(ResourceEntryTag::CRC));
    assert_eq!(ResourceEntryTag::try_from(b"LOD"), Ok(ResourceEntryTag::TextureLODControl));
    assert_eq!(ResourceEntryTag::try_from(b"TSO"), Ok(ResourceEntryTag::ExtendedVTF));
    assert_eq!(ResourceEntryTag::try_from(b"KVD"), Ok(ResourceEntryTag::KeyValues));
}

#[test]
fn unknown_tag_is_refused() {
    assert_eq!(ResourceEntryTag::try_from(&[0x01, 0, 1]), Err(TagError::Unknown));
    assert_eq!(ResourceEntryTag::try_from(b"crc"), Err(TagError::Unknown));
    assert_eq!(ResourceEntryTag::try_from(&[0, 0, 0]), Err(TagError::Unknown));
    assert_eq!(TagError::Unknown.message(), "invalid resource entry tag");
}

#[test]
fn tag_of_another_length_is_refused() {
    assert_eq!(ResourceEntryTag::try_from(&[]), Err(TagError::Length(0)));
    assert_eq!(ResourceEntryTag::try_from(&[0x01, 0]), Err(TagError::Length(2)));
    assert_eq!(ResourceEntryTag::try_from(b"CRCX"), Err(TagError::Length(4)));
    assert_eq!(TagError::Length(4).message(), "invalid slice length 4 instead of 3");
    assert_eq!(TagError::Length(0).message(), "invalid slice length 0 instead of 3");
}

#[test]
fn flags_are_single_bits() {
    assert_eq!(VtfFlag::TextureflagsPointsample.bits(), 0x0000_0001);
    assert_eq!(VtfFlag::TextureflagsProcedural.bits(), 0x0000_0800);
    assert_eq!(VtfFlag::TextureflagsEightbitalpha.bits(), 0x0000_2000);
    assert_eq!(VtfFlag::TextureflagsPreSrgb.bits(), 0x0008_0000);
    assert_eq!(VtfFlag::TextureflagsNodepthbuffer.bits(), 0x0080_0000);
    assert_eq!(VtfFlag::TextureflagsSsbump.bits(), 0x0800_0000);
    assert_eq!(VtfFlag::TextureflagsBorder.bits(), 0x2000_0000);
    assert_eq!(VtfFlag::TextureflagsUnused80000000.bits(), 0x8000_0000);
}

#[test]
fn all_flags_cover_the_word_once() {
    let all = [
        VtfFlag::TextureflagsPointsample,
        VtfFlag::TextureflagsTrilinear,
        VtfFlag::TextureflagsClamps,
        VtfFlag::TextureflagsClampt,
        VtfFlag::TextureflagsAnisotropic,
        VtfFlag::TextureflagsHintDxt5,
        VtfFlag::TextureflagsPwlCorrected,
        VtfFlag::TextureflagsNormal,
        VtfFlag::TextureflagsNomip,
        VtfFlag::TextureflagsNolod,
        VtfFlag::TextureflagsAllMips,
        VtfFlag::TextureflagsProcedural,
        VtfFlag::TextureflagsOnebitalpha,
        VtfFlag::TextureflagsEightbitalpha,
        VtfFlag::TextureflagsEnvmap,
        VtfFlag::TextureflagsRendertarget,
        VtfFlag::TextureflagsDepthrendertarget,
        VtfFlag::TextureflagsNodebugoverride,
        VtfFlag::TextureflagsSinglecopy,
        VtfFlag::TextureflagsPreSrgb,
        VtfFlag::TextureflagsUnused00100000,
        VtfFlag::TextureflagsUnused00200000,
        VtfFlag::TextureflagsUnused00400000,
        VtfFlag::TextureflagsNodepthbuffer,
        VtfFlag::TextureflagsUnused01000000,
        VtfFlag::TextureflagsClampu,
        VtfFlag::TextureflagsVertextexture,
        VtfFlag::TextureflagsSsbump,
        VtfFlag::TextureflagsUnused10000000,
        VtfFlag::TextureflagsBorder,
        VtfFlag::TextureflagsUnused40000000,
        VtfFlag::TextureflagsUnused80000000,
    ];
    let mut word: u32 = 0;
    for (position, flag) in all.iter().enumerate() {
        assert_eq!(flag.bits(), 1u32 << position);
        word |= flag.bits();
    }
    assert_eq!(word, u32::MAX);
}

#[test]
fn full_size_picture_is_first_face_of_first_frame_of_last_mipmap() {
    let high = VtfHighResImage {
        mipmaps: vec![
            MipMap { frames: vec![frame(&[1, 2])] },
            MipMap { frames: vec![frame(&[3, 4]), frame(&[5])] },
        ],
    };
    let picture = high.get_high_res_image().unwrap();
    assert_eq!(picture.bytes, vec![3, 3]);
    assert_eq!(picture.width, 2);
}

#[test]
fn picture_needs_a_mipmap() {
    let high = VtfHighResImage { mipmaps: vec![] };
    assert_eq!(high.get_high_res_image().err(), Some(NoImage::NoMipmaps));
    assert_eq!(NoImage::NoMipmaps.message(), "no mipmaps");
}

#[test]
fn picture_needs_a_frame_in_the_last_mipmap() {
    let high = VtfHighResImage {
        mipmaps: vec![MipMap { frames: vec![frame(&[1])] }, MipMap { frames: vec![] }],
    };
    assert_eq!(high.get_high_res_image().err(), Some(NoImage::NoFrames));
    assert_eq!(NoImage::NoFrames.message(), "no frames");
}

#[test]
fn picture_needs_a_face_in_the_first_frame() {
    let high = VtfHighResImage {
        mipmaps: vec![MipMap { frames: vec![frame(&[]), frame(&[1])] }],
    };
    assert_eq!(high.get_high_res_image().err(), Some(NoImage::NoFaces));
    assert_eq!(NoImage::NoFaces.message(), "no faces");
}
