use gchimp::utils::constants::{
    MAX_GOLDSRC_TEXTURE_SIZE, PALETTE_PAD_COLOR, PALETTE_TRANSPARENT_COLOR,
};
use gchimp::utils::img_stuffs::{
    eight_bpp_bitmap_to_png_bytes, encode_8bpp_to_bitmap, make_color_transparent,
    most_used_color, rgb8_to_8bpp, rgba8_to_rgb8_replace, tell_failures, unfold_8bpp, GoldSrcBmp,
};

const RED: [u8; 3] = [255, 0, 0];
const GREEN: [u8; 3] = [0, 255, 0];
const BLUE: [u8; 3] = [0, 0, 255];

#[test]
fn pixels_are_replaced_by_their_place_in_the_palette() {
    let img = [0, 255, 0, 255, 0, 0, 0, 0, 255, 0, 255, 0];
    assert_eq!(rgb8_to_8bpp(&img, &[RED, GREEN, BLUE]), Some(vec![1, 0, 2, 1]));
}

#[test]
fn first_of_equal_palette_entries_is_taken() {
    let img = [0, 255, 0];
    assert_eq!(rgb8_to_8bpp(&img, &[RED, GREEN, GREEN]), Some(vec![1]));
}

#[test]
fn colour_outside_the_palette_gives_no_image() {
    let img = [0, 255, 0, 1, 2, 3];
    assert_eq!(rgb8_to_8bpp(&img, &[RED, GREEN, BLUE]), None);
    assert_eq!(rgb8_to_8bpp(&img, &[]), None);
}

#[test]
fn colour_beyond_the_first_256_entries_gives_no_image() {
    let mut palette: Vec<[u8; 3]> = (0..=255u8).map(|n| [n, 0, 0]).collect();
    palette.push([1, 2, 3]);
    assert_eq!(rgb8_to_8bpp(&[255, 0, 0], &palette), Some(vec![255]));
    assert_eq!(rgb8_to_8bpp(&[1, 2, 3], &palette), None);
}

#[test]
fn bytes_after_the_last_whole_pixel_are_passed_over() {
    assert_eq!(rgb8_to_8bpp(&[255, 0, 0, 9, 9], &[RED]), Some(vec![0]));
    assert_eq!(rgb8_to_8bpp(&[], &[RED]), Some(vec![]));
    assert_eq!(rgba8_to_rgb8_replace(&[1, 2, 3, 200, 9], &[7, 7, 7], 100), vec![1, 2, 3]);
}

#[test]
fn faint_pixels_take_the_replacement() {
    let img = [1, 2, 3, 255, 4, 5, 6, 10, 7, 8, 9, 11, 10, 11, 12, 0];
    assert_eq!(
        rgba8_to_rgb8_replace(&img, &[0, 0, 255], 10),
        vec![1, 2, 3, 0, 0, 255, 7, 8, 9, 0, 0, 255]
    );
    // A threshold of 255 replaces every pixel.
    assert_eq!(rgba8_to_rgb8_replace(&img[..8], &[9, 9, 9, 9], 255), vec![9, 9, 9, 9, 9, 9]);
}

#[test]
fn no_replacement_is_needed_where_no_pixel_is_faint() {
    assert_eq!(rgba8_to_rgb8_replace(&[1, 2, 3, 200], &[], 100), vec![1, 2, 3]);
}

#[test]
fn palette_places_unfold_to_colours() {
    assert_eq!(
        unfold_8bpp(&[2, 0, 0, 1], &[RED, GREEN, BLUE]),
        vec![0, 0, 255, 255, 0, 0, 255, 0, 0, 0, 255, 0]
    );
    assert_eq!(unfold_8bpp(&[], &[]), Vec::<u8>::new());
}

#[test]
fn unfolding_undoes_the_lookup() {
    let palette = [RED, GREEN, BLUE];
    let places = vec![2, 2, 0, 1, 0];
    let rgb = unfold_8bpp(&places, &palette);
    assert_eq!(rgb8_to_8bpp(&rgb, &palette), Some(places));
}

#[test]
fn most_used_colour_is_counted() {
    assert_eq!(most_used_color(&[3, 1, 3, 2, 3, 1]), (3, 3));
    assert_eq!(most_used_color(&[200]), (200, 1));
    assert_eq!(most_used_color(&[]), (0, 0));
    // Of colours used equally often the first is taken.
    assert_eq!(most_used_color(&[9, 4, 9, 4]), (4, 2));
}

#[test]
fn transparent_colour_takes_the_last_palette_entry() {
    let (img, palette) = make_color_transparent(&[0, 1, 2, 1], &[RED, GREEN, [9, 9, 9]], 1);
    assert_eq!(img, vec![0, 255, 2, 255]);
    assert_eq!(palette.len(), 256);
    assert_eq!(&palette[..3], &[RED, GREEN, [9, 9, 9]]);
    assert!(palette[3..255].iter().all(|entry| *entry == PALETTE_PAD_COLOR));
    assert_eq!(palette[255], PALETTE_TRANSPARENT_COLOR);
    assert_eq!(PALETTE_TRANSPARENT_COLOR, [0, 0, 255]);
}

#[test]
fn full_palette_gives_up_its_last_entry() {
    let palette: Vec<[u8; 3]> = (0..=255u8).map(|n| [n, n, n]).collect();
    let (img, made) = make_color_transparent(&[255, 7], &palette, 7);
    assert_eq!(img, vec![255, 255]);
    assert_eq!(made.len(), 256);
    assert_eq!(made[254], [254, 254, 254]);
    assert_eq!(made[255], PALETTE_TRANSPARENT_COLOR);
}

#[test]
fn bitmap_file_holds_palette_and_rows_from_the_bottom_up() {
    // Two rows of three pixels; each row is padded to four bytes.
    let img = [0, 1, 2, 2, 1, 0];
    let file = encode_8bpp_to_bitmap(&img, &[RED, GREEN, BLUE], (3, 2)).unwrap();
    let mut expected: Vec<u8> = Vec::new();
    expected.extend_from_slice(b"BM");
    expected.extend_from_slice(&(14u32 + 40 + 12 + 8).to_le_bytes());
    expected.extend_from_slice(&[0, 0, 0, 0]);
    expected.extend_from_slice(&(14u32 + 40 + 12).to_le_bytes());
    expected.extend_from_slice(&40u32.to_le_bytes());
    expected.extend_from_slice(&3i32.to_le_bytes());
    expected.extend_from_slice(&2i32.to_le_bytes());
    expected.extend_from_slice(&1u16.to_le_bytes());
    expected.extend_from_slice(&8u16.to_le_bytes());
    expected.extend_from_slice(&0u32.to_le_bytes());
    expected.extend_from_slice(&8u32.to_le_bytes());
    expected.extend_from_slice(&0i32.to_le_bytes());
    expected.extend_from_slice(&0i32.to_le_bytes());
    expected.extend_from_slice(&3u32.to_le_bytes());
    expected.extend_from_slice(&0u32.to_le_bytes());
    // The palette, each colour as blue, green, red and a zero.
    expected.extend_from_slice(&[0, 0, 255, 0, 0, 255, 0, 0, 255, 0, 0, 0]);
    expected.extend_from_slice(&[2, 1, 0, 0]);
    expected.extend_from_slice(&[0, 1, 2, 0]);
    assert_eq!(file, expected);
    assert_ne!(file, img.to_vec());
}

#[test]
fn bitmap_file_reads_back_as_the_same_picture() {
    let img = [0, 1, 1, 0];
    let file = encode_8bpp_to_bitmap(&img, &[RED, BLUE], (2, 2)).unwrap();
    let read = image::load_from_memory_with_format(&file, image::ImageFormat::Bmp).unwrap();
    assert_eq!(
        read.into_rgb8().into_raw(),
        vec![255, 0, 0, 0, 0, 255, 0, 0, 255, 255, 0, 0]
    );
}

#[test]
fn png_file_reads_back_as_the_unfolded_picture() {
    let img = [0, 1, 2, 2, 1, 0];
    let palette = [RED, GREEN, BLUE];
    let file = eight_bpp_bitmap_to_png_bytes(&img, &palette, (3, 2)).unwrap();
    assert_eq!(&file[..8], &[0x89, b'P', b'N', b'G', 0x0d, 0x0a, 0x1a, 0x0a]);
    let read = image::load_from_memory_with_format(&file, image::ImageFormat::Png).unwrap();
    assert_eq!(read.width(), 3);
    assert_eq!(read.height(), 2);
    assert_eq!(read.into_rgb8().into_raw(), unfold_8bpp(&img, &palette));
}

#[test]
fn png_file_of_an_empty_picture_is_refused() {
    assert!(eight_bpp_bitmap_to_png_bytes(&[], &[RED], (0, 0)).is_err());
}

#[test]
fn texture_is_plain_data() {
    let texture = GoldSrcBmp { image: vec![0, 1], palette: vec![RED, GREEN], dimensions: (2, 1) };
    assert_eq!(texture.image.len(), 2);
    assert_eq!(texture.dimensions, (2, 1));
    assert_eq!(MAX_GOLDSRC_TEXTURE_SIZE, 512);
}

#[test]
fn failures_of_a_batch_are_told_line_by_line() {
    assert_eq!(tell_failures(&vec![]), None);
    assert_eq!(tell_failures(&vec!["a.png: gone".to_string()]), Some("\na.png: gone".to_string()));
    assert_eq!(
        tell_failures(&vec!["one".to_string(), "".to_string(), "three".to_string()]),
        Some("\none\n\nthree".to_string())
    );
}
