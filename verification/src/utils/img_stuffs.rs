//! Images of 8 bits per pixel: a palette of colours and, for each pixel,
//! the place of its colour in the palette.

use crate::utils::constants::{
    PALETTE_PAD_COLOR, PALETTE_SIZE, PALETTE_TRANSPARENT_COLOR, TRANSPARENT_INDEX,
};
use crate::text::texts;
use vstd::prelude::*;

verus! {

/// A texture as GoldSrc takes it: for each pixel the place of its colour in
/// the palette, row by row; the palette; and the width and height.
#[derive(Debug)]
pub struct GoldSrcBmp {
    pub image: Vec<u8>,
    pub palette: Vec<[u8; 3]>,
    pub dimensions: (u32, u32),
}

/// A colour: red, green, blue.
pub type Rgb = (u8, u8, u8);

/// The colour of a palette entry.
pub open spec fn color_of(entry: [u8; 3]) -> Rgb {
    (entry[0], entry[1], entry[2])
}

/// The colours of a palette, in order.
pub open spec fn colors_of(palette: Seq<[u8; 3]>) -> Seq<Rgb> {
    palette.map_values(|entry: [u8; 3]| color_of(entry))
}

/// The colour of pixel `i` of an image of 3 bytes per pixel.
pub open spec fn rgb_at(img: Seq<u8>, i: int) -> Rgb {
    (img[3 * i], img[3 * i + 1], img[3 * i + 2])
}

/// Where `color` is in the palette, if it is among the first 256 entries:
/// the first place, if there are several.
pub open spec fn place_of(palette: Seq<[u8; 3]>, color: Rgb) -> Option<u8> {
    match colors_of(palette).index_of_first(color) {
        Some(i) => if i < 256 {
            Some(i as u8)
        } else {
            None
        },
        None => None,
    }
}

fn find_color(palette: &[[u8; 3]], r: u8, g: u8, b: u8) -> (place: Option<u8>)
    ensures
        place == place_of(palette@, (r, g, b)),
{
    let ghost colors = colors_of(palette@);
    let mut i: usize = 0;
    while i < palette.len() && i < 256
        invariant
            i <= palette.len(),
            i <= 256,
            colors == colors_of(palette@),
            forall|j: int| 0 <= j < i ==> colors[j] != (r, g, b),
        decreases palette.len() - i,
    {
        let entry = &palette[i];
        if entry[0] == r && entry[1] == g && entry[2] == b {
            proof {
                colors.index_of_first_ensures((r, g, b));
                assert(colors[i as int] == (r, g, b));
            }
            return Some(i as u8);
        }
        i = i + 1;
    }
    proof {
        colors.index_of_first_ensures((r, g, b));
    }
    None
}

/// For each pixel of an image of 3 bytes per pixel, the place of its colour
/// in the palette. There is no such image where the colour of some pixel is
/// not among the first 256 entries of the palette. Bytes after the last
/// whole pixel are passed over.
pub fn rgb8_to_8bpp(img: &[u8], palette: &[[u8; 3]]) -> (r: Option<Vec<u8>>)
    ensures
        match r {
            Some(places) => places.len() == img.len() / 3 && forall|i: int|
                0 <= i < places.len() ==> place_of(palette@, rgb_at(img@, i)) == Some(
                    #[trigger] places[i],
                ),
            None => exists|i: int|
                0 <= i < img.len() / 3 && place_of(palette@, #[trigger] rgb_at(img@, i)) is None,
        },
{
    let pixels: usize = img.len() / 3;
    let mut places: Vec<u8> = Vec::new();
    let mut i: usize = 0;
    while i < pixels
        invariant
            i <= pixels,
            pixels == img.len() / 3,
            places.len() == i,
            forall|j: int|
                0 <= j < i ==> place_of(palette@, rgb_at(img@, j)) == Some(#[trigger] places[j]),
        decreases pixels - i,
    {
        match find_color(palette, img[3 * i], img[3 * i + 1], img[3 * i + 2]) {
            Some(place) => {
                places.push(place);
            },
            None => {
                assert(place_of(palette@, rgb_at(img@, i as int)) is None);
                return None;
            },
        }
        i = i + 1;
    }
    Some(places)
}

/// Whether pixel `i` of an image of 4 bytes per pixel is to be replaced:
/// its opacity does not exceed the threshold.
pub open spec fn faint(img: Seq<u8>, i: int, threshold: u8) -> bool {
    threshold >= img[4 * i + 3]
}

/// An image of 3 bytes per pixel from one of 4: each pixel keeps its
/// colour, unless its opacity does not exceed `threshold`; then its colour
/// is the first three bytes of `replacement`. Bytes after the last whole
/// pixel are passed over.
pub fn rgba8_to_rgb8_replace(img: &[u8], replacement: &[u8], threshold: u8) -> (r: Vec<u8>)
    requires
        forall|i: int| 0 <= i < img.len() / 4 && faint(img@, i, threshold) ==> replacement.len() >= 3,
    ensures
        r.len() == 3 * (img.len() / 4),
        forall|i: int, k: int|
            0 <= i < img.len() / 4 && 0 <= k < 3 ==> #[trigger] r[3 * i + k] == if faint(
                img@,
                i,
                threshold,
            ) {
                replacement[k]
            } else {
                img[4 * i + k]
            },
{
    let pixels: usize = img.len() / 4;
    let mut r: Vec<u8> = Vec::new();
    let mut i: usize = 0;
    while i < pixels
        invariant
            i <= pixels,
            pixels == img.len() / 4,
            r.len() == 3 * i,
            forall|j: int|
                0 <= j < img.len() / 4 && faint(img@, j, threshold) ==> replacement.len() >= 3,
            forall|j: int, k: int|
                0 <= j < i && 0 <= k < 3 ==> #[trigger] r[3 * j + k] == if faint(
                    img@,
                    j,
                    threshold,
                ) {
                    replacement[k]
                } else {
                    img[4 * j + k]
                },
        decreases pixels - i,
    {
        if threshold >= img[4 * i + 3] {
            assert(faint(img@, i as int, threshold));
            r.push(replacement[0]);
            r.push(replacement[1]);
            r.push(replacement[2]);
        } else {
            r.push(img[4 * i]);
            r.push(img[4 * i + 1]);
            r.push(img[4 * i + 2]);
        }
        proof {
            assert forall|j: int, k: int| 0 <= j < i + 1 && 0 <= k < 3 implies #[trigger] r[3 * j
                + k] == if faint(img@, j, threshold) {
                replacement[k]
            } else {
                img[4 * j + k]
            } by {
            }
        }
        i = i + 1;
    }
    r
}

/// Whether every pixel of an image of 8 bits per pixel has its colour in
/// the palette.
pub open spec fn within(img: Seq<u8>, palette: Seq<[u8; 3]>) -> bool {
    forall|i: int| 0 <= i < img.len() ==> (#[trigger] img[i]) < palette.len()
}

/// The image of 3 bytes per pixel that an image of 8 bits per pixel and
/// its palette stand for.
pub open spec fn unfolded(img: Seq<u8>, palette: Seq<[u8; 3]>) -> Seq<u8> {
    Seq::new(3 * img.len(), |n: int| palette[img[n / 3] as int][n % 3])
}

/// The image of 3 bytes per pixel that `img` and `palette` stand for.
pub fn unfold_8bpp(img: &[u8], palette: &[[u8; 3]]) -> (r: Vec<u8>)
    requires
        within(img@, palette@),
    ensures
        r@ == unfolded(img@, palette@),
{
    let mut r: Vec<u8> = Vec::new();
    let mut i: usize = 0;
    while i < img.len()
        invariant
            i <= img.len(),
            within(img@, palette@),
            r@ == unfolded(img@, palette@).take(3 * i),
        decreases img.len() - i,
    {
        let entry = &palette[img[i] as usize];
        r.push(entry[0]);
        r.push(entry[1]);
        r.push(entry[2]);
        i = i + 1;
    }
    r
}

/// How often `color` is the colour of a pixel of `img`.
pub open spec fn occurrences(img: Seq<u8>, color: u8) -> nat {
    img.filter(|p: u8| p == color).len()
}

/// The colour that most pixels of `img` have, and how many: of several
/// such colours the one that comes first in the palette. For an image
/// without pixels, colour 0 and no pixel.
pub fn most_used_color(img: &[u8]) -> (r: (u8, usize))
    ensures
        r.1 == occurrences(img@, r.0),
        forall|c: u8| occurrences(img@, c) <= r.1,
        forall|c: u8| c < r.0 ==> occurrences(img@, c) < r.1,
{
    let mut counts: Vec<usize> = Vec::new();
    let mut c: usize = 0;
    while c < 256
        invariant
            c <= 256,
            counts.len() == c,
            forall|k: int| 0 <= k < c ==> counts[k] == 0,
        decreases 256 - c,
    {
        counts.push(0);
        c = c + 1;
    }
    proof {
        assert forall|k: u8| occurrences(img@.take(0), k) == 0 by {
            reveal(Seq::filter);
        }
    }
    let mut i: usize = 0;
    while i < img.len()
        invariant
            i <= img.len(),
            counts.len() == 256,
            forall|k: u8| counts[k as int] == occurrences(img@.take(i as int), k),
        decreases img.len() - i,
    {
        let p = img[i];
        proof {
            assert(img@.take(i + 1) =~= img@.take(i as int).push(p));
            assert forall|k: u8| occurrences(img@.take(i + 1), k) == occurrences(
                img@.take(i as int),
                k,
            ) + if k == p {
                1nat
            } else {
                0nat
            } by {
                img@.take(i as int).lemma_filter_push(p, |q: u8| q == k);
            }
            img@.take(i as int).lemma_filter_len(|q: u8| q == p);
        }
        let count = counts[p as usize];
        counts.set(p as usize, count + 1);
        i = i + 1;
    }
    assert(img@.take(img.len() as int) =~= img@);
    let mut best: u8 = 0;
    let mut most: usize = counts[0];
    let mut k: usize = 1;
    while k < 256
        invariant
            1 <= k <= 256,
            counts.len() == 256,
            forall|c: u8| counts[c as int] == occurrences(img@, c),
            best < k,
            most == counts[best as int],
            forall|c: u8| c < k ==> counts[c as int] <= most,
            forall|c: u8| c < best ==> counts[c as int] < most,
        decreases 256 - k,
    {
        if counts[k] > most {
            best = k as u8;
            most = counts[k];
        }
        k = k + 1;
    }
    (best, most)
}

/// The palette filled up to 256 entries, with the transparent colour in
/// the last.
pub open spec fn palette_with_transparency(palette: Seq<[u8; 3]>) -> Seq<[u8; 3]> {
    Seq::new(
        256,
        |n: int|
            if n == 255 {
                PALETTE_TRANSPARENT_COLOR
            } else if n < palette.len() {
                palette[n]
            } else {
                PALETTE_PAD_COLOR
            },
    )
}

/// The image with every pixel of colour `color` moved to the transparent
/// entry.
pub open spec fn image_with_transparency(img: Seq<u8>, color: u8) -> Seq<u8> {
    img.map_values(
        |p: u8|
            if p == color {
                TRANSPARENT_INDEX
            } else {
                p
            },
    )
}

/// Makes the pixels of colour `color` transparent: they take the last
/// entry of the palette, which is filled up to 256 entries and gets the
/// transparent colour there.
pub fn make_color_transparent(img: &[u8], palette: &[[u8; 3]], color: u8) -> (r: (
    Vec<u8>,
    Vec<[u8; 3]>,
))
    requires
        palette.len() <= 256,
    ensures
        r.0@ == image_with_transparency(img@, color),
        r.1@ == palette_with_transparency(palette@),
{
    let mut new_palette: Vec<[u8; 3]> = Vec::new();
    let mut n: usize = 0;
    while n < PALETTE_SIZE
        invariant
            n <= 256,
            palette.len() <= 256,
            new_palette@ == palette_with_transparency(palette@).take(n as int),
        decreases 256 - n,
    {
        let entry: [u8; 3] = if n == 255 {
            PALETTE_TRANSPARENT_COLOR
        } else if n < palette.len() {
            palette[n]
        } else {
            PALETTE_PAD_COLOR
        };
        new_palette.push(entry);
        n = n + 1;
    }
    let mut new_img: Vec<u8> = Vec::new();
    let mut i: usize = 0;
    while i < img.len()
        invariant
            i <= img.len(),
            new_img@ == image_with_transparency(img@, color).take(i as int),
        decreases img.len() - i,
    {
        let p = img[i];
        new_img.push(
            if p == color {
                TRANSPARENT_INDEX
            } else {
                p
            },
        );
        i = i + 1;
    }
    assert(image_with_transparency(img@, color).take(img.len() as int)
        =~= image_with_transparency(img@, color));
    (new_img, new_palette)
}

/// The failures of a batch in one text: each on a line of its own, after a
/// line break.
pub open spec fn failures_told(failures: Seq<Seq<char>>) -> Seq<char> {
    failures.map_values(|f: Seq<char>| "\n"@ + f).flatten()
}

/// The failures of a batch in one text, where there are any.
pub fn tell_failures(failures: &Vec<String>) -> (r: Option<String>)
    ensures
        match r {
            Some(text) => failures.len() > 0 && text@ == failures_told(texts(failures@)),
            None => failures.len() == 0,
        },
{
    if failures.len() == 0 {
        return None;
    }
    let ghost lines = texts(failures@).map_values(|f: Seq<char>| "\n"@ + f);
    let mut text = String::new();
    let mut i: usize = 0;
    while i < failures.len()
        invariant
            i <= failures.len(),
            lines == texts(failures@).map_values(|f: Seq<char>| "\n"@ + f),
            text@ == lines.take(i as int).flatten(),
        decreases failures.len() - i,
    {
        text.append("\n");
        text.append(failures[i].as_str());
        proof {
            lines.take(i as int).lemma_flatten_push(lines[i as int]);
            assert(lines.take(i + 1) =~= lines.take(i as int).push(lines[i as int]));
        }
        i = i + 1;
    }
    assert(lines.take(failures.len() as int) =~= lines);
    Some(text)
}

/// What the `image` crate reports when it cannot encode.
#[verifier::external_type_specification]
#[verifier::external_body]
pub struct ExImageError(image::ImageError);

/// The Windows bitmap file that the `image` crate writes for an image of 8
/// bits per pixel with its palette, where it writes one.
pub uninterp spec fn bmp_file(img: Seq<u8>, palette: Seq<[u8; 3]>, width: u32, height: u32) -> Option<Seq<u8>>;

/// The PNG file that the `image` crate writes for an image of 3 bytes per
/// pixel, where it writes one.
pub uninterp spec fn png_file(rgb: Seq<u8>, width: u32, height: u32) -> Option<Seq<u8>>;

/// `BmpEncoder::encode_with_palette` of the `image` crate, writing to
/// memory, with one byte per pixel: the file it writes is a function of
/// the pixels, the palette, the width and the height, and so is whether it
/// writes one. It panics where the pixels are not `width * height`, which
/// the precondition leaves out.
#[verifier::external_body]
fn bmp_encode(img: &[u8], palette: &[[u8; 3]], width: u32, height: u32) -> (r: Result<
    Vec<u8>,
    image::ImageError,
>)
    requires
        img.len() == width * height,
    ensures
        match r {
            Ok(bytes) => bmp_file(img@, palette@, width, height) == Some(bytes@),
            Err(_) => bmp_file(img@, palette@, width, height) is None,
        },
{
    let mut buf: Vec<u8> = Vec::new();
    let mut encoder = image::codecs::bmp::BmpEncoder::new(&mut buf);
    encoder.encode_with_palette(img, width, height, image::ExtendedColorType::L8, Some(palette))?;
    Ok(buf)
}

/// `RgbImage::from_vec` and `write_to` of the `image` crate, writing a PNG
/// file to memory: the file it writes is a function of the pixels, the
/// width and the height, and so is whether it writes one. `from_vec` gives
/// no image where the pixels are fewer than `3 * width * height` bytes,
/// which the precondition leaves out.
#[verifier::external_body]
fn png_encode(rgb: Vec<u8>, width: u32, height: u32) -> (r: Result<Vec<u8>, image::ImageError>)
    requires
        3 * width * height <= rgb.len(),
    ensures
        match r {
            Ok(bytes) => png_file(rgb@, width, height) == Some(bytes@),
            Err(_) => png_file(rgb@, width, height) is None,
        },
{
    let image = image::RgbImage::from_vec(width, height, rgb).unwrap();
    let mut bytes: Vec<u8> = Vec::new();
    image.write_to(&mut std::io::Cursor::new(&mut bytes), image::ImageFormat::Png)?;
    Ok(bytes)
}

/// The `Display` text of an error of the `image` crate. Nothing is claimed
/// of it.
#[verifier::external_body]
fn describe(error: &image::ImageError) -> String {
    error.to_string()
}

/// The Windows bitmap file for an image of 8 bits per pixel with its
/// palette, or why there is none.
pub fn encode_8bpp_to_bitmap(img: &[u8], palette: &[[u8; 3]], dimension: (u32, u32)) -> (r:
    Result<Vec<u8>, String>)
    requires
        img.len() == dimension.0 * dimension.1,
    ensures
        match r {
            Ok(bytes) => bmp_file(img@, palette@, dimension.0, dimension.1) == Some(bytes@),
            Err(_) => bmp_file(img@, palette@, dimension.0, dimension.1) is None,
        },
{
    match bmp_encode(img, palette, dimension.0, dimension.1) {
        Ok(bytes) => Ok(bytes),
        Err(e) => Err(describe(&e)),
    }
}

/// The PNG file for an image of 8 bits per pixel with its palette: that of
/// the image of 3 bytes per pixel that the two stand for; or why there is
/// none.
pub fn eight_bpp_bitmap_to_png_bytes(img: &[u8], palette: &[[u8; 3]], dimension: (u32, u32)) -> (r:
    Result<Vec<u8>, String>)
    requires
        within(img@, palette@),
        dimension.0 * dimension.1 <= img.len(),
    ensures
        match r {
            Ok(bytes) => png_file(unfolded(img@, palette@), dimension.0, dimension.1) == Some(
                bytes@,
            ),
            Err(_) => png_file(unfolded(img@, palette@), dimension.0, dimension.1) is None,
        },
{
    let rgb = unfold_8bpp(img, palette);
    assert(3 * dimension.0 * dimension.1 <= rgb.len()) by (nonlinear_arith)
        requires
            dimension.0 * dimension.1 <= img.len(),
            rgb.len() == 3 * img.len(),
    ;
    match png_encode(rgb, dimension.0, dimension.1) {
        Ok(bytes) => Ok(bytes),
        Err(e) => Err(describe(&e)),
    }
}

} // verus!
