//! Cover art: picking the embedded picture of a track, the order in which
//! the decoders are tried on it, and bringing what was decoded to a square
//! thumbnail of fixed size.
//!
//! Colour conversion, cropping and resampling are done by the `zune-image`,
//! `zune-imageprocs` and `rimage` crates, on pictures that are held here as
//! plain bytes. What is decided here is which picture is taken, which
//! decoder is tried next, which region is cut out, to which size it is
//! scaled, and which pictures are refused.

use rimage::operations::resize::{FilterType, Resize, ResizeAlg};
use vstd::prelude::*;
use zune_core::colorspace::ColorSpace;
use zune_image::errors::ImageErrors;
use zune_image::image::Image;
use zune_image::traits::OperationsTrait;
use zune_imageprocs::crop::Crop;

verus! {

/// Side of the cover thumbnail, in pixels.
pub const COVER_SIDE: usize = 128;

/// Bytes of one pixel: red, green, blue.
pub const PIXEL_BYTES: usize = 3;

/// Bytes of a cover thumbnail.
pub const COVER_BYTES: usize = 49152;

/// The most channels that a picture has.
pub const MAX_CHANNELS: usize = 4;

/// How often the pixels of a picture must be countable: once for each
/// channel, and as much again, so that no buffer of samples takes more than
/// half of what can be addressed.
pub const HEADROOM: usize = 8;

/// The longest side that the image operations take.
pub const MAX_SIDE: usize = 4294967295;

/// Why a decoded picture was not brought to its final form.
#[derive(Copy, Clone, Debug, PartialEq, Eq, Structural)]
pub enum CoverError {
    /// The picture has no pixels, or its samples do not fill its width and
    /// height.
    Layout,
    /// A side of the picture, or of what it is to be scaled to, is longer
    /// than the image operations take, or the picture has more samples than
    /// can be addressed.
    TooLarge,
    /// An image operation failed on a picture that it should have taken.
    Operation,
}

/// Which kind of tag a file carries, as far as cover art is concerned.
#[derive(Copy, Clone, Debug, PartialEq, Eq, Structural)]
pub enum TagKind {
    Opus,
    Id3,
    Other,
}

/// The pictures that the tag of an audio file offers.
#[derive(Debug, PartialEq, Eq)]
pub struct TagArt {
    /// Whether the tag gives album information at all.
    pub has_album: bool,
    /// The front cover named by the album information.
    pub album_cover: Option<Vec<u8>>,
    pub kind: TagKind,
    /// The first picture of the tag, whatever it shows.
    pub first_picture: Option<Vec<u8>>,
}

/// The encoded picture that stands for a track: the album's front cover;
/// without one, the first picture of an Opus or ID3 tag. Nothing where the
/// tag could not be read, gives no album information, or has no such
/// picture.
pub open spec fn embedded_cover(tag: Option<TagArt>) -> Seq<u8> {
    match tag {
        Some(art) if art.has_album => match art.album_cover {
            Some(cover) => cover@,
            None => match (art.kind, art.first_picture) {
                (TagKind::Opus, Some(picture)) => picture@,
                (TagKind::Id3, Some(picture)) => picture@,
                _ => Seq::empty(),
            },
        },
        _ => Seq::empty(),
    }
}

/// Picks the encoded cover picture out of what a file's tag offers; `None`
/// stands for a tag that could not be read.
pub fn get_image(tag: Option<TagArt>) -> (cover: Vec<u8>)
    ensures
        cover@ == embedded_cover(tag),
{
    match tag {
        Some(art) => {
            if !art.has_album {
                return Vec::new();
            }
            match art.album_cover {
                Some(cover) => cover,
                None => match art.kind {
                    TagKind::Other => Vec::new(),
                    _ => match art.first_picture {
                        Some(picture) => picture,
                        None => Vec::new(),
                    },
                },
            }
        },
        None => Vec::new(),
    }
}

/// A square region of a picture: its side and its top left corner.
#[derive(Copy, Clone, Debug, PartialEq, Eq, Structural)]
pub struct CropRegion {
    pub size: usize,
    pub x: usize,
    pub y: usize,
}

/// The centred square of a picture of `width` by `height` pixels: its side
/// is the smaller of the two, and along the larger one it starts at half the
/// difference, rounded down.
pub open spec fn centered_square(width: usize, height: usize) -> CropRegion {
    if height < width {
        CropRegion { size: height, x: ((width - height) / 2) as usize, y: 0 }
    } else {
        CropRegion { size: width, x: 0, y: ((height - width) / 2) as usize }
    }
}

/// Computes the centred square of a picture of `width` by `height` pixels.
pub fn crop_region(width: usize, height: usize) -> (region: CropRegion)
    ensures
        region == centered_square(width, height),
{
    if height < width {
        CropRegion { size: height, x: (width - height) / 2, y: 0 }
    } else {
        CropRegion { size: width, x: 0, y: (height - width) / 2 }
    }
}

/// The centred square lies within the picture, and the margins on its two
/// sides differ by one pixel at most.
pub proof fn lemma_centered_square_fits(width: usize, height: usize)
    ensures
        ({
            let r = centered_square(width, height);
            &&& r.size <= width
            &&& r.size <= height
            &&& r.size == width || r.size == height
            &&& r.x + r.size <= width
            &&& r.y + r.size <= height
            &&& 0 <= (width - r.size - r.x) - r.x <= 1
            &&& 0 <= (height - r.size - r.y) - r.y <= 1
        }),
{
}

/// A decoder for embedded pictures.
#[derive(Copy, Clone, Debug, PartialEq, Eq, Structural)]
pub enum Codec {
    /// The general decoder, which knows many formats.
    Primary,
    /// The decoder for the one format that is tried where the general
    /// decoder fails.
    Fallback,
}

/// The decoder to try first on `raw`: the general one. Empty bytes hold no
/// picture, and no decoder is tried on them.
pub fn first_codec(raw: &[u8]) -> (codec: Option<Codec>)
    ensures
        codec == if raw@.len() == 0 {
            None
        } else {
            Some(Codec::Primary)
        },
{
    if raw.len() == 0 {
        None
    } else {
        Some(Codec::Primary)
    }
}

/// The decoder to try after `failed` could not read the picture: the
/// fallback after the general one, and none after the fallback, which
/// leaves the track without a cover.
pub fn next_codec(failed: Codec) -> (codec: Option<Codec>)
    ensures
        codec == match failed {
            Codec::Primary => Some(Codec::Fallback),
            Codec::Fallback => None,
        },
{
    match failed {
        Codec::Primary => Some(Codec::Fallback),
        Codec::Fallback => None,
    }
}

/// How the samples of a decoded picture make up its pixels.
#[derive(Copy, Clone, Debug, PartialEq, Eq, Structural)]
pub enum ColorModel {
    /// One sample of grey.
    Luma,
    /// Grey, then opacity.
    LumaA,
    /// Red, green, blue.
    Rgb,
    /// Red, green, blue, then opacity.
    Rgba,
}

impl ColorModel {
    /// The number of samples of a pixel.
    pub open spec fn channels(self) -> nat {
        match self {
            ColorModel::Luma => 1,
            ColorModel::LumaA => 2,
            ColorModel::Rgb => 3,
            ColorModel::Rgba => 4,
        }
    }

    /// Counts the samples of a pixel.
    pub fn channel_count(&self) -> (count: usize)
        ensures
            count == self.channels(),
    {
        match self {
            ColorModel::Luma => 1,
            ColorModel::LumaA => 2,
            ColorModel::Rgb => 3,
            ColorModel::Rgba => 4,
        }
    }
}

/// A picture as a decoder gave it: rows of pixels, each of the samples of
/// its colour model, one byte a sample.
#[derive(Debug, PartialEq, Eq)]
pub struct Decoded {
    pub width: usize,
    pub height: usize,
    pub color: ColorModel,
    pub samples: Vec<u8>,
}

/// The contents of a [`Decoded`].
pub struct DecodedView {
    pub width: usize,
    pub height: usize,
    pub color: ColorModel,
    pub samples: Seq<u8>,
}

impl View for Decoded {
    type V = DecodedView;

    open spec fn view(&self) -> DecodedView {
        DecodedView {
            width: self.width,
            height: self.height,
            color: self.color,
            samples: self.samples@,
        }
    }
}

/// A picture of red, green and blue bytes, in rows of pixels.
#[derive(Debug, PartialEq, Eq)]
pub struct Picture {
    pub width: usize,
    pub height: usize,
    pub pixels: Vec<u8>,
}

impl Picture {
    /// The pixels fill the width and the height.
    pub open spec fn wf(&self) -> bool {
        self.pixels@.len() == self.width * self.height * PIXEL_BYTES
    }
}

/// The red, green and blue bytes of `samples`: grey is taken for all three
/// colours, and opacity is dropped.
pub open spec fn rgb_samples(samples: Seq<u8>, color: ColorModel) -> Seq<u8> {
    Seq::new(
        (samples.len() / color.channels()) * 3,
        |i: int|
            match color {
                ColorModel::Luma => samples[i / 3],
                ColorModel::LumaA => samples[2 * (i / 3)],
                ColorModel::Rgb => samples[i],
                ColorModel::Rgba => samples[4 * (i / 3) + i % 3],
            },
    )
}

/// The pixels of the square `region` of a picture that is `width` pixels
/// wide, row by row.
pub open spec fn cropped(pixels: Seq<u8>, width: usize, region: CropRegion) -> Seq<u8> {
    Seq::new(
        (region.size * region.size * 3) as nat,
        |i: int|
            pixels[((region.y + (i / 3) / (region.size as int)) * width + region.x + (i / 3) % (
            region.size as int)) * 3 + i % 3],
    )
}

/// A picture of `width` by `height` pixels can be handed to the image
/// operations: no side is longer than they take, and its samples can be
/// counted with room to spare.
pub open spec fn fits(width: usize, height: usize) -> bool {
    &&& width <= MAX_SIDE
    &&& height <= MAX_SIDE
    &&& width * height * HEADROOM <= usize::MAX
}

#[verifier::external_type_specification]
#[verifier::external_body]
pub struct ExImageErrors(ImageErrors);

/// Converts a picture of `width` by `height` pixels to red, green and blue.
///
/// Trusted: `zune_image::image::Image::from_u8`, which takes samples that
/// fill the size as one frame of byte channels; `Image::convert_color` with
/// `ColorSpace::RGB`, which on such a frame repeats a grey channel and drops
/// an opacity channel and does not fail; and `Image::flatten_to_u8`, which
/// interleaves the channels of the frame again.
#[verifier::external_body]
fn to_rgb(
    samples: &[u8],
    width: usize,
    height: usize,
    color: ColorModel,
) -> (converted: Result<Vec<u8>, ImageErrors>)
    requires
        width >= 1,
        height >= 1,
        width * height * HEADROOM <= usize::MAX,
        samples@.len() == width * height * color.channels(),
    ensures
        converted.is_ok(),
        converted matches Ok(pixels) ==> pixels@ == rgb_samples(samples@, color),
{
    let space = match color {
        ColorModel::Luma => ColorSpace::Luma,
        ColorModel::LumaA => ColorSpace::LumaA,
        ColorModel::Rgb => ColorSpace::RGB,
        ColorModel::Rgba => ColorSpace::RGBA,
    };
    let mut image = Image::from_u8(samples, width, height, space);
    image.convert_color(ColorSpace::RGB)?;
    Ok(image.flatten_to_u8().swap_remove(0))
}

/// Cuts the square `region` out of a picture of red, green and blue bytes
/// that is `width` by `height` pixels.
///
/// Trusted: `Image::from_u8`; `zune_imageprocs::crop::Crop::execute`, which
/// copies the region's part of each row of each channel and, for a region
/// within a picture of byte channels, does not fail; and
/// `Image::flatten_to_u8`.
#[verifier::external_body]
fn crop(
    pixels: &[u8],
    width: usize,
    height: usize,
    region: CropRegion,
) -> (cut: Result<Vec<u8>, ImageErrors>)
    requires
        region.size >= 1,
        region.x + region.size <= width,
        region.y + region.size <= height,
        width * height * HEADROOM <= usize::MAX,
        pixels@.len() == width * height * PIXEL_BYTES,
    ensures
        cut.is_ok(),
        cut matches Ok(part) ==> part@ == cropped(pixels@, width, region),
{
    let mut image = Image::from_u8(pixels, width, height, ColorSpace::RGB);
    Crop::new(region.size, region.size, region.x, region.y).execute(&mut image)?;
    Ok(image.flatten_to_u8().swap_remove(0))
}

/// Scales a picture of red, green and blue bytes from `width` by `height`
/// pixels to `to_width` by `to_height` pixels, by convolution with a
/// Hamming filter.
///
/// Trusted: `Image::from_u8`; `rimage::operations::resize::Resize::execute`,
/// which resamples each channel to the new size, holds all four sides as
/// 32-bit numbers, works in a buffer of one size's width by the other's
/// height, copies the pixels where the size stays, and does not fail where
/// no side is zero; and `Image::flatten_to_u8`. Of pixels that were
/// resampled nothing is claimed but their number: the weights of the filter
/// come from the sine and cosine of the machine, which need not agree to
/// the last bit from one machine to the next.
#[verifier::external_body]
fn resize(
    pixels: &[u8],
    width: usize,
    height: usize,
    to_width: usize,
    to_height: usize,
) -> (scaled: Result<Vec<u8>, ImageErrors>)
    requires
        1 <= width <= MAX_SIDE,
        1 <= height <= MAX_SIDE,
        1 <= to_width <= MAX_SIDE,
        1 <= to_height <= MAX_SIDE,
        width * height * HEADROOM <= usize::MAX,
        to_width * to_height * HEADROOM <= usize::MAX,
        width * to_height * HEADROOM <= usize::MAX,
        to_width * height * HEADROOM <= usize::MAX,
        pixels@.len() == width * height * PIXEL_BYTES,
    ensures
        scaled.is_ok(),
        scaled matches Ok(out) ==> out@.len() == to_width * to_height * PIXEL_BYTES,
        scaled matches Ok(out) ==> (to_width == width && to_height == height ==> out@ == pixels@),
{
    let mut image = Image::from_u8(pixels, width, height, ColorSpace::RGB);
    Resize::new(to_width, to_height, ResizeAlg::Convolution(FilterType::Hamming)).execute(
        &mut image,
    )?;
    Ok(image.flatten_to_u8().swap_remove(0))
}

/// Tells whether a picture of `width` by `height` pixels can be handed to
/// the image operations.
pub fn addressable(width: usize, height: usize) -> (ok: bool)
    ensures
        ok == fits(width, height),
{
    if width > MAX_SIDE || height > MAX_SIDE {
        return false;
    }
    match width.checked_mul(height) {
        Some(area) => {
            assert(area == width * height);
            area.checked_mul(HEADROOM).is_some()
        },
        None => {
            assert(width * height * HEADROOM >= width * height) by (nonlinear_arith)
                requires
                    width * height >= 0,
            ;
            false
        },
    }
}

/// The red, green and blue bytes of the centred square of a decoded
/// picture.
pub open spec fn squared_pixels(decoded: DecodedView) -> Seq<u8> {
    let pixels = rgb_samples(decoded.samples, decoded.color);
    if decoded.width != decoded.height {
        cropped(pixels, decoded.width, centered_square(decoded.width, decoded.height))
    } else {
        pixels
    }
}

/// The side to scale to: the one asked for, or, where zero was asked for,
/// the side of the picture's centred square.
pub open spec fn target_side(requested: usize, decoded: DecodedView) -> usize {
    if requested == 0 {
        centered_square(decoded.width, decoded.height).size
    } else {
        requested
    }
}

/// What becomes of a decoded picture that is to be scaled to `width` by
/// `height` pixels, a zero standing for the side of its centred square: the
/// size that it gets, or why it is refused.
///
/// A picture without pixels, or whose samples do not fill its size, is
/// refused for its layout. One that is too large for the image operations,
/// or that is to be scaled to such a size, or whose square and target make
/// too large a picture between them, is refused as too large.
pub open spec fn squaring(
    decoded: DecodedView,
    width: usize,
    height: usize,
) -> Result<(usize, usize), CoverError> {
    if decoded.width == 0 || decoded.height == 0 {
        Err(CoverError::Layout)
    } else if !fits(decoded.width, decoded.height) {
        Err(CoverError::TooLarge)
    } else if decoded.samples.len() != decoded.width * decoded.height * decoded.color.channels() {
        Err(CoverError::Layout)
    } else if !fits(target_side(width, decoded), target_side(height, decoded)) || !fits(
        target_side(width, decoded),
        target_side(0, decoded),
    ) || !fits(target_side(0, decoded), target_side(height, decoded)) {
        Err(CoverError::TooLarge)
    } else {
        Ok((target_side(width, decoded), target_side(height, decoded)))
    }
}

/// Samples that fill a size make three bytes for each of its pixels.
proof fn lemma_rgb_len(samples: Seq<u8>, width: usize, height: usize, color: ColorModel)
    requires
        samples.len() == width * height * color.channels(),
    ensures
        rgb_samples(samples, color).len() == width * height * PIXEL_BYTES,
{
    let c = color.channels() as int;
    let area = width * height;
    assert((area * c) / c == area) by (nonlinear_arith)
        requires
            1 <= c <= 4,
            area >= 0,
    ;
}

/// What becomes of a decoded picture that is to be squared: the side of its
/// centred square, or why it is refused.
///
/// A picture without pixels, or whose samples do not fill its size, is
/// refused for its layout; one that is too large for the image operations
/// is refused as too large.
pub open spec fn square_side(decoded: DecodedView) -> Result<usize, CoverError> {
    if decoded.width == 0 || decoded.height == 0 {
        Err(CoverError::Layout)
    } else if !fits(decoded.width, decoded.height) {
        Err(CoverError::TooLarge)
    } else if decoded.samples.len() != decoded.width * decoded.height * decoded.color.channels() {
        Err(CoverError::Layout)
    } else {
        Ok(centered_square(decoded.width, decoded.height).size)
    }
}

/// Converts a decoded picture to red, green and blue and cuts out its
/// centred square, where it is not square already.
///
/// Whether the picture is taken is as [`square_side`] says; the pixels are
/// those of the square, byte for byte.
pub fn square_picture(decoded: Decoded) -> (square: Result<Picture, CoverError>)
    ensures
        match square_side(decoded@) {
            Ok(side) => {
                &&& square matches Ok(p)
                &&& p.width == side
                &&& p.height == side
                &&& p.pixels@ == squared_pixels(decoded@)
                &&& p.wf()
            },
            Err(e) => square == Err::<Picture, CoverError>(e),
        },
{
    let w = decoded.width;
    let h = decoded.height;
    if w == 0 || h == 0 {
        return Err(CoverError::Layout);
    }
    if !addressable(w, h) {
        return Err(CoverError::TooLarge);
    }
    let channels = decoded.color.channel_count();
    assert(w * h * channels <= w * h * HEADROOM) by (nonlinear_arith)
        requires
            w * h >= 0,
            channels <= HEADROOM,
    ;
    if decoded.samples.len() != w * h * channels {
        return Err(CoverError::Layout);
    }
    let region = crop_region(w, h);
    proof {
        lemma_centered_square_fits(w, h);
        lemma_rgb_len(decoded.samples@, w, h, decoded.color);
    }
    let pixels = match to_rgb(decoded.samples.as_slice(), w, h, decoded.color) {
        Ok(pixels) => pixels,
        Err(_) => {
            return Err(CoverError::Operation);
        },
    };
    if w != h {
        match crop(pixels.as_slice(), w, h, region) {
            Ok(pixels) => Ok(Picture { width: region.size, height: region.size, pixels }),
            Err(_) => Err(CoverError::Operation),
        }
    } else {
        Ok(Picture { width: w, height: h, pixels })
    }
}

/// What becomes of a picture of `width` by `height` pixels, held in `len`
/// bytes, that is to be scaled to `to_width` by `to_height` pixels.
///
/// A picture without pixels, whose bytes do not fill its size, or that is
/// to be scaled to no pixels, is refused for its layout. One that is too
/// large for the image operations, or that is to be scaled to such a size,
/// or that makes too large a picture together with its target, is refused
/// as too large.
pub open spec fn scaling(
    width: usize,
    height: usize,
    len: nat,
    to_width: usize,
    to_height: usize,
) -> Result<(), CoverError> {
    if width == 0 || height == 0 || to_width == 0 || to_height == 0 {
        Err(CoverError::Layout)
    } else if !fits(width, height) {
        Err(CoverError::TooLarge)
    } else if len != width * height * PIXEL_BYTES {
        Err(CoverError::Layout)
    } else if !fits(to_width, to_height) || !fits(to_width, height) || !fits(width, to_height) {
        Err(CoverError::TooLarge)
    } else {
        Ok(())
    }
}

/// Scales a picture to `to_width` by `to_height` pixels, by convolution
/// with a Hamming filter.
///
/// Whether the picture is taken is as [`scaling`] says. What comes out has
/// the size asked for. Its pixels are what the resampling of this machine
/// gives for the picture handed in; where the size stays they are that
/// picture's own.
pub fn scale_picture(
    picture: Picture,
    to_width: usize,
    to_height: usize,
) -> (scaled: Result<Picture, CoverError>)
    ensures
        match scaling(picture.width, picture.height, picture.pixels@.len(), to_width, to_height) {
            Ok(()) => {
                &&& scaled matches Ok(p)
                &&& p.width == to_width
                &&& p.height == to_height
                &&& p.wf()
                &&& to_width == picture.width && to_height == picture.height ==> p.pixels@
                    == picture.pixels@
            },
            Err(e) => scaled == Err::<Picture, CoverError>(e),
        },
{
    let w = picture.width;
    let h = picture.height;
    if w == 0 || h == 0 || to_width == 0 || to_height == 0 {
        return Err(CoverError::Layout);
    }
    if !addressable(w, h) {
        return Err(CoverError::TooLarge);
    }
    assert(w * h * PIXEL_BYTES <= w * h * HEADROOM) by (nonlinear_arith)
        requires
            w * h >= 0,
            PIXEL_BYTES <= HEADROOM,
    ;
    if picture.pixels.len() != w * h * PIXEL_BYTES {
        return Err(CoverError::Layout);
    }
    if !addressable(to_width, to_height) || !addressable(to_width, h) || !addressable(
        w,
        to_height,
    ) {
        return Err(CoverError::TooLarge);
    }
    match resize(picture.pixels.as_slice(), w, h, to_width, to_height) {
        Ok(pixels) => Ok(Picture { width: to_width, height: to_height, pixels }),
        Err(_) => Err(CoverError::Operation),
    }
}

/// Converts a decoded picture to red, green and blue, cuts out its centred
/// square where it is not square, and scales it to `width` by `height`
/// pixels; a zero stands for the side of the square.
///
/// Whether the picture is taken, and the size that it gets, are as
/// [`squaring`] says. The square is cut as [`square_picture`] says, and it
/// is that square which is scaled, as [`scale_picture`] says: where the
/// size asked for is the square's own, the pixels are those of the square.
pub fn get_image_squared(
    decoded: Decoded,
    width: usize,
    height: usize,
) -> (squared: Result<Picture, CoverError>)
    ensures
        match squaring(decoded@, width, height) {
            Ok((to_width, to_height)) => {
                &&& squared matches Ok(p)
                &&& p.width == to_width
                &&& p.height == to_height
                &&& p.wf()
                &&& to_width == target_side(0, decoded@) && to_height == target_side(0, decoded@)
                    ==> p.pixels@ == squared_pixels(decoded@)
            },
            Err(e) => squared == Err::<Picture, CoverError>(e),
        },
{
    let ghost side = centered_square(decoded.width, decoded.height).size;
    proof {
        lemma_centered_square_fits(decoded.width, decoded.height);
        if decoded.width >= 1 && decoded.height >= 1 {
            assert(side * side * HEADROOM <= decoded.width * decoded.height * HEADROOM)
                by (nonlinear_arith)
                requires
                    side <= decoded.width,
                    side <= decoded.height,
                    side >= 0,
            ;
        }
    }
    let square = match square_picture(decoded) {
        Ok(square) => square,
        Err(e) => {
            return Err(e);
        },
    };
    let to_width = if width == 0 {
        square.width
    } else {
        width
    };
    let to_height = if height == 0 {
        square.height
    } else {
        height
    };
    scale_picture(square, to_width, to_height)
}

/// The length of the cover that a track gets, or why its picture is
/// refused: no bytes where there is no decoded picture, else those of the
/// thumbnail, where [`squaring`] takes the picture.
pub open spec fn cover_len(decoded: Option<Decoded>) -> Result<nat, CoverError> {
    match decoded {
        None => Ok(0),
        Some(d) => match squaring(d@, COVER_SIDE, COVER_SIDE) {
            Ok(_) => Ok(COVER_BYTES as nat),
            Err(e) => Err(e),
        },
    }
}

/// There is nothing to scale: no picture was decoded, or the side of its
/// centred square is that of the thumbnail.
pub open spec fn needs_no_scaling(decoded: Option<Decoded>) -> bool {
    match decoded {
        None => true,
        Some(d) => centered_square(d.width, d.height).size == COVER_SIDE,
    }
}

/// The bytes of the cover of a track whose picture needs no scaling: none
/// where there is no decoded picture, else those of its centred square.
pub open spec fn cover_pixels(decoded: Option<Decoded>) -> Seq<u8> {
    match decoded {
        None => Seq::empty(),
        Some(d) => squared_pixels(d@),
    }
}

/// Brings a decoded cover to the thumbnail that is cached and shown:
/// `COVER_SIDE` pixels square, red, green and blue. `decoded` is none where
/// the track has no picture or no decoder reads it; the cover is empty then.
/// A picture whose square has the thumbnail's size already gives that
/// square, byte for byte; every other square is scaled.
pub fn normalize_cover(decoded: Option<Decoded>) -> (cover: Result<Vec<u8>, CoverError>)
    ensures
        match cover_len(decoded) {
            Ok(len) => cover matches Ok(pixels) && pixels@.len() == len,
            Err(e) => cover == Err::<Vec<u8>, CoverError>(e),
        },
        cover matches Ok(pixels) ==> (needs_no_scaling(decoded) ==> pixels@ == cover_pixels(
            decoded,
        )),
{
    match decoded {
        None => Ok(Vec::new()),
        Some(d) => match get_image_squared(d, COVER_SIDE, COVER_SIDE) {
            Ok(picture) => {
                assert(picture.width == COVER_SIDE && picture.height == COVER_SIDE);
                assert(picture.width * picture.height * PIXEL_BYTES == COVER_BYTES);
                Ok(picture.pixels)
            },
            Err(e) => Err(e),
        },
    }
}

} // verus!
