//! PNG files of rendered images.

use vstd::prelude::*;
use vstd::string::*;

use crate::arguments;
use crate::binary;
use crate::image;
use crate::image::{vec_into_buffer, BlitzBuffer, BlitzImage};
use crate::status::{Failure, BLITZ_ERR_INVALID_ARG, BLITZ_ERR_IO};
use crate::text;

verus! {

/// 39.3701, the inches in a metre, as the nearest 64-bit binary float: this number
/// times `2^-47`.
pub const INCHES_PER_METRE: u64 = 5_540_848_990_298_099;

/// The resolution of a file in dots per inch: 144 where none is asked for.
pub open spec fn effective_dpi(dpi: u32) -> u32 {
    if dpi == 0 {
        144
    } else {
        dpi
    }
}

/// The resolution of a file in whole pixels per metre.
pub open spec fn pixels_per_metre(dpi: u32) -> u32 {
    binary::truncated((effective_dpi(dpi) * INCHES_PER_METRE) as nat, -47) as u32
}

/// The resolution of a file in whole pixels per metre.
pub fn density(dpi: u32) -> (ppm: u32)
    ensures
        ppm == pixels_per_metre(dpi),
{
    let dots: u32 = if dpi == 0 {
        144
    } else {
        dpi
    };
    binary::truncate_product(dots, INCHES_PER_METRE, -47)
}

/// The four bytes of a number, highest first.
pub open spec fn big_endian(n: u32) -> Seq<u8> {
    seq![
        (n / 0x100_0000) as u8,
        ((n / 0x1_0000) % 0x100) as u8,
        ((n / 0x100) % 0x100) as u8,
        (n % 0x100) as u8,
    ]
}

/// The first bytes of every PNG file.
pub open spec fn png_signature() -> Seq<u8> {
    seq![0x89u8, 0x50u8, 0x4Eu8, 0x47u8, 0x0Du8, 0x0Au8, 0x1Au8, 0x0Au8]
}

/// The file starts as a PNG of 8-bit RGBA pixels with this size and, in pixels per
/// metre, this resolution.
pub open spec fn png_announces(file: Seq<u8>, width: u32, height: u32, ppm: u32) -> bool {
    &&& file.len() >= 54
    &&& file.subrange(0, 8) == png_signature()
    &&& file.subrange(8, 16) == seq![0u8, 0u8, 0u8, 13u8, 0x49u8, 0x48u8, 0x44u8, 0x52u8]
    &&& file.subrange(16, 20) == big_endian(width)
    &&& file.subrange(20, 24) == big_endian(height)
    &&& file.subrange(24, 26) == seq![8u8, 6u8]
    &&& file.subrange(33, 41) == seq![0u8, 0u8, 0u8, 9u8, 0x70u8, 0x48u8, 0x59u8, 0x73u8]
    &&& file.subrange(41, 45) == big_endian(ppm)
    &&& file.subrange(45, 49) == big_endian(ppm)
    &&& file[49] == 1
}

/// The PNG file that the `png` crate writes for 8-bit RGBA pixels.
pub uninterp spec fn png_file(width: u32, height: u32, ppm: u32, pixels: Seq<u8>) -> Seq<u8>;

/// At which stage the encoder gave up, and its error text.
pub enum PngFailure {
    Header(String),
    Data(String),
    Finish(String),
}

/// What the encoder says of pixels that do not fill the picture.
pub open spec fn wrong_size_message(expected: nat, got: nat) -> Seq<char> {
    "wrong data size, expected "@ + text::decimal(expected) + " got "@ + text::decimal(got)
}

/// `png::Encoder` writing 8-bit RGBA pixels into a vector: `write_header`,
/// `write_image_data` and `finish`. A picture needs a width, a height and exactly
/// four bytes for each pixel, and then a vector takes everything that is written.
/// The header and the resolution come first; the rest of the file is what the crate
/// makes of its arguments.
#[verifier::external_body]
fn encode_rgba(width: u32, height: u32, ppm: u32, pixels: &[u8]) -> (r: Result<Vec<u8>, PngFailure>)
    requires
        image::pixel_bytes(width as nat, height as nat) <= usize::MAX,
    ensures
        match r {
            Ok(file) => {
                &&& width > 0 && height > 0
                &&& pixels@.len() == image::pixel_bytes(width as nat, height as nat)
                &&& file@ == png_file(width, height, ppm, pixels@)
                &&& png_announces(file@, width, height, ppm)
            },
            Err(PngFailure::Header(e)) => {
                ||| width == 0 && e@ == "Zero width not allowed"@
                ||| width > 0 && height == 0 && e@ == "Zero height not allowed"@
            },
            Err(PngFailure::Data(e)) => {
                let expected = image::pixel_bytes(width as nat, height as nat);
                &&& width > 0 && height > 0
                &&& pixels@.len() != expected
                &&& e@ == wrong_size_message(expected, pixels@.len())
            },
            Err(PngFailure::Finish(_)) => false,
        },
{
    let mut file = Vec::new();
    let mut encoder = png::Encoder::new(&mut file, width, height);
    encoder.set_color(png::ColorType::Rgba);
    encoder.set_depth(png::BitDepth::Eight);
    let unit = png::Unit::Meter;
    encoder.set_pixel_dims(Some(png::PixelDimensions { xppu: ppm, yppu: ppm, unit }));
    let mut writer = encoder.write_header().map_err(|e| PngFailure::Header(e.to_string()))?;
    writer.write_image_data(pixels).map_err(|e| PngFailure::Data(e.to_string()))?;
    writer.finish().map_err(|e| PngFailure::Finish(e.to_string()))?;
    Ok(file)
}

/// The PNG file of an image, or why there is none.
pub open spec fn png_of(data: Seq<u8>, width: u32, height: u32, dpi: u32) -> Result<
    Seq<u8>,
    (i32, Seq<char>),
> {
    let expected = image::pixel_bytes(width as nat, height as nat);
    if width == 0 {
        Err((BLITZ_ERR_IO, "png header: "@ + "Zero width not allowed"@))
    } else if height == 0 {
        Err((BLITZ_ERR_IO, "png header: "@ + "Zero height not allowed"@))
    } else if data.len() != expected {
        Err((BLITZ_ERR_IO, "png data: "@ + wrong_size_message(expected, data.len())))
    } else {
        Ok(png_file(width, height, pixels_per_metre(dpi), data))
    }
}

/// How many bytes the pixels of the image should take fits the address space.
pub open spec fn size_fits(img: &BlitzImage) -> bool {
    image::pixel_bytes(img.width as nat, img.height as nat) <= usize::MAX
}

/// What the encoder's answer comes to.
pub fn encoded(answer: Result<Vec<u8>, PngFailure>) -> (r: Result<Vec<u8>, Failure>)
    ensures
        match (answer, r) {
            (Ok(a), Ok(file)) => a == file,
            (Err(PngFailure::Header(e)), Err(f)) => f@ == (BLITZ_ERR_IO, "png header: "@ + e@),
            (Err(PngFailure::Data(e)), Err(f)) => f@ == (BLITZ_ERR_IO, "png data: "@ + e@),
            (Err(PngFailure::Finish(e)), Err(f)) => f@ == (BLITZ_ERR_IO, "png finish: "@ + e@),
            _ => false,
        },
{
    match answer {
        Ok(file) => Ok(file),
        Err(PngFailure::Header(e)) => Err(
            Failure::of_two(BLITZ_ERR_IO, "png header: ", e.as_str()),
        ),
        Err(PngFailure::Data(e)) => Err(Failure::of_two(BLITZ_ERR_IO, "png data: ", e.as_str())),
        Err(PngFailure::Finish(e)) => Err(
            Failure::of_two(BLITZ_ERR_IO, "png finish: ", e.as_str()),
        ),
    }
}

/// Encodes an image that holds bytes.
pub fn write_png(img: &BlitzImage, dpi: u32) -> (r: Result<Vec<u8>, Failure>)
    requires
        arguments::image_refusal(Some(img)) is None,
        size_fits(img),
    ensures
        img@.data matches Some(data) && match r {
            Ok(file) => {
                &&& png_of(data, img.width, img.height, dpi) == Ok::<_, (i32, Seq<char>)>(file@)
                &&& png_announces(file@, img.width, img.height, pixels_per_metre(dpi))
            },
            Err(f) => png_of(data, img.width, img.height, dpi) == Err::<
                Seq<u8>,
                (i32, Seq<char>),
            >(f@),
        },
{
    let ppm = density(dpi);
    match &img.data {
        Some(data) => encoded(encode_rgba(img.width, img.height, ppm, data.as_slice())),
        None => {
            assert(false);
            Err(Failure::new(BLITZ_ERR_INVALID_ARG, "image is empty"))
        },
    }
}

/// What encoding an image argument comes to: the file, or why there is none.
pub open spec fn encode_result(has_out: bool, image: Option<&BlitzImage>, dpi: u32) -> Result<
    Seq<u8>,
    (i32, Seq<char>),
> {
    if !has_out {
        Err((BLITZ_ERR_INVALID_ARG, "out is NULL"@))
    } else {
        match arguments::image_refusal(image) {
            Some(f) => Err(f),
            None => match image {
                Some(i) => png_of(i@.data->0, i.width, i.height, dpi),
                None => Err((BLITZ_ERR_INVALID_ARG, "image is NULL"@)),
            },
        }
    }
}

/// Encodes an image as PNG into a fresh buffer. A `dpi` of 0 means 144. The buffer
/// is untouched on failure.
pub fn blitz_image_encode_png(
    image: Option<&BlitzImage>,
    dpi: u32,
    out: Option<&mut BlitzBuffer>,
) -> (r: Result<(), Failure>)
    requires
        out is Some && arguments::image_refusal(image) is None ==> size_fits(image->0),
    ensures
        match r {
            Ok(()) => out matches Some(o) && encode_result(true, image, dpi) == Ok::<
                _,
                (i32, Seq<char>),
            >(final(o)@->0) && final(o)@ is Some,
            Err(f) => {
                &&& encode_result(out is Some, image, dpi) == Err::<Seq<u8>, (i32, Seq<char>)>(f@)
                &&& out matches Some(o) ==> *final(o) == *o
            },
        },
{
    match out {
        None => Err(Failure::new(BLITZ_ERR_INVALID_ARG, "out is NULL")),
        Some(o) => {
            let img = match arguments::require_image(image) {
                Ok(i) => i,
                Err(f) => {
                    return Err(f);
                },
            };
            match write_png(img, dpi) {
                Ok(file) => {
                    *o = vec_into_buffer(file);
                    Ok(())
                },
                Err(f) => Err(f),
            }
        },
    }
}

/// What writing an image to a path starts with: the path, or why there is nothing
/// to write.
pub open spec fn write_target(image: Option<&BlitzImage>, path: Option<Seq<u8>>) -> Result<
    Seq<char>,
    (i32, Seq<char>),
> {
    match arguments::image_refusal(image) {
        Some(f) => Err(f),
        None => arguments::cstr_result(path, "path"@),
    }
}

/// A PNG file to write.
pub struct FileJob<'a> {
    /// The path of the file to create.
    pub path: &'a str,
    /// What the file holds, or why the image cannot be encoded. The file is created
    /// either way.
    pub contents: Result<Vec<u8>, Failure>,
}

/// Encodes an image as PNG for the file with the given path. A `dpi` of 0 means 144.
pub fn blitz_image_write_png<'a>(
    image: Option<&BlitzImage>,
    path: Option<&'a [u8]>,
    dpi: u32,
) -> (r: Result<FileJob<'a>, Failure>)
    requires
        write_target(image, arguments::slice_of(path)) is Ok ==> size_fits(image->0),
    ensures
        match r {
            Ok(job) => {
                &&& write_target(image, arguments::slice_of(path)) == Ok::<_, (i32, Seq<char>)>(
                    job.path@,
                )
                &&& match job.contents {
                    Ok(file) => encode_result(true, image, dpi) == Ok::<_, (i32, Seq<char>)>(file@),
                    Err(f) => encode_result(true, image, dpi) == Err::<
                        Seq<u8>,
                        (i32, Seq<char>),
                    >(f@),
                }
            },
            Err(f) => write_target(image, arguments::slice_of(path)) == Err::<
                Seq<char>,
                (i32, Seq<char>),
            >(f@),
        },
{
    let img = match arguments::require_image(image) {
        Ok(i) => i,
        Err(f) => {
            return Err(f);
        },
    };
    let path = match arguments::cstr(path, "path") {
        Ok(p) => p,
        Err(f) => {
            return Err(f);
        },
    };
    Ok(FileJob { path, contents: write_png(img, dpi) })
}

/// What came of writing the file.
pub enum FileReply {
    CreateFailed(String),
    DataFailed(String),
    FinishFailed(String),
    Written,
}

/// Turns what came of writing the file into the result of the call: a file that could
/// not be created comes first, then an image that could not be encoded.
pub fn png_written(job: FileJob<'_>, reply: FileReply) -> (r: Result<(), Failure>)
    ensures
        match (reply, job.contents, r) {
            (FileReply::CreateFailed(e), _, Err(f)) => f@ == (
                BLITZ_ERR_IO,
                "create "@ + job.path@ + ": "@ + e@,
            ),
            (FileReply::CreateFailed(_), _, Ok(())) => false,
            (_, Err(g), Err(f)) => f == g,
            (_, Err(_), Ok(())) => false,
            (FileReply::Written, Ok(_), Ok(())) => true,
            (FileReply::DataFailed(e), Ok(_), Err(f)) => f@ == (BLITZ_ERR_IO, "png data: "@ + e@),
            (FileReply::FinishFailed(e), Ok(_), Err(f)) => f@ == (
                BLITZ_ERR_IO,
                "png finish: "@ + e@,
            ),
            _ => false,
        },
{
    match reply {
        FileReply::CreateFailed(e) => {
            return Err(Failure::of_cause(BLITZ_ERR_IO, "create ", job.path, e.as_str()));
        },
        _ => {},
    }
    match job.contents {
        Err(f) => Err(f),
        Ok(_) => match reply {
            FileReply::DataFailed(e) => Err(
                Failure::of_two(BLITZ_ERR_IO, "png data: ", e.as_str()),
            ),
            FileReply::FinishFailed(e) => Err(
                Failure::of_two(BLITZ_ERR_IO, "png finish: ", e.as_str()),
            ),
            _ => Ok(()),
        },
    }
}

/// An image with at least one pixel, whose buffer is exactly as long as its pixels are,
/// can be encoded, whatever the resolution asked for.
pub proof fn law_full_images_encode(img: &BlitzImage, dpi: u32)
    requires
        img.width >= 1,
        img.height >= 1,
        img@.data matches Some(d) && d.len() == image::pixel_bytes(
            img.width as nat,
            img.height as nat,
        ),
    ensures
        encode_result(true, Some(img), dpi) == Ok::<_, (i32, Seq<char>)>(
            png_file(img.width, img.height, pixels_per_metre(dpi), img@.data->0),
        ),
{
    assert(img.width * img.height >= 1) by (nonlinear_arith)
        requires
            img.width >= 1,
            img.height >= 1,
    ;
}

/// A resolution of 0 means 144 dots per inch.
pub proof fn law_default_dpi(has_out: bool, image: Option<&BlitzImage>)
    ensures
        encode_result(has_out, image, 0) == encode_result(has_out, image, 144),
{
}

} // verus!
