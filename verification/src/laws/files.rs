//! Laws of images, buffers and PNG files.

use vstd::arithmetic::div_mod::*;
use vstd::arithmetic::mul::*;
use vstd::arithmetic::power2::*;
use vstd::prelude::*;
use vstd::string::*;

use crate::binary;
use crate::encode;
use crate::encode::{
    blitz_image_encode_png, blitz_image_write_png, density, encoded, png_written, write_png,
    FileJob, FileReply, PngFailure, INCHES_PER_METRE,
};
use crate::image::{
    blitz_buffer_free, blitz_image_free, vec_into_buffer, BlitzBuffer, BlitzImage,
};
use crate::laws::{jobs, sizes};
use crate::scaling;
use crate::status::Failure;
use crate::text;

verus! {

/// Rounding moves a number by no more than half of its unit, and the unit of a number
/// below `2^85` is below `2^33`.
proof fn lemma_rounding_error(p: nat)
    requires
        p < 0x20_0000_0000_0000_0000_0000,
    ensures
        -0x1_0000_0000 <= binary::nearest(p) - p <= 0x1_0000_0000,
{
    let u = pow2(binary::excess_bits(p));
    scaling::lemma_excess_bounds(p);
    lemma2_to64();
    lemma_fundamental_div_mod(p as int, u as int);
    lemma_mod_bound(p as int, u as int);
    let a = p / u;
    if binary::excess_bits(p) > 0 {
        assert(u <= 0x2_0000_0000) by (nonlinear_arith)
            requires
                p == u * a + p % u,
                0 <= p % u,
                a >= 0x10_0000_0000_0000,
                p < 0x20_0000_0000_0000_0000_0000,
                u > 0,
        ;
    }
    let n = binary::nearest_even(p, u);
    assert(n * u == a * u || n * u == a * u + u) by (nonlinear_arith)
        requires
            n == a || n == a + 1,
    ;
    assert(a * u == u * a) by (nonlinear_arith);
    if n == a {
        assert(2 * (p % u) <= u);
    } else {
        assert(2 * (p % u) >= u);
        assert(n * u == a * u + u) by (nonlinear_arith)
            requires
                n == a + 1,
        ;
    }
}

/// The resolution in pixels per metre is the resolution in dots per inch times 39.3701,
/// without its fraction; where the product is whole it may be one less. Asking for none
/// is asking for 144.
pub proof fn law_density_is_dots_per_inch_in_metres(dpi: u32, ppm: u32)
    requires
        call_ensures(density, (dpi,), ppm),
    ensures
        ({
            let dots: int = if dpi == 0 {
                144
            } else {
                dpi as int
            };
            &&& ppm * 10_000 <= dots * 393_701
            &&& ppm < u32::MAX ==> dots * 393_701 <= (ppm + 1) * 10_000
        }),
{
    let dots: int = if dpi == 0 {
        144
    } else {
        dpi as int
    };
    let c = INCHES_PER_METRE as int;
    let p = (dots * c) as nat;
    assert(0 <= dots * c < 0x20_0000_0000_0000_0000_0000) by (nonlinear_arith)
        requires
            0 <= dots < 0x1_0000_0000,
            0 <= c < 0x20_0000_0000_0000,
    ;
    lemma_rounding_error(p);
    lemma2_to64();
    lemma2_to64_rest();
    assert(pow2(47) == 0x8000_0000_0000);
    let d: int = 0x8000_0000_0000;
    let n = binary::nearest(p) as int;
    lemma_fundamental_div_mod(n, d);
    lemma_mod_bound(n, d);
    let q = n / d;
    let slack = c * 10_000 - 393_701 * d;
    assert(-5_000 <= slack <= 5_000);
    assert(p * 10_000 == dots * 393_701 * d + dots * slack) by (nonlinear_arith)
        requires
            p == dots * c,
            slack == c * 10_000 - 393_701 * d,
    ;
    assert(-0x1_0000_0000 * 5_000 <= dots * slack <= 0x1_0000_0000 * 5_000) by (nonlinear_arith)
        requires
            0 <= dots < 0x1_0000_0000,
            -5_000 <= slack <= 5_000,
    ;
    assert(dots * 393_701 * d == (dots * 393_701) * d);
    assert(ppm <= q);
    assert(ppm < u32::MAX ==> ppm == q);
    if ppm * 10_000 >= dots * 393_701 + 1 {
        assert(false) by (nonlinear_arith)
            requires
                ppm * 10_000 >= dots * 393_701 + 1,
                ppm <= q,
                n == d * q + n % d,
                n % d >= 0,
                n * 10_000 <= (dots * 393_701) * d + 0x1_0000_0000 * 15_000,
                d == 0x8000_0000_0000,
        ;
    }
    if ppm < u32::MAX && dots * 393_701 >= (ppm + 1) * 10_000 + 1 {
        assert(false) by (nonlinear_arith)
            requires
                dots * 393_701 >= (ppm + 1) * 10_000 + 1,
                ppm == q,
                n == d * q + n % d,
                n % d < d,
                n * 10_000 >= (dots * 393_701) * d - 0x1_0000_0000 * 15_000,
                d == 0x8000_0000_0000,
        ;
    }
}

/// To the bit: the resolution times 39.3701 as a 64-bit float, rounded to 53 bits, without
/// its fraction, up to the largest `u32`.
pub proof fn law_density_is_a_rounded_product(dpi: u32, ppm: u32)
    requires
        call_ensures(density, (dpi,), ppm),
    ensures
        ({
            let dots: int = if dpi == 0 {
                144
            } else {
                dpi as int
            };
            sizes::is_floor(
                ppm,
                binary::nearest((dots * 5_540_848_990_298_099) as nat),
                -47,
            )
        }),
{
    let dots: int = if dpi == 0 {
        144
    } else {
        dpi as int
    };
    sizes::lemma_floor(binary::nearest((dots * INCHES_PER_METRE) as nat), -47);
}

/// Two resolutions that are the same in dots per inch are the same in pixels per metre,
/// and a finer one is never coarser in metres.
pub proof fn law_finer_stays_finer(a: u32, b: u32, ppm_a: u32, ppm_b: u32)
    requires
        0 < a <= b,
        call_ensures(density, (a,), ppm_a),
        call_ensures(density, (b,), ppm_b),
    ensures
        ppm_a <= ppm_b,
{
    let c = INCHES_PER_METRE as int;
    assert(a * c <= b * c) by (nonlinear_arith)
        requires
            a <= b,
            c > 0,
    ;
    scaling::law_nearest_is_monotonic((a * c) as nat, (b * c) as nat);
    lemma_pow2_pos(47);
    lemma_div_is_ordered(
        binary::nearest((a * c) as nat) as int,
        binary::nearest((b * c) as nat) as int,
        pow2(47) as int,
    );
}

/// An image is encoded as it is: its own pixels, width and height, at the resolution asked
/// for. It is refused exactly where it has no width or height, or its pixels do not fill
/// it.
pub proof fn law_images_are_encoded_as_they_are(
    img: &BlitzImage,
    dpi: u32,
    r: Result<Vec<u8>, Failure>,
    ppm: u32,
)
    requires
        call_ensures(write_png, (img, dpi), r),
        call_ensures(density, (dpi,), ppm),
    ensures
        img.data matches Some(pixels) && (r is Ok <==> img.width > 0 && img.height > 0
            && pixels@.len() == img.width * img.height * 4),
        r matches Ok(file) ==> file@ == encode::png_file(
            img.width,
            img.height,
            ppm,
            img.data->0@,
        ),
        r matches Err(f) ==> if img.width == 0 {
            jobs::says(f, -5, "png header: "@ + "Zero width not allowed"@)
        } else if img.height == 0 {
            jobs::says(f, -5, "png header: "@ + "Zero height not allowed"@)
        } else {
            jobs::says(
                f,
                -5,
                "png data: "@ + ("wrong data size, expected "@ + text::decimal(
                    (img.width * img.height * 4) as nat,
                ) + " got "@ + text::decimal(img.data->0@.len())),
            )
        },
{
}

/// The file announces what is in it: eight bits of red, green, blue and alpha, the image's
/// own width and height, and the resolution asked for.
pub proof fn law_files_announce_their_image(
    img: &BlitzImage,
    dpi: u32,
    file: Vec<u8>,
    ppm: u32,
)
    requires
        call_ensures(write_png, (img, dpi), Ok(file)),
        call_ensures(density, (dpi,), ppm),
    ensures
        file@.len() >= 54,
        file@.take(8) == seq![0x89u8, 0x50u8, 0x4Eu8, 0x47u8, 0x0Du8, 0x0Au8, 0x1Au8, 0x0Au8],
        file@[16] * 0x100_0000 + file@[17] * 0x1_0000 + file@[18] * 0x100 + file@[19] == img.width,
        file@[20] * 0x100_0000 + file@[21] * 0x1_0000 + file@[22] * 0x100 + file@[23] == img.height,
        file@[24] == 8 && file@[25] == 6,
        file@[41] * 0x100_0000 + file@[42] * 0x1_0000 + file@[43] * 0x100 + file@[44] == ppm,
        file@[45] * 0x100_0000 + file@[46] * 0x1_0000 + file@[47] * 0x100 + file@[48] == ppm,
        file@[49] == 1,
{
    let f = file@;
    assert(f.take(8) =~= f.subrange(0, 8));
    lemma_big_endian(f, 16, img.width);
    lemma_big_endian(f, 20, img.height);
    lemma_big_endian(f, 41, ppm);
    lemma_big_endian(f, 45, ppm);
    assert(f.subrange(24, 26)[0] == f[24]);
    assert(f.subrange(24, 26)[1] == f[25]);
}

/// Four bytes stand for the number that they were made of.
proof fn lemma_big_endian(f: Seq<u8>, i: int, n: u32)
    requires
        0 <= i,
        i + 4 <= f.len(),
        f.subrange(i, i + 4) == encode::big_endian(n),
    ensures
        f[i] * 0x100_0000 + f[i + 1] * 0x1_0000 + f[i + 2] * 0x100 + f[i + 3] == n,
{
    let b = f.subrange(i, i + 4);
    assert(b[0] == f[i]);
    assert(b[1] == f[i + 1]);
    assert(b[2] == f[i + 2]);
    assert(b[3] == f[i + 3]);
}

/// Encoding into a buffer fills it with the very file of the image, and leaves it alone
/// where the image is refused.
pub proof fn law_buffers_hold_the_file(
    image: &BlitzImage,
    dpi: u32,
    out: &mut BlitzBuffer,
    r: Result<(), Failure>,
    file: Result<Vec<u8>, Failure>,
)
    requires
        call_ensures(blitz_image_encode_png, (Some(image), dpi, Some(out)), r),
        image.data matches Some(d) && d@.len() > 0,
        call_ensures(write_png, (image, dpi), file),
    ensures
        r is Ok <==> file is Ok,
        file matches Ok(v) ==> (final(out).data matches Some(d) && d@ == v@),
        r matches Err(f) ==> *final(out) == *old(out) && jobs::says(
            f,
            file->Err_0.code as int,
            file->Err_0.message@,
        ),
{
}

/// A missing or empty image is refused and the buffer left alone; a missing buffer is
/// refused before all else.
pub proof fn law_encoding_needs_an_image_and_a_buffer(
    image: Option<&BlitzImage>,
    dpi: u32,
    out: &mut BlitzBuffer,
    r: Result<(), Failure>,
    without: Result<(), Failure>,
)
    requires
        call_ensures(blitz_image_encode_png, (image, dpi, Some(out)), r),
        call_ensures(blitz_image_encode_png, (image, dpi, None), without),
    ensures
        without matches Err(f) && jobs::says(f, -1, "out is NULL"@),
        image is None ==> (r matches Err(f) && jobs::says(f, -1, "image is NULL"@)),
        image matches Some(i) ==> (i.data is None || i.data->0@.len() == 0 ==> (r matches Err(f)
            && jobs::says(f, -1, "image is empty"@))),
        r is Err ==> *final(out) == *old(out),
{
}

/// The file to write is at the path that was given and holds the very file of the image;
/// image and path are refused in this order.
pub proof fn law_written_files_hold_the_image(
    image: Option<&BlitzImage>,
    path: Option<&[u8]>,
    dpi: u32,
    r: Result<FileJob<'_>, Failure>,
    file: Result<Vec<u8>, Failure>,
)
    requires
        call_ensures(blitz_image_write_png, (image, path, dpi), r),
        image matches Some(i) ==> (i.data matches Some(d) && d@.len() > 0 ==> call_ensures(
            write_png,
            (i, dpi),
            file,
        )),
    ensures
        r is Ok <==> (image matches Some(i) && i.data matches Some(d) && d@.len() > 0)
            && jobs::is_text(path),
        r matches Ok(job) ==> job.path@ == vstd::utf8::decode_utf8(path->0@),
        r matches Ok(job) ==> (job.contents is Ok <==> file is Ok) && (job.contents matches Ok(v)
            ==> v@ == file->Ok_0@) && (job.contents matches Err(f) ==> jobs::says(
            f,
            file->Err_0.code as int,
            file->Err_0.message@,
        )),
        r matches Err(f) ==> if image is None {
            jobs::says(f, -1, "image is NULL"@)
        } else if image->0.data is None || image->0.data->0@.len() == 0 {
            jobs::says(f, -1, "image is empty"@)
        } else if path is None {
            jobs::says(f, -1, "path"@ + " is NULL"@)
        } else {
            jobs::says(f, -2, "path"@ + " is not valid UTF-8"@)
        },
{
}

/// Writing succeeds exactly where the file was written and the image could be encoded;
/// otherwise the first thing that went wrong is reported.
pub proof fn law_writing_reports_what_went_wrong(
    job: FileJob<'_>,
    reply: FileReply,
    r: Result<(), Failure>,
)
    requires
        call_ensures(png_written, (job, reply), r),
    ensures
        r is Ok <==> reply is Written && job.contents is Ok,
        reply matches FileReply::CreateFailed(e) ==> (r matches Err(f) && jobs::says(
            f,
            -5,
            "create "@ + job.path@ + ": "@ + e@,
        )),
        !(reply is CreateFailed) && job.contents is Err ==> (r matches Err(f) && f
            == job.contents->Err_0),
        job.contents is Ok ==> (reply matches FileReply::DataFailed(e) ==> (r matches Err(f)
            && jobs::says(f, -5, "png data: "@ + e@))),
        job.contents is Ok ==> (reply matches FileReply::FinishFailed(e) ==> (r matches Err(f)
            && jobs::says(f, -5, "png finish: "@ + e@))),
{
}

/// What the encoder wrote is kept, and its errors are reported by their stage.
pub proof fn law_encoder_answers_are_kept(
    answer: Result<Vec<u8>, PngFailure>,
    r: Result<Vec<u8>, Failure>,
)
    requires
        call_ensures(encoded, (answer,), r),
    ensures
        answer matches Ok(file) ==> r == Ok::<Vec<u8>, Failure>(file),
        answer matches Err(PngFailure::Header(e)) ==> (r matches Err(f) && jobs::says(
            f,
            -5,
            "png header: "@ + e@,
        )),
        answer matches Err(PngFailure::Data(e)) ==> (r matches Err(f) && jobs::says(
            f,
            -5,
            "png data: "@ + e@,
        )),
        answer matches Err(PngFailure::Finish(e)) ==> (r matches Err(f) && jobs::says(
            f,
            -5,
            "png finish: "@ + e@,
        )),
{
}

/// A released image is zeroed in every field, whatever it held, and a released buffer
/// holds nothing.
pub proof fn law_released_means_zeroed(image: &mut BlitzImage, buffer: &mut BlitzBuffer)
    requires
        call_ensures(blitz_image_free, (Some(image),), ()),
        call_ensures(blitz_buffer_free, (Some(buffer),), ()),
    ensures
        final(image).data is None,
        final(image).width == 0 && final(image).height == 0 && final(image).stride == 0,
        final(buffer).data is None,
{
}

/// A fresh image is zeroed, its length is that of its bytes, and a buffer holds the vector
/// that it was made of.
pub proof fn law_images_and_buffers_hold_their_bytes(
    fresh: BlitzImage,
    image: &BlitzImage,
    n: usize,
    v: Vec<u8>,
    b: BlitzBuffer,
)
    requires
        call_ensures(BlitzImage::empty, (), fresh),
        call_ensures(BlitzImage::len, (image,), n),
        call_ensures(vec_into_buffer, (v,), b),
    ensures
        fresh.data is None && fresh.width == 0 && fresh.height == 0 && fresh.stride == 0,
        image.data is None ==> n == 0,
        image.data matches Some(d) ==> n == d@.len(),
        b.data == Some(v),
{
}

} // verus!
