use blitz::encode::{blitz_image_encode_png, density, encoded, png_written, write_png};
use blitz::encode::{FileJob, FileReply, PngFailure};
use blitz::image::vec_into_buffer;
use blitz::{blitz_buffer_free, blitz_image_free, blitz_image_write_png, BlitzBuffer, BlitzImage};
use blitz::{BLITZ_ERR_INVALID_ARG, BLITZ_ERR_INVALID_UTF8, BLITZ_ERR_IO};

fn picture(width: u32, height: u32, data: Vec<u8>) -> BlitzImage {
    BlitzImage { data: Some(data), width, height, stride: width * 4 }
}

#[test]
fn freeing_an_image_twice_is_safe() {
    let mut image = BlitzImage::empty();
    blitz_image_free(Some(&mut image));
    blitz_image_free(Some(&mut image));
    assert!(image.data.is_none());
}

#[test]
fn freeing_releases_and_zeroes() {
    let mut image = picture(1, 1, vec![1, 2, 3, 4]);
    assert_eq!(image.len(), 4);
    blitz_image_free(Some(&mut image));
    assert!(image.data.is_none());
    assert_eq!((image.width, image.height, image.stride, image.len()), (0, 0, 0, 0));
    blitz_image_free(None);

    let mut buf = vec_into_buffer(vec![9, 8]);
    assert_eq!(buf.data, Some(vec![9, 8]));
    blitz_buffer_free(Some(&mut buf));
    assert!(buf.data.is_none());
    blitz_buffer_free(Some(&mut buf));
    assert!(buf.data.is_none());
    blitz_buffer_free(None);

    let image = BlitzImage::default();
    assert!(image.data.is_none() && image.width == 0 && image.height == 0 && image.stride == 0);
}

#[test]
fn density_matches_floating_point() {
    let float = |dpi: u32| {
        let dpi = if dpi == 0 { 144.0 } else { dpi as f64 };
        (dpi * 39.3701) as u32
    };
    assert_eq!(density(0), 5669);
    assert_eq!(density(144), 5669);
    assert_eq!(density(72), 2834);
    assert_eq!(density(1), 39);
    assert_eq!(density(u32::MAX), u32::MAX);
    assert_eq!(density(109_091_916), float(109_091_916));
    let mut x: u64 = 12345;
    for i in 0..200_000u32 {
        x = x.wrapping_mul(6364136223846793005).wrapping_add(1442695040888963407);
        let dpi = (x >> 33) as u32;
        assert_eq!(density(i), float(i));
        assert_eq!(density(dpi), float(dpi));
    }
}

#[test]
fn encodes_a_png() {
    let image = picture(2, 1, vec![255, 0, 0, 255, 0, 255, 0, 128]);
    let mut buf = BlitzBuffer { data: None };
    assert!(blitz_image_encode_png(Some(&image), 0, Some(&mut buf)).is_ok());
    let file = buf.data.unwrap();
    assert_eq!(file[..8], [0x89, b'P', b'N', b'G', 0x0D, 0x0A, 0x1A, 0x0A]);
    assert_eq!(file[8..16], [0, 0, 0, 13, b'I', b'H', b'D', b'R']);
    assert_eq!(file[16..26], [0, 0, 0, 2, 0, 0, 0, 1, 8, 6]);
    assert_eq!(file[33..41], [0, 0, 0, 9, b'p', b'H', b'Y', b's']);
    assert_eq!(file[41..50], [0, 0, 0x16, 0x25, 0, 0, 0x16, 0x25, 1]);

    let decoder = png::Decoder::new(std::io::Cursor::new(&file));
    let mut reader = decoder.read_info().unwrap();
    let mut pixels = vec![0; reader.output_buffer_size().unwrap()];
    let info = reader.next_frame(&mut pixels).unwrap();
    assert_eq!((info.width, info.height), (2, 1));
    assert_eq!(info.color_type, png::ColorType::Rgba);
    assert_eq!(pixels, vec![255, 0, 0, 255, 0, 255, 0, 128]);
    let dims = reader.info().pixel_dims.unwrap();
    assert_eq!((dims.xppu, dims.yppu), (5669, 5669));

    assert_eq!(write_png(&image, 144).unwrap(), file);
    assert_ne!(write_png(&image, 72).unwrap(), file);
}

#[test]
fn encoding_refuses_bad_images() {
    let refused = |image: Option<&BlitzImage>| {
        let mut buf = BlitzBuffer { data: Some(vec![1]) };
        let f = blitz_image_encode_png(image, 0, Some(&mut buf)).unwrap_err();
        assert_eq!(buf.data, Some(vec![1]));
        (f.code, f.message)
    };
    assert_eq!(refused(None), (BLITZ_ERR_INVALID_ARG, "image is NULL".to_string()));
    assert_eq!(
        refused(Some(&BlitzImage::empty())),
        (BLITZ_ERR_INVALID_ARG, "image is empty".to_string())
    );
    assert_eq!(
        refused(Some(&picture(1, 1, vec![]))),
        (BLITZ_ERR_INVALID_ARG, "image is empty".to_string())
    );
    assert_eq!(
        refused(Some(&picture(0, 3, vec![1]))),
        (BLITZ_ERR_IO, "png header: Zero width not allowed".to_string())
    );
    assert_eq!(
        refused(Some(&picture(3, 0, vec![1]))),
        (BLITZ_ERR_IO, "png header: Zero height not allowed".to_string())
    );
    assert_eq!(
        refused(Some(&picture(3, 2, vec![0; 25]))),
        (BLITZ_ERR_IO, "png data: wrong data size, expected 24 got 25".to_string())
    );
    let f = blitz_image_encode_png(None, 0, None).unwrap_err();
    assert_eq!((f.code, f.message.as_str()), (BLITZ_ERR_INVALID_ARG, "out is NULL"));
}

#[test]
fn encoder_answers_are_mapped() {
    assert_eq!(encoded(Ok(vec![1])).unwrap(), vec![1]);
    let text = |p: PngFailure| {
        let f = encoded(Err(p)).unwrap_err();
        assert_eq!(f.code, BLITZ_ERR_IO);
        f.message
    };
    assert_eq!(text(PngFailure::Header("h".into())), "png header: h");
    assert_eq!(text(PngFailure::Data("d".into())), "png data: d");
    assert_eq!(text(PngFailure::Finish("f".into())), "png finish: f");
}

#[test]
fn writing_checks_image_then_path() {
    let image = picture(1, 1, vec![0; 4]);
    let job = blitz_image_write_png(Some(&image), Some(b"a.png"), 0).ok().unwrap();
    assert_eq!(job.path, "a.png");
    assert_eq!(job.contents.unwrap(), write_png(&image, 144).unwrap());
    let refused = |image, path| {
        let f = blitz_image_write_png(image, path, 0).err().unwrap();
        (f.code, f.message)
    };
    assert_eq!(refused(None, None), (BLITZ_ERR_INVALID_ARG, "image is NULL".to_string()));
    assert_eq!(refused(Some(&image), None), (BLITZ_ERR_INVALID_ARG, "path is NULL".to_string()));
    assert_eq!(
        refused(Some(&image), Some(b"\xff.png")),
        (BLITZ_ERR_INVALID_UTF8, "path is not valid UTF-8".to_string())
    );
}

#[test]
fn written_files_are_reported() {
    let job = |contents| FileJob { path: "p", contents };
    assert!(png_written(job(Ok(vec![])), FileReply::Written).is_ok());
    let text = |r: FileReply| {
        let f = png_written(job(Ok(vec![])), r).unwrap_err();
        assert_eq!(f.code, BLITZ_ERR_IO);
        f.message
    };
    assert_eq!(text(FileReply::CreateFailed("no".into())), "create p: no");
    assert_eq!(text(FileReply::DataFailed("full".into())), "png data: full");
    assert_eq!(text(FileReply::FinishFailed("full".into())), "png finish: full");
}

#[test]
fn an_image_that_cannot_be_encoded_is_reported_after_the_file_was_created() {
    let short = picture(2, 2, vec![0; 4]);
    let job = || blitz_image_write_png(Some(&short), Some(b"p"), 0).ok().unwrap();
    let f = png_written(job(), FileReply::Written).unwrap_err();
    assert_eq!(
        (f.code, f.message.as_str()),
        (BLITZ_ERR_IO, "png data: wrong data size, expected 16 got 4")
    );
    let f = png_written(job(), FileReply::CreateFailed("no".into())).unwrap_err();
    assert_eq!((f.code, f.message.as_str()), (BLITZ_ERR_IO, "create p: no"));
}

#[test]
fn decoding_gives_the_pixels_back() {
    let mut x: u64 = 11;
    for (width, height) in [(1u32, 1u32), (1, 300), (300, 1), (17, 23), (256, 64)] {
        for flat in [true, false] {
            let data: Vec<u8> = (0..width * height * 4)
                .map(|i| {
                    x = x.wrapping_mul(6364136223846793005).wrapping_add(1442695040888963407);
                    if flat { (i % 4 * 60) as u8 } else { (x >> 40) as u8 }
                })
                .collect();
            let image = picture(width, height, data.clone());
            for dpi in [0, 1, 144, u32::MAX] {
                let file = write_png(&image, dpi).unwrap();
                let mut reader = png::Decoder::new(std::io::Cursor::new(&file)).read_info().unwrap();
                let mut pixels = vec![0; reader.output_buffer_size().unwrap()];
                let info = reader.next_frame(&mut pixels).unwrap();
                assert_eq!((info.width, info.height), (width, height));
                assert_eq!(info.color_type, png::ColorType::Rgba);
                assert_eq!(info.bit_depth, png::BitDepth::Eight);
                assert_eq!(pixels, data);
            }
            assert_eq!(write_png(&image, 0).unwrap(), write_png(&image, 144).unwrap());
            assert_eq!(image.data, Some(data));
        }
    }
}
