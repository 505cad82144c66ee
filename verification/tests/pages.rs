use manga_epub::pages::{encode_for_screen, encode_image, page_layout, reencode_jpeg, ImageFailure, ImageStage, PageCrop};
use std::io::Cursor;

fn png(width: u32, height: u32) -> Vec<u8> {
    let img = image::RgbImage::from_fn(width, height, |x, y| image::Rgb([(x * 40) as u8, (y * 40) as u8, 128]));
    let mut out = Vec::new();
    image::DynamicImage::ImageRgb8(img).write_to(&mut Cursor::new(&mut out), image::ImageFormat::Png).unwrap();
    out
}

#[test]
fn layout_of_a_spread_puts_the_right_half_first() {
    let plan = page_layout(9, 4, true);
    assert_eq!(
        plan,
        vec![
            Some(PageCrop { x: 4, y: 0, width: 5, height: 4 }),
            Some(PageCrop { x: 0, y: 0, width: 4, height: 4 }),
        ]
    );
}

#[test]
fn layout_keeps_portrait_pages_and_unsplit_spreads_whole() {
    assert_eq!(page_layout(4, 9, true), vec![None]);
    assert_eq!(page_layout(4, 4, true), vec![None]);
    assert_eq!(page_layout(9, 4, false), vec![None]);
}

#[test]
fn spread_becomes_two_jpeg_halves() {
    let pages = encode_image(png(8, 4), 4, 4, true).unwrap();
    assert_eq!(pages.len(), 2);
    for p in &pages {
        assert_eq!((p.width, p.height), (4, 4));
        let decoded = image::load_from_memory(&p.data).unwrap();
        assert_eq!(image::guess_format(&p.data).unwrap(), image::ImageFormat::Jpeg);
        assert_eq!((decoded.width(), decoded.height()), (4, 4));
    }
}

#[test]
fn portrait_page_is_scaled_to_fit() {
    let pages = encode_image(png(4, 8), 2, 2, true).unwrap();
    assert_eq!(pages.len(), 1);
    assert_eq!((pages[0].width, pages[0].height), (1, 2));
    let decoded = image::load_from_memory(&pages[0].data).unwrap();
    assert_eq!((decoded.width(), decoded.height()), (1, 2));
}

#[test]
fn unsplit_spread_stays_whole() {
    let pages = encode_image(png(8, 4), 4, 4, false).unwrap();
    assert_eq!(pages.len(), 1);
    assert_eq!((pages[0].width, pages[0].height), (4, 2));
}

#[test]
fn undecodable_bytes_are_refused() {
    assert!(matches!(encode_image(b"not an image".to_vec(), 4, 4, true), Err(ImageFailure { stage: ImageStage::Decode, .. })));
    assert!(matches!(encode_image(Vec::new(), 4, 4, false), Err(ImageFailure { stage: ImageStage::Decode, .. })));
}

#[test]
fn screen_fit_turns_landscape_pages_sideways() {
    let landscape = encode_for_screen(png(8, 4), 2, 4).unwrap();
    assert_eq!((landscape.width, landscape.height), (4, 2));
    let portrait = encode_for_screen(png(4, 8), 2, 4).unwrap();
    assert_eq!((portrait.width, portrait.height), (2, 4));
    let decoded = image::load_from_memory(&portrait.data).unwrap();
    assert_eq!((decoded.width(), decoded.height()), (2, 4));
    assert!(matches!(encode_for_screen(vec![1, 2, 3], 2, 4), Err(ImageFailure { stage: ImageStage::Decode, .. })));
}

#[test]
fn reencoding_keeps_the_size_and_makes_jpeg() {
    let data = reencode_jpeg(&png(5, 3)).unwrap();
    assert_eq!(image::guess_format(&data).unwrap(), image::ImageFormat::Jpeg);
    let decoded = image::load_from_memory(&data).unwrap();
    assert_eq!((decoded.width(), decoded.height()), (5, 3));
    assert!(matches!(reencode_jpeg(b"nope"), Err(ImageFailure { stage: ImageStage::Decode, .. })));
}

#[test]
fn a_decoding_failure_carries_the_decoder_message() {
    let expected = image::load_from_memory(b"not an image").unwrap_err().to_string();
    let failure = match encode_image(b"not an image".to_vec(), 4, 4, true) {
        Ok(_) => panic!("undecodable bytes were encoded"),
        Err(failure) => failure,
    };
    assert_eq!(failure.stage, ImageStage::Decode);
    assert_eq!(failure.message, expected);
    assert!(!failure.message.is_empty());
    let failure = reencode_jpeg(b"not an image").unwrap_err();
    assert_eq!(failure.message, expected);
}

#[test]
fn an_encoding_failure_carries_the_encoder_message() {
    let source = png(70000, 1);
    let decoded = image::load_from_memory(&source).unwrap();
    let mut sink = Vec::new();
    let expected = decoded.write_to(&mut Cursor::new(&mut sink), image::ImageFormat::Jpeg).unwrap_err().to_string();
    let failure = reencode_jpeg(&source).unwrap_err();
    assert_eq!(failure.stage, ImageStage::Encode);
    assert_eq!(failure.message, expected);
}
