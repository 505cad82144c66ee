//! Turning a downloaded page image into the JPEG pages of a book.
//!
//! A page is decoded, optionally cut in two when it is a double-page spread
//! (wider than tall), scaled down to fit the reader's screen and encoded as
//! JPEG. Manga read right to left, so the right half of a spread comes first.

use vstd::prelude::*;

verus! {

#[verifier::external_type_specification]
#[verifier::external_body]
pub struct ExDynamicImage(image::DynamicImage);

/// The width and height of the image that `image::load_from_memory` decodes
/// from `source`, or, where it fails, the text that its `ImageError` displays.
pub uninterp spec fn decoded_size(source: Seq<u8>) -> Result<(u32, u32), Seq<char>>;

/// The size of the image that `DynamicImage::thumbnail` makes of an image of
/// `width` by `height` pixels, given the bounding box `max_width` by `max_height`.
pub uninterp spec fn thumbnail_size(width: u32, height: u32, max_width: u32, max_height: u32) -> (u32, u32);

/// The size of the image that `DynamicImage::resize` makes of an image of
/// `width` by `height` pixels, given the bounding box `max_width` by `max_height`.
pub uninterp spec fn resized_size(width: u32, height: u32, max_width: u32, max_height: u32) -> (u32, u32);

/// The bytes that `DynamicImage::write_to` in JPEG format produces for the
/// image decoded from `source`, cut out by `crop` (x, y, width, height) if any
/// and then scaled into `bound` (width, height, smooth) if any, where `smooth`
/// tells `resize` with the triangle filter from `thumbnail`; where the encoder
/// fails, the text that its `ImageError` displays.
pub uninterp spec fn jpeg_encoding(
    source: Seq<u8>,
    crop: Option<(u32, u32, u32, u32)>,
    bound: Option<(u32, u32, bool)>,
) -> Result<Seq<u8>, Seq<char>>;

/// A decoded image, with what it was made from: the source bytes, the
/// cut-out taken of it if any, and the bounding box it was scaled into if any
/// (with `true` where it was resized with the triangle filter, `false` where
/// it was thumbnailed).
pub struct Picture {
    image: image::DynamicImage,
    width: u32,
    height: u32,
    recipe: Ghost<(Seq<u8>, Option<(u32, u32, u32, u32)>, Option<(u32, u32, bool)>)>,
}

impl Picture {
    /// The width and height of the image.
    pub closed spec fn size(&self) -> (u32, u32) {
        (self.width, self.height)
    }

    /// The bytes the image was decoded from.
    pub closed spec fn source(&self) -> Seq<u8> {
        self.recipe@.0
    }

    /// The cut-out taken of the decoded image, if any.
    pub closed spec fn crop(&self) -> Option<(u32, u32, u32, u32)> {
        self.recipe@.1
    }

    /// The bounding box the image was scaled into, and how, if it was.
    pub closed spec fn bound(&self) -> Option<(u32, u32, bool)> {
        self.recipe@.2
    }
}

/// Decodes an image with `image::load_from_memory`, which guesses the format
/// from the bytes, and turns a failure into the text its `ImageError`
/// displays. Claims that success, the size of the result and the text of a
/// failure are those that `decoded_size` names for the bytes.
#[verifier::external_body]
fn decode_picture(bytes: &[u8]) -> (res: Result<Picture, String>)
    ensures
        match res {
            Ok(p) => {
                &&& decoded_size(bytes@) == Ok::<(u32, u32), Seq<char>>(p.size())
                &&& p.source() == bytes@
                &&& p.crop() is None
                &&& p.bound() is None
            },
            Err(message) => decoded_size(bytes@) == Err::<(u32, u32), Seq<char>>(message@),
        },
{
    match image::load_from_memory(bytes) {
        Ok(image) => Ok(Picture {
            width: image.width(),
            height: image.height(),
            image,
            recipe: Ghost((bytes@, None, None)),
        }),
        Err(e) => Err(e.to_string()),
    }
}

/// Cuts a rectangle out of a decoded image with `DynamicImage::crop_imm`.
/// Claims the size that `crop_imm` gives: the rectangle clipped to the image.
#[verifier::external_body]
fn crop_picture(p: &Picture, x: u32, y: u32, width: u32, height: u32) -> (res: Picture)
    requires
        p.crop() is None,
        p.bound() is None,
    ensures
        res.size() == crop_size(p.size(), (x, y, width, height)),
        res.source() == p.source(),
        res.crop() == Some((x, y, width, height)),
        res.bound() is None,
{
    let image = p.image.crop_imm(x, y, width, height);
    Picture {
        width: image.width(),
        height: image.height(),
        image,
        recipe: Ghost((p.recipe@.0, Some((x, y, width, height)), None)),
    }
}

/// Scales an image down to fit a bounding box with `DynamicImage::thumbnail`,
/// which keeps the aspect ratio. Claims the size that `thumbnail_size` names.
#[verifier::external_body]
fn thumbnail_picture(p: &Picture, max_width: u32, max_height: u32) -> (res: Picture)
    requires
        p.bound() is None,
    ensures
        res.size() == thumbnail_size(p.size().0, p.size().1, max_width, max_height),
        res.source() == p.source(),
        res.crop() == p.crop(),
        res.bound() == Some((max_width, max_height, false)),
{
    let image = p.image.thumbnail(max_width, max_height);
    Picture {
        width: image.width(),
        height: image.height(),
        image,
        recipe: Ghost((p.recipe@.0, p.recipe@.1, Some((max_width, max_height, false)))),
    }
}

/// Scales an image to fit a bounding box with `DynamicImage::resize` and the
/// triangle filter, which keeps the aspect ratio. Claims the size that
/// `resized_size` names.
#[verifier::external_body]
fn resize_picture(p: &Picture, max_width: u32, max_height: u32) -> (res: Picture)
    requires
        p.bound() is None,
    ensures
        res.size() == resized_size(p.size().0, p.size().1, max_width, max_height),
        res.source() == p.source(),
        res.crop() == p.crop(),
        res.bound() == Some((max_width, max_height, true)),
{
    let image = p.image.resize(max_width, max_height, image::imageops::FilterType::Triangle);
    Picture {
        width: image.width(),
        height: image.height(),
        image,
        recipe: Ghost((p.recipe@.0, p.recipe@.1, Some((max_width, max_height, true)))),
    }
}

/// Encodes an image as JPEG with `DynamicImage::write_to` into a memory
/// buffer, and turns a failure into the text its `ImageError` displays.
/// Claims that success, the bytes and the text of a failure are those that
/// `jpeg_encoding` names for how the image was made.
#[verifier::external_body]
fn write_jpeg(p: &Picture) -> (res: Result<Vec<u8>, String>)
    ensures
        match res {
            Ok(bytes) => jpeg_encoding(p.source(), p.crop(), p.bound()) == Ok::<Seq<u8>, Seq<char>>(bytes@),
            Err(message) => jpeg_encoding(p.source(), p.crop(), p.bound()) == Err::<Seq<u8>, Seq<char>>(message@),
        },
{
    let mut out = Vec::new();
    match p.image.write_to(std::io::Cursor::new(&mut out), image::ImageFormat::Jpeg) {
        Ok(()) => Ok(out),
        Err(e) => Err(e.to_string()),
    }
}

/// A page ready for the book: JPEG bytes and the size of the image they encode.
pub struct EncodedPage {
    pub data: Vec<u8>,
    pub width: u32,
    pub height: u32,
}

impl View for EncodedPage {
    type V = (Seq<u8>, u32, u32);

    open spec fn view(&self) -> (Seq<u8>, u32, u32) {
        (self.data@, self.width, self.height)
    }
}

/// What becomes of the part `crop` (the whole image where `None`) of the image
/// decoded from `source`, of `size`, once scaled into `max_width` by
/// `max_height` and encoded: its JPEG bytes and size, or an encoding failure.
pub open spec fn expected_page(
    source: Seq<u8>,
    size: (u32, u32),
    crop: Option<(u32, u32, u32, u32)>,
    max_width: u32,
    max_height: u32,
) -> Result<(Seq<u8>, u32, u32), (ImageStage, Seq<char>)> {
    let part = match crop {
        Some(c) => crop_size(size, c),
        None => size,
    };
    let scaled = thumbnail_size(part.0, part.1, max_width, max_height);
    match jpeg_encoding(source, crop, Some((max_width, max_height, false))) {
        Ok(bytes) => Ok((bytes, scaled.0, scaled.1)),
        Err(message) => Err((ImageStage::Encode, message)),
    }
}

/// The view of an encoding outcome.
pub open spec fn outcome_view(r: Result<EncodedPage, ImageFailure>) -> Result<(Seq<u8>, u32, u32), (ImageStage, Seq<char>)> {
    match r {
        Ok(page) => Ok(page@),
        Err(e) => Err(e@),
    }
}

/// Whether `r` is what scaling the picture `p` into `max_width` by
/// `max_height` and encoding it as JPEG gives.
pub open spec fn encodes_picture(r: Result<EncodedPage, ImageFailure>, p: Picture, max_width: u32, max_height: u32) -> bool {
    let scaled = thumbnail_size(p.size().0, p.size().1, max_width, max_height);
    outcome_view(r) == match jpeg_encoding(p.source(), p.crop(), Some((max_width, max_height, false))) {
        Ok(bytes) => Ok((bytes, scaled.0, scaled.1)),
        Err(message) => Err((ImageStage::Encode, message)),
    }
}

/// Scales a decoded image, whole or cut out, into the bounding box and encodes it as JPEG.
fn encode_page(p: Picture, max_width: u32, max_height: u32) -> (res: Result<EncodedPage, ImageFailure>)
    requires
        p.bound() is None,
    ensures
        encodes_picture(res, p, max_width, max_height),
{
    let resized = thumbnail_picture(&p, max_width, max_height);
    match write_jpeg(&resized) {
        Ok(data) => Ok(EncodedPage { data, width: resized.width, height: resized.height }),
        Err(message) => Err(ImageFailure { stage: ImageStage::Encode, message }),
    }
}

/// Encodes the two halves of a spread in parallel with `rayon::join`, each by
/// `encode_page`. Claims that `join` returns the results of both closures.
#[verifier::external_body]
fn encode_halves(right: Picture, left: Picture, max_width: u32, max_height: u32) -> (res: (
    Result<EncodedPage, ImageFailure>,
    Result<EncodedPage, ImageFailure>,
))
    requires
        right.bound() is None,
        left.bound() is None,
    ensures
        encodes_picture(res.0, right, max_width, max_height),
        encodes_picture(res.1, left, max_width, max_height),
{
    rayon::join(
        move || encode_page(right, max_width, max_height),
        move || encode_page(left, max_width, max_height),
    )
}

/// What a page image becomes: for the image decoded from `source`, each part
/// of its page plan scaled into `max_width` by `max_height` and encoded as
/// JPEG, in plan order; a `Decode` failure with the decoder's message when
/// the bytes do not decode, and an `Encode` failure with the encoder's
/// message when a part fails to encode (the first part's where both do).
pub open spec fn encoded_pages(
    source: Seq<u8>,
    max_width: u32,
    max_height: u32,
    split_double_page: bool,
) -> Result<Seq<(Seq<u8>, u32, u32)>, (ImageStage, Seq<char>)> {
    match decoded_size(source) {
        Err(message) => Err((ImageStage::Decode, message)),
        Ok(size) => {
            let plan = page_plan(size.0, size.1, split_double_page);
            if plan.len() == 2 {
                match (
                    expected_page(source, size, plan[0], max_width, max_height),
                    expected_page(source, size, plan[1], max_width, max_height),
                ) {
                    (Ok(first), Ok(second)) => Ok(seq![first, second]),
                    (Err(e), _) => Err(e),
                    (Ok(_), Err(e)) => Err(e),
                }
            } else {
                match expected_page(source, size, plan[0], max_width, max_height) {
                    Ok(page) => Ok(seq![page]),
                    Err(e) => Err(e),
                }
            }
        },
    }
}

/// The view of the outcome of encoding a page image.
pub open spec fn pages_view(r: Result<Vec<EncodedPage>, ImageFailure>) -> Result<Seq<(Seq<u8>, u32, u32)>, (ImageStage, Seq<char>)> {
    match r {
        Ok(pages) => Ok(pages@.map_values(|p: EncodedPage| p@)),
        Err(e) => Err(e@),
    }
}

/// Turns a downloaded page image into book pages: decodes it, cuts a spread
/// in two when asked to (right half first), scales each part into
/// `target_width` by `target_height` and encodes it as JPEG.
pub fn encode_image(
    bytes: Vec<u8>,
    target_width: u32,
    target_height: u32,
    split_double_page: bool,
) -> (res: Result<Vec<EncodedPage>, ImageFailure>)
    ensures
        pages_view(res) == encoded_pages(bytes@, target_width, target_height, split_double_page),
{
    let img = match decode_picture(bytes.as_slice()) {
        Ok(img) => img,
        Err(message) => return Err(ImageFailure { stage: ImageStage::Decode, message }),
    };
    let w = img.width;
    let h = img.height;
    if split_double_page && w > h {
        let half = w / 2;
        let left = crop_picture(&img, 0, 0, half, h);
        let right = crop_picture(&img, half, 0, w - half, h);
        let (right_result, left_result) = encode_halves(right, left, target_width, target_height);
        let right_page = match right_result {
            Ok(page) => page,
            Err(e) => return Err(e),
        };
        let left_page = match left_result {
            Ok(page) => page,
            Err(e) => return Err(e),
        };
        let pages = vec![right_page, left_page];
        assert(pages@.map_values(|p: EncodedPage| p@) =~= seq![pages@[0]@, pages@[1]@]);
        Ok(pages)
    } else {
        let page = match encode_page(img, target_width, target_height) {
            Ok(page) => page,
            Err(e) => return Err(e),
        };
        let pages = vec![page];
        assert(pages@.map_values(|p: EncodedPage| p@) =~= seq![pages@[0]@]);
        Ok(pages)
    }
}

/// The bounding box a page of `width` by `height` pixels is fitted into on a
/// screen of `screen_width` by `screen_height`: a landscape page (wider than
/// tall) is fitted to the screen turned sideways.
pub open spec fn screen_box(width: u32, height: u32, screen_width: u32, screen_height: u32) -> (u32, u32) {
    if width > height {
        (screen_height, screen_width)
    } else {
        (screen_width, screen_height)
    }
}

/// What a page image becomes when it is fitted whole to the screen (turned
/// sideways for a landscape page) with the triangle filter and encoded as JPEG.
pub open spec fn screen_page(source: Seq<u8>, screen_width: u32, screen_height: u32) -> Result<(Seq<u8>, u32, u32), (ImageStage, Seq<char>)> {
    match decoded_size(source) {
        Err(message) => Err((ImageStage::Decode, message)),
        Ok(size) => {
            let fit = screen_box(size.0, size.1, screen_width, screen_height);
            let scaled = resized_size(size.0, size.1, fit.0, fit.1);
            match jpeg_encoding(source, None, Some((fit.0, fit.1, true))) {
                Ok(bytes) => Ok((bytes, scaled.0, scaled.1)),
                Err(message) => Err((ImageStage::Encode, message)),
            }
        },
    }
}

/// Fits a page image whole to a screen of `screen_width` by `screen_height`
/// pixels (turned sideways for a landscape page) and encodes it as JPEG.
pub fn encode_for_screen(bytes: Vec<u8>, screen_width: u32, screen_height: u32) -> (res: Result<EncodedPage, ImageFailure>)
    ensures
        outcome_view(res) == screen_page(bytes@, screen_width, screen_height),
{
    let img = match decode_picture(bytes.as_slice()) {
        Ok(img) => img,
        Err(message) => return Err(ImageFailure { stage: ImageStage::Decode, message }),
    };
    let (fit_width, fit_height) = if img.width > img.height {
        (screen_height, screen_width)
    } else {
        (screen_width, screen_height)
    };
    let resized = resize_picture(&img, fit_width, fit_height);
    match write_jpeg(&resized) {
        Ok(data) => Ok(EncodedPage { data, width: resized.width, height: resized.height }),
        Err(message) => Err(ImageFailure { stage: ImageStage::Encode, message }),
    }
}

/// What a page image becomes when it is decoded and encoded again as JPEG, unscaled.
pub open spec fn reencoded_page(source: Seq<u8>) -> Result<Seq<u8>, (ImageStage, Seq<char>)> {
    match decoded_size(source) {
        Err(message) => Err((ImageStage::Decode, message)),
        Ok(_) => match jpeg_encoding(source, None, None) {
            Ok(bytes) => Ok(bytes),
            Err(message) => Err((ImageStage::Encode, message)),
        },
    }
}

/// Decodes a page image and encodes it again as JPEG, unscaled.
pub fn reencode_jpeg(bytes: &[u8]) -> (res: Result<Vec<u8>, ImageFailure>)
    ensures
        match res {
            Ok(data) => reencoded_page(bytes@) == Ok::<Seq<u8>, (ImageStage, Seq<char>)>(data@),
            Err(e) => reencoded_page(bytes@) == Err::<Seq<u8>, (ImageStage, Seq<char>)>(e@),
        },
{
    let img = match decode_picture(bytes) {
        Ok(img) => img,
        Err(message) => return Err(ImageFailure { stage: ImageStage::Decode, message }),
    };
    match write_jpeg(&img) {
        Ok(data) => Ok(data),
        Err(message) => Err(ImageFailure { stage: ImageStage::Encode, message }),
    }
}

/// The size of the cut-out that `crop_imm(x, y, w, h)` takes of an image of
/// `size`: the rectangle is clipped to the image.
pub open spec fn crop_size(size: (u32, u32), crop: (u32, u32, u32, u32)) -> (u32, u32) {
    let (iw, ih) = size;
    let (x, y, w, h) = crop;
    let x = if x < iw { x } else { iw };
    let y = if y < ih { y } else { ih };
    let w = if w < iw - x { w } else { (iw - x) as u32 };
    let h = if h < ih - y { h } else { (ih - y) as u32 };
    (w, h)
}

/// The step at which turning a page image into book pages failed.
#[derive(Debug, PartialEq, Eq, Structural, Clone, Copy)]
pub enum ImageStage {
    /// The downloaded bytes are not an image that could be decoded.
    Decode,
    /// A page could not be encoded as JPEG.
    Encode,
}

/// Why a page image could not be turned into book pages: the step that
/// failed and the message of the image library's error.
#[derive(Debug, Clone)]
pub struct ImageFailure {
    pub stage: ImageStage,
    pub message: String,
}

impl View for ImageFailure {
    type V = (ImageStage, Seq<char>);

    open spec fn view(&self) -> (ImageStage, Seq<char>) {
        (self.stage, self.message@)
    }
}

/// A rectangle of an image: left, top, width and height in pixels.
#[derive(Debug, PartialEq, Eq, Structural, Clone, Copy)]
pub struct PageCrop {
    pub x: u32,
    pub y: u32,
    pub width: u32,
    pub height: u32,
}

impl PageCrop {
    /// The rectangle as (x, y, width, height).
    pub open spec fn rect(self) -> (u32, u32, u32, u32) {
        (self.x, self.y, self.width, self.height)
    }
}

/// The book pages that a page image of `width` by `height` pixels becomes:
/// with `split_double_page`, a spread (wider than tall) gives its right half
/// and then its left half, the right half taking the odd column; any other
/// image gives one page, the whole image.
pub open spec fn page_plan(width: u32, height: u32, split_double_page: bool) -> Seq<Option<(u32, u32, u32, u32)>> {
    if split_double_page && width > height {
        let half = width / 2;
        seq![Some((half, 0u32, (width - half) as u32, height)), Some((0u32, 0u32, half, height))]
    } else {
        seq![None]
    }
}

/// Computes which parts of a page image become book pages, in reading order
/// (`None` stands for the whole image).
pub fn page_layout(width: u32, height: u32, split_double_page: bool) -> (plan: Vec<Option<PageCrop>>)
    ensures
        plan@.map_values(|c: Option<PageCrop>| match c {
            Some(c) => Some(c.rect()),
            None => None,
        }) == page_plan(width, height, split_double_page),
{
    let mut plan = Vec::new();
    if split_double_page && width > height {
        let half = width / 2;
        plan.push(Some(PageCrop { x: half, y: 0, width: width - half, height }));
        plan.push(Some(PageCrop { x: 0, y: 0, width: half, height }));
    } else {
        plan.push(None);
    }
    assert(plan@.map_values(|c: Option<PageCrop>| match c {
        Some(c) => Some(c.rect()),
        None => None,
    }) =~= page_plan(width, height, split_double_page));
    plan
}

/// The two halves of a split spread cover the image exactly: every column
/// belongs to exactly one half, the right half is read first, both halves keep
/// the full height, and their widths differ by at most one column.
pub proof fn lemma_spread_halves_tile(width: u32, height: u32, column: u32)
    requires
        width > height,
        column < width,
    ensures
        ({
            let plan = page_plan(width, height, true);
            let right = plan[0]->Some_0;
            let left = plan[1]->Some_0;
            &&& plan.len() == 2
            &&& plan[0] is Some && plan[1] is Some
            &&& right.0 == left.2 && left.0 == 0
            &&& right.0 + right.2 == width
            &&& right.1 == 0 && left.1 == 0 && right.3 == height && left.3 == height
            &&& (left.0 <= column < left.0 + left.2) != (right.0 <= column < right.0 + right.2)
            &&& left.2 <= right.2 <= left.2 + 1
        }),
{
}

/// A split spread becomes two pages in manga reading order: the first is the
/// right half (the crop from column `width / 2` to the right edge, full
/// height) and the second the left half (the crop from column 0, `width / 2`
/// wide), each scaled into the bounding box and encoded as JPEG.
pub proof fn lemma_spread_right_half_first(
    source: Seq<u8>,
    width: u32,
    height: u32,
    max_width: u32,
    max_height: u32,
    right: Seq<u8>,
    left: Seq<u8>,
)
    requires
        decoded_size(source) == Ok::<(u32, u32), Seq<char>>((width, height)),
        width > height,
        jpeg_encoding(
            source,
            Some((width / 2, 0u32, (width - width / 2) as u32, height)),
            Some((max_width, max_height, false)),
        ) == Ok::<Seq<u8>, Seq<char>>(right),
        jpeg_encoding(source, Some((0u32, 0u32, width / 2, height)), Some((max_width, max_height, false)))
            == Ok::<Seq<u8>, Seq<char>>(left),
    ensures
        encoded_pages(source, max_width, max_height, true) == Ok::<Seq<(Seq<u8>, u32, u32)>, (ImageStage, Seq<char>)>(
            seq![
                (
                    right,
                    thumbnail_size((width - width / 2) as u32, height, max_width, max_height).0,
                    thumbnail_size((width - width / 2) as u32, height, max_width, max_height).1,
                ),
                (
                    left,
                    thumbnail_size(width / 2, height, max_width, max_height).0,
                    thumbnail_size(width / 2, height, max_width, max_height).1,
                ),
            ],
        ),
{
}

/// When the right half of a split spread fails to encode, the page image
/// fails with the right half's message, whatever becomes of the left half.
pub proof fn lemma_spread_right_failure_first(
    source: Seq<u8>,
    width: u32,
    height: u32,
    max_width: u32,
    max_height: u32,
    message: Seq<char>,
)
    requires
        decoded_size(source) == Ok::<(u32, u32), Seq<char>>((width, height)),
        width > height,
        jpeg_encoding(
            source,
            Some((width / 2, 0u32, (width - width / 2) as u32, height)),
            Some((max_width, max_height, false)),
        ) == Err::<Seq<u8>, Seq<char>>(message),
    ensures
        encoded_pages(source, max_width, max_height, true) == Err::<Seq<(Seq<u8>, u32, u32)>, (ImageStage, Seq<char>)>(
            (ImageStage::Encode, message),
        ),
{
}

} // verus!
