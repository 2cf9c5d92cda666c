//! The sticker encoder and the naming of a set.
//!
//! A source image becomes the platform's sticker representation: a square of
//! [`STICKER_SIDE`] pixels, written as WebP. Decoding, resampling and encoding are the
//! `image` crate's; what is decided around them is verified here. Reading the file and
//! uploading the result is the caller's work.

use vstd::prelude::*;
use crate::error::ErrorKind;
use crate::tagger::MAX_TAGS;
use crate::text::{
    lemma_signed_decimal_injective, push_signed_decimal, signed_decimal, string_texts,
};

verus! {

/// The width and the height of a sticker, in pixels.
pub const STICKER_SIDE: u32 = 512;

/// The platform's ceiling for the payload of a static sticker, in bytes.
pub const MAX_STICKER_BYTES: usize = 524288;

/// Where the platform shows a set, up to the set's name.
pub const SET_ADDRESS: &'static str = "https://t.me/addstickers/";

/// `image::DynamicImage`, a decoded image. Nothing of its inside is known here but its
/// width and its height.
#[verifier::external_type_specification]
#[verifier::external_body]
pub struct ExDynamicImage(image::DynamicImage);

/// `image::ImageError`, the error of decoder and encoder. It is only ever told apart from
/// success.
#[verifier::external_type_specification]
#[verifier::external_body]
pub struct ExImageError(image::ImageError);

/// `image::ImageFormat`, the name of an image format. It is only carried from the file's
/// name to the decoder.
#[verifier::external_type_specification]
#[verifier::external_body]
pub struct ExImageFormat(image::ImageFormat);

/// A failure to make a sticker out of one image.
#[derive(Debug, Clone, Copy, PartialEq, Eq, Structural)]
pub enum StickerError {
    /// There is no file at the image's path.
    NotFound,
    /// The file is no image that the decoder reads, or its name tells no format.
    Undecodable,
    /// The image is too wide to be resampled on this machine.
    SourceTooLarge,
    /// The sticker could not be written as WebP.
    Unencodable,
    /// The encoded sticker is larger than the ceiling.
    Oversized,
    /// The platform answered the upload with an empty file handle.
    EmptyHandle,
}

impl StickerError {
    /// The family of the failure.
    pub open spec fn spec_kind(&self) -> ErrorKind {
        match self {
            StickerError::EmptyHandle => ErrorKind::ExternalService,
            _ => ErrorKind::Validation,
        }
    }

    /// The family of the failure: an empty handle is the platform's fault, everything
    /// else lies with the image.
    pub fn kind(&self) -> (kind: ErrorKind)
        ensures
            kind == self.spec_kind(),
    {
        match self {
            StickerError::EmptyHandle => ErrorKind::ExternalService,
            _ => ErrorKind::Validation,
        }
    }
}

// ---------------------------------------------------------------------------------------
// The image crate
// ---------------------------------------------------------------------------------------
/// The width of an image, in pixels.
pub uninterp spec fn image_width(image: image::DynamicImage) -> nat;

/// The height of an image, in pixels.
pub uninterp spec fn image_height(image: image::DynamicImage) -> nat;

/// The format that `ImageFormat::from_path` reads off the extension of a file's name;
/// nothing where the name has no extension or the extension tells none.
pub uninterp spec fn format_of_path(path: Seq<char>) -> Option<image::ImageFormat>;

/// The image that `image::load_from_memory_with_format` reads out of bytes in a given
/// format; nothing where it reads none.
pub uninterp spec fn decoded_image(source: Seq<u8>, format: image::ImageFormat) -> Option<
    image::DynamicImage,
>;

/// An image resampled to a width and a height by `DynamicImage::resize_exact` with the
/// nearest-neighbour filter.
pub uninterp spec fn resampled_image(
    image: image::DynamicImage,
    width: u32,
    height: u32,
) -> image::DynamicImage;

/// The bytes that the `image` crate writes for an image as WebP; nothing where its
/// encoder fails.
pub uninterp spec fn webp_bytes(image: image::DynamicImage) -> Option<Seq<u8>>;

/// `ImageFormat::from_path`: the format that the extension of the file's name tells, or the
/// crate's error where it tells none. The outcome depends on the path alone.
#[verifier::external_body]
pub(crate) fn path_format(path: &str) -> (format: Result<image::ImageFormat, image::ImageError>)
    ensures
        match format {
            Ok(f) => format_of_path(path@) == Some(f),
            Err(_) => format_of_path(path@) is None,
        },
{
    image::ImageFormat::from_path(path)
}

/// `image::load_from_memory_with_format`: the image decoded from the bytes, or the crate's
/// error where the bytes are no image of that format. The outcome depends on the bytes and
/// the format alone.
#[verifier::external_body]
pub(crate) fn decode_image(source: &[u8], format: image::ImageFormat) -> (decoded: Result<
    image::DynamicImage,
    image::ImageError,
>)
    ensures
        match decoded {
            Ok(image) => decoded_image(source@, format) == Some(image),
            Err(_) => decoded_image(source@, format) is None,
        },
{
    image::load_from_memory_with_format(source, format)
}

/// `GenericImageView::dimensions` of an image: its width and its height.
#[verifier::external_body]
pub(crate) fn dimensions(image: &image::DynamicImage) -> (size: (u32, u32))
    ensures
        size.0 == image_width(*image),
        size.1 == image_height(*image),
{
    image::GenericImageView::dimensions(image)
}

/// `DynamicImage::resize_exact` with the nearest-neighbour filter: a new image of just
/// the width and height asked for, whatever the proportions of the old one. The crate
/// resamples through a buffer of four numbers for each pixel of the old width and the new
/// height and panics where that buffer cannot be counted in a machine word; such inputs
/// are left out, as is a new size of nothing.
#[verifier::external_body]
pub(crate) fn resize_exact(image: &image::DynamicImage, width: u32, height: u32) -> (resized:
    image::DynamicImage)
    requires
        0 < width,
        0 < height,
        4 * image_width(*image) * height <= usize::MAX,
        4 * width * height <= usize::MAX,
    ensures
        resized == resampled_image(*image, width, height),
        image_width(resized) == width,
        image_height(resized) == height,
{
    image.resize_exact(width, height, image::imageops::FilterType::Nearest)
}

/// `DynamicImage::write_to` into memory, as WebP: the encoded bytes, or the crate's error
/// where its encoder fails. The outcome depends on the image alone.
#[verifier::external_body]
pub(crate) fn encode_webp(image: &image::DynamicImage) -> (encoded: Result<
    Vec<u8>,
    image::ImageError,
>)
    ensures
        match encoded {
            Ok(bytes) => webp_bytes(*image) == Some(bytes@),
            Err(_) => webp_bytes(*image) is None,
        },
{
    let mut out = std::io::Cursor::new(Vec::new());
    image.write_to(&mut out, image::ImageFormat::WebP)?;
    Ok(out.into_inner())
}

// ---------------------------------------------------------------------------------------
// The encoder
// ---------------------------------------------------------------------------------------
/// Whether an image has the size of a sticker.
pub open spec fn sticker_sized(image: image::DynamicImage) -> bool {
    image_width(image) == STICKER_SIDE && image_height(image) == STICKER_SIDE
}

/// Whether an image can be resampled to the size of a sticker on this machine.
pub open spec fn resamplable(image: image::DynamicImage) -> bool {
    4 * image_width(image) * STICKER_SIDE <= usize::MAX
}

/// An image brought to the size of a sticker: itself where it has that size, resampled
/// otherwise.
pub open spec fn fitted(image: image::DynamicImage) -> image::DynamicImage {
    if sticker_sized(image) {
        image
    } else {
        resampled_image(image, STICKER_SIDE, STICKER_SIDE)
    }
}

/// The image in the file at `path` with the bytes `source`, decoded in the format that the
/// path's extension tells; nothing where the extension tells none or the bytes are no such
/// image.
pub open spec fn source_image(path: Seq<char>, source: Seq<u8>) -> Option<image::DynamicImage> {
    match format_of_path(path) {
        None => None,
        Some(format) => decoded_image(source, format),
    }
}

/// What encoding the file at `path` gives: the sticker's payload, or the first thing
/// that stands in its way. `source` holds the bytes of the file, or nothing where there
/// is no such file.
pub open spec fn sticker_payload(path: Seq<char>, source: Option<Seq<u8>>, ceiling: nat) -> Result<
    Seq<u8>,
    StickerError,
> {
    match source {
        None => Err(StickerError::NotFound),
        Some(bytes) => match source_image(path, bytes) {
            None => Err(StickerError::Undecodable),
            Some(image) => if !sticker_sized(image) && !resamplable(image) {
                Err(StickerError::SourceTooLarge)
            } else {
                match webp_bytes(fitted(image)) {
                    None => Err(StickerError::Unencodable),
                    Some(payload) => if payload.len() > ceiling {
                        Err(StickerError::Oversized)
                    } else {
                        Ok(payload)
                    },
                }
            },
        },
    }
}

/// Encodes one source image as a sticker.
///
/// `source` holds the bytes of the file at `path`, or nothing where there is no such
/// file. The image is decoded in the format that the path's extension tells, brought to
/// [`STICKER_SIDE`] pixels in both directions unless it has that size already, and
/// written as WebP. A payload of more than `ceiling` bytes is refused.
///
/// What comes back is always the encoding of an image that is exactly a sticker's size,
/// whatever the proportions of the source.
pub fn encode_sticker(path: &str, source: Option<&[u8]>, ceiling: usize) -> (payload: Result<
    Vec<u8>,
    StickerError,
>)
    ensures
        match payload {
            Ok(bytes) => sticker_payload(
                path@,
                match source {
                    Some(s) => Some(s@),
                    None => None,
                },
                ceiling as nat,
            ) == Ok::<Seq<u8>, StickerError>(bytes@),
            Err(e) => sticker_payload(
                path@,
                match source {
                    Some(s) => Some(s@),
                    None => None,
                },
                ceiling as nat,
            ) == Err::<Seq<u8>, StickerError>(e),
        },
        payload matches Ok(bytes) ==> exists|image: image::DynamicImage|
            sticker_sized(image) && #[trigger] webp_bytes(image) == Some(bytes@),
{
    let bytes = match source {
        None => {
            return Err(StickerError::NotFound);
        },
        Some(bytes) => bytes,
    };
    let format = match path_format(path) {
        Err(_) => {
            return Err(StickerError::Undecodable);
        },
        Ok(format) => format,
    };
    let decoded = match decode_image(bytes, format) {
        Err(_) => {
            return Err(StickerError::Undecodable);
        },
        Ok(image) => image,
    };
    let (width, height) = dimensions(&decoded);
    let sticker = if width == STICKER_SIDE && height == STICKER_SIDE {
        decoded
    } else {
        // Four numbers for each pixel of the old width and the new height must be
        // countable: 4 * width * 512.
        if width as u64 > (usize::MAX / 2048) as u64 {
            return Err(StickerError::SourceTooLarge);
        }
        resize_exact(&decoded, STICKER_SIDE, STICKER_SIDE)
    };
    assert(sticker_sized(sticker));
    match encode_webp(&sticker) {
        Err(_) => Err(StickerError::Unencodable),
        Ok(payload) => {
            if payload.len() > ceiling {
                Err(StickerError::Oversized)
            } else {
                Ok(payload)
            }
        },
    }
}

// ---------------------------------------------------------------------------------------
// Stickers
// ---------------------------------------------------------------------------------------
/// The handle that the platform gave to an uploaded sticker file. Never empty.
#[derive(Debug, PartialEq, Eq)]
pub struct RemoteStickerHandle {
    file_id: String,
}

impl View for RemoteStickerHandle {
    type V = Seq<char>;

    closed spec fn view(&self) -> Seq<char> {
        self.file_id@
    }
}

impl Clone for RemoteStickerHandle {
    fn clone(&self) -> (copy: Self)
        ensures
            copy@ == self@,
    {
        proof {
            use_type_invariant(self);
        }
        RemoteStickerHandle { file_id: self.file_id.clone() }
    }
}

impl RemoteStickerHandle {
    #[verifier::type_invariant]
    closed spec fn holds_something(&self) -> bool {
        self.file_id@.len() > 0
    }

    /// Takes the file handle out of the platform's answer to an upload; an empty one is
    /// an error.
    pub fn new(file_id: String) -> (handle: Result<RemoteStickerHandle, StickerError>)
        ensures
            match handle {
                Ok(h) => h@ == file_id@ && file_id@.len() > 0,
                Err(e) => e == StickerError::EmptyHandle && file_id@.len() == 0,
            },
    {
        if file_id.as_str().is_empty() {
            Err(StickerError::EmptyHandle)
        } else {
            Ok(RemoteStickerHandle { file_id })
        }
    }

    /// The handle as the platform wrote it.
    pub fn as_str(&self) -> (file_id: &str)
        ensures
            file_id@ == self@,
            file_id@.len() > 0,
    {
        proof {
            use_type_invariant(self);
        }
        self.file_id.as_str()
    }
}

/// One sticker ready to go into a set: the uploaded file and its emoji tags, twenty at
/// most.
#[derive(Debug, PartialEq, Eq)]
pub struct Sticker {
    handle: RemoteStickerHandle,
    emoji_list: Vec<String>,
}

/// What a [`Sticker`] says, as plain text.
pub struct StickerContent {
    pub handle: Seq<char>,
    pub emoji_list: Seq<Seq<char>>,
}

impl View for Sticker {
    type V = StickerContent;

    closed spec fn view(&self) -> StickerContent {
        StickerContent { handle: self.handle@, emoji_list: string_texts(self.emoji_list@) }
    }
}

/// The first twenty of a run of tags.
pub open spec fn first_tags(tags: Seq<Seq<char>>) -> Seq<Seq<char>> {
    if tags.len() > MAX_TAGS {
        tags.take(MAX_TAGS as int)
    } else {
        tags
    }
}

impl Sticker {
    #[verifier::type_invariant]
    closed spec fn within_limit(&self) -> bool {
        self.emoji_list@.len() <= MAX_TAGS
    }

    /// Puts an uploaded file and its tags together; of more than twenty tags the first
    /// twenty are kept.
    pub fn new(handle: RemoteStickerHandle, emoji_list: Vec<String>) -> (sticker: Sticker)
        ensures
            sticker@.handle == handle@,
            sticker@.emoji_list == first_tags(string_texts(emoji_list@)),
    {
        let mut emoji_list = emoji_list;
        let ghost all = string_texts(emoji_list@);
        if emoji_list.len() > MAX_TAGS {
            emoji_list.truncate(MAX_TAGS);
            assert(string_texts(emoji_list@) =~= all.take(MAX_TAGS as int));
        }
        Sticker { handle, emoji_list }
    }

    /// The uploaded file.
    pub fn handle(&self) -> (handle: &RemoteStickerHandle)
        ensures
            handle@ == self@.handle,
    {
        &self.handle
    }

    /// The emoji that the sticker is found by: twenty at most.
    pub fn emoji_list(&self) -> (emoji_list: &Vec<String>)
        ensures
            string_texts(emoji_list@) == self@.emoji_list,
            emoji_list.len() <= MAX_TAGS,
    {
        proof {
            use_type_invariant(self);
        }
        &self.emoji_list
    }

    /// The sticker taken apart again: the uploaded file and the emoji.
    pub fn into_parts(self) -> (parts: (RemoteStickerHandle, Vec<String>))
        ensures
            parts.0@ == self@.handle,
            string_texts(parts.1@) == self@.emoji_list,
            parts.1.len() <= MAX_TAGS,
    {
        proof {
            use_type_invariant(&self);
        }
        (self.handle, self.emoji_list)
    }
}

impl Clone for Sticker {
    fn clone(&self) -> (copy: Self)
        ensures
            copy@ == self@,
    {
        proof {
            use_type_invariant(self);
        }
        let mut emoji_list: Vec<String> = Vec::new();
        let mut i: usize = 0;
        while i < self.emoji_list.len()
            invariant
                i <= self.emoji_list.len(),
                emoji_list.len() == i,
                forall|j: int| 0 <= j < i ==> emoji_list@[j]@ == self.emoji_list@[j]@,
            decreases self.emoji_list.len() - i,
        {
            emoji_list.push(self.emoji_list[i].clone());
            i += 1;
        }
        assert(string_texts(emoji_list@) =~= string_texts(self.emoji_list@));
        Sticker { handle: self.handle.clone(), emoji_list }
    }
}

// ---------------------------------------------------------------------------------------
// Names
// ---------------------------------------------------------------------------------------
/// The name of the set made of a board at an instant: owner, board, the instant in
/// milliseconds since 1970 and the bot's name.
pub open spec fn set_name(
    username: Seq<char>,
    boardname: Seq<char>,
    timestamp: int,
    botname: Seq<char>,
) -> Seq<char> {
    username + "_"@ + boardname + "_"@ + signed_decimal(timestamp) + "_by_"@ + botname
}

/// `Utc::now` of the `chrono` crate, read as `timestamp_millis`: milliseconds since 1970.
/// Nothing is said of the reading: it is the clock's. The crate panics where the system's
/// clock stands before 1970.
#[verifier::external_body]
pub(crate) fn utc_now_millis() -> (millis: i64) {
    chrono::Utc::now().timestamp_millis()
}

/// The name of the set made of a board at the instant `timestamp_millis`.
pub fn set_name_at(username: &str, boardname: &str, timestamp_millis: i64, botname: &str) -> (name:
    String)
    ensures
        name@ == set_name(username@, boardname@, timestamp_millis as int, botname@),
{
    let mut name = username.to_owned();
    name.append("_");
    name.append(boardname);
    name.append("_");
    push_signed_decimal(&mut name, timestamp_millis);
    name.append("_by_");
    name.append(botname);
    name
}

/// A name for the set made of a board now: [`set_name`] at the reading of the clock.
pub fn gen_set_name(username: &str, boardname: &str, botname: &str) -> (name: String)
    ensures
        exists|timestamp: i64|
            name@ == #[trigger] set_name(username@, boardname@, timestamp as int, botname@),
{
    let now = utc_now_millis();
    set_name_at(username, boardname, now, botname)
}

/// Two names made for the same board at different instants differ.
pub proof fn lemma_set_names_differ(
    username: Seq<char>,
    boardname: Seq<char>,
    botname: Seq<char>,
    first: int,
    second: int,
)
    requires
        first != second,
    ensures
        set_name(username, boardname, first, botname) != set_name(
            username,
            boardname,
            second,
            botname,
        ),
{
    // Both names are the same text around the instant.
    let front = username + "_"@ + boardname + "_"@;
    let back = "_by_"@ + botname;
    let a = signed_decimal(first);
    let b = signed_decimal(second);
    let one = set_name(username, boardname, first, botname);
    let two = set_name(username, boardname, second, botname);
    assert(one =~= front + a + back);
    assert(two =~= front + b + back);
    if one == two {
        assert(a =~= one.subrange(front.len() as int, (front.len() + a.len()) as int));
        assert(b =~= two.subrange(front.len() as int, (front.len() + b.len()) as int));
        lemma_signed_decimal_injective(first, second);
    }
}

/// The address at which the platform shows the set `name`.
pub fn sticker_set_url(name: &str) -> (address: String)
    ensures
        address@ == SET_ADDRESS@ + name@,
{
    let mut address = SET_ADDRESS.to_owned();
    address.append(name);
    address
}

} // verus!
