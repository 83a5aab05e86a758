//! Small computations the handlers share: file extensions, media types,
//! content fingerprints and the textual form of file identifiers.

use vstd::prelude::*;
use vstd::arithmetic::power::pow;
use vstd::slice::slice_subrange;
use vstd::string::StringExecFns;
use crate::text::{bytes_view, chars_of, has_prefix, last_index_of, lowercase, rfind, starts_with, string_of, text_view, to_lowercase};

verus! {

/// The last component of a path: what follows its last `/`, or all of it.
pub open spec fn last_component(path: Seq<char>) -> Seq<char> {
    match last_index_of(path, '/') {
        Some(i) => path.subrange(i + 1, path.len() as int),
        None => path,
    }
}

/// The file name that a path ends in, with `/` between its components: the
/// last component, where trailing separators and trailing components `.` do
/// not count. There is none where nothing is left, or where the last
/// component is `..`.
pub open spec fn file_name_of(path: Seq<char>) -> Option<Seq<char>>
    decreases path.len(),
{
    if path.len() == 0 {
        None
    } else if path.last() == '/' || last_component(path) == seq!['.'] {
        file_name_of(path.drop_last())
    } else if last_component(path) == seq!['.', '.'] {
        None
    } else {
        Some(last_component(path))
    }
}

/// The extension of a bare file name: the text after its last `.`. A name
/// without a `.`, or whose only `.` is its first character, has none.
pub open spec fn name_extension(name: Seq<char>) -> Option<Seq<char>> {
    match last_index_of(name, '.') {
        Some(i) => if i == 0 {
            None
        } else {
            Some(name.subrange(i + 1, name.len() as int))
        },
        None => None,
    }
}

/// The extension of the file that `filename` names: the extension of the
/// file name it ends in, lowercased. Directories before the name do not
/// count, so `a.b/c` has none and `photo.JPG/` has `jpg`.
pub open spec fn extension_of(filename: Seq<char>) -> Option<Seq<char>> {
    match file_name_of(filename) {
        Some(name) => match name_extension(name) {
            Some(ext) => Some(lowercase(ext)),
            None => None,
        },
        None => None,
    }
}

/// Where in `path` the file name it ends in begins and ends.
fn file_name_bounds(path: &[char]) -> (r: Option<(usize, usize)>)
    ensures
        match r {
            Some((from, to)) => from <= to <= path@.len() && file_name_of(path@) == Some(
                path@.subrange(from as int, to as int),
            ),
            None => file_name_of(path@).is_none(),
        },
{
    let mut end: usize = path.len();
    assert(path@.take(end as int) =~= path@);
    while end > 0
        invariant
            end <= path@.len(),
            file_name_of(path@) == file_name_of(path@.take(end as int)),
        decreases end,
    {
        let ghost rest = path@.take(end as int);
        assert(rest.last() == path@[end - 1]);
        assert(rest.drop_last() =~= path@.take(end - 1));
        if path[end - 1] == '/' {
            end -= 1;
        } else {
            let start: usize = match rfind(slice_subrange(path, 0, end), '/') {
                Some(i) => i + 1,
                None => 0,
            };
            assert(path@.subrange(0, end as int) =~= rest);
            let ghost name = last_component(rest);
            assert(name =~= path@.subrange(start as int, end as int));
            if end - start == 1 && path[start] == '.' {
                assert(name =~= seq!['.']);
                end -= 1;
            } else if end - start == 2 && path[start] == '.' && path[start + 1] == '.' {
                assert(name =~= seq!['.', '.']);
                assert(name != seq!['.']) by {
                    assert(seq!['.'].len() == 1);
                }
                return None;
            } else {
                assert(name != seq!['.']) by {
                    if name == seq!['.'] {
                        assert(name.len() == 1 && name[0] == '.');
                    }
                }
                assert(name != seq!['.', '.']) by {
                    if name == seq!['.', '.'] {
                        assert(name.len() == 2 && name[0] == '.' && name[1] == '.');
                    }
                }
                return Some((start, end));
            }
        }
    }
    None
}

/// Extracts the lowercased extension of the file that `filename` names.
pub fn get_file_extension(filename: &str) -> (ext: Option<String>)
    ensures
        text_view(ext) == extension_of(filename@),
{
    let path = chars_of(filename);
    match file_name_bounds(path.as_slice()) {
        Some((from, to)) => {
            let name = slice_subrange(path.as_slice(), from, to);
            let len: usize = name.len();
            match rfind(name, '.') {
                Some(i) => {
                    if i == 0 {
                        None
                    } else {
                        let tail = string_of(name, i + 1, len);
                        Some(to_lowercase(tail.as_str()))
                    }
                },
                None => None,
            }
        },
        None => None,
    }
}

/// Whether a media type names an image: it begins with `image/`.
pub open spec fn is_image_mime(mime: Seq<char>) -> bool {
    has_prefix(mime, "image/"@)
}

/// Checks whether `mime_type` names an image.
pub fn is_file_mime_type(mime_type: &str) -> (r: bool)
    ensures
        r == is_image_mime(mime_type@),
{
    starts_with(mime_type, "image/")
}

/// The sixteen hexadecimal digits, lowercase.
pub open spec fn hex_digits() -> Seq<char> {
    seq!['0', '1', '2', '3', '4', '5', '6', '7', '8', '9', 'a', 'b', 'c', 'd', 'e', 'f']
}

/// Two lowercase hexadecimal digits per byte, high half first.
pub open spec fn hex_lower(bytes: Seq<u8>) -> Seq<char> {
    Seq::new(
        2 * bytes.len(),
        |i: int|
            if i % 2 == 0 {
                hex_digits()[bytes[i / 2] as int / 16]
            } else {
                hex_digits()[bytes[i / 2] as int % 16]
            },
    )
}

/// The hexadecimal digit for a value below sixteen.
fn hex_char(n: u8) -> (c: char)
    requires
        n < 16,
    ensures
        c == hex_digits()[n as int],
{
    if n < 10 {
        (48 + n) as char
    } else {
        (87 + n) as char
    }
}

/// Renders `bytes` as lowercase hexadecimal text.
pub fn to_hex(bytes: &[u8]) -> (s: String)
    ensures
        s@ == hex_lower(bytes@),
{
    let mut s = String::new();
    let mut i: usize = 0;
    while i < bytes.len()
        invariant
            i <= bytes@.len(),
            s@ == hex_lower(bytes@.take(i as int)),
        decreases bytes@.len() - i,
    {
        let b: u8 = bytes[i];
        s.push(hex_char(b / 16));
        s.push(hex_char(b % 16));
        assert(hex_lower(bytes@.take(i + 1)) =~= hex_lower(bytes@.take(i as int)).push(
            hex_digits()[b as int / 16],
        ).push(hex_digits()[b as int % 16]));
        i += 1;
    }
    assert(bytes@.take(bytes@.len() as int) =~= bytes@);
    s
}

/// The SHA-256 digest of a byte string.
pub uninterp spec fn sha256(data: Seq<u8>) -> Seq<u8>;

/// Computes a SHA-256 digest. Wraps `Sha256::digest` of the `sha2` crate: the
/// result is named [`sha256`] and is 32 bytes long, the digest size of SHA-256.
#[verifier::external_body]
fn sha256_digest(data: &[u8]) -> (digest: Vec<u8>)
    ensures
        digest@ == sha256(data@),
        digest@.len() == 32,
{
    <sha2::Sha256 as sha2::Digest>::digest(data).to_vec()
}

/// The fingerprint of a payload: its SHA-256 digest in lowercase hexadecimal.
pub open spec fn checksum_of(data: Seq<u8>) -> Seq<char> {
    hex_lower(sha256(data))
}

/// Calculates the SHA-256 checksum of `data` as 64 lowercase hexadecimal digits.
pub fn calculate_sha256(data: &[u8]) -> (checksum: String)
    ensures
        checksum@ == checksum_of(data@),
        checksum@.len() == 64,
{
    let digest = sha256_digest(data);
    to_hex(digest.as_slice())
}

/// The `k`-th hexadecimal digit of `id`, counted from the most significant
/// digit (0) to the least (31).
pub open spec fn id_digit(id: u128, k: int) -> char {
    hex_digits()[(id as int / pow(16, (31 - k) as nat)) % 16]
}

/// How many hyphens stand before position `i` of an identifier's text.
pub open spec fn hyphens_before(i: int) -> int {
    (if i > 8 { 1int } else { 0 }) + (if i > 13 { 1int } else { 0 })
        + (if i > 18 { 1int } else { 0 }) + (if i > 23 { 1int } else { 0 })
}

/// The text of an identifier: its 32 lowercase hexadecimal digits, most
/// significant first, in groups of 8, 4, 4, 4 and 12 joined by hyphens.
pub open spec fn hyphenated(id: u128) -> Seq<char> {
    Seq::new(
        36,
        |i: int|
            if i == 8 || i == 13 || i == 18 || i == 23 {
                '-'
            } else {
                id_digit(id, i - hyphens_before(i))
            },
    )
}

/// Whether `id` carries the version and variant marks of a random (version 4)
/// identifier.
pub open spec fn is_random_id(id: u128) -> bool {
    id & 0x0000_0000_0000_f000_c000_0000_0000_0000u128 == 0x0000_0000_0000_4000_8000_0000_0000_0000u128
}

/// Mints a fresh random identifier. Wraps `Uuid::new_v4` of the `uuid` crate,
/// which draws 128 random bits and overwrites the version and variant fields;
/// the value is handed over as the 128-bit number `Uuid::as_u128` gives.
#[verifier::external_body]
pub(crate) fn new_file_id() -> (id: u128)
    ensures
        is_random_id(id),
{
    uuid::Uuid::new_v4().as_u128()
}

/// Formats an identifier. Wraps the hyphenated lowercase `Display` form of
/// `uuid::Uuid`, built from the number by `Uuid::from_u128`.
#[verifier::external_body]
pub(crate) fn id_text(id: u128) -> (s: String)
    ensures
        s@ == hyphenated(id),
{
    uuid::Uuid::from_u128(id).hyphenated().to_string()
}

/// The side of the square a thumbnail fits in, in pixels.
pub const THUMBNAIL_SIDE: u32 = 200;

/// A decoded picture of the `image` crate.
#[verifier::external_type_specification]
#[verifier::external_body]
pub struct ExDynamicImage(image::DynamicImage);

/// The error of the `image` crate's decoders and encoders.
#[verifier::external_type_specification]
#[verifier::external_body]
pub struct ExImageError(image::ImageError);

/// Decodes a picture from the bytes of a file, guessing its format. Specifies
/// `image::load_from_memory`. Which formats it knows can change while the
/// program runs, so nothing is claimed of what it returns, not even that the
/// same bytes decode twice alike.
pub assume_specification[ image::load_from_memory ](buffer: &[u8]) -> Result<
    image::DynamicImage,
    image::ImageError,
>;

/// Scales a picture to fit a box of `nwidth` by `nheight` pixels, keeping its
/// aspect ratio. Specifies `DynamicImage::thumbnail`, for boxes small enough
/// that the scaled picture can be held in memory; nothing is claimed of what
/// it returns.
pub assume_specification[ image::DynamicImage::thumbnail ](
    picture: &image::DynamicImage,
    nwidth: u32,
    nheight: u32,
) -> image::DynamicImage
    requires
        nwidth <= 1024,
        nheight <= 1024,
;

/// The width of a picture in pixels. Specifies `DynamicImage::width`.
pub assume_specification[ image::DynamicImage::width ](picture: &image::DynamicImage) -> u32;

/// The height of a picture in pixels. Specifies `DynamicImage::height`.
pub assume_specification[ image::DynamicImage::height ](picture: &image::DynamicImage) -> u32;

/// Encodes a picture as JPEG into memory. Wraps `DynamicImage::write_to` with
/// the JPEG format; nothing is claimed of the bytes.
#[verifier::external_body]
fn encode_jpeg(picture: &image::DynamicImage) -> Result<Vec<u8>, image::ImageError> {
    let mut out = std::io::Cursor::new(Vec::new());
    picture.write_to(&mut out, image::ImageFormat::Jpeg)?;
    Ok(out.into_inner())
}

/// Why no thumbnail could be made.
#[derive(Debug, PartialEq, Eq, Structural, Clone, Copy)]
pub enum ThumbnailFailed {
    /// The bytes are no picture that can be decoded.
    Decode,
    /// The scaled picture does not fit the thumbnail's box.
    OutOfBounds,
    /// The scaled picture could not be encoded as JPEG.
    Encode,
}

/// A rendered thumbnail.
#[derive(Debug, PartialEq, Eq)]
pub struct Thumbnail {
    /// The name of the file the thumbnail is kept in until it is stored.
    pub file_name: String,
    pub width: u32,
    pub height: u32,
    /// The thumbnail as a JPEG file.
    pub jpeg: Vec<u8>,
}

/// The name of the file that holds the thumbnail made for `base_name`.
pub open spec fn thumbnail_file_name(base_name: Seq<char>) -> Seq<char> {
    base_name + "_thumb.jpg"@
}

/// A [`Thumbnail`] with its name and bytes as sequences.
pub struct ThumbnailView {
    pub file_name: Seq<char>,
    pub width: u32,
    pub height: u32,
    pub jpeg: Seq<u8>,
}

impl View for Thumbnail {
    type V = ThumbnailView;

    open spec fn view(&self) -> ThumbnailView {
        ThumbnailView {
            file_name: self.file_name@,
            width: self.width,
            height: self.height,
            jpeg: self.jpeg@,
        }
    }
}

/// What becomes of a picture that was scaled to `width` by `height` pixels
/// and then encoded, where `encoded` is the JPEG file or nothing if encoding
/// failed: a thumbnail named for `base_name`, unless the picture does not fit
/// the thumbnail's box or could not be encoded.
pub open spec fn packed(base_name: Seq<char>, width: u32, height: u32, encoded: Option<Seq<u8>>) -> Result<
    ThumbnailView,
    ThumbnailFailed,
> {
    if width > THUMBNAIL_SIDE || height > THUMBNAIL_SIDE {
        Err(ThumbnailFailed::OutOfBounds)
    } else {
        match encoded {
            Some(jpeg) => Ok(
                ThumbnailView { file_name: thumbnail_file_name(base_name), width, height, jpeg },
            ),
            None => Err(ThumbnailFailed::Encode),
        }
    }
}

/// The outcome of making a thumbnail, with the thumbnail by its view.
pub open spec fn outcome_view(r: Result<Thumbnail, ThumbnailFailed>) -> Result<
    ThumbnailView,
    ThumbnailFailed,
> {
    match r {
        Ok(t) => Ok(t@),
        Err(e) => Err(e),
    }
}

impl Thumbnail {
    /// Packs a scaled and encoded picture as the thumbnail made for
    /// `base_name`.
    pub fn pack(base_name: &str, width: u32, height: u32, encoded: Option<Vec<u8>>) -> (r: Result<
        Thumbnail,
        ThumbnailFailed,
    >)
        ensures
            outcome_view(r) == packed(base_name@, width, height, bytes_view(encoded)),
    {
        if width > THUMBNAIL_SIDE || height > THUMBNAIL_SIDE {
            return Err(ThumbnailFailed::OutOfBounds);
        }
        match encoded {
            Some(jpeg) => Ok(
                Thumbnail {
                    file_name: String::from_str(base_name).concat("_thumb.jpg"),
                    width,
                    height,
                    jpeg,
                },
            ),
            None => Err(ThumbnailFailed::Encode),
        }
    }
}

/// Generates a thumbnail of the picture in `data`: decodes it, scales it to
/// fit a square of [`THUMBNAIL_SIDE`] pixels and encodes it as JPEG. Whether
/// the bytes decode is the decoder's to say; where they do not, the outcome
/// is [`ThumbnailFailed::Decode`], and else it is what [`Thumbnail::pack`]
/// makes of the scaled picture's width and height and of its encoding. A
/// thumbnail that comes out is therefore named for `base_name` and fits the
/// square. This is heavy work, to be kept off threads that serve requests.
pub fn generate_thumbnail(data: &[u8], base_name: &str) -> (r: Result<Thumbnail, ThumbnailFailed>)
    ensures
        r == Err::<Thumbnail, ThumbnailFailed>(ThumbnailFailed::Decode) || exists|
            width: u32,
            height: u32,
            encoded: Option<Seq<u8>>,
        | outcome_view(r) == #[trigger] packed(base_name@, width, height, encoded),
        r matches Ok(t) ==> t.file_name@ == thumbnail_file_name(base_name@) && t.width
            <= THUMBNAIL_SIDE && t.height <= THUMBNAIL_SIDE,
{
    let picture = match image::load_from_memory(data) {
        Ok(picture) => picture,
        Err(_) => { return Err(ThumbnailFailed::Decode); },
    };
    let small = picture.thumbnail(THUMBNAIL_SIDE, THUMBNAIL_SIDE);
    let width: u32 = small.width();
    let height: u32 = small.height();
    let encoded = match encode_jpeg(&small) {
        Ok(jpeg) => Some(jpeg),
        Err(_) => None,
    };
    Thumbnail::pack(base_name, width, height, encoded)
}

} // verus!
