//! Where the image of an issue comes from: the signed address of a game's
//! title metadata, and the icon address in that metadata.

use vstd::prelude::*;
use vstd::utf8::encode_utf8;
use crate::codec::{lemma_hex_upper_shape, is_upper_hex_digit, hex_upper, hex_bytes, is_hex_text, hmac_sha1, hex_decode, hex_encode_upper, hmac_sha1_tag, utf8_bytes};
use crate::json::{JsonValue, get_key, get_index, as_text, member, element, str_member};

verus! {

/// The image code of a title code: the code followed by `_00`.
pub open spec fn image_code_of(code: Seq<char>) -> Seq<char> {
    code + "_00"@
}

/// The address of the metadata of `image_code`, signed with `hash`.
pub open spec fn tmdb_url_of(image_code: Seq<char>, hash: Seq<char>) -> Seq<char> {
    "https://tmdb.np.dl.playstation.net/tmdb2/"@ + image_code + "_"@ + hash + "/"@ + image_code + ".json"@
}

/// The signature of an image code under a key: its HMAC-SHA1 tag as upper-case hexadecimal.
pub open spec fn tmdb_hash_of(key: Seq<u8>, image_code: Seq<char>) -> Seq<char> {
    hex_upper(hmac_sha1(key, encode_utf8(image_code)))
}

/// The address of the metadata of `image_code`, given its signature.
pub fn tmdb_url_with_hash(image_code: &str, hash: &str) -> (r: String)
    ensures
        r@ == tmdb_url_of(image_code@, hash@),
{
    let mut r = String::from_str("https://tmdb.np.dl.playstation.net/tmdb2/");
    r.append(image_code);
    r.append("_");
    r.append(hash);
    r.append("/");
    r.append(image_code);
    r.append(".json");
    r
}

/// The metadata address of the game with title code `code`, signed with the
/// raw key bytes `key`.
pub fn tmdb_url_for_key(code: &str, key: &[u8]) -> (r: String)
    ensures
        r@ == tmdb_url_of(image_code_of(code@), tmdb_hash_of(key@, image_code_of(code@))),
        tmdb_hash_of(key@, image_code_of(code@)).len() == 40,
        forall|i: int| 0 <= i < 40 ==> is_upper_hex_digit(
            #[trigger] tmdb_hash_of(key@, image_code_of(code@))[i],
        ),
{
    let mut image_code = String::from_str(code);
    image_code.append("_00");
    let message = utf8_bytes(image_code.as_str());
    let tag = match hmac_sha1_tag(key, message.as_slice()) {
        Ok(t) => t,
        Err(_) => {
            assert(false);
            Vec::new()
        },
    };
    proof { lemma_hex_upper_shape(tag@); }
    let hash = hex_encode_upper(tag.as_slice());
    tmdb_url_with_hash(image_code.as_str(), hash.as_str())
}

/// Why no image address could be had.
#[derive(PartialEq, Eq, Structural, Clone, Copy, Debug)]
pub enum ArtworkError {
    /// The key is not hexadecimal text.
    BadKey,
    /// The metadata holds no icon address.
    NoIcon,
    /// The downloaded image cannot be read, or its thumbnail cannot be encoded.
    BadImage,
}

/// The metadata address of the game with title code `code`, signed with the
/// key written as hexadecimal text in `tmdb_hex`; refused where that text is
/// not hexadecimal.
pub fn tmdb_url(code: &str, tmdb_hex: &str) -> (r: Result<String, ArtworkError>)
    ensures
        r is Err <==> !is_hex_text(tmdb_hex@),
        r matches Err(e) ==> e == ArtworkError::BadKey,
        r matches Ok(u) ==> u@ == tmdb_url_of(
            image_code_of(code@),
            tmdb_hash_of(hex_bytes(tmdb_hex@), image_code_of(code@)),
        ),
        r is Ok ==> tmdb_hash_of(hex_bytes(tmdb_hex@), image_code_of(code@)).len() == 40,
        r is Ok ==> forall|i: int| 0 <= i < 40 ==> is_upper_hex_digit(
            #[trigger] tmdb_hash_of(hex_bytes(tmdb_hex@), image_code_of(code@))[i],
        ),
{
    match hex_decode(tmdb_hex) {
        Ok(key) => Ok(tmdb_url_for_key(code, key.as_slice())),
        Err(_) => Err(ArtworkError::BadKey),
    }
}

/// The icon address in title metadata: the `icon` text of the first element of `icons`.
pub open spec fn icon_of(meta: JsonValue) -> Option<Seq<char>> {
    match get_key(meta, "icons"@) {
        Some(icons) => match get_index(icons, 0) {
            Some(first) => as_text(get_key(first, "icon"@)),
            None => None,
        },
        None => None,
    }
}

/// The icon address in title metadata; refused where there is none.
pub fn icon_url(meta: &JsonValue) -> (r: Result<String, ArtworkError>)
    ensures
        r is Err <==> icon_of(*meta) is None,
        r matches Err(e) ==> e == ArtworkError::NoIcon,
        r matches Ok(u) ==> icon_of(*meta) == Some(u@),
{
    let icons = match member(meta, "icons") {
        Some(v) => v,
        None => return Err(ArtworkError::NoIcon),
    };
    let first = match element(icons, 0) {
        Some(v) => v,
        None => return Err(ArtworkError::NoIcon),
    };
    match str_member(first, "icon") {
        Some(s) => Ok(s.clone()),
        None => Err(ArtworkError::NoIcon),
    }
}


/// An outside type: the error of the `image` crate.
#[verifier::external_type_specification]
#[verifier::external_body]
pub struct ExImageError(image::error::ImageError);

/// Trusted: decodes `data` with `image::load_from_memory`, scales it to 256 by
/// 256 with `DynamicImage::resize_exact(.., FilterType::Lanczos3)` and encodes
/// it with `DynamicImage::write_to(.., ImageFormat::Avif)`, the encoder that
/// `save_with_format` uses too. Nothing is stated of the bytes: the encoder
/// is not shown to give the same bytes for the same picture.
#[verifier::external_body]
pub(crate) fn avif_thumbnail(data: &[u8]) -> (r: Result<Vec<u8>, image::error::ImageError>) {
    let picture = match image::load_from_memory(data) {
        Ok(p) => p,
        Err(e) => return Err(e),
    };
    let scaled = picture.resize_exact(256, 256, image::imageops::FilterType::Lanczos3);
    let mut out: Vec<u8> = Vec::new();
    match scaled.write_to(std::io::Cursor::new(&mut out), image::ImageFormat::Avif) {
        Ok(()) => Ok(out),
        Err(e) => Err(e),
    }
}

/// The thumbnail of a downloaded image: 256 by 256 pixels, AVIF-encoded;
/// refused where the image cannot be read or encoded.
pub fn thumbnail(data: &[u8]) -> (r: Result<Vec<u8>, ArtworkError>)
    ensures
        r matches Err(e) ==> e == ArtworkError::BadImage,
{
    match avif_thumbnail(data) {
        Ok(bytes) => Ok(bytes),
        Err(_) => Err(ArtworkError::BadImage),
    }
}

} // verus!
