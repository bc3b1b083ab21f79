use vstd::prelude::*;

verus! {

/// Does `buf` start like an image file, by its magic bytes?
pub uninterp spec fn image_kind(buf: Seq<u8>) -> bool;

/// The MIME type that the magic bytes at the start of `buf` give, if any.
pub uninterp spec fn inferred_mime(buf: Seq<u8>) -> Option<Seq<char>>;

/// The text of the first `title` element of `html` read as an HTML
/// document, if it has one.
pub uninterp spec fn html_title(html: Seq<char>) -> Option<Seq<char>>;

/// `bytes` read as UTF-8, each invalid sequence replaced by U+FFFD.
pub uninterp spec fn lossy_utf8(bytes: Seq<u8>) -> Seq<char>;

/// An optional string as an optional sequence of characters.
pub open spec fn opt_text(s: Option<String>) -> Option<Seq<char>> {
    match s {
        Some(s) => Some(s@),
        None => None,
    }
}

/// A ten-byte buffer with a TIFF byte-order header whose bytes 8 and 9 are
/// those of a Canon CR2 file. infer's CR2 matcher then reads an eleventh
/// byte, past the end, and panics.
pub open spec fn short_cr2_header(buf: Seq<u8>) -> bool {
    &&& buf.len() == 10
    &&& (buf[0] == 0x49u8 && buf[1] == 0x49u8 && buf[2] == 0x2Au8 && buf[3] == 0x00u8) || (buf[0]
        == 0x4Du8 && buf[1] == 0x4Du8 && buf[2] == 0x00u8 && buf[3] == 0x2Au8)
    &&& buf[8] == 0x43u8
    &&& buf[9] == 0x52u8
}

/// Is `buf` a buffer that infer's matchers cannot be run on?
pub fn is_short_cr2_header(buf: &[u8]) -> (r: bool)
    ensures
        r == short_cr2_header(buf@),
{
    buf.len() == 10 && ((buf[0] == 0x49 && buf[1] == 0x49 && buf[2] == 0x2A && buf[3] == 0x00) || (
    buf[0] == 0x4D && buf[1] == 0x4D && buf[2] == 0x00 && buf[3] == 0x2A)) && buf[8] == 0x43
        && buf[9] == 0x52
}

/// Relies on `infer::is_image`: whether the magic bytes of `buf` are those
/// of an image format, which depends on the bytes alone. It panics on a
/// short CR2 header, which is left out.
#[verifier::external_body]
pub(crate) fn is_image(buf: &[u8]) -> (r: bool)
    requires
        !short_cr2_header(buf@),
    ensures
        r == image_kind(buf@),
{
    infer::is_image(buf)
}

/// Relies on `infer::get` and `Type::mime_type`: the MIME type of the first
/// matcher that recognises `buf`, which depends on the bytes alone. Only an
/// image is asked about: the application, book and image matchers come
/// first, so one of them answers before any document matcher (whose offset
/// arithmetic can overflow) runs. A short CR2 header is left out, as the CR2
/// matcher panics on it.
#[verifier::external_body]
pub(crate) fn mime_type_of(buf: &[u8]) -> (r: Option<String>)
    requires
        image_kind(buf@),
        !short_cr2_header(buf@),
    ensures
        opt_text(r) == inferred_mime(buf@),
        r is Some,
{
    infer::get(buf).map(|t| t.mime_type().to_string())
}

/// Relies on `String::from_utf8_lossy`: the bytes decoded as UTF-8, invalid
/// sequences replaced, which depends on the bytes alone.
#[verifier::external_body]
pub(crate) fn decode_lossy(bytes: &[u8]) -> (r: String)
    ensures
        r@ == lossy_utf8(bytes@),
{
    String::from_utf8_lossy(bytes).to_string()
}

/// Relies on `scraper::Html::parse_document` and a `title` selector: the
/// joined text of the first `title` element, which depends on `html` alone.
#[verifier::external_body]
pub(crate) fn title_of(html: &str) -> (r: Option<String>)
    ensures
        opt_text(r) == html_title(html@),
{
    let parsed = ::scraper::Html::parse_document(html);
    let selector = ::scraper::Selector::parse("title").ok()?;
    let title = parsed.select(&selector).next()?;
    Some(title.text().collect::<Vec<_>>().join(""))
}

} // verus!
