//! Content-type recognition from a buffer's leading signature.
use vstd::prelude::*;
use crate::opt_str_view;

verus! {

/// The content type that `infer` recognises in a buffer, if any.
pub uninterp spec fn sniffed_mime(buf: Seq<u8>) -> Option<Seq<char>>;

/// The type given to content whose signature is not recognised.
pub open spec fn octet_stream() -> Seq<char> {
    "application/octet-stream"@
}

/// Starts with the GIF signature `GIF`.
pub open spec fn has_gif_signature(buf: Seq<u8>) -> bool {
    buf.len() >= 3 && buf[0] == 0x47u8 && buf[1] == 0x49u8 && buf[2] == 0x46u8
}

/// Starts with the PNG signature `\x89PNG`.
pub open spec fn has_png_signature(buf: Seq<u8>) -> bool {
    buf.len() >= 4 && buf[0] == 0x89u8 && buf[1] == 0x50u8 && buf[2] == 0x4eu8 && buf[3]
        == 0x47u8
}

/// Holds the e-book marker `BOOKMOBI` at offset 60, which `infer` checks
/// before any image signature.
pub open spec fn has_ebook_marker(buf: Seq<u8>) -> bool {
    buf.len() >= 68 && buf[60] == 0x42u8 && buf[61] == 0x4fu8 && buf[62] == 0x4fu8 && buf[63]
        == 0x4bu8 && buf[64] == 0x4du8 && buf[65] == 0x4fu8 && buf[66] == 0x42u8 && buf[67]
        == 0x49u8
}

/// The target's `usize` holds any 32-bit length plus an 8-byte header, as on
/// 64-bit targets; content-type recognition needs it.
pub open spec fn usize_holds_frame_lengths() -> bool {
    usize::MAX as int >= u32::MAX as int + 8
}

/// A recognised type, or the generic binary type when none was recognised.
pub open spec fn mime_or_default_spec(found: Option<Seq<char>>) -> Seq<char> {
    match found {
        Some(m) => m,
        None => octet_stream(),
    }
}

/// Relies on `infer::get` and `infer::Type::mime_type`: the first matcher of
/// infer's fixed table that accepts the buffer gives the type, and the result
/// depends on the bytes alone. No matcher ahead of the GIF and PNG ones
/// accepts a buffer that starts with either signature, except the e-book one;
/// every matcher rejects an empty buffer. The zstd and lz4 matchers add a
/// frame's 32-bit length to its 8-byte header as a `usize`: on a target
/// where that sum can overflow the call panics or does not return, so it is
/// made only where `usize` holds it, as on 64-bit targets.
#[verifier::external_body]
fn sniff(buf: &[u8]) -> (r: Option<&'static str>)
    requires
        usize_holds_frame_lengths(),
    ensures
        opt_str_view(r) == sniffed_mime(buf@),
        buf@.len() == 0 ==> r is None,
        has_gif_signature(buf@) && !has_ebook_marker(buf@) ==> opt_str_view(r) == Some(
            "image/gif"@,
        ),
        has_png_signature(buf@) && !has_ebook_marker(buf@) ==> opt_str_view(r) == Some(
            "image/png"@,
        ),
{
    infer::get(buf).map(|t| t.mime_type())
}

/// The type to report for a buffer once recognition has run: the recognised
/// type, else the generic binary type.
pub fn mime_or_default(found: Option<&str>) -> (r: String)
    ensures
        r@ == mime_or_default_spec(opt_str_view(found)),
{
    match found {
        Some(m) => m.to_owned(),
        None => "application/octet-stream".to_owned(),
    }
}

/// The content type of a buffer, from its leading signature, on a target
/// whose `usize` is wide enough for the recognisers.
pub fn mime_of(buf: &[u8]) -> (r: String)
    requires
        usize_holds_frame_lengths(),
    ensures
        r@ == mime_or_default_spec(sniffed_mime(buf@)),
        buf@.len() == 0 ==> r@ == octet_stream(),
        has_gif_signature(buf@) && !has_ebook_marker(buf@) ==> r@ == "image/gif"@,
        has_png_signature(buf@) && !has_ebook_marker(buf@) ==> r@ == "image/png"@,
{
    let found = sniff(buf);
    mime_or_default(found)
}

} // verus!
