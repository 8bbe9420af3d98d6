//! Resolution of asset references (avatars, icons, favicon) into embeddable
//! strings. A reference is classified by its prefix and, for a local path,
//! by whether it exists; the bytes of a remote or local asset are then
//! inlined as recolored SVG markup or embedded as a base64 data URI, and any
//! failure falls back to the reference itself.
use vstd::prelude::*;
use crate::config::opt_chars;
use crate::media::{
    data_uri, data_uri_of, decodable, decoded_size, downscale, png_signed, scaled, sized_as,
};
use crate::svg::{inline_marker, process_svg_for_inline, recolor};
use crate::text::{
    chars_of, contains, contains_exec, ends_with, ends_with_exec, same_chars, starts_at,
    starts_at_exec,
};

verus! {

/// Where an asset reference points.
#[derive(Clone, Copy, Debug, PartialEq, Eq, Structural)]
pub enum AssetSource {
    /// A `data:` URI, already embedded.
    AlreadyEmbedded,
    /// An `http://`, `https://` or protocol-relative `//` address.
    Remote,
    /// A path to a file that exists.
    LocalFile,
    /// Anything else, such as an emoji or plain text.
    Literal,
}

/// Whether `r` is an address to fetch.
pub open spec fn is_remote(r: Seq<char>) -> bool {
    starts_at(r, 0, "http://"@) || starts_at(r, 0, "https://"@) || starts_at(r, 0, "//"@)
}

/// The class of a reference, given whether it names an existing file.
pub open spec fn classify_spec(r: Seq<char>, exists_on_disk: bool) -> AssetSource {
    if starts_at(r, 0, "data:"@) {
        AssetSource::AlreadyEmbedded
    } else if is_remote(r) {
        AssetSource::Remote
    } else if exists_on_disk {
        AssetSource::LocalFile
    } else {
        AssetSource::Literal
    }
}

/// Classifies an asset reference; `exists_on_disk` tells whether it names
/// an existing file.
pub fn classify(reference: &str, exists_on_disk: bool) -> (r: AssetSource)
    ensures
        r == classify_spec(reference@, exists_on_disk),
{
    let s = chars_of(reference);
    if starts_at_exec(&s, 0, &chars_of("data:")) {
        AssetSource::AlreadyEmbedded
    } else if starts_at_exec(&s, 0, &chars_of("http://")) || starts_at_exec(
        &s,
        0,
        &chars_of("https://"),
    ) || starts_at_exec(&s, 0, &chars_of("//")) {
        AssetSource::Remote
    } else if exists_on_disk {
        AssetSource::LocalFile
    } else {
        AssetSource::Literal
    }
}

/// The extension of the final component of a path, if it has one.
pub uninterp spec fn path_extension(path: Seq<char>) -> Option<Seq<char>>;

/// Relies on `std::path::Path::extension`: the text after the last dot of
/// the final component, which for a path made of text is always text.
#[verifier::external_body]
fn extension_of(path: &str) -> (r: Option<String>)
    ensures
        opt_chars(r) == path_extension(path@),
{
    std::path::Path::new(path).extension().and_then(|e| e.to_str()).map(|e| e.to_string())
}

/// Whether an address names one of the given extensions, at its end or
/// before a query.
pub open spec fn url_has_ext(url: Seq<char>, ext: Seq<char>) -> bool {
    ends_with(url, ext) || contains(url, ext + "?"@)
}

/// Whether fetched bytes begin like an SVG document: an XML declaration or
/// an `<svg` tag.
pub open spec fn sniffs_svg(b: Seq<u8>) -> bool {
    (b.len() > 5 && b[0] == 0x3C && b[1] == 0x3F && b[2] == 0x78 && b[3] == 0x6D && b[4]
        == 0x6C) || (b.len() > 4 && b[0] == 0x3C && b[1] == 0x73 && b[2] == 0x76 && b[3] == 0x67)
}

/// Whether a fetched asset is an SVG document.
pub open spec fn remote_is_svg(url: Seq<char>, b: Seq<u8>) -> bool {
    ends_with(url, ".svg"@) || contains(url, ".svg?"@) || sniffs_svg(b)
}

/// Whether a local asset is an SVG document.
pub open spec fn local_is_svg(path: Seq<char>) -> bool {
    path_extension(path) == Some("svg"@)
}

/// The MIME type of a fetched raster image that was not re-encoded.
pub open spec fn remote_mime(url: Seq<char>) -> Seq<char> {
    if url_has_ext(url, ".jpg"@) || url_has_ext(url, ".jpeg"@) {
        "image/jpeg"@
    } else if url_has_ext(url, ".gif"@) {
        "image/gif"@
    } else if url_has_ext(url, ".webp"@) {
        "image/webp"@
    } else if url_has_ext(url, ".ico"@) {
        "image/x-icon"@
    } else {
        "image/png"@
    }
}

/// The MIME type of a local raster image that was not re-encoded.
pub open spec fn local_mime(ext: Option<Seq<char>>) -> Seq<char> {
    if ext == Some("jpg"@) || ext == Some("jpeg"@) {
        "image/jpeg"@
    } else if ext == Some("gif"@) {
        "image/gif"@
    } else if ext == Some("webp"@) {
        "image/webp"@
    } else if ext == Some("ico"@) {
        "image/x-icon"@
    } else {
        "image/png"@
    }
}

/// The MIME type of a local favicon that was not re-encoded.
pub open spec fn favicon_mime(ext: Option<Seq<char>>) -> Seq<char> {
    if ext == Some("ico"@) {
        "image/x-icon"@
    } else if ext == Some("png"@) {
        "image/png"@
    } else if ext == Some("jpg"@) || ext == Some("jpeg"@) {
        "image/jpeg"@
    } else if ext == Some("gif"@) {
        "image/gif"@
    } else if ext == Some("svg"@) {
        "image/svg+xml"@
    } else if ext == Some("webp"@) {
        "image/webp"@
    } else {
        "image/x-icon"@
    }
}

/// Whether `url` names the extension at its end or before a query.
fn url_has_ext_exec(url: &Vec<char>, ext: &str) -> (r: bool)
    ensures
        r == url_has_ext(url@, ext@),
{
    let e = chars_of(ext);
    let mut q = chars_of(ext);
    let mut mark = chars_of("?");
    q.append(&mut mark);
    ends_with_exec(url, &e) || contains_exec(url, &q)
}

/// Whether fetched bytes begin like an SVG document.
pub fn sniff_svg(b: &[u8]) -> (r: bool)
    ensures
        r == sniffs_svg(b@),
{
    (b.len() > 5 && b[0] == 0x3C && b[1] == 0x3F && b[2] == 0x78 && b[3] == 0x6D && b[4] == 0x6C)
        || (b.len() > 4 && b[0] == 0x3C && b[1] == 0x73 && b[2] == 0x76 && b[3] == 0x67)
}

/// The MIME type of a fetched raster image that was not re-encoded.
pub fn remote_mime_exec(url: &str) -> (m: &'static str)
    ensures
        m@ == remote_mime(url@),
{
    let u = chars_of(url);
    if url_has_ext_exec(&u, ".jpg") || url_has_ext_exec(&u, ".jpeg") {
        "image/jpeg"
    } else if url_has_ext_exec(&u, ".gif") {
        "image/gif"
    } else if url_has_ext_exec(&u, ".webp") {
        "image/webp"
    } else if url_has_ext_exec(&u, ".ico") {
        "image/x-icon"
    } else {
        "image/png"
    }
}

/// Whether an optional extension is the given one.
fn ext_is(ext: &Option<String>, name: &str) -> (r: bool)
    ensures
        r == (opt_chars(*ext) == Some(name@)),
{
    match ext {
        Some(e) => same_chars(&chars_of(e.as_str()), &chars_of(name)),
        None => false,
    }
}

/// The MIME type of a local raster image that was not re-encoded.
fn local_mime_exec(ext: &Option<String>) -> (m: &'static str)
    ensures
        m@ == local_mime(opt_chars(*ext)),
{
    if ext_is(ext, "jpg") || ext_is(ext, "jpeg") {
        "image/jpeg"
    } else if ext_is(ext, "gif") {
        "image/gif"
    } else if ext_is(ext, "webp") {
        "image/webp"
    } else if ext_is(ext, "ico") {
        "image/x-icon"
    } else {
        "image/png"
    }
}

/// The MIME type of a local favicon that was not re-encoded.
fn favicon_mime_exec(ext: &Option<String>) -> (m: &'static str)
    ensures
        m@ == favicon_mime(opt_chars(*ext)),
{
    if ext_is(ext, "ico") {
        "image/x-icon"
    } else if ext_is(ext, "png") {
        "image/png"
    } else if ext_is(ext, "jpg") || ext_is(ext, "jpeg") {
        "image/jpeg"
    } else if ext_is(ext, "gif") {
        "image/gif"
    } else if ext_is(ext, "svg") {
        "image/svg+xml"
    } else if ext_is(ext, "webp") {
        "image/webp"
    } else {
        "image/x-icon"
    }
}

/// What embedding raster bytes may give. Bytes that are not re-encoded
/// keep their own MIME type: with no target, when they do not decode, and
/// when the image is within the target. A larger image becomes a PNG data
/// URI of an image of the scaled size; only where that size is too large
/// for PNG encoding to be sure may the original bytes stay instead.
pub open spec fn raster_embedding(r: Seq<char>, mime: Seq<char>, b: Seq<u8>, target: Option<
    u32,
>) -> bool {
    match target {
        None => r == data_uri_of(mime, b),
        Some(t) => match decoded_size(b) {
            None => r == data_uri_of(mime, b),
            Some((w, h)) => if w <= t && h <= t {
                r == data_uri_of(mime, b)
            } else {
                let d = scaled(w as int, h as int, t as int);
                if decodable(d.0, d.1) {
                    exists|png: Seq<u8>|
                        r == #[trigger] data_uri_of("image/png"@, png) && png_signed(png)
                            && sized_as(decoded_size(png), d)
                } else {
                    r == data_uri_of(mime, b) || exists|png: Seq<u8>|
                        r == #[trigger] data_uri_of("image/png"@, png) && png_signed(png)
                }
            },
        },
    }
}

/// Embeds raster bytes as a data URI, downscaled to `target` when one is
/// given; `mime` is the type to use when the bytes are not re-encoded.
pub fn embed_raster(mime: &str, data: Vec<u8>, target: Option<u32>) -> (r: String)
    requires
        data@.len() <= usize::MAX / 2,
    ensures
        raster_embedding(r@, mime@, data@, target),
{
    match target {
        None => data_uri(mime, data.as_slice()),
        Some(t) => match downscale(data.as_slice(), t) {
            Ok(Some(resized)) => {
                let r = data_uri("image/png", resized.as_slice());
                assert(data_uri_of("image/png"@, resized@) == r@);
                r
            },
            Ok(None) => data_uri(mime, data.as_slice()),
            Err(_) => data_uri(mime, data.as_slice()),
        },
    }
}

/// What resolving an asset may give. An embedded or literal reference, or
/// one whose bytes could not be had, stays as it is; an SVG document becomes
/// its inline recolored form, or the reference when it is not UTF-8; a
/// raster image is embedded as `raster_embedding` says, or the reference
/// stays when its bytes are too many to encode.
pub open spec fn asset_resolution(
    r: Seq<char>,
    reference: Seq<char>,
    source: AssetSource,
    loaded: Option<Seq<u8>>,
    target: Option<u32>,
) -> bool {
    match source {
        AssetSource::AlreadyEmbedded | AssetSource::Literal => r == reference,
        AssetSource::Remote | AssetSource::LocalFile => match loaded {
            None => r == reference,
            Some(b) => {
                let svg = if source is Remote {
                    remote_is_svg(reference, b)
                } else {
                    local_is_svg(reference)
                };
                let mime = if source is Remote {
                    remote_mime(reference)
                } else {
                    local_mime(path_extension(reference))
                };
                if svg {
                    r == if vstd::utf8::valid_utf8(b) {
                        inline_marker() + recolor(vstd::utf8::decode_utf8(b))
                    } else {
                        reference
                    }
                } else if b.len() > usize::MAX / 2 {
                    r == reference
                } else {
                    raster_embedding(r, mime, b, target)
                }
            },
        },
    }
}

/// The bytes as a sequence, if present.
pub open spec fn opt_bytes(o: Option<Vec<u8>>) -> Option<Seq<u8>> {
    match o {
        Some(b) => Some(b@),
        None => None,
    }
}

/// Resolves an asset reference of the given class into an embeddable
/// string. `loaded` holds the bytes fetched from a remote address or read
/// from a local file, or `None` when that failed. It never fails: the
/// reference itself is what a failure gives.
pub fn resolve_asset(
    reference: &str,
    source: AssetSource,
    loaded: Option<Vec<u8>>,
    target: Option<u32>,
) -> (r: String)
    ensures
        asset_resolution(r@, reference@, source, opt_bytes(loaded), target),
{
    match source {
        AssetSource::AlreadyEmbedded | AssetSource::Literal => reference.to_string(),
        AssetSource::Remote | AssetSource::LocalFile => match loaded {
            None => reference.to_string(),
            Some(b) => {
                let (svg, mime) = if source == AssetSource::Remote {
                    let u = chars_of(reference);
                    (
                        ends_with_exec(&u, &chars_of(".svg")) || contains_exec(
                            &u,
                            &chars_of(".svg?"),
                        ) || sniff_svg(b.as_slice()),
                        remote_mime_exec(reference),
                    )
                } else {
                    let ext = extension_of(reference);
                    (ext_is(&ext, "svg"), local_mime_exec(&ext))
                };
                if svg {
                    match process_svg_for_inline(b.as_slice()) {
                        Some(t) => t,
                        None => reference.to_string(),
                    }
                } else if b.len() > usize::MAX / 2 {
                    reference.to_string()
                } else {
                    embed_raster(mime, b, target)
                }
            },
        },
    }
}

/// What resolving the favicon may give. An empty reference gives none; an
/// embedded one stays; a remote one resolves as any asset; a local file
/// that is missing or unreadable gives none; an SVG or ICO file is embedded
/// as it is, and any other is embedded as `raster_embedding` says.
pub open spec fn favicon_resolution(
    r: Option<Seq<char>>,
    favicon: Seq<char>,
    source: AssetSource,
    loaded: Option<Seq<u8>>,
    target: Option<u32>,
) -> bool {
    if favicon.len() == 0 {
        r is None
    } else {
        match source {
            AssetSource::AlreadyEmbedded => r == Some(favicon),
            AssetSource::Remote => r matches Some(v) && asset_resolution(
                v,
                favicon,
                source,
                loaded,
                target,
            ),
            AssetSource::Literal => r is None,
            AssetSource::LocalFile => match loaded {
                None => r is None,
                Some(b) => {
                    let ext = path_extension(favicon);
                    let mime = favicon_mime(ext);
                    if b.len() > usize::MAX / 2 {
                        r is None
                    } else if ext == Some("svg"@) || ext == Some("ico"@) {
                        r == Some(data_uri_of(mime, b))
                    } else {
                        r matches Some(v) && raster_embedding(v, mime, b, target)
                    }
                },
            },
        }
    }
}

/// Resolves the favicon reference of the given class; `None` means that
/// the page has no favicon.
pub fn resolve_favicon(
    favicon: &str,
    source: AssetSource,
    loaded: Option<Vec<u8>>,
    target: Option<u32>,
) -> (r: Option<String>)
    ensures
        favicon_resolution(opt_chars(r), favicon@, source, opt_bytes(loaded), target),
{
    if favicon.unicode_len() == 0 {
        return None;
    }
    match source {
        AssetSource::AlreadyEmbedded => Some(favicon.to_string()),
        AssetSource::Remote => Some(resolve_asset(favicon, source, loaded, target)),
        AssetSource::Literal => None,
        AssetSource::LocalFile => match loaded {
            None => None,
            Some(b) => {
                let ext = extension_of(favicon);
                let mime = favicon_mime_exec(&ext);
                if b.len() > usize::MAX / 2 {
                    None
                } else if ext_is(&ext, "svg") || ext_is(&ext, "ico") {
                    Some(data_uri(mime, b.as_slice()))
                } else {
                    Some(embed_raster(mime, b, target))
                }
            },
        },
    }
}

/// A reference that is already a data URI is classified as embedded and
/// resolves to itself, whatever was loaded and whatever the target.
pub proof fn lemma_data_uri_kept(
    reference: Seq<char>,
    exists_on_disk: bool,
    loaded: Option<Seq<u8>>,
    target: Option<u32>,
    r: Seq<char>,
)
    requires
        starts_at(reference, 0, "data:"@),
        asset_resolution(r, reference, classify_spec(reference, exists_on_disk), loaded, target),
    ensures
        classify_spec(reference, exists_on_disk) == AssetSource::AlreadyEmbedded,
        r == reference,
{
}

/// A reference that is neither a data URI nor an address, and names no
/// existing file, is a literal and resolves to itself.
pub proof fn lemma_literal_kept(
    reference: Seq<char>,
    loaded: Option<Seq<u8>>,
    target: Option<u32>,
    r: Seq<char>,
)
    requires
        !starts_at(reference, 0, "data:"@),
        !is_remote(reference),
        asset_resolution(r, reference, classify_spec(reference, false), loaded, target),
    ensures
        classify_spec(reference, false) == AssetSource::Literal,
        r == reference,
{
}

} // verus!
