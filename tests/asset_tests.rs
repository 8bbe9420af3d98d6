use genkan::asset::{classify, remote_mime_exec, resolve_asset, resolve_favicon, sniff_svg, AssetSource};
use genkan::media::{
    data_uri, downscale, generate_qr_code, resize_image, scaled_size, MediaError,
};
use genkan::svg::{process_svg_for_inline, recolor_svg_text};
use image::{DynamicImage, ImageFormat, RgbImage};
use std::io::Cursor;

fn png_of(width: u32, height: u32) -> Vec<u8> {
    let img = DynamicImage::ImageRgb8(RgbImage::new(width, height));
    let mut out = Vec::new();
    img.write_to(&mut Cursor::new(&mut out), ImageFormat::Png).unwrap();
    out
}

fn dims_of(bytes: &[u8]) -> (u32, u32) {
    let img = image::load_from_memory(bytes).unwrap();
    (img.width(), img.height())
}

#[test]
fn image_within_target_is_returned_unchanged() {
    let png = png_of(150, 200);
    assert_eq!(resize_image(&png, 200).unwrap(), png);
}

#[test]
fn wide_image_is_scaled_to_target() {
    let out = resize_image(&png_of(1000, 500), 200).unwrap();
    assert_eq!(&out[..8], &[137, 80, 78, 71, 13, 10, 26, 10]);
    assert_eq!(dims_of(&out), (200, 100));
    assert_eq!(scaled_size(1000, 500, 200), (200, 100));
}

#[test]
fn tall_image_is_scaled_to_target() {
    let out = resize_image(&png_of(500, 1000), 200).unwrap();
    assert_eq!(dims_of(&out), (100, 200));
    assert_eq!(scaled_size(500, 1000, 200), (100, 200));
}

#[test]
fn scaled_size_rounds_down_and_keeps_one_pixel() {
    assert_eq!(scaled_size(300, 299, 100), (100, 99));
    assert_eq!(scaled_size(5000, 1, 100), (100, 1));
    assert_eq!(scaled_size(400, 400, 100), (100, 100));
}

#[test]
fn downscale_reports_images_within_bounds() {
    assert_eq!(downscale(&png_of(10, 20), 20), Ok(None));
    let out = downscale(&png_of(40, 20), 20).unwrap().unwrap();
    assert_eq!(dims_of(&out), (20, 10));
}

#[test]
fn undecodable_bytes_fail_to_resize() {
    assert_eq!(resize_image(b"not an image", 10), Err(MediaError::Decode));
}

#[test]
fn fill_color_becomes_current_color() {
    let out = recolor_svg_text(r##"<svg><path fill="#ff0000" d="M0"/></svg>"##);
    assert!(out.contains(r#"fill="currentColor""#));
    assert!(!out.contains("#ff0000"));
}

#[test]
fn fill_none_is_kept() {
    let out = recolor_svg_text(r#"<svg><path fill="none" stroke="blue"/></svg>"#);
    assert_eq!(out, r#"__INLINE_SVG__<svg><path fill="none" stroke="currentColor"/></svg>"#);
}

#[test]
fn svg_prologue_comments_and_size_are_dropped() {
    let src = "<?xml version=\"1.0\"?><!-- icon --><svg width=\"24\" height=\"24\" viewBox=\"0 0 24 24\" stroke-width=\"2\"><g style=\"fill: #333;stroke:none\"/></svg>";
    let out = recolor_svg_text(src);
    assert_eq!(
        out,
        "__INLINE_SVG__<svg viewBox=\"0 0 24 24\" stroke-width=\"2\"><g style=\"fill:currentColor;stroke:none\"/></svg>"
    );
}

#[test]
fn comments_end_at_their_closing_mark() {
    let out = recolor_svg_text("<!-- a > b\n c --><svg><!--x--><g/></svg>");
    assert_eq!(out, "__INLINE_SVG__<svg><g/></svg>");
    let open = recolor_svg_text("<svg><!-- never closed <g/></svg>");
    assert_eq!(open, "__INLINE_SVG__<svg><!-- never closed <g/></svg>");
}

#[test]
fn svg_bytes_must_be_utf8() {
    assert_eq!(process_svg_for_inline(&[0x3c, 0xff, 0xfe]), None);
    assert_eq!(
        process_svg_for_inline(b"<svg fill=\"red\"/>"),
        Some("__INLINE_SVG__<svg fill=\"currentColor\"/>".to_string())
    );
}

#[test]
fn classification_by_prefix() {
    assert_eq!(classify("data:image/png;base64,AA==", true), AssetSource::AlreadyEmbedded);
    assert_eq!(classify("https://x.example/a.png", false), AssetSource::Remote);
    assert_eq!(classify("http://x.example/a.png", false), AssetSource::Remote);
    assert_eq!(classify("//cdn.example/a.png", false), AssetSource::Remote);
    assert_eq!(classify("icons/a.png", true), AssetSource::LocalFile);
    assert_eq!(classify("🌐", false), AssetSource::Literal);
}

#[test]
fn data_uri_reference_is_kept() {
    let r = "data:image/png;base64,AAAA";
    let source = classify(r, false);
    assert_eq!(resolve_asset(r, source, None, Some(64)), r);
}

#[test]
fn literal_reference_is_kept() {
    let source = classify("🌐", false);
    assert_eq!(resolve_asset("🌐", source, None, Some(128)), "🌐");
}

#[test]
fn failed_fetch_keeps_the_address() {
    let url = "https://x.example/icon.png";
    assert_eq!(resolve_asset(url, AssetSource::Remote, None, Some(128)), url);
}

#[test]
fn fetched_svg_is_inlined() {
    let r = resolve_asset(
        "https://x.example/logo",
        AssetSource::Remote,
        Some(b"<svg stroke=\"#000\"/>".to_vec()),
        Some(128),
    );
    assert_eq!(r, "__INLINE_SVG__<svg stroke=\"currentColor\"/>");
}

#[test]
fn fetched_raster_without_target_keeps_its_type() {
    let r = resolve_asset(
        "https://x.example/pic.jpg?size=2",
        AssetSource::Remote,
        Some(vec![1, 2, 3]),
        None,
    );
    assert_eq!(r, "data:image/jpeg;base64,AQID");
}

#[test]
fn small_local_raster_keeps_its_own_type() {
    let png = png_of(4, 4);
    let r = resolve_asset("avatar.gif", AssetSource::LocalFile, Some(png.clone()), Some(64));
    assert_eq!(r, data_uri("image/gif", &png));
}

#[test]
fn small_remote_raster_keeps_its_own_type() {
    let png = png_of(8, 8);
    let url = "https://x.example/photo.jpg";
    let r = resolve_asset(url, AssetSource::Remote, Some(png.clone()), Some(64));
    assert_eq!(r, data_uri("image/jpeg", &png));
}

#[test]
fn large_raster_is_reencoded_as_png() {
    let r = resolve_asset("big.jpg", AssetSource::LocalFile, Some(png_of(300, 150)), Some(60));
    let payload = r.strip_prefix("data:image/png;base64,").unwrap();
    let bytes = base64::Engine::decode(&base64::engine::general_purpose::STANDARD, payload).unwrap();
    assert_eq!(dims_of(&bytes), (60, 30));
}

#[test]
fn undecodable_local_raster_keeps_its_type() {
    let r = resolve_asset("avatar.webp", AssetSource::LocalFile, Some(vec![0, 0, 0]), Some(64));
    assert_eq!(r, "data:image/webp;base64,AAAA");
}

#[test]
fn mime_types_from_addresses() {
    assert_eq!(remote_mime_exec("https://a/b.jpeg"), "image/jpeg");
    assert_eq!(remote_mime_exec("https://a/b.gif?x=1"), "image/gif");
    assert_eq!(remote_mime_exec("https://a/b.webp"), "image/webp");
    assert_eq!(remote_mime_exec("https://a/favicon.ico"), "image/x-icon");
    assert_eq!(remote_mime_exec("https://a/b"), "image/png");
}

#[test]
fn svg_sniffing() {
    assert!(sniff_svg(b"<?xml version"));
    assert!(sniff_svg(b"<svg x"));
    assert!(!sniff_svg(b"<svg"));
    assert!(!sniff_svg(b"\x89PNG"));
}

#[test]
fn data_uri_encodes_base64() {
    assert_eq!(data_uri("image/png", &[1, 2, 3]), "data:image/png;base64,AQID");
    assert_eq!(data_uri("image/gif", b"ab"), "data:image/gif;base64,YWI=");
}

#[test]
fn favicon_resolution_cases() {
    assert_eq!(resolve_favicon("", AssetSource::Literal, None, Some(64)), None);
    assert_eq!(resolve_favicon("missing.ico", AssetSource::Literal, None, Some(64)), None);
    assert_eq!(
        resolve_favicon("data:image/x-icon;base64,AA==", AssetSource::AlreadyEmbedded, None, Some(64)),
        Some("data:image/x-icon;base64,AA==".to_string())
    );
    assert_eq!(
        resolve_favicon("fav.svg", AssetSource::LocalFile, Some(b"<svg/>".to_vec()), Some(64)),
        Some("data:image/svg+xml;base64,PHN2Zy8+".to_string())
    );
    assert_eq!(
        resolve_favicon("fav.bin", AssetSource::LocalFile, Some(vec![1, 2, 3]), None),
        Some("data:image/x-icon;base64,AQID".to_string())
    );
    assert_eq!(
        resolve_favicon("https://a/f.ico", AssetSource::Remote, None, Some(64)),
        Some("https://a/f.ico".to_string())
    );
}

#[test]
fn qr_code_fits_in_two_hundred_pixels() {
    let uri = generate_qr_code("https://example.com").unwrap();
    let payload = uri.strip_prefix("data:image/png;base64,").unwrap();
    let bytes = base64::Engine::decode(&base64::engine::general_purpose::STANDARD, payload).unwrap();
    let (w, h) = dims_of(&bytes);
    assert_eq!(w, h);
    assert!(w <= 200 && w > 100);
}

#[test]
fn oversized_qr_payload_is_refused() {
    let url = format!("https://example.com/{}", "x".repeat(8000));
    assert_eq!(generate_qr_code(&url), Err(MediaError::QrCapacity));
}
