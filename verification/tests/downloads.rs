use waldl::download::{
    apply_policy, download_file_name, download_status, file_name_from_digest, package,
    prepare_download, DownloadError, DownloadPolicy,
};
use waldl::raster::Raster;

fn png_with(width: u32, height: u32, pixel: [u8; 4]) -> Vec<u8> {
    let img = image::RgbaImage::from_pixel(width, height, image::Rgba(pixel));
    let mut out = std::io::Cursor::new(Vec::new());
    image::DynamicImage::ImageRgba8(img).write_to(&mut out, image::ImageFormat::Png).unwrap();
    out.into_inner()
}

#[test]
fn file_name_is_the_sha1_of_the_url_text() {
    assert_eq!(download_file_name("abc"), "a9993e364706816aba3e25717850c26c9cd0d89d.jpg");
    assert_eq!(download_file_name(""), "da39a3ee5e6b4b0d3255bfef95601890afd80709.jpg");
    assert_eq!(
        download_file_name("https://w.wallhaven.cc/full/zy/wallhaven-zyxvqy.jpg"),
        "6a703256e2cd096c316481d5b60b61faceb016d1.jpg"
    );
}

#[test]
fn file_name_has_forty_hex_digits() {
    let name = download_file_name("https://w.wallhaven.cc/full/1k/wallhaven-1kxyz9.png");
    assert_eq!(name.len(), 44);
    assert!(name.ends_with(".jpg"));
    assert!(name[..40].chars().all(|c| c.is_ascii_digit() || ('a'..='f').contains(&c)));
}

#[test]
fn file_name_from_digest_is_lower_case_hex() {
    assert_eq!(file_name_from_digest(&[0x00, 0xff, 0x1a, 0xb2]), "00ff1ab2.jpg");
    assert_eq!(file_name_from_digest(&[]), ".jpg");
}

#[test]
fn same_url_same_name_whatever_the_image() {
    let url = "https://w.wallhaven.cc/full/zy/wallhaven-zyxvqy.jpg";
    let first = prepare_download(url, Some(&png_with(2, 2, [255, 0, 0, 255])), DownloadPolicy::NativeResolution)
        .unwrap();
    let second = prepare_download(url, Some(&png_with(4, 3, [0, 0, 255, 255])), DownloadPolicy::NativeResolution)
        .unwrap();
    assert_eq!(first.file_name, second.file_name);
    assert_eq!(first.file_name, "6a703256e2cd096c316481d5b60b61faceb016d1.jpg");
    assert_ne!(first.jpeg, second.jpeg);
}

#[test]
fn a_failed_request_gives_a_network_error() {
    let result = prepare_download("abc", None, DownloadPolicy::NativeResolution);
    assert_eq!(result.unwrap_err(), DownloadError::Network);
}

#[test]
fn bytes_that_are_no_image_give_a_decode_error() {
    let result = prepare_download("abc", Some(b"<html>404</html>"), DownloadPolicy::FixedCanvas);
    assert_eq!(result.unwrap_err(), DownloadError::Decode);
}

#[test]
fn native_resolution_keeps_the_size() {
    let plan = prepare_download("abc", Some(&png_with(5, 3, [40, 80, 120, 255])), DownloadPolicy::NativeResolution)
        .unwrap();
    assert_eq!(&plan.jpeg[0..2], &[0xff, 0xd8]);
    let back = image::load_from_memory(&plan.jpeg).unwrap();
    assert_eq!((back.width(), back.height()), (5, 3));
    assert_eq!(image::guess_format(&plan.jpeg).unwrap(), image::ImageFormat::Jpeg);
}

#[test]
fn fixed_canvas_resizes_small_images() {
    let image = Raster { width: 2, height: 1, rgba: vec![10, 20, 30, 255, 10, 20, 30, 255] };
    let canvas = apply_policy(image, DownloadPolicy::FixedCanvas);
    assert_eq!((canvas.width, canvas.height), (3840, 2160));
    assert_eq!(canvas.rgba.len(), 3840 * 2160 * 4);
}

#[test]
fn native_policy_hands_the_image_on() {
    let image = Raster { width: 2, height: 1, rgba: vec![10, 20, 30, 255, 1, 2, 3, 255] };
    let canvas = apply_policy(image, DownloadPolicy::NativeResolution);
    assert_eq!((canvas.width, canvas.height), (2, 1));
    assert_eq!(canvas.rgba, vec![10, 20, 30, 255, 1, 2, 3, 255]);
}

#[test]
fn an_image_too_large_for_jpeg_gives_an_io_error() {
    let wide = png_with(70000, 1, [0, 0, 0, 255]);
    let result = prepare_download("abc", Some(&wide), DownloadPolicy::NativeResolution);
    assert_eq!(result.unwrap_err(), DownloadError::Io);
}

#[test]
fn package_needs_an_encoding() {
    assert_eq!(package("a.jpg".to_string(), None).unwrap_err(), DownloadError::Io);
    let plan = package("a.jpg".to_string(), Some(vec![1, 2, 3])).unwrap();
    assert_eq!(plan.file_name, "a.jpg");
    assert_eq!(plan.jpeg, vec![1, 2, 3]);
}

#[test]
fn status_reports_the_saved_path_or_one_failure_text() {
    assert_eq!(download_status(Ok("/tmp/a b/x.jpg")), "Saved wallpaper to /tmp/a b/x.jpg");
    assert_eq!(download_status(Err(DownloadError::Network)), "Failed to download wallpaper");
    assert_eq!(download_status(Err(DownloadError::Decode)), "Failed to download wallpaper");
    assert_eq!(download_status(Err(DownloadError::Io)), "Failed to download wallpaper");
}
