use waldl::aggregate::{FetchError, ImageResult, SearchOutcome};
use waldl::download::DownloadError;
use waldl::gallery::Gallery;
use waldl::raster::Raster;
use waldl::thumbs::ThumbnailCache;

fn png_of(width: u32, height: u32, pixel: [u8; 4]) -> Vec<u8> {
    let img = image::RgbaImage::from_pixel(width, height, image::Rgba(pixel));
    let mut out = std::io::Cursor::new(Vec::new());
    image::DynamicImage::ImageRgba8(img).write_to(&mut out, image::ImageFormat::Png).unwrap();
    out.into_inner()
}

fn outcome_with(urls: &[&str]) -> SearchOutcome {
    SearchOutcome {
        results: urls
            .iter()
            .map(|u| ImageResult { full_image_url: u.to_string(), thumbnail_url: u.to_string() })
            .collect(),
        pages_planned: 1,
        pages_loaded: 1,
        pages_available: 1,
        per_page: 24,
    }
}

#[test]
fn decode_gives_the_pixels() {
    let raster = Raster::decode(&png_of(2, 1, [10, 20, 30, 255])).unwrap();
    assert_eq!(raster.width, 2);
    assert_eq!(raster.height, 1);
    assert_eq!(raster.rgba, vec![10, 20, 30, 255, 10, 20, 30, 255]);
}

#[test]
fn decode_refuses_what_is_no_image() {
    assert!(Raster::decode(b"certainly not an image").is_none());
    assert!(Raster::decode(&[]).is_none());
}

#[test]
fn a_new_cache_is_empty() {
    let cache = ThumbnailCache::new();
    assert_eq!(cache.len(), 0);
    assert!(cache.lookup("https://t.example/a.jpg").is_none());
}

#[test]
fn a_fetched_thumbnail_is_held_and_found_again() {
    let mut cache = ThumbnailCache::new();
    let url = "https://t.example/a.jpg";
    let mut fetches = 0;
    for _ in 0..2 {
        if cache.lookup(url).is_none() {
            fetches += 1;
            assert!(cache.fill(url, Some(&png_of(3, 2, [1, 2, 3, 4]))));
        }
    }
    assert_eq!(fetches, 1);
    let held = cache.lookup(url).unwrap();
    assert_eq!((held.width, held.height), (3, 2));
    assert_eq!(held.rgba.len(), 24);
    assert_eq!(&held.rgba[0..4], &[1, 2, 3, 4]);
    assert_eq!(cache.len(), 1);
}

#[test]
fn a_failed_fetch_leaves_no_entry() {
    let mut cache = ThumbnailCache::new();
    assert!(!cache.fill("https://t.example/a.jpg", None));
    assert!(cache.lookup("https://t.example/a.jpg").is_none());
    assert_eq!(cache.len(), 0);
}

#[test]
fn a_failed_decode_leaves_no_entry_and_a_retry_heals() {
    let mut cache = ThumbnailCache::new();
    let url = "https://t.example/a.jpg";
    assert!(!cache.fill(url, Some(b"garbage")));
    assert!(cache.lookup(url).is_none());
    assert!(cache.fill(url, Some(&png_of(1, 1, [9, 9, 9, 255]))));
    assert!(cache.lookup(url).is_some());
}

#[test]
fn a_failed_fetch_keeps_what_is_held() {
    let mut cache = ThumbnailCache::new();
    let url = "https://t.example/a.jpg";
    assert!(cache.fill(url, Some(&png_of(1, 1, [9, 9, 9, 255]))));
    assert!(cache.fill(url, None));
    assert!(cache.fill(url, Some(b"garbage")));
    assert_eq!(cache.lookup(url).unwrap().rgba, vec![9, 9, 9, 255]);
    assert_eq!(cache.len(), 1);
}

#[test]
fn entries_are_kept_apart_by_url() {
    let mut cache = ThumbnailCache::new();
    cache.fill("a", Some(&png_of(1, 1, [1, 0, 0, 255])));
    cache.fill("b", Some(&png_of(2, 2, [0, 1, 0, 255])));
    cache.fill("c", None);
    assert_eq!(cache.len(), 2);
    assert_eq!(cache.lookup("a").unwrap().width, 1);
    assert_eq!(cache.lookup("b").unwrap().width, 2);
    assert!(cache.lookup("c").is_none());
}

#[test]
fn storing_again_replaces_the_entry() {
    let mut cache = ThumbnailCache::new();
    cache.store("a", Some(Raster { width: 1, height: 1, rgba: vec![1, 1, 1, 1] }));
    cache.store("a", Some(Raster { width: 1, height: 1, rgba: vec![2, 2, 2, 2] }));
    cache.store("a", None);
    assert_eq!(cache.len(), 1);
    assert_eq!(cache.lookup("a").unwrap().rgba, vec![2, 2, 2, 2]);
}

#[test]
fn clear_drops_every_entry() {
    let mut cache = ThumbnailCache::new();
    cache.fill("a", Some(&png_of(1, 1, [1, 0, 0, 255])));
    cache.fill("b", Some(&png_of(1, 1, [0, 1, 0, 255])));
    cache.clear();
    assert_eq!(cache.len(), 0);
    assert!(cache.lookup("a").is_none());
    assert!(cache.lookup("b").is_none());
}

#[test]
fn a_new_search_clears_the_thumbnails() {
    let mut gallery = Gallery::new();
    gallery.install_search(Ok(outcome_with(&["a", "b"])));
    assert_eq!(gallery.results.len(), 2);
    assert!(gallery.thumbnail_fetched("a", Some(&png_of(1, 1, [5, 5, 5, 255]))));
    assert!(gallery.thumbnail("a").is_some());
    gallery.install_search(Ok(outcome_with(&["a"])));
    assert!(gallery.thumbnail("a").is_none());
    assert_eq!(gallery.thumbnails.len(), 0);
    assert_eq!(gallery.status, "Found 1 results (pages loaded: 1/1, per page: 24)");
}

#[test]
fn an_empty_search_clears_the_thumbnails_too() {
    let mut gallery = Gallery::new();
    gallery.install_search(Ok(outcome_with(&["a"])));
    gallery.thumbnail_fetched("a", Some(&png_of(1, 1, [5, 5, 5, 255])));
    gallery.install_search(Ok(outcome_with(&[])));
    assert!(gallery.results.is_empty());
    assert_eq!(gallery.thumbnails.len(), 0);
}

#[test]
fn a_failed_search_leaves_no_results_and_no_thumbnails() {
    let mut gallery = Gallery::new();
    gallery.install_search(Ok(outcome_with(&["a"])));
    gallery.thumbnail_fetched("a", Some(&png_of(1, 1, [5, 5, 5, 255])));
    gallery.install_search(Err(FetchError::Parse));
    assert!(gallery.results.is_empty());
    assert_eq!(gallery.thumbnails.len(), 0);
    assert_eq!(gallery.status, "Failed to parse API response");
    gallery.install_search(Err(FetchError::Network));
    assert_eq!(gallery.status, "Failed to fetch from Wallhaven");
}

#[test]
fn a_thumbnail_fetch_leaves_results_and_status() {
    let mut gallery = Gallery::new();
    gallery.install_search(Ok(outcome_with(&["a", "b"])));
    let status = gallery.status.clone();
    assert!(!gallery.thumbnail_fetched("a", None));
    assert!(gallery.thumbnail_fetched("b", Some(&png_of(1, 1, [5, 5, 5, 255]))));
    assert_eq!(gallery.results.len(), 2);
    assert_eq!(gallery.status, status);
}

#[test]
fn a_failed_download_replaces_the_status() {
    let mut gallery = Gallery::new();
    gallery.download_finished(Ok("/home/u/Downloads/x.jpg"));
    assert_eq!(gallery.status, "Saved wallpaper to /home/u/Downloads/x.jpg");
    gallery.download_finished(Err(DownloadError::Network));
    assert_eq!(gallery.status, "Failed to download wallpaper");
}
