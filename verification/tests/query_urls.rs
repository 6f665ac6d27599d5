use waldl::query::{
    build_search_url, AspectRatio, CategoryMask, PageCap, PurityMask, SearchFilter,
};

fn filter(query: &str, ratio: AspectRatio) -> SearchFilter {
    SearchFilter {
        query: query.to_string(),
        categories: CategoryMask::all(),
        purity: PurityMask::safe_only(),
        aspect_ratio: ratio,
        max_pages: PageCap::new(5),
    }
}

#[test]
fn mountains_first_page() {
    let url = build_search_url(1, &filter("mountains", AspectRatio::Any));
    assert_eq!(
        url,
        "https://wallhaven.cc/api/v1/search?q=mountains&categories=111&purity=100&sorting=relevance&page=1"
    );
}

#[test]
fn any_ratio_sends_no_ratio_parameter() {
    let url = build_search_url(3, &filter("sea", AspectRatio::Any));
    assert!(!url.contains("ratios"));
    assert!(url.ends_with("&page=3"));
}

#[test]
fn wide_ratio_is_sent_once() {
    let url = build_search_url(2, &filter("sea", AspectRatio::Wide16x9));
    assert_eq!(url.matches("&ratios=").count(), 1);
    assert!(url.ends_with("&sorting=relevance&page=2&ratios=16x9"));
}

#[test]
fn ultra_wide_ratio_is_sent_once() {
    let url = build_search_url(2, &filter("sea", AspectRatio::Ultra21x9));
    assert_eq!(url.matches("&ratios=").count(), 1);
    assert!(url.ends_with("&ratios=21x9"));
}

#[test]
fn a_query_that_names_the_ratio_parameter_adds_none() {
    let url = build_search_url(1, &filter("a&ratios=16x9", AspectRatio::Any));
    assert_eq!(url.matches("&ratios=").count(), 0);
    assert!(url.contains("q=a%26ratios%3D16x9&categories="));
}

#[test]
fn query_text_is_percent_encoded() {
    let url = build_search_url(1, &filter("blue sky & sea/é~", AspectRatio::Any));
    assert_eq!(
        url,
        "https://wallhaven.cc/api/v1/search?q=blue%20sky%20%26%20sea%2F%C3%A9~&categories=111&purity=100&sorting=relevance&page=1"
    );
}

#[test]
fn unreserved_characters_pass_unchanged() {
    let url = build_search_url(1, &filter("Az09-._~", AspectRatio::Any));
    assert!(url.contains("?q=Az09-._~&"));
}

#[test]
fn masks_are_sent_as_bit_strings() {
    let mut f = filter("x", AspectRatio::Any);
    f.categories = CategoryMask { general: false, anime: true, people: false };
    f.purity = PurityMask { safe: true, sketchy: true, explicit: false };
    let url = build_search_url(1, &f);
    assert!(url.contains("&categories=010&purity=110&"));
}

#[test]
fn page_numbers_are_written_in_decimal() {
    assert!(build_search_url(10, &filter("x", AspectRatio::Any)).ends_with("&page=10"));
    assert!(build_search_url(0, &filter("x", AspectRatio::Any)).ends_with("&page=0"));
    assert!(build_search_url(4294967295, &filter("x", AspectRatio::Any))
        .ends_with("&page=4294967295"));
}

#[test]
fn page_cap_is_clamped() {
    assert_eq!(PageCap::new(0).get(), 1);
    assert_eq!(PageCap::new(1).get(), 1);
    assert_eq!(PageCap::new(25).get(), 25);
    assert_eq!(PageCap::new(50).get(), 50);
    assert_eq!(PageCap::new(51).get(), 50);
    assert_eq!(PageCap::new(u32::MAX).get(), 50);
}

#[test]
fn fresh_filter_has_the_defaults() {
    let f = SearchFilter::new();
    assert_eq!(f.query, "");
    assert_eq!(f.categories, CategoryMask { general: true, anime: true, people: true });
    assert_eq!(f.purity, PurityMask { safe: true, sketchy: false, explicit: false });
    assert_eq!(f.aspect_ratio, AspectRatio::Any);
    assert_eq!(f.max_pages.get(), 5);
}

#[test]
fn set_max_pages_clamps_and_keeps_the_rest() {
    let mut f = filter("forest", AspectRatio::Wide16x9);
    f.set_max_pages(900);
    assert_eq!(f.max_pages.get(), 50);
    f.set_max_pages(0);
    assert_eq!(f.max_pages.get(), 1);
    f.set_max_pages(7);
    assert_eq!(f.max_pages.get(), 7);
    assert_eq!(f.query, "forest");
    assert_eq!(f.aspect_ratio, AspectRatio::Wide16x9);
}
