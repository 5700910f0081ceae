use natgeo_wallpapers::MIN_PHOTO_SIZE_BYTES;
use natgeo_wallpapers::PhotoError;
use natgeo_wallpapers::PhotoCollection;
use natgeo_wallpapers::PhotoInfo;
use natgeo_wallpapers::CollectionDownloadResult;
use natgeo_wallpapers::downloaded_file_candidates;
use natgeo_wallpapers::extract_collection_name_from_url;
use natgeo_wallpapers::extract_natgeo_image_urls;
use natgeo_wallpapers::get_collection_photos;
use natgeo_wallpapers::get_extension_from_content_type;
use natgeo_wallpapers::is_collection_photo_filename;
use natgeo_wallpapers::is_natgeo_url;
use natgeo_wallpapers::photo_of_the_day_from_page;
use natgeo_wallpapers::photo_size_acceptable;
use natgeo_wallpapers::sanitize_title;
use natgeo_wallpapers::title_from_url;

#[test]
fn test_get_extension_from_content_type() {
    // Valid content types
    assert_eq!(
        get_extension_from_content_type("image/jpeg").unwrap(),
        "jpg"
    );
    assert_eq!(
        get_extension_from_content_type("image/jpeg; charset=utf-8").unwrap(),
        "jpg"
    );
    assert_eq!(get_extension_from_content_type("image/png").unwrap(), "png");
    assert_eq!(get_extension_from_content_type("image/gif").unwrap(), "gif");

    // Invalid content types
    assert!(get_extension_from_content_type("text/html").is_err());
    assert!(get_extension_from_content_type("application/pdf").is_err());
}

#[test]
fn test_sanitize_title_special_characters() {
    // Test various special characters
    assert_eq!(
        sanitize_title("Photo: 2024/01/20 | Test"),
        "Photo_2024_01_20_-_Test"
    );
    assert_eq!(
        sanitize_title("Test/Photo: Title|Name"),
        "Test_Photo_Title-Name"
    );

    // Verify problematic characters are removed
    let sanitized = sanitize_title("Bad/Path:Name|Value");
    assert!(!sanitized.contains("/"));
    assert!(!sanitized.contains(":"));
    assert!(!sanitized.contains("|"));
}

#[test]
fn test_sanitize_title_length_limit() {
    let long_title = "A".repeat(150);
    let sanitized = sanitize_title(&long_title);
    assert_eq!(sanitized.len(), 100);
}

#[test]
fn test_html_parsing_og_image() {
    // Simulate HTML with og:image meta tag
    let html = r#"<html><head><meta property="og:image" content="https://example.com/image.jpg"/></head></html>"#;

    let image_url = html
        .split("property=\"og:image\"")
        .nth(1)
        .and_then(|s| s.split("content=\"").nth(1))
        .and_then(|s| s.split('"').next())
        .unwrap_or("");

    assert_eq!(image_url, "https://example.com/image.jpg");
}

#[test]
fn test_html_parsing_og_title() {
    // Simulate HTML with og:title meta tag
    let html = r#"<html><head><meta property="og:title" content="Test Photo"/></head></html>"#;

    let title = html
        .split("property=\"og:title\"")
        .nth(1)
        .and_then(|s| s.split("content=\"").nth(1))
        .and_then(|s| s.split('"').next())
        .unwrap_or("");

    assert_eq!(title, "Test Photo");
}

#[test]
fn test_title_fallback_from_url() {
    // Test extracting filename from image URL
    let url = "https://i.natgeofe.com/n/d0888b52-1d37-403a-a25a-84c1dc53bbdf/NationalGeographic_433254.jpg";

    let filename = url
        .split('/')
        .next_back()
        .and_then(|filename| filename.split('.').next())
        .unwrap_or("photo-of-the-day");

    assert_eq!(filename, "NationalGeographic_433254");
}

#[test]
fn test_title_fallback_logic() {
    // Test that short/meaningless titles trigger fallback
    let og_title_test = "Test";
    let og_title_empty = "";
    let og_title_short = "Hi";
    let og_title_good = "Beautiful Sunset Over Mountains";

    // These should trigger fallback (too short or "Test")
    assert!(og_title_test.to_lowercase() == "test");
    assert!(og_title_empty.is_empty());
    assert!(og_title_short.len() < 5);

    // This should NOT trigger fallback
    assert!(og_title_good.len() >= 5);
    assert!(og_title_good.to_lowercase() != "test");
}

#[test]
fn test_extract_collection_name_from_url() {
    // Test various URL formats
    assert_eq!(
        extract_collection_name_from_url(
            "https://www.nationalgeographic.com/photography/article/best-photos-october-2018"
        ),
        "best-photos-october-2018"
    );
    assert_eq!(
        extract_collection_name_from_url(
            "https://www.nationalgeographic.com/photography/article/best-photos-september-2018"
        ),
        "best-photos-september-2018"
    );

    // Edge case: URL with trailing slash
    assert_eq!(
        extract_collection_name_from_url("https://example.com/path/to/collection/"),
        ""
    );

    // Edge case: simple path
    assert_eq!(
        extract_collection_name_from_url("collection-name"),
        "collection-name"
    );
}

#[test]
fn test_extract_natgeo_image_urls() {
    // Test HTML with multiple image URLs
    let html = r#"
        <img src="https://i.natgeofe.com/n/abc123/photo1.jpg">
        <img src="https://i.natgeofe.com/n/def456/photo2.jpg">
        <script>{"url": "https://i.natgeofe.com/n/ghi789/photo3.jpg"}</script>
    "#;

    let urls = extract_natgeo_image_urls(html);
    assert_eq!(urls.len(), 3);
    assert!(urls.contains(&"https://i.natgeofe.com/n/abc123/photo1.jpg".to_string()));
    assert!(urls.contains(&"https://i.natgeofe.com/n/def456/photo2.jpg".to_string()));
    assert!(urls.contains(&"https://i.natgeofe.com/n/ghi789/photo3.jpg".to_string()));
}

#[test]
fn test_extract_natgeo_image_urls_filters_crops() {
    // Test that crop variants are filtered out
    let html = r#"
        <img src="https://i.natgeofe.com/n/abc123/photo1.jpg">
        <img src="https://i.natgeofe.com/n/abc123/photo1_16x9.jpg">
        <img src="https://i.natgeofe.com/n/abc123/photo1_3x2.jpg">
        <img src="https://i.natgeofe.com/n/abc123/photo1_square.jpg">
    "#;

    let urls = extract_natgeo_image_urls(html);
    // Should only include the raw image, not crop variants
    assert_eq!(urls.len(), 1);
    assert!(urls.contains(&"https://i.natgeofe.com/n/abc123/photo1.jpg".to_string()));
}

#[test]
fn test_extract_natgeo_image_urls_deduplicates() {
    // Test that duplicate URLs are deduplicated
    let html = r#"
        <img src="https://i.natgeofe.com/n/abc123/photo1.jpg">
        <img src="https://i.natgeofe.com/n/abc123/photo1.jpg">
        <img src="https://i.natgeofe.com/n/abc123/photo1.jpg">
    "#;

    let urls = extract_natgeo_image_urls(html);
    assert_eq!(urls.len(), 1);
}

#[test]
fn test_extract_natgeo_image_urls_handles_query_params() {
    // Test that URLs with query parameters are handled correctly
    let html = r#"
        <img src="https://i.natgeofe.com/n/abc123/photo1.jpg?w=1200">
    "#;

    let urls = extract_natgeo_image_urls(html);
    assert_eq!(urls.len(), 1);
    // Should strip query params
    assert!(urls.contains(&"https://i.natgeofe.com/n/abc123/photo1.jpg".to_string()));
}

#[test]
fn test_photo_collection_struct() {
    let collection = PhotoCollection {
        name: "Best Photos - October 2018".to_string(),
        photos: vec![
            PhotoInfo {
                image_url: "https://example.com/photo1.jpg".to_string(),
                title: "Photo 1".to_string(),
            },
            PhotoInfo {
                image_url: "https://example.com/photo2.jpg".to_string(),
                title: "Photo 2".to_string(),
            },
        ],
    };

    assert_eq!(collection.name, "Best Photos - October 2018");
    assert_eq!(collection.photos.len(), 2);
    assert_eq!(collection.photos[0].title, "Photo 1");
    assert_eq!(collection.photos[1].title, "Photo 2");
}

#[test]
fn test_collection_download_result_struct() {
    let result = CollectionDownloadResult {
        downloaded: 5,
        skipped: 3,
        failed: 1,
    };

    assert_eq!(result.downloaded, 5);
    assert_eq!(result.skipped, 3);
    assert_eq!(result.failed, 1);
}

#[test]
fn test_is_collection_photo_filename() {
    // Should match "best-pod" patterns
    assert!(is_collection_photo_filename("01-best-pod-october-18"));
    assert!(is_collection_photo_filename("02-best-pod-september-18"));
    assert!(is_collection_photo_filename("09-best-pod-july-18"));
    assert!(is_collection_photo_filename("best_pod_landscapes"));
    assert!(is_collection_photo_filename("01-best_pod-august-18"));

    // Case insensitive
    assert!(is_collection_photo_filename("01-BEST-POD-October-18"));
    assert!(is_collection_photo_filename("BEST_POD_Landscapes"));

    // Should NOT match other patterns
    assert!(!is_collection_photo_filename("MossForest"));
    assert!(!is_collection_photo_filename("GettyImages-109899052"));
    assert!(!is_collection_photo_filename("disneyplus"));
    assert!(!is_collection_photo_filename("kids"));
    assert!(!is_collection_photo_filename("SPI-1162458"));
}

#[test]
fn test_min_photo_size_constant() {
    // Verify the minimum size is reasonable (50KB)
    assert_eq!(MIN_PHOTO_SIZE_BYTES, 50_000);
}

#[test]
fn photo_of_the_day_uses_page_title() {
    let html = r#"<html><head><meta property="og:image" content="https://example.com/image.jpg"/><meta property="og:title" content="A Grand Canyon Sunrise"/></head></html>"#;
    let info = photo_of_the_day_from_page(html).unwrap();
    assert_eq!(info.image_url, "https://example.com/image.jpg");
    assert_eq!(info.title, "A Grand Canyon Sunrise");
}

#[test]
fn photo_of_the_day_falls_back_to_file_name() {
    let html = r#"<html><head><meta property="og:image" content="https://example.com/NationalGeographic_433254.jpg"/><meta property="og:title" content="Test"/></head></html>"#;
    let info = photo_of_the_day_from_page(html).unwrap();
    assert_eq!(info.title, "NationalGeographic_433254");
}

#[test]
fn photo_of_the_day_rejects_page_without_image() {
    let html = "<html><head><title>nothing here</title></head></html>";
    match photo_of_the_day_from_page(html) {
        Err(PhotoError::InvalidContentType(m)) => {
            assert_eq!(m, "Could not extract image URL from page");
        }
        other => panic!("expected a content rejection, got {:?}", other),
    }
}

#[test]
fn collection_page_yields_matching_photos_in_order() {
    let html = r#"<html><head><meta property="og:title" content="Best Photos - July"/></head>
        <img src="https://i.natgeofe.com/n/a1/01-best-pod-july-18.jpg">
        <img src="https://i.natgeofe.com/n/a2/MossForest.jpg">
        <img src="https://i.natgeofe.com/n/a3/02-best-pod-july-18.jpg">
    "#;
    let c = get_collection_photos("https://www.nationalgeographic.com/x/july", html).unwrap();
    assert_eq!(c.name, "Best Photos - July");
    assert_eq!(c.photos.len(), 2);
    assert_eq!(c.photos[0].title, "01-best-pod-july-18");
    assert_eq!(
        c.photos[1].image_url,
        "https://i.natgeofe.com/n/a3/02-best-pod-july-18.jpg"
    );
}

#[test]
fn collection_page_name_falls_back_to_url() {
    let html = r#"<img src="https://i.natgeofe.com/n/a1/01-best-pod-july-18.jpg">"#;
    let c = get_collection_photos("https://example.com/articles/best-photos-july", html).unwrap();
    assert_eq!(c.name, "best-photos-july");
}

#[test]
fn collection_page_without_photos_is_rejected() {
    assert!(get_collection_photos("https://example.com/c", "<html></html>").is_err());
    // Photos present but none matching the collection pattern
    let html = r#"<img src="https://i.natgeofe.com/n/a2/MossForest.jpg">"#;
    assert!(get_collection_photos("https://example.com/c", html).is_err());
}

#[test]
fn title_from_url_strips_directory_and_extension() {
    assert_eq!(title_from_url("https://a.com/dir/photo-1.jpg"), "photo-1");
    assert_eq!(title_from_url("bare"), "bare");
}

#[test]
fn natgeo_urls_are_recognised() {
    assert!(is_natgeo_url(
        "https://www.nationalgeographic.com/photo-of-the-day"
    ));
    assert!(!is_natgeo_url("https://example.com/photo"));
}

#[test]
fn small_files_are_not_acceptable() {
    assert!(!photo_size_acceptable(49_999));
    assert!(photo_size_acceptable(50_000));
    assert!(photo_size_acceptable(1_000_000));
}

#[test]
fn downloaded_file_candidates_cover_the_extensions() {
    let v = downloaded_file_candidates("/tmp/photos", "a_title");
    assert_eq!(
        v,
        vec![
            "/tmp/photos/a_title.jpg".to_string(),
            "/tmp/photos/a_title.png".to_string(),
            "/tmp/photos/a_title.gif".to_string(),
        ]
    );
}

#[test]
fn sanitize_title_keeps_ordinary_text() {
    assert_eq!(sanitize_title(""), "");
    assert_eq!(sanitize_title("plain-name_1"), "plain-name_1");
}
