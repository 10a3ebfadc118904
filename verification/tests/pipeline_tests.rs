use scrape::color::Color;
use scrape::html::SourceType;
use scrape::{
    plan_sources, response_is_success, site_colors, stylesheet_colors, ColorScrapeError,
    SiteColors,
};

fn run_pipeline(
    url: &str,
    document: (u16, &str),
    stylesheet: Option<(u16, &str)>,
) -> Result<SiteColors, ColorScrapeError> {
    let url = url.to_string();
    let sources = plan_sources(&url, document.0, document.1)?;
    let mut fetched = Vec::new();
    for source in &sources {
        if let SourceType::LinkedCssFile { url: _linked } = source {
            let (status, body) = stylesheet.expect("no stylesheet response on hand");
            fetched.push((status, body.to_string()));
        }
    }
    site_colors(url, &sources, &fetched)
}

#[test]
fn test_two_inline_blocks_give_two_colors() {
    let html = "<style>a { color: #123; }</style>\n<style>b { color: #456; }</style>";
    let result = run_pipeline("https://host/index.html", (200, html), None).unwrap();
    assert_eq!(result.colors.len(), 2);
    assert_eq!(
        result.colors,
        vec![Color::rgb(17, 34, 51), Color::rgb(68, 85, 102)]
    );
}

#[test]
fn test_inline_before_linked_preserves_discovery_order() {
    let html = "<style>a { color: #111; }</style>\n<link href=\"more.css\">";
    let css = ":green;\nb { color: rgb(1 2 3) }";
    let result = run_pipeline("https://host/index.html", (200, html), Some((200, css))).unwrap();
    assert_eq!(result.colors.len(), 3);
    assert_eq!(
        result.colors,
        vec![
            Color::rgb(17, 17, 17),
            Color::rgb(1, 2, 3),
            Color::rgb(0, 128, 0),
        ]
    );
}

#[test]
fn test_bad_document_status_aborts() {
    let outcome = run_pipeline("https://host/index.html", (404, "<style>#111</style>"), None);
    assert!(matches!(outcome, Err(ColorScrapeError::BadDocumentResponse)));
}

#[test]
fn test_bad_stylesheet_status_aborts() {
    let html = "<link href=\"more.css\">";
    let outcome = run_pipeline("https://host/index.html", (200, html), Some((500, "#111")));
    assert!(matches!(outcome, Err(ColorScrapeError::BadDocumentResponse)));
}

#[test]
fn test_stylesheet_colors_decision() {
    let ok = stylesheet_colors(200, "#123").unwrap();
    assert_eq!(ok, vec![Color::rgb(17, 34, 51)]);
    assert!(matches!(
        stylesheet_colors(301, "#123"),
        Err(ColorScrapeError::BadDocumentResponse)
    ));
}

#[test]
fn test_missing_outcome_is_a_transport_failure() {
    let url = "https://host/index.html".to_string();
    let sources = plan_sources(&url, 200, "<link href=\"a.css\">").unwrap();
    let fetched: Vec<(u16, String)> = Vec::new();
    let outcome = site_colors(url, &sources, &fetched);
    assert!(matches!(outcome, Err(ColorScrapeError::FetchDocumentError)));
}

#[test]
fn test_response_status_range() {
    assert!(!response_is_success(199));
    assert!(response_is_success(200));
    assert!(response_is_success(204));
    assert!(response_is_success(299));
    assert!(!response_is_success(300));
    assert!(!response_is_success(500));
}

#[test]
fn test_error_variants_are_distinct() {
    assert_ne!(
        ColorScrapeError::FetchDocumentError,
        ColorScrapeError::BadDocumentResponse
    );
}
