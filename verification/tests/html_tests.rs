use scrape::html::{map_resource_url_to_document, search_html, SourceType};

fn assert_map_resource_url(expected: &str, res_url: &str, doc_url: &str) {
    assert_eq!(
        expected.to_string(),
        map_resource_url_to_document(res_url.to_string(), &doc_url.to_string())
    );
}

#[test]
fn test_map_resource_url_to_document_when_at_document_path() {
    assert_map_resource_url(
        "https://host/file.css",
        "file.css",
        "https://host/index.html",
    );
    assert_map_resource_url("https://host/file.css", "file.css", "https://host/");
    assert_map_resource_url("https://host/file.css", "file.css", "https://host");
    assert_map_resource_url(
        "https://host/path/path/file.css",
        "file.css",
        "https://host/path/path/index.html",
    );
    assert_map_resource_url(
        "https://host/path/path/file.css",
        "file.css",
        "https://host/path/path/",
    );
    assert_map_resource_url(
        "https://host/path/file.css",
        "file.css",
        "https://host/path/path",
    );
}

#[test]
fn test_map_resource_url_to_document_when_at_document_host_root() {
    assert_map_resource_url(
        "https://host/file.css",
        "/file.css",
        "https://host/index.html",
    );
    assert_map_resource_url("https://host/file.css", "/file.css", "https://host/");
    assert_map_resource_url("https://host/file.css", "/file.css", "https://host");
    assert_map_resource_url(
        "https://host/file.css",
        "/file.css",
        "https://host/path/path/index.html",
    );
    assert_map_resource_url(
        "https://host/file.css",
        "/file.css",
        "https://host/path/path/",
    );
    assert_map_resource_url(
        "https://host/file.css",
        "/file.css",
        "https://host/path/path",
    );
}

#[test]
fn test_map_resource_url_to_document_when_relative_to_document() {
    assert_map_resource_url(
        "https://host/path1/file.css",
        "../file.css",
        "https://host/path1/path2/index.html",
    );
    assert_map_resource_url(
        "https://host/file.css",
        "../../file.css",
        "https://host/path1/path2/index.html",
    );
    assert_map_resource_url(
        "https://host/path1/file.css",
        "../../file.css",
        "https://host/path1/path2/path3/index.html",
    );
    assert_map_resource_url(
        "https://host/file.css",
        "../../file.css",
        "https://host/path/index.html",
    );
    assert_map_resource_url(
        "https://host/file.css",
        "../../file.css",
        "https://host/index.html",
    );
    assert_map_resource_url("https://host/file.css", "../../file.css", "https://host/");
    assert_map_resource_url("https://host/file.css", "../../file.css", "https://host");
}

#[test]
fn test_absolute_reference_is_unchanged() {
    assert_map_resource_url(
        "https://other/theme.css",
        "https://other/theme.css",
        "https://host/index.html",
    );
    assert_map_resource_url(
        "http://other/theme.css",
        "http://other/theme.css",
        "https://host/index.html",
    );
}

#[test]
fn test_resolver_is_total_without_scheme_separator() {
    // a malformed document URL yields a best-effort concatenation
    assert_map_resource_url("host/file.css", "file.css", "host");
    assert_map_resource_url("host/file.css", "/file.css", "host");
    assert_map_resource_url(
        "https://other/a.css",
        "https://other/a.css",
        "host-without-scheme",
    );
}

#[test]
fn test_search_html_finds_inline_and_linked_sources() {
    let doc_url = "https://host/path/index.html".to_string();
    let html = "<head>\n<style>body { color: #abc; }</style>\n\
                <link rel=\"stylesheet\" href=\"site.css\">\n</head>";
    let sources = search_html(&doc_url, html);
    assert_eq!(sources.len(), 2);
    match &sources[0] {
        SourceType::StyleTagCss { css } => {
            assert_eq!(css.as_str(), "body { color: #abc; }");
        }
        SourceType::LinkedCssFile { .. } => panic!(),
    }
    // the locator hands the href out raw, not yet resolved
    match &sources[1] {
        SourceType::LinkedCssFile { url } => {
            assert_eq!(url.as_str(), "site.css");
        }
        SourceType::StyleTagCss { .. } => panic!(),
    }
}

#[test]
fn test_search_html_keeps_document_order() {
    let doc_url = "https://host/index.html".to_string();
    let html = "<link href=\"/a.css\"><style>#111</style>";
    let sources = search_html(&doc_url, html);
    assert_eq!(sources.len(), 2);
    assert!(matches!(&sources[0], SourceType::LinkedCssFile { url } if url.as_str() == "/a.css"));
    assert!(matches!(&sources[1], SourceType::StyleTagCss { css } if css.as_str() == "#111"));
}

#[test]
fn test_plan_sources_resolves_references() {
    let doc_url = "https://host/path/index.html".to_string();
    let html = "<link href=\"site.css\"><link href=\"/root.css\">";
    let sources = scrape::plan_sources(&doc_url, 200, html).unwrap();
    assert_eq!(sources.len(), 2);
    assert!(
        matches!(&sources[0], SourceType::LinkedCssFile { url } if url.as_str() == "https://host/path/site.css")
    );
    assert!(
        matches!(&sources[1], SourceType::LinkedCssFile { url } if url.as_str() == "https://host/root.css")
    );
}

#[test]
fn test_search_html_without_sources() {
    let doc_url = "https://host/index.html".to_string();
    let sources = search_html(&doc_url, "<p>plain text, no styling</p>");
    assert!(sources.is_empty());
    // a link without an href is no stylesheet candidate
    let none = search_html(&doc_url, "<link rel=\"preconnect\">");
    assert!(none.is_empty());
}
