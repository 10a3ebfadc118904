use scrape::color::Color;
use scrape::css::extract_colors;

fn test_css(css: &str, expected: Color) {
    let result = extract_colors(css);
    assert!(!result.is_empty());
    assert_eq!(result[0], expected);
}

#[test]
fn test_extracts_hex_colors() {
    test_css("#000", Color::rgb(0, 0, 0));
    test_css("#fff", Color::rgb(255, 255, 255));
    test_css("#f0ff", Color::rgb(255, 0, 255));
    test_css("#ffffff", Color::rgb(255, 255, 255));
    test_css("#000000ee", Color::rgba(0, 0, 0, 238));
}

#[test]
fn test_extracts_rgb_colors() {
    test_css("rgb(12, 45, 78)", Color::rgb(12, 45, 78));
    test_css("rgb(12, 45, 78, 255)", Color::rgb(12, 45, 78));
    test_css("rgb(123,45,78)", Color::rgba(123, 45, 78, 255));
    test_css("rgba(23, 22, 11, 255)", Color::rgb(23, 22, 11));
    test_css("rgba(123,222,111,0)", Color::rgba(123, 222, 111, 0));
    test_css("rgb(1 2 3)", Color::rgba(1, 2, 3, 255));
    test_css("rgb(4    5   6)", Color::rgb(4, 5, 6));
    test_css("rgba(7 8 9 / 1)", Color::rgb(7, 8, 9));
    test_css("rgba(10 11 12 / 0)", Color::rgba(10, 11, 12, 0));
    test_css("rgb(9 8 7 / .5)", Color::rgba(9, 8, 7, 127));
    test_css("rgb(6 5 4 / 50%)", Color::rgba(6, 5, 4, 127));
    test_css("rgb(1% 11% 100% / .5)", Color::rgba(2, 28, 255, 127));
    test_css("rgb(2% 22% 100% / 50%)", Color::rgba(5, 56, 255, 127));
}

#[test]
fn test_extracts_hsl_colors() {
    test_css("hsl(360 100% 50%)", Color::rgb(255, 0, 0));
    test_css("hsl(150 70% 20% / .5)", Color::rgba(15, 86, 51, 127));
    test_css("hsl(360, 100%, 50%, .5)", Color::rgba(255, 0, 0, 127));
    test_css("hsla(360 100% 50% / .5)", Color::rgba(255, 0, 0, 127));
    test_css("hsla(360, 100%, 50%, .5)", Color::rgba(255, 0, 0, 127));
    test_css("hsla(360, 100%, 50%, .5)", Color::rgba(255, 0, 0, 127));
}

#[test]
fn test_extracts_hwb_colors() {
    test_css("hwb(194 0% 0%)", Color::rgb(0, 195, 255));
    test_css("hwb(194 0% 0% / .5)", Color::rgba(0, 195, 255, 127));
}

#[test]
fn test_extracts_keyword_colors() {
    test_css(":green;", Color::rgb(0, 128, 0));
}

#[test]
fn test_keyword_needs_declaration_frame() {
    // a bare keyword without the colon/semicolon frame is not a color
    assert!(extract_colors("green").is_empty());
    assert!(extract_colors("green;").is_empty());
    assert!(extract_colors(":green").is_empty());
    // whitespace and newlines inside the frame are tolerated
    test_css(":  green \n;", Color::rgb(0, 128, 0));
}

#[test]
fn test_comma_and_space_separators_are_equivalent() {
    let commas = extract_colors("rgb(12, 45, 78)");
    let spaces = extract_colors("rgb(12 45 78)");
    assert_eq!(commas, spaces);
    assert_eq!(commas, vec![Color::rgb(12, 45, 78)]);
}

#[test]
fn test_extraction_is_idempotent() {
    let text = "a { color: #abc; } b { color: rgb(1 2 3); } c { color: #abc; }";
    let first = extract_colors(text);
    let second = extract_colors(text);
    assert_eq!(first, second);
}

#[test]
fn test_duplicates_within_one_text_collapse() {
    let result = extract_colors("#fff #fff");
    assert_eq!(result, vec![Color::rgb(255, 255, 255)]);
    // the same color in two notations is one color
    let cross = extract_colors("#ff0000 rgb(255 0 0)");
    assert_eq!(cross, vec![Color::rgb(255, 0, 0)]);
}

#[test]
fn test_extraction_keeps_match_order() {
    let result = extract_colors("#111 #222");
    assert_eq!(
        result,
        vec![Color::rgb(17, 17, 17), Color::rgb(34, 34, 34)]
    );
}

#[test]
fn test_malformed_candidates_are_discarded() {
    // seven hex digits parse as no color
    assert!(extract_colors("#1234567").is_empty());
    // wrong argument counts are discarded, the scan goes on
    assert_eq!(
        extract_colors("rgb(1 2 3 4 5) #333"),
        vec![Color::rgb(51, 51, 51)]
    );
    assert!(extract_colors("").is_empty());
}

#[test]
fn test_misplaced_separators_are_discarded() {
    // at most one separator between consecutive arguments
    assert!(extract_colors("rgb(1,,2,3)").is_empty());
    assert!(extract_colors("rgb(,1 2 3)").is_empty());
    assert!(extract_colors("rgb(1 2 3,)").is_empty());
    // a slash only introduces the alpha argument
    assert!(extract_colors("rgb(1 2 3 /)").is_empty());
    assert!(extract_colors("rgb(1 2 / 3)").is_empty());
    assert!(extract_colors("rgb(1 / 2 / 3)").is_empty());
}

#[test]
fn test_hue_rejects_percentages() {
    assert!(extract_colors("hsl(50% 100% 50%)").is_empty());
    assert!(extract_colors("hwb(10% 0% 0%)").is_empty());
}

#[test]
fn test_oversized_numbers_are_discarded() {
    // more than fifteen whole digits is no channel value
    assert!(extract_colors("rgb(1234567890123456 0 0)").is_empty());
}

#[test]
fn test_hwb_normalizes_gray() {
    // whiteness and blackness summing past one yield a normalized gray
    let result = extract_colors("hwb(0 60% 60%)");
    assert_eq!(result, vec![Color::rgb(127, 127, 127)]);
}

#[test]
fn test_parse_hex_functions() {
    assert_eq!(scrape::css::parse_hex("ee"), Some(238));
    assert_eq!(scrape::css::parse_hex("0A"), Some(10));
    assert_eq!(scrape::css::parse_hex("e"), Some(14));
    assert_eq!(scrape::css::parse_hex("f"), Some(15));
    assert_eq!(scrape::css::parse_hex("zz"), None);
    assert_eq!(scrape::css::parse_hex(""), None);
    assert_eq!(scrape::css::parse_hex("abc"), None);
    assert_eq!(scrape::css::parse_hex_shorthand("f"), Some(255));
    assert_eq!(scrape::css::parse_hex_shorthand("0"), Some(0));
    assert_eq!(scrape::css::parse_hex_shorthand("q"), None);
    assert_eq!(
        scrape::css::parse_hex_rgb_str("000000ee"),
        Some(Color::rgba(0, 0, 0, 238))
    );
    assert_eq!(
        scrape::css::parse_hex_rgb_str("abc"),
        Some(Color::rgb(170, 187, 204))
    );
    assert_eq!(scrape::css::parse_hex_rgb_str("abcde"), None);
}

#[test]
fn test_parse_keyword_str() {
    assert_eq!(
        scrape::keyword::parse_keyword_str("green"),
        Some(Color::rgb(0, 128, 0))
    );
    assert_eq!(
        scrape::keyword::parse_keyword_str("cornflowerblue"),
        Some(Color::rgb(100, 149, 237))
    );
    assert_eq!(scrape::keyword::parse_keyword_str("notacolor"), None);
}
