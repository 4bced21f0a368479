use wry_composition::text::{begins_with, decimal_text, replace_occurrences};
use wry_composition::uri::{
    apply_uri_work_around, is_work_around_uri, original_uri_prefix, revert_uri_work_around,
    work_around_uri_prefix,
};

#[test]
fn checks_if_custom_protocol_uri() {
    let scheme = "http";
    let uri = "http://wry.localhost/path/to/page";
    assert!(is_work_around_uri(uri, scheme, "wry"));
    assert!(!is_work_around_uri(uri, scheme, "asset"));
}

#[test]
fn recognises_the_prefix_only_at_the_start_and_whole() {
    assert!(!is_work_around_uri("x http://wry.localhost", "http", "wry"));
    assert!(!is_work_around_uri("http://wry", "http", "wry"));
    assert!(is_work_around_uri("http://wry.", "http", "wry"));
    assert!(!is_work_around_uri("https://wry.localhost", "http", "wry"));
    assert!(is_work_around_uri("https://wry.localhost", "https", "wry"));
    assert!(!is_work_around_uri("", "http", "wry"));
}

#[test]
fn prefixes_are_spelled_out() {
    assert_eq!(original_uri_prefix("wry"), "wry://");
    assert_eq!(work_around_uri_prefix("https", "wry"), "https://wry.");
}

#[test]
fn converts_a_custom_protocol_uri() {
    assert_eq!(
        apply_uri_work_around("wry://localhost/abc", "http", "wry"),
        "http://wry.localhost/abc"
    );
    assert_eq!(
        apply_uri_work_around("wry://localhost/?next=wry://localhost/b", "https", "wry"),
        "https://wry.localhost/?next=https://wry.localhost/b"
    );
    assert_eq!(
        revert_uri_work_around("http://wry.localhost/abc", "http", "wry"),
        "wry://localhost/abc"
    );
}

#[test]
fn keeps_other_uris() {
    let uri = "https://example.com/é/ü";
    assert_eq!(apply_uri_work_around(uri, "http", "wry"), uri);
    assert_eq!(revert_uri_work_around(uri, "http", "wry"), uri);
}

#[test]
fn converted_uri_is_recognised() {
    let converted = apply_uri_work_around("asset://a", "http", "asset");
    assert!(is_work_around_uri(&converted, "http", "asset"));
}

#[test]
fn round_trip_restores_the_uri() {
    let uris = [
        "wry://localhost/é",
        "plain",
        "",
        "wry://wry://x",
        "xwry://",
        "http://asset.x wry://y",
    ];
    for uri in uris {
        let loaded = apply_uri_work_around(uri, "http", "wry");
        assert_eq!(revert_uri_work_around(&loaded, "http", "wry"), uri);
    }
    let loaded = "http://wry.localhost/é";
    let known = revert_uri_work_around(loaded, "http", "wry");
    assert_eq!(apply_uri_work_around(&known, "http", "wry"), loaded);
}

#[test]
fn round_trip_fails_where_the_work_around_prefix_is_there_already() {
    let uri = "http://wry.localhost";
    let loaded = apply_uri_work_around(uri, "http", "wry");
    assert_eq!(revert_uri_work_around(&loaded, "http", "wry"), "wry://localhost");
    // A work-around prefix that overlaps an original one is restored.
    let uri = "http://http.localhost";
    let loaded = apply_uri_work_around(uri, "http", "http");
    assert_eq!(loaded, "http://http.http.localhost");
    assert_eq!(revert_uri_work_around(&loaded, "http", "http"), uri);
}

#[test]
fn round_trip_restores_the_uri_under_unusual_names() {
    // The original prefix overlaps itself.
    let uri = "x://://://y";
    let loaded = apply_uri_work_around(uri, "h", "://");
    assert_eq!(loaded, "xh://://.://y");
    assert_eq!(revert_uri_work_around(&loaded, "h", "://"), uri);
    // The host scheme has a dot.
    let loaded = ".://wry.x";
    let known = revert_uri_work_around(loaded, ".", "wry");
    assert_eq!(known, "wry://x");
    assert_eq!(apply_uri_work_around(&known, ".", "wry"), loaded);
    // With a dot the work-around prefix may overlap itself.
    let loaded = apply_uri_work_around(".://xx://", ".", "x");
    assert_eq!(loaded, ".://x.://x.");
    assert_eq!(revert_uri_work_around(&loaded, ".", "x"), "x://://x.");
}

#[test]
fn replacement_is_leftmost_and_does_not_overlap() {
    assert_eq!(replace_occurrences("aaaaa", "aa", "b"), "bba");
    assert_eq!(replace_occurrences("abcabc", "bc", ""), "aa");
    assert_eq!(replace_occurrences("äöäö", "öä", "ö-ä"), "äö-äö");
    assert_eq!(replace_occurrences("", "x", "y"), "");
    for text in ["aaaaa", "xaxaxa", "áá", "b"] {
        for from in ["a", "aa", "xa", "á"] {
            assert_eq!(replace_occurrences(text, from, "a?"), text.replace(from, "a?"));
        }
    }
}

#[test]
fn numbers_are_written_in_decimal() {
    assert_eq!(decimal_text(0), "0");
    assert_eq!(decimal_text(9), "9");
    assert_eq!(decimal_text(10), "10");
    assert_eq!(decimal_text(1234567890), "1234567890");
    assert_eq!(decimal_text(u32::MAX), "4294967295");
}

#[test]
fn a_text_begins_with_its_prefixes() {
    assert!(begins_with("äb", ""));
    assert!(begins_with("äb", "ä"));
    assert!(!begins_with("äb", "a"));
    assert!(!begins_with("a", "ab"));
}
