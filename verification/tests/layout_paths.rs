use wmd::args::{CommonArgs, HttpCacheMode};
use wmd::layout::{
    canonical_base, final_path, http_cache_dir, join_path, manifest_url, source_url, staging_dir,
    versions_url,
};
use wmd::text::{char_is_digit, join_text, starts_with, str_eq};

#[test]
fn final_path_mirrors_dump_version_job_and_name() {
    assert_eq!(
        final_path(
            "./out",
            "enwiki",
            "20230301",
            "metacurrentdumprecombine",
            "enwiki-20230301-pages-articles.xml.bz2"
        ),
        "./out/enwiki/20230301/metacurrentdumprecombine/enwiki-20230301-pages-articles.xml.bz2"
    );
}

#[test]
fn join_adds_one_separator() {
    assert_eq!(join_path("out", "x"), "out/x");
    assert_eq!(join_path("out/", "x"), "out/x");
    assert_eq!(join_path("", "x"), "x");
    assert_eq!(join_path("/", "x"), "/x");
    assert_eq!(join_path("out", ""), "out/");
}

#[test]
fn staging_and_cache_have_reserved_names() {
    assert_eq!(staging_dir("./out"), "./out/_temp");
    assert_eq!(http_cache_dir("./out"), "./out/_http_cache");
    let common = CommonArgs { out_dir: "/data/".to_string(), http_cache_mode: HttpCacheMode::Default };
    assert_eq!(common.http_cache_path(), "/data/_http_cache");
}

#[test]
fn metadata_addresses_are_on_the_canonical_host() {
    assert_eq!(canonical_base(), "https://dumps.wikimedia.org");
    assert_eq!(versions_url("enwiki"), "https://dumps.wikimedia.org/enwiki/");
    assert_eq!(
        manifest_url("enwiki", "20230301"),
        "https://dumps.wikimedia.org/enwiki/20230301/dumpstatus.json"
    );
}

#[test]
fn files_come_from_the_mirror_when_there_is_one() {
    assert_eq!(
        source_url(Some("https://ftp.acc.umu.se/mirror/wikimedia.org/dumps"), "/enwiki/20230301/a.bz2"),
        "https://ftp.acc.umu.se/mirror/wikimedia.org/dumps/enwiki/20230301/a.bz2"
    );
    assert_eq!(
        source_url(None, "/enwiki/20230301/a.bz2"),
        "https://dumps.wikimedia.org/enwiki/20230301/a.bz2"
    );
}

#[test]
fn text_helpers_agree_with_std() {
    assert!(str_eq("latest", "latest"));
    assert!(!str_eq("latest", "latest "));
    assert!(starts_with("https://x", "https://"));
    assert!(starts_with("abc", ""));
    assert!(!starts_with("http", "https://"));
    assert!(!starts_with("ftp://x", "http://"));
    assert_eq!(join_text("ab", "cd"), "abcd");
    assert!(char_is_digit('0') && char_is_digit('9'));
    assert!(!char_is_digit('a') && !char_is_digit('/') && !char_is_digit(':') && !char_is_digit('٣'));
}
