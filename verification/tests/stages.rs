//! Tests of the individual pipeline stages: cache path derivation, marker
//! extraction, payload decoding, and filename derivation.

use cheerz_dl::cache::cache_path;
use cheerz_dl::decode::decode;
use cheerz_dl::download::derive_filename;
use cheerz_dl::errors::PipelineError;
use cheerz_dl::extract::{extract, find_sub};
use cheerz_dl::hashing::hex_string;

#[test]
fn cache_path_same_url_same_path() {
    let a = cache_path("https://cheerz.example/event/42");
    let b = cache_path("https://cheerz.example/event/42");
    assert_eq!(a, b);
}

#[test]
fn cache_path_distinct_urls_distinct_paths() {
    let urls = [
        "https://cheerz.example/event/1",
        "https://cheerz.example/event/2",
        "https://cheerz.example/event/12",
        "https://cheerz.example/Event/1",
        "http://cheerz.example/event/1",
        "https://cheerz.example/event/1/",
        "",
        "a",
    ];
    let paths: Vec<String> = urls.iter().map(|u| cache_path(u)).collect();
    for i in 0..paths.len() {
        for j in 0..paths.len() {
            if i != j {
                assert_ne!(paths[i], paths[j], "urls {} and {}", urls[i], urls[j]);
            }
        }
    }
}

#[test]
fn cache_path_shape() {
    let p = cache_path("https://cheerz.example/event/42");
    assert!(p.starts_with("/var/tmp/cheerz-dl-"));
    assert!(p.ends_with(".txt"));
    let middle = &p["/var/tmp/cheerz-dl-".len()..p.len() - ".txt".len()];
    assert!(!middle.is_empty());
    assert!(middle.chars().all(|c| c.is_ascii_hexdigit() && !c.is_ascii_uppercase()));
}

#[test]
fn hex_string_exact_values() {
    assert_eq!(hex_string(0), "0");
    assert_eq!(hex_string(10), "a");
    assert_eq!(hex_string(16), "10");
    assert_eq!(hex_string(255), "ff");
    assert_eq!(hex_string(3735928559), "deadbeef");
    assert_eq!(hex_string(u64::MAX), "ffffffffffffffff");
}

#[test]
fn find_sub_first_occurrence() {
    assert_eq!(find_sub("abcabc", "bc"), Some(1));
    assert_eq!(find_sub("abcabc", "x"), None);
    assert_eq!(find_sub("abcabc", "abcabc"), Some(0));
    assert_eq!(find_sub("ab", "abc"), None);
}

#[test]
fn extract_returns_exact_payload() {
    let page = "<script>var galleriesBundleData = {\"photoData\":[]}</script>";
    let payload = extract(page).unwrap();
    assert_eq!(payload, "{\"photoData\":[]}");
}

#[test]
fn extract_missing_prefix_fails() {
    let page = "<script>var otherData = {\"photoData\":[]}</script>";
    let e = extract(page).unwrap_err();
    assert_eq!(e, PipelineError::MarkerNotFound);
}

#[test]
fn extract_missing_suffix_fails() {
    let page = "<script>var galleriesBundleData = {\"photoData\":[]}";
    let e = extract(page).unwrap_err();
    assert_eq!(e, PipelineError::MarkerNotFound);
}

#[test]
fn extract_takes_first_marker_pair() {
    let page = "var galleriesBundleData = one</script>\
                var galleriesBundleData = two</script>";
    let payload = extract(page).unwrap();
    assert_eq!(payload, "one");
}

#[test]
fn decode_one_photo_exact_fields() {
    let payload = "{\"photoData\":[{\"url\":\"a\",\"original_url\":\"b\",\
                    \"taken_at\":\"2020-01-01T10:00:00.123Z\"}]}";
    let gallery = decode(payload).unwrap();
    assert_eq!(gallery.photos.len(), 1);
    assert_eq!(gallery.photos[0].url, "a");
    assert_eq!(gallery.photos[0].original_url, "b");
    assert_eq!(gallery.photos[0].taken_at, "2020-01-01T10:00:00.123Z");
}

#[test]
fn decode_keeps_declaration_order() {
    let payload = "{\"photoData\":[\
        {\"url\":\"u1\",\"original_url\":\"o1\",\"taken_at\":\"t.1\"},\
        {\"url\":\"u2\",\"original_url\":\"o2\",\"taken_at\":\"t.2\"},\
        {\"url\":\"u3\",\"original_url\":\"o3\",\"taken_at\":\"t.3\"}]}";
    let gallery = decode(payload).unwrap();
    let originals: Vec<&str> =
        gallery.photos.iter().map(|p| p.original_url.as_str()).collect();
    assert_eq!(originals, vec!["o1", "o2", "o3"]);
}

#[test]
fn decode_rejects_invalid_json() {
    let e = decode("not json at all").unwrap_err();
    assert_eq!(e, PipelineError::MalformedPayload);
}

#[test]
fn decode_rejects_missing_photo_list() {
    let e = decode("{\"somethingElse\":[]}").unwrap_err();
    assert_eq!(e, PipelineError::MalformedPayload);
}

#[test]
fn decode_rejects_non_array_photo_list() {
    let e = decode("{\"photoData\":{}}").unwrap_err();
    assert_eq!(e, PipelineError::MalformedPayload);
}

#[test]
fn decode_rejects_missing_field() {
    let e = decode("{\"photoData\":[{\"url\":\"a\",\"original_url\":\"b\"}]}").unwrap_err();
    assert_eq!(e, PipelineError::MalformedPayload);
}

#[test]
fn decode_rejects_non_string_field() {
    let e = decode("{\"photoData\":[{\"url\":\"a\",\"original_url\":\"b\",\"taken_at\":7}]}")
        .unwrap_err();
    assert_eq!(e, PipelineError::MalformedPayload);
}

#[test]
fn filename_truncates_at_last_dot() {
    let name = derive_filename("2020-01-01T10:00:00.123").unwrap();
    assert_eq!(name, "2020-01-01T10:00:00.jpg");
}

#[test]
fn filename_uses_last_dot_of_several() {
    let name = derive_filename("a.b.c").unwrap();
    assert_eq!(name, "a.b.jpg");
}

#[test]
fn filename_without_dot_fails() {
    let e = derive_filename("2020-01-01T10:00:00").unwrap_err();
    assert_eq!(e, PipelineError::TimestampFormat);
}

#[test]
fn error_messages_name_their_stage() {
    assert_eq!(PipelineError::Fetch.message(), "fetching the page failed");
    assert_eq!(PipelineError::MarkerNotFound.message(), "page markers not found");
    assert_eq!(PipelineError::MalformedPayload.message(), "malformed gallery payload");
    assert_eq!(PipelineError::TimestampFormat.message(), "timestamp lacks its delimiter");
    assert_eq!(PipelineError::FileIo.message(), "writing to disk failed");
}
