use gfycat_transfer::gfycat_client::GfycatPost;
use gfycat_transfer::json::Json;
use gfycat_transfer::metadata::metadata_document;
use gfycat_transfer::metadata::metadata_text;
use gfycat_transfer::metadata::posts_from_document;
use gfycat_transfer::metadata::posts_from_metadata;
use gfycat_transfer::metadata::METADATA_FILE_NAME;

fn post(url: &str, title: &str, id: &str) -> GfycatPost {
    GfycatPost { webm_url: url.to_string(), title: title.to_string(), gfy_id: id.to_string() }
}

#[test]
fn metadata_is_a_pretty_printed_array_of_posts() {
    let posts = vec![post("http://x/a1", "cat", "a1"), post("http://x/a2", "dog", "a2")];
    let expected = "[\n  {\n    \"webmUrl\": \"http://x/a1\",\n    \"title\": \"cat\",\n    \"gfyId\": \"a1\"\n  },\n  \
                    {\n    \"webmUrl\": \"http://x/a2\",\n    \"title\": \"dog\",\n    \"gfyId\": \"a2\"\n  }\n]";
    assert_eq!(metadata_text(&posts), expected);
    assert_eq!(METADATA_FILE_NAME, "post_metadata.json");
}

#[test]
fn metadata_of_no_posts_is_an_empty_array() {
    assert_eq!(metadata_text(&vec![]), "[]");
    assert_eq!(posts_from_metadata(b"[]"), Some(vec![]));
    assert_eq!(metadata_document(&vec![]), Json::List(vec![]));
}

#[test]
fn metadata_round_trips() {
    let posts = vec![
        post("http://x/a1", "cat", "a1"),
        post("https://example.com/v?x=1&y=\"2\"", "caf\u{e9} \\ \"quoted\"\n\ttab", "id with space"),
        post("", "", ""),
        post("http://x/a1", "cat", "a1"),
        post("http://x/\u{1f600}", "\u{0}\u{1f}\u{7f}", "\u{2028}"),
    ];
    let text = metadata_text(&posts);
    assert_eq!(posts_from_metadata(text.as_bytes()), Some(posts.clone()));
    assert_eq!(posts_from_document(&metadata_document(&posts)), Some(posts));
}

#[test]
fn post_document_has_its_members_in_order() {
    let doc = post("http://x/a1", "cat", "a1").to_json();
    assert_eq!(
        doc,
        Json::Record(vec![
            ("webmUrl".to_string(), Json::Text("http://x/a1".to_string())),
            ("title".to_string(), Json::Text("cat".to_string())),
            ("gfyId".to_string(), Json::Text("a1".to_string())),
        ])
    );
    assert_eq!(GfycatPost::from_json(&doc), Some(post("http://x/a1", "cat", "a1")));
}

#[test]
fn what_is_no_array_of_posts_is_no_metadata() {
    assert_eq!(posts_from_metadata(b"not json"), None);
    assert_eq!(posts_from_metadata(b"{}"), None);
    assert_eq!(posts_from_metadata(b"[1]"), None);
    assert_eq!(posts_from_metadata(b"[{\"webmUrl\":\"u\",\"title\":\"t\"}]"), None);
    assert_eq!(posts_from_document(&Json::Null), None);
    assert_eq!(posts_from_document(&Json::List(vec![Json::Null])), None);
}

#[test]
fn metadata_keeps_posts_that_could_not_be_downloaded() {
    let posts = vec![post("http://x/a1", "cat", "a1"), post("http://x/a2", "dog", "a2")];
    let read = posts_from_metadata(metadata_text(&posts).as_bytes()).unwrap();
    assert_eq!(read.len(), 2);
    assert_eq!(read[1].title, "dog");
}
