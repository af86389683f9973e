use gfycat_transfer::configuration::SecretText;
use gfycat_transfer::gfycat_client::AllGfycatsResponse;
use gfycat_transfer::gfycat_client::GfycatClient;
use gfycat_transfer::gfycat_client::GfycatPost;
use gfycat_transfer::gfycat_client::PAGE_SIZE;
use gfycat_transfer::http::HttpReply;
use gfycat_transfer::http::ReplyFailure;
use gfycat_transfer::json::Json;
use gfycat_transfer::listing::Listing;

fn client() -> GfycatClient {
    GfycatClient::new(
        "https://api.example.com/v1".to_string(),
        SecretText::new("id".to_string()),
        SecretText::new("secret".to_string()),
        "someone".to_string(),
        SecretText::new("pass".to_string()),
    )
}

fn post(id: &str) -> GfycatPost {
    GfycatPost {
        webm_url: format!("http://x/{}", id),
        title: format!("t-{}", id),
        gfy_id: id.to_string(),
    }
}

fn page(cursor: &str, ids: &[&str]) -> HttpReply {
    let mut items = Vec::new();
    for id in ids {
        items.push(format!(
            "{{\"webmUrl\":\"http://x/{}\",\"title\":\"t-{}\",\"gfyId\":\"{}\"}}",
            id, id, id
        ));
    }
    let body = format!("{{\"cursor\":\"{}\",\"gfycats\":[{}]}}", cursor, items.join(","));
    HttpReply::Response { status: 200, body: body.into_bytes() }
}

fn ok_reply(body: &str) -> HttpReply {
    HttpReply::Response { status: 200, body: body.as_bytes().to_vec() }
}

fn cursors(listing: &Listing) -> Option<String> {
    listing.next_cursor().cloned()
}

#[test]
fn single_page_listing_completes() {
    let listing = Listing::start().on_reply(&page("", &["a1", "a2"]));
    assert_eq!(listing, Listing::Complete { posts: vec![post("a1"), post("a2")] });
    assert_eq!(listing.next_cursor(), None);
}

#[test]
fn listing_starts_with_the_empty_cursor() {
    let listing = Listing::start();
    assert_eq!(listing, Listing::Fetching { cursor: String::new(), posts: vec![] });
    assert_eq!(cursors(&listing), Some(String::new()));
    assert_eq!(listing.into_result(), None);
}

#[test]
fn pagination_follows_the_cursors_to_the_end() {
    let replies = vec![page("c1", &["a", "b"]), page("c2", &[]), page("", &["c"])];
    let mut listing = Listing::start();
    let mut asked = Vec::new();
    let mut next = 0;
    while let Some(cursor) = cursors(&listing) {
        asked.push(cursor);
        listing = listing.on_reply(&replies[next]);
        next += 1;
    }
    assert_eq!(next, 3);
    assert_eq!(asked, vec!["".to_string(), "c1".to_string(), "c2".to_string()]);
    assert_eq!(listing.into_result(), Some(Ok(vec![post("a"), post("b"), post("c")])));
}

#[test]
fn get_gfycats_lists_all_pages_and_asks_once_for_each() {
    let replies = vec![page("c1", &["a", "b"]), page("c2", &["c"]), page("", &["d", "e"])];
    let (listing, requests) = client().get_gfycats("tok".to_string(), &replies);
    assert_eq!(
        listing,
        Listing::Complete { posts: vec![post("a"), post("b"), post("c"), post("d"), post("e")] }
    );
    assert_eq!(requests.len(), 3);
    let asked: Vec<&str> = requests.iter().map(|r| r.cursor.as_str()).collect();
    assert_eq!(asked, vec!["", "c1", "c2"]);
    for request in &requests {
        assert_eq!(request.url, "https://api.example.com/v1/me/gfycats");
        assert_eq!(request.count, 100);
        assert_eq!(request.bearer, "tok");
        assert_eq!(request.timeout_secs, 10);
    }
}

#[test]
fn get_gfycats_stops_asking_when_the_listing_is_complete() {
    let replies = vec![page("", &["a"]), page("c9", &["never"]), page("", &["never"])];
    let (listing, requests) = client().get_gfycats("tok".to_string(), &replies);
    assert_eq!(listing, Listing::Complete { posts: vec![post("a")] });
    assert_eq!(requests.len(), 1);
}

#[test]
fn get_gfycats_without_replies_has_asked_nothing() {
    let (listing, requests) = client().get_gfycats("tok".to_string(), &vec![]);
    assert_eq!(listing, Listing::start());
    assert!(requests.is_empty());
}

#[test]
fn get_gfycats_waits_for_more_when_the_replies_run_out() {
    let replies = vec![page("c1", &["a"]), page("c2", &["b"])];
    let (listing, requests) = client().get_gfycats("tok".to_string(), &replies);
    assert_eq!(listing, Listing::Fetching { cursor: "c2".to_string(), posts: vec![post("a"), post("b")] });
    assert_eq!(requests.len(), 2);
}

#[test]
fn failed_page_aborts_the_listing_and_drops_earlier_posts() {
    let replies = vec![
        page("c1", &["a", "b"]),
        HttpReply::Response { status: 500, body: b"busy".to_vec() },
        page("", &["c"]),
    ];
    let (listing, requests) = client().get_gfycats("tok".to_string(), &replies);
    assert_eq!(listing, Listing::Failed { cause: ReplyFailure::Status(500) });
    assert_eq!(requests.len(), 2);
    assert_eq!(listing.next_cursor(), None);
    assert_eq!(listing.into_result(), Some(Err(ReplyFailure::Status(500))));
}

#[test]
fn failed_last_page_aborts_the_listing_too() {
    let replies = vec![
        page("c1", &["a"]),
        page("c2", &["b"]),
        HttpReply::Response { status: 404, body: vec![] },
    ];
    let (listing, _) = client().get_gfycats("tok".to_string(), &replies);
    assert_eq!(listing, Listing::Failed { cause: ReplyFailure::Status(404) });
}

#[test]
fn failed_first_page_aborts_the_listing() {
    let replies = vec![HttpReply::TransportError { message: "no route".to_string() }];
    let (listing, requests) = client().get_gfycats("tok".to_string(), &replies);
    assert_eq!(listing, Listing::Failed { cause: ReplyFailure::Transport("no route".to_string()) });
    assert_eq!(requests.len(), 1);
}

#[test]
fn malformed_page_aborts_the_listing() {
    for body in [
        "nonsense",
        "{}",
        "{\"cursor\":\"\"}",
        "{\"gfycats\":[]}",
        "{\"cursor\":7,\"gfycats\":[]}",
        "{\"cursor\":\"\",\"gfycats\":{}}",
        "{\"cursor\":\"\",\"gfycats\":[{\"webmUrl\":\"http://x/a\",\"title\":\"t\"}]}",
        "{\"cursor\":\"\",\"gfycats\":[{\"webmUrl\":\"http://x/a\",\"title\":\"t\",\"gfyId\":5}]}",
        "{\"cursor\":\"\",\"gfycats\":[\"a\"]}",
    ] {
        let listing = Listing::start().on_reply(&page("c1", &["a"])).on_reply(&ok_reply(body));
        assert_eq!(listing, Listing::Failed { cause: ReplyFailure::Malformed }, "body {}", body);
    }
}

#[test]
fn post_without_id_or_with_a_bad_url_is_a_malformed_page() {
    let empty_id = "{\"cursor\":\"\",\"gfycats\":[{\"webmUrl\":\"http://x/a\",\"title\":\"t\",\"gfyId\":\"\"}]}";
    let bad_url = "{\"cursor\":\"\",\"gfycats\":[{\"webmUrl\":\"nowhere\",\"title\":\"t\",\"gfyId\":\"a\"}]}";
    let second_bad = "{\"cursor\":\"\",\"gfycats\":[\
        {\"webmUrl\":\"http://x/a\",\"title\":\"t\",\"gfyId\":\"a\"},\
        {\"webmUrl\":\"\",\"title\":\"t\",\"gfyId\":\"b\"}]}";
    for body in [empty_id, bad_url, second_bad] {
        assert_eq!(
            AllGfycatsResponse::from_reply(&ok_reply(body)),
            Err(ReplyFailure::Malformed),
            "body {}",
            body
        );
    }
    assert!(post("a").is_valid());
    assert!(!GfycatPost { webm_url: "http://x/a".to_string(), title: "t".to_string(), gfy_id: String::new() }
        .is_valid());
    assert!(!GfycatPost { webm_url: "x".to_string(), title: "t".to_string(), gfy_id: "a".to_string() }.is_valid());
    assert!(GfycatPost { webm_url: "http://x/a".to_string(), title: String::new(), gfy_id: "a".to_string() }
        .is_valid());
}

#[test]
fn page_is_read_with_its_cursor_and_posts_in_order() {
    let reply = page("next", &["z", "a", "m"]);
    let read = AllGfycatsResponse::from_reply(&reply).unwrap();
    assert_eq!(read, AllGfycatsResponse { cursor: "next".to_string(), gfycats: vec![post("z"), post("a"), post("m")] });
    assert!(read.is_valid());
}

#[test]
fn page_and_post_from_documents_written_by_hand() {
    let item = Json::Record(vec![
        ("gfyId".to_string(), Json::Text("a1".to_string())),
        ("likes".to_string(), Json::Number(Some(3))),
        ("title".to_string(), Json::Text("cat".to_string())),
        ("webmUrl".to_string(), Json::Text("http://x/a1".to_string())),
    ]);
    let expected = GfycatPost {
        webm_url: "http://x/a1".to_string(),
        title: "cat".to_string(),
        gfy_id: "a1".to_string(),
    };
    assert_eq!(GfycatPost::from_json(&item), Some(expected.clone()));
    assert_eq!(GfycatPost::from_json(&Json::List(vec![])), None);
    let doc = Json::Record(vec![
        ("cursor".to_string(), Json::Text("c".to_string())),
        ("gfycats".to_string(), Json::List(vec![item])),
    ]);
    assert_eq!(
        AllGfycatsResponse::from_json(&doc),
        Some(AllGfycatsResponse { cursor: "c".to_string(), gfycats: vec![expected] })
    );
    assert_eq!(AllGfycatsResponse::from_json(&Json::Null), None);
}

#[test]
fn page_request_carries_cursor_count_and_token() {
    let request = client().page_request("secret-token", "abc");
    assert_eq!(request.url, "https://api.example.com/v1/me/gfycats");
    assert_eq!(request.cursor, "abc");
    assert_eq!(request.count, PAGE_SIZE);
    assert_eq!(PAGE_SIZE, 100);
    assert_eq!(request.bearer, "secret-token");
    assert_eq!(request.timeout_secs, 10);
}

#[test]
fn ended_listing_ignores_further_replies() {
    let complete = Listing::start().on_reply(&page("", &["a"]));
    let later = complete.clone().on_reply(&page("c", &["b"]));
    assert_eq!(later, complete);
    let failed = Listing::start().on_reply(&HttpReply::Response { status: 503, body: vec![] });
    let later = failed.clone().on_reply(&page("", &["b"]));
    assert_eq!(later, failed);
}
