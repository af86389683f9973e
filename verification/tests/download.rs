use gfycat_transfer::download_client::DownloadClient;
use gfycat_transfer::download_client::DownloadOutcome;
use gfycat_transfer::download_client::FetchRequest;
use gfycat_transfer::download_client::ItemExchange;
use gfycat_transfer::download_client::RunReport;
use gfycat_transfer::download_client::Task;
use gfycat_transfer::download_client::WriteJob;
use gfycat_transfer::gfycat_client::GfycatPost;
use gfycat_transfer::http::HttpReply;

fn post(id: &str, title: &str) -> GfycatPost {
    GfycatPost { webm_url: format!("http://x/{}", id), title: title.to_string(), gfy_id: id.to_string() }
}

fn fetched(payload: &[u8]) -> HttpReply {
    HttpReply::Response { status: 200, body: payload.to_vec() }
}

fn refused(status: u16) -> HttpReply {
    HttpReply::Response { status, body: b"error page".to_vec() }
}

fn good(payload: &[u8]) -> ItemExchange {
    ItemExchange { reply: fetched(payload), written: Ok(()) }
}

fn titles(n: usize) -> Vec<GfycatPost> {
    (0..n).map(|i| post(&format!("id{}", i), &format!("title{}", i))).collect()
}

#[test]
fn second_fetch_failing_leaves_one_file_and_one_line() {
    let posts = vec![post("a1", "cat"), post("a2", "dog")];
    let exchanges = vec![good(b"meow"), ItemExchange { reply: refused(500), written: Ok(()) }];
    let report = DownloadClient::new().download_webms(&posts, exchanges);
    assert_eq!(
        report,
        RunReport { attempted: 2, succeeded: 1, failures: vec!["dog: fetch failed (HTTP 500)".to_string()] }
    );

    let mut files: Vec<String> = Vec::new();
    let run = DownloadClient::new().start(&posts);
    let (run, job) = run.fetched(fetched(b"meow"));
    let job = job.unwrap();
    assert_eq!(job, WriteJob { file_name: "cat.webm".to_string(), payload: b"meow".to_vec() });
    files.push(job.file_name);
    let run = run.written(Ok(()));
    let (run, job) = run.fetched(refused(500));
    assert_eq!(job, None);
    assert_eq!(run.task(), Task::Done);
    assert_eq!(files, vec!["cat.webm".to_string()]);
    assert_eq!(run.into_report(), report);
}

#[test]
fn every_post_is_attempted_whichever_one_fails() {
    let n = 5;
    let posts = titles(n);
    for j in 0..n {
        for fetch_fails in [true, false] {
            let mut exchanges = Vec::new();
            for i in 0..n {
                if i != j {
                    exchanges.push(good(b"data"));
                } else if fetch_fails {
                    exchanges.push(ItemExchange {
                        reply: HttpReply::TransportError { message: "reset".to_string() },
                        written: Ok(()),
                    });
                } else {
                    exchanges.push(ItemExchange { reply: fetched(b"data"), written: Err("disk full".to_string()) });
                }
            }
            let report = DownloadClient::new().download_webms(&posts, exchanges);
            let line = if fetch_fails {
                format!("title{}: fetch failed (reset)", j)
            } else {
                format!("title{}: write failed (disk full)", j)
            };
            assert_eq!(report, RunReport { attempted: n, succeeded: n - 1, failures: vec![line] });
        }
    }
}

#[test]
fn failures_keep_the_order_of_the_posts() {
    let n = 6;
    let posts = titles(n);
    for mask in 0u32..(1 << n) {
        let mut exchanges = Vec::new();
        let mut expected = Vec::new();
        for i in 0..n {
            if mask & (1 << i) != 0 {
                let status = 400 + i as u16;
                exchanges.push(ItemExchange { reply: refused(status), written: Ok(()) });
                expected.push(format!("title{}: fetch failed (HTTP {})", i, status));
            } else {
                exchanges.push(good(b"ok"));
            }
        }
        let report = DownloadClient::new().download_webms(&posts, exchanges);
        assert_eq!(report.attempted, n);
        assert_eq!(report.succeeded, n - expected.len());
        assert_eq!(report.failures, expected);
    }
}

#[test]
fn no_posts_make_an_empty_report() {
    let report = DownloadClient::new().download_webms(&vec![], vec![]);
    assert_eq!(report, RunReport { attempted: 0, succeeded: 0, failures: vec![] });
    assert_eq!(RunReport::new(), report);
    let posts: Vec<GfycatPost> = vec![];
    assert_eq!(DownloadClient::new().start(&posts).task(), Task::Done);
}

#[test]
fn all_posts_failing_are_all_reported() {
    let posts = titles(3);
    let exchanges = vec![
        ItemExchange { reply: refused(404), written: Ok(()) },
        ItemExchange { reply: fetched(b"x"), written: Err("read-only".to_string()) },
        ItemExchange { reply: HttpReply::TransportError { message: "timeout".to_string() }, written: Ok(()) },
    ];
    let report = DownloadClient::new().download_webms(&posts, exchanges);
    assert_eq!(
        report,
        RunReport {
            attempted: 3,
            succeeded: 0,
            failures: vec![
                "title0: fetch failed (HTTP 404)".to_string(),
                "title1: write failed (read-only)".to_string(),
                "title2: fetch failed (timeout)".to_string(),
            ],
        }
    );
}

#[test]
fn exchanges_running_out_report_what_was_attempted() {
    let posts = titles(4);
    let report = DownloadClient::new().download_webms(&posts, vec![good(b"1"), good(b"2")]);
    assert_eq!(report, RunReport { attempted: 2, succeeded: 2, failures: vec![] });
}

#[test]
fn exchanges_behind_the_last_post_are_not_looked_at() {
    let posts = titles(1);
    let exchanges = vec![good(b"1"), ItemExchange { reply: refused(500), written: Ok(()) }];
    let report = DownloadClient::new().download_webms(&posts, exchanges);
    assert_eq!(report, RunReport { attempted: 1, succeeded: 1, failures: vec![] });
}

#[test]
fn written_is_not_looked_at_when_the_fetch_failed() {
    let exchange = ItemExchange { reply: refused(403), written: Err("never happened".to_string()) };
    assert_eq!(exchange.outcome(), DownloadOutcome::FetchFailed("HTTP 403".to_string()));
    let exchange = ItemExchange { reply: fetched(b""), written: Err("no space".to_string()) };
    assert_eq!(exchange.outcome(), DownloadOutcome::WriteFailed("no space".to_string()));
    let exchange = good(b"");
    assert_eq!(exchange.outcome(), DownloadOutcome::Success);
}

#[test]
fn failure_lines_name_title_kind_and_reason() {
    assert_eq!(DownloadOutcome::Success.failure_line("cat"), None);
    assert_eq!(
        DownloadOutcome::FetchFailed("HTTP 500".to_string()).failure_line("dog"),
        Some("dog: fetch failed (HTTP 500)".to_string())
    );
    assert_eq!(
        DownloadOutcome::WriteFailed("permission denied".to_string()).failure_line("a b"),
        Some("a b: write failed (permission denied)".to_string())
    );
    assert_eq!(
        DownloadOutcome::FetchFailed(String::new()).failure_line(""),
        Some(": fetch failed ()".to_string())
    );
}

#[test]
fn run_asks_for_each_post_in_turn() {
    let posts = vec![post("a1", "cat"), post("a2", "dog")];
    let run = DownloadClient::new().start(&posts);
    assert_eq!(run.task(), Task::Fetch(FetchRequest { url: "http://x/a1".to_string(), timeout_secs: None }));
    assert_eq!(run.current(), Some(&posts[0]));
    let (run, job) = run.fetched(fetched(b"one"));
    assert_eq!(job, Some(WriteJob { file_name: "cat.webm".to_string(), payload: b"one".to_vec() }));
    assert_eq!(run.task(), Task::Write);
    assert_eq!(run.current(), Some(&posts[0]));
    let run = run.written(Err("denied".to_string()));
    assert_eq!(run.task(), Task::Fetch(FetchRequest { url: "http://x/a2".to_string(), timeout_secs: None }));
    assert_eq!(run.current(), Some(&posts[1]));
    let (run, job) = run.fetched(fetched(b"two"));
    assert_eq!(job, Some(WriteJob { file_name: "dog.webm".to_string(), payload: b"two".to_vec() }));
    let run = run.written(Ok(()));
    assert_eq!(run.task(), Task::Done);
    assert_eq!(run.current(), None);
    assert_eq!(
        run.into_report(),
        RunReport { attempted: 2, succeeded: 1, failures: vec!["cat: write failed (denied)".to_string()] }
    );
}

#[test]
fn run_ignores_what_it_does_not_wait_for() {
    let posts = vec![post("a1", "cat")];
    let run = DownloadClient::new().start(&posts);
    let run = run.written(Ok(()));
    assert_eq!(run.task(), Task::Fetch(FetchRequest { url: "http://x/a1".to_string(), timeout_secs: None }));
    let (run, _) = run.fetched(fetched(b"one"));
    let (run, job) = run.fetched(fetched(b"again"));
    assert_eq!(job, None);
    assert_eq!(run.task(), Task::Write);
    let run = run.written(Ok(()));
    let (run, job) = run.fetched(fetched(b"late"));
    assert_eq!(job, None);
    let run = run.written(Err("late".to_string()));
    assert_eq!(run.into_report(), RunReport { attempted: 1, succeeded: 1, failures: vec![] });
}

#[test]
fn run_carries_the_time_limit_of_its_client() {
    let posts = vec![post("a1", "cat")];
    assert_eq!(DownloadClient::new().timeout_secs, None);
    let client = DownloadClient { timeout_secs: Some(30) };
    assert_eq!(
        client.start(&posts).task(),
        Task::Fetch(FetchRequest { url: "http://x/a1".to_string(), timeout_secs: Some(30) })
    );
}

#[test]
fn notices_of_a_run() {
    let posts = vec![post("a1", "cat"), post("a2", "dog")];
    assert_eq!(DownloadClient::new().opening_line(&posts), "Downloading 2 posts");
    assert_eq!(DownloadClient::new().opening_line(&vec![]), "Downloading 0 posts");
    assert_eq!(posts[0].progress_line(), "Downloading post cat with ID a1");
    let report = RunReport { attempted: 12, succeeded: 10, failures: vec!["x: a".to_string(), "y: b".to_string()] };
    assert_eq!(report.success_line(), "Successfully downloaded 10 of 12 posts.");
    assert_eq!(
        report.failure_notice(),
        vec!["Some downloads failed:".to_string(), "x: a".to_string(), "y: b".to_string()]
    );
    let clean = RunReport { attempted: 3, succeeded: 3, failures: vec![] };
    assert_eq!(clean.success_line(), "Successfully downloaded 3 of 3 posts.");
    assert!(clean.failure_notice().is_empty());
}
