//! Bulk download: every post is fetched and written in turn, a failure stays
//! with its post, and the run ends with a report over all of them.

use crate::gfycat_client::posts_view;
use crate::gfycat_client::GfycatPost;
use crate::gfycat_client::PostView;
use crate::http::checked_body;
use crate::http::failure_text;
use crate::http::HttpReply;
use crate::http::ReplyView;
use crate::text::decimal;
use crate::text::decimal_text;
use vstd::prelude::*;
use vstd::string::*;

verus! {

/// How the download of one post ended.
#[derive(Debug, Clone, PartialEq, Eq)]
pub enum DownloadOutcome {
    /// The payload was fetched and written.
    Success,
    /// The payload could not be fetched; the text says why.
    FetchFailed(String),
    /// The payload was fetched and its file could not be created or
    /// written; the text says why.
    WriteFailed(String),
}

/// The mathematical content of a [`DownloadOutcome`].
pub enum OutcomeView {
    Success,
    FetchFailed(Seq<char>),
    WriteFailed(Seq<char>),
}

impl View for DownloadOutcome {
    type V = OutcomeView;

    open spec fn view(&self) -> OutcomeView {
        match self {
            DownloadOutcome::Success => OutcomeView::Success,
            DownloadOutcome::FetchFailed(reason) => OutcomeView::FetchFailed(reason@),
            DownloadOutcome::WriteFailed(reason) => OutcomeView::WriteFailed(reason@),
        }
    }
}

/// The outcome of a bulk download: how many posts were attempted, how many
/// of them succeeded, and one line for each that failed, in the order in
/// which the posts were attempted.
#[derive(Debug, Clone, PartialEq, Eq)]
pub struct RunReport {
    pub attempted: usize,
    pub succeeded: usize,
    pub failures: Vec<String>,
}

/// The mathematical content of a [`RunReport`].
pub struct ReportView {
    pub attempted: nat,
    pub succeeded: nat,
    pub failures: Seq<Seq<char>>,
}

/// The contents of a sequence of strings, in order.
pub open spec fn lines_view(lines: Seq<String>) -> Seq<Seq<char>> {
    Seq::new(lines.len(), |i: int| lines[i]@)
}

impl View for RunReport {
    type V = ReportView;

    open spec fn view(&self) -> ReportView {
        ReportView {
            attempted: self.attempted as nat,
            succeeded: self.succeeded as nat,
            failures: lines_view(self.failures@),
        }
    }
}

/// What happened to one post: the reply to the request for its payload and,
/// where that reply held a payload, how writing the file went. `written` is
/// not looked at where the fetch failed.
#[derive(Debug, PartialEq, Eq)]
pub struct ItemExchange {
    pub reply: HttpReply,
    pub written: Result<(), String>,
}

/// The mathematical content of an [`ItemExchange`].
pub struct ExchangeView {
    pub reply: ReplyView,
    pub written: Result<(), Seq<char>>,
}

/// The content of the result of a write.
pub open spec fn written_view(written: Result<(), String>) -> Result<(), Seq<char>> {
    match written {
        Ok(_) => Ok(()),
        Err(reason) => Err(reason@),
    }
}

impl View for ItemExchange {
    type V = ExchangeView;

    open spec fn view(&self) -> ExchangeView {
        ExchangeView { reply: self.reply@, written: written_view(self.written) }
    }
}

/// The contents of a sequence of exchanges, in order.
pub open spec fn exchanges_view(exchanges: Seq<ItemExchange>) -> Seq<ExchangeView> {
    Seq::new(exchanges.len(), |i: int| exchanges[i]@)
}

/// The name of the file that holds a post's payload: its title and the
/// extension `.webm`.
pub open spec fn file_name(title: Seq<char>) -> Seq<char> {
    title + ".webm"@
}

/// The line that reports a failed download: the post's title, whether the
/// fetch or the write failed, and the reason in brackets. A success has no
/// line.
pub open spec fn failure_line(title: Seq<char>, outcome: OutcomeView) -> Option<Seq<char>> {
    match outcome {
        OutcomeView::Success => None,
        OutcomeView::FetchFailed(reason) => Some(title + ": fetch failed ("@ + reason + ")"@),
        OutcomeView::WriteFailed(reason) => Some(title + ": write failed ("@ + reason + ")"@),
    }
}

/// How the download of a post ended, given the reply and the result of the
/// write: a reply without a payload is a failed fetch, whatever `written`
/// holds.
pub open spec fn exchange_outcome(exchange: ExchangeView) -> OutcomeView {
    match checked_body(exchange.reply) {
        Err(failure) => OutcomeView::FetchFailed(failure_text(failure)),
        Ok(_) => match exchange.written {
            Ok(_) => OutcomeView::Success,
            Err(reason) => OutcomeView::WriteFailed(reason),
        },
    }
}

/// The outcomes of a sequence of exchanges, in order.
pub open spec fn outcomes_of(exchanges: Seq<ExchangeView>) -> Seq<OutcomeView> {
    Seq::new(exchanges.len(), |i: int| exchange_outcome(exchanges[i]))
}

/// A report with nothing attempted.
pub open spec fn empty_report() -> ReportView {
    ReportView { attempted: 0, succeeded: 0, failures: Seq::empty() }
}

/// The report after one more post, with the given title, ended in `outcome`.
pub open spec fn report_with(report: ReportView, title: Seq<char>, outcome: OutcomeView) -> ReportView {
    match failure_line(title, outcome) {
        None => ReportView {
            attempted: report.attempted + 1,
            succeeded: report.succeeded + 1,
            failures: report.failures,
        },
        Some(line) => ReportView {
            attempted: report.attempted + 1,
            succeeded: report.succeeded,
            failures: report.failures.push(line),
        },
    }
}

/// The report over the first posts of `posts`, as many as there are
/// outcomes, where post `i` ended in `outcomes[i]`.
pub open spec fn report_of(posts: Seq<PostView>, outcomes: Seq<OutcomeView>) -> ReportView
    decreases outcomes.len(),
{
    if outcomes.len() == 0 {
        empty_report()
    } else {
        report_with(
            report_of(posts, outcomes.drop_last()),
            posts[outcomes.len() - 1].title,
            outcomes.last(),
        )
    }
}

/// The notice that opens a bulk download of `count` posts.
pub open spec fn opening_line(count: nat) -> Seq<char> {
    "Downloading "@ + decimal_text(count) + " posts"@
}

/// The notice that a post's download starts: its title and its id.
pub open spec fn progress_line(post: PostView) -> Seq<char> {
    "Downloading post "@ + post.title + " with ID "@ + post.gfy_id
}

/// The notice that closes a bulk download: how many posts succeeded, of how
/// many attempted.
pub open spec fn success_line(report: ReportView) -> Seq<char> {
    "Successfully downloaded "@ + decimal_text(report.succeeded) + " of "@ + decimal_text(report.attempted)
        + " posts."@
}

/// The notices of the failures: none where nothing failed, else a heading
/// and then the report's failure lines, in the report's order.
pub open spec fn failure_notice(report: ReportView) -> Seq<Seq<char>> {
    if report.failures.len() == 0 {
        Seq::empty()
    } else {
        seq!["Some downloads failed:"@] + report.failures
    }
}

/// The positions of the outcomes that are failures, in ascending order.
pub open spec fn failed_items(outcomes: Seq<OutcomeView>) -> Seq<int>
    decreases outcomes.len(),
{
    if outcomes.len() == 0 {
        Seq::empty()
    } else if outcomes.last() is Success {
        failed_items(outcomes.drop_last())
    } else {
        failed_items(outcomes.drop_last()).push(outcomes.len() - 1)
    }
}

impl DownloadOutcome {
    /// The line that reports the outcome for the post titled `title`;
    /// `None` for a success.
    pub fn failure_line(&self, title: &str) -> (line: Option<String>)
        ensures
            line is Some <==> failure_line(title@, self@) is Some,
            line matches Some(l) ==> failure_line(title@, self@) == Some(l@),
    {
        match self {
            DownloadOutcome::Success => None,
            DownloadOutcome::FetchFailed(reason) => {
                let mut line = String::from_str(title);
                line.append(": fetch failed (");
                line.append(reason.as_str());
                line.append(")");
                Some(line)
            },
            DownloadOutcome::WriteFailed(reason) => {
                let mut line = String::from_str(title);
                line.append(": write failed (");
                line.append(reason.as_str());
                line.append(")");
                Some(line)
            },
        }
    }
}

impl ItemExchange {
    /// How the download of the post ended.
    pub fn outcome(&self) -> (outcome: DownloadOutcome)
        ensures
            outcome@ == exchange_outcome(self@),
    {
        match self.reply.body() {
            Err(failure) => DownloadOutcome::FetchFailed(failure.describe()),
            Ok(_) => match &self.written {
                Ok(_) => DownloadOutcome::Success,
                Err(reason) => DownloadOutcome::WriteFailed(reason.clone()),
            },
        }
    }
}

impl RunReport {
    /// A report with nothing attempted.
    pub fn new() -> (report: RunReport)
        ensures
            report@ == empty_report(),
    {
        let report = RunReport { attempted: 0, succeeded: 0, failures: Vec::new() };
        assert(report@.failures =~= Seq::<Seq<char>>::empty());
        report
    }

    /// The notice that closes the bulk download.
    pub fn success_line(&self) -> (line: String)
        ensures
            line@ == success_line(self@),
    {
        let mut line = String::from_str("Successfully downloaded ");
        line.append(decimal(self.succeeded as u64).as_str());
        line.append(" of ");
        line.append(decimal(self.attempted as u64).as_str());
        line.append(" posts.");
        line
    }

    /// The notices of the failures, for the error stream.
    pub fn failure_notice(&self) -> (lines: Vec<String>)
        ensures
            lines_view(lines@) == failure_notice(self@),
    {
        let mut lines: Vec<String> = Vec::new();
        if self.failures.len() == 0 {
            assert(lines_view(lines@) =~= Seq::<Seq<char>>::empty());
            return lines;
        }
        lines.push(String::from_str("Some downloads failed:"));
        let mut i: usize = 0;
        while i < self.failures.len()
            invariant
                i <= self.failures.len(),
                lines.len() == i + 1,
                lines[0]@ == "Some downloads failed:"@,
                forall|k: int| 1 <= k <= i ==> (#[trigger] lines[k])@ == self.failures[k - 1]@,
            decreases self.failures.len() - i,
        {
            lines.push(self.failures[i].clone());
            i = i + 1;
        }
        proof {
            let notice = failure_notice(self@);
            assert(notice.len() == lines.len());
            assert forall|k: int| 0 <= k < lines.len() implies lines_view(lines@)[k] == notice[k] by {
                if k > 0 {
                    assert(lines[k]@ == self.failures[k - 1]@);
                }
            }
            assert(lines_view(lines@) =~= notice);
        }
        lines
    }

    /// Adds the outcome of one more post, titled `title`.
    fn record(&mut self, title: &str, outcome: &DownloadOutcome)
        requires
            old(self).attempted < usize::MAX,
            old(self).succeeded <= old(self).attempted,
        ensures
            final(self)@ == report_with(old(self)@, title@, outcome@),
            final(self).succeeded <= final(self).attempted,
    {
        let ghost before = self.failures@;
        self.attempted = self.attempted + 1;
        match outcome.failure_line(title) {
            None => {
                self.succeeded = self.succeeded + 1;
            },
            Some(line) => {
                self.failures.push(line);
                assert(lines_view(self.failures@) =~= lines_view(before).push(line@));
            },
        }
    }
}

/// Manages the download of posts' payloads. It decides what is fetched and
/// written, and what each result means; fetching and writing are left to
/// the caller.
#[derive(Debug, Clone, PartialEq, Eq)]
pub struct DownloadClient {
    /// The time allowed for one download, in seconds; `None` for no limit.
    pub timeout_secs: Option<u64>,
}

/// The request for one payload: a plain `GET` of `url`, without
/// authorization.
#[derive(Debug, Clone, PartialEq, Eq)]
pub struct FetchRequest {
    pub url: String,
    pub timeout_secs: Option<u64>,
}

/// The mathematical content of a [`FetchRequest`].
pub struct FetchRequestView {
    pub url: Seq<char>,
    pub timeout_secs: Option<u64>,
}

impl View for FetchRequest {
    type V = FetchRequestView;

    open spec fn view(&self) -> FetchRequestView {
        FetchRequestView { url: self.url@, timeout_secs: self.timeout_secs }
    }
}

/// A file to create, or to overwrite, with the whole payload.
#[derive(Debug, Clone, PartialEq, Eq)]
pub struct WriteJob {
    pub file_name: String,
    pub payload: Vec<u8>,
}

/// The mathematical content of a [`WriteJob`].
pub struct WriteJobView {
    pub file_name: Seq<char>,
    pub payload: Seq<u8>,
}

impl View for WriteJob {
    type V = WriteJobView;

    open spec fn view(&self) -> WriteJobView {
        WriteJobView { file_name: self.file_name@, payload: self.payload@ }
    }
}

/// What a run waits for.
#[derive(Debug, Clone, PartialEq, Eq)]
pub enum Task {
    /// The reply to this request, for [`DownloadRun::fetched`].
    Fetch(FetchRequest),
    /// The result of the write that [`DownloadRun::fetched`] handed out, for
    /// [`DownloadRun::written`].
    Write,
    /// Nothing: every post has been attempted.
    Done,
}

/// The mathematical content of a [`Task`].
pub enum TaskView {
    Fetch(FetchRequestView),
    Write,
    Done,
}

impl View for Task {
    type V = TaskView;

    open spec fn view(&self) -> TaskView {
        match self {
            Task::Fetch(request) => TaskView::Fetch(request@),
            Task::Write => TaskView::Write,
            Task::Done => TaskView::Done,
        }
    }
}

/// A bulk download in progress: the posts, the report over those attempted
/// so far, and whether the current post's payload is being written. The
/// posts are attempted one at a time, in their order.
pub struct DownloadRun<'a> {
    posts: &'a Vec<GfycatPost>,
    timeout_secs: Option<u64>,
    pending: bool,
    report: RunReport,
}

/// The mathematical content of a [`DownloadRun`].
pub struct RunView {
    pub posts: Seq<PostView>,
    pub timeout_secs: Option<u64>,
    pub pending: bool,
    pub report: ReportView,
}

impl RunView {
    /// Whether every post has been attempted.
    pub open spec fn finished(self) -> bool {
        self.report.attempted >= self.posts.len()
    }

    /// The post that is being attempted.
    pub open spec fn current(self) -> PostView {
        self.posts[self.report.attempted as int]
    }

    /// What the run waits for.
    pub open spec fn task(self) -> TaskView {
        if self.finished() {
            TaskView::Done
        } else if self.pending {
            TaskView::Write
        } else {
            TaskView::Fetch(FetchRequestView { url: self.current().webm_url, timeout_secs: self.timeout_secs })
        }
    }
}

/// A run over `posts` before its first request.
pub open spec fn run_start(posts: Seq<PostView>, timeout_secs: Option<u64>) -> RunView {
    RunView { posts, timeout_secs, pending: false, report: empty_report() }
}

/// The run after the reply to the request for the current post's payload.
/// A reply with a payload leaves the post to be written; any other reply is
/// the post's failure, and the run moves on to the next post. A run that
/// does not wait for a reply stays as it is.
pub open spec fn run_fetched(run: RunView, reply: ReplyView) -> RunView {
    if run.task() is Fetch {
        match checked_body(reply) {
            Ok(_) => RunView { pending: true, ..run },
            Err(failure) => RunView {
                report: report_with(
                    run.report,
                    run.current().title,
                    OutcomeView::FetchFailed(failure_text(failure)),
                ),
                ..run
            },
        }
    } else {
        run
    }
}

/// The file to write after the reply to the request for the current post's
/// payload: the payload, under the post's file name, where the reply holds
/// one.
pub open spec fn job_for(run: RunView, reply: ReplyView) -> Option<WriteJobView> {
    if run.task() is Fetch {
        match checked_body(reply) {
            Ok(payload) => Some(WriteJobView { file_name: file_name(run.current().title), payload }),
            Err(_) => None,
        }
    } else {
        None
    }
}

/// The run after the current post's file was written, or failed to be.
/// Either way the run moves on to the next post. A run that does not wait
/// for a write stays as it is.
pub open spec fn run_written(run: RunView, written: Result<(), Seq<char>>) -> RunView {
    if run.task() is Write {
        let outcome = match written {
            Ok(_) => OutcomeView::Success,
            Err(reason) => OutcomeView::WriteFailed(reason),
        };
        RunView { pending: false, report: report_with(run.report, run.current().title, outcome), ..run }
    } else {
        run
    }
}

/// The run after one post's exchange: the reply and, where it held a
/// payload, the result of the write.
pub open spec fn run_exchange(run: RunView, exchange: ExchangeView) -> RunView {
    run_written(run_fetched(run, exchange.reply), exchange.written)
}

/// The run after a sequence of exchanges, one for each post, from the start.
pub open spec fn run_after(posts: Seq<PostView>, timeout_secs: Option<u64>, exchanges: Seq<ExchangeView>) -> RunView
    decreases exchanges.len(),
{
    if exchanges.len() == 0 {
        run_start(posts, timeout_secs)
    } else {
        run_exchange(run_after(posts, timeout_secs, exchanges.drop_last()), exchanges.last())
    }
}

impl<'a> View for DownloadRun<'a> {
    type V = RunView;

    closed spec fn view(&self) -> RunView {
        RunView {
            posts: posts_view(self.posts@),
            timeout_secs: self.timeout_secs,
            pending: self.pending,
            report: self.report@,
        }
    }
}

impl<'a> DownloadRun<'a> {
    #[verifier::type_invariant]
    spec fn well_formed(self) -> bool {
        &&& self.report.attempted <= self.posts.len()
        &&& self.report.succeeded <= self.report.attempted
        &&& self.pending ==> self.report.attempted < self.posts.len()
    }

    /// What the run waits for.
    pub fn task(&self) -> (task: Task)
        ensures
            task@ == self@.task(),
    {
        proof {
            use_type_invariant(self);
        }
        if self.report.attempted >= self.posts.len() {
            Task::Done
        } else if self.pending {
            Task::Write
        } else {
            let post = &self.posts[self.report.attempted];
            Task::Fetch(FetchRequest { url: post.webm_url.clone(), timeout_secs: self.timeout_secs })
        }
    }

    /// The post that is being attempted; `None` once every post has been.
    pub fn current(&self) -> (post: Option<&'a GfycatPost>)
        ensures
            post is Some <==> !self@.finished(),
            post matches Some(p) ==> p@ == self@.current(),
    {
        proof {
            use_type_invariant(self);
        }
        if self.report.attempted >= self.posts.len() {
            None
        } else {
            Some(&self.posts[self.report.attempted])
        }
    }

    /// Takes the reply to the request for the current post's payload, and
    /// hands out the file to write where the reply holds a payload.
    pub fn fetched(self, reply: HttpReply) -> (r: (DownloadRun<'a>, Option<WriteJob>))
        ensures
            r.0@ == run_fetched(self@, reply@),
            r.1 is Some <==> job_for(self@, reply@) is Some,
            r.1 matches Some(job) ==> job_for(self@, reply@) == Some(job@),
    {
        proof {
            use_type_invariant(&self);
        }
        let DownloadRun { posts, timeout_secs, pending, report } = self;
        if pending || report.attempted >= posts.len() {
            return (DownloadRun { posts, timeout_secs, pending, report }, None);
        }
        let post = &posts[report.attempted];
        match reply.into_body() {
            Ok(payload) => {
                let job = WriteJob { file_name: crate::text::joined(post.title.as_str(), ".webm"), payload };
                (DownloadRun { posts, timeout_secs, pending: true, report }, Some(job))
            },
            Err(failure) => {
                let outcome = DownloadOutcome::FetchFailed(failure.describe());
                let mut report = report;
                report.record(post.title.as_str(), &outcome);
                (DownloadRun { posts, timeout_secs, pending: false, report }, None)
            },
        }
    }

    /// Takes the result of writing the current post's file: `Ok`, or the
    /// reason why the file could not be created or written.
    pub fn written(self, written: Result<(), String>) -> (next: DownloadRun<'a>)
        ensures
            next@ == run_written(self@, written_view(written)),
    {
        proof {
            use_type_invariant(&self);
        }
        let DownloadRun { posts, timeout_secs, pending, report } = self;
        if !pending {
            return DownloadRun { posts, timeout_secs, pending, report };
        }
        let post = &posts[report.attempted];
        let outcome = match written {
            Ok(_) => DownloadOutcome::Success,
            Err(reason) => DownloadOutcome::WriteFailed(reason),
        };
        let mut report = report;
        report.record(post.title.as_str(), &outcome);
        DownloadRun { posts, timeout_secs, pending: false, report }
    }

    /// The report over the posts attempted so far.
    pub fn into_report(self) -> (report: RunReport)
        ensures
            report@ == self@.report,
    {
        self.report
    }
}

impl GfycatPost {
    /// The notice that the post's download starts.
    pub fn progress_line(&self) -> (line: String)
        ensures
            line@ == progress_line(self@),
    {
        let mut line = String::from_str("Downloading post ");
        line.append(self.title.as_str());
        line.append(" with ID ");
        line.append(self.gfy_id.as_str());
        line
    }
}

impl DownloadClient {
    /// The notice that opens a bulk download of `posts`.
    pub fn opening_line(&self, posts: &Vec<GfycatPost>) -> (line: String)
        ensures
            line@ == opening_line(posts@.len()),
    {
        let mut line = String::from_str("Downloading ");
        line.append(decimal(posts.len() as u64).as_str());
        line.append(" posts");
        line
    }

    /// A client whose downloads have no time limit.
    pub fn new() -> (client: DownloadClient)
        ensures
            client.timeout_secs is None,
    {
        DownloadClient { timeout_secs: None }
    }

    /// A run over `posts` before its first request.
    pub fn start<'a>(&self, posts: &'a Vec<GfycatPost>) -> (run: DownloadRun<'a>)
        ensures
            run@ == run_start(posts_view(posts@), self.timeout_secs),
    {
        DownloadRun { posts, timeout_secs: self.timeout_secs, pending: false, report: RunReport::new() }
    }

    /// Downloads over a recorded exchange: the posts are attempted in their
    /// order, each with the exchange at its position, until the posts or the
    /// exchanges run out. A failure stays with its post: the posts behind it
    /// are attempted all the same. Returns the report over the posts
    /// attempted.
    pub fn download_webms(&self, posts: &Vec<GfycatPost>, exchanges: Vec<ItemExchange>) -> (report: RunReport)
        ensures
            report@ == report_of(
                posts_view(posts@),
                outcomes_of(exchanges_view(exchanges@)).take(attempts(posts@.len(), exchanges@.len()) as int),
            ),
    {
        let ghost all = exchanges_view(exchanges@);
        let ghost items = exchanges@;
        let mut run = self.start(posts);
        assert(all.take(0) =~= Seq::<ExchangeView>::empty());
        for exchange in it: exchanges.into_iter()
            invariant
                it.seq() == items,
                all == exchanges_view(items),
                run@ == run_after(posts_view(posts@), self.timeout_secs, all.take(it.index() as int)),
        {
            proof {
                let upto = all.take(it.index() + 1);
                assert(upto.drop_last() =~= all.take(it.index() as int));
                assert(upto.last() == exchange@);
            }
            let ItemExchange { reply, written } = exchange;
            let (next, _) = run.fetched(reply);
            run = next.written(written);
        }
        proof {
            assert(all.take(items.len() as int) =~= all);
            lemma_run_after(posts_view(posts@), self.timeout_secs, all);
            let m = attempts(posts@.len(), exchanges@.len()) as int;
            assert(outcomes_of(all.take(m)) =~= outcomes_of(all).take(m));
        }
        run.into_report()
    }
}

/// The number of posts attempted where there are `posts` posts and
/// `exchanges` exchanges: the smaller of the two.
pub open spec fn attempts(posts: nat, exchanges: nat) -> nat {
    if exchanges <= posts {
        exchanges
    } else {
        posts
    }
}

/// A report counts every outcome once: as a success or as a failure.
pub proof fn lemma_report_counts(posts: Seq<PostView>, outcomes: Seq<OutcomeView>)
    ensures
        report_of(posts, outcomes).attempted == outcomes.len(),
        report_of(posts, outcomes).succeeded + report_of(posts, outcomes).failures.len() == outcomes.len(),
        report_of(posts, outcomes).failures.len() == failed_items(outcomes).len(),
    decreases outcomes.len(),
{
    if outcomes.len() > 0 {
        lemma_report_counts(posts, outcomes.drop_last());
    }
}

/// A run over recorded exchanges attempts one post for each exchange, as far
/// as there are posts, and then waits for nothing; its report is the report
/// over their outcomes.
pub proof fn lemma_run_after(posts: Seq<PostView>, timeout_secs: Option<u64>, exchanges: Seq<ExchangeView>)
    ensures
        run_after(posts, timeout_secs, exchanges) == (RunView {
            posts,
            timeout_secs,
            pending: false,
            report: report_of(posts, outcomes_of(exchanges.take(attempts(posts.len(), exchanges.len()) as int))),
        }),
    decreases exchanges.len(),
{
    let m = attempts(posts.len(), exchanges.len()) as int;
    if exchanges.len() == 0 {
        assert(exchanges.take(0) =~= exchanges);
    } else {
        let shorter = exchanges.drop_last();
        let k = attempts(posts.len(), shorter.len()) as int;
        lemma_run_after(posts, timeout_secs, shorter);
        lemma_report_counts(posts, outcomes_of(shorter.take(k)));
        if shorter.len() >= posts.len() {
            assert(shorter.take(k) =~= exchanges.take(m));
        } else {
            assert(shorter.take(k) =~= shorter);
            assert(exchanges.take(m) =~= exchanges);
            assert(outcomes_of(exchanges).drop_last() =~= outcomes_of(shorter));
        }
    }
}

/// Every post is attempted once, in order. After the exchanges of the
/// first `k` posts, however they went, the run asks for the payload of post
/// `k`, and once every post has had its exchange it asks for nothing.
pub proof fn lemma_run_attempts_in_order(
    posts: Seq<PostView>,
    timeout_secs: Option<u64>,
    exchanges: Seq<ExchangeView>,
    k: int,
)
    requires
        0 <= k <= exchanges.len(),
        exchanges.len() <= posts.len(),
    ensures
        k < posts.len() ==> run_after(posts, timeout_secs, exchanges.take(k)).task() == TaskView::Fetch(
            FetchRequestView { url: posts[k].webm_url, timeout_secs },
        ),
        k == posts.len() ==> run_after(posts, timeout_secs, exchanges.take(k)).task() == TaskView::Done,
{
    lemma_run_after(posts, timeout_secs, exchanges.take(k));
    assert(exchanges.take(k).take(k) =~= exchanges.take(k));
    lemma_report_counts(posts, outcomes_of(exchanges.take(k)));
}

/// Where every post succeeded, the report counts them all and lists no
/// failure.
pub proof fn lemma_all_succeeded(posts: Seq<PostView>, outcomes: Seq<OutcomeView>)
    requires
        forall|i: int| 0 <= i < outcomes.len() ==> #[trigger] outcomes[i] is Success,
    ensures
        report_of(posts, outcomes) == (ReportView {
            attempted: outcomes.len(),
            succeeded: outcomes.len(),
            failures: Seq::empty(),
        }),
    decreases outcomes.len(),
{
    if outcomes.len() > 0 {
        lemma_all_succeeded(posts, outcomes.drop_last());
    }
}

/// Downloads are isolated. Where post `j` fails and every other post
/// succeeds, all posts are attempted, all but one succeed, and the report
/// lists exactly one failure: the line for post `j`.
pub proof fn lemma_download_isolation(posts: Seq<PostView>, outcomes: Seq<OutcomeView>, j: int)
    requires
        0 <= j < outcomes.len(),
        !(outcomes[j] is Success),
        forall|i: int| 0 <= i < outcomes.len() && i != j ==> #[trigger] outcomes[i] is Success,
    ensures
        report_of(posts, outcomes) == (ReportView {
            attempted: outcomes.len(),
            succeeded: (outcomes.len() - 1) as nat,
            failures: seq![failure_line(posts[j].title, outcomes[j])->Some_0],
        }),
    decreases outcomes.len(),
{
    let shorter = outcomes.drop_last();
    if j == outcomes.len() - 1 {
        lemma_all_succeeded(posts, shorter);
        assert(Seq::<Seq<char>>::empty().push(failure_line(posts[j].title, outcomes[j])->Some_0)
            =~= seq![failure_line(posts[j].title, outcomes[j])->Some_0]);
    } else {
        assert(shorter[j] == outcomes[j]);
        lemma_download_isolation(posts, shorter, j);
    }
}

/// The positions of the failures are the positions of the outcomes that are
/// no success, each once, in ascending order.
pub proof fn lemma_failed_items(outcomes: Seq<OutcomeView>)
    ensures
        forall|k: int|
            0 <= k < failed_items(outcomes).len() ==> 0 <= (#[trigger] failed_items(outcomes)[k]) < outcomes.len()
                && !(outcomes[failed_items(outcomes)[k]] is Success),
        forall|k: int, l: int|
            0 <= k < l < failed_items(outcomes).len() ==> (#[trigger] failed_items(outcomes)[k]) < (
            #[trigger] failed_items(outcomes)[l]),
        forall|i: int|
            0 <= i < outcomes.len() && !(#[trigger] outcomes[i] is Success) ==> failed_items(outcomes).contains(i),
    decreases outcomes.len(),
{
    if outcomes.len() > 0 {
        let shorter = outcomes.drop_last();
        let last = outcomes.len() - 1;
        lemma_failed_items(shorter);
        let now = failed_items(outcomes);
        let before = failed_items(shorter);
        assert forall|i: int| 0 <= i < outcomes.len() && !(#[trigger] outcomes[i] is Success) implies now.contains(
            i,
        ) by {
            if i < last {
                assert(shorter[i] == outcomes[i]);
                assert(before.contains(i));
                let k = choose|k: int| 0 <= k < before.len() && before[k] == i;
                assert(now[k] == i);
            } else {
                assert(now[now.len() - 1] == i);
            }
        }
        assert forall|k: int| 0 <= k < now.len() implies 0 <= (#[trigger] now[k]) < outcomes.len() && !(
        outcomes[now[k]] is Success) by {
            if k < before.len() {
                assert(now[k] == before[k]);
                assert(shorter[before[k]] == outcomes[before[k]]);
            }
        }
        assert forall|k: int, l: int| 0 <= k < l < now.len() implies (#[trigger] now[k]) < (#[trigger] now[l]) by {
            assert(now[k] == before[k]);
            if l < before.len() {
                assert(now[l] == before[l]);
            }
        }
    }
}

/// The report keeps the order of the posts. Its failures are the lines of
/// the posts that failed, one for each, in the order of the posts, whichever
/// of them failed.
pub proof fn lemma_report_ordering(posts: Seq<PostView>, outcomes: Seq<OutcomeView>)
    ensures
        report_of(posts, outcomes).failures.len() == failed_items(outcomes).len(),
        forall|k: int|
            0 <= k < failed_items(outcomes).len() ==> Some(#[trigger] report_of(posts, outcomes).failures[k])
                == failure_line(posts[failed_items(outcomes)[k]].title, outcomes[failed_items(outcomes)[k]]),
    decreases outcomes.len(),
{
    lemma_report_counts(posts, outcomes);
    lemma_failed_items(outcomes);
    if outcomes.len() > 0 {
        let shorter = outcomes.drop_last();
        lemma_report_ordering(posts, shorter);
        lemma_report_counts(posts, shorter);
        lemma_failed_items(shorter);
        let now = failed_items(outcomes);
        let before = failed_items(shorter);
        assert forall|k: int| 0 <= k < now.len() implies Some(#[trigger] report_of(posts, outcomes).failures[k])
            == failure_line(posts[now[k]].title, outcomes[now[k]]) by {
            if k < before.len() {
                assert(now[k] == before[k]);
                assert(shorter[before[k]] == outcomes[before[k]]);
                assert(report_of(posts, outcomes).failures[k] == report_of(posts, shorter).failures[k]);
            }
        }
    }
}

} // verus!
