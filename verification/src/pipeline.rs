//! One run from credentials to the record: authorization, listing, bulk
//! download and the writing of the record, in that order. The pipeline
//! decides what comes next; the caller does it and reports back.

use crate::configuration::Settings;
use crate::configuration::SettingsView;
use crate::download_client::ReportView;
use crate::download_client::RunReport;
use crate::gfycat_client::posts_view;
use crate::gfycat_client::ClientCredentialsGrantResponse;
use crate::gfycat_client::ClientView;
use crate::gfycat_client::GfycatClient;
use crate::gfycat_client::GfycatPost;
use crate::gfycat_client::GrantView;
use crate::gfycat_client::PostView;
use crate::http::FailureView;
use crate::http::ReplyFailure;
use vstd::prelude::*;

verus! {

/// Why a run stopped before its end.
#[derive(Debug, Clone, PartialEq, Eq)]
pub enum RunError {
    /// No usable credentials were obtained.
    Configuration,
    /// The token request failed.
    Auth(ReplyFailure),
    /// A page of the listing failed.
    Listing(ReplyFailure),
    /// The record could not be written; the text says why.
    MetadataWrite(String),
}

/// The mathematical content of a [`RunError`].
pub enum RunErrorView {
    Configuration,
    Auth(FailureView),
    Listing(FailureView),
    MetadataWrite(Seq<char>),
}

impl View for RunError {
    type V = RunErrorView;

    open spec fn view(&self) -> RunErrorView {
        match self {
            RunError::Configuration => RunErrorView::Configuration,
            RunError::Auth(cause) => RunErrorView::Auth(cause@),
            RunError::Listing(cause) => RunErrorView::Listing(cause@),
            RunError::MetadataWrite(reason) => RunErrorView::MetadataWrite(reason@),
        }
    }
}

/// Where a run stands: what it waits for and what it holds.
#[derive(Debug)]
pub enum Pipeline {
    /// Waits for the credentials.
    Credentials { base_url: String },
    /// Waits for the token.
    Token { client: GfycatClient },
    /// Waits for the listing.
    Listing { client: GfycatClient, grant: ClientCredentialsGrantResponse },
    /// Waits for the bulk download of the listed posts.
    Downloads { posts: Vec<GfycatPost> },
    /// Waits for the record of the listed posts to be written.
    Metadata { posts: Vec<GfycatPost>, report: RunReport },
    /// The run is over; the report says how the downloads went.
    Succeeded { report: RunReport },
    /// The run was stopped.
    Failed { error: RunError },
}

/// The mathematical content of a [`Pipeline`].
pub enum PipelineView {
    Credentials { base_url: Seq<char> },
    Token { client: ClientView },
    Listing { client: ClientView, grant: GrantView },
    Downloads { posts: Seq<PostView> },
    Metadata { posts: Seq<PostView>, report: ReportView },
    Succeeded { report: ReportView },
    Failed { error: RunErrorView },
}

impl View for Pipeline {
    type V = PipelineView;

    open spec fn view(&self) -> PipelineView {
        match self {
            Pipeline::Credentials { base_url } => PipelineView::Credentials { base_url: base_url@ },
            Pipeline::Token { client } => PipelineView::Token { client: client@ },
            Pipeline::Listing { client, grant } => PipelineView::Listing { client: client@, grant: grant@ },
            Pipeline::Downloads { posts } => PipelineView::Downloads { posts: posts_view(posts@) },
            Pipeline::Metadata { posts, report } => PipelineView::Metadata {
                posts: posts_view(posts@),
                report: report@,
            },
            Pipeline::Succeeded { report } => PipelineView::Succeeded { report: report@ },
            Pipeline::Failed { error } => PipelineView::Failed { error: error@ },
        }
    }
}

/// What the caller reports back.
#[derive(Debug)]
pub enum Signal {
    /// The credentials, or `None` where none could be obtained.
    Credentials(Option<Settings>),
    /// The grant, or why the token request failed.
    Token(Result<ClientCredentialsGrantResponse, ReplyFailure>),
    /// All posts, or why the listing failed.
    Listed(Result<Vec<GfycatPost>, ReplyFailure>),
    /// The report of the bulk download.
    Downloaded(RunReport),
    /// How writing the record went.
    MetadataWritten(Result<(), String>),
}

/// The mathematical content of a [`Signal`].
pub enum SignalView {
    Credentials(Option<SettingsView>),
    Token(Result<GrantView, FailureView>),
    Listed(Result<Seq<PostView>, FailureView>),
    Downloaded(ReportView),
    MetadataWritten(Result<(), Seq<char>>),
}

impl View for Signal {
    type V = SignalView;

    open spec fn view(&self) -> SignalView {
        match self {
            Signal::Credentials(None) => SignalView::Credentials(None),
            Signal::Credentials(Some(settings)) => SignalView::Credentials(Some(settings@)),
            Signal::Token(Ok(grant)) => SignalView::Token(Ok(grant@)),
            Signal::Token(Err(cause)) => SignalView::Token(Err(cause@)),
            Signal::Listed(Ok(posts)) => SignalView::Listed(Ok(posts_view(posts@))),
            Signal::Listed(Err(cause)) => SignalView::Listed(Err(cause@)),
            Signal::Downloaded(report) => SignalView::Downloaded(report@),
            Signal::MetadataWritten(Ok(_)) => SignalView::MetadataWritten(Ok(())),
            Signal::MetadataWritten(Err(reason)) => SignalView::MetadataWritten(Err(reason@)),
        }
    }
}

/// What the caller is to do next.
#[derive(Debug, Clone, Copy, PartialEq, Eq, Structural)]
pub enum Directive {
    ObtainCredentials,
    Authenticate,
    ListPosts,
    DownloadPosts,
    WriteMetadata,
    /// Stop, with this exit status.
    Exit { status: u8 },
}

/// What a run asks for: each stage's own work, and at the end the exit
/// status, which is zero for a run that reached its end, whatever its
/// downloads did, and one for a run that was stopped.
pub open spec fn directive_of(state: PipelineView) -> Directive {
    match state {
        PipelineView::Credentials { .. } => Directive::ObtainCredentials,
        PipelineView::Token { .. } => Directive::Authenticate,
        PipelineView::Listing { .. } => Directive::ListPosts,
        PipelineView::Downloads { .. } => Directive::DownloadPosts,
        PipelineView::Metadata { .. } => Directive::WriteMetadata,
        PipelineView::Succeeded { .. } => Directive::Exit { status: 0 },
        PipelineView::Failed { .. } => Directive::Exit { status: 1 },
    }
}

/// The run after a signal. The signal that a stage waits for moves the run
/// to the next stage, or stops it where it reports a failure of the
/// credentials, the token, the listing or the record. The report of the
/// downloads never stops a run. Any other signal leaves the run as it is.
pub open spec fn pipeline_step(state: PipelineView, signal: SignalView) -> PipelineView {
    match (state, signal) {
        (PipelineView::Credentials { base_url }, SignalView::Credentials(Some(settings))) => PipelineView::Token {
            client: ClientView {
                base_url,
                client_id: settings.client_id,
                client_secret: settings.client_secret,
                username: settings.username,
                password: settings.password,
            },
        },
        (PipelineView::Credentials { base_url }, SignalView::Credentials(None)) => PipelineView::Failed {
            error: RunErrorView::Configuration,
        },
        (PipelineView::Token { client }, SignalView::Token(Ok(grant))) => PipelineView::Listing { client, grant },
        (PipelineView::Token { client }, SignalView::Token(Err(cause))) => PipelineView::Failed {
            error: RunErrorView::Auth(cause),
        },
        (PipelineView::Listing { client, grant }, SignalView::Listed(Ok(posts))) => PipelineView::Downloads {
            posts,
        },
        (PipelineView::Listing { client, grant }, SignalView::Listed(Err(cause))) => PipelineView::Failed {
            error: RunErrorView::Listing(cause),
        },
        (PipelineView::Downloads { posts }, SignalView::Downloaded(report)) => PipelineView::Metadata {
            posts,
            report,
        },
        (PipelineView::Metadata { posts, report }, SignalView::MetadataWritten(Ok(_))) => PipelineView::Succeeded {
            report,
        },
        (PipelineView::Metadata { posts, report }, SignalView::MetadataWritten(Err(reason))) => PipelineView::Failed {
            error: RunErrorView::MetadataWrite(reason),
        },
        _ => state,
    }
}

/// The run after a sequence of signals.
pub open spec fn pipeline_after(state: PipelineView, signals: Seq<SignalView>) -> PipelineView
    decreases signals.len(),
{
    if signals.len() == 0 {
        state
    } else {
        pipeline_step(pipeline_after(state, signals.drop_last()), signals.last())
    }
}

impl Pipeline {
    /// A run against the API at `base_url`, before anything was done.
    pub fn new(base_url: String) -> (run: Pipeline)
        ensures
            run@ == (PipelineView::Credentials { base_url: base_url@ }),
    {
        Pipeline::Credentials { base_url }
    }

    /// What the caller is to do next.
    pub fn directive(&self) -> (directive: Directive)
        ensures
            directive == directive_of(self@),
    {
        match self {
            Pipeline::Credentials { .. } => Directive::ObtainCredentials,
            Pipeline::Token { .. } => Directive::Authenticate,
            Pipeline::Listing { .. } => Directive::ListPosts,
            Pipeline::Downloads { .. } => Directive::DownloadPosts,
            Pipeline::Metadata { .. } => Directive::WriteMetadata,
            Pipeline::Succeeded { .. } => Directive::Exit { status: 0 },
            Pipeline::Failed { .. } => Directive::Exit { status: 1 },
        }
    }

    /// Takes what the caller reports back.
    pub fn advance(self, signal: Signal) -> (next: Pipeline)
        ensures
            next@ == pipeline_step(self@, signal@),
    {
        match (self, signal) {
            (Pipeline::Credentials { base_url }, Signal::Credentials(Some(settings))) => {
                let Settings { client_id, client_secret, username, password } = settings;
                Pipeline::Token { client: GfycatClient::new(base_url, client_id, client_secret, username, password) }
            },
            (Pipeline::Credentials { base_url }, Signal::Credentials(None)) => Pipeline::Failed {
                error: RunError::Configuration,
            },
            (Pipeline::Token { client }, Signal::Token(Ok(grant))) => Pipeline::Listing { client, grant },
            (Pipeline::Token { client }, Signal::Token(Err(cause))) => Pipeline::Failed {
                error: RunError::Auth(cause),
            },
            (Pipeline::Listing { client, grant }, Signal::Listed(Ok(posts))) => Pipeline::Downloads { posts },
            (Pipeline::Listing { client, grant }, Signal::Listed(Err(cause))) => Pipeline::Failed {
                error: RunError::Listing(cause),
            },
            (Pipeline::Downloads { posts }, Signal::Downloaded(report)) => Pipeline::Metadata { posts, report },
            (Pipeline::Metadata { posts, report }, Signal::MetadataWritten(Ok(_))) => Pipeline::Succeeded {
                report,
            },
            (Pipeline::Metadata { posts, report }, Signal::MetadataWritten(Err(reason))) => Pipeline::Failed {
                error: RunError::MetadataWrite(reason),
            },
            (state, _) => state,
        }
    }
}

/// A run that has ended, succeeded or stopped, stays as it is whatever is
/// reported to it.
pub proof fn lemma_ended_run_stays(state: PipelineView, signals: Seq<SignalView>)
    requires
        state is Succeeded || state is Failed,
    ensures
        pipeline_after(state, signals) == state,
    decreases signals.len(),
{
    if signals.len() > 0 {
        lemma_ended_run_stays(state, signals.drop_last());
    }
}

/// A failed authorization ends the run. From then on, whatever is reported,
/// the run stays stopped with that failure and asks for nothing but to exit
/// with a status that is not zero: neither the listing nor the download nor
/// the writing of the record is ever asked for.
pub proof fn lemma_auth_failure_stops(client: ClientView, cause: FailureView, signals: Seq<SignalView>)
    ensures
        pipeline_step(PipelineView::Token { client }, SignalView::Token(Err(cause))) == (PipelineView::Failed {
            error: RunErrorView::Auth(cause),
        }),
        pipeline_after(PipelineView::Failed { error: RunErrorView::Auth(cause) }, signals) == (
        PipelineView::Failed { error: RunErrorView::Auth(cause) }),
        directive_of(PipelineView::Failed { error: RunErrorView::Auth(cause) }) == (Directive::Exit { status: 1 }),
{
    lemma_ended_run_stays(PipelineView::Failed { error: RunErrorView::Auth(cause) }, signals);
}

/// A failed listing ends the run in the same way: neither the download nor
/// the writing of the record is ever asked for.
pub proof fn lemma_listing_failure_stops(
    client: ClientView,
    grant: GrantView,
    cause: FailureView,
    signals: Seq<SignalView>,
)
    ensures
        pipeline_step(PipelineView::Listing { client, grant }, SignalView::Listed(Err(cause))) == (
        PipelineView::Failed { error: RunErrorView::Listing(cause) }),
        pipeline_after(PipelineView::Failed { error: RunErrorView::Listing(cause) }, signals) == (
        PipelineView::Failed { error: RunErrorView::Listing(cause) }),
        directive_of(PipelineView::Failed { error: RunErrorView::Listing(cause) }) == (Directive::Exit {
            status: 1,
        }),
{
    lemma_ended_run_stays(PipelineView::Failed { error: RunErrorView::Listing(cause) }, signals);
}

/// Failed downloads do not stop a run. Whatever the report of the downloads
/// holds, the record of the listed posts is written next, and once it is
/// written the run exits with status zero.
pub proof fn lemma_downloads_never_stop(posts: Seq<PostView>, report: ReportView)
    ensures
        pipeline_step(PipelineView::Downloads { posts }, SignalView::Downloaded(report)) == (
        PipelineView::Metadata { posts, report }),
        directive_of(PipelineView::Metadata { posts, report }) == Directive::WriteMetadata,
        directive_of(
            pipeline_step(PipelineView::Metadata { posts, report }, SignalView::MetadataWritten(Ok(()))),
        ) == (Directive::Exit { status: 0 }),
{
}

} // verus!
