//! The cursor-paginated listing as a state machine. The caller sends the
//! request for the page that the listing waits for and hands back the reply;
//! the listing decides whether to go on, and with which cursor.

use crate::gfycat_client::page_outcome;
use crate::gfycat_client::page_request_view;
use crate::gfycat_client::ClientView;
use crate::gfycat_client::PageRequestView;
use crate::gfycat_client::posts_view;
use crate::gfycat_client::valid_posts;
use crate::gfycat_client::AllGfycatsResponse;
use crate::gfycat_client::GfycatPost;
use crate::gfycat_client::PageView;
use crate::gfycat_client::PostView;
use crate::http::is_success;
use crate::http::FailureView;
use crate::http::HttpReply;
use crate::http::ReplyFailure;
use crate::http::ReplyView;
use vstd::prelude::*;

verus! {

/// Where a listing stands.
#[derive(Debug, Clone, PartialEq, Eq)]
pub enum Listing {
    /// The page at `cursor` is to be asked for; `posts` holds the posts of
    /// the pages read so far.
    Fetching { cursor: String, posts: Vec<GfycatPost> },
    /// The last page has been read; `posts` holds every post, in the order
    /// of the pages and, within a page, in the page's order.
    Complete { posts: Vec<GfycatPost> },
    /// A page could not be read. The posts of earlier pages are dropped.
    Failed { cause: ReplyFailure },
}

/// The mathematical content of a [`Listing`].
pub enum ListingView {
    Fetching { cursor: Seq<char>, posts: Seq<PostView> },
    Complete { posts: Seq<PostView> },
    Failed { cause: FailureView },
}

impl View for Listing {
    type V = ListingView;

    open spec fn view(&self) -> ListingView {
        match self {
            Listing::Fetching { cursor, posts } => ListingView::Fetching {
                cursor: cursor@,
                posts: posts_view(posts@),
            },
            Listing::Complete { posts } => ListingView::Complete { posts: posts_view(posts@) },
            Listing::Failed { cause } => ListingView::Failed { cause: cause@ },
        }
    }
}

impl ListingView {
    /// Whether every post that the listing holds is valid.
    pub open spec fn sound(self) -> bool {
        match self {
            ListingView::Fetching { cursor, posts } => valid_posts(posts),
            ListingView::Complete { posts } => valid_posts(posts),
            ListingView::Failed { cause } => true,
        }
    }
}

/// A listing before its first request: the empty cursor and no posts.
pub open spec fn listing_start() -> ListingView {
    ListingView::Fetching { cursor: Seq::empty(), posts: Seq::empty() }
}

/// The listing after the reply to the request it was waiting for. A page
/// adds its posts behind those already held; an empty cursor on it ends the
/// listing, any other cursor is the next to ask for. A reply that holds no
/// page fails the listing. A listing that is complete or has failed waits
/// for nothing and stays as it is.
pub open spec fn listing_step(state: ListingView, reply: ReplyView) -> ListingView {
    match state {
        ListingView::Fetching { cursor, posts } => match page_outcome(reply) {
            Err(cause) => ListingView::Failed { cause },
            Ok(page) => if page.cursor.len() == 0 {
                ListingView::Complete { posts: posts + page.gfycats }
            } else {
                ListingView::Fetching { cursor: page.cursor, posts: posts + page.gfycats }
            },
        },
        _ => state,
    }
}

/// The listing after a sequence of replies, from the start.
pub open spec fn listing_after(replies: Seq<ReplyView>) -> ListingView
    decreases replies.len(),
{
    if replies.len() == 0 {
        listing_start()
    } else {
        listing_step(listing_after(replies.drop_last()), replies.last())
    }
}

/// The requests that a sequence of replies answers: one for each reply that
/// reaches the listing while it waits for a page, each with the cursor that
/// the listing waits with.
pub open spec fn requests_for(client: ClientView, token: Seq<char>, replies: Seq<ReplyView>) -> Seq<PageRequestView>
    decreases replies.len(),
{
    if replies.len() == 0 {
        Seq::empty()
    } else {
        let before = requests_for(client, token, replies.drop_last());
        match listing_after(replies.drop_last()) {
            ListingView::Fetching { cursor, posts } => before.push(page_request_view(client, token, cursor)),
            _ => before,
        }
    }
}

/// The contents of a sequence of replies, in order.
pub open spec fn replies_view(replies: Seq<HttpReply>) -> Seq<ReplyView> {
    Seq::new(replies.len(), |i: int| replies[i]@)
}

/// The posts of a sequence of pages, page after page.
pub open spec fn all_posts(pages: Seq<PageView>) -> Seq<PostView>
    decreases pages.len(),
{
    if pages.len() == 0 {
        Seq::empty()
    } else {
        all_posts(pages.drop_last()) + pages.last().gfycats
    }
}

/// The cursor of the request for page `k`, counted from zero: empty for the
/// first page, then the cursor that the page before handed out.
pub open spec fn cursor_for(pages: Seq<PageView>, k: int) -> Seq<char> {
    if k == 0 {
        Seq::empty()
    } else {
        pages[k - 1].cursor
    }
}

impl Listing {
    /// A listing before its first request.
    pub fn start() -> (listing: Listing)
        ensures
            listing@ == listing_start(),
    {
        let listing = Listing::Fetching { cursor: String::new(), posts: Vec::new() };
        assert(posts_view(Seq::<GfycatPost>::empty()) =~= Seq::<PostView>::empty());
        listing
    }

    /// The cursor of the page to ask for next; `None` once the listing is
    /// complete or has failed.
    pub fn next_cursor(&self) -> (cursor: Option<&String>)
        ensures
            match self@ {
                ListingView::Fetching { cursor: c, posts } => cursor matches Some(s) && s@ == c,
                _ => cursor is None,
            },
    {
        match self {
            Listing::Fetching { cursor, posts } => Some(cursor),
            _ => None,
        }
    }

    /// Takes the reply to the request that the listing was waiting for.
    pub fn on_reply(self, reply: &HttpReply) -> (next: Listing)
        ensures
            next@ == listing_step(self@, reply@),
    {
        match self {
            Listing::Fetching { cursor, posts } => {
                match AllGfycatsResponse::from_reply(reply) {
                    Err(cause) => Listing::Failed { cause },
                    Ok(page) => {
                        let ghost held = posts@;
                        let ghost added = page.gfycats@;
                        let AllGfycatsResponse { cursor: next, gfycats } = page;
                        let mut posts = posts;
                        let mut more = gfycats;
                        posts.append(&mut more);
                        assert(posts_view(posts@) =~= posts_view(held) + posts_view(added));
                        if next.as_str().is_empty() {
                            Listing::Complete { posts }
                        } else {
                            Listing::Fetching { cursor: next, posts }
                        }
                    },
                }
            },
            Listing::Complete { posts } => Listing::Complete { posts },
            Listing::Failed { cause } => Listing::Failed { cause },
        }
    }

    /// The posts of a complete listing, or the reason why the listing
    /// failed; `None` while a page is still to be asked for.
    pub fn into_result(self) -> (r: Option<Result<Vec<GfycatPost>, ReplyFailure>>)
        ensures
            match self@ {
                ListingView::Fetching { cursor, posts } => r is None,
                ListingView::Complete { posts } => r matches Some(Ok(p)) && posts_view(p@) == posts,
                ListingView::Failed { cause } => r matches Some(Err(c)) && c@ == cause,
            },
    {
        match self {
            Listing::Fetching { cursor, posts } => None,
            Listing::Complete { posts } => Some(Ok(posts)),
            Listing::Failed { cause } => Some(Err(cause)),
        }
    }
}

/// A listing that has ended, complete or failed, is not changed by further
/// replies.
pub proof fn lemma_listing_ended(replies: Seq<ReplyView>, k: int)
    requires
        0 <= k <= replies.len(),
        !(listing_after(replies.take(k)) is Fetching),
    ensures
        listing_after(replies) == listing_after(replies.take(k)),
    decreases replies.len(),
{
    if k == replies.len() {
        assert(replies.take(k) =~= replies);
    } else {
        assert(replies.drop_last().take(k) =~= replies.take(k));
        lemma_listing_ended(replies.drop_last(), k);
    }
}

/// While every page so far came with a cursor, the listing waits for the
/// next page: it holds the posts of the pages read, in order, and asks with
/// the cursor of the last of them.
pub proof fn lemma_listing_open(replies: Seq<ReplyView>, pages: Seq<PageView>, k: int)
    requires
        0 <= k <= replies.len(),
        k <= pages.len(),
        forall|i: int| 0 <= i < k ==> page_outcome(#[trigger] replies[i]) == Ok::<PageView, FailureView>(pages[i]),
        forall|i: int| 0 <= i < k ==> (#[trigger] pages[i]).cursor.len() > 0,
    ensures
        listing_after(replies.take(k)) == (ListingView::Fetching {
            cursor: cursor_for(pages, k),
            posts: all_posts(pages.take(k)),
        }),
    decreases k,
{
    if k == 0 {
        assert(replies.take(0) =~= Seq::<ReplyView>::empty());
        assert(pages.take(0) =~= Seq::<PageView>::empty());
    } else {
        lemma_listing_open(replies, pages, k - 1);
        assert(replies.take(k).drop_last() =~= replies.take(k - 1));
        assert(replies.take(k).last() == replies[k - 1]);
        assert(pages.take(k).drop_last() =~= pages.take(k - 1));
        assert(pages.take(k).last() == pages[k - 1]);
    }
}

/// Pagination is complete. Where the endpoint answers with the pages
/// `pages`, each but the last with a cursor and the last with none, the
/// listing ends complete with the posts of all pages, page after page; and
/// before each page `k` it waits with the cursor for that page, so that the
/// endpoint is asked once for each page: first with the empty cursor, then
/// with the cursor of the page before.
pub proof fn lemma_pagination_complete(replies: Seq<ReplyView>, pages: Seq<PageView>)
    requires
        pages.len() > 0,
        replies.len() == pages.len(),
        forall|i: int| 0 <= i < pages.len() ==> page_outcome(#[trigger] replies[i]) == Ok::<PageView, FailureView>(pages[i]),
        forall|i: int| 0 <= i < pages.len() - 1 ==> (#[trigger] pages[i]).cursor.len() > 0,
        pages.last().cursor.len() == 0,
    ensures
        listing_after(replies) == (ListingView::Complete { posts: all_posts(pages) }),
        forall|k: int|
            0 <= k < pages.len() ==> #[trigger] listing_after(replies.take(k)) == (ListingView::Fetching {
                cursor: cursor_for(pages, k),
                posts: all_posts(pages.take(k)),
            }),
{
    let n = pages.len() as int;
    assert forall|k: int| 0 <= k < n implies #[trigger] listing_after(replies.take(k)) == (ListingView::Fetching {
        cursor: cursor_for(pages, k),
        posts: all_posts(pages.take(k)),
    }) by {
        lemma_listing_open(replies, pages, k);
    }
    lemma_listing_open(replies, pages, n - 1);
    assert(replies.drop_last() =~= replies.take(n - 1));
    assert(pages.drop_last() =~= pages.take(n - 1));
    assert(page_outcome(replies.last()) == Ok::<PageView, FailureView>(pages.last()));
}

/// Pagination asks once for each page. Where every page but the last came
/// with a cursor, the requests that the replies answer are as many as the
/// pages, and request `k` carries the cursor for page `k`.
pub proof fn lemma_pagination_requests(
    client: ClientView,
    token: Seq<char>,
    replies: Seq<ReplyView>,
    pages: Seq<PageView>,
)
    requires
        replies.len() == pages.len(),
        forall|i: int| 0 <= i < pages.len() ==> page_outcome(#[trigger] replies[i]) == Ok::<PageView, FailureView>(pages[i]),
        forall|i: int| 0 <= i < pages.len() - 1 ==> (#[trigger] pages[i]).cursor.len() > 0,
    ensures
        requests_for(client, token, replies).len() == pages.len(),
        forall|k: int|
            0 <= k < pages.len() ==> (#[trigger] requests_for(client, token, replies)[k]) == page_request_view(
                client,
                token,
                cursor_for(pages, k),
            ),
    decreases replies.len(),
{
    if replies.len() > 0 {
        let n = replies.len() as int;
        lemma_pagination_requests(client, token, replies.drop_last(), pages.drop_last());
        lemma_listing_open(replies, pages, n - 1);
        assert(replies.drop_last() =~= replies.take(n - 1));
    }
}

/// Pagination aborts. Where page `k`, counted from zero, cannot be read
/// and every page before it came with a cursor, the listing has failed
/// with the reason of that page, it holds none of the posts read before, and
/// no later reply changes that.
pub proof fn lemma_pagination_abort(replies: Seq<ReplyView>, pages: Seq<PageView>, k: int, cause: FailureView)
    requires
        0 <= k < replies.len(),
        k <= pages.len(),
        forall|i: int| 0 <= i < k ==> page_outcome(#[trigger] replies[i]) == Ok::<PageView, FailureView>(pages[i]),
        forall|i: int| 0 <= i < k ==> (#[trigger] pages[i]).cursor.len() > 0,
        page_outcome(replies[k]) == Err::<PageView, FailureView>(cause),
    ensures
        listing_after(replies.take(k + 1)) == (ListingView::Failed { cause }),
        listing_after(replies) == (ListingView::Failed { cause }),
{
    lemma_listing_open(replies, pages, k);
    assert(replies.take(k + 1).drop_last() =~= replies.take(k));
    assert(replies.take(k + 1).last() == replies[k]);
    lemma_listing_ended(replies, k + 1);
}

/// A reply with a status outside 200..=299 holds no page, whatever its body:
/// the reason is the status.
pub proof fn lemma_refused_page(status: u16, body: Seq<u8>)
    requires
        !is_success(status),
    ensures
        page_outcome(ReplyView::Response { status, body }) == Err::<PageView, FailureView>(
            FailureView::Status(status),
        ),
{
}

/// Every post that a listing holds is valid, whatever the replies were.
pub proof fn lemma_listing_sound(replies: Seq<ReplyView>)
    ensures
        listing_after(replies).sound(),
    decreases replies.len(),
{
    if replies.len() > 0 {
        lemma_listing_sound(replies.drop_last());
    }
}

} // verus!
