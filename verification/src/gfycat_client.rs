//! The service's API: the records it sends, the requests it takes, token
//! acquisition and the cursor-paginated listing.

use crate::configuration::SecretText;
use crate::http::checked_body;
use crate::http::is_url;
use crate::http::url_parses;
use crate::http::FailureView;
use crate::http::HttpReply;
use crate::http::ReplyFailure;
use crate::http::ReplyView;
use crate::json::lemma_trees_of;
use crate::json::parsed_tree;
use crate::json::text_entry;
use crate::json::trees_of;
use crate::json::Json;
use crate::json::JsonTree;
use crate::listing::listing_after;
use crate::listing::replies_view;
use crate::listing::requests_for;
use crate::listing::Listing;
use vstd::prelude::*;
use vstd::string::*;

verus! {

/// A single post in the list of posts fetched from the service.
#[derive(Debug, Clone, PartialEq, Eq)]
pub struct GfycatPost {
    pub webm_url: String,
    pub title: String,
    pub gfy_id: String,
}

/// The mathematical content of a [`GfycatPost`].
pub struct PostView {
    pub webm_url: Seq<char>,
    pub title: Seq<char>,
    pub gfy_id: Seq<char>,
}

impl View for GfycatPost {
    type V = PostView;

    open spec fn view(&self) -> PostView {
        PostView { webm_url: self.webm_url@, title: self.title@, gfy_id: self.gfy_id@ }
    }
}

/// The contents of a sequence of posts, in order.
pub open spec fn posts_view(posts: Seq<GfycatPost>) -> Seq<PostView> {
    Seq::new(posts.len(), |i: int| posts[i]@)
}

/// One page of the listing: the posts on it and the cursor of the next page,
/// which is empty on the last page.
#[derive(Debug, Clone, PartialEq, Eq)]
pub struct AllGfycatsResponse {
    pub cursor: String,
    pub gfycats: Vec<GfycatPost>,
}

/// The mathematical content of an [`AllGfycatsResponse`].
pub struct PageView {
    pub cursor: Seq<char>,
    pub gfycats: Seq<PostView>,
}

impl View for AllGfycatsResponse {
    type V = PageView;

    open spec fn view(&self) -> PageView {
        PageView { cursor: self.cursor@, gfycats: posts_view(self.gfycats@) }
    }
}

/// A proper response from the authorization endpoint.
#[derive(Debug)]
pub struct ClientCredentialsGrantResponse {
    pub token_type: String,
    pub refresh_token_expires_in: u32,
    pub refresh_token: SecretText,
    pub scope: String,
    pub resource_owner: String,
    pub expires_in: u16,
    pub access_token: SecretText,
}

/// The mathematical content of a [`ClientCredentialsGrantResponse`].
pub struct GrantView {
    pub token_type: Seq<char>,
    pub refresh_token_expires_in: u32,
    pub refresh_token: Seq<char>,
    pub scope: Seq<char>,
    pub resource_owner: Seq<char>,
    pub expires_in: u16,
    pub access_token: Seq<char>,
}

impl View for ClientCredentialsGrantResponse {
    type V = GrantView;

    open spec fn view(&self) -> GrantView {
        GrantView {
            token_type: self.token_type@,
            refresh_token_expires_in: self.refresh_token_expires_in,
            refresh_token: self.refresh_token@,
            scope: self.scope@,
            resource_owner: self.resource_owner@,
            expires_in: self.expires_in,
            access_token: self.access_token@,
        }
    }
}

/// The string that an object holds under `key`.
pub open spec fn text_member(tree: JsonTree, key: Seq<char>) -> Option<Seq<char>> {
    match tree.member(key) {
        Some(member) => member.text(),
        None => None,
    }
}

/// The natural number that an object holds under `key`.
pub open spec fn natural_member(tree: JsonTree, key: Seq<char>) -> Option<u64> {
    match tree.member(key) {
        Some(member) => member.natural(),
        None => None,
    }
}

/// The post that a JSON object describes: its strings under `webmUrl`,
/// `title` and `gfyId`. Other members are ignored.
pub open spec fn post_of_tree(tree: JsonTree) -> Option<PostView> {
    match (text_member(tree, "webmUrl"@), text_member(tree, "title"@), text_member(tree, "gfyId"@)) {
        (Some(webm_url), Some(title), Some(gfy_id)) => Some(PostView { webm_url, title, gfy_id }),
        _ => None,
    }
}

/// The posts that a sequence of JSON objects describes, if each of them
/// describes one.
pub open spec fn posts_of_trees(trees: Seq<JsonTree>) -> Option<Seq<PostView>> {
    if forall|i: int| 0 <= i < trees.len() ==> (#[trigger] post_of_tree(trees[i])) is Some {
        Some(Seq::new(trees.len(), |i: int| post_of_tree(trees[i])->Some_0))
    } else {
        None
    }
}

/// The page that a JSON object describes: its string under `cursor` and the
/// posts in its array under `gfycats`.
pub open spec fn page_of_tree(tree: JsonTree) -> Option<PageView> {
    match (text_member(tree, "cursor"@), tree.member("gfycats"@)) {
        (Some(cursor), Some(JsonTree::List(items))) => match posts_of_trees(items) {
            Some(gfycats) => Some(PageView { cursor, gfycats }),
            None => None,
        },
        _ => None,
    }
}

/// The grant that a JSON object describes: five strings and two natural
/// numbers, `expires_in` below 2^16 and `refresh_token_expires_in` below
/// 2^32.
pub open spec fn grant_of_tree(tree: JsonTree) -> Option<GrantView> {
    match (
        text_member(tree, "token_type"@),
        natural_member(tree, "refresh_token_expires_in"@),
        text_member(tree, "refresh_token"@),
        text_member(tree, "scope"@),
        text_member(tree, "resource_owner"@),
        natural_member(tree, "expires_in"@),
        text_member(tree, "access_token"@),
    ) {
        (
            Some(token_type),
            Some(refresh_token_expires_in),
            Some(refresh_token),
            Some(scope),
            Some(resource_owner),
            Some(expires_in),
            Some(access_token),
        ) => if refresh_token_expires_in <= u32::MAX && expires_in <= u16::MAX {
            Some(
                GrantView {
                    token_type,
                    refresh_token_expires_in: refresh_token_expires_in as u32,
                    refresh_token,
                    scope,
                    resource_owner,
                    expires_in: expires_in as u16,
                    access_token,
                },
            )
        } else {
            None
        },
        _ => None,
    }
}

/// A copy of the string that `doc` holds under `key`.
fn copy_text_member(doc: &Json, key: &str) -> (text: Option<String>)
    ensures
        text is Some <==> text_member(doc@, key@) is Some,
        text matches Some(s) ==> text_member(doc@, key@) == Some(s@),
{
    let key = String::from_str(key);
    match doc.member(&key) {
        Some(member) => match member.as_text() {
            Some(s) => Some(s.clone()),
            None => None,
        },
        None => None,
    }
}

/// The natural number that `doc` holds under `key`.
fn read_natural_member(doc: &Json, key: &str) -> (n: Option<u64>)
    ensures
        n == natural_member(doc@, key@),
{
    let key = String::from_str(key);
    match doc.member(&key) {
        Some(member) => member.as_natural(),
        None => None,
    }
}

impl GfycatPost {
    /// Reads a post from the JSON object that describes it.
    pub fn from_json(doc: &Json) -> (post: Option<GfycatPost>)
        ensures
            post is Some <==> post_of_tree(doc@) is Some,
            post matches Some(p) ==> post_of_tree(doc@) == Some(p@),
    {
        let webm_url = copy_text_member(doc, "webmUrl");
        let title = copy_text_member(doc, "title");
        let gfy_id = copy_text_member(doc, "gfyId");
        match (webm_url, title, gfy_id) {
            (Some(webm_url), Some(title), Some(gfy_id)) => Some(GfycatPost { webm_url, title, gfy_id }),
            _ => None,
        }
    }
}

/// Reads the posts that a sequence of JSON objects describes; `None` where
/// one of them describes no post.
pub fn posts_from_items(items: &Vec<Json>) -> (posts: Option<Vec<GfycatPost>>)
    ensures
        posts is Some <==> posts_of_trees(trees_of(items@)) is Some,
        posts matches Some(p) ==> posts_of_trees(trees_of(items@)) == Some(posts_view(p@)),
{
    let ghost trees = trees_of(items@);
    proof {
        lemma_trees_of(items@);
    }
    let mut posts: Vec<GfycatPost> = Vec::new();
    let mut i: usize = 0;
    while i < items.len()
        invariant
            i <= items.len(),
            trees == trees_of(items@),
            trees.len() == items.len(),
            forall|k: int| 0 <= k < items.len() ==> (#[trigger] trees[k]) == items[k]@,
            posts.len() == i,
            forall|k: int| 0 <= k < i ==> (#[trigger] post_of_tree(trees[k])) == Some(posts[k]@),
        decreases items.len() - i,
    {
        match GfycatPost::from_json(&items[i]) {
            Some(post) => {
                posts.push(post);
            },
            None => {
                assert(post_of_tree(trees[i as int]) is None);
                return None;
            },
        }
        i = i + 1;
    }
    assert(posts_of_trees(trees) is Some);
    assert(posts_of_trees(trees)->Some_0 =~= posts_view(posts@));
    Some(posts)
}

impl AllGfycatsResponse {
    /// Reads a page from the JSON object that describes it.
    pub fn from_json(doc: &Json) -> (page: Option<AllGfycatsResponse>)
        ensures
            page is Some <==> page_of_tree(doc@) is Some,
            page matches Some(p) ==> page_of_tree(doc@) == Some(p@),
    {
        let cursor = match copy_text_member(doc, "cursor") {
            Some(cursor) => cursor,
            None => { return None; },
        };
        let key = String::from_str("gfycats");
        let items = match doc.member(&key) {
            Some(member) => match member.as_list() {
                Some(items) => items,
                None => { return None; },
            },
            None => { return None; },
        };
        match posts_from_items(items) {
            Some(gfycats) => Some(AllGfycatsResponse { cursor, gfycats }),
            None => None,
        }
    }
}

impl ClientCredentialsGrantResponse {
    /// Reads a grant from the JSON object that describes it.
    pub fn from_json(doc: &Json) -> (grant: Option<ClientCredentialsGrantResponse>)
        ensures
            grant is Some <==> grant_of_tree(doc@) is Some,
            grant matches Some(g) ==> grant_of_tree(doc@) == Some(g@),
    {
        let token_type = copy_text_member(doc, "token_type");
        let refresh_token_expires_in = read_natural_member(doc, "refresh_token_expires_in");
        let refresh_token = copy_text_member(doc, "refresh_token");
        let scope = copy_text_member(doc, "scope");
        let resource_owner = copy_text_member(doc, "resource_owner");
        let expires_in = read_natural_member(doc, "expires_in");
        let access_token = copy_text_member(doc, "access_token");
        match (
            token_type,
            refresh_token_expires_in,
            refresh_token,
            scope,
            resource_owner,
            expires_in,
            access_token,
        ) {
            (
                Some(token_type),
                Some(refresh_token_expires_in),
                Some(refresh_token),
                Some(scope),
                Some(resource_owner),
                Some(expires_in),
                Some(access_token),
            ) => {
                if refresh_token_expires_in <= 0xffff_ffff && expires_in <= 0xffff {
                    Some(
                        ClientCredentialsGrantResponse {
                            token_type,
                            refresh_token_expires_in: refresh_token_expires_in as u32,
                            refresh_token: SecretText::new(refresh_token),
                            scope,
                            resource_owner,
                            expires_in: expires_in as u16,
                            access_token: SecretText::new(access_token),
                        },
                    )
                } else {
                    None
                }
            },
            _ => None,
        }
    }
}

/// The content type of the token request's body.
pub const JSON_CONTENT_TYPE: &'static str = "application/json";

/// The number of posts asked for on each page.
pub const PAGE_SIZE: u32 = 100;

/// The time allowed for a request to the API, in seconds.
pub const REQUEST_TIMEOUT_SECS: u64 = 10;

/// Handles requests to the service's API: authorization and the listing of
/// posts. It holds the account's credentials and decides what is asked and
/// what an answer means; sending is left to the caller.
#[derive(Debug)]
pub struct GfycatClient {
    base_url: String,
    client_id: SecretText,
    client_secret: SecretText,
    username: String,
    password: SecretText,
}

/// The mathematical content of a [`GfycatClient`].
pub struct ClientView {
    pub base_url: Seq<char>,
    pub client_id: Seq<char>,
    pub client_secret: Seq<char>,
    pub username: Seq<char>,
    pub password: Seq<char>,
}

impl View for GfycatClient {
    type V = ClientView;

    closed spec fn view(&self) -> ClientView {
        ClientView {
            base_url: self.base_url@,
            client_id: self.client_id@,
            client_secret: self.client_secret@,
            username: self.username@,
            password: self.password@,
        }
    }
}

/// The request that asks for a token: a `POST` of `body`, which is JSON and
/// is sent as [`JSON_CONTENT_TYPE`], to `url`.
#[derive(Debug, Clone, PartialEq, Eq)]
pub struct TokenRequest {
    pub url: String,
    pub body: String,
    pub timeout_secs: u64,
}

/// The request that asks for one page of the listing: a `GET` of `url` with
/// the query parameters `cursor` and `count`, authorized by the bearer token.
#[derive(Debug, Clone, PartialEq, Eq)]
pub struct PageRequest {
    pub url: String,
    pub cursor: String,
    pub count: u32,
    pub bearer: String,
    pub timeout_secs: u64,
}

/// The mathematical content of a [`PageRequest`].
pub struct PageRequestView {
    pub url: Seq<char>,
    pub cursor: Seq<char>,
    pub count: u32,
    pub bearer: Seq<char>,
    pub timeout_secs: u64,
}

impl View for PageRequest {
    type V = PageRequestView;

    open spec fn view(&self) -> PageRequestView {
        PageRequestView {
            url: self.url@,
            cursor: self.cursor@,
            count: self.count,
            bearer: self.bearer@,
            timeout_secs: self.timeout_secs,
        }
    }
}

/// The contents of a sequence of page requests, in order.
pub open spec fn requests_view(requests: Seq<PageRequest>) -> Seq<PageRequestView> {
    Seq::new(requests.len(), |i: int| requests[i]@)
}

/// The request for the page at `cursor`: the endpoint `/me/gfycats`, the
/// fixed page size, and the access token as bearer.
pub open spec fn page_request_view(client: ClientView, token: Seq<char>, cursor: Seq<char>) -> PageRequestView {
    PageRequestView {
        url: client.base_url + "/me/gfycats"@,
        cursor,
        count: PAGE_SIZE,
        bearer: token,
        timeout_secs: REQUEST_TIMEOUT_SECS,
    }
}

/// The body of the token request: a password grant with the account's four
/// credentials.
pub open spec fn grant_request_tree(client: ClientView) -> JsonTree {
    JsonTree::Record(
        seq![
            ("client_id"@, JsonTree::Text(client.client_id)),
            ("client_secret"@, JsonTree::Text(client.client_secret)),
            ("username"@, JsonTree::Text(client.username)),
            ("password"@, JsonTree::Text(client.password)),
            ("grant_type"@, JsonTree::Text("password"@)),
        ],
    )
}

/// Whether a post may enter a listing: its id is not empty and its download
/// URL is a syntactically valid URL.
pub open spec fn valid_post(post: PostView) -> bool {
    post.gfy_id.len() > 0 && is_url(post.webm_url)
}

/// Whether every post of a sequence may enter a listing.
pub open spec fn valid_posts(posts: Seq<PostView>) -> bool {
    forall|i: int| 0 <= i < posts.len() ==> valid_post(#[trigger] posts[i])
}

/// What a reply to the token request means: the grant it holds, or why it
/// holds none. A usable reply has a successful status and a body that is a
/// JSON object describing a grant.
pub open spec fn grant_outcome(reply: ReplyView) -> Result<GrantView, FailureView> {
    match checked_body(reply) {
        Err(failure) => Err(failure),
        Ok(body) => match parsed_tree(body) {
            Some(tree) => match grant_of_tree(tree) {
                Some(grant) => Ok(grant),
                None => Err(FailureView::Malformed),
            },
            None => Err(FailureView::Malformed),
        },
    }
}

/// What a reply to a page request means: the page it holds, or why it holds
/// none. A usable reply has a successful status and a body that is a JSON
/// object describing a page of valid posts.
pub open spec fn page_outcome(reply: ReplyView) -> Result<PageView, FailureView> {
    match checked_body(reply) {
        Err(failure) => Err(failure),
        Ok(body) => match parsed_tree(body) {
            Some(tree) => match page_of_tree(tree) {
                Some(page) => if valid_posts(page.gfycats) {
                    Ok(page)
                } else {
                    Err(FailureView::Malformed)
                },
                None => Err(FailureView::Malformed),
            },
            None => Err(FailureView::Malformed),
        },
    }
}

impl GfycatPost {
    /// Decides whether the post may enter a listing.
    pub fn is_valid(&self) -> (ok: bool)
        ensures
            ok == valid_post(self@),
    {
        !self.gfy_id.as_str().is_empty() && url_parses(self.webm_url.as_str())
    }
}

impl AllGfycatsResponse {
    /// Decides whether every post on the page may enter a listing.
    pub fn is_valid(&self) -> (ok: bool)
        ensures
            ok == valid_posts(self@.gfycats),
    {
        let mut i: usize = 0;
        while i < self.gfycats.len()
            invariant
                i <= self.gfycats.len(),
                forall|k: int| 0 <= k < i ==> valid_post(#[trigger] posts_view(self.gfycats@)[k]),
            decreases self.gfycats.len() - i,
        {
            if !self.gfycats[i].is_valid() {
                assert(!valid_post(posts_view(self.gfycats@)[i as int]));
                return false;
            }
            i = i + 1;
        }
        true
    }

    /// Reads a page from a reply to a page request.
    pub fn from_reply(reply: &HttpReply) -> (r: Result<AllGfycatsResponse, ReplyFailure>)
        ensures
            r matches Ok(page) ==> page_outcome(reply@) == Ok::<PageView, FailureView>(page@),
            r matches Err(failure) ==> page_outcome(reply@) == Err::<PageView, FailureView>(failure@),
    {
        let body = match reply.body() {
            Ok(body) => body,
            Err(failure) => { return Err(failure); },
        };
        let doc = match Json::parse(body.as_slice()) {
            Some(doc) => doc,
            None => { return Err(ReplyFailure::Malformed); },
        };
        match AllGfycatsResponse::from_json(&doc) {
            Some(page) => if page.is_valid() {
                Ok(page)
            } else {
                Err(ReplyFailure::Malformed)
            },
            None => Err(ReplyFailure::Malformed),
        }
    }
}

impl GfycatClient {
    /// A client for the API at `base_url`, with the account's credentials.
    pub fn new(
        base_url: String,
        client_id: SecretText,
        client_secret: SecretText,
        username: String,
        password: SecretText,
    ) -> (client: GfycatClient)
        ensures
            client@ == (ClientView {
                base_url: base_url@,
                client_id: client_id@,
                client_secret: client_secret@,
                username: username@,
                password: password@,
            }),
    {
        GfycatClient { base_url, client_id, client_secret, username, password }
    }

    /// The request that asks for a token: the password grant of this
    /// account, as compact JSON, for the endpoint `/oauth/token`. This is
    /// the one place where the secrets are read.
    pub fn token_request(&self) -> (request: TokenRequest)
        ensures
            request.url@ == self@.base_url + "/oauth/token"@,
            request.body@ == crate::json::tree_text(grant_request_tree(self@)),
            request.timeout_secs == REQUEST_TIMEOUT_SECS,
    {
        let url = crate::text::joined(self.base_url.as_str(), "/oauth/token");
        let grant_type = String::from_str("password");
        let mut members: Vec<(String, Json)> = Vec::new();
        members.push(text_entry("client_id", self.client_id.expose_secret()));
        members.push(text_entry("client_secret", self.client_secret.expose_secret()));
        members.push(text_entry("username", &self.username));
        members.push(text_entry("password", self.password.expose_secret()));
        members.push(text_entry("grant_type", &grant_type));
        let doc = Json::Record(members);
        proof {
            crate::json::lemma_member_trees_of(members@);
            assert(crate::json::member_trees_of(members@) =~= grant_request_tree(self@)->Record_0);
        }
        TokenRequest { url, body: doc.to_text(), timeout_secs: REQUEST_TIMEOUT_SECS }
    }

    /// Reads the grant from the reply to the token request. Any failure is
    /// final: nothing is asked again.
    pub fn get_access_token(&self, reply: &HttpReply) -> (r: Result<ClientCredentialsGrantResponse, ReplyFailure>)
        ensures
            r matches Ok(grant) ==> grant_outcome(reply@) == Ok::<GrantView, FailureView>(grant@),
            r matches Err(failure) ==> grant_outcome(reply@) == Err::<GrantView, FailureView>(failure@),
    {
        let body = match reply.body() {
            Ok(body) => body,
            Err(failure) => { return Err(failure); },
        };
        let doc = match Json::parse(body.as_slice()) {
            Some(doc) => doc,
            None => { return Err(ReplyFailure::Malformed); },
        };
        match ClientCredentialsGrantResponse::from_json(&doc) {
            Some(grant) => Ok(grant),
            None => Err(ReplyFailure::Malformed),
        }
    }

    /// The request for the page at `cursor`.
    pub fn page_request(&self, access_token: &str, cursor: &str) -> (request: PageRequest)
        ensures
            request@ == page_request_view(self@, access_token@, cursor@),
    {
        PageRequest {
            url: crate::text::joined(self.base_url.as_str(), "/me/gfycats"),
            cursor: String::from_str(cursor),
            count: PAGE_SIZE,
            bearer: String::from_str(access_token),
            timeout_secs: REQUEST_TIMEOUT_SECS,
        }
    }

    /// Lists the posts over a recorded exchange: the replies are taken in
    /// order, from the empty cursor on, until the listing ends or the replies
    /// run out. Returns where the listing then stands and the requests that
    /// the replies answered, in order. Replies behind the one that ended the
    /// listing are not looked at.
    pub fn get_gfycats(&self, access_token: String, replies: &Vec<HttpReply>) -> (r: (Listing, Vec<PageRequest>))
        ensures
            r.0@ == listing_after(replies_view(replies@)),
            requests_view(r.1@) == requests_for(self@, access_token@, replies_view(replies@)),
    {
        let ghost all = replies_view(replies@);
        let mut listing = Listing::start();
        let mut requests: Vec<PageRequest> = Vec::new();
        let mut i: usize = 0;
        assert(all.take(0) =~= Seq::<ReplyView>::empty());
        assert(requests_view(requests@) =~= Seq::<PageRequestView>::empty());
        while i < replies.len()
            invariant
                i <= replies.len(),
                all == replies_view(replies@),
                listing@ == listing_after(all.take(i as int)),
                requests_view(requests@) == requests_for(self@, access_token@, all.take(i as int)),
            decreases replies.len() - i,
        {
            proof {
                let upto = all.take(i + 1);
                assert(upto.drop_last() =~= all.take(i as int));
                assert(upto.last() == replies[i as int]@);
            }
            let ghost asked = requests@;
            match listing.next_cursor() {
                Some(cursor) => {
                    let request = self.page_request(access_token.as_str(), cursor.as_str());
                    requests.push(request);
                    assert(requests_view(requests@) =~= requests_view(asked).push(request@));
                },
                None => {},
            }
            listing = listing.on_reply(&replies[i]);
            i = i + 1;
        }
        assert(all.take(replies.len() as int) =~= all);
        (listing, requests)
    }
}

} // verus!
