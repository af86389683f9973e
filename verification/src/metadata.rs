//! The record of a run: the listed posts as one JSON document.

use crate::gfycat_client::post_of_tree;
use crate::gfycat_client::posts_from_items;
use crate::gfycat_client::posts_of_trees;
use crate::gfycat_client::posts_view;
use crate::gfycat_client::text_member;
use crate::gfycat_client::GfycatPost;
use crate::gfycat_client::PostView;
use crate::json::lemma_member_trees_of;
use crate::json::lemma_trees_of;
use crate::json::lookup;
use crate::json::member_trees_of;
use crate::json::parsed_tree;
use crate::json::tree_pretty_text;
use crate::json::text_entry;
use crate::json::trees_of;
use crate::json::Json;
use crate::json::JsonTree;
use vstd::prelude::*;
use vstd::string::*;

verus! {

/// The name of the file that holds the record of a run.
pub const METADATA_FILE_NAME: &'static str = "post_metadata.json";

/// The JSON object that describes a post: its download URL under `webmUrl`,
/// then its title under `title`, then its id under `gfyId`.
pub open spec fn tree_of_post(post: PostView) -> JsonTree {
    JsonTree::Record(
        seq![
            ("webmUrl"@, JsonTree::Text(post.webm_url)),
            ("title"@, JsonTree::Text(post.title)),
            ("gfyId"@, JsonTree::Text(post.gfy_id)),
        ],
    )
}

/// The JSON array that describes a sequence of posts, in their order.
pub open spec fn tree_of_posts(posts: Seq<PostView>) -> JsonTree {
    JsonTree::List(Seq::new(posts.len(), |i: int| tree_of_post(posts[i])))
}

/// The posts that a JSON array describes, if each of its elements describes
/// one.
pub open spec fn posts_of_tree(tree: JsonTree) -> Option<Seq<PostView>> {
    match tree {
        JsonTree::List(items) => posts_of_trees(items),
        _ => None,
    }
}

impl GfycatPost {
    /// The JSON object that describes the post.
    pub fn to_json(&self) -> (doc: Json)
        ensures
            doc@ == tree_of_post(self@),
    {
        let mut members: Vec<(String, Json)> = Vec::new();
        members.push(text_entry("webmUrl", &self.webm_url));
        members.push(text_entry("title", &self.title));
        members.push(text_entry("gfyId", &self.gfy_id));
        proof {
            lemma_member_trees_of(members@);
            assert(member_trees_of(members@) =~= tree_of_post(self@)->Record_0);
        }
        Json::Record(members)
    }
}

/// The JSON array that describes `posts`.
pub fn metadata_document(posts: &Vec<GfycatPost>) -> (doc: Json)
    ensures
        doc@ == tree_of_posts(posts_view(posts@)),
{
    let mut items: Vec<Json> = Vec::new();
    let mut i: usize = 0;
    while i < posts.len()
        invariant
            i <= posts.len(),
            items.len() == i,
            forall|k: int| 0 <= k < i ==> (#[trigger] items[k])@ == tree_of_post(posts[k]@),
        decreases posts.len() - i,
    {
        items.push(posts[i].to_json());
        i = i + 1;
    }
    proof {
        lemma_trees_of(items@);
        assert(trees_of(items@) =~= tree_of_posts(posts_view(posts@))->List_0);
    }
    Json::List(items)
}

/// The record of a run as text: the JSON array that describes `posts`,
/// pretty-printed.
pub fn metadata_text(posts: &Vec<GfycatPost>) -> (text: String)
    ensures
        text@ == tree_pretty_text(tree_of_posts(posts_view(posts@))),
{
    metadata_document(posts).to_pretty_text()
}

/// Reads the posts back from the JSON array that describes them.
pub fn posts_from_document(doc: &Json) -> (posts: Option<Vec<GfycatPost>>)
    ensures
        posts is Some <==> posts_of_tree(doc@) is Some,
        posts matches Some(p) ==> posts_of_tree(doc@) == Some(posts_view(p@)),
{
    match doc.as_list() {
        Some(items) => posts_from_items(items),
        None => None,
    }
}

/// Reads the posts back from the record of a run; `None` where the bytes
/// are no JSON array of posts.
pub fn posts_from_metadata(bytes: &[u8]) -> (posts: Option<Vec<GfycatPost>>)
    ensures
        posts is Some <==> (parsed_tree(bytes@) matches Some(tree) && posts_of_tree(tree) is Some),
        posts matches Some(p) ==> (parsed_tree(bytes@) matches Some(tree) && posts_of_tree(tree) == Some(
            posts_view(p@),
        )),
{
    match Json::parse(bytes) {
        Some(doc) => posts_from_document(&doc),
        None => None,
    }
}

/// The object that describes a post describes that post and no other.
pub proof fn lemma_post_round_trip(post: PostView)
    ensures
        post_of_tree(tree_of_post(post)) == Some(post),
{
    reveal_strlit("webmUrl");
    reveal_strlit("title");
    reveal_strlit("gfyId");
    reveal_with_fuel(lookup, 4);
    let members = tree_of_post(post)->Record_0;
    assert("webmUrl"@.len() == 7 && "title"@.len() == 5 && "gfyId"@.len() == 5);
    assert("title"@[0] != "gfyId"@[0]);
    assert(members.drop_last().last() == members[1]);
    assert(members.drop_last().drop_last().last() == members[0]);
    assert(text_member(tree_of_post(post), "gfyId"@) == Some(post.gfy_id));
    assert(text_member(tree_of_post(post), "title"@) == Some(post.title));
    assert(text_member(tree_of_post(post), "webmUrl"@) == Some(post.webm_url));
}

/// The record round-trips. Reading back the document that describes a
/// sequence of posts yields the same posts: the same fields, in the same
/// order.
pub proof fn lemma_metadata_round_trip(posts: Seq<PostView>)
    ensures
        posts_of_tree(tree_of_posts(posts)) == Some(posts),
{
    let items = tree_of_posts(posts)->List_0;
    assert forall|i: int| 0 <= i < items.len() implies (#[trigger] post_of_tree(items[i])) == Some(posts[i]) by {
        lemma_post_round_trip(posts[i]);
    }
    assert(posts_of_trees(items)->Some_0 =~= posts);
}

} // verus!
